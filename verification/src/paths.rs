use vstd::prelude::*;
use crate::text::{
    chars_of, concat, concat3, last_index_of, lemma_last_index_of_bounds, string_of_range,
    to_owned_string,
};

verus! {

/// `base` joined with `p` as `PathBuf::join` does on Unix: an absolute `p`
/// replaces `base`; otherwise a `/` is put between them unless `base` is empty
/// or already ends with one.
pub open spec fn join_path(base: Seq<char>, p: Seq<char>) -> Seq<char> {
    if p.len() > 0 && p[0] == '/' {
        p
    } else if base.len() == 0 || base.last() == '/' {
        base + p
    } else {
        base + seq!['/'] + p
    }
}

/// The storage path of `name` inside the directory path `parent`: `name` itself at
/// the top, else `parent/name`.
pub open spec fn child_path(parent: Seq<char>, name: Seq<char>) -> Seq<char> {
    if parent.len() == 0 {
        name
    } else {
        parent + seq!['/'] + name
    }
}

/// The directory part of a storage path: what precedes its last `/`, or nothing.
pub open spec fn parent_path(p: Seq<char>) -> Seq<char> {
    let i = last_index_of(p, '/');
    if i >= 0 {
        p.take(i)
    } else {
        Seq::<char>::empty()
    }
}

/// The last component of a path, as `Path::file_name` finds it: trailing `/` and
/// `.` components are skipped; a path that ends in `..` or has no normal
/// component has none.
pub open spec fn file_name_spec(p: Seq<char>) -> Option<Seq<char>>
    decreases p.len(),
{
    let i = last_index_of(p, '/');
    let seg = p.skip(i + 1);
    if seg.len() == 0 || seg == seq!['.'] {
        if i < 0 {
            None
        } else {
            proof {
                lemma_last_index_of_bounds(p, '/');
            }
            file_name_spec(p.take(i))
        }
    } else if seg == seq!['.', '.'] {
        None
    } else {
        Some(seg)
    }
}

/// `name` has no `/`.
pub open spec fn is_single_component(name: Seq<char>) -> bool {
    forall|i: int| 0 <= i < name.len() ==> name[i] != '/'
}

proof fn lemma_last_index_of_append(a: Seq<char>, b: Seq<char>, c: char)
    requires
        forall|i: int| 0 <= i < b.len() ==> b[i] != c,
    ensures
        last_index_of(a + b, c) == last_index_of(a, c),
    decreases b.len(),
{
    if b.len() == 0 {
        assert(a + b =~= a);
    } else {
        assert((a + b).drop_last() =~= a + b.drop_last());
        assert((a + b).last() == b.last());
        lemma_last_index_of_append(a, b.drop_last(), c);
    }
}

/// The file name of a path never holds a `/`.
pub proof fn lemma_file_name_single_component(p: Seq<char>)
    ensures
        file_name_spec(p) matches Some(n) ==> is_single_component(n),
    decreases p.len(),
{
    let i = last_index_of(p, '/');
    lemma_last_index_of_bounds(p, '/');
    let seg = p.skip(i + 1);
    if seg.len() == 0 || seg == seq!['.'] {
        if i >= 0 {
            lemma_file_name_single_component(p.take(i));
        }
    } else {
        assert forall|k: int| 0 <= k < seg.len() implies seg[k] != '/' by {
            assert(seg[k] == p[k + i + 1]);
        }
    }
}

/// Law: a directory or file put inside a directory path lies directly under it, as
/// long as its own name has no `/`.
pub proof fn lemma_parent_of_child(parent: Seq<char>, name: Seq<char>)
    requires
        is_single_component(name),
    ensures
        parent_path(child_path(parent, name)) == parent,
{
    if parent.len() == 0 {
        lemma_last_index_of_append(Seq::<char>::empty(), name, '/');
        assert(Seq::<char>::empty() + name =~= name);
    } else {
        let with_slash = parent + seq!['/'];
        lemma_last_index_of_append(with_slash, name, '/');
        assert(with_slash.last() == '/');
        assert(parent + seq!['/'] + name == with_slash + name);
        assert((with_slash + name).take(parent.len() as int) =~= parent);
    }
}

/// Law: renaming keeps the parent — the path a directory is renamed to lies under
/// the same parent as its old path, for any new name without `/`.
pub proof fn lemma_rename_keeps_parent(old_path: Seq<char>, new_name: Seq<char>)
    requires
        is_single_component(new_name),
    ensures
        parent_path(child_path(parent_path(old_path), new_name)) == parent_path(old_path),
{
    lemma_parent_of_child(parent_path(old_path), new_name);
}

/// `base` joined with `p` (`PathBuf::join` on Unix).
pub fn path_join(base: &str, p: &str) -> (r: String)
    ensures
        r@ == join_path(base@, p@),
{
    let pc = chars_of(p);
    if pc.len() > 0 && pc[0] == '/' {
        return to_owned_string(p);
    }
    let bc = chars_of(base);
    if bc.len() == 0 || bc[bc.len() - 1] == '/' {
        concat(base, p)
    } else {
        let r = concat3(base, "/", p);
        proof {
            reveal_strlit("/");
            assert(seq!['/'] =~= "/"@);
        }
        r
    }
}

/// The storage path of `name` inside `parent` (`name`, or `parent/name`).
pub fn child_of(parent: &str, name: &str) -> (r: String)
    ensures
        r@ == child_path(parent@, name@),
{
    if parent.is_empty() {
        to_owned_string(name)
    } else {
        let r = concat3(parent, "/", name);
        proof {
            reveal_strlit("/");
            assert(seq!['/'] =~= "/"@);
        }
        r
    }
}

/// Index of the last `/` in `v`, or `v.len()` when there is none.
fn last_slash(v: &[char]) -> (r: usize)
    ensures
        last_index_of(v@, '/') >= 0 ==> r == last_index_of(v@, '/'),
        last_index_of(v@, '/') < 0 ==> r == v.len(),
{
    let mut i: usize = v.len();
    assert(v@.take(v.len() as int) =~= v@);
    while i > 0
        invariant
            i <= v.len(),
            last_index_of(v@, '/') == last_index_of(v@.take(i as int), '/'),
        decreases i,
    {
        if v[i - 1] == '/' {
            assert(v@.take(i as int).last() == '/');
            return i - 1;
        }
        assert(v@.take(i as int).drop_last() =~= v@.take(i - 1));
        i = i - 1;
    }
    assert(v@.take(0) =~= Seq::<char>::empty());
    v.len()
}

/// The directory part of a storage path (what precedes its last `/`).
pub fn parent_of(p: &str) -> (r: String)
    ensures
        r@ == parent_path(p@),
{
    let v = chars_of(p);
    let i = last_slash(v.as_slice());
    proof {
        lemma_last_index_of_bounds(v@, '/');
    }
    if i < v.len() {
        let r = string_of_range(v.as_slice(), 0, i);
        assert(r@ =~= v@.take(i as int));
        r
    } else {
        String::new()
    }
}

/// Bounds of the file name of `v[..len]` within `v`.
fn file_name_bounds(v: &[char], len: usize) -> (r: Option<(usize, usize)>)
    requires
        len <= v.len(),
    ensures
        file_name_spec(v@.take(len as int)) is None ==> r is None,
        file_name_spec(v@.take(len as int)) matches Some(n) ==> (r matches Some(b) && b.0 <= b.1
            <= len && v@.subrange(b.0 as int, b.1 as int) == n),
    decreases len,
{
    let ghost p = v@.take(len as int);
    let mut i: usize = len;
    assert(p.take(len as int) =~= p);
    while i > 0 && v[i - 1] != '/'
        invariant
            i <= len <= v.len(),
            p == v@.take(len as int),
            last_index_of(p, '/') == last_index_of(p.take(i as int), '/'),
        decreases i,
    {
        assert(p.take(i as int).last() == v@[i - 1]);
        assert(p.take(i as int).drop_last() =~= p.take(i - 1));
        i = i - 1;
    }
    proof {
        if i > 0 {
            assert(p.take(i as int).last() == '/');
        } else {
            assert(p.take(0) =~= Seq::<char>::empty());
        }
    }
    let ghost li = last_index_of(p, '/');
    assert(li == i - 1);
    let ghost seg = p.skip(li + 1);
    assert(seg =~= v@.subrange(i as int, len as int));
    let seg_len = len - i;
    if seg_len == 0 || (seg_len == 1 && v[i] == '.') {
        proof {
            if seg_len == 1 {
                assert(seg =~= seq!['.']);
            }
        }
        if i == 0 {
            None
        } else {
            proof {
                assert(p.take(li) =~= v@.take(i - 1));
            }
            file_name_bounds(v, i - 1)
        }
    } else if seg_len == 2 && v[i] == '.' && v[i + 1] == '.' {
        assert(seg =~= seq!['.', '.']);
        None
    } else {
        proof {
            if seg_len == 1 {
                assert(seg != seq!['.']) by {
                    assert(seg[0] != '.');
                }
            }
            if seg_len == 2 {
                assert(seg != seq!['.', '.']) by {
                    assert(seg[0] != '.' || seg[1] != '.');
                }
            }
        }
        Some((i, len))
    }
}

/// The file name of a path (`Path::file_name`), if it has one.
pub fn file_name_of(p: &str) -> (r: Option<String>)
    ensures
        r matches Some(n) ==> file_name_spec(p@) == Some(n@),
        r is None ==> file_name_spec(p@) is None,
{
    let v = chars_of(p);
    assert(v@.take(v.len() as int) =~= v@);
    match file_name_bounds(v.as_slice(), v.len()) {
        Some((a, b)) => Some(string_of_range(v.as_slice(), a, b)),
        None => None,
    }
}

} // verus!
