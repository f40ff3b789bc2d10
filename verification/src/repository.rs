use vstd::prelude::*;
use crate::dto::{DirDto, FileDto, UserDirCreateResult};
use crate::paths::child_path;
use crate::text::to_owned_string;

verus! {

/// Text of a query that found no row where one was required.
pub const ROW_NOT_FOUND_MESSAGE: &'static str =
    "no rows returned by a query that expected to return at least one row";

/// Role of the user who creates a directory.
pub const OWNER_ROLE: &'static str = "OWNER";

/// Why a database step failed.
#[derive(Debug)]
pub enum RepoError {
    /// A row that the step needs does not exist.
    RowNotFound,
    /// The database reported an error, with its text.
    Database(String),
}

impl RepoError {
    /// The text of the error.
    pub open spec fn text(&self) -> Seq<char> {
        match self {
            RepoError::RowNotFound => ROW_NOT_FOUND_MESSAGE@,
            RepoError::Database(m) => m@,
        }
    }

    /// The text of the error.
    pub fn to_message(&self) -> (r: String)
        ensures
            r@ == self.text(),
    {
        match self {
            RepoError::RowNotFound => to_owned_string(ROW_NOT_FOUND_MESSAGE),
            RepoError::Database(m) => to_owned_string(m.as_str()),
        }
    }
}

/// A row of `files` as inserted.
#[derive(Debug)]
pub struct FileRecord {
    pub id: i64,
    pub name: String,
    pub size: i64,
    pub mime_type: Option<String>,
    pub storage_key: String,
    pub hash: String,
    pub created_at: chrono::NaiveDateTime,
}

/// A row of `dirs` as inserted.
#[derive(Debug)]
pub struct DirRecord {
    pub id: i64,
    pub name: String,
    pub parent_id: Option<i64>,
    pub created_at: chrono::NaiveDateTime,
}

/// The directories and files of one user.
pub struct StorageRepository {
    pub user_id: i64,
}

// --- create_file ---------------------------------------------------------------

/// A new file, waiting for the directory of the user's `user_dir_id` link to be found.
pub struct CreateFileAwaitingDir {
    pub user_id: i64,
    pub user_dir_id: i64,
    pub name: String,
    pub size: i64,
    pub mime_type: Option<String>,
    pub storage_key: String,
    pub hash: String,
}

/// A new file, waiting for its row to be inserted.
pub struct CreateFileAwaitingInsert {
    pub dir_id: i64,
    pub name: String,
    pub size: i64,
    pub mime_type: Option<String>,
    pub storage_key: String,
    pub hash: String,
}

/// A new file, waiting to be linked to its directory.
pub struct CreateFileAwaitingLink {
    pub dir_id: i64,
    pub file: FileRecord,
}

// --- create_directory ------------------------------------------------------------

/// A new directory, waiting for the directory behind its parent link to be found.
pub struct CreateDirAwaitingParent {
    pub user_id: i64,
    pub name: String,
    pub parent_user_dir_id: i64,
}

/// A new directory, waiting for its row to be inserted.
pub struct CreateDirAwaitingInsert {
    pub user_id: i64,
    pub name: String,
    pub parent_dir_id: Option<i64>,
}

/// A new directory, waiting for the user's ownership link to be inserted.
pub struct CreateDirAwaitingOwnership {
    pub user_id: i64,
    pub dir: DirRecord,
}

/// The first step of creating a directory.
pub enum CreateDirStart {
    FindParent(CreateDirAwaitingParent),
    Insert(CreateDirAwaitingInsert),
}

// --- delete_file_by_storage_key ------------------------------------------------------

/// A deletion, waiting for the file with the storage key to be found.
pub struct DeleteFileAwaitingId {
    pub storage_key: String,
}

/// A deletion, waiting for the links of the file to directories to be removed.
pub struct DeleteFileAwaitingLinks {
    pub file_id: i64,
}

/// A deletion, waiting for the row of the file to be removed.
pub struct DeleteFileAwaitingRow {
    pub file_id: i64,
}

/// What follows the lookup of a file to delete.
pub enum DeleteFileNext {
    Done(Result<(), RepoError>),
    DeleteLinks(DeleteFileAwaitingLinks),
}

// --- delete_directory ------------------------------------------------------------

/// A deletion, waiting for the directory behind the user's link to be found.
pub struct DeleteDirAwaitingLookup {
    pub user_id: i64,
    pub user_dir_id: i64,
}

/// A deletion, waiting for the user's link to be removed.
pub struct DeleteDirAwaitingLink {
    pub user_dir_id: i64,
    pub dir_id: i64,
}

/// A deletion, waiting for the directory row to be removed.
pub struct DeleteDirAwaitingRow {
    pub dir_id: i64,
}

impl StorageRepository {
    pub fn new(user_id: i64) -> (r: Self)
        ensures
            r.user_id == user_id,
    {
        Self { user_id }
    }

    /// Starts recording an uploaded file in the directory of the link `user_dir_id`.
    pub fn create_file(
        &self,
        name: String,
        size: i64,
        mime_type: Option<String>,
        storage_key: String,
        hash: String,
        user_dir_id: i64,
    ) -> (r: CreateFileAwaitingDir)
        ensures
            r.user_id == self.user_id,
            r.user_dir_id == user_dir_id,
            r.name == name,
            r.size == size,
            r.mime_type == mime_type,
            r.storage_key == storage_key,
            r.hash == hash,
    {
        CreateFileAwaitingDir {
            user_id: self.user_id,
            user_dir_id,
            name,
            size,
            mime_type,
            storage_key,
            hash,
        }
    }

    /// Starts creating a directory; under a parent link its directory is looked up first.
    pub fn create_directory(&self, name: String, parent_user_dir_id: Option<i64>) -> (r:
        CreateDirStart)
        ensures
            parent_user_dir_id matches Some(p) ==> (r matches CreateDirStart::FindParent(s)
                && s.user_id == self.user_id && s.name == name && s.parent_user_dir_id == p),
            parent_user_dir_id is None ==> (r matches CreateDirStart::Insert(s) && s.user_id
                == self.user_id && s.name == name && s.parent_dir_id is None),
    {
        match parent_user_dir_id {
            Some(p) => CreateDirStart::FindParent(
                CreateDirAwaitingParent { user_id: self.user_id, name, parent_user_dir_id: p },
            ),
            None => CreateDirStart::Insert(
                CreateDirAwaitingInsert { user_id: self.user_id, name, parent_dir_id: None },
            ),
        }
    }

    /// Starts deleting the file stored under `storage_key`.
    pub fn delete_file_by_storage_key(&self, storage_key: String) -> (r: DeleteFileAwaitingId)
        ensures
            r.storage_key == storage_key,
    {
        DeleteFileAwaitingId { storage_key }
    }

    /// Starts deleting the directory behind the user's link `user_dir_id`.
    pub fn delete_directory(&self, user_dir_id: i64) -> (r: DeleteDirAwaitingLookup)
        ensures
            r.user_id == self.user_id,
            r.user_dir_id == user_dir_id,
    {
        DeleteDirAwaitingLookup { user_id: self.user_id, user_dir_id }
    }
}

impl CreateFileAwaitingDir {
    /// Decides on the lookup: no directory of this user is `RowNotFound`, a failure is
    /// passed on, a directory lets the file row be inserted.
    pub fn on_dir_lookup(self, found: Result<Option<i64>, RepoError>) -> (r: Result<
        CreateFileAwaitingInsert,
        RepoError,
    >)
        ensures
            found matches Err(e) ==> (r matches Err(e2) && e2 == e),
            found matches Ok(None) ==> (r matches Err(RepoError::RowNotFound)),
            found matches Ok(Some(d)) ==> (r matches Ok(next) && next.dir_id == d && next.name
                == self.name && next.size == self.size && next.mime_type == self.mime_type
                && next.storage_key == self.storage_key && next.hash == self.hash),
    {
        match found {
            Err(e) => Err(e),
            Ok(None) => Err(RepoError::RowNotFound),
            Ok(Some(dir_id)) => Ok(
                CreateFileAwaitingInsert {
                    dir_id,
                    name: self.name,
                    size: self.size,
                    mime_type: self.mime_type,
                    storage_key: self.storage_key,
                    hash: self.hash,
                },
            ),
        }
    }
}

impl CreateFileAwaitingInsert {
    /// Decides on the insertion: the new row is to be linked to the directory.
    pub fn on_file_inserted(self, inserted: Result<FileRecord, RepoError>) -> (r: Result<
        CreateFileAwaitingLink,
        RepoError,
    >)
        ensures
            inserted matches Err(e) ==> (r matches Err(e2) && e2 == e),
            inserted matches Ok(row) ==> (r matches Ok(next) && next.dir_id == self.dir_id
                && next.file == row),
    {
        match inserted {
            Err(e) => Err(e),
            Ok(file) => Ok(CreateFileAwaitingLink { dir_id: self.dir_id, file }),
        }
    }
}

impl CreateFileAwaitingLink {
    /// Decides on the link: the file as inserted, without tags.
    pub fn on_linked(self, linked: Result<(), RepoError>) -> (r: Result<FileDto, RepoError>)
        ensures
            linked matches Err(e) ==> (r matches Err(e2) && e2 == e),
            linked is Ok ==> (r matches Ok(f) && f.id == self.file.id && f.name == self.file.name
                && f.size == self.file.size && f.mime_type == self.file.mime_type && f.storage_key
                == self.file.storage_key && f.hash == self.file.hash && f.created_at
                == self.file.created_at && f.tags@.len() == 0),
    {
        match linked {
            Err(e) => Err(e),
            Ok(()) => Ok(
                FileDto {
                    id: self.file.id,
                    name: self.file.name,
                    size: self.file.size,
                    mime_type: self.file.mime_type,
                    storage_key: self.file.storage_key,
                    hash: self.file.hash,
                    created_at: self.file.created_at,
                    tags: Vec::new(),
                },
            ),
        }
    }
}

impl CreateDirAwaitingParent {
    /// Decides on the lookup of the parent: the directory row gets that parent, or
    /// none when the link is not the user's.
    pub fn on_parent_lookup(self, found: Result<Option<i64>, RepoError>) -> (r: Result<
        CreateDirAwaitingInsert,
        RepoError,
    >)
        ensures
            found matches Err(e) ==> (r matches Err(e2) && e2 == e),
            found matches Ok(p) ==> (r matches Ok(next) && next.user_id == self.user_id
                && next.name == self.name && next.parent_dir_id == p),
    {
        match found {
            Err(e) => Err(e),
            Ok(p) => Ok(
                CreateDirAwaitingInsert { user_id: self.user_id, name: self.name, parent_dir_id: p },
            ),
        }
    }
}

impl CreateDirAwaitingInsert {
    /// Decides on the insertion: the user is to be made owner of the new directory.
    pub fn on_dir_inserted(self, inserted: Result<DirRecord, RepoError>) -> (r: Result<
        CreateDirAwaitingOwnership,
        RepoError,
    >)
        ensures
            inserted matches Err(e) ==> (r matches Err(e2) && e2 == e),
            inserted matches Ok(d) ==> (r matches Ok(next) && next.user_id == self.user_id
                && next.dir == d),
    {
        match inserted {
            Err(e) => Err(e),
            Ok(dir) => Ok(CreateDirAwaitingOwnership { user_id: self.user_id, dir }),
        }
    }
}

impl CreateDirAwaitingOwnership {
    /// Decides on the ownership link: the new directory, owned.
    pub fn on_owner_linked(self, linked: Result<(), RepoError>) -> (r: Result<
        UserDirCreateResult,
        RepoError,
    >)
        ensures
            linked matches Err(e) ==> (r matches Err(e2) && e2 == e),
            linked is Ok ==> (r matches Ok(res) && res.dir.id == self.dir.id && res.dir.name
                == self.dir.name && res.dir.parent_id == self.dir.parent_id && res.dir.role@
                == OWNER_ROLE@ && res.dir.created_at == self.dir.created_at),
    {
        match linked {
            Err(e) => Err(e),
            Ok(()) => Ok(
                UserDirCreateResult {
                    dir: DirDto {
                        id: self.dir.id,
                        name: self.dir.name,
                        parent_id: self.dir.parent_id,
                        role: to_owned_string(OWNER_ROLE),
                        created_at: self.dir.created_at,
                    },
                },
            ),
        }
    }
}

impl DeleteFileAwaitingId {
    /// Decides on the lookup: no such file deletes nothing and succeeds.
    pub fn on_file_lookup(self, found: Result<Option<i64>, RepoError>) -> (r: DeleteFileNext)
        ensures
            found matches Err(e) ==> (r matches DeleteFileNext::Done(Err(e2)) && e2 == e),
            found matches Ok(None) ==> (r matches DeleteFileNext::Done(Ok(()))),
            found matches Ok(Some(id)) ==> (r matches DeleteFileNext::DeleteLinks(next)
                && next.file_id == id),
    {
        match found {
            Err(e) => DeleteFileNext::Done(Err(e)),
            Ok(None) => DeleteFileNext::Done(Ok(())),
            Ok(Some(file_id)) => DeleteFileNext::DeleteLinks(DeleteFileAwaitingLinks { file_id }),
        }
    }
}

impl DeleteFileAwaitingLinks {
    /// Decides once the links are removed: the row is next.
    pub fn on_links_deleted(self, deleted: Result<(), RepoError>) -> (r: Result<
        DeleteFileAwaitingRow,
        RepoError,
    >)
        ensures
            deleted matches Err(e) ==> (r matches Err(e2) && e2 == e),
            deleted is Ok ==> (r matches Ok(next) && next.file_id == self.file_id),
    {
        match deleted {
            Err(e) => Err(e),
            Ok(()) => Ok(DeleteFileAwaitingRow { file_id: self.file_id }),
        }
    }
}

impl DeleteFileAwaitingRow {
    /// Decides once the row is removed.
    pub fn on_row_deleted(self, deleted: Result<(), RepoError>) -> (r: Result<(), RepoError>)
        ensures
            r == deleted,
    {
        deleted
    }
}

impl DeleteDirAwaitingLookup {
    /// Decides on the lookup: a link that is not the user's is `RowNotFound`.
    pub fn on_dir_lookup(self, found: Result<Option<i64>, RepoError>) -> (r: Result<
        DeleteDirAwaitingLink,
        RepoError,
    >)
        ensures
            found matches Err(e) ==> (r matches Err(e2) && e2 == e),
            found matches Ok(None) ==> (r matches Err(RepoError::RowNotFound)),
            found matches Ok(Some(d)) ==> (r matches Ok(next) && next.dir_id == d
                && next.user_dir_id == self.user_dir_id),
    {
        match found {
            Err(e) => Err(e),
            Ok(None) => Err(RepoError::RowNotFound),
            Ok(Some(dir_id)) => Ok(
                DeleteDirAwaitingLink { user_dir_id: self.user_dir_id, dir_id },
            ),
        }
    }
}

impl DeleteDirAwaitingLink {
    /// Decides once the link is removed: the directory row is next.
    pub fn on_link_deleted(self, deleted: Result<(), RepoError>) -> (r: Result<
        DeleteDirAwaitingRow,
        RepoError,
    >)
        ensures
            deleted matches Err(e) ==> (r matches Err(e2) && e2 == e),
            deleted is Ok ==> (r matches Ok(next) && next.dir_id == self.dir_id),
    {
        match deleted {
            Err(e) => Err(e),
            Ok(()) => Ok(DeleteDirAwaitingRow { dir_id: self.dir_id }),
        }
    }
}

impl DeleteDirAwaitingRow {
    /// Decides once the directory row is removed.
    pub fn on_row_deleted(self, deleted: Result<(), RepoError>) -> (r: Result<(), RepoError>)
        ensures
            r == deleted,
    {
        deleted
    }
}

// --- The tables as the steps change them ------------------------------------------

/// The names from the top of the directory tree down to directory `id`, as the
/// recursive path query collects them from `dirs` (name and parent by id), following
/// at most `depth` parents; none when the chain leaves the table or is longer.
pub open spec fn dir_names(
    dirs: Map<i64, (Seq<char>, Option<i64>)>,
    id: i64,
    depth: nat,
) -> Option<Seq<Seq<char>>>
    decreases depth,
{
    if !dirs.contains_key(id) {
        None
    } else {
        match dirs[id].1 {
            None => Some(seq![dirs[id].0]),
            Some(p) => if depth == 0 {
                None
            } else {
                match dir_names(dirs, p, (depth - 1) as nat) {
                    Some(ns) => Some(ns.push(dirs[id].0)),
                    None => None,
                }
            },
        }
    }
}

/// Names joined by `/` in order, as the path query joins them; empty for none.
pub open spec fn join_names(names: Seq<Seq<char>>) -> Seq<char>
    decreases names.len(),
{
    if names.len() == 0 {
        Seq::<char>::empty()
    } else if names.len() == 1 {
        names[0]
    } else {
        join_names(names.drop_last()) + seq!['/'] + names.last()
    }
}

/// A new row of `dirs` leaves the path of every directory that already had one as
/// it was.
proof fn lemma_insert_keeps_dir_names(
    dirs: Map<i64, (Seq<char>, Option<i64>)>,
    new_id: i64,
    row: (Seq<char>, Option<i64>),
    id: i64,
    depth: nat,
)
    requires
        !dirs.contains_key(new_id),
        dir_names(dirs, id, depth) is Some,
    ensures
        dir_names(dirs.insert(new_id, row), id, depth) == dir_names(dirs, id, depth),
    decreases depth,
{
    let after = dirs.insert(new_id, row);
    assert(after.contains_key(id) && after[id] == dirs[id]);
    if let Some(p) = dirs[id].1 {
        if depth > 0 {
            lemma_insert_keeps_dir_names(dirs, new_id, row, p, (depth - 1) as nat);
        }
    }
}

/// The database path of a new directory agrees with the path it was created at on
/// disk: a row `new_id` inserted into `dirs` with `name` under parent `parent_id`,
/// whose database path is the non-empty `P`, has the database path
/// `child_path(P, name)`, the path the directory was created at.
pub proof fn lemma_new_dir_path_agrees(
    dirs: Map<i64, (Seq<char>, Option<i64>)>,
    parent_id: i64,
    new_id: i64,
    name: Seq<char>,
    depth: nat,
)
    requires
        !dirs.contains_key(new_id),
        dir_names(dirs, parent_id, depth) is Some,
        join_names(dir_names(dirs, parent_id, depth)->0).len() > 0,
    ensures
        dir_names(dirs.insert(new_id, (name, Some(parent_id))), new_id, depth + 1) is Some,
        join_names(
            dir_names(dirs.insert(new_id, (name, Some(parent_id))), new_id, depth + 1)->0,
        ) == child_path(join_names(dir_names(dirs, parent_id, depth)->0), name),
{
    let after = dirs.insert(new_id, (name, Some(parent_id)));
    lemma_insert_keeps_dir_names(dirs, new_id, (name, Some(parent_id)), parent_id, depth);
    let ns = dir_names(dirs, parent_id, depth)->0;
    assert(dir_names(after, new_id, depth + 1) == Some(ns.push(name)));
    assert(ns.len() > 0);
    assert(ns.push(name).drop_last() =~= ns);
    assert(ns.push(name).last() == name);
}

/// The storage key of each file by id (`files`), and the links of files to
/// directories as (directory, file) pairs (`dir_files`), after deleting the file
/// stored under `key` as the deletion steps do: the file with that key, if there is
/// one, loses its links and then its row; with none nothing changes.
pub open spec fn delete_file_rows(
    files: Map<i64, Seq<char>>,
    links: Set<(i64, i64)>,
    key: Seq<char>,
) -> (Map<i64, Seq<char>>, Set<(i64, i64)>) {
    if exists|id: i64| #[trigger] files.contains_key(id) && files[id] == key {
        let id = choose|id: i64| #[trigger] files.contains_key(id) && files[id] == key;
        (files.remove(id), links.filter(|l: (i64, i64)| l.1 != id))
    } else {
        (files, links)
    }
}

/// Deleting a file by its storage key is idempotent: where at most one file has the
/// key, afterwards none has it, no link names the removed file, every other file
/// and link is as it was, and a second deletion with the key changes nothing.
pub proof fn lemma_delete_file_idempotent(
    files: Map<i64, Seq<char>>,
    links: Set<(i64, i64)>,
    key: Seq<char>,
)
    requires
        forall|a: i64, b: i64|
            #![trigger files.contains_key(a), files.contains_key(b)]
            files.contains_key(a) && files.contains_key(b) && files[a] == key && files[b] == key
                ==> a == b,
    ensures
        forall|id: i64| #[trigger]
            delete_file_rows(files, links, key).0.contains_key(id) ==> delete_file_rows(
                files,
                links,
                key,
            ).0[id] != key,
        forall|id: i64| #[trigger]
            files.contains_key(id) && files[id] != key ==> delete_file_rows(
                files,
                links,
                key,
            ).0.contains_key(id) && delete_file_rows(files, links, key).0[id] == files[id],
        forall|l: (i64, i64)| #[trigger]
            delete_file_rows(files, links, key).1.contains(l) ==> links.contains(l) && !(
            files.contains_key(l.1) && files[l.1] == key),
        forall|l: (i64, i64)| #[trigger]
            links.contains(l) && !(files.contains_key(l.1) && files[l.1] == key)
                ==> delete_file_rows(files, links, key).1.contains(l),
        delete_file_rows(delete_file_rows(files, links, key).0, delete_file_rows(files, links, key).1, key)
            == delete_file_rows(files, links, key),
{
    let after = delete_file_rows(files, links, key);
    if exists|id: i64| #[trigger] files.contains_key(id) && files[id] == key {
        let id = choose|id: i64| #[trigger] files.contains_key(id) && files[id] == key;
        assert(after.0 == files.remove(id));
        assert forall|other: i64| #[trigger] after.0.contains_key(other) implies after.0[other]
            != key by {
            if files[other] == key {
                assert(files.contains_key(other) && files.contains_key(id));
            }
        }
        assert forall|l: (i64, i64)| #[trigger] after.1.contains(l) implies links.contains(l)
            && !(files.contains_key(l.1) && files[l.1] == key) by {
            if files.contains_key(l.1) && files[l.1] == key {
                assert(files.contains_key(l.1) && files.contains_key(id));
            }
        }
        assert(!(exists|i: i64| #[trigger] after.0.contains_key(i) && after.0[i] == key));
    } else {
        assert(!(exists|i: i64| #[trigger] after.0.contains_key(i) && after.0[i] == key));
    }
}

} // verus!
