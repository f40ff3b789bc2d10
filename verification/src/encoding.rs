use vstd::prelude::*;
use base64::Engine;
use sha2::Digest;

verus! {

// ---------------------------------------------------------------------------
// Lower-case hexadecimal.
// ---------------------------------------------------------------------------

/// The lower-case hexadecimal digit of `d` (`0 <= d < 16`).
pub open spec fn hex_digit(d: int) -> char {
    if d < 10 {
        (d + 48) as char
    } else {
        (d + 87) as char
    }
}

/// Lower-case hexadecimal text of a byte string: two digits per byte, high nibble first.
pub open spec fn hex_lower(b: Seq<u8>) -> Seq<char>
    decreases b.len(),
{
    if b.len() == 0 {
        seq![]
    } else {
        seq![hex_digit((b[0] as int) / 16), hex_digit((b[0] as int) % 16)] + hex_lower(b.skip(1))
    }
}

/// `c` is one of `0-9a-f`.
pub open spec fn is_lower_hex_char(c: char) -> bool {
    ('0' <= c && c <= '9') || ('a' <= c && c <= 'f')
}

pub proof fn lemma_hex_lower_shape(b: Seq<u8>)
    ensures
        hex_lower(b).len() == 2 * b.len(),
        forall|i: int| 0 <= i < hex_lower(b).len() ==> is_lower_hex_char(#[trigger] hex_lower(b)[i]),
    decreases b.len(),
{
    if b.len() > 0 {
        lemma_hex_lower_shape(b.skip(1));
        let head = seq![hex_digit((b[0] as int) / 16), hex_digit((b[0] as int) % 16)];
        let tail = hex_lower(b.skip(1));
        assert forall|i: int| 0 <= i < hex_lower(b).len() implies is_lower_hex_char(
            #[trigger] hex_lower(b)[i],
        ) by {
            if i >= 2 {
                assert(hex_lower(b)[i] == tail[i - 2]);
            }
        }
    }
}

/// Lower-case hexadecimal text of `data` (`hex::encode`).
#[verifier::external_body]
fn hex_encode_lower(data: &[u8]) -> (r: String)
    ensures
        r@ == hex_lower(data@),
{
    hex::encode(data)
}

/// Lower-case hexadecimal text of a byte string.
pub fn to_hex(data: &[u8]) -> (r: String)
    ensures
        r@ == hex_lower(data@),
        r@.len() == 2 * data@.len(),
{
    proof {
        lemma_hex_lower_shape(data@);
    }
    hex_encode_lower(data)
}

// ---------------------------------------------------------------------------
// URL-safe base64 without padding.
// ---------------------------------------------------------------------------

/// The character of the 6-bit value `v` in the URL-safe base64 alphabet
/// `A-Z a-z 0-9 - _`.
pub open spec fn b64_char(v: int) -> char {
    if v < 26 {
        (v + 65) as char
    } else if v < 52 {
        (v + 71) as char
    } else if v < 62 {
        (v - 4) as char
    } else if v == 62 {
        '-'
    } else {
        '_'
    }
}

/// URL-safe base64 encoding without padding: every 3 bytes become 4 characters,
/// a trailing 1 or 2 bytes become 2 or 3 characters.
pub open spec fn b64_url_nopad(b: Seq<u8>) -> Seq<char>
    decreases b.len(),
{
    if b.len() == 0 {
        seq![]
    } else if b.len() == 1 {
        seq![b64_char((b[0] as int) / 4), b64_char(((b[0] as int) % 4) * 16)]
    } else if b.len() == 2 {
        seq![
            b64_char((b[0] as int) / 4),
            b64_char(((b[0] as int) % 4) * 16 + (b[1] as int) / 16),
            b64_char(((b[1] as int) % 16) * 4),
        ]
    } else {
        seq![
            b64_char((b[0] as int) / 4),
            b64_char(((b[0] as int) % 4) * 16 + (b[1] as int) / 16),
            b64_char(((b[1] as int) % 16) * 4 + (b[2] as int) / 64),
            b64_char((b[2] as int) % 64),
        ] + b64_url_nopad(b.skip(3))
    }
}

/// `c` belongs to the URL-safe base64 alphabet.
pub open spec fn is_url_safe_char(c: char) -> bool {
    ||| 'A' <= c && c <= 'Z'
    ||| 'a' <= c && c <= 'z'
    ||| '0' <= c && c <= '9'
    ||| c == '-'
    ||| c == '_'
}

proof fn lemma_b64_char_safe(v: int)
    requires
        0 <= v < 64,
    ensures
        is_url_safe_char(b64_char(v)),
{
}

pub proof fn lemma_b64_shape(b: Seq<u8>)
    ensures
        b64_url_nopad(b).len() == (4 * b.len() + 2) / 3,
        forall|i: int|
            0 <= i < b64_url_nopad(b).len() ==> is_url_safe_char(#[trigger] b64_url_nopad(b)[i]),
    decreases b.len(),
{
    if b.len() == 0 {
    } else if b.len() == 1 {
        lemma_b64_char_safe((b[0] as int) / 4);
        lemma_b64_char_safe(((b[0] as int) % 4) * 16);
    } else if b.len() == 2 {
        lemma_b64_char_safe((b[0] as int) / 4);
        lemma_b64_char_safe(((b[0] as int) % 4) * 16 + (b[1] as int) / 16);
        lemma_b64_char_safe(((b[1] as int) % 16) * 4);
    } else {
        lemma_b64_shape(b.skip(3));
        lemma_b64_char_safe((b[0] as int) / 4);
        lemma_b64_char_safe(((b[0] as int) % 4) * 16 + (b[1] as int) / 16);
        lemma_b64_char_safe(((b[1] as int) % 16) * 4 + (b[2] as int) / 64);
        lemma_b64_char_safe((b[2] as int) % 64);
        let tail = b64_url_nopad(b.skip(3));
        assert forall|i: int| 0 <= i < b64_url_nopad(b).len() implies is_url_safe_char(
            #[trigger] b64_url_nopad(b)[i],
        ) by {
            if i >= 4 {
                assert(b64_url_nopad(b)[i] == tail[i - 4]);
            }
        }
    }
}

/// URL-safe base64 text of `data` without padding
/// (`base64::engine::general_purpose::URL_SAFE_NO_PAD.encode`).
#[verifier::external_body]
fn base64_url_no_pad(data: &[u8]) -> (r: String)
    ensures
        r@ == b64_url_nopad(data@),
{
    base64::engine::general_purpose::URL_SAFE_NO_PAD.encode(data)
}

/// URL-safe, unpadded base64 text of a byte string.
pub fn to_base64_url(data: &[u8]) -> (r: String)
    ensures
        r@ == b64_url_nopad(data@),
        r@.len() == (4 * data@.len() + 2) / 3,
        forall|i: int| 0 <= i < r@.len() ==> is_url_safe_char(#[trigger] r@[i]),
{
    proof {
        lemma_b64_shape(data@);
    }
    base64_url_no_pad(data)
}

// ---------------------------------------------------------------------------
// SHA-256.
// ---------------------------------------------------------------------------

/// An incremental SHA-256 computation (`sha2::Sha256`).
#[verifier::external_body]
pub struct Sha256Hasher {
    inner: sha2::Sha256,
}

/// The bytes fed to a hasher so far, in order.
pub uninterp spec fn sha256_absorbed(h: Sha256Hasher) -> Seq<u8>;

/// The SHA-256 digest of a byte string.
pub uninterp spec fn sha256_digest(data: Seq<u8>) -> Seq<u8>;

/// A fresh hasher (`sha2::Sha256::new`); it has absorbed nothing.
#[verifier::external_body]
pub fn sha256_new() -> (h: Sha256Hasher)
    ensures
        sha256_absorbed(h) == Seq::<u8>::empty(),
{
    Sha256Hasher { inner: sha2::Sha256::new() }
}

/// Feeds `data` to the hasher (`Digest::update`): it is appended to what was absorbed.
#[verifier::external_body]
pub fn sha256_update(h: &mut Sha256Hasher, data: &[u8])
    ensures
        sha256_absorbed(*final(h)) == sha256_absorbed(*old(h)) + data@,
{
    h.inner.update(data);
}

/// The digest of everything absorbed (`Digest::finalize`); a SHA-256 digest has 32 bytes.
#[verifier::external_body]
pub fn sha256_finalize(h: Sha256Hasher) -> (r: Vec<u8>)
    ensures
        r@ == sha256_digest(sha256_absorbed(h)),
        r@.len() == 32,
{
    h.inner.finalize().to_vec()
}

/// The SHA-256 digest of `data`.
pub fn sha256(data: &[u8]) -> (r: Vec<u8>)
    ensures
        r@ == sha256_digest(data@),
        r@.len() == 32,
{
    let mut h = sha256_new();
    sha256_update(&mut h, data);
    proof {
        assert(Seq::<u8>::empty() + data@ =~= data@);
    }
    sha256_finalize(h)
}

} // verus!
