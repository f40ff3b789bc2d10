use vstd::prelude::*;
use rand::RngCore;
use crate::api::{ApiError, STATUS_UNAUTHORIZED};
use crate::encoding::{b64_url_nopad, is_url_safe_char, to_base64_url};
use crate::auth_service::is_uuid_v4_text;
use crate::draws::is_drawn_os_bytes;
use crate::encoding::is_lower_hex_char;
use crate::text::{
    chars_of, has_prefix, is_whitespace, starts_with, string_of_range, trim_bounds, trim_end_spec,
    trim_spec, trim_start_spec,
};

verus! {

// ---------------------------------------------------------------------------
// Access tokens.
// ---------------------------------------------------------------------------

/// 32 bytes from the operating system's random source
/// (`rand::rngs::OsRng::fill_bytes`); nothing is promised of their values beyond
/// that they are what the source drew.
#[verifier::external_body]
fn os_random_32_bytes() -> (r: Vec<u8>)
    ensures
        r@.len() == 32,
        is_drawn_os_bytes(r@),
{
    let mut bytes = [0u8; 32];
    rand::rngs::OsRng.fill_bytes(&mut bytes);
    bytes.to_vec()
}

/// A fresh access token: the 32 bytes drawn from the operating system's random
/// source in this call, in URL-safe base64 without padding, hence 43 characters of
/// `A-Z a-z 0-9 - _`.
pub fn get_auth_token() -> (r: String)
    ensures
        exists|b: Seq<u8>| b.len() == 32 && r@ == b64_url_nopad(b),
        exists|b: Seq<u8>| #[trigger] is_drawn_os_bytes(b) && r@ == b64_url_nopad(b),
        r@.len() == 43,
        forall|i: int| 0 <= i < r@.len() ==> is_url_safe_char(#[trigger] r@[i]),
{
    let bytes = os_random_32_bytes();
    to_base64_url(bytes.as_slice())
}

// ---------------------------------------------------------------------------
// Bearer tokens in request headers.
// ---------------------------------------------------------------------------

/// A map of HTTP headers (`http::HeaderMap`).
#[verifier::external_type_specification]
#[verifier::external_body]
#[verifier::reject_recursive_types(T)]
pub struct ExHeaderMap<T>(http::HeaderMap<T>);

/// The value of an HTTP header (`http::HeaderValue`).
#[verifier::external_type_specification]
#[verifier::external_body]
pub struct ExHeaderValue(http::HeaderValue);

/// The contents of a header map: for each header name, in lower case, the
/// bytes of its values in the order they were added.
pub uninterp spec fn header_entries(headers: http::HeaderMap<http::HeaderValue>) -> Map<
    Seq<char>,
    Seq<Seq<u8>>,
>;

/// The bytes of the first `Authorization` value of a header map, if any
/// (`HeaderMap::get` with `AUTHORIZATION`, then `HeaderValue::as_bytes`).
#[verifier::external_body]
fn first_authorization_value(headers: &http::HeaderMap) -> (r: Option<Vec<u8>>)
    ensures
        r is Some <==> (header_entries(*headers).contains_key("authorization"@)
            && header_entries(*headers)["authorization"@].len() > 0),
        r matches Some(v) ==> v@ == header_entries(*headers)["authorization"@][0],
{
    match headers.get(http::header::AUTHORIZATION) {
        Some(v) => Some(v.as_bytes().to_vec()),
        None => None,
    }
}

/// A byte that `HeaderValue::to_str` accepts: visible ASCII or a tab.
pub open spec fn is_visible_ascii(b: u8) -> bool {
    (32 <= b && b < 127) || b == 9
}

/// The text of a header value, if `HeaderValue::to_str` accepts it.
pub open spec fn header_value_text(value: Seq<u8>) -> Option<Seq<char>> {
    if forall|i: int| 0 <= i < value.len() ==> is_visible_ascii(#[trigger] value[i]) {
        Some(value.map_values(|b: u8| b as char))
    } else {
        None
    }
}

/// The token of an `Authorization` value: the trimmed text after
/// `Bearer ` or, failing that, after `bearer `.
pub open spec fn bearer_token(value: Seq<u8>) -> Option<Seq<char>> {
    match header_value_text(value) {
        Some(text) => {
            let s = trim_spec(text);
            if has_prefix(s, "Bearer "@) {
                Some(s.skip(7))
            } else if has_prefix(s, "bearer "@) {
                Some(s.skip(7))
            } else {
                None
            }
        },
        None => None,
    }
}

/// The bearer token that a request with these headers carries, if any.
pub open spec fn request_bearer_token(headers: http::HeaderMap) -> Option<Seq<char>> {
    let e = header_entries(headers);
    if e.contains_key("authorization"@) && e["authorization"@].len() > 0 {
        bearer_token(e["authorization"@][0])
    } else {
        None
    }
}

/// The bytes of an ASCII text.
pub open spec fn ascii_bytes(s: Seq<char>) -> Seq<u8> {
    s.map_values(|c: char| c as u8)
}

/// Law: a token the service issued comes back from the request that presents it.
/// Any non-empty token of URL-safe characters — the registration tokens of
/// `get_auth_token`, and the log-in tokens, which are UUID texts — sent as
/// `Authorization: Bearer <token>` is read back unchanged.
pub proof fn lemma_presented_token_is_read_back(t: Seq<char>)
    requires
        t.len() > 0,
        forall|i: int| 0 <= i < t.len() ==> is_url_safe_char(#[trigger] t[i]),
    ensures
        bearer_token(ascii_bytes("Bearer "@ + t)) == Some(t),
{
    reveal_strlit("Bearer ");
    let s = "Bearer "@ + t;
    let v = ascii_bytes(s);
    assert forall|i: int| 0 <= i < v.len() implies is_visible_ascii(#[trigger] v[i]) by {
        if i >= 7 {
            assert(s[i] == t[i - 7]);
            assert(is_url_safe_char(t[i - 7]));
        }
    }
    let text = v.map_values(|b: u8| b as char);
    assert forall|i: int| 0 <= i < s.len() implies #[trigger] text[i] == s[i] by {
        if i >= 7 {
            assert(s[i] == t[i - 7]);
            assert(is_url_safe_char(t[i - 7]));
        }
    }
    assert(text =~= s);
    assert(!is_whitespace(s[0]));
    assert(s.last() == t[t.len() - 1]);
    assert(is_url_safe_char(t[t.len() - 1]));
    assert(!is_whitespace(s.last()));
    assert(trim_start_spec(s) == s);
    assert(trim_end_spec(s) == s);
    assert(s.take(7) =~= "Bearer "@);
    assert(s.skip(7) =~= t);
}

/// Law: the lower-case scheme word reads back the same token. Any non-empty token
/// of URL-safe characters sent as `Authorization: bearer <token>` is read back
/// unchanged, letter case included.
pub proof fn lemma_presented_token_is_read_back_after_lower_scheme(t: Seq<char>)
    requires
        t.len() > 0,
        forall|i: int| 0 <= i < t.len() ==> is_url_safe_char(#[trigger] t[i]),
    ensures
        bearer_token(ascii_bytes("bearer "@ + t)) == Some(t),
{
    reveal_strlit("bearer ");
    reveal_strlit("Bearer ");
    let s = "bearer "@ + t;
    let v = ascii_bytes(s);
    assert forall|i: int| 0 <= i < v.len() implies is_visible_ascii(#[trigger] v[i]) by {
        if i >= 7 {
            assert(s[i] == t[i - 7]);
            assert(is_url_safe_char(t[i - 7]));
        }
    }
    let text = v.map_values(|b: u8| b as char);
    assert forall|i: int| 0 <= i < s.len() implies #[trigger] text[i] == s[i] by {
        if i >= 7 {
            assert(s[i] == t[i - 7]);
            assert(is_url_safe_char(t[i - 7]));
        }
    }
    assert(text =~= s);
    assert(!is_whitespace(s[0]));
    assert(s.last() == t[t.len() - 1]);
    assert(is_url_safe_char(t[t.len() - 1]));
    assert(!is_whitespace(s.last()));
    assert(trim_start_spec(s) == s);
    assert(trim_end_spec(s) == s);
    assert(s.take(7)[0] != "Bearer "@[0]);
    assert(!has_prefix(s, "Bearer "@));
    assert(s.take(7) =~= "bearer "@);
    assert(s.skip(7) =~= t);
}

/// Log-in tokens are URL-safe: a UUID text has only hexadecimal digits and `-`.
pub proof fn lemma_uuid_text_is_url_safe(t: Seq<char>)
    requires
        is_uuid_v4_text(t),
    ensures
        t.len() > 0,
        forall|i: int| 0 <= i < t.len() ==> is_url_safe_char(#[trigger] t[i]),
{
    assert forall|i: int| 0 <= i < t.len() implies is_url_safe_char(#[trigger] t[i]) by {
        if i == 8 || i == 13 || i == 18 || i == 23 {
        } else {
            assert(is_lower_hex_char(t[i]));
        }
    }
}

/// The text of a header value, if all its bytes are visible ASCII or tabs.
pub fn header_value_to_text(value: &[u8]) -> (r: Option<Vec<char>>)
    ensures
        r matches Some(t) ==> header_value_text(value@) == Some(t@),
        r is None ==> header_value_text(value@) is None,
{
    let mut out: Vec<char> = Vec::new();
    let mut i: usize = 0;
    while i < value.len()
        invariant
            i <= value.len(),
            forall|k: int| 0 <= k < i ==> is_visible_ascii(#[trigger] value@[k]),
            out@ == value@.take(i as int).map_values(|b: u8| b as char),
        decreases value.len() - i,
    {
        let b = value[i];
        if !((32 <= b && b < 127) || b == 9) {
            return None;
        }
        out.push(b as char);
        assert(value@.take(i + 1).map_values(|b: u8| b as char) =~= value@.take(
            i as int,
        ).map_values(|b: u8| b as char).push(b as char));
        i = i + 1;
    }
    assert(value@.take(value.len() as int) =~= value@);
    Some(out)
}

/// The bearer token of an `Authorization` value.
pub fn parse_bearer_token(value: &[u8]) -> (r: Option<String>)
    ensures
        r matches Some(t) ==> bearer_token(value@) == Some(t@),
        r is None ==> bearer_token(value@) is None,
{
    let text = match header_value_to_text(value) {
        Some(t) => t,
        None => return None,
    };
    let (start, end) = trim_bounds(text.as_slice());
    let ghost s = text@.subrange(start as int, end as int);
    let upper = chars_of("Bearer ");
    let lower = chars_of("bearer ");
    let mut trimmed: Vec<char> = Vec::new();
    let mut i = start;
    while i < end
        invariant
            start <= i <= end <= text.len(),
            trimmed@ == text@.subrange(start as int, i as int),
        decreases end - i,
    {
        trimmed.push(text[i]);
        assert(text@.subrange(start as int, i + 1) =~= text@.subrange(start as int, i as int).push(
            text@[i as int],
        ));
        i = i + 1;
    }
    proof {
        reveal_strlit("Bearer ");
        reveal_strlit("bearer ");
    }
    if starts_with(trimmed.as_slice(), upper.as_slice()) {
        let t = string_of_range(trimmed.as_slice(), 7, trimmed.len());
        assert(t@ =~= s.skip(7));
        Some(t)
    } else if starts_with(trimmed.as_slice(), lower.as_slice()) {
        let t = string_of_range(trimmed.as_slice(), 7, trimmed.len());
        assert(t@ =~= s.skip(7));
        Some(t)
    } else {
        None
    }
}

/// Reads the bearer token of a request from its headers.
pub struct TokenExtractManager {
    pub headers: http::HeaderMap,
}

impl TokenExtractManager {
    pub fn new(headers: http::HeaderMap) -> (r: Self)
        ensures
            r.headers == headers,
    {
        Self { headers }
    }

    /// The bearer token of the request, or a 401 reply `No token`.
    pub fn check_token_error(&self) -> (r: Result<String, (u16, ApiError)>)
        ensures
            request_bearer_token(self.headers) matches Some(t) ==> (r matches Ok(s) && s@ == t),
            request_bearer_token(self.headers) is None ==> (r matches Err(e) && e.0
                == STATUS_UNAUTHORIZED && e.1.message@ == "No token"@),
    {
        match self.extract_bearer_token() {
            Some(t) => Ok(t),
            None => Err((STATUS_UNAUTHORIZED, ApiError::new("No token"))),
        }
    }

    fn extract_bearer_token(&self) -> (r: Option<String>)
        ensures
            r matches Some(t) ==> request_bearer_token(self.headers) == Some(t@),
            r is None ==> request_bearer_token(self.headers) is None,
    {
        match first_authorization_value(&self.headers) {
            Some(v) => parse_bearer_token(v.as_slice()),
            None => None,
        }
    }
}

} // verus!
