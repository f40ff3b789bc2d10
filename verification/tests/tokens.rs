use cloud_storage::controllers::authorize_request;
use cloud_storage::token::{get_auth_token, parse_bearer_token, TokenExtractManager};
use http::header::AUTHORIZATION;
use http::{HeaderMap, HeaderValue};

fn headers_with(value: &[u8]) -> HeaderMap {
    let mut headers = HeaderMap::new();
    headers.insert(AUTHORIZATION, HeaderValue::from_bytes(value).unwrap());
    headers
}

#[test]
fn bearer_token_is_extracted() {
    let m = TokenExtractManager::new(headers_with(b"Bearer abc.def"));
    assert_eq!(m.check_token_error().unwrap(), "abc.def");
    let m = TokenExtractManager::new(headers_with(b"bearer xyz"));
    assert_eq!(m.check_token_error().unwrap(), "xyz");
    let m = TokenExtractManager::new(headers_with(b"  Bearer padded\t "));
    assert_eq!(m.check_token_error().unwrap(), "padded");
    let m = TokenExtractManager::new(headers_with(b"Bearer  two"));
    assert_eq!(m.check_token_error().unwrap(), " two");
}

#[test]
fn missing_or_malformed_token_is_401() {
    for headers in [
        HeaderMap::new(),
        headers_with(b"Basic dXNlcjpwYXNz"),
        headers_with(b"BEARER abc"),
        headers_with(b"Bearer "),
        headers_with(b"Bearer caf\xc3\xa9"),
    ] {
        let m = TokenExtractManager::new(headers);
        let (status, error) = m.check_token_error().unwrap_err();
        assert_eq!(status, 401);
        assert_eq!(error.message, "No token");
    }
}

#[test]
fn only_the_first_authorization_value_counts() {
    let mut headers = HeaderMap::new();
    headers.append(AUTHORIZATION, HeaderValue::from_static("Basic x"));
    headers.append(AUTHORIZATION, HeaderValue::from_static("Bearer second"));
    let m = TokenExtractManager::new(headers);
    assert!(m.check_token_error().is_err());
}

#[test]
fn parse_bearer_token_on_bytes() {
    assert_eq!(parse_bearer_token(b"Bearer t"), Some("t".to_string()));
    assert_eq!(parse_bearer_token(b"Bearer"), None);
    assert_eq!(parse_bearer_token(b"Bearer \x7f"), None);
    assert_eq!(parse_bearer_token(b"\tbearer tab"), Some("tab".to_string()));
}

#[test]
fn issued_tokens_have_43_url_safe_characters() {
    let a = get_auth_token();
    let b = get_auth_token();
    assert_eq!(a.chars().count(), 43);
    assert!(a.chars().all(|c| c.is_ascii_alphanumeric() || c == '-' || c == '_'));
    assert_ne!(a, b);
}

#[test]
fn issued_token_is_read_back_from_request() {
    let token = get_auth_token();
    let header = format!("Bearer {}", token);
    let next = authorize_request(headers_with(header.as_bytes())).ok().unwrap();
    assert_eq!(next.token, token);
    let uuid_token = uuid::Uuid::new_v4().hyphenated().to_string();
    let header = format!("Bearer {}", uuid_token);
    let m = TokenExtractManager::new(headers_with(header.as_bytes()));
    assert_eq!(m.check_token_error().unwrap(), uuid_token);
}
