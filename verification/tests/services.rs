use cloud_storage::api::{ApiResponse, Reply};
use cloud_storage::auth_service::AuthService;
use cloud_storage::config::AppConfig;
use cloud_storage::constants::{
    CODE_SENT_MESSAGE, DB_ERROR, FAILED_CREATE_TOKEN_ERROR, FAILED_CREATE_USER_ERROR,
    FAILED_SEND_CODE_ERROR, FAILED_STORE_CODE_ERROR, INVALID_CREDENTIALS_ERROR,
    UNCORRECTED_VERIFICATION_CODE_ERROR, USER_IS_EXISTS_ERROR, VERIFICATION_ERROR,
};
use cloud_storage::models::{User, UserTokens};
use cloud_storage::registration_service::{code_from_digits, generate_verification_code, RegistrationService};
use cloud_storage::verification::RegistrationVerification;
use sha2::Digest;

fn when() -> chrono::NaiveDateTime {
    chrono::NaiveDate::from_ymd_opt(2024, 5, 6).unwrap().and_hms_opt(7, 8, 9).unwrap()
}

fn later() -> chrono::NaiveDateTime {
    chrono::NaiveDate::from_ymd_opt(2024, 5, 7).unwrap().and_hms_opt(0, 0, 0).unwrap()
}

fn user() -> User {
    User {
        id: 42,
        email: "user@example.com".to_string(),
        password: "secret".to_string(),
        base_folder: Some("u42".to_string()),
        created_at: when(),
    }
}

fn config() -> AppConfig {
    AppConfig {
        app_port: 9099,
        app_host: "127.0.0.1".to_string(),
        app_name: "Cloud".to_string(),
        database_uri: "postgres://localhost/db".to_string(),
        database_min_connections: 1,
        database_max_connections: 5,
        redis_uri: "redis://localhost".to_string(),
        password_salt: "salt".to_string(),
        email_sender: "robot@example.com".to_string(),
        email_sender_password: "pw".to_string(),
        email_smtp_server: "smtp.example.com".to_string(),
        email_smtp_port: None,
        root_dir: "/data".to_string(),
    }
}

fn error_message<T>(r: Reply<T>) -> String {
    match r.body {
        ApiResponse::Error { error } => error.message,
        ApiResponse::Success { .. } => panic!("expected an error reply"),
    }
}

fn is_uuid_v4(s: &str) -> bool {
    let c: Vec<char> = s.chars().collect();
    c.len() == 36
        && c.iter().enumerate().all(|(i, ch)| {
            if [8, 13, 18, 23].contains(&i) { *ch == '-' } else { ch.is_ascii_digit() || ('a'..='f').contains(ch) }
        })
        && c[14] == '4'
        && "89ab".contains(c[19])
}

#[test]
fn login_issues_a_uuid_token_and_replies_with_user() {
    let start = AuthService::login("user@example.com".to_string(), "secret".to_string());
    assert_eq!(start.email, "user@example.com");
    assert_eq!(start.password, "secret");
    let issue = start.on_user_lookup(Ok(Some(user()))).ok().unwrap();
    assert!(is_uuid_v4(&issue.token), "{}", issue.token);
    let token = issue.token.clone();
    let reply = issue.on_token_created(Ok(UserTokens { id: 1, user_id: 42, token: token.clone(), created_at: later() }));
    assert_eq!(reply.status, 200);
    assert_eq!(reply.body.status_code(), 200);
    match reply.body {
        ApiResponse::Success { data } => {
            assert_eq!(data.user.id, 42);
            assert_eq!(data.user.email, "user@example.com");
            assert_eq!(data.user.base_folder, Some("u42".to_string()));
            assert_eq!(data.user.created_at, when());
            assert_eq!(data.meta.token, token);
            assert_eq!(data.meta.created_at, later());
        }
        ApiResponse::Error { .. } => panic!("expected success"),
    }
}

#[test]
fn login_reply_is_the_same_whatever_the_password() {
    let mut other = user();
    other.password = "another secret".to_string();
    let token = || UserTokens { id: 1, user_id: 42, token: "t".to_string(), created_at: later() };
    let first = AuthService::login("user@example.com".into(), "secret".into())
        .on_user_lookup_with_token(Ok(Some(user())), "t".into())
        .ok()
        .unwrap()
        .on_token_created(Ok(token()));
    let second = AuthService::login("user@example.com".into(), "another secret".into())
        .on_user_lookup_with_token(Ok(Some(other)), "t".into())
        .ok()
        .unwrap()
        .on_token_created(Ok(token()));
    assert_eq!(format!("{:?}", first.body), format!("{:?}", second.body));
    assert!(!format!("{:?}", first.body).contains("secret"));
}

#[test]
fn login_errors() {
    let r = AuthService::login("a".into(), "b".into()).on_user_lookup(Ok(None)).err().unwrap();
    assert_eq!(r.status, 400);
    assert_eq!(error_message(r), INVALID_CREDENTIALS_ERROR);
    let r = AuthService::login("a".into(), "b".into()).on_user_lookup(Err("connection refused".into())).err().unwrap();
    assert_eq!(r.status, 500);
    assert_eq!(error_message(r), format!("{}: connection refused", DB_ERROR));
    let issue = AuthService::login("a".into(), "b".into())
        .on_user_lookup_with_token(Ok(Some(user())), "tok".to_string())
        .ok()
        .unwrap();
    assert_eq!(issue.token, "tok");
    let r = issue.on_token_created(Err("duplicate key".into()));
    assert_eq!(r.status, 500);
    assert_eq!(error_message(r), format!("{}: duplicate key", FAILED_CREATE_TOKEN_ERROR));
}

#[test]
fn verification_codes_have_six_digits() {
    for _ in 0..20 {
        let code = generate_verification_code();
        assert_eq!(code.len(), 6);
        assert!(code.chars().all(|c| c.is_ascii_digit()));
    }
}

#[test]
fn send_code_sends_then_stores() {
    let cfg = config();
    let awaiting_email = RegistrationService::send_code("new@example.com".into(), &cfg)
        .on_user_lookup(Ok(None))
        .ok()
        .unwrap();
    let code = awaiting_email.verification.verification_code().clone();
    assert_eq!(code.len(), 6);
    let mail = awaiting_email.verification.verification_email();
    assert_eq!(mail.recipient_email(), "new@example.com");
    assert_eq!(mail.subject(), "Account confirmation — Cloud");
    assert!(mail.body().contains(&format!("<div class=\"code\">{}</div>", code)));
    let awaiting_store = awaiting_email.on_email_sent(true).ok().unwrap();
    assert_eq!(
        awaiting_store.key(),
        format!("verify:email:{}", hex::encode(sha2::Sha256::digest(b"new@example.com")))
    );
    let reply = awaiting_store.on_code_stored(true);
    assert_eq!(reply.status, 200);
    match reply.body {
        ApiResponse::Success { data } => assert_eq!(data, CODE_SENT_MESSAGE),
        ApiResponse::Error { .. } => panic!("expected success"),
    }
}

#[test]
fn send_code_errors() {
    let cfg = config();
    let r = RegistrationService::send_code("user@example.com".into(), &cfg).on_user_lookup(Ok(Some(user()))).err().unwrap();
    assert_eq!(r.status, 409);
    assert_eq!(error_message(r), USER_IS_EXISTS_ERROR);
    // a failed lookup does not stop the request
    let next = RegistrationService::send_code("x@example.com".into(), &cfg).on_user_lookup(Err("timeout".into()));
    assert!(next.is_ok());
    let r = next.ok().unwrap().on_email_sent(false).err().unwrap();
    assert_eq!(r.status, 500);
    assert_eq!(error_message(r), FAILED_SEND_CODE_ERROR);
    let store = RegistrationService::send_code("x@example.com".into(), &cfg)
        .on_user_lookup_with_code(Ok(None), "123456".into())
        .ok()
        .unwrap()
        .on_email_sent(true)
        .ok()
        .unwrap();
    assert_eq!(store.verification.verification_code(), "123456");
    let r = store.on_code_stored(false);
    assert_eq!(r.status, 500);
    assert_eq!(error_message(r), FAILED_STORE_CODE_ERROR);
}

#[test]
fn confirm_creates_user_only_for_matching_code() {
    let cfg = config();
    let start = RegistrationService::confirm("new@example.com".into(), "123456".into(), "pw".into(), &cfg);
    let awaiting_user = start.on_stored_code(Ok(Some("123456".into()))).ok().unwrap();
    assert_eq!(awaiting_user.email, "new@example.com");
    assert_eq!(awaiting_user.password, "pw");
    let issue = awaiting_user.on_user_added(Ok(Some(user()))).ok().unwrap();
    assert_eq!(issue.token.len(), 43);
    assert!(issue.token.chars().all(|c| c.is_ascii_alphanumeric() || c == '-' || c == '_'));
    assert_eq!(issue.user.id, 42);

    let wrong = RegistrationService::confirm("n@e.com".into(), "123456".into(), "pw".into(), &cfg)
        .on_stored_code(Ok(Some("654321".into())))
        .err()
        .unwrap();
    assert_eq!(wrong.status, 400);
    assert_eq!(error_message(wrong), UNCORRECTED_VERIFICATION_CODE_ERROR);
    let missing = RegistrationService::confirm("n@e.com".into(), "123456".into(), "pw".into(), &cfg)
        .on_stored_code(Ok(None))
        .err()
        .unwrap();
    assert_eq!(error_message(missing), UNCORRECTED_VERIFICATION_CODE_ERROR);
    let failed = RegistrationService::confirm("n@e.com".into(), "123456".into(), "pw".into(), &cfg)
        .on_stored_code(Err("redis down".into()))
        .err()
        .unwrap();
    assert_eq!(failed.status, 500);
    assert_eq!(error_message(failed), format!("{}: redis down", VERIFICATION_ERROR));
}

#[test]
fn confirm_user_insertion_errors() {
    let cfg = config();
    let next = || {
        RegistrationService::confirm("n@e.com".into(), "1".into(), "pw".into(), &cfg)
            .on_stored_code(Ok(Some("1".into())))
            .ok()
            .unwrap()
    };
    assert_eq!(error_message(next().on_user_added(Ok(None)).err().unwrap()), FAILED_CREATE_USER_ERROR);
    assert_eq!(
        error_message(next().on_user_added(Err("unique violation".into())).err().unwrap()),
        format!("{}: unique violation", DB_ERROR)
    );
    let issue = next().on_user_added_with_token(Ok(Some(user())), "given".into()).ok().unwrap();
    assert_eq!(issue.token, "given");
}

#[test]
fn verification_key_code_lifetime_and_email() {
    let cfg = config();
    let v = RegistrationVerification::new(&cfg, "user@example.com".into(), "987654".into());
    assert_eq!(
        v.make_key(),
        "verify:email:b4c9a289323b21a01c3e940f150eb9b8c542587f1abfd8f0e1cc1ffc5e475514"
    );
    assert_eq!(v.make_key().len(), 77);
    assert_eq!(RegistrationVerification::code_lifetime_seconds(), 900);
    assert!(v.is_matching_code(Some("987654".into())));
    assert!(!v.is_matching_code(Some("987655".into())));
    assert!(!v.is_matching_code(None));
    let (subject, body) = v.compose_email(2031);
    assert_eq!(subject, "Account confirmation — Cloud");
    assert!(body.contains("<title>Confirmation — Cloud</title>"));
    assert!(body.contains("<h2>Welcome to Cloud!</h2>"));
    assert!(body.contains("<div class=\"code\">987654</div>"));
    assert!(body.contains("The code is valid for 15 minutes."));
    assert!(body.contains("&copy; 2031 Cloud</p>"));
    assert!(!body.contains("{{"));
}

#[test]
fn email_sender_port_and_message() {
    let mut cfg = config();
    let sender = cloud_storage::email::EmailSender::new(&cfg, "to@example.com", "s".into(), "<p>b</p>".into());
    assert_eq!(sender.smtp_port(), 465);
    let message = sender.prepare_message(0).ok().unwrap();
    let text = String::from_utf8(message.text).unwrap();
    assert!(text.contains("From: robot@example.com\r\n"));
    assert!(text.contains("To: to@example.com\r\n"));
    assert!(text.contains("Subject: s\r\n"));
    assert!(text.contains("Content-Type: text/html; charset=utf-8\r\n"));
    assert!(text.contains("Date: Thu, 01 Jan 1970 00:00:00 +0000\r\n"));
    assert!(text.ends_with("\r\n\r\n<p>b</p>"));
    assert_eq!(message.envelope.to().len(), 1);
    assert_eq!(message.envelope.to()[0].to_string(), "to@example.com");
    assert_eq!(message.envelope.from().unwrap().to_string(), "robot@example.com");
    let later = sender.prepare_message(86400).ok().unwrap();
    assert!(String::from_utf8(later.text).unwrap().contains("Date: Fri, 02 Jan 1970 00:00:00 +0000\r\n"));
    let bad = cloud_storage::email::EmailSender::new(&cfg, "not an address", "s".into(), "b".into());
    assert_eq!(
        bad.prepare_message(0).err().unwrap(),
        "Невалидный формат адреса получателя: not an address"
    );
    cfg.email_smtp_port = Some(587);
    cfg.email_sender = "broken".into();
    let sender = cloud_storage::email::EmailSender::new(&cfg, "to@example.com", "s".into(), "b".into());
    assert_eq!(sender.smtp_port(), 587);
    assert_eq!(
        sender.prepare_message(0).err().unwrap(),
        "Невалидный формат адреса отправителя: broken"
    );
}

#[test]
fn code_is_written_with_the_drawn_digits() {
    assert_eq!(code_from_digits(&vec![1, 2, 3, 0, 9, 5]), "123095");
    assert_eq!(code_from_digits(&vec![0, 0, 0, 0, 0, 0]), "000000");
    assert_eq!(code_from_digits(&vec![]), "");
}

#[test]
fn stored_code_is_accepted_once_then_refused() {
    let cfg = config();
    let first = RegistrationService::confirm("a@example.com".into(), "123456".into(), "pw".into(), &cfg);
    assert!(first.on_stored_code(Ok(Some("123456".into()))).is_ok());
    let second = RegistrationService::confirm("a@example.com".into(), "123456".into(), "pw".into(), &cfg);
    match second.on_stored_code(Ok(None)) {
        Err(reply) => assert_eq!(error_message(reply), UNCORRECTED_VERIFICATION_CODE_ERROR),
        Ok(_) => panic!("a code read back as gone must be refused"),
    }
}
