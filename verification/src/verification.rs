use vstd::prelude::*;
use vstd::utf8::encode_utf8;
use chrono::Datelike;
use crate::config::AppConfig;
use crate::constants::{EMAIL_HTML_BODY_TEMPLATE, EMAIL_SUBJECT_TEMPLATE, TTL_MINUTES};
use crate::draws::is_clock_year;
use crate::email::EmailSender;
use crate::encoding::{hex_lower, sha256, sha256_digest, to_hex};
use crate::text::{concat, decimal_string, int_decimal, replace_all, replace_spec, str_equal};

verus! {

/// Prefix of the key under which a registration code is stored.
pub const VERIFY_KEY_PREFIX: &'static str = "verify:email:";

/// The key under which the code for `email` is stored: the prefix, then the
/// lower-case hexadecimal SHA-256 of the address's UTF-8 bytes.
pub open spec fn verification_key(email: Seq<char>) -> Seq<char> {
    VERIFY_KEY_PREFIX@ + hex_lower(sha256_digest(encode_utf8(email)))
}

/// The subject of the registration e-mail of an application.
pub open spec fn verification_subject(app_name: Seq<char>) -> Seq<char> {
    replace_spec(EMAIL_SUBJECT_TEMPLATE@, "{{app_name}}"@, app_name)
}

/// The body of the registration e-mail: the template with the application's name,
/// the code, the code's lifetime in minutes and the year filled in, in that order.
pub open spec fn verification_body(app_name: Seq<char>, code: Seq<char>, year: int) -> Seq<char> {
    replace_spec(
        replace_spec(
            replace_spec(
                replace_spec(EMAIL_HTML_BODY_TEMPLATE@, "{{app_name}}"@, app_name),
                "{{code}}"@,
                code,
            ),
            "{{ttl_minutes}}"@,
            int_decimal(TTL_MINUTES as int),
        ),
        "{{year}}"@,
        int_decimal(year),
    )
}

/// The text of a code read back from the store, if there was one.
pub open spec fn stored_text(stored: Option<String>) -> Option<Seq<char>> {
    match stored {
        Some(v) => Some(v@),
        None => None,
    }
}

/// Whether a code read back from the store accepts the code a user entered: one was
/// stored, and it is the same text.
pub open spec fn code_accepted(stored: Option<Seq<char>>, entered: Seq<char>) -> bool {
    stored == Some(entered)
}

/// The current year of the UTC calendar (`chrono::Utc::now().year()`); it depends
/// on the clock, so nothing is promised but that it is the year the clock reported,
/// within chrono's range of years.
#[verifier::external_body]
fn current_utc_year() -> (r: i32)
    ensures
        is_clock_year(r),
{
    chrono::Utc::now().year()
}

/// The registration code sent to an address and the data to check it later.
pub struct RegistrationVerification<'a> {
    cfg: &'a AppConfig,
    email_recipient: String,
    verification_code: String,
}

impl<'a> RegistrationVerification<'a> {
    pub fn new(cfg: &'a AppConfig, email_recipient: String, verification_code: String) -> (r: Self)
        ensures
            r.config() == cfg,
            r.email()@ == email_recipient@,
            r.code()@ == verification_code@,
    {
        Self { cfg, email_recipient, verification_code }
    }

    pub closed spec fn config(&self) -> &'a AppConfig {
        self.cfg
    }

    pub closed spec fn email(&self) -> String {
        self.email_recipient
    }

    pub closed spec fn code(&self) -> String {
        self.verification_code
    }

    /// The recipient's address.
    pub fn email_recipient(&self) -> (r: &String)
        ensures
            r@ == self.email()@,
    {
        &self.email_recipient
    }

    /// The code.
    pub fn verification_code(&self) -> (r: &String)
        ensures
            r@ == self.code()@,
    {
        &self.verification_code
    }

    /// The key under which the code is stored.
    pub fn make_key(&self) -> (r: String)
        ensures
            r@ == verification_key(self.email()@),
            r@.len() == 77,
    {
        let digest = sha256(self.email_recipient.as_str().as_bytes());
        let hex = to_hex(digest.as_slice());
        proof {
            reveal_strlit("verify:email:");
        }
        concat(VERIFY_KEY_PREFIX, hex.as_str())
    }

    /// How long the stored code lives, in seconds.
    pub fn code_lifetime_seconds() -> (r: u64)
        ensures
            r == TTL_MINUTES * 60,
            r == 900,
    {
        (TTL_MINUTES * 60) as u64
    }

    /// Whether the code read back from the store (and removed there) is this code;
    /// no stored code never matches.
    pub fn is_matching_code(&self, stored: Option<String>) -> (r: bool)
        ensures
            r == code_accepted(stored_text(stored), self.code()@),
    {
        match stored {
            Some(v) => str_equal(v.as_str(), self.verification_code.as_str()),
            None => false,
        }
    }

    /// Subject and body of the registration e-mail in the given year.
    pub fn compose_email(&self, year: i32) -> (r: (String, String))
        ensures
            r.0@ == verification_subject(self.config().app_name@),
            r.1@ == verification_body(self.config().app_name@, self.code()@, year as int),
    {
        proof {
            reveal_strlit("{{app_name}}");
            reveal_strlit("{{code}}");
            reveal_strlit("{{ttl_minutes}}");
            reveal_strlit("{{year}}");
        }
        let app_name = self.cfg.app_name.as_str();
        let subject = replace_all(EMAIL_SUBJECT_TEMPLATE, "{{app_name}}", app_name);
        let ttl = decimal_string(TTL_MINUTES as i64);
        let year_text = decimal_string(year as i64);
        let b1 = replace_all(EMAIL_HTML_BODY_TEMPLATE, "{{app_name}}", app_name);
        let b2 = replace_all(b1.as_str(), "{{code}}", self.verification_code.as_str());
        let b3 = replace_all(b2.as_str(), "{{ttl_minutes}}", ttl.as_str());
        let body = replace_all(b3.as_str(), "{{year}}", year_text.as_str());
        (subject, body)
    }

    /// The registration e-mail of this code, dated in the current year.
    pub fn verification_email(&self) -> (r: EmailSender<'_>)
        ensures
            r.config() == self.config(),
            r.recipient()@ == self.email()@,
            r.subject_text()@ == verification_subject(self.config().app_name@),
            exists|year: i32|
                r.body_text()@ == verification_body(self.config().app_name@, self.code()@, year as int),
            exists|year: i32| #[trigger]
                is_clock_year(year) && r.body_text()@ == verification_body(
                    self.config().app_name@,
                    self.code()@,
                    year as int,
                ),
    {
        let year = current_utc_year();
        let (subject, body) = self.compose_email(year);
        EmailSender::new(self.cfg, self.email_recipient.as_str(), subject, body)
    }
}

} // verus!
