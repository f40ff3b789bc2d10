use vstd::prelude::*;
use rand::Rng;
use crate::api::{
    ApiResponse, Reply, STATUS_BAD_REQUEST, STATUS_CONFLICT, STATUS_INTERNAL_SERVER_ERROR, STATUS_OK,
};
use crate::auth_service::{error_reply, is_error_reply, plain_error_reply, IssueToken};
use crate::config::AppConfig;
use crate::constants::{
    CODE_SENT_MESSAGE, DB_ERROR, FAILED_CREATE_USER_ERROR, FAILED_SEND_CODE_ERROR,
    FAILED_STORE_CODE_ERROR, UNCORRECTED_VERIFICATION_CODE_ERROR, USER_IS_EXISTS_ERROR,
    VERIFICATION_ERROR,
};
use crate::dto::UserOut;
use crate::draws::is_drawn_os_bytes;
use crate::encoding::{b64_url_nopad, is_url_safe_char};
use crate::models::User;
use crate::text::{is_digit_char, push_char, to_owned_string};
use crate::token::get_auth_token;
use crate::verification::{code_accepted, stored_text, verification_key, RegistrationVerification};

verus! {

/// A random decimal digit (`rand::thread_rng().gen_range(0..=9)`).
#[verifier::external_body]
fn random_decimal_digit() -> (r: u32)
    ensures
        r <= 9,
{
    rand::thread_rng().gen_range(0..=9)
}

/// Number of digits of a registration code.
pub const VERIFICATION_CODE_LENGTH: usize = 6;

/// The character of a decimal digit.
pub open spec fn digit_char(d: u32) -> char {
    (d + 48) as char
}

/// The text of a sequence of decimal digits: one character per digit, in order.
pub open spec fn digits_text(digits: Seq<u32>) -> Seq<char> {
    Seq::new(digits.len(), |i: int| digit_char(digits[i]))
}

/// The code written with the given decimal digits.
pub fn code_from_digits(digits: &Vec<u32>) -> (r: String)
    requires
        forall|i: int| 0 <= i < digits@.len() ==> digits@[i] <= 9,
    ensures
        r@ == digits_text(digits@),
        forall|i: int| 0 <= i < r@.len() ==> is_digit_char(#[trigger] r@[i]),
{
    let mut code = String::new();
    let mut i: usize = 0;
    while i < digits.len()
        invariant
            i <= digits@.len(),
            forall|k: int| 0 <= k < digits@.len() ==> digits@[k] <= 9,
            code@ == digits_text(digits@.take(i as int)),
            forall|k: int| 0 <= k < code@.len() ==> is_digit_char(#[trigger] code@[k]),
        decreases digits.len() - i,
    {
        let d = digits[i];
        let c = ((d as u8) + 48) as char;
        assert(c == digit_char(d));
        let ghost before = code@;
        push_char(&mut code, c);
        assert(code@ =~= digits_text(digits@.take(i + 1)));
        assert forall|k: int| 0 <= k < code@.len() implies is_digit_char(#[trigger] code@[k]) by {
            if k < i {
                assert(code@[k] == before[k]);
            }
        }
        i = i + 1;
    }
    assert(digits@.take(digits@.len() as int) =~= digits@);
    code
}

/// A fresh registration code: six random decimal digits.
pub fn generate_verification_code() -> (r: String)
    ensures
        r@.len() == VERIFICATION_CODE_LENGTH,
        forall|i: int| 0 <= i < r@.len() ==> is_digit_char(#[trigger] r@[i]),
        exists|digits: Seq<u32>|
            #![trigger digits_text(digits)]
            digits.len() == VERIFICATION_CODE_LENGTH && (forall|i: int|
                0 <= i < digits.len() ==> digits[i] <= 9) && r@ == digits_text(digits),
{
    let mut digits: Vec<u32> = Vec::new();
    while digits.len() < VERIFICATION_CODE_LENGTH
        invariant
            digits@.len() <= VERIFICATION_CODE_LENGTH,
            forall|k: int| 0 <= k < digits@.len() ==> digits@[k] <= 9,
        decreases VERIFICATION_CODE_LENGTH - digits@.len(),
    {
        digits.push(random_decimal_digit());
    }
    code_from_digits(&digits)
}

/// Registration of new users by a code sent to their address.
pub struct RegistrationService;

/// A request for a code, waiting for the lookup of a user with this address.
pub struct SendCodeAwaitingUser<'a> {
    pub cfg: &'a AppConfig,
    pub email: String,
}

/// A request for a code, waiting for the e-mail with the code to be sent.
pub struct SendCodeAwaitingEmail<'a> {
    pub verification: RegistrationVerification<'a>,
}

/// A request for a code, waiting for the code to be stored under its key.
pub struct SendCodeAwaitingStore<'a> {
    pub verification: RegistrationVerification<'a>,
}

/// A registration, waiting for the stored code to be read back (and removed).
pub struct ConfirmAwaitingCode<'a> {
    pub verification: RegistrationVerification<'a>,
    pub password: String,
}

/// A registration whose code matched, waiting for the user to be inserted.
pub struct ConfirmAwaitingUser {
    pub email: String,
    pub password: String,
}

impl RegistrationService {
    /// Starts a request for a code: a user with this address is to be looked up.
    pub fn send_code<'a>(email: String, cfg: &'a AppConfig) -> (r: SendCodeAwaitingUser<'a>)
        ensures
            r.email == email,
            r.cfg == cfg,
    {
        SendCodeAwaitingUser { cfg, email }
    }

    /// Starts a registration: the code stored for the address is to be read back.
    pub fn confirm<'a>(email: String, code: String, password: String, cfg: &'a AppConfig) -> (r:
        ConfirmAwaitingCode<'a>)
        ensures
            r.verification.config() == cfg,
            r.verification.email()@ == email@,
            r.verification.code()@ == code@,
            r.password == password,
    {
        ConfirmAwaitingCode { verification: RegistrationVerification::new(cfg, email, code), password }
    }
}

impl<'a> SendCodeAwaitingUser<'a> {
    /// Decides on the lookup with the code to send: an existing user is
    /// `USER_IS_EXISTS_ERROR`; otherwise (also when the lookup failed) `code` is to
    /// be sent to the address.
    pub fn on_user_lookup_with_code(self, found: Result<Option<User>, String>, code: String) -> (r:
        Result<SendCodeAwaitingEmail<'a>, Reply<String>>)
        ensures
            found matches Ok(Some(_)) ==> (r matches Err(reply) && is_error_reply(
                reply,
                STATUS_CONFLICT,
                USER_IS_EXISTS_ERROR@,
            )),
            !(found matches Ok(Some(_))) ==> (r matches Ok(next) && next.verification.config()
                == self.cfg && next.verification.email()@ == self.email@
                && next.verification.code()@ == code@),
    {
        match found {
            Ok(Some(_)) => Err(plain_error_reply(STATUS_CONFLICT, USER_IS_EXISTS_ERROR)),
            _ => Ok(
                SendCodeAwaitingEmail {
                    verification: RegistrationVerification::new(self.cfg, self.email, code),
                },
            ),
        }
    }

    /// Decides on the lookup; a new address gets a fresh six-digit code.
    pub fn on_user_lookup(self, found: Result<Option<User>, String>) -> (r: Result<
        SendCodeAwaitingEmail<'a>,
        Reply<String>,
    >)
        ensures
            found matches Ok(Some(_)) ==> (r matches Err(reply) && is_error_reply(
                reply,
                STATUS_CONFLICT,
                USER_IS_EXISTS_ERROR@,
            )),
            !(found matches Ok(Some(_))) ==> (r matches Ok(next) && next.verification.config()
                == self.cfg && next.verification.email()@ == self.email@
                && next.verification.code()@.len() == VERIFICATION_CODE_LENGTH && forall|i: int|
                0 <= i < VERIFICATION_CODE_LENGTH ==> is_digit_char(
                #[trigger] next.verification.code()@[i],
            )),
    {
        match found {
            Ok(Some(u)) => self.on_user_lookup_with_code(Ok(Some(u)), String::new()),
            other => {
                let code = generate_verification_code();
                self.on_user_lookup_with_code(other, code)
            },
        }
    }
}

impl<'a> SendCodeAwaitingEmail<'a> {
    /// Decides once the e-mail was sent or failed: a failure is
    /// `FAILED_SEND_CODE_ERROR`; otherwise the code is to be stored.
    pub fn on_email_sent(self, sent: bool) -> (r: Result<
        SendCodeAwaitingStore<'a>,
        Reply<String>,
    >)
        ensures
            !sent ==> (r matches Err(reply) && is_error_reply(
                reply,
                STATUS_INTERNAL_SERVER_ERROR,
                FAILED_SEND_CODE_ERROR@,
            )),
            sent ==> (r matches Ok(next) && next.verification == self.verification),
    {
        if sent {
            Ok(SendCodeAwaitingStore { verification: self.verification })
        } else {
            Err(plain_error_reply(STATUS_INTERNAL_SERVER_ERROR, FAILED_SEND_CODE_ERROR))
        }
    }
}

impl<'a> SendCodeAwaitingStore<'a> {
    /// Decides once the code was stored or failed: a failure is
    /// `FAILED_STORE_CODE_ERROR`, success is `CODE_SENT_MESSAGE`.
    pub fn on_code_stored(self, stored: bool) -> (r: Reply<String>)
        ensures
            !stored ==> is_error_reply(r, STATUS_INTERNAL_SERVER_ERROR, FAILED_STORE_CODE_ERROR@),
            stored ==> (r.status == STATUS_OK && (r.body matches ApiResponse::Success { data }
                && data@ == CODE_SENT_MESSAGE@)),
    {
        if stored {
            Reply {
                status: STATUS_OK,
                body: ApiResponse::Success { data: to_owned_string(CODE_SENT_MESSAGE) },
            }
        } else {
            plain_error_reply(STATUS_INTERNAL_SERVER_ERROR, FAILED_STORE_CODE_ERROR)
        }
    }
}

impl<'a> ConfirmAwaitingCode<'a> {
    /// Decides on the code read back from the store: a failed read is
    /// `VERIFICATION_ERROR: <cause>`; a missing or different code is
    /// `UNCORRECTED_VERIFICATION_CODE_ERROR`; the same code lets the user be inserted.
    pub fn on_stored_code(self, stored: Result<Option<String>, String>) -> (r: Result<
        ConfirmAwaitingUser,
        Reply<UserOut>,
    >)
        ensures
            stored matches Err(e) ==> (r matches Err(reply) && is_error_reply(
                reply,
                STATUS_INTERNAL_SERVER_ERROR,
                VERIFICATION_ERROR@ + ": "@ + e@,
            )),
            stored matches Ok(s) ==> (r is Ok <==> code_accepted(
                stored_text(s),
                self.verification.code()@,
            )),
            stored matches Ok(s) && r is Err ==> (r matches Err(reply) && is_error_reply(
                reply,
                STATUS_BAD_REQUEST,
                UNCORRECTED_VERIFICATION_CODE_ERROR@,
            )),
            r matches Ok(next) ==> next.email@ == self.verification.email()@ && next.password
                == self.password,
    {
        match stored {
            Ok(s) => {
                if self.verification.is_matching_code(s) {
                    let email = to_owned_string(self.verification.email_recipient().as_str());
                    Ok(ConfirmAwaitingUser { email, password: self.password })
                } else {
                    Err(plain_error_reply(STATUS_BAD_REQUEST, UNCORRECTED_VERIFICATION_CODE_ERROR))
                }
            },
            Err(e) => Err(error_reply(STATUS_INTERNAL_SERVER_ERROR, VERIFICATION_ERROR, e.as_str())),
        }
    }
}

impl ConfirmAwaitingUser {
    /// Decides on the insertion of the user with the token to issue: an inserted user
    /// gets `token`; no row is `FAILED_CREATE_USER_ERROR`; a failure is `DB_ERROR: <cause>`.
    pub fn on_user_added_with_token(self, added: Result<Option<User>, String>, token: String) -> (r:
        Result<IssueToken, Reply<UserOut>>)
        ensures
            added matches Ok(Some(u)) ==> (r matches Ok(next) && next.user == u && next.token
                == token),
            added matches Ok(None) ==> (r matches Err(reply) && is_error_reply(
                reply,
                STATUS_INTERNAL_SERVER_ERROR,
                FAILED_CREATE_USER_ERROR@,
            )),
            added matches Err(e) ==> (r matches Err(reply) && is_error_reply(
                reply,
                STATUS_INTERNAL_SERVER_ERROR,
                DB_ERROR@ + ": "@ + e@,
            )),
    {
        match added {
            Ok(Some(user)) => Ok(IssueToken { user, token }),
            Ok(None) => Err(plain_error_reply(STATUS_INTERNAL_SERVER_ERROR, FAILED_CREATE_USER_ERROR)),
            Err(e) => Err(error_reply(STATUS_INTERNAL_SERVER_ERROR, DB_ERROR, e.as_str())),
        }
    }

    /// Decides on the insertion; an inserted user gets a fresh 43-character token.
    pub fn on_user_added(self, added: Result<Option<User>, String>) -> (r: Result<
        IssueToken,
        Reply<UserOut>,
    >)
        ensures
            added matches Ok(Some(u)) ==> (r matches Ok(next) && next.user == u && (exists|
                b: Seq<u8>,
            | b.len() == 32 && next.token@ == b64_url_nopad(b)) && (exists|b: Seq<u8>|
                #[trigger] is_drawn_os_bytes(b) && next.token@ == b64_url_nopad(b))
                && next.token@.len() == 43
                && forall|i: int|
                0 <= i < next.token@.len() ==> is_url_safe_char(#[trigger] next.token@[i])),
            added matches Ok(None) ==> (r matches Err(reply) && is_error_reply(
                reply,
                STATUS_INTERNAL_SERVER_ERROR,
                FAILED_CREATE_USER_ERROR@,
            )),
            added matches Err(e) ==> (r matches Err(reply) && is_error_reply(
                reply,
                STATUS_INTERNAL_SERVER_ERROR,
                DB_ERROR@ + ": "@ + e@,
            )),
    {
        match added {
            Ok(Some(user)) => {
                let token = get_auth_token();
                self.on_user_added_with_token(Ok(Some(user)), token)
            },
            other => self.on_user_added_with_token(other, String::new()),
        }
    }
}

/// The code store after a request for a code: `code` kept under the key of `email`
/// (what the store step asks for, under `SendCodeAwaitingStore::key`).
pub open spec fn store_code(
    store: Map<Seq<char>, Seq<char>>,
    email: Seq<char>,
    code: Seq<char>,
) -> Map<Seq<char>, Seq<char>> {
    store.insert(verification_key(email), code)
}

/// A confirmation's read of the store: the code kept under the key of `email`, if
/// any, taken out of the store (read and removed, as `on_stored_code` expects), and
/// the store that is left.
pub open spec fn take_code(store: Map<Seq<char>, Seq<char>>, email: Seq<char>) -> (
    Option<Seq<char>>,
    Map<Seq<char>, Seq<char>>,
) {
    let key = verification_key(email);
    (if store.contains_key(key) {
        Some(store[key])
    } else {
        None
    }, store.remove(key))
}

/// Registration round trip: after a code is sent to an address and stored, a
/// confirmation for that address reads it back and accepts exactly the code that was
/// sent, whatever the store held before.
pub proof fn lemma_registration_round_trip(
    store: Map<Seq<char>, Seq<char>>,
    email: Seq<char>,
    code: Seq<char>,
    entered: Seq<char>,
)
    ensures
        take_code(store_code(store, email, code), email).0 == Some(code),
        code_accepted(take_code(store_code(store, email, code), email).0, entered) <==> entered
            == code,
{
}

/// A code is accepted at most once: a confirmation takes the code for its address out
/// of the store, so the next confirmation for that address, with no new code sent in
/// between, reads back nothing and is refused, whatever it enters.
pub proof fn lemma_code_accepted_at_most_once(
    store: Map<Seq<char>, Seq<char>>,
    email: Seq<char>,
    entered: Seq<char>,
)
    ensures
        take_code(take_code(store, email).1, email).0 is None,
        !code_accepted(take_code(take_code(store, email).1, email).0, entered),
{
}

impl<'a> SendCodeAwaitingStore<'a> {
    /// The key to store the code under.
    pub fn key(&self) -> (r: String)
        ensures
            r@ == verification_key(self.verification.email()@),
    {
        self.verification.make_key()
    }
}

} // verus!
