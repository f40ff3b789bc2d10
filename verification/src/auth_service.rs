use vstd::prelude::*;
use crate::api::{
    ApiError, ApiResponse, Reply, STATUS_BAD_REQUEST, STATUS_INTERNAL_SERVER_ERROR, STATUS_OK,
};
use crate::constants::{DB_ERROR, FAILED_CREATE_TOKEN_ERROR, INVALID_CREDENTIALS_ERROR};
use crate::dto::{UserDto, UserOut, UserTokensShortDto};
use crate::draws::is_drawn_uuid_text;
use crate::encoding::is_lower_hex_char;
use crate::models::{User, UserTokens};

verus! {

/// The text of a version-4 UUID in lower-case hyphenated form, such as
/// `67e55044-10b1-426f-9247-bb680e5fe0c8`.
pub open spec fn is_uuid_v4_text(s: Seq<char>) -> bool {
    &&& s.len() == 36
    &&& forall|i: int|
        0 <= i < 36 ==> (if i == 8 || i == 13 || i == 18 || i == 23 {
            s[i] == '-'
        } else {
            is_lower_hex_char(#[trigger] s[i])
        })
    &&& s[14] == '4'
    &&& (s[19] == '8' || s[19] == '9' || s[19] == 'a' || s[19] == 'b')
}

/// A random version-4 UUID in hyphenated form
/// (`uuid::Uuid::new_v4().hyphenated().to_string()`); the text is one the random
/// source drew.
#[verifier::external_body]
fn new_uuid_v4_text() -> (r: String)
    ensures
        is_uuid_v4_text(r@),
        is_drawn_uuid_text(r@),
{
    uuid::Uuid::new_v4().hyphenated().to_string()
}

/// `r` is sent under `status` and carries the error `message`.
pub open spec fn is_error_reply<T>(r: Reply<T>, status: u16, message: Seq<char>) -> bool {
    &&& r.status == status
    &&& r.body matches ApiResponse::Error { error } && error.message@ == message
}

/// The error reply `prefix: detail` under `status`.
pub fn error_reply<T>(status: u16, prefix: &str, detail: &str) -> (r: Reply<T>)
    ensures
        is_error_reply(r, status, prefix@ + ": "@ + detail@),
{
    Reply { status, body: ApiResponse::Error { error: ApiError::with_detail(prefix, detail) } }
}

/// The error reply `message` under `status`.
pub fn plain_error_reply<T>(status: u16, message: &str) -> (r: Reply<T>)
    ensures
        is_error_reply(r, status, message@),
{
    Reply { status, body: ApiResponse::Error { error: ApiError::new(message) } }
}

/// What a successful log-in or registration shows: the user's id, address, base
/// folder and creation time, and the new token with its creation time.
pub open spec fn issued_user_out(user: User, token: UserTokens) -> UserOut {
    UserOut {
        user: UserDto {
            id: user.id,
            email: user.email,
            base_folder: user.base_folder,
            created_at: user.created_at,
        },
        meta: UserTokensShortDto { token: token.token, created_at: token.created_at },
    }
}

/// Log-in and registration never hand out the password: what they show of a user is
/// the same for any two users who differ in nothing but their password.
pub proof fn lemma_issued_user_out_ignores_password(a: User, b: User, token: UserTokens)
    requires
        a.id == b.id,
        a.email == b.email,
        a.base_folder == b.base_folder,
        a.created_at == b.created_at,
    ensures
        issued_user_out(a, token) == issued_user_out(b, token),
{
}

/// A user who is to receive a new token; the service stores the token next.
pub struct IssueToken {
    pub user: User,
    pub token: String,
}

impl IssueToken {
    /// Decides the reply once the token was stored, or failed to be:
    /// the user and the stored token (200), or `FAILED_CREATE_TOKEN_ERROR: <cause>` (500).
    pub fn on_token_created(self, created: Result<UserTokens, String>) -> (r: Reply<UserOut>)
        ensures
            created matches Ok(t) ==> (r.status == STATUS_OK && r.body == (ApiResponse::Success {
                data: issued_user_out(self.user, t),
            })),
            created matches Err(e) ==> is_error_reply(
                r,
                STATUS_INTERNAL_SERVER_ERROR,
                FAILED_CREATE_TOKEN_ERROR@ + ": "@ + e@,
            ),
    {
        match created {
            Ok(user_token) => {
                let user_dto = UserDto {
                    id: self.user.id,
                    email: self.user.email,
                    base_folder: self.user.base_folder,
                    created_at: self.user.created_at,
                };
                let token_dto = UserTokensShortDto {
                    token: user_token.token,
                    created_at: user_token.created_at,
                };
                Reply {
                    status: STATUS_OK,
                    body: ApiResponse::Success { data: UserOut { user: user_dto, meta: token_dto } },
                }
            },
            Err(e) => error_reply(STATUS_INTERNAL_SERVER_ERROR, FAILED_CREATE_TOKEN_ERROR, e.as_str()),
        }
    }
}

/// Log-in with e-mail and password.
pub struct AuthService;

/// A log-in waiting for the user with the given e-mail and password to be looked up.
pub struct LoginAwaitingUser {
    pub email: String,
    pub password: String,
}

impl AuthService {
    /// Starts a log-in: the user with these credentials is to be looked up.
    pub fn login(email: String, password: String) -> (r: LoginAwaitingUser)
        ensures
            r.email == email,
            r.password == password,
    {
        LoginAwaitingUser { email, password }
    }
}

impl LoginAwaitingUser {
    /// Decides on the lookup with the token to issue: a found user gets `token`;
    /// no user is `INVALID_CREDENTIALS_ERROR` (400); a failed lookup is
    /// `DB_ERROR: <cause>` (500).
    pub fn on_user_lookup_with_token(
        self,
        found: Result<Option<User>, String>,
        token: String,
    ) -> (r: Result<IssueToken, Reply<UserOut>>)
        ensures
            found matches Ok(Some(u)) ==> (r matches Ok(next) && next.user == u && next.token
                == token),
            found matches Ok(None) ==> (r matches Err(reply) && is_error_reply(
                reply,
                STATUS_BAD_REQUEST,
                INVALID_CREDENTIALS_ERROR@,
            )),
            found matches Err(e) ==> (r matches Err(reply) && is_error_reply(
                reply,
                STATUS_INTERNAL_SERVER_ERROR,
                DB_ERROR@ + ": "@ + e@,
            )),
    {
        match found {
            Ok(Some(user)) => Ok(IssueToken { user, token }),
            Ok(None) => Err(plain_error_reply(STATUS_BAD_REQUEST, INVALID_CREDENTIALS_ERROR)),
            Err(e) => Err(error_reply(STATUS_INTERNAL_SERVER_ERROR, DB_ERROR, e.as_str())),
        }
    }

    /// Decides on the lookup; a found user gets as token the version-4 UUID freshly
    /// drawn for this log-in.
    pub fn on_user_lookup(self, found: Result<Option<User>, String>) -> (r: Result<
        IssueToken,
        Reply<UserOut>,
    >)
        ensures
            found matches Ok(Some(u)) ==> (r matches Ok(next) && next.user == u
                && is_uuid_v4_text(next.token@) && is_drawn_uuid_text(next.token@)),
            found matches Ok(None) ==> (r matches Err(reply) && is_error_reply(
                reply,
                STATUS_BAD_REQUEST,
                INVALID_CREDENTIALS_ERROR@,
            )),
            found matches Err(e) ==> (r matches Err(reply) && is_error_reply(
                reply,
                STATUS_INTERNAL_SERVER_ERROR,
                DB_ERROR@ + ": "@ + e@,
            )),
    {
        match found {
            Ok(Some(user)) => {
                let token = new_uuid_v4_text();
                self.on_user_lookup_with_token(Ok(Some(user)), token)
            },
            Ok(None) => self.on_user_lookup_with_token(Ok(None), String::new()),
            Err(e) => self.on_user_lookup_with_token(Err(e), String::new()),
        }
    }
}

} // verus!
