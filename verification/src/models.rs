use vstd::prelude::*;

verus! {

/// A point in time without time zone, as the database returns it (`chrono::NaiveDateTime`).
#[verifier::external_type_specification]
#[verifier::external_body]
pub struct ExNaiveDateTime(chrono::NaiveDateTime);

/// A row of `users`.
#[derive(Debug)]
pub struct User {
    pub id: i64,
    pub email: String,
    pub password: String,
    pub base_folder: Option<String>,
    pub created_at: chrono::NaiveDateTime,
}

/// A user without password and creation time.
#[derive(Debug)]
pub struct UserShort {
    pub id: i64,
    pub email: String,
    pub base_folder: Option<String>,
}

/// A row of `user_tokens`.
#[derive(Debug)]
pub struct UserTokens {
    pub id: i64,
    pub user_id: i64,
    pub token: String,
    pub created_at: chrono::NaiveDateTime,
}

} // verus!
