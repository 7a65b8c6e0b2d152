//! The decisions of the request handlers: which status answers each outcome
//! of the work a request needs.

use vstd::prelude::*;
use crate::calendar::{rfc3339_at, session_expiry, SESSION_LIFETIME_SECS};
use crate::digest::{hex_lower, is_lower_hex, os_random_bytes};
use crate::model::{BootstrapResponse, LoginResponse};
use crate::password::{argon2_accepts, hash_password, verify_password, PasswordError};
use crate::session::{
    bearer_prefix, hash_session_token, lemma_issued_token_authenticates, session_lookup_key,
    session_token_hash, session_token_text, SESSION_TOKEN_BYTES,
};
use crate::status::Status;
use crate::store::{CreateUserError, DbError};

verus! {

/// The answer to a failure of the database, or of getting hold of it.
pub fn internal_failure() -> (status: Status)
    ensures
        status == Status::InternalServerError,
{
    Status::InternalServerError
}

/// What a request gets from a database result: the value, or an internal
/// error when the database failed.
pub fn database_result<T>(result: Result<T, DbError>) -> (answer: Result<T, Status>)
    ensures
        match result {
            Ok(v) => answer == Ok::<T, Status>(v),
            Err(_) => answer == Err::<T, Status>(Status::InternalServerError),
        },
{
    match result {
        Ok(v) => Ok(v),
        Err(_) => Err(Status::InternalServerError),
    }
}

/// The answer to a change that returns nothing: `NoContent` when it was
/// made, an internal error when the database failed.
pub fn no_content_answer(result: Result<(), DbError>) -> (answer: Result<Status, Status>)
    ensures
        match result {
            Ok(()) => answer == Ok::<Status, Status>(Status::NoContent),
            Err(_) => answer == Err::<Status, Status>(Status::InternalServerError),
        },
{
    match result {
        Ok(()) => Ok(Status::NoContent),
        Err(_) => Err(Status::InternalServerError),
    }
}

/// First step of registration: the hash to store for the password.
/// `ServiceUnavailable` when the operating system gives no random bytes for
/// the salt; an internal error only when the NFC form of the password is
/// longer than `0xFFFFFFFF` bytes, which Argon2 refuses.
pub fn register_begin(password: &str) -> (hash: Result<String, Status>)
    ensures
        hash matches Err(s) ==> s == Status::ServiceUnavailable || (s == Status::InternalServerError
            && vstd::utf8::encode_utf8(crate::password::nfc(password@)).len() > 0xFFFF_FFFF),
        hash matches Ok(h) ==> exists|salt_bytes: Seq<u8>|
            salt_bytes.len() == 16 && #[trigger] crate::password::password_hash_with(
                password@,
                salt_bytes,
            ) == Some(h@),
        hash matches Ok(h) ==> argon2_accepts(crate::password::nfc(password@), h@),
{
    match hash_password(password) {
        Ok(h) => Ok(h),
        Err(PasswordError::Randomness) => Err(Status::ServiceUnavailable),
        Err(_) => Err(Status::InternalServerError),
    }
}

/// Second step of registration: the new user's id, `Conflict` when the
/// name is taken, or an internal error when the database failed.
pub fn register_outcome(created: Result<i64, CreateUserError>) -> (user: Result<i64, Status>)
    ensures
        match created {
            Ok(id) => user == Ok::<i64, Status>(id),
            Err(CreateUserError::UsernameTaken) => user == Err::<i64, Status>(Status::Conflict),
            Err(CreateUserError::Database(_)) => user == Err::<i64, Status>(
                Status::InternalServerError,
            ),
        },
{
    match created {
        Ok(id) => Ok(id),
        Err(CreateUserError::UsernameTaken) => Err(Status::Conflict),
        Err(CreateUserError::Database(_)) => Err(Status::InternalServerError),
    }
}

/// Last step of registration: the account exists, so the answer is
/// `Created`, whether or not its default collections could be made.
pub fn register_finish(defaults: Result<(), DbError>) -> (status: Status)
    ensures
        status == Status::Created,
{
    Status::Created
}

/// First step of login: the user whose stored password hash accepts the
/// password. An unknown name or a wrong password is `Unauthorized`; a
/// failed lookup is an internal error.
pub fn login_check(lookup: Result<Option<(i64, String)>, DbError>, password: &str) -> (user: Result<i64, Status>)
    ensures
        match lookup {
            Ok(Some((id, hash))) => if argon2_accepts(password@, hash@) {
                user == Ok::<i64, Status>(id)
            } else {
                user == Err::<i64, Status>(Status::Unauthorized)
            },
            Ok(None) => user == Err::<i64, Status>(Status::Unauthorized),
            Err(_) => user == Err::<i64, Status>(Status::InternalServerError),
        },
{
    match lookup {
        Ok(Some((id, hash))) => {
            if verify_password(password, hash.as_str()) {
                Ok(id)
            } else {
                Err(Status::Unauthorized)
            }
        },
        Ok(None) => Err(Status::Unauthorized),
        Err(_) => Err(Status::InternalServerError),
    }
}

/// A session granted at login: the token handed to the user, the hash
/// under which the session is stored, and when it expires.
pub struct LoginGrant {
    pub user_id: i64,
    pub session_token: String,
    pub token_hash: String,
    pub expires_at: String,
}

impl LoginGrant {
    /// The stored hash belongs to the token, and the token is 64 lowercase
    /// hex digits.
    pub open spec fn wf(self) -> bool {
        &&& self.token_hash@ == session_token_hash(self.session_token@)
        &&& self.session_token@.len() == 64
        &&& is_lower_hex(self.session_token@)
    }
}

/// A session for the user whose token is made of the given bytes, starting
/// at the given instant and lasting ten days. An internal error exactly
/// when the expiry is out of range.
pub fn session_grant(user_id: i64, token_bytes: &[u8], now_secs: i64, now_nanos: u32) -> (grant: Result<LoginGrant, Status>)
    requires
        token_bytes@.len() == 32,
    ensures
        match grant {
            Ok(g) => {
                &&& g.wf()
                &&& g.user_id == user_id
                &&& g.session_token@ == hex_lower(token_bytes@)
                &&& now_secs + SESSION_LIFETIME_SECS <= i64::MAX
                &&& rfc3339_at((now_secs + SESSION_LIFETIME_SECS) as i64, now_nanos) == Some(
                    g.expires_at@,
                )
            },
            Err(s) => s == Status::InternalServerError && (now_secs + SESSION_LIFETIME_SECS
                > i64::MAX || rfc3339_at((now_secs + SESSION_LIFETIME_SECS) as i64, now_nanos) is None),
        },
{
    let expires_at = match session_expiry(now_secs, now_nanos) {
        Some(t) => t,
        None => return Err(Status::InternalServerError),
    };
    let session_token = session_token_text(token_bytes);
    let token_hash = hash_session_token(session_token.as_str());
    Ok(LoginGrant { user_id, session_token, token_hash, expires_at })
}

/// Second step of login: a fresh session for the user, with a token of 32
/// random bytes from the operating system, starting at the given instant
/// and lasting ten days. `ServiceUnavailable` when the operating system
/// gives no random bytes; an internal error exactly when the expiry is out
/// of range.
pub fn login_grant(user_id: i64, now_secs: i64, now_nanos: u32) -> (grant: Result<LoginGrant, Status>)
    ensures
        grant matches Ok(g) ==> {
            &&& g.wf()
            &&& g.user_id == user_id
            &&& now_secs + SESSION_LIFETIME_SECS <= i64::MAX
            &&& rfc3339_at((now_secs + SESSION_LIFETIME_SECS) as i64, now_nanos) == Some(
                g.expires_at@,
            )
        },
        grant matches Err(s) ==> s == Status::ServiceUnavailable || (s == Status::InternalServerError
            && (now_secs + SESSION_LIFETIME_SECS > i64::MAX || rfc3339_at(
            (now_secs + SESSION_LIFETIME_SECS) as i64,
            now_nanos,
        ) is None)),
        (now_secs + SESSION_LIFETIME_SECS > i64::MAX || rfc3339_at(
            (now_secs + SESSION_LIFETIME_SECS) as i64,
            now_nanos,
        ) is None) ==> grant == Err::<LoginGrant, Status>(Status::InternalServerError),
{
    match session_expiry(now_secs, now_nanos) {
        Some(_) => {},
        None => return Err(Status::InternalServerError),
    }
    match os_random_bytes(SESSION_TOKEN_BYTES) {
        Some(bytes) => session_grant(user_id, bytes.as_slice(), now_secs, now_nanos),
        None => Err(Status::ServiceUnavailable),
    }
}

/// Last step of login: the answer with the user, the session token and the
/// user's bootstrap.
pub fn login_response(grant: LoginGrant, username: String, bootstrap: BootstrapResponse) -> (response: LoginResponse)
    ensures
        response.user_id == grant.user_id,
        response.username == username,
        response.session_token == grant.session_token,
        response.bootstrap == bootstrap,
{
    LoginResponse {
        user_id: grant.user_id,
        username,
        session_token: grant.session_token,
        bootstrap,
    }
}

/// The token of a granted session authenticates later requests: a request
/// with the header `Bearer <token>` looks up the very hash under which
/// login stored the session.
pub proof fn lemma_granted_session_authenticates(grant: LoginGrant)
    requires
        grant.wf(),
    ensures
        session_lookup_key(Some(bearer_prefix() + grant.session_token@)) == Ok::<Seq<char>, Status>(
            grant.token_hash@,
        ),
{
    lemma_issued_token_authenticates(grant.session_token@);
}

} // verus!
