//! Session tokens: reading them from an `Authorization` header, hashing them
//! for storage, generating fresh ones, and the decisions of authentication.

use vstd::prelude::*;
use crate::digest::{hex_encode, hex_lower, is_lower_hex, lemma_hex_lower_shape, os_random_bytes, sha256, sha256_digest};
use crate::status::Status;
use crate::store::DbError;

verus! {

broadcast use vstd::string::group_string_axioms;

/// Number of random bytes in a session token.
pub const SESSION_TOKEN_BYTES: usize = 32;

/// The scheme prefix that an `Authorization` header carries before a token.
pub open spec fn bearer_prefix() -> Seq<char> {
    seq!['B', 'e', 'a', 'r', 'e', 'r', ' ']
}

/// The token carried by an `Authorization` header text: what follows the
/// `Bearer ` prefix, if the text starts with it.
pub open spec fn bearer_token_of(header: Seq<char>) -> Option<Seq<char>> {
    if header.len() >= 7 && header.subrange(0, 7) == bearer_prefix() {
        Some(header.subrange(7, header.len() as int))
    } else {
        None
    }
}

/// The text stored for a session token: the lowercase hex of the SHA-256
/// digest of the token's UTF-8 bytes.
pub open spec fn session_token_hash(token: Seq<char>) -> Seq<char> {
    hex_lower(sha256(vstd::utf8::encode_utf8(token)))
}

/// What authentication looks up for a header: the hash of its bearer token,
/// or `Unauthorized` when there is no header or no bearer token in it.
pub open spec fn session_lookup_key(authorization: Option<Seq<char>>) -> Result<Seq<char>, Status> {
    match authorization {
        None => Err(Status::Unauthorized),
        Some(header) => match bearer_token_of(header) {
            Some(token) => Ok(session_token_hash(token)),
            None => Err(Status::Unauthorized),
        },
    }
}

/// Extracts the bearer token from the text of an `Authorization` header.
/// A missing header, or one that does not start with `Bearer `, is refused
/// with `Unauthorized`.
pub fn get_bearer_token<'a>(authorization: Option<&'a str>) -> (token: Result<&'a str, Status>)
    ensures
        match authorization {
            None => token == Err::<&str, Status>(Status::Unauthorized),
            Some(header) => match bearer_token_of(header@) {
                Some(t) => token matches Ok(found) && found@ == t,
                None => token == Err::<&str, Status>(Status::Unauthorized),
            },
        },
{
    let header = match authorization {
        Some(header) => header,
        None => return Err(Status::Unauthorized),
    };
    let prefix: [char; 7] = ['B', 'e', 'a', 'r', 'e', 'r', ' '];
    assert(prefix@ == bearer_prefix());
    let length: usize = header.unicode_len();
    if length < 7 {
        return Err(Status::Unauthorized);
    }
    let mut i: usize = 0;
    while i < 7
        invariant
            0 <= i <= 7,
            authorization == Some(header),
            length == header@.len(),
            length >= 7,
            prefix@ == bearer_prefix(),
            forall|j: int| 0 <= j < i ==> header@[j] == bearer_prefix()[j],
        decreases 7 - i,
    {
        if header.get_char(i) != prefix[i] {
            assert(header@.subrange(0, 7)[i as int] != bearer_prefix()[i as int]);
            return Err(Status::Unauthorized);
        }
        i = i + 1;
    }
    assert(header@.subrange(0, 7) =~= bearer_prefix());
    Ok(header.substring_char(7, length))
}

/// The stored form of a session token: the lowercase hex text of the
/// SHA-256 digest of the token's bytes.
pub fn hash_session_token(token: &str) -> (hash: String)
    ensures
        hash@ == session_token_hash(token@),
        hash@.len() == 64,
        is_lower_hex(hash@),
{
    let digest = sha256_digest(token.as_bytes());
    proof {
        lemma_hex_lower_shape(digest@);
    }
    hex_encode(digest.as_slice())
}

/// Turns the random bytes of a new session token into its text: lowercase
/// hex, two digits per byte.
pub fn session_token_text(bytes: &[u8]) -> (token: String)
    ensures
        token@ == hex_lower(bytes@),
        token@.len() == 2 * bytes@.len(),
        is_lower_hex(token@),
{
    proof {
        lemma_hex_lower_shape(bytes@);
    }
    hex_encode(bytes)
}

/// A fresh session token: 32 bytes from the operating system's random
/// source, as 64 lowercase hex digits. `None` when the operating system
/// gives no random bytes.
pub fn generate_session_token() -> (token: Option<String>)
    ensures
        token matches Some(t) ==> {
            &&& t@.len() == 64
            &&& is_lower_hex(t@)
            &&& exists|bytes: Seq<u8>| bytes.len() == 32 && #[trigger] hex_lower(bytes) == t@
        },
{
    match os_random_bytes(SESSION_TOKEN_BYTES) {
        Some(bytes) => {
            let text = session_token_text(bytes.as_slice());
            assert(hex_lower(bytes@) == text@);
            Some(text)
        },
        None => None,
    }
}

/// First half of authentication: the session key to look up for the
/// request's `Authorization` header text.
pub fn authenticate_begin(authorization: Option<&str>) -> (key: Result<String, Status>)
    ensures
        match (key, session_lookup_key(
            match authorization {
                Some(h) => Some(h@),
                None => None,
            },
        )) {
            (Ok(k), Ok(expected)) => k@ == expected,
            (Err(s), Err(expected)) => s == expected,
            _ => false,
        },
{
    match get_bearer_token(authorization) {
        Ok(token) => Ok(hash_session_token(token)),
        Err(status) => Err(status),
    }
}

/// Second half of authentication: the user behind the session that the
/// lookup found. No live session is `Unauthorized`; a failed lookup is an
/// internal error.
pub fn authenticate_finish(lookup: Result<Option<i64>, DbError>) -> (user: Result<i64, Status>)
    ensures
        match lookup {
            Ok(Some(id)) => user == Ok::<i64, Status>(id),
            Ok(None) => user == Err::<i64, Status>(Status::Unauthorized),
            Err(_) => user == Err::<i64, Status>(Status::InternalServerError),
        },
{
    match lookup {
        Ok(Some(id)) => Ok(id),
        Ok(None) => Err(Status::Unauthorized),
        Err(_) => Err(Status::InternalServerError),
    }
}

/// A header made of `Bearer ` and a token carries that token back.
pub proof fn lemma_bearer_round_trip(token: Seq<char>)
    ensures
        bearer_token_of(bearer_prefix() + token) == Some(token),
{
    let header = bearer_prefix() + token;
    assert(header.subrange(0, 7) =~= bearer_prefix());
    assert(header.subrange(7, header.len() as int) =~= token);
}

/// A token handed out at login authenticates later requests: the key that
/// authentication looks up for the header `Bearer <token>` is the hash that
/// login stores for the token.
pub proof fn lemma_issued_token_authenticates(token: Seq<char>)
    ensures
        session_lookup_key(Some(bearer_prefix() + token)) == Ok::<Seq<char>, Status>(
            session_token_hash(token),
        ),
{
    lemma_bearer_round_trip(token);
}

} // verus!
