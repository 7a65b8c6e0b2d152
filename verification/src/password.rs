//! Password hashing and verification with Argon2.

use argon2::password_hash::{PasswordHash, PasswordHasher, PasswordVerifier, SaltString};
use argon2::Argon2;
use unicode_normalization::UnicodeNormalization;
use vstd::prelude::*;
use crate::digest::os_random_bytes;

verus! {

/// Number of random bytes in a password salt.
pub const SALT_BYTES: usize = 16;

#[verifier::external_type_specification]
#[verifier::external_body]
pub struct ExPasswordHashError(argon2::password_hash::Error);

/// The Unicode Normalization Form C of a text.
pub uninterp spec fn nfc(text: Seq<char>) -> Seq<char>;

/// The unpadded standard Base64 ("B64") text of the bytes of a salt.
pub uninterp spec fn salt_b64(bytes: Seq<u8>) -> Seq<char>;

/// The PHC string that Argon2 with its default parameters computes for a
/// password (hashed as its UTF-8 bytes) and a B64 salt; `None` when Argon2
/// refuses the input.
pub uninterp spec fn argon2_phc(password: Seq<char>, salt: Seq<char>) -> Option<Seq<char>>;

/// Whether a PHC string parses and Argon2 with the parameters it names
/// accepts the password (hashed as its UTF-8 bytes) against it.
pub uninterp spec fn argon2_accepts(password: Seq<char>, phc: Seq<char>) -> bool;

/// Why a password could not be hashed.
#[derive(PartialEq, Eq, Structural, Clone, Copy, Debug)]
pub enum PasswordError {
    /// The operating system gave no random bytes for the salt.
    Randomness,
    /// The salt could not be encoded.
    Salt,
    /// Argon2 refused the password or the salt.
    Hashing,
}

/// Calls `UnicodeNormalization::nfc` on the text and collects the result:
/// the text in Unicode Normalization Form C.
#[verifier::external_body]
pub(crate) fn nfc_normalize(text: &str) -> (normalized: String)
    ensures
        normalized@ == nfc(text@),
{
    text.nfc().collect::<String>()
}

/// Calls `SaltString::encode_b64` and takes the text of the salt: the B64
/// text of the bytes. The source encodes into a buffer of 64 characters and
/// fails only when the text would not fit, so up to 48 bytes it succeeds.
#[verifier::external_body]
pub(crate) fn encode_salt(bytes: &[u8]) -> (salt: Result<String, argon2::password_hash::Error>)
    ensures
        bytes@.len() <= 48 ==> salt is Ok,
        salt matches Ok(s) ==> s@ == salt_b64(bytes@),
{
    SaltString::encode_b64(bytes).map(|s| s.as_str().to_string())
}

/// Calls `PasswordHasher::hash_password` of `Argon2::default()` on the
/// password's bytes and the salt (read back with `SaltString::from_b64`),
/// and renders the result as its PHC string. That string verifies the same
/// password: verification parses it and re-hashes the password with the
/// algorithm, version, parameters and salt it names, and compares. The salt
/// text of 8 to 48 bytes passes `from_b64` (4 to 64 characters of the B64
/// alphabet); with the default parameters Argon2 then fails only on a
/// password of more than `0xFFFFFFFF` bytes or a salt under 8 bytes.
#[verifier::external_body]
pub(crate) fn argon2_hash(password: &str, salt: &str) -> (phc: Result<String, argon2::password_hash::Error>)
    ensures
        phc is Ok <==> argon2_phc(password@, salt@) is Some,
        phc matches Ok(h) ==> argon2_phc(password@, salt@) == Some(h@),
        phc matches Ok(h) ==> argon2_accepts(password@, h@),
        (exists|bytes: Seq<u8>| 8 <= bytes.len() <= 48 && salt@ == #[trigger] salt_b64(bytes))
            && vstd::utf8::encode_utf8(password@).len() <= 0xFFFF_FFFF ==> phc is Ok,
{
    let salt = SaltString::from_b64(salt)?;
    Argon2::default().hash_password(password.as_bytes(), &salt).map(|h| h.to_string())
}

/// Calls `PasswordHash::new` on the PHC string and, when it parses,
/// `PasswordVerifier::verify_password` of `Argon2::default()` on the
/// password's bytes; true when both succeed.
#[verifier::external_body]
pub(crate) fn argon2_verify(password: &str, phc: &str) -> (accepted: bool)
    ensures
        accepted == argon2_accepts(password@, phc@),
{
    match PasswordHash::new(phc) {
        Ok(parsed) => Argon2::default().verify_password(password.as_bytes(), &parsed).is_ok(),
        Err(_) => false,
    }
}

/// The PHC string stored for a password hashed with the salt drawn as the
/// given bytes: Argon2 over the NFC form of the password and the B64 text of
/// the salt bytes.
pub open spec fn password_hash_with(password: Seq<char>, salt_bytes: Seq<u8>) -> Option<Seq<char>> {
    argon2_phc(nfc(password), salt_b64(salt_bytes))
}

/// Hashes a password with a salt made of the given bytes: the password is
/// put in Unicode Normalization Form C, then hashed with Argon2 under the
/// B64 text of the salt bytes.
pub fn hash_password_with_salt(password: &str, salt_bytes: &[u8]) -> (hash: Result<String, PasswordError>)
    requires
        salt_bytes@.len() <= 48,
    ensures
        match password_hash_with(password@, salt_bytes@) {
            Some(h) => hash matches Ok(found) && found@ == h,
            None => hash == Err::<String, PasswordError>(PasswordError::Hashing),
        },
        hash matches Ok(h) ==> argon2_accepts(nfc(password@), h@),
        8 <= salt_bytes@.len() && vstd::utf8::encode_utf8(nfc(password@)).len() <= 0xFFFF_FFFF
            ==> hash is Ok,
{
    let salt = match encode_salt(salt_bytes) {
        Ok(salt) => salt,
        Err(_) => return Err(PasswordError::Salt),
    };
    let normalized = nfc_normalize(password);
    match argon2_hash(normalized.as_str(), salt.as_str()) {
        Ok(hash) => Ok(hash),
        Err(_) => Err(PasswordError::Hashing),
    }
}

/// Hashes a password for storage with a fresh random salt of 16 bytes.
/// Fails with `Randomness` when the operating system gives no random bytes,
/// and with `Hashing` only when the NFC form of the password is longer than
/// `0xFFFFFFFF` bytes. The stored hash verifies the NFC form of the password.
pub fn hash_password(password: &str) -> (hash: Result<String, PasswordError>)
    ensures
        hash matches Err(e) ==> e == PasswordError::Randomness || (e == PasswordError::Hashing
            && vstd::utf8::encode_utf8(nfc(password@)).len() > 0xFFFF_FFFF),
        hash matches Ok(h) ==> argon2_accepts(nfc(password@), h@),
        hash matches Ok(h) ==> exists|salt_bytes: Seq<u8>|
            salt_bytes.len() == SALT_BYTES && #[trigger] password_hash_with(password@, salt_bytes)
                == Some(h@),
        hash matches Err(e) ==> e == PasswordError::Randomness || (e == PasswordError::Hashing
            && exists|salt_bytes: Seq<u8>|
            salt_bytes.len() == SALT_BYTES && #[trigger] password_hash_with(password@, salt_bytes)
                is None),
{
    match os_random_bytes(SALT_BYTES) {
        Some(bytes) => {
            let hash = hash_password_with_salt(password, bytes.as_slice());
            assert(bytes@.len() == SALT_BYTES);
            hash
        },
        None => Err(PasswordError::Randomness),
    }
}

/// Checks a password against a stored PHC string. The password is used as
/// given, without normalization; a string that is not a valid PHC string
/// accepts nothing.
pub fn verify_password(password: &str, password_hash: &str) -> (accepted: bool)
    ensures
        accepted == argon2_accepts(password@, password_hash@),
{
    argon2_verify(password, password_hash)
}

} // verus!
