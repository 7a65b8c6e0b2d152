use emm_server::{hash_password, hash_password_with_salt, verify_password, PasswordError};

#[test]
fn hashed_password_verifies() {
    let hash = hash_password("correct horse").expect("hash");
    assert!(hash.starts_with("$argon2id$"));
    assert!(verify_password("correct horse", &hash));
    assert!(!verify_password("wrong horse", &hash));
}

#[test]
fn fresh_salts_give_different_hashes() {
    let a = hash_password("pw").expect("hash");
    let b = hash_password("pw").expect("hash");
    assert_ne!(a, b);
}

#[test]
fn fixed_salt_gives_a_fixed_hash() {
    let salt = [7u8; 16];
    let a = hash_password_with_salt("pw", &salt).expect("hash");
    let b = hash_password_with_salt("pw", &salt).expect("hash");
    assert_eq!(a, b);
    assert!(a.contains("BwcHBwcHBwcHBwcHBwcHBw"));
    assert!(verify_password("pw", &a));
}

#[test]
fn malformed_hash_accepts_nothing() {
    assert!(!verify_password("pw", "not a phc string"));
    assert!(!verify_password("", ""));
}

#[test]
fn registration_normalizes_but_login_does_not() {
    // "é" written as e + combining acute accent; its NFC form is U+00E9.
    let decomposed = "e\u{301}";
    let composed = "\u{e9}";
    let hash = hash_password(decomposed).expect("hash");
    assert!(verify_password(composed, &hash));
    assert!(!verify_password(decomposed, &hash));
}

#[test]
fn stored_hash_verifies_the_normalized_password() {
    let password = "A\u{30a}ngstr\u{f6}m";
    let normalized = "\u{c5}ngstr\u{f6}m";
    let hash = hash_password(password).expect("hash");
    assert!(verify_password(normalized, &hash));
    let fixed = hash_password_with_salt(normalized, &[1u8; 16]).expect("hash");
    assert!(verify_password(normalized, &fixed));
}

#[test]
fn salts_shorter_than_eight_bytes_are_refused() {
    assert!(hash_password_with_salt("pw", &[3u8; 8]).is_ok());
    assert_eq!(hash_password_with_salt("pw", &[3u8; 7]), Err(PasswordError::Hashing));
    assert!(hash_password_with_salt("", &[3u8; 48]).is_ok());
}
