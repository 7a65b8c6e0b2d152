use emm_server::{
    authenticate_begin, authenticate_finish, generate_session_token, get_bearer_token,
    hash_session_token, session_token_text, DbError, Status,
};

#[test]
fn bearer_token_is_what_follows_the_prefix() {
    assert_eq!(get_bearer_token(Some("Bearer abc123")), Ok("abc123"));
    assert_eq!(get_bearer_token(Some("Bearer ")), Ok(""));
    assert_eq!(get_bearer_token(Some("Bearer  spaced")), Ok(" spaced"));
}

#[test]
fn bearer_token_refuses_other_headers() {
    assert_eq!(get_bearer_token(None), Err(Status::Unauthorized));
    assert_eq!(get_bearer_token(Some("Basic abc")), Err(Status::Unauthorized));
    assert_eq!(get_bearer_token(Some("bearer abc")), Err(Status::Unauthorized));
    assert_eq!(get_bearer_token(Some("Bearer")), Err(Status::Unauthorized));
    assert_eq!(get_bearer_token(Some("")), Err(Status::Unauthorized));
}

#[test]
fn session_token_hash_is_hex_sha256() {
    assert_eq!(
        hash_session_token("abc"),
        "ba7816bf8f01cfea414140de5dae2223b00361a396177a9cb410ff61f20015ad"
    );
    assert_eq!(
        hash_session_token(""),
        "e3b0c44298fc1c149afbf4c8996fb92427ae41e4649b934ca495991b7852b855"
    );
}

#[test]
fn token_text_is_lowercase_hex() {
    assert_eq!(session_token_text(&[0x00, 0xff, 0x1a, 0xb9]), "00ff1ab9");
    assert_eq!(session_token_text(&[]), "");
}

#[test]
fn generated_tokens_are_64_hex_digits_and_differ() {
    let a = generate_session_token().expect("random bytes");
    let b = generate_session_token().expect("random bytes");
    assert_eq!(a.len(), 64);
    assert!(a.chars().all(|c| c.is_ascii_digit() || ('a'..='f').contains(&c)));
    assert_ne!(a, b);
}

#[test]
fn authentication_looks_up_the_hash_of_the_bearer_token() {
    let token = generate_session_token().expect("random bytes");
    let header = format!("Bearer {}", token);
    assert_eq!(authenticate_begin(Some(&header)), Ok(hash_session_token(&token)));
    assert_eq!(authenticate_begin(None), Err(Status::Unauthorized));
    assert_eq!(authenticate_begin(Some("Token x")), Err(Status::Unauthorized));
}

#[test]
fn authentication_outcomes() {
    assert_eq!(authenticate_finish(Ok(Some(7))), Ok(7));
    assert_eq!(authenticate_finish(Ok(None)), Err(Status::Unauthorized));
    assert_eq!(authenticate_finish(Err(DbError::Other)), Err(Status::InternalServerError));
    assert_eq!(authenticate_finish(Err(DbError::NoRows)), Err(Status::InternalServerError));
}

#[test]
fn status_codes() {
    assert_eq!(Status::Success.code(), 200);
    assert_eq!(Status::Created.code(), 201);
    assert_eq!(Status::NoContent.code(), 204);
    assert_eq!(Status::Unauthorized.code(), 401);
    assert_eq!(Status::Conflict.code(), 409);
    assert_eq!(Status::InternalServerError.code(), 500);
    assert!(Status::NoContent.is_success());
    assert!(!Status::Conflict.is_success());
}
