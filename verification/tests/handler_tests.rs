use emm_server::{
    authenticate_begin, database_result, hash_password, hash_session_token, internal_failure,
    login_check, login_grant, login_response, no_content_answer, register_begin, register_finish,
    register_outcome, session_grant, verify_password, BootstrapResponse, CreateUserError, DbError, Status,
};

#[test]
fn database_failures_are_internal_errors() {
    assert_eq!(database_result(Ok(3)), Ok(3));
    assert_eq!(database_result::<i64>(Err(DbError::NoRows)), Err(Status::InternalServerError));
    assert_eq!(no_content_answer(Ok(())), Ok(Status::NoContent));
    assert_eq!(no_content_answer(Err(DbError::Other)), Err(Status::InternalServerError));
    assert_eq!(internal_failure(), Status::InternalServerError);
}

#[test]
fn registration_outcomes() {
    let hash = register_begin("secret").expect("hash");
    assert!(verify_password("secret", &hash));
    assert_eq!(register_outcome(Ok(4)), Ok(4));
    assert_eq!(register_outcome(Err(CreateUserError::UsernameTaken)), Err(Status::Conflict));
    assert_eq!(
        register_outcome(Err(CreateUserError::Database(DbError::Other))),
        Err(Status::InternalServerError)
    );
    assert_eq!(register_finish(Ok(())), Status::Created);
    assert_eq!(register_finish(Err(DbError::Other)), Status::Created);
}

#[test]
fn login_checks_the_password() {
    let hash = hash_password("secret").expect("hash");
    assert_eq!(login_check(Ok(Some((9, hash.clone()))), "secret"), Ok(9));
    assert_eq!(login_check(Ok(Some((9, hash))), "guess"), Err(Status::Unauthorized));
    assert_eq!(login_check(Ok(None), "secret"), Err(Status::Unauthorized));
    assert_eq!(login_check(Err(DbError::Other), "secret"), Err(Status::InternalServerError));
}

#[test]
fn login_grant_authenticates_later_requests() {
    let grant = login_grant(9, 0, 0).ok().expect("grant");
    assert_eq!(grant.user_id, 9);
    assert_eq!(grant.session_token.len(), 64);
    assert_eq!(grant.token_hash, hash_session_token(&grant.session_token));
    assert_eq!(grant.expires_at, "1970-01-11T00:00:00+00:00");
    let header = format!("Bearer {}", grant.session_token);
    assert_eq!(authenticate_begin(Some(&header)), Ok(grant.token_hash.clone()));
    let token = grant.session_token.clone();
    let response = login_response(grant, "ana".to_string(), BootstrapResponse { collections: Vec::new() });
    assert_eq!(response.user_id, 9);
    assert_eq!(response.username, "ana");
    assert_eq!(response.session_token, token);
}

#[test]
fn login_grant_out_of_range_is_refused() {
    assert!(matches!(login_grant(9, i64::MAX, 0), Err(Status::InternalServerError)));
}

#[test]
fn session_grant_from_given_bytes() {
    let bytes = [0xabu8; 32];
    let grant = session_grant(3, &bytes, 1431648000, 0).ok().expect("grant");
    assert_eq!(grant.session_token, "ab".repeat(32));
    assert_eq!(grant.token_hash, hash_session_token(&"ab".repeat(32)));
    assert_eq!(grant.expires_at, "2015-05-25T00:00:00+00:00");
    assert_eq!(grant.user_id, 3);
    assert!(matches!(session_grant(3, &bytes, i64::MAX - 10, 0), Err(Status::InternalServerError)));
}
