use emm_server::{
    create_user_outcome, expect_changed_rows, get_or_create_decision, inserted_record_outcome,
    record_from_row, CreateUserError, Date, DbError, GetOrCreate,
};

#[test]
fn get_or_create_uses_found_rows() {
    assert_eq!(get_or_create_decision(Ok(12)), GetOrCreate::Existing(12));
    assert_eq!(get_or_create_decision(Err(DbError::NoRows)), GetOrCreate::Create);
    assert_eq!(get_or_create_decision(Err(DbError::Other)), GetOrCreate::Fail(DbError::Other));
    assert_eq!(
        get_or_create_decision(Err(DbError::ConstraintViolation)),
        GetOrCreate::Fail(DbError::ConstraintViolation)
    );
}

#[test]
fn taken_usernames_are_told_apart() {
    assert_eq!(create_user_outcome(Ok(()), 5), Ok(5));
    assert_eq!(
        create_user_outcome(Err(DbError::ConstraintViolation), 5),
        Err(CreateUserError::UsernameTaken)
    );
    assert_eq!(
        create_user_outcome(Err(DbError::Other), 5),
        Err(CreateUserError::Database(DbError::Other))
    );
}

#[test]
fn changes_must_touch_a_row() {
    assert_eq!(expect_changed_rows(0), Err(DbError::NoRows));
    assert_eq!(expect_changed_rows(1), Ok(()));
    assert_eq!(expect_changed_rows(3), Ok(()));
    assert_eq!(inserted_record_outcome(0, 9), Err(DbError::NoRows));
    assert_eq!(inserted_record_outcome(1, 9), Ok(9));
}

#[test]
fn rows_become_records() {
    let r = record_from_row(3, "rent".to_string(), "2024-03-01", -120000).unwrap();
    assert_eq!(r.id, 3);
    assert_eq!(r.description, "rent");
    assert_eq!(r.date, Date::from_ymd(2024, 3, 1).unwrap());
    assert_eq!(r.value, -120000);
    assert!(record_from_row(3, "rent".to_string(), "March 1st", 1).is_none());
}

#[test]
fn stored_date_text_reads_back() {
    for (y, m, d) in [(2024, 2, 29), (5, 1, 2), (-5, 12, 31), (12345, 6, 7), (9999, 12, 31)] {
        let date = Date::from_ymd(y, m, d).unwrap();
        let r = record_from_row(1, "x".to_string(), &date.text(), 2).unwrap();
        assert_eq!(r.date, date);
    }
}
