//! Decisions taken on the answers of the database.

use vstd::prelude::*;
use crate::calendar::{date_text_of, parsed_date, valid_calendar_date, Date};
use crate::model::Record;

verus! {

/// The kinds of database failure that the server's decisions tell apart.
#[derive(PartialEq, Eq, Structural, Clone, Copy, Debug)]
pub enum DbError {
    /// A query that should have found or changed a row found none.
    NoRows,
    /// A uniqueness or foreign-key rule of the schema refused a change.
    ConstraintViolation,
    /// Any other failure.
    Other,
}

/// What to do after looking up a named row that should exist.
#[derive(PartialEq, Eq, Structural, Clone, Copy, Debug)]
pub enum GetOrCreate {
    /// The row exists: use its id.
    Existing(i64),
    /// The row does not exist: create it.
    Create,
    /// The lookup failed: give up with this failure.
    Fail(DbError),
}

/// Decides, from the lookup of a collection or sheet by name, whether to use
/// the row found, to create it, or to give up.
pub fn get_or_create_decision(lookup: Result<i64, DbError>) -> (decision: GetOrCreate)
    ensures
        match lookup {
            Ok(id) => decision == GetOrCreate::Existing(id),
            Err(DbError::NoRows) => decision == GetOrCreate::Create,
            Err(e) => decision == GetOrCreate::Fail(e),
        },
{
    match lookup {
        Ok(id) => GetOrCreate::Existing(id),
        Err(DbError::NoRows) => GetOrCreate::Create,
        Err(e) => GetOrCreate::Fail(e),
    }
}

/// Why a user could not be created.
#[derive(PartialEq, Eq, Structural, Clone, Copy, Debug)]
pub enum CreateUserError {
    /// Another user has that name.
    UsernameTaken,
    /// The database failed.
    Database(DbError),
}

/// The outcome of inserting a user: the id of the new row, the name being
/// taken when the schema's uniqueness rule refused the row, or the failure.
pub fn create_user_outcome(insert: Result<(), DbError>, new_id: i64) -> (outcome: Result<i64, CreateUserError>)
    ensures
        match insert {
            Ok(()) => outcome == Ok::<i64, CreateUserError>(new_id),
            Err(DbError::ConstraintViolation) => outcome == Err::<i64, CreateUserError>(
                CreateUserError::UsernameTaken,
            ),
            Err(e) => outcome == Err::<i64, CreateUserError>(CreateUserError::Database(e)),
        },
{
    match insert {
        Ok(()) => Ok(new_id),
        Err(DbError::ConstraintViolation) => Err(CreateUserError::UsernameTaken),
        Err(e) => Err(CreateUserError::Database(e)),
    }
}

/// A change that must touch a row succeeds only if it touched one: no row
/// changed means the row was not there (or not the user's).
pub fn expect_changed_rows(affected: usize) -> (outcome: Result<(), DbError>)
    ensures
        affected == 0 ==> outcome == Err::<(), DbError>(DbError::NoRows),
        affected > 0 ==> outcome == Ok::<(), DbError>(()),
{
    if affected == 0 {
        Err(DbError::NoRows)
    } else {
        Ok(())
    }
}

/// The outcome of inserting a record into a sheet that the user must own:
/// the id of the new row, or `NoRows` when nothing was inserted.
pub fn inserted_record_outcome(affected: usize, new_id: i64) -> (outcome: Result<i64, DbError>)
    ensures
        affected == 0 ==> outcome == Err::<i64, DbError>(DbError::NoRows),
        affected > 0 ==> outcome == Ok::<i64, DbError>(new_id),
{
    match expect_changed_rows(affected) {
        Ok(()) => Ok(new_id),
        Err(e) => Err(e),
    }
}

/// The record that a row of the records table holds; `None` when the text
/// of its date is not a date.
pub fn record_from_row(id: i64, description: String, date_text: &str, value: i64) -> (record: Option<Record>)
    ensures
        match (record, parsed_date(date_text@)) {
            (Some(r), Some((y, m, d))) => {
                &&& r.id == id
                &&& r.description == description
                &&& r.date.year_of() == y
                &&& r.date.month_of() == m
                &&& r.date.day_of() == d
                &&& r.value == value
            },
            (None, None) => true,
            _ => false,
        },
        forall|y: i32, m: u32, d: u32|
            valid_calendar_date(y as int, m as int, d as int) && date_text@ == #[trigger] date_text_of(
                y as int,
                m as int,
                d as int,
            ) ==> (record matches Some(r) && r.date.year_of() == y && r.date.month_of() == m
                && r.date.day_of() == d && r.id == id && r.description == description && r.value
                == value),
{
    match Date::parse(date_text) {
        Some(date) => Some(Record { id, description, date, value }),
        None => None,
    }
}

} // verus!
