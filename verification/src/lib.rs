//! Verified core of the money-manager server: request decisions, session and
//! password handling, record assembly and the default account layout.

pub mod bootstrap;
pub mod calendar;
pub mod defaults;
pub mod digest;
pub mod handlers;
pub mod import;
pub mod model;
pub mod password;
pub mod session;
pub mod status;
pub mod store;

pub use bootstrap::{BootstrapBuilder, BootstrapProgress, BootstrapStep};
pub use calendar::{instant_text, session_expiry, Date, SESSION_LIFETIME_SECS};
pub use defaults::{default_items, DefaultItem, DefaultsPlan, DefaultsProgress, DefaultsStep};
pub use handlers::{
    database_result, internal_failure, login_check, login_grant, login_response, no_content_answer,
    register_begin, register_finish, register_outcome, session_grant, LoginGrant,
};
pub use import::{ImportPlan, ImportProgress, InsertRecord};
pub use model::{
    BootstrapResponse, CollectionView, LoginResponse, ParsedImportRecord, Record, Sheet,
    SheetCollection, SheetView,
};
pub use password::{hash_password, hash_password_with_salt, verify_password, PasswordError};
pub use session::{
    authenticate_begin, authenticate_finish, generate_session_token, get_bearer_token,
    hash_session_token, session_token_text,
};
pub use status::Status;
pub use store::{
    create_user_outcome, expect_changed_rows, get_or_create_decision, inserted_record_outcome,
    record_from_row, CreateUserError, DbError, GetOrCreate,
};
