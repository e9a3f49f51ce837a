//! The workshop's use cases: the values they exchange with their callers and
//! the decisions they take between reads and writes of the database.

pub mod customer;
pub mod customer_details;
pub mod dashboard;
pub mod inventory;
pub mod invoice;
pub mod motorcycle_directory;
pub mod motorcycle_registration;
pub mod service_visit_directory;
pub mod service_visit_lookup;
pub mod service_visit_workspace;

use vstd::prelude::*;

verus! {

/// The database error type, read once when a failure is recorded.
#[verifier::external_type_specification]
#[verifier::external_body]
pub struct ExDatabaseError(rusqlite::Error);

/// What the workshop keeps of a failed database operation: the database's
/// own description of the failure, and the extended result code where SQLite
/// itself refused the statement.
#[derive(Debug, Clone)]
pub struct DatabaseError {
    pub text: String,
    pub extended_code: Option<i32>,
}

/// Renders a database error with the `Display` implementation of
/// `rusqlite::Error`. The text is rusqlite's own (and, for an error that
/// wraps another error value, that value's own), so nothing is stated of it.
#[verifier::external_body]
fn database_error_text(error: &rusqlite::Error) -> String {
    error.to_string()
}

/// The extended result code that `rusqlite::Error::SqliteFailure` carries,
/// and `None` for every other kind of `rusqlite::Error`. The error is opaque
/// here, so which kind it is goes unstated.
#[verifier::external_body]
fn sqlite_extended_code(error: &rusqlite::Error) -> Option<i32> {
    match error {
        rusqlite::Error::SqliteFailure(code, _) => Some(code.extended_code),
        _ => None,
    }
}

/// `SQLITE_CONSTRAINT_UNIQUE` as the SQLite bindings define it: the primary
/// code of a constraint failure (19) with the unique-constraint detail (8)
/// in its second byte.
pub open spec fn unique_constraint_code() -> i32 {
    2067
}

/// The bindings' `SQLITE_CONSTRAINT_UNIQUE`, the extended code of a
/// statement refused for a duplicate in a unique column.
#[verifier::external_body]
fn sqlite_constraint_unique() -> (r: i32)
    ensures
        r == unique_constraint_code(),
{
    rusqlite::ffi::SQLITE_CONSTRAINT_UNIQUE
}

/// `database operation failed: ` followed by the database's own words.
pub open spec fn database_failure_prefix() -> Seq<char> {
    "database operation failed: "@
}

/// The message a failed database operation is reported with: the database's
/// own words behind a fixed prefix.
pub fn database_failure_from_text(database_text: &str) -> (r: String)
    ensures
        r@ == database_failure_prefix() + database_text@,
{
    crate::text::join2("database operation failed: ", database_text)
}

impl DatabaseError {
    /// Records a failed database operation: its text and, for a statement
    /// that SQLite refused, the extended result code. Both are read from the
    /// error through rusqlite.
    pub fn from_rusqlite(error: &rusqlite::Error) -> (r: DatabaseError) {
        DatabaseError { text: database_error_text(error), extended_code: sqlite_extended_code(error) }
    }

    /// SQLite refused the statement for a duplicate in a unique column.
    pub open spec fn is_unique_violation_spec(&self) -> bool {
        self.extended_code == Some(unique_constraint_code())
    }

    /// Whether SQLite refused the statement for a duplicate in a unique
    /// column.
    pub fn is_unique_violation(&self) -> (r: bool)
        ensures
            r == self.is_unique_violation_spec(),
    {
        match self.extended_code {
            Some(code) => code == sqlite_constraint_unique(),
            None => false,
        }
    }

    /// The message this failure is reported with.
    pub fn message(&self) -> (r: String)
        ensures
            r@ == database_failure_prefix() + self.text@,
    {
        database_failure_from_text(self.text.as_str())
    }
}

/// The number of rows a listing asks for: the requested limit or the
/// default, never more than the maximum.
pub open spec fn effective_limit_spec(limit: Option<u32>, default: u32, maximum: u32) -> u32 {
    let requested = match limit {
        Some(value) => value,
        None => default,
    };
    if requested <= maximum {
        requested
    } else {
        maximum
    }
}

pub fn effective_limit(limit: Option<u32>, default: u32, maximum: u32) -> (r: u32)
    ensures
        r == effective_limit_spec(limit, default, maximum),
{
    let requested = match limit {
        Some(value) => value,
        None => default,
    };
    if requested <= maximum {
        requested
    } else {
        maximum
    }
}

} // verus!
