//! The storage collaborator: what the authentication core asks of the
//! account store, and the errors it reports.

use vstd::prelude::*;
use crate::auth::{PWHash, UserIdentifier};
use crate::ids::UserId;

verus! {

/// The kind of failure a store reports.
#[derive(Clone, Debug)]
pub enum ErrorCode {
    /// The store could not be reached.
    ConnectionFailed,
    /// The store refused the credentials it was given.
    AuthFailed,
    /// No record was found.
    RecordNotFound,
    /// A unique constraint was violated.
    DuplicateViolation,
    /// A non-null constraint was violated.
    NullViolation,
    /// The query was malformed.
    InvalidSyntax,
    /// Any other failure.
    Unknown(String),
}

/// A failure reported by a store.
#[derive(Clone, Debug)]
pub struct Error {
    pub code: ErrorCode,
}

/// The text shown for a store error of this kind.
pub open spec fn error_text(code: ErrorCode) -> Seq<char> {
    match code {
        ErrorCode::ConnectionFailed => "Connection failed."@,
        ErrorCode::AuthFailed => "Authentication failed."@,
        ErrorCode::RecordNotFound => "The data store could not find any records."@,
        ErrorCode::DuplicateViolation => "A Key or Unique constraint has been violated."@,
        ErrorCode::NullViolation => "A non-Null constraint was violated."@,
        ErrorCode::InvalidSyntax => "The query contained invalid syntax."@,
        ErrorCode::Unknown(_) => "An unknown error has occurred."@,
    }
}

impl Error {
    /// The text shown for this error.
    pub fn message(&self) -> (r: String)
        ensures
            r@ == error_text(self.code),
    {
        let m = match self.code {
            ErrorCode::ConnectionFailed => "Connection failed.",
            ErrorCode::AuthFailed => "Authentication failed.",
            ErrorCode::RecordNotFound => "The data store could not find any records.",
            ErrorCode::DuplicateViolation => "A Key or Unique constraint has been violated.",
            ErrorCode::NullViolation => "A non-Null constraint was violated.",
            ErrorCode::InvalidSyntax => "The query contained invalid syntax.",
            ErrorCode::Unknown(_) => "An unknown error has occurred.",
        };
        String::from_str(m)
    }
}

/// How a database backend failed, as far as this core distinguishes it.
#[derive(Clone, Copy, Debug, PartialEq, Eq, Structural)]
pub enum BackendFailure {
    /// Input or output with the database failed.
    Io,
    /// The connection pool was closed.
    PoolClosed,
    /// No connection became free in time.
    PoolTimedOut,
    /// A query that needs a row found none.
    RowNotFound,
    /// The database refused the query.
    Database,
    /// A column the query needs does not exist.
    ColumnNotFound,
    /// Anything else.
    Other,
}

impl Error {
    /// The store error that a backend failure is reported as.
    pub fn from_backend(f: BackendFailure) -> (r: Error)
        ensures
            match f {
                BackendFailure::Io | BackendFailure::PoolClosed | BackendFailure::PoolTimedOut => r.code
                    is ConnectionFailed,
                BackendFailure::RowNotFound => r.code is RecordNotFound,
                BackendFailure::Database | BackendFailure::ColumnNotFound => r.code is InvalidSyntax,
                BackendFailure::Other => r.code is Unknown,
            },
    {
        let code = match f {
            BackendFailure::Io | BackendFailure::PoolClosed | BackendFailure::PoolTimedOut => {
                ErrorCode::ConnectionFailed
            },
            BackendFailure::RowNotFound => ErrorCode::RecordNotFound,
            BackendFailure::Database | BackendFailure::ColumnNotFound => ErrorCode::InvalidSyntax,
            BackendFailure::Other => ErrorCode::Unknown(String::from_str("Unknown error occurred.")),
        };
        Error { code }
    }
}

/// An account store. Its answers depend on what it holds, so nothing is
/// promised of them here; the callers decide on every possible answer.
pub trait Store {
    /// The kind of this store.
    fn get_type(&self) -> String;

    /// Whether an account with this localpart exists.
    fn check_username_exists(&self, username: &str) -> Result<bool, Error>;

    /// Whether this device is still registered.
    fn check_device_id_exists(&self, device_id: &str) -> Result<bool, Error>;

    /// Removes one device of a user.
    fn remove_device_id(&self, device_id: &str, user_id: &UserId) -> Result<(), Error>;

    /// Removes every device of a user.
    fn remove_all_device_ids(&self, user_id: &UserId) -> Result<(), Error>;

    /// The account that an identifier names, if any.
    fn fetch_user_id(&self, identifier: &UserIdentifier) -> Result<Option<UserId>, Error>;

    /// The stored password hash of a user.
    fn fetch_password_hash(&self, user_id: &UserId) -> Result<PWHash, Error>;

    /// Whether a one-time token is currently valid for a user.
    fn check_otp_exists(&self, user_id: &UserId, otp: &str) -> Result<bool, Error>;

    /// Registers a device for a user, or refreshes it.
    fn set_device(&self, user_id: &UserId, device_id: &str, display_name: Option<&str>) -> Result<
        (),
        Error,
    >;
}

} // verus!
