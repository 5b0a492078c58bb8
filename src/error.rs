//! Errors as the client-server protocol reports them.

use vstd::prelude::*;

verus! {

/// Standard error codes of the client-server protocol.
#[allow(non_camel_case_types)]
#[derive(Clone, Copy, Debug, PartialEq, Eq, Structural)]
pub enum ErrorCode {
    /// Forbidden access, e.g. a failed login.
    FORBIDDEN,
    /// The access token was not recognised.
    UNKNOWN_TOKEN,
    /// No access token was given.
    MISSING_TOKEN,
    BAD_JSON,
    NOT_JSON,
    NOT_FOUND,
    LIMIT_EXCEEDED,
    /// An unknown error occurred.
    UNKNOWN,
    UNRECOGNIZED,
    UNAUTHORIZED,
    USER_DEACTIVATED,
    USER_IN_USE,
    INVALID_USERNAME,
    ROOM_IN_USE,
    INVALID_ROOM_STATE,
    THREEPID_IN_USE,
    THREEPID_NOT_FOUND,
    THREEPID_AUTH_FAILED,
    THREEPID_DENIED,
    SERVER_NOT_TRUSTED,
    UNSUPPORTED_ROOM_VERSION,
    INCOMPATIBLE_ROOM_VERSION,
    BAD_STATE,
    GUEST_ACCESS_FORBIDDEN,
    CAPTCHA_NEEDED,
    CAPTCHA_INVALID,
    MISSING_PARAM,
    INVALID_PARAM,
    TOO_LARGE,
    EXCLUSIVE,
    RESOURCE_LIMIT_EXCEEDED,
    CANNOT_LEAVE_SERVER_NOTICE_ROOM,
}

impl ErrorCode {
    /// The code as it is written on the wire.
    pub fn wire_name(&self) -> &'static str {
        match self {
            ErrorCode::FORBIDDEN => "M_FORBIDDEN",
            ErrorCode::UNKNOWN_TOKEN => "M_UNKNOWN_TOKEN",
            ErrorCode::MISSING_TOKEN => "M_MISSING_TOKEN",
            ErrorCode::BAD_JSON => "M_BAD_JSON",
            ErrorCode::NOT_JSON => "M_NOT_JSON",
            ErrorCode::NOT_FOUND => "M_NOT_FOUND",
            ErrorCode::LIMIT_EXCEEDED => "M_LIMIT_EXCEEDED",
            ErrorCode::UNKNOWN => "M_UNKNOWN",
            ErrorCode::UNRECOGNIZED => "M_UNRECOGNIZED",
            ErrorCode::UNAUTHORIZED => "M_UNAUTHORIZED",
            ErrorCode::USER_DEACTIVATED => "M_USER_DEACTIVATED",
            ErrorCode::USER_IN_USE => "M_USER_IN_USE",
            ErrorCode::INVALID_USERNAME => "M_INVALID_USERNAME",
            ErrorCode::ROOM_IN_USE => "M_ROOM_IN_USE",
            ErrorCode::INVALID_ROOM_STATE => "M_INVALID_ROOM_STATE",
            ErrorCode::THREEPID_IN_USE => "M_THREEPID_IN_USE",
            ErrorCode::THREEPID_NOT_FOUND => "M_THREEPID_NOT_FOUND",
            ErrorCode::THREEPID_AUTH_FAILED => "M_THREEPID_AUTH_FAILED",
            ErrorCode::THREEPID_DENIED => "M_THREEPID_DENIED",
            ErrorCode::SERVER_NOT_TRUSTED => "M_SERVER_NOT_TRUSTED",
            ErrorCode::UNSUPPORTED_ROOM_VERSION => "M_UNSUPPORTED_ROOM_VERSION",
            ErrorCode::INCOMPATIBLE_ROOM_VERSION => "M_INCOMPATIBLE_ROOM_VERSION",
            ErrorCode::BAD_STATE => "M_BAD_STATE",
            ErrorCode::GUEST_ACCESS_FORBIDDEN => "M_GUEST_ACCESS_FORBIDDEN",
            ErrorCode::CAPTCHA_NEEDED => "M_CAPTCHA_NEEDED",
            ErrorCode::CAPTCHA_INVALID => "M_CAPTCHA_INVALID",
            ErrorCode::MISSING_PARAM => "M_MISSING_PARAM",
            ErrorCode::INVALID_PARAM => "M_INVALID_PARAM",
            ErrorCode::TOO_LARGE => "M_TOO_LARGE",
            ErrorCode::EXCLUSIVE => "M_EXCLUSIVE",
            ErrorCode::RESOURCE_LIMIT_EXCEEDED => "M_RESOURCE_LIMIT_EXCEEDED",
            ErrorCode::CANNOT_LEAVE_SERVER_NOTICE_ROOM => "M_CANNOT_LEAVE_SERVER_NOTICE_ROOM",
        }
    }
}

/// HTTP status of a request that was not authorised.
pub const STATUS_UNAUTHORIZED: u16 = 401;

/// HTTP status of a refused request.
pub const STATUS_FORBIDDEN: u16 = 403;

/// HTTP status of a server failure.
pub const STATUS_INTERNAL_SERVER_ERROR: u16 = 500;

/// An error answer: HTTP status, protocol error code and message.
#[derive(Clone, Debug)]
pub struct MatrixError {
    pub status: u16,
    pub errcode: ErrorCode,
    pub error: String,
}

impl MatrixError {
    pub fn new(status: u16, errcode: ErrorCode, error: &str) -> (r: MatrixError)
        ensures
            r.status == status,
            r.errcode == errcode,
            r.error@ == error@,
    {
        MatrixError { status, errcode, error: String::from_str(error) }
    }

    /// A server failure; the detail is for the server's log.
    pub fn unknown(error: String) -> (r: MatrixError)
        ensures
            r.status == STATUS_INTERNAL_SERVER_ERROR,
            r.errcode == ErrorCode::UNKNOWN,
            r.error@ == error@,
    {
        MatrixError { status: STATUS_INTERNAL_SERVER_ERROR, errcode: ErrorCode::UNKNOWN, error }
    }
}

/// The message of every server failure: the detail stays in the server's
/// log and is never shown to clients.
pub open spec fn server_failure_message() -> Seq<char> {
    "An unknown error has occurred."@
}

/// A server failure as clients see it.
pub open spec fn is_server_failure(m: MatrixError) -> bool {
    &&& m.status == STATUS_INTERNAL_SERVER_ERROR
    &&& m.errcode == ErrorCode::UNKNOWN
    &&& m.error@ == server_failure_message()
}

/// The answer to a server failure.
pub fn server_failure() -> (r: MatrixError)
    ensures
        is_server_failure(r),
{
    MatrixError::unknown(String::from_str("An unknown error has occurred."))
}

} // verus!
