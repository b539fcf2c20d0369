use vstd::prelude::*;

verus! {

/// Why a session token was refused, or could not be made.
#[derive(Clone, Copy, Debug, PartialEq, Eq, Structural)]
pub enum TokenError {
    /// The token is not three well-formed parts, or its claims are not JSON.
    Malformed,
    /// The signature does not match the server secret.
    BadSignature,
    /// The token is well signed but its expiry lies in the past.
    Expired,
    /// The signer refused to produce a token.
    Signing,
}

/// Why the auth auth guard rejected a request.
#[derive(Clone, Copy, Debug, PartialEq, Eq, Structural)]
pub enum CredentialError {
    /// No `Authorization` header.
    Missing,
    /// The header is not `Bearer ` followed by a non-empty token.
    Malformed,
    /// The token did not verify; the reason is for the server log only.
    Invalid(TokenError),
}

/// The single response-level error type; each boundary adapts into it.
#[derive(Clone, Debug)]
pub enum AppError {
    /// A query failed; the text is the driver's report, logged only.
    DatabaseError(String),
    /// No pooled connection could be had; the text is logged only.
    PoolError(String),
    /// The worker task could not run to completion; the text is logged only.
    AsyncTaskError(String),
    /// A session token could not be verified (401), or could not be issued
    /// (500).
    JWTValidationError(TokenError),
    /// The auth auth guard refused the request.
    CredentialError(CredentialError),
    /// The request body could not be read as the route expects.
    ValidationError(String),
    /// The thing asked for does not exist.
    NotFound(String),
    /// Any other failure, with the message shown to the caller.
    GeneralError(String),
}

pub const STATUS_OK: u16 = 200;
pub const STATUS_ACCEPTED: u16 = 202;
pub const STATUS_BAD_REQUEST: u16 = 400;
pub const STATUS_UNAUTHORIZED: u16 = 401;
pub const STATUS_NOT_FOUND: u16 = 404;
pub const STATUS_INTERNAL: u16 = 500;

/// The status code that answers an error.
pub open spec fn status_of(e: AppError) -> u16 {
    match e {
        AppError::DatabaseError(_) => STATUS_INTERNAL,
        AppError::PoolError(_) => STATUS_INTERNAL,
        AppError::AsyncTaskError(_) => STATUS_INTERNAL,
        AppError::JWTValidationError(TokenError::Signing) => STATUS_INTERNAL,
        AppError::JWTValidationError(_) => STATUS_UNAUTHORIZED,
        AppError::CredentialError(_) => STATUS_UNAUTHORIZED,
        AppError::ValidationError(_) => STATUS_BAD_REQUEST,
        AppError::NotFound(_) => STATUS_NOT_FOUND,
        AppError::GeneralError(_) => STATUS_INTERNAL,
    }
}

pub open spec fn credential_message(c: CredentialError) -> Seq<char> {
    match c {
        CredentialError::Missing => "Authorization header needed!"@,
        CredentialError::Malformed => "Authorization header must be a bearer token"@,
        CredentialError::Invalid(_) => "JWT Validation Error: Unauthorized"@,
    }
}

/// The message shown to the caller. Driver, pool and task detail never leaves
/// the server.
pub open spec fn message_of(e: AppError) -> Seq<char> {
    match e {
        AppError::DatabaseError(_) => "A database error occurred"@,
        AppError::PoolError(_) => "Failed to connect to the database"@,
        AppError::AsyncTaskError(_) => "An internal server error occurred"@,
        AppError::JWTValidationError(TokenError::Signing) => "An internal server error occurred"@,
        AppError::JWTValidationError(_) => "JWT Validation Error: Unauthorized"@,
        AppError::CredentialError(c) => credential_message(c),
        AppError::ValidationError(m) => m@,
        AppError::NotFound(m) => m@,
        AppError::GeneralError(m) => m@,
    }
}

/// Status and caller-facing message of an error response; the body is the
/// envelope `{"error": message}`.
pub struct ErrorReply {
    pub status: u16,
    pub message: String,
}

impl AppError {
    /// Translates an error into its response.
    pub fn into_response(&self) -> (r: ErrorReply)
        ensures
            r.status == status_of(*self),
            r.message@ == message_of(*self),
    {
        match self {
            AppError::DatabaseError(_) => ErrorReply {
                status: STATUS_INTERNAL,
                message: "A database error occurred".to_owned(),
            },
            AppError::PoolError(_) => ErrorReply {
                status: STATUS_INTERNAL,
                message: "Failed to connect to the database".to_owned(),
            },
            AppError::AsyncTaskError(_) => ErrorReply {
                status: STATUS_INTERNAL,
                message: "An internal server error occurred".to_owned(),
            },
            AppError::JWTValidationError(TokenError::Signing) => ErrorReply {
                status: STATUS_INTERNAL,
                message: "An internal server error occurred".to_owned(),
            },
            AppError::JWTValidationError(_) => ErrorReply {
                status: STATUS_UNAUTHORIZED,
                message: "JWT Validation Error: Unauthorized".to_owned(),
            },
            AppError::CredentialError(c) => ErrorReply {
                status: STATUS_UNAUTHORIZED,
                message: match c {
                    CredentialError::Missing => "Authorization header needed!".to_owned(),
                    CredentialError::Malformed => "Authorization header must be a bearer token".to_owned(),
                    CredentialError::Invalid(_) => "JWT Validation Error: Unauthorized".to_owned(),
                },
            },
            AppError::ValidationError(m) => ErrorReply { status: STATUS_BAD_REQUEST, message: m.clone() },
            AppError::NotFound(m) => ErrorReply { status: STATUS_NOT_FOUND, message: m.clone() },
            AppError::GeneralError(m) => ErrorReply { status: STATUS_INTERNAL, message: m.clone() },
        }
    }
}

/// Reply to a request whose route matches nothing: 404 with the body
/// `{"status": "fail", "message": "Route not found"}`.
pub fn handle_404() -> (r: ErrorReply)
    ensures
        r.status == STATUS_NOT_FOUND,
        r.message@ == "Route not found"@,
{
    ErrorReply { status: STATUS_NOT_FOUND, message: "Route not found".to_owned() }
}

} // verus!
