//! The error taxonomy of the service and what each error shows to a caller.

use vstd::prelude::*;
use vstd::string::*;

verus! {

/// Why a persistence operation failed.
#[derive(Clone, Copy, Debug, PartialEq, Eq, Structural)]
pub enum StorageFailure {
    /// A uniqueness constraint refused the row.
    UniqueViolation,
    /// Any other failure of the datastore.
    Other,
}

/// The syntactic rules that a registration input broke.
#[derive(Clone, Copy, Debug, PartialEq, Eq, Structural)]
pub struct Violations {
    /// The account number has fewer than 9 or more than 18 characters.
    pub account_number_length: bool,
    /// The routing code does not have the fixed format.
    pub ifsc_format: bool,
}

/// Why an input was refused.
#[derive(Clone, Copy, Debug, PartialEq, Eq, Structural)]
pub enum ValidationFailure {
    /// The registration input broke the listed rules.
    Input(Violations),
    /// The verification service answered, and did not confirm the routing code.
    UnverifiedRoutingCode,
}

/// Why a session token was refused. Meant for the log, not for the caller.
#[derive(Clone, Copy, Debug, PartialEq, Eq, Structural)]
pub enum TokenFault {
    /// The token could not be decoded, or lacks a claim.
    Malformed,
    /// The signature does not belong to the token.
    BadSignature,
    /// The token's expiry instant has passed.
    Expired,
}

/// Why a request was not authenticated.
#[derive(Clone, Copy, Debug, PartialEq, Eq, Structural)]
pub enum AuthFailure {
    /// The request carries no readable authorization header.
    MissingHeader,
    /// The authorization header does not start with `Bearer `.
    InvalidHeaderFormat,
    /// The token was refused, for the given reason.
    InvalidToken(TokenFault),
    /// The token is valid, but no identity has its subject id.
    SubjectNotFound,
    /// No token could be made.
    TokenCreation,
}

/// Every failure that reaches a caller.
#[derive(Clone, Copy, Debug, PartialEq, Eq, Structural)]
pub enum AppError {
    /// A persistence operation failed.
    Storage(StorageFailure),
    /// The input was refused.
    Validation(ValidationFailure),
    /// The verification service could not be reached, or its answer not read.
    ExternalService,
    /// The account number and routing code do not belong to one identity.
    InvalidCredentials,
    /// The request was not authenticated.
    Auth(AuthFailure),
    /// The account number is registered already.
    Conflict,
    /// Anything else.
    Internal,
}

/// The status of a refused input.
pub const STATUS_BAD_REQUEST: u16 = 400;

/// The status of a request that is not authenticated.
pub const STATUS_UNAUTHORIZED: u16 = 401;

/// The status of a registration whose account number is taken.
pub const STATUS_CONFLICT: u16 = 409;

/// The status of a failure inside the service.
pub const STATUS_INTERNAL_SERVER_ERROR: u16 = 500;

/// The status of a failure of the verification service.
pub const STATUS_BAD_GATEWAY: u16 = 502;

/// The body of an error response.
#[derive(Clone, Debug, PartialEq, Eq)]
pub struct ErrorResponse {
    pub error: String,
}

impl Violations {
    /// No rule is broken.
    pub open spec fn is_empty(self) -> bool {
        !self.account_number_length && !self.ifsc_format
    }

    /// The messages of the broken rules, account number first, joined by `, `.
    pub open spec fn message(self) -> Seq<char> {
        if self.account_number_length && self.ifsc_format {
            "account_number: Account number must be between 9 and 18 digits."@ + ", "@
                + "ifsc: Invalid IFSC code format."@
        } else if self.account_number_length {
            "account_number: Account number must be between 9 and 18 digits."@
        } else if self.ifsc_format {
            "ifsc: Invalid IFSC code format."@
        } else {
            Seq::<char>::empty()
        }
    }

    /// Renders the messages of the broken rules.
    pub fn render(&self) -> (text: String)
        ensures
            text@ == self.message(),
    {
        let mut text = String::new();
        if self.account_number_length {
            text.append("account_number: Account number must be between 9 and 18 digits.");
        }
        if self.account_number_length && self.ifsc_format {
            text.append(", ");
        }
        if self.ifsc_format {
            text.append("ifsc: Invalid IFSC code format.");
        }
        assert(text@ =~= self.message());
        text
    }
}

impl ValidationFailure {
    /// What the caller is told.
    pub open spec fn message(self) -> Seq<char> {
        match self {
            ValidationFailure::Input(violations) => violations.message(),
            ValidationFailure::UnverifiedRoutingCode =>
                "The provided IFSC code is not valid or could not be verified by the bank API."@,
        }
    }
}

impl AuthFailure {
    /// What the caller is told. The reason why a token was refused is not part of it.
    pub open spec fn message(self) -> Seq<char> {
        match self {
            AuthFailure::MissingHeader => "Missing Authorization header"@,
            AuthFailure::InvalidHeaderFormat => "Invalid Authorization header format"@,
            AuthFailure::InvalidToken(_) => "Invalid token"@,
            AuthFailure::SubjectNotFound => "User from token not found"@,
            AuthFailure::TokenCreation => "Could not create token"@,
        }
    }
}

impl AppError {
    /// The HTTP status of the response for this error.
    pub open spec fn status(self) -> u16 {
        match self {
            AppError::Storage(StorageFailure::UniqueViolation) => STATUS_CONFLICT,
            AppError::Storage(StorageFailure::Other) => STATUS_INTERNAL_SERVER_ERROR,
            AppError::Validation(_) => STATUS_BAD_REQUEST,
            AppError::ExternalService => STATUS_BAD_GATEWAY,
            AppError::InvalidCredentials => STATUS_UNAUTHORIZED,
            AppError::Auth(_) => STATUS_UNAUTHORIZED,
            AppError::Conflict => STATUS_CONFLICT,
            AppError::Internal => STATUS_INTERNAL_SERVER_ERROR,
        }
    }

    /// What the caller is told. Storage and transport failures show a fixed
    /// text only.
    pub open spec fn message(self) -> Seq<char> {
        match self {
            AppError::Storage(StorageFailure::UniqueViolation) => "Resource already exists."@,
            AppError::Storage(StorageFailure::Other) => "Database operation failed"@,
            AppError::Validation(failure) => failure.message(),
            AppError::ExternalService => "Failed to communicate with external service"@,
            AppError::InvalidCredentials => "Invalid credentials"@,
            AppError::Auth(failure) => failure.message(),
            AppError::Conflict => "Account number already registered."@,
            AppError::Internal => "An internal error occurred"@,
        }
    }

    /// The HTTP status of the response for this error.
    pub fn status_code(&self) -> (code: u16)
        ensures
            code == self.status(),
    {
        match self {
            AppError::Storage(StorageFailure::UniqueViolation) => STATUS_CONFLICT,
            AppError::Storage(StorageFailure::Other) => STATUS_INTERNAL_SERVER_ERROR,
            AppError::Validation(_) => STATUS_BAD_REQUEST,
            AppError::ExternalService => STATUS_BAD_GATEWAY,
            AppError::InvalidCredentials => STATUS_UNAUTHORIZED,
            AppError::Auth(_) => STATUS_UNAUTHORIZED,
            AppError::Conflict => STATUS_CONFLICT,
            AppError::Internal => STATUS_INTERNAL_SERVER_ERROR,
        }
    }

    /// The text that the caller is told.
    pub fn render(&self) -> (text: String)
        ensures
            text@ == self.message(),
    {
        match self {
            AppError::Storage(StorageFailure::UniqueViolation) => String::from_str(
                "Resource already exists.",
            ),
            AppError::Storage(StorageFailure::Other) => String::from_str(
                "Database operation failed",
            ),
            AppError::Validation(ValidationFailure::Input(violations)) => violations.render(),
            AppError::Validation(ValidationFailure::UnverifiedRoutingCode) => String::from_str(
                "The provided IFSC code is not valid or could not be verified by the bank API.",
            ),
            AppError::ExternalService => String::from_str(
                "Failed to communicate with external service",
            ),
            AppError::InvalidCredentials => String::from_str("Invalid credentials"),
            AppError::Auth(AuthFailure::MissingHeader) => String::from_str(
                "Missing Authorization header",
            ),
            AppError::Auth(AuthFailure::InvalidHeaderFormat) => String::from_str(
                "Invalid Authorization header format",
            ),
            AppError::Auth(AuthFailure::InvalidToken(_)) => String::from_str("Invalid token"),
            AppError::Auth(AuthFailure::SubjectNotFound) => String::from_str(
                "User from token not found",
            ),
            AppError::Auth(AuthFailure::TokenCreation) => String::from_str(
                "Could not create token",
            ),
            AppError::Conflict => String::from_str("Account number already registered."),
            AppError::Internal => String::from_str("An internal error occurred"),
        }
    }

    /// The status and body of the response for this error.
    pub fn into_response(self) -> (response: (u16, ErrorResponse))
        ensures
            response.0 == self.status(),
            response.1.error@ == self.message(),
    {
        (self.status_code(), ErrorResponse { error: self.render() })
    }
}

/// Every error is answered with one of five statuses, and its kind decides
/// which: validation 400, authentication 401, conflict 409, transport 502,
/// and 500 for what is left.
pub proof fn lemma_status_by_kind(error: AppError)
    ensures
        error is Validation <==> error.status() == STATUS_BAD_REQUEST,
        (error is Auth || error is InvalidCredentials) <==> error.status() == STATUS_UNAUTHORIZED,
        (error is Conflict || error == AppError::Storage(StorageFailure::UniqueViolation))
            <==> error.status() == STATUS_CONFLICT,
        error is ExternalService <==> error.status() == STATUS_BAD_GATEWAY,
        (error is Internal || error == AppError::Storage(StorageFailure::Other))
            <==> error.status() == STATUS_INTERNAL_SERVER_ERROR,
{
}

} // verus!
