//! What the answer of the routing-code verification service means.

use crate::error::{AppError, ValidationFailure};
use crate::model::BankApiData;
use vstd::prelude::*;

verus! {

/// How the one call to the verification service ended.
#[derive(Clone, Debug, PartialEq, Eq)]
pub enum VerifierReply {
    /// No answer came: the service was not reached, or did not finish.
    Unreachable,
    /// The service answered with `status`. `data` is the branch data of the
    /// body, where the body could be read as such.
    Answered { status: u16, data: Option<BankApiData> },
}

/// An HTTP status of the success class.
pub open spec fn is_success_status(status: u16) -> bool {
    200 <= status <= 299
}

/// The meaning of a reply. A status outside the success class says that the
/// routing code is not verified, whatever the body holds: a refused input,
/// not a failure of the service. No answer, or a success whose body cannot
/// be read, is a failure of the service.
pub open spec fn verification_result(reply: VerifierReply) -> Result<BankApiData, AppError> {
    match reply {
        VerifierReply::Unreachable => Err(AppError::ExternalService),
        VerifierReply::Answered { status, data } => if !is_success_status(status) {
            Err(AppError::Validation(ValidationFailure::UnverifiedRoutingCode))
        } else {
            match data {
                Some(bank) => Ok(bank),
                None => Err(AppError::ExternalService),
            }
        },
    }
}

/// Whether `status` is of the success class.
pub fn status_is_success(status: u16) -> (success: bool)
    ensures
        success == is_success_status(status),
{
    200 <= status && status <= 299
}

/// Reads a reply of the verification service.
pub fn classify_reply(reply: VerifierReply) -> (result: Result<BankApiData, AppError>)
    ensures
        result == verification_result(reply),
{
    match reply {
        VerifierReply::Unreachable => Err(AppError::ExternalService),
        VerifierReply::Answered { status, data } => if !status_is_success(status) {
            Err(AppError::Validation(ValidationFailure::UnverifiedRoutingCode))
        } else {
            match data {
                Some(bank) => Ok(bank),
                None => Err(AppError::ExternalService),
            }
        },
    }
}

/// A service that answers and declines is never reported as a gateway
/// error: every status outside the success class gives a refused input
/// (400), and only a missing or unreadable answer gives 502.
pub proof fn lemma_declined_is_not_a_gateway_error(reply: VerifierReply)
    ensures
        reply matches VerifierReply::Answered { status, .. } ==> (!is_success_status(status)
            ==> verification_result(reply) == Err::<BankApiData, AppError>(
            AppError::Validation(ValidationFailure::UnverifiedRoutingCode),
        )),
        reply is Unreachable ==> verification_result(reply) == Err::<BankApiData, AppError>(
            AppError::ExternalService,
        ),
        AppError::Validation(ValidationFailure::UnverifiedRoutingCode).status()
            == crate::error::STATUS_BAD_REQUEST,
        AppError::ExternalService.status() == crate::error::STATUS_BAD_GATEWAY,
        verification_result(reply) matches Err(e) ==> e.status() == crate::error::STATUS_BAD_REQUEST
            || e.status() == crate::error::STATUS_BAD_GATEWAY,
{
}

} // verus!
