//! Registration as a state machine.
//!
//! A registration is received, validated, pre-checked against the store,
//! verified by the verification service, persisted, and answered. The
//! datastore and the verification service are outside of this crate: each
//! step names the action to perform next, and the outcome of that action
//! comes back as the event of the following step.
//!
//! ```text
//! start:  Received  --valid-->    Validated    action: CheckAccount
//! step:   Validated --absent-->   PreChecked   action: VerifyRoutingCode
//!         PreChecked --verified-> Verified     action: InsertUser
//!         Verified  --persisted-> Succeeded    action: Respond(Ok)
//!         any stage --failure-->  Failed       action: Respond(Err)
//! ```

use crate::bank_api::{classify_reply, verification_result, VerifierReply};
use crate::error::{AppError, StorageFailure, ValidationFailure};
use crate::ids::fresh_user_id;
use crate::model::{NewUser, RegisterUserPayload, User};
use crate::validation::{
    account_number_length_ok,
    ifsc_format,
    registration_check,
    validate_registration,
    violations_of,
};
use vstd::prelude::*;

verus! {

/// How far a registration has come.
#[derive(Clone, Debug, PartialEq, Eq)]
pub enum RegistrationState {
    /// The input passed validation; the pre-check of the account number is
    /// awaited.
    Validated(RegisterUserPayload),
    /// No identity had the account number; the verification service's reply
    /// is awaited.
    PreChecked(RegisterUserPayload),
    /// The routing code is verified; the insert of this identity is awaited.
    Verified(NewUser),
    /// The identity with this id is persisted. Terminal.
    Succeeded(u128),
    /// The registration failed. Terminal.
    Failed(AppError),
}

/// What the driver of a registration does next.
#[derive(Debug, PartialEq, Eq)]
pub enum RegistrationAction {
    /// Ask the store whether an identity has this account number.
    CheckAccount(String),
    /// Ask the verification service about this routing code, once.
    VerifyRoutingCode(String),
    /// Insert this identity into the store.
    InsertUser(NewUser),
    /// Answer the request: with the new identity's id (201), or an error.
    Respond(Result<u128, AppError>),
}

/// The outcome of an action.
#[derive(Debug, PartialEq, Eq)]
pub enum RegistrationEvent {
    /// The store said whether the account number is taken, or failed.
    AccountChecked(Result<bool, StorageFailure>),
    /// The call to the verification service ended.
    VerifierReplied(VerifierReply),
    /// The store inserted the identity and handed back its record, or failed.
    Inserted(Result<User, StorageFailure>),
}

/// The error of a failed insert: a uniqueness violation is a conflict.
pub open spec fn insert_error(failure: StorageFailure) -> AppError {
    match failure {
        StorageFailure::UniqueViolation => AppError::Conflict,
        StorageFailure::Other => AppError::Storage(StorageFailure::Other),
    }
}

/// The terminal state and the answer of a registration that fails with `e`.
pub open spec fn failed(e: AppError) -> (RegistrationState, RegistrationAction) {
    (RegistrationState::Failed(e), RegistrationAction::Respond(Err(e)))
}

/// The first step: validation. A valid input asks for the pre-check; any
/// other is answered at once with every rule that it breaks.
pub open spec fn started(payload: RegisterUserPayload) -> (RegistrationState, RegistrationAction) {
    match registration_check(payload.account_number@, payload.ifsc@) {
        Ok(_) => (
            RegistrationState::Validated(payload),
            RegistrationAction::CheckAccount(payload.account_number),
        ),
        Err(e) => failed(e),
    }
}

/// A later step: the state after `event`, and the action to perform next.
/// `fresh_id` is the id of the new identity, used when the routing code has
/// been verified. An event that the state does not await is an internal
/// error; a terminal state repeats its answer.
pub open spec fn stepped(state: RegistrationState, event: RegistrationEvent, fresh_id: u128) -> (
    RegistrationState,
    RegistrationAction,
) {
    match state {
        RegistrationState::Validated(payload) => match event {
            RegistrationEvent::AccountChecked(Ok(taken)) => if taken {
                failed(AppError::Conflict)
            } else {
                (
                    RegistrationState::PreChecked(payload),
                    RegistrationAction::VerifyRoutingCode(payload.ifsc),
                )
            },
            RegistrationEvent::AccountChecked(Err(failure)) => failed(AppError::Storage(failure)),
            _ => failed(AppError::Internal),
        },
        RegistrationState::PreChecked(payload) => match event {
            RegistrationEvent::VerifierReplied(reply) => match verification_result(reply) {
                Ok(bank) => (
                    RegistrationState::Verified(NewUser::assembled(fresh_id, payload, bank)),
                    RegistrationAction::InsertUser(NewUser::assembled(fresh_id, payload, bank)),
                ),
                Err(e) => failed(e),
            },
            _ => failed(AppError::Internal),
        },
        RegistrationState::Verified(_) => match event {
            RegistrationEvent::Inserted(Ok(user)) => (
                RegistrationState::Succeeded(user.id),
                RegistrationAction::Respond(Ok(user.id)),
            ),
            RegistrationEvent::Inserted(Err(failure)) => failed(insert_error(failure)),
            _ => failed(AppError::Internal),
        },
        RegistrationState::Succeeded(id) => (
            RegistrationState::Succeeded(id),
            RegistrationAction::Respond(Ok(id)),
        ),
        RegistrationState::Failed(e) => failed(e),
    }
}

impl RegistrationState {
    /// What holds of every state that `start` and `step` reach: the input
    /// that a registration carries on has passed validation.
    pub open spec fn wf(self) -> bool {
        match self {
            RegistrationState::Validated(payload) | RegistrationState::PreChecked(payload) => {
                &&& account_number_length_ok(payload.account_number@)
                &&& ifsc_format(payload.ifsc@)
            },
            RegistrationState::Verified(user) => {
                &&& account_number_length_ok(user.account_number@)
                &&& ifsc_format(user.ifsc_code@)
            },
            _ => true,
        }
    }

    /// The registration has ended.
    pub open spec fn is_terminal(self) -> bool {
        self is Succeeded || self is Failed
    }
}

fn fail(e: AppError) -> (next: (RegistrationState, RegistrationAction))
    ensures
        next == failed(e),
{
    (RegistrationState::Failed(e), RegistrationAction::Respond(Err(e)))
}

/// Receives a registration: validates the input, and asks for the pre-check
/// of the account number where it is valid.
pub fn start(payload: RegisterUserPayload) -> (next: (RegistrationState, RegistrationAction))
    ensures
        next == started(payload),
        next.0.wf(),
{
    match validate_registration(&payload) {
        Ok(_) => {
            let account_number = payload.account_number.clone();
            (RegistrationState::Validated(payload), RegistrationAction::CheckAccount(account_number))
        },
        Err(e) => fail(e),
    }
}

/// Takes one step, with `fresh_id` as the id of the identity to insert.
pub fn step_with_id(state: RegistrationState, event: RegistrationEvent, fresh_id: u128) -> (next: (
    RegistrationState,
    RegistrationAction,
))
    ensures
        next == stepped(state, event, fresh_id),
{
    match state {
        RegistrationState::Validated(payload) => match event {
            RegistrationEvent::AccountChecked(Ok(taken)) => if taken {
                fail(AppError::Conflict)
            } else {
                let ifsc = payload.ifsc.clone();
                (RegistrationState::PreChecked(payload), RegistrationAction::VerifyRoutingCode(ifsc))
            },
            RegistrationEvent::AccountChecked(Err(failure)) => fail(AppError::Storage(failure)),
            _ => fail(AppError::Internal),
        },
        RegistrationState::PreChecked(payload) => match event {
            RegistrationEvent::VerifierReplied(reply) => match classify_reply(reply) {
                Ok(bank) => {
                    let user = NewUser::assemble(fresh_id, payload, bank);
                    let row = user.duplicate();
                    (RegistrationState::Verified(user), RegistrationAction::InsertUser(row))
                },
                Err(e) => fail(e),
            },
            _ => fail(AppError::Internal),
        },
        RegistrationState::Verified(_) => match event {
            RegistrationEvent::Inserted(Ok(user)) => (
                RegistrationState::Succeeded(user.id),
                RegistrationAction::Respond(Ok(user.id)),
            ),
            RegistrationEvent::Inserted(Err(StorageFailure::UniqueViolation)) => fail(
                AppError::Conflict,
            ),
            RegistrationEvent::Inserted(Err(StorageFailure::Other)) => fail(
                AppError::Storage(StorageFailure::Other),
            ),
            _ => fail(AppError::Internal),
        },
        RegistrationState::Succeeded(id) => (
            RegistrationState::Succeeded(id),
            RegistrationAction::Respond(Ok(id)),
        ),
        RegistrationState::Failed(e) => fail(e),
    }
}

/// Takes one step. The id of a new identity is drawn at random, when the
/// reply of the verification service is awaited: the result is that of
/// `step_with_id` for some id.
pub fn step(state: RegistrationState, event: RegistrationEvent) -> (next: (
    RegistrationState,
    RegistrationAction,
))
    ensures
        exists|fresh_id: u128| next == #[trigger] stepped(state, event, fresh_id),
{
    let fresh_id: u128 = match &state {
        RegistrationState::PreChecked(_) => fresh_user_id(),
        _ => 0,
    };
    let next = step_with_id(state, event, fresh_id);
    assert(next == stepped(state, event, fresh_id));
    next
}

/// An input whose routing code does not have the fixed format is refused
/// by the first step, as a validation error (400) that lists the rule: the
/// only action asked for is the answer, so neither the store nor the
/// verification service is called.
pub proof fn lemma_invalid_routing_code_is_refused_first(payload: RegisterUserPayload)
    requires
        !ifsc_format(payload.ifsc@),
    ensures
        started(payload) == failed(
            AppError::Validation(
                ValidationFailure::Input(violations_of(payload.account_number@, payload.ifsc@)),
            ),
        ),
        violations_of(payload.account_number@, payload.ifsc@).ifsc_format,
        started(payload).1 matches RegistrationAction::Respond(Err(e)) && e.status()
            == crate::error::STATUS_BAD_REQUEST,
{
}

/// Every state that a registration reaches carries validated input only.
pub proof fn lemma_steps_keep_wf(
    payload: RegisterUserPayload,
    state: RegistrationState,
    event: RegistrationEvent,
    fresh_id: u128,
)
    ensures
        started(payload).0.wf(),
        state.wf() ==> stepped(state, event, fresh_id).0.wf(),
{
}

/// An insert is asked for by one step only: the one that takes a
/// pre-checked registration whose routing code the service has verified.
/// The identity to insert has the validated account number and routing
/// code, and the fresh id. So nothing is persisted before verification, and
/// a failed verification leaves no trace.
pub proof fn lemma_insert_follows_verification(
    payload: RegisterUserPayload,
    state: RegistrationState,
    event: RegistrationEvent,
    fresh_id: u128,
)
    ensures
        !(started(payload).1 is InsertUser),
        stepped(state, event, fresh_id).1 matches RegistrationAction::InsertUser(user) ==> {
            &&& state matches RegistrationState::PreChecked(accepted)
            &&& event matches RegistrationEvent::VerifierReplied(reply)
            &&& verification_result(reply) matches Ok(bank)
            &&& user == NewUser::assembled(fresh_id, accepted, bank)
            &&& state.wf() ==> account_number_length_ok(user.account_number@) && ifsc_format(
                user.ifsc_code@,
            )
        },
{
}

/// A step ends the registration exactly when it asks for the answer, and
/// the answer is that of the terminal state.
pub proof fn lemma_answer_is_terminal(
    payload: RegisterUserPayload,
    state: RegistrationState,
    event: RegistrationEvent,
    fresh_id: u128,
)
    ensures
        started(payload).0.is_terminal() <==> started(payload).1 is Respond,
        stepped(state, event, fresh_id).0.is_terminal() <==> stepped(state, event, fresh_id).1
            is Respond,
        stepped(state, event, fresh_id) matches (RegistrationState::Failed(e), action) ==> action
            == RegistrationAction::Respond(Err(e)),
        stepped(state, event, fresh_id) matches (RegistrationState::Succeeded(id), action)
            ==> action == RegistrationAction::Respond(Ok(id)),
{
}

/// The store's uniqueness constraint is the authority: an insert that it
/// refuses ends the registration in a conflict (409), whatever the
/// pre-check had said; and a pre-check that finds the account number ends
/// it in the same conflict.
pub proof fn lemma_uniqueness_has_two_layers(
    payload: RegisterUserPayload,
    user: NewUser,
    fresh_id: u128,
)
    ensures
        stepped(
            RegistrationState::Verified(user),
            RegistrationEvent::Inserted(Err(StorageFailure::UniqueViolation)),
            fresh_id,
        ) == failed(AppError::Conflict),
        stepped(
            RegistrationState::Validated(payload),
            RegistrationEvent::AccountChecked(Ok(true)),
            fresh_id,
        ) == failed(AppError::Conflict),
        AppError::Conflict.status() == crate::error::STATUS_CONFLICT,
{
}

} // verus!
