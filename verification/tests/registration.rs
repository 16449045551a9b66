use tiny_bank::bank_api::{classify_reply, status_is_success, VerifierReply};
use tiny_bank::error::{AppError, StorageFailure, ValidationFailure, Violations};
use tiny_bank::model::{BankApiData, NewUser, RegisterSuccessResponse, RegisterUserPayload, User};
use tiny_bank::registration::{
    start, step, step_with_id, RegistrationAction, RegistrationEvent, RegistrationState,
};

const FRESH_ID: u128 = 0x550e8400_e29b_41d4_a716_446655440000;

fn payload(account_number: &str, ifsc: &str) -> RegisterUserPayload {
    RegisterUserPayload { account_number: account_number.to_string(), ifsc: ifsc.to_string() }
}

fn bank_data() -> BankApiData {
    BankApiData {
        bank_name: "Bank of Examples".to_string(),
        bank_branch_name: "Main".to_string(),
        address: "1 High Street".to_string(),
        city_and_pincode: "Springfield 560001".to_string(),
        country_code: "IN".to_string(),
        network_type: "NEFT".to_string(),
        routing_no: "000111".to_string(),
        state_code: "KA".to_string(),
    }
}

fn expected_row(id: u128) -> NewUser {
    NewUser {
        id,
        account_number: "123456789".to_string(),
        ifsc_code: "ABCD0123456".to_string(),
        bank_name: "Bank of Examples".to_string(),
        branch: "Main".to_string(),
        address: Some("1 High Street".to_string()),
        city: Some("Springfield 560001".to_string()),
        state_code: Some("KA".to_string()),
        routing_no: Some("000111".to_string()),
    }
}

fn stored(row: NewUser, created_at: i64) -> User {
    row.into_user(created_at)
}

fn verified_reply() -> VerifierReply {
    VerifierReply::Answered { status: 200, data: Some(bank_data()) }
}

fn failure(e: AppError) -> (RegistrationState, RegistrationAction) {
    (RegistrationState::Failed(e), RegistrationAction::Respond(Err(e)))
}

fn pre_checked() -> RegistrationState {
    RegistrationState::PreChecked(payload("123456789", "ABCD0123456"))
}

#[test]
fn valid_input_asks_for_the_pre_check() {
    let input = payload("123456789", "ABCD0123456");
    let (state, action) = start(input.clone());
    assert_eq!(state, RegistrationState::Validated(input));
    assert_eq!(action, RegistrationAction::CheckAccount("123456789".to_string()));
}

#[test]
fn malformed_routing_code_is_answered_at_once() {
    let refused = AppError::Validation(ValidationFailure::Input(Violations {
        account_number_length: false,
        ifsc_format: true,
    }));
    assert_eq!(start(payload("123456789", "abcd0123456")), failure(refused));
    assert_eq!(refused.status_code(), 400);
    assert_eq!(refused.render(), "ifsc: Invalid IFSC code format.");
}

#[test]
fn every_violation_is_answered_at_once() {
    let refused = AppError::Validation(ValidationFailure::Input(Violations {
        account_number_length: true,
        ifsc_format: true,
    }));
    assert_eq!(start(payload("1", "")), failure(refused));
    let refused = AppError::Validation(ValidationFailure::Input(Violations {
        account_number_length: true,
        ifsc_format: false,
    }));
    assert_eq!(start(payload("1234567890123456789", "ABCD0123456")), failure(refused));
}

#[test]
fn free_account_number_asks_for_verification() {
    let input = payload("123456789", "ABCD0123456");
    let (state, _) = start(input.clone());
    let next = step_with_id(state, RegistrationEvent::AccountChecked(Ok(false)), FRESH_ID);
    assert_eq!(
        next,
        (
            RegistrationState::PreChecked(input),
            RegistrationAction::VerifyRoutingCode("ABCD0123456".to_string())
        )
    );
}

#[test]
fn taken_account_number_is_a_conflict() {
    let (state, _) = start(payload("123456789", "ABCD0123456"));
    let next = step_with_id(state, RegistrationEvent::AccountChecked(Ok(true)), FRESH_ID);
    assert_eq!(next, failure(AppError::Conflict));
    assert_eq!(AppError::Conflict.status_code(), 409);
}

#[test]
fn failed_pre_check_is_a_storage_error() {
    let (state, _) = start(payload("123456789", "ABCD0123456"));
    let event = RegistrationEvent::AccountChecked(Err(StorageFailure::Other));
    let next = step_with_id(state, event, FRESH_ID);
    assert_eq!(next, failure(AppError::Storage(StorageFailure::Other)));
    assert_eq!(AppError::Storage(StorageFailure::Other).status_code(), 500);
}

#[test]
fn pre_check_refused_by_a_constraint_is_answered_as_a_conflict() {
    let (state, _) = start(payload("123456789", "ABCD0123456"));
    let event = RegistrationEvent::AccountChecked(Err(StorageFailure::UniqueViolation));
    let next = step_with_id(state, event, FRESH_ID);
    assert_eq!(next, failure(AppError::Storage(StorageFailure::UniqueViolation)));
    assert_eq!(AppError::Storage(StorageFailure::UniqueViolation).status_code(), 409);
}

#[test]
fn verified_routing_code_asks_for_the_insert() {
    let event = RegistrationEvent::VerifierReplied(verified_reply());
    let next = step_with_id(pre_checked(), event, FRESH_ID);
    assert_eq!(
        next,
        (
            RegistrationState::Verified(expected_row(FRESH_ID)),
            RegistrationAction::InsertUser(expected_row(FRESH_ID))
        )
    );
}

#[test]
fn declined_routing_code_is_a_bad_request() {
    let declined = AppError::Validation(ValidationFailure::UnverifiedRoutingCode);
    for status in [100u16, 199, 300, 400, 404, 422, 500, 503] {
        let reply = VerifierReply::Answered { status, data: None };
        let next = step_with_id(pre_checked(), RegistrationEvent::VerifierReplied(reply), FRESH_ID);
        assert_eq!(next, failure(declined), "{}", status);
    }
    let with_body = VerifierReply::Answered { status: 422, data: Some(bank_data()) };
    let next = step_with_id(pre_checked(), RegistrationEvent::VerifierReplied(with_body), FRESH_ID);
    assert_eq!(next, failure(declined));
    assert_eq!(declined.status_code(), 400);
}

#[test]
fn unreachable_verifier_is_a_bad_gateway() {
    let event = RegistrationEvent::VerifierReplied(VerifierReply::Unreachable);
    let next = step_with_id(pre_checked(), event, FRESH_ID);
    assert_eq!(next, failure(AppError::ExternalService));
    assert_eq!(AppError::ExternalService.status_code(), 502);
}

#[test]
fn unreadable_success_body_is_a_bad_gateway() {
    let reply = VerifierReply::Answered { status: 200, data: None };
    let next = step_with_id(pre_checked(), RegistrationEvent::VerifierReplied(reply), FRESH_ID);
    assert_eq!(next, failure(AppError::ExternalService));
}

#[test]
fn success_statuses_are_200_to_299() {
    for status in 0u16..700 {
        assert_eq!(status_is_success(status), (200..=299).contains(&status), "{}", status);
    }
    assert!(!status_is_success(u16::MAX));
    assert_eq!(
        classify_reply(VerifierReply::Answered { status: 299, data: Some(bank_data()) }),
        Ok(bank_data())
    );
    assert_eq!(
        classify_reply(VerifierReply::Answered { status: 201, data: Some(bank_data()) }),
        Ok(bank_data())
    );
}

#[test]
fn persisted_identity_is_answered_with_its_id() {
    let state = RegistrationState::Verified(expected_row(FRESH_ID));
    let event = RegistrationEvent::Inserted(Ok(stored(expected_row(FRESH_ID), 5)));
    let next = step_with_id(state, event, 0);
    assert_eq!(
        next,
        (RegistrationState::Succeeded(FRESH_ID), RegistrationAction::Respond(Ok(FRESH_ID)))
    );
}

#[test]
fn insert_refused_for_uniqueness_is_a_conflict() {
    let state = RegistrationState::Verified(expected_row(FRESH_ID));
    let event = RegistrationEvent::Inserted(Err(StorageFailure::UniqueViolation));
    assert_eq!(step_with_id(state, event, 0), failure(AppError::Conflict));
}

#[test]
fn insert_that_fails_otherwise_is_a_storage_error() {
    let state = RegistrationState::Verified(expected_row(FRESH_ID));
    let event = RegistrationEvent::Inserted(Err(StorageFailure::Other));
    assert_eq!(step_with_id(state, event, 0), failure(AppError::Storage(StorageFailure::Other)));
}

#[test]
fn unexpected_event_is_an_internal_error() {
    let (validated, _) = start(payload("123456789", "ABCD0123456"));
    let event = RegistrationEvent::VerifierReplied(verified_reply());
    assert_eq!(step_with_id(validated, event, 0), failure(AppError::Internal));
    let event = RegistrationEvent::AccountChecked(Ok(false));
    assert_eq!(step_with_id(pre_checked(), event, 0), failure(AppError::Internal));
    let event = RegistrationEvent::Inserted(Err(StorageFailure::UniqueViolation));
    assert_eq!(step_with_id(pre_checked(), event, 0), failure(AppError::Internal));
    let state = RegistrationState::Verified(expected_row(FRESH_ID));
    let event = RegistrationEvent::AccountChecked(Ok(true));
    assert_eq!(step_with_id(state, event, 0), failure(AppError::Internal));
    assert_eq!(AppError::Internal.status_code(), 500);
}

#[test]
fn terminal_states_repeat_their_answer() {
    let event = RegistrationEvent::AccountChecked(Ok(false));
    assert_eq!(
        step_with_id(RegistrationState::Succeeded(9), event, 0),
        (RegistrationState::Succeeded(9), RegistrationAction::Respond(Ok(9)))
    );
    let event = RegistrationEvent::VerifierReplied(verified_reply());
    assert_eq!(
        step_with_id(RegistrationState::Failed(AppError::Conflict), event, 0),
        failure(AppError::Conflict)
    );
}

#[test]
fn step_draws_a_random_version_4_id() {
    let mut ids: Vec<u128> = Vec::new();
    for _ in 0..4 {
        let event = RegistrationEvent::VerifierReplied(verified_reply());
        match step(pre_checked(), event) {
            (RegistrationState::Verified(user), RegistrationAction::InsertUser(row)) => {
                assert_eq!(user, row);
                assert_eq!(row, expected_row(row.id));
                assert_eq!(uuid::Uuid::from_u128(row.id).get_version_num(), 4);
                assert!(!ids.contains(&row.id));
                ids.push(row.id);
            }
            other => panic!("unexpected step: {:?}", other),
        }
    }
}

#[test]
fn step_without_an_id_is_the_step_with_any() {
    let (validated, _) = start(payload("123456789", "ABCD0123456"));
    let next = step(validated, RegistrationEvent::AccountChecked(Ok(true)));
    assert_eq!(next, failure(AppError::Conflict));
}

#[test]
fn success_body_names_the_identity() {
    let body = RegisterSuccessResponse::new(FRESH_ID);
    assert_eq!(body.message, "User registered successfully.");
    assert_eq!(body.user_id, FRESH_ID);
}
