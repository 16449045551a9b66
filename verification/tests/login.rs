use tiny_bank::error::{AppError, StorageFailure};
use tiny_bank::login::{check_credentials, identify, login, login_at};
use tiny_bank::model::{LoginPayload, User};
use tiny_bank::token::{decode_jwt, decode_jwt_at, Claims};

const SECRET: &str = "a-test-secret";

fn user() -> User {
    User {
        id: 42,
        account_number: "123456789".to_string(),
        ifsc_code: "ABCD0123456".to_string(),
        bank_name: "Bank of Examples".to_string(),
        branch: "Main".to_string(),
        address: None,
        city: None,
        state_code: None,
        routing_no: None,
        created_at: 0,
    }
}

fn credentials(ifsc: &str) -> LoginPayload {
    LoginPayload { account_number: "123456789".to_string(), ifsc: ifsc.to_string() }
}

#[test]
fn matching_routing_code_names_the_identity() {
    assert_eq!(check_credentials(&Some(user()), &credentials("ABCD0123456")), Ok(42));
}

#[test]
fn wrong_routing_code_and_unknown_account_fail_alike() {
    let wrong_code = check_credentials(&Some(user()), &credentials("WXYZ0123456"));
    let unknown_account = check_credentials(&None, &credentials("ABCD0123456"));
    assert_eq!(wrong_code, Err(AppError::InvalidCredentials));
    assert_eq!(wrong_code, unknown_account);
    let shown = wrong_code.unwrap_err().into_response();
    assert_eq!(shown, unknown_account.unwrap_err().into_response());
    assert_eq!(shown.0, 401);
    assert_eq!(shown.1.error, "Invalid credentials");
}

#[test]
fn routing_code_is_compared_exactly() {
    assert_eq!(
        check_credentials(&Some(user()), &credentials("abcd0123456")),
        Err(AppError::InvalidCredentials)
    );
    assert_eq!(
        check_credentials(&Some(user()), &credentials("ABCD0123456 ")),
        Err(AppError::InvalidCredentials)
    );
    assert_eq!(check_credentials(&Some(user()), &credentials("")), Err(AppError::InvalidCredentials));
}

#[test]
fn identity_of_another_account_number_does_not_match() {
    let presented = LoginPayload {
        account_number: "987654321".to_string(),
        ifsc: "ABCD0123456".to_string(),
    };
    assert_eq!(check_credentials(&Some(user()), &presented), Err(AppError::InvalidCredentials));
}

#[test]
fn failed_lookup_is_a_storage_error() {
    let looked_up = Err(StorageFailure::Other);
    assert_eq!(
        identify(&looked_up, &credentials("ABCD0123456")),
        Err(AppError::Storage(StorageFailure::Other))
    );
    assert_eq!(
        login_at(&looked_up, &credentials("ABCD0123456"), SECRET, 0),
        Err(AppError::Storage(StorageFailure::Other))
    );
    assert_eq!(identify(&Ok(Some(user())), &credentials("ABCD0123456")), Ok(42));
}

#[test]
fn login_issues_the_token_of_the_identity() {
    let response = login_at(&Ok(Some(user())), &credentials("ABCD0123456"), SECRET, 1_000).unwrap();
    assert_eq!(
        decode_jwt_at(&response.token, SECRET, 1_000),
        Ok(Claims { sub: 42, exp: 87_400 })
    );
}

#[test]
fn login_without_matching_credentials_issues_nothing() {
    assert_eq!(
        login_at(&Ok(Some(user())), &credentials("WXYZ0123456"), SECRET, 1_000),
        Err(AppError::InvalidCredentials)
    );
    assert_eq!(
        login_at(&Ok(None), &credentials("ABCD0123456"), SECRET, 1_000),
        Err(AppError::InvalidCredentials)
    );
    assert_eq!(
        login(&Ok(None), &credentials("ABCD0123456"), SECRET),
        Err(AppError::InvalidCredentials)
    );
}

#[test]
fn login_at_succeeds_exactly_where_credentials_match_and_the_expiry_can_be_written() {
    let found = Ok(Some(user()));
    assert!(login_at(&found, &credentials("ABCD0123456"), SECRET, 0).is_ok());
    assert!(login_at(&found, &credentials("ABCD0123456"), SECRET, i64::MAX - 86_400).is_ok());
    assert_eq!(
        login_at(&found, &credentials("ABCD0123456"), SECRET, i64::MAX),
        Err(AppError::Auth(tiny_bank::error::AuthFailure::TokenCreation))
    );
    assert!(login(&found, &credentials("ABCD0123456"), SECRET).is_ok());
    assert!(login(&found, &credentials("WXYZ0123456"), SECRET).is_err());
}

#[test]
fn login_now_issues_a_token_that_is_valid_now() {
    let response = login(&Ok(Some(user())), &credentials("ABCD0123456"), SECRET).unwrap();
    assert_eq!(decode_jwt(&response.token, SECRET).map(|claims| claims.sub), Ok(42));
}
