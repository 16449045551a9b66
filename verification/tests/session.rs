use tiny_bank::error::{AppError, AuthFailure, StorageFailure, TokenFault};
use tiny_bank::model::User;
use tiny_bank::session::{authenticate, authenticate_at, authorize, bearer_token};
use tiny_bank::token::{create_jwt, create_jwt_at, Claims};

const SECRET: &str = "a-test-secret";

fn rejected(failure: AuthFailure) -> AppError {
    AppError::Auth(failure)
}

fn user() -> User {
    User {
        id: 42,
        account_number: "123456789".to_string(),
        ifsc_code: "ABCD0123456".to_string(),
        bank_name: "Bank of Examples".to_string(),
        branch: "Main".to_string(),
        address: None,
        city: None,
        state_code: None,
        routing_no: None,
        created_at: 0,
    }
}

#[test]
fn token_follows_the_bearer_prefix() {
    assert_eq!(bearer_token(Some("Bearer abc.def.ghi")), Ok("abc.def.ghi"));
    assert_eq!(bearer_token(Some("Bearer ")), Ok(""));
    assert_eq!(bearer_token(Some("Bearer  x")), Ok(" x"));
    assert_eq!(bearer_token(Some("Bearer é")), Ok("é"));
}

#[test]
fn missing_header_is_rejected() {
    assert_eq!(bearer_token(None), Err(rejected(AuthFailure::MissingHeader)));
}

#[test]
fn header_without_the_prefix_is_rejected() {
    let headers = ["", "Bearer", "bearer abc", "BEARER abc", "Basic abc", "abc", " Bearer abc", "Bearer\tabc", "Béarer abc"];
    for header in headers {
        assert_eq!(
            bearer_token(Some(header)),
            Err(rejected(AuthFailure::InvalidHeaderFormat)),
            "{:?}",
            header
        );
    }
}

#[test]
fn valid_token_names_its_subject() {
    let token = create_jwt_at(42, 1_000, SECRET).unwrap();
    let header = format!("Bearer {}", token);
    assert_eq!(
        authenticate_at(Some(&header), SECRET, 2_000),
        Ok(Claims { sub: 42, exp: 87_400 })
    );
}

#[test]
fn request_without_a_usable_credential_is_unauthorized() {
    let token = create_jwt_at(42, 1_000, SECRET).unwrap();
    let forged = create_jwt_at(42, 1_000, "another-secret").unwrap();
    let cases: Vec<(Option<String>, AuthFailure)> = vec![
        (None, AuthFailure::MissingHeader),
        (Some(token.clone()), AuthFailure::InvalidHeaderFormat),
        (Some(format!("Token {}", token)), AuthFailure::InvalidHeaderFormat),
        (Some(format!("Bearer {}", forged)), AuthFailure::InvalidToken(TokenFault::BadSignature)),
        (Some(format!("Bearer {}x", token)), AuthFailure::InvalidToken(TokenFault::BadSignature)),
        (Some("Bearer nonsense".to_string()), AuthFailure::InvalidToken(TokenFault::Malformed)),
    ];
    for (header, failure) in cases {
        let outcome = authenticate_at(header.as_deref(), SECRET, 2_000);
        assert_eq!(outcome, Err(rejected(failure)), "{:?}", header);
        assert_eq!(outcome.unwrap_err().status_code(), 401);
        let outcome = authenticate(header.as_deref(), SECRET);
        assert_eq!(outcome, Err(rejected(failure)), "{:?}", header);
    }
}

#[test]
fn expired_token_is_unauthorized() {
    let token = create_jwt_at(42, 1_000, SECRET).unwrap();
    let header = format!("Bearer {}", token);
    let expired = rejected(AuthFailure::InvalidToken(TokenFault::Expired));
    assert_eq!(authenticate_at(Some(&header), SECRET, 87_401), Err(expired));
    assert_eq!(authenticate(Some(&header), SECRET), Err(expired));
    assert_eq!(expired.status_code(), 401);
}

#[test]
fn token_issued_now_authenticates_now() {
    let header = format!("Bearer {}", create_jwt(42, SECRET).unwrap());
    assert_eq!(authenticate(Some(&header), SECRET).map(|claims| claims.sub), Ok(42));
}

fn claims_of(sub: u128) -> Claims {
    Claims { sub, exp: 87_400 }
}

#[test]
fn found_subject_is_authorized() {
    assert_eq!(authorize(claims_of(42), Ok(Some(user()))), Ok(user()));
}

#[test]
fn another_identity_than_the_subject_is_not_authorized() {
    let outcome = authorize(claims_of(43), Ok(Some(user())));
    assert_eq!(outcome, Err(rejected(AuthFailure::SubjectNotFound)));
}

#[test]
fn unknown_subject_is_unauthorized() {
    let outcome = authorize(claims_of(42), Ok(None));
    assert_eq!(outcome, Err(rejected(AuthFailure::SubjectNotFound)));
    let (status, body) = outcome.unwrap_err().into_response();
    assert_eq!(status, 401);
    assert_eq!(body.error, "User from token not found");
}

#[test]
fn failed_subject_lookup_is_a_storage_error() {
    assert_eq!(
        authorize(claims_of(42), Err(StorageFailure::Other)),
        Err(AppError::Storage(StorageFailure::Other))
    );
}
