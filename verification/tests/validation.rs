use tiny_bank::error::{AppError, ValidationFailure, Violations};
use tiny_bank::model::RegisterUserPayload;
use tiny_bank::validation::{is_valid_account_number, is_valid_ifsc, validate_registration};
use validator::ValidateLength;

fn payload(account_number: &str, ifsc: &str) -> RegisterUserPayload {
    RegisterUserPayload { account_number: account_number.to_string(), ifsc: ifsc.to_string() }
}

fn refused(account_number_length: bool, ifsc_format: bool) -> Result<(), AppError> {
    Err(AppError::Validation(ValidationFailure::Input(Violations {
        account_number_length,
        ifsc_format,
    })))
}

#[test]
fn accepts_a_well_formed_routing_code() {
    assert!(is_valid_ifsc("ABCD0123456"));
    assert!(is_valid_ifsc("SBIN0ABCDEF"));
    assert!(is_valid_ifsc("HDFC0A1B2C3"));
    assert!(is_valid_ifsc("ZZZZ0000000"));
}

#[test]
fn refuses_a_malformed_routing_code() {
    assert!(!is_valid_ifsc(""));
    assert!(!is_valid_ifsc("ABCD012345"));
    assert!(!is_valid_ifsc("ABCD01234567"));
    assert!(!is_valid_ifsc("abcd0123456"));
    assert!(!is_valid_ifsc("ABC10123456"));
    assert!(!is_valid_ifsc("ABCD1123456"));
    assert!(!is_valid_ifsc("ABCDO123456"));
    assert!(!is_valid_ifsc("ABCD012345a"));
    assert!(!is_valid_ifsc("ABCD01234-6"));
    assert!(!is_valid_ifsc(" ABCD0123456"));
    assert!(!is_valid_ifsc("ABCD0123456 "));
    assert!(!is_valid_ifsc("ABCD0123456\n"));
    assert!(!is_valid_ifsc("ABCD012345é"));
    assert!(!is_valid_ifsc("ÀBCD0123456"));
}

#[test]
fn routing_code_rule_is_the_pattern() {
    let pattern = regex::Regex::new(r"^[A-Z]{4}0[A-Z0-9]{6}$").unwrap();
    let base: Vec<char> = "ABCD0123XYZ".chars().collect();
    let probes = ['A', 'Z', 'a', 'z', '0', '9', '@', '[', '/', ':', ' ', '\n', 'é', '٣'];
    let mut candidates: Vec<String> = vec![
        String::new(),
        "ABCD0123XY".to_string(),
        "ABCD0123XYZ".to_string(),
        "ABCD0123XYZ0".to_string(),
        "ABCD0123XYZ\n".to_string(),
        "\nABCD0123XYZ".to_string(),
    ];
    for position in 0..base.len() {
        for probe in probes {
            let mut changed = base.clone();
            changed[position] = probe;
            candidates.push(changed.into_iter().collect());
        }
    }
    for candidate in candidates {
        assert_eq!(is_valid_ifsc(&candidate), pattern.is_match(&candidate), "{:?}", candidate);
    }
}

#[test]
fn account_number_length_is_between_9_and_18() {
    assert!(!is_valid_account_number(""));
    assert!(!is_valid_account_number("12345678"));
    assert!(is_valid_account_number("123456789"));
    assert!(is_valid_account_number("123456789012345678"));
    assert!(!is_valid_account_number("1234567890123456789"));
}

#[test]
fn account_number_length_counts_characters() {
    let candidates = ["", "12345678", "123456789", "éééééééé", "ééééééééé", "1234567890123456é", "123456789012345678", "12345678901234567éé"];
    for candidate in candidates {
        let by_rule = candidate.to_string().validate_length(Some(9), Some(18), None);
        assert_eq!(is_valid_account_number(candidate), by_rule, "{:?}", candidate);
    }
}

#[test]
fn valid_input_passes() {
    assert_eq!(validate_registration(&payload("123456789", "ABCD0123456")), Ok(()));
}

#[test]
fn every_broken_rule_is_reported() {
    assert_eq!(validate_registration(&payload("123", "ABCD0123456")), refused(true, false));
    assert_eq!(validate_registration(&payload("123456789", "bad")), refused(false, true));
    assert_eq!(validate_registration(&payload("123", "bad")), refused(true, true));
}

#[test]
fn refused_input_is_a_bad_request_with_all_messages() {
    let error = validate_registration(&payload("123", "bad")).unwrap_err();
    assert_eq!(error.status_code(), 400);
    assert_eq!(
        error.render(),
        "account_number: Account number must be between 9 and 18 digits., ifsc: Invalid IFSC code format."
    );
}

#[test]
fn messages_read_as_the_field_errors_do() {
    let account_message = "Account number must be between 9 and 18 digits.";
    let ifsc_message = "Invalid IFSC code format.";

    let mut only_account = validator::ValidationErrors::new();
    only_account.add(
        "account_number",
        validator::ValidationError::new("length").with_message(account_message.into()),
    );
    let rendered = Violations { account_number_length: true, ifsc_format: false }.render();
    assert_eq!(rendered, only_account.to_string().replace('\n', ", "));

    let mut only_ifsc = validator::ValidationErrors::new();
    only_ifsc
        .add("ifsc", validator::ValidationError::new("regex").with_message(ifsc_message.into()));
    let rendered = Violations { account_number_length: false, ifsc_format: true }.render();
    assert_eq!(rendered, only_ifsc.to_string().replace('\n', ", "));

    let rendered = Violations { account_number_length: true, ifsc_format: true }.render();
    let joined = format!("{}, {}", only_account, only_ifsc);
    assert_eq!(rendered, joined);
}
