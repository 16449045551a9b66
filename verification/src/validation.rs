//! Syntactic checks on a registration input.

use crate::error::{AppError, ValidationFailure, Violations};
use crate::model::RegisterUserPayload;
use vstd::prelude::*;
use vstd::string::*;

verus! {

/// The least number of characters of an account number.
pub const ACCOUNT_NUMBER_MIN_LEN: usize = 9;

/// The greatest number of characters of an account number.
pub const ACCOUNT_NUMBER_MAX_LEN: usize = 18;

/// The number of characters of a routing code.
pub const IFSC_LEN: usize = 11;

/// An upper-case ASCII letter.
pub open spec fn is_upper_letter(c: char) -> bool {
    'A' <= c <= 'Z'
}

/// An ASCII digit.
pub open spec fn is_digit(c: char) -> bool {
    '0' <= c <= '9'
}

/// What a routing code may hold at position `i`: a letter in the first four
/// places, the digit zero in the fifth, a letter or a digit after it.
pub open spec fn ifsc_char_ok(i: int, c: char) -> bool {
    if i < 4 {
        is_upper_letter(c)
    } else if i == 4 {
        c == '0'
    } else {
        is_upper_letter(c) || is_digit(c)
    }
}

/// The fixed format of a routing code, `^[A-Z]{4}0[A-Z0-9]{6}$`: eleven
/// characters, each of which its position allows.
pub open spec fn ifsc_format(code: Seq<char>) -> bool {
    &&& code.len() == IFSC_LEN
    &&& forall|i: int| 0 <= i < code.len() ==> ifsc_char_ok(i, #[trigger] code[i])
}

/// An account number has between 9 and 18 characters.
pub open spec fn account_number_length_ok(account_number: Seq<char>) -> bool {
    ACCOUNT_NUMBER_MIN_LEN <= account_number.len() <= ACCOUNT_NUMBER_MAX_LEN
}

/// The rules that the two fields of a registration input break.
pub open spec fn violations_of(account_number: Seq<char>, ifsc: Seq<char>) -> Violations {
    Violations {
        account_number_length: !account_number_length_ok(account_number),
        ifsc_format: !ifsc_format(ifsc),
    }
}

/// A registration input is accepted where it breaks no rule, and is refused
/// with every rule that it breaks otherwise.
pub open spec fn registration_check(account_number: Seq<char>, ifsc: Seq<char>) -> Result<
    (),
    AppError,
> {
    let violations = violations_of(account_number, ifsc);
    if violations.is_empty() {
        Ok(())
    } else {
        Err(AppError::Validation(ValidationFailure::Input(violations)))
    }
}

fn char_allowed_at(i: usize, c: char) -> (allowed: bool)
    ensures
        allowed == ifsc_char_ok(i as int, c),
{
    let upper = 'A' <= c && c <= 'Z';
    let digit = '0' <= c && c <= '9';
    if i < 4 {
        upper
    } else if i == 4 {
        c == '0'
    } else {
        upper || digit
    }
}

/// Whether a routing code has the fixed format.
pub fn is_valid_ifsc(code: &str) -> (valid: bool)
    ensures
        valid == ifsc_format(code@),
{
    if code.unicode_len() != IFSC_LEN {
        return false;
    }
    let mut i: usize = 0;
    while i < IFSC_LEN
        invariant
            i <= IFSC_LEN,
            code@.len() == IFSC_LEN,
            forall|j: int| 0 <= j < i ==> ifsc_char_ok(j, #[trigger] code@[j]),
        decreases IFSC_LEN - i,
    {
        if !char_allowed_at(i, code.get_char(i)) {
            return false;
        }
        i = i + 1;
    }
    true
}

/// Whether an account number has an accepted length.
pub fn is_valid_account_number(account_number: &str) -> (valid: bool)
    ensures
        valid == account_number_length_ok(account_number@),
{
    let n: usize = account_number.unicode_len();
    ACCOUNT_NUMBER_MIN_LEN <= n && n <= ACCOUNT_NUMBER_MAX_LEN
}

/// Checks a registration input against both rules, and reports every rule
/// that it breaks.
pub fn validate_registration(payload: &RegisterUserPayload) -> (checked: Result<(), AppError>)
    ensures
        checked == registration_check(payload.account_number@, payload.ifsc@),
{
    let violations = Violations {
        account_number_length: !is_valid_account_number(payload.account_number.as_str()),
        ifsc_format: !is_valid_ifsc(payload.ifsc.as_str()),
    };
    if !violations.account_number_length && !violations.ifsc_format {
        Ok(())
    } else {
        Err(AppError::Validation(ValidationFailure::Input(violations)))
    }
}

/// A refused input is told every rule that it breaks, and an accepted one
/// breaks none: the account number's length is in range and the routing
/// code has its format exactly when the check passes.
pub proof fn lemma_check_reports_every_violation(account_number: Seq<char>, ifsc: Seq<char>)
    ensures
        registration_check(account_number, ifsc) is Ok <==> account_number_length_ok(
            account_number,
        ) && ifsc_format(ifsc),
        registration_check(account_number, ifsc) matches Err(e) ==> e == AppError::Validation(
            ValidationFailure::Input(violations_of(account_number, ifsc)),
        ) && e.status() == crate::error::STATUS_BAD_REQUEST,
{
}

} // verus!
