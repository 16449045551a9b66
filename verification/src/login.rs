//! Login: from an account number and a routing code to a session token.

use crate::error::{AppError, StorageFailure};
use crate::model::{LoginPayload, LoginResponse, User};
use crate::text::same_text;
use crate::clock::is_clock_reading;
use crate::token::{create_jwt, create_jwt_at, expiry_of, issued_token};
use vstd::prelude::*;
use vstd::string::*;

verus! {

/// Whose credentials a login presents: the id of the identity that was
/// found, where its account number and its routing code are the presented
/// ones. An unknown account number and a wrong routing code fail alike.
pub open spec fn credentials_match(
    found: Option<User>,
    account_number: Seq<char>,
    ifsc: Seq<char>,
) -> Result<u128, AppError> {
    match found {
        Some(user) => if user.account_number@ == account_number && user.ifsc_code@ == ifsc {
            Ok(user.id)
        } else {
            Err(AppError::InvalidCredentials)
        },
        None => Err(AppError::InvalidCredentials),
    }
}

/// Whose login this is, given what the lookup of the account number gave.
pub open spec fn login_subject(
    looked_up: Result<Option<User>, StorageFailure>,
    account_number: Seq<char>,
    ifsc: Seq<char>,
) -> Result<u128, AppError> {
    match looked_up {
        Ok(found) => credentials_match(found, account_number, ifsc),
        Err(failure) => Err(AppError::Storage(failure)),
    }
}

/// The result of a login at the instant `now`.
pub open spec fn logged_in(
    looked_up: Result<Option<User>, StorageFailure>,
    account_number: Seq<char>,
    ifsc: Seq<char>,
    secret: Seq<char>,
    now: i64,
) -> Result<Seq<char>, AppError> {
    match login_subject(looked_up, account_number, ifsc) {
        Ok(id) => issued_token(id, now, secret),
        Err(e) => Err(e),
    }
}

/// A login response or an error, with the token as a sequence of characters.
pub open spec fn response_view(response: Result<LoginResponse, AppError>) -> Result<
    Seq<char>,
    AppError,
> {
    match response {
        Ok(body) => Ok(body.token@),
        Err(e) => Err(e),
    }
}

/// Compares the presented account number and routing code with those of
/// the identity that the lookup of the account number found.
pub fn check_credentials(found: &Option<User>, payload: &LoginPayload) -> (subject: Result<
    u128,
    AppError,
>)
    ensures
        subject == credentials_match(*found, payload.account_number@, payload.ifsc@),
{
    match found {
        Some(user) => if same_text(user.account_number.as_str(), payload.account_number.as_str())
            && same_text(user.ifsc_code.as_str(), payload.ifsc.as_str()) {
            Ok(user.id)
        } else {
            Err(AppError::InvalidCredentials)
        },
        None => Err(AppError::InvalidCredentials),
    }
}

/// Decides whose login this is. `looked_up` is what the store gave for the
/// account number of `payload`.
pub fn identify(looked_up: &Result<Option<User>, StorageFailure>, payload: &LoginPayload) -> (subject:
    Result<u128, AppError>)
    ensures
        subject == login_subject(*looked_up, payload.account_number@, payload.ifsc@),
{
    match looked_up {
        Ok(found) => check_credentials(found, payload),
        Err(failure) => Err(AppError::Storage(*failure)),
    }
}

/// Logs in at the instant `now`: checks the credentials and issues the
/// token of the identity. The login succeeds exactly where the credentials
/// match and the token's expiry can be written down.
pub fn login_at(
    looked_up: &Result<Option<User>, StorageFailure>,
    payload: &LoginPayload,
    jwt_secret: &str,
    now: i64,
) -> (response: Result<LoginResponse, AppError>)
    ensures
        response_view(response) == logged_in(
            *looked_up,
            payload.account_number@,
            payload.ifsc@,
            jwt_secret@,
            now,
        ),
        response is Ok <==> login_subject(*looked_up, payload.account_number@, payload.ifsc@)
            is Ok && expiry_of(now) is Some,
{
    match identify(looked_up, payload) {
        Ok(id) => match create_jwt_at(id, now, jwt_secret) {
            Ok(token) => Ok(LoginResponse { token }),
            Err(e) => Err(e),
        },
        Err(e) => Err(e),
    }
}

/// Logs in now. The login succeeds exactly where the credentials match;
/// the result is that of `login_at` for the clock's reading, and without
/// matching credentials no token is issued.
pub fn login(
    looked_up: &Result<Option<User>, StorageFailure>,
    payload: &LoginPayload,
    jwt_secret: &str,
) -> (response: Result<LoginResponse, AppError>)
    ensures
        exists|now: i64|
            is_clock_reading(now) && response_view(response) == #[trigger] logged_in(
                *looked_up,
                payload.account_number@,
                payload.ifsc@,
                jwt_secret@,
                now,
            ),
        response is Ok <==> login_subject(*looked_up, payload.account_number@, payload.ifsc@)
            is Ok,
        login_subject(*looked_up, payload.account_number@, payload.ifsc@) matches Err(e)
            ==> response == Err::<LoginResponse, AppError>(e),
{
    match identify(looked_up, payload) {
        Ok(id) => {
            let issued = create_jwt(id, jwt_secret);
            proof {
                let now = choose|now: i64|
                    {
                        &&& is_clock_reading(now)
                        &&& crate::token::token_view(issued) == #[trigger] issued_token(
                            id,
                            now,
                            jwt_secret@,
                        )
                        &&& issued matches Ok(token) ==> crate::token::decodes_to(
                            token@,
                            jwt_secret@,
                            crate::token::Claims {
                                sub: id,
                                exp: (now + crate::token::TOKEN_LIFETIME_SECS) as i64,
                            },
                        )
                    };
                assert(crate::token::token_view(issued) == logged_in(
                    *looked_up,
                    payload.account_number@,
                    payload.ifsc@,
                    jwt_secret@,
                    now,
                ));
            }
            match issued {
                Ok(token) => Ok(LoginResponse { token }),
                Err(e) => Err(e),
            }
        },
        Err(e) => {
            assert(Err::<Seq<char>, AppError>(e) == logged_in(
                *looked_up,
                payload.account_number@,
                payload.ifsc@,
                jwt_secret@,
                0i64,
            ));
            Err(e)
        },
    }
}

/// A login with a wrong routing code and a login with an unknown account
/// number end in the same error, with the same status and the same text:
/// the answer does not tell which accounts exist.
pub proof fn lemma_login_failures_are_alike(
    user: User,
    account_number: Seq<char>,
    unknown: Seq<char>,
    ifsc: Seq<char>,
)
    requires
        user.ifsc_code@ != ifsc,
    ensures
        credentials_match(Some(user), account_number, ifsc) == credentials_match(
            None,
            unknown,
            ifsc,
        ),
        credentials_match(None, unknown, ifsc) == Err::<u128, AppError>(
            AppError::InvalidCredentials,
        ),
        AppError::InvalidCredentials.status() == crate::error::STATUS_UNAUTHORIZED,
{
}

/// A login succeeds for one identity only: the one that was found, and
/// that has the presented account number and routing code.
pub proof fn lemma_login_names_the_identity(
    found: Option<User>,
    account_number: Seq<char>,
    ifsc: Seq<char>,
)
    ensures
        credentials_match(found, account_number, ifsc) matches Ok(id) ==> found matches Some(user)
            && user.id == id && user.account_number@ == account_number && user.ifsc_code@ == ifsc,
{
}

} // verus!
