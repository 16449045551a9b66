//! The session guard: from the authorization header of a request to the
//! identity that the request acts for.
//!
//! The guard works in two steps around one lookup in the identity store:
//! `authenticate` reads the header and verifies the token, and names the
//! subject to look up; `authorize` takes what the lookup found.

use crate::clock::is_clock_reading;
use crate::error::{AppError, AuthFailure, StorageFailure};
use crate::model::User;
use crate::text::same_text;
use crate::token::{decode_jwt_at, jwt_decoding, verification_outcome, Claims};
use vstd::prelude::*;
use vstd::string::*;

verus! {

/// The number of characters of the prefix `Bearer `.
pub const BEARER_PREFIX_LEN: usize = 7;

/// An authorization header of the form `Bearer <token>`.
pub open spec fn has_bearer_prefix(header: Seq<char>) -> bool {
    &&& header.len() >= BEARER_PREFIX_LEN
    &&& header.subrange(0, BEARER_PREFIX_LEN as int) == "Bearer "@
}

/// The token of an authorization header: what follows the prefix.
pub open spec fn bearer_token_of(header: Option<Seq<char>>) -> Result<Seq<char>, AppError> {
    match header {
        None => Err(AppError::Auth(AuthFailure::MissingHeader)),
        Some(text) => if has_bearer_prefix(text) {
            Ok(text.subrange(BEARER_PREFIX_LEN as int, text.len() as int))
        } else {
            Err(AppError::Auth(AuthFailure::InvalidHeaderFormat))
        },
    }
}

/// An optional header as a sequence of characters.
pub open spec fn header_view(header: Option<&str>) -> Option<Seq<char>> {
    match header {
        Some(text) => Some(text@),
        None => None,
    }
}

/// A token or an error, with the token as a sequence of characters.
pub open spec fn bearer_view(token: Result<&str, AppError>) -> Result<Seq<char>, AppError> {
    match token {
        Ok(text) => Ok(text@),
        Err(e) => Err(e),
    }
}

/// The first step of the guard at the instant `now`: a header without a
/// token is refused before anything is decoded, and a token is put to
/// verification.
pub open spec fn authenticated(header: Option<Seq<char>>, secret: Seq<char>, now: int) -> Result<
    Claims,
    AppError,
> {
    match bearer_token_of(header) {
        Ok(token) => verification_outcome(jwt_decoding(token, secret), now),
        Err(e) => Err(e),
    }
}

/// The second step of the guard: the identity that was found under the
/// subject's id is the one that the request acts for. A valid token whose
/// subject was not found authorizes nothing.
pub open spec fn authorized(claims: Claims, looked_up: Result<Option<User>, StorageFailure>) -> Result<
    User,
    AppError,
> {
    match looked_up {
        Ok(Some(user)) => if user.id == claims.sub {
            Ok(user)
        } else {
            Err(AppError::Auth(AuthFailure::SubjectNotFound))
        },
        Ok(None) => Err(AppError::Auth(AuthFailure::SubjectNotFound)),
        Err(failure) => Err(AppError::Storage(failure)),
    }
}

/// Takes the token out of an authorization header. `None` stands for a
/// request without a readable header.
pub fn bearer_token<'a>(header: Option<&'a str>) -> (token: Result<&'a str, AppError>)
    ensures
        bearer_view(token) == bearer_token_of(header_view(header)),
{
    match header {
        None => Err(AppError::Auth(AuthFailure::MissingHeader)),
        Some(text) => {
            proof {
                reveal_strlit("Bearer ");
            }
            let n: usize = text.unicode_len();
            if n >= BEARER_PREFIX_LEN && same_text(
                text.substring_char(0, BEARER_PREFIX_LEN),
                "Bearer ",
            ) {
                Ok(text.substring_char(BEARER_PREFIX_LEN, n))
            } else {
                Err(AppError::Auth(AuthFailure::InvalidHeaderFormat))
            }
        },
    }
}

/// The first step of the guard, at the instant `now`.
pub fn authenticate_at(header: Option<&str>, jwt_secret: &str, now: i64) -> (claims: Result<
    Claims,
    AppError,
>)
    ensures
        claims == authenticated(header_view(header), jwt_secret@, now as int),
{
    match bearer_token(header) {
        Ok(token) => decode_jwt_at(token, jwt_secret, now),
        Err(e) => Err(e),
    }
}

/// The first step of the guard, now. The result is that of
/// `authenticate_at` for the clock's reading. On success the subject of
/// the claims is to be looked up in the identity store.
pub fn authenticate(header: Option<&str>, jwt_secret: &str) -> (claims: Result<Claims, AppError>)
    ensures
        exists|now: i64|
            is_clock_reading(now) && claims == #[trigger] authenticated(
                header_view(header),
                jwt_secret@,
                now as int,
            ),
        bearer_token_of(header_view(header)) matches Err(e) ==> claims == Err::<Claims, AppError>(e),
        claims matches Err(e) ==> e is Auth,
{
    match bearer_token(header) {
        Ok(token) => {
            let claims = crate::token::decode_jwt(token, jwt_secret);
            proof {
                let now = choose|now: i64|
                    is_clock_reading(now) && claims == #[trigger] verification_outcome(
                        jwt_decoding(token@, jwt_secret@),
                        now as int,
                    );
                assert(claims == authenticated(header_view(header), jwt_secret@, now as int));
            }
            claims
        },
        Err(e) => {
            assert(Err::<Claims, AppError>(e) == authenticated(
                header_view(header),
                jwt_secret@,
                0i64 as int,
            ));
            Err(e)
        },
    }
}

/// The second step of the guard: takes what the lookup of the subject
/// found, and hands out the identity that the request acts for.
pub fn authorize(claims: Claims, looked_up: Result<Option<User>, StorageFailure>) -> (identity:
    Result<User, AppError>)
    ensures
        identity == authorized(claims, looked_up),
{
    match looked_up {
        Ok(Some(user)) => if user.id == claims.sub {
            Ok(user)
        } else {
            Err(AppError::Auth(AuthFailure::SubjectNotFound))
        },
        Ok(None) => Err(AppError::Auth(AuthFailure::SubjectNotFound)),
        Err(failure) => Err(AppError::Storage(failure)),
    }
}

/// A request without a header, with a header that lacks the `Bearer `
/// prefix, or with a token that signature checking refuses is answered
/// with 401 by the first step, at any instant: it names no subject, so the
/// identity store is never asked.
pub proof fn lemma_unauthenticated_is_rejected_first(
    header: Option<Seq<char>>,
    secret: Seq<char>,
    now: int,
)
    ensures
        header is None ==> authenticated(header, secret, now) == Err::<Claims, AppError>(
            AppError::Auth(AuthFailure::MissingHeader),
        ),
        header matches Some(text) ==> (!has_bearer_prefix(text) ==> authenticated(
            header,
            secret,
            now,
        ) == Err::<Claims, AppError>(AppError::Auth(AuthFailure::InvalidHeaderFormat))),
        bearer_token_of(header) matches Ok(token) ==> (jwt_decoding(token, secret) is Err
            ==> authenticated(header, secret, now) is Err),
        authenticated(header, secret, now) matches Err(e) ==> e is Auth && e.status()
            == crate::error::STATUS_UNAUTHORIZED,
{
}

/// Only the subject of the token is authorized: the identity that the
/// guard hands out has the subject's id, and a valid token whose subject is
/// not in the store is answered with 401.
pub proof fn lemma_only_the_subject_is_authorized(
    claims: Claims,
    looked_up: Result<Option<User>, StorageFailure>,
)
    ensures
        authorized(claims, looked_up) matches Ok(user) ==> user.id == claims.sub && looked_up
            == Ok::<Option<User>, StorageFailure>(Some(user)),
        authorized(claims, Ok(None)) == Err::<User, AppError>(
            AppError::Auth(AuthFailure::SubjectNotFound),
        ),
        AppError::Auth(AuthFailure::SubjectNotFound).status() == crate::error::STATUS_UNAUTHORIZED,
{
}

} // verus!
