//! Session tokens: signed, self-contained, and valid for a day.
//!
//! A token carries the id of its subject and the instant at which it
//! expires. Signing and signature checking are `jsonwebtoken`'s; the expiry
//! rule is stated and checked here, against a clock reading that the caller
//! of the `_at` functions supplies.
//!
//! What is believed of `jsonwebtoken` is named by `jwt_encoding` and
//! `jwt_decoding`, with two facts beside the names: signing with a secret
//! always gives a token, and that token decodes under the same secret to the
//! claims it was made of, where the expiry is not negative.

use crate::clock::{is_clock_reading, unix_now};
use crate::error::{AppError, AuthFailure, TokenFault};
use crate::ids::{hyphenated_text, parse_uuid, uuid_parsed, uuid_to_text};
use crate::text::text_of;
use vstd::prelude::*;
use vstd::string::*;

verus! {

/// How long a token lives, in seconds.
pub const TOKEN_LIFETIME_SECS: i64 = 86_400;

/// What a token states: its subject's id, and the second, counted from the
/// Unix epoch, through which it is valid.
#[derive(Clone, Copy, Debug, PartialEq, Eq, Structural)]
pub struct Claims {
    pub sub: u128,
    pub exp: i64,
}

/// The two claims as a token's payload holds them, before they are read:
/// the `sub` claim where it is a text, the `exp` claim where it is a signed
/// 64-bit integer.
#[derive(Clone, Debug, PartialEq, Eq)]
pub struct RawClaims {
    pub sub: Option<String>,
    pub exp: Option<i64>,
}

/// Why `jsonwebtoken` did not hand out a token's payload.
#[derive(Clone, Copy, Debug, PartialEq, Eq, Structural)]
pub enum DecodeFailure {
    /// The signature is not that of the token's header and payload.
    InvalidSignature,
    /// The token is not one: wrong shape, encoding, algorithm or claims.
    Other,
}

/// The HS256 token that `jsonwebtoken` makes of the claims `sub` and `exp`
/// under `secret`, or `None` where it makes none.
pub uninterp spec fn jwt_encoding(sub: Seq<char>, exp: i64, secret: Seq<char>) -> Option<Seq<char>>;

/// What `jsonwebtoken` finds in `token` under `secret` when it checks the
/// signature and the presence of `exp`, but not the clock: the two claims,
/// or the reason why the token is refused.
pub uninterp spec fn jwt_decoding(token: Seq<char>, secret: Seq<char>) -> Result<
    (Option<Seq<char>>, Option<i64>),
    DecodeFailure,
>;

/// A decoding result with its texts as sequences of characters.
pub open spec fn raw_view(decoded: Result<RawClaims, DecodeFailure>) -> Result<
    (Option<Seq<char>>, Option<i64>),
    DecodeFailure,
> {
    match decoded {
        Ok(raw) => Ok((text_of(raw.sub), raw.exp)),
        Err(failure) => Err(failure),
    }
}

/// `jsonwebtoken::encode` with the default header (HS256), the claims
/// object `{sub, exp}` as a `serde_json::Map`, and `secret` as the key. The
/// contract names the token, and states two facts that the source of
/// `jsonwebtoken` shows:
/// - a token is always made: the key is of the header's family, the header
///   and a JSON object of a text and an integer are always written, and
///   signing with HMAC does not fail;
/// - `jsonwebtoken::decode`, as `read_signed_claims` calls it, accepts this
///   token under the same secret and finds both claims in it, where `exp`
///   is not negative: it signs header and payload again and compares, and
///   reads `exp` as an unsigned number.
#[verifier::external_body]
fn sign_claims(sub: &str, exp: i64, secret: &str) -> (token: Option<String>)
    ensures
        token is Some,
        text_of(token) == jwt_encoding(sub@, exp, secret@),
        token matches Some(text) ==> (exp >= 0 ==> jwt_decoding(text@, secret@) == Ok::<
            (Option<Seq<char>>, Option<i64>),
            DecodeFailure,
        >((Some(sub@), Some(exp)))),
{
    let mut claims = serde_json::Map::new();
    claims.insert("sub".to_string(), serde_json::Value::from(sub));
    claims.insert("exp".to_string(), serde_json::Value::from(exp));
    let key = jsonwebtoken::EncodingKey::from_secret(secret.as_bytes());
    jsonwebtoken::encode(&jsonwebtoken::Header::default(), &claims, &key).ok()
}

/// `jsonwebtoken::decode` with `secret` as the key and the default
/// validation for HS256, but for `validate_exp`, which is off: the signature
/// is checked and `exp` must be there, and the clock is not read. The
/// payload is taken as a `serde_json::Value`, of which `sub` is handed out
/// where it is a text and `exp` where it fits an `i64`; of the errors only
/// `InvalidSignature` is told apart. The contract only names the result.
#[verifier::external_body]
fn read_signed_claims(token: &str, secret: &str) -> (decoded: Result<RawClaims, DecodeFailure>)
    ensures
        raw_view(decoded) == jwt_decoding(token@, secret@),
{
    let mut validation = jsonwebtoken::Validation::new(jsonwebtoken::Algorithm::HS256);
    validation.validate_exp = false;
    let key = jsonwebtoken::DecodingKey::from_secret(secret.as_bytes());
    match jsonwebtoken::decode::<serde_json::Value>(token, &key, &validation) {
        Ok(data) => Ok(RawClaims {
            sub: data.claims["sub"].as_str().map(str::to_owned),
            exp: data.claims["exp"].as_i64(),
        }),
        Err(e) => match e.kind() {
            jsonwebtoken::errors::ErrorKind::InvalidSignature => Err(DecodeFailure::InvalidSignature),
            _ => Err(DecodeFailure::Other),
        },
    }
}

/// The expiry of a token issued at `issued_at`: a lifetime later, where that
/// instant can be written down.
pub open spec fn expiry_of(issued_at: i64) -> Option<i64> {
    if issued_at + TOKEN_LIFETIME_SECS <= i64::MAX {
        Some((issued_at + TOKEN_LIFETIME_SECS) as i64)
    } else {
        None
    }
}

/// A token is valid through the second of its expiry, and expired after it.
pub open spec fn is_expired(exp: i64, now: int) -> bool {
    exp < now
}

/// The claims of a token whose payload was read: both claims must be there,
/// and the expiry must not have passed.
pub open spec fn claims_check(subject: Option<u128>, exp: Option<i64>, now: int) -> Result<
    Claims,
    TokenFault,
> {
    match (subject, exp) {
        (Some(sub), Some(exp)) => if is_expired(exp, now) {
            Err(TokenFault::Expired)
        } else {
            Ok(Claims { sub, exp })
        },
        _ => Err(TokenFault::Malformed),
    }
}

/// The subject id that a payload's `sub` claim stands for.
pub open spec fn subject_of(sub: Option<Seq<char>>) -> Option<u128> {
    match sub {
        Some(text) => uuid_parsed(text),
        None => None,
    }
}

/// What verification makes of a decoding result at the instant `now`.
pub open spec fn verification_outcome(
    decoded: Result<(Option<Seq<char>>, Option<i64>), DecodeFailure>,
    now: int,
) -> Result<Claims, AppError> {
    match decoded {
        Err(DecodeFailure::InvalidSignature) => Err(
            AppError::Auth(AuthFailure::InvalidToken(TokenFault::BadSignature)),
        ),
        Err(DecodeFailure::Other) => Err(
            AppError::Auth(AuthFailure::InvalidToken(TokenFault::Malformed)),
        ),
        Ok((sub, exp)) => match claims_check(subject_of(sub), exp, now) {
            Ok(claims) => Ok(claims),
            Err(fault) => Err(AppError::Auth(AuthFailure::InvalidToken(fault))),
        },
    }
}

/// Decoding `token` under `secret` gives these claims: a subject text that
/// reads as the subject's id, and the expiry.
pub open spec fn decodes_to(token: Seq<char>, secret: Seq<char>, claims: Claims) -> bool {
    jwt_decoding(token, secret) matches Ok((sub, exp)) && subject_of(sub) == Some(claims.sub)
        && exp == Some(claims.exp)
}

/// What issuing makes of a signing result.
pub open spec fn issue_outcome(signed: Option<Seq<char>>) -> Result<Seq<char>, AppError> {
    match signed {
        Some(token) => Ok(token),
        None => Err(AppError::Auth(AuthFailure::TokenCreation)),
    }
}

/// The token issued to `user_id` at `issued_at` under `secret`.
pub open spec fn issued_token(user_id: u128, issued_at: i64, secret: Seq<char>) -> Result<
    Seq<char>,
    AppError,
> {
    match expiry_of(issued_at) {
        Some(exp) => issue_outcome(jwt_encoding(hyphenated_text(user_id), exp, secret)),
        None => Err(AppError::Auth(AuthFailure::TokenCreation)),
    }
}

/// A token or an error, with the token as a sequence of characters.
pub open spec fn token_view(issued: Result<String, AppError>) -> Result<Seq<char>, AppError> {
    match issued {
        Ok(token) => Ok(token@),
        Err(e) => Err(e),
    }
}

/// The expiry of a token issued at `issued_at`.
pub fn expiry_after(issued_at: i64) -> (expiry: Option<i64>)
    ensures
        expiry == expiry_of(issued_at),
{
    issued_at.checked_add(TOKEN_LIFETIME_SECS)
}

/// Reads the claims of a payload at the instant `now`: `Malformed` where a
/// claim is missing, `Expired` where `now` is past the expiry.
pub fn check_claims(subject: Option<u128>, exp: Option<i64>, now: i64) -> (checked: Result<
    Claims,
    TokenFault,
>)
    ensures
        checked == claims_check(subject, exp, now as int),
{
    match (subject, exp) {
        (Some(sub), Some(exp)) => if exp < now {
            Err(TokenFault::Expired)
        } else {
            Ok(Claims { sub, exp })
        },
        _ => Err(TokenFault::Malformed),
    }
}

/// Turns a signing result into the result of issuing.
pub fn issued_from(signed: Option<String>) -> (issued: Result<String, AppError>)
    ensures
        token_view(issued) == issue_outcome(text_of(signed)),
{
    match signed {
        Some(token) => Ok(token),
        None => Err(AppError::Auth(AuthFailure::TokenCreation)),
    }
}

/// Turns a decoding result into the result of verification at `now`: a
/// refused token keeps its reason, an accepted payload must hold a subject
/// id and an expiry that has not passed.
pub fn claims_from(decoded: Result<RawClaims, DecodeFailure>, now: i64) -> (verified: Result<
    Claims,
    AppError,
>)
    ensures
        verified == verification_outcome(raw_view(decoded), now as int),
{
    match decoded {
        Err(DecodeFailure::InvalidSignature) => Err(
            AppError::Auth(AuthFailure::InvalidToken(TokenFault::BadSignature)),
        ),
        Err(DecodeFailure::Other) => Err(
            AppError::Auth(AuthFailure::InvalidToken(TokenFault::Malformed)),
        ),
        Ok(raw) => {
            let subject = match &raw.sub {
                Some(text) => parse_uuid(text.as_str()),
                None => None,
            };
            match check_claims(subject, raw.exp, now) {
                Ok(claims) => Ok(claims),
                Err(fault) => Err(AppError::Auth(AuthFailure::InvalidToken(fault))),
            }
        },
    }
}

/// Issues the token of `user_id` at the instant `issued_at`. A token is
/// issued whenever its expiry, a day later, can be written down. Unless the
/// expiry is negative, verification under the same secret finds the
/// subject and the expiry in the token: it is accepted a minute before the
/// day has passed, and refused as expired a minute after it.
pub fn create_jwt_at(user_id: u128, issued_at: i64, jwt_secret: &str) -> (issued: Result<
    String,
    AppError,
>)
    ensures
        token_view(issued) == issued_token(user_id, issued_at, jwt_secret@),
        issued is Ok <==> expiry_of(issued_at) is Some,
        issued matches Ok(token) ==> (issued_at >= -TOKEN_LIFETIME_SECS ==> {
            let claims = Claims { sub: user_id, exp: (issued_at + TOKEN_LIFETIME_SECS) as i64 };
            &&& decodes_to(token@, jwt_secret@, claims)
            &&& verification_outcome(jwt_decoding(token@, jwt_secret@), issued_at + 86_340)
                == Ok::<Claims, AppError>(claims)
            &&& verification_outcome(jwt_decoding(token@, jwt_secret@), issued_at + 86_460)
                == Err::<Claims, AppError>(
                AppError::Auth(AuthFailure::InvalidToken(TokenFault::Expired)),
            )
        }),
{
    match expiry_after(issued_at) {
        Some(exp) => {
            let sub = uuid_to_text(user_id);
            issued_from(sign_claims(sub.as_str(), exp, jwt_secret))
        },
        None => Err(AppError::Auth(AuthFailure::TokenCreation)),
    }
}

/// Issues the token of `user_id` now. A token is always issued: it is that
/// of `create_jwt_at` for the clock's reading, and it decodes under the
/// same secret to the subject and to an expiry one day after the reading.
pub fn create_jwt(user_id: u128, jwt_secret: &str) -> (issued: Result<String, AppError>)
    ensures
        issued is Ok,
        exists|issued_at: i64|
            {
                &&& is_clock_reading(issued_at)
                &&& token_view(issued) == #[trigger] issued_token(user_id, issued_at, jwt_secret@)
                &&& issued matches Ok(token) ==> decodes_to(
                    token@,
                    jwt_secret@,
                    Claims { sub: user_id, exp: (issued_at + TOKEN_LIFETIME_SECS) as i64 },
                )
            },
{
    let issued_at: i64 = unix_now();
    let issued = create_jwt_at(user_id, issued_at, jwt_secret);
    assert(token_view(issued) == issued_token(user_id, issued_at, jwt_secret@));
    issued
}

/// Verifies `token` at the instant `now`: checks the signature, reads the
/// claims, and refuses an expired token.
pub fn decode_jwt_at(token: &str, jwt_secret: &str, now: i64) -> (verified: Result<
    Claims,
    AppError,
>)
    ensures
        verified == verification_outcome(jwt_decoding(token@, jwt_secret@), now as int),
{
    claims_from(read_signed_claims(token, jwt_secret), now)
}

/// Verifies `token` now. The result is that of `decode_jwt_at` for the
/// clock's reading; a token that `jsonwebtoken` refuses is refused, and
/// every failure is an `InvalidToken`.
pub fn decode_jwt(token: &str, jwt_secret: &str) -> (verified: Result<Claims, AppError>)
    ensures
        exists|now: i64|
            is_clock_reading(now) && verified == #[trigger] verification_outcome(
                jwt_decoding(token@, jwt_secret@),
                now as int,
            ),
        jwt_decoding(token@, jwt_secret@) is Err ==> verified is Err,
        verified matches Err(e) ==> e matches AppError::Auth(AuthFailure::InvalidToken(_)),
{
    let now: i64 = unix_now();
    let verified = decode_jwt_at(token, jwt_secret, now);
    assert(verified == verification_outcome(jwt_decoding(token@, jwt_secret@), now as int));
    verified
}

/// A token that decodes to the claims of a token issued to `subject` at
/// `issued_at` is accepted a minute before a day has passed, and refused as
/// expired a minute after it. `create_jwt_at` issues such a token.
pub proof fn lemma_token_lifetime(
    token: Seq<char>,
    secret: Seq<char>,
    subject: u128,
    issued_at: i64,
)
    requires
        expiry_of(issued_at) matches Some(exp) && decodes_to(
            token,
            secret,
            Claims { sub: subject, exp },
        ),
    ensures
        verification_outcome(jwt_decoding(token, secret), issued_at + 86_340) == Ok::<
            Claims,
            AppError,
        >(Claims { sub: subject, exp: expiry_of(issued_at)->0 }),
        verification_outcome(jwt_decoding(token, secret), issued_at + 86_460) == Err::<
            Claims,
            AppError,
        >(AppError::Auth(AuthFailure::InvalidToken(TokenFault::Expired))),
{
}

/// A token that decodes to `claims` is verified to exactly these claims up
/// to their expiry, and refused as expired from then on.
pub proof fn lemma_verification_of_decoded(
    token: Seq<char>,
    secret: Seq<char>,
    claims: Claims,
    now: int,
)
    requires
        decodes_to(token, secret, claims),
    ensures
        now <= claims.exp ==> verification_outcome(jwt_decoding(token, secret), now) == Ok::<
            Claims,
            AppError,
        >(claims),
        now > claims.exp ==> verification_outcome(jwt_decoding(token, secret), now) == Err::<
            Claims,
            AppError,
        >(AppError::Auth(AuthFailure::InvalidToken(TokenFault::Expired))),
{
}

/// A payload with both claims is accepted exactly up to its expiry, with
/// the claims it holds, and is refused as expired from then on.
pub proof fn lemma_valid_until_expiry(subject: u128, exp: i64, now: int)
    ensures
        now <= exp ==> claims_check(Some(subject), Some(exp), now) == Ok::<Claims, TokenFault>(
            Claims { sub: subject, exp },
        ),
        now > exp ==> claims_check(Some(subject), Some(exp), now) == Err::<Claims, TokenFault>(
            TokenFault::Expired,
        ),
{
}

} // verus!
