//! The three operations of the service, run against the in-memory identity
//! store: registration, login, and the read of one's own redacted identity.
//!
//! Here the store answers at once, and the reply of the verification
//! service is an argument: what the service would answer if asked.

use crate::bank_api::{verification_result, VerifierReply};
use crate::error::{AppError, AuthFailure};
use crate::ids::fresh_user_id;
use crate::login::{credentials_match, logged_in, response_view};
use crate::model::{LoginPayload, LoginResponse, NewUser, RegisterUserPayload, User};
use crate::redact::{masked_user_info, MaskedUserInfo};
use crate::registration::{
    start,
    started,
    step_with_id,
    stepped,
    RegistrationAction,
    RegistrationEvent,
};
use crate::session::{authenticate, authenticated, authorize, header_view};
use crate::store::{
    distinct_identities,
    holds_account,
    holds_id,
    insertion,
    is_lookup_by_account,
    lemma_insertion,
    IdentityStore,
};
use crate::clock::{is_clock_reading, unix_now};
use crate::validation::{account_number_length_ok, ifsc_format, registration_check};
use vstd::prelude::*;
use vstd::string::*;

verus! {

/// Every record has an account number of an accepted length and a routing
/// code of the fixed format.
pub open spec fn validated_identities(records: Seq<User>) -> bool {
    forall|i: int|
        0 <= i < records.len() ==> account_number_length_ok(
            (#[trigger] records[i]).account_number@,
        ) && ifsc_format(records[i].ifsc_code@)
}

/// What a registration does to the records of the store, and what it
/// answers, where `reply` is the verification service's reply, `fresh_id`
/// the id for the new identity and `created_at` its creation time:
/// an invalid input, a taken account number and an unverified routing code
/// are refused in this order and leave the records as they are; else the
/// identity is appended, unless the store refuses its id.
pub open spec fn registration_result(
    records: Seq<User>,
    payload: RegisterUserPayload,
    reply: VerifierReply,
    fresh_id: u128,
    created_at: i64,
) -> (Seq<User>, Result<u128, AppError>) {
    match registration_check(payload.account_number@, payload.ifsc@) {
        Err(e) => (records, Err(e)),
        Ok(_) => if holds_account(records, payload.account_number@) {
            (records, Err(AppError::Conflict))
        } else {
            match verification_result(reply) {
                Err(e) => (records, Err(e)),
                Ok(bank) => if holds_id(records, fresh_id) {
                    (records, Err(AppError::Conflict))
                } else {
                    (
                        records.push(
                            NewUser::assembled(fresh_id, payload, bank).stored(created_at),
                        ),
                        Ok(fresh_id),
                    )
                },
            }
        },
    }
}

/// The answer that an action carries; an action that is no answer stands
/// for an internal error.
pub open spec fn answer_of(action: RegistrationAction) -> Result<u128, AppError> {
    match action {
        RegistrationAction::Respond(answer) => answer,
        _ => Err(AppError::Internal),
    }
}

/// The registration state machine, driven against `records`: each action
/// is performed on the records, or answered with `reply`, and its outcome
/// is the next event.
pub open spec fn machine_run(
    records: Seq<User>,
    payload: RegisterUserPayload,
    reply: VerifierReply,
    fresh_id: u128,
    created_at: i64,
) -> (Seq<User>, Result<u128, AppError>) {
    let first = started(payload);
    match first.1 {
        RegistrationAction::CheckAccount(account_number) => {
            let taken = holds_account(records, account_number@);
            let second = stepped(first.0, RegistrationEvent::AccountChecked(Ok(taken)), fresh_id);
            match second.1 {
                RegistrationAction::VerifyRoutingCode(_) => {
                    let third = stepped(
                        second.0,
                        RegistrationEvent::VerifierReplied(reply),
                        fresh_id,
                    );
                    match third.1 {
                        RegistrationAction::InsertUser(row) => {
                            let inserted = insertion(records, row, created_at);
                            let last = stepped(
                                third.0,
                                RegistrationEvent::Inserted(inserted.1),
                                fresh_id,
                            );
                            (inserted.0, answer_of(last.1))
                        },
                        other => (records, answer_of(other)),
                    }
                },
                other => (records, answer_of(other)),
            }
        },
        other => (records, answer_of(other)),
    }
}

fn answer(action: RegistrationAction) -> (answer: Result<u128, AppError>)
    ensures
        answer == answer_of(action),
{
    match action {
        RegistrationAction::Respond(answer) => answer,
        _ => Err(AppError::Internal),
    }
}

/// Driving the state machine against the records gives the registration
/// result.
pub proof fn lemma_machine_run(
    records: Seq<User>,
    payload: RegisterUserPayload,
    reply: VerifierReply,
    fresh_id: u128,
    created_at: i64,
)
    ensures
        machine_run(records, payload, reply, fresh_id, created_at) == registration_result(
            records,
            payload,
            reply,
            fresh_id,
            created_at,
        ),
{
}

/// Registers an identity with the given id and creation time.
pub fn register_with(
    store: &mut IdentityStore,
    payload: RegisterUserPayload,
    reply: VerifierReply,
    fresh_id: u128,
    created_at: i64,
) -> (answer: Result<u128, AppError>)
    requires
        old(store).wf(),
    ensures
        final(store).wf(),
        (final(store).records(), answer) == registration_result(
            old(store).records(),
            payload,
            reply,
            fresh_id,
            created_at,
        ),
{
    proof {
        lemma_machine_run(store.records(), payload, reply, fresh_id, created_at);
    }
    let first = start(payload);
    match first.1 {
        RegistrationAction::CheckAccount(account_number) => {
            let taken = store.exists_by_account_number(account_number.as_str());
            let second = step_with_id(first.0, RegistrationEvent::AccountChecked(Ok(taken)), fresh_id);
            match second.1 {
                RegistrationAction::VerifyRoutingCode(_) => {
                    let third = step_with_id(
                        second.0,
                        RegistrationEvent::VerifierReplied(reply),
                        fresh_id,
                    );
                    match third.1 {
                        RegistrationAction::InsertUser(row) => {
                            let inserted = store.insert(row, created_at);
                            let last = step_with_id(
                                third.0,
                                RegistrationEvent::Inserted(inserted),
                                fresh_id,
                            );
                            answer(last.1)
                        },
                        other => answer(other),
                    }
                },
                other => answer(other),
            }
        },
        other => answer(other),
    }
}

/// Registers an identity, with a random id and the clock's reading as its
/// creation time: the result is that of `register_with` for some id and
/// for the reading.
pub fn register(store: &mut IdentityStore, payload: RegisterUserPayload, reply: VerifierReply) -> (answer:
    Result<u128, AppError>)
    requires
        old(store).wf(),
    ensures
        final(store).wf(),
        exists|fresh_id: u128, created_at: i64|
            is_clock_reading(created_at) && (final(store).records(), answer)
                == #[trigger] registration_result(
                old(store).records(),
                payload,
                reply,
                fresh_id,
                created_at,
            ),
{
    let fresh_id: u128 = fresh_user_id();
    let created_at: i64 = unix_now();
    let answer = register_with(store, payload, reply, fresh_id, created_at);
    assert((store.records(), answer) == registration_result(
        old(store).records(),
        payload,
        reply,
        fresh_id,
        created_at,
    ));
    answer
}

/// Logs in: looks the account number up, and hands the rest to
/// `crate::login::login`. The login succeeds exactly where the identity
/// that the lookup gives has the presented account number and routing
/// code; the answer is the login result for the lookup and the clock's
/// reading.
pub fn login(store: &IdentityStore, payload: &LoginPayload, jwt_secret: &str) -> (response: Result<
    LoginResponse,
    AppError,
>)
    ensures
        exists|found: Option<User>, now: i64|
            {
                &&& is_lookup_by_account(store.records(), payload.account_number@, found)
                &&& is_clock_reading(now)
                &&& response_view(response) == #[trigger] logged_in(
                    Ok(found),
                    payload.account_number@,
                    payload.ifsc@,
                    jwt_secret@,
                    now,
                )
                &&& response is Ok <==> credentials_match(
                    found,
                    payload.account_number@,
                    payload.ifsc@,
                ) is Ok
            },
        !holds_account(store.records(), payload.account_number@) ==> response == Err::<
            LoginResponse,
            AppError,
        >(AppError::InvalidCredentials),
{
    let found = store.find_by_account_number(payload.account_number.as_str());
    let looked_up = Ok(found);
    let response = crate::login::login(&looked_up, payload, jwt_secret);
    proof {
        let now = choose|now: i64|
            is_clock_reading(now) && response_view(response) == #[trigger] logged_in(
                looked_up,
                payload.account_number@,
                payload.ifsc@,
                jwt_secret@,
                now,
            );
        assert(response_view(response) == logged_in(
            Ok(found),
            payload.account_number@,
            payload.ifsc@,
            jwt_secret@,
            now,
        ));
    }
    response
}

/// `answer` is what the protected read gives at the instant `now`: the
/// guard's refusal; or a refusal because the token's subject is not in the
/// records; or the redacted view of the record with the subject's id.
pub open spec fn is_user_info(
    records: Seq<User>,
    header: Option<Seq<char>>,
    secret: Seq<char>,
    now: int,
    answer: Result<MaskedUserInfo, AppError>,
) -> bool {
    match authenticated(header, secret, now) {
        Err(e) => answer == Err::<MaskedUserInfo, AppError>(e),
        Ok(claims) => if holds_id(records, claims.sub) {
            answer matches Ok(info) && exists|i: int|
                0 <= i < records.len() && (#[trigger] records[i]).id == claims.sub
                    && info.is_redaction_of(records[i])
        } else {
            answer == Err::<MaskedUserInfo, AppError>(AppError::Auth(AuthFailure::SubjectNotFound))
        },
    }
}

/// The protected read: resolves the authorization header to an identity
/// of the store, and hands out its redacted view.
pub fn user_info(store: &IdentityStore, header: Option<&str>, jwt_secret: &str) -> (answer: Result<
    MaskedUserInfo,
    AppError,
>)
    ensures
        exists|now: i64|
            is_clock_reading(now) && #[trigger] is_user_info(
                store.records(),
                header_view(header),
                jwt_secret@,
                now as int,
                answer,
            ),
{
    let claims = authenticate(header, jwt_secret);
    let ghost now = choose|now: i64|
        is_clock_reading(now) && claims == #[trigger] authenticated(
            header_view(header),
            jwt_secret@,
            now as int,
        );
    match claims {
        Err(e) => {
            assert(is_user_info(
                store.records(),
                header_view(header),
                jwt_secret@,
                now as int,
                Err::<MaskedUserInfo, AppError>(e),
            ));
            Err(e)
        },
        Ok(claims) => {
            let found = store.find_by_id(claims.sub);
            match authorize(claims, Ok(found)) {
                Ok(user) => {
                    let info = masked_user_info(&user);
                    proof {
                        let i = choose|i: int|
                            0 <= i < store.records().len() && store.records()[i] == user;
                        assert(store.records()[i].id == claims.sub);
                        assert(is_user_info(
                            store.records(),
                            header_view(header),
                            jwt_secret@,
                            now as int,
                            Ok::<MaskedUserInfo, AppError>(info),
                        ));
                    }
                    Ok(info)
                },
                Err(e) => {
                    assert(is_user_info(
                        store.records(),
                        header_view(header),
                        jwt_secret@,
                        now as int,
                        Err::<MaskedUserInfo, AppError>(e),
                    ));
                    Err(e)
                },
            }
        },
    }
}

/// Once an account number is registered, every further registration of it
/// ends in a conflict (409), whatever routing code it names and whatever
/// the verification service would reply, as long as the input passes
/// validation.
pub proof fn lemma_second_registration_conflicts(
    records: Seq<User>,
    first: RegisterUserPayload,
    first_reply: VerifierReply,
    first_id: u128,
    first_time: i64,
    second: RegisterUserPayload,
    second_reply: VerifierReply,
    second_id: u128,
    second_time: i64,
)
    requires
        distinct_identities(records),
        registration_result(records, first, first_reply, first_id, first_time).1 is Ok,
        second.account_number@ == first.account_number@,
        ifsc_format(second.ifsc@),
    ensures
        registration_result(
            registration_result(records, first, first_reply, first_id, first_time).0,
            second,
            second_reply,
            second_id,
            second_time,
        ).1 == Err::<u128, AppError>(AppError::Conflict),
        AppError::Conflict.status() == crate::error::STATUS_CONFLICT,
{
    let after = registration_result(records, first, first_reply, first_id, first_time).0;
    assert(after[records.len() as int].account_number@ == first.account_number@);
    assert(holds_account(after, second.account_number@));
}

/// A registration keeps the store's invariant, and keeps all records
/// validated where they were; one that fails leaves the records as they
/// were; one that succeeds appends exactly one identity, which has the
/// answered id and the validated account number and routing code.
pub proof fn lemma_registration_is_atomic(
    records: Seq<User>,
    payload: RegisterUserPayload,
    reply: VerifierReply,
    fresh_id: u128,
    created_at: i64,
)
    requires
        distinct_identities(records),
    ensures
        distinct_identities(registration_result(records, payload, reply, fresh_id, created_at).0),
        validated_identities(records) ==> validated_identities(
            registration_result(records, payload, reply, fresh_id, created_at).0,
        ),
        registration_result(records, payload, reply, fresh_id, created_at).1 is Err
            ==> registration_result(records, payload, reply, fresh_id, created_at).0 == records,
        registration_result(records, payload, reply, fresh_id, created_at).1 matches Ok(id) ==> {
            let after = registration_result(records, payload, reply, fresh_id, created_at).0;
            &&& id == fresh_id
            &&& after.len() == records.len() + 1
            &&& after.subrange(0, records.len() as int) == records
            &&& after[records.len() as int].id == id
            &&& after[records.len() as int].account_number == payload.account_number
            &&& after[records.len() as int].ifsc_code == payload.ifsc
            &&& account_number_length_ok(payload.account_number@)
            &&& ifsc_format(payload.ifsc@)
            &&& verification_result(reply) is Ok
        },
{
    if registration_result(records, payload, reply, fresh_id, created_at).1 is Ok {
        let bank = verification_result(reply)->Ok_0;
        let row = NewUser::assembled(fresh_id, payload, bank);
        lemma_insertion(records, row, created_at);
        assert(insertion(records, row, created_at).0 == registration_result(
            records,
            payload,
            reply,
            fresh_id,
            created_at,
        ).0);
    }
}

} // verus!
