//! Registration, as a machine that a server drives: the form is checked, the
//! password is hashed, the account is written, and a session is opened.

use vstd::prelude::*;
use crate::config::SecurityConfig;
use crate::hash::{hash_password, verification, HashError};
use crate::ids::fresh_account_id;
use crate::login::{open_session, session_response};
use crate::models::RegisterPayload;
use crate::reply::{bare, refused, Reply, Response, ResponseView};
use crate::reset::digest_view;
use crate::text::{chars_of, contains_text, find_text};
use crate::validation::{register_problems, validate_register_payload};

verus! {

/// Where a registration stands.
#[derive(Debug, Clone, Copy, PartialEq, Eq, Structural)]
pub enum RegisterState {
    Start,
    /// The account is being written.
    AwaitInserted { account_id: u128 },
    Done,
}

/// What the server hands back during a registration.
#[derive(Debug, Clone, Copy, PartialEq, Eq, Structural)]
pub enum RegisterEvent {
    /// The request came in.
    Begin,
    /// The account was written.
    Inserted,
    /// The store refused the account: its address is taken.
    DuplicateEmail,
    /// The store failed.
    StoreFailed,
}

/// What the server is asked to do during a registration.
#[derive(Debug)]
pub enum RegisterAction {
    /// Write the account with this identifier and digest, and with the name
    /// and the address of the request.
    InsertAccount { account_id: u128, password_hash: String },
    /// Send the response; the flow is over.
    Respond(Response),
}

/// What a registration action is.
pub enum RegisterActionView {
    InsertAccount { account_id: u128, password_hash: Seq<char> },
    Respond(ResponseView),
}

impl View for RegisterAction {
    type V = RegisterActionView;

    open spec fn view(&self) -> RegisterActionView {
        match *self {
            RegisterAction::InsertAccount { account_id, password_hash } => {
                RegisterActionView::InsertAccount { account_id, password_hash: password_hash@ }
            },
            RegisterAction::Respond(response) => RegisterActionView::Respond(response@),
        }
    }
}

/// What a registration depends on besides the state and the event.
pub struct RegisterInputs {
    pub username: Seq<char>,
    pub email: Seq<char>,
    pub password: Seq<char>,
    pub secret: Seq<char>,
    pub ttl_hours: u64,
    pub now: i64,
}

/// The inputs of a registration, from the request and the settings.
pub open spec fn register_inputs(payload: RegisterPayload, security: SecurityConfig, now: i64) -> RegisterInputs {
    RegisterInputs {
        username: payload.username@,
        email: payload.email@,
        password: payload.password@,
        secret: security.jwt_secret@,
        ttl_hours: security.jwt_expiration_hours,
        now,
    }
}

/// The response that ends a registration without a session.
pub open spec fn register_done(reply: Reply) -> (RegisterState, RegisterActionView) {
    (RegisterState::Done, RegisterActionView::Respond(bare(reply)))
}

/// The next state and the action of a registration, where `account_id` is
/// the fresh identifier and `digest` is what hashing the password gave. An
/// event that the state does not wait for ends the flow with a failure.
pub open spec fn register_next(
    state: RegisterState,
    event: RegisterEvent,
    inputs: RegisterInputs,
    account_id: u128,
    digest: Result<Seq<char>, HashError>,
) -> (RegisterState, RegisterActionView) {
    match (state, event) {
        (RegisterState::Start, RegisterEvent::Begin) => {
            let problems = register_problems(inputs.username, inputs.email, inputs.password);
            if problems.len() > 0 {
                (RegisterState::Done, RegisterActionView::Respond(refused(problems)))
            } else {
                match digest {
                    Ok(password_hash) => (
                        RegisterState::AwaitInserted { account_id },
                        RegisterActionView::InsertAccount { account_id, password_hash },
                    ),
                    Err(_) => register_done(Reply::Unavailable),
                }
            }
        },
        (RegisterState::AwaitInserted { account_id }, RegisterEvent::Inserted) => (
            RegisterState::Done,
            RegisterActionView::Respond(
                session_response(
                    Reply::Registered,
                    account_id,
                    inputs.secret,
                    inputs.ttl_hours,
                    inputs.now,
                ),
            ),
        ),
        (RegisterState::AwaitInserted { account_id }, RegisterEvent::DuplicateEmail) => {
            register_done(Reply::EmailTaken)
        },
        _ => register_done(Reply::Unavailable),
    }
}

fn register_end(reply: Reply) -> (r: (RegisterState, RegisterAction))
    ensures
        (r.0, r.1@) == register_done(reply),
{
    (RegisterState::Done, RegisterAction::Respond(Response::of(reply)))
}

/// What follows a form that passed, for each result of hashing its password
/// and with the fresh identifier handed in.
pub fn register_after_hashing(account_id: u128, hashed: Result<String, HashError>) -> (r: (
    RegisterState,
    RegisterAction,
))
    ensures
        (r.0, r.1@) == match digest_view(hashed) {
            Ok(password_hash) => (
                RegisterState::AwaitInserted { account_id },
                RegisterActionView::InsertAccount { account_id, password_hash },
            ),
            Err(_) => register_done(Reply::Unavailable),
        },
{
    match hashed {
        Ok(password_hash) => (
            RegisterState::AwaitInserted { account_id },
            RegisterAction::InsertAccount { account_id, password_hash },
        ),
        Err(_) => register_end(Reply::Unavailable),
    }
}

/// One step of a registration. The identifier of the new account is random,
/// and the digest that is written is one that the password verifies against.
pub fn register_step(
    state: RegisterState,
    event: RegisterEvent,
    payload: &RegisterPayload,
    security: &SecurityConfig,
    now: i64,
) -> (r: (RegisterState, RegisterAction))
    ensures
        exists|account_id: u128, digest: Result<Seq<char>, HashError>|
            (digest matches Ok(d) ==> verification(payload.password@, d) == Ok::<bool, HashError>(
                true,
            )) && (r.0, r.1@) == #[trigger] register_next(
                state,
                event,
                register_inputs(*payload, *security, now),
                account_id,
                digest,
            ),
{
    let ghost inputs = register_inputs(*payload, *security, now);
    let ghost unused: Result<Seq<char>, HashError> = Err(HashError::Hashing);
    match (state, event) {
        (RegisterState::Start, RegisterEvent::Begin) => {
            match validate_register_payload(
                payload.username.as_str(),
                payload.email.as_str(),
                payload.password.as_str(),
            ) {
                Err(errors) => {
                    let r = (RegisterState::Done, RegisterAction::Respond(Response::refused(errors)));
                    assert((r.0, r.1@) == register_next(state, event, inputs, 0u128, unused));
                    r
                },
                Ok(_) => {
                    let hashed = hash_password(payload.password.as_str());
                    let account_id = fresh_account_id();
                    let ghost digest = digest_view(hashed);
                    let r = register_after_hashing(account_id, hashed);
                    assert((r.0, r.1@) == register_next(state, event, inputs, account_id, digest));
                    r
                },
            }
        },
        (RegisterState::AwaitInserted { account_id }, RegisterEvent::Inserted) => {
            let r = (
                RegisterState::Done,
                RegisterAction::Respond(open_session(Reply::Registered, account_id, security, now)),
            );
            assert((r.0, r.1@) == register_next(state, event, inputs, 0u128, unused));
            r
        },
        (RegisterState::AwaitInserted { account_id }, RegisterEvent::DuplicateEmail) => {
            let r = register_end(Reply::EmailTaken);
            assert((r.0, r.1@) == register_next(state, event, inputs, 0u128, unused));
            r
        },
        _ => {
            let r = register_end(Reply::Unavailable);
            assert((r.0, r.1@) == register_next(state, event, inputs, 0u128, unused));
            r
        },
    }
}

/// Whether the text of a store's error says that a unique key was violated.
pub open spec fn is_duplicate_key_error(message: Seq<char>) -> bool {
    contains_text(message, "duplicate key value violates unique constraint"@)
}

/// The event for a write that the store refused with `message`: a taken
/// address where the message speaks of a duplicate key, a failure otherwise.
pub fn classify_insert_error(message: &str) -> (event: RegisterEvent)
    ensures
        event == if is_duplicate_key_error(message@) {
            RegisterEvent::DuplicateEmail
        } else {
            RegisterEvent::StoreFailed
        },
{
    let chars = chars_of(message);
    let needle = chars_of("duplicate key value violates unique constraint");
    if find_text(&chars, &needle) {
        RegisterEvent::DuplicateEmail
    } else {
        RegisterEvent::StoreFailed
    }
}

} // verus!
