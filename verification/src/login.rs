//! The login flow, as a machine that a server drives: each step takes what
//! the last store access gave and says what to do next.
//!
//! The order is fixed. The form is checked first; an unknown address is
//! answered like a wrong password; a locked account is refused before its
//! password is looked at; a correct password clears the failures and opens a
//! session; a wrong one is noted and refused, and so is any password where
//! the stored digest cannot be read.

use vstd::prelude::*;
use crate::config::{LoginLimitConfig, SecurityConfig};
use crate::hash::{verification, verify_password, HashError};
use crate::ids::{account_id_text, uuid_text};
use crate::models::LoginPayload;
use crate::reply::{bare, refused, with_token, Reply, Response, ResponseView};
use crate::token::{expiry_after, issue_token, token_text, TokenError};
use crate::validation::{login_problems, validate_login_payload};

verus! {

/// What the login flow reads of an account.
#[derive(Debug)]
pub struct Account {
    pub id: u128,
    pub password_hash: String,
}

/// What an account is.
pub struct AccountView {
    pub id: u128,
    pub password_hash: Seq<char>,
}

impl View for Account {
    type V = AccountView;

    open spec fn view(&self) -> AccountView {
        AccountView { id: self.id, password_hash: self.password_hash@ }
    }
}

/// Where a login stands.
#[derive(Debug)]
pub enum LoginState {
    /// Nothing was done yet.
    Start,
    /// The account was asked for.
    AwaitAccount,
    /// The account is known; its recent failures were asked for.
    AwaitFailureCount { account: Account },
    /// The password was right; the failures are being cleared.
    AwaitGuardCleared { account_id: u128 },
    /// The password was wrong; the failure is being noted.
    AwaitFailureRecorded,
    /// The response was given.
    Done,
}

/// What a login state is.
pub enum LoginStateView {
    Start,
    AwaitAccount,
    AwaitFailureCount { account: AccountView },
    AwaitGuardCleared { account_id: u128 },
    AwaitFailureRecorded,
    Done,
}

impl View for LoginState {
    type V = LoginStateView;

    open spec fn view(&self) -> LoginStateView {
        match *self {
            LoginState::Start => LoginStateView::Start,
            LoginState::AwaitAccount => LoginStateView::AwaitAccount,
            LoginState::AwaitFailureCount { account } => LoginStateView::AwaitFailureCount {
                account: account@,
            },
            LoginState::AwaitGuardCleared { account_id } => LoginStateView::AwaitGuardCleared {
                account_id,
            },
            LoginState::AwaitFailureRecorded => LoginStateView::AwaitFailureRecorded,
            LoginState::Done => LoginStateView::Done,
        }
    }
}

/// What the server hands back after doing what it was asked.
#[derive(Debug)]
pub enum LoginEvent {
    /// The request came in.
    Begin,
    /// The account of the request's address, or that there is none.
    Account(Option<Account>),
    /// The number of failures of the account within the window.
    FailureCount(i64),
    /// The write was done.
    Written,
    /// The store failed.
    StoreFailed,
}

/// What a login event is.
pub enum LoginEventView {
    Begin,
    Account(Option<AccountView>),
    FailureCount(i64),
    Written,
    StoreFailed,
}

impl View for LoginEvent {
    type V = LoginEventView;

    open spec fn view(&self) -> LoginEventView {
        match *self {
            LoginEvent::Begin => LoginEventView::Begin,
            LoginEvent::Account(Some(account)) => LoginEventView::Account(Some(account@)),
            LoginEvent::Account(None) => LoginEventView::Account(None),
            LoginEvent::FailureCount(count) => LoginEventView::FailureCount(count),
            LoginEvent::Written => LoginEventView::Written,
            LoginEvent::StoreFailed => LoginEventView::StoreFailed,
        }
    }
}

/// What the server is asked to do next.
#[derive(Debug)]
pub enum LoginAction {
    /// Look up the account by the address of the request.
    FindAccount,
    /// Count the failures of the account in the last `window_secs` seconds.
    CountRecentFailures { account_id: u128, window_secs: i64 },
    /// Delete the failures of the account.
    ClearFailures { account_id: u128 },
    /// Note a failure of the account at `at`.
    RecordFailure { account_id: u128, at: i64 },
    /// Send the response; the flow is over.
    Respond(Response),
}

/// What a login action is.
pub enum LoginActionView {
    FindAccount,
    CountRecentFailures { account_id: u128, window_secs: i64 },
    ClearFailures { account_id: u128 },
    RecordFailure { account_id: u128, at: i64 },
    Respond(ResponseView),
}

impl View for LoginAction {
    type V = LoginActionView;

    open spec fn view(&self) -> LoginActionView {
        match *self {
            LoginAction::FindAccount => LoginActionView::FindAccount,
            LoginAction::CountRecentFailures { account_id, window_secs } => {
                LoginActionView::CountRecentFailures { account_id, window_secs }
            },
            LoginAction::ClearFailures { account_id } => LoginActionView::ClearFailures {
                account_id,
            },
            LoginAction::RecordFailure { account_id, at } => LoginActionView::RecordFailure {
                account_id,
                at,
            },
            LoginAction::Respond(response) => LoginActionView::Respond(response@),
        }
    }
}

/// What a login depends on besides the state and the event.
pub struct LoginInputs {
    pub email: Seq<char>,
    pub password: Seq<char>,
    pub limits: LoginLimitConfig,
    pub secret: Seq<char>,
    pub ttl_hours: u64,
    pub now: i64,
}

/// The inputs of a login, from the request and the settings.
pub open spec fn login_inputs(
    payload: LoginPayload,
    limits: LoginLimitConfig,
    security: SecurityConfig,
    now: i64,
) -> LoginInputs {
    LoginInputs {
        email: payload.email@,
        password: payload.password@,
        limits,
        secret: security.jwt_secret@,
        ttl_hours: security.jwt_expiration_hours,
        now,
    }
}

/// The response that ends the flow without a session.
pub open spec fn finish(reply: Reply) -> (LoginStateView, LoginActionView) {
    (LoginStateView::Done, LoginActionView::Respond(bare(reply)))
}

/// The response that opens a session for `account_id`: `reply` with a token
/// for the account's identifier, or a failure where the token's expiry is
/// out of range.
pub open spec fn session_response(
    reply: Reply,
    account_id: u128,
    secret: Seq<char>,
    ttl_hours: u64,
    now: i64,
) -> ResponseView {
    if expiry_after(now, ttl_hours) <= i64::MAX {
        with_token(
            reply,
            token_text(uuid_text(account_id), expiry_after(now, ttl_hours) as i64, secret),
        )
    } else {
        bare(Reply::Unavailable)
    }
}

/// What follows the check of the password of an account that is not locked.
/// A stored digest that cannot be read counts as a password that does not
/// match: the two are never told apart.
pub open spec fn after_verification(
    verified: Result<bool, HashError>,
    account_id: u128,
    now: i64,
) -> (LoginStateView, LoginActionView) {
    match verified {
        Ok(true) => (
            LoginStateView::AwaitGuardCleared { account_id },
            LoginActionView::ClearFailures { account_id },
        ),
        _ => (
            LoginStateView::AwaitFailureRecorded,
            LoginActionView::RecordFailure { account_id, at: now },
        ),
    }
}

/// The next state and the action of a login. An event that the state does
/// not wait for ends the flow with a failure.
pub open spec fn login_next(state: LoginStateView, event: LoginEventView, inputs: LoginInputs) -> (
    LoginStateView,
    LoginActionView,
) {
    match (state, event) {
        (LoginStateView::Start, LoginEventView::Begin) => {
            let problems = login_problems(inputs.email, inputs.password);
            if problems.len() > 0 {
                (LoginStateView::Done, LoginActionView::Respond(refused(problems)))
            } else {
                (LoginStateView::AwaitAccount, LoginActionView::FindAccount)
            }
        },
        (LoginStateView::AwaitAccount, LoginEventView::Account(None)) => finish(
            Reply::InvalidCredentials,
        ),
        (LoginStateView::AwaitAccount, LoginEventView::Account(Some(account))) => (
            LoginStateView::AwaitFailureCount { account },
            LoginActionView::CountRecentFailures {
                account_id: account.id,
                window_secs: inputs.limits.lockout_secs,
            },
        ),
        (LoginStateView::AwaitFailureCount { account }, LoginEventView::FailureCount(count)) => {
            if inputs.limits.locks(count as int) {
                finish(Reply::LockedOut)
            } else {
                after_verification(
                    verification(inputs.password, account.password_hash),
                    account.id,
                    inputs.now,
                )
            }
        },
        (LoginStateView::AwaitGuardCleared { account_id }, LoginEventView::Written)
        | (LoginStateView::AwaitGuardCleared { account_id }, LoginEventView::StoreFailed) => (
            LoginStateView::Done,
            LoginActionView::Respond(
                session_response(
                    Reply::LoggedIn,
                    account_id,
                    inputs.secret,
                    inputs.ttl_hours,
                    inputs.now,
                ),
            ),
        ),
        (LoginStateView::AwaitFailureRecorded, LoginEventView::Written)
        | (LoginStateView::AwaitFailureRecorded, LoginEventView::StoreFailed) => finish(
            Reply::InvalidCredentials,
        ),
        _ => finish(Reply::Unavailable),
    }
}

fn end(reply: Reply) -> (r: (LoginState, LoginAction))
    ensures
        (r.0@, r.1@) == finish(reply),
{
    (LoginState::Done, LoginAction::Respond(Response::of(reply)))
}

/// The response that opens a session with the token that was issued, or the
/// failure where none was.
pub fn session_reply(reply: Reply, issued: Result<String, TokenError>) -> (response: Response)
    ensures
        response@ == match issued {
            Ok(token) => with_token(reply, token@),
            Err(_) => bare(Reply::Unavailable),
        },
{
    match issued {
        Ok(token) => Response::with_token(reply, token),
        Err(_) => Response::of(Reply::Unavailable),
    }
}

/// Opens a session for `account_id`: issues the token and frames `reply`
/// around it.
pub fn open_session(reply: Reply, account_id: u128, security: &SecurityConfig, now: i64) -> (response:
    Response)
    ensures
        response@ == session_response(
            reply,
            account_id,
            security.jwt_secret@,
            security.jwt_expiration_hours,
            now,
        ),
{
    let subject = account_id_text(account_id);
    let issued = issue_token(
        subject.as_str(),
        security.jwt_secret.as_str(),
        security.jwt_expiration_hours,
        now,
    );
    session_reply(reply, issued)
}

/// What follows the check of the password, for each result of the check: a
/// right password clears the failures; a wrong one is noted as a failure of
/// the account, and so is a stored digest that cannot be read.
pub fn login_after_verification(verified: Result<bool, HashError>, account_id: u128, now: i64) -> (r:
    (LoginState, LoginAction))
    ensures
        (r.0@, r.1@) == after_verification(verified, account_id, now),
{
    match verified {
        Ok(true) => (
            LoginState::AwaitGuardCleared { account_id },
            LoginAction::ClearFailures { account_id },
        ),
        _ => (
            LoginState::AwaitFailureRecorded,
            LoginAction::RecordFailure { account_id, at: now },
        ),
    }
}

/// One step of a login: from the state and what the server hands back to the
/// next state and what the server is to do.
pub fn login_step(
    state: LoginState,
    event: LoginEvent,
    payload: &LoginPayload,
    limits: &LoginLimitConfig,
    security: &SecurityConfig,
    now: i64,
) -> (r: (LoginState, LoginAction))
    ensures
        (r.0@, r.1@) == login_next(
            state@,
            event@,
            login_inputs(*payload, *limits, *security, now),
        ),
{
    match (state, event) {
        (LoginState::Start, LoginEvent::Begin) => {
            match validate_login_payload(payload.email.as_str(), payload.password.as_str()) {
                Ok(_) => (LoginState::AwaitAccount, LoginAction::FindAccount),
                Err(errors) => (LoginState::Done, LoginAction::Respond(Response::refused(errors))),
            }
        },
        (LoginState::AwaitAccount, LoginEvent::Account(None)) => end(Reply::InvalidCredentials),
        (LoginState::AwaitAccount, LoginEvent::Account(Some(account))) => {
            let account_id = account.id;
            (
                LoginState::AwaitFailureCount { account },
                LoginAction::CountRecentFailures { account_id, window_secs: limits.lockout_secs },
            )
        },
        (LoginState::AwaitFailureCount { account }, LoginEvent::FailureCount(count)) => {
            if limits.is_locked(count) {
                end(Reply::LockedOut)
            } else {
                let verified = verify_password(
                    payload.password.as_str(),
                    account.password_hash.as_str(),
                );
                login_after_verification(verified, account.id, now)
            }
        },
        (LoginState::AwaitGuardCleared { account_id }, LoginEvent::Written)
        | (LoginState::AwaitGuardCleared { account_id }, LoginEvent::StoreFailed) => (
            LoginState::Done,
            LoginAction::Respond(open_session(Reply::LoggedIn, account_id, security, now)),
        ),
        (LoginState::AwaitFailureRecorded, LoginEvent::Written)
        | (LoginState::AwaitFailureRecorded, LoginEvent::StoreFailed) => end(
            Reply::InvalidCredentials,
        ),
        _ => end(Reply::Unavailable),
    }
}

} // verus!
