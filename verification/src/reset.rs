//! Password reset by one-time code, as two machines that a server drives.
//!
//! A request writes a ticket with a fresh code and mails the code; it is
//! limited per hour and by a minimum interval, and its answer is the same
//! whether the address is registered or not. A verification replaces the
//! password where the ticket is unused and not expired, and then marks the
//! ticket used.

use vstd::prelude::*;
use crate::config::OtpConfig;
use crate::hash::{hash_password, verification, HashError};
use crate::models::{ResetRequest, ResetVerifyPayload};
use crate::otp::{code_text, generate_otp, is_otp, OTP_MIN};
use crate::reply::{bare, Reply, Response, ResponseView};
use crate::text::lowercased;

verus! {

/// The window over which reset requests are counted, in seconds.
pub const REQUEST_WINDOW_SECS: i64 = 3600;

/// Where a reset request stands.
#[derive(Debug)]
pub enum RequestState {
    Start,
    /// The account was asked for.
    AwaitAccount,
    /// The number of requests within the last hour was asked for.
    AwaitHourlyCount { account_id: u128 },
    /// The time of the last request was asked for.
    AwaitLastRequest { account_id: u128 },
    /// The ticket is being written.
    AwaitTicketStored { otp: String },
    /// The code is being mailed.
    AwaitCodeSent,
    Done,
}

/// What a request state is.
pub enum RequestStateView {
    Start,
    AwaitAccount,
    AwaitHourlyCount { account_id: u128 },
    AwaitLastRequest { account_id: u128 },
    AwaitTicketStored { otp: Seq<char> },
    AwaitCodeSent,
    Done,
}

impl View for RequestState {
    type V = RequestStateView;

    open spec fn view(&self) -> RequestStateView {
        match *self {
            RequestState::Start => RequestStateView::Start,
            RequestState::AwaitAccount => RequestStateView::AwaitAccount,
            RequestState::AwaitHourlyCount { account_id } => RequestStateView::AwaitHourlyCount {
                account_id,
            },
            RequestState::AwaitLastRequest { account_id } => RequestStateView::AwaitLastRequest {
                account_id,
            },
            RequestState::AwaitTicketStored { otp } => RequestStateView::AwaitTicketStored {
                otp: otp@,
            },
            RequestState::AwaitCodeSent => RequestStateView::AwaitCodeSent,
            RequestState::Done => RequestStateView::Done,
        }
    }
}

/// What the server hands back during a reset request.
#[derive(Debug, Clone, Copy, PartialEq, Eq, Structural)]
pub enum RequestEvent {
    /// The request came in.
    Begin,
    /// The identifier of the account of the address, or that there is none.
    Account(Option<u128>),
    /// The number of tickets of the account requested within the last hour.
    HourlyCount(i64),
    /// The time of the last request of the account, if there was one.
    LastRequest(Option<i64>),
    /// The write was done.
    Written,
    /// The store failed.
    StoreFailed,
    /// The mail was handed over.
    Sent,
    /// The mail could not be sent.
    SendFailed,
}

/// What the server is asked to do during a reset request.
#[derive(Debug)]
pub enum RequestAction {
    /// Look up the account with this address.
    FindAccount { email: String },
    /// Count the tickets of the account requested in the last `window_secs`.
    CountRecentRequests { account_id: u128, window_secs: i64 },
    /// Find the time of the last request of the account.
    FindLastRequest { account_id: u128 },
    /// Write the ticket of the account, in place of any earlier one, unused.
    StoreTicket { account_id: u128, otp: String, requested_at: i64, expires_at: i64 },
    /// Mail the code to the address.
    SendCode { email: String, otp: String },
    /// Send the response; the flow is over.
    Respond(Response),
}

/// What a request action is.
pub enum RequestActionView {
    FindAccount { email: Seq<char> },
    CountRecentRequests { account_id: u128, window_secs: i64 },
    FindLastRequest { account_id: u128 },
    StoreTicket { account_id: u128, otp: Seq<char>, requested_at: i64, expires_at: i64 },
    SendCode { email: Seq<char>, otp: Seq<char> },
    Respond(ResponseView),
}

impl View for RequestAction {
    type V = RequestActionView;

    open spec fn view(&self) -> RequestActionView {
        match *self {
            RequestAction::FindAccount { email } => RequestActionView::FindAccount {
                email: email@,
            },
            RequestAction::CountRecentRequests { account_id, window_secs } => {
                RequestActionView::CountRecentRequests { account_id, window_secs }
            },
            RequestAction::FindLastRequest { account_id } => RequestActionView::FindLastRequest {
                account_id,
            },
            RequestAction::StoreTicket { account_id, otp, requested_at, expires_at } => {
                RequestActionView::StoreTicket {
                    account_id,
                    otp: otp@,
                    requested_at,
                    expires_at,
                }
            },
            RequestAction::SendCode { email, otp } => RequestActionView::SendCode {
                email: email@,
                otp: otp@,
            },
            RequestAction::Respond(response) => RequestActionView::Respond(response@),
        }
    }
}

/// The response that ends a reset request.
pub open spec fn request_done(reply: Reply) -> (RequestStateView, RequestActionView) {
    (RequestStateView::Done, RequestActionView::Respond(bare(reply)))
}

/// Whether a request at `now` comes too soon after the last one.
pub open spec fn too_soon(last: Option<i64>, now: i64, config: OtpConfig) -> bool {
    last matches Some(t) && now < config.next_allowed(t)
}

/// The next state and the action of a reset request for `email`, where
/// `code` is the fresh code. An event that the state does not wait for ends
/// the flow with a failure.
pub open spec fn request_next(
    state: RequestStateView,
    event: RequestEvent,
    email: Seq<char>,
    config: OtpConfig,
    now: i64,
    code: Seq<char>,
) -> (RequestStateView, RequestActionView) {
    match (state, event) {
        (RequestStateView::Start, RequestEvent::Begin) => (
            RequestStateView::AwaitAccount,
            RequestActionView::FindAccount { email: lowercased(email) },
        ),
        (RequestStateView::AwaitAccount, RequestEvent::Account(None)) => request_done(
            Reply::ResetRequested,
        ),
        (RequestStateView::AwaitAccount, RequestEvent::Account(Some(account_id))) => (
            RequestStateView::AwaitHourlyCount { account_id },
            RequestActionView::CountRecentRequests {
                account_id,
                window_secs: REQUEST_WINDOW_SECS,
            },
        ),
        (RequestStateView::AwaitHourlyCount { account_id }, RequestEvent::HourlyCount(count)) => {
            if count >= config.limit_per_hour {
                request_done(Reply::TooManyResetRequests)
            } else {
                (
                    RequestStateView::AwaitLastRequest { account_id },
                    RequestActionView::FindLastRequest { account_id },
                )
            }
        },
        (RequestStateView::AwaitLastRequest { account_id }, RequestEvent::LastRequest(last)) => {
            if too_soon(last, now, config) {
                request_done(Reply::ResetRequestedTooSoon)
            } else if !(i64::MIN <= config.expiry_of(now) <= i64::MAX) {
                request_done(Reply::Unavailable)
            } else {
                (
                    RequestStateView::AwaitTicketStored { otp: code },
                    RequestActionView::StoreTicket {
                        account_id,
                        otp: code,
                        requested_at: now,
                        expires_at: config.expiry_of(now) as i64,
                    },
                )
            }
        },
        (RequestStateView::AwaitTicketStored { otp }, RequestEvent::Written) => (
            RequestStateView::AwaitCodeSent,
            RequestActionView::SendCode { email: lowercased(email), otp },
        ),
        (RequestStateView::AwaitCodeSent, RequestEvent::Sent)
        | (RequestStateView::AwaitCodeSent, RequestEvent::SendFailed) => request_done(
            Reply::ResetRequested,
        ),
        _ => request_done(Reply::Unavailable),
    }
}

fn request_end(reply: Reply) -> (r: (RequestState, RequestAction))
    ensures
        (r.0@, r.1@) == request_done(reply),
{
    (RequestState::Done, RequestAction::Respond(Response::of(reply)))
}

/// One step of a reset request, with the fresh code handed in. The code is
/// used by the one step that writes the ticket.
pub fn reset_request_step_with(
    state: RequestState,
    event: RequestEvent,
    request: &ResetRequest,
    config: &OtpConfig,
    now: i64,
    code: String,
) -> (r: (RequestState, RequestAction))
    ensures
        (r.0@, r.1@) == request_next(state@, event, request.email@, *config, now, code@),
{
    match (state, event) {
        (RequestState::Start, RequestEvent::Begin) => (
            RequestState::AwaitAccount,
            RequestAction::FindAccount { email: request.email.as_str().to_lowercase() },
        ),
        (RequestState::AwaitAccount, RequestEvent::Account(None)) => request_end(
            Reply::ResetRequested,
        ),
        (RequestState::AwaitAccount, RequestEvent::Account(Some(account_id))) => (
            RequestState::AwaitHourlyCount { account_id },
            RequestAction::CountRecentRequests { account_id, window_secs: REQUEST_WINDOW_SECS },
        ),
        (RequestState::AwaitHourlyCount { account_id }, RequestEvent::HourlyCount(count)) => {
            if config.exceeds_hourly_limit(count) {
                request_end(Reply::TooManyResetRequests)
            } else {
                (
                    RequestState::AwaitLastRequest { account_id },
                    RequestAction::FindLastRequest { account_id },
                )
            }
        },
        (RequestState::AwaitLastRequest { account_id }, RequestEvent::LastRequest(last)) => {
            let soon = match last {
                Some(t) => !config.can_resend(t, now),
                None => false,
            };
            if soon {
                request_end(Reply::ResetRequestedTooSoon)
            } else {
                match config.expires_at(now) {
                    None => request_end(Reply::Unavailable),
                    Some(expires_at) => {
                        let otp = code.clone();
                        (
                            RequestState::AwaitTicketStored { otp: code },
                            RequestAction::StoreTicket {
                                account_id,
                                otp,
                                requested_at: now,
                                expires_at,
                            },
                        )
                    },
                }
            }
        },
        (RequestState::AwaitTicketStored { otp }, RequestEvent::Written) => (
            RequestState::AwaitCodeSent,
            RequestAction::SendCode { email: request.email.as_str().to_lowercase(), otp },
        ),
        (RequestState::AwaitCodeSent, RequestEvent::Sent)
        | (RequestState::AwaitCodeSent, RequestEvent::SendFailed) => request_end(
            Reply::ResetRequested,
        ),
        _ => request_end(Reply::Unavailable),
    }
}

/// One step of a reset request. The code of a new ticket is some code that
/// the generator can give.
pub fn reset_request_step(
    state: RequestState,
    event: RequestEvent,
    request: &ResetRequest,
    config: &OtpConfig,
    now: i64,
) -> (r: (RequestState, RequestAction))
    ensures
        exists|code: Seq<char>|
            is_otp(code) && (r.0@, r.1@) == #[trigger] request_next(
                state@,
                event,
                request.email@,
                *config,
                now,
                code,
            ),
{
    let writes_ticket = match (&state, event) {
        (RequestState::AwaitLastRequest { .. }, RequestEvent::LastRequest(_)) => true,
        _ => false,
    };
    if writes_ticket {
        let code = generate_otp();
        reset_request_step_with(state, event, request, config, now, code)
    } else {
        let ghost any = code_text(OTP_MIN as int);
        let r = reset_request_step_with(state, event, request, config, now, String::new());
        assert(is_otp(any));
        assert((r.0@, r.1@) == request_next(state@, event, request.email@, *config, now, any));
        r
    }
}

/// What a verification reads of a ticket.
#[derive(Debug, Clone, Copy, PartialEq, Eq, Structural)]
pub struct TicketStatus {
    pub id: i64,
    pub expires_at: i64,
    pub used: bool,
}

/// Whether a ticket can still be consumed at `now`: unused and not expired.
pub open spec fn ticket_live(ticket: TicketStatus, now: i64) -> bool {
    !ticket.used && now < ticket.expires_at
}

/// The ticket after it was consumed.
pub open spec fn consumed(ticket: TicketStatus) -> TicketStatus {
    TicketStatus { used: true, ..ticket }
}

impl TicketStatus {
    /// Whether the ticket can still be consumed at `now`.
    pub fn is_live(&self, now: i64) -> (b: bool)
        ensures
            b == ticket_live(*self, now),
    {
        !self.used && now < self.expires_at
    }
}

/// Where a reset verification stands.
#[derive(Debug, Clone, Copy, PartialEq, Eq, Structural)]
pub enum VerifyState {
    Start,
    /// The ticket was asked for.
    AwaitTicket,
    /// The password is being replaced.
    AwaitPasswordUpdated { ticket_id: i64 },
    /// The ticket is being marked used.
    AwaitTicketUsed,
    Done,
}

/// What the server hands back during a reset verification.
#[derive(Debug, Clone, Copy, PartialEq, Eq, Structural)]
pub enum VerifyEvent {
    /// The request came in.
    Begin,
    /// The ticket of the account with the code of the request, if any.
    Ticket(Option<TicketStatus>),
    /// The password was written to `rows` accounts.
    Updated { rows: u64 },
    /// The write was done.
    Written,
    /// The store failed.
    StoreFailed,
}

/// What the server is asked to do during a reset verification.
#[derive(Debug)]
pub enum VerifyAction {
    /// Find the ticket of the request's account with the request's code.
    FindTicket,
    /// Replace the password digest of the account of the request's address.
    UpdatePasswordHash { password_hash: String },
    /// Mark the ticket used.
    MarkTicketUsed { ticket_id: i64 },
    /// Send the response; the flow is over.
    Respond(Response),
}

/// What a verification action is.
pub enum VerifyActionView {
    FindTicket,
    UpdatePasswordHash { password_hash: Seq<char> },
    MarkTicketUsed { ticket_id: i64 },
    Respond(ResponseView),
}

impl View for VerifyAction {
    type V = VerifyActionView;

    open spec fn view(&self) -> VerifyActionView {
        match *self {
            VerifyAction::FindTicket => VerifyActionView::FindTicket,
            VerifyAction::UpdatePasswordHash { password_hash } => {
                VerifyActionView::UpdatePasswordHash { password_hash: password_hash@ }
            },
            VerifyAction::MarkTicketUsed { ticket_id } => VerifyActionView::MarkTicketUsed {
                ticket_id,
            },
            VerifyAction::Respond(response) => VerifyActionView::Respond(response@),
        }
    }
}

/// The response that ends a reset verification.
pub open spec fn verify_done(reply: Reply) -> (VerifyState, VerifyActionView) {
    (VerifyState::Done, VerifyActionView::Respond(bare(reply)))
}

/// The next state and the action of a reset verification, where `digest` is
/// what hashing the new password gave. A missing ticket, a used one and an
/// expired one get the same answer. Once the password is replaced the answer
/// is a success, whether or not the ticket could be marked.
pub open spec fn verify_next(
    state: VerifyState,
    event: VerifyEvent,
    new_password: Seq<char>,
    confirm_password: Seq<char>,
    now: i64,
    digest: Result<Seq<char>, HashError>,
) -> (VerifyState, VerifyActionView) {
    match (state, event) {
        (VerifyState::Start, VerifyEvent::Begin) => {
            if new_password != confirm_password {
                verify_done(Reply::PasswordsDoNotMatch)
            } else {
                (VerifyState::AwaitTicket, VerifyActionView::FindTicket)
            }
        },
        (VerifyState::AwaitTicket, VerifyEvent::Ticket(None)) => verify_done(
            Reply::InvalidOrExpiredOtp,
        ),
        (VerifyState::AwaitTicket, VerifyEvent::Ticket(Some(ticket))) => {
            if !ticket_live(ticket, now) {
                verify_done(Reply::InvalidOrExpiredOtp)
            } else {
                match digest {
                    Ok(password_hash) => (
                        VerifyState::AwaitPasswordUpdated { ticket_id: ticket.id },
                        VerifyActionView::UpdatePasswordHash { password_hash },
                    ),
                    Err(_) => verify_done(Reply::Unavailable),
                }
            }
        },
        (VerifyState::AwaitPasswordUpdated { ticket_id }, VerifyEvent::Updated { rows }) => {
            if rows == 0 {
                verify_done(Reply::AccountNotFound)
            } else {
                (VerifyState::AwaitTicketUsed, VerifyActionView::MarkTicketUsed { ticket_id })
            }
        },
        (VerifyState::AwaitTicketUsed, VerifyEvent::Written)
        | (VerifyState::AwaitTicketUsed, VerifyEvent::StoreFailed) => verify_done(
            Reply::PasswordReset,
        ),
        _ => verify_done(Reply::Unavailable),
    }
}

fn verify_end(reply: Reply) -> (r: (VerifyState, VerifyAction))
    ensures
        (r.0, r.1@) == verify_done(reply),
{
    (VerifyState::Done, VerifyAction::Respond(Response::of(reply)))
}

/// The view of what hashing gave.
pub open spec fn digest_view(hashed: Result<String, HashError>) -> Result<Seq<char>, HashError> {
    match hashed {
        Ok(digest) => Ok(digest@),
        Err(e) => Err(e),
    }
}

/// One step of a reset verification, with the digest of the new password
/// handed in. The digest is used by the one step that found a live ticket.
pub fn reset_verify_step_with(
    state: VerifyState,
    event: VerifyEvent,
    payload: &ResetVerifyPayload,
    now: i64,
    hashed: Result<String, HashError>,
) -> (r: (VerifyState, VerifyAction))
    ensures
        (r.0, r.1@) == verify_next(
            state,
            event,
            payload.new_password@,
            payload.confirm_password@,
            now,
            digest_view(hashed),
        ),
{
    match (state, event) {
        (VerifyState::Start, VerifyEvent::Begin) => {
            if !(payload.new_password == payload.confirm_password) {
                verify_end(Reply::PasswordsDoNotMatch)
            } else {
                (VerifyState::AwaitTicket, VerifyAction::FindTicket)
            }
        },
        (VerifyState::AwaitTicket, VerifyEvent::Ticket(None)) => verify_end(
            Reply::InvalidOrExpiredOtp,
        ),
        (VerifyState::AwaitTicket, VerifyEvent::Ticket(Some(ticket))) => {
            if !ticket.is_live(now) {
                verify_end(Reply::InvalidOrExpiredOtp)
            } else {
                match hashed {
                    Ok(password_hash) => (
                        VerifyState::AwaitPasswordUpdated { ticket_id: ticket.id },
                        VerifyAction::UpdatePasswordHash { password_hash },
                    ),
                    Err(_) => verify_end(Reply::Unavailable),
                }
            }
        },
        (VerifyState::AwaitPasswordUpdated { ticket_id }, VerifyEvent::Updated { rows }) => {
            if rows == 0 {
                verify_end(Reply::AccountNotFound)
            } else {
                (VerifyState::AwaitTicketUsed, VerifyAction::MarkTicketUsed { ticket_id })
            }
        },
        (VerifyState::AwaitTicketUsed, VerifyEvent::Written)
        | (VerifyState::AwaitTicketUsed, VerifyEvent::StoreFailed) => verify_end(
            Reply::PasswordReset,
        ),
        _ => verify_end(Reply::Unavailable),
    }
}

/// One step of a reset verification. The new password is hashed only by the
/// step that found a live ticket, and the digest that it hands on is one
/// that the new password verifies against.
pub fn reset_verify_step(
    state: VerifyState,
    event: VerifyEvent,
    payload: &ResetVerifyPayload,
    now: i64,
) -> (r: (VerifyState, VerifyAction))
    ensures
        exists|digest: Result<Seq<char>, HashError>|
            (digest matches Ok(d) ==> verification(payload.new_password@, d) == Ok::<
                bool,
                HashError,
            >(true)) && (r.0, r.1@) == #[trigger] verify_next(
                state,
                event,
                payload.new_password@,
                payload.confirm_password@,
                now,
                digest,
            ),
{
    let hashes = match (state, event) {
        (VerifyState::AwaitTicket, VerifyEvent::Ticket(Some(ticket))) => ticket.is_live(now),
        _ => false,
    };
    let hashed = if hashes {
        hash_password(payload.new_password.as_str())
    } else {
        Err(HashError::Hashing)
    };
    let ghost digest = digest_view(hashed);
    let r = reset_verify_step_with(state, event, payload, now, hashed);
    assert((r.0, r.1@) == verify_next(
        state,
        event,
        payload.new_password@,
        payload.confirm_password@,
        now,
        digest,
    ));
    r
}

} // verus!
