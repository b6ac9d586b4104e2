//! A model of the stores and of a server that drives the flows against
//! stores that work. What holds of whole requests, and of requests in a row,
//! is stated and proved here.

use vstd::prelude::*;
use crate::config::{LoginLimitConfig, OtpConfig};
use crate::guard::{
    is_recent, lemma_failure_is_counted, locked, recent_failures, without_account, FailedLogin,
    lemma_reset_opens,
};
use crate::hash::{verification, HashError};
use crate::login::{
    login_next, session_response, AccountView, LoginActionView, LoginEventView,
    LoginInputs, LoginStateView,
};
use crate::reply::{bare, reply_status, Reply, ResponseView};
use crate::reset::{
    request_next, ticket_live, too_soon, verify_next,
    RequestActionView, RequestEvent, RequestStateView, TicketStatus, VerifyActionView,
    VerifyEvent, VerifyState, REQUEST_WINDOW_SECS,
};
use crate::text::lowercased;
use crate::validation::login_problems;

verus! {

/// The reset ticket of an account.
pub struct Ticket {
    pub id: i64,
    pub otp_code: Seq<char>,
    pub requested_at: i64,
    pub expires_at: i64,
    pub used: bool,
}

/// What the stores hold: the accounts by their address, the failed logins in
/// the order in which they were noted, and the one ticket of each account
/// that has one. With them goes what the mailer was handed: each address
/// with its code, in order, whether or not the mail went out.
pub struct Store {
    pub accounts: Map<Seq<char>, AccountView>,
    pub failures: Seq<FailedLogin>,
    pub tickets: Map<u128, Ticket>,
    pub dispatched: Seq<(Seq<char>, Seq<char>)>,
}

/// The account with the address `email`, if there is one.
pub open spec fn account_of(store: Store, email: Seq<char>) -> Option<AccountView> {
    if store.accounts.contains_key(email) {
        Some(store.accounts[email])
    } else {
        None
    }
}

/// A count as the store hands it back.
pub open spec fn as_count(n: nat) -> i64 {
    if n > i64::MAX {
        i64::MAX
    } else {
        n as i64
    }
}

/// What a store that works does for an action of a login, and what it hands
/// back.
pub open spec fn serve_login(store: Store, action: LoginActionView, inputs: LoginInputs) -> (
    Store,
    LoginEventView,
) {
    match action {
        LoginActionView::FindAccount => (
            store,
            LoginEventView::Account(account_of(store, inputs.email)),
        ),
        LoginActionView::CountRecentFailures { account_id, window_secs } => (
            store,
            LoginEventView::FailureCount(
                as_count(
                    recent_failures(
                        store.failures,
                        account_id,
                        inputs.now,
                        LoginLimitConfig {
                            max_attempts: inputs.limits.max_attempts,
                            lockout_secs: window_secs,
                        },
                    ),
                ),
            ),
        ),
        LoginActionView::ClearFailures { account_id } => (
            Store { failures: without_account(store.failures, account_id), ..store },
            LoginEventView::Written,
        ),
        LoginActionView::RecordFailure { account_id, at } => (
            Store {
                failures: store.failures.push(FailedLogin { account_id, attempt_time: at }),
                ..store
            },
            LoginEventView::Written,
        ),
        LoginActionView::Respond(_) => (store, LoginEventView::Written),
    }
}

/// A login from a state on, with at most `steps` accesses to the store: the
/// store after it and the response.
pub open spec fn login_from(
    store: Store,
    state: LoginStateView,
    event: LoginEventView,
    inputs: LoginInputs,
    steps: nat,
) -> (Store, ResponseView)
    decreases steps,
{
    let (next, action) = login_next(state, event, inputs);
    match action {
        LoginActionView::Respond(response) => (store, response),
        _ => if steps == 0 {
            (store, bare(Reply::Unavailable))
        } else {
            let (served, answer) = serve_login(store, action, inputs);
            login_from(served, next, answer, inputs, (steps - 1) as nat)
        },
    }
}

/// A whole login: the store after it and the response. No login accesses the
/// store more than three times.
pub open spec fn login_run(store: Store, inputs: LoginInputs) -> (Store, ResponseView) {
    login_from(store, LoginStateView::Start, LoginEventView::Begin, inputs, 3)
}

/// Three accesses are enough for every login: with more allowed, the
/// outcome is the same.
pub proof fn lemma_login_ends(store: Store, inputs: LoginInputs, steps: nat)
    requires
        steps >= 3,
    ensures
        login_from(store, LoginStateView::Start, LoginEventView::Begin, inputs, steps)
            == login_run(store, inputs),
{
    reveal_with_fuel(login_from, 5);
}

/// Whether the form of a login breaks no rule.
pub open spec fn valid_login_form(inputs: LoginInputs) -> bool {
    login_problems(inputs.email, inputs.password).len() == 0
}

/// The store with one more failure of `account_id` at `at`.
pub open spec fn with_failure(store: Store, account_id: u128, at: i64) -> Store {
    Store { failures: store.failures.push(FailedLogin { account_id, attempt_time: at }), ..store }
}

/// The store without the failures of `account_id`.
pub open spec fn with_cleared_guard(store: Store, account_id: u128) -> Store {
    Store { failures: without_account(store.failures, account_id), ..store }
}

proof fn lemma_count_locks(n: nat, limits: LoginLimitConfig)
    ensures
        limits.locks(as_count(n) as int) == limits.locks(n as int),
{
}

/// A login for an address without an account is refused like a wrong
/// password, and nothing is written.
pub proof fn lemma_login_unknown_account(store: Store, inputs: LoginInputs)
    requires
        valid_login_form(inputs),
        account_of(store, inputs.email) is None,
    ensures
        login_run(store, inputs) == (store, bare(Reply::InvalidCredentials)),
{
    reveal_with_fuel(login_from, 4);
}

/// A login for a locked account is refused as locked whatever password it
/// brings, the right one too, and nothing is written.
pub proof fn lemma_login_locked(store: Store, inputs: LoginInputs, account: AccountView)
    requires
        valid_login_form(inputs),
        account_of(store, inputs.email) == Some(account),
        locked(store.failures, account.id, inputs.now, inputs.limits),
    ensures
        login_run(store, inputs) == (store, bare(Reply::LockedOut)),
{
    reveal_with_fuel(login_from, 4);
    lemma_count_locks(
        recent_failures(store.failures, account.id, inputs.now, inputs.limits),
        inputs.limits,
    );
}

/// A password that does not verify against the digest of an open account,
/// be it wrong or be the digest unreadable, is refused as invalid
/// credentials and noted as a failure of the account at the time of the
/// attempt.
pub proof fn lemma_login_wrong_password(store: Store, inputs: LoginInputs, account: AccountView)
    requires
        valid_login_form(inputs),
        account_of(store, inputs.email) == Some(account),
        !locked(store.failures, account.id, inputs.now, inputs.limits),
        verification(inputs.password, account.password_hash) != Ok::<bool, HashError>(true),
    ensures
        login_run(store, inputs) == (
            with_failure(store, account.id, inputs.now),
            bare(Reply::InvalidCredentials),
        ),
{
    reveal_with_fuel(login_from, 4);
    lemma_count_locks(
        recent_failures(store.failures, account.id, inputs.now, inputs.limits),
        inputs.limits,
    );
}

/// The right password for an open account opens a session for the account
/// and clears its failures.
pub proof fn lemma_login_right_password(store: Store, inputs: LoginInputs, account: AccountView)
    requires
        valid_login_form(inputs),
        account_of(store, inputs.email) == Some(account),
        !locked(store.failures, account.id, inputs.now, inputs.limits),
        verification(inputs.password, account.password_hash) == Ok::<bool, HashError>(true),
    ensures
        login_run(store, inputs) == (
            with_cleared_guard(store, account.id),
            session_response(
                Reply::LoggedIn,
                account.id,
                inputs.secret,
                inputs.ttl_hours,
                inputs.now,
            ),
        ),
        inputs.limits.max_attempts > 0 ==> !locked(
            login_run(store, inputs).0.failures,
            account.id,
            inputs.now,
            inputs.limits,
        ),
{
    reveal_with_fuel(login_from, 4);
    lemma_count_locks(
        recent_failures(store.failures, account.id, inputs.now, inputs.limits),
        inputs.limits,
    );
    lemma_reset_opens(store.failures, account.id, inputs.now, inputs.limits);
}

/// An address without an account and a wrong password for an account get the
/// same response.
pub proof fn lemma_unknown_account_looks_like_wrong_password(
    store: Store,
    unknown: LoginInputs,
    wrong: LoginInputs,
    account: AccountView,
)
    requires
        valid_login_form(unknown),
        account_of(store, unknown.email) is None,
        valid_login_form(wrong),
        account_of(store, wrong.email) == Some(account),
        !locked(store.failures, account.id, wrong.now, wrong.limits),
        verification(wrong.password, account.password_hash) != Ok::<bool, HashError>(true),
    ensures
        login_run(store, unknown).1 == login_run(store, wrong).1,
{
    lemma_login_unknown_account(store, unknown);
    lemma_login_wrong_password(store, wrong, account);
}

/// The store after the logins `attempts`, one after the other.
pub open spec fn after_logins(store: Store, attempts: Seq<LoginInputs>) -> Store
    decreases attempts.len(),
{
    if attempts.len() == 0 {
        store
    } else {
        login_run(after_logins(store, attempts.drop_last()), attempts.last()).0
    }
}

/// Whether every failure of `account_id` in `log` counts at `now`.
pub open spec fn all_recent(
    log: Seq<FailedLogin>,
    account_id: u128,
    now: i64,
    limits: LoginLimitConfig,
) -> bool {
    forall|i: int|
        0 <= i < log.len() && (#[trigger] log[i]).account_id == account_id ==> limits.counts(
            log[i].attempt_time,
            now,
        )
}

proof fn lemma_count_at_most_all(
    log: Seq<FailedLogin>,
    account_id: u128,
    at: i64,
    now: i64,
    limits: LoginLimitConfig,
)
    requires
        all_recent(log, account_id, now, limits),
    ensures
        recent_failures(log, account_id, at, limits) <= recent_failures(
            log,
            account_id,
            now,
            limits,
        ),
    decreases log.len(),
{
    if log.len() > 0 {
        let front = log.drop_last();
        assert forall|i: int| 0 <= i < front.len() && (#[trigger] front[i]).account_id
            == account_id implies limits.counts(front[i].attempt_time, now) by {
            assert(front[i] == log[i]);
        }
        lemma_count_at_most_all(front, account_id, at, now, limits);
        assert(log.last() == log[log.len() - 1]);
    }
}

/// Whether `attempt` brings a password that does not verify for `account`,
/// under the address and the limits of `last`, at a time that still counts
/// when `last` comes.
pub open spec fn is_wrong_attempt(attempt: LoginInputs, account: AccountView, last: LoginInputs) -> bool {
    &&& attempt.email == last.email
    &&& attempt.limits == last.limits
    &&& valid_login_form(attempt)
    &&& verification(attempt.password, account.password_hash) != Ok::<bool, HashError>(true)
    &&& last.limits.counts(attempt.now, last.now)
}

proof fn lemma_after_wrong_attempts(
    store: Store,
    account: AccountView,
    attempts: Seq<LoginInputs>,
    last: LoginInputs,
)
    requires
        account_of(store, last.email) == Some(account),
        all_recent(store.failures, account.id, last.now, last.limits),
        forall|i: int| 0 <= i < attempts.len() ==> is_wrong_attempt(#[trigger] attempts[i], account, last),
    ensures
        after_logins(store, attempts).accounts == store.accounts,
        all_recent(after_logins(store, attempts).failures, account.id, last.now, last.limits),
        recent_failures(after_logins(store, attempts).failures, account.id, last.now, last.limits)
            >= recent_failures(store.failures, account.id, last.now, last.limits),
        attempts.len() <= last.limits.max_attempts ==> recent_failures(
            after_logins(store, attempts).failures,
            account.id,
            last.now,
            last.limits,
        ) >= attempts.len(),
        attempts.len() >= last.limits.max_attempts ==> locked(
            after_logins(store, attempts).failures,
            account.id,
            last.now,
            last.limits,
        ),
    decreases attempts.len(),
{
    if attempts.len() > 0 {
        let earlier = attempts.drop_last();
        let attempt = attempts.last();
        assert forall|i: int| 0 <= i < earlier.len() implies is_wrong_attempt(
            #[trigger] earlier[i],
            account,
            last,
        ) by {
            assert(earlier[i] == attempts[i]);
        }
        lemma_after_wrong_attempts(store, account, earlier, last);
        let before = after_logins(store, earlier);
        assert(is_wrong_attempt(attempts[attempts.len() - 1], account, last));
        assert(account_of(before, attempt.email) == Some(account));
        if locked(before.failures, account.id, attempt.now, attempt.limits) {
            lemma_login_locked(before, attempt, account);
            lemma_count_at_most_all(
                before.failures,
                account.id,
                attempt.now,
                last.now,
                last.limits,
            );
        } else {
            lemma_login_wrong_password(before, attempt, account);
            let record = FailedLogin { account_id: account.id, attempt_time: attempt.now };
            let after = before.failures.push(record);
            lemma_failure_is_counted(before.failures, record, account.id, last.now, last.limits);
            assert(is_recent(record, account.id, last.now, last.limits));
            assert forall|i: int| 0 <= i < after.len() && (#[trigger] after[i]).account_id
                == account.id implies last.limits.counts(after[i].attempt_time, last.now) by {
                if i < before.failures.len() {
                    assert(after[i] == before.failures[i]);
                }
            }
        }
    }
}

/// After as many wrong passwords in a row as the limit, all within the
/// lockout window, the next login is refused as locked though it brings the
/// right password. The account starts without failures that have left the
/// window.
pub proof fn lemma_wrong_passwords_lock_out_the_right_one(
    store: Store,
    account: AccountView,
    attempts: Seq<LoginInputs>,
    last: LoginInputs,
)
    requires
        account_of(store, last.email) == Some(account),
        all_recent(store.failures, account.id, last.now, last.limits),
        attempts.len() >= last.limits.max_attempts,
        forall|i: int| 0 <= i < attempts.len() ==> is_wrong_attempt(#[trigger] attempts[i], account, last),
        valid_login_form(last),
    ensures
        login_run(after_logins(store, attempts), last) == (
            after_logins(store, attempts),
            bare(Reply::LockedOut),
        ),
{
    lemma_after_wrong_attempts(store, account, attempts, last);
    lemma_login_locked(after_logins(store, attempts), last, account);
}

/// What a reset request depends on: the address, the settings, the time,
/// the fresh code, and what the store and the mailer will do.
pub struct RequestInputs {
    pub email: Seq<char>,
    pub config: OtpConfig,
    pub now: i64,
    /// The code that the generator gives.
    pub code: Seq<char>,
    /// The identifier that the store gives to a first ticket.
    pub ticket_id: i64,
    /// Whether the mail goes out.
    pub mail_works: bool,
}

/// The number of tickets of `account_id` requested within the last
/// `window_secs` seconds: one or none, as an account has one ticket at most.
pub open spec fn recent_requests(store: Store, account_id: u128, now: i64, window_secs: i64) -> i64 {
    if store.tickets.contains_key(account_id) && store.tickets[account_id].requested_at > now
        - window_secs {
        1
    } else {
        0
    }
}

/// The time of the last request of `account_id`.
pub open spec fn last_request(store: Store, account_id: u128) -> Option<i64> {
    if store.tickets.contains_key(account_id) {
        Some(store.tickets[account_id].requested_at)
    } else {
        None
    }
}

/// The store with the ticket of `account_id` written anew: the new code and
/// times, unused, under the identifier that the account's ticket had.
pub open spec fn with_ticket(
    store: Store,
    account_id: u128,
    otp: Seq<char>,
    requested_at: i64,
    expires_at: i64,
    fresh_id: i64,
) -> Store {
    Store {
        tickets: store.tickets.insert(
            account_id,
            Ticket {
                id: if store.tickets.contains_key(account_id) {
                    store.tickets[account_id].id
                } else {
                    fresh_id
                },
                otp_code: otp,
                requested_at,
                expires_at,
                used: false,
            },
        ),
        ..store
    }
}

/// What a store and a mailer do for an action of a reset request, and what
/// they hand back.
pub open spec fn serve_request(store: Store, action: RequestActionView, inputs: RequestInputs) -> (
    Store,
    RequestEvent,
) {
    match action {
        RequestActionView::FindAccount { email } => (
            store,
            RequestEvent::Account(
                match account_of(store, email) {
                    Some(account) => Some(account.id),
                    None => None,
                },
            ),
        ),
        RequestActionView::CountRecentRequests { account_id, window_secs } => (
            store,
            RequestEvent::HourlyCount(recent_requests(store, account_id, inputs.now, window_secs)),
        ),
        RequestActionView::FindLastRequest { account_id } => (
            store,
            RequestEvent::LastRequest(last_request(store, account_id)),
        ),
        RequestActionView::StoreTicket { account_id, otp, requested_at, expires_at } => (
            with_ticket(store, account_id, otp, requested_at, expires_at, inputs.ticket_id),
            RequestEvent::Written,
        ),
        RequestActionView::SendCode { email, otp } => (
            Store { dispatched: store.dispatched.push((email, otp)), ..store },
            if inputs.mail_works {
                RequestEvent::Sent
            } else {
                RequestEvent::SendFailed
            },
        ),
        RequestActionView::Respond(_) => (store, RequestEvent::Written),
    }
}

/// A reset request from a state on, with at most `steps` accesses.
pub open spec fn request_from(
    store: Store,
    state: RequestStateView,
    event: RequestEvent,
    inputs: RequestInputs,
    steps: nat,
) -> (Store, ResponseView)
    decreases steps,
{
    let (next, action) = request_next(
        state,
        event,
        inputs.email,
        inputs.config,
        inputs.now,
        inputs.code,
    );
    match action {
        RequestActionView::Respond(response) => (store, response),
        _ => if steps == 0 {
            (store, bare(Reply::Unavailable))
        } else {
            let (served, answer) = serve_request(store, action, inputs);
            request_from(served, next, answer, inputs, (steps - 1) as nat)
        },
    }
}

/// A whole reset request: the store after it and the response. No request
/// takes more than five accesses.
pub open spec fn request_run(store: Store, inputs: RequestInputs) -> (Store, ResponseView) {
    request_from(store, RequestStateView::Start, RequestEvent::Begin, inputs, 5)
}

/// Five accesses are enough for every reset request.
pub proof fn lemma_request_ends(store: Store, inputs: RequestInputs, steps: nat)
    requires
        steps >= 5,
    ensures
        request_from(store, RequestStateView::Start, RequestEvent::Begin, inputs, steps)
            == request_run(store, inputs),
{
    reveal_with_fuel(request_from, 7);
}

/// Whether a request for `account_id` passes both limits and its expiry is
/// in range.
pub open spec fn request_allowed(store: Store, account_id: u128, inputs: RequestInputs) -> bool {
    &&& recent_requests(store, account_id, inputs.now, REQUEST_WINDOW_SECS)
        < inputs.config.limit_per_hour
    &&& !too_soon(last_request(store, account_id), inputs.now, inputs.config)
    &&& i64::MIN <= inputs.config.expiry_of(inputs.now) <= i64::MAX
}

/// A request for an address without an account writes nothing and gets the
/// general answer.
pub proof fn lemma_request_unknown_address(store: Store, inputs: RequestInputs)
    requires
        account_of(store, lowercased(inputs.email)) is None,
    ensures
        request_run(store, inputs) == (store, bare(Reply::ResetRequested)),
{
    reveal_with_fuel(request_from, 6);
}

/// The store after the mailer was handed `otp` for `email`.
pub open spec fn with_dispatch(store: Store, email: Seq<char>, otp: Seq<char>) -> Store {
    Store { dispatched: store.dispatched.push((email, otp)), ..store }
}

/// A request that passes the limits writes the ticket of the account, with
/// the fresh code, unused, requested now and valid for the configured time;
/// it hands the mailer that code once, for the address in lowercase; and it
/// gets the general answer whether or not the mail goes out.
pub proof fn lemma_request_writes_ticket(store: Store, inputs: RequestInputs, account: AccountView)
    requires
        account_of(store, lowercased(inputs.email)) == Some(account),
        request_allowed(store, account.id, inputs),
    ensures
        request_run(store, inputs) == (
            with_dispatch(
                with_ticket(
                    store,
                    account.id,
                    inputs.code,
                    inputs.now,
                    inputs.config.expiry_of(inputs.now) as i64,
                    inputs.ticket_id,
                ),
                lowercased(inputs.email),
                inputs.code,
            ),
            bare(Reply::ResetRequested),
        ),
{
    reveal_with_fuel(request_from, 6);
}

/// The answer to a reset request does not tell whether the address is
/// registered: a request that writes a ticket and one for an unknown address
/// get the same response.
pub proof fn lemma_request_hides_registration(
    store: Store,
    known: RequestInputs,
    unknown: RequestInputs,
    account: AccountView,
)
    requires
        account_of(store, lowercased(known.email)) == Some(account),
        request_allowed(store, account.id, known),
        account_of(store, lowercased(unknown.email)) is None,
    ensures
        request_run(store, known).1 == request_run(store, unknown).1,
{
    lemma_request_unknown_address(store, unknown);
    lemma_request_writes_ticket(store, known, account);
}

/// A request that does not pass the limits is refused with status 429 and
/// writes nothing.
pub proof fn lemma_request_over_limit(store: Store, inputs: RequestInputs, account: AccountView)
    requires
        account_of(store, lowercased(inputs.email)) == Some(account),
        recent_requests(store, account.id, inputs.now, REQUEST_WINDOW_SECS)
            >= inputs.config.limit_per_hour || too_soon(
            last_request(store, account.id),
            inputs.now,
            inputs.config,
        ),
    ensures
        request_run(store, inputs).0 == store,
        request_run(store, inputs).1 == bare(Reply::TooManyResetRequests) || request_run(
            store,
            inputs,
        ).1 == bare(Reply::ResetRequestedTooSoon),
        reply_status(request_run(store, inputs).1.reply) == 429,
{
    reveal_with_fuel(request_from, 6);
}

/// A second request within the minimum interval of a first one is refused
/// with status 429, and the ticket of the first stays as it was written.
pub proof fn lemma_second_request_is_refused(
    store: Store,
    first: RequestInputs,
    second: RequestInputs,
    account: AccountView,
)
    requires
        account_of(store, lowercased(first.email)) == Some(account),
        request_allowed(store, account.id, first),
        lowercased(second.email) == lowercased(first.email),
        second.config == first.config,
        second.now - first.now < first.config.min_interval_secs,
    ensures
        request_run(request_run(store, first).0, second).0 == request_run(store, first).0,
        reply_status(request_run(request_run(store, first).0, second).1.reply) == 429,
{
    lemma_request_writes_ticket(store, first, account);
    lemma_request_over_limit(request_run(store, first).0, second, account);
}

/// What a reset verification depends on: the request, the time, and what
/// hashing the new password gives.
pub struct VerifyInputs {
    pub user_id: u128,
    pub email: Seq<char>,
    pub otp: Seq<char>,
    pub new_password: Seq<char>,
    pub confirm_password: Seq<char>,
    pub now: i64,
    pub digest: Result<Seq<char>, HashError>,
}

/// The ticket of `user_id` with the code `otp`, as a verification reads it.
pub open spec fn ticket_with_code(store: Store, user_id: u128, otp: Seq<char>) -> Option<
    TicketStatus,
> {
    if store.tickets.contains_key(user_id) && store.tickets[user_id].otp_code == otp {
        Some(
            TicketStatus {
                id: store.tickets[user_id].id,
                expires_at: store.tickets[user_id].expires_at,
                used: store.tickets[user_id].used,
            },
        )
    } else {
        None
    }
}

/// The store with the password digest of the account of `email` replaced.
pub open spec fn with_password(store: Store, email: Seq<char>, password_hash: Seq<char>) -> Store {
    Store {
        accounts: store.accounts.insert(
            email,
            AccountView { id: store.accounts[email].id, password_hash },
        ),
        ..store
    }
}

/// The store with the ticket of `user_id` marked used.
pub open spec fn with_used_ticket(store: Store, user_id: u128) -> Store {
    Store {
        tickets: store.tickets.insert(user_id, Ticket { used: true, ..store.tickets[user_id] }),
        ..store
    }
}

/// What a store that works does for an action of a reset verification, and
/// what it hands back.
pub open spec fn serve_verify(store: Store, action: VerifyActionView, inputs: VerifyInputs) -> (
    Store,
    VerifyEvent,
) {
    match action {
        VerifyActionView::FindTicket => (
            store,
            VerifyEvent::Ticket(ticket_with_code(store, inputs.user_id, inputs.otp)),
        ),
        VerifyActionView::UpdatePasswordHash { password_hash } => {
            if store.accounts.contains_key(inputs.email) {
                (with_password(store, inputs.email, password_hash), VerifyEvent::Updated { rows: 1 })
            } else {
                (store, VerifyEvent::Updated { rows: 0 })
            }
        },
        VerifyActionView::MarkTicketUsed { ticket_id } => (
            if store.tickets.contains_key(inputs.user_id) && store.tickets[inputs.user_id].id
                == ticket_id {
                with_used_ticket(store, inputs.user_id)
            } else {
                store
            },
            VerifyEvent::Written,
        ),
        VerifyActionView::Respond(_) => (store, VerifyEvent::Written),
    }
}

/// A reset verification from a state on, with at most `steps` accesses.
pub open spec fn verify_from(
    store: Store,
    state: VerifyState,
    event: VerifyEvent,
    inputs: VerifyInputs,
    steps: nat,
) -> (Store, ResponseView)
    decreases steps,
{
    let (next, action) = verify_next(
        state,
        event,
        inputs.new_password,
        inputs.confirm_password,
        inputs.now,
        inputs.digest,
    );
    match action {
        VerifyActionView::Respond(response) => (store, response),
        _ => if steps == 0 {
            (store, bare(Reply::Unavailable))
        } else {
            let (served, answer) = serve_verify(store, action, inputs);
            verify_from(served, next, answer, inputs, (steps - 1) as nat)
        },
    }
}

/// A whole reset verification: the store after it and the response. No
/// verification takes more than three accesses.
pub open spec fn verify_run(store: Store, inputs: VerifyInputs) -> (Store, ResponseView) {
    verify_from(store, VerifyState::Start, VerifyEvent::Begin, inputs, 3)
}

/// Three accesses are enough for every reset verification.
pub proof fn lemma_verify_ends(store: Store, inputs: VerifyInputs, steps: nat)
    requires
        steps >= 3,
    ensures
        verify_from(store, VerifyState::Start, VerifyEvent::Begin, inputs, steps) == verify_run(
            store,
            inputs,
        ),
{
    reveal_with_fuel(verify_from, 5);
}

/// Whether the account of the request has a ticket with the request's code
/// that can still be consumed.
pub open spec fn code_is_live(store: Store, inputs: VerifyInputs) -> bool {
    ticket_with_code(store, inputs.user_id, inputs.otp) matches Some(ticket) && ticket_live(
        ticket,
        inputs.now,
    )
}

/// A verification with a live code replaces the password of the account by
/// the new digest, marks the ticket used, and succeeds.
pub proof fn lemma_verify_replaces_password(store: Store, inputs: VerifyInputs, digest: Seq<char>)
    requires
        inputs.new_password == inputs.confirm_password,
        code_is_live(store, inputs),
        inputs.digest == Ok::<Seq<char>, HashError>(digest),
        store.accounts.contains_key(inputs.email),
    ensures
        verify_run(store, inputs) == (
            with_used_ticket(with_password(store, inputs.email, digest), inputs.user_id),
            bare(Reply::PasswordReset),
        ),
{
    reveal_with_fuel(verify_from, 4);
}

/// A verification without a live code is refused with one answer, whether
/// the code is unknown, used or expired, and writes nothing.
pub proof fn lemma_verify_refuses_dead_code(store: Store, inputs: VerifyInputs)
    requires
        inputs.new_password == inputs.confirm_password,
        !code_is_live(store, inputs),
    ensures
        verify_run(store, inputs) == (store, bare(Reply::InvalidOrExpiredOtp)),
{
    reveal_with_fuel(verify_from, 4);
}

/// A code works once: after a verification that succeeded, the same code for
/// the same account is refused as invalid or expired, at any time and with
/// any new password, and nothing more is written.
pub proof fn lemma_code_works_once(
    store: Store,
    first: VerifyInputs,
    digest: Seq<char>,
    second: VerifyInputs,
)
    requires
        first.new_password == first.confirm_password,
        code_is_live(store, first),
        first.digest == Ok::<Seq<char>, HashError>(digest),
        store.accounts.contains_key(first.email),
        second.user_id == first.user_id,
        second.otp == first.otp,
        second.new_password == second.confirm_password,
    ensures
        verify_run(store, first).1 == bare(Reply::PasswordReset),
        verify_run(verify_run(store, first).0, second) == (
            verify_run(store, first).0,
            bare(Reply::InvalidOrExpiredOtp),
        ),
{
    lemma_verify_replaces_password(store, first, digest);
    lemma_verify_refuses_dead_code(verify_run(store, first).0, second);
}

/// The code of a request resets the password: after a request that passes
/// the limits, the account has one ticket, with the fresh code, unused, and
/// valid for the configured time; a verification with that code before the
/// expiry replaces the password and marks the ticket used.
pub proof fn lemma_requested_code_resets_password(
    store: Store,
    request: RequestInputs,
    account: AccountView,
    verify: VerifyInputs,
    digest: Seq<char>,
)
    requires
        account_of(store, lowercased(request.email)) == Some(account),
        request_allowed(store, account.id, request),
        verify.user_id == account.id,
        verify.email == lowercased(request.email),
        verify.otp == request.code,
        verify.new_password == verify.confirm_password,
        verify.digest == Ok::<Seq<char>, HashError>(digest),
        verify.now < request.config.expiry_of(request.now),
    ensures
        ({
            let requested = request_run(store, request);
            let ticket = requested.0.tickets[account.id];
            let verified = verify_run(requested.0, verify);
            &&& requested.1 == bare(Reply::ResetRequested)
            &&& requested.0.tickets.contains_key(account.id)
            &&& ticket.otp_code == request.code
            &&& ticket.requested_at == request.now
            &&& ticket.expires_at == request.now + request.config.expiry_minutes * 60
            &&& !ticket.used
            &&& requested.0.dispatched == store.dispatched.push(
                (lowercased(request.email), request.code),
            )
            &&& verified.1 == bare(Reply::PasswordReset)
            &&& verified.0.accounts[verify.email].password_hash == digest
            &&& verified.0.accounts[verify.email].id == account.id
            &&& verified.0.tickets[account.id].used
        }),
{
    lemma_request_writes_ticket(store, request, account);
    let requested = request_run(store, request);
    lemma_verify_replaces_password(requested.0, verify, digest);
}

} // verus!
