use auth_core::config::{LoginLimitConfig, OtpConfig, SecurityConfig};
use auth_core::guard::LoginGuard;
use auth_core::hash::{hash_password, verify_password};
use auth_core::login::{login_after_verification, login_step, session_reply, Account, LoginAction, LoginEvent, LoginState};
use auth_core::models::{LoginPayload, RegisterPayload, ResetRequest, ResetVerifyPayload};
use auth_core::reply::{Reply, Response};
use auth_core::reset::{
    reset_request_step, reset_request_step_with, reset_verify_step, reset_verify_step_with,
    RequestAction, RequestEvent, RequestState, TicketStatus, VerifyAction, VerifyEvent, VerifyState,
};
use auth_core::signup::{classify_insert_error, register_after_hashing, register_step, RegisterAction, RegisterEvent, RegisterState};
use auth_core::token::{validate_token, TokenError};

struct StoredAccount {
    id: u128,
    email: String,
    password_hash: String,
}

struct StoredTicket {
    id: i64,
    account_id: u128,
    otp_code: String,
    requested_at: i64,
    expires_at: i64,
    used: bool,
}

struct World {
    accounts: Vec<StoredAccount>,
    guard: LoginGuard,
    tickets: Vec<StoredTicket>,
    mails: Vec<(String, String)>,
    mail_works: bool,
    limits: LoginLimitConfig,
    otp: OtpConfig,
    security: SecurityConfig,
}

const ALICE: u128 = 0xa1a2a3a4b1b2c1c2d1d2d3d4d5d6d7d8;

fn world() -> World {
    World {
        accounts: vec![StoredAccount {
            id: ALICE,
            email: "alice@example.com".to_string(),
            password_hash: hash_password("C0rrect-Horse").unwrap(),
        }],
        guard: LoginGuard::new(),
        tickets: Vec::new(),
        mails: Vec::new(),
        mail_works: true,
        limits: LoginLimitConfig::from_parsed(None, None),
        otp: OtpConfig::from_parsed(None, None, None),
        security: SecurityConfig::default(),
    }
}

fn login(world: &mut World, email: &str, password: &str, now: i64) -> Response {
    let payload = LoginPayload { email: email.to_string(), password: password.to_string() };
    let mut state = LoginState::Start;
    let mut event = LoginEvent::Begin;
    loop {
        let (next, action) = login_step(state, event, &payload, &world.limits, &world.security, now);
        state = next;
        event = match action {
            LoginAction::Respond(response) => {
                assert!(matches!(state, LoginState::Done));
                return response;
            },
            LoginAction::FindAccount => LoginEvent::Account(
                world.accounts.iter().find(|a| a.email == payload.email).map(|a| Account {
                    id: a.id,
                    password_hash: a.password_hash.clone(),
                }),
            ),
            LoginAction::CountRecentFailures { account_id, window_secs } => {
                assert_eq!(window_secs, world.limits.lockout_secs);
                LoginEvent::FailureCount(world.guard.count_recent(account_id, now, &world.limits) as i64)
            },
            LoginAction::ClearFailures { account_id } => {
                world.guard.reset(account_id);
                LoginEvent::Written
            },
            LoginAction::RecordFailure { account_id, at } => {
                world.guard.record_failure(account_id, at);
                LoginEvent::Written
            },
        };
    }
}

fn request_reset(world: &mut World, email: &str, now: i64) -> Response {
    let request = ResetRequest { email: email.to_string() };
    let mut state = RequestState::Start;
    let mut event = RequestEvent::Begin;
    loop {
        let (next, action) = reset_request_step(state, event, &request, &world.otp, now);
        state = next;
        event = match action {
            RequestAction::Respond(response) => return response,
            RequestAction::FindAccount { email } => {
                RequestEvent::Account(world.accounts.iter().find(|a| a.email == email).map(|a| a.id))
            },
            RequestAction::CountRecentRequests { account_id, window_secs } => RequestEvent::HourlyCount(
                world
                    .tickets
                    .iter()
                    .filter(|t| t.account_id == account_id && t.requested_at > now - window_secs)
                    .count() as i64,
            ),
            RequestAction::FindLastRequest { account_id } => RequestEvent::LastRequest(
                world.tickets.iter().filter(|t| t.account_id == account_id).map(|t| t.requested_at).max(),
            ),
            RequestAction::StoreTicket { account_id, otp, requested_at, expires_at } => {
                let id = world.tickets.len() as i64 + 1;
                world.tickets.retain(|t| t.account_id != account_id);
                world.tickets.push(StoredTicket {
                    id,
                    account_id,
                    otp_code: otp,
                    requested_at,
                    expires_at,
                    used: false,
                });
                RequestEvent::Written
            },
            RequestAction::SendCode { email, otp } => {
                if world.mail_works {
                    world.mails.push((email, otp));
                    RequestEvent::Sent
                } else {
                    RequestEvent::SendFailed
                }
            },
        };
    }
}

fn verify_reset(world: &mut World, otp: &str, new_password: &str, confirm: &str, now: i64) -> Response {
    let payload = ResetVerifyPayload {
        user_id: ALICE,
        email: "alice@example.com".to_string(),
        otp: otp.to_string(),
        new_password: new_password.to_string(),
        confirm_password: confirm.to_string(),
    };
    let mut state = VerifyState::Start;
    let mut event = VerifyEvent::Begin;
    loop {
        let (next, action) = reset_verify_step(state, event, &payload, now);
        state = next;
        event = match action {
            VerifyAction::Respond(response) => return response,
            VerifyAction::FindTicket => VerifyEvent::Ticket(
                world
                    .tickets
                    .iter()
                    .find(|t| t.account_id == payload.user_id && t.otp_code == payload.otp)
                    .map(|t| TicketStatus { id: t.id, expires_at: t.expires_at, used: t.used }),
            ),
            VerifyAction::UpdatePasswordHash { password_hash } => {
                let mut rows = 0;
                for account in world.accounts.iter_mut().filter(|a| a.email == payload.email) {
                    account.password_hash = password_hash.clone();
                    rows += 1;
                }
                VerifyEvent::Updated { rows }
            },
            VerifyAction::MarkTicketUsed { ticket_id } => {
                for ticket in world.tickets.iter_mut().filter(|t| t.id == ticket_id) {
                    ticket.used = true;
                }
                VerifyEvent::Written
            },
        };
    }
}

fn register(world: &mut World, username: &str, email: &str, password: &str, now: i64) -> Response {
    let payload = RegisterPayload {
        username: username.to_string(),
        email: email.to_string(),
        password: password.to_string(),
    };
    let mut state = RegisterState::Start;
    let mut event = RegisterEvent::Begin;
    loop {
        let (next, action) = register_step(state, event, &payload, &world.security, now);
        state = next;
        event = match action {
            RegisterAction::Respond(response) => return response,
            RegisterAction::InsertAccount { account_id, password_hash } => {
                if world.accounts.iter().any(|a| a.email == payload.email) {
                    classify_insert_error(
                        "error returned from database: duplicate key value violates unique constraint \"users_email_key\"",
                    )
                } else {
                    world.accounts.push(StoredAccount {
                        id: account_id,
                        email: payload.email.clone(),
                        password_hash,
                    });
                    RegisterEvent::Inserted
                }
            },
        };
    }
}

#[test]
fn login_opens_a_session_for_the_account() {
    let mut world = world();
    let response = login(&mut world, "alice@example.com", "C0rrect-Horse", 1_000);
    assert_eq!(response.reply, Reply::LoggedIn);
    assert_eq!(response.reply.status(), 200);
    assert!(response.details.is_empty());
    let token = response.token.clone().unwrap();
    let claims = validate_token(&token, &world.security.jwt_secret, 1_000).unwrap();
    assert_eq!(claims.sub, "a1a2a3a4-b1b2-c1c2-d1d2-d3d4d5d6d7d8");
    assert_eq!(claims.exp, 1_000 + 24 * 3600);
    let cookie = response.cookie(true).unwrap();
    assert_eq!(cookie.name, "access_token");
    assert_eq!(cookie.value, token);
    assert_eq!(cookie.max_age, None);
}

#[test]
fn login_refuses_a_malformed_form_before_any_lookup() {
    let payload = LoginPayload { email: "nope".to_string(), password: " ".to_string() };
    let limits = LoginLimitConfig::from_parsed(None, None);
    let security = SecurityConfig::default();
    let (state, action) = login_step(LoginState::Start, LoginEvent::Begin, &payload, &limits, &security, 0);
    assert!(matches!(state, LoginState::Done));
    match action {
        LoginAction::Respond(response) => {
            assert_eq!(response.reply, Reply::ValidationFailed);
            assert_eq!(response.reply.status(), 400);
            assert_eq!(response.details.len(), 2);
            assert_eq!(response.details[0].message, "Invalid email format");
            assert_eq!(response.details[1].message, "Password is required");
            assert!(response.token.is_none());
        },
        _ => panic!("a malformed form is answered at once"),
    }
}

#[test]
fn login_with_an_unknown_address_looks_like_a_wrong_password() {
    let mut world = world();
    let unknown = login(&mut world, "nobody@example.com", "C0rrect-Horse", 1_000);
    let wrong = login(&mut world, "alice@example.com", "Wr0ng-Horse", 1_000);
    assert_eq!(unknown.reply, Reply::InvalidCredentials);
    assert_eq!(unknown.reply.status(), 401);
    assert_eq!(unknown.reply.text(), "Invalid credentials");
    assert_eq!(wrong.reply, unknown.reply);
    assert_eq!(wrong.reply.text(), unknown.reply.text());
    assert!(unknown.token.is_none() && wrong.token.is_none());
    assert!(unknown.details.is_empty() && wrong.details.is_empty());
    assert!(unknown.cookie(true).is_none() && wrong.cookie(true).is_none());
    // only the attempt on the account was noted
    assert_eq!(world.guard.count_recent(ALICE, 1_000, &world.limits), 1);
}

#[test]
fn five_wrong_passwords_lock_out_the_right_one() {
    let mut world = world();
    for i in 0..5 {
        let response = login(&mut world, "alice@example.com", "Wr0ng-Horse", 1_000 + i);
        assert_eq!(response.reply, Reply::InvalidCredentials);
    }
    let sixth = login(&mut world, "alice@example.com", "C0rrect-Horse", 1_010);
    assert_eq!(sixth.reply, Reply::LockedOut);
    assert_eq!(sixth.reply.status(), 429);
    assert!(sixth.token.is_none());
    // a refused attempt is not counted again
    assert_eq!(world.guard.count_recent(ALICE, 1_010, &world.limits), 5);
    // the window slides past the first failure
    let later = login(&mut world, "alice@example.com", "C0rrect-Horse", 1_300);
    assert_eq!(later.reply, Reply::LoggedIn);
    // and the success cleared the rest
    assert_eq!(world.guard.count_recent(ALICE, 1_300, &world.limits), 0);
}

#[test]
fn unreadable_digest_is_answered_like_a_wrong_password() {
    let mut world = world();
    world.accounts[0].password_hash = "not a digest".to_string();
    let unreadable = login(&mut world, "alice@example.com", "C0rrect-Horse", 1_000);
    let unknown = login(&mut world, "nobody@example.com", "C0rrect-Horse", 1_000);
    assert_eq!(unreadable.reply, Reply::InvalidCredentials);
    assert_eq!(unreadable.reply.status(), 401);
    assert_eq!(unreadable.reply.text(), "Invalid credentials");
    assert_eq!(unreadable.reply, unknown.reply);
    assert!(unreadable.token.is_none());
    assert!(unreadable.cookie(true).is_none());
    assert!(unreadable.details.is_empty());
    // the attempt was noted, and the account locks like any other
    assert_eq!(world.guard.count_recent(ALICE, 1_000, &world.limits), 1);
    for i in 1..5 {
        login(&mut world, "alice@example.com", "C0rrect-Horse", 1_000 + i);
    }
    assert_eq!(login(&mut world, "alice@example.com", "C0rrect-Horse", 1_010).reply, Reply::LockedOut);
}

#[test]
fn four_wrong_passwords_do_not_lock() {
    let mut world = world();
    for i in 0..4 {
        login(&mut world, "alice@example.com", "Wr0ng-Horse", 1_000 + i);
    }
    let fifth = login(&mut world, "alice@example.com", "C0rrect-Horse", 1_010);
    assert_eq!(fifth.reply, Reply::LoggedIn);
    for i in 0..4 {
        login(&mut world, "alice@example.com", "Wr0ng-Horse", 1_020 + i);
    }
    assert_eq!(login(&mut world, "alice@example.com", "C0rrect-Horse", 1_030).reply, Reply::LoggedIn);
}

#[test]
fn login_answers_each_store_failure_with_a_server_error() {
    let payload = LoginPayload { email: "alice@example.com".to_string(), password: "x".to_string() };
    let limits = LoginLimitConfig::from_parsed(None, None);
    let security = SecurityConfig::default();
    let reply_of = |state: LoginState, event: LoginEvent| -> Reply {
        match login_step(state, event, &payload, &limits, &security, 0).1 {
            LoginAction::Respond(response) => response.reply,
            _ => panic!("the flow goes on"),
        }
    };
    assert_eq!(reply_of(LoginState::AwaitAccount, LoginEvent::StoreFailed), Reply::Unavailable);
    let account = || Account { id: 1, password_hash: "broken".to_string() };
    assert_eq!(
        reply_of(LoginState::AwaitFailureCount { account: account() }, LoginEvent::StoreFailed),
        Reply::Unavailable
    );
    // a digest that cannot be read is taken for a wrong password
    assert!(matches!(
        login_step(
            LoginState::AwaitFailureCount { account: account() },
            LoginEvent::FailureCount(0),
            &payload,
            &limits,
            &security,
            77
        ),
        (LoginState::AwaitFailureRecorded, LoginAction::RecordFailure { account_id: 1, at: 77 })
    ));
    // but a locked account is refused before the digest is looked at
    assert_eq!(
        reply_of(LoginState::AwaitFailureCount { account: account() }, LoginEvent::FailureCount(5)),
        Reply::LockedOut
    );
    // an event out of turn
    assert_eq!(reply_of(LoginState::Start, LoginEvent::Written), Reply::Unavailable);
    assert_eq!(reply_of(LoginState::Done, LoginEvent::Begin), Reply::Unavailable);
    // a failed write of the guard does not change the answer
    assert_eq!(reply_of(LoginState::AwaitFailureRecorded, LoginEvent::StoreFailed), Reply::InvalidCredentials);
    assert_eq!(reply_of(LoginState::AwaitGuardCleared { account_id: 1 }, LoginEvent::StoreFailed), Reply::LoggedIn);
}

#[test]
fn login_follows_the_result_of_the_verification() {
    let (state, action) = login_after_verification(Ok(true), 9, 50);
    assert!(matches!(state, LoginState::AwaitGuardCleared { account_id: 9 }));
    assert!(matches!(action, LoginAction::ClearFailures { account_id: 9 }));
    let (state, action) = login_after_verification(Ok(false), 9, 50);
    assert!(matches!(state, LoginState::AwaitFailureRecorded));
    assert!(matches!(action, LoginAction::RecordFailure { account_id: 9, at: 50 }));
    for unreadable in [auth_core::hash::HashError::InvalidDigest, auth_core::hash::HashError::Hashing] {
        let (state, action) = login_after_verification(Err(unreadable), 9, 50);
        assert!(matches!(state, LoginState::AwaitFailureRecorded));
        assert!(matches!(action, LoginAction::RecordFailure { account_id: 9, at: 50 }));
    }
    let opened = session_reply(Reply::LoggedIn, Ok("tok".to_string()));
    assert_eq!(opened.reply, Reply::LoggedIn);
    assert_eq!(opened.token, Some("tok".to_string()));
    let failed = session_reply(Reply::LoggedIn, Err(TokenError::ExpiryOutOfRange));
    assert_eq!(failed.reply, Reply::Unavailable);
    assert_eq!(failed.token, None);
}

#[test]
fn reset_scenario_request_then_verify() {
    let mut world = world();
    let before = world.accounts[0].password_hash.clone();
    let response = request_reset(&mut world, "Alice@Example.com", 10_000);
    assert_eq!(response.reply, Reply::ResetRequested);
    assert_eq!(response.reply.status(), 200);
    assert_eq!(world.tickets.len(), 1);
    let otp = world.tickets[0].otp_code.clone();
    assert_eq!(otp.len(), 6);
    assert!(otp.chars().all(|c| c.is_ascii_digit()));
    assert_eq!(world.tickets[0].account_id, ALICE);
    assert_eq!(world.tickets[0].requested_at, 10_000);
    assert_eq!(world.tickets[0].expires_at, 10_600);
    assert!(!world.tickets[0].used);
    assert_eq!(world.mails, vec![("alice@example.com".to_string(), otp.clone())]);

    let response = verify_reset(&mut world, &otp, "N3w-Password!", "N3w-Password!", 10_100);
    assert_eq!(response.reply, Reply::PasswordReset);
    assert_eq!(response.reply.status(), 200);
    assert_ne!(world.accounts[0].password_hash, before);
    assert_eq!(verify_password("N3w-Password!", &world.accounts[0].password_hash), Ok(true));
    assert_eq!(verify_password("C0rrect-Horse", &world.accounts[0].password_hash), Ok(false));
    assert!(world.tickets[0].used);
    assert_eq!(login(&mut world, "alice@example.com", "N3w-Password!", 10_200).reply, Reply::LoggedIn);
}

#[test]
fn reset_ticket_is_consumed_once() {
    let mut world = world();
    request_reset(&mut world, "alice@example.com", 10_000);
    let otp = world.tickets[0].otp_code.clone();
    let first = verify_reset(&mut world, &otp, "N3w-Password!", "N3w-Password!", 10_100);
    assert_eq!(first.reply, Reply::PasswordReset);
    let digest = world.accounts[0].password_hash.clone();
    let second = verify_reset(&mut world, &otp, "An0ther-One!", "An0ther-One!", 10_101);
    assert_eq!(second.reply, Reply::InvalidOrExpiredOtp);
    assert_eq!(second.reply.status(), 400);
    assert_eq!(second.reply.text(), "Invalid or expired OTP");
    assert_eq!(world.accounts[0].password_hash, digest);
}

#[test]
fn reset_refusals_do_not_say_which_check_failed() {
    let mut world = world();
    request_reset(&mut world, "alice@example.com", 10_000);
    let otp = world.tickets[0].otp_code.clone();
    let wrong = if otp == "123456" { "654321" } else { "123456" };
    let unknown = verify_reset(&mut world, wrong, "N3w-Password!", "N3w-Password!", 10_100);
    let expired = verify_reset(&mut world, &otp, "N3w-Password!", "N3w-Password!", 10_600);
    assert_eq!(unknown.reply, Reply::InvalidOrExpiredOtp);
    assert_eq!(expired.reply, Reply::InvalidOrExpiredOtp);
    assert!(!world.tickets[0].used);
    let mismatch = verify_reset(&mut world, &otp, "N3w-Password!", "N3w-Passw0rd!", 10_100);
    assert_eq!(mismatch.reply, Reply::PasswordsDoNotMatch);
    assert_eq!(mismatch.reply.status(), 400);
    // one second before the expiry the code still works
    let in_time = verify_reset(&mut world, &otp, "N3w-Password!", "N3w-Password!", 10_599);
    assert_eq!(in_time.reply, Reply::PasswordReset);
}

#[test]
fn second_reset_request_within_a_minute_is_refused() {
    let mut world = world();
    assert_eq!(request_reset(&mut world, "alice@example.com", 10_000).reply, Reply::ResetRequested);
    let otp = world.tickets[0].otp_code.clone();
    let second = request_reset(&mut world, "alice@example.com", 10_059);
    assert_eq!(second.reply, Reply::ResetRequestedTooSoon);
    assert_eq!(second.reply.status(), 429);
    assert_eq!(world.tickets.len(), 1);
    assert_eq!(world.tickets[0].otp_code, otp);
    assert_eq!(world.tickets[0].requested_at, 10_000);
    assert_eq!(world.mails.len(), 1);
    let third = request_reset(&mut world, "alice@example.com", 10_060);
    assert_eq!(third.reply, Reply::ResetRequested);
    assert_eq!(world.tickets.len(), 1);
    assert_eq!(world.tickets[0].requested_at, 10_060);
    assert_eq!(world.mails.len(), 2);
}

#[test]
fn reset_request_answers_alike_for_known_and_unknown_addresses() {
    let mut world = world();
    let known = request_reset(&mut world, "alice@example.com", 10_000);
    let unknown = request_reset(&mut world, "nobody@example.com", 10_000);
    assert_eq!(known.reply, unknown.reply);
    assert_eq!(known.reply.status(), unknown.reply.status());
    assert_eq!(known.reply.text(), unknown.reply.text());
    assert_eq!(known.reply.body_kind(), unknown.reply.body_kind());
    assert_eq!(known.token, unknown.token);
    assert!(known.details.is_empty() && unknown.details.is_empty());
    // nothing was written for the unknown address
    assert_eq!(world.tickets.len(), 1);
    assert_eq!(world.mails.len(), 1);
    // and an undelivered mail does not change the answer
    let mut silent = self::world();
    silent.mail_works = false;
    let undelivered = request_reset(&mut silent, "alice@example.com", 10_000);
    assert_eq!(undelivered.reply, Reply::ResetRequested);
    assert_eq!(silent.tickets.len(), 1);
}

#[test]
fn reset_request_steps_one_by_one() {
    let request = ResetRequest { email: "Alice@Example.com".to_string() };
    let config = OtpConfig::from_parsed(Some(2), Some(60), Some(10));
    let step = |state: RequestState, event: RequestEvent, now: i64| {
        reset_request_step_with(state, event, &request, &config, now, "424242".to_string())
    };
    match step(RequestState::Start, RequestEvent::Begin, 0) {
        (RequestState::AwaitAccount, RequestAction::FindAccount { email }) => {
            assert_eq!(email, "alice@example.com")
        },
        _ => panic!("the account is looked up first"),
    }
    assert!(matches!(
        step(RequestState::AwaitAccount, RequestEvent::Account(Some(3)), 0),
        (
            RequestState::AwaitHourlyCount { account_id: 3 },
            RequestAction::CountRecentRequests { account_id: 3, window_secs: 3600 }
        )
    ));
    assert!(matches!(
        step(RequestState::AwaitHourlyCount { account_id: 3 }, RequestEvent::HourlyCount(1), 0),
        (RequestState::AwaitLastRequest { account_id: 3 }, RequestAction::FindLastRequest { account_id: 3 })
    ));
    match step(RequestState::AwaitHourlyCount { account_id: 3 }, RequestEvent::HourlyCount(2), 0).1 {
        RequestAction::Respond(response) => {
            assert_eq!(response.reply, Reply::TooManyResetRequests);
            assert_eq!(response.reply.status(), 429);
        },
        _ => panic!("the hourly limit refuses"),
    }
    match step(RequestState::AwaitLastRequest { account_id: 3 }, RequestEvent::LastRequest(None), 500) {
        (
            RequestState::AwaitTicketStored { otp: kept },
            RequestAction::StoreTicket { account_id, otp, requested_at, expires_at },
        ) => {
            assert_eq!(kept, "424242");
            assert_eq!(otp, "424242");
            assert_eq!(account_id, 3);
            assert_eq!(requested_at, 500);
            assert_eq!(expires_at, 1100);
        },
        _ => panic!("the ticket is written"),
    }
    match step(RequestState::AwaitLastRequest { account_id: 3 }, RequestEvent::LastRequest(None), i64::MAX).1 {
        RequestAction::Respond(response) => assert_eq!(response.reply, Reply::Unavailable),
        _ => panic!("an expiry out of range is a failure"),
    }
    match step(RequestState::AwaitTicketStored { otp: "111111".to_string() }, RequestEvent::Written, 500) {
        (RequestState::AwaitCodeSent, RequestAction::SendCode { email, otp }) => {
            assert_eq!(email, "alice@example.com");
            assert_eq!(otp, "111111");
        },
        _ => panic!("the code is mailed"),
    }
    for (state, event) in [
        (RequestState::AwaitAccount, RequestEvent::StoreFailed),
        (RequestState::AwaitHourlyCount { account_id: 3 }, RequestEvent::StoreFailed),
        (RequestState::AwaitLastRequest { account_id: 3 }, RequestEvent::StoreFailed),
        (RequestState::AwaitTicketStored { otp: "111111".to_string() }, RequestEvent::StoreFailed),
        (RequestState::Done, RequestEvent::Begin),
    ] {
        match step(state, event, 0).1 {
            RequestAction::Respond(response) => assert_eq!(response.reply, Reply::Unavailable),
            _ => panic!("a store failure is a server error"),
        }
    }
}

#[test]
fn reset_verify_steps_one_by_one() {
    let payload = ResetVerifyPayload {
        user_id: 3,
        email: "alice@example.com".to_string(),
        otp: "424242".to_string(),
        new_password: "N3w-Password!".to_string(),
        confirm_password: "N3w-Password!".to_string(),
    };
    let live = TicketStatus { id: 8, expires_at: 100, used: false };
    let step = |state: VerifyState, event: VerifyEvent, now: i64| {
        reset_verify_step_with(state, event, &payload, now, Ok("digest".to_string()))
    };
    assert!(matches!(step(VerifyState::Start, VerifyEvent::Begin, 0), (VerifyState::AwaitTicket, VerifyAction::FindTicket)));
    match step(VerifyState::AwaitTicket, VerifyEvent::Ticket(Some(live)), 99) {
        (VerifyState::AwaitPasswordUpdated { ticket_id: 8 }, VerifyAction::UpdatePasswordHash { password_hash }) => {
            assert_eq!(password_hash, "digest")
        },
        _ => panic!("a live ticket lets the password be replaced"),
    }
    assert!(live.is_live(99));
    assert!(!live.is_live(100));
    assert!(!TicketStatus { used: true, ..live }.is_live(0));
    let reply_of = |state: VerifyState, event: VerifyEvent, now: i64| -> Reply {
        match step(state, event, now).1 {
            VerifyAction::Respond(response) => response.reply,
            _ => panic!("the flow goes on"),
        }
    };
    assert_eq!(reply_of(VerifyState::AwaitTicket, VerifyEvent::Ticket(Some(live)), 100), Reply::InvalidOrExpiredOtp);
    assert_eq!(
        reply_of(VerifyState::AwaitTicket, VerifyEvent::Ticket(Some(TicketStatus { used: true, ..live })), 0),
        Reply::InvalidOrExpiredOtp
    );
    assert_eq!(reply_of(VerifyState::AwaitTicket, VerifyEvent::Ticket(None), 0), Reply::InvalidOrExpiredOtp);
    assert_eq!(reply_of(VerifyState::AwaitTicket, VerifyEvent::StoreFailed, 0), Reply::Unavailable);
    assert_eq!(
        reply_of(VerifyState::AwaitPasswordUpdated { ticket_id: 8 }, VerifyEvent::Updated { rows: 0 }, 0),
        Reply::AccountNotFound
    );
    assert_eq!(Reply::AccountNotFound.status(), 404);
    assert!(matches!(
        step(VerifyState::AwaitPasswordUpdated { ticket_id: 8 }, VerifyEvent::Updated { rows: 1 }, 0),
        (VerifyState::AwaitTicketUsed, VerifyAction::MarkTicketUsed { ticket_id: 8 })
    ));
    assert_eq!(
        reply_of(VerifyState::AwaitPasswordUpdated { ticket_id: 8 }, VerifyEvent::StoreFailed, 0),
        Reply::Unavailable
    );
    // the password is changed already: a ticket that cannot be marked is no failure for the client
    assert_eq!(reply_of(VerifyState::AwaitTicketUsed, VerifyEvent::StoreFailed, 0), Reply::PasswordReset);
    assert_eq!(reply_of(VerifyState::AwaitTicketUsed, VerifyEvent::Written, 0), Reply::PasswordReset);
    let failed = reset_verify_step_with(
        VerifyState::AwaitTicket,
        VerifyEvent::Ticket(Some(live)),
        &payload,
        0,
        Err(auth_core::hash::HashError::Hashing),
    );
    assert!(matches!(failed.1, VerifyAction::Respond(Response { reply: Reply::Unavailable, .. })));
}

#[test]
fn registration_opens_a_session() {
    let mut world = world();
    let response = register(&mut world, "bob_01", "bob@example.com", "S3cure-Pass!", 2_000);
    assert_eq!(response.reply, Reply::Registered);
    assert_eq!(response.reply.status(), 201);
    assert_eq!(world.accounts.len(), 2);
    let bob = &world.accounts[1];
    assert_eq!(verify_password("S3cure-Pass!", &bob.password_hash), Ok(true));
    let token = response.token.clone().unwrap();
    let claims = validate_token(&token, &world.security.jwt_secret, 2_000).unwrap();
    assert_eq!(claims.sub.len(), 36);
    assert_eq!(claims.exp, 2_000 + 24 * 3600);
    assert_eq!(response.cookie(false).unwrap().value, token);
    assert_eq!(login(&mut world, "bob@example.com", "S3cure-Pass!", 2_001).reply, Reply::LoggedIn);
    let token = login(&mut world, "bob@example.com", "S3cure-Pass!", 2_001).token.unwrap();
    assert_eq!(validate_token(&token, &world.security.jwt_secret, 2_001).unwrap().sub, claims.sub);
}

#[test]
fn registration_refusals() {
    let mut world = world();
    let invalid = register(&mut world, "b", "bob", "weak", 2_000);
    assert_eq!(invalid.reply, Reply::ValidationFailed);
    assert_eq!(invalid.details.len(), 3);
    assert_eq!(world.accounts.len(), 1);
    let taken = register(&mut world, "alice", "alice@example.com", "S3cure-Pass!", 2_000);
    assert_eq!(taken.reply, Reply::EmailTaken);
    assert_eq!(taken.reply.status(), 409);
    assert!(taken.token.is_none());
    assert_eq!(world.accounts.len(), 1);
    assert_eq!(classify_insert_error("connection reset"), RegisterEvent::StoreFailed);
    assert_eq!(classify_insert_error(""), RegisterEvent::StoreFailed);
    assert_eq!(
        classify_insert_error("duplicate key value violates unique constraint"),
        RegisterEvent::DuplicateEmail
    );
    let payload = RegisterPayload {
        username: "bob_01".to_string(),
        email: "bob@example.com".to_string(),
        password: "S3cure-Pass!".to_string(),
    };
    let failed = register_step(
        RegisterState::AwaitInserted { account_id: 1 },
        RegisterEvent::StoreFailed,
        &payload,
        &world.security,
        0,
    );
    assert!(matches!(failed.1, RegisterAction::Respond(Response { reply: Reply::Unavailable, .. })));
    let after = register_after_hashing(5, Err(auth_core::hash::HashError::Hashing));
    assert!(matches!(after.1, RegisterAction::Respond(Response { reply: Reply::Unavailable, .. })));
    match register_after_hashing(5, Ok("digest".to_string())) {
        (RegisterState::AwaitInserted { account_id: 5 }, RegisterAction::InsertAccount { account_id: 5, password_hash }) => {
            assert_eq!(password_hash, "digest")
        },
        _ => panic!("the account is written"),
    }
}
