//! What the core answers: one value for every answer it can give, with its
//! status, its text and the cookie it sets.

use vstd::prelude::*;
use crate::cookies::{access_cookie, clear_access_token, set_access_token, AccessCookie, AccessCookieView};
use crate::validation::{error_views, ValidationError};

verus! {

/// Every answer of the core. Answers that must not tell two situations apart
/// are one value.
#[derive(Debug, Clone, Copy, PartialEq, Eq, Structural)]
pub enum Reply {
    /// 400: the form breaks rules; the response lists them all.
    ValidationFailed,
    /// 400: the new password and its confirmation differ.
    PasswordsDoNotMatch,
    /// 400: no such code, or a used one, or one past its expiry.
    InvalidOrExpiredOtp,
    /// 401: no such account, or a wrong password.
    InvalidCredentials,
    /// 401: no valid token came with the request.
    MissingOrInvalidToken,
    /// 429: too many wrong passwords within the lockout window.
    LockedOut,
    /// 429: the hourly limit of reset requests is reached.
    TooManyResetRequests,
    /// 429: the last reset request is too recent.
    ResetRequestedTooSoon,
    /// 429: the client sent too many requests.
    RateLimited,
    /// 409: the e-mail address is registered already.
    EmailTaken,
    /// 404: the account disappeared while its password was reset.
    AccountNotFound,
    /// 500: a store or the hasher failed; the response says nothing more.
    Unavailable,
    /// 200, with the token in a cookie.
    LoggedIn,
    /// 201, with the token in a cookie.
    Registered,
    /// 200, and the cookie is cleared.
    LoggedOut,
    /// 200: the same for a registered and an unregistered address.
    ResetRequested,
    /// 200: the password was replaced.
    PasswordReset,
}

/// How the text of a reply is framed in the response body.
#[derive(Debug, Clone, Copy, PartialEq, Eq, Structural)]
pub enum BodyKind {
    /// No body.
    Empty,
    /// The text as it is.
    Plain,
    /// An object with the text under `message`.
    Message,
    /// An object with the text under `error`.
    Error,
    /// An object with the text under `error` and the detail under `message`.
    ErrorWithDetail,
}

/// The HTTP status of a reply.
pub open spec fn reply_status(reply: Reply) -> u16 {
    match reply {
        Reply::ValidationFailed => 400,
        Reply::PasswordsDoNotMatch => 400,
        Reply::InvalidOrExpiredOtp => 400,
        Reply::InvalidCredentials => 401,
        Reply::MissingOrInvalidToken => 401,
        Reply::LockedOut => 429,
        Reply::TooManyResetRequests => 429,
        Reply::ResetRequestedTooSoon => 429,
        Reply::RateLimited => 429,
        Reply::EmailTaken => 409,
        Reply::AccountNotFound => 404,
        Reply::Unavailable => 500,
        Reply::LoggedIn => 200,
        Reply::Registered => 201,
        Reply::LoggedOut => 200,
        Reply::ResetRequested => 200,
        Reply::PasswordReset => 200,
    }
}

/// The text of a reply.
pub open spec fn reply_text(reply: Reply) -> Seq<char> {
    match reply {
        Reply::ValidationFailed => "Validation failed"@,
        Reply::PasswordsDoNotMatch => "Passwords do not match"@,
        Reply::InvalidOrExpiredOtp => "Invalid or expired OTP"@,
        Reply::InvalidCredentials => "Invalid credentials"@,
        Reply::MissingOrInvalidToken => "Invalid or missing token"@,
        Reply::LockedOut => "Too many failed login attempts. Please try again later."@,
        Reply::TooManyResetRequests => "Too many reset requests. Try again later."@,
        Reply::ResetRequestedTooSoon => "Please wait before requesting another OTP."@,
        Reply::RateLimited => "Rate limit exceeded"@,
        Reply::EmailTaken => "Email already exists"@,
        Reply::AccountNotFound => "No user found"@,
        Reply::Unavailable => ""@,
        Reply::LoggedIn => "Logged in successfully"@,
        Reply::Registered => "User registered successfully"@,
        Reply::LoggedOut => "Logged out"@,
        Reply::ResetRequested => "If this email is registered, a reset code has been sent."@,
        Reply::PasswordReset => "Password reset successful"@,
    }
}

/// What a reply adds to its text, where it adds anything.
pub open spec fn reply_detail(reply: Reply) -> Seq<char> {
    match reply {
        Reply::EmailTaken => "An account with this email address already exists"@,
        _ => ""@,
    }
}

/// How the text of a reply is framed.
pub open spec fn reply_body_kind(reply: Reply) -> BodyKind {
    match reply {
        Reply::Unavailable => BodyKind::Empty,
        Reply::EmailTaken => BodyKind::ErrorWithDetail,
        Reply::AccountNotFound | Reply::MissingOrInvalidToken | Reply::RateLimited => BodyKind::Plain,
        Reply::LoggedIn | Reply::Registered | Reply::LoggedOut | Reply::ResetRequested
        | Reply::PasswordReset => BodyKind::Message,
        _ => BodyKind::Error,
    }
}

impl Reply {
    /// The HTTP status.
    pub fn status(self) -> (code: u16)
        ensures
            code == reply_status(self),
    {
        match self {
            Reply::ValidationFailed => 400,
            Reply::PasswordsDoNotMatch => 400,
            Reply::InvalidOrExpiredOtp => 400,
            Reply::InvalidCredentials => 401,
            Reply::MissingOrInvalidToken => 401,
            Reply::LockedOut => 429,
            Reply::TooManyResetRequests => 429,
            Reply::ResetRequestedTooSoon => 429,
            Reply::RateLimited => 429,
            Reply::EmailTaken => 409,
            Reply::AccountNotFound => 404,
            Reply::Unavailable => 500,
            Reply::LoggedIn => 200,
            Reply::Registered => 201,
            Reply::LoggedOut => 200,
            Reply::ResetRequested => 200,
            Reply::PasswordReset => 200,
        }
    }

    /// The text for the client.
    pub fn text(self) -> (text: String)
        ensures
            text@ == reply_text(self),
    {
        match self {
            Reply::ValidationFailed => "Validation failed".to_string(),
            Reply::PasswordsDoNotMatch => "Passwords do not match".to_string(),
            Reply::InvalidOrExpiredOtp => "Invalid or expired OTP".to_string(),
            Reply::InvalidCredentials => "Invalid credentials".to_string(),
            Reply::MissingOrInvalidToken => "Invalid or missing token".to_string(),
            Reply::LockedOut => "Too many failed login attempts. Please try again later.".to_string(),
            Reply::TooManyResetRequests => "Too many reset requests. Try again later.".to_string(),
            Reply::ResetRequestedTooSoon => "Please wait before requesting another OTP.".to_string(),
            Reply::RateLimited => "Rate limit exceeded".to_string(),
            Reply::EmailTaken => "Email already exists".to_string(),
            Reply::AccountNotFound => "No user found".to_string(),
            Reply::Unavailable => "".to_string(),
            Reply::LoggedIn => "Logged in successfully".to_string(),
            Reply::Registered => "User registered successfully".to_string(),
            Reply::LoggedOut => "Logged out".to_string(),
            Reply::ResetRequested => "If this email is registered, a reset code has been sent.".to_string(),
            Reply::PasswordReset => "Password reset successful".to_string(),
        }
    }

    /// What the reply adds to its text; empty for all but a taken address.
    pub fn detail(self) -> (text: String)
        ensures
            text@ == reply_detail(self),
    {
        match self {
            Reply::EmailTaken => "An account with this email address already exists".to_string(),
            _ => "".to_string(),
        }
    }

    /// How the text is framed in the body.
    pub fn body_kind(self) -> (kind: BodyKind)
        ensures
            kind == reply_body_kind(self),
    {
        match self {
            Reply::Unavailable => BodyKind::Empty,
            Reply::EmailTaken => BodyKind::ErrorWithDetail,
            Reply::AccountNotFound | Reply::MissingOrInvalidToken | Reply::RateLimited => BodyKind::Plain,
            Reply::LoggedIn | Reply::Registered | Reply::LoggedOut | Reply::ResetRequested
            | Reply::PasswordReset => BodyKind::Message,
            _ => BodyKind::Error,
        }
    }
}

/// A reply with what it carries: the broken rules of a refused form, the
/// token of a new session.
#[derive(Debug)]
pub struct Response {
    pub reply: Reply,
    pub details: Vec<ValidationError>,
    pub token: Option<String>,
}

/// What a response is.
pub struct ResponseView {
    pub reply: Reply,
    pub details: Seq<(Seq<char>, Seq<char>)>,
    pub token: Option<Seq<char>>,
}

impl View for Response {
    type V = ResponseView;

    open spec fn view(&self) -> ResponseView {
        ResponseView {
            reply: self.reply,
            details: error_views(self.details@),
            token: match self.token {
                Some(t) => Some(t@),
                None => None,
            },
        }
    }
}

/// The response that carries nothing but the reply.
pub open spec fn bare(reply: Reply) -> ResponseView {
    ResponseView { reply, details: seq![], token: None }
}

/// The response that opens a session with `token`.
pub open spec fn with_token(reply: Reply, token: Seq<char>) -> ResponseView {
    ResponseView { reply, details: seq![], token: Some(token) }
}

/// The response that refuses a form for the rules `details`.
pub open spec fn refused(details: Seq<(Seq<char>, Seq<char>)>) -> ResponseView {
    ResponseView { reply: Reply::ValidationFailed, details, token: None }
}

/// The cookie that a response sets: the token of a new session, an empty
/// cookie of no lifetime after logout, none otherwise.
pub open spec fn response_cookie(response: ResponseView, secure: bool) -> Option<AccessCookieView> {
    match response.token {
        Some(token) => Some(access_cookie(token, secure, None)),
        None => if response.reply == Reply::LoggedOut {
            Some(access_cookie(""@, secure, Some(0i64)))
        } else {
            None
        },
    }
}

impl Response {
    /// The response that carries nothing but the reply.
    pub fn of(reply: Reply) -> (response: Response)
        ensures
            response@ == bare(reply),
    {
        let response = Response { reply, details: Vec::new(), token: None };
        assert(error_views(response.details@) =~= seq![]);
        response
    }

    /// The response that opens a session with `token`.
    pub fn with_token(reply: Reply, token: String) -> (response: Response)
        ensures
            response@ == with_token(reply, token@),
    {
        let response = Response { reply, details: Vec::new(), token: Some(token) };
        assert(error_views(response.details@) =~= seq![]);
        response
    }

    /// The response that refuses a form for the rules `details`.
    pub fn refused(details: Vec<ValidationError>) -> (response: Response)
        ensures
            response@ == refused(error_views(details@)),
    {
        Response { reply: Reply::ValidationFailed, details, token: None }
    }

    /// The cookie to set with this response, if any. `secure` restricts it
    /// to HTTPS, as production does.
    pub fn cookie(&self, secure: bool) -> (cookie: Option<AccessCookie>)
        ensures
            match cookie {
                Some(c) => response_cookie(self@, secure) == Some(c@),
                None => response_cookie(self@, secure) is None,
            },
    {
        match &self.token {
            Some(token) => Some(set_access_token(token.as_str(), secure)),
            None => if self.reply == Reply::LoggedOut {
                Some(clear_access_token(secure))
            } else {
                None
            },
        }
    }
}

/// Ends the session on the client: the response clears the cookie. The token
/// itself stays valid until its expiry.
pub fn logout() -> (response: Response)
    ensures
        response@ == bare(Reply::LoggedOut),
{
    Response::of(Reply::LoggedOut)
}

} // verus!
