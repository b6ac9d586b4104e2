//! The access control in front of every request: a request is public, or it proves a
//! session, or it is refused before any handler sees it.
//!
//! A session is proved by a valid token, taken from the `Authorization`
//! header where it gives one, and from the cookie otherwise.

use vstd::prelude::*;
use crate::reply::Reply;
use crate::hex::{hex_of_bytes, hex_value, lemma_hex_round_trip};
use crate::text::{
    chars_of, has_prefix, prefix_at, skip_repeated, string_of_range, strip_repeated, tail_of,
    trim_bounds, trimmed, unicode_whitespace,
};
use crate::token::{
    expiry_bytes, lemma_expired_token_is_refused, lemma_expiry_round_trip,
    lemma_issued_token_validates, token_claims, token_text, validate_token, Claims,
};

verus! {

/// What is decided for a request.
#[derive(Debug)]
pub enum Access {
    /// The path needs no session.
    Public,
    /// A valid token came with the request; these are its claims.
    Authenticated(Claims),
    /// The path needs a session and the request proves none.
    Rejected,
}

/// What such a decision is.
pub enum AccessView {
    Public,
    Authenticated { subject: Seq<char>, exp: i64 },
    Rejected,
}

impl View for Access {
    type V = AccessView;

    open spec fn view(&self) -> AccessView {
        match *self {
            Access::Public => AccessView::Public,
            Access::Authenticated(claims) => AccessView::Authenticated {
                subject: claims.sub@,
                exp: claims.exp,
            },
            Access::Rejected => AccessView::Rejected,
        }
    }
}

impl Access {
    /// The reply to a request that is not let through.
    pub fn refusal(&self) -> (reply: Option<Reply>)
        ensures
            reply == if *self is Rejected {
                Some(Reply::MissingOrInvalidToken)
            } else {
                None
            },
    {
        match self {
            Access::Rejected => Some(Reply::MissingOrInvalidToken),
            _ => None,
        }
    }
}

/// Whether `path` needs no session: the authentication endpoints and the
/// liveness probe.
pub open spec fn is_public_path(path: Seq<char>) -> bool {
    has_prefix(path, "/api/v1/auth/"@) || path == "/health"@
}

/// The token that an `Authorization` header gives: what follows `Bearer `,
/// without further copies of it and without surrounding whitespace.
pub open spec fn bearer_token(header: Seq<char>) -> Option<Seq<char>> {
    if has_prefix(header, "Bearer "@) {
        Some(trimmed(strip_repeated(header, "Bearer "@)))
    } else {
        None
    }
}

/// The claims of the token of `source`, where it holds a valid one.
pub open spec fn claims_from(source: Option<Seq<char>>, secret: Seq<char>, now: i64) -> Option<
    (Seq<char>, i64),
> {
    match source {
        Some(token) => token_claims(token, secret, now),
        None => None,
    }
}

/// The token that the header of a request gives, if it has such a header.
pub open spec fn header_token(authorization: Option<Seq<char>>) -> Option<Seq<char>> {
    match authorization {
        Some(header) => bearer_token(header),
        None => None,
    }
}

/// The decision for a request. The header is looked at first, so a valid
/// token there overrides the cookie; an invalid one does not stop the cookie
/// from being tried.
pub open spec fn access_for(
    path: Seq<char>,
    authorization: Option<Seq<char>>,
    cookie: Option<Seq<char>>,
    secret: Seq<char>,
    now: i64,
) -> AccessView {
    if is_public_path(path) {
        AccessView::Public
    } else {
        match claims_from(header_token(authorization), secret, now) {
            Some((subject, exp)) => AccessView::Authenticated { subject, exp },
            None => match claims_from(cookie, secret, now) {
                Some((subject, exp)) => AccessView::Authenticated { subject, exp },
                None => AccessView::Rejected,
            },
        }
    }
}

/// Whether `path` needs no session.
pub fn public_path(path: &str) -> (b: bool)
    ensures
        b == is_public_path(path@),
{
    let chars = chars_of(path);
    let prefix = chars_of("/api/v1/auth/");
    if prefix_at(&chars, 0, &prefix) {
        assert(chars@.subrange(0, chars@.len() as int) =~= chars@);
        return true;
    }
    assert(chars@.subrange(0, chars@.len() as int) =~= chars@);
    path.to_string() == "/health".to_string()
}

/// The token that an `Authorization` header gives, if it gives one.
pub fn extract_bearer(header: &str) -> (token: Option<String>)
    ensures
        match token {
            Some(t) => bearer_token(header@) == Some(t@),
            None => bearer_token(header@) is None,
        },
{
    let chars = chars_of(header);
    let prefix = chars_of("Bearer ");
    assert(chars@.subrange(0, chars@.len() as int) =~= chars@);
    if !prefix_at(&chars, 0, &prefix) {
        return None;
    }
    let at = skip_repeated(&chars, &prefix);
    let rest = tail_of(&chars, at);
    let (from, to) = trim_bounds(&rest);
    Some(string_of_range(&rest, from, to))
}

/// The access control. It holds the secret that tokens are signed with.
#[derive(Debug)]
pub struct AuthMiddleware {
    pub secret: String,
}

impl AuthMiddleware {
    /// An access control for tokens signed with `secret`.
    pub fn new(secret: String) -> (control: Self)
        ensures
            control.secret@ == secret@,
    {
        AuthMiddleware { secret }
    }

    fn claims_of(&self, source: Option<&str>, now: i64) -> (claims: Option<Claims>)
        ensures
            match claims {
                Some(c) => claims_from(
                    match source {
                        Some(t) => Some(t@),
                        None => None,
                    },
                    self.secret@,
                    now,
                ) == Some((c.sub@, c.exp)),
                None => claims_from(
                    match source {
                        Some(t) => Some(t@),
                        None => None,
                    },
                    self.secret@,
                    now,
                ) is None,
            },
    {
        match source {
            Some(token) => match validate_token(token, self.secret.as_str(), now) {
                Ok(claims) => Some(claims),
                Err(_) => None,
            },
            None => None,
        }
    }

    /// Decides on a request from its path, its `Authorization` header and
    /// the value of its access cookie, at time `now`.
    pub fn check(
        &self,
        path: &str,
        authorization: Option<&str>,
        cookie: Option<&str>,
        now: i64,
    ) -> (access: Access)
        ensures
            access@ == access_for(
                path@,
                match authorization {
                    Some(h) => Some(h@),
                    None => None,
                },
                match cookie {
                    Some(c) => Some(c@),
                    None => None,
                },
                self.secret@,
                now,
            ),
    {
        if public_path(path) {
            return Access::Public;
        }
        let bearer = match authorization {
            Some(header) => extract_bearer(header),
            None => None,
        };
        let from_header = match &bearer {
            Some(token) => self.claims_of(Some(token.as_str()), now),
            None => self.claims_of(None, now),
        };
        match from_header {
            Some(claims) => Access::Authenticated(claims),
            None => match self.claims_of(cookie, now) {
                Some(claims) => Access::Authenticated(claims),
                None => Access::Rejected,
            },
        }
    }
}

/// No protected path is reached without a valid token: a request for one is
/// refused exactly when neither its header nor its cookie holds a token that
/// is valid at that time, and a valid token in the header decides.
pub proof fn lemma_access_is_strict(
    path: Seq<char>,
    authorization: Option<Seq<char>>,
    cookie: Option<Seq<char>>,
    secret: Seq<char>,
    now: i64,
)
    requires
        !is_public_path(path),
    ensures
        access_for(path, authorization, cookie, secret, now) is Rejected <==> claims_from(
            header_token(authorization),
            secret,
            now,
        ) is None && claims_from(cookie, secret, now) is None,
        claims_from(header_token(authorization), secret, now) matches Some((subject, exp))
            ==> access_for(path, authorization, cookie, secret, now) == (AccessView::Authenticated {
            subject,
            exp,
        }),
{
}

/// A token that was just issued opens a protected path from the cookie,
/// with its subject unchanged.
pub proof fn lemma_issued_token_opens_by_cookie(
    path: Seq<char>,
    subject: Seq<char>,
    exp: i64,
    secret: Seq<char>,
    now: i64,
)
    requires
        !is_public_path(path),
        now < exp,
    ensures
        access_for(path, None, Some(token_text(subject, exp, secret)), secret, now) == (
        AccessView::Authenticated { subject, exp }),
{
    lemma_issued_token_validates(subject, exp, secret, now);
}

/// A token past its expiry, as the only credential of a request, does not
/// open a protected path from the cookie, though its tag is the right one.
pub proof fn lemma_expired_token_is_rejected_by_cookie(
    path: Seq<char>,
    subject: Seq<char>,
    exp: i64,
    secret: Seq<char>,
    now: i64,
)
    requires
        !is_public_path(path),
        now >= exp,
    ensures
        access_for(path, None, Some(token_text(subject, exp, secret)), secret, now) is Rejected,
{
    lemma_expired_token_is_refused(subject, exp, secret, now);
}

/// Whether trimming leaves `text` as it is: it neither starts nor ends with
/// whitespace.
pub open spec fn has_no_outer_whitespace(text: Seq<char>) -> bool {
    text.len() > 0 ==> !unicode_whitespace(text.first()) && !unicode_whitespace(text.last())
}

/// The header `Bearer ` followed by a text gives that text as the token,
/// where the text does not itself start with `Bearer ` and has no whitespace
/// at its ends.
pub proof fn lemma_bearer_header_gives_token(token: Seq<char>)
    requires
        !has_prefix(token, "Bearer "@),
        has_no_outer_whitespace(token),
    ensures
        bearer_token("Bearer "@ + token) == Some(token),
{
    let prefix = "Bearer "@;
    let header = prefix + token;
    reveal_strlit("Bearer ");
    assert(header.subrange(0, prefix.len() as int) =~= prefix);
    assert(header.skip(prefix.len() as int) =~= token);
    assert(strip_repeated(token, prefix) == token);
    assert(strip_repeated(header, prefix) == token);
    assert(trimmed(token) == token);
}

proof fn lemma_issued_token_is_no_header(subject: Seq<char>, exp: i64, secret: Seq<char>)
    ensures
        !has_prefix(token_text(subject, exp, secret), "Bearer "@),
        token_text(subject, exp, secret).len() > 16,
{
    let prefix = "Bearer "@;
    let token = token_text(subject, exp, secret);
    let digits = hex_of_bytes(expiry_bytes(exp));
    reveal_strlit("Bearer ");
    lemma_expiry_round_trip(exp);
    lemma_hex_round_trip(expiry_bytes(exp));
    assert(token[0] == digits[0]);
    assert(hex_value(digits[0]) is Some);
    if has_prefix(token, prefix) {
        assert(token.subrange(0, prefix.len() as int)[0] == prefix[0]);
    }
}

/// A token that was just issued opens a protected path from the header,
/// with its subject unchanged and whatever the cookie holds, where the
/// token has no whitespace at its ends.
pub proof fn lemma_issued_token_opens_by_header(
    path: Seq<char>,
    subject: Seq<char>,
    exp: i64,
    secret: Seq<char>,
    now: i64,
    cookie: Option<Seq<char>>,
)
    requires
        !is_public_path(path),
        now < exp,
        has_no_outer_whitespace(token_text(subject, exp, secret)),
    ensures
        access_for(
            path,
            Some("Bearer "@ + token_text(subject, exp, secret)),
            cookie,
            secret,
            now,
        ) == (AccessView::Authenticated { subject, exp }),
{
    lemma_issued_token_is_no_header(subject, exp, secret);
    lemma_bearer_header_gives_token(token_text(subject, exp, secret));
    lemma_issued_token_validates(subject, exp, secret, now);
}

/// A token past its expiry, as the only credential of a request, does not
/// open a protected path from the header, where the token has no whitespace
/// at its ends.
pub proof fn lemma_expired_token_is_rejected_by_header(
    path: Seq<char>,
    subject: Seq<char>,
    exp: i64,
    secret: Seq<char>,
    now: i64,
)
    requires
        !is_public_path(path),
        now >= exp,
        has_no_outer_whitespace(token_text(subject, exp, secret)),
    ensures
        access_for(path, Some("Bearer "@ + token_text(subject, exp, secret)), None, secret, now)
            is Rejected,
{
    lemma_issued_token_is_no_header(subject, exp, secret);
    lemma_bearer_header_gives_token(token_text(subject, exp, secret));
    lemma_expired_token_is_refused(subject, exp, secret, now);
}

} // verus!
