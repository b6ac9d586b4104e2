//! The cookie that carries the session token to the browser and back.

use vstd::prelude::*;

verus! {

/// The cookie's `SameSite` attribute.
#[derive(Debug, Clone, Copy, PartialEq, Eq, Structural)]
pub enum SameSite {
    Strict,
    Lax,
    Unrestricted,
}

/// A cookie, as the plain values that a response needs to set it.
///
/// `max_age` is in seconds; without one the cookie lasts for the browser
/// session, and the expiry signed into the token is the real deadline.
#[derive(Debug)]
pub struct AccessCookie {
    pub name: String,
    pub value: String,
    pub path: String,
    pub http_only: bool,
    pub secure: bool,
    pub same_site: SameSite,
    pub max_age: Option<i64>,
}

/// What an access cookie is, field by field.
pub struct AccessCookieView {
    pub name: Seq<char>,
    pub value: Seq<char>,
    pub path: Seq<char>,
    pub http_only: bool,
    pub secure: bool,
    pub same_site: SameSite,
    pub max_age: Option<i64>,
}

impl View for AccessCookie {
    type V = AccessCookieView;

    open spec fn view(&self) -> AccessCookieView {
        AccessCookieView {
            name: self.name@,
            value: self.value@,
            path: self.path@,
            http_only: self.http_only,
            secure: self.secure,
            same_site: self.same_site,
            max_age: self.max_age,
        }
    }
}

/// The access cookie with the given value and lifetime: named
/// `access_token`, for the whole site, hidden from scripts, sent on top-level
/// navigation only, and restricted to HTTPS where `secure` is set.
pub open spec fn access_cookie(value: Seq<char>, secure: bool, max_age: Option<i64>) -> AccessCookieView {
    AccessCookieView {
        name: "access_token"@,
        value,
        path: "/"@,
        http_only: true,
        secure,
        same_site: SameSite::Lax,
        max_age,
    }
}

/// The access cookie with no value yet. `secure` is set in production.
pub fn base_access_token_cookie(secure: bool) -> (cookie: AccessCookie)
    ensures
        cookie@ == access_cookie(""@, secure, None),
{
    AccessCookie {
        name: "access_token".to_string(),
        value: "".to_string(),
        path: "/".to_string(),
        http_only: true,
        secure,
        same_site: SameSite::Lax,
        max_age: None,
    }
}

/// The access cookie that carries `token`.
pub fn set_access_token(token: &str, secure: bool) -> (cookie: AccessCookie)
    ensures
        cookie@ == access_cookie(token@, secure, None),
{
    let mut cookie = base_access_token_cookie(secure);
    cookie.value = token.to_string();
    cookie
}

/// The access cookie that makes the browser forget its token: no value, and
/// a lifetime of zero seconds.
pub fn clear_access_token(secure: bool) -> (cookie: AccessCookie)
    ensures
        cookie@ == access_cookie(""@, secure, Some(0i64)),
{
    let mut cookie = base_access_token_cookie(secure);
    cookie.max_age = Some(0);
    cookie
}

/// The value of the first cookie named `name` among the cookies of a
/// request, given as pairs of name and value.
pub open spec fn first_named(cookies: Seq<(Seq<char>, Seq<char>)>, name: Seq<char>) -> Option<
    Seq<char>,
>
    decreases cookies.len(),
{
    if cookies.len() == 0 {
        None
    } else if cookies[0].0 == name {
        Some(cookies[0].1)
    } else {
        first_named(cookies.drop_first(), name)
    }
}

/// The views of the cookies of a request.
pub open spec fn cookie_views(cookies: Seq<(String, String)>) -> Seq<(Seq<char>, Seq<char>)> {
    cookies.map_values(|c: (String, String)| (c.0@, c.1@))
}

/// The token that a request carries in its cookies, if it carries one: the
/// value of its first cookie named `access_token`.
pub fn extract_access_token(cookies: &Vec<(String, String)>) -> (token: Option<String>)
    ensures
        match token {
            Some(t) => first_named(cookie_views(cookies@), "access_token"@) == Some(t@),
            None => first_named(cookie_views(cookies@), "access_token"@) is None,
        },
{
    let name = "access_token".to_string();
    let n = cookies.len();
    let mut i: usize = 0;
    let ghost all = cookie_views(cookies@);
    assert(all.skip(0) =~= all);
    while i < n
        invariant
            i <= n == cookies@.len(),
            all == cookie_views(cookies@),
            name@ == "access_token"@,
            first_named(all, name@) == first_named(all.skip(i as int), name@),
        decreases n - i,
    {
        assert(all.skip(i as int)[0] == all[i as int]);
        assert(all[i as int] == (cookies@[i as int].0@, cookies@[i as int].1@));
        if cookies[i].0 == name {
            return Some(cookies[i].1.clone());
        }
        assert(all.skip(i as int).drop_first() =~= all.skip(i + 1));
        i += 1;
    }
    None
}

} // verus!
