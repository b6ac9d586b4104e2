//! The security headers that every response gets.

use vstd::prelude::*;

verus! {

/// The headers of every response, as names with their values.
pub open spec fn common_headers_before() -> Seq<(Seq<char>, Seq<char>)> {
    seq![
        ("X-Frame-Options"@, "DENY"@),
        ("X-Content-Type-Options"@, "nosniff"@),
        ("X-XSS-Protection"@, "1; mode=block"@),
    ]
}

/// The header that production adds: browsers are to use HTTPS only.
pub open spec fn transport_header() -> (Seq<char>, Seq<char>) {
    ("Strict-Transport-Security"@, "max-age=31536000; includeSubDomains"@)
}

/// The headers that follow the transport header.
pub open spec fn common_headers_after() -> Seq<(Seq<char>, Seq<char>)> {
    seq![
        (
            "Content-Security-Policy"@,
            "default-src 'self'; script-src 'self' 'unsafe-inline'; style-src 'self' 'unsafe-inline'; img-src 'self' data: https:; font-src 'self' data:; connect-src 'self'; frame-ancestors 'none';"@,
        ),
        ("Referrer-Policy"@, "strict-origin-when-cross-origin"@),
        ("Permissions-Policy"@, "geolocation=(), microphone=(), camera=()"@),
    ]
}

/// The security headers, in the order in which they are set.
pub open spec fn security_headers(production: bool) -> Seq<(Seq<char>, Seq<char>)> {
    common_headers_before() + if production {
        seq![transport_header()]
    } else {
        seq![]
    } + common_headers_after()
}

/// The views of a list of headers.
pub open spec fn header_views(headers: Seq<(String, String)>) -> Seq<(Seq<char>, Seq<char>)> {
    headers.map_values(|h: (String, String)| (h.0@, h.1@))
}

fn header(name: &str, value: &str) -> (h: (String, String))
    ensures
        h.0@ == name@,
        h.1@ == value@,
{
    (name.to_string(), value.to_string())
}

/// Sets the security headers on every response.
#[derive(Debug, Clone, Copy)]
pub struct SecurityHeadersMiddleware;

impl SecurityHeadersMiddleware {
    /// The headers to set, in order. The transport header is set in
    /// production only.
    pub fn headers(&self, production: bool) -> (headers: Vec<(String, String)>)
        ensures
            header_views(headers@) == security_headers(production),
    {
        let mut headers: Vec<(String, String)> = Vec::new();
        headers.push(header("X-Frame-Options", "DENY"));
        headers.push(header("X-Content-Type-Options", "nosniff"));
        headers.push(header("X-XSS-Protection", "1; mode=block"));
        if production {
            headers.push(header("Strict-Transport-Security", "max-age=31536000; includeSubDomains"));
        }
        headers.push(
            header(
                "Content-Security-Policy",
                "default-src 'self'; script-src 'self' 'unsafe-inline'; style-src 'self' 'unsafe-inline'; img-src 'self' data: https:; font-src 'self' data:; connect-src 'self'; frame-ancestors 'none';",
            ),
        );
        headers.push(header("Referrer-Policy", "strict-origin-when-cross-origin"));
        headers.push(header("Permissions-Policy", "geolocation=(), microphone=(), camera=()"));
        assert(header_views(headers@) =~= security_headers(production));
        headers
    }
}

} // verus!
