//! Changes need the same token in a cookie and in a header.

use vstd::prelude::*;

use crate::reply::{Refusal, error};
use crate::text;

verus! {

/// Whether requests for a path need no token.
pub open spec fn is_exempt_path(path: Seq<char>) -> bool {
    path == "/api/auth/login"@ || path == "/api/auth/sign-in"@ || path == "/api/auth/signin"@ || path
        == "/api/auth/signup"@ || path == "/api/auth/register"@ || path == "/api/auth/login/2fa"@
        || path == "/api/auth/refresh"@
}

/// Finds whether requests for a path, in its canonical form, need no token.
pub fn is_exempt(path: &str) -> (r: bool)
    ensures
        r == is_exempt_path(path@),
{
    text::same_text(path, "/api/auth/login") || text::same_text(path, "/api/auth/sign-in")
        || text::same_text(path, "/api/auth/signin") || text::same_text(path, "/api/auth/signup")
        || text::same_text(path, "/api/auth/register") || text::same_text(
        path,
        "/api/auth/login/2fa",
    ) || text::same_text(path, "/api/auth/refresh")
}

/// Whether requests of a method change nothing.
pub open spec fn is_reading(method: Seq<char>) -> bool {
    method == "GET"@ || method == "HEAD"@ || method == "OPTIONS"@
}

fn reads(method: &str) -> (r: bool)
    ensures
        r == is_reading(method@),
{
    text::same_text(method, "GET") || text::same_text(method, "HEAD") || text::same_text(
        method,
        "OPTIONS",
    )
}

/// The token of a header: none where it is blank.
pub open spec fn header_token(header: Option<&str>) -> Option<Seq<char>> {
    if header is Some && text::trimmed(header->0@).len() > 0 {
        Some(text::trimmed(header->0@))
    } else {
        None
    }
}

/// Reads the token of a header.
pub fn read_header_token(header: Option<&str>) -> (r: Option<String>)
    ensures
        text::opt(r) == header_token(header),
{
    match header {
        None => None,
        Some(h) => {
            let t = text::trim(h);
            if t.as_str().is_empty() {
                None
            } else {
                Some(t)
            }
        },
    }
}

/// What to do next while the tokens of a request are checked.
#[derive(Clone, Copy, Debug, PartialEq, Eq)]
pub enum CsrfStep {
    Pass,
    Refuse(Refusal),
}

pub open spec fn csrf_step(
    method: Seq<char>,
    path: Seq<char>,
    cookie: Option<&str>,
    header: Option<&str>,
) -> CsrfStep {
    if is_reading(method) || is_exempt_path(path) {
        CsrfStep::Pass
    } else if cookie is None || cookie->0@.len() == 0 || header_token(header) is None {
        CsrfStep::Refuse(error(403, "Invalid or missing CSRF token"))
    } else if cookie->0@ == header_token(header)->0 {
        CsrfStep::Pass
    } else {
        CsrfStep::Refuse(error(403, "Invalid or missing CSRF token"))
    }
}

/// Decides whether a request passes by its tokens; `path` is in its canonical form.
pub fn csrf_middleware(
    method: &str,
    path: &str,
    cookie: Option<&str>,
    header: Option<&str>,
) -> (r: CsrfStep)
    ensures
        r == csrf_step(method@, path@, cookie, header),
{
    if reads(method) || is_exempt(path) {
        return CsrfStep::Pass;
    }
    let cookie = match cookie {
        None => return CsrfStep::Refuse(error(403, "Invalid or missing CSRF token")),
        Some(c) => c,
    };
    if cookie.is_empty() {
        return CsrfStep::Refuse(error(403, "Invalid or missing CSRF token"));
    }
    match read_header_token(header) {
        None => CsrfStep::Refuse(error(403, "Invalid or missing CSRF token")),
        Some(token) => if text::same_throughout(cookie, token.as_str()) {
            CsrfStep::Pass
        } else {
            CsrfStep::Refuse(error(403, "Invalid or missing CSRF token"))
        },
    }
}

/// A change passes exactly where its two tokens are the same, except on the paths that need none.
pub proof fn law_changes_need_tokens(
    method: Seq<char>,
    path: Seq<char>,
    cookie: Option<&str>,
    header: Option<&str>,
)
    requires
        !is_reading(method),
        !is_exempt_path(path),
    ensures
        csrf_step(method, path, cookie, header) is Pass <==> cookie is Some && cookie->0@.len() > 0
            && header_token(header) == Some(cookie->0@),
{
}

/// Requests that only read pass without a token, and so do those by which a session begins; nothing else
/// does. The header counts without the space around it.
pub proof fn law_reading_needs_no_token(
    method: Seq<char>,
    path: Seq<char>,
    cookie: Option<&str>,
    header: Option<&str>,
)
    ensures
        method == "GET"@ || method == "HEAD"@ || method == "OPTIONS"@ ==> csrf_step(
            method,
            path,
            cookie,
            header,
        ) is Pass,
        path == "/api/auth/login"@ || path == "/api/auth/signup"@ || path == "/api/auth/refresh"@
            || path == "/api/auth/register"@ || path == "/api/auth/sign-in"@ || path
            == "/api/auth/signin"@ || path == "/api/auth/login/2fa"@ ==> csrf_step(
            method,
            path,
            cookie,
            header,
        ) is Pass,
        csrf_step(method, path, cookie, header) is Pass ==> method == "GET"@ || method == "HEAD"@
            || method == "OPTIONS"@ || is_exempt_path(path) || (cookie is Some && header is Some
            && cookie->0@.len() > 0 && text::trimmed(header->0@) == cookie->0@),
        cookie is Some && cookie->0@.len() > 0 && header is Some && text::trimmed(header->0@)
            == cookie->0@ ==> csrf_step(method, path, cookie, header) is Pass,
{
}

} // verus!
