//! A secret between the public server and the one behind it.

use vstd::prelude::*;

use crate::reply::{Refusal, error};
use crate::text;

verus! {

/// The header that carries the secret.
pub const INTERNAL_PROXY_HEADER: &'static str = "x-internal-proxy";

/// The secret that is configured: none where the variable is blank.
pub open spec fn secret_of(value: Option<&str>) -> Option<Seq<char>> {
    if value is Some && text::trimmed(value->0@).len() > 0 {
        Some(text::trimmed(value->0@))
    } else {
        None
    }
}

/// Reads the secret that is configured.
pub fn internal_proxy_secret(value: Option<&str>) -> (r: Option<String>)
    ensures
        text::opt(r) == secret_of(value),
{
    match value {
        None => None,
        Some(v) => {
            let t = text::trim(v);
            if t.as_str().is_empty() {
                None
            } else {
                Some(t)
            }
        },
    }
}

/// What to do next while a request behind the public server is checked.
#[derive(Clone, Copy, Debug, PartialEq, Eq)]
pub enum ProxyStep {
    Pass,
    Refuse(Refusal),
}

/// What a request shows in the header: an empty text where there is none.
pub open spec fn shown(provided: Option<&str>) -> Seq<char> {
    match provided {
        None => Seq::empty(),
        Some(p) => p@,
    }
}

pub open spec fn proxy_step(configured: Option<&str>, provided: Option<&str>) -> ProxyStep {
    if secret_of(configured) is None || shown(provided) == secret_of(configured)->0 {
        ProxyStep::Pass
    } else {
        ProxyStep::Refuse(error(403, "Forbidden"))
    }
}

/// Decides whether a request behind the public server passes; `provided` is what it shows in the
/// header.
pub fn internal_proxy_guard(configured: Option<&str>, provided: Option<&str>) -> (r: ProxyStep)
    ensures
        r == proxy_step(configured, provided),
{
    match internal_proxy_secret(configured) {
        None => ProxyStep::Pass,
        Some(secret) => {
            let same = match provided {
                None => false,
                Some(p) => text::same_throughout(p, secret.as_str()),
            };
            if same {
                ProxyStep::Pass
            } else {
                ProxyStep::Refuse(error(403, "Forbidden"))
            }
        },
    }
}

/// Without a secret every request passes; with one, only those that show it.
pub proof fn law_guard_is_transparent_without_secret(
    configured: Option<&str>,
    provided: Option<&str>,
)
    ensures
        secret_of(configured) is None ==> proxy_step(configured, provided) is Pass,
        secret_of(configured) is Some ==> (proxy_step(configured, provided) is Pass <==> provided
            is Some && provided->0@ == secret_of(configured)->0),
{
}

} // verus!
