//! A secret between the public server and the one behind it.

use vstd::prelude::*;

use crate::middlewares::internal_proxy_guard as guard;
use crate::middlewares::internal_proxy_guard::ProxyStep;
use crate::text;

verus! {

/// The header that carries the secret.
pub const INTERNAL_PROXY_HEADER: &'static str = "x-internal-proxy";

/// Reads the secret that is configured.
pub fn internal_proxy_secret(value: Option<&str>) -> (r: Option<String>)
    ensures
        text::opt(r) == guard::secret_of(value),
{
    guard::internal_proxy_secret(value)
}

/// Decides the next step of checking a request behind the public server.
pub fn proxy(configured: Option<&str>, provided: Option<&str>) -> (r: ProxyStep)
    ensures
        r == guard::proxy_step(configured, provided),
{
    guard::internal_proxy_guard(configured, provided)
}

} // verus!
