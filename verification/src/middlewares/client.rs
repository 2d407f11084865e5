//! Requests must come from the official client; this is no authentication.

use vstd::prelude::*;

use crate::middlewares::client_guard;
use crate::middlewares::client_guard::ClientStep;
use crate::text;

verus! {

/// Decides what is done with a request; see `client_guard::client_guard_middleware`.
pub fn client_guard_middleware(
    method: &str,
    path: &str,
    header: Option<&str>,
    in_query: bool,
    watched: bool,
    noted: bool,
) -> (r: ClientStep)
    ensures
        r == client_guard::client_step(
            method@,
            path@,
            text::opt_str(header),
            in_query,
            watched,
            noted,
        ),
{
    client_guard::client_guard_middleware(method, path, header, in_query, watched, noted)
}

} // verus!
