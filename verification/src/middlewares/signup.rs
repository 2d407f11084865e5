//! New accounts only while they are allowed.

use vstd::prelude::*;

use crate::middlewares::Guard;
use crate::middlewares::registration_guard;

verus! {

/// Decides what is done with a request for a new account.
pub fn registration_closed(disabled: bool) -> (r: Guard)
    ensures
        r == registration_guard::guard(disabled),
        r is Pass <==> !disabled,
{
    registration_guard::registration_guard(disabled)
}

} // verus!
