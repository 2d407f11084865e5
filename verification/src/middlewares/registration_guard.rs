//! New accounts only while they are allowed.

use vstd::prelude::*;

use crate::middlewares::Guard;
use crate::reply::{Refusal, coded, message};

verus! {

/// The reply while no new accounts are allowed.
#[verifier::allow_in_spec]
pub fn registration_disabled() -> Refusal
    returns
        coded(
            message(403, "Rejestracja nowych kont jest obecnie wyłączona."),
            "REGISTRATION_DISABLED",
        ),
{
    coded(message(403, "Rejestracja nowych kont jest obecnie wyłączona."), "REGISTRATION_DISABLED")
}

/// What is done with a request for a new account.
pub open spec fn guard(disabled: bool) -> Guard {
    if disabled {
        Guard::Refuse(registration_disabled())
    } else {
        Guard::Pass
    }
}

/// Decides what is done with a request for a new account.
pub fn registration_guard(disabled: bool) -> (r: Guard)
    ensures
        r == guard(disabled),
        r is Pass <==> !disabled,
{
    if disabled {
        Guard::Refuse(registration_disabled())
    } else {
        Guard::Pass
    }
}

} // verus!
