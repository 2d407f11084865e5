//! Requests of browsers must come from known origins.

use vstd::prelude::*;

use crate::reply::{Refusal, error};
use crate::text;

verus! {

/// How strictly an origin is checked.
#[derive(Clone, Copy, Debug, PartialEq, Eq)]
pub enum OriginGuardMode {
    /// Only an origin that is known to be bad is refused.
    RejectKnownBad,
    Strict,
}

/// What to do next while the origin of a request is checked.
#[derive(Clone, Copy, Debug, PartialEq, Eq)]
pub enum OriginStep {
    Pass,
    CheckOrigin(OriginGuardMode),
    Refuse(Refusal),
}

/// How strictly the origin of a request is checked: less so where it only reads.
pub open spec fn mode_of(method: Seq<char>) -> OriginGuardMode {
    if method == "GET"@ || method == "HEAD"@ {
        OriginGuardMode::RejectKnownBad
    } else {
        OriginGuardMode::Strict
    }
}

pub open spec fn origin_step(required: bool, method: Seq<char>, valid: Option<bool>) -> OriginStep {
    if !required {
        OriginStep::Pass
    } else {
        match valid {
            None => OriginStep::CheckOrigin(mode_of(method)),
            Some(true) => OriginStep::Pass,
            Some(false) => OriginStep::Refuse(error(403, "Invalid origin")),
        }
    }
}

/// Decides the next step of checking the origin of a request; `required` is whether it is checked
/// at all.
pub fn origin_guard_middleware(required: bool, method: &str, valid: Option<bool>) -> (r: OriginStep)
    ensures
        r == origin_step(required, method@, valid),
{
    if !required {
        return OriginStep::Pass;
    }
    match valid {
        None => OriginStep::CheckOrigin(
            if text::same_text(method, "GET") || text::same_text(method, "HEAD") {
                OriginGuardMode::RejectKnownBad
            } else {
                OriginGuardMode::Strict
            },
        ),
        Some(true) => OriginStep::Pass,
        Some(false) => OriginStep::Refuse(error(403, "Invalid origin")),
    }
}

/// Where an origin is required a request passes exactly with a valid one, which is judged strictly unless
/// the request only reads; elsewhere all pass.
pub proof fn law_required_origin_is_checked(
    required: bool,
    method: Seq<char>,
    valid: Option<bool>,
)
    ensures
        ({
            let s = origin_step(required, method, valid);
            let reads = method == "GET"@ || method == "HEAD"@;
            &&& s is Pass <==> !required || (valid is Some && valid->0)
            &&& s is CheckOrigin <==> required && valid is None
            &&& s is CheckOrigin && reads ==> s == OriginStep::CheckOrigin(
                OriginGuardMode::RejectKnownBad,
            )
            &&& s is CheckOrigin && !reads ==> s == OriginStep::CheckOrigin(OriginGuardMode::Strict)
            &&& s is Refuse ==> s == OriginStep::Refuse(error(403, "Invalid origin"))
        }),
{
}

} // verus!
