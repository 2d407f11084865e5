//! Where approval is on, only approved users pass.

use vstd::prelude::*;

use crate::reply::{Refusal, message};

verus! {

/// What to do next while the approval of a user is checked.
#[derive(Clone, Copy, Debug, PartialEq, Eq)]
pub enum WhitelistStep {
    Pass,
    ResolveUser,
    Refuse(Refusal),
}

/// The steps of checking approval; `user` is whether the user is approved, where there is one.
pub open spec fn whitelist_step(enabled: bool, user: Option<Option<bool>>) -> WhitelistStep {
    if !enabled {
        WhitelistStep::Pass
    } else if user is None {
        WhitelistStep::ResolveUser
    } else if user->0 is None {
        WhitelistStep::Refuse(message(401, "User not authenticated."))
    } else if user->0->0 {
        WhitelistStep::Pass
    } else {
        WhitelistStep::Refuse(message(403, "User not whitelisted."))
    }
}

/// Decides the next step of checking approval.
pub fn whitelist_check(enabled: bool, user: Option<Option<bool>>) -> (r: WhitelistStep)
    ensures
        r == whitelist_step(enabled, user),
{
    if !enabled {
        return WhitelistStep::Pass;
    }
    match user {
        None => WhitelistStep::ResolveUser,
        Some(None) => WhitelistStep::Refuse(message(401, "User not authenticated.")),
        Some(Some(true)) => WhitelistStep::Pass,
        Some(Some(false)) => WhitelistStep::Refuse(message(403, "User not whitelisted.")),
    }
}

/// Where approval is on, only approved users pass.
pub proof fn law_only_approved_users_pass(user: Option<Option<bool>>)
    ensures
        whitelist_step(true, user) is Pass <==> user == Some(Some(true)),
{
}

/// While the whitelist does not hold everyone passes; while it does the user is asked for, and one who is
/// not approved is told so.
pub proof fn law_whitelist_asks_for_the_user(
    enabled: bool,
    user: Option<Option<bool>>,
)
    ensures
        ({
            let s = whitelist_step(enabled, user);
            &&& !enabled ==> s is Pass
            &&& enabled && user is None <==> s is ResolveUser
            &&& enabled && user is Some && user->0 is None ==> s == WhitelistStep::Refuse(
                message(401, "User not authenticated."),
            )
            &&& enabled && user is Some && user->0 is Some && !user->0->0 ==> s == WhitelistStep::Refuse(
                message(403, "User not whitelisted."),
            )
            &&& enabled && user is Some && user->0 is Some && user->0->0 ==> s is Pass
        }),
{
}

} // verus!
