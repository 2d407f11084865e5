//! Approval of new users.

use vstd::prelude::*;

use crate::ids;
use crate::ids::{Oid, parse_oid};
use crate::reply::{Lookup, Refusal, message};

verus! {

/// Request to approve a user.
pub struct ApproveUserBody {
    pub user_id: Option<String>,
}

/// What to do next while a user is approved.
#[derive(Clone, Copy, Debug, PartialEq, Eq)]
pub enum ApproveStep {
    Store(Oid),
    Reply(&'static str),
    Refuse(Refusal),
}

pub open spec fn approve_step(body: ApproveUserBody, stored: Option<Lookup<()>>) -> ApproveStep {
    if body.user_id is None {
        ApproveStep::Refuse(message(400, "User ID required."))
    } else if ids::oid_of(body.user_id->0@) is None {
        ApproveStep::Refuse(message(404, "User not found."))
    } else {
        match stored {
            None => ApproveStep::Store(ids::oid_of(body.user_id->0@)->0),
            Some(Lookup::Found(_)) => ApproveStep::Reply("User approved."),
            Some(Lookup::Missing) => ApproveStep::Refuse(message(404, "User not found.")),
            Some(Lookup::Failed) => ApproveStep::Refuse(message(500, "Error approving user.")),
        }
    }
}

/// Decides the next step of approving a user.
pub fn approve_user(body: &ApproveUserBody, stored: Option<Lookup<()>>) -> (r: ApproveStep)
    ensures
        r == approve_step(*body, stored),
{
    let user = match &body.user_id {
        None => return ApproveStep::Refuse(message(400, "User ID required.")),
        Some(u) => u,
    };
    let id = match parse_oid(user.as_str()) {
        None => return ApproveStep::Refuse(message(404, "User not found.")),
        Some(id) => id,
    };
    match stored {
        None => ApproveStep::Store(id),
        Some(Lookup::Found(_)) => ApproveStep::Reply("User approved."),
        Some(Lookup::Missing) => ApproveStep::Refuse(message(404, "User not found.")),
        Some(Lookup::Failed) => ApproveStep::Refuse(message(500, "Error approving user.")),
    }
}

/// A user who is named is approved, and success is replied only where that was stored.
pub proof fn law_named_user_is_approved(
    body: ApproveUserBody,
    stored: Option<Lookup<()>>,
)
    ensures
        ({
            let s = approve_step(body, stored);
            let named = body.user_id is Some && ids::oid_of(body.user_id->0@) is Some;
            &&& named && stored is None <==> s is Store
            &&& s is Store ==> s == ApproveStep::Store(ids::oid_of(body.user_id->0@)->0)
            &&& named && stored is Some && stored->0 is Found <==> s is Reply
            &&& s is Reply ==> s == ApproveStep::Reply("User approved.")
        }),
{
}

} // verus!
