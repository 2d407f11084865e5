//! What users say of their availability.

use vstd::prelude::*;

use crate::ids;
use crate::ids::{Oid, parse_oid};
use crate::reply::{Lookup, Refusal, error};
use crate::text;

verus! {

/// Request to change the availability.
pub struct UpdateStatusBody {
    pub availability_status: Option<String>,
}

/// Whether a text names an availability.
pub open spec fn is_availability(s: Seq<char>) -> bool {
    s == "online"@ || s == "away"@ || s == "brb"@ || s == "dnd"@
}

/// Whether a text names an availability.
pub fn names_availability(s: &str) -> (r: bool)
    ensures
        r == is_availability(s@),
{
    text::same_text(s, "online") || text::same_text(s, "away") || text::same_text(s, "brb")
        || text::same_text(s, "dnd")
}

/// What is known while the availability of a user is changed.
#[derive(Clone, Copy, Debug)]
pub struct StatusFacts {
    pub user: Option<Lookup<()>>,
    pub stored: Option<Lookup<()>>,
    pub told: bool,
    /// The availability was put into the cache.
    pub cached: bool,
}

/// What to do next while the availability of a user is changed.
#[derive(Debug, PartialEq, Eq)]
pub enum StatusStep {
    LoadUser(Oid),
    /// Store the availability alone: whether the user is shown as online stays as it is.
    Store { user: Oid, status: String },
    /// Tell the others of the availability, with whether the user is online and when last seen.
    TellOthers { user: Oid, status: String },
    PutInCache { user: Oid, status: String },
    Reply { status: String },
    Refuse(Refusal),
}

/// The view of `StatusStep`.
#[verifier::ext_equal]
pub enum StatusStepView {
    LoadUser(Oid),
    Store { user: Oid, status: Seq<char> },
    TellOthers { user: Oid, status: Seq<char> },
    PutInCache { user: Oid, status: Seq<char> },
    Reply { status: Seq<char> },
    Refuse(Refusal),
}

impl View for StatusStep {
    type V = StatusStepView;

    open spec fn view(&self) -> StatusStepView {
        match self {
            StatusStep::LoadUser(a) => StatusStepView::LoadUser(*a),
            StatusStep::Store { user, status } => StatusStepView::Store {
                user: *user,
                status: status@,
            },
            StatusStep::TellOthers { user, status } => StatusStepView::TellOthers {
                user: *user,
                status: status@,
            },
            StatusStep::PutInCache { user, status } => StatusStepView::PutInCache {
                user: *user,
                status: status@,
            },
            StatusStep::Reply { status } => StatusStepView::Reply { status: status@ },
            StatusStep::Refuse(a) => StatusStepView::Refuse(*a),
        }
    }
}

pub open spec fn status_step(user: Option<&str>, body: UpdateStatusBody, f: StatusFacts) -> StatusStepView {
    let status = body.availability_status->0@;
    let id = ids::oid_of(user->0@)->0;
    if body.availability_status is None || !is_availability(body.availability_status->0@) {
        StatusStepView::Refuse(error(400, "Invalid availability status"))
    } else if user is None || ids::oid_of(user->0@) is None {
        StatusStepView::Refuse(error(500, "Server error"))
    } else if f.user is None {
        StatusStepView::LoadUser(id)
    } else if f.user->0 is Missing {
        StatusStepView::Refuse(error(404, "User not found"))
    } else if f.user->0 is Failed {
        StatusStepView::Refuse(error(503, "Temporarily unavailable. Retry."))
    } else if f.stored is None {
        StatusStepView::Store { user: id, status }
    } else if f.stored->0 is Missing {
        StatusStepView::Refuse(error(404, "User not found"))
    } else if f.stored->0 is Failed {
        StatusStepView::Refuse(error(503, "Temporarily unavailable. Retry."))
    } else if !f.told {
        StatusStepView::TellOthers { user: id, status }
    } else if !f.cached {
        StatusStepView::PutInCache { user: id, status }
    } else {
        StatusStepView::Reply { status }
    }
}

/// Decides the next step of changing the availability of a user.
pub fn update_user_status(user: Option<&str>, body: &UpdateStatusBody, f: &StatusFacts) -> (r:
    StatusStep)
    ensures
        r@ == status_step(user, *body, *f),
{
    let status = match &body.availability_status {
        None => return StatusStep::Refuse(error(400, "Invalid availability status")),
        Some(s) => {
            if !names_availability(s.as_str()) {
                return StatusStep::Refuse(error(400, "Invalid availability status"));
            }
            s
        },
    };
    let user = match user {
        None => return StatusStep::Refuse(error(500, "Server error")),
        Some(u) => u,
    };
    let id = match parse_oid(user) {
        None => return StatusStep::Refuse(error(500, "Server error")),
        Some(id) => id,
    };
    match f.user {
        None => return StatusStep::LoadUser(id),
        Some(Lookup::Missing) => return StatusStep::Refuse(error(404, "User not found")),
        Some(Lookup::Failed) => return StatusStep::Refuse(
            error(503, "Temporarily unavailable. Retry."),
        ),
        Some(Lookup::Found(_)) => {},
    }
    match f.stored {
        None => return StatusStep::Store { user: id, status: status.clone() },
        Some(Lookup::Missing) => return StatusStep::Refuse(error(404, "User not found")),
        Some(Lookup::Failed) => return StatusStep::Refuse(
            error(503, "Temporarily unavailable. Retry."),
        ),
        Some(Lookup::Found(_)) => {},
    }
    if !f.told {
        StatusStep::TellOthers { user: id, status: status.clone() }
    } else if !f.cached {
        StatusStep::PutInCache { user: id, status: status.clone() }
    } else {
        StatusStep::Reply { status: status.clone() }
    }
}

/// When the user was last seen, as others are told: not at all while the user is online.
pub fn told_last_seen(online: bool, last_seen: Option<i64>) -> (r: Option<i64>)
    ensures
        r == (if online {
            None
        } else {
            last_seen
        }),
{
    if online {
        None
    } else {
        last_seen
    }
}

/// Only the four known availabilities are stored, and it is the one that was asked for that is
/// stored, told and shown.
pub proof fn law_stored_availability_is_known(
    user: Option<&str>,
    body: UpdateStatusBody,
    f: StatusFacts,
)
    ensures
        ({
            let asked = body.availability_status;
            match status_step(user, body, f) {
                StatusStepView::Store { status, .. } => asked is Some && status == asked->0@
                    && is_availability(status),
                StatusStepView::TellOthers { status, .. } => asked is Some && status == asked->0@
                    && is_availability(status),
                StatusStepView::PutInCache { status, .. } => asked is Some && status == asked->0@
                    && is_availability(status),
                StatusStepView::Reply { status } => asked is Some && status == asked->0@
                    && is_availability(status),
                _ => true,
            }
        }),
{
}

/// A known user sets one of the availabilities: the request is not refused while nothing fails; it is
/// stored for that user, told to the others, put into the cache and replied, in that order.
pub proof fn law_availability_is_set(
    user: Option<&str>,
    body: UpdateStatusBody,
    f: StatusFacts,
)
    ensures
        ({
            let s = status_step(user, body, f);
            let status = body.availability_status->0@;
            let fits = body.availability_status is Some && (status == "online"@ || status == "away"@
                || status == "brb"@ || status == "dnd"@) && user is Some && ids::oid_of(user->0@) is
                Some;
            let id = ids::oid_of(user->0@)->0;
            let found = f.user is Some && f.user->0 is Found;
            let stored = found && f.stored is Some && f.stored->0 is Found;
            &&& fits && f.user is None <==> s is LoadUser
            &&& s is LoadUser ==> s == StatusStepView::LoadUser(id)
            &&& fits && found && f.stored is None <==> s is Store
            &&& s is Store ==> s == (StatusStepView::Store { user: id, status })
            &&& fits && stored && !f.told <==> s is TellOthers
            &&& s is TellOthers ==> s == (StatusStepView::TellOthers { user: id, status })
            &&& fits && stored && f.told && !f.cached <==> s is PutInCache
            &&& s is PutInCache ==> s == (StatusStepView::PutInCache { user: id, status })
            &&& fits && stored && f.told && f.cached <==> s is Reply
            &&& s is Reply ==> s == (StatusStepView::Reply { status })
        }),
{
}

} // verus!
