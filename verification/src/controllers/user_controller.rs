//! Whether a user is there.

use vstd::prelude::*;

use crate::ids;
use crate::ids::{Oid, parse_oid};
use crate::reply::{Answer, Lookup, Refusal, again, error};
use crate::text;

verus! {

/// What to do next while the status of a user is shown.
#[derive(Clone, Copy, Debug, PartialEq, Eq)]
pub enum StatusStep {
    AskFriends,
    LoadUser(Oid),
    Reply,
    Refuse(Refusal),
}

pub open spec fn status_step(
    viewer: Option<&str>,
    user: Seq<char>,
    friends: Option<Answer>,
    found: Option<Lookup<()>>,
) -> StatusStep {
    if viewer is None || viewer->0@.len() == 0 {
        StatusStep::Refuse(error(401, "Authentication required"))
    } else if ids::oid_of(user) is None {
        StatusStep::Refuse(error(404, "User not found"))
    } else if viewer->0@ != user && friends is None {
        StatusStep::AskFriends
    } else if viewer->0@ != user && friends->0 is No {
        StatusStep::Refuse(error(403, "Forbidden"))
    } else if viewer->0@ != user && friends->0 is Failed {
        StatusStep::Refuse(again(error(503, "Temporarily unavailable")))
    } else {
        match found {
            None => StatusStep::LoadUser(ids::oid_of(user)->0),
            Some(Lookup::Found(_)) => StatusStep::Reply,
            Some(Lookup::Missing) => StatusStep::Refuse(error(404, "User not found")),
            Some(Lookup::Failed) => StatusStep::Refuse(error(500, "Server error")),
        }
    }
}

/// Decides the next step of showing the status of a user.
pub fn get_user_status(
    viewer: Option<&str>,
    user: &str,
    friends: Option<Answer>,
    found: Option<Lookup<()>>,
) -> (r: StatusStep)
    ensures
        r == status_step(viewer, user@, friends, found),
{
    let viewer = match viewer {
        None => return StatusStep::Refuse(error(401, "Authentication required")),
        Some(v) => v,
    };
    if viewer.is_empty() {
        return StatusStep::Refuse(error(401, "Authentication required"));
    }
    let id = match parse_oid(user) {
        None => return StatusStep::Refuse(error(404, "User not found")),
        Some(id) => id,
    };
    if !text::same_text(viewer, user) {
        match friends {
            None => return StatusStep::AskFriends,
            Some(Answer::Yes) => {},
            Some(Answer::No) => return StatusStep::Refuse(error(403, "Forbidden")),
            Some(Answer::Failed) => return StatusStep::Refuse(
                again(error(503, "Temporarily unavailable")),
            ),
        }
    }
    match found {
        None => StatusStep::LoadUser(id),
        Some(Lookup::Found(_)) => StatusStep::Reply,
        Some(Lookup::Missing) => StatusStep::Refuse(error(404, "User not found")),
        Some(Lookup::Failed) => StatusStep::Refuse(error(500, "Server error")),
    }
}

/// The status of a user is loaded and shown only for the user and for friends.
pub proof fn law_status_is_for_friends(
    viewer: Option<&str>,
    user: Seq<char>,
    friends: Option<Answer>,
    found: Option<Lookup<()>>,
)
    ensures
        status_step(viewer, user, friends, found) is LoadUser || status_step(
            viewer,
            user,
            friends,
            found,
        ) is Reply ==> viewer is Some && (viewer->0@ == user || friends == Some(Answer::Yes)),
{
}

/// A user sees the own status and that of friends: the request is not refused while nothing fails, and
/// replied only where the user was found.
pub proof fn law_friends_see_the_status(
    viewer: Option<&str>,
    user: Seq<char>,
    friends: Option<Answer>,
    found: Option<Lookup<()>>,
)
    ensures
        ({
            let s = status_step(viewer, user, friends, found);
            let asks = viewer is Some && viewer->0@.len() > 0 && ids::oid_of(user) is Some;
            let near = viewer->0@ == user || friends == Some(Answer::Yes);
            &&& asks && viewer->0@ != user && friends is None <==> s is AskFriends
            &&& asks && near && found is None <==> s is LoadUser
            &&& s is LoadUser ==> s == StatusStep::LoadUser(ids::oid_of(user)->0)
            &&& asks && near && found is Some && found->0 is Found <==> s is Reply
            &&& asks && viewer->0@ != user && friends == Some(Answer::No) ==> s == StatusStep::Refuse(
                error(403, "Forbidden"),
            )
        }),
{
}

} // verus!
