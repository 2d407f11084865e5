//! Announcements of the operators, which users dismiss.

use vstd::prelude::*;

use crate::controllers::e2e_controller;
use crate::controllers::e2e_controller::read_named;
use crate::ids;
use crate::ids::{Oid, parse_oid};
use crate::lists;
use crate::reply::{Done, Refusal, error};
use crate::text;

verus! {

/// The announcements that a user dismisses.
pub struct DismissAnnouncementsBody {
    pub announcement_ids: Option<Vec<String>>,
}

/// What to do next while announcements are shown or dismissed.
#[derive(Debug, PartialEq, Eq)]
pub enum AnnouncementStep {
    LoadActive(Oid),
    /// Note that the user has dismissed these.
    Dismiss { user: Oid, ids: Vec<Oid> },
    /// Reply with the announcements that are shown, in order, and their number; these are their
    /// places.
    Show(Vec<usize>),
    /// Reply with how many were dismissed.
    Reply { message: &'static str, dismissed: u64 },
    Refuse(Refusal),
}

/// The view of `AnnouncementStep`.
#[verifier::ext_equal]
pub enum AnnouncementStepView {
    LoadActive(Oid),
    Dismiss { user: Oid, ids: Seq<Oid> },
    Show(Seq<usize>),
    Reply { message: &'static str, dismissed: u64 },
    Refuse(Refusal),
}

impl View for AnnouncementStep {
    type V = AnnouncementStepView;

    open spec fn view(&self) -> AnnouncementStepView {
        match self {
            AnnouncementStep::LoadActive(a) => AnnouncementStepView::LoadActive(*a),
            AnnouncementStep::Dismiss { user, ids } => AnnouncementStepView::Dismiss {
                user: *user,
                ids: ids@,
            },
            AnnouncementStep::Show(a) => AnnouncementStepView::Show(a@),
            AnnouncementStep::Reply { message, dismissed } => AnnouncementStepView::Reply {
                message: *message,
                dismissed: *dismissed,
            },
            AnnouncementStep::Refuse(a) => AnnouncementStepView::Refuse(*a),
        }
    }
}

/// How the user of a request stands.
pub open spec fn user_gate(user: Option<&str>) -> Result<Oid, Refusal> {
    if user is None {
        Err(error(401, "User not authenticated."))
    } else if ids::oid_of(user->0@) is None {
        Err(error(400, "Invalid user id."))
    } else {
        Ok(ids::oid_of(user->0@)->0)
    }
}

fn pass_user(user: Option<&str>) -> (r: Result<Oid, Refusal>)
    ensures
        r == user_gate(user),
{
    match user {
        None => Err(error(401, "User not authenticated.")),
        Some(u) => match parse_oid(u) {
            None => Err(error(400, "Invalid user id.")),
            Some(id) => Ok(id),
        },
    }
}

/// Whether an announcement is shown: it has an id that the user has not dismissed.
pub open spec fn is_unread(id: Option<Oid>, dismissed: Seq<Oid>) -> bool {
    id is Some && !dismissed.contains(id->0)
}

/// The places, below `n`, of the announcements that are shown.
pub open spec fn unread_places(ids: Seq<Option<Oid>>, dismissed: Seq<Oid>, n: int) -> Seq<usize>
    decreases n,
{
    if n <= 0 {
        Seq::empty()
    } else if is_unread(ids[n - 1], dismissed) {
        unread_places(ids, dismissed, n - 1).push((n - 1) as usize)
    } else {
        unread_places(ids, dismissed, n - 1)
    }
}

/// Picks the announcements that are shown, in order. The result holds their places.
pub fn unread(ids: &Vec<Option<Oid>>, dismissed: &Vec<Oid>) -> (r: Vec<usize>)
    ensures
        r@ == unread_places(ids@, dismissed@, ids@.len() as int),
{
    let mut out: Vec<usize> = Vec::new();
    let mut i: usize = 0;
    while i < ids.len()
        invariant
            i <= ids.len(),
            out@ == unread_places(ids@, dismissed@, i as int),
        decreases ids.len() - i,
    {
        if let Some(id) = ids[i] {
            if !lists::has_oid(dismissed, id) {
                out.push(i);
            }
        }
        i += 1;
    }
    out
}

/// The dismissed announcements of a user: none where they could not be loaded.
pub open spec fn known_dismissed(dismissed: Option<Seq<Oid>>) -> Seq<Oid> {
    match dismissed {
        None => Seq::empty(),
        Some(ids) => ids,
    }
}

/// The view of a list of ids that may be missing.
pub open spec fn opt_ids(v: Option<Vec<Oid>>) -> Option<Seq<Oid>> {
    match v {
        None => None,
        Some(v) => Some(v@),
    }
}

pub open spec fn show_step(
    user: Option<&str>,
    ids: Seq<Option<Oid>>,
    dismissed: Option<Seq<Oid>>,
    loaded: Option<Done>,
) -> AnnouncementStepView {
    match user_gate(user) {
        Err(refusal) => AnnouncementStepView::Refuse(refusal),
        Ok(id) => match loaded {
            None => AnnouncementStepView::LoadActive(id),
            Some(Done::Failed) => AnnouncementStepView::Refuse(
                error(500, "Nie udało się pobrać ogłoszeń."),
            ),
            Some(Done::Worked) => AnnouncementStepView::Show(
                unread_places(ids, known_dismissed(dismissed), ids.len() as int),
            ),
        },
    }
}

/// Decides the next step of showing a user the announcements. `ids` are those of the active
/// announcements, `dismissed` the ones that the user has dismissed, as far as they could be loaded.
pub fn get_my_announcements(
    user: Option<&str>,
    ids: &Vec<Option<Oid>>,
    dismissed: &Option<Vec<Oid>>,
    loaded: Option<Done>,
) -> (r: AnnouncementStep)
    ensures
        r@ == show_step(user, ids@, opt_ids(*dismissed), loaded),
{
    match pass_user(user) {
        Err(refusal) => AnnouncementStep::Refuse(refusal),
        Ok(id) => match loaded {
            None => AnnouncementStep::LoadActive(id),
            Some(Done::Failed) => AnnouncementStep::Refuse(
                error(500, "Nie udało się pobrać ogłoszeń."),
            ),
            Some(Done::Worked) => match dismissed {
                None => AnnouncementStep::Show(unread(ids, &Vec::new())),
                Some(d) => AnnouncementStep::Show(unread(ids, d)),
            },
        },
    }
}

/// An announcement is shown exactly where it was not dismissed, so that one that is dismissed is
/// never shown again.
pub proof fn law_dismissed_stays_hidden(ids: Seq<Option<Oid>>, dismissed: Seq<Oid>, n: int, k: int)
    requires
        0 <= k < n <= ids.len(),
        ids.len() <= usize::MAX,
    ensures
        unread_places(ids, dismissed, n).contains(k as usize) <==> is_unread(ids[k], dismissed),
    decreases n,
{
    let before = unread_places(ids, dismissed, n - 1);
    let all = unread_places(ids, dismissed, n);
    if k < n - 1 {
        law_dismissed_stays_hidden(ids, dismissed, n - 1, k);
        if before.contains(k as usize) {
            let i = choose|i: int| 0 <= i < before.len() && before[i] == k as usize;
            assert(all[i] == k as usize);
        }
        if all.contains(k as usize) {
            let i = choose|i: int| 0 <= i < all.len() && all[i] == k as usize;
            if i < before.len() {
                assert(before[i] == k as usize);
            }
        }
    } else {
        lemma_places_below(ids, dismissed, n - 1);
        if is_unread(ids[k], dismissed) {
            assert(all.last() == k as usize);
        } else if all.contains(k as usize) {
            let i = choose|i: int| 0 <= i < all.len() && all[i] == k as usize;
            assert(before[i] == k as usize);
        }
    }
}

proof fn lemma_places_below(ids: Seq<Option<Oid>>, dismissed: Seq<Oid>, n: int)
    requires
        0 <= n <= ids.len(),
        ids.len() <= usize::MAX,
    ensures
        forall|i: int|
            0 <= i < unread_places(ids, dismissed, n).len() ==> #[trigger] unread_places(
                ids,
                dismissed,
                n,
            )[i] < n,
    decreases n,
{
    if n > 0 {
        lemma_places_below(ids, dismissed, n - 1);
        let before = unread_places(ids, dismissed, n - 1);
        let all = unread_places(ids, dismissed, n);
        assert forall|i: int| 0 <= i < all.len() implies #[trigger] all[i] < n by {
            if i < before.len() {
                assert(all[i] == before[i]);
            }
        }
    }
}

/// The announcements that a request names.
pub open spec fn dismissed_ids(body: DismissAnnouncementsBody) -> Seq<Oid> {
    match body.announcement_ids {
        None => Seq::empty(),
        Some(list) => e2e_controller::named(text::texts(list@)),
    }
}

/// Reads the announcements that a request names.
pub fn read_dismissed(body: &DismissAnnouncementsBody) -> (r: Vec<Oid>)
    ensures
        r@ == dismissed_ids(*body),
{
    match &body.announcement_ids {
        None => Vec::new(),
        Some(list) => read_named(list),
    }
}

pub open spec fn dismiss_step(
    user: Option<&str>,
    body: DismissAnnouncementsBody,
    stored: Option<Result<u64, ()>>,
) -> AnnouncementStepView {
    match user_gate(user) {
        Err(refusal) => AnnouncementStepView::Refuse(refusal),
        Ok(id) => if dismissed_ids(body).len() == 0 {
            AnnouncementStepView::Refuse(error(400, "Brak ogłoszeń do zamknięcia."))
        } else {
            match stored {
                None => AnnouncementStepView::Dismiss { user: id, ids: dismissed_ids(body) },
                Some(Err(_)) => AnnouncementStepView::Refuse(
                    error(500, "Nie udało się zamknąć ogłoszeń."),
                ),
                Some(Ok(dismissed)) => AnnouncementStepView::Reply {
                    message: "Ogłoszenia zostały zamknięte.",
                    dismissed,
                },
            }
        },
    }
}

/// Decides the next step of dismissing announcements. `stored` is how many were, once that was
/// tried.
pub fn dismiss_announcements(
    user: Option<&str>,
    body: &DismissAnnouncementsBody,
    stored: Option<Result<u64, ()>>,
) -> (r: AnnouncementStep)
    ensures
        r@ == dismiss_step(user, *body, stored),
{
    let id = match pass_user(user) {
        Err(refusal) => return AnnouncementStep::Refuse(refusal),
        Ok(id) => id,
    };
    let ids = read_dismissed(body);
    if ids.len() == 0 {
        return AnnouncementStep::Refuse(error(400, "Brak ogłoszeń do zamknięcia."));
    }
    match stored {
        None => AnnouncementStep::Dismiss { user: id, ids },
        Some(Err(_)) => AnnouncementStep::Refuse(
            error(500, "Nie udało się zamknąć ogłoszeń."),
        ),
        Some(Ok(dismissed)) => AnnouncementStep::Reply {
            message: "Ogłoszenia zostały zamknięte.",
            dismissed,
        },
    }
}

/// A signed-in user sees the announcements that were not dismissed and dismisses those that are named, at
/// least one: neither request is refused while nothing fails, and success is replied only where that was
/// stored.
pub proof fn law_announcements_are_shown_and_dismissed(
    user: Option<&str>,
    ids: Seq<Option<Oid>>,
    dismissed: Option<Seq<Oid>>,
    loaded: Option<Done>,
    body: DismissAnnouncementsBody,
    stored: Option<Result<u64, ()>>,
)
    ensures
        ({
            let s = show_step(user, ids, dismissed, loaded);
            let signed_in = user is Some && ids::oid_of(user->0@) is Some;
            let id = ids::oid_of(user->0@)->0;
            let gone = match dismissed {
                None => Seq::empty(),
                Some(d) => d,
            };
            &&& signed_in && loaded is None <==> s is LoadActive
            &&& s is LoadActive ==> s == AnnouncementStepView::LoadActive(id)
            &&& signed_in && loaded == Some(Done::Worked) <==> s is Show
            &&& s is Show ==> s == AnnouncementStepView::Show(
                unread_places(ids, gone, ids.len() as int),
            )
            &&& user is None ==> s == AnnouncementStepView::Refuse(
                error(401, "User not authenticated."),
            )
        }),
        ({
            let s = dismiss_step(user, body, stored);
            let signed_in = user is Some && ids::oid_of(user->0@) is Some;
            let id = ids::oid_of(user->0@)->0;
            let named = match body.announcement_ids {
                None => Seq::empty(),
                Some(list) => e2e_controller::named(text::texts(list@)),
            };
            let fits = signed_in && named.len() > 0;
            &&& fits && stored is None <==> s is Dismiss
            &&& s is Dismiss ==> s == (AnnouncementStepView::Dismiss { user: id, ids: named })
            &&& fits && stored is Some && stored->0 is Ok <==> s is Reply
            &&& s matches AnnouncementStepView::Reply { dismissed: n, .. } ==> stored->0->Ok_0 == n
            &&& signed_in && named.len() == 0 ==> s is Refuse
        }),
{
}

} // verus!
