//! Friends and friend requests.

use vstd::prelude::*;

use crate::ids;
use crate::ids::{Oid, is_hex_of, parse_oid};
use crate::lists;
use crate::reply::{Done, Lookup, Refusal, error};
use crate::text;

verus! {

/// Request to become friends with a user.
pub struct SendFriendRequestBody {
    pub username: Option<String>,
}

/// How a friend request stands.
#[derive(Clone, Copy, Debug, PartialEq, Eq, Structural)]
pub enum RequestStatus {
    Pending,
    Accepted,
    Rejected,
}

/// The name of a status.
pub open spec fn status_text(status: RequestStatus) -> Seq<char> {
    match status {
        RequestStatus::Pending => "pending"@,
        RequestStatus::Accepted => "accepted"@,
        RequestStatus::Rejected => "rejected"@,
    }
}

/// Names a status.
pub fn status_str(status: RequestStatus) -> (r: &'static str)
    ensures
        r@ == status_text(status),
{
    match status {
        RequestStatus::Pending => "pending",
        RequestStatus::Accepted => "accepted",
        RequestStatus::Rejected => "rejected",
    }
}

/// What the rules read of a user who is asked.
#[derive(Clone, Copy, Debug, PartialEq, Eq)]
pub struct Recipient {
    pub id: Option<Oid>,
    pub login_allowed: bool,
    pub is_bot: bool,
    pub is_whitelisted: bool,
}

/// Whether a user can be asked.
pub open spec fn is_available(user: Recipient, whitelist_enabled: bool) -> bool {
    user.login_allowed && !user.is_bot && (!whitelist_enabled || user.is_whitelisted)
}

/// Whether a user can be asked: a person who may log in, approved where that is needed.
pub fn recipient_available(user: &Recipient, whitelist_enabled: bool) -> (r: bool)
    ensures
        r == is_available(*user, whitelist_enabled),
{
    if !user.login_allowed || user.is_bot {
        return false;
    }
    !whitelist_enabled || user.is_whitelisted
}

/// A request that two users already have between them.
#[derive(Clone, Copy, Debug, PartialEq, Eq)]
pub struct Existing {
    pub id: Oid,
    pub from: Oid,
    pub status: RequestStatus,
}

/// What is known while a friend request is sent.
#[derive(Clone, Copy, Debug)]
pub struct SendFacts {
    pub whitelist_enabled: bool,
    pub recipient: Option<Lookup<Recipient>>,
    pub friends: Option<bool>,
    /// A request between the two, where one was found.
    pub existing: Option<Option<Existing>>,
    /// The change of that request was attempted.
    pub changed: bool,
    pub created: Option<Done>,
}

/// What to do next while a friend request is sent.
#[derive(Debug, PartialEq, Eq)]
pub enum SendStep {
    /// Load the account of the user with this name.
    FindRecipient(String),
    /// Ask whether the two are friends.
    AskFriends { from: Oid, to: Oid },
    FindExisting { from: Oid, to: Oid },
    /// Accept the request that the other user had sent.
    AcceptExisting(Oid),
    /// Send a rejected request anew, from the sender to the other user.
    Reopen { request: Oid, from: Oid, to: Oid },
    Create { from: Oid, to: Oid },
    ReplyAutoAccepted,
    ReplyReopened(Oid),
    ReplyCreated,
    Refuse(Refusal),
}

/// The view of `SendStep`.
#[verifier::ext_equal]
pub enum SendStepView {
    FindRecipient(Seq<char>),
    AskFriends { from: Oid, to: Oid },
    FindExisting { from: Oid, to: Oid },
    AcceptExisting(Oid),
    Reopen { request: Oid, from: Oid, to: Oid },
    Create { from: Oid, to: Oid },
    ReplyAutoAccepted,
    ReplyReopened(Oid),
    ReplyCreated,
    Refuse(Refusal),
}

impl View for SendStep {
    type V = SendStepView;

    open spec fn view(&self) -> SendStepView {
        match self {
            SendStep::FindRecipient(a) => SendStepView::FindRecipient(a@),
            SendStep::AskFriends { from, to } => SendStepView::AskFriends { from: *from, to: *to },
            SendStep::FindExisting { from, to } => SendStepView::FindExisting { from: *from, to: *to },
            SendStep::AcceptExisting(a) => SendStepView::AcceptExisting(*a),
            SendStep::Reopen { request, from, to } => SendStepView::Reopen { request: *request, from: *from, to: *to },
            SendStep::Create { from, to } => SendStepView::Create { from: *from, to: *to },
            SendStep::ReplyAutoAccepted => SendStepView::ReplyAutoAccepted,
            SendStep::ReplyReopened(a) => SendStepView::ReplyReopened(*a),
            SendStep::ReplyCreated => SendStepView::ReplyCreated,
            SendStep::Refuse(a) => SendStepView::Refuse(*a),
        }
    }
}

/// The reply where the user cannot be asked, for whatever reason.
#[verifier::allow_in_spec]
pub fn request_unavailable() -> Refusal
    returns
        error(400, "Nie można wysłać zaproszenia do tego użytkownika."),
{
    error(400, "Nie można wysłać zaproszenia do tego użytkownika.")
}

pub open spec fn send_step(
    sender: Option<&str>,
    body: SendFriendRequestBody,
    username: &str,
    f: SendFacts,
) -> SendStepView {
    let from = ids::oid_of(sender->0@)->0;
    let to = f.recipient->0->0.id->0;
    let existing = f.existing->0->0;
    if sender is None || ids::oid_of(sender->0@) is None {
        SendStepView::Refuse(error(401, "Unauthorized"))
    } else if text::trimmed(text::or_empty(body.username)).len() == 0 {
        SendStepView::Refuse(error(400, "Podaj nazwę użytkownika (@username)."))
    } else if username@.len() == 0 {
        SendStepView::Refuse(error(400, "Nieprawidłowa nazwa użytkownika."))
    } else if f.recipient is None {
        SendStepView::FindRecipient(username@)
    } else if f.recipient->0 is Missing {
        SendStepView::Refuse(request_unavailable())
    } else if f.recipient->0 is Failed || f.recipient->0->0.id is None {
        SendStepView::Refuse(error(500, "Internal Server Error"))
    } else if !is_available(f.recipient->0->0, f.whitelist_enabled) {
        SendStepView::Refuse(request_unavailable())
    } else if ids::hex_of(to) == sender->0@ {
        SendStepView::Refuse(request_unavailable())
    } else if f.friends is None {
        SendStepView::AskFriends { from, to }
    } else if f.friends->0 {
        SendStepView::Refuse(request_unavailable())
    } else if f.existing is None {
        SendStepView::FindExisting { from, to }
    } else if f.existing->0 is None {
        match f.created {
            None => SendStepView::Create { from, to },
            Some(Done::Failed) => SendStepView::Refuse(error(500, "Internal Server Error")),
            Some(Done::Worked) => SendStepView::ReplyCreated,
        }
    } else if existing.status == RequestStatus::Accepted {
        SendStepView::Refuse(request_unavailable())
    } else if existing.status == RequestStatus::Pending {
        if existing.from != to {
            SendStepView::Refuse(request_unavailable())
        } else if f.changed {
            SendStepView::ReplyAutoAccepted
        } else {
            SendStepView::AcceptExisting(existing.id)
        }
    } else if f.changed {
        SendStepView::ReplyReopened(existing.id)
    } else {
        SendStepView::Reopen { request: existing.id, from, to }
    }
}

/// Decides the next step of sending a friend request. `username` is the name that was given,
/// in its normal form.
pub fn send_friend_request(
    sender: Option<&str>,
    body: &SendFriendRequestBody,
    username: &str,
    f: &SendFacts,
) -> (r: SendStep)
    ensures
        r@ == send_step(sender, *body, username, *f),
{
    let me = match sender {
        None => return SendStep::Refuse(error(401, "Unauthorized")),
        Some(s) => s,
    };
    let from = match parse_oid(me) {
        None => return SendStep::Refuse(error(401, "Unauthorized")),
        Some(id) => id,
    };
    let raw = text::text_or_empty(&body.username);
    if text::trim(raw.as_str()).as_str().is_empty() {
        return SendStep::Refuse(error(400, "Podaj nazwę użytkownika (@username)."));
    }
    if username.is_empty() {
        return SendStep::Refuse(error(400, "Nieprawidłowa nazwa użytkownika."));
    }
    let recipient = match f.recipient {
        None => return SendStep::FindRecipient(username.to_owned()),
        Some(Lookup::Missing) => return SendStep::Refuse(request_unavailable()),
        Some(Lookup::Failed) => return SendStep::Refuse(error(500, "Internal Server Error")),
        Some(Lookup::Found(u)) => u,
    };
    let to = match recipient.id {
        None => return SendStep::Refuse(error(500, "Internal Server Error")),
        Some(id) => id,
    };
    if !recipient_available(&recipient, f.whitelist_enabled) {
        return SendStep::Refuse(request_unavailable());
    }
    if is_hex_of(to, me) {
        return SendStep::Refuse(request_unavailable());
    }
    match f.friends {
        None => return SendStep::AskFriends { from, to },
        Some(friends) => {
            if friends {
                return SendStep::Refuse(request_unavailable());
            }
        },
    }
    let existing = match f.existing {
        None => return SendStep::FindExisting { from, to },
        Some(None) => {
            return match f.created {
                None => SendStep::Create { from, to },
                Some(Done::Failed) => SendStep::Refuse(error(500, "Internal Server Error")),
                Some(Done::Worked) => SendStep::ReplyCreated,
            };
        },
        Some(Some(e)) => e,
    };
    match existing.status {
        RequestStatus::Accepted => SendStep::Refuse(request_unavailable()),
        RequestStatus::Pending => {
            if existing.from != to {
                SendStep::Refuse(request_unavailable())
            } else if f.changed {
                SendStep::ReplyAutoAccepted
            } else {
                SendStep::AcceptExisting(existing.id)
            }
        },
        RequestStatus::Rejected => {
            if f.changed {
                SendStep::ReplyReopened(existing.id)
            } else {
                SendStep::Reopen { request: existing.id, from, to }
            }
        },
    }
}

/// Two users have one request between them: a new one is created only where none is found, and
/// nobody sends one to themselves or to a user who cannot be asked.
pub proof fn law_one_request_between_two_users(
    sender: Option<&str>,
    body: SendFriendRequestBody,
    username: &str,
    f: SendFacts,
)
    ensures
        send_step(sender, body, username, f) is Create ==> f.existing == Some(None::<Existing>),
        ({
            let s = send_step(sender, body, username, f);
            s is Create || s is Reopen || s is AcceptExisting ==> f.friends == Some(false)
                && is_available(f.recipient->0->0, f.whitelist_enabled) && ids::hex_of(
                f.recipient->0->0.id->0,
            ) != sender->0@
        }),
        send_step(sender, body, username, f) is AcceptExisting ==> f.existing->0->0.from
            == f.recipient->0->0.id->0 && f.existing->0->0.status == RequestStatus::Pending,
{
}

/// A user can ask another, who is available and no friend yet, to be friends: the request is not refused
/// while nothing fails. Where none stands between the two one is made, a rejected one is sent anew, and
/// one that the other had sent is accepted; success is replied only after that.
pub proof fn law_friend_request_goes_through(
    sender: Option<&str>,
    body: SendFriendRequestBody,
    username: &str,
    f: SendFacts,
)
    requires
        sender is Some && ids::oid_of(sender->0@) is Some,
        text::trimmed(text::or_empty(body.username)).len() > 0,
        username@.len() > 0,
        f.recipient matches Some(r) ==> r is Found && r->0.id is Some && r->0.login_allowed
            && !r->0.is_bot && (!f.whitelist_enabled || r->0.is_whitelisted) && ids::hex_of(
            r->0.id->0,
        ) != sender->0@,
        f.friends != Some(true),
        f.existing matches Some(Some(e)) ==> e.status == RequestStatus::Rejected || (e.status
            == RequestStatus::Pending && f.recipient is Some && e.from == f.recipient->0->0.id->0),
        f.created != Some(Done::Failed),
    ensures
        ({
            let s = send_step(sender, body, username, f);
            let from = ids::oid_of(sender->0@)->0;
            let to = f.recipient->0->0.id->0;
            let known = f.recipient is Some && f.friends is Some && f.existing is Some;
            let old = f.existing->0->0;
            &&& s !is Refuse
            &&& f.recipient is None ==> s == SendStepView::FindRecipient(username@)
            &&& f.recipient is Some && f.friends is None ==> s == (SendStepView::AskFriends {
                from,
                to,
            })
            &&& f.recipient is Some && f.friends is Some && f.existing is None ==> s == (
            SendStepView::FindExisting { from, to })
            &&& known && f.existing->0 is None && f.created is None ==> s == (SendStepView::Create {
                from,
                to,
            })
            &&& known && f.existing->0 is None && f.created is Some ==> s is ReplyCreated
            &&& known && f.existing->0 is Some && old.status == RequestStatus::Rejected && !f.changed
                ==> s == (SendStepView::Reopen { request: old.id, from, to })
            &&& known && f.existing->0 is Some && old.status == RequestStatus::Rejected && f.changed
                ==> s == SendStepView::ReplyReopened(old.id)
            &&& known && f.existing->0 is Some && old.status == RequestStatus::Pending && !f.changed
                ==> s == SendStepView::AcceptExisting(old.id)
            &&& known && f.existing->0 is Some && old.status == RequestStatus::Pending && f.changed
                ==> s is ReplyAutoAccepted
        }),
{
}

/// Users who cannot log in, bots, users outside the whitelist while it holds, friends, the own account
/// and those with a request under way are all refused alike; nothing is asked that is known already.
pub proof fn law_unavailable_users_are_refused(
    sender: Option<&str>,
    body: SendFriendRequestBody,
    username: &str,
    f: SendFacts,
)
    ensures
        ({
            let s = send_step(sender, body, username, f);
            let r = f.recipient->0->0;
            let acts = s is Create || s is Reopen || s is AcceptExisting || s is ReplyCreated || s is
                ReplyReopened || s is ReplyAutoAccepted;
            &&& acts ==> sender is Some && f.recipient is Some && f.recipient->0 is Found && r.id is
                Some && r.login_allowed && !r.is_bot && (f.whitelist_enabled ==> r.is_whitelisted)
                && ids::hex_of(r.id->0) != sender->0@ && f.friends == Some(false) && f.existing is
                Some
            &&& s is Create || s is ReplyCreated ==> f.existing == Some(None::<Existing>)
            &&& s is Create ==> f.created is None
            &&& s is ReplyCreated ==> f.created == Some(Done::Worked)
            &&& s is AcceptExisting || s is Reopen ==> !f.changed
            &&& s is ReplyAutoAccepted || s is ReplyReopened ==> f.changed
            &&& s is Reopen || s is ReplyReopened ==> f.existing->0->0.status
                == RequestStatus::Rejected
            &&& s is FindRecipient ==> f.recipient is None
            &&& s is AskFriends ==> f.friends is None
            &&& s is FindExisting ==> f.existing is None
            &&& sender is None || ids::oid_of(sender->0@) is None ==> s == SendStepView::Refuse(
                error(401, "Unauthorized"),
            )
            &&& sender is Some && ids::oid_of(sender->0@) is Some && text::trimmed(
                text::or_empty(body.username),
            ).len() > 0 && username@.len() > 0 && f.recipient is Some && f.recipient->0 is Found
                && r.id is Some && (!r.login_allowed || r.is_bot || (f.whitelist_enabled
                && !r.is_whitelisted) || ids::hex_of(r.id->0) == sender->0@ || f.friends == Some(
                true,
            )) ==> s == SendStepView::Refuse(
                error(400, "Nie można wysłać zaproszenia do tego użytkownika."),
            )
        }),
{
}

/// Which requests a list shows, and in what order.
#[derive(Clone, Copy, Debug, PartialEq, Eq)]
pub struct RequestFilter {
    pub status: RequestStatus,
    /// The field that puts the newest first.
    pub newest_by: &'static str,
}

/// The pending requests, the latest sent first.
#[verifier::allow_in_spec]
pub fn pending_requests() -> RequestFilter
    returns
        (RequestFilter { status: RequestStatus::Pending, newest_by: "createdAt" }),
{
    RequestFilter { status: RequestStatus::Pending, newest_by: "createdAt" }
}

/// The accepted requests, the latest accepted first.
#[verifier::allow_in_spec]
pub fn accepted_requests() -> RequestFilter
    returns
        (RequestFilter { status: RequestStatus::Accepted, newest_by: "updatedAt" }),
{
    RequestFilter { status: RequestStatus::Accepted, newest_by: "updatedAt" }
}

/// What to do next while the requests or the friends of a user are listed.
#[derive(Clone, Copy, Debug, PartialEq, Eq)]
pub enum ListStep {
    /// Find the requests that the user received.
    FindReceived(Oid, RequestFilter),
    /// Find the requests that the user sent.
    FindSent(Oid, RequestFilter),
    /// Find the requests that the user sent or received.
    FindFriends(Oid, RequestFilter),
    /// Reply with those whose accounts can be loaded.
    Reply(Oid),
    Refuse(Refusal),
}

/// Which list is asked for.
#[derive(Clone, Copy, Debug, PartialEq, Eq)]
pub enum Listing {
    Received,
    Sent,
    Friends,
}

pub open spec fn list_step(listing: Listing, user: Option<&str>, found: Option<Done>) -> ListStep {
    let me = ids::oid_of(user->0@)->0;
    if user is None || ids::oid_of(user->0@) is None {
        ListStep::Refuse(error(401, "Unauthorized"))
    } else {
        match found {
            None => match listing {
                Listing::Received => ListStep::FindReceived(me, pending_requests()),
                Listing::Sent => ListStep::FindSent(me, pending_requests()),
                Listing::Friends => ListStep::FindFriends(me, accepted_requests()),
            },
            Some(Done::Failed) => ListStep::Refuse(error(500, "Internal Server Error")),
            Some(Done::Worked) => ListStep::Reply(me),
        }
    }
}

fn list_for_user(listing: Listing, user: Option<&str>, found: Option<Done>) -> (r: ListStep)
    ensures
        r == list_step(listing, user, found),
{
    let user = match user {
        None => return ListStep::Refuse(error(401, "Unauthorized")),
        Some(u) => u,
    };
    let me = match parse_oid(user) {
        None => return ListStep::Refuse(error(401, "Unauthorized")),
        Some(id) => id,
    };
    match found {
        None => match listing {
            Listing::Received => ListStep::FindReceived(me, pending_requests()),
            Listing::Sent => ListStep::FindSent(me, pending_requests()),
            Listing::Friends => ListStep::FindFriends(me, accepted_requests()),
        },
        Some(Done::Failed) => ListStep::Refuse(error(500, "Internal Server Error")),
        Some(Done::Worked) => ListStep::Reply(me),
    }
}

/// Decides the next step of listing the pending requests that a user received.
pub fn get_received_requests(user: Option<&str>, found: Option<Done>) -> (r: ListStep)
    ensures
        r == list_step(Listing::Received, user, found),
{
    list_for_user(Listing::Received, user, found)
}

/// Decides the next step of listing the pending requests that a user sent.
pub fn get_sent_requests(user: Option<&str>, found: Option<Done>) -> (r: ListStep)
    ensures
        r == list_step(Listing::Sent, user, found),
{
    list_for_user(Listing::Sent, user, found)
}

/// Decides the next step of listing the friends of a user.
pub fn get_friends(user: Option<&str>, found: Option<Done>) -> (r: ListStep)
    ensures
        r == list_step(Listing::Friends, user, found),
{
    list_for_user(Listing::Friends, user, found)
}

/// A signed-in user sees the pending requests that came and those that were sent, and the accepted ones
/// as friends; the lists are not refused while nothing fails.
pub proof fn law_requests_are_listed(
    listing: Listing,
    user: Option<&str>,
    found: Option<Done>,
)
    ensures
        ({
            let s = list_step(listing, user, found);
            let signed_in = user is Some && ids::oid_of(user->0@) is Some;
            let me = ids::oid_of(user->0@)->0;
            &&& signed_in && found == Some(Done::Worked) <==> s is Reply
            &&& s is Reply ==> s == ListStep::Reply(me)
            &&& signed_in && found is None && listing is Received <==> s is FindReceived
            &&& signed_in && found is None && listing is Sent <==> s is FindSent
            &&& signed_in && found is None && listing is Friends <==> s is FindFriends
            &&& s matches ListStep::FindReceived(id, filter) ==> id == me && filter.status
                == RequestStatus::Pending && filter.newest_by == "createdAt"
            &&& s matches ListStep::FindSent(id, filter) ==> id == me && filter.status
                == RequestStatus::Pending && filter.newest_by == "createdAt"
            &&& s matches ListStep::FindFriends(id, filter) ==> id == me && filter.status
                == RequestStatus::Accepted && filter.newest_by == "updatedAt"
        }),
{
}

/// The other one of the two users of a friendship.
pub fn other_friend(user: Oid, from: Oid, to: Oid) -> (r: Oid)
    ensures
        r == (if from == user {
            to
        } else {
            from
        }),
{
    if from == user {
        to
    } else {
        from
    }
}

/// What the rules read of a friend request.
#[derive(Clone, Copy, Debug, PartialEq, Eq)]
pub struct Request {
    pub from: Oid,
    pub to: Oid,
    pub status: RequestStatus,
}

/// What to do next while a friend request is answered or taken back.
#[derive(Clone, Copy, Debug, PartialEq, Eq)]
pub enum AnswerStep {
    Load(Oid),
    Accept(Oid),
    Reject(Oid),
    LoadSender(Oid),
    Reply,
    Refuse(Refusal),
}

/// The steps up to the point where the user is known to be the right one for a pending request;
/// none once that is known.
pub open spec fn answer_gate(
    user: Option<&str>,
    request_id: &str,
    by_sender: bool,
    request: Option<Lookup<Request>>,
) -> Option<AnswerStep> {
    let rid = ids::oid_of(request_id@);
    let right = if by_sender {
        request->0->0.from
    } else {
        request->0->0.to
    };
    if user is None {
        Some(AnswerStep::Refuse(error(401, "Unauthorized")))
    } else if rid is None {
        Some(AnswerStep::Refuse(error(400, "Nieprawidłowe zaproszenie.")))
    } else if request is None {
        Some(AnswerStep::Load(rid->0))
    } else if request->0 is Missing {
        Some(AnswerStep::Refuse(error(404, "Zaproszenie nie istnieje.")))
    } else if request->0 is Failed {
        Some(AnswerStep::Refuse(error(500, "Internal Server Error")))
    } else if ids::hex_of(right) != user->0@ {
        Some(AnswerStep::Refuse(error(403, "Brak uprawnień do tego zaproszenia.")))
    } else if request->0->0.status != RequestStatus::Pending {
        Some(AnswerStep::Refuse(error(400, "To zaproszenie nie jest już aktywne.")))
    } else {
        None
    }
}

fn pass_answer_gate(
    user: Option<&str>,
    request_id: &str,
    by_sender: bool,
    request: Option<Lookup<Request>>,
) -> (r: Result<(Oid, Request), AnswerStep>)
    ensures
        answer_gate(user, request_id, by_sender, request) == (match r {
            Ok(_) => None,
            Err(s) => Some(s),
        }),
        r matches Ok(p) ==> p.0 == ids::oid_of(request_id@)->0 && p.1 == request->0->0,
{
    let me = match user {
        None => return Err(AnswerStep::Refuse(error(401, "Unauthorized"))),
        Some(u) => u,
    };
    let rid = match parse_oid(request_id) {
        None => return Err(AnswerStep::Refuse(error(400, "Nieprawidłowe zaproszenie."))),
        Some(id) => id,
    };
    let found = match request {
        None => return Err(AnswerStep::Load(rid)),
        Some(Lookup::Missing) => {
            return Err(AnswerStep::Refuse(error(404, "Zaproszenie nie istnieje.")));
        },
        Some(Lookup::Failed) => {
            return Err(AnswerStep::Refuse(error(500, "Internal Server Error")));
        },
        Some(Lookup::Found(x)) => x,
    };
    let right = if by_sender {
        found.from
    } else {
        found.to
    };
    if !is_hex_of(right, me) {
        return Err(AnswerStep::Refuse(error(403, "Brak uprawnień do tego zaproszenia.")));
    }
    if found.status != RequestStatus::Pending {
        return Err(AnswerStep::Refuse(error(400, "To zaproszenie nie jest już aktywne.")));
    }
    Ok((rid, found))
}

/// What is known while a friend request is answered or taken back.
#[derive(Clone, Copy, Debug)]
pub struct AnswerFacts {
    pub request: Option<Lookup<Request>>,
    /// The change was attempted.
    pub changed: bool,
    pub sender: Option<Lookup<()>>,
}

pub open spec fn accept_step(user: Option<&str>, request_id: &str, f: AnswerFacts) -> AnswerStep {
    match answer_gate(user, request_id, false, f.request) {
        Some(s) => s,
        None => if !f.changed {
            AnswerStep::Accept(ids::oid_of(request_id@)->0)
        } else {
            match f.sender {
                None => AnswerStep::LoadSender(f.request->0->0.from),
                Some(Lookup::Found(_)) => AnswerStep::Reply,
                Some(_) => AnswerStep::Refuse(error(500, "Internal Server Error")),
            }
        },
    }
}

/// Decides the next step of accepting a friend request.
pub fn accept_friend_request(user: Option<&str>, request_id: &str, f: &AnswerFacts) -> (r: AnswerStep)
    ensures
        r == accept_step(user, request_id, *f),
{
    let (rid, request) = match pass_answer_gate(user, request_id, false, f.request) {
        Err(s) => return s,
        Ok(p) => p,
    };
    if !f.changed {
        return AnswerStep::Accept(rid);
    }
    match f.sender {
        None => AnswerStep::LoadSender(request.from),
        Some(Lookup::Found(_)) => AnswerStep::Reply,
        Some(_) => AnswerStep::Refuse(error(500, "Internal Server Error")),
    }
}

/// The steps of ending a request: by the user who received it, or by the one who sent it.
pub open spec fn end_step(
    user: Option<&str>,
    request_id: &str,
    by_sender: bool,
    f: AnswerFacts,
) -> AnswerStep {
    match answer_gate(user, request_id, by_sender, f.request) {
        Some(s) => s,
        None => if f.changed {
            AnswerStep::Reply
        } else {
            AnswerStep::Reject(ids::oid_of(request_id@)->0)
        },
    }
}

/// Decides the next step of rejecting a friend request.
pub fn reject_friend_request(user: Option<&str>, request_id: &str, f: &AnswerFacts) -> (r: AnswerStep)
    ensures
        r == end_step(user, request_id, false, *f),
{
    match pass_answer_gate(user, request_id, false, f.request) {
        Err(s) => s,
        Ok((rid, _)) => if f.changed {
            AnswerStep::Reply
        } else {
            AnswerStep::Reject(rid)
        },
    }
}

/// Decides the next step of taking a friend request back.
pub fn cancel_friend_request(user: Option<&str>, request_id: &str, f: &AnswerFacts) -> (r: AnswerStep)
    ensures
        r == end_step(user, request_id, true, *f),
{
    match pass_answer_gate(user, request_id, true, f.request) {
        Err(s) => s,
        Ok((rid, _)) => if f.changed {
            AnswerStep::Reply
        } else {
            AnswerStep::Reject(rid)
        },
    }
}

/// A pending request is answered by its receiver only, and taken back by its sender only.
pub proof fn law_request_is_answered_by_its_receiver(
    user: Option<&str>,
    request_id: &str,
    f: AnswerFacts,
)
    ensures
        accept_step(user, request_id, f) is Accept ==> ids::hex_of(f.request->0->0.to) == user->0@
            && f.request->0->0.status == RequestStatus::Pending,
        end_step(user, request_id, false, f) is Reject ==> ids::hex_of(f.request->0->0.to) == user->0@
            && f.request->0->0.status == RequestStatus::Pending,
        end_step(user, request_id, true, f) is Reject ==> ids::hex_of(f.request->0->0.from) == user->0@
            && f.request->0->0.status == RequestStatus::Pending,
{
}

/// The receiver of a pending request accepts or rejects it, its sender cancels it: none of these is
/// refused while nothing fails, each changes that request once, and success is replied only after that.
pub proof fn law_pending_request_is_answered(
    user: Option<&str>,
    request_id: &str,
    f: AnswerFacts,
)
    ensures
        ({
            let rid = ids::oid_of(request_id@);
            let found = f.request is Some && f.request->0 is Found;
            let r = f.request->0->0;
            let pending = found && r.status == RequestStatus::Pending;
            let receiver = user is Some && rid is Some && pending && ids::hex_of(r.to) == user->0@;
            let sender = user is Some && rid is Some && pending && ids::hex_of(r.from) == user->0@;
            let accept = accept_step(user, request_id, f);
            let reject = end_step(user, request_id, false, f);
            let cancel = end_step(user, request_id, true, f);
            &&& receiver && !f.changed <==> accept is Accept
            &&& accept is Accept ==> accept == AnswerStep::Accept(rid->0)
            &&& receiver && f.changed && f.sender is None <==> accept is LoadSender
            &&& accept is LoadSender ==> accept == AnswerStep::LoadSender(r.from)
            &&& receiver && f.changed && f.sender is Some && f.sender->0 is Found <==> accept is Reply
            &&& receiver && !f.changed <==> reject is Reject
            &&& reject is Reject ==> reject == AnswerStep::Reject(rid->0)
            &&& receiver && f.changed <==> reject is Reply
            &&& sender && !f.changed <==> cancel is Reject
            &&& cancel is Reject ==> cancel == AnswerStep::Reject(rid->0)
            &&& sender && f.changed <==> cancel is Reply
            &&& user is Some && rid is Some && f.request is None ==> accept == AnswerStep::Load(rid->0)
                && reject == AnswerStep::Load(rid->0) && cancel == AnswerStep::Load(rid->0)
            &&& found && r.status != RequestStatus::Pending ==> accept is Refuse && reject is Refuse
                && cancel is Refuse
            &&& user is None ==> accept == AnswerStep::Refuse(error(401, "Unauthorized")) && reject
                == accept && cancel == accept
            &&& accept !is Reject && reject !is Accept && cancel !is Accept
        }),
{
}

/// What is known while a friendship is looked up.
#[derive(Clone, Copy, Debug)]
pub struct CheckFacts {
    pub other: Option<Lookup<()>>,
    pub friends: Option<bool>,
    /// The lists of blocked contacts of both users were loaded.
    pub blocks: Option<Done>,
    /// A pending request from the other user.
    pub incoming: Option<Option<Option<Oid>>>,
    /// A pending request to the other user.
    pub outgoing: Option<Option<Option<Oid>>>,
}

/// A request that waits for an answer; its identifier, where it has one.
#[derive(Clone, Copy, Debug, PartialEq, Eq)]
pub enum PendingRequest {
    Nothing,
    Incoming(Option<Oid>),
    Outgoing(Option<Oid>),
}

/// What to do next while a friendship is looked up.
#[derive(Clone, Copy, Debug, PartialEq, Eq)]
pub enum CheckStep {
    LoadOther(Oid),
    AskFriends,
    LoadBlocks { me: Oid, other: Oid },
    FindIncoming { from: Oid, to: Oid },
    FindOutgoing { from: Oid, to: Oid },
    /// Reply that there is no such user to be friends with.
    ReplyNobody,
    ReplyFriends { blocked_by_me: bool, blocked_by_other: bool, dm_blocked: bool },
    ReplyNotFriends(PendingRequest),
    Refuse(Refusal),
}

pub open spec fn check_step(
    user: Option<&str>,
    other_id: &str,
    my_blocks: Seq<Oid>,
    other_blocks: Seq<Oid>,
    f: CheckFacts,
) -> CheckStep {
    let me = ids::oid_of(user->0@)->0;
    let other = ids::oid_of(other_id@)->0;
    let known = f.blocks->0 is Worked;
    let by_me = known && my_blocks.contains(other);
    let by_other = known && other_blocks.contains(me);
    if user is None {
        CheckStep::Refuse(error(401, "Unauthorized"))
    } else if ids::oid_of(other_id@) is None || ids::oid_of(user->0@) is None {
        CheckStep::Refuse(error(400, "Nieprawidłowy identyfikator użytkownika."))
    } else if f.other is None {
        CheckStep::LoadOther(other)
    } else if f.other->0 !is Found {
        CheckStep::ReplyNobody
    } else if f.friends is None {
        CheckStep::AskFriends
    } else if f.friends->0 && f.blocks is None {
        CheckStep::LoadBlocks { me, other }
    } else if f.friends->0 {
        CheckStep::ReplyFriends {
            blocked_by_me: by_me,
            blocked_by_other: by_other,
            dm_blocked: by_me || by_other,
        }
    } else if f.incoming is None {
        CheckStep::FindIncoming { from: other, to: me }
    } else if f.incoming->0 is Some {
        CheckStep::ReplyNotFriends(PendingRequest::Incoming(f.incoming->0->0))
    } else if f.outgoing is None {
        CheckStep::FindOutgoing { from: me, to: other }
    } else if f.outgoing->0 is Some {
        CheckStep::ReplyNotFriends(PendingRequest::Outgoing(f.outgoing->0->0))
    } else {
        CheckStep::ReplyNotFriends(PendingRequest::Nothing)
    }
}

/// Decides the next step of looking a friendship up. The lists are the contacts that each of
/// the two has blocked.
pub fn check_friendship(
    user: Option<&str>,
    other_id: &str,
    my_blocks: &Vec<Oid>,
    other_blocks: &Vec<Oid>,
    f: &CheckFacts,
) -> (r: CheckStep)
    ensures
        r == check_step(user, other_id, my_blocks@, other_blocks@, *f),
{
    let wrong = CheckStep::Refuse(error(400, "Nieprawidłowy identyfikator użytkownika."));
    let user = match user {
        None => return CheckStep::Refuse(error(401, "Unauthorized")),
        Some(u) => u,
    };
    let other = match parse_oid(other_id) {
        None => return wrong,
        Some(id) => id,
    };
    let me = match parse_oid(user) {
        None => return wrong,
        Some(id) => id,
    };
    match f.other {
        None => return CheckStep::LoadOther(other),
        Some(Lookup::Found(_)) => {},
        _ => return CheckStep::ReplyNobody,
    }
    let friends = match f.friends {
        None => return CheckStep::AskFriends,
        Some(b) => b,
    };
    if friends {
        let known = match f.blocks {
            None => return CheckStep::LoadBlocks { me, other },
            Some(Done::Worked) => true,
            Some(Done::Failed) => false,
        };
        let by_me = known && lists::has_oid(my_blocks, other);
        let by_other = known && lists::has_oid(other_blocks, me);
        return CheckStep::ReplyFriends {
            blocked_by_me: by_me,
            blocked_by_other: by_other,
            dm_blocked: by_me || by_other,
        };
    }
    match f.incoming {
        None => return CheckStep::FindIncoming { from: other, to: me },
        Some(Some(id)) => return CheckStep::ReplyNotFriends(PendingRequest::Incoming(id)),
        Some(None) => {},
    }
    match f.outgoing {
        None => CheckStep::FindOutgoing { from: me, to: other },
        Some(Some(id)) => CheckStep::ReplyNotFriends(PendingRequest::Outgoing(id)),
        Some(None) => CheckStep::ReplyNotFriends(PendingRequest::Nothing),
    }
}

/// Messages between two friends are blocked exactly where one of them has blocked the other.
pub proof fn law_dm_is_blocked_by_either_side(
    user: Option<&str>,
    other_id: &str,
    my_blocks: Seq<Oid>,
    other_blocks: Seq<Oid>,
    f: CheckFacts,
)
    requires
        check_step(user, other_id, my_blocks, other_blocks, f) is ReplyFriends,
        f.blocks == Some(Done::Worked),
    ensures
        check_step(user, other_id, my_blocks, other_blocks, f)->dm_blocked <==> my_blocks.contains(
            ids::oid_of(other_id@)->0,
        ) || other_blocks.contains(ids::oid_of(user->0@)->0),
{
}

/// How two users stand to each other is shown to a signed-in user whatever it is: friends with whether
/// one has blocked the other, and strangers with the request under way, one that came before one that
/// was sent.
pub proof fn law_friendship_is_shown(
    user: Option<&str>,
    other_id: &str,
    my_blocks: Seq<Oid>,
    other_blocks: Seq<Oid>,
    f: CheckFacts,
)
    requires
        user is Some && ids::oid_of(user->0@) is Some && ids::oid_of(other_id@) is Some,
    ensures
        ({
            let s = check_step(user, other_id, my_blocks, other_blocks, f);
            let me = ids::oid_of(user->0@)->0;
            let other = ids::oid_of(other_id@)->0;
            let found = f.other is Some && f.other->0 is Found;
            let strangers = found && f.friends == Some(false);
            &&& s !is Refuse
            &&& f.other is None ==> s == CheckStep::LoadOther(other)
            &&& f.other is Some && f.other->0 !is Found <==> s is ReplyNobody
            &&& found && f.friends is None <==> s is AskFriends
            &&& found && f.friends == Some(true) && f.blocks is None ==> s == (CheckStep::LoadBlocks {
                me,
                other,
            })
            &&& found && f.friends == Some(true) && f.blocks is Some <==> s is ReplyFriends
            &&& s matches CheckStep::ReplyFriends { blocked_by_me, blocked_by_other, dm_blocked } ==> (
            blocked_by_me <==> f.blocks == Some(Done::Worked) && my_blocks.contains(other)) && (
            blocked_by_other <==> f.blocks == Some(Done::Worked) && other_blocks.contains(me)) && (
            dm_blocked <==> blocked_by_me || blocked_by_other)
            &&& strangers && f.incoming is None ==> s == (CheckStep::FindIncoming {
                from: other,
                to: me,
            })
            &&& strangers && f.incoming is Some && f.incoming->0 is Some ==> s
                == CheckStep::ReplyNotFriends(PendingRequest::Incoming(f.incoming->0->0))
            &&& strangers && f.incoming == Some(None::<Option<Oid>>) && f.outgoing is None ==> s == (
            CheckStep::FindOutgoing { from: me, to: other })
            &&& strangers && f.incoming == Some(None::<Option<Oid>>) && f.outgoing is Some ==> s
                == CheckStep::ReplyNotFriends(
                match f.outgoing->0 {
                    Some(id) => PendingRequest::Outgoing(id),
                    None => PendingRequest::Nothing,
                },
            )
        }),
{
}

/// What to do next while a friend is removed.
#[derive(Clone, Copy, Debug, PartialEq, Eq)]
pub enum RemoveStep {
    FindFriendship { me: Oid, friend: Oid },
    /// Delete the friendship and the messages between the two, and reply.
    RemoveAndReply { friendship: Oid, me: Oid, friend: Oid },
    Refuse(Refusal),
}

pub open spec fn remove_step(
    user: Option<&str>,
    friend_id: &str,
    friendship: Option<Option<Oid>>,
) -> RemoveStep {
    let friend = ids::oid_of(friend_id@);
    let me = ids::oid_of(user->0@);
    if user is None {
        RemoveStep::Refuse(error(401, "Unauthorized"))
    } else if friend is None || me is None {
        RemoveStep::Refuse(error(400, "Nieprawidłowy identyfikator użytkownika."))
    } else if friend_id@ == user->0@ {
        RemoveStep::Refuse(error(400, "Nie możesz usunąć siebie z kontaktów."))
    } else if friendship is None {
        RemoveStep::FindFriendship { me: me->0, friend: friend->0 }
    } else if friendship->0 is None {
        RemoveStep::Refuse(error(404, "Ten użytkownik nie jest w Twoich kontaktach."))
    } else {
        RemoveStep::RemoveAndReply {
            friendship: friendship->0->0,
            me: me->0,
            friend: friend->0,
        }
    }
}

/// Decides the next step of removing a friend.
pub fn remove_friend(
    user: Option<&str>,
    friend_id: &str,
    friendship: Option<Option<Oid>>,
) -> (r: RemoveStep)
    ensures
        r == remove_step(user, friend_id, friendship),
{
    let wrong = RemoveStep::Refuse(error(400, "Nieprawidłowy identyfikator użytkownika."));
    let user = match user {
        None => return RemoveStep::Refuse(error(401, "Unauthorized")),
        Some(u) => u,
    };
    let friend = match parse_oid(friend_id) {
        None => return wrong,
        Some(id) => id,
    };
    let me = match parse_oid(user) {
        None => return wrong,
        Some(id) => id,
    };
    if text::same_text(friend_id, user) {
        return RemoveStep::Refuse(error(400, "Nie możesz usunąć siebie z kontaktów."));
    }
    match friendship {
        None => RemoveStep::FindFriendship { me, friend },
        Some(None) => RemoveStep::Refuse(
            error(404, "Ten użytkownik nie jest w Twoich kontaktach."),
        ),
        Some(Some(id)) => RemoveStep::RemoveAndReply { friendship: id, me, friend },
    }
}

/// A user removes a friend, and no other and not the own account: the friendship that was found goes,
/// with the messages between the two.
pub proof fn law_friend_is_removed(
    user: Option<&str>,
    friend_id: &str,
    friendship: Option<Option<Oid>>,
)
    ensures
        ({
            let s = remove_step(user, friend_id, friendship);
            let me = ids::oid_of(user->0@);
            let friend = ids::oid_of(friend_id@);
            let two = user is Some && me is Some && friend is Some && friend_id@ != user->0@;
            &&& two && friendship is None <==> s is FindFriendship
            &&& s is FindFriendship ==> s == (RemoveStep::FindFriendship {
                me: me->0,
                friend: friend->0,
            })
            &&& two && friendship is Some && friendship->0 is Some <==> s is RemoveAndReply
            &&& s is RemoveAndReply ==> s == (RemoveStep::RemoveAndReply {
                friendship: friendship->0->0,
                me: me->0,
                friend: friend->0,
            })
            &&& user is None ==> s == RemoveStep::Refuse(error(401, "Unauthorized"))
            &&& two && friendship == Some(None::<Oid>) ==> s == RemoveStep::Refuse(
                error(404, "Ten użytkownik nie jest w Twoich kontaktach."),
            )
        }),
{
}

} // verus!
