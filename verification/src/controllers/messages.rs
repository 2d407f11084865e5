//! Message history, editing, deletion, pinning, search and attachments.

use vstd::prelude::*;

use crate::ids;
use crate::ids::{Oid, is_hex_of, parse_oid};
use crate::lists;
use crate::model::{Account, DmAccess, Place};
use crate::reply::{Access, Done, Lookup, Quota, Refusal, Wrote, again, error, plain, titled, unavailable};
use crate::text;

verus! {

pub const SEARCH_LIMIT: i64 = 50;

pub const MIN_QUERY_LENGTH: usize = 2;

pub const MAX_QUERY_LENGTH: usize = 200;

pub const DEFAULT_MESSAGE_LIMIT: i64 = 30;

pub const MAX_MESSAGE_LIMIT: i64 = 50;

pub const MAX_PINNED_MESSAGES: i64 = 50;

/// Request for a page of a conversation.
pub struct GetMessagesBody {
    pub id: Option<String>,
    pub limit: Option<i64>,
    pub before: Option<String>,
}

/// The new content of a message.
pub struct EditMessageBody {
    pub content: Option<String>,
}

/// Request for the pinned messages of a conversation or a channel.
pub struct PinnedBody {
    pub contact_id: Option<String>,
    pub channel_id: Option<String>,
}

/// Request for a search in a conversation or a channel.
pub struct SearchMessagesBody {
    pub query: Option<String>,
    pub contact_id: Option<String>,
    pub channel_id: Option<String>,
}

/// Request for the preview of a link.
pub struct LinkPreviewBody {
    pub url: Option<String>,
}

/// How a page position was judged.
#[derive(Clone, Copy, Debug, PartialEq, Eq)]
pub enum Cursor {
    At(Oid),
    Invalid,
    Unavailable,
}

/// What is known while a page of a conversation is read.
#[derive(Clone, Copy, Debug)]
pub struct HistoryFacts {
    pub access: Option<DmAccess>,
    pub cursor: Option<Cursor>,
    pub page: Option<Done>,
}

/// What to do next for a page of a conversation.
#[derive(Clone, Copy, Debug, PartialEq, Eq)]
pub enum HistoryStep {
    /// Check that the user may read the conversation with the named contact.
    Authorize,
    /// Judge the position that the page ends before.
    CheckCursor { me: Oid, other: Oid },
    /// Fetch the newest messages, at most `fetch`, before the position if there is one.
    Find { me: Oid, other: Oid, before: Option<Oid>, fetch: i64 },
    /// Reply with the page of at most `limit` messages.
    Page { me: Oid, other: Oid, limit: i64 },
    Refuse(Refusal),
}

/// The page size that a request asks for, within its bounds.
pub open spec fn page_size(asked: Option<i64>) -> i64 {
    match asked {
        None => DEFAULT_MESSAGE_LIMIT,
        Some(n) => if n < 1 {
            1
        } else if n > MAX_MESSAGE_LIMIT {
            MAX_MESSAGE_LIMIT
        } else {
            n
        },
    }
}

/// The page size that a request asks for, within its bounds.
pub fn clamp_page_size(asked: Option<i64>) -> (r: i64)
    ensures
        r == page_size(asked),
        1 <= r <= MAX_MESSAGE_LIMIT,
{
    match asked {
        None => DEFAULT_MESSAGE_LIMIT,
        Some(n) => if n < 1 {
            1
        } else if n > MAX_MESSAGE_LIMIT {
            MAX_MESSAGE_LIMIT
        } else {
            n
        },
    }
}

pub open spec fn history_step(user: Option<&str>, body: GetMessagesBody, f: HistoryFacts) -> HistoryStep {
    let me = f.access->0->me;
    let other = f.access->0->other;
    let size = page_size(body.limit);
    if user is None {
        HistoryStep::Refuse(titled(401, "UNAUTHORIZED", "Authentication required."))
    } else if text::given(body.id) is None {
        HistoryStep::Refuse(titled(400, "INVALID_REQUEST", "Contact id is required."))
    } else if f.access is None {
        HistoryStep::Authorize
    } else if f.access->0 is Unavailable {
        HistoryStep::Refuse(unavailable())
    } else if f.access->0 is Denied {
        HistoryStep::Refuse(titled(403, "ACCESS_DENIED", f.access->0->Denied_0))
    } else if text::given(body.before) is Some && f.cursor is None {
        HistoryStep::CheckCursor { me, other }
    } else if text::given(body.before) is Some && f.cursor->0 is Unavailable {
        HistoryStep::Refuse(again(titled(503, "UNAVAILABLE", "Temporarily unavailable. Retry.")))
    } else if text::given(body.before) is Some && f.cursor->0 is Invalid {
        HistoryStep::Refuse(titled(400, "INVALID_CURSOR", "Invalid pagination cursor."))
    } else if f.page is None {
        let before = if text::given(body.before) is Some {
            Some(f.cursor->0->At_0)
        } else {
            None
        };
        HistoryStep::Find { me, other, before, fetch: (size + 1) as i64 }
    } else if f.page->0 is Failed {
        HistoryStep::Refuse(plain(500, "Internal Server Error"))
    } else {
        HistoryStep::Page { me, other, limit: size }
    }
}

/// Decides the next step of reading a page of a conversation.
pub fn get_messages(user: Option<&str>, body: &GetMessagesBody, f: &HistoryFacts) -> (r: HistoryStep)
    ensures
        r == history_step(user, *body, *f),
{
    if user.is_none() {
        return HistoryStep::Refuse(titled(401, "UNAUTHORIZED", "Authentication required."));
    }
    if text::given_text(&body.id).is_none() {
        return HistoryStep::Refuse(titled(400, "INVALID_REQUEST", "Contact id is required."));
    }
    let (me, other) = match f.access {
        None => return HistoryStep::Authorize,
        Some(DmAccess::Unavailable) => return HistoryStep::Refuse(unavailable()),
        Some(DmAccess::Denied(why)) => {
            return HistoryStep::Refuse(titled(403, "ACCESS_DENIED", why));
        },
        Some(DmAccess::Granted { me, other }) => (me, other),
    };
    let size: i64 = clamp_page_size(body.limit);
    let mut before: Option<Oid> = None;
    if text::given_text(&body.before).is_some() {
        match f.cursor {
            None => return HistoryStep::CheckCursor { me, other },
            Some(Cursor::Unavailable) => {
                return HistoryStep::Refuse(
                    again(titled(503, "UNAVAILABLE", "Temporarily unavailable. Retry.")),
                );
            },
            Some(Cursor::Invalid) => {
                return HistoryStep::Refuse(
                    titled(400, "INVALID_CURSOR", "Invalid pagination cursor."),
                );
            },
            Some(Cursor::At(id)) => {
                before = Some(id);
            },
        }
    }
    match f.page {
        None => HistoryStep::Find { me, other, before, fetch: size + 1 },
        Some(Done::Failed) => HistoryStep::Refuse(plain(500, "Internal Server Error")),
        Some(Done::Worked) => HistoryStep::Page { me, other, limit: size },
    }
}

/// A user with access reads a conversation page by page: the request is not refused while nothing
/// fails, and the newest messages before the position, if one is given, are fetched, one more than the
/// page holds. A page has 30 messages unless another number from 1 to 50 is asked for; numbers outside
/// are brought to the nearest of these.
pub proof fn law_history_is_shown_with_access(
    user: Option<&str>,
    body: GetMessagesBody,
    f: HistoryFacts,
)
    ensures
        ({
            let s = history_step(user, body, f);
            let size = page_size(body.limit);
            let placed = text::given(body.before) is None;
            let fits = user is Some && text::given(body.id) is Some && (f.access is None
                || f.access->0 is Granted) && (placed || f.cursor is None || f.cursor->0 is At) && f.page
                != Some(Done::Failed);
            let known = f.access is Some && (placed || f.cursor is Some);
            &&& 1 <= size <= 50
            &&& body.limit is None ==> size == 30
            &&& body.limit matches Some(n) ==> (1 <= n <= 50 ==> size == n) && (n < 1 ==> size == 1)
                && (n > 50 ==> size == 50)
            &&& fits ==> s !is Refuse
            &&& fits && f.access is None ==> s is Authorize
            &&& fits && known && f.page is None ==> s == (HistoryStep::Find {
                me: f.access->0->me,
                other: f.access->0->other,
                before: if placed {
                    None
                } else {
                    Some(f.cursor->0->At_0)
                },
                fetch: (size + 1) as i64,
            })
            &&& fits && known && f.page is Some ==> s == (HistoryStep::Page {
                me: f.access->0->me,
                other: f.access->0->other,
                limit: size,
            })
            &&& s is Find || s is Page || s is CheckCursor ==> f.access is Some && f.access->0 is
                Granted && user is Some
            &&& s is CheckCursor ==> f.cursor is None && !placed
            &&& s is Find ==> f.page is None
            &&& s is Page ==> f.page == Some(Done::Worked)
            &&& s is Authorize ==> f.access is None
            &&& user is None || text::given(body.id) is None ==> s is Refuse
            &&& s matches HistoryStep::Refuse(r) ==> {
                &&& r.status == 401 <==> user is None
                &&& r.status == 403 ==> f.access is Some && f.access->0 is Denied
                &&& r.status == 400 ==> text::given(body.id) is None || !(f.cursor->0 is At)
            }
        }),
{
}

/// What the rules read of a message that is edited or deleted.
#[derive(Clone, Copy, Debug, PartialEq, Eq, Structural)]
pub struct Target {
    pub sender: Oid,
    pub is_text: bool,
    pub place: Place,
}

/// What is known while a message is edited.
#[derive(Clone, Copy, Debug)]
pub struct EditFacts {
    pub account: Option<Account>,
    pub message: Option<Lookup<Target>>,
    pub access: Option<Access>,
    pub channel: Option<Lookup<()>>,
    /// The second attempt to load the channel, made after a failed first one.
    pub channel_again: Option<Lookup<()>>,
    pub mentions: Option<Done>,
    pub encoded: Option<Done>,
    pub sealed: Option<Done>,
    pub indexed: Option<Done>,
    pub wrote: Option<Wrote>,
    pub reread: Option<Lookup<Target>>,
    /// The second attempt to read the message back.
    pub reread_again: Option<Lookup<Target>>,
}

/// The people of a channel.
pub struct Room {
    pub members: Vec<Oid>,
    pub admin: Oid,
}

/// What was made of new content.
pub struct EditWork {
    /// The accounts that it mentions.
    pub mentions: Vec<Oid>,
    /// Whether it mentions everyone.
    pub names_everyone: bool,
    /// Its stored form.
    pub sealed: String,
    /// What a search looks through.
    pub search_text: String,
    pub search_tokens: Vec<String>,
}

/// What is stored of an edit, besides the time.
#[derive(Debug, PartialEq, Eq)]
pub struct EditPatch {
    pub content: String,
    pub search_text: String,
    pub search_tokens: Vec<String>,
    pub mentions: Vec<Oid>,
    pub mentions_everyone: bool,
    pub edited: bool,
}

/// The view of `EditPatch`.
#[verifier::ext_equal]
pub struct EditPatchView {
    pub content: Seq<char>,
    pub search_text: Seq<char>,
    pub search_tokens: Seq<Seq<char>>,
    pub mentions: Seq<Oid>,
    pub mentions_everyone: bool,
    pub edited: bool,
}

impl View for EditPatch {
    type V = EditPatchView;

    open spec fn view(&self) -> EditPatchView {
        EditPatchView {
            content: self.content@,
            search_text: self.search_text@,
            search_tokens: text::texts(self.search_tokens@),
            mentions: self.mentions@,
            mentions_everyone: self.mentions_everyone,
            edited: self.edited,
        }
    }
}

/// What to do next while a message is edited.
#[derive(Debug, PartialEq, Eq)]
pub enum EditStep {
    LoadAccount(Oid),
    LoadMessage(Oid),
    /// Check that the user takes part in the conversation or channel of the message.
    CheckParticipant,
    LoadChannel(Oid),
    ReloadChannel(Oid),
    /// Find the accounts that the content mentions, among the candidates.
    ResolveMentions { content: String, candidates: Vec<String> },
    EncodeMentions(Vec<Oid>),
    /// Turn the content into its stored form.
    SealContent(String),
    /// Make what a search looks through.
    IndexContent(String),
    /// Store the edit; not in a message that was deleted, where `unless_deleted` says so.
    Write { message: Oid, patch: EditPatch, unless_deleted: bool },
    Reread(Oid),
    RereadAgain(Oid),
    /// Tell everyone concerned, and reply with the message as it was read back.
    Publish(Target),
    Refuse(Refusal),
}

/// The view of `EditStep`.
#[verifier::ext_equal]
pub enum EditStepView {
    LoadAccount(Oid),
    LoadMessage(Oid),
    CheckParticipant,
    LoadChannel(Oid),
    ReloadChannel(Oid),
    ResolveMentions { content: Seq<char>, candidates: Seq<Seq<char>> },
    EncodeMentions(Seq<Oid>),
    SealContent(Seq<char>),
    IndexContent(Seq<char>),
    Write { message: Oid, patch: EditPatchView, unless_deleted: bool },
    Reread(Oid),
    RereadAgain(Oid),
    Publish(Target),
    Refuse(Refusal),
}

impl View for EditStep {
    type V = EditStepView;

    open spec fn view(&self) -> EditStepView {
        match self {
            EditStep::LoadAccount(a) => EditStepView::LoadAccount(*a),
            EditStep::LoadMessage(a) => EditStepView::LoadMessage(*a),
            EditStep::CheckParticipant => EditStepView::CheckParticipant,
            EditStep::LoadChannel(a) => EditStepView::LoadChannel(*a),
            EditStep::ReloadChannel(a) => EditStepView::ReloadChannel(*a),
            EditStep::ResolveMentions { content, candidates } => EditStepView::ResolveMentions {
                content: content@,
                candidates: text::texts(candidates@),
            },
            EditStep::EncodeMentions(a) => EditStepView::EncodeMentions(a@),
            EditStep::SealContent(a) => EditStepView::SealContent(a@),
            EditStep::IndexContent(a) => EditStepView::IndexContent(a@),
            EditStep::Write { message, patch, unless_deleted } => EditStepView::Write {
                message: *message,
                patch: patch@,
                unless_deleted: *unless_deleted,
            },
            EditStep::Reread(a) => EditStepView::Reread(*a),
            EditStep::RereadAgain(a) => EditStepView::RereadAgain(*a),
            EditStep::Publish(a) => EditStepView::Publish(*a),
            EditStep::Refuse(a) => EditStepView::Refuse(*a),
        }
    }
}

/// The reply to an account that may not act.
#[verifier::allow_in_spec]
pub fn account_refusal(a: Account) -> Refusal
    returns
        (match a {
            Account::Blocked => error(403, "Account is inactive or blocked"),
            Account::Missing => error(401, "User not found"),
            _ => unavailable(),
        }),
{
    match a {
        Account::Blocked => error(403, "Account is inactive or blocked"),
        Account::Missing => error(401, "User not found"),
        _ => unavailable(),
    }
}

/// The reply where an access check did not grant access.
#[verifier::allow_in_spec]
pub fn access_refusal(a: Access) -> Refusal
    returns
        (match a {
            Access::Unavailable(why) => again(error(503, why)),
            Access::Denied(why) => error(403, why),
            Access::Granted => unavailable(),
        }),
{
    match a {
        Access::Unavailable(why) => again(error(503, why)),
        Access::Denied(why) => error(403, why),
        Access::Granted => unavailable(),
    }
}

/// The reply after a failure that the client may retry.
#[verifier::allow_in_spec]
pub fn internal_again() -> Refusal
    returns
        again(error(500, "Internal server error")),
{
    again(error(500, "Internal server error"))
}

/// The accounts that the content of a message may mention: in a channel the members and the owner,
/// between two those two.
pub open spec fn candidates(target: Target, room: Room) -> Seq<Seq<char>> {
    match target.place {
        Place::Channel(_) => ids::hex_all(room.members@.push(room.admin)),
        Place::Dm(other) => seq![ids::hex_of(target.sender), ids::hex_of(other)],
        Place::Nowhere => Seq::empty(),
    }
}

/// Lists the accounts that the content of a message may mention.
pub fn mention_candidates(target: Target, room: &Room) -> (r: Vec<String>)
    ensures
        text::texts(r@) == candidates(target, *room),
{
    match target.place {
        Place::Channel(_) => channel_mention_candidates(&room.members, room.admin),
        Place::Dm(other) => dm_mention_candidates(target.sender, other),
        Place::Nowhere => {
            let none: Vec<String> = Vec::new();
            assert(text::texts(none@) =~= Seq::empty());
            none
        },
    }
}

/// What is stored of an edit: everyone is mentioned in a channel only.
pub open spec fn edit_patch(work: EditWork, place: Place) -> EditPatchView {
    EditPatchView {
        content: work.sealed@,
        search_text: work.search_text@,
        search_tokens: text::texts(work.search_tokens@),
        mentions: work.mentions@,
        mentions_everyone: place is Channel && work.names_everyone,
        edited: true,
    }
}

/// Puts together what is stored of an edit.
pub fn make_edit_patch(work: &EditWork, place: Place) -> (r: EditPatch)
    ensures
        r@ == edit_patch(*work, place),
{
    EditPatch {
        content: work.sealed.clone(),
        search_text: work.search_text.clone(),
        search_tokens: lists::copy_texts(&work.search_tokens),
        mentions: lists::copy_oids(&work.mentions),
        mentions_everyone: match place {
            Place::Channel(_) => work.names_everyone,
            _ => false,
        },
        edited: true,
    }
}

pub open spec fn edit_step(
    user: Option<&str>,
    message_id: &str,
    content: &str,
    within_limit: bool,
    room: Room,
    work: EditWork,
    f: EditFacts,
) -> EditStepView {
    let mid = ids::oid_of(message_id@)->0;
    let uid = ids::oid_of(user->0@);
    let target = f.message->0->0;
    let failed = EditStepView::Refuse(internal_again());
    if user is None {
        EditStepView::Refuse(error(401, "Unauthorized"))
    } else if ids::oid_of(message_id@) is None {
        EditStepView::Refuse(error(404, "Message not found"))
    } else if uid is Some && f.account is None {
        EditStepView::LoadAccount(uid->0)
    } else if uid is Some && f.account->0 != Account::Allowed {
        EditStepView::Refuse(account_refusal(f.account->0))
    } else if f.message is None {
        EditStepView::LoadMessage(mid)
    } else if f.message->0 is Missing {
        EditStepView::Refuse(error(404, "Message not found"))
    } else if f.message->0 is Failed {
        failed
    } else if ids::hex_of(target.sender) != user->0@ {
        EditStepView::Refuse(error(403, "Not authorized to edit this message"))
    } else if !target.is_text {
        EditStepView::Refuse(error(400, "Only text messages can be edited"))
    } else if f.access is None {
        EditStepView::CheckParticipant
    } else if f.access->0 !is Granted {
        EditStepView::Refuse(access_refusal(f.access->0))
    } else if text::trimmed(content@).len() == 0 {
        EditStepView::Refuse(error(400, "Treść wiadomości jest wymagana"))
    } else if !within_limit {
        EditStepView::Refuse(error(400, "Wiadomość nie może przekraczać 2000 znaków"))
    } else if target.place is Nowhere {
        EditStepView::Refuse(error(400, "Invalid message"))
    } else if target.place is Channel && f.channel is None {
        EditStepView::LoadChannel(target.place->Channel_0)
    } else if target.place is Channel && f.channel->0 is Missing {
        EditStepView::Refuse(error(404, "Channel not found"))
    } else if target.place is Channel && f.channel->0 is Failed && f.channel_again is None {
        EditStepView::ReloadChannel(target.place->Channel_0)
    } else if target.place is Channel && f.channel->0 is Failed && f.channel_again->0 is Missing {
        EditStepView::Refuse(error(404, "Channel not found"))
    } else if target.place is Channel && f.channel->0 is Failed && f.channel_again->0 is Failed {
        failed
    } else if f.mentions is None {
        EditStepView::ResolveMentions { content: content@, candidates: candidates(target, room) }
    } else if f.mentions->0 is Failed {
        EditStepView::Refuse(unavailable())
    } else if f.encoded is None {
        EditStepView::EncodeMentions(work.mentions@)
    } else if f.encoded->0 is Failed {
        failed
    } else if f.sealed is None {
        EditStepView::SealContent(text::trimmed(content@))
    } else if f.sealed->0 is Failed {
        failed
    } else if f.indexed is None {
        EditStepView::IndexContent(text::trimmed(content@))
    } else if f.indexed->0 is Failed {
        failed
    } else if f.wrote is None {
        EditStepView::Write {
            message: mid,
            patch: edit_patch(work, target.place),
            unless_deleted: true,
        }
    } else if f.wrote->0 is Failed {
        failed
    } else if f.wrote->0 is Unchanged {
        EditStepView::Refuse(error(404, "Message not found"))
    } else if f.reread is None {
        EditStepView::Reread(mid)
    } else if f.reread->0 is Found {
        EditStepView::Publish(f.reread->0->0)
    } else if f.reread_again is None {
        EditStepView::RereadAgain(mid)
    } else if f.reread_again->0 is Found {
        EditStepView::Publish(f.reread_again->0->0)
    } else {
        failed
    }
}

/// Decides the next step of editing a message. `content` is the new content after
/// cleaning, `within_limit` whether it is short enough, `room` who is in the channel of the message,
/// `work` what was made of the content.
pub fn edit_message(
    user: Option<&str>,
    message_id: &str,
    content: &str,
    within_limit: bool,
    room: &Room,
    work: &EditWork,
    f: &EditFacts,
) -> (r: EditStep)
    ensures
        r@ == edit_step(user, message_id, content, within_limit, *room, *work, *f),
{
    let failed = EditStep::Refuse(internal_again());
    let user = match user {
        None => return EditStep::Refuse(error(401, "Unauthorized")),
        Some(u) => u,
    };
    let mid = match parse_oid(message_id) {
        None => return EditStep::Refuse(error(404, "Message not found")),
        Some(id) => id,
    };
    if let Some(uid) = parse_oid(user) {
        match f.account {
            None => return EditStep::LoadAccount(uid),
            Some(Account::Allowed) => {},
            Some(a) => return EditStep::Refuse(account_refusal(a)),
        }
    }
    let target = match f.message {
        None => return EditStep::LoadMessage(mid),
        Some(Lookup::Missing) => return EditStep::Refuse(error(404, "Message not found")),
        Some(Lookup::Failed) => return failed,
        Some(Lookup::Found(t)) => t,
    };
    if !is_hex_of(target.sender, user) {
        return EditStep::Refuse(error(403, "Not authorized to edit this message"));
    }
    if !target.is_text {
        return EditStep::Refuse(error(400, "Only text messages can be edited"));
    }
    match f.access {
        None => return EditStep::CheckParticipant,
        Some(Access::Granted) => {},
        Some(a) => return EditStep::Refuse(access_refusal(a)),
    }
    if text::trim(content).as_str().is_empty() {
        return EditStep::Refuse(error(400, "Treść wiadomości jest wymagana"));
    }
    if !within_limit {
        return EditStep::Refuse(error(400, "Wiadomość nie może przekraczać 2000 znaków"));
    }
    match target.place {
        Place::Nowhere => return EditStep::Refuse(error(400, "Invalid message")),
        Place::Dm(_) => {},
        Place::Channel(cid) => match f.channel {
            None => return EditStep::LoadChannel(cid),
            Some(Lookup::Missing) => return EditStep::Refuse(error(404, "Channel not found")),
            Some(Lookup::Found(_)) => {},
            Some(Lookup::Failed) => match f.channel_again {
                None => return EditStep::ReloadChannel(cid),
                Some(Lookup::Missing) => {
                    return EditStep::Refuse(error(404, "Channel not found"));
                },
                Some(Lookup::Failed) => return failed,
                Some(Lookup::Found(_)) => {},
            },
        },
    }
    match f.mentions {
        None => return EditStep::ResolveMentions {
            content: content.to_owned(),
            candidates: mention_candidates(target, room),
        },
        Some(Done::Failed) => return EditStep::Refuse(unavailable()),
        Some(Done::Worked) => {},
    }
    match f.encoded {
        None => return EditStep::EncodeMentions(lists::copy_oids(&work.mentions)),
        Some(Done::Failed) => return failed,
        Some(Done::Worked) => {},
    }
    match f.sealed {
        None => return EditStep::SealContent(text::trim(content)),
        Some(Done::Failed) => return failed,
        Some(Done::Worked) => {},
    }
    match f.indexed {
        None => return EditStep::IndexContent(text::trim(content)),
        Some(Done::Failed) => return failed,
        Some(Done::Worked) => {},
    }
    match f.wrote {
        None => return EditStep::Write {
            message: mid,
            patch: make_edit_patch(work, target.place),
            unless_deleted: true,
        },
        Some(Wrote::Failed) => return failed,
        Some(Wrote::Unchanged) => return EditStep::Refuse(error(404, "Message not found")),
        Some(Wrote::Changed) => {},
    }
    match f.reread {
        None => return EditStep::Reread(mid),
        Some(Lookup::Found(t)) => return EditStep::Publish(t),
        _ => {},
    }
    match f.reread_again {
        None => EditStep::RereadAgain(mid),
        Some(Lookup::Found(t)) => EditStep::Publish(t),
        _ => failed,
    }
}

/// An edit is stored only for the sender of a text message, who takes part where it
/// stands, with content that is neither blank nor too long.
pub proof fn law_edit_is_stored_for_its_sender_only(
    user: Option<&str>,
    message_id: &str,
    content: &str,
    within_limit: bool,
    room: Room,
    work: EditWork,
    f: EditFacts,
)
    requires
        edit_step(user, message_id, content, within_limit, room, work, f) is Write,
    ensures
        user is Some,
        f.message->0->0.is_text,
        ids::hex_of(f.message->0->0.sender) == user->0@,
        f.access == Some(Access::Granted),
        text::trimmed(content@).len() > 0,
        within_limit,
        edit_step(user, message_id, content, within_limit, room, work, f) == (
        EditStepView::Write {
            message: ids::oid_of(message_id@)->0,
            patch: edit_patch(work, f.message->0->0.place),
            unless_deleted: true,
        }),
        f.message->0->0.place is Dm ==> !edit_patch(work, f.message->0->0.place).mentions_everyone,
{
}

/// An edit is announced only after it was stored.
pub proof fn law_edit_is_announced_after_it_is_stored(
    user: Option<&str>,
    message_id: &str,
    content: &str,
    within_limit: bool,
    room: Room,
    work: EditWork,
    f: EditFacts,
)
    requires
        edit_step(user, message_id, content, within_limit, room, work, f) is Publish,
    ensures
        f.wrote == Some(Wrote::Changed),
{
}

/// A user who may act can edit an own text message in a channel that was found, at the first or
/// the second attempt, or in a conversation: the request is not refused while nothing fails, the
/// edit is stored as soon as it is prepared, and announced once it was read back.
pub proof fn law_edit_of_own_message_goes_through(
    user: Option<&str>,
    message_id: &str,
    content: &str,
    within_limit: bool,
    room: Room,
    work: EditWork,
    f: EditFacts,
)
    requires
        user is Some,
        ids::oid_of(message_id@) is Some,
        ids::oid_of(user->0@) is Some ==> f.account is None || f.account == Some(Account::Allowed),
        f.message matches Some(m) ==> m is Found && ids::hex_of(m->0.sender) == user->0@
            && m->0.is_text && m->0.place !is Nowhere,
        f.access is None || f.access == Some(Access::Granted),
        text::trimmed(content@).len() > 0,
        within_limit,
        f.channel matches Some(c) ==> c !is Missing,
        f.channel_again matches Some(c) ==> c is Found,
        f.mentions != Some(Done::Failed),
        f.encoded != Some(Done::Failed),
        f.sealed != Some(Done::Failed),
        f.indexed != Some(Done::Failed),
        f.wrote is None || f.wrote == Some(Wrote::Changed),
        f.reread_again matches Some(m) ==> m is Found,
    ensures
        ({
            let s = edit_step(user, message_id, content, within_limit, room, work, f);
            let known = f.account is Some && f.message is Some && f.access is Some && (
            f.message->0->0.place is Channel ==> f.channel is Some && (f.channel->0 is Failed
                ==> f.channel_again is Some));
            let prepared = known && f.mentions is Some && f.encoded is Some && f.sealed is Some
                && f.indexed is Some;
            &&& s !is Refuse
            &&& known && f.mentions is None ==> s is ResolveMentions
            &&& prepared && f.wrote is None ==> s is Write
            &&& prepared && f.wrote is Some && f.reread is Some && (f.reread->0 is Found
                || f.reread_again is Some) ==> s is Publish
        }),
{
}

/// Editing asks only for what is not known yet, so that it comes to an end; nothing is stored
/// before everything is checked and prepared, and nothing is stored twice.
pub proof fn law_edit_makes_progress(
    user: Option<&str>,
    message_id: &str,
    content: &str,
    within_limit: bool,
    room: Room,
    work: EditWork,
    f: EditFacts,
)
    ensures
        ({
            let s = edit_step(user, message_id, content, within_limit, room, work, f);
            let target = f.message->0->0;
            &&& s is LoadAccount ==> f.account is None
            &&& s is LoadMessage ==> f.message is None
            &&& s is CheckParticipant ==> f.access is None
            &&& s is LoadChannel ==> f.channel is None && target.place is Channel
            &&& s is ReloadChannel ==> f.channel == Some(Lookup::<()>::Failed) && f.channel_again
                is None
            &&& s is ResolveMentions ==> f.mentions is None
            &&& s is EncodeMentions ==> f.encoded is None && f.mentions == Some(Done::Worked)
            &&& s is SealContent ==> f.sealed is None && f.encoded == Some(Done::Worked)
            &&& s is IndexContent ==> f.indexed is None && f.sealed == Some(Done::Worked)
            &&& s is Write ==> f.wrote is None && f.mentions == Some(Done::Worked) && f.encoded
                == Some(Done::Worked) && f.sealed == Some(Done::Worked) && f.indexed == Some(
                Done::Worked,
            ) && (target.place is Channel ==> (f.channel is Some && f.channel->0 is Found) || (f.channel
                == Some(Lookup::<()>::Failed) && (f.channel_again is Some && f.channel_again->0 is Found)))
            &&& s is Write && ids::oid_of(user->0@) is Some ==> f.account == Some(Account::Allowed)
            &&& s is Reread ==> f.reread is None && f.wrote == Some(Wrote::Changed)
            &&& s is RereadAgain ==> f.reread_again is None && f.wrote == Some(Wrote::Changed)
            &&& s matches EditStepView::Publish(t) ==> f.reread == Some(Lookup::Found(t))
                || f.reread_again == Some(Lookup::Found(t))
        }),
{
}

/// What editing hands on: the message and the user that the request names, the channel of the
/// message, and the trimmed content.
pub proof fn law_edit_hands_on_what_it_was_given(
    user: Option<&str>,
    message_id: &str,
    content: &str,
    within_limit: bool,
    room: Room,
    work: EditWork,
    f: EditFacts,
)
    ensures
        ({
            let s = edit_step(user, message_id, content, within_limit, room, work, f);
            let target = f.message->0->0;
            &&& s matches EditStepView::LoadAccount(id) ==> ids::oid_of(user->0@) == Some(id)
            &&& s matches EditStepView::LoadMessage(id) ==> ids::oid_of(message_id@) == Some(id)
            &&& s matches EditStepView::Reread(id) ==> ids::oid_of(message_id@) == Some(id)
            &&& s matches EditStepView::RereadAgain(id) ==> ids::oid_of(message_id@) == Some(id)
            &&& s matches EditStepView::LoadChannel(id) ==> target.place == Place::Channel(id)
            &&& s matches EditStepView::ReloadChannel(id) ==> target.place == Place::Channel(id)
            &&& s matches EditStepView::EncodeMentions(all) ==> all == work.mentions@
            &&& s matches EditStepView::SealContent(c) ==> c == text::trimmed(content@)
            &&& s matches EditStepView::IndexContent(c) ==> c == text::trimmed(content@)
        }),
{
}

/// Mentions are looked for in the content as it was sent: in a channel among its members and its
/// owner, in a conversation among the two.
pub proof fn law_mentions_are_looked_for_among_those_present(
    user: Option<&str>,
    message_id: &str,
    content: &str,
    within_limit: bool,
    room: Room,
    work: EditWork,
    f: EditFacts,
)
    requires
        edit_step(user, message_id, content, within_limit, room, work, f) is ResolveMentions,
    ensures
        edit_step(user, message_id, content, within_limit, room, work, f)->content == content@,
        f.message->0->0.place is Channel ==> edit_step(
            user,
            message_id,
            content,
            within_limit,
            room,
            work,
            f,
        )->candidates == ids::hex_all(room.members@.push(room.admin)),
        f.message->0->0.place matches Place::Dm(other) ==> edit_step(
            user,
            message_id,
            content,
            within_limit,
            room,
            work,
            f,
        )->candidates == seq![ids::hex_of(f.message->0->0.sender), ids::hex_of(other)],
{
}

/// What an edit stores, in the message that the request names unless it was deleted: what was made
/// of the content, and everyone as mentioned only in a channel.
pub proof fn law_edit_stores_what_was_made_of_it(
    user: Option<&str>,
    message_id: &str,
    content: &str,
    within_limit: bool,
    room: Room,
    work: EditWork,
    f: EditFacts,
)
    ensures
        ({
            let s = edit_step(user, message_id, content, within_limit, room, work, f);
            let target = f.message->0->0;
            &&& s matches EditStepView::Write { message, patch, unless_deleted } ==> ids::oid_of(
                message_id@,
            ) == Some(message) && unless_deleted && patch.edited && patch.content == work.sealed@
                && patch.search_text == work.search_text@ && patch.search_tokens == text::texts(
                work.search_tokens@,
            ) && patch.mentions == work.mentions@ && (patch.mentions_everyone <==> target.place
                is Channel && work.names_everyone)
        }),
{
}

/// A refused edit has its reason: nobody is signed in (401), the message or its channel is gone
/// (404), the user may not (403), the content or the message does not fit (400), or something
/// failed (500, 503), after which the request may be sent again.
pub proof fn law_refused_edit_has_its_reason(
    user: Option<&str>,
    message_id: &str,
    content: &str,
    within_limit: bool,
    room: Room,
    work: EditWork,
    f: EditFacts,
)
    ensures
        edit_step(user, message_id, content, within_limit, room, work, f) matches EditStepView::Refuse(r) ==> {
            let target = f.message->0->0;
            &&& r.status == 401 || r.status == 404 || r.status == 403 || r.status == 400 || r.status
                == 500 || r.status == 503
            &&& r.status == 401 ==> user is None || f.account == Some(Account::Missing)
            &&& r.status == 404 ==> ids::oid_of(message_id@) is None || f.message == Some(
                Lookup::<Target>::Missing,
            ) || (target.place is Channel && (f.channel == Some(Lookup::<()>::Missing)
                || f.channel_again == Some(Lookup::<()>::Missing))) || f.wrote == Some(
                Wrote::Unchanged,
            )
            &&& r.status == 403 ==> f.account == Some(Account::Blocked) || ids::hex_of(
                target.sender,
            ) != user->0@ || (f.access is Some && f.access->0 is Denied)
            &&& r.status == 400 ==> !target.is_text || text::trimmed(content@).len() == 0
                || !within_limit || target.place is Nowhere
            &&& r.status == 500 || r.status == 503 ==> r.retryable
            &&& user is None ==> r.status == 401
            &&& user is Some && ids::oid_of(message_id@) is None ==> r.status == 404
        },
        user is None || ids::oid_of(message_id@) is None ==> edit_step(user, message_id, content, within_limit, room, work, f) is Refuse,
{
}

/// What stands in the way of an edit decides how it is refused, and nothing is stored then: whatever is
/// wrong with the account, the message, the content, the channel or a step on the way has its status.
pub proof fn law_obstacle_decides_how_an_edit_is_refused(
    user: Option<&str>,
    message_id: &str,
    content: &str,
    within_limit: bool,
    room: Room,
    work: EditWork,
    f: EditFacts,
)
    requires
        user is Some,
        ids::oid_of(message_id@) is Some,
    ensures
        ({
            let s = edit_step(user, message_id, content, within_limit, room, work, f);
            let t = f.message->0->0;
            let named = ids::oid_of(user->0@) is Some;
            let free = named ==> f.account == Some(Account::Allowed);
            let own = free && f.message is Some && f.message->0 is Found && ids::hex_of(t.sender)
                == user->0@;
            let let_in = own && t.is_text && f.access == Some(Access::Granted);
            let worded = let_in && text::trimmed(content@).len() > 0;
            let fits = worded && within_limit && t.place !is Nowhere;
            let lost = f.channel is Some && (f.channel->0 is Missing || (f.channel->0 is Failed
                && f.channel_again is Some && f.channel_again->0 is Missing));
            let down = f.channel is Some && f.channel->0 is Failed && f.channel_again is Some
                && f.channel_again->0 is Failed;
            let there = fits && (t.place is Dm || (f.channel is Some && (f.channel->0 is Found || (
            f.channel->0 is Failed && f.channel_again is Some && f.channel_again->0 is Found))));
            let found = there && f.mentions == Some(Done::Worked);
            let coded = found && f.encoded == Some(Done::Worked);
            let sealed = coded && f.sealed == Some(Done::Worked);
            let ready = sealed && f.indexed == Some(Done::Worked);
            let stored = ready && f.wrote == Some(Wrote::Changed);
            &&& named && f.account == Some(Account::Blocked) ==> s is Refuse && s->Refuse_0.status
                == 403
            &&& named && f.account == Some(Account::Missing) ==> s is Refuse && s->Refuse_0.status
                == 401
            &&& named && f.account == Some(Account::Unavailable) ==> s is Refuse && s->Refuse_0.status
                == 503
            &&& free && f.message is Some && f.message->0 is Missing ==> s is Refuse
                && s->Refuse_0.status == 404
            &&& free && f.message is Some && f.message->0 is Failed ==> s is Refuse
                && s->Refuse_0.status == 500
            &&& free && f.message is Some && f.message->0 is Found && !own ==> s is Refuse
                && s->Refuse_0.status == 403
            &&& own && !t.is_text ==> s is Refuse && s->Refuse_0.status == 400
            &&& own && t.is_text && f.access is Some && f.access->0 is Denied ==> s is Refuse
                && s->Refuse_0.status == 403 && s->Refuse_0.error == Some(f.access->0->Denied_0)
            &&& own && t.is_text && f.access is Some && f.access->0 is Unavailable ==> s is Refuse
                && s->Refuse_0.status == 503
            &&& let_in && !worded ==> s is Refuse && s->Refuse_0.status == 400
            &&& worded && !fits ==> s is Refuse && s->Refuse_0.status == 400
            &&& fits && t.place is Channel && lost ==> s is Refuse && s->Refuse_0.status == 404
            &&& fits && t.place is Channel && down ==> s is Refuse && s->Refuse_0.status == 500
            &&& there && f.mentions == Some(Done::Failed) ==> s is Refuse && s->Refuse_0.status == 503
            &&& found && f.encoded == Some(Done::Failed) ==> s is Refuse && s->Refuse_0.status == 500
            &&& coded && f.sealed == Some(Done::Failed) ==> s is Refuse && s->Refuse_0.status == 500
            &&& sealed && f.indexed == Some(Done::Failed) ==> s is Refuse && s->Refuse_0.status == 500
            &&& ready && f.wrote == Some(Wrote::Failed) ==> s is Refuse && s->Refuse_0.status == 500
            &&& ready && f.wrote == Some(Wrote::Unchanged) ==> s is Refuse && s->Refuse_0.status
                == 404
            &&& stored && f.reread is Some && f.reread->0 !is Found && f.reread_again is Some
                && f.reread_again->0 !is Found ==> s is Refuse && s->Refuse_0.status == 500
        }),
{
}

/// The accounts that the content of a channel message may mention: the members, then the owner.
pub fn channel_mention_candidates(members: &Vec<Oid>, admin: Oid) -> (r: Vec<String>)
    ensures
        text::texts(r@) == ids::hex_all(members@.push(admin)),
{
    let mut out = ids::to_hex_all(members);
    let ghost before = out@;
    out.push(ids::to_hex(admin));
    assert(text::texts(out@) =~= text::texts(before).push(ids::hex_of(admin)));
    assert(ids::hex_all(members@.push(admin)) =~= ids::hex_all(members@).push(ids::hex_of(admin)));
    out
}

/// The accounts that the content of a message between two may mention.
pub fn dm_mention_candidates(sender: Oid, recipient: Oid) -> (r: Vec<String>)
    ensures
        text::texts(r@) == seq![ids::hex_of(sender), ids::hex_of(recipient)],
{
    let mut out: Vec<String> = Vec::new();
    out.push(ids::to_hex(sender));
    out.push(ids::to_hex(recipient));
    assert(text::texts(out@) =~= seq![ids::hex_of(sender), ids::hex_of(recipient)]);
    out
}

/// The accounts whose mute settings decide who hears of a mention: the members and the owner.
pub fn mute_scope(members: &Vec<Oid>, admin: Oid) -> (r: Vec<Oid>)
    ensures
        r@ == lists::with(members@, admin),
{
    let mut out = lists::copy_oids(members);
    lists::add_oid(&mut out, admin);
    out
}

/// Whether `member` is to hear of a mention that the edit brought: not the sender, not one
/// who muted the place, and mentioned now by name or by everyone's mention but not before.
pub open spec fn mention_is_new(
    member: Seq<char>,
    sender: Seq<char>,
    muted: Seq<Seq<char>>,
    mentions: Seq<Oid>,
    previous: Seq<Oid>,
    everyone: bool,
    previous_everyone: bool,
) -> bool {
    &&& member != sender
    &&& !muted.contains(member)
    &&& (ids::hex_all(mentions).contains(member) && !ids::hex_all(previous).contains(member)) || (
    everyone && !previous_everyone)
}

/// Those of `recipients` who are to hear of a new mention, in order. Nobody hears of it while
/// it is not known who muted the place.
pub open spec fn new_mentions(
    recipients: Seq<Seq<char>>,
    sender: Seq<char>,
    muted: Option<Seq<Seq<char>>>,
    mentions: Seq<Oid>,
    previous: Seq<Oid>,
    everyone: bool,
    previous_everyone: bool,
) -> Seq<Seq<char>>
    decreases recipients.len(),
{
    if recipients.len() == 0 || muted is None {
        Seq::empty()
    } else {
        let rest = new_mentions(
            recipients.drop_last(),
            sender,
            muted,
            mentions,
            previous,
            everyone,
            previous_everyone,
        );
        if mention_is_new(
            recipients.last(),
            sender,
            muted->0,
            mentions,
            previous,
            everyone,
            previous_everyone,
        ) {
            rest.push(recipients.last())
        } else {
            rest
        }
    }
}

/// Whether `member` is written as one of `ids`.
fn names_one_of(ids: &Vec<Oid>, member: &str) -> (r: bool)
    ensures
        r == ids::hex_all(ids@).contains(member@),
{
    let mut i: usize = 0;
    while i < ids.len()
        invariant
            i <= ids.len(),
            forall|j: int| 0 <= j < i ==> ids::hex_all(ids@)[j] != member@,
        decreases ids.len() - i,
    {
        if is_hex_of(ids[i], member) {
            assert(ids::hex_all(ids@)[i as int] == member@);
            return true;
        }
        i += 1;
    }
    assert(ids::hex_all(ids@).len() == ids@.len());
    false
}

/// The view of an optional list of texts.
pub open spec fn opt_texts(v: Option<&Vec<String>>) -> Option<Seq<Seq<char>>> {
    match v {
        None => None,
        Some(v) => Some(text::texts(v@)),
    }
}

/// Picks those of `recipients` who are to hear of a new mention.
pub fn newly_mentioned(
    recipients: &Vec<String>,
    sender: &str,
    muted: Option<&Vec<String>>,
    mentions: &Vec<Oid>,
    previous: &Vec<Oid>,
    everyone: bool,
    previous_everyone: bool,
) -> (r: Vec<String>)
    ensures
        text::texts(r@) == new_mentions(
            text::texts(recipients@),
            sender@,
            opt_texts(muted),
            mentions@,
            previous@,
            everyone,
            previous_everyone,
        ),
{
    let mut out: Vec<String> = Vec::new();
    assert(text::texts(out@) =~= Seq::<Seq<char>>::empty());
    let muted_ids = match muted {
        None => return out,
        Some(m) => m,
    };
    let mut i: usize = 0;
    while i < recipients.len()
        invariant
            i <= recipients.len(),
            muted == Some(muted_ids),
            text::texts(out@) == new_mentions(
                text::texts(recipients@).take(i as int),
                sender@,
                opt_texts(muted),
                mentions@,
                previous@,
                everyone,
                previous_everyone,
            ),
        decreases recipients.len() - i,
    {
        let ghost t = text::texts(recipients@).take(i + 1);
        assert(t.drop_last() =~= text::texts(recipients@).take(i as int));
        let member = recipients[i].as_str();
        assert(t.last() == member@);
        if !text::same_text(member, sender) && !lists::has_text(muted_ids, member) {
            let named = names_one_of(mentions, member) && !names_one_of(previous, member);
            if named || (everyone && !previous_everyone) {
                let ghost before = out@;
                out.push(recipients[i].clone());
                assert(text::texts(out@) =~= text::texts(before).push(member@));
            }
        }
        i += 1;
    }
    assert(text::texts(recipients@).take(i as int) =~= text::texts(recipients@));
    out
}

/// Whoever hears of a new mention is neither the sender nor one who muted the place.
pub proof fn law_sender_and_muted_hear_of_no_mention(
    recipients: Seq<Seq<char>>,
    sender: Seq<char>,
    muted: Option<Seq<Seq<char>>>,
    mentions: Seq<Oid>,
    previous: Seq<Oid>,
    everyone: bool,
    previous_everyone: bool,
)
    ensures
        forall|m: Seq<char>| #[trigger]
            new_mentions(
                recipients,
                sender,
                muted,
                mentions,
                previous,
                everyone,
                previous_everyone,
            ).contains(m) ==> muted is Some && recipients.contains(m) && m != sender
                && !muted->0.contains(m),
    decreases recipients.len(),
{
    if recipients.len() > 0 && muted is Some {
        let rest = recipients.drop_last();
        law_sender_and_muted_hear_of_no_mention(
            rest,
            sender,
            muted,
            mentions,
            previous,
            everyone,
            previous_everyone,
        );
        let told = new_mentions(
            recipients,
            sender,
            muted,
            mentions,
            previous,
            everyone,
            previous_everyone,
        );
        let fewer = new_mentions(rest, sender, muted, mentions, previous, everyone, previous_everyone);
        assert forall|m: Seq<char>| #[trigger] told.contains(m) implies recipients.contains(m) && m
            != sender && !muted->0.contains(m) by {
            let i = choose|i: int| 0 <= i < told.len() && told[i] == m;
            if i < fewer.len() {
                assert(fewer[i] == m);
                assert(fewer.contains(m));
                let k = choose|k: int| 0 <= k < rest.len() && rest[k] == m;
                assert(recipients[k] == m);
            } else {
                assert(recipients[recipients.len() - 1] == m);
            }
        }
    }
}

/// An edit that mentions nobody new is announced as a mention to nobody.
pub proof fn law_no_new_mention_without_new_names(
    recipients: Seq<Seq<char>>,
    sender: Seq<char>,
    muted: Option<Seq<Seq<char>>>,
    mentions: Seq<Oid>,
    everyone: bool,
)
    ensures
        new_mentions(recipients, sender, muted, mentions, mentions, everyone, everyone).len() == 0,
    decreases recipients.len(),
{
    if recipients.len() > 0 && muted is Some {
        law_no_new_mention_without_new_names(
            recipients.drop_last(),
            sender,
            muted,
            mentions,
            everyone,
        );
    }
}

/// Where it is known who muted the place, exactly those recipients hear of a mention who are not the
/// sender, did not mute it, and are newly mentioned, by name or as everyone.
pub proof fn law_new_mentions_are_told(
    recipients: Seq<Seq<char>>,
    sender: Seq<char>,
    muted: Seq<Seq<char>>,
    mentions: Seq<Oid>,
    previous: Seq<Oid>,
    everyone: bool,
    previous_everyone: bool,
    m: Seq<char>,
)
    ensures
        new_mentions(
            recipients,
            sender,
            Some(muted),
            mentions,
            previous,
            everyone,
            previous_everyone,
        ).contains(m) <==> recipients.contains(m) && m != sender && !muted.contains(m) && ((
        ids::hex_all(mentions).contains(m) && !ids::hex_all(previous).contains(m)) || (everyone
            && !previous_everyone)),
    decreases recipients.len(),
{
    if recipients.len() > 0 {
        let rest = recipients.drop_last();
        law_new_mentions_are_told(
            rest,
            sender,
            muted,
            mentions,
            previous,
            everyone,
            previous_everyone,
            m,
        );
        let before = new_mentions(
            rest,
            sender,
            Some(muted),
            mentions,
            previous,
            everyone,
            previous_everyone,
        );
        let all = new_mentions(
            recipients,
            sender,
            Some(muted),
            mentions,
            previous,
            everyone,
            previous_everyone,
        );
        let last = recipients.last();
        assert(recipients[recipients.len() - 1] == last);
        if rest.contains(m) {
            let i = choose|i: int| 0 <= i < rest.len() && rest[i] == m;
            assert(recipients[i] == m);
        }
        if recipients.contains(m) && m != last {
            let i = choose|i: int| 0 <= i < recipients.len() && recipients[i] == m;
            assert(rest[i] == m);
        }
        if before.contains(m) {
            let i = choose|i: int| 0 <= i < before.len() && before[i] == m;
            assert(all[i] == m);
        }
        if all.contains(m) {
            let i = choose|i: int| 0 <= i < all.len() && all[i] == m;
            if i < before.len() {
                assert(before[i] == m);
            }
        }
        if all.len() > before.len() {
            assert(all.last() == last);
        }
    }
}

/// What a mention shows of the content: its first 140 characters, with an ellipsis where
/// something was cut.
pub open spec fn preview_of(content: Seq<char>) -> Seq<char> {
    let t = text::trimmed(content);
    if t.len() > 140 {
        t.take(140) + "…"@
    } else {
        t
    }
}

/// Shortens the content for a mention.
pub fn mention_preview(content: &str) -> (r: String)
    ensures
        r@ == preview_of(content@),
{
    let t = text::trim(content);
    if t.as_str().unicode_len() > 140 {
        let mut cut = text::take_chars(t.as_str(), 140);
        cut.append("…");
        cut
    } else {
        t
    }
}

/// A preview is the whole trimmed content where that has at most 140 characters, and else its first
/// 140 and an ellipsis.
pub proof fn law_preview_is_a_beginning(content: Seq<char>)
    ensures
        text::trimmed(content).len() <= 140 ==> preview_of(content) == text::trimmed(content),
        text::trimmed(content).len() > 140 ==> preview_of(content).len() == 141 && preview_of(
            content,
        ).take(140) == text::trimmed(content).take(140) && preview_of(content)[140] == '…',
{
    reveal_strlit("…");
    if text::trimmed(content).len() > 140 {
        assert(preview_of(content).take(140) =~= text::trimmed(content).take(140));
    }
}

/// Who hears of a change in a channel that cannot be loaded: those named first, then
/// everyone with a read position there, each once.
pub fn fallback_recipients(first: &Vec<String>, readers: &Vec<Oid>) -> (r: Vec<String>)
    ensures
        text::texts(r@) == lists::with_all(text::texts(first@), ids::hex_all(readers@)),
{
    let mut out = lists::copy_texts(first);
    let more = ids::to_hex_all(readers);
    lists::add_texts(&mut out, &more);
    out
}

/// What is known while an edit is announced.
#[derive(Clone, Copy, Debug)]
pub struct FanoutFacts {
    /// The last message shown of the place was brought up to date.
    pub tip_stored: bool,
    /// The channel, loaded to learn who muted it.
    pub mute_channel: Option<Lookup<()>>,
    pub muted: Option<Done>,
    /// Whether the recipient muted the sender.
    pub recipient_muted: Option<Lookup<bool>>,
    /// The channel, loaded to learn whom to tell.
    pub channel: Option<Lookup<()>>,
    /// The read positions of a channel that could not be loaded were looked for.
    pub readers_sought: bool,
}

/// What an edit brings, and whom it may concern.
pub struct EditNews {
    pub message: Oid,
    pub sender: Oid,
    /// The content before it was sealed.
    pub content: String,
    pub mentions: Vec<Oid>,
    pub previous: Vec<Oid>,
    pub everyone: bool,
    pub previous_everyone: bool,
    /// The members and the owner of the channel.
    pub room: Room,
    /// What the channel is called.
    pub channel_name: String,
    /// Those who hear of the channel.
    pub recipients: Vec<String>,
    /// Those who muted the channel.
    pub muted: Vec<String>,
    /// Those with a read position in the channel.
    pub readers: Vec<Oid>,
}

/// What someone who was mentioned is told.
#[derive(Debug, PartialEq, Eq)]
pub struct MentionNotice {
    pub event: &'static str,
    /// Whether it was in a channel or in a conversation.
    pub scope: &'static str,
    /// The channel, or the other user of the conversation.
    pub source: String,
    /// What the channel is called.
    pub source_name: Option<String>,
    pub message: String,
    /// Who wrote the message; shown as the message shows its sender, or by this id alone.
    pub from: String,
    pub preview: String,
}

/// The view of `MentionNotice`.
#[verifier::ext_equal]
pub struct MentionNoticeView {
    pub event: &'static str,
    pub scope: &'static str,
    pub source: Seq<char>,
    pub source_name: Option<Seq<char>>,
    pub message: Seq<char>,
    pub from: Seq<char>,
    pub preview: Seq<char>,
}

impl View for MentionNotice {
    type V = MentionNoticeView;

    open spec fn view(&self) -> MentionNoticeView {
        MentionNoticeView {
            event: self.event,
            scope: self.scope,
            source: self.source@,
            source_name: text::opt(self.source_name),
            message: self.message@,
            from: self.from@,
            preview: self.preview@,
        }
    }
}

/// What those are told whom a message mentions: where they find it, who wrote it and how it begins.
/// A channel is named by its id and name, a conversation by the user who wrote.
pub open spec fn notice_of(place: Place, news: EditNews) -> Option<MentionNoticeView> {
    let sender = ids::hex_of(news.sender);
    match place {
        Place::Channel(c) => Some(
            MentionNoticeView {
                event: "message-mention",
                scope: "channel",
                source: ids::hex_of(c),
                source_name: Some(news.channel_name@),
                message: ids::hex_of(news.message),
                from: sender,
                preview: preview_of(news.content@),
            },
        ),
        Place::Dm(_) => Some(
            MentionNoticeView {
                event: "message-mention",
                scope: "dm",
                source: sender,
                source_name: None,
                message: ids::hex_of(news.message),
                from: sender,
                preview: preview_of(news.content@),
            },
        ),
        Place::Nowhere => None,
    }
}

/// The view of a notice that may be missing.
pub open spec fn opt_notice(n: Option<MentionNotice>) -> Option<MentionNoticeView> {
    match n {
        None => None,
        Some(n) => Some(n@),
    }
}

/// Writes what those are told whom a message mentions.
pub fn mention_notice(place: Place, news: &EditNews) -> (r: Option<MentionNotice>)
    ensures
        opt_notice(r) == notice_of(place, *news),
{
    let (scope, source, source_name) = match place {
        Place::Channel(c) => ("channel", c.hex(), Some(news.channel_name.as_str().to_owned())),
        Place::Dm(_) => ("dm", news.sender.hex(), None),
        Place::Nowhere => return None,
    };
    Some(
        MentionNotice {
            event: "message-mention",
            scope,
            source,
            source_name,
            message: news.message.hex(),
            from: news.sender.hex(),
            preview: mention_preview(news.content.as_str()),
        },
    )
}

/// Whoever is mentioned is told where: in a channel by its id and name, in a conversation by the sender;
/// and by whom, in which message and how it begins.
pub proof fn law_notice_tells_where_and_by_whom(
    place: Place,
    news: EditNews,
)
    ensures
        ({
            let n = notice_of(place, news);
            &&& n is None <==> place is Nowhere
            &&& n is Some ==> n->0.event == "message-mention" && n->0.message == ids::hex_of(
                news.message,
            ) && n->0.from == ids::hex_of(news.sender) && n->0.preview == preview_of(news.content@)
            &&& place matches Place::Channel(c) ==> n->0.scope == "channel" && n->0.source
                == ids::hex_of(c) && n->0.source_name == Some(news.channel_name@)
            &&& place is Dm ==> n->0.scope == "dm" && n->0.source == ids::hex_of(news.sender)
                && n->0.source_name is None
        }),
{
}

/// What to do next while an edit is announced.
#[derive(Debug, PartialEq, Eq)]
pub enum FanoutStep {
    /// Bring the last message shown of the place up to date.
    StoreTip(Place),
    LoadChannelForMutes(Oid),
    /// Find those of the users who muted the channel.
    FindMuted { channel: Oid, users: Vec<Oid> },
    LoadRecipient(Oid),
    LoadChannel(Oid),
    FindReaders(Oid),
    /// Tell of the edit, tell the mentioned of their mention, and reply.
    Tell {
        to: Vec<String>,
        event: &'static str,
        mentioned: Vec<String>,
        notice: Option<MentionNotice>,
    },
}

/// The view of `FanoutStep`.
#[verifier::ext_equal]
pub enum FanoutStepView {
    StoreTip(Place),
    LoadChannelForMutes(Oid),
    FindMuted { channel: Oid, users: Seq<Oid> },
    LoadRecipient(Oid),
    LoadChannel(Oid),
    FindReaders(Oid),
    Tell {
        to: Seq<Seq<char>>,
        event: &'static str,
        mentioned: Seq<Seq<char>>,
        notice: Option<MentionNoticeView>,
    },
}

impl View for FanoutStep {
    type V = FanoutStepView;

    open spec fn view(&self) -> FanoutStepView {
        match self {
            FanoutStep::StoreTip(a) => FanoutStepView::StoreTip(*a),
            FanoutStep::LoadChannelForMutes(a) => FanoutStepView::LoadChannelForMutes(*a),
            FanoutStep::FindMuted { channel, users } => FanoutStepView::FindMuted {
                channel: *channel,
                users: users@,
            },
            FanoutStep::LoadRecipient(a) => FanoutStepView::LoadRecipient(*a),
            FanoutStep::LoadChannel(a) => FanoutStepView::LoadChannel(*a),
            FanoutStep::FindReaders(a) => FanoutStepView::FindReaders(*a),
            FanoutStep::Tell { to, event, mentioned, notice } => FanoutStepView::Tell {
                to: text::texts(to@),
                event: *event,
                mentioned: text::texts(mentioned@),
                notice: opt_notice(*notice),
            },
        }
    }
}

/// Those of `recipients` who hear of a mention that the edit brought.
pub open spec fn mentioned_in(
    recipients: Seq<Seq<char>>,
    muted: Option<Seq<Seq<char>>>,
    news: EditNews,
) -> Seq<Seq<char>> {
    new_mentions(
        recipients,
        ids::hex_of(news.sender),
        muted,
        news.mentions@,
        news.previous@,
        news.everyone,
        news.previous_everyone,
    )
}

/// The end of an announcement.
pub open spec fn told(
    to: Seq<Seq<char>>,
    mentioned: Seq<Seq<char>>,
    notice: Option<MentionNoticeView>,
) -> FanoutStepView {
    FanoutStepView::Tell { to, event: "message-edited", mentioned, notice }
}

fn tell(to: Vec<String>, mentioned: Vec<String>, notice: Option<MentionNotice>) -> (r: FanoutStep)
    ensures
        r@ == told(text::texts(to@), text::texts(mentioned@), opt_notice(notice)),
{
    FanoutStep::Tell { to, event: "message-edited", mentioned, notice }
}

/// The steps of announcing an edit. In a channel its recipients hear of it, and those newly
/// mentioned of their mention, where it is known who muted the channel; where the channel cannot
/// be loaded, the sender and everyone with a read position do. In a conversation the two hear of
/// it, and the recipient of a new mention.
pub open spec fn fanout_step(place: Place, news: EditNews, f: FanoutFacts) -> FanoutStepView {
    let sender = ids::hex_of(news.sender);
    let nobody = Seq::<Seq<char>>::empty();
    if !f.tip_stored {
        FanoutStepView::StoreTip(place)
    } else {
        match place {
            Place::Channel(c) => if f.mute_channel is None {
                FanoutStepView::LoadChannelForMutes(c)
            } else if f.mute_channel->0 is Found && f.muted is None {
                FanoutStepView::FindMuted {
                    channel: c,
                    users: lists::with(news.room.members@, news.room.admin),
                }
            } else if f.channel is None {
                FanoutStepView::LoadChannel(c)
            } else if f.channel->0 is Found {
                let to = text::texts(news.recipients@);
                let muted = if f.mute_channel->0 is Found && f.muted->0 is Worked {
                    Some(text::texts(news.muted@))
                } else {
                    None
                };
                told(to, mentioned_in(to, muted, news), notice_of(place, news))
            } else if !f.readers_sought {
                FanoutStepView::FindReaders(c)
            } else {
                told(lists::with_all(seq![sender], ids::hex_all(news.readers@)), nobody, None)
            },
            Place::Dm(r) => match f.recipient_muted {
                None => FanoutStepView::LoadRecipient(r),
                Some(known) => {
                    let muted = if known == Lookup::Found(false) {
                        Some(nobody)
                    } else {
                        None
                    };
                    told(
                        seq![ids::hex_of(r), sender],
                        mentioned_in(seq![ids::hex_of(r)], muted, news),
                        notice_of(place, news),
                    )
                },
            },
            Place::Nowhere => told(nobody, nobody, None),
        }
    }
}

/// Decides the next step of announcing an edit.
pub fn edit_fanout(place: Place, news: &EditNews, f: &FanoutFacts) -> (r: FanoutStep)
    ensures
        r@ == fanout_step(place, *news, *f),
{
    if !f.tip_stored {
        return FanoutStep::StoreTip(place);
    }
    let none: Vec<String> = Vec::new();
    assert(text::texts(none@) =~= Seq::<Seq<char>>::empty());
    let sender = news.sender.hex();
    match place {
        Place::Channel(c) => {
            let muted = match f.mute_channel {
                None => return FanoutStep::LoadChannelForMutes(c),
                Some(Lookup::Found(_)) => match f.muted {
                    None => {
                        return FanoutStep::FindMuted {
                            channel: c,
                            users: mute_scope(&news.room.members, news.room.admin),
                        };
                    },
                    Some(Done::Worked) => Some(&news.muted),
                    Some(Done::Failed) => None,
                },
                _ => None,
            };
            match f.channel {
                None => FanoutStep::LoadChannel(c),
                Some(Lookup::Found(_)) => {
                    let mentioned = newly_mentioned(
                        &news.recipients,
                        sender.as_str(),
                        muted,
                        &news.mentions,
                        &news.previous,
                        news.everyone,
                        news.previous_everyone,
                    );
                    tell(
                        lists::copy_texts(&news.recipients),
                        mentioned,
                        mention_notice(place, news),
                    )
                },
                _ => {
                    if !f.readers_sought {
                        return FanoutStep::FindReaders(c);
                    }
                    let mut first: Vec<String> = Vec::new();
                    first.push(sender);
                    assert(text::texts(first@) =~= seq![ids::hex_of(news.sender)]);
                    tell(fallback_recipients(&first, &news.readers), none, None)
                },
            }
        },
        Place::Dm(r) => {
            let muted = match f.recipient_muted {
                None => return FanoutStep::LoadRecipient(r),
                Some(Lookup::Found(false)) => Some(&none),
                _ => None,
            };
            let mut one: Vec<String> = Vec::new();
            one.push(r.hex());
            assert(text::texts(one@) =~= seq![ids::hex_of(r)]);
            let mentioned = newly_mentioned(
                &one,
                sender.as_str(),
                muted,
                &news.mentions,
                &news.previous,
                news.everyone,
                news.previous_everyone,
            );
            let mut to: Vec<String> = Vec::new();
            to.push(r.hex());
            to.push(sender);
            assert(text::texts(to@) =~= seq![ids::hex_of(r), ids::hex_of(news.sender)]);
            tell(to, mentioned, mention_notice(place, news))
        },
        Place::Nowhere => {
            let nobody: Vec<String> = Vec::new();
            assert(text::texts(nobody@) =~= Seq::<Seq<char>>::empty());
            tell(none, nobody, None)
        },
    }
}

/// Nobody hears of a mention where it is not known who muted the place, and the sender never
/// does. Whoever hears of one is told where it was.
pub proof fn law_mentions_are_told_with_care(place: Place, news: EditNews, f: FanoutFacts)
    ensures
        fanout_step(place, news, f) matches FanoutStepView::Tell { mentioned, notice, .. } ==> {
            &&& mentioned.len() > 0 ==> notice is Some && notice == notice_of(place, news)
            &&& !mentioned.contains(ids::hex_of(news.sender))
            &&& place is Channel && f.muted != Some(Done::Worked) ==> mentioned.len() == 0
            &&& place is Dm && f.recipient_muted != Some(Lookup::Found(false)) ==> mentioned.len()
                == 0
        },
{
    match place {
        Place::Channel(_) => {
            law_sender_and_muted_hear_of_no_mention(
                text::texts(news.recipients@),
                ids::hex_of(news.sender),
                Some(text::texts(news.muted@)),
                news.mentions@,
                news.previous@,
                news.everyone,
                news.previous_everyone,
            );
        },
        Place::Dm(r) => {
            law_sender_and_muted_hear_of_no_mention(
                seq![ids::hex_of(r)],
                ids::hex_of(news.sender),
                Some(Seq::<Seq<char>>::empty()),
                news.mentions@,
                news.previous@,
                news.everyone,
                news.previous_everyone,
            );
        },
        Place::Nowhere => {},
    }
}

/// Of an edit everyone concerned hears: in a channel that was found its people, in one that was not the
/// sender and everyone with a read position, in a conversation the two. Announcing asks only for what is
/// not known yet, and ends.
pub proof fn law_everyone_concerned_hears_of_an_edit(
    place: Place,
    news: EditNews,
    f: FanoutFacts,
)
    ensures
        ({
            let s = fanout_step(place, news, f);
            &&& !f.tip_stored <==> s is StoreTip
            &&& s matches FanoutStepView::StoreTip(p) ==> p == place
            &&& s matches FanoutStepView::LoadChannelForMutes(c) ==> f.mute_channel is None && place
                == Place::Channel(c)
            &&& s matches FanoutStepView::FindMuted { channel, users } ==> f.muted is None && place
                == Place::Channel(channel) && users == lists::with(
                news.room.members@,
                news.room.admin,
            )
            &&& s matches FanoutStepView::LoadChannel(c) ==> f.channel is None && place
                == Place::Channel(c)
            &&& s matches FanoutStepView::FindReaders(c) ==> !f.readers_sought && place
                == Place::Channel(c) && f.channel is Some && f.channel->0 !is Found
            &&& s matches FanoutStepView::LoadRecipient(r) ==> f.recipient_muted is None && place
                == Place::Dm(r)
            &&& s matches FanoutStepView::Tell { to, event, .. } ==> event == "message-edited" && (
            place is Channel && f.channel is Some && f.channel->0 is Found ==> to == text::texts(
                news.recipients@,
            )) && (place is Channel && f.channel is Some && f.channel->0 !is Found ==> to
                == lists::with_all(seq![ids::hex_of(news.sender)], ids::hex_all(news.readers@))) && (
            place matches Place::Dm(r) ==> to == seq![ids::hex_of(r), ids::hex_of(news.sender)])
            &&& f.tip_stored && place is Channel && f.mute_channel is Some && f.muted is Some
                && f.channel is Some && f.readers_sought ==> s is Tell
            &&& f.tip_stored && place is Dm && f.recipient_muted is Some ==> s is Tell
            &&& f.tip_stored && place is Nowhere ==> s is Tell
        }),
{
}

/// How a deletion ended.
#[derive(Clone, Copy, Debug, PartialEq, Eq)]
pub enum Deletion {
    Deleted { was_unread: bool },
    /// The message had been deleted before.
    Already,
    Failed,
}

/// What is known while a message is deleted.
#[derive(Clone, Copy, Debug)]
pub struct DeleteFacts {
    pub message: Option<Lookup<Target>>,
    pub access: Option<Access>,
    pub deletion: Option<Deletion>,
    /// The attachment was dropped, and the last message shown brought up to date.
    pub cleaned: bool,
    pub channel: Option<Lookup<()>>,
    /// The second attempt to load the channel, made after a failed first one.
    pub channel_again: Option<Lookup<()>>,
    /// Whether the read positions in the channel could be loaded.
    pub marks: Option<Done>,
    /// Read positions of a channel that could not be loaded: not found, or found and read.
    pub readers: Option<Readers>,
}

/// What a deletion concerns.
pub struct DeletionScope {
    pub file_url: Option<String>,
    /// When the message was sent, in milliseconds.
    pub sent: i64,
    /// The members and the owner of the channel.
    pub room: Room,
    /// The read positions in the channel.
    pub marks: Vec<ReadMark>,
    /// Those with a read position in a channel that could not be loaded.
    pub readers: Vec<Oid>,
}

/// The last message shown of a place.
#[derive(Clone, Copy, Debug, PartialEq, Eq)]
pub enum Tip {
    Channel(Oid),
    Dm { sender: Oid, recipient: Oid },
    Nothing,
}

/// The last message shown of the place of a message.
pub open spec fn tip_of(target: Target) -> Tip {
    match target.place {
        Place::Channel(c) => Tip::Channel(c),
        Place::Dm(recipient) => Tip::Dm { sender: target.sender, recipient },
        Place::Nowhere => Tip::Nothing,
    }
}

/// Outcome of looking for read positions.
#[derive(Clone, Copy, Debug, PartialEq, Eq)]
pub enum Readers {
    /// The search could not be started.
    NotSearched,
    /// The search broke off.
    BrokeOff,
    Listed,
}

/// What to do next while a message is deleted.
#[derive(Debug, PartialEq, Eq)]
pub enum DeleteStep {
    LoadMessage(Oid),
    CheckParticipant,
    SoftDelete(Oid),
    /// Drop the attachment if nothing refers to it, and bring the last message shown up to date.
    CleanUp { id: Oid, file_url: Option<String>, tip: Tip },
    LoadChannel(Oid),
    ReloadChannel(Oid),
    /// Tell the recipients of the channel, and load the read positions of the users.
    TellAndLoadMarks { channel: Oid, message: String, event: &'static str, users: Vec<Oid> },
    /// Recount the unread messages of the users in the channel; reply with success.
    RecountAndReply { channel: Oid, users: Vec<Oid> },
    /// Tell the sender of the deletion, and that it may not have reached everyone; find read
    /// positions.
    WarnAndFindReaders {
        channel: Oid,
        sender: Oid,
        message: String,
        event: &'static str,
        code: &'static str,
    },
    /// Tell the users, and recount where `recount` holds; reply with success.
    TellReaders {
        channel: Oid,
        users: Vec<Oid>,
        message: String,
        event: &'static str,
        recount: bool,
    },
    /// Warn the sender once more; reply that the deletion was announced incompletely.
    ReplyDegraded { sender: Oid, message: String, code: &'static str },
    /// Tell the two, and recount what the recipient has not read of the sender where `recount`
    /// holds; reply with success.
    TellPair { sender: Oid, recipient: Oid, message: String, event: &'static str, recount: bool },
    ReplyDone,
    Refuse(Refusal),
}

/// The view of `DeleteStep`.
#[verifier::ext_equal]
pub enum DeleteStepView {
    LoadMessage(Oid),
    CheckParticipant,
    SoftDelete(Oid),
    CleanUp { id: Oid, file_url: Option<Seq<char>>, tip: Tip },
    LoadChannel(Oid),
    ReloadChannel(Oid),
    TellAndLoadMarks { channel: Oid, message: Seq<char>, event: &'static str, users: Seq<Oid> },
    RecountAndReply { channel: Oid, users: Seq<Oid> },
    WarnAndFindReaders {
        channel: Oid,
        sender: Oid,
        message: Seq<char>,
        event: &'static str,
        code: &'static str,
    },
    TellReaders {
        channel: Oid,
        users: Seq<Oid>,
        message: Seq<char>,
        event: &'static str,
        recount: bool,
    },
    ReplyDegraded { sender: Oid, message: Seq<char>, code: &'static str },
    TellPair {
        sender: Oid,
        recipient: Oid,
        message: Seq<char>,
        event: &'static str,
        recount: bool,
    },
    ReplyDone,
    Refuse(Refusal),
}

impl View for DeleteStep {
    type V = DeleteStepView;

    open spec fn view(&self) -> DeleteStepView {
        match self {
            DeleteStep::LoadMessage(a) => DeleteStepView::LoadMessage(*a),
            DeleteStep::CheckParticipant => DeleteStepView::CheckParticipant,
            DeleteStep::SoftDelete(a) => DeleteStepView::SoftDelete(*a),
            DeleteStep::CleanUp { id, file_url, tip } => DeleteStepView::CleanUp {
                id: *id,
                file_url: text::opt(*file_url),
                tip: *tip,
            },
            DeleteStep::LoadChannel(a) => DeleteStepView::LoadChannel(*a),
            DeleteStep::ReloadChannel(a) => DeleteStepView::ReloadChannel(*a),
            DeleteStep::TellAndLoadMarks { channel, message, event, users } => DeleteStepView::TellAndLoadMarks {
                channel: *channel,
                message: message@,
                event: *event,
                users: users@,
            },
            DeleteStep::RecountAndReply { channel, users } => DeleteStepView::RecountAndReply {
                channel: *channel,
                users: users@,
            },
            DeleteStep::WarnAndFindReaders { channel, sender, message, event, code } => DeleteStepView::WarnAndFindReaders {
                channel: *channel,
                sender: *sender,
                message: message@,
                event: *event,
                code: *code,
            },
            DeleteStep::TellReaders { channel, users, message, event, recount } => DeleteStepView::TellReaders {
                channel: *channel,
                users: users@,
                message: message@,
                event: *event,
                recount: *recount,
            },
            DeleteStep::ReplyDegraded { sender, message, code } => DeleteStepView::ReplyDegraded {
                sender: *sender,
                message: message@,
                code: *code,
            },
            DeleteStep::TellPair { sender, recipient, message, event, recount } => DeleteStepView::TellPair {
                sender: *sender,
                recipient: *recipient,
                message: message@,
                event: *event,
                recount: *recount,
            },
            DeleteStep::ReplyDone => DeleteStepView::ReplyDone,
            DeleteStep::Refuse(a) => DeleteStepView::Refuse(*a),
        }
    }
}

/// The event by which users hear of a deletion.
#[verifier::allow_in_spec]
pub fn deletion_event() -> &'static str
    returns
        "message-deleted",
{
    "message-deleted"
}

/// The code of the warning that a deletion may not have reached everyone.
#[verifier::allow_in_spec]
pub fn degraded_code() -> &'static str
    returns
        "DELETE_FANOUT_DEGRADED",
{
    "DELETE_FANOUT_DEGRADED"
}

/// Those whose unread messages a deletion in a channel may change: all but the sender where the
/// read positions are not known.
pub open spec fn recounted(target: Target, scope: DeletionScope, known: bool) -> Seq<Oid> {
    affected(
        lists::without(lists::distinct(scope.room.members@.push(scope.room.admin)), target.sender),
        if known {
            Some(scope.marks@)
        } else {
            None
        },
        scope.sent,
    )
}

pub open spec fn delete_step(
    user: Option<&str>,
    message_id: &str,
    scope: DeletionScope,
    f: DeleteFacts,
) -> DeleteStepView {
    let mid = ids::oid_of(message_id@)->0;
    let target = f.message->0->0;
    let channel = target.place->Channel_0;
    let was_unread = f.deletion->0->was_unread;
    if user is None {
        DeleteStepView::Refuse(error(401, "User not authenticated"))
    } else if ids::oid_of(message_id@) is None {
        DeleteStepView::Refuse(error(404, "Message not found"))
    } else if f.message is None {
        DeleteStepView::LoadMessage(mid)
    } else if f.message->0 is Missing {
        DeleteStepView::Refuse(error(404, "Message not found"))
    } else if f.message->0 is Failed {
        DeleteStepView::Refuse(internal_again())
    } else if ids::hex_of(target.sender) != user->0@ {
        DeleteStepView::Refuse(error(403, "Not authorized to delete this message"))
    } else if f.access is None {
        DeleteStepView::CheckParticipant
    } else if f.access->0 !is Granted {
        DeleteStepView::Refuse(access_refusal(f.access->0))
    } else if f.deletion is None {
        DeleteStepView::SoftDelete(mid)
    } else if f.deletion->0 is Failed {
        DeleteStepView::Refuse(again(error(500, "Failed to delete message")))
    } else if f.deletion->0 is Already {
        DeleteStepView::ReplyDone
    } else if !f.cleaned {
        DeleteStepView::CleanUp {
            id: mid,
            file_url: text::opt(scope.file_url),
            tip: tip_of(target),
        }
    } else if target.place is Nowhere {
        DeleteStepView::ReplyDone
    } else if target.place is Dm {
        DeleteStepView::TellPair {
            sender: target.sender,
            recipient: target.place->Dm_0,
            message: message_id@,
            event: deletion_event(),
            recount: was_unread,
        }
    } else if f.channel is None {
        DeleteStepView::LoadChannel(channel)
    } else if f.channel->0 is Failed && f.channel_again is None {
        DeleteStepView::ReloadChannel(channel)
    } else if f.channel->0 is Found || (f.channel->0 is Failed && f.channel_again->0 is Found) {
        match f.marks {
            None => DeleteStepView::TellAndLoadMarks {
                channel,
                message: message_id@,
                event: deletion_event(),
                users: scope.room.members@.push(scope.room.admin),
            },
            Some(known) => DeleteStepView::RecountAndReply {
                channel,
                users: recounted(target, scope, known is Worked),
            },
        }
    } else {
        match f.readers {
            None => DeleteStepView::WarnAndFindReaders {
                channel,
                sender: target.sender,
                message: message_id@,
                event: deletion_event(),
                code: degraded_code(),
            },
            Some(Readers::NotSearched) => DeleteStepView::ReplyDone,
            Some(Readers::BrokeOff) => DeleteStepView::ReplyDegraded {
                sender: target.sender,
                message: message_id@,
                code: degraded_code(),
            },
            Some(Readers::Listed) => DeleteStepView::TellReaders {
                channel,
                users: lists::without(lists::distinct(scope.readers@), target.sender),
                message: message_id@,
                event: deletion_event(),
                recount: was_unread,
            },
        }
    }
}

/// Decides the next step of deleting a message.
pub fn delete_message(
    user: Option<&str>,
    message_id: &str,
    scope: &DeletionScope,
    f: &DeleteFacts,
) -> (r: DeleteStep)
    ensures
        r@ == delete_step(user, message_id, *scope, *f),
{
    let user = match user {
        None => return DeleteStep::Refuse(error(401, "User not authenticated")),
        Some(u) => u,
    };
    let mid = match parse_oid(message_id) {
        None => return DeleteStep::Refuse(error(404, "Message not found")),
        Some(id) => id,
    };
    let target = match f.message {
        None => return DeleteStep::LoadMessage(mid),
        Some(Lookup::Missing) => return DeleteStep::Refuse(error(404, "Message not found")),
        Some(Lookup::Failed) => return DeleteStep::Refuse(internal_again()),
        Some(Lookup::Found(t)) => t,
    };
    if !is_hex_of(target.sender, user) {
        return DeleteStep::Refuse(error(403, "Not authorized to delete this message"));
    }
    match f.access {
        None => return DeleteStep::CheckParticipant,
        Some(Access::Granted) => {},
        Some(a) => return DeleteStep::Refuse(access_refusal(a)),
    }
    let was_unread = match f.deletion {
        None => return DeleteStep::SoftDelete(mid),
        Some(Deletion::Failed) => {
            return DeleteStep::Refuse(again(error(500, "Failed to delete message")));
        },
        Some(Deletion::Already) => return DeleteStep::ReplyDone,
        Some(Deletion::Deleted { was_unread }) => was_unread,
    };
    if !f.cleaned {
        return DeleteStep::CleanUp {
            id: mid,
            file_url: match &scope.file_url {
                None => None,
                Some(url) => Some(url.clone()),
            },
            tip: match target.place {
                Place::Channel(c) => Tip::Channel(c),
                Place::Dm(recipient) => Tip::Dm { sender: target.sender, recipient },
                Place::Nowhere => Tip::Nothing,
            },
        };
    }
    let channel = match target.place {
        Place::Nowhere => return DeleteStep::ReplyDone,
        Place::Dm(recipient) => {
            return DeleteStep::TellPair {
                sender: target.sender,
                recipient,
                message: message_id.to_owned(),
                event: deletion_event(),
                recount: was_unread,
            };
        },
        Place::Channel(c) => c,
    };
    let found = match f.channel {
        None => return DeleteStep::LoadChannel(channel),
        Some(Lookup::Found(_)) => true,
        Some(Lookup::Missing) => false,
        Some(Lookup::Failed) => match f.channel_again {
            None => return DeleteStep::ReloadChannel(channel),
            Some(Lookup::Found(_)) => true,
            _ => false,
        },
    };
    if found {
        let marks = match f.marks {
            None => {
                let mut users = lists::copy_oids(&scope.room.members);
                users.push(scope.room.admin);
                return DeleteStep::TellAndLoadMarks {
                    channel,
                    message: message_id.to_owned(),
                    event: deletion_event(),
                    users,
                };
            },
            Some(Done::Worked) => Some(&scope.marks),
            Some(Done::Failed) => None,
        };
        let users = unread_affected(
            &scope.room.members,
            scope.room.admin,
            target.sender,
            marks,
            scope.sent,
        );
        return DeleteStep::RecountAndReply { channel, users };
    }
    match f.readers {
        None => DeleteStep::WarnAndFindReaders {
            channel,
            sender: target.sender,
            message: message_id.to_owned(),
            event: deletion_event(),
            code: degraded_code(),
        },
        Some(Readers::NotSearched) => DeleteStep::ReplyDone,
        Some(Readers::BrokeOff) => DeleteStep::ReplyDegraded {
            sender: target.sender,
            message: message_id.to_owned(),
            code: degraded_code(),
        },
        Some(Readers::Listed) => DeleteStep::TellReaders {
            channel,
            users: readers_to_tell(&scope.readers, target.sender),
            message: message_id.to_owned(),
            event: deletion_event(),
            recount: was_unread,
        },
    }
}

/// A message is deleted only for its sender, who takes part where it stands.
pub proof fn law_message_is_deleted_for_its_sender_only(
    user: Option<&str>,
    message_id: &str,
    scope: DeletionScope,
    f: DeleteFacts,
)
    requires
        delete_step(user, message_id, scope, f) is SoftDelete,
    ensures
        user is Some,
        ids::hex_of(f.message->0->0.sender) == user->0@,
        f.access == Some(Access::Granted),
        delete_step(user, message_id, scope, f) == DeleteStepView::SoftDelete(ids::oid_of(message_id@)->0),
{
}

/// Once a message is deleted the request is not refused any more.
pub proof fn law_deletion_is_not_refused_afterwards(
    user: Option<&str>,
    message_id: &str,
    scope: DeletionScope,
    f: DeleteFacts,
)
    requires
        f.deletion is Some,
        f.deletion->0 !is Failed,
        f.access == Some(Access::Granted),
        f.message is Some,
        f.message->0 is Found,
        user is Some,
        ids::hex_of(f.message->0->0.sender) == user->0@,
        ids::oid_of(message_id@) is Some,
    ensures
        delete_step(user, message_id, scope, f) !is Refuse,
{
}

/// The sender of a message who takes part where it stands has it deleted, wherever it stands; and
/// the request ends in success only where the message is deleted, now or before.
pub proof fn law_success_means_the_message_is_deleted(
    user: Option<&str>,
    message_id: &str,
    scope: DeletionScope,
    f: DeleteFacts,
)
    ensures
        user is Some && ids::oid_of(message_id@) is Some && f.message is Some && f.message->0 is Found
            && ids::hex_of(f.message->0->0.sender) == user->0@ && f.access == Some(Access::Granted)
            && f.deletion is None ==> delete_step(user, message_id, scope, f) == DeleteStepView::SoftDelete(
            ids::oid_of(message_id@)->0,
        ),
        ({
            let s = delete_step(user, message_id, scope, f);
            let deleted = f.deletion is Some && f.deletion->0 is Deleted;
            &&& s is ReplyDone || s is TellPair || s is RecountAndReply || s is TellReaders || s is
                ReplyDegraded ==> f.deletion is Some && f.deletion->0 !is Failed
            &&& s is CleanUp || s is TellPair || s is TellAndLoadMarks || s is RecountAndReply || s
                is WarnAndFindReaders || s is TellReaders || s is ReplyDegraded ==> deleted
            &&& s is TellPair || s is TellAndLoadMarks || s is RecountAndReply || s is
                WarnAndFindReaders || s is TellReaders || s is ReplyDegraded ==> f.cleaned
            &&& s is ReplyDone && deleted ==> f.cleaned && (f.message->0->0.place is Nowhere || (
            f.message->0->0.place is Channel && f.readers == Some(Readers::NotSearched)))
        }),
{
}

/// Deleting asks only for what is not known yet. After a deletion the other of a conversation is
/// told, and so are the people of a channel that was found; of a channel that was not, those with
/// a read position are told, and the sender is warned.
pub proof fn law_deletion_reaches_its_people(
    user: Option<&str>,
    message_id: &str,
    scope: DeletionScope,
    f: DeleteFacts,
)
    ensures
        ({
            let s = delete_step(user, message_id, scope, f);
            let target = f.message->0->0;
            let found = (f.channel is Some && f.channel->0 is Found) || (f.channel == Some(
                Lookup::<()>::Failed,
            ) && (f.channel_again is Some && f.channel_again->0 is Found));
            &&& s is LoadMessage ==> f.message is None
            &&& s is CheckParticipant ==> f.access is None
            &&& s is SoftDelete ==> f.deletion is None
            &&& s is CleanUp ==> !f.cleaned
            &&& s matches DeleteStepView::LoadChannel(c) ==> f.channel is None && target.place
                == Place::Channel(c)
            &&& s matches DeleteStepView::ReloadChannel(c) ==> f.channel == Some(
                Lookup::<()>::Failed,
            ) && f.channel_again is None && target.place == Place::Channel(c)
            &&& s is TellAndLoadMarks ==> f.marks is None && found
            &&& s is RecountAndReply ==> f.marks is Some && found
            &&& s is WarnAndFindReaders ==> f.readers is None && !found
            &&& s is TellReaders ==> f.readers == Some(Readers::Listed) && !found
            &&& s is ReplyDegraded ==> f.readers == Some(Readers::BrokeOff) && !found
            &&& s matches DeleteStepView::LoadMessage(id) ==> ids::oid_of(message_id@) == Some(id)
            &&& s matches DeleteStepView::CleanUp { id, file_url, tip } ==> ids::oid_of(message_id@)
                == Some(id) && file_url == text::opt(scope.file_url) && (target.place matches
                Place::Channel(c) ==> tip == Tip::Channel(c)) && (target.place matches Place::Dm(o)
                ==> tip == (Tip::Dm { sender: target.sender, recipient: o }))
            &&& s matches DeleteStepView::TellPair { sender, recipient, message, event, recount }
                ==> sender == target.sender && target.place == Place::Dm(recipient) && message
                == message_id@ && event == "message-deleted" && f.deletion == Some(
                Deletion::Deleted { was_unread: recount },
            )
            &&& s matches DeleteStepView::TellAndLoadMarks { channel, message, event, users }
                ==> target.place == Place::Channel(channel) && message == message_id@ && event
                == "message-deleted" && users == scope.room.members@.push(scope.room.admin)
            &&& s matches DeleteStepView::RecountAndReply { channel, .. } ==> target.place
                == Place::Channel(channel)
            &&& s matches DeleteStepView::WarnAndFindReaders { channel, sender, message, event, code }
                ==> target.place == Place::Channel(channel) && sender == target.sender && message
                == message_id@ && event == "message-deleted" && code == "DELETE_FANOUT_DEGRADED"
            &&& s matches DeleteStepView::TellReaders { channel, message, event, recount, .. }
                ==> target.place == Place::Channel(channel) && message == message_id@ && event
                == "message-deleted" && f.deletion == Some(
                Deletion::Deleted { was_unread: recount },
            )
            &&& s matches DeleteStepView::ReplyDegraded { sender, message, code } ==> sender
                == target.sender && message == message_id@ && code == "DELETE_FANOUT_DEGRADED"
        }),
{
}

/// After a deletion in a channel that was found, exactly those members and the owner have their
/// unread messages recounted who are not the sender and of whom it is not known that they had read
/// the message. Where the channel was not found, all others with a read position are told.
pub proof fn law_recount_concerns_those_who_had_not_read(
    user: Option<&str>,
    message_id: &str,
    scope: DeletionScope,
    f: DeleteFacts,
    who: Oid,
)
    ensures
        delete_step(user, message_id, scope, f) matches DeleteStepView::RecountAndReply { users, .. } ==> (users.contains(who) <==> (
        scope.room.members@.contains(who) || who == scope.room.admin) && who
            != f.message->0->0.sender && (f.marks != Some(Done::Worked) || may_be_unread(
            Some(scope.marks@),
            who,
            scope.sent,
        ))),
        delete_step(user, message_id, scope, f) matches DeleteStepView::TellReaders { users, .. } ==> (users.contains(who)
            <==> scope.readers@.contains(who) && who != f.message->0->0.sender),
{
    let sender = f.message->0->0.sender;
    let all = scope.room.members@.push(scope.room.admin);
    let marks = if f.marks == Some(Done::Worked) {
        Some(scope.marks@)
    } else {
        None
    };
    lists::law_distinct_keeps_each_item_once(all);
    lists::law_distinct_keeps_each_item_once(scope.readers@);
    lists::law_without_removes_exactly(lists::distinct(all), sender);
    lists::law_without_removes_exactly(lists::distinct(scope.readers@), sender);
    lemma_affected_exactly(lists::without(lists::distinct(all), sender), marks, scope.sent, who);
    assert(all.contains(who) <==> scope.room.members@.contains(who) || who == scope.room.admin) by {
        if scope.room.members@.contains(who) {
            let i = choose|i: int| 0 <= i < scope.room.members@.len() && scope.room.members@[i] == who;
            assert(all[i] == who);
        }
        assert(all[all.len() - 1] == scope.room.admin);
        if all.contains(who) && who != scope.room.admin {
            let i = choose|i: int| 0 <= i < all.len() && all[i] == who;
            assert(scope.room.members@[i] == who);
        }
    }
}

proof fn lemma_affected_exactly(
    targets: Seq<Oid>,
    marks: Option<Seq<ReadMark>>,
    sent: i64,
    who: Oid,
)
    ensures
        affected(targets, marks, sent).contains(who) <==> targets.contains(who) && may_be_unread(
            marks,
            who,
            sent,
        ),
    decreases targets.len(),
{
    if targets.len() > 0 {
        let rest = targets.drop_last();
        let before = affected(rest, marks, sent);
        let all = affected(targets, marks, sent);
        lemma_affected_exactly(rest, marks, sent, who);
        if targets.contains(who) && targets.last() != who {
            let i = choose|i: int| 0 <= i < targets.len() && targets[i] == who;
            assert(rest[i] == who);
        }
        if rest.contains(who) {
            let i = choose|i: int| 0 <= i < rest.len() && rest[i] == who;
            assert(targets[i] == who);
        }
        if may_be_unread(marks, targets.last(), sent) {
            if before.contains(who) {
                let i = choose|i: int| 0 <= i < before.len() && before[i] == who;
                assert(all[i] == who);
            }
            if all.contains(who) {
                let i = choose|i: int| 0 <= i < all.len() && all[i] == who;
                if i < before.len() {
                    assert(before[i] == who);
                } else {
                    assert(targets[targets.len() - 1] == who);
                }
            }
            assert(all.last() == targets.last());
        }
    }
}

/// A member has not read a message that was sent after the last read position, or after the
/// position was made where nothing was read yet; the latest position of a member counts, and one
/// without a position has read nothing.
pub proof fn law_unread_is_what_came_after_the_mark(marks: Seq<ReadMark>, mark: ReadMark, sent: i64)
    ensures
        mark.last_read > 0 ==> (may_be_unread(Some(marks.push(mark)), mark.user, sent) <==> sent
            > mark.last_read),
        mark.last_read <= 0 && mark.created > 0 ==> (may_be_unread(
            Some(marks.push(mark)),
            mark.user,
            sent,
        ) <==> sent > mark.created),
        mark.last_read <= 0 && mark.created <= 0 ==> !may_be_unread(
            Some(marks.push(mark)),
            mark.user,
            sent,
        ),
        forall|who: Oid|
            who != mark.user ==> (#[trigger] may_be_unread(Some(marks.push(mark)), who, sent)
                <==> may_be_unread(Some(marks), who, sent)),
        forall|who: Oid| #[trigger] may_be_unread(Some(Seq::<ReadMark>::empty()), who, sent),
{
    assert(marks.push(mark).drop_last() =~= marks);
}

/// A refused deletion has its reason: nobody is signed in (401), there is no such message (404),
/// the user is not its sender or takes no part (403), or something failed (500, 503).
pub proof fn law_refused_deletion_has_its_reason(
    user: Option<&str>,
    message_id: &str,
    scope: DeletionScope,
    f: DeleteFacts,
)
    ensures
        delete_step(user, message_id, scope, f) matches DeleteStepView::Refuse(r) ==> {
            &&& r.status == 401 || r.status == 404 || r.status == 403 || r.status == 500 || r.status
                == 503
            &&& r.status == 401 <==> user is None
            &&& r.status == 404 ==> ids::oid_of(message_id@) is None || f.message == Some(
                Lookup::<Target>::Missing,
            )
            &&& r.status == 403 ==> ids::hex_of(f.message->0->0.sender) != user->0@ || (f.access is
                Some && f.access->0 is Denied)
            &&& r.status == 500 ==> r.retryable && (f.message == Some(Lookup::<Target>::Failed)
                || f.deletion == Some(Deletion::Failed))
            &&& r.status == 503 ==> r.retryable && f.access is Some && f.access->0 is Unavailable
        },
        user is None || ids::oid_of(message_id@) is None ==> delete_step(user, message_id, scope, f) is Refuse,
        user is Some && ids::oid_of(message_id@) is Some && f.message is Some && f.message->0 is Found
            && ids::hex_of(f.message->0->0.sender) != user->0@ ==> delete_step(user, message_id, scope, f) is Refuse,
{
}

/// What stands in the way of a deletion decides how it is refused; once the message is deleted, each
/// channel is loaded, at most twice, and its people told, or else those with a read position, and where
/// even those are not known the reply says so.
pub proof fn law_obstacle_decides_how_a_deletion_ends(
    user: Option<&str>,
    message_id: &str,
    scope: DeletionScope,
    f: DeleteFacts,
)
    requires
        user is Some,
        ids::oid_of(message_id@) is Some,
    ensures
        ({
            let s = delete_step(user, message_id, scope, f);
            let t = f.message->0->0;
            let own = f.message is Some && f.message->0 is Found && ids::hex_of(t.sender) == user->0@;
            let let_in = own && f.access == Some(Access::Granted);
            let gone = let_in && f.deletion is Some && f.deletion->0 is Deleted;
            let cleaned = gone && f.cleaned;
            let found = f.channel is Some && (f.channel->0 is Found || (f.channel->0 is Failed
                && f.channel_again is Some && f.channel_again->0 is Found));
            let lost = f.channel is Some && (f.channel->0 is Missing || (f.channel->0 is Failed
                && f.channel_again is Some && f.channel_again->0 !is Found));
            &&& f.message is None ==> s == DeleteStepView::LoadMessage(ids::oid_of(message_id@)->0)
            &&& f.message is Some && f.message->0 is Missing ==> s is Refuse && s->Refuse_0.status
                == 404
            &&& f.message is Some && f.message->0 is Failed ==> s is Refuse && s->Refuse_0.status
                == 500
            &&& f.message is Some && f.message->0 is Found && !own ==> s is Refuse
                && s->Refuse_0.status == 403
            &&& own && f.access is None ==> s is CheckParticipant
            &&& own && f.access is Some && f.access->0 is Denied ==> s is Refuse && s->Refuse_0.status
                == 403
            &&& own && f.access is Some && f.access->0 is Unavailable ==> s is Refuse
                && s->Refuse_0.status == 503
            &&& let_in && f.deletion == Some(Deletion::Failed) ==> s is Refuse && s->Refuse_0.status
                == 500 && s->Refuse_0.retryable
            &&& let_in && f.deletion == Some(Deletion::Already) ==> s is ReplyDone
            &&& gone && !f.cleaned ==> s is CleanUp
            &&& cleaned && t.place is Nowhere ==> s is ReplyDone
            &&& cleaned && t.place is Dm ==> s is TellPair
            &&& cleaned && t.place is Channel && f.channel is None ==> s is LoadChannel
            &&& cleaned && t.place is Channel && f.channel is Some && f.channel->0 is Failed
                && f.channel_again is None ==> s is ReloadChannel
            &&& cleaned && t.place is Channel && found && f.marks is None ==> s is TellAndLoadMarks
            &&& cleaned && t.place is Channel && found && f.marks is Some ==> s is RecountAndReply
            &&& cleaned && t.place is Channel && lost && f.readers is None ==> s is WarnAndFindReaders
            &&& cleaned && t.place is Channel && lost && f.readers == Some(Readers::Listed) ==> s is
                TellReaders
            &&& cleaned && t.place is Channel && lost && f.readers == Some(Readers::BrokeOff) ==> s is
                ReplyDegraded
            &&& cleaned && t.place is Channel && lost && f.readers == Some(Readers::NotSearched) ==> s
                is ReplyDone
        }),
{
}

/// The read position of one member of a channel, in milliseconds.
#[derive(Clone, Copy, Debug, PartialEq, Eq, Structural)]
pub struct ReadMark {
    pub user: Oid,
    pub last_read: i64,
    pub created: i64,
}

/// The last read mark of `user`, if there is one.
pub open spec fn mark_of(marks: Seq<ReadMark>, user: Oid) -> Option<ReadMark>
    decreases marks.len(),
{
    if marks.len() == 0 {
        None
    } else if marks.last().user == user {
        Some(marks.last())
    } else {
        mark_of(marks.drop_last(), user)
    }
}

/// Up to when a member has read: the time of joining where nothing was read yet.
pub open spec fn read_until(m: ReadMark) -> i64 {
    if m.last_read <= 0 {
        m.created
    } else {
        m.last_read
    }
}

/// Whether a message sent at `sent` may be unread by `user`: always where the read marks are
/// unknown, or the user has none.
pub open spec fn may_be_unread(marks: Option<Seq<ReadMark>>, user: Oid, sent: i64) -> bool {
    match marks {
        None => true,
        Some(marks) => match mark_of(marks, user) {
            None => true,
            Some(m) => read_until(m) > 0 && sent > read_until(m),
        },
    }
}

/// Those of `targets` whose count of unread messages may change.
pub open spec fn affected(
    targets: Seq<Oid>,
    marks: Option<Seq<ReadMark>>,
    sent: i64,
) -> Seq<Oid>
    decreases targets.len(),
{
    if targets.len() == 0 {
        targets
    } else if may_be_unread(marks, targets.last(), sent) {
        affected(targets.drop_last(), marks, sent).push(targets.last())
    } else {
        affected(targets.drop_last(), marks, sent)
    }
}

/// The view of optional read marks.
pub open spec fn opt_marks(marks: Option<&Vec<ReadMark>>) -> Option<Seq<ReadMark>> {
    match marks {
        None => None,
        Some(v) => Some(v@),
    }
}

fn unread_by(marks: Option<&Vec<ReadMark>>, user: Oid, sent: i64) -> (r: bool)
    ensures
        r == may_be_unread(opt_marks(marks), user, sent),
{
    let list = match marks {
        None => return true,
        Some(m) => m,
    };
    let mut i: usize = list.len();
    assert(list@.take(i as int) =~= list@);
    while i > 0
        invariant
            i <= list.len(),
            marks == Some(list),
            mark_of(list@, user) == mark_of(list@.take(i as int), user),
        decreases i,
    {
        assert(list@.take(i as int).drop_last() =~= list@.take(i - 1));
        let m = list[i - 1];
        assert(list@.take(i as int).last() == m);
        if m.user == user {
            let until: i64 = if m.last_read <= 0 {
                m.created
            } else {
                m.last_read
            };
            return until > 0 && sent > until;
        }
        i -= 1;
    }
    true
}

/// The members of a channel whose count of unread messages a deletion may change: members and
/// owner, each once, without the sender.
pub fn unread_affected(
    members: &Vec<Oid>,
    admin: Oid,
    sender: Oid,
    marks: Option<&Vec<ReadMark>>,
    sent: i64,
) -> (r: Vec<Oid>)
    ensures
        r@ == affected(
            lists::without(lists::distinct(members@.push(admin)), sender),
            opt_marks(marks),
            sent,
        ),
{
    let mut all = lists::copy_oids(members);
    all.push(admin);
    let each = lists::distinct_oids(&all);
    let targets = lists::without_oid(&each, sender);
    let mut out: Vec<Oid> = Vec::new();
    let mut i: usize = 0;
    while i < targets.len()
        invariant
            i <= targets.len(),
            out@ == affected(targets@.take(i as int), opt_marks(marks), sent),
        decreases targets.len() - i,
    {
        assert(targets@.take(i + 1).drop_last() =~= targets@.take(i as int));
        if unread_by(marks, targets[i], sent) {
            out.push(targets[i]);
        }
        i += 1;
    }
    assert(targets@.take(i as int) =~= targets@);
    out
}

/// Everyone told of a deletion in a channel that could not be loaded, besides the sender: the
/// users of the read positions, each once.
pub fn readers_to_tell(readers: &Vec<Oid>, sender: Oid) -> (r: Vec<Oid>)
    ensures
        r@ == lists::without(lists::distinct(readers@), sender),
{
    let each = lists::distinct_oids(readers);
    lists::without_oid(&each, sender)
}

/// Nobody is recounted twice, and the sender never.
pub proof fn law_sender_is_not_recounted(
    members: Seq<Oid>,
    admin: Oid,
    sender: Oid,
    marks: Option<Seq<ReadMark>>,
    sent: i64,
)
    ensures
        !affected(lists::without(lists::distinct(members.push(admin)), sender), marks, sent).contains(
            sender,
        ),
        marks is None ==> affected(
            lists::without(lists::distinct(members.push(admin)), sender),
            marks,
            sent,
        ) == lists::without(lists::distinct(members.push(admin)), sender),
{
    let t = lists::without(lists::distinct(members.push(admin)), sender);
    lists::law_without_removes_exactly(lists::distinct(members.push(admin)), sender);
    lemma_affected_is_among(t, marks, sent, sender);
    lemma_all_affected(t, sent);
}

proof fn lemma_affected_is_among(
    targets: Seq<Oid>,
    marks: Option<Seq<ReadMark>>,
    sent: i64,
    user: Oid,
)
    ensures
        affected(targets, marks, sent).contains(user) ==> targets.contains(user),
    decreases targets.len(),
{
    if targets.len() > 0 {
        lemma_affected_is_among(targets.drop_last(), marks, sent, user);
        let a = affected(targets, marks, sent);
        let b = affected(targets.drop_last(), marks, sent);
        if a.contains(user) {
            let k = choose|k: int| 0 <= k < a.len() && a[k] == user;
            if k < b.len() {
                assert(b[k] == user);
                assert(b.contains(user));
                let j = choose|j: int| 0 <= j < targets.drop_last().len() && targets.drop_last()[j] == user;
                assert(targets[j] == user);
            } else {
                assert(targets[targets.len() - 1] == user);
            }
        }
    }
}

proof fn lemma_all_affected(targets: Seq<Oid>, sent: i64)
    ensures
        affected(targets, None, sent) == targets,
    decreases targets.len(),
{
    if targets.len() > 0 {
        lemma_all_affected(targets.drop_last(), sent);
        assert(targets.drop_last().push(targets.last()) =~= targets);
    }
}

/// Whether a user may pin a message.
#[derive(Clone, Copy, Debug, PartialEq, Eq)]
pub enum PinRight {
    Yes,
    No,
    Unavailable,
}

/// What is known while a message is pinned or unpinned.
#[derive(Clone, Copy, Debug)]
pub struct PinFacts {
    /// Whether the message found is a deleted one.
    pub message: Option<Lookup<bool>>,
    pub right: Option<PinRight>,
    pub wrote: Option<Done>,
    pub reread: Option<Lookup<()>>,
    pub reread_again: Option<Lookup<()>>,
}

/// What is stored of the pin of a message: the time too where it is pinned.
#[derive(Clone, Copy, Debug, PartialEq, Eq)]
pub struct PinPatch {
    pub pinned: bool,
    pub pinned_by: Option<Oid>,
}

/// How the pin of a message stands.
#[derive(Clone, Copy, Debug, PartialEq, Eq)]
pub struct PinState {
    pub pinned: bool,
    pub pinned_by: Option<Oid>,
    pub pinned_at: Option<i64>,
}

/// How the pin of a message stands after a change at `now`.
pub open spec fn after_pin(patch: PinPatch, now: i64) -> PinState {
    PinState {
        pinned: patch.pinned,
        pinned_by: patch.pinned_by,
        pinned_at: if patch.pinned {
            Some(now)
        } else {
            None
        },
    }
}

/// Finds how the pin of a message stands after a change.
pub fn apply_pin(patch: PinPatch, now: i64) -> (r: PinState)
    ensures
        r == after_pin(patch, now),
{
    PinState {
        pinned: patch.pinned,
        pinned_by: patch.pinned_by,
        pinned_at: if patch.pinned {
            Some(now)
        } else {
            None
        },
    }
}

/// What is stored where `by` pins a message, or where nobody does.
#[verifier::allow_in_spec]
pub fn pin_patch(by: Option<Oid>) -> PinPatch
    returns
        (PinPatch { pinned: by is Some, pinned_by: by }),
{
    PinPatch { pinned: by.is_some(), pinned_by: by }
}

/// Unpinning a message undoes a pin: it stands as one that was never pinned.
pub proof fn law_unpinning_undoes_pinning(by: Oid, now: i64)
    ensures
        after_pin(pin_patch(Some(by)), now) == (PinState {
            pinned: true,
            pinned_by: Some(by),
            pinned_at: Some(now),
        }),
        after_pin(pin_patch(None), now) == (PinState {
            pinned: false,
            pinned_by: None,
            pinned_at: None,
        }),
{
}

/// What to do next while a message is pinned or unpinned.
#[derive(Clone, Copy, Debug, PartialEq, Eq)]
pub enum PinStep {
    LoadMessage(Oid),
    CheckRight,
    Pin { message: Oid, patch: PinPatch },
    Unpin { message: Oid, patch: PinPatch },
    Reread(Oid),
    RereadAgain(Oid),
    /// Announce and reply with the message as it was read back.
    PublishStored,
    /// Announce and reply with the message as it was before, its pin changed.
    PublishPatched(PinPatch),
    Refuse(Refusal),
}

/// The reply to a user who may not pin, or unpin, the message.
#[verifier::allow_in_spec]
pub fn pin_refusal(pin: bool) -> Refusal
    returns
        (if pin {
            titled(403, "FORBIDDEN", "Nie masz uprawnień do przypinania tej wiadomości.")
        } else {
            titled(403, "FORBIDDEN", "Nie masz uprawnień do odpięcia tej wiadomości.")
        }),
{
    if pin {
        titled(403, "FORBIDDEN", "Nie masz uprawnień do przypinania tej wiadomości.")
    } else {
        titled(403, "FORBIDDEN", "Nie masz uprawnień do odpięcia tej wiadomości.")
    }
}

pub open spec fn pin_step(user: Option<&str>, message_id: &str, pin: bool, f: PinFacts) -> PinStep {
    let mid = ids::oid_of(message_id@)->0;
    if user is None {
        PinStep::Refuse(error(401, "Unauthorized"))
    } else if ids::oid_of(message_id@) is None {
        PinStep::Refuse(error(404, "Message not found"))
    } else if f.message is None {
        PinStep::LoadMessage(mid)
    } else if f.message->0 is Failed {
        PinStep::Refuse(unavailable())
    } else if f.message->0 != Lookup::Found(false) {
        PinStep::Refuse(error(404, "Message not found"))
    } else if f.right is None {
        PinStep::CheckRight
    } else if f.right->0 is Unavailable {
        PinStep::Refuse(unavailable())
    } else if f.right->0 is No {
        PinStep::Refuse(pin_refusal(pin))
    } else if pin && ids::oid_of(user->0@) is None {
        PinStep::Refuse(error(400, "Invalid user id"))
    } else if f.wrote is None {
        if pin {
            PinStep::Pin { message: mid, patch: pin_patch(Some(ids::oid_of(user->0@)->0)) }
        } else {
            PinStep::Unpin { message: mid, patch: pin_patch(None) }
        }
    } else if f.wrote->0 is Failed {
        PinStep::Refuse(
            again(
                if pin {
                    error(500, "Failed to pin message")
                } else {
                    error(500, "Failed to unpin message")
                },
            ),
        )
    } else if f.reread is None {
        PinStep::Reread(mid)
    } else if f.reread->0 is Found {
        PinStep::PublishStored
    } else if f.reread_again is None {
        PinStep::RereadAgain(mid)
    } else if f.reread_again->0 is Found {
        PinStep::PublishStored
    } else {
        PinStep::PublishPatched(
            pin_patch(
                if pin {
                    ids::oid_of(user->0@)
                } else {
                    None
                },
            ),
        )
    }
}

fn change_pin(user: Option<&str>, message_id: &str, pin: bool, f: &PinFacts) -> (r: PinStep)
    ensures
        r == pin_step(user, message_id, pin, *f),
{
    let user = match user {
        None => return PinStep::Refuse(error(401, "Unauthorized")),
        Some(u) => u,
    };
    let mid = match parse_oid(message_id) {
        None => return PinStep::Refuse(error(404, "Message not found")),
        Some(id) => id,
    };
    match f.message {
        None => return PinStep::LoadMessage(mid),
        Some(Lookup::Failed) => return PinStep::Refuse(unavailable()),
        Some(Lookup::Missing) => return PinStep::Refuse(error(404, "Message not found")),
        Some(Lookup::Found(deleted)) => {
            if deleted {
                return PinStep::Refuse(error(404, "Message not found"));
            }
        },
    }
    match f.right {
        None => return PinStep::CheckRight,
        Some(PinRight::Unavailable) => return PinStep::Refuse(unavailable()),
        Some(PinRight::No) => return PinStep::Refuse(pin_refusal(pin)),
        Some(PinRight::Yes) => {},
    }
    let by = parse_oid(user);
    if pin && by.is_none() {
        return PinStep::Refuse(error(400, "Invalid user id"));
    }
    match f.wrote {
        None => {
            return match by {
                Some(id) => if pin {
                    PinStep::Pin { message: mid, patch: pin_patch(Some(id)) }
                } else {
                    PinStep::Unpin { message: mid, patch: pin_patch(None) }
                },
                None => PinStep::Unpin { message: mid, patch: pin_patch(None) },
            };
        },
        Some(Done::Failed) => {
            return PinStep::Refuse(
                again(
                    if pin {
                        error(500, "Failed to pin message")
                    } else {
                        error(500, "Failed to unpin message")
                    },
                ),
            );
        },
        Some(Done::Worked) => {},
    }
    match f.reread {
        None => return PinStep::Reread(mid),
        Some(Lookup::Found(_)) => return PinStep::PublishStored,
        _ => {},
    }
    match f.reread_again {
        None => PinStep::RereadAgain(mid),
        Some(Lookup::Found(_)) => PinStep::PublishStored,
        _ => PinStep::PublishPatched(
            pin_patch(
                if pin {
                    by
                } else {
                    None
                },
            ),
        ),
    }
}

/// Decides the next step of pinning a message.
pub fn pin_message(user: Option<&str>, message_id: &str, f: &PinFacts) -> (r: PinStep)
    ensures
        r == pin_step(user, message_id, true, *f),
{
    change_pin(user, message_id, true, f)
}

/// Decides the next step of unpinning a message.
pub fn unpin_message(user: Option<&str>, message_id: &str, f: &PinFacts) -> (r: PinStep)
    ensures
        r == pin_step(user, message_id, false, *f),
{
    change_pin(user, message_id, false, f)
}

/// A user with the right to do so pins and unpins a message that is not deleted: the request is not
/// refused while nothing fails, and asks only for what is not known yet. A pin carries the user who
/// pinned; success is replied only where the change was stored.
pub proof fn law_pin_goes_through_with_the_right(
    user: Option<&str>,
    message_id: &str,
    pin: bool,
    f: PinFacts,
)
    ensures
        ({
            let s = pin_step(user, message_id, pin, f);
            let mid = ids::oid_of(message_id@);
            let fits = user is Some && mid is Some && (pin ==> ids::oid_of(user->0@) is Some) && (
            f.message is None || f.message == Some(Lookup::Found(false))) && (f.right is None
                || f.right == Some(PinRight::Yes)) && f.wrote != Some(Done::Failed);
            let known = f.message is Some && f.right is Some;
            &&& fits ==> s !is Refuse
            &&& fits && f.message is None ==> s == PinStep::LoadMessage(mid->0)
            &&& fits && f.message is Some && f.right is None ==> s is CheckRight
            &&& fits && known && f.wrote is None && pin ==> s == (PinStep::Pin {
                message: mid->0,
                patch: PinPatch { pinned: true, pinned_by: ids::oid_of(user->0@) },
            })
            &&& fits && known && f.wrote is None && !pin ==> s == (PinStep::Unpin {
                message: mid->0,
                patch: PinPatch { pinned: false, pinned_by: None },
            })
            &&& fits && known && f.wrote is Some && f.reread is None ==> s == PinStep::Reread(mid->0)
            &&& fits && known && f.wrote is Some && f.reread is Some && f.reread->0 is Found ==> s is
                PublishStored
            &&& s is Pin || s is Unpin ==> f.wrote is None
            &&& s is Reread ==> f.reread is None
            &&& s is RereadAgain ==> f.reread_again is None && s == PinStep::RereadAgain(mid->0)
            &&& s is Reread || s is RereadAgain || s is PublishStored || s is PublishPatched
                ==> f.wrote is Some && f.message == Some(Lookup::Found(false)) && f.right == Some(
                PinRight::Yes,
            )
            &&& s is PublishStored ==> (f.reread is Some && f.reread->0 is Found) || (f.reread_again
                is Some && f.reread_again->0 is Found)
            &&& s matches PinStep::PublishPatched(patch) ==> patch.pinned == pin && (pin
                ==> patch.pinned_by == ids::oid_of(user->0@)) && (!pin ==> patch.pinned_by is None)
            &&& user is None || mid is None ==> s is Refuse
            &&& s matches PinStep::Refuse(r) ==> {
                &&& r.status == 401 <==> user is None
                &&& r.status == 404 ==> mid is None || (f.message is Some && f.message->0
                    != Lookup::Found(false))
                &&& r.status == 403 ==> f.right is Some && f.right->0 !is Yes
                &&& r.status == 400 ==> pin && ids::oid_of(user->0@) is None
            }
        }),
{
}

/// A pin changes only on a message that is not deleted, for a user with the right to it; after
/// the change the request ends in a reply that shows it.
pub proof fn law_pin_needs_right_and_ends_in_reply(
    user: Option<&str>,
    message_id: &str,
    pin: bool,
    f: PinFacts,
)
    ensures
        (pin_step(user, message_id, pin, f) is Pin || pin_step(user, message_id, pin, f) is Unpin)
            ==> f.message == Some(Lookup::Found(false)) && f.right == Some(PinRight::Yes) && (pin
            <==> pin_step(user, message_id, pin, f) is Pin),
        (pin_step(user, message_id, pin, f) is PublishStored || pin_step(user, message_id, pin, f) is PublishPatched)
            ==> f.wrote == Some(Done::Worked),
        f.wrote == Some(Done::Worked) && f.reread is Some && f.reread_again is Some && user is Some
            && ids::oid_of(message_id@) is Some && ids::oid_of(user->0@) is Some && f.message == Some(
            Lookup::Found(false),
        ) && f.right == Some(PinRight::Yes) ==> pin_step(user, message_id, pin, f) is PublishStored
            || pin_step(user, message_id, pin, f) is PublishPatched,
{
}

/// Who hears of a changed pin in a channel that cannot be loaded: the user who changed it, the
/// sender, and everyone with a read position, each once.
pub fn pin_fallback_recipients(actor: &str, sender: Oid, readers: &Vec<Oid>) -> (r: Vec<String>)
    ensures
        text::texts(r@) == lists::with_all(
            lists::with(seq![actor@], ids::hex_of(sender)),
            ids::hex_all(readers@),
        ),
{
    let mut first: Vec<String> = Vec::new();
    first.push(actor.to_owned());
    assert(text::texts(first@) =~= seq![actor@]);
    lists::add_text(&mut first, ids::to_hex(sender).as_str());
    fallback_recipients(&first, readers)
}

/// Who hears of a changed pin in a conversation: recipient and sender, and the user who
/// changed it if that is neither.
pub fn pin_pair_recipients(actor: &str, sender: Oid, recipient: Oid) -> (r: Vec<String>)
    ensures
        text::texts(r@) == lists::with(
            seq![ids::hex_of(recipient), ids::hex_of(sender)],
            actor@,
        ),
{
    let mut out: Vec<String> = Vec::new();
    out.push(ids::to_hex(recipient));
    out.push(ids::to_hex(sender));
    assert(text::texts(out@) =~= seq![ids::hex_of(recipient), ids::hex_of(sender)]);
    lists::add_text(&mut out, actor);
    out
}

/// What is known while pinned messages are listed.
#[derive(Clone, Copy, Debug)]
pub struct PinnedFacts {
    pub channel_access: Option<Access>,
    pub dm_access: Option<DmAccess>,
    pub found: Option<Done>,
    /// How many messages the list shows.
    pub shown: usize,
    /// Whether the user may pin the first message shown.
    pub may_pin_first: Option<bool>,
    /// Whether the user may pin in the place: its owner, or a friend of the contact.
    pub may_pin_here: Option<bool>,
}

/// Which pinned messages are looked for.
#[derive(Clone, Copy, Debug, PartialEq, Eq)]
pub struct PinnedFilter {
    pub pinned: bool,
    pub deleted: bool,
    /// The time by which the newest come first.
    pub newest_by: &'static str,
    pub limit: i64,
}

/// The pinned messages that are listed: those not deleted, the last pinned first.
#[verifier::allow_in_spec]
pub fn pinned_filter() -> PinnedFilter
    returns
        (PinnedFilter {
            pinned: true,
            deleted: false,
            newest_by: "pinnedAt",
            limit: MAX_PINNED_MESSAGES,
        }),
{
    PinnedFilter {
        pinned: true,
        deleted: false,
        newest_by: "pinnedAt",
        limit: MAX_PINNED_MESSAGES,
    }
}

/// What to do next while pinned messages are listed.
#[derive(Clone, Copy, Debug, PartialEq, Eq)]
pub enum PinnedStep {
    CheckChannel,
    CheckDm,
    FindInChannel { channel: Oid, filter: PinnedFilter },
    /// Find in a conversation, and drop those that belong to another one.
    FindInDm { me: Oid, other: Oid, filter: PinnedFilter },
    AskMayPinFirst,
    AskMayPinInChannel,
    AskMayPinInDm,
    Reply { can_pin: bool },
    Refuse(Refusal),
}

pub open spec fn pinned_step(user: Option<&str>, body: PinnedBody, f: PinnedFacts) -> PinnedStep {
    let channel = text::given(body.channel_id);
    let contact = text::given(body.contact_id);
    let filter = pinned_filter();
    if user is None {
        PinnedStep::Refuse(error(401, "Unauthorized"))
    } else if channel is Some && f.channel_access is None {
        PinnedStep::CheckChannel
    } else if channel is Some && f.channel_access->0 is Unavailable {
        PinnedStep::Refuse(unavailable())
    } else if channel is Some && f.channel_access->0 is Denied {
        PinnedStep::Refuse(error(403, "Access denied"))
    } else if channel is Some && ids::oid_of(channel->0) is None {
        PinnedStep::Refuse(error(400, "Invalid channel id"))
    } else if channel is None && contact is None {
        PinnedStep::Refuse(error(400, "contactId or channelId required"))
    } else if channel is None && f.dm_access is None {
        PinnedStep::CheckDm
    } else if channel is None && f.dm_access->0 is Unavailable {
        PinnedStep::Refuse(unavailable())
    } else if channel is None && f.dm_access->0 is Denied {
        PinnedStep::Refuse(error(403, "Access denied"))
    } else if f.found is None {
        if channel is Some {
            PinnedStep::FindInChannel { channel: ids::oid_of(channel->0)->0, filter }
        } else {
            PinnedStep::FindInDm { me: f.dm_access->0->me, other: f.dm_access->0->other, filter }
        }
    } else if f.found->0 is Failed {
        PinnedStep::Refuse(unavailable())
    } else if f.shown > 0 {
        match f.may_pin_first {
            None => PinnedStep::AskMayPinFirst,
            Some(can_pin) => PinnedStep::Reply { can_pin },
        }
    } else {
        match f.may_pin_here {
            None => if channel is Some {
                PinnedStep::AskMayPinInChannel
            } else {
                PinnedStep::AskMayPinInDm
            },
            Some(can_pin) => PinnedStep::Reply { can_pin },
        }
    }
}

/// Decides the next step of listing pinned messages.
pub fn get_pinned_messages(user: Option<&str>, body: &PinnedBody, f: &PinnedFacts) -> (r: PinnedStep)
    ensures
        r == pinned_step(user, *body, *f),
{
    if user.is_none() {
        return PinnedStep::Refuse(error(401, "Unauthorized"));
    }
    let filter = pinned_filter();
    let channel = text::given_text(&body.channel_id);
    let find = match channel {
        Some(id) => {
            match f.channel_access {
                None => return PinnedStep::CheckChannel,
                Some(Access::Unavailable(_)) => return PinnedStep::Refuse(unavailable()),
                Some(Access::Denied(_)) => return PinnedStep::Refuse(error(403, "Access denied")),
                Some(Access::Granted) => {},
            }
            match parse_oid(id) {
                None => return PinnedStep::Refuse(error(400, "Invalid channel id")),
                Some(channel) => PinnedStep::FindInChannel { channel, filter },
            }
        },
        None => {
            if text::given_text(&body.contact_id).is_none() {
                return PinnedStep::Refuse(error(400, "contactId or channelId required"));
            }
            match f.dm_access {
                None => return PinnedStep::CheckDm,
                Some(DmAccess::Unavailable) => return PinnedStep::Refuse(unavailable()),
                Some(DmAccess::Denied(_)) => return PinnedStep::Refuse(error(403, "Access denied")),
                Some(DmAccess::Granted { me, other }) => PinnedStep::FindInDm { me, other, filter },
            }
        },
    };
    match f.found {
        None => return find,
        Some(Done::Failed) => return PinnedStep::Refuse(unavailable()),
        Some(Done::Worked) => {},
    }
    if f.shown > 0 {
        match f.may_pin_first {
            None => PinnedStep::AskMayPinFirst,
            Some(can_pin) => PinnedStep::Reply { can_pin },
        }
    } else {
        match f.may_pin_here {
            None => if channel.is_some() {
                PinnedStep::AskMayPinInChannel
            } else {
                PinnedStep::AskMayPinInDm
            },
            Some(can_pin) => PinnedStep::Reply { can_pin },
        }
    }
}

/// The pinned messages of a channel or a conversation are shown to users with access: the request is
/// not refused while nothing fails, a channel comes before a contact, at most fifty that are pinned and
/// not deleted are found, and the reply says whether the user may pin.
pub proof fn law_pinned_messages_are_shown(
    user: Option<&str>,
    body: PinnedBody,
    f: PinnedFacts,
)
    ensures
        ({
            let s = pinned_step(user, body, f);
            let channel = text::given(body.channel_id);
            let contact = text::given(body.contact_id);
            let in_channel = channel is Some && ids::oid_of(channel->0) is Some && (f.channel_access is
                None || f.channel_access == Some(Access::Granted));
            let in_dm = channel is None && contact is Some && (f.dm_access is None || f.dm_access->0
                is Granted);
            let fits = user is Some && (in_channel || in_dm) && f.found != Some(Done::Failed);
            let known = if channel is Some {
                f.channel_access is Some
            } else {
                f.dm_access is Some
            };
            &&& fits ==> s !is Refuse
            &&& fits && !known && channel is Some ==> s is CheckChannel
            &&& fits && !known && channel is None ==> s is CheckDm
            &&& fits && known && f.found is None && channel is Some ==> s is FindInChannel
            &&& fits && known && f.found is None && channel is None ==> s is FindInDm
            &&& fits && known && f.found is Some && f.may_pin_first is Some && f.may_pin_here is Some
                ==> s == (PinnedStep::Reply {
                can_pin: if f.shown > 0 {
                    f.may_pin_first->0
                } else {
                    f.may_pin_here->0
                },
            })
            &&& s matches PinnedStep::FindInChannel { channel: c, filter } ==> Some(c) == ids::oid_of(
                channel->0,
            ) && f.found is None && filter.pinned && !filter.deleted && filter.newest_by
                == "pinnedAt" && filter.limit == 50
            &&& s matches PinnedStep::FindInDm { me, other, filter } ==> f.dm_access is Some && me
                == f.dm_access->0->me && other == f.dm_access->0->other && f.found is None
                && filter.pinned && !filter.deleted && filter.newest_by == "pinnedAt"
                && filter.limit == 50
            &&& s is AskMayPinFirst ==> f.may_pin_first is None && f.shown > 0
            &&& s is AskMayPinInChannel ==> f.may_pin_here is None && f.shown == 0 && channel is Some
            &&& s is AskMayPinInDm ==> f.may_pin_here is None && f.shown == 0 && channel is None
            &&& s is Reply ==> f.found == Some(Done::Worked)
            &&& user is None || (channel is None && contact is None) ==> s is Refuse
        }),
{
}

/// What is known while messages are searched.
#[derive(Clone, Copy, Debug)]
pub struct SearchFacts {
    pub channel_access: Option<Access>,
    pub dm_access: Option<DmAccess>,
    pub found: Option<Done>,
}

/// Which messages are looked for.
#[derive(Debug, PartialEq, Eq)]
pub struct SearchFilter {
    /// The tokens that a message must hold, all of them.
    pub tokens: Vec<String>,
    pub kind: &'static str,
    pub deleted: bool,
    /// The time by which the newest come first.
    pub newest_by: &'static str,
    pub limit: i64,
}

/// The view of `SearchFilter`.
#[verifier::ext_equal]
pub struct SearchFilterView {
    pub tokens: Seq<Seq<char>>,
    pub kind: &'static str,
    pub deleted: bool,
    pub newest_by: &'static str,
    pub limit: i64,
}

impl View for SearchFilter {
    type V = SearchFilterView;

    open spec fn view(&self) -> SearchFilterView {
        SearchFilterView {
            tokens: text::texts(self.tokens@),
            kind: self.kind,
            deleted: self.deleted,
            newest_by: self.newest_by,
            limit: self.limit,
        }
    }
}

/// The messages that a search for tokens finds: texts that hold all of them and are not deleted, the
/// newest first.
pub open spec fn search_filter(tokens: Seq<Seq<char>>) -> SearchFilterView {
    SearchFilterView {
        tokens,
        kind: "TEXT",
        deleted: false,
        newest_by: "timestamp",
        limit: SEARCH_LIMIT,
    }
}

/// Puts together which messages are looked for.
pub fn make_search_filter(tokens: &Vec<String>) -> (r: SearchFilter)
    ensures
        r@ == search_filter(text::texts(tokens@)),
{
    SearchFilter {
        tokens: lists::copy_texts(tokens),
        kind: "TEXT",
        deleted: false,
        newest_by: "timestamp",
        limit: SEARCH_LIMIT,
    }
}

/// What to do next while messages are searched.
#[derive(Debug, PartialEq, Eq)]
pub enum SearchStep {
    /// Split the query into the tokens that are searched for.
    SplitQuery(String),
    CheckChannel,
    CheckDm,
    FindInChannel { channel: Oid, filter: SearchFilter },
    /// Find in a conversation, and drop those that belong to another one.
    FindInDm { me: Oid, other: Oid, filter: SearchFilter },
    Reply,
    Refuse(Refusal),
}

/// The view of `SearchStep`.
#[verifier::ext_equal]
pub enum SearchStepView {
    SplitQuery(Seq<char>),
    CheckChannel,
    CheckDm,
    FindInChannel { channel: Oid, filter: SearchFilterView },
    FindInDm { me: Oid, other: Oid, filter: SearchFilterView },
    Reply,
    Refuse(Refusal),
}

impl View for SearchStep {
    type V = SearchStepView;

    open spec fn view(&self) -> SearchStepView {
        match self {
            SearchStep::SplitQuery(a) => SearchStepView::SplitQuery(a@),
            SearchStep::CheckChannel => SearchStepView::CheckChannel,
            SearchStep::CheckDm => SearchStepView::CheckDm,
            SearchStep::FindInChannel { channel, filter } => SearchStepView::FindInChannel {
                channel: *channel,
                filter: filter@,
            },
            SearchStep::FindInDm { me, other, filter } => SearchStepView::FindInDm {
                me: *me,
                other: *other,
                filter: filter@,
            },
            SearchStep::Reply => SearchStepView::Reply,
            SearchStep::Refuse(a) => SearchStepView::Refuse(*a),
        }
    }
}

/// The query as it is searched for.
pub fn search_query(body: &SearchMessagesBody) -> (r: String)
    ensures
        r@ == text::trimmed(text::or_empty(body.query)),
{
    text::trim(text::text_or_empty(&body.query).as_str())
}

pub open spec fn search_step(
    user: Option<&str>,
    body: SearchMessagesBody,
    tokens: Option<Seq<Seq<char>>>,
    f: SearchFacts,
) -> SearchStepView {
    let query = text::trimmed(text::or_empty(body.query));
    let channel = text::given(body.channel_id);
    let contact = text::given(body.contact_id);
    let filter = search_filter(tokens->0);
    if user is None {
        SearchStepView::Refuse(error(401, "Unauthorized"))
    } else if query.len() < MIN_QUERY_LENGTH {
        SearchStepView::Refuse(titled(400, "QUERY_TOO_SHORT", "Wpisz co najmniej 2 znaki."))
    } else if query.len() > MAX_QUERY_LENGTH {
        SearchStepView::Refuse(
            titled(400, "QUERY_TOO_LONG", "Zapytanie może mieć co najwyżej 200 znaków."),
        )
    } else if tokens is None {
        SearchStepView::SplitQuery(query)
    } else if tokens->0.len() == 0 {
        SearchStepView::Refuse(titled(400, "QUERY_TOO_SHORT", "Wpisz co najmniej 2 znaki."))
    } else if channel is Some && f.channel_access is None {
        SearchStepView::CheckChannel
    } else if channel is Some && f.channel_access->0 is Unavailable {
        SearchStepView::Refuse(unavailable())
    } else if channel is Some && f.channel_access->0 is Denied {
        SearchStepView::Refuse(error(403, "Access denied"))
    } else if channel is Some && ids::oid_of(channel->0) is None {
        SearchStepView::Refuse(error(400, "Invalid channel id"))
    } else if channel is None && contact is None {
        SearchStepView::Refuse(error(400, "contactId or channelId required"))
    } else if channel is None && f.dm_access is None {
        SearchStepView::CheckDm
    } else if channel is None && f.dm_access->0 is Unavailable {
        SearchStepView::Refuse(unavailable())
    } else if channel is None && f.dm_access->0 is Denied {
        SearchStepView::Refuse(error(403, "Access denied"))
    } else if f.found is None {
        if channel is Some {
            SearchStepView::FindInChannel { channel: ids::oid_of(channel->0)->0, filter }
        } else {
            SearchStepView::FindInDm { me: f.dm_access->0->me, other: f.dm_access->0->other, filter }
        }
    } else if f.found->0 is Failed {
        SearchStepView::Refuse(unavailable())
    } else {
        SearchStepView::Reply
    }
}

/// Decides the next step of searching messages; `tokens` are those of the query, once it was split.
pub fn search_messages(
    user: Option<&str>,
    body: &SearchMessagesBody,
    tokens: Option<&Vec<String>>,
    f: &SearchFacts,
) -> (r: SearchStep)
    ensures
        r@ == search_step(user, *body, opt_texts(tokens), *f),
{
    if user.is_none() {
        return SearchStep::Refuse(error(401, "Unauthorized"));
    }
    let query = search_query(body);
    let length: usize = query.as_str().unicode_len();
    if length < MIN_QUERY_LENGTH {
        return SearchStep::Refuse(titled(400, "QUERY_TOO_SHORT", "Wpisz co najmniej 2 znaki."));
    }
    if length > MAX_QUERY_LENGTH {
        return SearchStep::Refuse(
            titled(400, "QUERY_TOO_LONG", "Zapytanie może mieć co najwyżej 200 znaków."),
        );
    }
    let tokens = match tokens {
        None => return SearchStep::SplitQuery(query),
        Some(t) => t,
    };
    if tokens.len() == 0 {
        return SearchStep::Refuse(titled(400, "QUERY_TOO_SHORT", "Wpisz co najmniej 2 znaki."));
    }
    let filter = make_search_filter(tokens);
    let find = match text::given_text(&body.channel_id) {
        Some(id) => {
            match f.channel_access {
                None => return SearchStep::CheckChannel,
                Some(Access::Unavailable(_)) => return SearchStep::Refuse(unavailable()),
                Some(Access::Denied(_)) => return SearchStep::Refuse(error(403, "Access denied")),
                Some(Access::Granted) => {},
            }
            match parse_oid(id) {
                None => return SearchStep::Refuse(error(400, "Invalid channel id")),
                Some(channel) => SearchStep::FindInChannel { channel, filter },
            }
        },
        None => {
            if text::given_text(&body.contact_id).is_none() {
                return SearchStep::Refuse(error(400, "contactId or channelId required"));
            }
            match f.dm_access {
                None => return SearchStep::CheckDm,
                Some(DmAccess::Unavailable) => return SearchStep::Refuse(unavailable()),
                Some(DmAccess::Denied(_)) => return SearchStep::Refuse(error(403, "Access denied")),
                Some(DmAccess::Granted { me, other }) => SearchStep::FindInDm { me, other, filter },
            }
        },
    };
    match f.found {
        None => find,
        Some(Done::Failed) => SearchStep::Refuse(unavailable()),
        Some(Done::Worked) => SearchStep::Reply,
    }
}

/// Messages are searched and pinned ones listed only after access was granted.
pub proof fn law_messages_are_read_with_access_only(
    user: Option<&str>,
    search: SearchMessagesBody,
    tokens: Option<Seq<Seq<char>>>,
    sf: SearchFacts,
    pinned: PinnedBody,
    pf: PinnedFacts,
)
    ensures
        search_step(user, search, tokens, sf) is FindInChannel ==> sf.channel_access == Some(Access::Granted),
        search_step(user, search, tokens, sf) is FindInDm ==> sf.dm_access is Some && sf.dm_access->0 is Granted,
        pinned_step(user, pinned, pf) is FindInChannel ==> pf.channel_access == Some(Access::Granted),
        pinned_step(user, pinned, pf) is FindInDm ==> pf.dm_access is Some && pf.dm_access->0 is Granted,
{
}

/// What is looked for follows from the query alone: its tokens, in texts that are not deleted, with
/// the newest first, at most fifty.
pub proof fn law_search_looks_for_tokens(
    user: Option<&str>,
    search: SearchMessagesBody,
    tokens: Option<Seq<Seq<char>>>,
    f: SearchFacts,
)
    ensures
        ({
            let s = search_step(user, search, tokens, f);
            let trimmed = text::trimmed(text::or_empty(search.query));
            &&& s matches SearchStepView::SplitQuery(q) ==> q == trimmed && 2 <= q.len() <= 200
            &&& s matches SearchStepView::FindInChannel { channel, filter } ==> tokens is Some
                && filter.tokens == tokens->0 && filter.tokens.len() > 0 && filter.kind == "TEXT"
                && !filter.deleted && filter.newest_by == "timestamp" && filter.limit == 50
                && text::given(search.channel_id) is Some && ids::oid_of(
                text::given(search.channel_id)->0,
            ) == Some(channel)
            &&& s matches SearchStepView::FindInDm { filter, .. } ==> tokens is Some
                && filter.tokens == tokens->0 && filter.kind == "TEXT" && !filter.deleted
                && filter.newest_by == "timestamp" && filter.limit == 50
        }),
{
}

/// A search of 2 to 200 characters goes through for users with access, in the channel that is named or
/// else with the contact: it is not refused while nothing fails and the query has a token.
pub proof fn law_search_goes_through(
    user: Option<&str>,
    body: SearchMessagesBody,
    tokens: Option<Seq<Seq<char>>>,
    f: SearchFacts,
)
    ensures
        ({
            let s = search_step(user, body, tokens, f);
            let query = text::trimmed(text::or_empty(body.query));
            let channel = text::given(body.channel_id);
            let contact = text::given(body.contact_id);
            let in_channel = channel is Some && ids::oid_of(channel->0) is Some && (f.channel_access is
                None || f.channel_access == Some(Access::Granted));
            let in_dm = channel is None && contact is Some && (f.dm_access is None || f.dm_access->0
                is Granted);
            let fits = user is Some && 2 <= query.len() <= 200 && (tokens is None || tokens->0.len()
                > 0) && (in_channel || in_dm) && f.found != Some(Done::Failed);
            let known = if channel is Some {
                f.channel_access is Some
            } else {
                f.dm_access is Some
            };
            &&& fits ==> s !is Refuse
            &&& fits && tokens is None ==> s == SearchStepView::SplitQuery(query)
            &&& fits && tokens is Some && !known && channel is Some ==> s is CheckChannel
            &&& fits && tokens is Some && !known && channel is None ==> s is CheckDm
            &&& fits && tokens is Some && known && f.found is None && channel is Some ==> s is
                FindInChannel
            &&& fits && tokens is Some && known && f.found is None && channel is None ==> s is FindInDm
            &&& fits && tokens is Some && known && f.found is Some ==> s is Reply
            &&& s matches SearchStepView::FindInDm { me, other, .. } ==> me == f.dm_access->0->me
                && other == f.dm_access->0->other
            &&& s is FindInChannel || s is FindInDm ==> f.found is None && user is Some
            &&& s is Reply ==> f.found == Some(Done::Worked)
            &&& user is None || query.len() < 2 || query.len() > 200 ==> s is Refuse
            &&& tokens is Some && tokens->0.len() == 0 ==> s is Refuse
        }),
{
}

/// What to do next for the preview of a link.
#[derive(Debug, PartialEq, Eq)]
pub enum PreviewStep {
    /// Count one preview under this name.
    CountRequest { key: String, quota: Quota },
    /// Find whether this address may be fetched.
    CheckTarget(String),
    Fetch(String),
    Reply,
    Refuse(Refusal),
}

/// The view of `PreviewStep`.
#[verifier::ext_equal]
pub enum PreviewStepView {
    CountRequest { key: Seq<char>, quota: Quota },
    CheckTarget(Seq<char>),
    Fetch(Seq<char>),
    Reply,
    Refuse(Refusal),
}

impl View for PreviewStep {
    type V = PreviewStepView;

    open spec fn view(&self) -> PreviewStepView {
        match self {
            PreviewStep::CountRequest { key, quota } => PreviewStepView::CountRequest {
                key: key@,
                quota: *quota,
            },
            PreviewStep::CheckTarget(a) => PreviewStepView::CheckTarget(a@),
            PreviewStep::Fetch(a) => PreviewStepView::Fetch(a@),
            PreviewStep::Reply => PreviewStepView::Reply,
            PreviewStep::Refuse(a) => PreviewStepView::Refuse(*a),
        }
    }
}

/// What is known while the preview of a link is made.
#[derive(Clone, Copy, Debug)]
pub struct PreviewFacts {
    /// Whether the request was within the rate limit.
    pub counted: Option<bool>,
    /// Whether the address may be fetched.
    pub safe: Option<bool>,
    pub fetched: Option<Result<(), &'static str>>,
}

/// The address that is previewed.
pub fn preview_target(body: &LinkPreviewBody) -> (r: String)
    ensures
        r@ == text::trimmed(text::or_empty(body.url)),
{
    text::trim(text::text_or_empty(&body.url).as_str())
}

/// The name under which the previews of a user are counted.
pub fn preview_rate_key(user: &str) -> (r: String)
    ensures
        r@ == "link-preview:"@ + user@,
{
    text::join2("link-preview:", user)
}

pub open spec fn preview_step(user: Option<&str>, body: LinkPreviewBody, f: PreviewFacts) -> PreviewStepView {
    if user is None || user->0@.len() == 0 {
        PreviewStepView::Refuse(titled(401, "UNAUTHORIZED", "Authentication required."))
    } else if f.counted is None {
        PreviewStepView::CountRequest {
            key: "link-preview:"@ + user->0@,
            quota: (Quota { max: 40, seconds: 60 }),
        }
    } else if !f.counted->0 {
        PreviewStepView::Refuse(titled(429, "TOO_MANY_REQUESTS", "Too many preview requests."))
    } else if text::trimmed(text::or_empty(body.url)).len() == 0 || f.safe == Some(false) {
        PreviewStepView::Refuse(titled(400, "INVALID_URL", "Invalid preview URL."))
    } else if f.safe is None {
        PreviewStepView::CheckTarget(text::trimmed(text::or_empty(body.url)))
    } else {
        match f.fetched {
            None => PreviewStepView::Fetch(text::trimmed(text::or_empty(body.url))),
            Some(Ok(_)) => PreviewStepView::Reply,
            Some(Err(why)) => PreviewStepView::Refuse(titled(502, "PREVIEW_UNAVAILABLE", why)),
        }
    }
}

/// Decides the next step of previewing a link.
pub fn link_preview(user: Option<&str>, body: &LinkPreviewBody, f: &PreviewFacts) -> (r: PreviewStep)
    ensures
        r@ == preview_step(user, *body, *f),
{
    let me = match user {
        None => return PreviewStep::Refuse(
            titled(401, "UNAUTHORIZED", "Authentication required."),
        ),
        Some(u) => u,
    };
    if me.is_empty() {
        return PreviewStep::Refuse(titled(401, "UNAUTHORIZED", "Authentication required."));
    }
    match f.counted {
        None => return PreviewStep::CountRequest {
            key: preview_rate_key(me),
            quota: Quota { max: 40, seconds: 60 },
        },
        Some(allowed) => {
            if !allowed {
                return PreviewStep::Refuse(
                    titled(429, "TOO_MANY_REQUESTS", "Too many preview requests."),
                );
            }
        },
    }
    if preview_target(body).as_str().is_empty() {
        return PreviewStep::Refuse(titled(400, "INVALID_URL", "Invalid preview URL."));
    }
    match f.safe {
        None => return PreviewStep::CheckTarget(preview_target(body)),
        Some(safe) => {
            if !safe {
                return PreviewStep::Refuse(titled(400, "INVALID_URL", "Invalid preview URL."));
            }
        },
    }
    match f.fetched {
        None => PreviewStep::Fetch(preview_target(body)),
        Some(Ok(_)) => PreviewStep::Reply,
        Some(Err(why)) => PreviewStep::Refuse(titled(502, "PREVIEW_UNAVAILABLE", why)),
    }
}

/// A preview is fetched for a signed-in user, within 40 a minute, of an address that was found safe:
/// nothing else is fetched, and the request is not refused while nothing speaks against it.
pub proof fn law_safe_links_are_previewed(
    user: Option<&str>,
    body: LinkPreviewBody,
    f: PreviewFacts,
)
    ensures
        ({
            let s = preview_step(user, body, f);
            let url = text::trimmed(text::or_empty(body.url));
            let signed_in = user is Some && user->0@.len() > 0;
            let fits = signed_in && f.counted != Some(false) && url.len() > 0 && f.safe != Some(false)
                && (f.fetched is None || f.fetched->0 is Ok);
            &&& fits ==> s !is Refuse
            &&& fits && f.counted is Some && f.safe is None ==> s == PreviewStepView::CheckTarget(url)
            &&& fits && f.counted is Some && f.safe is Some && f.fetched is None ==> s
                == PreviewStepView::Fetch(url)
            &&& fits && f.counted is Some && f.safe is Some && f.fetched is Some ==> s is Reply
            &&& s matches PreviewStepView::CountRequest { key, quota } ==> f.counted is None && key
                == "link-preview:"@ + user->0@ && quota.max == 40 && quota.seconds == 60
            &&& signed_in && f.counted is None ==> s is CountRequest
            &&& s is Fetch ==> f.safe == Some(true) && f.counted == Some(true) && f.fetched is None
                && signed_in
            &&& s is CheckTarget ==> f.safe is None && f.counted == Some(true)
            &&& s is Reply ==> f.fetched is Some && f.fetched->0 is Ok && f.safe == Some(true)
            &&& !signed_in ==> s is Refuse
        }),
{
}

/// Whether files with the extension `ext` may be attached.
pub open spec fn is_allowed_extension(ext: Seq<char>) -> bool {
    ext == "pdf"@ || ext == "jpg"@ || ext == "jpeg"@ || ext == "png"@ || ext == "webp"@ || ext == "docx"@ || ext == "xlsx"@ || ext == "txt"@ || ext == "webm"@ || ext == "ogg"@ || ext == "wav"@ || ext == "mp4"@ || ext == "m4a"@
}

/// Whether files with the extension `ext` may be attached.
pub fn allowed_extension(ext: &str) -> (r: bool)
    ensures
        r == is_allowed_extension(ext@),
{
    text::same_text(ext, "pdf") || text::same_text(ext, "jpg") || text::same_text(ext, "jpeg") || text::same_text(ext, "png") || text::same_text(ext, "webp") || text::same_text(ext, "docx") || text::same_text(ext, "xlsx") || text::same_text(ext, "txt") || text::same_text(ext, "webm") || text::same_text(ext, "ogg") || text::same_text(ext, "wav") || text::same_text(ext, "mp4") || text::same_text(ext, "m4a")
}

/// Whether files with the extension `ext` are documents whose inside is checked.
pub open spec fn is_document_extension(ext: Seq<char>) -> bool {
    ext == "pdf"@ || ext == "docx"@ || ext == "xlsx"@
}

/// The name of an uploaded file, without what stands before it in a path.
pub fn upload_name(file_name: Option<&str>) -> (r: String)
    ensures
        r@ == (match file_name {
            None => Seq::<char>::empty(),
            Some(n) => text::after_last(n@, "/\\"@),
        }),
{
    match file_name {
        None => String::new(),
        Some(n) => text::tail_after(n, "/\\"),
    }
}

/// The extension of an uploaded file: what follows the last dot of its name, in lower case.
pub fn upload_extension(name: &str) -> (r: String)
    ensures
        r@ == text::lowercase_of(text::after_last(name@, "."@)),
        vstd::utf8::is_ascii_chars(text::after_last(name@, "."@)) ==> r@ == text::ascii_lower(
            text::after_last(name@, "."@),
        ),
{
    text::lowercase(text::tail_after(name, ".").as_str())
}

/// Where an attachment goes: the kind of the place, and its identifier as it was sent.
pub struct UploadContext {
    pub kind: String,
    pub id: String,
}

/// Reads where an attachment goes.
pub fn upload_context(kind: &str, id: &str) -> (r: UploadContext)
    ensures
        r.kind@ == text::ascii_lower(text::trimmed(kind@)),
        r.id@ == text::trimmed(id@),
{
    UploadContext { kind: text::lower_ascii(text::trim(kind).as_str()), id: text::trim(id) }
}

/// The extension under which an attachment is stored: images are stored as WebP.
pub open spec fn stored_extension(ext: Seq<char>, is_image: bool) -> Seq<char> {
    if is_image {
        "webp"@
    } else {
        ext
    }
}

/// Finds the extension under which an attachment is stored.
pub fn stored_ext(ext: &str, is_image: bool) -> (r: String)
    ensures
        r@ == stored_extension(ext@, is_image),
{
    if is_image {
        "webp".to_owned()
    } else {
        ext.to_owned()
    }
}

/// The name under which an attachment is stored.
pub fn stored_name(unique: &str, ext: &str, is_image: bool) -> (r: String)
    ensures
        r@ == unique@ + "."@ + stored_extension(ext@, is_image),
{
    text::join3(unique, ".", stored_ext(ext, is_image).as_str())
}

/// The reply to a file over the size limit.
pub fn too_large_text(limit_mb: u64) -> (r: String)
    ensures
        r@ == "File too large. Maximum size is "@ + text::decimal(limit_mb as nat) + " MB."@,
{
    text::join3("File too large. Maximum size is ", text::write_u64(limit_mb).as_str(), " MB.")
}

/// The message that the attachment limit has been reached.
pub fn attachment_limit_text(limit: u64, window_seconds: u64) -> (r: String)
    ensures
        r@ == "Osiągnięto limit "@ + text::decimal(limit as nat) + " załączników na "@
            + text::decimal((window_seconds / 60) as nat) + " minut. Spróbuj ponownie później."@,
{
    let mut s = text::join3("Osiągnięto limit ", text::write_u64(limit).as_str(), " załączników na ");
    s.append(text::write_u64(window_seconds / 60).as_str());
    s.append(" minut. Spróbuj ponownie później.");
    s
}

/// An uploaded file made ready for storage.
#[derive(Clone, Copy, Debug, PartialEq, Eq)]
pub enum Prepared {
    /// Sizes of the file and of its small copy, and whether the file is within the limit.
    Ready { size: u64, thumb: Option<u64>, within_limit: bool },
    /// The image could not be made ready, for the reason given.
    BadImage(&'static str),
    Unreadable,
}

/// What is known while a file is attached.
#[derive(Clone, Copy, Debug)]
pub struct UploadFacts {
    /// Whether the content begins as files of that extension do.
    pub magic: Option<bool>,
    /// Whether the inside of the document is sound.
    pub document: Option<bool>,
    /// Whether the size is within the limit; nothing where it could not be read.
    pub size: Option<Option<bool>>,
    /// Whether one more attachment was allowed, else the seconds to wait.
    pub quota: Option<Result<(), u64>>,
    /// The seconds to wait, asked for anew.
    pub wait: Option<u64>,
    pub access: Option<Access>,
    pub prepared: Option<Prepared>,
    /// Whether the files of the user would take too much room.
    pub exceeds: Option<crate::reply::Answer>,
    pub put: Option<Done>,
    pub put_thumb: Option<Done>,
    pub registered: Option<Done>,
    /// Whether the user has too many uploads that were not sent; nothing where unknown.
    pub too_many_pending: Option<Option<bool>>,
    pub adjusted: Option<Done>,
    /// Whether the stored file was taken away again.
    pub removed: bool,
    /// Whether the registration was taken back.
    pub claimed: bool,
    /// Whether the upload was logged.
    pub logged: bool,
}

/// Where a file is stored.
pub struct UploadPlace {
    /// A text that no other file has.
    pub unique: String,
    /// The place of the file, once it was made.
    pub path: Option<String>,
    /// The place of its small copy, where there is one.
    pub thumb_path: Option<String>,
    /// The content type that the request declares.
    pub declared: Option<String>,
    /// What the file was found to be.
    pub found: Option<FileKind>,
}

/// What a file was found to be.
pub struct FileKind {
    pub content_type: String,
    pub hash: String,
}

/// What to do next while a file is attached.
#[derive(Debug, PartialEq, Eq)]
pub enum UploadStep {
    CheckMagic,
    CheckDocument,
    MeasureFile { max_bytes: u64 },
    ConsumeQuota,
    AskWait,
    CheckDm,
    CheckChannel,
    /// Make the place of a file of this name: in the conversation of the user and the other, or in the
    /// channel.
    MakePath { dm: bool, owner: String, context: String, name: String },
    /// Re-encode the image and make its small copy.
    Reencode,
    ReadFile,
    /// Ask whether `bytes` more would be too much for the user.
    CheckRoom { user: Oid, bytes: u64 },
    /// Find the content type of the file, stored under this extension and declared as this, and its
    /// hash.
    Describe { ext: String, declared: Option<String> },
    Put { path: String, content_type: String },
    PutThumb { path: String, content_type: String },
    Register { user: Oid, path: String, kind: String, context: String, bytes: u64, hash: String },
    CountPending(Oid),
    Adjust { user: Oid, bytes: u64 },
    /// Take the file away again.
    RemoveFile { path: String },
    /// Take the file and its small copy away again.
    RemoveAttachment { path: String },
    /// Take the registration back.
    Claim { user: Oid, path: String },
    /// Log the upload, with the size of the file alone.
    Log { owner: String, path: String, kind: String, context: String, bytes: u64 },
    /// Reply with the place of the file.
    Reply { path: String },
    RefuseTooLarge { limit_mb: u64 },
    /// Refuse with the attachment limit and the seconds to wait.
    RefuseQuota { retry_after: u64 },
    Refuse(Refusal),
}

/// The view of `UploadStep`.
#[verifier::ext_equal]
pub enum UploadStepView {
    CheckMagic,
    CheckDocument,
    MeasureFile { max_bytes: u64 },
    ConsumeQuota,
    AskWait,
    CheckDm,
    CheckChannel,
    MakePath { dm: bool, owner: Seq<char>, context: Seq<char>, name: Seq<char> },
    Reencode,
    ReadFile,
    CheckRoom { user: Oid, bytes: u64 },
    Describe { ext: Seq<char>, declared: Option<Seq<char>> },
    Put { path: Seq<char>, content_type: Seq<char> },
    PutThumb { path: Seq<char>, content_type: Seq<char> },
    Register {
        user: Oid,
        path: Seq<char>,
        kind: Seq<char>,
        context: Seq<char>,
        bytes: u64,
        hash: Seq<char>,
    },
    CountPending(Oid),
    Adjust { user: Oid, bytes: u64 },
    RemoveFile { path: Seq<char> },
    RemoveAttachment { path: Seq<char> },
    Claim { user: Oid, path: Seq<char> },
    Log { owner: Seq<char>, path: Seq<char>, kind: Seq<char>, context: Seq<char>, bytes: u64 },
    Reply { path: Seq<char> },
    RefuseTooLarge { limit_mb: u64 },
    RefuseQuota { retry_after: u64 },
    Refuse(Refusal),
}

impl View for UploadStep {
    type V = UploadStepView;

    open spec fn view(&self) -> UploadStepView {
        match self {
            UploadStep::CheckMagic => UploadStepView::CheckMagic,
            UploadStep::CheckDocument => UploadStepView::CheckDocument,
            UploadStep::MeasureFile { max_bytes } => UploadStepView::MeasureFile {
                max_bytes: *max_bytes,
            },
            UploadStep::ConsumeQuota => UploadStepView::ConsumeQuota,
            UploadStep::AskWait => UploadStepView::AskWait,
            UploadStep::CheckDm => UploadStepView::CheckDm,
            UploadStep::CheckChannel => UploadStepView::CheckChannel,
            UploadStep::MakePath { dm, owner, context, name } => UploadStepView::MakePath {
                dm: *dm,
                owner: owner@,
                context: context@,
                name: name@,
            },
            UploadStep::Reencode => UploadStepView::Reencode,
            UploadStep::ReadFile => UploadStepView::ReadFile,
            UploadStep::CheckRoom { user, bytes } => UploadStepView::CheckRoom {
                user: *user,
                bytes: *bytes,
            },
            UploadStep::Describe { ext, declared } => UploadStepView::Describe {
                ext: ext@,
                declared: text::opt(*declared),
            },
            UploadStep::Put { path, content_type } => UploadStepView::Put {
                path: path@,
                content_type: content_type@,
            },
            UploadStep::PutThumb { path, content_type } => UploadStepView::PutThumb {
                path: path@,
                content_type: content_type@,
            },
            UploadStep::Register { user, path, kind, context, bytes, hash } => UploadStepView::Register {
                user: *user,
                path: path@,
                kind: kind@,
                context: context@,
                bytes: *bytes,
                hash: hash@,
            },
            UploadStep::CountPending(a) => UploadStepView::CountPending(*a),
            UploadStep::Adjust { user, bytes } => UploadStepView::Adjust {
                user: *user,
                bytes: *bytes,
            },
            UploadStep::RemoveFile { path } => UploadStepView::RemoveFile { path: path@ },
            UploadStep::RemoveAttachment { path } => UploadStepView::RemoveAttachment {
                path: path@,
            },
            UploadStep::Claim { user, path } => UploadStepView::Claim { user: *user, path: path@ },
            UploadStep::Log { owner, path, kind, context, bytes } => UploadStepView::Log {
                owner: owner@,
                path: path@,
                kind: kind@,
                context: context@,
                bytes: *bytes,
            },
            UploadStep::Reply { path } => UploadStepView::Reply { path: path@ },
            UploadStep::RefuseTooLarge { limit_mb } => UploadStepView::RefuseTooLarge {
                limit_mb: *limit_mb,
            },
            UploadStep::RefuseQuota { retry_after } => UploadStepView::RefuseQuota {
                retry_after: *retry_after,
            },
            UploadStep::Refuse(a) => UploadStepView::Refuse(*a),
        }
    }
}

/// How large attachments may be, in bytes.
#[derive(Clone, Copy, Debug)]
pub struct UploadLimits {
    pub image_bytes: u64,
    pub file_bytes: u64,
}

/// The largest size for a file.
pub open spec fn max_bytes(limits: UploadLimits, is_image: bool) -> u64 {
    if is_image {
        limits.image_bytes
    } else {
        limits.file_bytes
    }
}

/// What a file and its small copy take together, at most what a counter holds.
pub open spec fn stored_bytes(size: u64, thumb: Option<u64>) -> u64 {
    let t = match thumb {
        None => 0,
        Some(t) => t,
    };
    if size + t > u64::MAX {
        u64::MAX
    } else {
        (size + t) as u64
    }
}

pub open spec fn upload_step(
    user: Option<&str>,
    name: &str,
    ext: &str,
    is_image: bool,
    limits: UploadLimits,
    context: UploadContext,
    place: UploadPlace,
    f: UploadFacts,
) -> UploadStepView {
    let path = place.path->0@;
    let uid = ids::oid_of(user->0@)->0;
    let kind = context.kind@;
    let size = f.prepared->0->size;
    let thumb = f.prepared->0->thumb;
    let bytes = stored_bytes(size, thumb);
    let wait = f.quota->0->Err_0;
    let failed = UploadStepView::Refuse(plain(500, "Internal Server Error."));
    if name@.len() == 0 {
        UploadStepView::Refuse(plain(400, "File is required."))
    } else if !is_allowed_extension(ext@) {
        UploadStepView::Refuse(plain(400, "Invalid file type."))
    } else if f.magic is None {
        UploadStepView::CheckMagic
    } else if !f.magic->0 {
        UploadStepView::Refuse(plain(400, "Invalid file content."))
    } else if is_document_extension(ext@) && f.document is None {
        UploadStepView::CheckDocument
    } else if is_document_extension(ext@) && !f.document->0 {
        UploadStepView::Refuse(plain(400, "Invalid file content."))
    } else if f.size is None {
        UploadStepView::MeasureFile { max_bytes: max_bytes(limits, is_image) }
    } else if f.size->0 != Some(true) {
        UploadStepView::RefuseTooLarge { limit_mb: max_bytes(limits, is_image) / 1048576 }
    } else if text::contains_text(name@, ".."@) || name@.contains('/') || name@.contains('\\') {
        UploadStepView::Refuse(plain(400, "Invalid file name."))
    } else if user is None || user->0@.len() == 0 {
        UploadStepView::Refuse(plain(401, "Authentication required."))
    } else if ids::oid_of(user->0@) is None {
        UploadStepView::Refuse(plain(400, "Invalid user."))
    } else if context.id@.len() == 0 {
        UploadStepView::Refuse(plain(400, "Upload context is required."))
    } else if kind != "dm"@ && kind != "channel"@ {
        UploadStepView::Refuse(plain(400, "Invalid upload context."))
    } else if f.quota is None {
        UploadStepView::ConsumeQuota
    } else if f.quota->0 is Err && wait == 0 && f.wait is None {
        UploadStepView::AskWait
    } else if f.quota->0 is Err {
        UploadStepView::RefuseQuota {
            retry_after: if wait == 0 {
                f.wait->0
            } else {
                wait
            },
        }
    } else if ids::oid_of(context.id@) is None {
        UploadStepView::Refuse(
            if kind == "dm"@ {
                plain(400, "Invalid contact ID.")
            } else {
                plain(400, "Invalid channel ID.")
            },
        )
    } else if f.access is None {
        if kind == "dm"@ {
            UploadStepView::CheckDm
        } else {
            UploadStepView::CheckChannel
        }
    } else if f.access->0 is Unavailable {
        UploadStepView::Refuse(unavailable())
    } else if f.access->0 is Denied {
        UploadStepView::Refuse(
            if kind == "dm"@ {
                plain(403, "You cannot upload to this conversation.")
            } else {
                plain(403, "You cannot upload to this channel.")
            },
        )
    } else if place.path is None {
        UploadStepView::MakePath {
            dm: kind == "dm"@,
            owner: user->0@,
            context: context.id@,
            name: place.unique@ + "."@ + stored_extension(ext@, is_image),
        }
    } else if f.prepared is None {
        if is_image {
            UploadStepView::Reencode
        } else {
            UploadStepView::ReadFile
        }
    } else if f.prepared->0 is BadImage {
        UploadStepView::Refuse(plain(400, f.prepared->0->BadImage_0))
    } else if f.prepared->0 is Unreadable {
        failed
    } else if !f.prepared->0->within_limit {
        UploadStepView::RefuseTooLarge { limit_mb: max_bytes(limits, is_image) / 1048576 }
    } else if f.exceeds is None {
        UploadStepView::CheckRoom { user: uid, bytes }
    } else if f.exceeds->0 !is No {
        UploadStepView::Refuse(
            plain(413, "Storage quota exceeded. Delete old attachments or wait for cleanup."),
        )
    } else if place.found is None {
        UploadStepView::Describe {
            ext: stored_extension(ext@, is_image),
            declared: text::opt(place.declared),
        }
    } else if f.put is None {
        UploadStepView::Put { path, content_type: place.found->0.content_type@ }
    } else if f.put->0 is Failed {
        failed
    } else if thumb is Some && place.thumb_path is Some && f.put_thumb is None {
        UploadStepView::PutThumb { path: place.thumb_path->0@, content_type: "image/webp"@ }
    } else if thumb is Some && place.thumb_path is Some && f.put_thumb->0 is Failed {
        if f.removed {
            failed
        } else {
            UploadStepView::RemoveFile { path }
        }
    } else if f.registered is None {
        UploadStepView::Register {
            user: uid,
            path,
            kind,
            context: context.id@,
            bytes,
            hash: place.found->0.hash@,
        }
    } else if f.registered->0 is Failed {
        if !f.removed {
            UploadStepView::RemoveAttachment { path }
        } else if f.too_many_pending is None {
            UploadStepView::CountPending(uid)
        } else if f.too_many_pending->0 == Some(true) {
            UploadStepView::Refuse(
                plain(429, "Too many pending uploads. Send or wait before uploading more."),
            )
        } else {
            failed
        }
    } else if f.adjusted is None {
        UploadStepView::Adjust { user: uid, bytes }
    } else if f.adjusted->0 is Failed {
        if !f.removed {
            UploadStepView::RemoveAttachment { path }
        } else if !f.claimed {
            UploadStepView::Claim { user: uid, path }
        } else {
            failed
        }
    } else if !f.logged {
        UploadStepView::Log { owner: user->0@, path, kind, context: context.id@, bytes: size }
    } else {
        UploadStepView::Reply { path }
    }
}

/// Decides the next step of attaching a file. `name` and `ext` are its name and extension,
/// `context` is where it goes, `place` where it is stored.
pub fn upload_file(
    user: Option<&str>,
    name: &str,
    ext: &str,
    is_image: bool,
    limits: &UploadLimits,
    context: &UploadContext,
    place: &UploadPlace,
    f: &UploadFacts,
) -> (r: UploadStep)
    ensures
        r@ == upload_step(user, name, ext, is_image, *limits, *context, *place, *f),
{
    let failed = UploadStep::Refuse(plain(500, "Internal Server Error."));
    if name.is_empty() {
        return UploadStep::Refuse(plain(400, "File is required."));
    }
    if !allowed_extension(ext) {
        return UploadStep::Refuse(plain(400, "Invalid file type."));
    }
    match f.magic {
        None => return UploadStep::CheckMagic,
        Some(sound) => {
            if !sound {
                return UploadStep::Refuse(plain(400, "Invalid file content."));
            }
        },
    }
    if text::same_text(ext, "pdf") || text::same_text(ext, "docx") || text::same_text(ext, "xlsx") {
        match f.document {
            None => return UploadStep::CheckDocument,
            Some(sound) => {
                if !sound {
                    return UploadStep::Refuse(plain(400, "Invalid file content."));
                }
            },
        }
    }
    let max_bytes: u64 = if is_image {
        limits.image_bytes
    } else {
        limits.file_bytes
    };
    let limit_mb: u64 = max_bytes / 1048576;
    match f.size {
        None => return UploadStep::MeasureFile { max_bytes },
        Some(Some(true)) => {},
        _ => return UploadStep::RefuseTooLarge { limit_mb },
    }
    if text::has_text(name, "..") || text::has_char(name, '/') || text::has_char(name, '\\') {
        return UploadStep::Refuse(plain(400, "Invalid file name."));
    }
    let user = match user {
        None => return UploadStep::Refuse(plain(401, "Authentication required.")),
        Some(u) => u,
    };
    if user.is_empty() {
        return UploadStep::Refuse(plain(401, "Authentication required."));
    }
    let uid = match parse_oid(user) {
        None => return UploadStep::Refuse(plain(400, "Invalid user.")),
        Some(id) => id,
    };
    if context.id.as_str().is_empty() {
        return UploadStep::Refuse(plain(400, "Upload context is required."));
    }
    let dm = text::same_text(context.kind.as_str(), "dm");
    if !dm && !text::same_text(context.kind.as_str(), "channel") {
        return UploadStep::Refuse(plain(400, "Invalid upload context."));
    }
    match f.quota {
        None => return UploadStep::ConsumeQuota,
        Some(Ok(_)) => {},
        Some(Err(wait)) => {
            if wait != 0 {
                return UploadStep::RefuseQuota { retry_after: wait };
            }
            return match f.wait {
                None => UploadStep::AskWait,
                Some(retry_after) => UploadStep::RefuseQuota { retry_after },
            };
        },
    }
    if parse_oid(context.id.as_str()).is_none() {
        return UploadStep::Refuse(
            if dm {
                plain(400, "Invalid contact ID.")
            } else {
                plain(400, "Invalid channel ID.")
            },
        );
    }
    match f.access {
        None => {
            return if dm {
                UploadStep::CheckDm
            } else {
                UploadStep::CheckChannel
            };
        },
        Some(Access::Unavailable(_)) => return UploadStep::Refuse(unavailable()),
        Some(Access::Denied(_)) => {
            return UploadStep::Refuse(
                if dm {
                    plain(403, "You cannot upload to this conversation.")
                } else {
                    plain(403, "You cannot upload to this channel.")
                },
            );
        },
        Some(Access::Granted) => {},
    }
    let path = match &place.path {
        None => return UploadStep::MakePath {
            dm,
            owner: user.to_owned(),
            context: context.id.clone(),
            name: stored_name(place.unique.as_str(), ext, is_image),
        },
        Some(p) => p.clone(),
    };
    let (size, thumb) = match f.prepared {
        None => {
            return if is_image {
                UploadStep::Reencode
            } else {
                UploadStep::ReadFile
            };
        },
        Some(Prepared::BadImage(why)) => return UploadStep::Refuse(plain(400, why)),
        Some(Prepared::Unreadable) => return failed,
        Some(Prepared::Ready { size, thumb, within_limit }) => {
            if !within_limit {
                return UploadStep::RefuseTooLarge { limit_mb };
            }
            (size, thumb)
        },
    };
    let bytes: u64 = match thumb {
        None => size,
        Some(t) => size.saturating_add(t),
    };
    match f.exceeds {
        None => return UploadStep::CheckRoom { user: uid, bytes },
        Some(crate::reply::Answer::No) => {},
        _ => {
            return UploadStep::Refuse(
                plain(413, "Storage quota exceeded. Delete old attachments or wait for cleanup."),
            );
        },
    }
    let found = match &place.found {
        None => return UploadStep::Describe {
            ext: stored_ext(ext, is_image),
            declared: match &place.declared {
                None => None,
                Some(s) => Some(s.clone()),
            },
        },
        Some(k) => k,
    };
    match f.put {
        None => return UploadStep::Put { path, content_type: found.content_type.clone() },
        Some(Done::Failed) => return failed,
        Some(Done::Worked) => {},
    }
    if let Some(thumb_path) = &place.thumb_path {
        if thumb.is_some() {
            match f.put_thumb {
                None => return UploadStep::PutThumb {
                    path: thumb_path.clone(),
                    content_type: "image/webp".to_owned(),
                },
                Some(Done::Failed) => {
                    return if f.removed {
                        failed
                    } else {
                        UploadStep::RemoveFile { path }
                    };
                },
                Some(Done::Worked) => {},
            }
        }
    }
    match f.registered {
        None => return UploadStep::Register {
            user: uid,
            path,
            kind: context.kind.clone(),
            context: context.id.clone(),
            bytes,
            hash: found.hash.clone(),
        },
        Some(Done::Failed) => {
            if !f.removed {
                return UploadStep::RemoveAttachment { path };
            }
            return match f.too_many_pending {
                None => UploadStep::CountPending(uid),
                Some(Some(true)) => UploadStep::Refuse(
                    plain(429, "Too many pending uploads. Send or wait before uploading more."),
                ),
                _ => failed,
            };
        },
        Some(Done::Worked) => {},
    }
    match f.adjusted {
        None => UploadStep::Adjust { user: uid, bytes },
        Some(Done::Failed) => {
            if !f.removed {
                UploadStep::RemoveAttachment { path }
            } else if !f.claimed {
                UploadStep::Claim { user: uid, path }
            } else {
                failed
            }
        },
        Some(Done::Worked) => {
            if !f.logged {
                UploadStep::Log {
                    owner: user.to_owned(),
                    path,
                    kind: context.kind.clone(),
                    context: context.id.clone(),
                    bytes: size,
                }
            } else {
                UploadStep::Reply { path }
            }
        },
    }
}

/// A file stays stored only where the upload succeeds: once the request has stored it, it is
/// refused only after the file was taken away again, and a registration only taken back with it.
pub proof fn law_refused_upload_leaves_no_file(
    user: Option<&str>,
    name: &str,
    ext: &str,
    is_image: bool,
    limits: UploadLimits,
    context: UploadContext,
    place: UploadPlace,
    f: UploadFacts,
)
    requires
        upload_step(user, name, ext, is_image, limits, context, place, (UploadFacts { put: None, ..f })) is Put,
        f.put == Some(Done::Worked),
        upload_step(user, name, ext, is_image, limits, context, place, f) is Refuse,
    ensures
        f.removed,
        upload_step(
            user,
            name,
            ext,
            is_image,
            limits,
            context,
            place,
            (UploadFacts { registered: None, ..f }),
        ) is Register && f.registered == Some(Done::Worked) ==> f.claimed,
{
}

/// An upload succeeds only after access was granted, and the file was stored, registered and
/// counted.
pub proof fn law_upload_succeeds_when_all_is_done(
    user: Option<&str>,
    name: &str,
    ext: &str,
    is_image: bool,
    limits: UploadLimits,
    context: UploadContext,
    place: UploadPlace,
    f: UploadFacts,
)
    requires
        upload_step(user, name, ext, is_image, limits, context, place, f) is Reply,
    ensures
        is_allowed_extension(ext@),
        f.access == Some(Access::Granted),
        f.put == Some(Done::Worked),
        f.registered == Some(Done::Worked),
        f.adjusted == Some(Done::Worked),
{
}

/// A sound file within the limits can be attached by a signed-in user who has access: the request is
/// not refused while nothing fails. The file is put where its place was made, registered with its size
/// and hash, counted and logged, and its place is the reply.
pub proof fn law_sound_file_is_attached(
    user: Option<&str>,
    name: &str,
    ext: &str,
    is_image: bool,
    limits: UploadLimits,
    context: UploadContext,
    place: UploadPlace,
    f: UploadFacts,
)
    requires
        name@.len() > 0,
        is_allowed_extension(ext@),
        !text::contains_text(name@, ".."@) && !name@.contains('/') && !name@.contains('\\'),
        user is Some && user->0@.len() > 0 && ids::oid_of(user->0@) is Some,
        context.kind@ == "dm"@ || context.kind@ == "channel"@,
        context.id@.len() > 0 && ids::oid_of(context.id@) is Some,
        f.magic != Some(false),
        f.document != Some(false),
        f.size matches Some(s) ==> s == Some(true),
        f.quota matches Some(q) ==> q is Ok,
        f.access is None || f.access == Some(Access::Granted),
        f.prepared matches Some(p) ==> p is Ready && p->within_limit,
        f.exceeds matches Some(a) ==> a is No,
        f.put != Some(Done::Failed),
        f.put_thumb != Some(Done::Failed),
        f.registered != Some(Done::Failed),
        f.adjusted != Some(Done::Failed),
    ensures
        ({
            let s = upload_step(user, name, ext, is_image, limits, context, place, f);
            let uid = ids::oid_of(user->0@)->0;
            let checked = f.magic is Some && f.document is Some && f.size is Some && f.quota is Some
                && f.access is Some && place.path is Some && f.prepared is Some && f.exceeds is Some
                && place.found is Some;
            let thumbed = f.put_thumb is Some;
            &&& s !is Refuse && s !is RefuseTooLarge && s !is RefuseQuota && s !is RemoveFile && s !is
                RemoveAttachment && s !is Claim && s !is AskWait && s !is CountPending
            &&& checked && f.put is None ==> s == (UploadStepView::Put {
                path: place.path->0@,
                content_type: place.found->0.content_type@,
            })
            &&& checked && f.put is Some && thumbed && f.registered is None ==> s is Register
            &&& checked && f.put is Some && thumbed && f.registered is Some && f.adjusted is None ==> s
                is Adjust
            &&& checked && f.put is Some && thumbed && f.registered is Some && f.adjusted is Some
                && f.logged ==> s == (UploadStepView::Reply { path: place.path->0@ })
            &&& checked && f.put is Some && !thumbed && place.thumb_path is Some
                && f.prepared->0->thumb is Some ==> s == (UploadStepView::PutThumb {
                path: place.thumb_path->0@,
                content_type: "image/webp"@,
            })
        }),
{
}

/// Attaching asks only for what is not known yet, and stores nothing that was not checked: the content,
/// the size, the access and the room are, before the file is put; what is registered and counted is
/// the size of the file and of its small copy together, at most what a counter holds.
pub proof fn law_attaching_makes_progress(
    user: Option<&str>,
    name: &str,
    ext: &str,
    is_image: bool,
    limits: UploadLimits,
    context: UploadContext,
    place: UploadPlace,
    f: UploadFacts,
)
    ensures
        ({
            let s = upload_step(user, name, ext, is_image, limits, context, place, f);
            let uid = ids::oid_of(user->0@);
            let p = f.prepared->0;
            let thumb: int = if p->thumb is Some {
                p->thumb->0 as int
            } else {
                0
            };
            let total: int = if p->size + thumb > u64::MAX {
                u64::MAX as int
            } else {
                p->size + thumb
            };
            let stores = s is Put || s is PutThumb || s is Register || s is Adjust || s is Log || s is
                Reply;
            &&& stores ==> f.magic == Some(true) && f.size == Some(Some(true)) && f.quota is Some
                && f.quota->0 is Ok && f.access == Some(Access::Granted) && f.prepared is Some && p is
                Ready && p->within_limit && f.exceeds == Some(crate::reply::Answer::No)
                && is_allowed_extension(ext@) && place.path is Some && place.found is Some && uid is
                Some
            &&& stores && (ext@ == "pdf"@ || ext@ == "docx"@ || ext@ == "xlsx"@) ==> f.document
                == Some(true)
            &&& s is Put ==> f.put is None
            &&& s is PutThumb ==> f.put_thumb is None && f.put == Some(Done::Worked)
            &&& s matches UploadStepView::Register { user: u, path, kind, context: c, bytes, hash }
                ==> f.registered is None && f.put == Some(Done::Worked) && uid == Some(u) && path
                == place.path->0@ && kind == context.kind@ && c == context.id@ && bytes as int == total
                && hash == place.found->0.hash@
            &&& s matches UploadStepView::Adjust { user: u, bytes } ==> f.adjusted is None
                && f.registered == Some(Done::Worked) && uid == Some(u) && bytes as int == total
            &&& s matches UploadStepView::CheckRoom { user: u, bytes } ==> f.exceeds is None && uid
                == Some(u) && bytes as int == total
            &&& s matches UploadStepView::Log { owner, path, kind, context: c, bytes } ==> !f.logged
                && owner == user->0@ && path == place.path->0@ && kind == context.kind@ && c
                == context.id@ && bytes == p->size
            &&& s matches UploadStepView::Reply { path } ==> path == place.path->0@ && f.logged
            &&& s is CheckMagic ==> f.magic is None
            &&& s is CheckDocument ==> f.document is None
            &&& s matches UploadStepView::MeasureFile { max_bytes: most } ==> f.size is None && most == (
            if is_image {
                limits.image_bytes
            } else {
                limits.file_bytes
            })
            &&& s matches UploadStepView::RefuseTooLarge { limit_mb } ==> limit_mb == (if is_image {
                limits.image_bytes
            } else {
                limits.file_bytes
            }) / 1048576
            &&& s is ConsumeQuota ==> f.quota is None
            &&& s is CheckDm ==> f.access is None && context.kind@ == "dm"@
            &&& s is CheckChannel ==> f.access is None && context.kind@ == "channel"@
            &&& s is Reencode ==> f.prepared is None && is_image
            &&& s is ReadFile ==> f.prepared is None && !is_image
            &&& s is Describe ==> place.found is None
            &&& s matches UploadStepView::MakePath { dm, owner, context: c, name: n } ==> place.path is
                None && dm == (context.kind@ == "dm"@) && owner == user->0@ && c == context.id@ && n
                == place.unique@ + "."@ + (if is_image {
                "webp"@
            } else {
                ext@
            })
        }),
{
}

proof fn lemma_after_last_has_no_separator(s: Seq<char>, seps: Seq<char>, c: char)
    requires
        seps.contains(c),
    ensures
        !text::after_last(s, seps).contains(c),
    decreases s.len(),
{
    if s.len() > 0 && !seps.contains(s.last()) {
        lemma_after_last_has_no_separator(s.drop_last(), seps, c);
        let t = text::after_last(s.drop_last(), seps);
        assert forall|i: int| 0 <= i < t.len() + 1 implies t.push(s.last())[i] != c by {
            if i < t.len() {
                assert(t.contains(t[i]));
            }
        }
    }
}

/// The name taken from an uploaded file never holds a path separator.
pub proof fn law_upload_name_holds_no_separator(file_name: Seq<char>)
    ensures
        !text::after_last(file_name, "/\\"@).contains('/'),
        !text::after_last(file_name, "/\\"@).contains('\\'),
{
    reveal_strlit("/\\");
    assert("/\\"@[0] == '/');
    assert("/\\"@[1] == '\\');
    lemma_after_last_has_no_separator(file_name, "/\\"@, '/');
    lemma_after_last_has_no_separator(file_name, "/\\"@, '\\');
}

} // verus!
