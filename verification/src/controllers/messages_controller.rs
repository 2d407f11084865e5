//! Message requests of clients that are told of no temporary outages.

use vstd::prelude::*;

use crate::controllers::messages;
use crate::controllers::messages::{
    DeleteFacts, EditFacts, EditWork, HistoryStep, PinFacts, PinRight, PinStep, PreviewFacts,
    PreviewStep, Room, UploadContext, UploadFacts, UploadLimits, UploadPlace, UploadStep,
    PinnedFilter, mention_candidates, pin_patch, pin_refusal, pinned_filter,
};
use crate::ids;
use crate::ids::{Oid, is_hex_of, parse_oid};
use crate::model::{Account, Place};
use crate::reply::{Access, Done, Lookup, Refusal, Wrote, error, plain, titled};
use crate::text;

verus! {

pub const SEARCH_LIMIT: i64 = 50;

pub const MIN_QUERY_LENGTH: usize = 2;

pub const DEFAULT_MESSAGE_LIMIT: i64 = 50;

pub const MAX_MESSAGE_LIMIT: i64 = 100;

pub const MAX_PINNED_MESSAGES: i64 = 50;

/// Request for a page of a conversation.
pub struct GetMessagesBody {
    pub id: Option<String>,
    /// Messages on a page: 50 where it is absent, at most 100.
    pub limit: Option<i64>,
    /// Only messages older than this one are wanted.
    pub before: Option<String>,
}

/// The new content of a message.
pub struct EditMessageBody {
    pub content: Option<String>,
}

/// Request for the pinned messages of a conversation or a channel.
pub struct PinnedBody {
    pub contact_id: Option<String>,
    pub channel_id: Option<String>,
}

/// Request for a search in a conversation or a channel.
pub struct SearchMessagesBody {
    pub query: Option<String>,
    pub contact_id: Option<String>,
    pub channel_id: Option<String>,
}

/// Request for the preview of a link.
pub struct LinkPreviewBody {
    pub url: Option<String>,
}

/// The page size that a request asks for, within its bounds.
pub open spec fn page_size(asked: Option<i64>) -> i64 {
    match asked {
        None => DEFAULT_MESSAGE_LIMIT,
        Some(n) => if n < 1 {
            1
        } else if n > MAX_MESSAGE_LIMIT {
            MAX_MESSAGE_LIMIT
        } else {
            n
        },
    }
}

/// The words that deny access to a conversation; a check that could not be made denies it too.
#[derive(Clone, Copy, Debug, PartialEq, Eq)]
pub enum Reading {
    Granted { me: Oid, other: Oid },
    Denied(&'static str),
}

/// What is known while a page of a conversation is read.
#[derive(Clone, Copy, Debug)]
pub struct PageFacts {
    pub access: Option<Reading>,
    /// The position that the page ends before, if it was found to be one.
    pub cursor: Option<Option<Oid>>,
    pub page: Option<Done>,
}

pub open spec fn history_step(user: Option<&str>, body: GetMessagesBody, f: PageFacts) -> HistoryStep {
    let me = f.access->0->me;
    let other = f.access->0->other;
    let size = page_size(body.limit);
    if user is None {
        HistoryStep::Refuse(titled(401, "UNAUTHORIZED", "Authentication required."))
    } else if text::given(body.id) is None {
        HistoryStep::Refuse(titled(400, "INVALID_REQUEST", "Contact id is required."))
    } else if f.access is None {
        HistoryStep::Authorize
    } else if f.access->0 is Denied {
        HistoryStep::Refuse(titled(403, "ACCESS_DENIED", f.access->0->Denied_0))
    } else if text::given(body.before) is Some && f.cursor is None {
        HistoryStep::CheckCursor { me, other }
    } else if text::given(body.before) is Some && f.cursor->0 is None {
        HistoryStep::Refuse(titled(400, "INVALID_CURSOR", "Invalid pagination cursor."))
    } else if f.page is None {
        let before = if text::given(body.before) is Some {
            f.cursor->0
        } else {
            None
        };
        HistoryStep::Find { me, other, before, fetch: (size + 1) as i64 }
    } else if f.page->0 is Failed {
        HistoryStep::Refuse(plain(500, "Internal Server Error"))
    } else {
        HistoryStep::Page { me, other, limit: size }
    }
}

/// Decides the next step of reading a page of a conversation.
pub fn get_messages(user: Option<&str>, body: &GetMessagesBody, f: &PageFacts) -> (r: HistoryStep)
    ensures
        r == history_step(user, *body, *f),
{
    if user.is_none() {
        return HistoryStep::Refuse(titled(401, "UNAUTHORIZED", "Authentication required."));
    }
    if text::given_text(&body.id).is_none() {
        return HistoryStep::Refuse(titled(400, "INVALID_REQUEST", "Contact id is required."));
    }
    let (me, other) = match f.access {
        None => return HistoryStep::Authorize,
        Some(Reading::Denied(why)) => {
            return HistoryStep::Refuse(titled(403, "ACCESS_DENIED", why));
        },
        Some(Reading::Granted { me, other }) => (me, other),
    };
    let size: i64 = match body.limit {
        None => DEFAULT_MESSAGE_LIMIT,
        Some(n) => if n < 1 {
            1
        } else if n > MAX_MESSAGE_LIMIT {
            MAX_MESSAGE_LIMIT
        } else {
            n
        },
    };
    let mut before: Option<Oid> = None;
    if text::given_text(&body.before).is_some() {
        match f.cursor {
            None => return HistoryStep::CheckCursor { me, other },
            Some(None) => {
                return HistoryStep::Refuse(
                    titled(400, "INVALID_CURSOR", "Invalid pagination cursor."),
                );
            },
            Some(at) => {
                before = at;
            },
        }
    }
    match f.page {
        None => HistoryStep::Find { me, other, before, fetch: size + 1 },
        Some(Done::Failed) => HistoryStep::Refuse(plain(500, "Internal Server Error")),
        Some(Done::Worked) => HistoryStep::Page { me, other, limit: size },
    }
}

/// A user with access reads a conversation page by page: the request is not refused while nothing
/// fails, and the newest messages before the position, if one is given, are fetched, one more than the
/// page holds. A page has 50 messages unless another number from 1 to 100 is asked for; numbers outside
/// are brought to the nearest of these.
pub proof fn law_history_is_shown_with_access(
    user: Option<&str>,
    body: GetMessagesBody,
    f: PageFacts,
)
    ensures
        ({
            let s = history_step(user, body, f);
            let size = page_size(body.limit);
            let placed = text::given(body.before) is None;
            let fits = user is Some && text::given(body.id) is Some && (f.access is None
                || f.access->0 is Granted) && (placed || f.cursor is None || f.cursor->0 is Some) && f.page
                != Some(Done::Failed);
            let known = f.access is Some && (placed || f.cursor is Some);
            &&& 1 <= size <= 100
            &&& body.limit is None ==> size == 50
            &&& body.limit matches Some(n) ==> (1 <= n <= 100 ==> size == n) && (n < 1 ==> size == 1)
                && (n > 100 ==> size == 100)
            &&& fits ==> s !is Refuse
            &&& fits && f.access is None ==> s is Authorize
            &&& fits && known && f.page is None ==> s == (HistoryStep::Find {
                me: f.access->0->me,
                other: f.access->0->other,
                before: if placed {
                    None
                } else {
                    f.cursor->0
                },
                fetch: (size + 1) as i64,
            })
            &&& fits && known && f.page is Some ==> s == (HistoryStep::Page {
                me: f.access->0->me,
                other: f.access->0->other,
                limit: size,
            })
            &&& s is Find || s is Page || s is CheckCursor ==> f.access is Some && f.access->0 is
                Granted && user is Some
            &&& s is CheckCursor ==> f.cursor is None && !placed
            &&& s is Find ==> f.page is None
            &&& s is Page ==> f.page == Some(Done::Worked)
            &&& s is Authorize ==> f.access is None
            &&& user is None || text::given(body.id) is None ==> s is Refuse
            &&& s matches HistoryStep::Refuse(r) ==> {
                &&& r.status == 401 <==> user is None
                &&& r.status == 403 ==> f.access is Some && f.access->0 is Denied
                &&& r.status == 400 ==> text::given(body.id) is None || !(f.cursor->0 is Some)
            }
        }),
{
}

/// What is known while a file is attached, where access is a plain yes or no.
pub open spec fn upload_facts(f: UploadFacts) -> UploadFacts {
    UploadFacts {
        access: match f.access {
            Some(Access::Unavailable(why)) => Some(Access::Denied(why)),
            a => a,
        },
        wait: Some(0),
        ..f
    }
}

/// Decides the next step of attaching a file: an access check that could not be made denies
/// access, and the seconds to wait are those that came with the limit.
pub fn upload_file(
    user: Option<&str>,
    name: &str,
    ext: &str,
    is_image: bool,
    limits: &UploadLimits,
    context: &UploadContext,
    place: &UploadPlace,
    f: &UploadFacts,
) -> (r: UploadStep)
    ensures
        r@ == messages::upload_step(
            user,
            name,
            ext,
            is_image,
            *limits,
            *context,
            *place,
            upload_facts(*f),
        ),
        f.access == Some(Access::Granted) && f.quota is Some && f.quota->0 is Ok ==> r@
            == messages::upload_step(user, name, ext, is_image, *limits, *context, *place, *f),
        r@ !is AskWait,
{
    let access = match f.access {
        Some(Access::Unavailable(why)) => Some(Access::Denied(why)),
        a => a,
    };
    let known = UploadFacts { access, wait: Some(0), ..*f };
    messages::upload_file(user, name, ext, is_image, limits, context, place, &known)
}

/// What an edit writes to a message, besides the times of the edit.
#[derive(Debug, PartialEq, Eq)]
pub struct EditPatch {
    /// The content as it is stored.
    pub content: String,
    pub search_text: String,
    pub mentions: Vec<Oid>,
    pub mentions_everyone: bool,
    pub edited: bool,
}

/// The view of `EditPatch`.
#[verifier::ext_equal]
pub struct EditPatchView {
    pub content: Seq<char>,
    pub search_text: Seq<char>,
    pub mentions: Seq<Oid>,
    pub mentions_everyone: bool,
    pub edited: bool,
}

impl View for EditPatch {
    type V = EditPatchView;

    open spec fn view(&self) -> EditPatchView {
        EditPatchView {
            content: self.content@,
            search_text: self.search_text@,
            mentions: self.mentions@,
            mentions_everyone: self.mentions_everyone,
            edited: self.edited,
        }
    }
}

/// What to do next while a message is edited.
#[derive(Debug, PartialEq, Eq)]
pub enum EditStep {
    LoadAccount(Oid),
    LoadMessage(Oid),
    CheckParticipant,
    LoadChannel(Oid),
    /// Find which of the candidates the content mentions.
    ResolveMentions { content: String, candidates: Vec<String> },
    SealContent(String),
    Write { message: Oid, patch: EditPatch },
    Reread(Oid),
    Reply,
    Refuse(Refusal),
}

/// The view of `EditStep`.
#[verifier::ext_equal]
pub enum EditStepView {
    LoadAccount(Oid),
    LoadMessage(Oid),
    CheckParticipant,
    LoadChannel(Oid),
    ResolveMentions { content: Seq<char>, candidates: Seq<Seq<char>> },
    SealContent(Seq<char>),
    Write { message: Oid, patch: EditPatchView },
    Reread(Oid),
    Reply,
    Refuse(Refusal),
}

impl View for EditStep {
    type V = EditStepView;

    open spec fn view(&self) -> EditStepView {
        match self {
            EditStep::LoadAccount(a) => EditStepView::LoadAccount(*a),
            EditStep::LoadMessage(a) => EditStepView::LoadMessage(*a),
            EditStep::CheckParticipant => EditStepView::CheckParticipant,
            EditStep::LoadChannel(a) => EditStepView::LoadChannel(*a),
            EditStep::ResolveMentions { content, candidates } => EditStepView::ResolveMentions {
                content: content@,
                candidates: text::texts(candidates@),
            },
            EditStep::SealContent(a) => EditStepView::SealContent(a@),
            EditStep::Write { message, patch } => EditStepView::Write {
                message: *message,
                patch: patch@,
            },
            EditStep::Reread(a) => EditStepView::Reread(*a),
            EditStep::Reply => EditStepView::Reply,
            EditStep::Refuse(a) => EditStepView::Refuse(*a),
        }
    }
}

/// What an edit writes: nobody is mentioned where nobody could be looked up, and everyone only
/// in a channel that was found.
pub open spec fn edit_patch(work: EditWork, can_mention: bool, in_channel: bool) -> EditPatchView {
    EditPatchView {
        content: work.sealed@,
        search_text: work.search_text@,
        mentions: if can_mention {
            work.mentions@
        } else {
            Seq::empty()
        },
        mentions_everyone: can_mention && in_channel && work.names_everyone,
        edited: true,
    }
}

/// Gives what an edit writes.
pub fn make_edit_patch(work: &EditWork, can_mention: bool, in_channel: bool) -> (r: EditPatch)
    ensures
        r@ == edit_patch(*work, can_mention, in_channel),
{
    EditPatch {
        content: work.sealed.clone(),
        search_text: work.search_text.clone(),
        mentions: if can_mention {
            work.mentions.clone()
        } else {
            Vec::new()
        },
        mentions_everyone: can_mention && in_channel && work.names_everyone,
        edited: true,
    }
}

pub open spec fn edit_step(
    user: Option<&str>,
    message_id: &str,
    content: &str,
    within_limit: bool,
    room: Room,
    work: EditWork,
    f: EditFacts,
) -> EditStepView {
    let mid = ids::oid_of(message_id@)->0;
    let uid = ids::oid_of(user->0@);
    let target = f.message->0->0;
    let in_channel = target.place is Channel;
    let can_mention = target.place is Dm || (in_channel && f.channel->0 is Found);
    let failed = EditStepView::Refuse(error(500, "Internal server error"));
    if user is None {
        EditStepView::Refuse(error(401, "Unauthorized"))
    } else if ids::oid_of(message_id@) is None {
        EditStepView::Refuse(error(404, "Message not found"))
    } else if uid is Some && f.account is None {
        EditStepView::LoadAccount(uid->0)
    } else if uid is Some && f.account->0 is Blocked {
        EditStepView::Refuse(error(403, "Account is inactive or blocked"))
    } else if uid is Some && f.account->0 !is Allowed {
        EditStepView::Refuse(error(401, "User not found"))
    } else if f.message is None {
        EditStepView::LoadMessage(mid)
    } else if f.message->0 is Missing {
        EditStepView::Refuse(error(404, "Message not found"))
    } else if f.message->0 is Failed {
        failed
    } else if ids::hex_of(target.sender) != user->0@ {
        EditStepView::Refuse(error(403, "Not authorized to edit this message"))
    } else if f.access is None {
        EditStepView::CheckParticipant
    } else if f.access->0 is Unavailable {
        EditStepView::Refuse(error(403, f.access->0->Unavailable_0))
    } else if f.access->0 is Denied {
        EditStepView::Refuse(error(403, f.access->0->Denied_0))
    } else if text::trimmed(content@).len() == 0 {
        EditStepView::Refuse(error(400, "Treść wiadomości jest wymagana"))
    } else if !within_limit {
        EditStepView::Refuse(error(400, "Wiadomość nie może przekraczać 2000 znaków"))
    } else if in_channel && f.channel is None {
        EditStepView::LoadChannel(target.place->Channel_0)
    } else if can_mention && f.mentions is None {
        EditStepView::ResolveMentions {
            content: content@,
            candidates: messages::candidates(target, room),
        }
    } else if f.sealed is None {
        EditStepView::SealContent(text::trimmed(content@))
    } else if f.sealed->0 is Failed {
        failed
    } else if f.wrote is None {
        EditStepView::Write { message: mid, patch: edit_patch(work, can_mention, in_channel) }
    } else if f.wrote->0 is Failed {
        failed
    } else if f.reread is None {
        EditStepView::Reread(mid)
    } else if f.reread->0 is Found {
        EditStepView::Reply
    } else {
        failed
    }
}

/// Decides the next step of editing a message.
pub fn edit_message(
    user: Option<&str>,
    message_id: &str,
    content: &str,
    within_limit: bool,
    room: &Room,
    work: &EditWork,
    f: &EditFacts,
) -> (r: EditStep)
    ensures
        r@ == edit_step(user, message_id, content, within_limit, *room, *work, *f),
{
    let failed = EditStep::Refuse(error(500, "Internal server error"));
    let user = match user {
        None => return EditStep::Refuse(error(401, "Unauthorized")),
        Some(u) => u,
    };
    let mid = match parse_oid(message_id) {
        None => return EditStep::Refuse(error(404, "Message not found")),
        Some(id) => id,
    };
    if let Some(uid) = parse_oid(user) {
        match f.account {
            None => return EditStep::LoadAccount(uid),
            Some(Account::Allowed) => {},
            Some(Account::Blocked) => {
                return EditStep::Refuse(error(403, "Account is inactive or blocked"));
            },
            _ => return EditStep::Refuse(error(401, "User not found")),
        }
    }
    let target = match f.message {
        None => return EditStep::LoadMessage(mid),
        Some(Lookup::Missing) => return EditStep::Refuse(error(404, "Message not found")),
        Some(Lookup::Failed) => return failed,
        Some(Lookup::Found(t)) => t,
    };
    if !is_hex_of(target.sender, user) {
        return EditStep::Refuse(error(403, "Not authorized to edit this message"));
    }
    match f.access {
        None => return EditStep::CheckParticipant,
        Some(Access::Granted) => {},
        Some(Access::Unavailable(why)) => return EditStep::Refuse(error(403, why)),
        Some(Access::Denied(why)) => return EditStep::Refuse(error(403, why)),
    }
    if text::trim(content).as_str().is_empty() {
        return EditStep::Refuse(error(400, "Treść wiadomości jest wymagana"));
    }
    if !within_limit {
        return EditStep::Refuse(error(400, "Wiadomość nie może przekraczać 2000 znaków"));
    }
    let in_channel = match target.place {
        Place::Channel(_) => true,
        _ => false,
    };
    let can_mention = match target.place {
        Place::Nowhere => false,
        Place::Dm(_) => true,
        Place::Channel(cid) => match f.channel {
            None => return EditStep::LoadChannel(cid),
            Some(Lookup::Found(_)) => true,
            _ => false,
        },
    };
    if can_mention && f.mentions.is_none() {
        return EditStep::ResolveMentions {
            content: content.to_string(),
            candidates: mention_candidates(target, room),
        };
    }
    match f.sealed {
        None => return EditStep::SealContent(text::trim(content)),
        Some(Done::Failed) => return failed,
        Some(Done::Worked) => {},
    }
    match f.wrote {
        None => {
            return EditStep::Write {
                message: mid,
                patch: make_edit_patch(work, can_mention, in_channel),
            };
        },
        Some(Wrote::Failed) => return failed,
        _ => {},
    }
    match f.reread {
        None => EditStep::Reread(mid),
        Some(Lookup::Found(_)) => EditStep::Reply,
        _ => failed,
    }
}

/// A user who may act can edit an own message: the request is not refused while nothing fails, whatever
/// became of its channel; the edit is stored as soon as its content is sealed, and replied to once it
/// was read back.
pub proof fn law_own_message_is_edited(
    user: Option<&str>,
    message_id: &str,
    content: &str,
    within_limit: bool,
    room: Room,
    work: EditWork,
    f: EditFacts,
)
    requires
        user is Some,
        ids::oid_of(message_id@) is Some,
        ids::oid_of(user->0@) is Some ==> f.account is None || f.account == Some(Account::Allowed),
        f.message matches Some(m) ==> m is Found && ids::hex_of(m->0.sender) == user->0@,
        f.access is None || f.access == Some(Access::Granted),
        text::trimmed(content@).len() > 0,
        within_limit,
        f.sealed != Some(Done::Failed),
        f.wrote is None || f.wrote->0 !is Failed,
        f.reread matches Some(m) ==> m is Found,
    ensures
        ({
            let s = edit_step(user, message_id, content, within_limit, room, work, f);
            let known = f.account is Some && f.message is Some && f.access is Some && (
            f.message->0->0.place is Channel ==> f.channel is Some);
            &&& s !is Refuse
            &&& known && f.mentions is Some && f.sealed is None ==> s == EditStepView::SealContent(
                text::trimmed(content@),
            )
            &&& known && f.mentions is Some && f.sealed is Some && f.wrote is None ==> s is Write
            &&& known && f.mentions is Some && f.sealed is Some && f.wrote is Some && f.reread is Some
                ==> s is Reply
            &&& known && f.mentions is None && (f.message->0->0.place is Dm || (
            f.message->0->0.place is Channel && f.channel->0 is Found)) ==> s is ResolveMentions
        }),
{
}

/// Editing asks only for what is not known yet and stores what was made of the content in the message
/// that the request names: mentions only where their candidates are known, everyone only in a channel.
pub proof fn law_edit_stores_the_sealed_content(
    user: Option<&str>,
    message_id: &str,
    content: &str,
    within_limit: bool,
    room: Room,
    work: EditWork,
    f: EditFacts,
)
    ensures
        ({
            let s = edit_step(user, message_id, content, within_limit, room, work, f);
            let place = f.message->0->0.place;
            let can_mention = place is Dm || (place is Channel && f.channel->0 is Found);
            &&& s is LoadAccount ==> f.account is None
            &&& s is LoadMessage ==> f.message is None
            &&& s is CheckParticipant ==> f.access is None
            &&& s is LoadChannel ==> f.channel is None && place is Channel
            &&& s is ResolveMentions ==> f.mentions is None && can_mention
            &&& s is SealContent ==> f.sealed is None
            &&& s is Reread ==> f.reread is None && f.wrote is Some && f.wrote->0 !is Failed
            &&& s is Reply ==> f.reread is Some && f.reread->0 is Found && f.wrote is Some
            &&& s matches EditStepView::Write { message, patch } ==> {
                &&& f.wrote is None && f.sealed == Some(Done::Worked) && (can_mention ==> f.mentions
                    is Some) && (place is Channel ==> f.channel is Some)
                &&& ids::oid_of(message_id@) == Some(message) && patch.edited && patch.content
                    == work.sealed@ && patch.search_text == work.search_text@
                &&& can_mention ==> patch.mentions == work.mentions@
                &&& !can_mention ==> patch.mentions.len() == 0
                &&& patch.mentions_everyone <==> can_mention && place is Channel
                    && work.names_everyone
                &&& text::trimmed(content@).len() > 0 && within_limit
            }
            &&& s matches EditStepView::Refuse(r) ==> {
                &&& r.status == 401 ==> user is None || (f.account is Some && f.account->0 !is
                    Allowed && f.account->0 !is Blocked)
                &&& r.status == 404 ==> ids::oid_of(message_id@) is None || f.message->0 is Missing
                &&& r.status == 403 ==> f.account == Some(Account::Blocked) || ids::hex_of(
                    f.message->0->0.sender,
                ) != user->0@ || (f.access is Some && f.access->0 !is Granted)
                &&& r.status == 400 ==> text::trimmed(content@).len() == 0 || !within_limit
            }
            &&& user is None || ids::oid_of(message_id@) is None ==> s is Refuse
        }),
{
}

/// What stands in the way of an edit decides how it is refused, and a request that nothing stands in the way
/// of is not: each refusal has the status of its reason.
pub proof fn law_obstacle_decides_how_an_edit_is_refused(
    user: Option<&str>,
    message_id: &str,
    content: &str,
    within_limit: bool,
    room: Room,
    work: EditWork,
    f: EditFacts,
)
    requires
        user is Some,
        ids::oid_of(message_id@) is Some,
    ensures
        ({
            let s = edit_step(user, message_id, content, within_limit, room, work, f);
            let t = f.message->0->0;
            let named = ids::oid_of(user->0@) is Some;
            let free = named ==> f.account == Some(Account::Allowed);
            let own = free && f.message is Some && f.message->0 is Found && ids::hex_of(t.sender)
                == user->0@;
            let let_in = own && f.access == Some(Access::Granted);
            let worded = let_in && text::trimmed(content@).len() > 0;
            let fits = worded && within_limit;
            let ready = fits && (t.place is Channel ==> f.channel is Some) && f.mentions is Some;
            let sealed = ready && f.sealed == Some(Done::Worked);
            let stored = sealed && f.wrote is Some && f.wrote->0 !is Failed;
            &&& named && f.account is Some && f.account->0 is Blocked ==> s is Refuse
                && s->Refuse_0.status == 403
            &&& named && f.account is Some && (f.account->0 is Missing || f.account->0 is Unavailable)
                ==> s is Refuse && s->Refuse_0.status == 401
            &&& free && f.message is Some && f.message->0 is Missing ==> s is Refuse
                && s->Refuse_0.status == 404
            &&& free && f.message is Some && f.message->0 is Failed ==> s is Refuse
                && s->Refuse_0.status == 500
            &&& free && f.message is Some && f.message->0 is Found && !own ==> s is Refuse
                && s->Refuse_0.status == 403
            &&& own && f.access is None ==> s is CheckParticipant
            &&& own && f.access is Some && f.access->0 is Denied ==> s is Refuse && s->Refuse_0.status
                == 403 && s->Refuse_0.error == Some(f.access->0->Denied_0)
            &&& own && f.access is Some && f.access->0 is Unavailable ==> s is Refuse
                && s->Refuse_0.status == 403 && s->Refuse_0.error == Some(f.access->0->Unavailable_0)
            &&& let_in && !worded ==> s is Refuse && s->Refuse_0.status == 400
            &&& worded && !within_limit ==> s is Refuse && s->Refuse_0.status == 400
            &&& ready && f.sealed == Some(Done::Failed) ==> s is Refuse && s->Refuse_0.status == 500
            &&& sealed && f.wrote is Some && f.wrote->0 is Failed ==> s is Refuse && s->Refuse_0.status
                == 500
            &&& stored && f.reread is None ==> s == EditStepView::Reread(ids::oid_of(message_id@)->0)
            &&& stored && f.reread is Some && f.reread->0 !is Found ==> s is Refuse
                && s->Refuse_0.status == 500
            &&& s is Reply ==> stored && f.reread is Some && f.reread->0 is Found || f.mentions is None
        }),
{
}

/// What to do next while a message is deleted.
#[derive(Debug, PartialEq, Eq)]
pub enum DeleteStep {
    LoadMessage(Oid),
    CheckParticipant,
    /// Mark the message as deleted, drop its attachment if nothing refers to it, and reply with
    /// success whatever came of it.
    DeleteAndReply { message: Oid, file_url: Option<String> },
    Refuse(Refusal),
}

/// The view of `DeleteStep`.
#[verifier::ext_equal]
pub enum DeleteStepView {
    LoadMessage(Oid),
    CheckParticipant,
    DeleteAndReply { message: Oid, file_url: Option<Seq<char>> },
    Refuse(Refusal),
}

impl View for DeleteStep {
    type V = DeleteStepView;

    open spec fn view(&self) -> DeleteStepView {
        match self {
            DeleteStep::LoadMessage(a) => DeleteStepView::LoadMessage(*a),
            DeleteStep::CheckParticipant => DeleteStepView::CheckParticipant,
            DeleteStep::DeleteAndReply { message, file_url } => DeleteStepView::DeleteAndReply {
                message: *message,
                file_url: text::opt(*file_url),
            },
            DeleteStep::Refuse(a) => DeleteStepView::Refuse(*a),
        }
    }
}

pub open spec fn delete_step(
    user: Option<&str>,
    message_id: &str,
    file_url: Option<Seq<char>>,
    f: DeleteFacts,
) -> DeleteStepView {
    let mid = ids::oid_of(message_id@)->0;
    if user is None {
        DeleteStepView::Refuse(error(401, "User not authenticated"))
    } else if ids::oid_of(message_id@) is None {
        DeleteStepView::Refuse(error(404, "Message not found"))
    } else if f.message is None {
        DeleteStepView::LoadMessage(mid)
    } else if f.message->0 is Missing {
        DeleteStepView::Refuse(error(404, "Message not found"))
    } else if f.message->0 is Failed {
        DeleteStepView::Refuse(error(500, "Internal server error"))
    } else if ids::hex_of(f.message->0->0.sender) != user->0@ {
        DeleteStepView::Refuse(error(403, "Not authorized to delete this message"))
    } else if f.access is None {
        DeleteStepView::CheckParticipant
    } else if f.access->0 is Unavailable {
        DeleteStepView::Refuse(error(403, f.access->0->Unavailable_0))
    } else if f.access->0 is Denied {
        DeleteStepView::Refuse(error(403, f.access->0->Denied_0))
    } else {
        DeleteStepView::DeleteAndReply { message: mid, file_url }
    }
}

/// Decides the next step of deleting a message.
pub fn delete_message(
    user: Option<&str>,
    message_id: &str,
    file_url: &Option<String>,
    f: &DeleteFacts,
) -> (r: DeleteStep)
    ensures
        r@ == delete_step(user, message_id, text::opt(*file_url), *f),
{
    let user = match user {
        None => return DeleteStep::Refuse(error(401, "User not authenticated")),
        Some(u) => u,
    };
    let mid = match parse_oid(message_id) {
        None => return DeleteStep::Refuse(error(404, "Message not found")),
        Some(id) => id,
    };
    let target = match f.message {
        None => return DeleteStep::LoadMessage(mid),
        Some(Lookup::Missing) => return DeleteStep::Refuse(error(404, "Message not found")),
        Some(Lookup::Failed) => return DeleteStep::Refuse(error(500, "Internal server error")),
        Some(Lookup::Found(t)) => t,
    };
    if !is_hex_of(target.sender, user) {
        return DeleteStep::Refuse(error(403, "Not authorized to delete this message"));
    }
    match f.access {
        None => DeleteStep::CheckParticipant,
        Some(Access::Unavailable(why)) => DeleteStep::Refuse(error(403, why)),
        Some(Access::Denied(why)) => DeleteStep::Refuse(error(403, why)),
        Some(Access::Granted) => DeleteStep::DeleteAndReply {
            message: mid,
            file_url: match file_url {
                None => None,
                Some(url) => Some(url.clone()),
            },
        },
    }
}

/// The sender of a message who takes part where it stands has it deleted, with its file, and nobody else;
/// the request is refused only for a reason.
pub proof fn law_sender_deletes_the_message(
    user: Option<&str>,
    message_id: &str,
    file_url: Option<Seq<char>>,
    f: DeleteFacts,
)
    ensures
        ({
            let s = delete_step(user, message_id, file_url, f);
            let mid = ids::oid_of(message_id@);
            let found = f.message is Some && f.message->0 is Found;
            let own = user is Some && mid is Some && found && ids::hex_of(f.message->0->0.sender)
                == user->0@;
            &&& own && f.access == Some(Access::Granted) <==> s is DeleteAndReply
            &&& s is DeleteAndReply ==> s == (DeleteStepView::DeleteAndReply {
                message: mid->0,
                file_url,
            })
            &&& user is Some && mid is Some && f.message is None <==> s is LoadMessage
            &&& s is LoadMessage ==> s == DeleteStepView::LoadMessage(mid->0)
            &&& own && f.access is None <==> s is CheckParticipant
            &&& s matches DeleteStepView::Refuse(r) ==> {
                &&& r.status == 401 <==> user is None
                &&& r.status == 404 ==> mid is None || f.message->0 is Missing
                &&& r.status == 403 ==> !own || (f.access is Some && f.access->0 !is Granted)
                &&& r.status == 500 ==> f.message->0 is Failed
                &&& r.status == 401 || r.status == 404 || r.status == 403 || r.status == 500
            }
        }),
{
}

pub open spec fn pin_step(user: Option<&str>, message_id: &str, pin: bool, f: PinFacts) -> PinStep {
    let mid = ids::oid_of(message_id@)->0;
    if user is None {
        PinStep::Refuse(error(401, "Unauthorized"))
    } else if ids::oid_of(message_id@) is None {
        PinStep::Refuse(error(404, "Message not found"))
    } else if f.message is None {
        PinStep::LoadMessage(mid)
    } else if f.message->0 != Lookup::Found(false) {
        PinStep::Refuse(error(404, "Message not found"))
    } else if f.right is None {
        PinStep::CheckRight
    } else if f.right->0 !is Yes {
        PinStep::Refuse(pin_refusal(pin))
    } else if pin && ids::oid_of(user->0@) is None {
        PinStep::Refuse(error(400, "Invalid user id"))
    } else if f.wrote is None {
        if pin {
            PinStep::Pin { message: mid, patch: pin_patch(Some(ids::oid_of(user->0@)->0)) }
        } else {
            PinStep::Unpin { message: mid, patch: pin_patch(None) }
        }
    } else if f.reread is None {
        PinStep::Reread(mid)
    } else if f.reread->0 is Found {
        PinStep::PublishStored
    } else {
        PinStep::Refuse(error(500, "Internal Server Error"))
    }
}

fn change_pin(user: Option<&str>, message_id: &str, pin: bool, f: &PinFacts) -> (r: PinStep)
    ensures
        r == pin_step(user, message_id, pin, *f),
{
    let user = match user {
        None => return PinStep::Refuse(error(401, "Unauthorized")),
        Some(u) => u,
    };
    let mid = match parse_oid(message_id) {
        None => return PinStep::Refuse(error(404, "Message not found")),
        Some(id) => id,
    };
    match f.message {
        None => return PinStep::LoadMessage(mid),
        Some(Lookup::Found(false)) => {},
        _ => return PinStep::Refuse(error(404, "Message not found")),
    }
    match f.right {
        None => return PinStep::CheckRight,
        Some(PinRight::Yes) => {},
        _ => return PinStep::Refuse(pin_refusal(pin)),
    }
    let write = if pin {
        match parse_oid(user) {
            None => return PinStep::Refuse(error(400, "Invalid user id")),
            Some(by) => PinStep::Pin { message: mid, patch: pin_patch(Some(by)) },
        }
    } else {
        PinStep::Unpin { message: mid, patch: pin_patch(None) }
    };
    if f.wrote.is_none() {
        return write;
    }
    match f.reread {
        None => PinStep::Reread(mid),
        Some(Lookup::Found(_)) => PinStep::PublishStored,
        _ => PinStep::Refuse(error(500, "Internal Server Error")),
    }
}

/// Decides the next step of pinning a message; whether the change was stored shows when the
/// message is read back.
pub fn pin_message(user: Option<&str>, message_id: &str, f: &PinFacts) -> (r: PinStep)
    ensures
        r == pin_step(user, message_id, true, *f),
{
    change_pin(user, message_id, true, f)
}

/// Decides the next step of unpinning a message.
pub fn unpin_message(user: Option<&str>, message_id: &str, f: &PinFacts) -> (r: PinStep)
    ensures
        r == pin_step(user, message_id, false, *f),
{
    change_pin(user, message_id, false, f)
}

/// A user with the right to do so pins and unpins a message that is not deleted: the request is not
/// refused while nothing fails, and asks only for what is not known yet. A pin carries the user who
/// pinned; success is replied only where the change was stored.
pub proof fn law_pin_goes_through_with_the_right(
    user: Option<&str>,
    message_id: &str,
    pin: bool,
    f: PinFacts,
)
    ensures
        ({
            let s = pin_step(user, message_id, pin, f);
            let mid = ids::oid_of(message_id@);
            let fits = user is Some && mid is Some && (pin ==> ids::oid_of(user->0@) is Some) && (
            f.message is None || f.message == Some(Lookup::Found(false))) && (f.right is None
                || f.right == Some(PinRight::Yes));
            let known = f.message is Some && f.right is Some;
            &&& fits && (f.reread is None || f.reread->0 is Found) ==> s !is Refuse
            &&& fits && f.message is None ==> s == PinStep::LoadMessage(mid->0)
            &&& fits && f.message is Some && f.right is None ==> s is CheckRight
            &&& fits && known && f.wrote is None && pin ==> s == (PinStep::Pin {
                message: mid->0,
                patch: messages::PinPatch { pinned: true, pinned_by: ids::oid_of(user->0@) },
            })
            &&& fits && known && f.wrote is None && !pin ==> s == (PinStep::Unpin {
                message: mid->0,
                patch: messages::PinPatch { pinned: false, pinned_by: None },
            })
            &&& fits && known && f.wrote is Some && f.reread is None ==> s == PinStep::Reread(mid->0)
            &&& fits && known && f.wrote is Some && f.reread is Some && f.reread->0 is Found ==> s is
                PublishStored
            &&& s is Pin || s is Unpin ==> f.wrote is None
            &&& s is Reread ==> f.reread is None
            &&& s is RereadAgain ==> f.reread_again is None && s == PinStep::RereadAgain(mid->0)
            &&& s is Reread || s is RereadAgain || s is PublishStored || s is PublishPatched
                ==> f.wrote is Some && f.message == Some(Lookup::Found(false)) && f.right == Some(
                PinRight::Yes,
            )
            &&& s is PublishStored ==> (f.reread is Some && f.reread->0 is Found) || (f.reread_again
                is Some && f.reread_again->0 is Found)
            &&& s matches PinStep::PublishPatched(patch) ==> patch.pinned == pin && (pin
                ==> patch.pinned_by == ids::oid_of(user->0@)) && (!pin ==> patch.pinned_by is None)
            &&& user is None || mid is None ==> s is Refuse
            &&& s matches PinStep::Refuse(r) ==> {
                &&& r.status == 401 <==> user is None
                &&& r.status == 404 ==> mid is None || (f.message is Some && f.message->0
                    != Lookup::Found(false))
                &&& r.status == 403 ==> f.right is Some && f.right->0 !is Yes
                &&& r.status == 400 ==> pin && ids::oid_of(user->0@) is None
            }
        }),
{
}

/// What is known while messages are listed or searched.
#[derive(Clone, Copy, Debug)]
pub struct ListFacts {
    pub channel_access: Option<bool>,
    pub dm_access: Option<Reading>,
    pub found: Option<Done>,
}

/// Which messages a search by pattern finds, and in what order.
#[derive(Debug, PartialEq, Eq)]
pub struct PatternFilter {
    /// The expression that the search text matches.
    pub pattern: String,
    pub kind: &'static str,
    pub deleted: bool,
    /// The field that puts the newest first.
    pub newest_by: &'static str,
    pub limit: i64,
}

/// The view of `PatternFilter`.
#[verifier::ext_equal]
pub struct PatternFilterView {
    pub pattern: Seq<char>,
    pub kind: &'static str,
    pub deleted: bool,
    pub newest_by: &'static str,
    pub limit: i64,
}

impl View for PatternFilter {
    type V = PatternFilterView;

    open spec fn view(&self) -> PatternFilterView {
        PatternFilterView {
            pattern: self.pattern@,
            kind: self.kind,
            deleted: self.deleted,
            newest_by: self.newest_by,
            limit: self.limit,
        }
    }
}

/// The filter of a search: texts that are not deleted, the newest first.
pub open spec fn pattern_filter(pattern: Seq<char>) -> PatternFilterView {
    PatternFilterView {
        pattern,
        kind: "TEXT",
        deleted: false,
        newest_by: "timestamp",
        limit: SEARCH_LIMIT,
    }
}

/// Gives the filter of a search.
pub fn make_pattern_filter(pattern: &str) -> (r: PatternFilter)
    ensures
        r@ == pattern_filter(pattern@),
{
    PatternFilter {
        pattern: pattern.to_string(),
        kind: "TEXT",
        deleted: false,
        newest_by: "timestamp",
        limit: SEARCH_LIMIT,
    }
}

/// Where messages are looked for.
#[derive(Clone, Copy, Debug, PartialEq, Eq)]
pub enum Where {
    Channel(Oid),
    /// A conversation, without what belongs to another one.
    Dm { me: Oid, other: Oid },
}

/// What comes before messages are looked for.
#[derive(Clone, Copy, Debug, PartialEq, Eq)]
pub enum Entry {
    CheckChannel,
    CheckDm,
    Open(Where),
    Refuse(Refusal),
}

/// The way into a channel, or else into a conversation.
pub open spec fn entry(channel: Option<Seq<char>>, contact: Option<Seq<char>>, f: ListFacts) -> Entry {
    if channel is Some && f.channel_access is None {
        Entry::CheckChannel
    } else if channel is Some && !f.channel_access->0 {
        Entry::Refuse(error(403, "Access denied"))
    } else if channel is Some && ids::oid_of(channel->0) is None {
        Entry::Refuse(error(400, "Invalid channel id"))
    } else if channel is Some {
        Entry::Open(Where::Channel(ids::oid_of(channel->0)->0))
    } else if contact is None {
        Entry::Refuse(error(400, "contactId or channelId required"))
    } else if f.dm_access is None {
        Entry::CheckDm
    } else if f.dm_access->0 is Denied {
        Entry::Refuse(error(403, "Access denied"))
    } else {
        Entry::Open(Where::Dm { me: f.dm_access->0->me, other: f.dm_access->0->other })
    }
}

fn enter(channel: Option<&str>, contact: Option<&str>, f: &ListFacts) -> (r: Entry)
    ensures
        r == entry(text::opt_str(channel), text::opt_str(contact), *f),
{
    match channel {
        Some(id) => {
            match f.channel_access {
                None => return Entry::CheckChannel,
                Some(granted) => {
                    if !granted {
                        return Entry::Refuse(error(403, "Access denied"));
                    }
                },
            }
            match parse_oid(id) {
                None => Entry::Refuse(error(400, "Invalid channel id")),
                Some(channel) => Entry::Open(Where::Channel(channel)),
            }
        },
        None => {
            if contact.is_none() {
                return Entry::Refuse(error(400, "contactId or channelId required"));
            }
            match f.dm_access {
                None => Entry::CheckDm,
                Some(Reading::Denied(_)) => Entry::Refuse(error(403, "Access denied")),
                Some(Reading::Granted { me, other }) => Entry::Open(Where::Dm { me, other }),
            }
        },
    }
}

/// What to do next while pinned messages are listed.
#[derive(Clone, Copy, Debug, PartialEq, Eq)]
pub enum PinnedStep {
    CheckChannel,
    CheckDm,
    FindPinned { at: Where, filter: PinnedFilter },
    Reply,
    Refuse(Refusal),
}

pub open spec fn pinned_step(user: Option<&str>, body: PinnedBody, f: ListFacts) -> PinnedStep {
    if user is None {
        PinnedStep::Refuse(error(401, "Unauthorized"))
    } else {
        match entry(text::given(body.channel_id), text::given(body.contact_id), f) {
            Entry::CheckChannel => PinnedStep::CheckChannel,
            Entry::CheckDm => PinnedStep::CheckDm,
            Entry::Refuse(why) => PinnedStep::Refuse(why),
            Entry::Open(at) => match f.found {
                None => PinnedStep::FindPinned { at, filter: pinned_filter() },
                Some(Done::Failed) => PinnedStep::Refuse(error(500, "Internal Server Error")),
                Some(Done::Worked) => PinnedStep::Reply,
            },
        }
    }
}

/// Decides the next step of listing pinned messages.
pub fn get_pinned_messages(user: Option<&str>, body: &PinnedBody, f: &ListFacts) -> (r: PinnedStep)
    ensures
        r == pinned_step(user, *body, *f),
{
    if user.is_none() {
        return PinnedStep::Refuse(error(401, "Unauthorized"));
    }
    match enter(text::given_text(&body.channel_id), text::given_text(&body.contact_id), f) {
        Entry::CheckChannel => PinnedStep::CheckChannel,
        Entry::CheckDm => PinnedStep::CheckDm,
        Entry::Refuse(why) => PinnedStep::Refuse(why),
        Entry::Open(at) => match f.found {
            None => PinnedStep::FindPinned { at, filter: pinned_filter() },
            Some(Done::Failed) => PinnedStep::Refuse(error(500, "Internal Server Error")),
            Some(Done::Worked) => PinnedStep::Reply,
        },
    }
}

/// What to do next while messages are searched.
#[derive(Debug, PartialEq, Eq)]
pub enum SearchStep {
    /// Make the expression that matches the query.
    MakePattern(String),
    CheckChannel,
    CheckDm,
    FindMatching { at: Where, filter: PatternFilter },
    Reply,
    Refuse(Refusal),
}

/// The view of `SearchStep`.
#[verifier::ext_equal]
pub enum SearchStepView {
    MakePattern(Seq<char>),
    CheckChannel,
    CheckDm,
    FindMatching { at: Where, filter: PatternFilterView },
    Reply,
    Refuse(Refusal),
}

impl View for SearchStep {
    type V = SearchStepView;

    open spec fn view(&self) -> SearchStepView {
        match self {
            SearchStep::MakePattern(a) => SearchStepView::MakePattern(a@),
            SearchStep::CheckChannel => SearchStepView::CheckChannel,
            SearchStep::CheckDm => SearchStepView::CheckDm,
            SearchStep::FindMatching { at, filter } => SearchStepView::FindMatching {
                at: *at,
                filter: filter@,
            },
            SearchStep::Reply => SearchStepView::Reply,
            SearchStep::Refuse(a) => SearchStepView::Refuse(*a),
        }
    }
}

pub open spec fn search_step(
    user: Option<&str>,
    body: SearchMessagesBody,
    pattern: Option<Seq<char>>,
    f: ListFacts,
) -> SearchStepView {
    let query = text::trimmed(text::or_empty(body.query));
    if user is None {
        SearchStepView::Refuse(error(401, "Unauthorized"))
    } else if query.len() < MIN_QUERY_LENGTH {
        SearchStepView::Refuse(titled(400, "QUERY_TOO_SHORT", "Wpisz co najmniej 2 znaki."))
    } else if pattern is None {
        SearchStepView::MakePattern(query)
    } else {
        match entry(text::given(body.channel_id), text::given(body.contact_id), f) {
            Entry::CheckChannel => SearchStepView::CheckChannel,
            Entry::CheckDm => SearchStepView::CheckDm,
            Entry::Refuse(why) => SearchStepView::Refuse(why),
            Entry::Open(at) => match f.found {
                None => SearchStepView::FindMatching { at, filter: pattern_filter(pattern->0) },
                Some(Done::Failed) => SearchStepView::Refuse(error(500, "Internal Server Error")),
                Some(Done::Worked) => SearchStepView::Reply,
            },
        }
    }
}

/// Decides the next step of searching messages.
pub fn search_messages(
    user: Option<&str>,
    body: &SearchMessagesBody,
    pattern: Option<&str>,
    f: &ListFacts,
) -> (r: SearchStep)
    ensures
        r@ == search_step(user, *body, text::opt_str(pattern), *f),
{
    if user.is_none() {
        return SearchStep::Refuse(error(401, "Unauthorized"));
    }
    let query = text::trim(text::text_or_empty(&body.query).as_str());
    if query.as_str().unicode_len() < MIN_QUERY_LENGTH {
        return SearchStep::Refuse(titled(400, "QUERY_TOO_SHORT", "Wpisz co najmniej 2 znaki."));
    }
    let pattern = match pattern {
        None => return SearchStep::MakePattern(query),
        Some(p) => p,
    };
    match enter(text::given_text(&body.channel_id), text::given_text(&body.contact_id), f) {
        Entry::CheckChannel => SearchStep::CheckChannel,
        Entry::CheckDm => SearchStep::CheckDm,
        Entry::Refuse(why) => SearchStep::Refuse(why),
        Entry::Open(at) => match f.found {
            None => SearchStep::FindMatching { at, filter: make_pattern_filter(pattern) },
            Some(Done::Failed) => SearchStep::Refuse(error(500, "Internal Server Error")),
            Some(Done::Worked) => SearchStep::Reply,
        },
    }
}

/// Whether a list can be shown as far as it is known: a channel that is named and open to the user,
/// or else a contact.
pub open spec fn may_enter(
    channel: Option<Seq<char>>,
    contact: Option<Seq<char>>,
    f: ListFacts,
) -> bool {
    if channel is Some {
        ids::oid_of(channel->0) is Some && f.channel_access != Some(false)
    } else {
        contact is Some && (f.dm_access is None || f.dm_access->0 is Granted)
    }
}

/// Whether the user was found to have access.
pub open spec fn is_in(
    channel: Option<Seq<char>>,
    contact: Option<Seq<char>>,
    f: ListFacts,
) -> bool {
    &&& may_enter(channel, contact, f)
    &&& if channel is Some {
        f.channel_access is Some
    } else {
        f.dm_access is Some
    }
}

/// Pinned messages and matches are shown to users with access, in the channel that is named or else with
/// the contact: neither request is refused while nothing fails, and each asks only for what is not known
/// yet.
pub proof fn law_lists_are_shown_with_access(
    user: Option<&str>,
    pinned: PinnedBody,
    search: SearchMessagesBody,
    pattern: Option<Seq<char>>,
    f: ListFacts,
)
    ensures
        ({
            let s = pinned_step(user, pinned, f);
            let channel = text::given(pinned.channel_id);
            let contact = text::given(pinned.contact_id);
            &&& user is Some && may_enter(channel, contact, f) && f.found != Some(Done::Failed) ==> s
                !is Refuse
            &&& user is Some && is_in(channel, contact, f) && f.found is None ==> s is FindPinned
            &&& user is Some && is_in(channel, contact, f) && f.found == Some(Done::Worked) ==> s is
                Reply
            &&& s matches PinnedStep::FindPinned { at, filter } ==> f.found is None && is_in(
                channel,
                contact,
                f,
            ) && filter.pinned && !filter.deleted && filter.newest_by == "pinnedAt" && filter.limit
                == 50
            &&& s is Reply ==> f.found == Some(Done::Worked) && is_in(channel, contact, f)
            &&& s is CheckChannel ==> f.channel_access is None && channel is Some
            &&& s is CheckDm ==> f.dm_access is None && channel is None
        }),
        ({
            let s = search_step(user, search, pattern, f);
            let channel = text::given(search.channel_id);
            let contact = text::given(search.contact_id);
            let query = text::trimmed(text::or_empty(search.query));
            let fits = user is Some && query.len() >= 2;
            &&& fits && may_enter(channel, contact, f) && f.found != Some(Done::Failed) ==> s !is
                Refuse
            &&& fits && pattern is None ==> s == SearchStepView::MakePattern(query)
            &&& fits && pattern is Some && is_in(channel, contact, f) && f.found is None ==> s is
                FindMatching
            &&& fits && pattern is Some && is_in(channel, contact, f) && f.found == Some(Done::Worked)
                ==> s is Reply
            &&& s matches SearchStepView::FindMatching { at, filter } ==> f.found is None && is_in(
                channel,
                contact,
                f,
            ) && pattern is Some && filter.pattern == pattern->0 && filter.kind == "TEXT"
                && !filter.deleted && filter.newest_by == "timestamp" && filter.limit == 50
            &&& s is Reply ==> f.found == Some(Done::Worked) && is_in(channel, contact, f)
            &&& !fits ==> s is Refuse
        }),
{
}

/// Decides the next step of previewing a link.
pub fn link_preview(user: Option<&str>, body: &LinkPreviewBody, f: &PreviewFacts) -> (r: PreviewStep)
    ensures
        r@ == messages::preview_step(user, (messages::LinkPreviewBody { url: body.url }), *f),
{
    let same = messages::LinkPreviewBody { url: body.url.clone() };
    messages::link_preview(user, &same, f)
}

/// Only the sender of a message, who takes part where it stands, has it edited or deleted; and
/// nothing is read without access.
pub proof fn law_rights_come_before_action(
    user: Option<&str>,
    message_id: &str,
    content: &str,
    within_limit: bool,
    room: Room,
    work: EditWork,
    ef: EditFacts,
    file_url: Option<Seq<char>>,
    df: DeleteFacts,
    pinned: PinnedBody,
    search: SearchMessagesBody,
    pattern: Option<Seq<char>>,
    lf: ListFacts,
)
    ensures
        edit_step(user, message_id, content, within_limit, room, work, ef) is Write ==> user is Some
            && ids::hex_of(ef.message->0->0.sender) == user->0@ && ef.access == Some(Access::Granted),
        delete_step(user, message_id, file_url, df) is DeleteAndReply ==> user is Some && ids::hex_of(
            df.message->0->0.sender,
        ) == user->0@ && df.access == Some(Access::Granted),
        pinned_step(user, pinned, lf) matches PinnedStep::FindPinned { at, .. } ==> user is Some
            && reads_with_access(at, text::given(pinned.channel_id), lf),
        search_step(user, search, pattern, lf) matches SearchStepView::FindMatching { at, .. } ==> user is Some
            && reads_with_access(at, text::given(search.channel_id), lf),
{
}

/// Access was granted to the place that messages are read from.
pub open spec fn reads_with_access(at: Where, channel: Option<Seq<char>>, f: ListFacts) -> bool {
    match at {
        Where::Channel(c) => f.channel_access == Some(true) && channel is Some && ids::oid_of(
            channel->0,
        ) == Some(c),
        Where::Dm { me, other } => f.dm_access == Some(Reading::Granted { me, other }),
    }
}

/// Everyone is mentioned by an edit in a channel only, and nobody at all where nobody could be
/// looked up.
pub proof fn law_edit_mentions_within_reach(work: EditWork, can_mention: bool, in_channel: bool)
    ensures
        edit_patch(work, can_mention, in_channel).mentions_everyone ==> in_channel && can_mention,
        !can_mention ==> edit_patch(work, can_mention, in_channel).mentions.len() == 0,
{
}

} // verus!
