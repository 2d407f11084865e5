//! Channel requests of clients that are told of no temporary outages: what cannot be loaded
//! counts as missing, and a change counts as made once it was attempted.

use vstd::prelude::*;

use crate::controllers::channels;
use crate::controllers::channels::{
    Aftermath, AftermathView, AvatarFacts, AvatarStep, AvatarStepView, ChannelChangeView,
    ListedChannel, Moderated, ModerationFacts, ModerationStep, MuteStep, OwnChannel, OwnerFacts,
    OwnerStep, OwnerStepView, Pictures, ReportFacts, ReportStep, ViewFacts, ViewStep, is_listed,
    message_unavailable, no_channel_access,
};
use crate::ids;
use crate::ids::{Oid, is_hex_of, parse_oid};
use crate::lists;
use crate::query;
use crate::reply::{Access, Done, Lookup, Refusal, error, message};
use crate::text;

verus! {

pub const DEFAULT_CHANNEL_MESSAGE_LIMIT: i64 = 30;

pub const MAX_CHANNEL_MESSAGE_LIMIT: i64 = 50;

/// Request for a new channel.
pub struct CreateChannelBody {
    pub name: Option<String>,
    pub members: Option<Vec<String>>,
}

/// A new name for a channel.
pub struct RenameBody {
    pub name: Option<String>,
}

/// A new pause between the messages of a member.
pub struct SlowmodeBody {
    pub rate_limit_per_user: Option<u32>,
}

/// Whether writing in a channel is locked.
pub struct ChatLockBody {
    pub chat_locked: Option<bool>,
}

/// The user to add to a channel.
pub struct AddUserBody {
    pub user_id_to_add: Option<String>,
}

/// The bot to add to a channel.
pub struct AddBotBody {
    pub bot_id: Option<String>,
}

/// The user whom a moderation request is about.
pub struct TargetUserBody {
    pub user_id: Option<String>,
    /// How long it lasts in seconds; for good where it is absent or zero.
    pub duration_seconds: Option<u64>,
}

/// A report of a channel.
pub struct ReportBody {
    pub reason: Option<String>,
    pub details: Option<String>,
}

/// What cannot be loaded counts as missing.
pub open spec fn or_missing<T>(l: Option<Lookup<T>>) -> Option<Lookup<T>> {
    match l {
        Some(Lookup::Failed) => Some(Lookup::Missing),
        l => l,
    }
}

/// What was attempted counts as done.
pub open spec fn attempted(d: Option<Done>) -> Option<Done> {
    match d {
        None => None,
        Some(_) => Some(Done::Worked),
    }
}

fn found_or_missing<T: Copy>(l: Option<Lookup<T>>) -> (r: Option<Lookup<T>>)
    ensures
        r == or_missing(l),
{
    match l {
        Some(Lookup::Failed) => Some(Lookup::Missing),
        l => l,
    }
}

fn once_attempted(d: Option<Done>) -> (r: Option<Done>)
    ensures
        r == attempted(d),
{
    match d {
        None => None,
        Some(_) => Some(Done::Worked),
    }
}

fn user_or_empty(user: Option<&str>) -> (r: String)
    ensures
        r@ == channels::user_text(user),
{
    match user {
        None => String::new(),
        Some(u) => u.to_owned(),
    }
}

/// What is known while a channel is created.
#[derive(Clone, Copy, Debug)]
pub struct CreateFacts {
    pub user: Option<Lookup<()>>,
    /// The named members were looked up; how many accounts were found.
    pub members: Option<Lookup<usize>>,
    /// The channel was created; whether it carries an identifier.
    pub created: Option<Lookup<bool>>,
}

/// What to do next while a channel is created.
#[derive(Debug, PartialEq, Eq)]
pub enum CreateStep {
    LoadUser(Oid),
    /// Find the accounts of the named members.
    FindMembers(Vec<Oid>),
    /// Ask whether the user and this member are friends.
    AskFriend(usize),
    /// Create the channel, without a description or a picture.
    Create { owner: Oid, name: String, members: Vec<Oid> },
    /// Tell these of the channel, and reply with it.
    TellAndReply { to: Vec<Oid>, event: &'static str },
    Refuse(Refusal),
}

/// The view of `CreateStep`.
#[verifier::ext_equal]
pub enum CreateStepView {
    LoadUser(Oid),
    FindMembers(Seq<Oid>),
    AskFriend(usize),
    Create { owner: Oid, name: Seq<char>, members: Seq<Oid> },
    TellAndReply { to: Seq<Oid>, event: &'static str },
    Refuse(Refusal),
}

impl View for CreateStep {
    type V = CreateStepView;

    open spec fn view(&self) -> CreateStepView {
        match self {
            CreateStep::LoadUser(a) => CreateStepView::LoadUser(*a),
            CreateStep::FindMembers(a) => CreateStepView::FindMembers(a@),
            CreateStep::AskFriend(a) => CreateStepView::AskFriend(*a),
            CreateStep::Create { owner, name, members } => CreateStepView::Create {
                owner: *owner,
                name: name@,
                members: members@,
            },
            CreateStep::TellAndReply { to, event } => CreateStepView::TellAndReply {
                to: to@,
                event: *event,
            },
            CreateStep::Refuse(a) => CreateStepView::Refuse(*a),
        }
    }
}

/// The first member at or after `from` who is not the user and not known to be a friend.
pub open spec fn first_not_friend(
    members: Seq<Oid>,
    user: Seq<char>,
    friends: Seq<bool>,
    from: int,
) -> int
    decreases members.len() - from,
{
    if from < 0 || from >= members.len() {
        members.len() as int
    } else if ids::hex_of(members[from]) == user || (from < friends.len() && friends[from]) {
        first_not_friend(members, user, friends, from + 1)
    } else {
        from
    }
}

pub open spec fn create_step(
    user: Option<&str>,
    body: CreateChannelBody,
    members: Seq<Oid>,
    friends: Seq<bool>,
    made: Seq<Oid>,
    f: CreateFacts,
) -> CreateStepView {
    let uid = ids::oid_of(channels::user_text(user));
    let named = match body.members {
        None => 0,
        Some(m) => m@.len(),
    };
    let at = first_not_friend(members, channels::user_text(user), friends, 0);
    if uid is None {
        CreateStepView::Refuse(message(400, "Admin user not found."))
    } else if f.user is None {
        CreateStepView::LoadUser(uid->0)
    } else if f.user->0 !is Found {
        CreateStepView::Refuse(message(400, "Admin user not found."))
    } else if named > 0 && f.members is None {
        CreateStepView::FindMembers(
            match body.members {
                None => Seq::empty(),
                Some(m) => channels::spelled_ids(text::texts(m@)),
            },
        )
    } else if named > 0 && f.members->0 is Failed {
        CreateStepView::Refuse(message(500, "Internal Server Error"))
    } else if named > 0 && f.members->0 != Lookup::Found(named as usize) {
        CreateStepView::Refuse(message(400, "Some members are not valid users."))
    } else if named > 0 && at < members.len() && at >= friends.len() {
        CreateStepView::AskFriend(at as usize)
    } else if named > 0 && at < members.len() {
        CreateStepView::Refuse(message(403, "Możesz dodawać do kanału tylko swoich znajomych."))
    } else {
        match f.created {
            None => CreateStepView::Create {
                owner: uid->0,
                name: text::or_empty(body.name),
                members: if named > 0 {
                    members
                } else {
                    Seq::empty()
                },
            },
            Some(Lookup::Found(has_id)) => CreateStepView::TellAndReply {
                to: if has_id {
                    channels::told_of_channel(made, channels::user_text(user))
                } else {
                    Seq::empty()
                },
                event: "channel-added",
            },
            Some(_) => CreateStepView::Refuse(message(500, "Internal Server Error")),
        }
    }
}

/// Decides the next step of creating a channel. `members` are the accounts found for the named
/// members, `friends` what is known of which of them are friends, from the first on,
/// `made` the members of the channel once it was created.
pub fn create_channel(
    user: Option<&str>,
    body: &CreateChannelBody,
    members: &Vec<Oid>,
    friends: &Vec<bool>,
    made: &Vec<Oid>,
    f: &CreateFacts,
) -> (r: CreateStep)
    ensures
        r@ == create_step(user, *body, members@, friends@, made@, *f),
{
    let me = user_or_empty(user);
    let uid = match parse_oid(me.as_str()) {
        None => return CreateStep::Refuse(message(400, "Admin user not found.")),
        Some(id) => id,
    };
    match f.user {
        None => return CreateStep::LoadUser(uid),
        Some(Lookup::Found(_)) => {},
        _ => return CreateStep::Refuse(message(400, "Admin user not found.")),
    }
    let named: usize = match &body.members {
        None => 0,
        Some(m) => m.len(),
    };
    if named > 0 {
        match f.members {
            None => return CreateStep::FindMembers(
                match &body.members {
                    None => Vec::new(),
                    Some(m) => channels::parse_ids(m),
                },
            ),
            Some(Lookup::Failed) => {
                return CreateStep::Refuse(message(500, "Internal Server Error"));
            },
            Some(Lookup::Missing) => {
                return CreateStep::Refuse(message(400, "Some members are not valid users."));
            },
            Some(Lookup::Found(found)) => {
                if found != named {
                    return CreateStep::Refuse(message(400, "Some members are not valid users."));
                }
            },
        }
        let mut i: usize = 0;
        while i < members.len() && (is_hex_of(members[i], me.as_str()) || (i < friends.len()
            && friends[i]))
            invariant
                i <= members.len(),
                me@ == channels::user_text(user),
                first_not_friend(members@, me@, friends@, 0) == first_not_friend(
                    members@,
                    me@,
                    friends@,
                    i as int,
                ),
            decreases members.len() - i,
        {
            i += 1;
        }
        if i < members.len() {
            return if i >= friends.len() {
                CreateStep::AskFriend(i)
            } else {
                CreateStep::Refuse(message(403, "Możesz dodawać do kanału tylko swoich znajomych."))
            };
        }
    }
    match f.created {
        None => CreateStep::Create {
            owner: uid,
            name: text::text_or_empty(&body.name),
            members: if named > 0 {
                lists::copy_oids(members)
            } else {
                Vec::new()
            },
        },
        Some(Lookup::Found(has_id)) => CreateStep::TellAndReply {
            to: if has_id {
                channels::members_to_tell(made, me.as_str())
            } else {
                Vec::new()
            },
            event: "channel-added",
        },
        Some(_) => CreateStep::Refuse(message(500, "Internal Server Error")),
    }
}

/// A channel is created only once every member is known to be the creator or a friend.
pub proof fn law_channel_is_created_with_friends_only(
    user: Option<&str>,
    body: CreateChannelBody,
    members: Seq<Oid>,
    friends: Seq<bool>,
    made: Seq<Oid>,
    f: CreateFacts,
)
    requires
        create_step(user, body, members, friends, made, f) is Create,
        body.members is Some && body.members->0@.len() > 0,
    ensures
        forall|i: int|
            0 <= i < members.len() ==> ids::hex_of(#[trigger] members[i]) == channels::user_text(user) || (i
                < friends.len() && friends[i]),
{
    lemma_all_friends(members, channels::user_text(user), friends, 0);
}

proof fn lemma_first_not_friend(members: Seq<Oid>, user: Seq<char>, friends: Seq<bool>, from: int)
    requires
        0 <= from <= members.len(),
    ensures
        ({
            let at = first_not_friend(members, user, friends, from);
            &&& from <= at <= members.len()
            &&& at < members.len() ==> ids::hex_of(members[at]) != user && (at >= friends.len()
                || !friends[at])
        }),
    decreases members.len() - from,
{
    if from < members.len() {
        lemma_first_not_friend(members, user, friends, from + 1);
    }
}

/// A known user can create a channel, alone or with friends: the request is not refused while nothing
/// fails, the channel is created as it was asked for, and told of only where it was created.
pub proof fn law_channel_with_friends_is_created(
    user: Option<&str>,
    body: CreateChannelBody,
    members: Seq<Oid>,
    friends: Seq<bool>,
    made: Seq<Oid>,
    f: CreateFacts,
)
    requires
        ids::oid_of(channels::user_text(user)) is Some,
        members.len() <= usize::MAX,
    ensures
        ({
            let s = create_step(user, body, members, friends, made, f);
            let uid = ids::oid_of(channels::user_text(user))->0;
            let alone = body.members is None || body.members->0@.len() == 0;
            let all_found = f.members == Some(Lookup::Found(body.members->0@.len() as usize));
            let all_friends = friends.len() >= members.len() && forall|i: int|
                0 <= i < members.len() ==> ids::hex_of(#[trigger] members[i]) == channels::user_text(
                    user,
                ) || friends[i];
            let known = f.user is Some && f.user->0 is Found;
            &&& f.user is None ==> s == CreateStepView::LoadUser(uid)
            &&& known && (alone || (all_found && all_friends)) && f.created is None ==> s == (
            CreateStepView::Create {
                owner: uid,
                name: text::or_empty(body.name),
                members: if alone {
                    Seq::empty()
                } else {
                    members
                },
            })
            &&& known && (alone || (all_found && all_friends)) && f.created is Some && f.created->0 is
                Found ==> s is TellAndReply
            &&& known && !alone && f.members is None ==> s == CreateStepView::FindMembers(
                channels::spelled_ids(text::texts(body.members->0@)),
            )
            &&& s matches CreateStepView::TellAndReply { to, event } ==> event == "channel-added"
                && f.created is Some && f.created->0 is Found && (!f.created->0->0 ==> to.len() == 0)
                && (f.created->0->0 ==> to == channels::told_of_channel(
                made,
                channels::user_text(user),
            ))
            &&& s is Create ==> f.created is None && known && (alone || all_found)
            &&& s matches CreateStepView::AskFriend(i) ==> friends.len() <= i < members.len()
            &&& s matches CreateStepView::Refuse(r) ==> {
                &&& r.status == 400 ==> f.user->0 !is Found || (!alone && !all_found)
                &&& r.status == 403 ==> !alone && !all_friends
                &&& r.status == 400 || r.status == 403 || r.status == 500
            }
        }),
{
    lemma_first_not_friend(members, channels::user_text(user), friends, 0);
}

proof fn lemma_all_friends(members: Seq<Oid>, user: Seq<char>, friends: Seq<bool>, from: int)
    requires
        0 <= from <= members.len(),
        first_not_friend(members, user, friends, from) >= members.len(),
    ensures
        forall|i: int|
            from <= i < members.len() ==> ids::hex_of(#[trigger] members[i]) == user || (i
                < friends.len() && friends[i]),
    decreases members.len() - from,
{
    if from < members.len() {
        lemma_all_friends(members, user, friends, from + 1);
    }
}

/// What to do next while the channels of a user are listed.
#[derive(Debug, PartialEq, Eq)]
pub enum ChannelsStep {
    FindChannels(Oid),
    /// Reply with the channels, in this order.
    Reply(Vec<ListedChannel>),
    Refuse(Refusal),
}

/// The view of `ChannelsStep`.
#[verifier::ext_equal]
pub enum ChannelsStepView {
    FindChannels(Oid),
    Reply(Seq<ListedChannel>),
    Refuse(Refusal),
}

impl View for ChannelsStep {
    type V = ChannelsStepView;

    open spec fn view(&self) -> ChannelsStepView {
        match self {
            ChannelsStep::FindChannels(a) => ChannelsStepView::FindChannels(*a),
            ChannelsStep::Reply(a) => ChannelsStepView::Reply(a@),
            ChannelsStep::Refuse(a) => ChannelsStepView::Refuse(*a),
        }
    }
}

/// The channels that a user has muted: none where the account could not be loaded.
pub open spec fn muted_channels(muted: Option<Vec<Oid>>) -> Seq<Oid> {
    match muted {
        None => Seq::empty(),
        Some(list) => list@,
    }
}

/// Decides the next step of listing the channels of a user: `all` are those, as they were found,
/// `muted` the ones that the user has muted, if the account could be loaded.
pub fn get_user_channels(
    user: Option<&str>,
    all: &Vec<OwnChannel>,
    muted: &Option<Vec<Oid>>,
    found: Option<Done>,
) -> (r: ChannelsStep)
    ensures
        ({
            let uid = ids::oid_of(channels::user_text(user));
            if uid is None || found == Some(Done::Failed) {
                r@ == ChannelsStepView::Refuse(message(500, "Internal Server Error"))
            } else if found is None {
                r@ == ChannelsStepView::FindChannels(uid->0)
            } else {
                r is Reply && channels::is_channel_list(
                    all@,
                    muted_channels(*muted),
                    r->Reply_0@,
                )
            }
        }),
{
    let uid = match parse_oid(user_or_empty(user).as_str()) {
        None => return ChannelsStep::Refuse(message(500, "Internal Server Error")),
        Some(id) => id,
    };
    match found {
        None => ChannelsStep::FindChannels(uid),
        Some(Done::Failed) => ChannelsStep::Refuse(message(500, "Internal Server Error")),
        Some(Done::Worked) => match muted {
            None => ChannelsStep::Reply(channels::list_channels(all, &Vec::new())),
            Some(list) => ChannelsStep::Reply(channels::list_channels(all, list)),
        },
    }
}

/// What to do next for a page of a channel.
#[derive(Clone, Copy, Debug, PartialEq, Eq)]
pub enum ChannelPageStep {
    CheckAccess,
    /// Fetch the newest of the channel's messages that are not deleted, at most `fetch`.
    Find { before: Option<Oid>, fetch: i64 },
    Page { limit: i64 },
    Refuse(Refusal),
}

pub open spec fn channel_page_step(
    limit: Option<Seq<char>>,
    before: Option<Seq<char>>,
    f: channels::ChannelPageFacts,
) -> ChannelPageStep {
    let size = channels::channel_page_size(limit);
    let at = channels::position_text(before);
    if f.access is None {
        ChannelPageStep::CheckAccess
    } else if f.access->0 is Unavailable {
        ChannelPageStep::Refuse(message(404, f.access->0->Unavailable_0))
    } else if f.access->0 is Denied {
        ChannelPageStep::Refuse(message(404, f.access->0->Denied_0))
    } else if at is Some && ids::oid_of(at->0) is None {
        ChannelPageStep::Refuse(message(400, "Invalid cursor"))
    } else if f.page is None {
        ChannelPageStep::Find {
            before: if at is Some {
                ids::oid_of(at->0)
            } else {
                None
            },
            fetch: (size + 1) as i64,
        }
    } else if f.page->0 is Failed {
        ChannelPageStep::Refuse(message(500, "Internal Server Error"))
    } else {
        ChannelPageStep::Page { limit: size }
    }
}

/// Decides the next step of reading a page of a channel; `query` is the query of the request.
pub fn get_channel_messages(query: &str, f: &channels::ChannelPageFacts) -> (r: ChannelPageStep)
    ensures
        r == channel_page_step(
            query::form_value(query@, "limit"@),
            query::form_value(query@, "before"@),
            *f,
        ),
{
    let limit = query::read_form_value(query, "limit");
    let before = query::read_form_value(query, "before");
    show_channel_page(text::as_opt_str(&limit), text::as_opt_str(&before), f)
}

/// Decides the next step of reading a page of a channel. `limit` and `before` are members of
/// the query.
pub fn show_channel_page(
    limit: Option<&str>,
    before: Option<&str>,
    f: &channels::ChannelPageFacts,
) -> (r: ChannelPageStep)
    ensures
        r == channel_page_step(text::opt_str(limit), text::opt_str(before), *f),
{
    match f.access {
        None => return ChannelPageStep::CheckAccess,
        Some(Access::Unavailable(why)) => return ChannelPageStep::Refuse(message(404, why)),
        Some(Access::Denied(why)) => return ChannelPageStep::Refuse(message(404, why)),
        Some(Access::Granted) => {},
    }
    let n: i64 = match limit {
        None => DEFAULT_CHANNEL_MESSAGE_LIMIT,
        Some(s) => match text::parse_i64(s) {
            None => DEFAULT_CHANNEL_MESSAGE_LIMIT,
            Some(n) => n,
        },
    };
    let size: i64 = if n < 1 {
        1
    } else if n > MAX_CHANNEL_MESSAGE_LIMIT {
        MAX_CHANNEL_MESSAGE_LIMIT
    } else {
        n
    };
    let mut at: Option<Oid> = None;
    if let Some(s) = before {
        let t = text::trim(s);
        if !t.as_str().is_empty() {
            match parse_oid(t.as_str()) {
                None => return ChannelPageStep::Refuse(message(400, "Invalid cursor")),
                Some(id) => {
                    at = Some(id);
                },
            }
        }
    }
    match f.page {
        None => ChannelPageStep::Find { before: at, fetch: size + 1 },
        Some(Done::Failed) => ChannelPageStep::Refuse(message(500, "Internal Server Error")),
        Some(Done::Worked) => ChannelPageStep::Page { limit: size },
    }
}

/// A page of a channel is shown to users with access, and to nobody else: the newest messages before the
/// position, if one is given, one more than the page holds.
pub proof fn law_channel_page_is_shown(
    limit: Option<Seq<char>>,
    before: Option<Seq<char>>,
    f: channels::ChannelPageFacts,
)
    ensures
        ({
            let s = channel_page_step(limit, before, f);
            let size = channels::channel_page_size(limit);
            let from_start = before is None || text::trimmed(before->0).len() == 0;
            let fits = from_start || ids::oid_of(text::trimmed(before->0)) is Some;
            &&& s is CheckAccess <==> f.access is None
            &&& f.access == Some(Access::Granted) && fits && f.page is None <==> s is Find
            &&& s is Find ==> s == (ChannelPageStep::Find {
                before: if from_start {
                    None
                } else {
                    ids::oid_of(text::trimmed(before->0))
                },
                fetch: (size + 1) as i64,
            })
            &&& f.access == Some(Access::Granted) && fits && f.page == Some(Done::Worked) <==> s is
                Page
            &&& s is Page ==> s == (ChannelPageStep::Page { limit: size })
        }),
{
}

/// Decides the next step of showing a channel.
pub fn get_channel_details(channel_id: &str, channel: Option<Lookup<bool>>) -> (r: ViewStep)
    ensures
        r == ({
            let cid = ids::oid_of(channel_id@);
            if cid is None {
                ViewStep::Refuse(no_channel_access())
            } else if channel is None {
                ViewStep::LoadChannel(cid->0)
            } else if channel->0 != Lookup::Found(true) {
                ViewStep::Refuse(no_channel_access())
            } else {
                ViewStep::Reply(cid->0)
            }
        }),
        r is Reply <==> ids::oid_of(channel_id@) is Some && channel == Some(Lookup::Found(true)),
        r is LoadChannel <==> ids::oid_of(channel_id@) is Some && channel is None,
{
    let cid = match parse_oid(channel_id) {
        None => return ViewStep::Refuse(no_channel_access()),
        Some(id) => id,
    };
    match channel {
        None => ViewStep::LoadChannel(cid),
        Some(Lookup::Found(true)) => ViewStep::Reply(cid),
        _ => ViewStep::Refuse(no_channel_access()),
    }
}

/// What is known, where what cannot be loaded counts as missing and an attempt as a change.
pub open spec fn tolerant_owner(f: OwnerFacts) -> OwnerFacts {
    OwnerFacts { channel: or_missing(f.channel), stored: attempted(f.stored) }
}

fn tolerate_owner(f: &OwnerFacts) -> (r: OwnerFacts)
    ensures
        r == tolerant_owner(*f),
{
    OwnerFacts { channel: found_or_missing(f.channel), stored: once_attempted(f.stored) }
}

/// The name that a request gives a channel.
pub fn channel_name(body: &RenameBody) -> (r: String)
    ensures
        r@ == text::trimmed(text::or_empty(body.name)),
{
    text::trim(text::text_or_empty(&body.name).as_str())
}

/// Decides the next step of renaming a channel.
pub fn rename_channel(user: Option<&str>, channel_id: &str, body: &RenameBody, f: &OwnerFacts) -> (r:
    OwnerStep)
    ensures
        r@ == ({
            let name = text::trimmed(text::or_empty(body.name));
            if name.len() < 3 || name.len() > 50 {
                OwnerStepView::Refuse(error(400, "Nazwa kanału musi mieć od 3 do 50 znaków"))
            } else {
                channels::owner_step(
                    ChannelChangeView::Rename(name),
                    user,
                    channel_id,
                    error(404, "Kanał nie istnieje"),
                    crate::reply::unavailable(),
                    error(403, "Tylko administrator może zmienić nazwę kanału"),
                    crate::reply::again(error(500, "Failed to rename channel")),
                    tolerant_owner(*f),
                )
            }
        }),
        ids::oid_of(channel_id@) is Some && f.channel is Some && f.channel->0 is Found && ids::hex_of(
            f.channel->0->0,
        ) == channels::user_text(user) && 3 <= text::trimmed(text::or_empty(body.name)).len() <= 50 ==> (f.stored is None ==> r@ == (OwnerStepView::Store {
            channel: ids::oid_of(channel_id@)->0,
            change: ChannelChangeView::Rename(text::trimmed(text::or_empty(body.name))),
        })) && (f.stored is Some ==> r@ is TellAndReply),
        r@ is Store || r@ is TellAndReply ==> f.channel is Some && f.channel->0 is Found && ids::hex_of(
            f.channel->0->0,
        ) == channels::user_text(user) && 3 <= text::trimmed(text::or_empty(body.name)).len() <= 50,
{
    let known = tolerate_owner(f);
    channels::rename_channel(user, channel_id, channel_name(body).as_str(), &known)
}

/// Decides the next step of setting the pause between messages.
pub fn update_channel_slowmode(
    user: Option<&str>,
    channel_id: &str,
    body: &SlowmodeBody,
    f: &OwnerFacts,
) -> (r: OwnerStep)
    ensures
        r@ == ({
            let seconds = match body.rate_limit_per_user {
                None => 0u32,
                Some(n) => n,
            };
            if seconds > 21_600 {
                OwnerStepView::Refuse(
                    error(400, "Slowmode nie może przekraczać 21600 sekund (6 godzin)."),
                )
            } else {
                channels::owner_step(
                    ChannelChangeView::Slowmode(seconds),
                    user,
                    channel_id,
                    error(404, "Kanał nie istnieje"),
                    crate::reply::unavailable(),
                    error(403, "Tylko administrator może zmienić slowmode kanału."),
                    crate::reply::again(error(500, "Failed to update slowmode")),
                    tolerant_owner(*f),
                )
            }
        }),
        ids::oid_of(channel_id@) is Some && f.channel is Some && f.channel->0 is Found && ids::hex_of(
            f.channel->0->0,
        ) == channels::user_text(user) ==> (body.rate_limit_per_user is None && f.stored is None ==> r@ == (
        OwnerStepView::Store {
            channel: ids::oid_of(channel_id@)->0,
            change: ChannelChangeView::Slowmode(0),
        })) && (body.rate_limit_per_user is Some && body.rate_limit_per_user->0 <= 21_600
            && f.stored is None ==> r@ == (OwnerStepView::Store {
            channel: ids::oid_of(channel_id@)->0,
            change: ChannelChangeView::Slowmode(body.rate_limit_per_user->0),
        })) && ((body.rate_limit_per_user is None || body.rate_limit_per_user->0 <= 21_600)
            && f.stored is Some ==> r@ is TellAndReply),
        r@ is Store || r@ is TellAndReply ==> f.channel is Some && f.channel->0 is Found && ids::hex_of(
            f.channel->0->0,
        ) == channels::user_text(user) && (body.rate_limit_per_user is Some ==> body.rate_limit_per_user->0
            <= 21_600),
{
    let known = tolerate_owner(f);
    let same = channels::SlowmodeBody { rate_limit_per_user: body.rate_limit_per_user };
    channels::update_channel_slowmode(user, channel_id, &same, &known)
}

/// Decides the next step of locking or unlocking a channel.
pub fn update_channel_chat_lock(
    user: Option<&str>,
    channel_id: &str,
    body: &ChatLockBody,
    f: &OwnerFacts,
) -> (r: OwnerStep)
    ensures
        r@ == channels::owner_step(
            ChannelChangeView::Lock(body.chat_locked == Some(true)),
            user,
            channel_id,
            error(404, "Kanał nie istnieje"),
            crate::reply::unavailable(),
            error(403, "Tylko administrator może zablokować lub odblokować czat kanału."),
            crate::reply::again(error(500, "Failed to update chat lock")),
            tolerant_owner(*f),
        ),
        ids::oid_of(channel_id@) is Some && f.channel is Some && f.channel->0 is Found && ids::hex_of(
            f.channel->0->0,
        ) == channels::user_text(user) ==> (f.stored is None ==> r@ == (OwnerStepView::Store {
            channel: ids::oid_of(channel_id@)->0,
            change: ChannelChangeView::Lock((body.chat_locked == Some(true))),
        })) && (f.stored is Some ==> r@ is TellAndReply),
        r@ is Store || r@ is TellAndReply ==> f.channel is Some && f.channel->0 is Found && ids::hex_of(
            f.channel->0->0,
        ) == channels::user_text(user),
{
    let known = tolerate_owner(f);
    let same = channels::ChatLockBody { chat_locked: body.chat_locked };
    channels::update_channel_chat_lock(user, channel_id, &same, &known)
}

/// What is known of a picture, where what cannot be loaded counts as missing and an attempt as a
/// change.
pub open spec fn tolerant_avatar(f: AvatarFacts) -> AvatarFacts {
    AvatarFacts { channel: or_missing(f.channel), stored: attempted(f.stored), ..f }
}

fn tolerate_avatar(f: &AvatarFacts) -> (r: AvatarFacts)
    ensures
        r == tolerant_avatar(*f),
{
    AvatarFacts {
        channel: found_or_missing(f.channel),
        stored: once_attempted(f.stored),
        ..*f
    }
}

/// Decides the next step of taking the picture of a channel away.
pub fn delete_channel_avatar(
    user: Option<&str>,
    channel_id: &str,
    previous: &str,
    f: &AvatarFacts,
) -> (r: AvatarStep)
    ensures
        r@ == channels::delete_avatar_step(user, channel_id, previous@, tolerant_avatar(*f)),
{
    let known = tolerate_avatar(f);
    channels::delete_channel_avatar(user, channel_id, previous, &known)
}

/// The steps of setting the picture of a channel, with a limit of five megabytes.
pub open spec fn upload_avatar_step(
    user: Option<&str>,
    channel_id: &str,
    pictures: Pictures,
    f: AvatarFacts,
) -> AvatarStepView {
    match channels::upload_avatar_step(user, channel_id, pictures, f) {
        AvatarStepView::Refuse(r) => if r.status == 413 {
            AvatarStepView::Refuse(message(413, "File too large. Maximum size is 5 MB."))
        } else {
            AvatarStepView::Refuse(r)
        },
        s => s,
    }
}

/// Decides the next step of setting the picture of a channel.
pub fn upload_channel_avatar(
    user: Option<&str>,
    channel_id: &str,
    pictures: &Pictures,
    f: &AvatarFacts,
) -> (r: AvatarStep)
    ensures
        r@ == upload_avatar_step(user, channel_id, *pictures, tolerant_avatar(*f)),
        r@ matches AvatarStepView::Refuse(refusal) ==> refusal.status == 413 ==> refusal == message(
            413,
            "File too large. Maximum size is 5 MB.",
        ),
        r@ !is Refuse ==> r@ == channels::upload_avatar_step(
            user,
            channel_id,
            *pictures,
            tolerant_avatar(*f),
        ),
{
    let known = tolerate_avatar(f);
    match channels::upload_channel_avatar(user, channel_id, pictures, &known) {
        AvatarStep::Refuse(r) => if r.status == 413 {
            AvatarStep::Refuse(message(413, "File too large. Maximum size is 5 MB."))
        } else {
            AvatarStep::Refuse(r)
        },
        s => s,
    }
}

/// The owner changes the picture of a channel as in the other interface; only the refusal of a large file is
/// worded otherwise.
pub proof fn law_owner_changes_the_picture(
    user: Option<&str>,
    channel_id: &str,
    pictures: Pictures,
    f: AvatarFacts,
)
    ensures
        ({
            let s = upload_avatar_step(user, channel_id, pictures, f);
            let other = channels::upload_avatar_step(user, channel_id, pictures, f);
            &&& other !is Refuse ==> s == other
            &&& s is Refuse <==> other is Refuse
            &&& s is Refuse ==> s->Refuse_0.status == other->Refuse_0.status
        }),
{
}

/// What to do next while a user leaves a channel.
#[derive(Debug, PartialEq, Eq)]
pub enum LeaveStep {
    Load(Oid),
    /// Take the user from the members, where the user has an identifier; tell `to` of the channel,
    /// and reply.
    LeaveAndReply {
        channel: Oid,
        user: Option<Oid>,
        to: String,
        event: &'static str,
        reply: &'static str,
    },
    Refuse(Refusal),
}

/// The view of `LeaveStep`.
#[verifier::ext_equal]
pub enum LeaveStepView {
    Load(Oid),
    LeaveAndReply {
        channel: Oid,
        user: Option<Oid>,
        to: Seq<char>,
        event: &'static str,
        reply: &'static str,
    },
    Refuse(Refusal),
}

impl View for LeaveStep {
    type V = LeaveStepView;

    open spec fn view(&self) -> LeaveStepView {
        match self {
            LeaveStep::Load(a) => LeaveStepView::Load(*a),
            LeaveStep::LeaveAndReply { channel, user, to, event, reply } => LeaveStepView::LeaveAndReply {
                channel: *channel,
                user: *user,
                to: to@,
                event: *event,
                reply: *reply,
            },
            LeaveStep::Refuse(a) => LeaveStepView::Refuse(*a),
        }
    }
}

/// Decides the next step of leaving a channel.
pub fn leave_channel(user: Option<&str>, channel_id: &str, channel: Option<Lookup<Oid>>) -> (r: LeaveStep)
    ensures
        r@ == ({
            let cid = ids::oid_of(channel_id@);
            if cid is None {
                LeaveStepView::Refuse(message(404, "Channel not found"))
            } else if channel is None {
                LeaveStepView::Load(cid->0)
            } else if channel->0 !is Found {
                LeaveStepView::Refuse(message(404, "Channel not found"))
            } else if ids::hex_of(channel->0->0) == channels::user_text(user) {
                LeaveStepView::Refuse(message(403, "Admin cannot leave channel. Delete instead."))
            } else {
                LeaveStepView::LeaveAndReply {
                    channel: cid->0,
                    user: ids::oid_of(channels::user_text(user)),
                    to: channels::user_text(user),
                    event: "channel-left",
                    reply: "Left channel",
                }
            }
        }),
        ids::oid_of(channel_id@) is Some && channel is Some && channel->0 is Found && ids::hex_of(
            channel->0->0,
        ) != channels::user_text(user) <==> r@ is LeaveAndReply,
        r@ matches LeaveStepView::LeaveAndReply { channel: c, user: u, to, event, .. }
            ==> ids::oid_of(channel_id@) == Some(c) && u == ids::oid_of(channels::user_text(user))
            && to == channels::user_text(user) && event == "channel-left",
{
    let cid = match parse_oid(channel_id) {
        None => return LeaveStep::Refuse(message(404, "Channel not found")),
        Some(id) => id,
    };
    let admin = match channel {
        None => return LeaveStep::Load(cid),
        Some(Lookup::Found(a)) => a,
        _ => return LeaveStep::Refuse(message(404, "Channel not found")),
    };
    let me = user_or_empty(user);
    if is_hex_of(admin, me.as_str()) {
        return LeaveStep::Refuse(message(403, "Admin cannot leave channel. Delete instead."));
    }
    LeaveStep::LeaveAndReply {
        channel: cid,
        user: parse_oid(me.as_str()),
        to: me,
        event: "channel-left",
        reply: "Left channel",
    }
}

/// What is known while a user is added to a channel.
#[derive(Clone, Copy, Debug)]
pub struct AddFacts {
    pub channel: Option<Lookup<Oid>>,
    pub banned: bool,
    pub friends: Option<bool>,
}

/// What to do next while a user is added to a channel.
#[derive(Debug, PartialEq, Eq)]
pub enum AddStep {
    Load(Oid),
    AskFriends,
    /// Add the user, tell `to` of the channel, and reply.
    AddAndReply { channel: Oid, user: Oid, to: String, event: &'static str, reply: &'static str },
    Refuse(Refusal),
}

/// The view of `AddStep`.
#[verifier::ext_equal]
pub enum AddStepView {
    Load(Oid),
    AskFriends,
    AddAndReply {
        channel: Oid,
        user: Oid,
        to: Seq<char>,
        event: &'static str,
        reply: &'static str,
    },
    Refuse(Refusal),
}

impl View for AddStep {
    type V = AddStepView;

    open spec fn view(&self) -> AddStepView {
        match self {
            AddStep::Load(a) => AddStepView::Load(*a),
            AddStep::AskFriends => AddStepView::AskFriends,
            AddStep::AddAndReply { channel, user, to, event, reply } => AddStepView::AddAndReply {
                channel: *channel,
                user: *user,
                to: to@,
                event: *event,
                reply: *reply,
            },
            AddStep::Refuse(a) => AddStepView::Refuse(*a),
        }
    }
}

pub open spec fn add_step(
    user: Option<&str>,
    channel_id: &str,
    body: AddUserBody,
    members: Seq<Oid>,
    f: AddFacts,
) -> AddStepView {
    let cid = ids::oid_of(channel_id@);
    let target = text::or_empty(body.user_id_to_add);
    if cid is None {
        AddStepView::Refuse(message(404, "Channel not found"))
    } else if f.channel is None {
        AddStepView::Load(cid->0)
    } else if f.channel->0 !is Found {
        AddStepView::Refuse(message(404, "Channel not found"))
    } else if ids::hex_of(f.channel->0->0) != channels::user_text(user) {
        AddStepView::Refuse(message(403, "Only admin can add users"))
    } else if ids::hex_all(members).contains(target) {
        AddStepView::Refuse(message(400, "User is already a member"))
    } else if f.banned {
        AddStepView::Refuse(
            message(403, "User is banned from this channel. Unban them before adding again."),
        )
    } else if target != channels::user_text(user) && f.friends is None {
        AddStepView::AskFriends
    } else if target != channels::user_text(user) && !f.friends->0 {
        AddStepView::Refuse(message(403, "Możesz dodawać do kanału tylko swoich znajomych."))
    } else if ids::oid_of(target) is None {
        AddStepView::Refuse(message(500, "Internal Server Error"))
    } else {
        AddStepView::AddAndReply {
            channel: cid->0,
            user: ids::oid_of(target)->0,
            to: target,
            event: "channel-added",
            reply: "User added to channel",
        }
    }
}

/// Decides the next step of adding a user to a channel.
pub fn add_user_to_channel(
    user: Option<&str>,
    channel_id: &str,
    body: &AddUserBody,
    members: &Vec<Oid>,
    f: &AddFacts,
) -> (r: AddStep)
    ensures
        r@ == add_step(user, channel_id, *body, members@, *f),
{
    let cid = match parse_oid(channel_id) {
        None => return AddStep::Refuse(message(404, "Channel not found")),
        Some(id) => id,
    };
    let admin = match f.channel {
        None => return AddStep::Load(cid),
        Some(Lookup::Found(a)) => a,
        _ => return AddStep::Refuse(message(404, "Channel not found")),
    };
    let me = user_or_empty(user);
    if !is_hex_of(admin, me.as_str()) {
        return AddStep::Refuse(message(403, "Only admin can add users"));
    }
    let target = text::text_or_empty(&body.user_id_to_add);
    if is_listed(members, target.as_str()) {
        return AddStep::Refuse(message(400, "User is already a member"));
    }
    if f.banned {
        return AddStep::Refuse(
            message(403, "User is banned from this channel. Unban them before adding again."),
        );
    }
    if !text::same_text(target.as_str(), me.as_str()) {
        match f.friends {
            None => return AddStep::AskFriends,
            Some(friends) => {
                if !friends {
                    return AddStep::Refuse(
                        message(403, "Możesz dodawać do kanału tylko swoich znajomych."),
                    );
                }
            },
        }
    }
    match parse_oid(target.as_str()) {
        None => AddStep::Refuse(message(500, "Internal Server Error")),
        Some(id) => AddStep::AddAndReply {
            channel: cid,
            user: id,
            to: target,
            event: "channel-added",
            reply: "User added to channel",
        },
    }
}

/// The owner of a channel, and nobody else, adds a friend or the own account who is neither a member nor
/// banned: that user is added to that channel and told of it.
pub proof fn law_owner_adds_a_friend(
    user: Option<&str>,
    channel_id: &str,
    body: AddUserBody,
    members: Seq<Oid>,
    f: AddFacts,
)
    ensures
        ({
            let s = add_step(user, channel_id, body, members, f);
            let cid = ids::oid_of(channel_id@);
            let target = text::or_empty(body.user_id_to_add);
            let own = f.channel is Some && f.channel->0 is Found && ids::hex_of(f.channel->0->0)
                == channels::user_text(user);
            let fit = own && !f.banned && !ids::hex_all(members).contains(target);
            let near = target == channels::user_text(user) || f.friends == Some(true);
            &&& cid is Some && fit && near && ids::oid_of(target) is Some <==> s is AddAndReply
            &&& s is AddAndReply ==> s == (AddStepView::AddAndReply {
                channel: cid->0,
                user: ids::oid_of(target)->0,
                to: target,
                event: "channel-added",
                reply: "User added to channel",
            })
            &&& cid is Some && f.channel is None <==> s is Load
            &&& s is Load ==> s == AddStepView::Load(cid->0)
            &&& cid is Some && fit && !near && f.friends is None <==> s is AskFriends
            &&& s matches AddStepView::Refuse(r) ==> {
                &&& r.status == 404 ==> cid is None || f.channel->0 !is Found
                &&& r.status == 403 ==> !own || f.banned || f.friends == Some(false)
                &&& r.status == 400 ==> ids::hex_all(members).contains(target)
                &&& r.status == 500 ==> ids::oid_of(target) is None
                &&& r.status == 404 || r.status == 403 || r.status == 400 || r.status == 500
            }
        }),
{
}

/// What is known while the bots of a channel are managed.
#[derive(Clone, Copy, Debug)]
pub struct BotFacts {
    pub channel: Option<Lookup<Oid>>,
    /// The bot, and who owns it.
    pub bot: Option<Lookup<Option<Oid>>>,
    pub bots: Option<Done>,
}

/// What to do next while the bots of a channel are managed.
#[derive(Debug, PartialEq, Eq)]
pub enum BotStep {
    Load(Oid),
    /// Find the bots of the user.
    FindBots(Oid),
    LoadBot(Oid),
    /// Reply with the bots that are not in the channel yet, in order; these are their places.
    ReplyInstallable(Vec<usize>),
    /// Add the bot, and reply with it.
    AddAndReply { channel: Oid, bot: Oid, reply: &'static str },
    RemoveAndReply { channel: Oid, bot: Oid, reply: &'static str },
    Refuse(Refusal),
}

/// The view of `BotStep`.
#[verifier::ext_equal]
pub enum BotStepView {
    Load(Oid),
    FindBots(Oid),
    LoadBot(Oid),
    ReplyInstallable(Seq<usize>),
    AddAndReply { channel: Oid, bot: Oid, reply: &'static str },
    RemoveAndReply { channel: Oid, bot: Oid, reply: &'static str },
    Refuse(Refusal),
}

impl View for BotStep {
    type V = BotStepView;

    open spec fn view(&self) -> BotStepView {
        match self {
            BotStep::Load(a) => BotStepView::Load(*a),
            BotStep::FindBots(a) => BotStepView::FindBots(*a),
            BotStep::LoadBot(a) => BotStepView::LoadBot(*a),
            BotStep::ReplyInstallable(a) => BotStepView::ReplyInstallable(a@),
            BotStep::AddAndReply { channel, bot, reply } => BotStepView::AddAndReply {
                channel: *channel,
                bot: *bot,
                reply: *reply,
            },
            BotStep::RemoveAndReply { channel, bot, reply } => BotStepView::RemoveAndReply {
                channel: *channel,
                bot: *bot,
                reply: *reply,
            },
            BotStep::Refuse(a) => BotStepView::Refuse(*a),
        }
    }
}

/// The steps up to the point where the user is known to own the channel; none once it is.
pub open spec fn bot_gate(
    user: Option<&str>,
    channel_id: &str,
    bot: Option<Seq<char>>,
    not_owner: Refusal,
    f: BotFacts,
) -> Option<BotStepView> {
    let cid = ids::oid_of(channel_id@);
    let uid = ids::oid_of(channels::user_text(user));
    if cid is None {
        Some(BotStepView::Refuse(message(404, "Channel not found")))
    } else if uid is None {
        Some(BotStepView::Refuse(message(401, "Unauthorized")))
    } else if bot is Some && ids::oid_of(bot->0) is None {
        Some(BotStepView::Refuse(message(400, "Nieprawidłowy identyfikator bota.")))
    } else if f.channel is None {
        Some(BotStepView::Load(cid->0))
    } else if f.channel->0 !is Found {
        Some(BotStepView::Refuse(message(404, "Channel not found")))
    } else if f.channel->0->0 != uid->0 {
        Some(BotStepView::Refuse(not_owner))
    } else {
        None
    }
}

fn pass_bot_gate(
    user: Option<&str>,
    channel_id: &str,
    bot: Option<&str>,
    not_owner: Refusal,
    f: &BotFacts,
) -> (r: Result<(Oid, Oid), BotStep>)
    ensures
        bot_gate(user, channel_id, text::opt_str(bot), not_owner, *f) == (match r {
            Ok(_) => None,
            Err(s) => Some(s@),
        }),
        r matches Ok(p) ==> p.0 == ids::oid_of(channel_id@)->0 && p.1 == ids::oid_of(
            channels::user_text(user),
        )->0,
{
    let cid = match parse_oid(channel_id) {
        None => return Err(BotStep::Refuse(message(404, "Channel not found"))),
        Some(id) => id,
    };
    let uid = match parse_oid(user_or_empty(user).as_str()) {
        None => return Err(BotStep::Refuse(message(401, "Unauthorized"))),
        Some(id) => id,
    };
    if let Some(b) = bot {
        if parse_oid(b).is_none() {
            return Err(BotStep::Refuse(message(400, "Nieprawidłowy identyfikator bota.")));
        }
    }
    match f.channel {
        None => Err(BotStep::Load(cid)),
        Some(Lookup::Found(admin)) => {
            if admin != uid {
                Err(BotStep::Refuse(not_owner))
            } else {
                Ok((cid, uid))
            }
        },
        _ => Err(BotStep::Refuse(message(404, "Channel not found"))),
    }
}

pub open spec fn installable_step(
    user: Option<&str>,
    channel_id: &str,
    bots: Seq<Option<Oid>>,
    members: Seq<Oid>,
    f: BotFacts,
) -> BotStepView {
    match bot_gate(
        user,
        channel_id,
        None,
        message(403, "Tylko administrator kanału może zarządzać botami."),
        f,
    ) {
        Some(s) => s,
        None => match f.bots {
            None => BotStepView::FindBots(ids::oid_of(channels::user_text(user))->0),
            Some(Done::Failed) => BotStepView::Refuse(message(500, "Internal Server Error")),
            Some(Done::Worked) => BotStepView::ReplyInstallable(
                not_members(bots, members, bots.len() as int),
            ),
        },
    }
}

/// Decides the next step of listing the bots that the owner can add to a channel. `bots` are
/// those of the owner, `members` the members of the channel.
pub fn get_installable_bots(
    user: Option<&str>,
    channel_id: &str,
    bots: &Vec<Option<Oid>>,
    members: &Vec<Oid>,
    f: &BotFacts,
) -> (r: BotStep)
    ensures
        r@ == installable_step(user, channel_id, bots@, members@, *f),
{
    match pass_bot_gate(
        user,
        channel_id,
        None,
        message(403, "Tylko administrator kanału może zarządzać botami."),
        f,
    ) {
        Err(s) => s,
        Ok((_, uid)) => match f.bots {
            None => BotStep::FindBots(uid),
            Some(Done::Failed) => BotStep::Refuse(message(500, "Internal Server Error")),
            Some(Done::Worked) => BotStep::ReplyInstallable(installable_bots(bots, members)),
        },
    }
}

/// Which of the bots with identifiers are not among the members, by position.
pub open spec fn not_members(bots: Seq<Option<Oid>>, members: Seq<Oid>, n: int) -> Seq<usize>
    decreases n,
{
    if n <= 0 {
        Seq::empty()
    } else if bots[n - 1] is Some && !members.contains(bots[n - 1]->0) {
        not_members(bots, members, n - 1).push((n - 1) as usize)
    } else {
        not_members(bots, members, n - 1)
    }
}

/// Picks the bots that are not in a channel yet.
pub fn installable_bots(bots: &Vec<Option<Oid>>, members: &Vec<Oid>) -> (r: Vec<usize>)
    ensures
        r@ == not_members(bots@, members@, bots@.len() as int),
{
    let mut out: Vec<usize> = Vec::new();
    let mut i: usize = 0;
    while i < bots.len()
        invariant
            i <= bots.len(),
            out@ == not_members(bots@, members@, i as int),
        decreases bots.len() - i,
    {
        match bots[i] {
            None => {},
            Some(id) => {
                if !lists::has_oid(members, id) {
                    out.push(i);
                }
            },
        }
        i += 1;
    }
    out
}

/// A bot is offered exactly where it has an id that is not among the members.
pub proof fn law_offered_bots_are_not_members(
    bots: Seq<Option<Oid>>,
    members: Seq<Oid>,
    n: int,
    k: int,
)
    requires
        0 <= k < n <= bots.len(),
        bots.len() <= usize::MAX,
    ensures
        not_members(bots, members, n).contains(k as usize) <==> bots[k] is Some
            && !members.contains(bots[k]->0),
    decreases n,
{
    let before = not_members(bots, members, n - 1);
    let all = not_members(bots, members, n);
    if k < n - 1 {
        law_offered_bots_are_not_members(bots, members, n - 1, k);
        if before.contains(k as usize) {
            let i = choose|i: int| 0 <= i < before.len() && before[i] == k as usize;
            assert(all[i] == k as usize);
        }
        if all.contains(k as usize) {
            let i = choose|i: int| 0 <= i < all.len() && all[i] == k as usize;
            if i < before.len() {
                assert(before[i] == k as usize);
            }
        }
    } else {
        lemma_places_below(bots, members, n - 1);
        if bots[k] is Some && !members.contains(bots[k]->0) {
            assert(all.last() == k as usize);
        } else if all.contains(k as usize) {
            let i = choose|i: int| 0 <= i < all.len() && all[i] == k as usize;
            assert(before[i] == k as usize);
        }
    }
}

proof fn lemma_places_below(bots: Seq<Option<Oid>>, members: Seq<Oid>, n: int)
    requires
        0 <= n <= bots.len(),
        bots.len() <= usize::MAX,
    ensures
        forall|i: int|
            0 <= i < not_members(bots, members, n).len() ==> #[trigger] not_members(
                bots,
                members,
                n,
            )[i] < n,
    decreases n,
{
    if n > 0 {
        lemma_places_below(bots, members, n - 1);
        let before = not_members(bots, members, n - 1);
        let all = not_members(bots, members, n);
        assert forall|i: int| 0 <= i < all.len() implies #[trigger] all[i] < n by {
            if i < before.len() {
                assert(all[i] == before[i]);
            }
        }
    }
}

pub open spec fn add_bot_step(
    user: Option<&str>,
    channel_id: &str,
    body: AddBotBody,
    members: Seq<Oid>,
    f: BotFacts,
) -> BotStepView {
    let bot = ids::oid_of(text::or_empty(body.bot_id))->0;
    let uid = ids::oid_of(channels::user_text(user))->0;
    match bot_gate(
        user,
        channel_id,
        Some(text::or_empty(body.bot_id)),
        message(403, "Tylko administrator kanału może dodawać boty."),
        f,
    ) {
        Some(s) => s,
        None => if f.bot is None {
            BotStepView::LoadBot(bot)
        } else if f.bot->0 is Failed {
            BotStepView::Refuse(message(500, "Internal Server Error"))
        } else if f.bot->0 != Lookup::Found(Some(uid)) {
            BotStepView::Refuse(message(403, "Możesz dodać tylko własnego bota."))
        } else if members.contains(bot) {
            BotStepView::Refuse(message(400, "Bot jest już w tym kanale."))
        } else {
            BotStepView::AddAndReply {
                channel: ids::oid_of(channel_id@)->0,
                bot,
                reply: "Bot dodany do kanału.",
            }
        },
    }
}

/// Decides the next step of adding a bot to a channel.
pub fn add_bot_to_channel(
    user: Option<&str>,
    channel_id: &str,
    body: &AddBotBody,
    members: &Vec<Oid>,
    f: &BotFacts,
) -> (r: BotStep)
    ensures
        r@ == add_bot_step(user, channel_id, *body, members@, *f),
{
    let bot_id = text::text_or_empty(&body.bot_id);
    let (channel, uid) = match pass_bot_gate(
        user,
        channel_id,
        Some(bot_id.as_str()),
        message(403, "Tylko administrator kanału może dodawać boty."),
        f,
    ) {
        Err(s) => return s,
        Ok(p) => p,
    };
    let bot = match parse_oid(bot_id.as_str()) {
        None => return BotStep::Refuse(message(400, "Nieprawidłowy identyfikator bota.")),
        Some(id) => id,
    };
    match f.bot {
        None => return BotStep::LoadBot(bot),
        Some(Lookup::Failed) => return BotStep::Refuse(message(500, "Internal Server Error")),
        Some(Lookup::Missing) => {
            return BotStep::Refuse(message(403, "Możesz dodać tylko własnego bota."));
        },
        Some(Lookup::Found(owner)) => {
            let own = match owner {
                None => false,
                Some(o) => o == uid,
            };
            if !own {
                return BotStep::Refuse(message(403, "Możesz dodać tylko własnego bota."));
            }
        },
    }
    if lists::has_oid(members, bot) {
        return BotStep::Refuse(message(400, "Bot jest już w tym kanale."));
    }
    BotStep::AddAndReply { channel, bot, reply: "Bot dodany do kanału." }
}

/// A bot joins only a channel of its owner.
pub proof fn law_bot_joins_its_owners_channel(
    user: Option<&str>,
    channel_id: &str,
    body: AddBotBody,
    members: Seq<Oid>,
    f: BotFacts,
)
    requires
        add_bot_step(user, channel_id, body, members, f) is AddAndReply,
    ensures
        f.bot == Some(Lookup::Found(Some(f.channel->0->0))),
        !members.contains(ids::oid_of(text::or_empty(body.bot_id))->0),
{
}

/// The owner of a channel adds own bots that are not in it yet, and sees which those are: neither
/// request is refused while nothing fails.
pub proof fn law_owner_adds_own_bots(
    user: Option<&str>,
    channel_id: &str,
    body: AddBotBody,
    bots: Seq<Option<Oid>>,
    members: Seq<Oid>,
    f: BotFacts,
)
    ensures
        ({
            let s = add_bot_step(user, channel_id, body, members, f);
            let t = installable_step(user, channel_id, bots, members, f);
            let cid = ids::oid_of(channel_id@);
            let uid = ids::oid_of(channels::user_text(user));
            let bot = ids::oid_of(text::or_empty(body.bot_id));
            let own = cid is Some && uid is Some && f.channel == Some(Lookup::Found(uid->0));
            let asked = cid is Some && uid is Some && f.channel is None;
            &&& own && bot is Some && f.bot == Some(Lookup::Found(Some(uid->0))) && !members.contains(
                bot->0,
            ) <==> s is AddAndReply
            &&& s is AddAndReply ==> s == (BotStepView::AddAndReply {
                channel: cid->0,
                bot: bot->0,
                reply: "Bot dodany do kanału.",
            })
            &&& asked && bot is Some <==> s is Load
            &&& s is Load ==> s == BotStepView::Load(cid->0)
            &&& own && bot is Some && f.bot is None <==> s is LoadBot
            &&& s is LoadBot ==> s == BotStepView::LoadBot(bot->0)
            &&& asked <==> t is Load
            &&& own && f.bots is None <==> t is FindBots
            &&& t is FindBots ==> t == BotStepView::FindBots(uid->0)
            &&& own && f.bots == Some(Done::Worked) <==> t is ReplyInstallable
            &&& t is ReplyInstallable ==> t == BotStepView::ReplyInstallable(
                not_members(bots, members, bots.len() as int),
            )
            &&& own && bot is Some && f.bot is Some && f.bot->0 !is Failed && f.bot->0
                != Lookup::Found(Some(uid->0)) ==> s == BotStepView::Refuse(
                message(403, "Możesz dodać tylko własnego bota."),
            )
        }),
{
}

/// Decides the next step of removing a bot from a channel.
pub fn remove_bot_from_channel(user: Option<&str>, channel_id: &str, bot_id: &str, f: &BotFacts) -> (r:
    BotStep)
    ensures
        r@ == (match bot_gate(
            user,
            channel_id,
            Some(bot_id@),
            message(403, "Tylko administrator kanału może usuwać boty."),
            *f,
        ) {
            Some(s) => s,
            None => BotStepView::RemoveAndReply {
                channel: ids::oid_of(channel_id@)->0,
                bot: ids::oid_of(bot_id@)->0,
                reply: "Bot usunięty z kanału.",
            },
        }),
        ids::oid_of(channel_id@) is Some && ids::oid_of(channels::user_text(user)) is Some
            && ids::oid_of(bot_id@) is Some && f.channel == Some(
            Lookup::Found(ids::oid_of(channels::user_text(user))->0),
        ) <==> r@ is RemoveAndReply,
        r@ matches BotStepView::RemoveAndReply { channel, bot, .. } ==> ids::oid_of(channel_id@)
            == Some(channel) && ids::oid_of(bot_id@) == Some(bot),
{
    let (channel, _) = match pass_bot_gate(
        user,
        channel_id,
        Some(bot_id),
        message(403, "Tylko administrator kanału może usuwać boty."),
        f,
    ) {
        Err(s) => return s,
        Ok(p) => p,
    };
    match parse_oid(bot_id) {
        None => BotStep::Refuse(message(400, "Nieprawidłowy identyfikator bota.")),
        Some(bot) => BotStep::RemoveAndReply { channel, bot, reply: "Bot usunięty z kanału." },
    }
}

/// Decides the next step of deleting a channel: where it is reached, the deletion is attempted
/// once and everyone is told.
pub fn delete_channel(user: Option<&str>, channel_id: &str, f: &OwnerFacts) -> (r: OwnerStep)
    ensures
        r@ == delete_step(user, channel_id, tolerant_owner(*f)),
        ids::oid_of(channel_id@) is Some && f.channel is Some && f.channel->0 is Found && ids::hex_of(
            f.channel->0->0,
        ) == channels::user_text(user) ==> (f.stored is None ==> r@ == (OwnerStepView::Store {
            channel: ids::oid_of(channel_id@)->0,
            change: ChannelChangeView::Delete,
        })) && (f.stored is Some ==> r@ is TellAndReply),
        r@ is Store || r@ is TellAndReply ==> f.channel is Some && f.channel->0 is Found && ids::hex_of(
            f.channel->0->0,
        ) == channels::user_text(user),
{
    let known = tolerate_owner(f);
    channels::owner_change(
        channels::ChannelChange::Delete,
        user,
        channel_id,
        message(404, "Channel not found"),
        message_unavailable(),
        message(403, "Only admin can delete channel"),
        message(500, "Internal Server Error"),
        &known,
    )
}

pub open spec fn delete_step(user: Option<&str>, channel_id: &str, f: OwnerFacts) -> OwnerStepView {
    channels::owner_step(
        ChannelChangeView::Delete,
        user,
        channel_id,
        message(404, "Channel not found"),
        message_unavailable(),
        message(403, "Only admin can delete channel"),
        message(500, "Internal Server Error"),
        f,
    )
}

/// What is known of a muted channel, where what cannot be loaded counts as missing.
pub open spec fn tolerant_view(f: ViewFacts) -> ViewFacts {
    ViewFacts {
        channel: or_missing(f.channel),
        user: or_missing(f.user),
        encoded: Some(Done::Worked),
        ..f
    }
}

/// Decides the next step of muting a channel, or of ending that.
pub fn toggle_channel_mute(
    user: Option<&str>,
    channel_id: &str,
    muted: &Vec<Oid>,
    f: &ViewFacts,
) -> (r: MuteStep)
    ensures
        r@ == channels::toggle_mute_step(user, channel_id, muted@, tolerant_view(*f)),
{
    let known = ViewFacts {
        channel: found_or_missing(f.channel),
        user: found_or_missing(f.user),
        encoded: Some(Done::Worked),
        ..*f
    };
    channels::toggle_channel_mute(user, channel_id, muted, &known)
}

/// The members of a channel without one who is removed.
pub fn members_without(members: &Vec<Oid>, target: Oid) -> (r: Vec<Oid>)
    ensures
        r@ == lists::without(members@, target),
{
    lists::without_oid(members, target)
}

/// What to do next while a member is removed.
#[derive(Debug, PartialEq, Eq)]
pub enum KickStep {
    Load(Oid),
    /// Store these members and drop the mute of the user, where the text names one; tell the user, and
    /// reply.
    KickAndReply { channel: Oid, user: Option<Oid>, members: Vec<Oid>, event: &'static str },
    Refuse(Refusal),
}

/// The view of `KickStep`.
#[verifier::ext_equal]
pub enum KickStepView {
    Load(Oid),
    KickAndReply { channel: Oid, user: Option<Oid>, members: Seq<Oid>, event: &'static str },
    Refuse(Refusal),
}

impl View for KickStep {
    type V = KickStepView;

    open spec fn view(&self) -> KickStepView {
        match self {
            KickStep::Load(a) => KickStepView::Load(*a),
            KickStep::KickAndReply { channel, user, members, event } => KickStepView::KickAndReply {
                channel: *channel,
                user: *user,
                members: members@,
                event: *event,
            },
            KickStep::Refuse(a) => KickStepView::Refuse(*a),
        }
    }
}

/// Decides the next step of removing a member from a channel with `members`.
pub fn kick_channel_member(
    body: &TargetUserBody,
    channel_id: &str,
    members: &Vec<Oid>,
    channel: Option<Lookup<Moderated>>,
) -> (r: KickStep)
    ensures
        r@ == ({
            let target = text::or_empty(body.user_id);
            let cid = ids::oid_of(channel_id@);
            if target.len() == 0 {
                KickStepView::Refuse(message(400, "Brak identyfikatora użytkownika"))
            } else if cid is None {
                KickStepView::Refuse(message(404, "Kanał nie znaleziony"))
            } else if channel is None {
                KickStepView::Load(cid->0)
            } else if channel->0 !is Found {
                KickStepView::Refuse(message(404, "Kanał nie znaleziony"))
            } else if !channel->0->0.by_owner {
                KickStepView::Refuse(message(403, "Tylko twórca kanału może wyrzucać członków"))
            } else if ids::hex_of(channel->0->0.admin) == target {
                KickStepView::Refuse(message(400, "Nie można wyrzucić twórcy kanału"))
            } else {
                KickStepView::KickAndReply {
                    channel: cid->0,
                    user: ids::oid_of(target),
                    members: match ids::oid_of(target) {
                        Some(id) => lists::without(members@, id),
                        None => members@,
                    },
                    event: "channel-left",
                }
            }
        }),
        ids::oid_of(text::or_empty(body.user_id)) is Some && ids::oid_of(channel_id@) is Some
            && channel is Some && channel->0 is Found && channel->0->0.by_owner && ids::hex_of(
            channel->0->0.admin,
        ) != text::or_empty(body.user_id) ==> r@ is KickAndReply,
        r@ matches KickStepView::KickAndReply { channel: c, user, members: rest, event } ==> channel
            is Some && channel->0 is Found && channel->0->0.by_owner && ids::hex_of(
            channel->0->0.admin,
        ) != text::or_empty(body.user_id) && ids::oid_of(channel_id@) == Some(c) && user
            == ids::oid_of(text::or_empty(body.user_id)) && event == "channel-left" && (user is Some
            ==> forall|y: Oid| #[trigger] rest.contains(y) <==> members@.contains(y) && y != user->0),
{
    proof {
        if ids::oid_of(text::or_empty(body.user_id)) is Some {
            lists::law_without_removes_exactly(
                members@,
                ids::oid_of(text::or_empty(body.user_id))->0,
            );
        }
    }
    let target = text::text_or_empty(&body.user_id);
    if target.as_str().is_empty() {
        return KickStep::Refuse(message(400, "Brak identyfikatora użytkownika"));
    }
    let cid = match parse_oid(channel_id) {
        None => return KickStep::Refuse(message(404, "Kanał nie znaleziony")),
        Some(id) => id,
    };
    let found = match channel {
        None => return KickStep::Load(cid),
        Some(Lookup::Found(c)) => c,
        _ => return KickStep::Refuse(message(404, "Kanał nie znaleziony")),
    };
    if !found.by_owner {
        return KickStep::Refuse(message(403, "Tylko twórca kanału może wyrzucać członków"));
    }
    if is_hex_of(found.admin, target.as_str()) {
        return KickStep::Refuse(message(400, "Nie można wyrzucić twórcy kanału"));
    }
    let user = parse_oid(target.as_str());
    KickStep::KickAndReply {
        channel: cid,
        user,
        members: match user {
            Some(id) => members_without(members, id),
            None => lists::copy_oids(members),
        },
        event: "channel-left",
    }
}

/// What is known in moderation, where what cannot be loaded counts as missing and an attempt as a
/// change. A ban takes the user from the members in the same write.
pub open spec fn tolerant_moderation(f: ModerationFacts) -> ModerationFacts {
    ModerationFacts {
        channel: or_missing(f.channel),
        written: attempted(f.written),
        pulled: Some(Done::Worked),
        lists: attempted(f.lists),
        ..f
    }
}

fn tolerate_moderation(f: &ModerationFacts) -> (r: ModerationFacts)
    ensures
        r == tolerant_moderation(*f),
{
    ModerationFacts {
        channel: found_or_missing(f.channel),
        written: once_attempted(f.written),
        pulled: Some(Done::Worked),
        lists: once_attempted(f.lists),
        ..*f
    }
}

/// The same request, as it is named elsewhere.
pub open spec fn moderation_body(body: TargetUserBody) -> channels::TargetUserBody {
    channels::TargetUserBody { user_id: body.user_id, duration_seconds: body.duration_seconds }
}

fn to_moderation_body(body: &TargetUserBody) -> (r: channels::TargetUserBody)
    ensures
        r == moderation_body(*body),
{
    channels::TargetUserBody {
        user_id: body.user_id.clone(),
        duration_seconds: body.duration_seconds,
    }
}

/// What follows a mute here, or its end: the user is told, without a time.
pub open spec fn muted_news(muted: bool) -> AftermathView {
    AftermathView::MuteChanged {
        event: "channel-moderation-updated",
        muted,
        seconds: None,
        lift_ban: false,
    }
}

fn tell_muted(muted: bool) -> (r: Aftermath)
    ensures
        r@ == muted_news(muted),
{
    Aftermath::MuteChanged {
        event: "channel-moderation-updated",
        muted,
        seconds: None,
        lift_ban: false,
    }
}

/// Decides the next step of banning a member.
pub fn ban_channel_member(body: &TargetUserBody, channel_id: &str, f: &ModerationFacts) -> (r:
    ModerationStep)
    ensures
        r@ == channels::ban_step(
            moderation_body(*body),
            channel_id,
            AftermathView::Told("channel-left"),
            tolerant_moderation(*f),
        ),
{
    let known = tolerate_moderation(f);
    channels::ban_with(&to_moderation_body(body), channel_id, Aftermath::Told("channel-left"), &known)
}

/// Decides the next step of taking a ban back.
pub fn unban_channel_member(body: &TargetUserBody, channel_id: &str, f: &ModerationFacts) -> (r:
    ModerationStep)
    ensures
        r@ == channels::unban_step(
            moderation_body(*body),
            channel_id,
            AftermathView::Nothing,
            tolerant_moderation(*f),
        ),
{
    let known = tolerate_moderation(f);
    channels::unban_with(&to_moderation_body(body), channel_id, Aftermath::Nothing, &known)
}

/// Decides the next step of muting a member.
pub fn mute_channel_member(body: &TargetUserBody, channel_id: &str, f: &ModerationFacts) -> (r:
    ModerationStep)
    ensures
        r@ == channels::mute_step(
            moderation_body(*body),
            channel_id,
            muted_news(true),
            tolerant_moderation(*f),
        ),
{
    let known = tolerate_moderation(f);
    channels::mute_with(&to_moderation_body(body), channel_id, tell_muted(true), &known)
}

/// Decides the next step of ending the mute of a member.
pub fn unmute_channel_member(body: &TargetUserBody, channel_id: &str, f: &ModerationFacts) -> (r:
    ModerationStep)
    ensures
        r@ == channels::unmute_step(
            moderation_body(*body),
            channel_id,
            muted_news(false),
            tolerant_moderation(*f),
        ),
{
    let known = tolerate_moderation(f);
    channels::unmute_with(&to_moderation_body(body), channel_id, tell_muted(false), &known)
}

/// The owner of a channel moderates its members, whatever became of an attempt: what was asked for is
/// attempted once, then told and answered. A ban is never answered before it was attempted, and nobody
/// but the owner moderates.
pub proof fn law_owner_moderates_members(
    body: TargetUserBody,
    channel_id: &str,
    after: AftermathView,
    f: ModerationFacts,
)
    requires
        ids::oid_of(text::or_empty(body.user_id)) is Some,
        ids::oid_of(channel_id@) is Some,
    ensures
        ({
            let b = moderation_body(body);
            let g = tolerant_moderation(f);
            let channel = ids::oid_of(channel_id@)->0;
            let user = ids::oid_of(text::or_empty(body.user_id))->0;
            let owner = f.channel is Some && f.channel->0 is Found && f.channel->0->0.by_owner;
            let fit = owner && ids::hex_of(f.channel->0->0.admin) != text::or_empty(body.user_id);
            let seconds = if body.duration_seconds == Some(0u64) {
                None
            } else {
                body.duration_seconds
            };
            let ban = channels::ban_step(b, channel_id, after, g);
            let unban = channels::unban_step(b, channel_id, after, g);
            let mute = channels::mute_step(b, channel_id, after, g);
            let unmute = channels::unmute_step(b, channel_id, after, g);
            let told = channels::ModerationStepView::TellAndLoadLists { channel, user, after };
            &&& fit && f.written is None ==> ban == (channels::ModerationStepView::Ban {
                channel,
                user,
                seconds,
            })
            &&& fit && f.written is Some && f.lists is None ==> ban == told
            &&& fit && f.written is Some && f.lists is Some ==> ban is Reply
            &&& owner && f.written is None ==> unban == (channels::ModerationStepView::Unban {
                channel,
                user,
            }) && unmute == (channels::ModerationStepView::Unmute { channel, user })
            &&& owner && f.written is Some && f.lists is None ==> unban == told && unmute == told
            &&& owner && f.written is Some && f.lists is Some ==> unban is Reply && unmute is Reply
            &&& fit && f.channel->0->0.target_is_member && f.written is None ==> mute == (
            channels::ModerationStepView::Mute { channel, user, seconds })
            &&& fit && f.channel->0->0.target_is_member && f.written is Some && f.lists is None
                ==> mute == told
            &&& fit && !f.channel->0->0.target_is_member ==> mute is Refuse
            &&& f.channel is Some && !owner ==> ban is Refuse && unban is Refuse && mute is Refuse
                && unmute is Refuse
            &&& owner && !fit ==> ban is Refuse && mute is Refuse
            &&& f.channel is None ==> ban == channels::ModerationStepView::Load(channel) && unban
                == channels::ModerationStepView::Load(channel) && mute
                == channels::ModerationStepView::Load(channel) && unmute
                == channels::ModerationStepView::Load(channel)
            &&& f.written is None ==> ban !is TellAndLoadLists && ban !is Reply && mute !is
                TellAndLoadLists && unban !is TellAndLoadLists && unmute !is TellAndLoadLists
        }),
{
}

/// The other changes, too, count as made once they were attempted, and what cannot be loaded counts as
/// missing; whatever else is known stays as it is.
pub proof fn law_attempts_count_as_changes(
    owner: OwnerFacts,
    avatar: AvatarFacts,
    view: ViewFacts,
    report: ReportFacts,
)
    ensures
        tolerant_owner(owner).stored is None <==> owner.stored is None,
        tolerant_owner(owner).stored != Some(Done::Failed),
        owner.channel is None || owner.channel->0 is Found ==> tolerant_owner(owner).channel
            == owner.channel,
        owner.channel is Some && owner.channel->0 !is Found ==> tolerant_owner(owner).channel == Some(
            Lookup::<Oid>::Missing,
        ),
        tolerant_avatar(avatar).stored is None <==> avatar.stored is None,
        tolerant_avatar(avatar).stored != Some(Done::Failed),
        avatar.channel is None || avatar.channel->0 is Found ==> tolerant_avatar(avatar)
            == (AvatarFacts { stored: tolerant_avatar(avatar).stored, ..avatar }),
        tolerant_view(view).encoded == Some(Done::Worked) && tolerant_view(view).stored == view.stored
            && tolerant_view(view).lists == view.lists,
        view.channel is None || view.channel->0 is Found ==> tolerant_view(view).channel
            == view.channel,
        view.user is None || view.user->0 is Found ==> tolerant_view(view).user == view.user,
        view.channel is Some && view.channel->0 !is Found ==> tolerant_view(view).channel is Some
            && tolerant_view(view).channel->0 is Missing,
        report.channel is None || report.channel->0 is Found ==> tolerant_report(report).channel
            == report.channel,
        report.user is None || report.user->0 is Found ==> tolerant_report(report).user
            == report.user,
        tolerant_report(report).stored == report.stored,
{
}

/// What is known of a report, where what cannot be loaded counts as missing.
pub open spec fn tolerant_report(f: ReportFacts) -> ReportFacts {
    ReportFacts { channel: or_missing(f.channel), user: or_missing(f.user), ..f }
}

/// Decides the next step of reporting a channel.
pub fn report_channel(user: Option<&str>, channel_id: &str, body: &ReportBody, f: &ReportFacts) -> (r:
    ReportStep)
    ensures
        r@ == channels::report_step(
            user,
            channel_id,
            (channels::ReportBody { reason: body.reason, details: body.details }),
            tolerant_report(*f),
        ),
{
    let known = ReportFacts {
        channel: found_or_missing(f.channel),
        user: found_or_missing(f.user),
        ..*f
    };
    let same = channels::ReportBody { reason: body.reason.clone(), details: body.details.clone() };
    channels::report_channel(user, channel_id, &same, &known)
}

} // verus!
