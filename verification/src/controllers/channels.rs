//! Channels: creating, reading, changing and deleting them, their members and moderation.

use vstd::prelude::*;

use crate::ids;
use crate::ids::{Oid, is_hex_of, parse_oid};
use crate::lists;
use crate::query;
use crate::reply::{Access, Answer, Done, Lookup, Refusal, Wrote, again, error, message};
use crate::text;

verus! {

pub const DEFAULT_CHANNEL_MESSAGE_LIMIT: i64 = 30;

pub const MAX_CHANNEL_MESSAGE_LIMIT: i64 = 50;

/// The longest pause between two messages of a member, in seconds.
pub const MAX_SLOWMODE_SECONDS: u32 = 21_600;

/// Request for a new channel.
pub struct CreateChannelBody {
    pub name: Option<String>,
    pub members: Option<Vec<String>>,
}

/// A new name for a channel.
pub struct RenameBody {
    pub name: Option<String>,
}

/// A new pause between the messages of a member.
pub struct SlowmodeBody {
    pub rate_limit_per_user: Option<u32>,
}

/// Whether writing in a channel is locked.
pub struct ChatLockBody {
    pub chat_locked: Option<bool>,
}

/// The user to add to a channel.
pub struct AddUserBody {
    pub user_id_to_add: Option<String>,
}

/// The user whom a moderation request is about.
pub struct TargetUserBody {
    pub user_id: Option<String>,
    /// How long it lasts; for good where it is absent or zero.
    pub duration_seconds: Option<u64>,
}

/// A report of a channel.
pub struct ReportBody {
    pub reason: Option<String>,
    pub details: Option<String>,
}

/// The reply while the database is down, as a `message`.
#[verifier::allow_in_spec]
pub fn message_unavailable() -> Refusal
    returns
        again(message(503, "Temporarily unavailable")),
{
    again(message(503, "Temporarily unavailable"))
}

/// The reply while channels cannot be shown.
#[verifier::allow_in_spec]
pub fn channels_unavailable() -> Refusal
    returns
        message(503, "Channels temporarily unavailable. Please retry."),
{
    message(503, "Channels temporarily unavailable. Please retry.")
}

/// The text of an optional user, empty where there is none.
pub open spec fn user_text(user: Option<&str>) -> Seq<char> {
    match user {
        None => Seq::empty(),
        Some(u) => u@,
    }
}

fn user_or_empty(user: Option<&str>) -> (r: String)
    ensures
        r@ == user_text(user),
{
    match user {
        None => String::new(),
        Some(u) => u.to_owned(),
    }
}

/// The identifiers that texts spell; other texts are left out.
pub open spec fn spelled_ids(s: Seq<Seq<char>>) -> Seq<Oid>
    decreases s.len(),
{
    if s.len() == 0 {
        Seq::empty()
    } else {
        match ids::oid_of(s.last()) {
            None => spelled_ids(s.drop_last()),
            Some(id) => spelled_ids(s.drop_last()).push(id),
        }
    }
}

/// Reads the identifiers that texts spell.
pub fn parse_ids(v: &Vec<String>) -> (r: Vec<Oid>)
    ensures
        r@ == spelled_ids(text::texts(v@)),
{
    let mut out: Vec<Oid> = Vec::new();
    let mut i: usize = 0;
    while i < v.len()
        invariant
            i <= v.len(),
            out@ == spelled_ids(text::texts(v@).take(i as int)),
        decreases v.len() - i,
    {
        let ghost t = text::texts(v@).take(i + 1);
        assert(t.drop_last() =~= text::texts(v@).take(i as int));
        assert(t.last() == v@[i as int]@);
        match parse_oid(v[i].as_str()) {
            None => {},
            Some(id) => out.push(id),
        }
        i += 1;
    }
    assert(text::texts(v@).take(i as int) =~= text::texts(v@));
    out
}

/// How many members a request names.
pub open spec fn named_members(body: CreateChannelBody) -> nat {
    match body.members {
        None => 0,
        Some(m) => m@.len(),
    }
}

/// What is known while a channel is created.
#[derive(Clone, Copy, Debug)]
pub struct CreateFacts {
    pub user: Option<Lookup<()>>,
    /// The named members were looked up; how many accounts were found.
    pub members: Option<Lookup<usize>>,
    pub friends: Option<Done>,
    /// The channel was created; whether it carries an identifier.
    pub created: Option<Lookup<bool>>,
    pub serialized: Option<Done>,
    pub seeded: Option<Done>,
}

/// What to do next while a channel is created.
#[derive(Debug, PartialEq, Eq)]
pub enum CreateStep {
    LoadUser(Oid),
    /// Find the accounts of the named members.
    FindMembers(Vec<Oid>),
    /// Load the friends of the user.
    LoadFriends(Oid),
    /// Create the channel, without a description or a picture.
    Create { owner: Oid, name: String, members: Vec<Oid> },
    Serialize,
    /// Set a read position for each of these.
    SeedReadPositions(Vec<Oid>),
    /// Tell these of the channel, and reply with it.
    TellAndReply { to: Vec<Oid>, event: &'static str },
    Refuse(Refusal),
}

/// The view of `CreateStep`.
#[verifier::ext_equal]
pub enum CreateStepView {
    LoadUser(Oid),
    FindMembers(Seq<Oid>),
    LoadFriends(Oid),
    Create { owner: Oid, name: Seq<char>, members: Seq<Oid> },
    Serialize,
    SeedReadPositions(Seq<Oid>),
    TellAndReply { to: Seq<Oid>, event: &'static str },
    Refuse(Refusal),
}

impl View for CreateStep {
    type V = CreateStepView;

    open spec fn view(&self) -> CreateStepView {
        match self {
            CreateStep::LoadUser(a) => CreateStepView::LoadUser(*a),
            CreateStep::FindMembers(a) => CreateStepView::FindMembers(a@),
            CreateStep::LoadFriends(a) => CreateStepView::LoadFriends(*a),
            CreateStep::Create { owner, name, members } => CreateStepView::Create {
                owner: *owner,
                name: name@,
                members: members@,
            },
            CreateStep::Serialize => CreateStepView::Serialize,
            CreateStep::SeedReadPositions(a) => CreateStepView::SeedReadPositions(a@),
            CreateStep::TellAndReply { to, event } => CreateStepView::TellAndReply {
                to: to@,
                event: *event,
            },
            CreateStep::Refuse(a) => CreateStepView::Refuse(*a),
        }
    }
}

/// What a channel holds after it was created.
pub struct NewChannel {
    pub admin: Oid,
    pub members: Vec<Oid>,
}

/// The identifiers that the named members spell.
pub open spec fn named_ids(body: CreateChannelBody) -> Seq<Oid> {
    match body.members {
        None => Seq::empty(),
        Some(m) => spelled_ids(text::texts(m@)),
    }
}

/// Whether every member is the user or a friend of the user.
pub open spec fn only_friends(members: Seq<Oid>, user: Seq<char>, friends: Seq<Seq<char>>) -> bool {
    forall|i: int|
        0 <= i < members.len() ==> ids::hex_of(#[trigger] members[i]) == user || friends.contains(
            ids::hex_of(members[i]),
        )
}

pub open spec fn create_step(
    user: Option<&str>,
    body: CreateChannelBody,
    members: Seq<Oid>,
    friends: Seq<Seq<char>>,
    made: NewChannel,
    f: CreateFacts,
) -> CreateStepView {
    let uid = ids::oid_of(user_text(user));
    if uid is None {
        CreateStepView::Refuse(message(400, "Admin user not found."))
    } else if f.user is None {
        CreateStepView::LoadUser(uid->0)
    } else if f.user->0 is Missing {
        CreateStepView::Refuse(message(400, "Admin user not found."))
    } else if f.user->0 is Failed {
        CreateStepView::Refuse(message_unavailable())
    } else if named_members(body) > 0 && f.members is None {
        CreateStepView::FindMembers(named_ids(body))
    } else if named_members(body) > 0 && f.members->0 is Failed {
        CreateStepView::Refuse(message_unavailable())
    } else if named_members(body) > 0 && f.members->0 != Lookup::Found(named_members(body) as usize) {
        CreateStepView::Refuse(message(400, "Some members are not valid users."))
    } else if named_members(body) > 0 && members.len() > 0 && f.friends is None {
        CreateStepView::LoadFriends(uid->0)
    } else if named_members(body) > 0 && members.len() > 0 && f.friends->0 is Failed {
        CreateStepView::Refuse(message_unavailable())
    } else if named_members(body) > 0 && !only_friends(members, user_text(user), friends) {
        CreateStepView::Refuse(message(403, "Możesz dodawać do kanału tylko swoich znajomych."))
    } else if f.created is None {
        CreateStepView::Create {
            owner: uid->0,
            name: text::or_empty(body.name),
            members: if named_members(body) > 0 {
                members
            } else {
                Seq::empty()
            },
        }
    } else if f.created->0 !is Found {
        CreateStepView::Refuse(message(500, "Internal Server Error"))
    } else if f.serialized is None {
        CreateStepView::Serialize
    } else if f.serialized->0 is Failed {
        CreateStepView::Refuse(again(channels_unavailable()))
    } else if f.created->0->0 && f.seeded is None {
        CreateStepView::SeedReadPositions(
            lists::distinct(lists::with(made.members@, uid->0).push(made.admin)),
        )
    } else if f.created->0->0 && f.seeded->0 is Failed {
        CreateStepView::Refuse(message_unavailable())
    } else {
        CreateStepView::TellAndReply {
            to: if f.created->0->0 {
                told_of_channel(made.members@, user_text(user))
            } else {
                Seq::empty()
            },
            event: "channel-added",
        }
    }
}

fn all_friends(members: &Vec<Oid>, user: &str, friends: &Vec<String>) -> (r: bool)
    ensures
        r == only_friends(members@, user@, text::texts(friends@)),
{
    let mut i: usize = 0;
    while i < members.len()
        invariant
            i <= members.len(),
            forall|j: int|
                0 <= j < i ==> ids::hex_of(#[trigger] members@[j]) == user@ || text::texts(
                    friends@,
                ).contains(ids::hex_of(members@[j])),
        decreases members.len() - i,
    {
        let hex = ids::to_hex(members[i]);
        if !text::same_text(hex.as_str(), user) && !lists::has_text(friends, hex.as_str()) {
            assert(ids::hex_of(members@[i as int]) == hex@);
            return false;
        }
        i += 1;
    }
    true
}

/// Decides the next step of creating a channel. `members` are the accounts found for the
/// named members, `friends` the friends of the user, `made` the channel once it was created.
pub fn create_channel(
    user: Option<&str>,
    body: &CreateChannelBody,
    members: &Vec<Oid>,
    friends: &Vec<String>,
    made: &NewChannel,
    f: &CreateFacts,
) -> (r: CreateStep)
    ensures
        r@ == create_step(user, *body, members@, text::texts(friends@), *made, *f),
{
    let me = user_or_empty(user);
    let uid = match parse_oid(me.as_str()) {
        None => return CreateStep::Refuse(message(400, "Admin user not found.")),
        Some(id) => id,
    };
    match f.user {
        None => return CreateStep::LoadUser(uid),
        Some(Lookup::Missing) => {
            return CreateStep::Refuse(message(400, "Admin user not found."));
        },
        Some(Lookup::Failed) => return CreateStep::Refuse(message_unavailable()),
        Some(Lookup::Found(_)) => {},
    }
    let named: usize = match &body.members {
        None => 0,
        Some(m) => m.len(),
    };
    if named > 0 {
        match f.members {
            None => return CreateStep::FindMembers(
                match &body.members {
                    None => Vec::new(),
                    Some(m) => parse_ids(m),
                },
            ),
            Some(Lookup::Failed) => return CreateStep::Refuse(message_unavailable()),
            Some(Lookup::Missing) => {
                return CreateStep::Refuse(message(400, "Some members are not valid users."));
            },
            Some(Lookup::Found(found)) => {
                if found != named {
                    return CreateStep::Refuse(message(400, "Some members are not valid users."));
                }
            },
        }
        if members.len() > 0 {
            match f.friends {
                None => return CreateStep::LoadFriends(uid),
                Some(Done::Failed) => return CreateStep::Refuse(message_unavailable()),
                Some(Done::Worked) => {},
            }
        }
        if !all_friends(members, me.as_str(), friends) {
            return CreateStep::Refuse(
                message(403, "Możesz dodawać do kanału tylko swoich znajomych."),
            );
        }
    }
    let has_id = match f.created {
        None => return CreateStep::Create {
            owner: uid,
            name: text::text_or_empty(&body.name),
            members: if named > 0 {
                lists::copy_oids(members)
            } else {
                Vec::new()
            },
        },
        Some(Lookup::Found(has_id)) => has_id,
        _ => return CreateStep::Refuse(message(500, "Internal Server Error")),
    };
    match f.serialized {
        None => return CreateStep::Serialize,
        Some(Done::Failed) => return CreateStep::Refuse(again(channels_unavailable())),
        Some(Done::Worked) => {},
    }
    if has_id {
        match f.seeded {
            None => return CreateStep::SeedReadPositions(
                seed_ids(&made.members, uid, made.admin),
            ),
            Some(Done::Failed) => return CreateStep::Refuse(message_unavailable()),
            Some(Done::Worked) => {},
        }
    }
    CreateStep::TellAndReply {
        to: if has_id {
            members_to_tell(&made.members, me.as_str())
        } else {
            Vec::new()
        },
        event: "channel-added",
    }
}

/// A channel is created only with members whom the creator has as friends.
pub proof fn law_channel_is_created_with_friends_only(
    user: Option<&str>,
    body: CreateChannelBody,
    members: Seq<Oid>,
    friends: Seq<Seq<char>>,
    made: NewChannel,
    f: CreateFacts,
)
    requires
        create_step(user, body, members, friends, made, f) is Create,
    ensures
        only_friends(
            create_step(user, body, members, friends, made, f)->members,
            user_text(user),
            friends,
        ),
        create_step(user, body, members, friends, made, f)->owner == ids::oid_of(
            user_text(user),
        )->0,
{
}

/// A known user can create a channel, alone or with friends: the request is not refused while nothing
/// fails, the channel is created with the name and the members that were asked for, and those members
/// are told.
pub proof fn law_channel_with_friends_is_created(
    user: Option<&str>,
    body: CreateChannelBody,
    members: Seq<Oid>,
    friends: Seq<Seq<char>>,
    made: NewChannel,
    f: CreateFacts,
)
    requires
        ids::oid_of(user_text(user)) is Some,
        f.user matches Some(u) ==> u is Found,
        named_members(body) > 0 ==> (f.members matches Some(n) ==> n == Lookup::Found(
            named_members(body) as usize,
        )),
        f.friends != Some(Done::Failed),
        named_members(body) > 0 ==> forall|i: int|
            0 <= i < members.len() ==> ids::hex_of(#[trigger] members[i]) == user_text(user)
                || friends.contains(ids::hex_of(members[i])),
        f.created matches Some(c) ==> c is Found,
        f.serialized != Some(Done::Failed),
        f.seeded != Some(Done::Failed),
    ensures
        ({
            let s = create_step(user, body, members, friends, made, f);
            let uid = ids::oid_of(user_text(user))->0;
            let alone = body.members is None || body.members->0@.len() == 0;
            let known = f.user is Some && (alone || (f.members is Some && (members.len() == 0
                || f.friends is Some)));
            &&& s !is Refuse
            &&& f.user is None ==> s == CreateStepView::LoadUser(uid)
            &&& known && f.created is None ==> s == (CreateStepView::Create {
                owner: uid,
                name: text::or_empty(body.name),
                members: if alone {
                    Seq::empty()
                } else {
                    members
                },
            })
            &&& known && f.created is Some && f.serialized is None ==> s is Serialize
            &&& known && f.created is Some && f.serialized is Some && f.seeded is Some ==> s is
                TellAndReply
        }),
{
}

/// Creating a channel asks only for what is not known yet; the channel is created once, and told of
/// only where it was created, shown and given read positions.
pub proof fn law_creating_a_channel_makes_progress(
    user: Option<&str>,
    body: CreateChannelBody,
    members: Seq<Oid>,
    friends: Seq<Seq<char>>,
    made: NewChannel,
    f: CreateFacts,
)
    ensures
        ({
            let s = create_step(user, body, members, friends, made, f);
            let uid = ids::oid_of(user_text(user));
            &&& s is LoadUser ==> f.user is None
            &&& s matches CreateStepView::FindMembers(all) ==> f.members is None && body.members is
                Some && all == spelled_ids(text::texts(body.members->0@))
            &&& s matches CreateStepView::LoadFriends(id) ==> f.friends is None && uid == Some(id)
            &&& s is Create ==> f.created is None && f.user is Some && f.user->0 is Found
            &&& s is Create && body.members is Some && body.members->0@.len() > 0 ==> f.members
                == Some(Lookup::Found(body.members->0@.len() as usize)) && (members.len() > 0
                ==> f.friends == Some(Done::Worked))
            &&& s is Serialize ==> f.serialized is None && f.created is Some && f.created->0 is
                Found
            &&& s is SeedReadPositions ==> f.seeded is None && f.created == Some(
                Lookup::Found(true),
            ) && f.serialized == Some(Done::Worked)
            &&& s matches CreateStepView::TellAndReply { to, event } ==> event == "channel-added"
                && f.created is Some && f.created->0 is Found && f.serialized == Some(Done::Worked)
                && (f.created->0->0 ==> f.seeded == Some(Done::Worked)) && (!f.created->0->0
                ==> to.len() == 0)
            &&& s matches CreateStepView::Refuse(r) ==> {
                &&& r.status == 400 ==> uid is None || (f.user is Some && f.user->0 is Missing) || (
                body.members is Some && f.members is Some && f.members->0 != Lookup::Found(
                    body.members->0@.len() as usize,
                ))
                &&& r.status == 403 ==> body.members is Some && exists|i: int|
                    0 <= i < members.len() && ids::hex_of(#[trigger] members[i]) != user_text(user)
                        && !friends.contains(ids::hex_of(members[i]))
                &&& r.status == 400 || r.status == 403 || r.status == 500 || r.status == 503
            }
        }),
{
}

/// Everyone who gets a read position in a new channel: members, creator and owner, each once.
pub fn seed_ids(members: &Vec<Oid>, creator: Oid, admin: Oid) -> (r: Vec<Oid>)
    ensures
        r@ == lists::distinct(lists::with(members@, creator).push(admin)),
{
    let mut all = lists::copy_oids(members);
    lists::add_oid(&mut all, creator);
    all.push(admin);
    lists::distinct_oids(&all)
}

/// The members who are told of a new channel: all but its creator.
pub open spec fn told_of_channel(members: Seq<Oid>, user: Seq<char>) -> Seq<Oid>
    decreases members.len(),
{
    if members.len() == 0 {
        members
    } else if ids::hex_of(members.last()) == user {
        told_of_channel(members.drop_last(), user)
    } else {
        told_of_channel(members.drop_last(), user).push(members.last())
    }
}

/// Picks the members who are told of a new channel.
pub fn members_to_tell(members: &Vec<Oid>, user: &str) -> (r: Vec<Oid>)
    ensures
        r@ == told_of_channel(members@, user@),
{
    let mut out: Vec<Oid> = Vec::new();
    let mut i: usize = 0;
    while i < members.len()
        invariant
            i <= members.len(),
            out@ == told_of_channel(members@.take(i as int), user@),
        decreases members.len() - i,
    {
        assert(members@.take(i + 1).drop_last() =~= members@.take(i as int));
        if !is_hex_of(members[i], user) {
            out.push(members[i]);
        }
        i += 1;
    }
    assert(members@.take(i as int) =~= members@);
    out
}

/// Exactly the members other than the creator are told of a new channel, and everyone in it gets a
/// read position, once: the members, the creator and the owner.
pub proof fn law_members_are_told_of_a_new_channel(
    members: Seq<Oid>,
    user: Seq<char>,
    creator: Oid,
    admin: Oid,
    who: Oid,
)
    ensures
        told_of_channel(members, user).contains(who) <==> members.contains(who) && ids::hex_of(who)
            != user,
        lists::distinct(lists::with(members, creator).push(admin)).contains(who)
            <==> members.contains(who) || who == creator || who == admin,
        lists::distinct(lists::with(members, creator).push(admin)).no_duplicates(),
{
    let all = lists::with(members, creator).push(admin);
    lists::law_distinct_keeps_each_item_once(all);
    lemma_told_of_channel(members, user, who);
    let with = lists::with(members, creator);
    lemma_push_contains(with, admin, who);
    if !members.contains(creator) {
        lemma_push_contains(members, creator, who);
    }
}

proof fn lemma_push_contains(s: Seq<Oid>, x: Oid, who: Oid)
    ensures
        s.push(x).contains(who) <==> s.contains(who) || who == x,
{
    assert(s.push(x)[s.len() as int] == x);
    if s.contains(who) {
        let i = choose|i: int| 0 <= i < s.len() && s[i] == who;
        assert(s.push(x)[i] == who);
    }
    if s.push(x).contains(who) && who != x {
        let i = choose|i: int| 0 <= i < s.push(x).len() && s.push(x)[i] == who;
        assert(s[i] == who);
    }
}

proof fn lemma_told_of_channel(members: Seq<Oid>, user: Seq<char>, who: Oid)
    ensures
        told_of_channel(members, user).contains(who) <==> members.contains(who) && ids::hex_of(who)
            != user,
    decreases members.len(),
{
    if members.len() > 0 {
        let rest = members.drop_last();
        lemma_told_of_channel(rest, user, who);
        lemma_push_contains(rest, members.last(), who);
        assert(rest.push(members.last()) =~= members);
        if ids::hex_of(members.last()) != user {
            lemma_push_contains(told_of_channel(rest, user), members.last(), who);
        }
    }
}

/// What is known while the channels of a user are listed.
#[derive(Clone, Copy, Debug)]
pub struct ChannelsFacts {
    /// The search for channels; `Missing` where its results could not be read.
    pub channels: Option<Lookup<()>>,
    pub user: Option<Lookup<()>>,
    pub enriched: Option<Done>,
}

/// What to do next while the channels of a user are listed.
#[derive(Debug, PartialEq, Eq)]
pub enum ChannelsStep {
    FindChannels(Oid),
    LoadUser(Oid),
    /// Load the owners, the counts of unread messages and the last messages.
    Enrich { user: Oid, owners: Vec<Oid> },
    /// Reply with the channels, in this order.
    Reply(Vec<ListedChannel>),
    Refuse(Refusal),
}

/// The view of `ChannelsStep`.
#[verifier::ext_equal]
pub enum ChannelsStepView {
    FindChannels(Oid),
    LoadUser(Oid),
    Enrich { user: Oid, owners: Seq<Oid> },
    Reply(Seq<ListedChannel>),
    Refuse(Refusal),
}

impl View for ChannelsStep {
    type V = ChannelsStepView;

    open spec fn view(&self) -> ChannelsStepView {
        match self {
            ChannelsStep::FindChannels(a) => ChannelsStepView::FindChannels(*a),
            ChannelsStep::LoadUser(a) => ChannelsStepView::LoadUser(*a),
            ChannelsStep::Enrich { user, owners } => ChannelsStepView::Enrich {
                user: *user,
                owners: owners@,
            },
            ChannelsStep::Reply(a) => ChannelsStepView::Reply(a@),
            ChannelsStep::Refuse(a) => ChannelsStepView::Refuse(*a),
        }
    }
}

/// A channel of a user, and what is known of it.
#[derive(Clone, Copy, Debug, PartialEq, Eq)]
pub struct OwnChannel {
    pub id: Option<Oid>,
    pub owner: Oid,
    /// When it was last changed.
    pub updated: i64,
    /// How many messages are unread, if that is known.
    pub unread: Option<u64>,
    /// When the last message was sent.
    pub last: Option<i64>,
}

/// A channel as it is listed.
#[derive(Clone, Copy, Debug, PartialEq, Eq)]
pub struct ListedChannel {
    /// Its place among the channels that were found.
    pub place: usize,
    pub unread: u64,
    pub last: Option<i64>,
    pub muted: bool,
}

/// The owners of channels, one for each.
pub open spec fn owners_of(all: Seq<OwnChannel>) -> Seq<Oid> {
    all.map_values(|c: OwnChannel| c.owner)
}

/// A channel as it is listed: nothing is unread where that is not known.
pub open spec fn listed(c: OwnChannel, place: usize, muted: Seq<Oid>) -> ListedChannel {
    ListedChannel {
        place,
        unread: match c.unread {
            None => 0,
            Some(n) => n,
        },
        last: c.last,
        muted: c.id is Some && muted.contains(c.id->0),
    }
}

/// The times by which channels are listed: of the last message, else of the last change.
pub open spec fn activity_times(last: Seq<Option<i64>>, updated: Seq<i64>) -> Seq<i64> {
    Seq::new(
        last.len(),
        |i: int|
            match last[i] {
                None => updated[i],
                Some(t) => t,
            },
    )
}

/// Orders channels by their last activity, newest first; those with the same time stay as they
/// were.
pub fn order_channels(last: &Vec<Option<i64>>, updated: &Vec<i64>) -> (r: Vec<usize>)
    requires
        last@.len() == updated@.len(),
    ensures
        crate::order::is_descending(
            activity_times(last@, updated@),
            last@.len() as int,
            r@,
        ),
{
    let mut keys: Vec<i64> = Vec::new();
    let mut i: usize = 0;
    while i < last.len()
        invariant
            i <= last.len(),
            last@.len() == updated@.len(),
            keys@ == activity_times(last@, updated@).take(i as int),
        decreases last.len() - i,
    {
        keys.push(
            match last[i] {
                None => updated[i],
                Some(t) => t,
            },
        );
        i += 1;
        assert(keys@ =~= activity_times(last@, updated@).take(i as int));
    }
    assert(keys@ =~= activity_times(last@, updated@));
    crate::order::descending(&keys)
}

/// The times by which the channels of a user are listed.
pub open spec fn channel_times(all: Seq<OwnChannel>) -> Seq<i64> {
    activity_times(
        all.map_values(|c: OwnChannel| c.last),
        all.map_values(|c: OwnChannel| c.updated),
    )
}

/// Whether `shown` lists `all`, by the last activity, newest first; those with the same time stay
/// as they were.
pub open spec fn is_channel_list(
    all: Seq<OwnChannel>,
    muted: Seq<Oid>,
    shown: Seq<ListedChannel>,
) -> bool {
    exists|order: Seq<usize>| #[trigger]
        crate::order::is_descending(channel_times(all), all.len() as int, order) && shown
            == order.map_values(|i: usize| listed(all[i as int], i, muted))
}

fn distinct_owners(all: &Vec<OwnChannel>) -> (r: Vec<Oid>)
    ensures
        r@ == lists::distinct(owners_of(all@)),
{
    let mut owners: Vec<Oid> = Vec::new();
    let mut i: usize = 0;
    while i < all.len()
        invariant
            i <= all.len(),
            owners@.len() == i,
            forall|j: int| 0 <= j < i ==> #[trigger] owners@[j] == all@[j].owner,
        decreases all.len() - i,
    {
        owners.push(all[i].owner);
        i += 1;
    }
    assert(owners@ =~= owners_of(all@));
    lists::distinct_oids(&owners)
}

/// Lists the channels of a user.
pub fn list_channels(all: &Vec<OwnChannel>, muted: &Vec<Oid>) -> (r: Vec<ListedChannel>)
    ensures
        is_channel_list(all@, muted@, r@),
{
    let mut last: Vec<Option<i64>> = Vec::new();
    let mut updated: Vec<i64> = Vec::new();
    let mut i: usize = 0;
    while i < all.len()
        invariant
            i <= all.len(),
            last@.len() == i,
            updated@.len() == i,
            forall|j: int| 0 <= j < i ==> #[trigger] last@[j] == all@[j].last,
            forall|j: int| 0 <= j < i ==> #[trigger] updated@[j] == all@[j].updated,
        decreases all.len() - i,
    {
        last.push(all[i].last);
        updated.push(all[i].updated);
        i += 1;
    }
    let order = order_channels(&last, &updated);
    assert(last@ =~= all@.map_values(|c: OwnChannel| c.last));
    assert(updated@ =~= all@.map_values(|c: OwnChannel| c.updated));
    let ghost times = channel_times(all@);
    let mut shown: Vec<ListedChannel> = Vec::new();
    let mut k: usize = 0;
    while k < order.len()
        invariant
            k <= order.len(),
            crate::order::is_descending(times, all@.len() as int, order@),
            shown@.len() == k,
            forall|j: int|
                0 <= j < k ==> #[trigger] shown@[j] == listed(
                    all@[order@[j] as int],
                    order@[j],
                    muted@,
                ),
        decreases order.len() - k,
    {
        let place: usize = order[k];
        let c = all[place];
        let unread: u64 = match c.unread {
            None => 0,
            Some(n) => n,
        };
        let is_muted = match c.id {
            None => false,
            Some(id) => lists::has_oid(muted, id),
        };
        shown.push(ListedChannel { place, unread, last: c.last, muted: is_muted });
        k += 1;
    }
    assert(shown@ =~= order@.map_values(|i: usize| listed(all@[i as int], i, muted@)));
    shown
}

/// Every channel that was found is listed, once, and counts as muted exactly where the user has
/// muted it.
pub proof fn law_every_channel_is_listed(
    all: Seq<OwnChannel>,
    muted: Seq<Oid>,
    shown: Seq<ListedChannel>,
    place: int,
)
    requires
        is_channel_list(all, muted, shown),
        0 <= place < all.len(),
    ensures
        shown.len() == all.len(),
        shown.contains(listed(all[place], place as usize, muted)),
{
    let times = channel_times(all);
    let order = choose|order: Seq<usize>| #[trigger]
        crate::order::is_descending(times, all.len() as int, order) && shown == order.map_values(
            |i: usize| listed(all[i as int], i, muted),
        );
    crate::order::lemma_holds_each(times, all.len() as int, order, place);
    let k = choose|k: int| 0 <= k < order.len() && order[k] == place;
    assert(order[k] == place as usize);
    assert(shown[k] == listed(all[place], place as usize, muted));
}

/// The steps up to the point where the channels can be shown; none once they can.
pub open spec fn channels_gate(
    user: Option<&str>,
    all: Seq<OwnChannel>,
    f: ChannelsFacts,
) -> Option<ChannelsStepView> {
    let uid = ids::oid_of(user_text(user));
    if uid is None {
        Some(ChannelsStepView::Refuse(message(500, "Internal Server Error")))
    } else if f.channels is None {
        Some(ChannelsStepView::FindChannels(uid->0))
    } else if f.channels->0 is Failed {
        Some(ChannelsStepView::Refuse(message(500, "Internal Server Error")))
    } else if f.channels->0 is Missing {
        Some(ChannelsStepView::Refuse(channels_unavailable()))
    } else if f.user is None {
        Some(ChannelsStepView::LoadUser(uid->0))
    } else if f.user->0 is Missing {
        Some(ChannelsStepView::Refuse(message(401, "Unauthorized")))
    } else if f.user->0 is Failed {
        Some(ChannelsStepView::Refuse(channels_unavailable()))
    } else {
        match f.enriched {
            None => Some(
                ChannelsStepView::Enrich { user: uid->0, owners: lists::distinct(owners_of(all)) },
            ),
            Some(Done::Failed) => Some(ChannelsStepView::Refuse(channels_unavailable())),
            Some(Done::Worked) => None,
        }
    }
}

/// Decides the next step of listing the channels of a user: `all` are those, as they were found,
/// `muted` the ones that the user has muted.
pub fn get_user_channels(
    user: Option<&str>,
    all: &Vec<OwnChannel>,
    muted: &Vec<Oid>,
    f: &ChannelsFacts,
) -> (r: ChannelsStep)
    ensures
        match channels_gate(user, all@, *f) {
            Some(s) => r@ == s,
            None => r is Reply && is_channel_list(all@, muted@, r->Reply_0@),
        },
{
    let uid = match parse_oid(user_or_empty(user).as_str()) {
        None => return ChannelsStep::Refuse(message(500, "Internal Server Error")),
        Some(id) => id,
    };
    match f.channels {
        None => return ChannelsStep::FindChannels(uid),
        Some(Lookup::Failed) => {
            return ChannelsStep::Refuse(message(500, "Internal Server Error"));
        },
        Some(Lookup::Missing) => return ChannelsStep::Refuse(channels_unavailable()),
        Some(Lookup::Found(_)) => {},
    }
    match f.user {
        None => return ChannelsStep::LoadUser(uid),
        Some(Lookup::Missing) => return ChannelsStep::Refuse(message(401, "Unauthorized")),
        Some(Lookup::Failed) => return ChannelsStep::Refuse(channels_unavailable()),
        Some(Lookup::Found(_)) => {},
    }
    match f.enriched {
        None => ChannelsStep::Enrich { user: uid, owners: distinct_owners(all) },
        Some(Done::Failed) => ChannelsStep::Refuse(channels_unavailable()),
        Some(Done::Worked) => ChannelsStep::Reply(list_channels(all, muted)),
    }
}

/// The channels of a known user are shown: the request is not refused while nothing fails, asks only
/// for what is not known yet, and every owner is looked up once.
pub proof fn law_own_channels_are_shown(
    user: Option<&str>,
    all: Seq<OwnChannel>,
    f: ChannelsFacts,
    owner: Oid,
)
    requires
        ids::oid_of(user_text(user)) is Some,
    ensures
        ({
            let s = channels_gate(user, all, f);
            let uid = ids::oid_of(user_text(user))->0;
            let found = f.channels is Some && f.channels->0 is Found && f.user is Some && f.user->0
                is Found;
            &&& f.channels is None ==> s == Some(ChannelsStepView::FindChannels(uid))
            &&& f.channels is Some && f.channels->0 is Found && f.user is None ==> s == Some(
                ChannelsStepView::LoadUser(uid),
            )
            &&& found && f.enriched is None ==> s is Some && s->0 is Enrich
            &&& s matches Some(ChannelsStepView::Enrich { user: u, owners }) ==> u == uid && (
            owners.contains(owner) <==> exists|i: int|
                0 <= i < all.len() && (#[trigger] all[i]).owner == owner) && owners.no_duplicates()
            &&& found && f.enriched == Some(Done::Worked) <==> s is None
            &&& s matches Some(ChannelsStepView::Refuse(r)) ==> f.channels->0 !is Found || (f.user
                is Some && f.user->0 !is Found) || f.enriched == Some(Done::Failed)
        }),
{
    let owners = owners_of(all);
    lists::law_distinct_keeps_each_item_once(owners);
    if exists|i: int| 0 <= i < all.len() && (#[trigger] all[i]).owner == owner {
        let i = choose|i: int| 0 <= i < all.len() && (#[trigger] all[i]).owner == owner;
        assert(owners[i] == owner);
    }
    if owners.contains(owner) {
        let i = choose|i: int| 0 <= i < owners.len() && owners[i] == owner;
        assert(all[i].owner == owner);
    }
}

/// The page size that a query asks for, within its bounds.
pub open spec fn channel_page_size(asked: Option<Seq<char>>) -> i64 {
    let n = match asked {
        None => DEFAULT_CHANNEL_MESSAGE_LIMIT,
        Some(s) => match text::i64_of(s) {
            None => DEFAULT_CHANNEL_MESSAGE_LIMIT,
            Some(n) => n,
        },
    };
    if n < 1 {
        1
    } else if n > MAX_CHANNEL_MESSAGE_LIMIT {
        MAX_CHANNEL_MESSAGE_LIMIT
    } else {
        n
    }
}

/// What is known while a page of a channel is read.
#[derive(Clone, Copy, Debug)]
pub struct ChannelPageFacts {
    pub access: Option<Access>,
    pub page: Option<Done>,
}

/// What to do next for a page of a channel.
#[derive(Clone, Copy, Debug, PartialEq, Eq)]
pub enum ChannelPageStep {
    CheckAccess,
    /// Fetch the newest messages that are not deleted, at most `fetch`, before the position.
    Find { channel: Oid, before: Option<Oid>, fetch: i64 },
    /// Reply with the page of at most `limit` messages.
    Page { limit: i64 },
    Refuse(Refusal),
}

/// The position that a query names, unless it is blank.
pub open spec fn position_text(before: Option<Seq<char>>) -> Option<Seq<char>> {
    match before {
        None => None,
        Some(s) => if text::trimmed(s).len() == 0 {
            None
        } else {
            Some(text::trimmed(s))
        },
    }
}

pub open spec fn channel_page_step(
    channel_id: &str,
    limit: Option<Seq<char>>,
    before: Option<Seq<char>>,
    f: ChannelPageFacts,
) -> ChannelPageStep {
    let size = channel_page_size(limit);
    let at = position_text(before);
    if f.access is None {
        ChannelPageStep::CheckAccess
    } else if f.access->0 is Unavailable {
        ChannelPageStep::Refuse(again(message(503, f.access->0->Unavailable_0)))
    } else if f.access->0 is Denied {
        ChannelPageStep::Refuse(message(404, f.access->0->Denied_0))
    } else if ids::oid_of(channel_id@) is None {
        ChannelPageStep::Refuse(message(400, "Invalid channel id"))
    } else if at is Some && ids::oid_of(at->0) is None {
        ChannelPageStep::Refuse(message(400, "Invalid cursor"))
    } else if f.page is None {
        ChannelPageStep::Find {
            channel: ids::oid_of(channel_id@)->0,
            before: if at is Some {
                ids::oid_of(at->0)
            } else {
                None
            },
            fetch: (size + 1) as i64,
        }
    } else if f.page->0 is Failed {
        ChannelPageStep::Refuse(message(500, "Internal Server Error"))
    } else {
        ChannelPageStep::Page { limit: size }
    }
}

/// Decides the next step of reading a page of a channel; `query` is the query of the request.
pub fn get_channel_messages(channel_id: &str, query: &str, f: &ChannelPageFacts) -> (r:
    ChannelPageStep)
    ensures
        r == channel_page_step(
            channel_id,
            query::form_value(query@, "limit"@),
            query::form_value(query@, "before"@),
            *f,
        ),
{
    let limit = query::read_form_value(query, "limit");
    let before = query::read_form_value(query, "before");
    show_channel_page(channel_id, text::as_opt_str(&limit), text::as_opt_str(&before), f)
}

/// Decides the next step of reading a page of a channel. `limit` and `before` are members of
/// the query.
pub fn show_channel_page(
    channel_id: &str,
    limit: Option<&str>,
    before: Option<&str>,
    f: &ChannelPageFacts,
) -> (r: ChannelPageStep)
    ensures
        r == channel_page_step(channel_id, text::opt_str(limit), text::opt_str(before), *f),
{
    match f.access {
        None => return ChannelPageStep::CheckAccess,
        Some(Access::Unavailable(why)) => {
            return ChannelPageStep::Refuse(again(message(503, why)));
        },
        Some(Access::Denied(why)) => return ChannelPageStep::Refuse(message(404, why)),
        Some(Access::Granted) => {},
    }
    let channel = match parse_oid(channel_id) {
        None => return ChannelPageStep::Refuse(message(400, "Invalid channel id")),
        Some(id) => id,
    };
    let n: i64 = match limit {
        None => DEFAULT_CHANNEL_MESSAGE_LIMIT,
        Some(s) => match text::parse_i64(s) {
            None => DEFAULT_CHANNEL_MESSAGE_LIMIT,
            Some(n) => n,
        },
    };
    let size: i64 = if n < 1 {
        1
    } else if n > MAX_CHANNEL_MESSAGE_LIMIT {
        MAX_CHANNEL_MESSAGE_LIMIT
    } else {
        n
    };
    let mut at: Option<Oid> = None;
    if let Some(s) = before {
        let t = text::trim(s);
        if !t.as_str().is_empty() {
            match parse_oid(t.as_str()) {
                None => return ChannelPageStep::Refuse(message(400, "Invalid cursor")),
                Some(id) => {
                    at = Some(id);
                },
            }
        }
    }
    match f.page {
        None => ChannelPageStep::Find { channel, before: at, fetch: size + 1 },
        Some(Done::Failed) => ChannelPageStep::Refuse(message(500, "Internal Server Error")),
        Some(Done::Worked) => ChannelPageStep::Page { limit: size },
    }
}

/// A page of a channel is shown to users with access: newest messages before the position, if one is
/// given, one more than the page holds. A page has 30 messages unless another number from 1 to 50 is
/// asked for; numbers outside are brought to the nearest of these.
pub proof fn law_channel_page_is_shown(
    channel_id: &str,
    limit: Option<Seq<char>>,
    before: Option<Seq<char>>,
    f: ChannelPageFacts,
)
    ensures
        ({
            let s = channel_page_step(channel_id, limit, before, f);
            let size = channel_page_size(limit);
            let from_start = before is None || text::trimmed(before->0).len() == 0;
            let fits = ids::oid_of(channel_id@) is Some && (from_start || ids::oid_of(
                text::trimmed(before->0),
            ) is Some);
            &&& 1 <= size <= 50
            &&& limit is None || text::i64_of(limit->0) is None ==> size == 30
            &&& limit is Some && text::i64_of(limit->0) is Some && 1 <= text::i64_of(limit->0)->0
                <= 50 ==> size == text::i64_of(limit->0)->0
            &&& limit is Some && text::i64_of(limit->0) is Some && text::i64_of(limit->0)->0 < 1
                ==> size == 1
            &&& limit is Some && text::i64_of(limit->0) is Some && text::i64_of(limit->0)->0 > 50
                ==> size == 50
            &&& s is CheckAccess <==> f.access is None
            &&& f.access == Some(Access::Granted) && fits && f.page is None ==> s == (
            ChannelPageStep::Find {
                channel: ids::oid_of(channel_id@)->0,
                before: if from_start {
                    None
                } else {
                    ids::oid_of(text::trimmed(before->0))
                },
                fetch: (size + 1) as i64,
            })
            &&& f.access == Some(Access::Granted) && fits && f.page == Some(Done::Worked) ==> s == (
            ChannelPageStep::Page { limit: size })
            &&& s is Find || s is Page ==> f.access == Some(Access::Granted) && fits
            &&& s is Find ==> f.page is None
            &&& s is Page ==> f.page == Some(Done::Worked)
        }),
{
}

/// What is known while a channel is shown or muted by a user.
#[derive(Clone, Copy, Debug)]
pub struct ViewFacts {
    /// The channel; whether the user has access to it.
    pub channel: Option<Lookup<bool>>,
    pub user: Option<Lookup<()>>,
    /// The lists of banned and muted members were loaded.
    pub lists: Option<Done>,
    pub encoded: Option<Done>,
    pub stored: Option<Done>,
}

/// What to do next while a channel is shown or muted by a user.
#[derive(Clone, Copy, Debug, PartialEq, Eq)]
pub enum ViewStep {
    LoadChannel(Oid),
    LoadUser(Oid),
    /// Load the lists of banned and muted members.
    LoadLists(Oid),
    Reply(Oid),
    Refuse(Refusal),
}

/// The reply where a channel is not there or not for the user.
#[verifier::allow_in_spec]
pub fn no_channel_access() -> Refusal
    returns
        message(404, "Kanał nie znaleziony lub brak dostępu"),
{
    message(404, "Kanał nie znaleziony lub brak dostępu")
}

pub open spec fn details_step(user: Option<&str>, channel_id: &str, f: ViewFacts) -> ViewStep {
    let cid = ids::oid_of(channel_id@);
    let uid = ids::oid_of(user_text(user));
    if cid is None {
        ViewStep::Refuse(no_channel_access())
    } else if f.channel is None {
        ViewStep::LoadChannel(cid->0)
    } else if f.channel->0 is Failed {
        ViewStep::Refuse(message_unavailable())
    } else if f.channel->0 != Lookup::Found(true) {
        ViewStep::Refuse(no_channel_access())
    } else if uid is None {
        ViewStep::Refuse(no_channel_access())
    } else if f.user is None {
        ViewStep::LoadUser(uid->0)
    } else if f.user->0 is Missing {
        ViewStep::Refuse(message(401, "Unauthorized"))
    } else if f.user->0 is Failed {
        ViewStep::Refuse(again(channels_unavailable()))
    } else {
        match f.lists {
            None => ViewStep::LoadLists(cid->0),
            Some(Done::Failed) => ViewStep::Refuse(again(channels_unavailable())),
            Some(Done::Worked) => ViewStep::Reply(cid->0),
        }
    }
}

/// Decides the next step of showing a channel.
pub fn get_channel_details(user: Option<&str>, channel_id: &str, f: &ViewFacts) -> (r: ViewStep)
    ensures
        r == details_step(user, channel_id, *f),
{
    let cid = match parse_oid(channel_id) {
        None => return ViewStep::Refuse(no_channel_access()),
        Some(id) => id,
    };
    match f.channel {
        None => return ViewStep::LoadChannel(cid),
        Some(Lookup::Failed) => return ViewStep::Refuse(message_unavailable()),
        Some(Lookup::Found(true)) => {},
        _ => return ViewStep::Refuse(no_channel_access()),
    }
    let uid = match parse_oid(user_or_empty(user).as_str()) {
        None => return ViewStep::Refuse(no_channel_access()),
        Some(id) => id,
    };
    match f.user {
        None => return ViewStep::LoadUser(uid),
        Some(Lookup::Missing) => return ViewStep::Refuse(message(401, "Unauthorized")),
        Some(Lookup::Failed) => return ViewStep::Refuse(again(channels_unavailable())),
        Some(Lookup::Found(_)) => {},
    }
    match f.lists {
        None => ViewStep::LoadLists(cid),
        Some(Done::Failed) => ViewStep::Refuse(again(channels_unavailable())),
        Some(Done::Worked) => ViewStep::Reply(cid),
    }
}

/// A user with access sees the details of a channel: the request is not refused while nothing fails,
/// and asks only for what is not known yet; nobody else sees them.
pub proof fn law_details_are_shown_with_access(
    user: Option<&str>,
    channel_id: &str,
    f: ViewFacts,
)
    ensures
        ({
            let s = details_step(user, channel_id, f);
            let cid = ids::oid_of(channel_id@);
            let uid = ids::oid_of(user_text(user));
            let fits = cid is Some && uid is Some && (f.channel is None || f.channel == Some(
                Lookup::Found(true),
            )) && (f.user is None || f.user->0 is Found) && f.lists != Some(Done::Failed);
            &&& fits ==> s !is Refuse
            &&& fits && f.channel is None ==> s == ViewStep::LoadChannel(cid->0)
            &&& fits && f.channel is Some && f.user is None ==> s == ViewStep::LoadUser(uid->0)
            &&& fits && f.channel is Some && f.user is Some && f.lists is None ==> s
                == ViewStep::LoadLists(cid->0)
            &&& fits && f.channel is Some && f.user is Some && f.lists is Some ==> s
                == ViewStep::Reply(cid->0)
            &&& s is Reply || s is LoadLists ==> f.channel == Some(Lookup::Found(true)) && uid is
                Some && f.user is Some && f.user->0 is Found
            &&& s is Reply ==> f.lists == Some(Done::Worked)
            &&& s is LoadUser ==> f.channel == Some(Lookup::Found(true))
        }),
{
}

/// What to do next while a channel is muted by a user.
#[derive(Debug, PartialEq, Eq)]
pub enum MuteStep {
    LoadChannel(Oid),
    LoadUser(Oid),
    /// Encode the list of muted channels.
    Encode(Vec<Oid>),
    /// Store the channels that the user has muted.
    StoreMutes { user: Oid, channels: Vec<Oid> },
    Reply { channel: Oid, is_muted: bool, text: &'static str },
    Refuse(Refusal),
}

/// The view of `MuteStep`.
#[verifier::ext_equal]
pub enum MuteStepView {
    LoadChannel(Oid),
    LoadUser(Oid),
    Encode(Seq<Oid>),
    StoreMutes { user: Oid, channels: Seq<Oid> },
    Reply { channel: Oid, is_muted: bool, text: &'static str },
    Refuse(Refusal),
}

impl View for MuteStep {
    type V = MuteStepView;

    open spec fn view(&self) -> MuteStepView {
        match self {
            MuteStep::LoadChannel(a) => MuteStepView::LoadChannel(*a),
            MuteStep::LoadUser(a) => MuteStepView::LoadUser(*a),
            MuteStep::Encode(a) => MuteStepView::Encode(a@),
            MuteStep::StoreMutes { user, channels } => MuteStepView::StoreMutes {
                user: *user,
                channels: channels@,
            },
            MuteStep::Reply { channel, is_muted, text } => MuteStepView::Reply {
                channel: *channel,
                is_muted: *is_muted,
                text: *text,
            },
            MuteStep::Refuse(a) => MuteStepView::Refuse(*a),
        }
    }
}

/// The words for a mute and for its end.
#[verifier::allow_in_spec]
pub fn mute_words(muted: bool) -> &'static str
    returns
        (if muted {
            "Kanał wyciszony"
        } else {
            "Wyciszenie wyłączone"
        }),
{
    if muted {
        "Kanał wyciszony"
    } else {
        "Wyciszenie wyłączone"
    }
}

pub open spec fn toggle_mute_step(
    user: Option<&str>,
    channel_id: &str,
    muted: Seq<Oid>,
    f: ViewFacts,
) -> MuteStepView {
    let cid = ids::oid_of(channel_id@);
    let uid = ids::oid_of(user_text(user));
    let no_user = MuteStepView::Refuse(message(404, "Użytkownik nie znaleziony"));
    if cid is None {
        MuteStepView::Refuse(no_channel_access())
    } else if f.channel is None {
        MuteStepView::LoadChannel(cid->0)
    } else if f.channel->0 is Failed {
        MuteStepView::Refuse(message_unavailable())
    } else if f.channel->0 != Lookup::Found(true) {
        MuteStepView::Refuse(no_channel_access())
    } else if uid is None {
        no_user
    } else if f.user is None {
        MuteStepView::LoadUser(uid->0)
    } else if f.user->0 is Missing {
        no_user
    } else if f.user->0 is Failed {
        MuteStepView::Refuse(message_unavailable())
    } else if f.encoded is None {
        MuteStepView::Encode(lists::toggled(muted, cid->0))
    } else if f.encoded->0 is Failed {
        MuteStepView::Refuse(message(500, "Internal Server Error"))
    } else if f.stored is None {
        MuteStepView::StoreMutes { user: uid->0, channels: lists::toggled(muted, cid->0) }
    } else if f.stored->0 is Failed {
        MuteStepView::Refuse(message(500, "Internal Server Error"))
    } else {
        MuteStepView::Reply {
            channel: cid->0,
            is_muted: !muted.contains(cid->0),
            text: mute_words(!muted.contains(cid->0)),
        }
    }
}

/// Decides the next step of muting a channel, or of ending that; `muted` are the channels that
/// the user had muted.
pub fn toggle_channel_mute(
    user: Option<&str>,
    channel_id: &str,
    muted: &Vec<Oid>,
    f: &ViewFacts,
) -> (r: MuteStep)
    ensures
        r@ == toggle_mute_step(user, channel_id, muted@, *f),
{
    let cid = match parse_oid(channel_id) {
        None => return MuteStep::Refuse(no_channel_access()),
        Some(id) => id,
    };
    match f.channel {
        None => return MuteStep::LoadChannel(cid),
        Some(Lookup::Failed) => return MuteStep::Refuse(message_unavailable()),
        Some(Lookup::Found(true)) => {},
        _ => return MuteStep::Refuse(no_channel_access()),
    }
    let uid = match parse_oid(user_or_empty(user).as_str()) {
        None => return MuteStep::Refuse(message(404, "Użytkownik nie znaleziony")),
        Some(id) => id,
    };
    match f.user {
        None => return MuteStep::LoadUser(uid),
        Some(Lookup::Missing) => {
            return MuteStep::Refuse(message(404, "Użytkownik nie znaleziony"));
        },
        Some(Lookup::Failed) => return MuteStep::Refuse(message_unavailable()),
        Some(Lookup::Found(_)) => {},
    }
    let after = switch_mute(muted, cid);
    match f.encoded {
        None => return MuteStep::Encode(after.channels),
        Some(Done::Failed) => return MuteStep::Refuse(message(500, "Internal Server Error")),
        Some(Done::Worked) => {},
    }
    match f.stored {
        None => MuteStep::StoreMutes { user: uid, channels: after.channels },
        Some(Done::Failed) => MuteStep::Refuse(message(500, "Internal Server Error")),
        Some(Done::Worked) => MuteStep::Reply {
            channel: cid,
            is_muted: after.is_muted,
            text: after.text,
        },
    }
}

/// Muting a channel is for users with access and goes through while nothing fails: the stored list
/// differs from the old one in that channel alone, and the reply says whether it is muted now.
pub proof fn law_mute_is_switched_for_that_channel(
    user: Option<&str>,
    channel_id: &str,
    muted: Seq<Oid>,
    f: ViewFacts,
    other: Oid,
)
    requires
        muted.no_duplicates(),
    ensures
        ({
            let s = toggle_mute_step(user, channel_id, muted, f);
            let cid = ids::oid_of(channel_id@);
            let uid = ids::oid_of(user_text(user));
            let fits = cid is Some && uid is Some && (f.channel is None || f.channel == Some(
                Lookup::Found(true),
            )) && (f.user is None || f.user->0 is Found) && f.encoded != Some(Done::Failed)
                && f.stored != Some(Done::Failed);
            let known = f.channel is Some && f.user is Some;
            &&& fits ==> s !is Refuse
            &&& fits && f.channel is None ==> s == MuteStepView::LoadChannel(cid->0)
            &&& fits && f.channel is Some && f.user is None ==> s == MuteStepView::LoadUser(uid->0)
            &&& fits && known && f.encoded is None ==> s is Encode
            &&& fits && known && f.encoded is Some && f.stored is None ==> s is StoreMutes
            &&& fits && known && f.encoded is Some && f.stored is Some ==> s is Reply
            &&& s is Encode ==> f.encoded is None
            &&& s matches MuteStepView::Encode(all) ==> (all.contains(cid->0) <==> !muted.contains(
                cid->0,
            )) && (other != cid->0 ==> (all.contains(other) <==> muted.contains(other)))
            &&& s matches MuteStepView::StoreMutes { user: u, channels: all } ==> Some(u) == uid
                && f.stored is None && (all.contains(cid->0) <==> !muted.contains(cid->0)) && (other
                != cid->0 ==> (all.contains(other) <==> muted.contains(other)))
                && f.channel == Some(Lookup::Found(true))
            &&& s matches MuteStepView::Reply { channel, is_muted, text } ==> cid == Some(channel)
                && is_muted == !muted.contains(channel) && f.stored == Some(Done::Worked) && (
            is_muted ==> text == "Kanał wyciszony") && (!is_muted ==> text == "Wyciszenie wyłączone")
        }),
{
    if ids::oid_of(channel_id@) is Some {
        lists::law_toggle_switches_one_membership(muted, ids::oid_of(channel_id@)->0);
    }
}

/// A list of muted channels after one was switched.
pub struct Mutes {
    pub channels: Vec<Oid>,
    pub is_muted: bool,
    pub text: &'static str,
}

/// Switches whether a channel is muted.
pub fn switch_mute(muted: &Vec<Oid>, channel: Oid) -> (r: Mutes)
    ensures
        r.channels@ == lists::toggled(muted@, channel),
        r.is_muted == !muted@.contains(channel),
        r.text == mute_words(r.is_muted),
{
    let is_muted = !lists::has_oid(muted, channel);
    Mutes { channels: lists::toggle_oid(muted, channel), is_muted, text: mute_words(is_muted) }
}

/// What is known while the owner of a channel changes it.
#[derive(Clone, Copy, Debug)]
pub struct OwnerFacts {
    /// The channel, and who owns it.
    pub channel: Option<Lookup<Oid>>,
    pub stored: Option<Done>,
}

/// What the owner of a channel changes in it.
#[derive(Debug, PartialEq, Eq)]
pub enum ChannelChange {
    Rename(String),
    /// Set the pause between messages, in seconds.
    Slowmode(u32),
    Lock(bool),
    /// Delete the channel.
    Delete,
}

/// The view of `ChannelChange`.
#[verifier::ext_equal]
pub enum ChannelChangeView {
    Rename(Seq<char>),
    Slowmode(u32),
    Lock(bool),
    Delete,
}

impl View for ChannelChange {
    type V = ChannelChangeView;

    open spec fn view(&self) -> ChannelChangeView {
        match self {
            ChannelChange::Rename(a) => ChannelChangeView::Rename(a@),
            ChannelChange::Slowmode(a) => ChannelChangeView::Slowmode(*a),
            ChannelChange::Lock(a) => ChannelChangeView::Lock(*a),
            ChannelChange::Delete => ChannelChangeView::Delete,
        }
    }
}

/// The event by which those in a channel hear of a change.
pub open spec fn event_of(change: ChannelChangeView) -> &'static str {
    match change {
        ChannelChangeView::Rename(_) => "channel-name-updated",
        ChannelChangeView::Slowmode(_) => "channel-slowmode-updated",
        ChannelChangeView::Lock(_) => "channel-chat-locked-updated",
        ChannelChangeView::Delete => "channel-deleted",
    }
}

/// Reads the event by which those in a channel hear of a change.
pub fn change_event(change: &ChannelChange) -> (r: &'static str)
    ensures
        r == event_of(change@),
{
    match change {
        ChannelChange::Rename(_) => "channel-name-updated",
        ChannelChange::Slowmode(_) => "channel-slowmode-updated",
        ChannelChange::Lock(_) => "channel-chat-locked-updated",
        ChannelChange::Delete => "channel-deleted",
    }
}

/// What to do next while the owner of a channel changes it.
#[derive(Debug, PartialEq, Eq)]
pub enum OwnerStep {
    Load(Oid),
    Store { channel: Oid, change: ChannelChange },
    /// Tell everyone in the channel, and reply.
    TellAndReply { channel: Oid, change: ChannelChange, event: &'static str },
    Refuse(Refusal),
}

/// The view of `OwnerStep`.
#[verifier::ext_equal]
pub enum OwnerStepView {
    Load(Oid),
    Store { channel: Oid, change: ChannelChangeView },
    TellAndReply { channel: Oid, change: ChannelChangeView, event: &'static str },
    Refuse(Refusal),
}

impl View for OwnerStep {
    type V = OwnerStepView;

    open spec fn view(&self) -> OwnerStepView {
        match self {
            OwnerStep::Load(a) => OwnerStepView::Load(*a),
            OwnerStep::Store { channel, change } => OwnerStepView::Store {
                channel: *channel,
                change: change@,
            },
            OwnerStep::TellAndReply { channel, change, event } => OwnerStepView::TellAndReply {
                channel: *channel,
                change: change@,
                event: *event,
            },
            OwnerStep::Refuse(a) => OwnerStepView::Refuse(*a),
        }
    }
}

/// The steps of a change that only the owner of a channel may make.
pub open spec fn owner_step(
    change: ChannelChangeView,
    user: Option<&str>,
    channel_id: &str,
    missing: Refusal,
    down: Refusal,
    not_owner: Refusal,
    failed: Refusal,
    f: OwnerFacts,
) -> OwnerStepView {
    let cid = ids::oid_of(channel_id@);
    if cid is None {
        OwnerStepView::Refuse(missing)
    } else if f.channel is None {
        OwnerStepView::Load(cid->0)
    } else if f.channel->0 is Missing {
        OwnerStepView::Refuse(missing)
    } else if f.channel->0 is Failed {
        OwnerStepView::Refuse(down)
    } else if ids::hex_of(f.channel->0->0) != user_text(user) {
        OwnerStepView::Refuse(not_owner)
    } else {
        match f.stored {
            None => OwnerStepView::Store { channel: cid->0, change },
            Some(Done::Failed) => OwnerStepView::Refuse(failed),
            Some(Done::Worked) => OwnerStepView::TellAndReply {
                channel: cid->0,
                change,
                event: event_of(change),
            },
        }
    }
}

/// Decides the next step of a change that only the owner of a channel may make.
pub(crate) fn owner_change(
    change: ChannelChange,
    user: Option<&str>,
    channel_id: &str,
    missing: Refusal,
    down: Refusal,
    not_owner: Refusal,
    failed: Refusal,
    f: &OwnerFacts,
) -> (r: OwnerStep)
    ensures
        r@ == owner_step(change@, user, channel_id, missing, down, not_owner, failed, *f),
{
    let cid = match parse_oid(channel_id) {
        None => return OwnerStep::Refuse(missing),
        Some(id) => id,
    };
    let admin = match f.channel {
        None => return OwnerStep::Load(cid),
        Some(Lookup::Missing) => return OwnerStep::Refuse(missing),
        Some(Lookup::Failed) => return OwnerStep::Refuse(down),
        Some(Lookup::Found(a)) => a,
    };
    if !is_hex_of(admin, user_or_empty(user).as_str()) {
        return OwnerStep::Refuse(not_owner);
    }
    match f.stored {
        None => OwnerStep::Store { channel: cid, change },
        Some(Done::Failed) => OwnerStep::Refuse(failed),
        Some(Done::Worked) => {
            let event = change_event(&change);
            OwnerStep::TellAndReply { channel: cid, change, event }
        },
    }
}

/// Nothing that only the owner may change is stored for anyone else, and no reply says that it
/// was stored before it was.
pub proof fn law_owner_alone_changes_channel(
    change: ChannelChangeView,
    user: Option<&str>,
    channel_id: &str,
    missing: Refusal,
    down: Refusal,
    not_owner: Refusal,
    failed: Refusal,
    f: OwnerFacts,
)
    ensures
        ({
            let s = owner_step(change, user, channel_id, missing, down, not_owner, failed, f);
            &&& s is Store || s is TellAndReply ==> f.channel is Some && f.channel->0 is Found && ids::hex_of(
                f.channel->0->0,
            ) == user_text(user)
            &&& s is TellAndReply ==> f.stored == Some(Done::Worked)
        }),
{
}

/// The owner of a channel can change it: the change that was asked for is stored, and then everyone is
/// told of it by its event. Others are refused, and so is a change that could not be stored.
pub proof fn law_owner_changes_the_channel(
    change: ChannelChangeView,
    user: Option<&str>,
    channel_id: &str,
    missing: Refusal,
    down: Refusal,
    not_owner: Refusal,
    failed: Refusal,
    f: OwnerFacts,
)
    requires
        ids::oid_of(channel_id@) is Some,
    ensures
        ({
            let s = owner_step(change, user, channel_id, missing, down, not_owner, failed, f);
            let channel = ids::oid_of(channel_id@)->0;
            let own = f.channel is Some && f.channel->0 is Found && ids::hex_of(f.channel->0->0)
                == user_text(user);
            &&& f.channel is None ==> s == OwnerStepView::Load(channel)
            &&& own && f.stored is None ==> s == (OwnerStepView::Store { channel, change })
            &&& own && f.stored == Some(Done::Worked) ==> s is TellAndReply
            &&& own && f.stored == Some(Done::Failed) ==> s == OwnerStepView::Refuse(failed)
            &&& f.channel is Some && f.channel->0 is Found && !own ==> s == OwnerStepView::Refuse(
                not_owner,
            )
            &&& f.channel is Some && f.channel->0 is Missing ==> s == OwnerStepView::Refuse(missing)
            &&& f.channel is Some && f.channel->0 is Failed ==> s == OwnerStepView::Refuse(down)
            &&& s is Store ==> f.stored is None
            &&& s matches OwnerStepView::TellAndReply { channel: c, change: told, event } ==> c
                == channel && told == change && (change is Rename ==> event
                == "channel-name-updated") && (change is Slowmode ==> event
                == "channel-slowmode-updated") && (change is Lock ==> event
                == "channel-chat-locked-updated") && (change is Delete ==> event
                == "channel-deleted")
        }),
{
}

/// Decides the next step of renaming a channel. `name` is the new name after cleaning.
pub fn rename_channel(user: Option<&str>, channel_id: &str, name: &str, f: &OwnerFacts) -> (r: OwnerStep)
    ensures
        r@ == (if name@.len() < 3 || name@.len() > 50 {
            OwnerStepView::Refuse(error(400, "Nazwa kanału musi mieć od 3 do 50 znaków"))
        } else {
            owner_step(
                ChannelChangeView::Rename(name@),
                user,
                channel_id,
                error(404, "Kanał nie istnieje"),
                again(error(503, "Temporarily unavailable")),
                error(403, "Tylko administrator może zmienić nazwę kanału"),
                again(error(500, "Failed to rename channel")),
                *f,
            )
        }),
        ids::oid_of(channel_id@) is Some && f.channel is Some && f.channel->0 is Found && ids::hex_of(
            f.channel->0->0,
        ) == user_text(user) && 3 <= name@.len() <= 50 ==> (f.stored is None ==> r@ == (OwnerStepView::Store {
            channel: ids::oid_of(channel_id@)->0,
            change: ChannelChangeView::Rename(name@),
        })) && (f.stored == Some(Done::Worked) ==> r@ is TellAndReply),
        r@ is Store || r@ is TellAndReply ==> f.channel is Some && f.channel->0 is Found && ids::hex_of(
            f.channel->0->0,
        ) == user_text(user) && 3 <= name@.len() <= 50,
{
    let length: usize = name.unicode_len();
    if length < 3 || length > 50 {
        return OwnerStep::Refuse(error(400, "Nazwa kanału musi mieć od 3 do 50 znaków"));
    }
    owner_change(
        ChannelChange::Rename(name.to_owned()),
        user,
        channel_id,
        error(404, "Kanał nie istnieje"),
        again(error(503, "Temporarily unavailable")),
        error(403, "Tylko administrator może zmienić nazwę kanału"),
        again(error(500, "Failed to rename channel")),
        f,
    )
}

/// The pause that a request sets: none where it is absent.
pub open spec fn slowmode(body: SlowmodeBody) -> u32 {
    match body.rate_limit_per_user {
        None => 0,
        Some(n) => n,
    }
}

/// Reads the pause that a request sets.
pub fn slowmode_asked(body: &SlowmodeBody) -> (r: u32)
    ensures
        r == slowmode(*body),
{
    match body.rate_limit_per_user {
        None => 0,
        Some(n) => n,
    }
}

/// Decides the next step of setting the pause between messages.
pub fn update_channel_slowmode(
    user: Option<&str>,
    channel_id: &str,
    body: &SlowmodeBody,
    f: &OwnerFacts,
) -> (r: OwnerStep)
    ensures
        r@ == (if slowmode(*body) > MAX_SLOWMODE_SECONDS {
            OwnerStepView::Refuse(error(400, "Slowmode nie może przekraczać 21600 sekund (6 godzin)."))
        } else {
            owner_step(
                ChannelChangeView::Slowmode(slowmode(*body)),
                user,
                channel_id,
                error(404, "Kanał nie istnieje"),
                again(error(503, "Temporarily unavailable")),
                error(403, "Tylko administrator może zmienić slowmode kanału."),
                again(error(500, "Failed to update slowmode")),
                *f,
            )
        }),
        ids::oid_of(channel_id@) is Some && f.channel is Some && f.channel->0 is Found && ids::hex_of(
            f.channel->0->0,
        ) == user_text(user) ==> (body.rate_limit_per_user is None && f.stored is None ==> r@ == (
        OwnerStepView::Store {
            channel: ids::oid_of(channel_id@)->0,
            change: ChannelChangeView::Slowmode(0),
        })) && (body.rate_limit_per_user is Some && body.rate_limit_per_user->0 <= 21_600
            && f.stored is None ==> r@ == (OwnerStepView::Store {
            channel: ids::oid_of(channel_id@)->0,
            change: ChannelChangeView::Slowmode(body.rate_limit_per_user->0),
        })) && ((body.rate_limit_per_user is None || body.rate_limit_per_user->0 <= 21_600)
            && f.stored == Some(Done::Worked) ==> r@ is TellAndReply),
        r@ is Store || r@ is TellAndReply ==> f.channel is Some && f.channel->0 is Found && ids::hex_of(
            f.channel->0->0,
        ) == user_text(user) && (body.rate_limit_per_user is Some ==> body.rate_limit_per_user->0
            <= 21_600),
{
    let seconds: u32 = slowmode_asked(body);
    if seconds > MAX_SLOWMODE_SECONDS {
        return OwnerStep::Refuse(
            error(400, "Slowmode nie może przekraczać 21600 sekund (6 godzin)."),
        );
    }
    owner_change(
        ChannelChange::Slowmode(seconds),
        user,
        channel_id,
        error(404, "Kanał nie istnieje"),
        again(error(503, "Temporarily unavailable")),
        error(403, "Tylko administrator może zmienić slowmode kanału."),
        again(error(500, "Failed to update slowmode")),
        f,
    )
}

/// Whether a request locks the channel: not where it does not say.
pub fn lock_asked(body: &ChatLockBody) -> (r: bool)
    ensures
        r == (body.chat_locked == Some(true)),
{
    match body.chat_locked {
        None => false,
        Some(b) => b,
    }
}

/// Decides the next step of locking or unlocking a channel.
pub fn update_channel_chat_lock(
    user: Option<&str>,
    channel_id: &str,
    body: &ChatLockBody,
    f: &OwnerFacts,
) -> (r: OwnerStep)
    ensures
        r@ == owner_step(
                ChannelChangeView::Lock(body.chat_locked == Some(true)),
                user,
            channel_id,
            error(404, "Kanał nie istnieje"),
            again(error(503, "Temporarily unavailable")),
            error(403, "Tylko administrator może zablokować lub odblokować czat kanału."),
            again(error(500, "Failed to update chat lock")),
            *f,
        ),
        ids::oid_of(channel_id@) is Some && f.channel is Some && f.channel->0 is Found && ids::hex_of(
            f.channel->0->0,
        ) == user_text(user) ==> (f.stored is None ==> r@ == (OwnerStepView::Store {
            channel: ids::oid_of(channel_id@)->0,
            change: ChannelChangeView::Lock((body.chat_locked == Some(true))),
        })) && (f.stored == Some(Done::Worked) ==> r@ is TellAndReply),
        r@ is Store || r@ is TellAndReply ==> f.channel is Some && f.channel->0 is Found && ids::hex_of(
            f.channel->0->0,
        ) == user_text(user),
{
    owner_change(
        ChannelChange::Lock(lock_asked(body)),
        user,
        channel_id,
        error(404, "Kanał nie istnieje"),
        again(error(503, "Temporarily unavailable")),
        error(403, "Tylko administrator może zablokować lub odblokować czat kanału."),
        again(error(500, "Failed to update chat lock")),
        f,
    )
}

/// What is known while the picture of a channel is changed.
#[derive(Clone, Copy, Debug)]
pub struct AvatarFacts {
    pub channel: Option<Lookup<Oid>>,
    /// Whether the earlier picture is stored under the name of the channel.
    pub owns_image: bool,
    /// Whether the picture was taken from storage.
    pub dropped: bool,
    pub magic: Option<bool>,
    /// Whether the size is within the limit; nothing where it could not be read.
    pub size: Option<Option<bool>>,
    pub reencoded: Option<Result<(), &'static str>>,
    pub put: Option<Done>,
    pub stored: Option<Done>,
    /// Whether the picture that was just stored was taken away again.
    pub removed: bool,
}

/// The pictures of a channel.
pub struct Pictures {
    /// The name of the file that was sent.
    pub file_name: Option<String>,
    /// The key under which the new picture is stored.
    pub key: String,
    /// The key of the earlier picture; empty where there is none.
    pub previous: String,
}

/// What to do next while the picture of a channel is changed.
#[derive(Debug, PartialEq, Eq)]
pub enum AvatarStep {
    Load(Oid),
    /// Check that the file is a picture of this kind.
    CheckMagic(String),
    MeasureFile,
    Reencode,
    /// Put the picture into storage under the key.
    Put(String),
    /// Take the earlier picture from storage.
    DropOld(String),
    /// Take away the picture that was just stored.
    RemoveNew(String),
    /// Store the key in the channel; an empty one for no picture.
    Store { channel: Oid, image: String },
    /// Tell everyone in the channel, and reply.
    TellAndReply { channel: Oid, image: String, event: &'static str },
    Reply,
    Refuse(Refusal),
}

/// What to do next while the picture of a channel is changed.
#[verifier::ext_equal]
pub enum AvatarStepView {
    Load(Oid),
    CheckMagic(Seq<char>),
    MeasureFile,
    Reencode,
    Put(Seq<char>),
    DropOld(Seq<char>),
    RemoveNew(Seq<char>),
    Store { channel: Oid, image: Seq<char> },
    TellAndReply { channel: Oid, image: Seq<char>, event: &'static str },
    Reply,
    Refuse(Refusal),
}

impl View for AvatarStep {
    type V = AvatarStepView;

    open spec fn view(&self) -> AvatarStepView {
        match self {
            AvatarStep::Load(a) => AvatarStepView::Load(*a),
            AvatarStep::CheckMagic(a) => AvatarStepView::CheckMagic(a@),
            AvatarStep::MeasureFile => AvatarStepView::MeasureFile,
            AvatarStep::Reencode => AvatarStepView::Reencode,
            AvatarStep::Put(a) => AvatarStepView::Put(a@),
            AvatarStep::DropOld(a) => AvatarStepView::DropOld(a@),
            AvatarStep::RemoveNew(a) => AvatarStepView::RemoveNew(a@),
            AvatarStep::Store { channel, image } => AvatarStepView::Store { channel: *channel, image: image@ },
            AvatarStep::TellAndReply { channel, image, event } => AvatarStepView::TellAndReply { channel: *channel, image: image@, event: *event },
            AvatarStep::Reply => AvatarStepView::Reply,
            AvatarStep::Refuse(a) => AvatarStepView::Refuse(*a),
        }
    }
}

/// The event by which those in a channel hear of its picture.
#[verifier::allow_in_spec]
pub fn avatar_event() -> &'static str
    returns
        "channel-avatar-updated",
{
    "channel-avatar-updated"
}

/// The kind of picture that a file is taken for: by its extension in lower case, else PNG.
pub open spec fn kind_of_picture(file_name: Option<Seq<char>>) -> Seq<char> {
    match file_name {
        None => "png"@,
        Some(n) => {
            let e = text::lowercase_of(text::after_last(n, "."@));
            if is_picture_extension(e) {
                e
            } else {
                "png"@
            }
        },
    }
}

pub open spec fn delete_avatar_step(
    user: Option<&str>,
    channel_id: &str,
    previous: Seq<char>,
    f: AvatarFacts,
) -> AvatarStepView {
    let cid = ids::oid_of(channel_id@);
    if cid is None {
        AvatarStepView::Refuse(message(404, "Channel not found"))
    } else if f.channel is None {
        AvatarStepView::Load(cid->0)
    } else if f.channel->0 is Missing {
        AvatarStepView::Refuse(message(404, "Channel not found"))
    } else if f.channel->0 is Failed {
        AvatarStepView::Refuse(message_unavailable())
    } else if ids::hex_of(f.channel->0->0) != user_text(user) {
        AvatarStepView::Refuse(message(403, "Only admin can delete channel avatar"))
    } else if previous.len() == 0 {
        AvatarStepView::Reply
    } else if f.owns_image && !f.dropped {
        AvatarStepView::DropOld(previous)
    } else {
        match f.stored {
            None => AvatarStepView::Store { channel: cid->0, image: Seq::empty() },
            Some(Done::Failed) => AvatarStepView::Refuse(
                again(message(500, "Failed to delete channel avatar")),
            ),
            Some(Done::Worked) => AvatarStepView::TellAndReply {
                channel: cid->0,
                image: Seq::empty(),
                event: avatar_event(),
            },
        }
    }
}

/// Decides the next step of taking the picture of a channel away; `previous` is its key.
pub fn delete_channel_avatar(
    user: Option<&str>,
    channel_id: &str,
    previous: &str,
    f: &AvatarFacts,
) -> (r: AvatarStep)
    ensures
        r@ == delete_avatar_step(user, channel_id, previous@, *f),
{
    let cid = match parse_oid(channel_id) {
        None => return AvatarStep::Refuse(message(404, "Channel not found")),
        Some(id) => id,
    };
    let admin = match f.channel {
        None => return AvatarStep::Load(cid),
        Some(Lookup::Missing) => return AvatarStep::Refuse(message(404, "Channel not found")),
        Some(Lookup::Failed) => return AvatarStep::Refuse(message_unavailable()),
        Some(Lookup::Found(a)) => a,
    };
    if !is_hex_of(admin, user_or_empty(user).as_str()) {
        return AvatarStep::Refuse(message(403, "Only admin can delete channel avatar"));
    }
    if previous.is_empty() {
        return AvatarStep::Reply;
    }
    if f.owns_image && !f.dropped {
        return AvatarStep::DropOld(previous.to_owned());
    }
    match f.stored {
        None => AvatarStep::Store { channel: cid, image: String::new() },
        Some(Done::Failed) => AvatarStep::Refuse(
            again(message(500, "Failed to delete channel avatar")),
        ),
        Some(Done::Worked) => AvatarStep::TellAndReply {
            channel: cid,
            image: String::new(),
            event: avatar_event(),
        },
    }
}

/// Whether `ext` names a kind of picture.
pub open spec fn is_picture_extension(ext: Seq<char>) -> bool {
    ext == "jpg"@ || ext == "jpeg"@ || ext == "png"@ || ext == "webp"@
}

/// The kind of picture that a file is taken for: by its lower-case extension, else PNG.
pub fn picture_kind(ext: Option<&str>) -> (r: String)
    ensures
        r@ == (match ext {
            None => "png"@,
            Some(e) => if is_picture_extension(e@) {
                e@
            } else {
                "png"@
            },
        }),
{
    match ext {
        None => "png".to_owned(),
        Some(e) => {
            if text::same_text(e, "jpg") || text::same_text(e, "jpeg") || text::same_text(e, "png")
                || text::same_text(e, "webp") {
                e.to_owned()
            } else {
                "png".to_owned()
            }
        },
    }
}

/// The kind of picture that a file is taken for, by its name.
pub fn avatar_extension(file_name: Option<&str>) -> (r: String)
    ensures
        r@ == kind_of_picture(text::opt_str(file_name)),
{
    match file_name {
        None => picture_kind(None),
        Some(n) => {
            let e = text::lowercase(text::tail_after(n, ".").as_str());
            picture_kind(Some(e.as_str()))
        },
    }
}

pub open spec fn upload_avatar_step(
    user: Option<&str>,
    channel_id: &str,
    pictures: Pictures,
    f: AvatarFacts,
) -> AvatarStepView {
    let cid = ids::oid_of(channel_id@);
    if cid is None {
        AvatarStepView::Refuse(message(404, "Channel not found"))
    } else if f.channel is None {
        AvatarStepView::Load(cid->0)
    } else if f.channel->0 is Missing {
        AvatarStepView::Refuse(message(404, "Channel not found"))
    } else if f.channel->0 is Failed {
        AvatarStepView::Refuse(message_unavailable())
    } else if ids::hex_of(f.channel->0->0) != user_text(user) {
        AvatarStepView::Refuse(message(403, "Only admin can change channel avatar"))
    } else if f.magic is None {
        AvatarStepView::CheckMagic(kind_of_picture(text::opt(pictures.file_name)))
    } else if !f.magic->0 {
        AvatarStepView::Refuse(message(400, "Invalid file content"))
    } else if f.size is None {
        AvatarStepView::MeasureFile
    } else if f.size->0 != Some(true) {
        AvatarStepView::Refuse(message(413, "File too large. Maximum size is 6 MB."))
    } else if f.reencoded is None {
        AvatarStepView::Reencode
    } else if f.reencoded->0 is Err {
        AvatarStepView::Refuse(message(400, f.reencoded->0->Err_0))
    } else if f.put is None {
        AvatarStepView::Put(pictures.key@)
    } else if f.put->0 is Failed {
        AvatarStepView::Refuse(message(500, "Internal Server Error"))
    } else if f.stored is None {
        AvatarStepView::Store { channel: cid->0, image: pictures.key@ }
    } else if f.stored->0 is Failed {
        if f.removed {
            AvatarStepView::Refuse(again(message(500, "Failed to update channel avatar")))
        } else {
            AvatarStepView::RemoveNew(pictures.key@)
        }
    } else if pictures.previous@.len() > 0 && pictures.previous@ != pictures.key@ && f.owns_image && !f.dropped {
        AvatarStepView::DropOld(pictures.previous@)
    } else {
        AvatarStepView::TellAndReply {
            channel: cid->0,
            image: pictures.key@,
            event: avatar_event(),
        }
    }
}

/// Decides the next step of setting the picture of a channel.
pub fn upload_channel_avatar(
    user: Option<&str>,
    channel_id: &str,
    pictures: &Pictures,
    f: &AvatarFacts,
) -> (r: AvatarStep)
    ensures
        r@ == upload_avatar_step(user, channel_id, *pictures, *f),
{
    let cid = match parse_oid(channel_id) {
        None => return AvatarStep::Refuse(message(404, "Channel not found")),
        Some(id) => id,
    };
    let admin = match f.channel {
        None => return AvatarStep::Load(cid),
        Some(Lookup::Missing) => return AvatarStep::Refuse(message(404, "Channel not found")),
        Some(Lookup::Failed) => return AvatarStep::Refuse(message_unavailable()),
        Some(Lookup::Found(a)) => a,
    };
    if !is_hex_of(admin, user_or_empty(user).as_str()) {
        return AvatarStep::Refuse(message(403, "Only admin can change channel avatar"));
    }
    match f.magic {
        None => return AvatarStep::CheckMagic(
            avatar_extension(text::as_opt_str(&pictures.file_name)),
        ),
        Some(sound) => {
            if !sound {
                return AvatarStep::Refuse(message(400, "Invalid file content"));
            }
        },
    }
    match f.size {
        None => return AvatarStep::MeasureFile,
        Some(Some(true)) => {},
        _ => return AvatarStep::Refuse(message(413, "File too large. Maximum size is 6 MB.")),
    }
    match f.reencoded {
        None => return AvatarStep::Reencode,
        Some(Err(why)) => return AvatarStep::Refuse(message(400, why)),
        Some(Ok(_)) => {},
    }
    match f.put {
        None => return AvatarStep::Put(pictures.key.clone()),
        Some(Done::Failed) => return AvatarStep::Refuse(message(500, "Internal Server Error")),
        Some(Done::Worked) => {},
    }
    match f.stored {
        None => return AvatarStep::Store { channel: cid, image: pictures.key.clone() },
        Some(Done::Failed) => {
            return if f.removed {
                AvatarStep::Refuse(again(message(500, "Failed to update channel avatar")))
            } else {
                AvatarStep::RemoveNew(pictures.key.clone())
            };
        },
        Some(Done::Worked) => {},
    }
    let replaced = !pictures.previous.as_str().is_empty() && !text::same_text(
        pictures.previous.as_str(),
        pictures.key.as_str(),
    );
    if replaced && f.owns_image && !f.dropped {
        AvatarStep::DropOld(pictures.previous.clone())
    } else {
        AvatarStep::TellAndReply {
            channel: cid,
            image: pictures.key.clone(),
            event: avatar_event(),
        }
    }
}

/// A picture that the channel does not come to show is not left in storage, and the earlier one
/// leaves storage only after the channel shows the new one.
pub proof fn law_avatar_storage_follows_channel(
    user: Option<&str>,
    channel_id: &str,
    pictures: Pictures,
    f: AvatarFacts,
)
    ensures
        upload_avatar_step(user, channel_id, pictures, (AvatarFacts { stored: None, ..f })) is Store
            && f.stored == Some(Done::Failed) && upload_avatar_step(user, channel_id, pictures, f) is Refuse
            ==> f.removed,
        upload_avatar_step(user, channel_id, pictures, f) matches AvatarStepView::DropOld(key)
            ==> f.stored == Some(Done::Worked) && f.owns_image && key == pictures.previous@ && key
            != pictures.key@,
        upload_avatar_step(user, channel_id, pictures, f) matches AvatarStepView::RemoveNew(key)
            ==> key == pictures.key@,
{
}

/// The owner of a channel can change its picture and take it away: neither is refused while nothing
/// fails. A new picture is checked, measured, re-encoded and put into storage before the channel shows
/// it; everyone is told only of what the channel shows.
pub proof fn law_owner_changes_the_picture(
    user: Option<&str>,
    channel_id: &str,
    pictures: Pictures,
    f: AvatarFacts,
)
    requires
        ids::oid_of(channel_id@) is Some,
        f.channel matches Some(c) ==> c is Found && ids::hex_of(c->0) == user_text(user),
        f.magic != Some(false),
        f.size matches Some(s) ==> s == Some(true),
        f.reencoded matches Some(r) ==> r is Ok,
        f.put != Some(Done::Failed),
        f.stored != Some(Done::Failed),
    ensures
        ({
            let s = upload_avatar_step(user, channel_id, pictures, f);
            let channel = ids::oid_of(channel_id@)->0;
            let ready = f.channel is Some && f.magic is Some && f.size is Some && f.reencoded is Some;
            &&& s !is Refuse && s !is RemoveNew && s !is Reply
            &&& f.channel is None ==> s == AvatarStepView::Load(channel)
            &&& ready && f.put is None ==> s == AvatarStepView::Put(pictures.key@)
            &&& ready && f.put is Some && f.stored is None ==> s == (AvatarStepView::Store {
                channel,
                image: pictures.key@,
            })
            &&& ready && f.put is Some && f.stored is Some && (pictures.previous@.len() == 0
                || pictures.previous@ == pictures.key@ || !f.owns_image || f.dropped) ==> s is
                TellAndReply
            &&& s is CheckMagic ==> f.magic is None
            &&& s is MeasureFile ==> f.size is None && f.magic == Some(true)
            &&& s is Reencode ==> f.reencoded is None && f.size == Some(Some(true))
            &&& s is Put || s is Store || s is TellAndReply ==> f.magic == Some(true) && f.size
                == Some(Some(true)) && f.reencoded is Some && f.channel is Some
            &&& s is Store ==> f.put == Some(Done::Worked)
            &&& s matches AvatarStepView::TellAndReply { channel: c, image, event } ==> c == channel
                && image == pictures.key@ && event == "channel-avatar-updated" && f.stored == Some(
                Done::Worked,
            )
            &&& s is DropOld ==> !f.dropped
        }),
        ({
            let s = delete_avatar_step(user, channel_id, pictures.previous@, f);
            let channel = ids::oid_of(channel_id@)->0;
            let clear = !f.owns_image || f.dropped;
            &&& s !is Refuse
            &&& f.channel is None ==> s == AvatarStepView::Load(channel)
            &&& f.channel is Some && pictures.previous@.len() == 0 ==> s is Reply
            &&& f.channel is Some && pictures.previous@.len() > 0 && !clear ==> s
                == AvatarStepView::DropOld(pictures.previous@)
            &&& f.channel is Some && pictures.previous@.len() > 0 && clear && f.stored is None ==> s
                == (AvatarStepView::Store { channel, image: Seq::empty() })
            &&& f.channel is Some && pictures.previous@.len() > 0 && clear && f.stored is Some ==> s
                is TellAndReply
            &&& s matches AvatarStepView::TellAndReply { channel: c, image, event } ==> c == channel
                && image.len() == 0 && event == "channel-avatar-updated"
        }),
{
}

/// Nobody but the owner changes the picture of a channel or takes it away, and a file that is no
/// picture, or too large, is not stored.
pub proof fn law_only_the_owner_changes_the_picture(
    user: Option<&str>,
    channel_id: &str,
    pictures: Pictures,
    f: AvatarFacts,
)
    ensures
        ({
            let s = upload_avatar_step(user, channel_id, pictures, f);
            let own = f.channel is Some && f.channel->0 is Found && ids::hex_of(f.channel->0->0)
                == user_text(user);
            &&& s !is Load && s !is Refuse ==> own
            &&& ids::oid_of(channel_id@) is None ==> s is Refuse
            &&& f.channel is Some && !own ==> s is Refuse
            &&& own && ids::oid_of(channel_id@) is Some && f.magic == Some(false) ==> s is Refuse
            &&& s is Put ==> f.put is None && f.magic == Some(true) && f.size == Some(Some(true))
                && f.reencoded is Some && f.reencoded->0 is Ok
            &&& s is Store ==> f.put == Some(Done::Worked)
            &&& s is TellAndReply ==> f.stored == Some(Done::Worked)
        }),
        ({
            let s = delete_avatar_step(user, channel_id, pictures.previous@, f);
            let own = f.channel is Some && f.channel->0 is Found && ids::hex_of(f.channel->0->0)
                == user_text(user);
            &&& s !is Load && s !is Refuse ==> own
            &&& f.channel is Some && !own ==> s is Refuse
            &&& s is TellAndReply ==> f.stored == Some(Done::Worked)
            &&& s is Store ==> f.stored is None && (f.owns_image ==> f.dropped)
        }),
{
}

/// What follows when a user is gone from a channel.
#[derive(Debug, PartialEq, Eq)]
pub struct Departure {
    /// The user who is gone.
    pub user: String,
    /// Whether the mute of the user is dropped.
    pub drop_mute: bool,
    /// Whether the read position of the user is dropped.
    pub drop_read_position: bool,
    /// What the user is told.
    pub event: &'static str,
    /// The count of unread messages that the user is told.
    pub unread: u64,
    /// Who is told that the user left the voice call.
    pub voice_to: Vec<String>,
    /// Who stays, and is told.
    pub rest: Vec<String>,
    /// What those are told, with the user and the count.
    pub rest_event: &'static str,
    /// How many stay.
    pub member_count: usize,
}

/// The view of `Departure`.
#[verifier::ext_equal]
pub struct DepartureView {
    pub user: Seq<char>,
    pub drop_mute: bool,
    pub drop_read_position: bool,
    pub event: &'static str,
    pub unread: u64,
    pub voice_to: Seq<Seq<char>>,
    pub rest: Seq<Seq<char>>,
    pub rest_event: &'static str,
    pub member_count: usize,
}

impl View for Departure {
    type V = DepartureView;

    open spec fn view(&self) -> DepartureView {
        DepartureView {
            user: self.user@,
            drop_mute: self.drop_mute,
            drop_read_position: self.drop_read_position,
            event: self.event,
            unread: self.unread,
            voice_to: text::texts(self.voice_to@),
            rest: text::texts(self.rest@),
            rest_event: self.rest_event,
            member_count: self.member_count,
        }
    }
}

/// What follows when `user` is gone from a channel whose people are `recipients`. A user who was
/// removed hears of the voice call in any case, and loses the mute.
pub open spec fn departure(recipients: Seq<Seq<char>>, user: Seq<char>, removed: bool) -> DepartureView {
    DepartureView {
        user,
        drop_mute: removed,
        drop_read_position: true,
        event: "channel-left",
        unread: 0,
        voice_to: if removed {
            lists::with(recipients, user)
        } else {
            recipients
        },
        rest: lists::without(recipients, user),
        rest_event: "channel-member-left",
        member_count: lists::without(recipients, user).len() as usize,
    }
}

/// Finds what follows when a user is gone from a channel.
pub fn depart(recipients: &Vec<String>, user: &str, removed: bool) -> (r: Departure)
    ensures
        r@ == departure(text::texts(recipients@), user@, removed),
{
    let rest = remaining_recipients(recipients, user);
    let member_count: usize = rest.len();
    assert(text::texts(rest@).len() == rest@.len());
    Departure {
        user: user.to_owned(),
        drop_mute: removed,
        drop_read_position: true,
        event: "channel-left",
        unread: 0,
        voice_to: if removed {
            voice_recipients(recipients, user)
        } else {
            lists::copy_texts(recipients)
        },
        rest,
        rest_event: "channel-member-left",
        member_count,
    }
}

/// Nobody who is gone stays among those who hear of the channel: all others hear of it, with their
/// number, and the one who is gone keeps no unread message and no read position.
pub proof fn law_nobody_gone_stays(recipients: Seq<Seq<char>>, user: Seq<char>, removed: bool)
    requires
        recipients.len() <= usize::MAX,
    ensures
        forall|y: Seq<char>| #[trigger]
            departure(recipients, user, removed).rest.contains(y) <==> recipients.contains(y) && y
                != user,
        departure(recipients, user, removed).member_count == departure(
            recipients,
            user,
            removed,
        ).rest.len(),
        departure(recipients, user, removed).unread == 0,
        departure(recipients, user, removed).drop_read_position,
        removed ==> departure(recipients, user, removed).voice_to.contains(user),
{
    lists::law_without_removes_exactly(recipients, user);
    if removed && !recipients.contains(user) {
        assert(recipients.push(user)[recipients.len() as int] == user);
    }
}

/// Whoever is gone is told so by the event of leaving, those who stay by that of a member who left; a
/// user who was removed loses the mute, one who left keeps it.
pub proof fn law_departure_is_told_to_both_sides(
    recipients: Seq<Seq<char>>,
    user: Seq<char>,
    removed: bool,
    who: Seq<char>,
)
    ensures
        ({
            let d = departure(recipients, user, removed);
            &&& d.user == user && d.event == "channel-left" && d.rest_event == "channel-member-left"
            &&& d.drop_mute == removed
            &&& d.voice_to.contains(who) <==> recipients.contains(who) || (removed && who == user)
        }),
{
    let all = lists::with(recipients, user);
    if recipients.contains(who) {
        let i = choose|i: int| 0 <= i < recipients.len() && recipients[i] == who;
        assert(all[i] == who);
    }
    if !recipients.contains(user) {
        assert(recipients.push(user)[recipients.len() as int] == user);
    }
    if all.contains(who) && who != user {
        let i = choose|i: int| 0 <= i < all.len() && all[i] == who;
        assert(recipients[i] == who);
    }
}

/// What follows when a user has joined a channel.
#[derive(Debug, PartialEq, Eq)]
pub struct Arrival {
    pub channel: Oid,
    /// Who joined.
    pub user: String,
    /// What the new member is told, with the channel.
    pub event: &'static str,
    /// Whether the new member gets the channel as it stands in the list, too.
    pub with_item: bool,
    /// Everybody else there, who are told.
    pub rest: Vec<String>,
    /// What those are told, with the channel, the user and the count.
    pub rest_event: &'static str,
    /// How many the channel has, with the new member.
    pub member_count: usize,
    /// Whether nobody counts as typing there any more.
    pub forget_typing: bool,
}

/// The view of `Arrival`.
#[verifier::ext_equal]
pub struct ArrivalView {
    pub channel: Oid,
    pub user: Seq<char>,
    pub event: &'static str,
    pub with_item: bool,
    pub rest: Seq<Seq<char>>,
    pub rest_event: &'static str,
    pub member_count: usize,
    pub forget_typing: bool,
}

impl View for Arrival {
    type V = ArrivalView;

    open spec fn view(&self) -> ArrivalView {
        ArrivalView {
            channel: self.channel,
            user: self.user@,
            event: self.event,
            with_item: self.with_item,
            rest: text::texts(self.rest@),
            rest_event: self.rest_event,
            member_count: self.member_count,
            forget_typing: self.forget_typing,
        }
    }
}

/// What follows when `user` has joined a channel whose people are then `recipients`.
pub open spec fn arrival(
    channel: Oid,
    recipients: Seq<Seq<char>>,
    user: Seq<char>,
    with_item: bool,
) -> ArrivalView {
    ArrivalView {
        channel,
        user,
        event: "channel-added",
        with_item,
        rest: lists::without(recipients, user),
        rest_event: "channel-member-joined",
        member_count: recipients.len() as usize,
        forget_typing: true,
    }
}

/// Finds what follows when a user has joined a channel.
pub fn arrive(channel: Oid, recipients: &Vec<String>, user: &str, with_item: bool) -> (r: Arrival)
    ensures
        r@ == arrival(channel, text::texts(recipients@), user@, with_item),
{
    let member_count: usize = recipients.len();
    assert(text::texts(recipients@).len() == recipients@.len());
    Arrival {
        channel,
        user: user.to_owned(),
        event: "channel-added",
        with_item,
        rest: remaining_recipients(recipients, user),
        rest_event: "channel-member-joined",
        member_count,
        forget_typing: true,
    }
}

/// The new member hears of the channel and everybody else there of the new member, with a count
/// that has the new member in it; nobody hears both.
pub proof fn law_everybody_hears_of_an_arrival(
    channel: Oid,
    recipients: Seq<Seq<char>>,
    user: Seq<char>,
    with_item: bool,
)
    requires
        recipients.len() <= usize::MAX,
        recipients.no_duplicates(),
    ensures
        ({
            let after = arrival(channel, recipients, user, with_item);
            &&& after.user == user
            &&& forall|y: Seq<char>| #[trigger]
                after.rest.contains(y) <==> recipients.contains(y) && y != user
            &&& recipients.contains(user) ==> after.member_count == after.rest.len() + 1
        }),
{
    lists::law_without_removes_exactly(recipients, user);
    if recipients.contains(user) {
        let i = choose|i: int| 0 <= i < recipients.len() && recipients[i] == user;
        lists::law_without_takes_one(recipients, i);
    }
}

/// A new member is told of the channel by the event of being added, the others by that of a member who
/// joined; the count is that of all, and nobody counts as typing any more.
pub proof fn law_arrival_is_told_to_both_sides(
    channel: Oid,
    recipients: Seq<Seq<char>>,
    user: Seq<char>,
    with_item: bool,
)
    requires
        recipients.len() <= usize::MAX,
    ensures
        ({
            let a = arrival(channel, recipients, user, with_item);
            &&& a.channel == channel && a.user == user && a.with_item == with_item
            &&& a.event == "channel-added" && a.rest_event == "channel-member-joined"
            &&& a.member_count == recipients.len() && a.forget_typing
        }),
{
}

/// What is known while a user leaves a channel.
#[derive(Clone, Copy, Debug)]
pub struct LeaveFacts {
    pub channel: Option<Lookup<Oid>>,
    /// The user was taken from the members; `Unchanged` where no such channel was there.
    pub left: Option<Wrote>,
}

/// What to do next while a user leaves a channel.
#[derive(Debug, PartialEq, Eq)]
pub enum LeaveStep {
    Load(Oid),
    Pull { channel: Oid, user: Oid },
    /// Do what follows, and reply.
    TellAndReply { channel: Oid, after: Departure },
    Refuse(Refusal),
}

/// The view of `LeaveStep`.
#[verifier::ext_equal]
pub enum LeaveStepView {
    Load(Oid),
    Pull { channel: Oid, user: Oid },
    TellAndReply { channel: Oid, after: DepartureView },
    Refuse(Refusal),
}

impl View for LeaveStep {
    type V = LeaveStepView;

    open spec fn view(&self) -> LeaveStepView {
        match self {
            LeaveStep::Load(a) => LeaveStepView::Load(*a),
            LeaveStep::Pull { channel, user } => LeaveStepView::Pull {
                channel: *channel,
                user: *user,
            },
            LeaveStep::TellAndReply { channel, after } => LeaveStepView::TellAndReply {
                channel: *channel,
                after: after@,
            },
            LeaveStep::Refuse(a) => LeaveStepView::Refuse(*a),
        }
    }
}

pub open spec fn leave_step(
    user: Option<&str>,
    channel_id: &str,
    recipients: Seq<Seq<char>>,
    f: LeaveFacts,
) -> LeaveStepView {
    let cid = ids::oid_of(channel_id@);
    let uid = ids::oid_of(user_text(user));
    if cid is None {
        LeaveStepView::Refuse(message(404, "Channel not found"))
    } else if f.channel is None {
        LeaveStepView::Load(cid->0)
    } else if f.channel->0 is Missing {
        LeaveStepView::Refuse(message(404, "Channel not found"))
    } else if f.channel->0 is Failed {
        LeaveStepView::Refuse(message_unavailable())
    } else if ids::hex_of(f.channel->0->0) == user_text(user) {
        LeaveStepView::Refuse(message(403, "Admin cannot leave channel. Delete instead."))
    } else if uid is None {
        LeaveStepView::Refuse(message(400, "Invalid user"))
    } else {
        match f.left {
            None => LeaveStepView::Pull { channel: cid->0, user: uid->0 },
            Some(Wrote::Unchanged) => LeaveStepView::Refuse(message(404, "Channel not found")),
            Some(Wrote::Failed) => LeaveStepView::Refuse(
                again(message(500, "Failed to leave channel")),
            ),
            Some(Wrote::Changed) => LeaveStepView::TellAndReply {
                channel: cid->0,
                after: departure(recipients, user_text(user), false),
            },
        }
    }
}

/// Decides the next step of leaving a channel, whose owner and members are `recipients`.
pub fn leave_channel(
    user: Option<&str>,
    channel_id: &str,
    recipients: &Vec<String>,
    f: &LeaveFacts,
) -> (r: LeaveStep)
    ensures
        r@ == leave_step(user, channel_id, text::texts(recipients@), *f),
{
    let cid = match parse_oid(channel_id) {
        None => return LeaveStep::Refuse(message(404, "Channel not found")),
        Some(id) => id,
    };
    let admin = match f.channel {
        None => return LeaveStep::Load(cid),
        Some(Lookup::Missing) => return LeaveStep::Refuse(message(404, "Channel not found")),
        Some(Lookup::Failed) => return LeaveStep::Refuse(message_unavailable()),
        Some(Lookup::Found(a)) => a,
    };
    let me = user_or_empty(user);
    if is_hex_of(admin, me.as_str()) {
        return LeaveStep::Refuse(message(403, "Admin cannot leave channel. Delete instead."));
    }
    let uid = match parse_oid(me.as_str()) {
        None => return LeaveStep::Refuse(message(400, "Invalid user")),
        Some(id) => id,
    };
    match f.left {
        None => LeaveStep::Pull { channel: cid, user: uid },
        Some(Wrote::Unchanged) => LeaveStep::Refuse(message(404, "Channel not found")),
        Some(Wrote::Failed) => LeaveStep::Refuse(again(message(500, "Failed to leave channel"))),
        Some(Wrote::Changed) => LeaveStep::TellAndReply {
            channel: cid,
            after: depart(recipients, me.as_str(), false),
        },
    }
}

/// The owner of a channel never leaves it.
pub proof fn law_owner_does_not_leave(
    user: Option<&str>,
    channel_id: &str,
    recipients: Seq<Seq<char>>,
    f: LeaveFacts,
)
    requires
        leave_step(user, channel_id, recipients, f) is Pull,
    ensures
        ids::hex_of(f.channel->0->0) != user_text(user),
{
}

/// A member can leave: the request is not refused while nothing fails, the user is taken from the
/// channel that was named, and the departure is told only where the user was taken from it. The owner
/// is refused.
pub proof fn law_member_leaves(
    user: Option<&str>,
    channel_id: &str,
    recipients: Seq<Seq<char>>,
    f: LeaveFacts,
)
    requires
        ids::oid_of(channel_id@) is Some,
        ids::oid_of(user_text(user)) is Some,
    ensures
        ({
            let s = leave_step(user, channel_id, recipients, f);
            let channel = ids::oid_of(channel_id@)->0;
            let found = f.channel is Some && f.channel->0 is Found;
            let owner = found && ids::hex_of(f.channel->0->0) == user_text(user);
            &&& f.channel is None ==> s == LeaveStepView::Load(channel)
            &&& found && !owner && f.left is None ==> s == (LeaveStepView::Pull {
                channel,
                user: ids::oid_of(user_text(user))->0,
            })
            &&& found && !owner && f.left == Some(Wrote::Changed) ==> s == (
            LeaveStepView::TellAndReply {
                channel,
                after: departure(recipients, user_text(user), false),
            })
            &&& owner ==> s is Refuse
            &&& s is Pull ==> f.left is None && found
            &&& s is TellAndReply ==> f.left == Some(Wrote::Changed) && found && !owner
            &&& s is Refuse ==> owner || (f.channel is Some && f.channel->0 !is Found) || f.left
                == Some(Wrote::Unchanged) || f.left == Some(Wrote::Failed)
        }),
{
}

/// Those who stay when a user goes, in order; their number is the new member count.
pub fn remaining_recipients(recipients: &Vec<String>, user: &str) -> (r: Vec<String>)
    ensures
        text::texts(r@) == lists::without(text::texts(recipients@), user@),
{
    lists::without_text(recipients, user)
}

/// Those who hear that a user left the voice call of a channel: the user too.
pub fn voice_recipients(recipients: &Vec<String>, user: &str) -> (r: Vec<String>)
    ensures
        text::texts(r@) == lists::with(text::texts(recipients@), user@),
{
    let mut out = lists::copy_texts(recipients);
    lists::add_text(&mut out, user);
    out
}

/// What is known while a user is added to a channel.
#[derive(Clone, Copy, Debug)]
pub struct AddFacts {
    pub channel: Option<Lookup<Oid>>,
    /// Whether the user to add is banned from the channel.
    pub banned: bool,
    pub friends: Option<Answer>,
    pub seeded: Option<Done>,
    pub added: Option<Done>,
    /// The channel with the new member; whether it could be shown as in the list.
    pub reloaded: Option<Lookup<bool>>,
}

/// What to do next while a user is added to a channel.
#[derive(Debug, PartialEq, Eq)]
pub enum AddStep {
    Load(Oid),
    /// Ask whether the user and the one to add are friends.
    AskFriends,
    /// Set a read position for the new member.
    Seed { channel: Oid, user: Oid },
    Add { channel: Oid, user: Oid },
    Reload(Oid),
    /// Tell the new member and the others, and reply.
    TellAndReply { after: Arrival, reply: &'static str },
    Refuse(Refusal),
}

/// The view of `AddStep`.
#[verifier::ext_equal]
pub enum AddStepView {
    Load(Oid),
    AskFriends,
    Seed { channel: Oid, user: Oid },
    Add { channel: Oid, user: Oid },
    Reload(Oid),
    TellAndReply { after: ArrivalView, reply: &'static str },
    Refuse(Refusal),
}

impl View for AddStep {
    type V = AddStepView;

    open spec fn view(&self) -> AddStepView {
        match self {
            AddStep::Load(a) => AddStepView::Load(*a),
            AddStep::AskFriends => AddStepView::AskFriends,
            AddStep::Seed { channel, user } => AddStepView::Seed { channel: *channel, user: *user },
            AddStep::Add { channel, user } => AddStepView::Add { channel: *channel, user: *user },
            AddStep::Reload(a) => AddStepView::Reload(*a),
            AddStep::TellAndReply { after, reply } => AddStepView::TellAndReply {
                after: after@,
                reply: *reply,
            },
            AddStep::Refuse(a) => AddStepView::Refuse(*a),
        }
    }
}

pub open spec fn add_step(
    user: Option<&str>,
    channel_id: &str,
    body: AddUserBody,
    members: Seq<Oid>,
    recipients: Seq<Seq<char>>,
    f: AddFacts,
) -> AddStepView {
    let cid = ids::oid_of(channel_id@);
    let target = text::or_empty(body.user_id_to_add);
    let tid = ids::oid_of(target);
    if cid is None {
        AddStepView::Refuse(message(404, "Channel not found"))
    } else if f.channel is None {
        AddStepView::Load(cid->0)
    } else if f.channel->0 is Missing {
        AddStepView::Refuse(message(404, "Channel not found"))
    } else if f.channel->0 is Failed {
        AddStepView::Refuse(message_unavailable())
    } else if ids::hex_of(f.channel->0->0) != user_text(user) {
        AddStepView::Refuse(message(403, "Only admin can add users"))
    } else if ids::hex_all(members).contains(target) {
        AddStepView::Refuse(message(400, "User is already a member"))
    } else if f.banned {
        AddStepView::Refuse(
            message(403, "User is banned from this channel. Unban them before adding again."),
        )
    } else if target != user_text(user) && f.friends is None {
        AddStepView::AskFriends
    } else if target != user_text(user) && f.friends->0 is No {
        AddStepView::Refuse(message(403, "Możesz dodawać do kanału tylko swoich znajomych."))
    } else if target != user_text(user) && f.friends->0 is Failed {
        AddStepView::Refuse(message_unavailable())
    } else if tid is None {
        AddStepView::Refuse(message(500, "Internal Server Error"))
    } else if f.seeded is None {
        AddStepView::Seed { channel: cid->0, user: tid->0 }
    } else if f.seeded->0 is Failed {
        AddStepView::Refuse(message_unavailable())
    } else if f.added is None {
        AddStepView::Add { channel: cid->0, user: tid->0 }
    } else if f.added->0 is Failed {
        AddStepView::Refuse(again(message(500, "Failed to add member")))
    } else if f.reloaded is None {
        AddStepView::Reload(cid->0)
    } else if f.reloaded->0 is Found {
        AddStepView::TellAndReply {
            after: arrival(cid->0, recipients, target, f.reloaded->0->0),
            reply: "User added to channel",
        }
    } else {
        AddStepView::Refuse(message_unavailable())
    }
}

/// Whether `text` is written as one of `members`.
pub fn is_listed(members: &Vec<Oid>, text: &str) -> (r: bool)
    ensures
        r == ids::hex_all(members@).contains(text@),
{
    let all = ids::to_hex_all(members);
    lists::has_text(&all, text)
}

/// Decides the next step of adding a user to a channel. `members` are its members, `recipients`
/// its people once the user was added.
pub fn add_user_to_channel(
    user: Option<&str>,
    channel_id: &str,
    body: &AddUserBody,
    members: &Vec<Oid>,
    recipients: &Vec<String>,
    f: &AddFacts,
) -> (r: AddStep)
    ensures
        r@ == add_step(user, channel_id, *body, members@, text::texts(recipients@), *f),
{
    let cid = match parse_oid(channel_id) {
        None => return AddStep::Refuse(message(404, "Channel not found")),
        Some(id) => id,
    };
    let admin = match f.channel {
        None => return AddStep::Load(cid),
        Some(Lookup::Missing) => return AddStep::Refuse(message(404, "Channel not found")),
        Some(Lookup::Failed) => return AddStep::Refuse(message_unavailable()),
        Some(Lookup::Found(a)) => a,
    };
    let me = user_or_empty(user);
    if !is_hex_of(admin, me.as_str()) {
        return AddStep::Refuse(message(403, "Only admin can add users"));
    }
    let target = text::text_or_empty(&body.user_id_to_add);
    if is_listed(members, target.as_str()) {
        return AddStep::Refuse(message(400, "User is already a member"));
    }
    if f.banned {
        return AddStep::Refuse(
            message(403, "User is banned from this channel. Unban them before adding again."),
        );
    }
    if !text::same_text(target.as_str(), me.as_str()) {
        match f.friends {
            None => return AddStep::AskFriends,
            Some(Answer::No) => {
                return AddStep::Refuse(
                    message(403, "Możesz dodawać do kanału tylko swoich znajomych."),
                );
            },
            Some(Answer::Failed) => return AddStep::Refuse(message_unavailable()),
            Some(Answer::Yes) => {},
        }
    }
    let tid = match parse_oid(target.as_str()) {
        None => return AddStep::Refuse(message(500, "Internal Server Error")),
        Some(id) => id,
    };
    match f.seeded {
        None => return AddStep::Seed { channel: cid, user: tid },
        Some(Done::Failed) => return AddStep::Refuse(message_unavailable()),
        Some(Done::Worked) => {},
    }
    match f.added {
        None => return AddStep::Add { channel: cid, user: tid },
        Some(Done::Failed) => return AddStep::Refuse(again(message(500, "Failed to add member"))),
        Some(Done::Worked) => {},
    }
    match f.reloaded {
        None => AddStep::Reload(cid),
        Some(Lookup::Found(with_item)) => AddStep::TellAndReply {
            after: arrive(cid, recipients, target.as_str(), with_item),
            reply: "User added to channel",
        },
        _ => AddStep::Refuse(message_unavailable()),
    }
}

/// A user joins only by the owner's request, as a friend of the owner or the owner itself, not
/// banned, not a member yet, and with a read position set before.
pub proof fn law_user_is_added_by_owner_among_friends(
    user: Option<&str>,
    channel_id: &str,
    body: AddUserBody,
    members: Seq<Oid>,
    recipients: Seq<Seq<char>>,
    f: AddFacts,
)
    requires
        add_step(user, channel_id, body, members, recipients, f) is Add,
    ensures
        ids::hex_of(f.channel->0->0) == user_text(user),
        !f.banned,
        !ids::hex_all(members).contains(text::or_empty(body.user_id_to_add)),
        text::or_empty(body.user_id_to_add) == user_text(user) || f.friends == Some(Answer::Yes),
        f.seeded == Some(Done::Worked),
{
}

/// The owner of a channel can add a friend, or the own account, who is neither a member nor banned: the
/// request is not refused while nothing fails, the user who was named is added to the channel that was
/// named, and the arrival is told.
pub proof fn law_owner_adds_a_friend(
    user: Option<&str>,
    channel_id: &str,
    body: AddUserBody,
    members: Seq<Oid>,
    recipients: Seq<Seq<char>>,
    f: AddFacts,
)
    requires
        ids::oid_of(channel_id@) is Some,
        ids::oid_of(text::or_empty(body.user_id_to_add)) is Some,
        f.channel matches Some(c) ==> c is Found && ids::hex_of(c->0) == user_text(user),
        !ids::hex_all(members).contains(text::or_empty(body.user_id_to_add)),
        !f.banned,
        text::or_empty(body.user_id_to_add) == user_text(user) || f.friends is None || f.friends
            == Some(Answer::Yes),
        f.seeded != Some(Done::Failed),
        f.added != Some(Done::Failed),
        f.reloaded matches Some(c) ==> c is Found,
    ensures
        ({
            let s = add_step(user, channel_id, body, members, recipients, f);
            let channel = ids::oid_of(channel_id@)->0;
            let target = text::or_empty(body.user_id_to_add);
            let who = ids::oid_of(target)->0;
            let known = f.channel is Some && (target == user_text(user) || f.friends is Some);
            &&& s !is Refuse
            &&& f.channel is None ==> s == AddStepView::Load(channel)
            &&& known && f.seeded is None ==> s == (AddStepView::Seed { channel, user: who })
            &&& known && f.seeded is Some && f.added is None ==> s == (AddStepView::Add {
                channel,
                user: who,
            })
            &&& known && f.seeded is Some && f.added is Some && f.reloaded is None ==> s
                == AddStepView::Reload(channel)
            &&& known && f.seeded is Some && f.added is Some && f.reloaded is Some ==> s == (
            AddStepView::TellAndReply {
                after: arrival(channel, recipients, target, f.reloaded->0->0),
                reply: "User added to channel",
            })
        }),
{
}

/// Adding a user asks only for what is not known yet; an arrival is told only where the user was added,
/// and a refusal has its reason.
pub proof fn law_adding_a_user_makes_progress(
    user: Option<&str>,
    channel_id: &str,
    body: AddUserBody,
    members: Seq<Oid>,
    recipients: Seq<Seq<char>>,
    f: AddFacts,
)
    ensures
        ({
            let s = add_step(user, channel_id, body, members, recipients, f);
            let target = text::or_empty(body.user_id_to_add);
            &&& s is Load ==> f.channel is None
            &&& s is AskFriends ==> f.friends is None && target != user_text(user)
            &&& s is Seed ==> f.seeded is None
            &&& s is Add ==> f.added is None
            &&& s is Reload ==> f.reloaded is None && f.added == Some(Done::Worked)
            &&& s is TellAndReply ==> f.added == Some(Done::Worked) && f.seeded == Some(Done::Worked)
                && !f.banned && ids::hex_of(f.channel->0->0) == user_text(user) && (target
                == user_text(user) || f.friends == Some(Answer::Yes))
            &&& s matches AddStepView::Refuse(r) ==> {
                &&& r.status == 404 ==> ids::oid_of(channel_id@) is None || f.channel->0 is Missing
                &&& r.status == 403 ==> ids::hex_of(f.channel->0->0) != user_text(user) || f.banned
                    || f.friends == Some(Answer::No)
                &&& r.status == 400 ==> ids::hex_all(members).contains(target)
                &&& r.status == 404 || r.status == 403 || r.status == 400 || r.status == 500
                    || r.status == 503
            }
            &&& ids::oid_of(channel_id@) is None ==> s is Refuse
        }),
{
}

/// Outcome of collecting the messages of a channel.
#[derive(Clone, Copy, Debug, PartialEq, Eq)]
pub enum Scan {
    Read,
    /// The search broke off.
    BrokeOff,
    /// The search could not be started.
    Failed,
}

/// What is read of a message of a channel that is deleted.
pub struct ChannelMessage {
    pub id: Option<Oid>,
    pub file_url: Option<String>,
}

/// What is stored in a message that is deleted, besides the time.
#[derive(Clone, Copy, Debug, PartialEq, Eq)]
pub struct Deletion {
    pub deleted: bool,
    pub search_text: &'static str,
    /// How many search tokens stay.
    pub search_tokens: u64,
}

/// What is stored in a message that is deleted: nothing of it can be found any more.
#[verifier::allow_in_spec]
pub fn deletion() -> Deletion
    returns
        (Deletion { deleted: true, search_text: "", search_tokens: 0 }),
{
    Deletion { deleted: true, search_text: "", search_tokens: 0 }
}

/// The identifiers of messages.
pub open spec fn ids_of(s: Seq<ChannelMessage>) -> Seq<Oid>
    decreases s.len(),
{
    if s.len() == 0 {
        Seq::empty()
    } else {
        match s.last().id {
            None => ids_of(s.drop_last()),
            Some(id) => ids_of(s.drop_last()).push(id),
        }
    }
}

/// The files of messages.
pub open spec fn urls_of(s: Seq<ChannelMessage>) -> Seq<Seq<char>>
    decreases s.len(),
{
    if s.len() == 0 {
        Seq::empty()
    } else {
        match s.last().file_url {
            None => urls_of(s.drop_last()),
            Some(url) => urls_of(s.drop_last()).push(url@),
        }
    }
}

/// Lists the identifiers of messages.
pub fn message_ids(v: &Vec<ChannelMessage>) -> (r: Vec<Oid>)
    ensures
        r@ == ids_of(v@),
{
    let mut out: Vec<Oid> = Vec::new();
    let mut i: usize = 0;
    while i < v.len()
        invariant
            i <= v.len(),
            out@ == ids_of(v@.take(i as int)),
        decreases v.len() - i,
    {
        assert(v@.take(i + 1).drop_last() =~= v@.take(i as int));
        if let Some(id) = v[i].id {
            out.push(id);
        }
        i += 1;
    }
    assert(v@.take(i as int) =~= v@);
    out
}

fn add_urls(out: &mut Vec<String>, v: &Vec<ChannelMessage>)
    ensures
        text::texts(final(out)@) == text::texts(old(out)@) + urls_of(v@),
{
    let ghost before = text::texts(out@);
    let mut i: usize = 0;
    assert(before + urls_of(v@.take(0)) =~= before);
    while i < v.len()
        invariant
            i <= v.len(),
            text::texts(out@) == before + urls_of(v@.take(i as int)),
        decreases v.len() - i,
    {
        assert(v@.take(i + 1).drop_last() =~= v@.take(i as int));
        if let Some(url) = &v[i].file_url {
            let ghost so_far = out@;
            out.push(url.clone());
            assert(text::texts(out@) =~= text::texts(so_far).push(url@));
            assert(text::texts(out@) =~= before + urls_of(v@.take(i + 1)));
        }
        i += 1;
    }
    assert(v@.take(i as int) =~= v@);
}

/// Lists the files of messages, of the early ones first.
pub fn message_urls(early: &Vec<ChannelMessage>, late: &Vec<ChannelMessage>) -> (r: Vec<String>)
    ensures
        text::texts(r@) == urls_of(early@) + urls_of(late@),
{
    let mut out: Vec<String> = Vec::new();
    add_urls(&mut out, early);
    add_urls(&mut out, late);
    assert(text::texts(out@) =~= urls_of(early@) + urls_of(late@));
    out
}

/// What is known while a channel is deleted.
#[derive(Clone, Copy, Debug)]
pub struct DeleteFacts {
    pub channel: Option<Lookup<Oid>>,
    pub first: Option<Scan>,
    pub first_deleted: Option<Done>,
    /// The second look for messages, for those that came in between.
    pub late: Option<Scan>,
    pub late_deleted: Option<Done>,
    /// Attachments that nothing refers to were dropped.
    pub attachments_dropped: bool,
    /// The read positions were dropped.
    pub positions_dropped: bool,
    pub deleted: Option<Wrote>,
}

/// What to do next while a channel is deleted.
#[derive(Debug, PartialEq, Eq)]
pub enum DeleteStep {
    Load(Oid),
    /// Collect the messages of the channel that are not deleted.
    Collect(Oid),
    /// Store this in these messages.
    DeleteMessages { ids: Vec<Oid>, patch: Deletion },
    /// Collect the messages of the channel that are not deleted once more.
    CollectLate(Oid),
    DeleteLateMessages { ids: Vec<Oid>, patch: Deletion },
    /// Drop each of these files that nothing refers to.
    DropAttachments(Vec<String>),
    /// Drop the read positions of everyone in the channel.
    DropReadPositions(Oid),
    DeleteChannel(Oid),
    /// End the voice call, tell each of these that nobody is in it, the count of unread messages and
    /// the event, and reply.
    TellAndReply {
        channel: Oid,
        to: Vec<String>,
        unread: u64,
        voice_event: &'static str,
        event: &'static str,
        reply: &'static str,
    },
    Refuse(Refusal),
}

/// The view of `DeleteStep`.
#[verifier::ext_equal]
pub enum DeleteStepView {
    Load(Oid),
    Collect(Oid),
    DeleteMessages { ids: Seq<Oid>, patch: Deletion },
    CollectLate(Oid),
    DeleteLateMessages { ids: Seq<Oid>, patch: Deletion },
    DropAttachments(Seq<Seq<char>>),
    DropReadPositions(Oid),
    DeleteChannel(Oid),
    TellAndReply {
        channel: Oid,
        to: Seq<Seq<char>>,
        unread: u64,
        voice_event: &'static str,
        event: &'static str,
        reply: &'static str,
    },
    Refuse(Refusal),
}

impl View for DeleteStep {
    type V = DeleteStepView;

    open spec fn view(&self) -> DeleteStepView {
        match self {
            DeleteStep::Load(a) => DeleteStepView::Load(*a),
            DeleteStep::Collect(a) => DeleteStepView::Collect(*a),
            DeleteStep::DeleteMessages { ids, patch } => DeleteStepView::DeleteMessages {
                ids: ids@,
                patch: *patch,
            },
            DeleteStep::CollectLate(a) => DeleteStepView::CollectLate(*a),
            DeleteStep::DeleteLateMessages { ids, patch } => DeleteStepView::DeleteLateMessages {
                ids: ids@,
                patch: *patch,
            },
            DeleteStep::DropAttachments(a) => DeleteStepView::DropAttachments(text::texts(a@)),
            DeleteStep::DropReadPositions(a) => DeleteStepView::DropReadPositions(*a),
            DeleteStep::DeleteChannel(a) => DeleteStepView::DeleteChannel(*a),
            DeleteStep::TellAndReply { channel, to, unread, voice_event, event, reply } => DeleteStepView::TellAndReply {
                channel: *channel,
                to: text::texts(to@),
                unread: *unread,
                voice_event: *voice_event,
                event: *event,
                reply: *reply,
            },
            DeleteStep::Refuse(a) => DeleteStepView::Refuse(*a),
        }
    }
}

pub open spec fn delete_step(
    user: Option<&str>,
    channel_id: &str,
    recipients: Seq<Seq<char>>,
    early: Seq<ChannelMessage>,
    late: Seq<ChannelMessage>,
    f: DeleteFacts,
) -> DeleteStepView {
    let cid = ids::oid_of(channel_id@);
    let broke = DeleteStepView::Refuse(again(message(503, "Failed to delete channel")));
    let failed = DeleteStepView::Refuse(again(message(500, "Failed to delete channel")));
    if cid is None {
        DeleteStepView::Refuse(message(404, "Channel not found"))
    } else if f.channel is None {
        DeleteStepView::Load(cid->0)
    } else if f.channel->0 is Missing {
        DeleteStepView::Refuse(message(404, "Channel not found"))
    } else if f.channel->0 is Failed {
        DeleteStepView::Refuse(message_unavailable())
    } else if ids::hex_of(f.channel->0->0) != user_text(user) {
        DeleteStepView::Refuse(message(403, "Only admin can delete channel"))
    } else if f.first is None {
        DeleteStepView::Collect(cid->0)
    } else if f.first->0 is BrokeOff {
        broke
    } else if f.first->0 is Failed {
        failed
    } else if ids_of(early).len() > 0 && f.first_deleted is None {
        DeleteStepView::DeleteMessages { ids: ids_of(early), patch: deletion() }
    } else if ids_of(early).len() > 0 && f.first_deleted->0 is Failed {
        broke
    } else if f.late is None {
        DeleteStepView::CollectLate(cid->0)
    } else if f.late->0 is BrokeOff {
        broke
    } else if f.late->0 is Failed {
        failed
    } else if late.len() > 0 && f.late_deleted is None {
        DeleteStepView::DeleteLateMessages { ids: ids_of(late), patch: deletion() }
    } else if late.len() > 0 && f.late_deleted->0 is Failed {
        broke
    } else if !f.attachments_dropped {
        DeleteStepView::DropAttachments(urls_of(early) + urls_of(late))
    } else if !f.positions_dropped {
        DeleteStepView::DropReadPositions(cid->0)
    } else {
        match f.deleted {
            None => DeleteStepView::DeleteChannel(cid->0),
            Some(Wrote::Unchanged) => DeleteStepView::Refuse(message(404, "Channel not found")),
            Some(Wrote::Failed) => failed,
            Some(Wrote::Changed) => DeleteStepView::TellAndReply {
                channel: cid->0,
                to: recipients,
                unread: 0,
                voice_event: "channel-voice:state",
                event: "channel-deleted",
                reply: "Channel deleted",
            },
        }
    }
}

/// Decides the next step of deleting a channel, whose owner and members are `recipients`. `early`
/// and `late` are the messages that were collected first and then.
pub fn delete_channel(
    user: Option<&str>,
    channel_id: &str,
    recipients: &Vec<String>,
    early: &Vec<ChannelMessage>,
    late: &Vec<ChannelMessage>,
    f: &DeleteFacts,
) -> (r: DeleteStep)
    ensures
        r@ == delete_step(
            user,
            channel_id,
            text::texts(recipients@),
            early@,
            late@,
            *f,
        ),
{
    let broke = DeleteStep::Refuse(again(message(503, "Failed to delete channel")));
    let failed = DeleteStep::Refuse(again(message(500, "Failed to delete channel")));
    let cid = match parse_oid(channel_id) {
        None => return DeleteStep::Refuse(message(404, "Channel not found")),
        Some(id) => id,
    };
    let admin = match f.channel {
        None => return DeleteStep::Load(cid),
        Some(Lookup::Missing) => return DeleteStep::Refuse(message(404, "Channel not found")),
        Some(Lookup::Failed) => return DeleteStep::Refuse(message_unavailable()),
        Some(Lookup::Found(a)) => a,
    };
    if !is_hex_of(admin, user_or_empty(user).as_str()) {
        return DeleteStep::Refuse(message(403, "Only admin can delete channel"));
    }
    match f.first {
        None => return DeleteStep::Collect(cid),
        Some(Scan::BrokeOff) => return broke,
        Some(Scan::Failed) => return failed,
        Some(Scan::Read) => {
            let ids = message_ids(early);
            if ids.len() > 0 {
                match f.first_deleted {
                    None => return DeleteStep::DeleteMessages { ids, patch: deletion() },
                    Some(Done::Failed) => return broke,
                    Some(Done::Worked) => {},
                }
            }
        },
    }
    match f.late {
        None => return DeleteStep::CollectLate(cid),
        Some(Scan::BrokeOff) => return broke,
        Some(Scan::Failed) => return failed,
        Some(Scan::Read) => {
            if late.len() > 0 {
                match f.late_deleted {
                    None => return DeleteStep::DeleteLateMessages {
                        ids: message_ids(late),
                        patch: deletion(),
                    },
                    Some(Done::Failed) => return broke,
                    Some(Done::Worked) => {},
                }
            }
        },
    }
    if !f.attachments_dropped {
        return DeleteStep::DropAttachments(message_urls(early, late));
    }
    if !f.positions_dropped {
        return DeleteStep::DropReadPositions(cid);
    }
    match f.deleted {
        None => DeleteStep::DeleteChannel(cid),
        Some(Wrote::Unchanged) => DeleteStep::Refuse(message(404, "Channel not found")),
        Some(Wrote::Failed) => failed,
        Some(Wrote::Changed) => DeleteStep::TellAndReply {
            channel: cid,
            to: lists::copy_texts(recipients),
            unread: 0,
            voice_event: "channel-voice:state",
            event: "channel-deleted",
            reply: "Channel deleted",
        },
    }
}

/// A channel is deleted for its owner only, after all the messages found in it, also those that
/// came late, were marked so that nothing of them can be found, and after the read positions went.
pub proof fn law_channel_goes_after_its_messages(
    user: Option<&str>,
    channel_id: &str,
    recipients: Seq<Seq<char>>,
    early: Seq<ChannelMessage>,
    late: Seq<ChannelMessage>,
    f: DeleteFacts,
)
    ensures
        ({
            let s = delete_step(user, channel_id, recipients, early, late, f);
            &&& s is DeleteChannel ==> ids::hex_of(f.channel->0->0) == user_text(user) && (ids_of(
                early,
            ).len() == 0 || f.first_deleted == Some(Done::Worked)) && (late.len() == 0
                || f.late_deleted == Some(Done::Worked)) && f.attachments_dropped
                && f.positions_dropped
            &&& s matches DeleteStepView::DeleteMessages { ids, patch } ==> ids == ids_of(early)
                && patch.deleted && patch.search_text@.len() == 0 && patch.search_tokens == 0
            &&& s matches DeleteStepView::DeleteLateMessages { ids, patch } ==> ids == ids_of(late)
                && patch.deleted && patch.search_text@.len() == 0 && patch.search_tokens == 0
            &&& s matches DeleteStepView::TellAndReply { to, unread, .. } ==> to == recipients
                && unread == 0 && f.deleted == Some(Wrote::Changed)
        }),
{
    reveal_strlit("");
}

/// The owner of a channel can delete it: the request is not refused while nothing fails, it asks only
/// for what is not known yet, all messages and their files go, then the channel, and everyone is told
/// that it is gone only where it is.
pub proof fn law_owner_deletes_the_channel(
    user: Option<&str>,
    channel_id: &str,
    recipients: Seq<Seq<char>>,
    early: Seq<ChannelMessage>,
    late: Seq<ChannelMessage>,
    f: DeleteFacts,
)
    requires
        ids::oid_of(channel_id@) is Some,
        f.channel matches Some(c) ==> c is Found && ids::hex_of(c->0) == user_text(user),
        f.first is None || f.first == Some(Scan::Read),
        f.first_deleted != Some(Done::Failed),
        f.late is None || f.late == Some(Scan::Read),
        f.late_deleted != Some(Done::Failed),
        f.deleted is None || f.deleted == Some(Wrote::Changed),
    ensures
        ({
            let s = delete_step(user, channel_id, recipients, early, late, f);
            let channel = ids::oid_of(channel_id@)->0;
            let emptied = f.channel is Some && f.first is Some && f.first_deleted is Some && f.late is
                Some && f.late_deleted is Some && f.attachments_dropped && f.positions_dropped;
            &&& s !is Refuse
            &&& f.channel is None ==> s == DeleteStepView::Load(channel)
            &&& f.channel is Some && f.first is None ==> s == DeleteStepView::Collect(channel)
            &&& emptied && f.deleted is None ==> s == DeleteStepView::DeleteChannel(channel)
            &&& emptied && f.deleted is Some ==> s is TellAndReply
            &&& s is DeleteMessages ==> f.first_deleted is None
            &&& s matches DeleteStepView::CollectLate(c) ==> f.late is None && c == channel
            &&& s is DeleteLateMessages ==> f.late_deleted is None
            &&& s matches DeleteStepView::DropAttachments(urls) ==> !f.attachments_dropped && urls
                == urls_of(early) + urls_of(late)
            &&& s matches DeleteStepView::DropReadPositions(c) ==> !f.positions_dropped && c
                == channel
            &&& s is DeleteChannel ==> f.deleted is None && f.first == Some(Scan::Read) && f.late
                == Some(Scan::Read)
            &&& s matches DeleteStepView::TellAndReply { channel: c, to, unread, voice_event, event, reply }
                ==> c == channel && to == recipients && unread == 0 && voice_event
                == "channel-voice:state" && event == "channel-deleted" && reply
                == "Channel deleted" && f.deleted == Some(Wrote::Changed)
        }),
{
}

/// Only the owner has anything of a channel deleted. Of its messages all that have an id are deleted,
/// and all files that one of them refers to are looked at.
pub proof fn law_only_the_owner_deletes_the_channel(
    user: Option<&str>,
    channel_id: &str,
    recipients: Seq<Seq<char>>,
    early: Seq<ChannelMessage>,
    late: Seq<ChannelMessage>,
    f: DeleteFacts,
    k: int,
)
    ensures
        ({
            let s = delete_step(user, channel_id, recipients, early, late, f);
            let own = f.channel is Some && f.channel->0 is Found && ids::hex_of(f.channel->0->0)
                == user_text(user);
            &&& s !is Load && s !is Refuse ==> own
            &&& f.channel is Some && !own ==> s is Refuse
            &&& s is TellAndReply ==> f.deleted == Some(Wrote::Changed)
        }),
        0 <= k < early.len() && early[k].id is Some ==> ids_of(early).contains(early[k].id->0),
        0 <= k < early.len() && early[k].file_url is Some ==> urls_of(early).contains(
            early[k].file_url->0@,
        ),
        ids_of(early).len() <= early.len() && urls_of(early).len() <= early.len(),
{
    lemma_ids_and_urls(early, k);
}

/// A message adds its id and its file, if it has them, to those that go with a channel.
pub proof fn law_each_message_goes_with_its_file(s: Seq<ChannelMessage>, m: ChannelMessage)
    ensures
        m.id matches Some(id) ==> ids_of(s.push(m)) == ids_of(s).push(id),
        m.id is None ==> ids_of(s.push(m)) == ids_of(s),
        m.file_url matches Some(url) ==> urls_of(s.push(m)) == urls_of(s).push(url@),
        m.file_url is None ==> urls_of(s.push(m)) == urls_of(s),
        ids_of(Seq::empty()).len() == 0 && urls_of(Seq::empty()).len() == 0,
{
    assert(s.push(m).drop_last() =~= s);
}

proof fn lemma_ids_and_urls(s: Seq<ChannelMessage>, k: int)
    ensures
        0 <= k < s.len() && s[k].id is Some ==> ids_of(s).contains(s[k].id->0),
        0 <= k < s.len() && s[k].file_url is Some ==> urls_of(s).contains(s[k].file_url->0@),
        ids_of(s).len() <= s.len() && urls_of(s).len() <= s.len(),
    decreases s.len(),
{
    if s.len() > 0 {
        let rest = s.drop_last();
        lemma_ids_and_urls(rest, k);
        if 0 <= k < rest.len() {
            assert(rest[k] == s[k]);
            if s[k].id is Some {
                let i = choose|i: int| 0 <= i < ids_of(rest).len() && ids_of(rest)[i] == s[k].id->0;
                assert(ids_of(s)[i] == s[k].id->0);
            }
            if s[k].file_url is Some {
                let i = choose|i: int|
                    0 <= i < urls_of(rest).len() && urls_of(rest)[i] == s[k].file_url->0@;
                assert(urls_of(s)[i] == s[k].file_url->0@);
            }
        } else if k == rest.len() {
            assert(s.last() == s[k]);
            if s[k].id is Some {
                assert(ids_of(s).last() == s[k].id->0);
            }
            if s[k].file_url is Some {
                assert(urls_of(s).last() == s[k].file_url->0@);
            }
        }
    }
}

/// What the moderation rules read of a channel.
#[derive(Clone, Copy, Debug, PartialEq, Eq, Structural)]
pub struct Moderated {
    pub admin: Oid,
    /// Whether the user who asks is the owner.
    pub by_owner: bool,
    /// Whether the user whom it is about is a member.
    pub target_is_member: bool,
}

/// What is known while a member is moderated.
#[derive(Clone, Copy, Debug)]
pub struct ModerationFacts {
    pub channel: Option<Lookup<Moderated>>,
    /// The ban or mute was written, or taken back.
    pub written: Option<Done>,
    /// The user was taken from the members.
    pub pulled: Option<Done>,
    /// How often taking a ban back was tried.
    pub undo_tries: u8,
    /// Whether the ban was taken back.
    pub undone: bool,
    /// The lists of banned and muted members were loaded.
    pub lists: Option<Done>,
}

/// What follows when a member was moderated.
#[derive(Debug, PartialEq, Eq)]
pub enum Aftermath {
    /// The user is gone.
    Departed(Departure),
    /// The user is told of a mute, or of its end; a ban of the user is lifted where `lift_ban` says so.
    MuteChanged { event: &'static str, muted: bool, seconds: Option<u64>, lift_ban: bool },
    /// The user is told.
    Told(&'static str),
    Nothing,
}

/// The view of `Aftermath`.
#[verifier::ext_equal]
pub enum AftermathView {
    Departed(DepartureView),
    MuteChanged { event: &'static str, muted: bool, seconds: Option<u64>, lift_ban: bool },
    Told(&'static str),
    Nothing,
}

impl View for Aftermath {
    type V = AftermathView;

    open spec fn view(&self) -> AftermathView {
        match self {
            Aftermath::Departed(a) => AftermathView::Departed(a@),
            Aftermath::MuteChanged { event, muted, seconds, lift_ban } => AftermathView::MuteChanged {
                event: *event,
                muted: *muted,
                seconds: *seconds,
                lift_ban: *lift_ban,
            },
            Aftermath::Told(a) => AftermathView::Told(*a),
            Aftermath::Nothing => AftermathView::Nothing,
        }
    }
}

/// How long a measure holds, in seconds: for good where the request gives no time, or none at all.
pub open spec fn measure_seconds(body: TargetUserBody) -> Option<u64> {
    match body.duration_seconds {
        None => None,
        Some(d) => if d == 0 {
            None
        } else {
            Some(d)
        },
    }
}

/// Reads how long a measure holds.
pub fn seconds_asked(body: &TargetUserBody) -> (r: Option<u64>)
    ensures
        r == measure_seconds(*body),
{
    match body.duration_seconds {
        None => None,
        Some(d) => if d == 0 {
            None
        } else {
            Some(d)
        },
    }
}

/// A measure holds for good exactly where no time or a time of 0 is given; else it holds for the
/// given seconds.
pub proof fn law_measures_hold_as_asked(body: TargetUserBody)
    ensures
        measure_seconds(body) is None <==> body.duration_seconds is None || body.duration_seconds
            == Some(0u64),
        measure_seconds(body) is Some ==> measure_seconds(body) == body.duration_seconds,
{
}

/// What to do next while a member is moderated.
#[derive(Debug, PartialEq, Eq)]
pub enum ModerationStep {
    Load(Oid),
    /// Ban the user for so many seconds, or for good.
    Ban { channel: Oid, user: Oid, seconds: Option<u64> },
    Unban { channel: Oid, user: Oid },
    /// Mute the user for so many seconds, or for good.
    Mute { channel: Oid, user: Oid, seconds: Option<u64> },
    Unmute { channel: Oid, user: Oid },
    /// Take the user from the members.
    Pull { channel: Oid, user: Oid },
    /// Take back a ban after which the user could not be taken from the members.
    UndoBan { channel: Oid, user: Oid },
    /// Do what follows, and load the lists.
    TellAndLoadLists { channel: Oid, user: Oid, after: Aftermath },
    /// Do what follows, and reply.
    TellAndReply { channel: Oid, user: Oid, after: Aftermath },
    Reply,
    Refuse(Refusal),
}

/// The view of `ModerationStep`.
#[verifier::ext_equal]
pub enum ModerationStepView {
    Load(Oid),
    Ban { channel: Oid, user: Oid, seconds: Option<u64> },
    Unban { channel: Oid, user: Oid },
    Mute { channel: Oid, user: Oid, seconds: Option<u64> },
    Unmute { channel: Oid, user: Oid },
    Pull { channel: Oid, user: Oid },
    UndoBan { channel: Oid, user: Oid },
    TellAndLoadLists { channel: Oid, user: Oid, after: AftermathView },
    TellAndReply { channel: Oid, user: Oid, after: AftermathView },
    Reply,
    Refuse(Refusal),
}

impl View for ModerationStep {
    type V = ModerationStepView;

    open spec fn view(&self) -> ModerationStepView {
        match self {
            ModerationStep::Load(a) => ModerationStepView::Load(*a),
            ModerationStep::Ban { channel, user, seconds } => ModerationStepView::Ban {
                channel: *channel,
                user: *user,
                seconds: *seconds,
            },
            ModerationStep::Unban { channel, user } => ModerationStepView::Unban {
                channel: *channel,
                user: *user,
            },
            ModerationStep::Mute { channel, user, seconds } => ModerationStepView::Mute {
                channel: *channel,
                user: *user,
                seconds: *seconds,
            },
            ModerationStep::Unmute { channel, user } => ModerationStepView::Unmute {
                channel: *channel,
                user: *user,
            },
            ModerationStep::Pull { channel, user } => ModerationStepView::Pull {
                channel: *channel,
                user: *user,
            },
            ModerationStep::UndoBan { channel, user } => ModerationStepView::UndoBan {
                channel: *channel,
                user: *user,
            },
            ModerationStep::TellAndLoadLists { channel, user, after } => ModerationStepView::TellAndLoadLists {
                channel: *channel,
                user: *user,
                after: after@,
            },
            ModerationStep::TellAndReply { channel, user, after } => ModerationStepView::TellAndReply {
                channel: *channel,
                user: *user,
                after: after@,
            },
            ModerationStep::Reply => ModerationStepView::Reply,
            ModerationStep::Refuse(a) => ModerationStepView::Refuse(*a),
        }
    }
}

/// What follows a mute, or its end.
pub open spec fn mute_news(body: TargetUserBody, muted: bool) -> AftermathView {
    AftermathView::MuteChanged {
        event: "channel-moderation-updated",
        muted,
        seconds: if muted {
            measure_seconds(body)
        } else {
            None
        },
        lift_ban: muted,
    }
}

/// Finds what follows a mute, or its end.
pub fn tell_of_mute(body: &TargetUserBody, muted: bool) -> (r: Aftermath)
    ensures
        r@ == mute_news(*body, muted),
{
    Aftermath::MuteChanged {
        event: "channel-moderation-updated",
        muted,
        seconds: if muted {
            seconds_asked(body)
        } else {
            None
        },
        lift_ban: muted,
    }
}

/// The news of a mute say that it holds and for how long, and lift a ban; those of its end say so.
pub proof fn law_news_of_a_mute_tell_how_long(body: TargetUserBody, muted: bool)
    ensures
        ({
            let n = mute_news(body, muted);
            &&& n is MuteChanged
            &&& n->event == "channel-moderation-updated" && n->muted == muted && n->lift_ban == muted
            &&& muted && body.duration_seconds != Some(0u64) ==> n->seconds == body.duration_seconds
            &&& muted && body.duration_seconds == Some(0u64) ==> n->seconds is None
            &&& !muted ==> n->seconds is None
        }),
{
}

/// The steps that every moderation request begins with; none once they are passed. Where
/// `about_owner` is given, the request may not be about the owner.
pub open spec fn moderation_gate(
    body: TargetUserBody,
    channel_id: &str,
    not_owner: Refusal,
    about_owner: Option<Refusal>,
    f: ModerationFacts,
) -> Option<ModerationStepView> {
    let target = text::or_empty(body.user_id);
    let cid = ids::oid_of(channel_id@);
    if target.len() == 0 {
        Some(ModerationStepView::Refuse(message(400, "Brak identyfikatora użytkownika")))
    } else if ids::oid_of(target) is None {
        Some(ModerationStepView::Refuse(message(400, "Nieprawidłowy identyfikator użytkownika")))
    } else if cid is None {
        Some(ModerationStepView::Refuse(message(404, "Kanał nie znaleziony")))
    } else if f.channel is None {
        Some(ModerationStepView::Load(cid->0))
    } else if f.channel->0 is Missing {
        Some(ModerationStepView::Refuse(message(404, "Kanał nie znaleziony")))
    } else if f.channel->0 is Failed {
        Some(ModerationStepView::Refuse(message_unavailable()))
    } else if !f.channel->0->0.by_owner {
        Some(ModerationStepView::Refuse(not_owner))
    } else if about_owner is Some && ids::hex_of(f.channel->0->0.admin) == target {
        Some(ModerationStepView::Refuse(about_owner->0))
    } else {
        None
    }
}

fn pass_gate(
    body: &TargetUserBody,
    channel_id: &str,
    not_owner: Refusal,
    about_owner: Option<Refusal>,
    f: &ModerationFacts,
) -> (r: Result<(Oid, Oid), ModerationStep>)
    ensures
        moderation_gate(*body, channel_id, not_owner, about_owner, *f) == (match r {
            Ok(_) => None,
            Err(s) => Some(s@),
        }),
        r matches Ok(p) ==> p.0 == ids::oid_of(channel_id@)->0 && p.1 == ids::oid_of(
            text::or_empty(body.user_id),
        )->0,
{
    let target = text::text_or_empty(&body.user_id);
    if target.as_str().is_empty() {
        return Err(ModerationStep::Refuse(message(400, "Brak identyfikatora użytkownika")));
    }
    let tid = match parse_oid(target.as_str()) {
        None => {
            return Err(
                ModerationStep::Refuse(message(400, "Nieprawidłowy identyfikator użytkownika")),
            );
        },
        Some(id) => id,
    };
    let cid = match parse_oid(channel_id) {
        None => return Err(ModerationStep::Refuse(message(404, "Kanał nie znaleziony"))),
        Some(id) => id,
    };
    let channel = match f.channel {
        None => return Err(ModerationStep::Load(cid)),
        Some(Lookup::Missing) => {
            return Err(ModerationStep::Refuse(message(404, "Kanał nie znaleziony")));
        },
        Some(Lookup::Failed) => return Err(ModerationStep::Refuse(message_unavailable())),
        Some(Lookup::Found(c)) => c,
    };
    if !channel.by_owner {
        return Err(ModerationStep::Refuse(not_owner));
    }
    if let Some(refusal) = about_owner {
        if is_hex_of(channel.admin, target.as_str()) {
            return Err(ModerationStep::Refuse(refusal));
        }
    }
    Ok((cid, tid))
}

/// The channel that a moderation request names.
pub open spec fn moderated_channel(channel_id: &str) -> Oid {
    ids::oid_of(channel_id@)->0
}

/// The user whom a moderation request is about.
pub open spec fn moderated_user(body: TargetUserBody) -> Oid {
    ids::oid_of(text::or_empty(body.user_id))->0
}

pub open spec fn kick_step(
    body: TargetUserBody,
    channel_id: &str,
    after: AftermathView,
    f: ModerationFacts,
) -> ModerationStepView {
    let channel = moderated_channel(channel_id);
    let user = moderated_user(body);
    match moderation_gate(
        body,
        channel_id,
        message(403, "Tylko twórca kanału może wyrzucać członków"),
        Some(message(400, "Nie można wyrzucić twórcy kanału")),
        f,
    ) {
        Some(s) => s,
        None => match f.pulled {
            None => ModerationStepView::Pull { channel, user },
            Some(Done::Failed) => ModerationStepView::Refuse(
                again(message(500, "Failed to kick member")),
            ),
            Some(Done::Worked) => ModerationStepView::TellAndReply { channel, user, after },
        },
    }
}

/// Decides the next step of removing a member from a channel, where `after` follows.
pub(crate) fn kick_with(
    body: &TargetUserBody,
    channel_id: &str,
    after: Aftermath,
    f: &ModerationFacts,
) -> (r: ModerationStep)
    ensures
        r@ == kick_step(*body, channel_id, after@, *f),
{
    let (channel, user) = match pass_gate(
        body,
        channel_id,
        message(403, "Tylko twórca kanału może wyrzucać członków"),
        Some(message(400, "Nie można wyrzucić twórcy kanału")),
        f,
    ) {
        Err(s) => return s,
        Ok(p) => p,
    };
    match f.pulled {
        None => ModerationStep::Pull { channel, user },
        Some(Done::Failed) => ModerationStep::Refuse(again(message(500, "Failed to kick member"))),
        Some(Done::Worked) => ModerationStep::TellAndReply { channel, user, after },
    }
}

/// Decides the next step of removing a member from a channel, whose owner and members are `recipients`.
pub fn kick_channel_member(
    body: &TargetUserBody,
    channel_id: &str,
    recipients: &Vec<String>,
    f: &ModerationFacts,
) -> (r: ModerationStep)
    ensures
        r@ == kick_step(*body, channel_id, AftermathView::Departed(departure(text::texts(recipients@), text::or_empty(body.user_id), true)), *f),
        r@ matches ModerationStepView::TellAndReply { after, .. } ==> after is Departed
            && after->Departed_0.user == text::or_empty(body.user_id) && after->Departed_0.drop_mute
            && after->Departed_0.drop_read_position,
{
    let target = text::text_or_empty(&body.user_id);
    let after = Aftermath::Departed(depart(recipients, target.as_str(), true));
    kick_with(body, channel_id, after, f)
}

pub open spec fn ban_step(
    body: TargetUserBody,
    channel_id: &str,
    after: AftermathView,
    f: ModerationFacts,
) -> ModerationStepView {
    let channel = moderated_channel(channel_id);
    let user = moderated_user(body);
    let failed = ModerationStepView::Refuse(again(message(500, "Failed to ban member")));
    match moderation_gate(
        body,
        channel_id,
        message(403, "Tylko twórca kanału może banować"),
        Some(message(400, "Nie można zbanować twórcy kanału")),
        f,
    ) {
        Some(s) => s,
        None => if f.written is None {
            ModerationStepView::Ban { channel, user, seconds: measure_seconds(body) }
        } else if f.written->0 is Failed {
            failed
        } else if f.pulled is None {
            ModerationStepView::Pull { channel, user }
        } else if f.pulled->0 is Failed {
            if !f.undone && f.undo_tries < 3 {
                ModerationStepView::UndoBan { channel, user }
            } else {
                failed
            }
        } else {
            match f.lists {
                None => ModerationStepView::TellAndLoadLists { channel, user, after },
                Some(Done::Failed) => ModerationStepView::Refuse(again(channels_unavailable())),
                Some(Done::Worked) => ModerationStepView::Reply,
            }
        },
    }
}

/// Decides the next step of banning a member, where `after` follows.
pub(crate) fn ban_with(
    body: &TargetUserBody,
    channel_id: &str,
    after: Aftermath,
    f: &ModerationFacts,
) -> (r: ModerationStep)
    ensures
        r@ == ban_step(*body, channel_id, after@, *f),
{
    let failed = ModerationStep::Refuse(again(message(500, "Failed to ban member")));
    let (channel, user) = match pass_gate(
        body,
        channel_id,
        message(403, "Tylko twórca kanału może banować"),
        Some(message(400, "Nie można zbanować twórcy kanału")),
        f,
    ) {
        Err(s) => return s,
        Ok(p) => p,
    };
    match f.written {
        None => return ModerationStep::Ban { channel, user, seconds: seconds_asked(body) },
        Some(Done::Failed) => return failed,
        Some(Done::Worked) => {},
    }
    match f.pulled {
        None => return ModerationStep::Pull { channel, user },
        Some(Done::Failed) => {
            return if !f.undone && f.undo_tries < 3 {
                ModerationStep::UndoBan { channel, user }
            } else {
                failed
            };
        },
        Some(Done::Worked) => {},
    }
    match f.lists {
        None => ModerationStep::TellAndLoadLists { channel, user, after },
        Some(Done::Failed) => ModerationStep::Refuse(again(channels_unavailable())),
        Some(Done::Worked) => ModerationStep::Reply,
    }
}

/// Decides the next step of banning a member of a channel, whose owner and members are `recipients`.
pub fn ban_channel_member(
    body: &TargetUserBody,
    channel_id: &str,
    recipients: &Vec<String>,
    f: &ModerationFacts,
) -> (r: ModerationStep)
    ensures
        r@ == ban_step(*body, channel_id, AftermathView::Departed(departure(text::texts(recipients@), text::or_empty(body.user_id), true)), *f),
        r@ matches ModerationStepView::TellAndLoadLists { after, .. } ==> after is Departed
            && after->Departed_0.user == text::or_empty(body.user_id) && after->Departed_0.drop_mute
            && after->Departed_0.drop_read_position,
{
    let target = text::text_or_empty(&body.user_id);
    let after = Aftermath::Departed(depart(recipients, target.as_str(), true));
    ban_with(body, channel_id, after, f)
}

/// A member is taken from a channel in a ban only after the ban was written; where that fails
/// the ban is taken back, in at most three attempts, before the request is refused.
pub proof fn law_ban_comes_before_removal(
    body: TargetUserBody,
    channel_id: &str,
    after: AftermathView,
    f: ModerationFacts,
)
    ensures
        ban_step(body, channel_id, after, f) is Pull ==> f.written == Some(Done::Worked),
        ban_step(body, channel_id, after, f) is UndoBan ==> f.pulled == Some(Done::Failed) && f.written == Some(
            Done::Worked,
        ) && f.undo_tries < 3,
        ban_step(body, channel_id, after, (ModerationFacts { pulled: None, ..f })) is Pull && f.pulled == Some(
            Done::Failed,
        ) && ban_step(body, channel_id, after, f) is Refuse ==> f.undone || f.undo_tries >= 3,
{
}

/// Bans and mutes come from the owner of the channel only, and never fall on the owner.
pub proof fn law_owner_moderates_and_is_not_moderated(
    body: TargetUserBody,
    channel_id: &str,
    after: AftermathView,
    f: ModerationFacts,
)
    ensures
        ban_step(body, channel_id, after, f) is Ban || kick_step(body, channel_id, after, f) is Pull || mute_step(
            body,
            channel_id,
            after,
            f,
        ) is Mute ==> f.channel is Some && f.channel->0 is Found && f.channel->0->0.by_owner
            && ids::hex_of(f.channel->0->0.admin) != text::or_empty(body.user_id),
        unban_step(body, channel_id, after, f) is Unban || unmute_step(body, channel_id, after, f) is Unmute
            ==> f.channel is Some && f.channel->0 is Found && f.channel->0->0.by_owner,
{
}

/// The owner of a channel can kick, ban, unban, mute and unmute: a request that names another user
/// is not refused while nothing fails (to be muted, that user must be a member), and what was
/// asked for is done to that user in that channel as soon as the channel is known.
pub proof fn law_moderation_by_the_owner_goes_through(
    body: TargetUserBody,
    channel_id: &str,
    after: AftermathView,
    f: ModerationFacts,
)
    requires
        ids::oid_of(text::or_empty(body.user_id)) is Some,
        ids::oid_of(channel_id@) is Some,
        f.channel matches Some(c) ==> c is Found && c->0.by_owner && ids::hex_of(c->0.admin)
            != text::or_empty(body.user_id),
        f.written != Some(Done::Failed),
        f.pulled != Some(Done::Failed),
        f.lists != Some(Done::Failed),
    ensures
        ({
            let channel = ids::oid_of(channel_id@)->0;
            let user = ids::oid_of(text::or_empty(body.user_id))->0;
            let seconds = if body.duration_seconds == Some(0u64) {
                None
            } else {
                body.duration_seconds
            };
            let known = f.channel is Some;
            let member = known && f.channel->0->0.target_is_member;
            &&& kick_step(body, channel_id, after, f) !is Refuse && ban_step(body, channel_id, after, f) !is Refuse && unban_step(body, channel_id, after, f) !is Refuse
                && unmute_step(body, channel_id, after, f) !is Refuse
            &&& !known || member ==> mute_step(body, channel_id, after, f) !is Refuse
            &&& known && !member ==> mute_step(body, channel_id, after, f) == ModerationStepView::Refuse(
                message(400, "Użytkownik nie jest na kanale"),
            )
            &&& !known ==> kick_step(body, channel_id, after, f) == ModerationStepView::Load(channel) && ban_step(body, channel_id, after, f)
                == ModerationStepView::Load(channel) && unban_step(body, channel_id, after, f) == ModerationStepView::Load(
                channel,
            ) && mute_step(body, channel_id, after, f) == ModerationStepView::Load(channel) && unmute_step(body, channel_id, after, f)
                == ModerationStepView::Load(channel)
            &&& known && f.pulled is None ==> kick_step(body, channel_id, after, f) == (ModerationStepView::Pull {
                channel,
                user,
            })
            &&& known && f.written is None ==> ban_step(body, channel_id, after, f) == (ModerationStepView::Ban {
                channel,
                user,
                seconds,
            }) && unban_step(body, channel_id, after, f) == (ModerationStepView::Unban { channel, user }) && unmute_step(body, channel_id, after, f)
                == (ModerationStepView::Unmute { channel, user })
            &&& known && member && f.written is None ==> mute_step(body, channel_id, after, f) == (ModerationStepView::Mute {
                channel,
                user,
                seconds,
            })
            &&& known && f.written is Some && f.pulled is None ==> ban_step(body, channel_id, after, f) == (
            ModerationStepView::Pull { channel, user })
            &&& known && f.pulled is Some ==> kick_step(body, channel_id, after, f) == (ModerationStepView::TellAndReply {
                channel,
                user,
                after,
            })
            &&& known && f.written is Some && f.pulled is Some && f.lists is None ==> ban_step(body, channel_id, after, f) == (
            ModerationStepView::TellAndLoadLists { channel, user, after })
            &&& known && f.written is Some && f.lists is None ==> unban_step(body, channel_id, after, f) == (
            ModerationStepView::TellAndLoadLists { channel, user, after }) && unmute_step(body, channel_id, after, f) == (
            ModerationStepView::TellAndLoadLists { channel, user, after }) && (member ==> mute_step(body, channel_id, after, f)
                == (ModerationStepView::TellAndLoadLists { channel, user, after }))
            &&& known && f.written is Some && f.pulled is Some && f.lists is Some ==> ban_step(body, channel_id, after, f) is
                Reply
            &&& known && f.written is Some && f.lists is Some ==> unban_step(body, channel_id, after, f) is Reply
                && unmute_step(body, channel_id, after, f) is Reply && (member ==> mute_step(body, channel_id, after, f) is Reply)
        }),
{
}

/// A measure is announced or answered with success only where it was taken: a ban only where it
/// was written and the user taken from the members, member or not; a kick only where the user was
/// taken from the members; a mute, and the end of a mute or a ban, only where that was written.
pub proof fn law_success_means_the_measure_was_taken(
    body: TargetUserBody,
    channel_id: &str,
    after: AftermathView,
    f: ModerationFacts,
)
    ensures
        ban_step(body, channel_id, after, f) is TellAndLoadLists || ban_step(body, channel_id, after, f) is Reply || ban_step(body, channel_id, after, f) is TellAndReply
            ==> f.written == Some(Done::Worked) && f.pulled == Some(Done::Worked),
        ban_step(body, channel_id, after, (ModerationFacts { pulled: None, ..f })) !is
            TellAndLoadLists,
        kick_step(body, channel_id, after, f) is TellAndReply || kick_step(body, channel_id, after, f) is TellAndLoadLists || kick_step(body, channel_id, after, f) is Reply
            ==> f.pulled == Some(Done::Worked),
        mute_step(body, channel_id, after, f) is TellAndLoadLists || mute_step(body, channel_id, after, f) is Reply || mute_step(body, channel_id, after, f) is TellAndReply
            ==> f.written == Some(Done::Worked) && f.channel->0->0.target_is_member,
        unban_step(body, channel_id, after, f) is TellAndLoadLists || unban_step(body, channel_id, after, f) is Reply || unban_step(body, channel_id, after, f) is TellAndReply
            ==> f.written == Some(Done::Worked),
        unmute_step(body, channel_id, after, f) is TellAndLoadLists || unmute_step(body, channel_id, after, f) is Reply || unmute_step(body, channel_id, after, f) is
            TellAndReply ==> f.written == Some(Done::Worked),
        ban_step(body, channel_id, after, f) is Reply || mute_step(body, channel_id, after, f) is Reply || unban_step(body, channel_id, after, f) is Reply || unmute_step(body, channel_id, after, f) is
            Reply ==> f.lists == Some(Done::Worked),
        ban_step(body, channel_id, after, f) is Pull || kick_step(body, channel_id, after, f) is Pull ==> f.pulled is None,
        ban_step(body, channel_id, after, f) is Ban || mute_step(body, channel_id, after, f) is Mute || unban_step(body, channel_id, after, f) is Unban || unmute_step(body, channel_id, after, f) is
            Unmute ==> f.written is None,
        f.written == Some(Done::Failed) ==> ban_step(body, channel_id, after, f) is Refuse || ban_step(body, channel_id, after, f) is Load,
        f.written == Some(Done::Worked) && f.pulled == Some(Done::Failed) && !f.undone
            && f.undo_tries < 3 ==> ban_step(body, channel_id, after, f) is UndoBan || ban_step(body, channel_id, after, f) is Refuse || ban_step(body, channel_id, after, f) is
            Load,
{
}

/// Nobody but the owner moderates, and nobody moderates the owner; a request that names no user or
/// no channel is refused, and so is one that failed, which may then be sent again.
pub proof fn law_refused_moderation_has_its_reason(
    body: TargetUserBody,
    channel_id: &str,
    after: AftermathView,
    f: ModerationFacts,
)
    ensures
        ({
            let target = text::or_empty(body.user_id);
            let owner_meant = f.channel is Some && f.channel->0 is Found && ids::hex_of(
                f.channel->0->0.admin,
            ) == target;
            let not_owner = f.channel is Some && f.channel->0 is Found && !f.channel->0->0.by_owner;
            let no_member = f.channel is Some && f.channel->0 is Found
                && !f.channel->0->0.target_is_member;
            let failed = f.written == Some(Done::Failed) || f.pulled == Some(Done::Failed) || f.lists
                == Some(Done::Failed) || f.channel == Some(Lookup::<Moderated>::Failed);
            &&& kick_step(body, channel_id, after, f) matches ModerationStepView::Refuse(r) ==> refused_for(
                r,
                body,
                channel_id,
                f,
                owner_meant,
                not_owner,
                failed,
            )
            &&& ban_step(body, channel_id, after, f) matches ModerationStepView::Refuse(r) ==> refused_for(
                r,
                body,
                channel_id,
                f,
                owner_meant,
                not_owner,
                failed,
            )
            &&& mute_step(body, channel_id, after, f) matches ModerationStepView::Refuse(r) ==> refused_for(
                r,
                body,
                channel_id,
                f,
                owner_meant || no_member,
                not_owner,
                failed,
            )
            &&& unban_step(body, channel_id, after, f) matches ModerationStepView::Refuse(r) ==> refused_for(
                r,
                body,
                channel_id,
                f,
                false,
                not_owner,
                failed,
            )
            &&& unmute_step(body, channel_id, after, f) matches ModerationStepView::Refuse(r) ==> refused_for(
                r,
                body,
                channel_id,
                f,
                false,
                not_owner,
                failed,
            )
            &&& target.len() == 0 || ids::oid_of(target) is None || ids::oid_of(channel_id@) is None
                ==> kick_step(body, channel_id, after, f) is Refuse && ban_step(body, channel_id, after, f) is Refuse && mute_step(body, channel_id, after, f) is Refuse
                && unban_step(body, channel_id, after, f) is Refuse && unmute_step(body, channel_id, after, f) is Refuse
        }),
{
}

/// Whether a step refuses the request with this status.
pub open spec fn refused_with(s: ModerationStepView, status: u16) -> bool {
    s matches ModerationStepView::Refuse(r) && r.status == status
}

/// What stands in the way of a measure decides how it is refused: a channel that is gone (404) or cannot be
/// loaded (503), a user who is not the owner (403), the owner as its target (400), a step that failed
/// (500, 503). A ban that could not be carried through is taken back first, three times at most.
pub proof fn law_obstacle_decides_how_a_measure_is_refused(
    body: TargetUserBody,
    channel_id: &str,
    after: AftermathView,
    f: ModerationFacts,
)
    requires
        ids::oid_of(text::or_empty(body.user_id)) is Some,
        ids::oid_of(channel_id@) is Some,
        f.channel is Some,
    ensures
        ({
            let found = f.channel->0 is Found;
            let owner = found && f.channel->0->0.by_owner;
            let fit = owner && ids::hex_of(f.channel->0->0.admin) != text::or_empty(body.user_id);
            let member = fit && f.channel->0->0.target_is_member;
            let kick = kick_step(body, channel_id, after, f);
            let ban = ban_step(body, channel_id, after, f);
            let unban = unban_step(body, channel_id, after, f);
            let mute = mute_step(body, channel_id, after, f);
            let unmute = unmute_step(body, channel_id, after, f);
            &&& f.channel->0 is Missing ==> refused_with(kick, 404) && refused_with(ban, 404)
                && refused_with(unban, 404) && refused_with(mute, 404) && refused_with(unmute, 404)
            &&& f.channel->0 is Failed ==> refused_with(kick, 503) && refused_with(ban, 503)
                && refused_with(unban, 503) && refused_with(mute, 503) && refused_with(unmute, 503)
            &&& found && !owner ==> refused_with(kick, 403) && refused_with(ban, 403) && refused_with(
                unban,
                403,
            ) && refused_with(mute, 403) && refused_with(unmute, 403)
            &&& owner && !fit ==> refused_with(kick, 400) && refused_with(ban, 400) && refused_with(
                mute,
                400,
            )
            &&& fit && !member ==> refused_with(mute, 400)
            &&& fit && f.pulled == Some(Done::Failed) ==> refused_with(kick, 500)
            &&& fit && f.written == Some(Done::Failed) ==> refused_with(ban, 500)
            &&& fit && f.written == Some(Done::Worked) && f.pulled == Some(Done::Failed) ==> if !f.undone
                && f.undo_tries < 3 {
                ban is UndoBan
            } else {
                refused_with(ban, 500)
            }
            &&& fit && f.written == Some(Done::Worked) && f.pulled == Some(Done::Worked) && f.lists
                == Some(Done::Failed) ==> refused_with(ban, 503)
            &&& owner && f.written == Some(Done::Failed) ==> refused_with(unban, 500) && refused_with(
                unmute,
                500,
            )
            &&& owner && f.written == Some(Done::Worked) && f.lists == Some(Done::Failed)
                ==> refused_with(unban, 503) && refused_with(unmute, 503)
            &&& member && f.written == Some(Done::Failed) ==> refused_with(mute, 500)
            &&& member && f.written == Some(Done::Worked) && f.lists == Some(Done::Failed)
                ==> refused_with(mute, 503)
        }),
{
}

/// Whether the status of a refusal fits the request: 400 where it names no user or one who cannot
/// be moderated, 404 where there is no channel, 403 where it is not the owner's, else a failure.
pub open spec fn refused_for(
    r: Refusal,
    body: TargetUserBody,
    channel_id: &str,
    f: ModerationFacts,
    unfit: bool,
    not_owner: bool,
    failed: bool,
) -> bool {
    &&& r.status == 400 ==> ids::oid_of(text::or_empty(body.user_id)) is None || unfit
    &&& r.status == 404 ==> ids::oid_of(channel_id@) is None || f.channel == Some(
        Lookup::<Moderated>::Missing,
    )
    &&& r.status == 403 ==> not_owner
    &&& r.status == 500 || r.status == 503 ==> failed && r.retryable
    &&& r.status == 400 || r.status == 404 || r.status == 403 || r.status == 500 || r.status == 503
}

pub open spec fn unban_step(
    body: TargetUserBody,
    channel_id: &str,
    after: AftermathView,
    f: ModerationFacts,
) -> ModerationStepView {
    let channel = moderated_channel(channel_id);
    let user = moderated_user(body);
    match moderation_gate(
        body,
        channel_id,
        message(403, "Tylko twórca kanału może odbanować"),
        None,
        f,
    ) {
        Some(s) => s,
        None => if f.written is None {
            ModerationStepView::Unban { channel, user }
        } else if f.written->0 is Failed {
            ModerationStepView::Refuse(again(message(500, "Failed to unban member")))
        } else {
            match f.lists {
                None => ModerationStepView::TellAndLoadLists { channel, user, after },
                Some(Done::Failed) => ModerationStepView::Refuse(again(channels_unavailable())),
                Some(Done::Worked) => ModerationStepView::Reply,
            }
        },
    }
}

/// Decides the next step of taking a ban back, where `after` follows.
pub(crate) fn unban_with(
    body: &TargetUserBody,
    channel_id: &str,
    after: Aftermath,
    f: &ModerationFacts,
) -> (r: ModerationStep)
    ensures
        r@ == unban_step(*body, channel_id, after@, *f),
{
    let (channel, user) = match pass_gate(
        body,
        channel_id,
        message(403, "Tylko twórca kanału może odbanować"),
        None,
        f,
    ) {
        Err(s) => return s,
        Ok(p) => p,
    };
    match f.written {
        None => return ModerationStep::Unban { channel, user },
        Some(Done::Failed) => {
            return ModerationStep::Refuse(again(message(500, "Failed to unban member")));
        },
        Some(Done::Worked) => {},
    }
    match f.lists {
        None => ModerationStep::TellAndLoadLists { channel, user, after },
        Some(Done::Failed) => ModerationStep::Refuse(again(channels_unavailable())),
        Some(Done::Worked) => ModerationStep::Reply,
    }
}

/// Decides the next step of taking a ban back.
pub fn unban_channel_member(
    body: &TargetUserBody,
    channel_id: &str,
    f: &ModerationFacts,
) -> (r: ModerationStep)
    ensures
        r@ == unban_step(*body, channel_id, AftermathView::Nothing, *f),
{
    let after = Aftermath::Nothing;
    unban_with(body, channel_id, after, f)
}

pub open spec fn mute_step(
    body: TargetUserBody,
    channel_id: &str,
    after: AftermathView,
    f: ModerationFacts,
) -> ModerationStepView {
    let channel = moderated_channel(channel_id);
    let user = moderated_user(body);
    match moderation_gate(
        body,
        channel_id,
        message(403, "Tylko twórca kanału może wyciszać członków"),
        Some(message(400, "Nie można wyciszyć twórcy kanału")),
        f,
    ) {
        Some(s) => s,
        None => if !f.channel->0->0.target_is_member {
            ModerationStepView::Refuse(message(400, "Użytkownik nie jest na kanale"))
        } else if f.written is None {
            ModerationStepView::Mute { channel, user, seconds: measure_seconds(body) }
        } else if f.written->0 is Failed {
            ModerationStepView::Refuse(again(message(500, "Failed to mute member")))
        } else {
            match f.lists {
                None => ModerationStepView::TellAndLoadLists { channel, user, after },
                Some(Done::Failed) => ModerationStepView::Refuse(again(channels_unavailable())),
                Some(Done::Worked) => ModerationStepView::Reply,
            }
        },
    }
}

/// Decides the next step of muting a member, where `after` follows.
pub(crate) fn mute_with(
    body: &TargetUserBody,
    channel_id: &str,
    after: Aftermath,
    f: &ModerationFacts,
) -> (r: ModerationStep)
    ensures
        r@ == mute_step(*body, channel_id, after@, *f),
{
    let (channel, user) = match pass_gate(
        body,
        channel_id,
        message(403, "Tylko twórca kanału może wyciszać członków"),
        Some(message(400, "Nie można wyciszyć twórcy kanału")),
        f,
    ) {
        Err(s) => return s,
        Ok(p) => p,
    };
    let is_member = match f.channel {
        Some(Lookup::Found(c)) => c.target_is_member,
        _ => false,
    };
    if !is_member {
        return ModerationStep::Refuse(message(400, "Użytkownik nie jest na kanale"));
    }
    match f.written {
        None => return ModerationStep::Mute { channel, user, seconds: seconds_asked(body) },
        Some(Done::Failed) => {
            return ModerationStep::Refuse(again(message(500, "Failed to mute member")));
        },
        Some(Done::Worked) => {},
    }
    match f.lists {
        None => ModerationStep::TellAndLoadLists { channel, user, after },
        Some(Done::Failed) => ModerationStep::Refuse(again(channels_unavailable())),
        Some(Done::Worked) => ModerationStep::Reply,
    }
}

/// Decides the next step of muting a member.
pub fn mute_channel_member(
    body: &TargetUserBody,
    channel_id: &str,
    f: &ModerationFacts,
) -> (r: ModerationStep)
    ensures
        r@ == mute_step(*body, channel_id, mute_news(*body, true), *f),
        r@ matches ModerationStepView::TellAndLoadLists {
            after: AftermathView::MuteChanged { event, muted, seconds, lift_ban },
            ..
        } ==> event == "channel-moderation-updated" && muted == true && seconds == (if body.duration_seconds == Some(0u64) {
                None
            } else {
                body.duration_seconds
            }) && lift_ban,
        r@ matches ModerationStepView::TellAndLoadLists { after, .. } ==> after is MuteChanged,
{
    let after = tell_of_mute(body, true);
    mute_with(body, channel_id, after, f)
}

pub open spec fn unmute_step(
    body: TargetUserBody,
    channel_id: &str,
    after: AftermathView,
    f: ModerationFacts,
) -> ModerationStepView {
    let channel = moderated_channel(channel_id);
    let user = moderated_user(body);
    match moderation_gate(
        body,
        channel_id,
        message(403, "Tylko twórca kanału może cofnąć wyciszenie"),
        None,
        f,
    ) {
        Some(s) => s,
        None => if f.written is None {
            ModerationStepView::Unmute { channel, user }
        } else if f.written->0 is Failed {
            ModerationStepView::Refuse(again(message(500, "Failed to unmute member")))
        } else {
            match f.lists {
                None => ModerationStepView::TellAndLoadLists { channel, user, after },
                Some(Done::Failed) => ModerationStepView::Refuse(again(channels_unavailable())),
                Some(Done::Worked) => ModerationStepView::Reply,
            }
        },
    }
}

/// Decides the next step of ending the mute of a member, where `after` follows.
pub(crate) fn unmute_with(
    body: &TargetUserBody,
    channel_id: &str,
    after: Aftermath,
    f: &ModerationFacts,
) -> (r: ModerationStep)
    ensures
        r@ == unmute_step(*body, channel_id, after@, *f),
{
    let (channel, user) = match pass_gate(
        body,
        channel_id,
        message(403, "Tylko twórca kanału może cofnąć wyciszenie"),
        None,
        f,
    ) {
        Err(s) => return s,
        Ok(p) => p,
    };
    match f.written {
        None => return ModerationStep::Unmute { channel, user },
        Some(Done::Failed) => {
            return ModerationStep::Refuse(again(message(500, "Failed to unmute member")));
        },
        Some(Done::Worked) => {},
    }
    match f.lists {
        None => ModerationStep::TellAndLoadLists { channel, user, after },
        Some(Done::Failed) => ModerationStep::Refuse(again(channels_unavailable())),
        Some(Done::Worked) => ModerationStep::Reply,
    }
}


/// Decides the next step of ending the mute of a member.
pub fn unmute_channel_member(
    body: &TargetUserBody,
    channel_id: &str,
    f: &ModerationFacts,
) -> (r: ModerationStep)
    ensures
        r@ == unmute_step(*body, channel_id, mute_news(*body, false), *f),
        r@ matches ModerationStepView::TellAndLoadLists {
            after: AftermathView::MuteChanged { event, muted, seconds, lift_ban },
            ..
        } ==> event == "channel-moderation-updated" && muted == false && seconds is None && !lift_ban,
        r@ matches ModerationStepView::TellAndLoadLists { after, .. } ==> after is MuteChanged,
{
    let after = tell_of_mute(body, false);
    unmute_with(body, channel_id, after, f)
}

/// Whether `reason` is one of the reasons for which a channel can be reported.
pub open spec fn is_report_reason(reason: Seq<char>) -> bool {
    reason == "Spam lub reklamy"@ || reason == "Treści obraźliwe"@ || reason == "Nękanie lub bullying"@
        || reason == "Nielegalne treści"@ || reason == "Podszywanie się"@ || reason == "Inne"@
}

/// The reasons for which a channel can be reported, in the order they are offered.
pub fn report_reasons() -> (r: Vec<&'static str>)
    ensures
        r@ == seq![
            "Spam lub reklamy",
            "Treści obraźliwe",
            "Nękanie lub bullying",
            "Nielegalne treści",
            "Podszywanie się",
            "Inne",
        ],
        forall|s: Seq<char>|
            is_report_reason(s) <==> exists|i: int| 0 <= i < r@.len() && #[trigger] r@[i]@ == s,
{
    let mut r: Vec<&'static str> = Vec::new();
    r.push("Spam lub reklamy");
    r.push("Treści obraźliwe");
    r.push("Nękanie lub bullying");
    r.push("Nielegalne treści");
    r.push("Podszywanie się");
    r.push("Inne");
    assert(r@[0]@ == "Spam lub reklamy"@);
    assert(r@[1]@ == "Treści obraźliwe"@);
    assert(r@[2]@ == "Nękanie lub bullying"@);
    assert(r@[3]@ == "Nielegalne treści"@);
    assert(r@[4]@ == "Podszywanie się"@);
    assert(r@[5]@ == "Inne"@);
    r
}

fn known_reason(reason: &str) -> (r: bool)
    ensures
        r == is_report_reason(reason@),
{
    text::same_text(reason, "Spam lub reklamy") || text::same_text(reason, "Treści obraźliwe")
        || text::same_text(reason, "Nękanie lub bullying") || text::same_text(
        reason,
        "Nielegalne treści",
    ) || text::same_text(reason, "Podszywanie się") || text::same_text(reason, "Inne")
}

/// What is known while a channel is reported.
#[derive(Clone, Copy, Debug)]
pub struct ReportFacts {
    /// The channel; whether the user is a member.
    pub channel: Option<Lookup<bool>>,
    pub user: Option<Lookup<()>>,
    pub stored: Option<Done>,
}

/// What to do next while a channel is reported.
#[derive(Debug, PartialEq, Eq)]
pub enum ReportStep {
    Load(Oid),
    LoadUser(Oid),
    Store { channel: Oid, user: Oid, reason: String, details: Option<String> },
    Reply,
    /// Refuse, and list the reasons that can be given.
    RefuseReason(Refusal),
    Refuse(Refusal),
}

/// The view of `ReportStep`.
#[verifier::ext_equal]
pub enum ReportStepView {
    Load(Oid),
    LoadUser(Oid),
    Store { channel: Oid, user: Oid, reason: Seq<char>, details: Option<Seq<char>> },
    Reply,
    RefuseReason(Refusal),
    Refuse(Refusal),
}

impl View for ReportStep {
    type V = ReportStepView;

    open spec fn view(&self) -> ReportStepView {
        match self {
            ReportStep::Load(a) => ReportStepView::Load(*a),
            ReportStep::LoadUser(a) => ReportStepView::LoadUser(*a),
            ReportStep::Store { channel, user, reason, details } => ReportStepView::Store {
                channel: *channel,
                user: *user,
                reason: reason@,
                details: text::opt(*details),
            },
            ReportStep::Reply => ReportStepView::Reply,
            ReportStep::RefuseReason(a) => ReportStepView::RefuseReason(*a),
            ReportStep::Refuse(a) => ReportStepView::Refuse(*a),
        }
    }
}

/// The details that a report gives: at most 1000 characters, none where they are blank.
pub open spec fn details_of(body: ReportBody) -> Option<Seq<char>> {
    let d = text::prefix(text::trimmed(text::or_empty(body.details)), 1000);
    if d.len() == 0 {
        None
    } else {
        Some(d)
    }
}

pub open spec fn report_step(
    user: Option<&str>,
    channel_id: &str,
    body: ReportBody,
    f: ReportFacts,
) -> ReportStepView {
    let reason = text::trimmed(text::or_empty(body.reason));
    let cid = ids::oid_of(channel_id@);
    let uid = ids::oid_of(user_text(user));
    if reason.len() == 0 {
        ReportStepView::Refuse(message(400, "Podaj powód zgłoszenia"))
    } else if !is_report_reason(reason) {
        ReportStepView::RefuseReason(message(400, "Nieprawidłowy powód zgłoszenia"))
    } else if cid is None {
        ReportStepView::Refuse(message(404, "Kanał nie znaleziony"))
    } else if f.channel is None {
        ReportStepView::Load(cid->0)
    } else if f.channel->0 is Missing {
        ReportStepView::Refuse(message(404, "Kanał nie znaleziony"))
    } else if f.channel->0 is Failed {
        ReportStepView::Refuse(message_unavailable())
    } else if !f.channel->0->0 {
        ReportStepView::Refuse(message(403, "Musisz być na kanale, aby go zgłosić"))
    } else if uid is None {
        ReportStepView::Refuse(message(404, "Użytkownik nie znaleziony"))
    } else if f.user is None {
        ReportStepView::LoadUser(uid->0)
    } else if f.user->0 is Missing {
        ReportStepView::Refuse(message(404, "Użytkownik nie znaleziony"))
    } else if f.user->0 is Failed {
        ReportStepView::Refuse(message_unavailable())
    } else {
        match f.stored {
            None => ReportStepView::Store {
                channel: cid->0,
                user: uid->0,
                reason,
                details: details_of(body),
            },
            Some(Done::Failed) => ReportStepView::Refuse(message(500, "Internal Server Error")),
            Some(Done::Worked) => ReportStepView::Reply,
        }
    }
}

/// Decides the next step of reporting a channel.
pub fn report_channel(user: Option<&str>, channel_id: &str, body: &ReportBody, f: &ReportFacts) -> (r:
    ReportStep)
    ensures
        r@ == report_step(user, channel_id, *body, *f),
{
    let reason = report_reason(body);
    if reason.as_str().is_empty() {
        return ReportStep::Refuse(message(400, "Podaj powód zgłoszenia"));
    }
    if !known_reason(reason.as_str()) {
        return ReportStep::RefuseReason(message(400, "Nieprawidłowy powód zgłoszenia"));
    }
    let cid = match parse_oid(channel_id) {
        None => return ReportStep::Refuse(message(404, "Kanał nie znaleziony")),
        Some(id) => id,
    };
    match f.channel {
        None => return ReportStep::Load(cid),
        Some(Lookup::Missing) => return ReportStep::Refuse(message(404, "Kanał nie znaleziony")),
        Some(Lookup::Failed) => return ReportStep::Refuse(message_unavailable()),
        Some(Lookup::Found(is_member)) => {
            if !is_member {
                return ReportStep::Refuse(message(403, "Musisz być na kanale, aby go zgłosić"));
            }
        },
    }
    let uid = match parse_oid(user_or_empty(user).as_str()) {
        None => return ReportStep::Refuse(message(404, "Użytkownik nie znaleziony")),
        Some(id) => id,
    };
    match f.user {
        None => return ReportStep::LoadUser(uid),
        Some(Lookup::Missing) => {
            return ReportStep::Refuse(message(404, "Użytkownik nie znaleziony"));
        },
        Some(Lookup::Failed) => return ReportStep::Refuse(message_unavailable()),
        Some(Lookup::Found(_)) => {},
    }
    match f.stored {
        None => ReportStep::Store {
            channel: cid,
            user: uid,
            reason,
            details: report_details(body),
        },
        Some(Done::Failed) => ReportStep::Refuse(message(500, "Internal Server Error")),
        Some(Done::Worked) => ReportStep::Reply,
    }
}

/// A member can report a channel for one of the listed reasons: the request is not refused while
/// nothing fails, and the reason and the first 1000 characters of the details are stored for that
/// channel and that user. Nobody else, and for no other reason.
pub proof fn law_members_report_channels(
    user: Option<&str>,
    channel_id: &str,
    body: ReportBody,
    f: ReportFacts,
)
    ensures
        ({
            let s = report_step(user, channel_id, body, f);
            let reason = text::trimmed(text::or_empty(body.reason));
            let details = text::trimmed(text::or_empty(body.details));
            let cid = ids::oid_of(channel_id@);
            let uid = ids::oid_of(user_text(user));
            let listed = reason.len() > 0 && is_report_reason(reason);
            let fits = listed && cid is Some && uid is Some && (f.channel is None || f.channel
                == Some(Lookup::Found(true))) && (f.user is None || f.user->0 is Found) && f.stored
                != Some(Done::Failed);
            &&& fits ==> s !is Refuse && s !is RefuseReason
            &&& fits && f.channel is None ==> s == ReportStepView::Load(cid->0)
            &&& fits && f.channel is Some && f.user is None ==> s == ReportStepView::LoadUser(uid->0)
            &&& fits && f.channel is Some && f.user is Some && f.stored is None ==> s is Store
            &&& fits && f.channel is Some && f.user is Some && f.stored is Some ==> s is Reply
            &&& s matches ReportStepView::Store { channel, user: u, reason: why, details: more } ==> cid
                == Some(channel) && uid == Some(u) && why == reason && f.channel == Some(
                Lookup::Found(true),
            ) && listed && f.stored is None && (more is None <==> details.len() == 0) && (more is Some
                && details.len() <= 1000 ==> more->0 == details) && (details.len() > 1000 ==> more
                == Some(details.take(1000)))
            &&& s is Reply ==> f.stored == Some(Done::Worked) && f.channel == Some(
                Lookup::Found(true),
            )
            &&& reason.len() > 0 && !is_report_reason(reason) ==> s is RefuseReason
            &&& reason.len() == 0 ==> s is Refuse
        }),
{
}

/// The reason that a report gives.
pub fn report_reason(body: &ReportBody) -> (r: String)
    ensures
        r@ == text::trimmed(text::or_empty(body.reason)),
{
    text::trim(text::text_or_empty(&body.reason).as_str())
}

/// Reads the details that a report gives.
pub fn report_details(body: &ReportBody) -> (r: Option<String>)
    ensures
        text::opt(r) == details_of(*body),
{
    let t = text::trim(text::text_or_empty(&body.details).as_str());
    let d = text::take_chars(t.as_str(), 1000);
    if d.as_str().is_empty() {
        None
    } else {
        Some(d)
    }
}

} // verus!
