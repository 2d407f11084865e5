//! Invitations to channels.

use vstd::prelude::*;

use crate::controllers::channels;
use crate::controllers::channels::{Arrival, ArrivalView, arrive};
use crate::ids;
use crate::ids::{Oid, is_hex_of, parse_oid};
use crate::reply::{Answer, Done, Lookup, Refusal, Wrote, again, error, unavailable};
use crate::text;

verus! {

/// Request for an invitation.
pub struct CreateInviteBody {
    pub max_uses: Option<u32>,
}

/// What the rules read of an invitation. Times are in milliseconds.
#[derive(Clone, Copy, Debug, PartialEq, Eq)]
pub struct Invitation {
    pub channel: Oid,
    pub revoked: bool,
    pub used: bool,
    pub expires_at: Option<i64>,
    pub max_uses: Option<u32>,
    pub use_count: u32,
}

/// Whether an invitation was switched off.
pub open spec fn is_revoked(i: Invitation) -> bool {
    i.revoked || i.used
}

/// Whether an invitation has run out by `now`.
pub open spec fn is_expired(i: Invitation, now: i64) -> bool {
    i.expires_at is Some && i.expires_at->0 < now
}

/// Whether an invitation has been used as often as it may be.
pub open spec fn is_used_up(i: Invitation) -> bool {
    i.max_uses is Some && i.use_count >= i.max_uses->0
}

/// Whether an invitation lets anyone in at `now`.
pub open spec fn is_joinable(i: Invitation, now: i64) -> bool {
    !is_revoked(i) && !is_expired(i, now) && !is_used_up(i)
}

/// What an invitation shows of itself.
#[derive(Clone, Copy, Debug, PartialEq, Eq, Structural)]
pub struct InviteState {
    pub revoked: bool,
    pub expired: bool,
    pub limit_reached: bool,
    pub joinable: bool,
}

/// Describes the state of an invitation at `now`.
pub fn invite_state(i: &Invitation, now: i64) -> (r: InviteState)
    ensures
        r.revoked == is_revoked(*i),
        r.expired == is_expired(*i, now),
        r.limit_reached == is_used_up(*i),
        r.joinable == is_joinable(*i, now),
        r.limit_reached == (i.max_uses is Some && i.max_uses->0 <= i.use_count),
        r.revoked == (i.revoked || i.used),
        r.joinable == !(r.revoked || r.expired || r.limit_reached),
{
    let expired = match i.expires_at {
        None => false,
        Some(t) => t < now,
    };
    let limit_reached = match i.max_uses {
        None => false,
        Some(max) => i.use_count >= max,
    };
    InviteState {
        revoked: i.revoked || i.used,
        expired,
        limit_reached,
        joinable: !i.revoked && !i.used && !expired && !limit_reached,
    }
}

/// When an invitation lets users in, by its fields: it is neither switched off nor used, its time
/// has not passed, and without a limit any number may come, with one fewer than the limit have.
pub proof fn law_open_invitation_is_joinable(i: Invitation, now: i64)
    ensures
        is_used_up(i) <==> i.max_uses is Some && i.max_uses->0 <= i.use_count,
        is_revoked(i) <==> i.revoked || i.used,
        is_expired(i, now) <==> i.expires_at is Some && i.expires_at->0 < now,
        is_joinable(i, now) <==> !i.revoked && !i.used && (i.expires_at is None || now
            <= i.expires_at->0) && (i.max_uses is None || i.use_count < i.max_uses->0),
{
}

/// Fewer uses, a higher limit, an earlier time or a later end never close an invitation that was
/// open; one that nobody used is open while it has not run out, whatever its positive limit.
pub proof fn law_fewer_uses_never_close_an_invitation(
    i: Invitation,
    now: i64,
    uses: u32,
    limit: u32,
    earlier: i64,
)
    ensures
        uses <= i.use_count && is_joinable(i, now) ==> is_joinable(
            (Invitation { use_count: uses, ..i }),
            now,
        ),
        i.max_uses is Some && i.max_uses->0 <= limit && is_joinable(i, now) ==> is_joinable(
            (Invitation { max_uses: Some(limit), ..i }),
            now,
        ),
        is_joinable(i, now) ==> is_joinable((Invitation { max_uses: None, ..i }), now),
        earlier <= now && is_joinable(i, now) ==> is_joinable(i, earlier),
        is_joinable(i, now) ==> is_joinable((Invitation { expires_at: None, ..i }), now),
        !i.revoked && !i.used && i.expires_at is None && limit > 0 ==> is_joinable(
            (Invitation { use_count: 0, max_uses: Some(limit), ..i }),
            now,
        ),
        limit <= uses ==> !is_joinable(
            (Invitation { use_count: uses, max_uses: Some(limit), ..i }),
            now,
        ),
        is_joinable(i, now) && i.max_uses is Some ==> i.use_count < u32::MAX && (is_joinable(
            (Invitation { use_count: (i.use_count + 1) as u32, ..i }),
            now,
        ) <==> i.use_count + 1 < i.max_uses->0),
{
}

/// Where the web client is found: by its configured address in production, elsewhere by the
/// origin of the request if it names one.
pub open spec fn client_origin(
    production: bool,
    configured: Option<&str>,
    header: Option<&str>,
) -> Seq<char> {
    let default = match configured {
        None => "http://127.0.0.1:5173"@,
        Some(u) => u@,
    };
    let chosen = if production {
        default
    } else {
        match header {
            None => default,
            Some(h) => h@,
        }
    };
    text::trim_end_of(chosen, '/')
}

/// Finds where the web client is, without slashes at the end.
pub fn frontend_origin(production: bool, configured: Option<&str>, header: Option<&str>) -> (r: String)
    ensures
        r@ == client_origin(production, configured, header),
{
    let default = match configured {
        None => "http://127.0.0.1:5173",
        Some(u) => u,
    };
    let chosen = if production {
        default
    } else {
        match header {
            None => default,
            Some(h) => h,
        }
    };
    text::trim_end_char(chosen, '/')
}

/// Invitations point to the configured web client; only outside production does the origin of the request
/// come first.
pub proof fn law_invitations_point_home(
    production: bool,
    configured: Option<&str>,
    header: Option<&str>,
)
    ensures
        production && configured is Some ==> client_origin(production, configured, header)
            == text::trim_end_of(configured->0@, '/'),
        !production && header is Some ==> client_origin(production, configured, header)
            == text::trim_end_of(header->0@, '/'),
        header is None ==> client_origin(production, configured, header) == client_origin(
            true,
            configured,
            header,
        ),
        production && configured is None ==> client_origin(production, configured, header)
            == text::trim_end_of("http://127.0.0.1:5173"@, '/'),
{
}

/// The address of an invitation.
pub fn invite_url(origin: &str, invite_id: &str) -> (r: String)
    ensures
        r@ == origin@ + "/invite/"@ + invite_id@,
{
    text::join3(origin, "/invite/", invite_id)
}

/// What is known while the owner of a channel manages its invitations.
#[derive(Clone, Copy, Debug)]
pub struct ManageFacts {
    pub channel: Option<Lookup<Oid>>,
    pub done: Option<Answer>,
}

/// What to do next while the owner of a channel manages its invitations.
#[derive(Clone, Copy, Debug, PartialEq, Eq)]
pub enum ManageStep {
    LoadChannel(Oid),
    Create { channel: Oid, owner: Oid, max_uses: Option<u32> },
    List(Oid),
    Delete(Oid),
    Reply,
    /// Refuse a number of uses over the limit.
    RefuseLimit,
    Refuse(Refusal),
}

/// The reply after a failure of the database.
#[verifier::allow_in_spec]
pub fn db_error() -> Refusal
    returns
        error(500, "Internal Server Error"),
{
    error(500, "Internal Server Error")
}

/// The reply after a failure of the database that may pass.
#[verifier::allow_in_spec]
pub fn db_error_retryable() -> Refusal
    returns
        again(error(500, "Internal Server Error")),
{
    again(error(500, "Internal Server Error"))
}

/// The steps up to the point where the user is known to own the channel; none once it is.
pub open spec fn owner_gate(
    user: Option<&str>,
    channel_id: &str,
    not_owner: Refusal,
    f: ManageFacts,
) -> Option<ManageStep> {
    let cid = ids::oid_of(channel_id@);
    if cid is None {
        Some(ManageStep::Refuse(error(404, "Channel not found")))
    } else if f.channel is None {
        Some(ManageStep::LoadChannel(cid->0))
    } else if f.channel->0 is Missing {
        Some(ManageStep::Refuse(error(404, "Channel not found")))
    } else if f.channel->0 is Failed {
        Some(ManageStep::Refuse(db_error()))
    } else if ids::hex_of(f.channel->0->0) != channels::user_text(user) {
        Some(ManageStep::Refuse(not_owner))
    } else if ids::oid_of(channels::user_text(user)) is None {
        Some(ManageStep::Refuse(error(500, "Invalid user")))
    } else {
        None
    }
}

/// Finds the channel and its owner, or the step that must come first.
pub fn require_channel_owner(
    user: Option<&str>,
    channel_id: &str,
    not_owner: Refusal,
    f: &ManageFacts,
) -> (r: Result<(Oid, Oid), ManageStep>)
    ensures
        owner_gate(user, channel_id, not_owner, *f) == (match r {
            Ok(_) => None,
            Err(s) => Some(s),
        }),
        r matches Ok(p) ==> p.0 == ids::oid_of(channel_id@)->0 && p.1 == ids::oid_of(
            channels::user_text(user),
        )->0 && ids::hex_of(f.channel->0->0) == channels::user_text(user),
{
    let cid = match parse_oid(channel_id) {
        None => return Err(ManageStep::Refuse(error(404, "Channel not found"))),
        Some(id) => id,
    };
    let admin = match f.channel {
        None => return Err(ManageStep::LoadChannel(cid)),
        Some(Lookup::Missing) => {
            return Err(ManageStep::Refuse(error(404, "Channel not found")));
        },
        Some(Lookup::Failed) => return Err(ManageStep::Refuse(db_error())),
        Some(Lookup::Found(a)) => a,
    };
    let me = match user {
        None => "",
        Some(u) => u,
    };
    proof {
        reveal_strlit("");
        assert(""@ =~= Seq::<char>::empty());
    }
    if !is_hex_of(admin, me) {
        return Err(ManageStep::Refuse(not_owner));
    }
    match parse_oid(me) {
        None => Err(ManageStep::Refuse(error(500, "Invalid user"))),
        Some(uid) => Ok((cid, uid)),
    }
}

/// How often an invitation may be used: without limit where none, or zero, is asked for.
pub open spec fn asked_uses(body: CreateInviteBody) -> Option<u32> {
    match body.max_uses {
        None => None,
        Some(n) => if n == 0 {
            None
        } else {
            Some(n)
        },
    }
}

pub open spec fn create_step(
    user: Option<&str>,
    channel_id: &str,
    body: CreateInviteBody,
    limit: u32,
    f: ManageFacts,
) -> ManageStep {
    match owner_gate(
        user,
        channel_id,
        error(403, "Only the channel owner can manage invites"),
        f,
    ) {
        Some(s) => s,
        None => if asked_uses(body) is Some && asked_uses(body)->0 > limit {
            ManageStep::RefuseLimit
        } else {
            match f.done {
                None => ManageStep::Create {
                    channel: ids::oid_of(channel_id@)->0,
                    owner: ids::oid_of(channels::user_text(user))->0,
                    max_uses: asked_uses(body),
                },
                Some(Answer::Yes) => ManageStep::Reply,
                Some(_) => ManageStep::Refuse(db_error()),
            }
        },
    }
}

/// Decides the next step of creating an invitation that may be used at most `limit` times.
pub fn create_invite(
    user: Option<&str>,
    channel_id: &str,
    body: &CreateInviteBody,
    limit: u32,
    f: &ManageFacts,
) -> (r: ManageStep)
    ensures
        r == create_step(user, channel_id, *body, limit, *f),
{
    let (channel, owner) = match require_channel_owner(
        user,
        channel_id,
        error(403, "Only the channel owner can manage invites"),
        f,
    ) {
        Err(s) => return s,
        Ok(p) => p,
    };
    let max_uses: Option<u32> = match body.max_uses {
        None => None,
        Some(n) => if n == 0 {
            None
        } else if n > limit {
            return ManageStep::RefuseLimit;
        } else {
            Some(n)
        },
    };
    match f.done {
        None => ManageStep::Create { channel, owner, max_uses },
        Some(Answer::Yes) => ManageStep::Reply,
        Some(_) => ManageStep::Refuse(db_error()),
    }
}

/// The owner of a channel, and nobody else, makes invitations for it, for as many uses as asked for up
/// to the limit: the
/// request is not refused while nothing fails, and success is replied only where one was made.
pub proof fn law_owner_makes_invitations(
    user: Option<&str>,
    channel_id: &str,
    body: CreateInviteBody,
    limit: u32,
    f: ManageFacts,
)
    ensures
        ({
            let s = create_step(user, channel_id, body, limit, f);
            let cid = ids::oid_of(channel_id@);
            let uid = ids::oid_of(channels::user_text(user));
            let own = f.channel is Some && f.channel->0 is Found && ids::hex_of(f.channel->0->0)
                == channels::user_text(user);
            let asked = if body.max_uses == Some(0u32) {
                None
            } else {
                body.max_uses
            };
            let over = asked is Some && asked->0 > limit;
            &&& cid is Some && f.channel is None <==> s is LoadChannel
            &&& s is LoadChannel ==> s == ManageStep::LoadChannel(cid->0)
            &&& cid is Some && own && uid is Some && !over && f.done is None ==> s == (
            ManageStep::Create { channel: cid->0, owner: uid->0, max_uses: asked })
            &&& cid is Some && own && uid is Some && !over && f.done == Some(Answer::Yes) ==> s is
                Reply
            &&& cid is Some && own && uid is Some && over ==> s is RefuseLimit
            &&& s is Create || s is Reply || s is RefuseLimit ==> own && cid is Some
            &&& s is Create ==> f.done is None
            &&& s is Reply ==> f.done == Some(Answer::Yes)
            &&& s is RefuseLimit ==> over
            &&& s !is List && s !is Delete
        }),
{
}

/// The words that refuse a number of uses over the limit.
pub fn limit_text(limit: u32) -> (r: String)
    ensures
        r@ == "Join limit must be at most "@ + text::decimal(limit as nat),
{
    text::join2("Join limit must be at most ", text::write_u64(limit as u64).as_str())
}

/// Decides the next step of listing the invitations of a channel.
pub fn list_invites(user: Option<&str>, channel_id: &str, f: &ManageFacts) -> (r: ManageStep)
    ensures
        r == (match owner_gate(
            user,
            channel_id,
            error(403, "Only the channel owner can manage invites"),
            *f,
        ) {
            Some(s) => s,
            None => match f.done {
                None => ManageStep::List(ids::oid_of(channel_id@)->0),
                Some(Answer::Failed) => ManageStep::Refuse(db_error()),
                Some(_) => ManageStep::Reply,
            },
        }),
        ids::oid_of(channel_id@) is Some && f.channel is None ==> r == ManageStep::LoadChannel(
            ids::oid_of(channel_id@)->0,
        ),
        ids::oid_of(channel_id@) is Some && f.channel is Some && f.channel->0 is Found && ids::hex_of(
            f.channel->0->0,
        ) == channels::user_text(user) && ids::oid_of(channels::user_text(user)) is Some ==> (f.done is None ==> r == ManageStep::List(ids::oid_of(channel_id@)->0)) && (
        f.done is Some && f.done->0 !is Failed ==> r is Reply),
        r is List || r is Reply ==> f.channel is Some && f.channel->0 is Found && ids::hex_of(
            f.channel->0->0,
        ) == channels::user_text(user),
{
    let (channel, _) = match require_channel_owner(
        user,
        channel_id,
        error(403, "Only the channel owner can manage invites"),
        f,
    ) {
        Err(s) => return s,
        Ok(p) => p,
    };
    match f.done {
        None => ManageStep::List(channel),
        Some(Answer::Failed) => ManageStep::Refuse(db_error()),
        Some(_) => ManageStep::Reply,
    }
}

/// Decides the next step of deleting an invitation.
pub fn delete_invite(user: Option<&str>, channel_id: &str, f: &ManageFacts) -> (r: ManageStep)
    ensures
        r == (match owner_gate(
            user,
            channel_id,
            error(403, "Only the channel owner can manage invites"),
            *f,
        ) {
            Some(s) => s,
            None => match f.done {
                None => ManageStep::Delete(ids::oid_of(channel_id@)->0),
                Some(Answer::Yes) => ManageStep::Reply,
                Some(Answer::No) => ManageStep::Refuse(error(404, "Invite not found")),
                Some(Answer::Failed) => ManageStep::Refuse(db_error()),
            },
        }),
        ids::oid_of(channel_id@) is Some && f.channel is None ==> r == ManageStep::LoadChannel(
            ids::oid_of(channel_id@)->0,
        ),
        ids::oid_of(channel_id@) is Some && f.channel is Some && f.channel->0 is Found && ids::hex_of(
            f.channel->0->0,
        ) == channels::user_text(user) && ids::oid_of(channels::user_text(user)) is Some ==> (f.done is None ==> r == ManageStep::Delete(ids::oid_of(channel_id@)->0)) && (
        f.done == Some(Answer::Yes) ==> r is Reply) && (f.done == Some(Answer::No) ==> r is Refuse
            && r->Refuse_0.status == 404),
        r is Reply ==> f.done == Some(Answer::Yes),
        r is Delete || r is Reply ==> f.channel is Some && f.channel->0 is Found && ids::hex_of(
            f.channel->0->0,
        ) == channels::user_text(user),
{
    let (channel, _) = match require_channel_owner(
        user,
        channel_id,
        error(403, "Only the channel owner can manage invites"),
        f,
    ) {
        Err(s) => return s,
        Ok(p) => p,
    };
    match f.done {
        None => ManageStep::Delete(channel),
        Some(Answer::Yes) => ManageStep::Reply,
        Some(Answer::No) => ManageStep::Refuse(error(404, "Invite not found")),
        Some(Answer::Failed) => ManageStep::Refuse(db_error()),
    }
}

/// Where an invitation leads, and who made it.
#[derive(Clone, Copy, Debug, PartialEq, Eq)]
pub struct InviteSource {
    pub channel: Oid,
    pub inviter: Oid,
}

/// What is known while an invitation is shown.
#[derive(Clone, Copy, Debug)]
pub struct ShowFacts {
    pub invite: Option<Lookup<InviteSource>>,
    pub channel: Option<Lookup<()>>,
    pub inviter: Option<Lookup<()>>,
}

/// What to do next while an invitation is shown.
#[derive(Clone, Copy, Debug, PartialEq, Eq)]
pub enum ShowStep {
    LoadInvite,
    LoadChannel(Oid),
    LoadInviter(Oid),
    /// Reply with the invitation, and with the channel and the inviter where they were found.
    Reply { with_channel: bool, with_inviter: bool },
    Refuse(Refusal),
}

pub open spec fn show_step(f: ShowFacts) -> ShowStep {
    if f.invite is None {
        ShowStep::LoadInvite
    } else if f.invite->0 is Missing {
        ShowStep::Refuse(error(404, "Invite not found"))
    } else if f.invite->0 is Failed {
        ShowStep::Refuse(db_error())
    } else if f.channel is None {
        ShowStep::LoadChannel(f.invite->0->0.channel)
    } else if f.channel->0 is Failed {
        ShowStep::Refuse(db_error())
    } else if f.inviter is None {
        ShowStep::LoadInviter(f.invite->0->0.inviter)
    } else if f.inviter->0 is Failed {
        ShowStep::Refuse(db_error())
    } else {
        ShowStep::Reply { with_channel: f.channel->0 is Found, with_inviter: f.inviter->0 is Found }
    }
}

/// Decides the next step of showing an invitation.
pub fn get_invite(f: &ShowFacts) -> (r: ShowStep)
    ensures
        r == show_step(*f),
{
    let source = match f.invite {
        None => return ShowStep::LoadInvite,
        Some(Lookup::Missing) => return ShowStep::Refuse(error(404, "Invite not found")),
        Some(Lookup::Failed) => return ShowStep::Refuse(db_error()),
        Some(Lookup::Found(p)) => p,
    };
    let with_channel = match f.channel {
        None => return ShowStep::LoadChannel(source.channel),
        Some(Lookup::Failed) => return ShowStep::Refuse(db_error()),
        Some(Lookup::Missing) => false,
        Some(Lookup::Found(_)) => true,
    };
    match f.inviter {
        None => ShowStep::LoadInviter(source.inviter),
        Some(Lookup::Failed) => ShowStep::Refuse(db_error()),
        Some(Lookup::Missing) => ShowStep::Reply { with_channel, with_inviter: false },
        Some(Lookup::Found(_)) => ShowStep::Reply { with_channel, with_inviter: true },
    }
}

/// An invitation that was found is shown, with its channel and the one who invites where those were found;
/// only a failure keeps it from being shown.
pub proof fn law_invitation_is_shown(
    f: ShowFacts,
)
    ensures
        ({
            let s = show_step(f);
            let found = f.invite is Some && f.invite->0 is Found;
            let placed = found && f.channel is Some && f.channel->0 !is Failed;
            &&& f.invite is None <==> s is LoadInvite
            &&& found && f.channel is None <==> s is LoadChannel
            &&& s is LoadChannel ==> s == ShowStep::LoadChannel(f.invite->0->0.channel)
            &&& placed && f.inviter is None <==> s is LoadInviter
            &&& s is LoadInviter ==> s == ShowStep::LoadInviter(f.invite->0->0.inviter)
            &&& placed && f.inviter is Some && f.inviter->0 !is Failed <==> s is Reply
            &&& s matches ShowStep::Reply { with_channel, with_inviter } ==> with_channel == (
            f.channel->0 is Found) && with_inviter == (f.inviter->0 is Found)
            &&& f.invite is Some && f.invite->0 is Missing ==> s == ShowStep::Refuse(
                error(404, "Invite not found"),
            )
        }),
{
}

/// What the rules read of a channel that a user wants to join.
#[derive(Clone, Copy, Debug, PartialEq, Eq)]
pub struct Joining {
    pub id: Option<Oid>,
    /// Whether the user is banned there.
    pub banned: bool,
    /// Whether the user is a member already.
    pub member: bool,
}

/// What is known while an invitation is accepted.
#[derive(Clone, Copy, Debug)]
pub struct AcceptFacts {
    pub invite: Option<Lookup<Invitation>>,
    pub channel: Option<Lookup<Joining>>,
    /// One use was counted; the channel that the invitation is for. `Missing` where none was left.
    pub registered: Option<Lookup<Oid>>,
    pub reloaded: Option<Lookup<Joining>>,
    pub user: Option<Lookup<()>>,
    pub seeded: Option<Done>,
    /// The user was added to the members; `Unchanged` where the user was one already.
    pub added: Option<Wrote>,
    /// Whether the use was given back.
    pub released: bool,
    /// The channel with the new member; whether it could be shown as in the list.
    pub shown: Option<Lookup<bool>>,
}

/// What to do next while an invitation is accepted.
#[derive(Debug, PartialEq, Eq)]
pub enum AcceptStep {
    LoadInvite,
    LoadChannel(Oid),
    /// Count one use of the invitation, unless none is left.
    RegisterUse,
    ReloadChannel(Oid),
    LoadUser(Oid),
    /// Set a read position for the new member.
    Seed { channel: Oid, user: Oid },
    AddMember { channel: Oid, user: Oid },
    /// Give the counted use back.
    ReleaseUse,
    LoadForNews(Oid),
    /// Tell the new member and the others, and reply with the channel.
    TellAndReply(Arrival),
    /// Tell the new member of the channel, and reply with it.
    TellMemberAndReply { channel: Oid, to: String, event: &'static str },
    /// Reply that the user is a member of the channel already.
    ReplyAlreadyMember(Option<Oid>),
    Refuse(Refusal),
}

/// The view of `AcceptStep`.
#[verifier::ext_equal]
pub enum AcceptStepView {
    LoadInvite,
    LoadChannel(Oid),
    RegisterUse,
    ReloadChannel(Oid),
    LoadUser(Oid),
    Seed { channel: Oid, user: Oid },
    AddMember { channel: Oid, user: Oid },
    ReleaseUse,
    LoadForNews(Oid),
    TellAndReply(ArrivalView),
    TellMemberAndReply { channel: Oid, to: Seq<char>, event: &'static str },
    ReplyAlreadyMember(Option<Oid>),
    Refuse(Refusal),
}

impl View for AcceptStep {
    type V = AcceptStepView;

    open spec fn view(&self) -> AcceptStepView {
        match self {
            AcceptStep::LoadInvite => AcceptStepView::LoadInvite,
            AcceptStep::LoadChannel(a) => AcceptStepView::LoadChannel(*a),
            AcceptStep::RegisterUse => AcceptStepView::RegisterUse,
            AcceptStep::ReloadChannel(a) => AcceptStepView::ReloadChannel(*a),
            AcceptStep::LoadUser(a) => AcceptStepView::LoadUser(*a),
            AcceptStep::Seed { channel, user } => AcceptStepView::Seed {
                channel: *channel,
                user: *user,
            },
            AcceptStep::AddMember { channel, user } => AcceptStepView::AddMember {
                channel: *channel,
                user: *user,
            },
            AcceptStep::ReleaseUse => AcceptStepView::ReleaseUse,
            AcceptStep::LoadForNews(a) => AcceptStepView::LoadForNews(*a),
            AcceptStep::TellAndReply(a) => AcceptStepView::TellAndReply(a@),
            AcceptStep::TellMemberAndReply { channel, to, event } => AcceptStepView::TellMemberAndReply {
                channel: *channel,
                to: to@,
                event: *event,
            },
            AcceptStep::ReplyAlreadyMember(a) => AcceptStepView::ReplyAlreadyMember(*a),
            AcceptStep::Refuse(a) => AcceptStepView::Refuse(*a),
        }
    }
}

/// A step that ends the request after the counted use was given back.
pub open spec fn after_release(released: bool, end: AcceptStepView) -> AcceptStepView {
    if released {
        end
    } else {
        AcceptStepView::ReleaseUse
    }
}

pub open spec fn accept_step(
    user: Option<&str>,
    now: i64,
    recipients: Seq<Seq<char>>,
    f: AcceptFacts,
) -> AcceptStepView {
    let invite = f.invite->0->0;
    let uid = ids::oid_of(channels::user_text(user));
    let channel = f.reloaded->0->0.id;
    if f.invite is None {
        AcceptStepView::LoadInvite
    } else if f.invite->0 is Missing {
        AcceptStepView::Refuse(error(404, "Zaproszenie nie znalezione"))
    } else if f.invite->0 is Failed {
        AcceptStepView::Refuse(db_error())
    } else if is_revoked(invite) {
        AcceptStepView::Refuse(error(400, "Zaproszenie zostało wyłączone przez właściciela kanału"))
    } else if is_expired(invite, now) {
        AcceptStepView::Refuse(error(400, "Zaproszenie wygasło"))
    } else if is_used_up(invite) {
        AcceptStepView::Refuse(
            error(400, "Limit dołączeń dla tego zaproszenia został osiągnięty"),
        )
    } else if f.channel is None {
        AcceptStepView::LoadChannel(invite.channel)
    } else if f.channel->0 is Missing {
        AcceptStepView::Refuse(error(404, "Kanał nie istnieje"))
    } else if f.channel->0 is Failed {
        AcceptStepView::Refuse(db_error())
    } else if f.channel->0->0.banned {
        AcceptStepView::Refuse(error(403, "Nie masz dostępu do tego kanału"))
    } else if f.channel->0->0.member {
        AcceptStepView::ReplyAlreadyMember(f.channel->0->0.id)
    } else if f.registered is None {
        AcceptStepView::RegisterUse
    } else if f.registered->0 is Missing {
        AcceptStepView::Refuse(
            error(400, "Zaproszenie zostało wyłączone, wygasło lub osiągnęło limit"),
        )
    } else if f.registered->0 is Failed {
        AcceptStepView::Refuse(db_error())
    } else if f.reloaded is None {
        AcceptStepView::ReloadChannel(f.registered->0->0)
    } else if f.reloaded->0 is Missing {
        after_release(f.released, AcceptStepView::Refuse(error(404, "Kanał nie istnieje")))
    } else if f.reloaded->0 is Failed {
        after_release(f.released, AcceptStepView::Refuse(db_error_retryable()))
    } else if f.reloaded->0->0.banned {
        after_release(f.released, AcceptStepView::Refuse(error(403, "Nie masz dostępu do tego kanału")))
    } else if uid is None {
        after_release(f.released, AcceptStepView::Refuse(error(400, "Użytkownik nie istnieje")))
    } else if f.user is None {
        AcceptStepView::LoadUser(uid->0)
    } else if f.user->0 is Missing {
        after_release(f.released, AcceptStepView::Refuse(error(400, "Użytkownik nie istnieje")))
    } else if f.user->0 is Failed {
        after_release(f.released, AcceptStepView::Refuse(unavailable()))
    } else if channel is None {
        after_release(f.released, AcceptStepView::Refuse(again(error(500, "Kanał nie istnieje"))))
    } else if f.seeded is None {
        AcceptStepView::Seed { channel: channel->0, user: uid->0 }
    } else if f.seeded->0 is Failed {
        after_release(f.released, AcceptStepView::Refuse(unavailable()))
    } else if f.added is None {
        AcceptStepView::AddMember { channel: channel->0, user: uid->0 }
    } else if f.added->0 is Failed {
        after_release(f.released, AcceptStepView::Refuse(db_error_retryable()))
    } else if f.added->0 is Unchanged {
        after_release(f.released, AcceptStepView::ReplyAlreadyMember(channel))
    } else if f.shown is None {
        AcceptStepView::LoadForNews(channel->0)
    } else if f.shown->0 is Found {
        AcceptStepView::TellAndReply(
            channels::arrival(channel->0, recipients, channels::user_text(user), f.shown->0->0),
        )
    } else {
        AcceptStepView::Refuse(unavailable())
    }
}

fn end_released(released: bool, end: AcceptStep) -> (r: AcceptStep)
    ensures
        r@ == after_release(released, end@),
{
    if released {
        end
    } else {
        AcceptStep::ReleaseUse
    }
}

/// Decides the next step of accepting an invitation at `now`. `recipients` are the people of the
/// channel once the user is a member.
pub fn accept_invite(
    user: Option<&str>,
    now: i64,
    recipients: &Vec<String>,
    f: &AcceptFacts,
) -> (r: AcceptStep)
    ensures
        r@ == accept_step(user, now, text::texts(recipients@), *f),
{
    let invite = match f.invite {
        None => return AcceptStep::LoadInvite,
        Some(Lookup::Missing) => {
            return AcceptStep::Refuse(error(404, "Zaproszenie nie znalezione"));
        },
        Some(Lookup::Failed) => return AcceptStep::Refuse(db_error()),
        Some(Lookup::Found(i)) => i,
    };
    let state = invite_state(&invite, now);
    if state.revoked {
        return AcceptStep::Refuse(
            error(400, "Zaproszenie zostało wyłączone przez właściciela kanału"),
        );
    }
    if state.expired {
        return AcceptStep::Refuse(error(400, "Zaproszenie wygasło"));
    }
    if state.limit_reached {
        return AcceptStep::Refuse(
            error(400, "Limit dołączeń dla tego zaproszenia został osiągnięty"),
        );
    }
    let first = match f.channel {
        None => return AcceptStep::LoadChannel(invite.channel),
        Some(Lookup::Missing) => return AcceptStep::Refuse(error(404, "Kanał nie istnieje")),
        Some(Lookup::Failed) => return AcceptStep::Refuse(db_error()),
        Some(Lookup::Found(c)) => c,
    };
    if first.banned {
        return AcceptStep::Refuse(error(403, "Nie masz dostępu do tego kanału"));
    }
    if first.member {
        return AcceptStep::ReplyAlreadyMember(first.id);
    }
    let registered = match f.registered {
        None => return AcceptStep::RegisterUse,
        Some(Lookup::Missing) => {
            return AcceptStep::Refuse(
                error(400, "Zaproszenie zostało wyłączone, wygasło lub osiągnęło limit"),
            );
        },
        Some(Lookup::Failed) => return AcceptStep::Refuse(db_error()),
        Some(Lookup::Found(id)) => id,
    };
    let joining = match f.reloaded {
        None => return AcceptStep::ReloadChannel(registered),
        Some(Lookup::Missing) => {
            return end_released(f.released, AcceptStep::Refuse(error(404, "Kanał nie istnieje")));
        },
        Some(Lookup::Failed) => {
            return end_released(f.released, AcceptStep::Refuse(db_error_retryable()));
        },
        Some(Lookup::Found(c)) => c,
    };
    if joining.banned {
        return end_released(
            f.released,
            AcceptStep::Refuse(error(403, "Nie masz dostępu do tego kanału")),
        );
    }
    let me = match user {
        None => "",
        Some(u) => u,
    };
    proof {
        reveal_strlit("");
        assert(""@ =~= Seq::<char>::empty());
    }
    let uid = match parse_oid(me) {
        None => {
            return end_released(
                f.released,
                AcceptStep::Refuse(error(400, "Użytkownik nie istnieje")),
            );
        },
        Some(id) => id,
    };
    match f.user {
        None => return AcceptStep::LoadUser(uid),
        Some(Lookup::Missing) => {
            return end_released(
                f.released,
                AcceptStep::Refuse(error(400, "Użytkownik nie istnieje")),
            );
        },
        Some(Lookup::Failed) => {
            return end_released(f.released, AcceptStep::Refuse(unavailable()));
        },
        Some(Lookup::Found(_)) => {},
    }
    let channel = match joining.id {
        None => {
            return end_released(
                f.released,
                AcceptStep::Refuse(again(error(500, "Kanał nie istnieje"))),
            );
        },
        Some(id) => id,
    };
    match f.seeded {
        None => return AcceptStep::Seed { channel, user: uid },
        Some(Done::Failed) => return end_released(f.released, AcceptStep::Refuse(unavailable())),
        Some(Done::Worked) => {},
    }
    match f.added {
        None => return AcceptStep::AddMember { channel, user: uid },
        Some(Wrote::Failed) => {
            return end_released(f.released, AcceptStep::Refuse(db_error_retryable()));
        },
        Some(Wrote::Unchanged) => {
            return end_released(f.released, AcceptStep::ReplyAlreadyMember(Some(channel)));
        },
        Some(Wrote::Changed) => {},
    }
    match f.shown {
        None => AcceptStep::LoadForNews(channel),
        Some(Lookup::Found(with_item)) => AcceptStep::TellAndReply(
            arrive(channel, recipients, me, with_item),
        ),
        _ => AcceptStep::Refuse(unavailable()),
    }
}

/// Whether a step ends the request.
pub open spec fn ends(s: AcceptStepView) -> bool {
    s is Refuse || s is ReplyAlreadyMember || s is TellAndReply
}

/// A counted use is given back, once, wherever the user does not join by it: the request ends
/// only after that. Where the user joined by it, it is never given back.
pub proof fn law_use_is_kept_exactly_by_joining(
    user: Option<&str>,
    now: i64,
    recipients: Seq<Seq<char>>,
    f: AcceptFacts,
)
    requires
        accept_step(user, now, recipients, (AcceptFacts { registered: None, ..f })) is RegisterUse,
        f.registered is Some && f.registered->0 is Found,
    ensures
        ends(accept_step(user, now, recipients, f)) && f.added != Some(Wrote::Changed) ==> f.released,
        accept_step(user, now, recipients, f) is ReleaseUse ==> !f.released,
        accept_step(user, now, recipients, (AcceptFacts { added: None, ..f })) is AddMember && f.added == Some(
            Wrote::Changed,
        ) ==> accept_step(user, now, recipients, f) !is ReleaseUse,
        accept_step(user, now, recipients, f) is TellAndReply ==> f.added == Some(Wrote::Changed),
{
}

/// An invitation shown as joinable is exactly one that passes the checks made on accepting it.
pub proof fn law_joinable_is_what_accepting_checks(
    user: Option<&str>,
    now: i64,
    recipients: Seq<Seq<char>>,
    f: AcceptFacts,
)
    requires
        f.invite is Some && f.invite->0 is Found,
        f.channel is None,
    ensures
        is_joinable(f.invite->0->0, now) <==> accept_step(user, now, recipients, f) is LoadChannel,
        !is_joinable(f.invite->0->0, now) <==> accept_step(user, now, recipients, f) is Refuse,
{
}

/// Nobody joins a channel where they are banned, and nobody is counted who is a member already.
pub proof fn law_banned_users_do_not_join(
    user: Option<&str>,
    now: i64,
    recipients: Seq<Seq<char>>,
    f: AcceptFacts,
)
    ensures
        accept_step(user, now, recipients, f) is AddMember ==> f.reloaded is Some && f.reloaded->0 is Found
            && !f.reloaded->0->0.banned && !f.channel->0->0.banned && is_joinable(f.invite->0->0, now),
        accept_step(user, now, recipients, f) is RegisterUse ==> !f.channel->0->0.banned
            && !f.channel->0->0.member,
{
}

/// A user who is neither banned nor a member joins by an invitation that is open, in the channel
/// that it is for: the request is not refused while nothing fails, one use is counted, the user is
/// added, and the arrival is told.
pub proof fn law_open_invitation_lets_users_in(
    user: Option<&str>,
    now: i64,
    recipients: Seq<Seq<char>>,
    f: AcceptFacts,
)
    requires
        user is Some && ids::oid_of(user->0@) is Some,
        f.invite matches Some(i) ==> i is Found && !i->0.revoked && !i->0.used && (i->0.expires_at is
            None || now <= i->0.expires_at->0) && (i->0.max_uses is None || i->0.use_count
            < i->0.max_uses->0),
        f.channel matches Some(c) ==> c is Found && !c->0.banned && !c->0.member,
        f.registered matches Some(c) ==> c is Found,
        f.reloaded matches Some(c) ==> c is Found && !c->0.banned && c->0.id is Some,
        f.user matches Some(u) ==> u is Found,
        f.seeded != Some(Done::Failed),
        f.added is None || f.added == Some(Wrote::Changed),
        f.shown matches Some(c) ==> c is Found,
    ensures
        ({
            let s = accept_step(user, now, recipients, f);
            let id = ids::oid_of(user->0@)->0;
            let channel = f.reloaded->0->0.id->0;
            &&& s !is Refuse && s !is ReleaseUse && s !is ReplyAlreadyMember && s !is
                TellMemberAndReply
            &&& f.invite is None ==> s is LoadInvite
            &&& f.invite is Some && f.channel is None ==> s == AcceptStepView::LoadChannel(
                f.invite->0->0.channel,
            )
            &&& f.invite is Some && f.channel is Some && f.registered is None ==> s is RegisterUse
            &&& f.invite is Some && f.channel is Some && f.registered is Some && f.reloaded is None
                ==> s == AcceptStepView::ReloadChannel(f.registered->0->0)
            &&& f.invite is Some && f.channel is Some && f.registered is Some && f.reloaded is Some
                ==> {
                &&& f.user is None ==> s == AcceptStepView::LoadUser(id)
                &&& f.user is Some && f.seeded is None ==> s == (AcceptStepView::Seed {
                    channel,
                    user: id,
                })
                &&& f.user is Some && f.seeded is Some && f.added is None ==> s == (
                AcceptStepView::AddMember { channel, user: id })
                &&& f.user is Some && f.seeded is Some && f.added is Some && f.shown is None ==> s
                    == AcceptStepView::LoadForNews(channel)
                &&& f.user is Some && f.seeded is Some && f.added is Some && f.shown is Some ==> s
                    == AcceptStepView::TellAndReply(
                    channels::arrival(channel, recipients, user->0@, f.shown->0->0),
                )
            }
        }),
{
}

/// Accepting asks only for what is not known yet. A member is told to be one already, without
/// another use; users are added once, after a use was counted and a read position set, and told of
/// only where they were added.
pub proof fn law_joining_makes_progress(
    user: Option<&str>,
    now: i64,
    recipients: Seq<Seq<char>>,
    f: AcceptFacts,
)
    ensures
        ({
            let s = accept_step(user, now, recipients, f);
            &&& s is LoadInvite <==> f.invite is None
            &&& s is LoadChannel ==> f.channel is None
            &&& s is RegisterUse ==> f.registered is None
            &&& s is ReloadChannel ==> f.reloaded is None
            &&& s is LoadUser ==> f.user is None
            &&& s is Seed ==> f.seeded is None
            &&& s is AddMember ==> f.added is None && f.seeded == Some(Done::Worked)
                && f.registered is Some && f.registered->0 is Found && f.user is Some && f.user->0
                is Found
            &&& s is ReleaseUse ==> !f.released && f.registered is Some && f.registered->0 is Found
            &&& s is LoadForNews ==> f.shown is None && f.added == Some(Wrote::Changed)
            &&& s is TellAndReply ==> f.added == Some(Wrote::Changed) && f.shown is Some
                && f.shown->0 is Found
            &&& s is ReplyAlreadyMember ==> f.channel->0->0.member || (f.added == Some(
                Wrote::Unchanged,
            ) && f.released)
            &&& f.invite is Some && f.invite->0 is Found && is_joinable(f.invite->0->0, now)
                && f.channel is Some && f.channel->0 is Found && !f.channel->0->0.banned
                && f.channel->0->0.member ==> s == AcceptStepView::ReplyAlreadyMember(
                f.channel->0->0.id,
            )
            &&& s matches AcceptStepView::Refuse(r) ==> {
                &&& r.status == 400 || r.status == 403 || r.status == 404 || r.status == 500
                    || r.status == 503
                &&& r.status == 404 ==> f.invite->0 is Missing || f.channel->0 is Missing || (
                f.reloaded is Some && f.reloaded->0 is Missing)
                &&& r.status == 403 ==> f.channel->0->0.banned || (f.reloaded is Some
                    && f.reloaded->0 is Found && f.reloaded->0->0.banned)
                &&& r.status == 400 ==> !is_joinable(f.invite->0->0, now) || (f.registered is Some
                    && f.registered->0 is Missing) || ids::oid_of(channels::user_text(user)) is None
                    || (f.user is Some && f.user->0 is Missing)
            }
        }),
{
}

/// Whether a step refuses the request with this status.
pub open spec fn refused_with(s: AcceptStepView, status: u16) -> bool {
    s matches AcceptStepView::Refuse(r) && r.status == status
}

/// Whether a step gives the counted use back or, where that was done, refuses with this status.
pub open spec fn given_back(f: AcceptFacts, s: AcceptStepView, status: u16) -> bool {
    if f.released {
        refused_with(s, status)
    } else {
        s is ReleaseUse
    }
}

/// What stands in the way of joining decides how it is refused; where a use was counted it is given back
/// before that.
pub proof fn law_obstacle_decides_how_joining_is_refused(
    user: Option<&str>,
    now: i64,
    recipients: Seq<Seq<char>>,
    f: AcceptFacts,
)
    requires
        f.invite is Some,
    ensures
        ({
            let s = accept_step(user, now, recipients, f);
            let i = f.invite->0->0;
            let id = ids::oid_of(channels::user_text(user));
            let open = f.invite->0 is Found && !i.revoked && !i.used && (i.expires_at is None || now
                <= i.expires_at->0) && (i.max_uses is None || i.use_count < i.max_uses->0);
            let c = f.channel->0->0;
            let welcome = open && f.channel is Some && f.channel->0 is Found && !c.banned && !c.member;
            let counted = welcome && f.registered is Some && f.registered->0 is Found;
            let again_there = counted && f.reloaded is Some && f.reloaded->0 is Found
                && !f.reloaded->0->0.banned;
            let known = again_there && id is Some && f.user is Some && f.user->0 is Found
                && f.reloaded->0->0.id is Some;
            let seeded = known && f.seeded == Some(Done::Worked);
            &&& f.invite->0 is Missing ==> refused_with(s, 404)
            &&& f.invite->0 is Failed ==> refused_with(s, 500)
            &&& f.invite->0 is Found && !open ==> refused_with(s, 400)
            &&& open && f.channel is Some && f.channel->0 is Missing ==> refused_with(s, 404)
            &&& open && f.channel is Some && f.channel->0 is Failed ==> refused_with(s, 500)
            &&& open && f.channel is Some && f.channel->0 is Found && c.banned ==> refused_with(s, 403)
            &&& welcome && f.registered is Some && f.registered->0 is Missing ==> refused_with(s, 400)
            &&& welcome && f.registered is Some && f.registered->0 is Failed ==> refused_with(s, 500)
            &&& counted && f.reloaded is Some && f.reloaded->0 is Missing ==> given_back(f, s, 404)
            &&& counted && f.reloaded is Some && f.reloaded->0 is Failed ==> given_back(f, s, 500)
            &&& counted && f.reloaded is Some && f.reloaded->0 is Found && f.reloaded->0->0.banned
                ==> given_back(f, s, 403)
            &&& again_there && id is None ==> given_back(f, s, 400)
            &&& again_there && id is Some && f.user is Some && f.user->0 is Missing ==> given_back(
                f,
                s,
                400,
            )
            &&& again_there && id is Some && f.user is Some && f.user->0 is Failed ==> given_back(
                f,
                s,
                503,
            )
            &&& again_there && id is Some && f.user is Some && f.user->0 is Found
                && f.reloaded->0->0.id is None ==> given_back(f, s, 500)
            &&& known && f.seeded == Some(Done::Failed) ==> given_back(f, s, 503)
            &&& seeded && f.added == Some(Wrote::Failed) ==> given_back(f, s, 500)
            &&& seeded && f.added == Some(Wrote::Unchanged) ==> if f.released {
                s == AcceptStepView::ReplyAlreadyMember(f.reloaded->0->0.id)
            } else {
                s is ReleaseUse
            }
            &&& seeded && f.added == Some(Wrote::Changed) && f.shown is Some && f.shown->0 !is Found
                ==> refused_with(s, 503)
        }),
{
}

} // verus!
