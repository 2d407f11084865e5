//! Invitations that let one user in.

use vstd::prelude::*;

use crate::controllers::channels;
use crate::controllers::invites;
use crate::controllers::invites::{
    AcceptStep, AcceptStepView, Invitation, InviteSource, Joining, ManageFacts, ManageStep,
    ShowStep, db_error, require_channel_owner,
};
use crate::ids;
use crate::ids::{Oid, parse_oid};
use crate::reply::{Answer, Done, Lookup, error};

verus! {

pub open spec fn create_step(user: Option<&str>, channel_id: &str, f: ManageFacts) -> ManageStep {
    match invites::owner_gate(
        user,
        channel_id,
        error(403, "Only the channel owner can create invites"),
        f,
    ) {
        Some(s) => s,
        None => match f.done {
            None => ManageStep::Create {
                channel: ids::oid_of(channel_id@)->0,
                owner: ids::oid_of(channels::user_text(user))->0,
                max_uses: None,
            },
            Some(Answer::Yes) => ManageStep::Reply,
            Some(_) => ManageStep::Refuse(db_error()),
        },
    }
}

/// Decides the next step of creating an invitation.
pub fn create_invite(user: Option<&str>, channel_id: &str, f: &ManageFacts) -> (r: ManageStep)
    ensures
        r == create_step(user, channel_id, *f),
{
    let (channel, owner) = match require_channel_owner(
        user,
        channel_id,
        error(403, "Only the channel owner can create invites"),
        f,
    ) {
        Err(s) => return s,
        Ok(p) => p,
    };
    match f.done {
        None => ManageStep::Create { channel, owner, max_uses: None },
        Some(Answer::Yes) => ManageStep::Reply,
        Some(_) => ManageStep::Refuse(db_error()),
    }
}

/// The owner of a channel, and nobody else, makes invitations for it: the
/// request is not refused while nothing fails, and success is replied only where one was made.
pub proof fn law_owner_makes_invitations(
    user: Option<&str>,
    channel_id: &str,
    f: ManageFacts,
)
    ensures
        ({
            let s = create_step(user, channel_id, f);
            let cid = ids::oid_of(channel_id@);
            let uid = ids::oid_of(channels::user_text(user));
            let own = f.channel is Some && f.channel->0 is Found && ids::hex_of(f.channel->0->0)
                == channels::user_text(user);
            let asked: Option<u32> = None;
            let over = false;
            &&& cid is Some && f.channel is None <==> s is LoadChannel
            &&& s is LoadChannel ==> s == ManageStep::LoadChannel(cid->0)
            &&& cid is Some && own && uid is Some && !over && f.done is None ==> s == (
            ManageStep::Create { channel: cid->0, owner: uid->0, max_uses: asked })
            &&& cid is Some && own && uid is Some && !over && f.done == Some(Answer::Yes) ==> s is
                Reply
            &&& cid is Some && own && uid is Some && over ==> s is RefuseLimit
            &&& s is Create || s is Reply || s is RefuseLimit ==> own && cid is Some
            &&& s is Create ==> f.done is None
            &&& s is Reply ==> f.done == Some(Answer::Yes)
            &&& s is RefuseLimit ==> over
            &&& s !is List && s !is Delete
        }),
{
}

/// Decides the next step of showing an invitation: channel and inviter are shown where they can
/// be loaded.
pub fn get_invite(
    invite: Option<Lookup<InviteSource>>,
    channel: Option<Lookup<()>>,
    inviter: Option<Lookup<()>>,
) -> (r: ShowStep)
    ensures
        r == (if invite is None {
            ShowStep::LoadInvite
        } else if invite->0 is Missing {
            ShowStep::Refuse(error(404, "Invite not found"))
        } else if invite->0 is Failed {
            ShowStep::Refuse(db_error())
        } else if channel is None {
            ShowStep::LoadChannel(invite->0->0.channel)
        } else if inviter is None {
            ShowStep::LoadInviter(invite->0->0.inviter)
        } else {
            ShowStep::Reply { with_channel: channel->0 is Found, with_inviter: inviter->0 is Found }
        }),
        invite is Some && invite->0 is Found && channel is Some && inviter is Some <==> r is Reply,
        r matches ShowStep::Reply { with_channel, with_inviter } ==> with_channel == (channel->0 is Found)
            && with_inviter == (inviter->0 is Found),
        r is Refuse ==> invite is Some && invite->0 !is Found,
{
    let source = match invite {
        None => return ShowStep::LoadInvite,
        Some(Lookup::Missing) => return ShowStep::Refuse(error(404, "Invite not found")),
        Some(Lookup::Failed) => return ShowStep::Refuse(db_error()),
        Some(Lookup::Found(s)) => s,
    };
    let with_channel = match channel {
        None => return ShowStep::LoadChannel(source.channel),
        Some(Lookup::Found(_)) => true,
        _ => false,
    };
    match inviter {
        None => ShowStep::LoadInviter(source.inviter),
        Some(Lookup::Found(_)) => ShowStep::Reply { with_channel, with_inviter: true },
        _ => ShowStep::Reply { with_channel, with_inviter: false },
    }
}

/// What is known while an invitation is accepted.
#[derive(Clone, Copy, Debug)]
pub struct AcceptFacts {
    pub invite: Option<Lookup<Invitation>>,
    pub channel: Option<Lookup<Joining>>,
    /// The invitation was used; the channel that it is for. `Missing` where it was used already.
    pub consumed: Option<Lookup<Oid>>,
    pub reloaded: Option<Lookup<Joining>>,
    pub user: Option<Lookup<()>>,
    pub added: Option<Done>,
}

pub open spec fn accept_step(user: Option<&str>, now: i64, f: AcceptFacts) -> AcceptStepView {
    let invite = f.invite->0->0;
    let uid = ids::oid_of(channels::user_text(user));
    let channel = f.reloaded->0->0.id;
    if f.invite is None {
        AcceptStepView::LoadInvite
    } else if f.invite->0 is Missing {
        AcceptStepView::Refuse(error(404, "Zaproszenie nie znalezione"))
    } else if f.invite->0 is Failed {
        AcceptStepView::Refuse(db_error())
    } else if invites::is_expired(invite, now) {
        AcceptStepView::Refuse(error(400, "Zaproszenie wygasło"))
    } else if invite.used {
        AcceptStepView::Refuse(error(400, "Zaproszenie zostało już wykorzystane"))
    } else if f.channel is None {
        AcceptStepView::LoadChannel(invite.channel)
    } else if f.channel->0 is Missing {
        AcceptStepView::Refuse(error(404, "Kanał nie istnieje"))
    } else if f.channel->0 is Failed {
        AcceptStepView::Refuse(db_error())
    } else if f.channel->0->0.banned {
        AcceptStepView::Refuse(error(403, "Nie masz dostępu do tego kanału"))
    } else if f.channel->0->0.member {
        AcceptStepView::ReplyAlreadyMember(f.channel->0->0.id)
    } else if f.consumed is None {
        AcceptStepView::RegisterUse
    } else if f.consumed->0 is Missing {
        AcceptStepView::Refuse(error(400, "Zaproszenie zostało już wykorzystane lub wygasło"))
    } else if f.consumed->0 is Failed {
        AcceptStepView::Refuse(db_error())
    } else if f.reloaded is None {
        AcceptStepView::ReloadChannel(f.consumed->0->0)
    } else if f.reloaded->0 is Missing {
        AcceptStepView::Refuse(error(404, "Kanał nie istnieje"))
    } else if f.reloaded->0 is Failed {
        AcceptStepView::Refuse(db_error())
    } else if f.reloaded->0->0.banned {
        AcceptStepView::Refuse(error(403, "Nie masz dostępu do tego kanału"))
    } else if uid is None {
        AcceptStepView::Refuse(error(400, "Użytkownik nie istnieje"))
    } else if f.user is None {
        AcceptStepView::LoadUser(uid->0)
    } else if f.user->0 !is Found {
        AcceptStepView::Refuse(error(400, "Użytkownik nie istnieje"))
    } else if channel is None {
        AcceptStepView::Refuse(error(500, "Kanał nie istnieje"))
    } else if f.added is None {
        AcceptStepView::AddMember { channel: channel->0, user: uid->0 }
    } else if f.added->0 is Failed {
        AcceptStepView::Refuse(db_error())
    } else {
        AcceptStepView::TellMemberAndReply {
            channel: channel->0,
            to: channels::user_text(user),
            event: "channel-added",
        }
    }
}

/// Decides the next step of accepting an invitation at `now`.
pub fn accept_invite(user: Option<&str>, now: i64, f: &AcceptFacts) -> (r: AcceptStep)
    ensures
        r@ == accept_step(user, now, *f),
{
    let invite = match f.invite {
        None => return AcceptStep::LoadInvite,
        Some(Lookup::Missing) => {
            return AcceptStep::Refuse(error(404, "Zaproszenie nie znalezione"));
        },
        Some(Lookup::Failed) => return AcceptStep::Refuse(db_error()),
        Some(Lookup::Found(i)) => i,
    };
    if invites::invite_state(&invite, now).expired {
        return AcceptStep::Refuse(error(400, "Zaproszenie wygasło"));
    }
    if invite.used {
        return AcceptStep::Refuse(error(400, "Zaproszenie zostało już wykorzystane"));
    }
    let first = match f.channel {
        None => return AcceptStep::LoadChannel(invite.channel),
        Some(Lookup::Missing) => return AcceptStep::Refuse(error(404, "Kanał nie istnieje")),
        Some(Lookup::Failed) => return AcceptStep::Refuse(db_error()),
        Some(Lookup::Found(c)) => c,
    };
    if first.banned {
        return AcceptStep::Refuse(error(403, "Nie masz dostępu do tego kanału"));
    }
    if first.member {
        return AcceptStep::ReplyAlreadyMember(first.id);
    }
    let consumed = match f.consumed {
        None => return AcceptStep::RegisterUse,
        Some(Lookup::Missing) => {
            return AcceptStep::Refuse(
                error(400, "Zaproszenie zostało już wykorzystane lub wygasło"),
            );
        },
        Some(Lookup::Failed) => return AcceptStep::Refuse(db_error()),
        Some(Lookup::Found(id)) => id,
    };
    let joining = match f.reloaded {
        None => return AcceptStep::ReloadChannel(consumed),
        Some(Lookup::Missing) => return AcceptStep::Refuse(error(404, "Kanał nie istnieje")),
        Some(Lookup::Failed) => return AcceptStep::Refuse(db_error()),
        Some(Lookup::Found(c)) => c,
    };
    if joining.banned {
        return AcceptStep::Refuse(error(403, "Nie masz dostępu do tego kanału"));
    }
    let me = match user {
        None => "",
        Some(u) => u,
    };
    proof {
        reveal_strlit("");
        assert(""@ =~= Seq::<char>::empty());
    }
    let uid = match parse_oid(me) {
        None => return AcceptStep::Refuse(error(400, "Użytkownik nie istnieje")),
        Some(id) => id,
    };
    match f.user {
        None => return AcceptStep::LoadUser(uid),
        Some(Lookup::Found(_)) => {},
        _ => return AcceptStep::Refuse(error(400, "Użytkownik nie istnieje")),
    }
    let channel = match joining.id {
        None => return AcceptStep::Refuse(error(500, "Kanał nie istnieje")),
        Some(id) => id,
    };
    match f.added {
        None => AcceptStep::AddMember { channel, user: uid },
        Some(Done::Failed) => AcceptStep::Refuse(db_error()),
        Some(Done::Worked) => AcceptStep::TellMemberAndReply {
            channel,
            to: me.to_owned(),
            event: "channel-added",
        },
    }
}

/// A user joins only by an invitation that has not run out, was not used before and is now used
/// by this user, and never where the user is banned.
pub proof fn law_joining_uses_up_the_invitation(user: Option<&str>, now: i64, f: AcceptFacts)
    requires
        accept_step(user, now, f) is AddMember,
    ensures
        !invites::is_expired(f.invite->0->0, now),
        !f.invite->0->0.used,
        f.consumed is Some && f.consumed->0 is Found,
        !f.channel->0->0.banned,
        !f.reloaded->0->0.banned,
{
}

/// A user who is neither banned nor a member joins by an invitation that was not used and has not run
/// out: the request is not refused while nothing fails, the invitation is used, and the user is added to
/// its channel and told of it, only where added.
pub proof fn law_unused_invitation_lets_a_user_in(
    user: Option<&str>,
    now: i64,
    f: AcceptFacts,
)
    requires
        user is Some && ids::oid_of(user->0@) is Some,
        f.invite matches Some(i) ==> i is Found && !i->0.used && (i->0.expires_at is None || now
            <= i->0.expires_at->0),
        f.channel matches Some(c) ==> c is Found && !c->0.banned && !c->0.member,
        f.consumed matches Some(c) ==> c is Found,
        f.reloaded matches Some(c) ==> c is Found && !c->0.banned && c->0.id is Some,
        f.user matches Some(u) ==> u is Found,
        f.added != Some(Done::Failed),
    ensures
        ({
            let s = accept_step(user, now, f);
            let id = ids::oid_of(user->0@)->0;
            let channel = f.reloaded->0->0.id->0;
            let used = f.invite is Some && f.channel is Some && f.consumed is Some && f.reloaded is
                Some;
            &&& s !is Refuse && s !is ReplyAlreadyMember && s !is ReleaseUse && s !is TellAndReply
            &&& f.invite is None ==> s is LoadInvite
            &&& f.invite is Some && f.channel is None ==> s == AcceptStepView::LoadChannel(
                f.invite->0->0.channel,
            )
            &&& f.invite is Some && f.channel is Some && f.consumed is None ==> s is RegisterUse
            &&& f.invite is Some && f.channel is Some && f.consumed is Some && f.reloaded is None ==> s
                == AcceptStepView::ReloadChannel(f.consumed->0->0)
            &&& used && f.user is None ==> s == AcceptStepView::LoadUser(id)
            &&& used && f.user is Some && f.added is None ==> s == (AcceptStepView::AddMember {
                channel,
                user: id,
            })
            &&& used && f.user is Some && f.added is Some ==> s == (
            AcceptStepView::TellMemberAndReply { channel, to: user->0@, event: "channel-added" })
        }),
{
}

/// A used invitation lets nobody in, nor one that has run out; joining asks only for what is not known
/// yet, and a refusal has its reason.
pub proof fn law_joining_once_makes_progress(
    user: Option<&str>,
    now: i64,
    f: AcceptFacts,
)
    ensures
        ({
            let s = accept_step(user, now, f);
            let i = f.invite->0->0;
            let closed = i.used || (i.expires_at is Some && i.expires_at->0 < now);
            &&& f.invite is Some && f.invite->0 is Found && closed ==> s is Refuse
            &&& s is LoadInvite <==> f.invite is None
            &&& s is LoadChannel ==> f.channel is None
            &&& s is RegisterUse ==> f.consumed is None
            &&& s is ReloadChannel ==> f.reloaded is None
            &&& s is LoadUser ==> f.user is None
            &&& s is AddMember ==> f.added is None && f.user is Some && f.user->0 is Found
            &&& s is TellMemberAndReply ==> f.added == Some(Done::Worked) && f.consumed is Some
                && f.consumed->0 is Found
            &&& s matches AcceptStepView::ReplyAlreadyMember(id) ==> f.channel->0->0.member && id
                == f.channel->0->0.id
            &&& s matches AcceptStepView::Refuse(r) ==> {
                &&& r.status == 404 ==> f.invite->0 is Missing || f.channel->0 is Missing || (
                f.reloaded is Some && f.reloaded->0 is Missing)
                &&& r.status == 403 ==> f.channel->0->0.banned || (f.reloaded is Some
                    && f.reloaded->0->0.banned)
                &&& r.status == 400 ==> closed || (f.consumed is Some && f.consumed->0 is Missing)
                    || ids::oid_of(channels::user_text(user)) is None || (f.user is Some && f.user->0
                    !is Found)
                &&& r.status == 400 || r.status == 403 || r.status == 404 || r.status == 500
            }
        }),
{
}

} // verus!
