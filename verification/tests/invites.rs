//! Invitations to channels.

use klovy_chat_server::controllers::invite_controller;
use klovy_chat_server::controllers::channels::Arrival;
use klovy_chat_server::controllers::invites::{
    accept_invite, create_invite, db_error, db_error_retryable, delete_invite, frontend_origin, get_invite,
    invite_state, invite_url, limit_text, list_invites, require_channel_owner, AcceptFacts, AcceptStep,
    CreateInviteBody, InviteSource, Invitation, Joining, ManageFacts, ManageStep, ShowFacts, ShowStep,
};
use klovy_chat_server::ids::Oid;
use klovy_chat_server::reply::{again, error, unavailable, Answer, Done, Lookup, Wrote};

const ME: &str = "0000000000000000000000a1";
const OTHER: &str = "0000000000000000000000b2";
const CHAN: &str = "0000000000000000000000e5";

fn id(s: &str) -> Oid {
    match Oid::parse(s) {
        Some(o) => o,
        None => panic!("not an identifier"),
    }
}

fn open() -> Invitation {
    Invitation { channel: id(CHAN), revoked: false, used: false, expires_at: None, max_uses: None, use_count: 0 }
}

#[test]
fn invitation_states() {
    let s = invite_state(&open(), 100);
    assert!(s.joinable && !s.revoked && !s.expired && !s.limit_reached);
    let s = invite_state(&Invitation { used: true, ..open() }, 100);
    assert!(s.revoked && !s.joinable);
    let s = invite_state(&Invitation { expires_at: Some(99), ..open() }, 100);
    assert!(s.expired && !s.joinable);
    let s = invite_state(&Invitation { expires_at: Some(100), ..open() }, 100);
    assert!(!s.expired && s.joinable);
    let s = invite_state(&Invitation { max_uses: Some(2), use_count: 2, ..open() }, 100);
    assert!(s.limit_reached && !s.joinable);
    let s = invite_state(&Invitation { max_uses: Some(2), use_count: 1, ..open() }, 100);
    assert!(!s.limit_reached && s.joinable);
}

#[test]
fn invitation_addresses() {
    assert_eq!(frontend_origin(true, Some("https://klovy.pl//"), Some("https://x")), "https://klovy.pl");
    assert_eq!(frontend_origin(false, Some("https://klovy.pl"), Some("https://x/")), "https://x");
    assert_eq!(frontend_origin(false, None, None), "http://127.0.0.1:5173");
    assert_eq!(invite_url("https://klovy.pl", "abc"), "https://klovy.pl/invite/abc");
    assert_eq!(limit_text(100), "Join limit must be at most 100");
}

#[test]
fn invitations_are_managed_by_the_owner() {
    let no = ManageStep::Refuse;
    let f = |channel| ManageFacts { channel, done: None };
    let denied = error(403, "Only the channel owner can manage invites");
    assert_eq!(list_invites(Some(ME), "x", &f(None)), no(error(404, "Channel not found")));
    assert_eq!(list_invites(Some(ME), CHAN, &f(None)), ManageStep::LoadChannel(id(CHAN)));
    assert_eq!(list_invites(Some(ME), CHAN, &f(Some(Lookup::Missing))), no(error(404, "Channel not found")));
    assert_eq!(list_invites(Some(ME), CHAN, &f(Some(Lookup::Failed))), no(error(500, "Internal Server Error")));
    assert_eq!(list_invites(Some(OTHER), CHAN, &f(Some(Lookup::Found(id(ME))))), no(denied));
    assert_eq!(delete_invite(None, CHAN, &f(Some(Lookup::Found(id(ME))))), no(denied));
    let own = f(Some(Lookup::Found(id(ME))));
    assert_eq!(require_channel_owner(Some(ME), CHAN, denied, &own), Ok((id(CHAN), id(ME))));
    assert_eq!(list_invites(Some(ME), CHAN, &own), ManageStep::List(id(CHAN)));
    assert_eq!(delete_invite(Some(ME), CHAN, &own), ManageStep::Delete(id(CHAN)));
    let done = |a| ManageFacts { channel: Some(Lookup::Found(id(ME))), done: Some(a) };
    assert_eq!(list_invites(Some(ME), CHAN, &done(Answer::No)), ManageStep::Reply);
    assert_eq!(list_invites(Some(ME), CHAN, &done(Answer::Failed)), no(db_error()));
    assert_eq!(delete_invite(Some(ME), CHAN, &done(Answer::Yes)), ManageStep::Reply);
    assert_eq!(delete_invite(Some(ME), CHAN, &done(Answer::No)), no(error(404, "Invite not found")));
    assert_eq!(delete_invite(Some(ME), CHAN, &done(Answer::Failed)), no(db_error()));
}

#[test]
fn invitation_creation() {
    let own = ManageFacts { channel: Some(Lookup::Found(id(ME))), done: None };
    let body = |n| CreateInviteBody { max_uses: n };
    let make = |max_uses| ManageStep::Create { channel: id(CHAN), owner: id(ME), max_uses };
    assert_eq!(create_invite(Some(ME), CHAN, &body(None), 100, &own), make(None));
    assert_eq!(create_invite(Some(ME), CHAN, &body(Some(0)), 100, &own), make(None));
    assert_eq!(create_invite(Some(ME), CHAN, &body(Some(100)), 100, &own), make(Some(100)));
    assert_eq!(create_invite(Some(ME), CHAN, &body(Some(101)), 100, &own), ManageStep::RefuseLimit);
    let f = ManageFacts { done: Some(Answer::Yes), ..own };
    assert_eq!(create_invite(Some(ME), CHAN, &body(None), 100, &f), ManageStep::Reply);
    let f = ManageFacts { done: Some(Answer::Failed), ..own };
    assert_eq!(create_invite(Some(ME), CHAN, &body(None), 100, &f), ManageStep::Refuse(db_error()));
    assert_eq!(invite_controller::create_invite(Some(ME), CHAN, &own), make(None));
    assert_eq!(
        invite_controller::create_invite(Some(OTHER), CHAN, &own),
        ManageStep::Refuse(error(403, "Only the channel owner can create invites"))
    );
}

#[test]
fn invitation_is_shown() {
    let no = ShowStep::Refuse;
    let mut f = ShowFacts { invite: None, channel: None, inviter: None };
    assert_eq!(get_invite(&f), ShowStep::LoadInvite);
    f.invite = Some(Lookup::Missing);
    assert_eq!(get_invite(&f), no(error(404, "Invite not found")));
    f.invite = Some(Lookup::Failed);
    assert_eq!(get_invite(&f), no(db_error()));
    f.invite = Some(Lookup::Found(InviteSource { channel: id(CHAN), inviter: id(OTHER) }));
    assert_eq!(get_invite(&f), ShowStep::LoadChannel(id(CHAN)));
    f.channel = Some(Lookup::Failed);
    assert_eq!(get_invite(&f), no(db_error()));
    f.channel = Some(Lookup::Missing);
    assert_eq!(get_invite(&f), ShowStep::LoadInviter(id(OTHER)));
    f.inviter = Some(Lookup::Failed);
    assert_eq!(get_invite(&f), no(db_error()));
    f.inviter = Some(Lookup::Found(()));
    assert_eq!(get_invite(&f), ShowStep::Reply { with_channel: false, with_inviter: true });
    assert_eq!(
        invite_controller::get_invite(f.invite, Some(Lookup::Failed), Some(Lookup::Failed)),
        ShowStep::Reply { with_channel: false, with_inviter: false }
    );
}

const NO_ACCEPT: AcceptFacts = AcceptFacts {
    invite: None,
    channel: None,
    registered: None,
    reloaded: None,
    user: None,
    seeded: None,
    added: None,
    released: false,
    shown: None,
};

fn people() -> Vec<String> {
    vec![OTHER.to_string(), ME.to_string()]
}

fn accept(f: &AcceptFacts) -> AcceptStep {
    accept_invite(Some(ME), 100, &people(), f)
}

fn joining(banned: bool, member: bool) -> Option<Lookup<Joining>> {
    Some(Lookup::Found(Joining { id: Some(id(CHAN)), banned, member }))
}

#[test]
fn joining_steps() {
    let (channel, user) = (id(CHAN), id(ME));
    let mut f = NO_ACCEPT;
    assert_eq!(accept(&f), AcceptStep::LoadInvite);
    f.invite = Some(Lookup::Found(open()));
    assert_eq!(accept(&f), AcceptStep::LoadChannel(channel));
    f.channel = joining(false, true);
    assert_eq!(accept(&f), AcceptStep::ReplyAlreadyMember(Some(channel)));
    f.channel = joining(false, false);
    assert_eq!(accept(&f), AcceptStep::RegisterUse);
    f.registered = Some(Lookup::Found(channel));
    assert_eq!(accept(&f), AcceptStep::ReloadChannel(channel));
    f.reloaded = joining(false, false);
    assert_eq!(accept(&f), AcceptStep::LoadUser(user));
    f.user = Some(Lookup::Found(()));
    assert_eq!(accept(&f), AcceptStep::Seed { channel, user });
    f.seeded = Some(Done::Worked);
    assert_eq!(accept(&f), AcceptStep::AddMember { channel, user });
    f.added = Some(Wrote::Changed);
    assert_eq!(accept(&f), AcceptStep::LoadForNews(channel));
    assert_eq!(
        accept(&AcceptFacts { shown: Some(Lookup::Missing), ..f }),
        AcceptStep::Refuse(unavailable())
    );
    f.shown = Some(Lookup::Found(true));
    assert_eq!(accept(&f), AcceptStep::TellAndReply(Arrival {
        channel,
        user: ME.to_string(),
        event: "channel-added",
        with_item: true,
        rest: vec![OTHER.to_string()],
        rest_event: "channel-member-joined",
        member_count: 2,
        forget_typing: true,
    }));
}

#[test]
fn joinable_is_what_accepting_checks() {
    let no = AcceptStep::Refuse;
    let with = |i| AcceptFacts { invite: Some(Lookup::Found(i)), ..NO_ACCEPT };
    assert_eq!(accept(&AcceptFacts { invite: Some(Lookup::Missing), ..NO_ACCEPT }), no(error(404, "Zaproszenie nie znalezione")));
    assert_eq!(accept(&AcceptFacts { invite: Some(Lookup::Failed), ..NO_ACCEPT }), no(db_error()));
    assert_eq!(
        accept(&with(Invitation { revoked: true, ..open() })),
        no(error(400, "Zaproszenie zostało wyłączone przez właściciela kanału"))
    );
    assert_eq!(
        accept(&with(Invitation { expires_at: Some(99), ..open() })),
        no(error(400, "Zaproszenie wygasło"))
    );
    assert_eq!(
        accept(&with(Invitation { max_uses: Some(1), use_count: 1, ..open() })),
        no(error(400, "Limit dołączeń dla tego zaproszenia został osiągnięty"))
    );
    assert_eq!(accept(&with(open())), AcceptStep::LoadChannel(id(CHAN)));
}

#[test]
fn banned_users_do_not_join() {
    let no = AcceptStep::Refuse;
    let f = AcceptFacts { invite: Some(Lookup::Found(open())), ..NO_ACCEPT };
    assert_eq!(accept(&AcceptFacts { channel: Some(Lookup::Missing), ..f }), no(error(404, "Kanał nie istnieje")));
    assert_eq!(accept(&AcceptFacts { channel: Some(Lookup::Failed), ..f }), no(db_error()));
    assert_eq!(
        accept(&AcceptFacts { channel: joining(true, false), ..f }),
        no(error(403, "Nie masz dostępu do tego kanału"))
    );
    let f = AcceptFacts { channel: joining(false, false), ..f };
    assert_eq!(
        accept(&AcceptFacts { registered: Some(Lookup::Missing), ..f }),
        no(error(400, "Zaproszenie zostało wyłączone, wygasło lub osiągnęło limit"))
    );
    assert_eq!(accept(&AcceptFacts { registered: Some(Lookup::Failed), ..f }), no(db_error()));
    let f = AcceptFacts {
        registered: Some(Lookup::Found(id(CHAN))),
        reloaded: joining(true, false),
        released: true,
        ..f
    };
    assert_eq!(accept(&f), no(error(403, "Nie masz dostępu do tego kanału")));
}

#[test]
fn use_is_kept_exactly_by_joining() {
    let no = AcceptStep::Refuse;
    let f = AcceptFacts {
        invite: Some(Lookup::Found(open())),
        channel: joining(false, false),
        registered: Some(Lookup::Found(id(CHAN))),
        ..NO_ACCEPT
    };
    let ends_in = |f: &AcceptFacts, user: Option<&str>, end: AcceptStep| {
        assert_eq!(accept_invite(user, 100, &people(), f), AcceptStep::ReleaseUse);
        assert_eq!(accept_invite(user, 100, &people(), &AcceptFacts { released: true, ..*f }), end);
    };
    ends_in(&AcceptFacts { reloaded: Some(Lookup::Missing), ..f }, Some(ME), no(error(404, "Kanał nie istnieje")));
    ends_in(&AcceptFacts { reloaded: Some(Lookup::Failed), ..f }, Some(ME), no(db_error_retryable()));
    let f = AcceptFacts { reloaded: joining(false, false), ..f };
    ends_in(&f, None, no(error(400, "Użytkownik nie istnieje")));
    ends_in(&AcceptFacts { user: Some(Lookup::Missing), ..f }, Some(ME), no(error(400, "Użytkownik nie istnieje")));
    ends_in(&AcceptFacts { user: Some(Lookup::Failed), ..f }, Some(ME), no(unavailable()));
    let f = AcceptFacts { user: Some(Lookup::Found(())), ..f };
    let lost = Some(Lookup::Found(Joining { id: None, banned: false, member: false }));
    ends_in(&AcceptFacts { reloaded: lost, ..f }, Some(ME), no(again(error(500, "Kanał nie istnieje"))));
    ends_in(&AcceptFacts { seeded: Some(Done::Failed), ..f }, Some(ME), no(unavailable()));
    let f = AcceptFacts { seeded: Some(Done::Worked), ..f };
    ends_in(&AcceptFacts { added: Some(Wrote::Failed), ..f }, Some(ME), no(db_error_retryable()));
    ends_in(&AcceptFacts { added: Some(Wrote::Unchanged), ..f }, Some(ME), AcceptStep::ReplyAlreadyMember(Some(id(CHAN))));
}

#[test]
fn joining_uses_up_the_invitation() {
    let no = AcceptStep::Refuse;
    let mut f = invite_controller::AcceptFacts {
        invite: None,
        channel: None,
        consumed: None,
        reloaded: None,
        user: None,
        added: None,
    };
    let step = |f: &invite_controller::AcceptFacts| invite_controller::accept_invite(Some(ME), 100, f);
    assert_eq!(step(&f), AcceptStep::LoadInvite);
    f.invite = Some(Lookup::Found(Invitation { used: true, ..open() }));
    assert_eq!(step(&f), no(error(400, "Zaproszenie zostało już wykorzystane")));
    f.invite = Some(Lookup::Found(Invitation { used: true, expires_at: Some(1), ..open() }));
    assert_eq!(step(&f), no(error(400, "Zaproszenie wygasło")));
    f.invite = Some(Lookup::Found(open()));
    assert_eq!(step(&f), AcceptStep::LoadChannel(id(CHAN)));
    f.channel = joining(false, false);
    assert_eq!(step(&f), AcceptStep::RegisterUse);
    f.consumed = Some(Lookup::Missing);
    assert_eq!(step(&f), no(error(400, "Zaproszenie zostało już wykorzystane lub wygasło")));
    f.consumed = Some(Lookup::Found(id(CHAN)));
    assert_eq!(step(&f), AcceptStep::ReloadChannel(id(CHAN)));
    f.reloaded = joining(true, false);
    assert_eq!(step(&f), no(error(403, "Nie masz dostępu do tego kanału")));
    f.reloaded = joining(false, false);
    assert_eq!(step(&f), AcceptStep::LoadUser(id(ME)));
    f.user = Some(Lookup::Failed);
    assert_eq!(step(&f), no(error(400, "Użytkownik nie istnieje")));
    f.user = Some(Lookup::Found(()));
    assert_eq!(step(&f), AcceptStep::AddMember { channel: id(CHAN), user: id(ME) });
    f.added = Some(Done::Failed);
    assert_eq!(step(&f), no(db_error()));
    f.added = Some(Done::Worked);
    assert_eq!(step(&f), AcceptStep::TellMemberAndReply {
        channel: id(CHAN),
        to: ME.to_string(),
        event: "channel-added",
    });
    f.reloaded = Some(Lookup::Found(Joining { id: None, banned: false, member: false }));
    assert_eq!(step(&f), no(error(500, "Kanał nie istnieje")));
}
