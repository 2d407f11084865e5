//! Channels: creation, reading, settings, members and moderation.

use klovy_chat_server::controllers::channels::{
    add_user_to_channel, avatar_extension, ban_channel_member, deletion, depart, message_ids, message_urls, channels_unavailable, create_channel, delete_channel,
    delete_channel_avatar, get_channel_details, get_channel_messages, get_user_channels, show_channel_page, is_listed,
    kick_channel_member, leave_channel, lock_asked, members_to_tell, message_unavailable, mute_channel_member,
    no_channel_access, order_channels, parse_ids, picture_kind, remaining_recipients, rename_channel, report_channel,
    report_details, report_reason, report_reasons, seed_ids, switch_mute, toggle_channel_mute,
    unban_channel_member, unmute_channel_member, update_channel_chat_lock, update_channel_slowmode,
    upload_channel_avatar, voice_recipients, arrive, AddFacts, AddStep, AddUserBody, Arrival, ListedChannel, OwnChannel, AvatarFacts, AvatarStep,
    ChannelPageFacts, ChannelPageStep, ChannelsFacts, ChannelsStep, ChatLockBody, CreateChannelBody, CreateFacts,
    CreateStep, Aftermath, ChannelChange, ChannelMessage, DeleteFacts, DeleteStep, Departure, Pictures, LeaveFacts, NewChannel, LeaveStep, Moderated, ModerationFacts, ModerationStep, MuteStep,
    OwnerFacts, OwnerStep, ReportBody, ReportFacts, ReportStep, Scan, SlowmodeBody, TargetUserBody, ViewFacts,
    ViewStep,
};
use klovy_chat_server::ids::Oid;
use klovy_chat_server::reply::{again, error, message, Access, Answer, Done, Lookup, Wrote};

const ME: &str = "0000000000000000000000a1";
const OTHER: &str = "0000000000000000000000b2";
const THIRD: &str = "0000000000000000000000c3";
const MSG: &str = "0000000000000000000000d4";
const CHAN: &str = "0000000000000000000000e5";

fn id(s: &str) -> Oid {
    match Oid::parse(s) {
        Some(o) => o,
        None => panic!("not an identifier"),
    }
}

fn some(s: &str) -> Option<String> {
    Some(s.to_string())
}

fn strings(v: &[&str]) -> Vec<String> {
    v.iter().map(|s| s.to_string()).collect()
}

fn made(members: &[&str]) -> NewChannel {
    NewChannel { admin: id(ME), members: members.iter().map(|m| id(m)).collect() }
}

fn creation(name: &str, members: Vec<Oid>) -> CreateStep {
    CreateStep::Create { owner: id(ME), name: name.to_string(), members }
}

const NO_CREATE: CreateFacts =
    CreateFacts { user: None, members: None, friends: None, created: None, serialized: None, seeded: None };

#[test]
fn channel_creation_steps() {
    let body = CreateChannelBody { name: some("x"), members: Some(strings(&[OTHER, ME])) };
    let members = vec![id(OTHER), id(ME)];
    let friends = strings(&[OTHER]);
    let step = |f: &CreateFacts| create_channel(Some(ME), &body, &members, &friends, &made(&[OTHER, ME]), f);
    let mut f = NO_CREATE;
    assert_eq!(step(&f), CreateStep::LoadUser(id(ME)));
    f.user = Some(Lookup::Found(()));
    assert_eq!(step(&f), CreateStep::FindMembers(vec![id(OTHER), id(ME)]));
    f.members = Some(Lookup::Found(2));
    assert_eq!(step(&f), CreateStep::LoadFriends(id(ME)));
    f.friends = Some(Done::Worked);
    assert_eq!(step(&f), creation("x", vec![id(OTHER), id(ME)]));
    f.created = Some(Lookup::Found(true));
    assert_eq!(step(&f), CreateStep::Serialize);
    f.serialized = Some(Done::Worked);
    assert_eq!(step(&f), CreateStep::SeedReadPositions(vec![id(OTHER), id(ME)]));
    f.seeded = Some(Done::Worked);
    assert_eq!(step(&f), CreateStep::TellAndReply { to: vec![id(OTHER)], event: "channel-added" });
    f.seeded = None;
    f.created = Some(Lookup::Found(false));
    assert_eq!(step(&f), CreateStep::TellAndReply { to: vec![], event: "channel-added" });
}

#[test]
fn channel_creation_refusals() {
    let no = CreateStep::Refuse;
    let body = CreateChannelBody { name: None, members: Some(strings(&[OTHER])) };
    let members = vec![id(OTHER)];
    let step = |f: &CreateFacts| create_channel(Some(ME), &body, &members, &vec![], &made(&[OTHER, ME]), f);
    assert_eq!(create_channel(None, &body, &members, &vec![], &made(&[OTHER, ME]), &NO_CREATE), no(message(400, "Admin user not found.")));
    assert_eq!(step(&CreateFacts { user: Some(Lookup::Missing), ..NO_CREATE }), no(message(400, "Admin user not found.")));
    assert_eq!(step(&CreateFacts { user: Some(Lookup::Failed), ..NO_CREATE }), no(message_unavailable()));
    let known = CreateFacts { user: Some(Lookup::Found(())), ..NO_CREATE };
    assert_eq!(step(&CreateFacts { members: Some(Lookup::Failed), ..known }), no(message_unavailable()));
    assert_eq!(
        step(&CreateFacts { members: Some(Lookup::Found(0)), ..known }),
        no(message(400, "Some members are not valid users."))
    );
    let found = CreateFacts { members: Some(Lookup::Found(1)), ..known };
    assert_eq!(step(&CreateFacts { friends: Some(Done::Failed), ..found }), no(message_unavailable()));
    assert_eq!(
        step(&CreateFacts { friends: Some(Done::Worked), ..found }),
        no(message(403, "Możesz dodawać do kanału tylko swoich znajomych."))
    );
    let alone = CreateChannelBody { name: None, members: None };
    let step = |f: &CreateFacts| create_channel(Some(ME), &alone, &vec![], &vec![], &made(&[OTHER, ME]), f);
    assert_eq!(step(&known), creation("", vec![]));
    assert_eq!(step(&CreateFacts { created: Some(Lookup::Failed), ..known }), no(message(500, "Internal Server Error")));
    let made = CreateFacts { created: Some(Lookup::Found(true)), ..known };
    assert_eq!(step(&CreateFacts { serialized: Some(Done::Failed), ..made }), no(again(channels_unavailable())));
    let f = CreateFacts { serialized: Some(Done::Worked), seeded: Some(Done::Failed), ..made };
    assert_eq!(step(&f), no(message_unavailable()));
}

#[test]
fn channel_is_created_with_friends_only() {
    let body = CreateChannelBody { name: None, members: Some(strings(&[OTHER, THIRD])) };
    let f = CreateFacts {
        user: Some(Lookup::Found(())),
        members: Some(Lookup::Found(2)),
        friends: Some(Done::Worked),
        ..NO_CREATE
    };
    let members = vec![id(OTHER), id(THIRD)];
    assert_eq!(
        create_channel(Some(ME), &body, &members, &strings(&[OTHER]), &made(&[OTHER, ME]), &f),
        CreateStep::Refuse(message(403, "Możesz dodawać do kanału tylko swoich znajomych."))
    );
    assert_eq!(
        create_channel(Some(ME), &body, &members, &strings(&[THIRD, OTHER]), &made(&[OTHER, ME]), &f),
        creation("", vec![id(OTHER), id(THIRD)])
    );
}

#[test]
fn channel_member_lists() {
    assert_eq!(parse_ids(&strings(&[OTHER, "x", ME])), vec![id(OTHER), id(ME)]);
    assert_eq!(seed_ids(&vec![id(OTHER)], id(ME), id(ME)), vec![id(OTHER), id(ME)]);
    assert_eq!(seed_ids(&vec![id(OTHER), id(OTHER)], id(ME), id(THIRD)), vec![id(OTHER), id(ME), id(THIRD)]);
    assert_eq!(members_to_tell(&vec![id(ME), id(OTHER)], ME), vec![id(OTHER)]);
    assert!(is_listed(&vec![id(ME)], ME));
    assert!(!is_listed(&vec![id(ME)], OTHER));
    assert_eq!(remaining_recipients(&strings(&[ME, OTHER]), ME), vec![OTHER]);
    assert_eq!(voice_recipients(&strings(&[OTHER]), ME), vec![OTHER, ME]);
    assert_eq!(voice_recipients(&strings(&[ME]), ME), vec![ME]);
}

#[test]
fn channel_list_steps() {
    let no = ChannelsStep::Refuse;
    let own = |channel: Option<&str>, owner: &str, updated: i64, unread: Option<u64>, last: Option<i64>| OwnChannel {
        id: channel.map(id),
        owner: id(owner),
        updated,
        unread,
        last,
    };
    let all = vec![
        own(Some(CHAN), ME, 7, None, None),
        own(Some(THIRD), OTHER, 100, Some(4), Some(9)),
        own(None, ME, 100, Some(1), Some(5)),
    ];
    let muted = vec![id(THIRD)];
    let mut f = ChannelsFacts { channels: None, user: None, enriched: None };
    assert_eq!(get_user_channels(None, &all, &muted, &f), no(message(500, "Internal Server Error")));
    assert_eq!(get_user_channels(Some(ME), &all, &muted, &f), ChannelsStep::FindChannels(id(ME)));
    f.channels = Some(Lookup::Failed);
    assert_eq!(get_user_channels(Some(ME), &all, &muted, &f), no(message(500, "Internal Server Error")));
    f.channels = Some(Lookup::Missing);
    assert_eq!(
        get_user_channels(Some(ME), &all, &muted, &f),
        no(message(503, "Channels temporarily unavailable. Please retry."))
    );
    f.channels = Some(Lookup::Found(()));
    assert_eq!(get_user_channels(Some(ME), &all, &muted, &f), ChannelsStep::LoadUser(id(ME)));
    f.user = Some(Lookup::Missing);
    assert_eq!(get_user_channels(Some(ME), &all, &muted, &f), no(message(401, "Unauthorized")));
    f.user = Some(Lookup::Failed);
    assert_eq!(get_user_channels(Some(ME), &all, &muted, &f), no(channels_unavailable()));
    f.user = Some(Lookup::Found(()));
    assert_eq!(get_user_channels(Some(ME), &all, &muted, &f), ChannelsStep::Enrich {
        user: id(ME),
        owners: vec![id(ME), id(OTHER)],
    });
    f.enriched = Some(Done::Failed);
    assert_eq!(get_user_channels(Some(ME), &all, &muted, &f), no(channels_unavailable()));
    f.enriched = Some(Done::Worked);
    assert_eq!(get_user_channels(Some(ME), &all, &muted, &f), ChannelsStep::Reply(vec![
        ListedChannel { place: 1, unread: 4, last: Some(9), muted: true },
        ListedChannel { place: 0, unread: 0, last: None, muted: false },
        ListedChannel { place: 2, unread: 1, last: Some(5), muted: false },
    ]));
    assert_eq!(order_channels(&vec![None, Some(9), Some(5)], &vec![7, 100, 100]), vec![1, 0, 2]);
}

#[test]
fn channel_pages() {
    let no = ChannelPageStep::Refuse;
    let mut f = ChannelPageFacts { access: None, page: None };
    assert_eq!(show_channel_page(CHAN, None, None, &f), ChannelPageStep::CheckAccess);
    f.access = Some(Access::Unavailable("a"));
    assert_eq!(show_channel_page(CHAN, None, None, &f), no(again(message(503, "a"))));
    f.access = Some(Access::Denied("b"));
    assert_eq!(show_channel_page(CHAN, None, None, &f), no(message(404, "b")));
    f.access = Some(Access::Granted);
    assert_eq!(show_channel_page("x", None, None, &f), no(message(400, "Invalid channel id")));
    assert_eq!(show_channel_page(CHAN, None, Some("x"), &f), no(message(400, "Invalid cursor")));
    let find = |before, fetch| ChannelPageStep::Find { channel: id(CHAN), before, fetch };
    assert_eq!(show_channel_page(CHAN, None, Some("  "), &f), find(None, 31));
    assert_eq!(show_channel_page(CHAN, Some("7"), Some(MSG), &f), find(Some(id(MSG)), 8));
    assert_eq!(show_channel_page(CHAN, Some("x"), None, &f), find(None, 31));
    assert_eq!(show_channel_page(CHAN, Some("0"), None, &f), find(None, 2));
    assert_eq!(show_channel_page(CHAN, Some("99"), None, &f), find(None, 51));
    assert_eq!(get_channel_messages(CHAN, "", &f), find(None, 31));
    assert_eq!(get_channel_messages(CHAN, "limit=%37&x=1", &f), find(None, 8));
    assert_eq!(get_channel_messages(CHAN, "limit=3&limit=4", &f), find(None, 5));
    assert_eq!(
        get_channel_messages(CHAN, format!("before=+{MSG}+&limit=2").as_str(), &f),
        find(Some(id(MSG)), 3)
    );
    assert_eq!(get_channel_messages(CHAN, "before=x", &f), no(message(400, "Invalid cursor")));
    f.page = Some(Done::Failed);
    assert_eq!(show_channel_page(CHAN, None, None, &f), no(message(500, "Internal Server Error")));
    f.page = Some(Done::Worked);
    assert_eq!(show_channel_page(CHAN, Some("50"), None, &f), ChannelPageStep::Page { limit: 50 });
}

#[test]
fn channel_details_and_mutes() {
    let no = ViewStep::Refuse;
    let not = MuteStep::Refuse;
    let muted = vec![id(OTHER)];
    let mut f = ViewFacts { channel: None, user: None, lists: None, encoded: None, stored: None };
    assert_eq!(get_channel_details(Some(ME), "x", &f), no(no_channel_access()));
    assert_eq!(no_channel_access(), message(404, "Kanał nie znaleziony lub brak dostępu"));
    assert_eq!(get_channel_details(Some(ME), CHAN, &f), ViewStep::LoadChannel(id(CHAN)));
    f.channel = Some(Lookup::Failed);
    assert_eq!(get_channel_details(Some(ME), CHAN, &f), no(again(message(503, "Temporarily unavailable"))));
    f.channel = Some(Lookup::Found(false));
    assert_eq!(get_channel_details(Some(ME), CHAN, &f), no(no_channel_access()));
    assert_eq!(toggle_channel_mute(Some(ME), CHAN, &muted, &f), not(no_channel_access()));
    f.channel = Some(Lookup::Found(true));
    assert_eq!(get_channel_details(None, CHAN, &f), no(no_channel_access()));
    assert_eq!(toggle_channel_mute(None, CHAN, &muted, &f), not(message(404, "Użytkownik nie znaleziony")));
    assert_eq!(get_channel_details(Some(ME), CHAN, &f), ViewStep::LoadUser(id(ME)));
    f.user = Some(Lookup::Missing);
    assert_eq!(get_channel_details(Some(ME), CHAN, &f), no(message(401, "Unauthorized")));
    assert_eq!(toggle_channel_mute(Some(ME), CHAN, &muted, &f), not(message(404, "Użytkownik nie znaleziony")));
    f.user = Some(Lookup::Failed);
    assert_eq!(get_channel_details(Some(ME), CHAN, &f), no(again(channels_unavailable())));
    assert_eq!(toggle_channel_mute(Some(ME), CHAN, &muted, &f), not(message_unavailable()));
    f.user = Some(Lookup::Found(()));
    assert_eq!(get_channel_details(Some(ME), CHAN, &f), ViewStep::LoadLists(id(CHAN)));
    assert_eq!(toggle_channel_mute(Some(ME), CHAN, &muted, &f), MuteStep::Encode(vec![id(OTHER), id(CHAN)]));
    f.lists = Some(Done::Failed);
    assert_eq!(get_channel_details(Some(ME), CHAN, &f), no(again(channels_unavailable())));
    f.lists = Some(Done::Worked);
    assert_eq!(get_channel_details(Some(ME), CHAN, &f), ViewStep::Reply(id(CHAN)));
    f.encoded = Some(Done::Failed);
    assert_eq!(toggle_channel_mute(Some(ME), CHAN, &muted, &f), not(message(500, "Internal Server Error")));
    f.encoded = Some(Done::Worked);
    assert_eq!(toggle_channel_mute(Some(ME), CHAN, &muted, &f), MuteStep::StoreMutes { user: id(ME), channels: vec![id(OTHER), id(CHAN)] });
    f.stored = Some(Done::Failed);
    assert_eq!(toggle_channel_mute(Some(ME), CHAN, &muted, &f), not(message(500, "Internal Server Error")));
    f.stored = Some(Done::Worked);
    assert_eq!(
        toggle_channel_mute(Some(ME), CHAN, &muted, &f),
        MuteStep::Reply { channel: id(CHAN), is_muted: true, text: "Kanał wyciszony" }
    );
    assert_eq!(
        toggle_channel_mute(Some(ME), CHAN, &vec![id(CHAN)], &f),
        MuteStep::Reply { channel: id(CHAN), is_muted: false, text: "Wyciszenie wyłączone" }
    );
}

#[test]
fn mute_switches_and_says_so() {
    let on = switch_mute(&vec![id(OTHER)], id(CHAN));
    assert_eq!(on.channels, vec![id(OTHER), id(CHAN)]);
    assert!(on.is_muted);
    assert_eq!(on.text, "Kanał wyciszony");
    let off = switch_mute(&on.channels, id(CHAN));
    assert_eq!(off.channels, vec![id(OTHER)]);
    assert!(!off.is_muted);
    assert_eq!(off.text, "Wyciszenie wyłączone");
}

#[test]
fn owner_alone_changes_channel() {
    let no = OwnerStep::Refuse;
    let mut f = OwnerFacts { channel: None, stored: None };
    let slow = SlowmodeBody { rate_limit_per_user: Some(21_600) };
    let lock = ChatLockBody { chat_locked: Some(true) };
    assert_eq!(rename_channel(Some(ME), "x", "nazwa", &f), no(error(404, "Kanał nie istnieje")));
    assert_eq!(rename_channel(Some(ME), CHAN, "nazwa", &f), OwnerStep::Load(id(CHAN)));
    f.channel = Some(Lookup::Missing);
    assert_eq!(update_channel_chat_lock(Some(ME), CHAN, &lock, &f), no(error(404, "Kanał nie istnieje")));
    f.channel = Some(Lookup::Failed);
    assert_eq!(
        update_channel_slowmode(Some(ME), CHAN, &slow, &f),
        no(again(error(503, "Temporarily unavailable")))
    );
    f.channel = Some(Lookup::Found(id(OTHER)));
    assert_eq!(
        rename_channel(Some(ME), CHAN, "nazwa", &f),
        no(error(403, "Tylko administrator może zmienić nazwę kanału"))
    );
    assert_eq!(
        update_channel_slowmode(Some(ME), CHAN, &slow, &f),
        no(error(403, "Tylko administrator może zmienić slowmode kanału."))
    );
    assert_eq!(
        update_channel_chat_lock(Some(ME), CHAN, &lock, &f),
        no(error(403, "Tylko administrator może zablokować lub odblokować czat kanału."))
    );
    f.channel = Some(Lookup::Found(id(ME)));
    assert_eq!(
        update_channel_slowmode(Some(ME), CHAN, &slow, &f),
        OwnerStep::Store { channel: id(CHAN), change: ChannelChange::Slowmode(21_600) }
    );
    assert_eq!(
        update_channel_chat_lock(Some(ME), CHAN, &ChatLockBody { chat_locked: None }, &f),
        OwnerStep::Store { channel: id(CHAN), change: ChannelChange::Lock(false) }
    );
    f.stored = Some(Done::Failed);
    assert_eq!(rename_channel(Some(ME), CHAN, "nazwa", &f), no(again(error(500, "Failed to rename channel"))));
    assert_eq!(
        update_channel_slowmode(Some(ME), CHAN, &slow, &f),
        no(again(error(500, "Failed to update slowmode")))
    );
    assert_eq!(update_channel_chat_lock(Some(ME), CHAN, &lock, &f), no(again(error(500, "Failed to update chat lock"))));
    f.stored = Some(Done::Worked);
    assert_eq!(
        rename_channel(Some(ME), CHAN, "nazwa", &f),
        OwnerStep::TellAndReply {
            channel: id(CHAN),
            change: ChannelChange::Rename("nazwa".to_string()),
            event: "channel-name-updated",
        }
    );
    assert_eq!(
        update_channel_chat_lock(Some(ME), CHAN, &lock, &f),
        OwnerStep::TellAndReply {
            channel: id(CHAN),
            change: ChannelChange::Lock(true),
            event: "channel-chat-locked-updated",
        }
    );
}

#[test]
fn channel_setting_limits() {
    let no = OwnerStep::Refuse;
    let f = OwnerFacts { channel: None, stored: None };
    let bad_name = no(error(400, "Nazwa kanału musi mieć od 3 do 50 znaków"));
    assert_eq!(rename_channel(Some(ME), CHAN, "żó", &f), bad_name);
    assert_eq!(rename_channel(Some(ME), CHAN, "ż".repeat(51).as_str(), &f), bad_name);
    assert_eq!(rename_channel(Some(ME), CHAN, "ż".repeat(50).as_str(), &f), OwnerStep::Load(id(CHAN)));
    assert_eq!(
        update_channel_slowmode(Some(ME), CHAN, &SlowmodeBody { rate_limit_per_user: Some(21_601) }, &f),
        no(error(400, "Slowmode nie może przekraczać 21600 sekund (6 godzin)."))
    );
    assert_eq!(
        update_channel_slowmode(Some(ME), CHAN, &SlowmodeBody { rate_limit_per_user: None }, &f),
        OwnerStep::Load(id(CHAN))
    );
    assert!(lock_asked(&ChatLockBody { chat_locked: Some(true) }));
    assert!(!lock_asked(&ChatLockBody { chat_locked: None }));
}

const NO_AVATAR: AvatarFacts = AvatarFacts {
    channel: None,
    owns_image: false,
    dropped: false,
    magic: None,
    size: None,
    reencoded: None,
    put: None,
    stored: None,
    removed: false,
};

#[test]
fn avatar_removal() {
    let no = AvatarStep::Refuse;
    let step = |f: &AvatarFacts| delete_channel_avatar(Some(ME), CHAN, "old", f);
    assert_eq!(delete_channel_avatar(Some(ME), "", "old", &NO_AVATAR), no(message(404, "Channel not found")));
    assert_eq!(step(&NO_AVATAR), AvatarStep::Load(id(CHAN)));
    assert_eq!(step(&AvatarFacts { channel: Some(Lookup::Missing), ..NO_AVATAR }), no(message(404, "Channel not found")));
    assert_eq!(step(&AvatarFacts { channel: Some(Lookup::Failed), ..NO_AVATAR }), no(message_unavailable()));
    assert_eq!(
        step(&AvatarFacts { channel: Some(Lookup::Found(id(OTHER))), ..NO_AVATAR }),
        no(message(403, "Only admin can delete channel avatar"))
    );
    let mut f = AvatarFacts { channel: Some(Lookup::Found(id(ME))), ..NO_AVATAR };
    assert_eq!(delete_channel_avatar(Some(ME), CHAN, "", &f), AvatarStep::Reply);
    f.owns_image = true;
    assert_eq!(step(&f), AvatarStep::DropOld("old".to_string()));
    f.dropped = true;
    assert_eq!(step(&f), AvatarStep::Store { channel: id(CHAN), image: String::new() });
    f.stored = Some(Done::Failed);
    assert_eq!(step(&f), no(again(message(500, "Failed to delete channel avatar"))));
    f.stored = Some(Done::Worked);
    assert_eq!(step(&f), AvatarStep::TellAndReply {
        channel: id(CHAN),
        image: String::new(),
        event: "channel-avatar-updated",
    });
}

#[test]
fn avatar_storage_follows_channel() {
    let no = AvatarStep::Refuse;
    let pictures = |previous: &str| Pictures {
        file_name: some("A.JPEG"),
        key: "new".to_string(),
        previous: previous.to_string(),
    };
    let shown = || AvatarStep::TellAndReply {
        channel: id(CHAN),
        image: "new".to_string(),
        event: "channel-avatar-updated",
    };
    let step = |f: &AvatarFacts| upload_channel_avatar(Some(ME), CHAN, &pictures("old"), f);
    assert_eq!(
        step(&AvatarFacts { channel: Some(Lookup::Found(id(OTHER))), ..NO_AVATAR }),
        no(message(403, "Only admin can change channel avatar"))
    );
    let mut f = AvatarFacts { channel: Some(Lookup::Found(id(ME))), owns_image: true, ..NO_AVATAR };
    assert_eq!(step(&f), AvatarStep::CheckMagic("jpeg".to_string()));
    assert_eq!(step(&AvatarFacts { magic: Some(false), ..f }), no(message(400, "Invalid file content")));
    f.magic = Some(true);
    assert_eq!(step(&f), AvatarStep::MeasureFile);
    let large = no(message(413, "File too large. Maximum size is 6 MB."));
    assert_eq!(step(&AvatarFacts { size: Some(None), ..f }), large);
    assert_eq!(step(&AvatarFacts { size: Some(Some(false)), ..f }), large);
    f.size = Some(Some(true));
    assert_eq!(step(&f), AvatarStep::Reencode);
    assert_eq!(step(&AvatarFacts { reencoded: Some(Err("zły plik")), ..f }), no(message(400, "zły plik")));
    f.reencoded = Some(Ok(()));
    assert_eq!(step(&f), AvatarStep::Put("new".to_string()));
    assert_eq!(step(&AvatarFacts { put: Some(Done::Failed), ..f }), no(message(500, "Internal Server Error")));
    f.put = Some(Done::Worked);
    assert_eq!(step(&f), AvatarStep::Store { channel: id(CHAN), image: "new".to_string() });
    let g = AvatarFacts { stored: Some(Done::Failed), ..f };
    assert_eq!(step(&g), AvatarStep::RemoveNew("new".to_string()));
    assert_eq!(
        step(&AvatarFacts { removed: true, ..g }),
        no(again(message(500, "Failed to update channel avatar")))
    );
    f.stored = Some(Done::Worked);
    assert_eq!(step(&f), AvatarStep::DropOld("old".to_string()));
    assert_eq!(upload_channel_avatar(Some(ME), CHAN, &pictures("new"), &f), shown());
    f.dropped = true;
    assert_eq!(step(&f), shown());
}

#[test]
fn picture_kinds() {
    assert_eq!(picture_kind(Some("webp")), "webp");
    assert_eq!(picture_kind(Some("gif")), "png");
    assert_eq!(picture_kind(None), "png");
    assert_eq!(avatar_extension(Some("A.JPEG")), "jpeg");
    assert_eq!(avatar_extension(Some("a.svg")), "png");
    assert_eq!(avatar_extension(None), "png");
}

/// What follows where OTHER is gone from a channel of ME and OTHER.
fn gone(removed: bool) -> Departure {
    Departure {
        user: OTHER.to_string(),
        drop_mute: removed,
        drop_read_position: true,
        event: "channel-left",
        unread: 0,
        voice_to: strings(&[ME, OTHER]),
        rest: strings(&[ME]),
        rest_event: "channel-member-left",
        member_count: 1,
    }
}

#[test]
fn nobody_gone_stays() {
    assert_eq!(depart(&strings(&[ME, OTHER]), OTHER, true), gone(true));
    let d = depart(&strings(&[ME]), OTHER, true);
    assert_eq!(d.voice_to, vec![ME, OTHER]);
    assert_eq!(d.rest, vec![ME]);
    assert_eq!(depart(&strings(&[ME]), OTHER, false).voice_to, vec![ME]);
}

#[test]
fn owner_does_not_leave() {
    let no = LeaveStep::Refuse;
    let none = LeaveFacts { channel: None, left: None };
    assert_eq!(leave_channel(Some(ME), "x", &strings(&[ME, OTHER]), &none), no(message(404, "Channel not found")));
    assert_eq!(leave_channel(Some(ME), CHAN, &strings(&[ME, OTHER]), &none), LeaveStep::Load(id(CHAN)));
    let f = LeaveFacts { channel: Some(Lookup::Failed), left: None };
    assert_eq!(leave_channel(Some(ME), CHAN, &strings(&[ME, OTHER]), &f), no(message_unavailable()));
    let f = LeaveFacts { channel: Some(Lookup::Found(id(ME))), left: None };
    assert_eq!(
        leave_channel(Some(ME), CHAN, &strings(&[ME, OTHER]), &f),
        no(message(403, "Admin cannot leave channel. Delete instead."))
    );
    assert_eq!(leave_channel(Some("me"), CHAN, &strings(&[ME, OTHER]), &f), no(message(400, "Invalid user")));
    assert_eq!(leave_channel(Some(OTHER), CHAN, &strings(&[ME, OTHER]), &f), LeaveStep::Pull { channel: id(CHAN), user: id(OTHER) });
    let left = |w| LeaveFacts { channel: Some(Lookup::Found(id(ME))), left: Some(w) };
    assert_eq!(leave_channel(Some(OTHER), CHAN, &strings(&[ME, OTHER]), &left(Wrote::Unchanged)), no(message(404, "Channel not found")));
    assert_eq!(
        leave_channel(Some(OTHER), CHAN, &strings(&[ME, OTHER]), &left(Wrote::Failed)),
        no(again(message(500, "Failed to leave channel")))
    );
    assert_eq!(leave_channel(Some(OTHER), CHAN, &strings(&[ME, OTHER]), &left(Wrote::Changed)), LeaveStep::TellAndReply { channel: id(CHAN), after: gone(false) });
}

fn arrived(with_item: bool) -> Arrival {
    Arrival {
        channel: id(CHAN),
        user: OTHER.to_string(),
        event: "channel-added",
        with_item,
        rest: strings(&[ME, THIRD]),
        rest_event: "channel-member-joined",
        member_count: 3,
        forget_typing: true,
    }
}

#[test]
fn everybody_hears_of_an_arrival() {
    assert_eq!(arrive(id(CHAN), &strings(&[ME, OTHER, THIRD]), OTHER, true), arrived(true));
    assert_eq!(arrive(id(CHAN), &strings(&[OTHER]), OTHER, false).rest, strings(&[]));
}

#[test]
fn user_is_added_by_owner_among_friends() {
    let no = AddStep::Refuse;
    let body = AddUserBody { user_id_to_add: some(OTHER) };
    let none = AddFacts { channel: None, banned: false, friends: None, seeded: None, added: None, reloaded: None };
    let members = vec![id(THIRD)];
    let people = strings(&[ME, THIRD, OTHER]);
    let step = |f: &AddFacts| add_user_to_channel(Some(ME), CHAN, &body, &members, &people, f);
    assert_eq!(add_user_to_channel(Some(ME), "x", &body, &members, &people, &none), no(message(404, "Channel not found")));
    assert_eq!(step(&none), AddStep::Load(id(CHAN)));
    assert_eq!(step(&AddFacts { channel: Some(Lookup::Missing), ..none }), no(message(404, "Channel not found")));
    assert_eq!(step(&AddFacts { channel: Some(Lookup::Failed), ..none }), no(message_unavailable()));
    assert_eq!(
        step(&AddFacts { channel: Some(Lookup::Found(id(OTHER))), ..none }),
        no(message(403, "Only admin can add users"))
    );
    let mut f = AddFacts { channel: Some(Lookup::Found(id(ME))), ..none };
    let third = AddUserBody { user_id_to_add: some(THIRD) };
    assert_eq!(
        add_user_to_channel(Some(ME), CHAN, &third, &members, &people, &f),
        no(message(400, "User is already a member"))
    );
    assert_eq!(
        step(&AddFacts { banned: true, ..f }),
        no(message(403, "User is banned from this channel. Unban them before adding again."))
    );
    assert_eq!(step(&f), AddStep::AskFriends);
    assert_eq!(
        step(&AddFacts { friends: Some(Answer::No), ..f }),
        no(message(403, "Możesz dodawać do kanału tylko swoich znajomych."))
    );
    assert_eq!(step(&AddFacts { friends: Some(Answer::Failed), ..f }), no(message_unavailable()));
    f.friends = Some(Answer::Yes);
    let odd = AddUserBody { user_id_to_add: None };
    assert_eq!(
        add_user_to_channel(Some(ME), CHAN, &odd, &members, &people, &f),
        no(message(500, "Internal Server Error"))
    );
    assert_eq!(step(&f), AddStep::Seed { channel: id(CHAN), user: id(OTHER) });
    assert_eq!(step(&AddFacts { seeded: Some(Done::Failed), ..f }), no(message_unavailable()));
    f.seeded = Some(Done::Worked);
    assert_eq!(step(&f), AddStep::Add { channel: id(CHAN), user: id(OTHER) });
    assert_eq!(
        step(&AddFacts { added: Some(Done::Failed), ..f }),
        no(again(message(500, "Failed to add member")))
    );
    f.added = Some(Done::Worked);
    assert_eq!(step(&f), AddStep::Reload(id(CHAN)));
    assert_eq!(step(&AddFacts { reloaded: Some(Lookup::Missing), ..f }), no(message_unavailable()));
    f.reloaded = Some(Lookup::Found(true));
    assert_eq!(step(&f), AddStep::TellAndReply {
        after: arrived(true),
        reply: "User added to channel",
    });
    f.reloaded = Some(Lookup::Found(false));
    assert_eq!(step(&f), AddStep::TellAndReply {
        after: arrived(false),
        reply: "User added to channel",
    });
    let me = AddUserBody { user_id_to_add: some(ME) };
    let own = AddFacts { channel: Some(Lookup::Found(id(ME))), ..none };
    assert_eq!(
        add_user_to_channel(Some(ME), CHAN, &me, &members, &people, &own),
        AddStep::Seed { channel: id(CHAN), user: id(ME) }
    );
}

fn held(message: Option<&str>, url: Option<&str>) -> ChannelMessage {
    ChannelMessage { id: message.map(id), file_url: url.map(|u| u.to_string()) }
}

#[test]
fn deletion_empties_messages() {
    let patch = deletion();
    assert!(patch.deleted);
    assert_eq!(patch.search_text, "");
    assert_eq!(patch.search_tokens, 0);
    let v = vec![held(Some(MSG), None), held(None, Some("u")), held(Some(ME), Some("v"))];
    assert_eq!(message_ids(&v), vec![id(MSG), id(ME)]);
    assert_eq!(message_urls(&v, &vec![held(None, Some("w"))]), vec!["u", "v", "w"]);
}

#[test]
fn channel_goes_after_its_messages() {
    let no = DeleteStep::Refuse;
    let mut f = DeleteFacts {
        channel: None,
        first: None,
        first_deleted: None,
        late: None,
        late_deleted: None,
        attachments_dropped: false,
        positions_dropped: false,
        deleted: None,
    };
    let to = strings(&[ME, OTHER]);
    let early = vec![held(Some(MSG), Some("a")), held(None, Some("b"))];
    let late = vec![held(Some(THIRD), Some("c"))];
    let step = |f: &DeleteFacts| delete_channel(Some(ME), CHAN, &to, &early, &late, f);
    let broke = no(again(message(503, "Failed to delete channel")));
    let failed = no(again(message(500, "Failed to delete channel")));
    assert_eq!(delete_channel(Some(ME), "x", &to, &early, &late, &f), no(message(404, "Channel not found")));
    assert_eq!(step(&f), DeleteStep::Load(id(CHAN)));
    assert_eq!(step(&DeleteFacts { channel: Some(Lookup::Missing), ..f }), no(message(404, "Channel not found")));
    assert_eq!(step(&DeleteFacts { channel: Some(Lookup::Failed), ..f }), no(message_unavailable()));
    assert_eq!(
        step(&DeleteFacts { channel: Some(Lookup::Found(id(OTHER))), ..f }),
        no(message(403, "Only admin can delete channel"))
    );
    f.channel = Some(Lookup::Found(id(ME)));
    assert_eq!(step(&f), DeleteStep::Collect(id(CHAN)));
    assert_eq!(step(&DeleteFacts { first: Some(Scan::BrokeOff), ..f }), broke);
    assert_eq!(step(&DeleteFacts { first: Some(Scan::Failed), ..f }), failed);
    f.first = Some(Scan::Read);
    assert_eq!(step(&f), DeleteStep::DeleteMessages { ids: vec![id(MSG)], patch: deletion() });
    assert_eq!(step(&DeleteFacts { first_deleted: Some(Done::Failed), ..f }), broke);
    f.first_deleted = Some(Done::Worked);
    assert_eq!(step(&f), DeleteStep::CollectLate(id(CHAN)));
    assert_eq!(step(&DeleteFacts { late: Some(Scan::BrokeOff), ..f }), broke);
    assert_eq!(step(&DeleteFacts { late: Some(Scan::Failed), ..f }), failed);
    f.late = Some(Scan::Read);
    assert_eq!(step(&f), DeleteStep::DeleteLateMessages { ids: vec![id(THIRD)], patch: deletion() });
    assert_eq!(step(&DeleteFacts { late_deleted: Some(Done::Failed), ..f }), broke);
    assert_eq!(
        delete_channel(Some(ME), CHAN, &to, &early, &vec![], &f),
        DeleteStep::DropAttachments(strings(&["a", "b"]))
    );
    f.late_deleted = Some(Done::Worked);
    assert_eq!(step(&f), DeleteStep::DropAttachments(strings(&["a", "b", "c"])));
    f.attachments_dropped = true;
    assert_eq!(step(&f), DeleteStep::DropReadPositions(id(CHAN)));
    f.positions_dropped = true;
    assert_eq!(step(&f), DeleteStep::DeleteChannel(id(CHAN)));
    assert_eq!(step(&DeleteFacts { deleted: Some(Wrote::Unchanged), ..f }), no(message(404, "Channel not found")));
    assert_eq!(step(&DeleteFacts { deleted: Some(Wrote::Failed), ..f }), failed);
    assert_eq!(
        step(&DeleteFacts { deleted: Some(Wrote::Changed), ..f }),
        DeleteStep::TellAndReply {
            channel: id(CHAN),
            to: strings(&[ME, OTHER]),
            unread: 0,
            voice_event: "channel-voice:state",
            event: "channel-deleted",
            reply: "Channel deleted",
        }
    );
}

const NO_MODERATION: ModerationFacts =
    ModerationFacts { channel: None, written: None, pulled: None, undo_tries: 0, undone: false, lists: None };

fn about(user: &str) -> TargetUserBody {
    TargetUserBody { user_id: some(user), duration_seconds: None }
}

fn moderated(by_owner: bool, target_is_member: bool) -> Option<Lookup<Moderated>> {
    Some(Lookup::Found(Moderated { admin: id(ME), by_owner, target_is_member }))
}

#[test]
fn moderation_gate_refusals() {
    let no = ModerationStep::Refuse;
    let nobody = TargetUserBody { user_id: None, duration_seconds: None };
    assert_eq!(
        kick_channel_member(&nobody, CHAN, &strings(&[ME, OTHER]), &NO_MODERATION),
        no(message(400, "Brak identyfikatora użytkownika"))
    );
    assert_eq!(
        ban_channel_member(&about("x"), CHAN, &strings(&[ME, OTHER]), &NO_MODERATION),
        no(message(400, "Nieprawidłowy identyfikator użytkownika"))
    );
    assert_eq!(unban_channel_member(&about(OTHER), "x", &NO_MODERATION), no(message(404, "Kanał nie znaleziony")));
    assert_eq!(mute_channel_member(&about(OTHER), CHAN, &NO_MODERATION), ModerationStep::Load(id(CHAN)));
    let f = ModerationFacts { channel: Some(Lookup::Missing), ..NO_MODERATION };
    assert_eq!(unmute_channel_member(&about(OTHER), CHAN, &f), no(message(404, "Kanał nie znaleziony")));
    let f = ModerationFacts { channel: Some(Lookup::Failed), ..NO_MODERATION };
    assert_eq!(kick_channel_member(&about(OTHER), CHAN, &strings(&[ME, OTHER]), &f), no(message_unavailable()));
}

#[test]
fn owner_moderates_and_is_not_moderated() {
    let no = ModerationStep::Refuse;
    let other = ModerationFacts { channel: moderated(false, true), ..NO_MODERATION };
    assert_eq!(
        kick_channel_member(&about(OTHER), CHAN, &strings(&[ME, OTHER]), &other),
        no(message(403, "Tylko twórca kanału może wyrzucać członków"))
    );
    assert_eq!(
        ban_channel_member(&about(OTHER), CHAN, &strings(&[ME, OTHER]), &other),
        no(message(403, "Tylko twórca kanału może banować"))
    );
    assert_eq!(
        unban_channel_member(&about(OTHER), CHAN, &other),
        no(message(403, "Tylko twórca kanału może odbanować"))
    );
    assert_eq!(
        mute_channel_member(&about(OTHER), CHAN, &other),
        no(message(403, "Tylko twórca kanału może wyciszać członków"))
    );
    assert_eq!(
        unmute_channel_member(&about(OTHER), CHAN, &other),
        no(message(403, "Tylko twórca kanału może cofnąć wyciszenie"))
    );
    let own = ModerationFacts { channel: moderated(true, true), ..NO_MODERATION };
    assert_eq!(
        kick_channel_member(&about(ME), CHAN, &strings(&[ME, OTHER]), &own),
        no(message(400, "Nie można wyrzucić twórcy kanału"))
    );
    assert_eq!(
        ban_channel_member(&about(ME), CHAN, &strings(&[ME, OTHER]), &own),
        no(message(400, "Nie można zbanować twórcy kanału"))
    );
    assert_eq!(
        mute_channel_member(&about(ME), CHAN, &own),
        no(message(400, "Nie można wyciszyć twórcy kanału"))
    );
    let pair = (id(CHAN), id(ME));
    assert_eq!(
        unban_channel_member(&about(ME), CHAN, &own),
        ModerationStep::Unban { channel: pair.0, user: pair.1 }
    );
    assert_eq!(
        unmute_channel_member(&about(ME), CHAN, &own),
        ModerationStep::Unmute { channel: pair.0, user: pair.1 }
    );
}

#[test]
fn kick_steps() {
    let own = ModerationFacts { channel: moderated(true, true), ..NO_MODERATION };
    let (channel, user) = (id(CHAN), id(OTHER));
    assert_eq!(kick_channel_member(&about(OTHER), CHAN, &strings(&[ME, OTHER]), &own), ModerationStep::Pull { channel, user });
    let f = ModerationFacts { pulled: Some(Done::Failed), ..own };
    assert_eq!(
        kick_channel_member(&about(OTHER), CHAN, &strings(&[ME, OTHER]), &f),
        ModerationStep::Refuse(again(message(500, "Failed to kick member")))
    );
    let f = ModerationFacts { pulled: Some(Done::Worked), ..own };
    assert_eq!(kick_channel_member(&about(OTHER), CHAN, &strings(&[ME, OTHER]), &f), ModerationStep::TellAndReply { channel, user, after: Aftermath::Departed(gone(true)) });
}

#[test]
fn ban_comes_before_removal() {
    let (channel, user) = (id(CHAN), id(OTHER));
    let failed = ModerationStep::Refuse(again(message(500, "Failed to ban member")));
    let step = |f: &ModerationFacts| ban_channel_member(&about(OTHER), CHAN, &strings(&[ME, OTHER]), f);
    let mut f = ModerationFacts { channel: moderated(true, false), ..NO_MODERATION };
    assert_eq!(step(&f), ModerationStep::Ban { channel, user, seconds: None });
    let asked = |d| TargetUserBody { user_id: some(OTHER), duration_seconds: Some(d) };
    assert_eq!(
        ban_channel_member(&asked(90), CHAN, &strings(&[ME, OTHER]), &f),
        ModerationStep::Ban { channel, user, seconds: Some(90) }
    );
    assert_eq!(
        ban_channel_member(&asked(0), CHAN, &strings(&[ME, OTHER]), &f),
        ModerationStep::Ban { channel, user, seconds: None }
    );
    assert_eq!(step(&ModerationFacts { written: Some(Done::Failed), ..f }), failed);
    f.written = Some(Done::Worked);
    assert_eq!(step(&f), ModerationStep::Pull { channel, user });
    let g = ModerationFacts { pulled: Some(Done::Failed), ..f };
    assert_eq!(step(&g), ModerationStep::UndoBan { channel, user });
    assert_eq!(step(&ModerationFacts { undo_tries: 2, ..g }), ModerationStep::UndoBan { channel, user });
    assert_eq!(step(&ModerationFacts { undo_tries: 3, ..g }), failed);
    assert_eq!(step(&ModerationFacts { undone: true, ..g }), failed);
    f.pulled = Some(Done::Worked);
    assert_eq!(
        step(&f),
        ModerationStep::TellAndLoadLists { channel, user, after: Aftermath::Departed(gone(true)) }
    );
    assert_eq!(
        step(&ModerationFacts { lists: Some(Done::Failed), ..f }),
        ModerationStep::Refuse(again(channels_unavailable()))
    );
    assert_eq!(step(&ModerationFacts { lists: Some(Done::Worked), ..f }), ModerationStep::Reply);
}

#[test]
fn mute_and_unban_steps() {
    let (channel, user) = (id(CHAN), id(OTHER));
    let no = ModerationStep::Refuse;
    let outside = ModerationFacts { channel: moderated(true, false), ..NO_MODERATION };
    assert_eq!(
        mute_channel_member(&about(OTHER), CHAN, &outside),
        no(message(400, "Użytkownik nie jest na kanale"))
    );
    let f = ModerationFacts { channel: moderated(true, true), ..NO_MODERATION };
    assert_eq!(mute_channel_member(&about(OTHER), CHAN, &f), ModerationStep::Mute { channel, user, seconds: None });
    let asked = |d| TargetUserBody { user_id: some(OTHER), duration_seconds: Some(d) };
    assert_eq!(
        mute_channel_member(&asked(60), CHAN, &f),
        ModerationStep::Mute { channel, user, seconds: Some(60) }
    );
    assert_eq!(
        mute_channel_member(&asked(0), CHAN, &f),
        ModerationStep::Mute { channel, user, seconds: None }
    );
    let g = ModerationFacts { written: Some(Done::Failed), ..f };
    assert_eq!(mute_channel_member(&about(OTHER), CHAN, &g), no(again(message(500, "Failed to mute member"))));
    assert_eq!(unban_channel_member(&about(OTHER), CHAN, &g), no(again(message(500, "Failed to unban member"))));
    assert_eq!(unmute_channel_member(&about(OTHER), CHAN, &g), no(again(message(500, "Failed to unmute member"))));
    let g = ModerationFacts { written: Some(Done::Worked), ..f };
    let news = |muted, seconds| Aftermath::MuteChanged {
        event: "channel-moderation-updated",
        muted,
        seconds,
        lift_ban: muted,
    };
    assert_eq!(
        mute_channel_member(&asked(60), CHAN, &g),
        ModerationStep::TellAndLoadLists { channel, user, after: news(true, Some(60)) }
    );
    assert_eq!(
        unmute_channel_member(&asked(60), CHAN, &g),
        ModerationStep::TellAndLoadLists { channel, user, after: news(false, None) }
    );
    let h = ModerationFacts { lists: Some(Done::Failed), ..g };
    assert_eq!(unban_channel_member(&about(OTHER), CHAN, &h), no(again(channels_unavailable())));
    let h = ModerationFacts { lists: Some(Done::Worked), ..g };
    assert_eq!(unmute_channel_member(&about(OTHER), CHAN, &h), ModerationStep::Reply);
}

#[test]
fn channel_reports() {
    let no = ReportStep::Refuse;
    let body = |r: &str| ReportBody { reason: some(r), details: some(" x ") };
    let mut f = ReportFacts { channel: None, user: None, stored: None };
    assert_eq!(
        report_reasons(),
        vec![
            "Spam lub reklamy",
            "Treści obraźliwe",
            "Nękanie lub bullying",
            "Nielegalne treści",
            "Podszywanie się",
            "Inne"
        ]
    );
    assert_eq!(report_channel(Some(ME), CHAN, &body(" "), &f), no(message(400, "Podaj powód zgłoszenia")));
    assert_eq!(
        report_channel(Some(ME), CHAN, &body("inne"), &f),
        ReportStep::RefuseReason(message(400, "Nieprawidłowy powód zgłoszenia"))
    );
    let step = |f: &ReportFacts| report_channel(Some(ME), CHAN, &body(" Inne "), f);
    assert_eq!(report_channel(Some(ME), "x", &body("Inne"), &f), no(message(404, "Kanał nie znaleziony")));
    assert_eq!(step(&f), ReportStep::Load(id(CHAN)));
    assert_eq!(step(&ReportFacts { channel: Some(Lookup::Missing), ..f }), no(message(404, "Kanał nie znaleziony")));
    assert_eq!(step(&ReportFacts { channel: Some(Lookup::Failed), ..f }), no(message_unavailable()));
    assert_eq!(
        step(&ReportFacts { channel: Some(Lookup::Found(false)), ..f }),
        no(message(403, "Musisz być na kanale, aby go zgłosić"))
    );
    f.channel = Some(Lookup::Found(true));
    assert_eq!(report_channel(None, CHAN, &body("Inne"), &f), no(message(404, "Użytkownik nie znaleziony")));
    assert_eq!(step(&f), ReportStep::LoadUser(id(ME)));
    assert_eq!(step(&ReportFacts { user: Some(Lookup::Missing), ..f }), no(message(404, "Użytkownik nie znaleziony")));
    assert_eq!(step(&ReportFacts { user: Some(Lookup::Failed), ..f }), no(message_unavailable()));
    f.user = Some(Lookup::Found(()));
    assert_eq!(
        step(&f),
        ReportStep::Store { channel: id(CHAN), user: id(ME), reason: "Inne".to_string(), details: some("x") }
    );
    assert_eq!(step(&ReportFacts { stored: Some(Done::Failed), ..f }), no(message(500, "Internal Server Error")));
    assert_eq!(step(&ReportFacts { stored: Some(Done::Worked), ..f }), ReportStep::Reply);
    assert_eq!(report_reason(&body(" Inne ")), "Inne");
    assert_eq!(report_details(&body("Inne")), some("x"));
    assert_eq!(report_details(&ReportBody { reason: None, details: some("  ") }), None);
    let long = ReportBody { reason: None, details: Some("ż".repeat(1001)) };
    assert_eq!(report_details(&long), Some("ż".repeat(1000)));
}
