//! Channels of the compact service, and their bots.

use klovy_chat_server::controllers::channel_controller::{
    add_bot_to_channel, add_user_to_channel, ban_channel_member, channel_name, create_channel, delete_channel,
    delete_channel_avatar, get_channel_details, get_channel_messages, show_channel_page, get_installable_bots, get_user_channels,
    installable_bots, kick_channel_member, leave_channel, members_without, mute_channel_member,
    remove_bot_from_channel, rename_channel, report_channel, toggle_channel_mute, unban_channel_member,
    unmute_channel_member, update_channel_chat_lock, update_channel_slowmode, upload_channel_avatar, AddBotBody,
    AddFacts, AddStep, AddUserBody, BotFacts, ChatLockBody, BotStep, ChannelPageStep, ChannelsStep, CreateChannelBody,
    CreateFacts, CreateStep, KickStep, LeaveStep, RenameBody, ReportBody, SlowmodeBody, TargetUserBody,
};
use klovy_chat_server::controllers::channels::{
    no_channel_access, Aftermath, Pictures, AvatarFacts, ChannelChange, MuteStep, AvatarStep, ChannelPageFacts, Moderated, ModerationFacts, ModerationStep,
    ListedChannel, OwnChannel, OwnerFacts, OwnerStep, ReportFacts, ReportStep, ViewFacts, ViewStep,
};
use klovy_chat_server::ids::Oid;
use klovy_chat_server::reply::{error, message, Access, Done, Lookup};

const ME: &str = "0000000000000000000000a1";
const OTHER: &str = "0000000000000000000000b2";
const THIRD: &str = "0000000000000000000000c3";
const BOT: &str = "0000000000000000000000d4";
const CHAN: &str = "0000000000000000000000e5";

fn id(s: &str) -> Oid {
    match Oid::parse(s) {
        Some(o) => o,
        None => panic!("not an identifier"),
    }
}

fn some(s: &str) -> Option<String> {
    Some(s.to_string())
}

#[test]
fn compact_channel_is_created_with_friends_only() {
    let no = CreateStep::Refuse;
    let body = CreateChannelBody { name: None, members: Some(vec![OTHER.to_string(), THIRD.to_string()]) };
    let members = vec![id(OTHER), id(THIRD)];
    let mut f = CreateFacts { user: None, members: None, created: None };
    let step = |friends: &Vec<bool>, f: &CreateFacts| create_channel(Some(ME), &body, &members, friends, &members, f);
    assert_eq!(create_channel(None, &body, &members, &vec![], &members, &f), no(message(400, "Admin user not found.")));
    assert_eq!(step(&vec![], &f), CreateStep::LoadUser(id(ME)));
    f.user = Some(Lookup::Failed);
    assert_eq!(step(&vec![], &f), no(message(400, "Admin user not found.")));
    f.user = Some(Lookup::Found(()));
    assert_eq!(step(&vec![], &f), CreateStep::FindMembers(vec![id(OTHER), id(THIRD)]));
    f.members = Some(Lookup::Failed);
    assert_eq!(step(&vec![], &f), no(message(500, "Internal Server Error")));
    f.members = Some(Lookup::Found(1));
    assert_eq!(step(&vec![], &f), no(message(400, "Some members are not valid users.")));
    f.members = Some(Lookup::Found(2));
    assert_eq!(step(&vec![], &f), CreateStep::AskFriend(0));
    assert_eq!(step(&vec![true], &f), CreateStep::AskFriend(1));
    assert_eq!(step(&vec![false], &f), no(message(403, "Możesz dodawać do kanału tylko swoich znajomych.")));
    assert_eq!(
        step(&vec![true, true], &f),
        CreateStep::Create { owner: id(ME), name: String::new(), members: vec![id(OTHER), id(THIRD)] }
    );
    let own = vec![id(ME), id(THIRD)];
    assert_eq!(create_channel(Some(ME), &body, &own, &vec![], &members, &f), CreateStep::AskFriend(1));
    f.created = Some(Lookup::Failed);
    assert_eq!(step(&vec![true, true], &f), no(message(500, "Internal Server Error")));
    f.created = Some(Lookup::Found(true));
    assert_eq!(
        step(&vec![true, true], &f),
        CreateStep::TellAndReply { to: vec![id(OTHER), id(THIRD)], event: "channel-added" }
    );
}

#[test]
fn compact_channel_reading() {
    let own = vec![OwnChannel { id: Some(id(CHAN)), owner: id(ME), updated: 7, unread: None, last: None }];
    let entry = |muted: bool| ListedChannel { place: 0, unread: 0, last: None, muted };
    assert_eq!(
        get_user_channels(Some("x"), &own, &None, None),
        ChannelsStep::Refuse(message(500, "Internal Server Error"))
    );
    assert_eq!(get_user_channels(Some(ME), &own, &None, None), ChannelsStep::FindChannels(id(ME)));
    assert_eq!(
        get_user_channels(Some(ME), &own, &None, Some(Done::Failed)),
        ChannelsStep::Refuse(message(500, "Internal Server Error"))
    );
    assert_eq!(get_user_channels(Some(ME), &own, &None, Some(Done::Worked)), ChannelsStep::Reply(vec![entry(false)]));
    assert_eq!(
        get_user_channels(Some(ME), &own, &Some(vec![id(CHAN)]), Some(Done::Worked)),
        ChannelsStep::Reply(vec![entry(true)])
    );
    let no = ChannelPageStep::Refuse;
    let mut f = ChannelPageFacts { access: None, page: None };
    assert_eq!(show_channel_page(None, None, &f), ChannelPageStep::CheckAccess);
    f.access = Some(Access::Unavailable("a"));
    assert_eq!(show_channel_page(None, None, &f), no(message(404, "a")));
    f.access = Some(Access::Denied("b"));
    assert_eq!(show_channel_page(None, None, &f), no(message(404, "b")));
    f.access = Some(Access::Granted);
    assert_eq!(show_channel_page(None, Some("x"), &f), no(message(400, "Invalid cursor")));
    assert_eq!(
        show_channel_page(Some("5"), Some(BOT), &f),
        ChannelPageStep::Find { before: Some(id(BOT)), fetch: 6 }
    );
    assert_eq!(
        get_channel_messages(format!("limit=5&before={BOT}").as_str(), &f),
        ChannelPageStep::Find { before: Some(id(BOT)), fetch: 6 }
    );
    assert_eq!(get_channel_messages("before=%78", &f), no(message(400, "Invalid cursor")));
    f.page = Some(Done::Failed);
    assert_eq!(show_channel_page(None, None, &f), no(message(500, "Internal Server Error")));
    f.page = Some(Done::Worked);
    assert_eq!(show_channel_page(None, None, &f), ChannelPageStep::Page { limit: 30 });
    assert_eq!(get_channel_details("x", None), ViewStep::Refuse(no_channel_access()));
    assert_eq!(get_channel_details(CHAN, None), ViewStep::LoadChannel(id(CHAN)));
    assert_eq!(get_channel_details(CHAN, Some(Lookup::Found(false))), ViewStep::Refuse(no_channel_access()));
    assert_eq!(get_channel_details(CHAN, Some(Lookup::Found(true))), ViewStep::Reply(id(CHAN)));
}

#[test]
fn compact_channel_settings() {
    let no = OwnerStep::Refuse;
    let name = RenameBody { name: some("  abc ") };
    assert_eq!(channel_name(&name), "abc");
    let f = OwnerFacts { channel: Some(Lookup::Failed), stored: None };
    assert_eq!(rename_channel(Some(ME), CHAN, &name, &f), no(error(404, "Kanał nie istnieje")));
    assert_eq!(
        rename_channel(Some(ME), CHAN, &RenameBody { name: some("ab  ") }, &f),
        no(error(400, "Nazwa kanału musi mieć od 3 do 50 znaków"))
    );
    let f = OwnerFacts { channel: Some(Lookup::Found(id(ME))), stored: Some(Done::Failed) };
    let told = |change, event| OwnerStep::TellAndReply { channel: id(CHAN), change, event };
    assert_eq!(
        rename_channel(Some(ME), CHAN, &name, &f),
        told(ChannelChange::Rename("abc".to_string()), "channel-name-updated")
    );
    let lock = ChatLockBody { chat_locked: Some(true) };
    assert_eq!(
        update_channel_chat_lock(Some(ME), CHAN, &lock, &f),
        told(ChannelChange::Lock(true), "channel-chat-locked-updated")
    );
    assert_eq!(
        update_channel_chat_lock(Some(OTHER), CHAN, &lock, &f),
        no(error(403, "Tylko administrator może zablokować lub odblokować czat kanału."))
    );
    let slow = SlowmodeBody { rate_limit_per_user: Some(21_601) };
    assert_eq!(
        update_channel_slowmode(Some(ME), CHAN, &slow, &f),
        no(error(400, "Slowmode nie może przekraczać 21600 sekund (6 godzin)."))
    );
    assert_eq!(
        update_channel_slowmode(Some(OTHER), CHAN, &SlowmodeBody { rate_limit_per_user: None }, &f),
        no(error(403, "Tylko administrator może zmienić slowmode kanału."))
    );
    let none = OwnerFacts { channel: None, stored: None };
    assert_eq!(delete_channel(Some(ME), "x", &none), no(message(404, "Channel not found")));
    assert_eq!(delete_channel(Some(ME), CHAN, &none), OwnerStep::Load(id(CHAN)));
    assert_eq!(delete_channel(Some(OTHER), CHAN, &f), no(message(403, "Only admin can delete channel")));
    assert_eq!(delete_channel(Some(ME), CHAN, &f), told(ChannelChange::Delete, "channel-deleted"));
}

#[test]
fn compact_avatars() {
    let pictures = Pictures { file_name: None, key: "new".to_string(), previous: "old".to_string() };
    let shown = |image: &str| AvatarStep::TellAndReply {
        channel: id(CHAN),
        image: image.to_string(),
        event: "channel-avatar-updated",
    };
    let f = AvatarFacts {
        channel: Some(Lookup::Found(id(ME))),
        owns_image: false,
        dropped: false,
        magic: Some(true),
        size: Some(Some(false)),
        reencoded: Some(Ok(())),
        put: Some(Done::Worked),
        stored: Some(Done::Failed),
        removed: false,
    };
    assert_eq!(
        upload_channel_avatar(Some(ME), CHAN, &pictures, &f),
        AvatarStep::Refuse(message(413, "File too large. Maximum size is 5 MB."))
    );
    let f = AvatarFacts { size: Some(Some(true)), ..f };
    assert_eq!(upload_channel_avatar(Some(ME), CHAN, &pictures, &f), shown("new"));
    assert_eq!(delete_channel_avatar(Some(ME), CHAN, "old", &f), shown(""));
    let f = AvatarFacts { channel: Some(Lookup::Failed), ..f };
    assert_eq!(
        delete_channel_avatar(Some(ME), CHAN, "old", &f),
        AvatarStep::Refuse(message(404, "Channel not found"))
    );
}

#[test]
fn compact_members_come_and_go() {
    let left = |user: Option<Oid>, to: &str| LeaveStep::LeaveAndReply {
        channel: id(CHAN),
        user,
        to: to.to_string(),
        event: "channel-left",
        reply: "Left channel",
    };
    let no = LeaveStep::Refuse;
    assert_eq!(leave_channel(Some(ME), "x", None), no(message(404, "Channel not found")));
    assert_eq!(leave_channel(Some(ME), CHAN, None), LeaveStep::Load(id(CHAN)));
    assert_eq!(leave_channel(Some(ME), CHAN, Some(Lookup::Failed)), no(message(404, "Channel not found")));
    let own = Some(Lookup::Found(id(ME)));
    assert_eq!(
        leave_channel(Some(ME), CHAN, own),
        no(message(403, "Admin cannot leave channel. Delete instead."))
    );
    assert_eq!(
        leave_channel(Some(OTHER), CHAN, own),
        left(Some(id(OTHER)), OTHER)
    );
    assert_eq!(leave_channel(None, CHAN, own), left(None, ""));
    let no = AddStep::Refuse;
    let body = AddUserBody { user_id_to_add: some(OTHER) };
    let mut f = AddFacts { channel: None, banned: false, friends: None };
    let step = |f: &AddFacts| add_user_to_channel(Some(ME), CHAN, &body, &vec![id(THIRD)], f);
    assert_eq!(step(&f), AddStep::Load(id(CHAN)));
    f.channel = Some(Lookup::Failed);
    assert_eq!(step(&f), no(message(404, "Channel not found")));
    f.channel = Some(Lookup::Found(id(OTHER)));
    assert_eq!(step(&f), no(message(403, "Only admin can add users")));
    f.channel = Some(Lookup::Found(id(ME)));
    f.banned = true;
    assert_eq!(
        step(&f),
        no(message(403, "User is banned from this channel. Unban them before adding again."))
    );
    f.banned = false;
    assert_eq!(step(&f), AddStep::AskFriends);
    f.friends = Some(false);
    assert_eq!(step(&f), no(message(403, "Możesz dodawać do kanału tylko swoich znajomych.")));
    f.friends = Some(true);
    assert_eq!(step(&f), AddStep::AddAndReply {
        channel: id(CHAN),
        user: id(OTHER),
        to: OTHER.to_string(),
        event: "channel-added",
        reply: "User added to channel",
    });
    let there = AddUserBody { user_id_to_add: some(THIRD) };
    assert_eq!(
        add_user_to_channel(Some(ME), CHAN, &there, &vec![id(THIRD)], &f),
        no(message(400, "User is already a member"))
    );
    let odd = AddUserBody { user_id_to_add: some("x") };
    assert_eq!(
        add_user_to_channel(Some(ME), CHAN, &odd, &vec![], &f),
        no(message(500, "Internal Server Error"))
    );
    assert_eq!(members_without(&vec![id(ME), id(OTHER)], id(ME)), vec![id(OTHER)]);
}

#[test]
fn bot_joins_its_owners_channel() {
    let no = BotStep::Refuse;
    let none = BotFacts { channel: None, bot: None, bots: None };
    let own = BotFacts { channel: Some(Lookup::Found(id(ME))), ..none };
    let body = AddBotBody { bot_id: some(BOT) };
    let bots = vec![Some(id(BOT)), None, Some(id(OTHER))];
    let step = |f: &BotFacts| add_bot_to_channel(Some(ME), CHAN, &body, &vec![id(OTHER)], f);
    assert_eq!(add_bot_to_channel(Some(ME), "x", &body, &vec![], &none), no(message(404, "Channel not found")));
    assert_eq!(add_bot_to_channel(None, CHAN, &body, &vec![], &none), no(message(401, "Unauthorized")));
    assert_eq!(
        add_bot_to_channel(Some(ME), CHAN, &AddBotBody { bot_id: None }, &vec![], &none),
        no(message(400, "Nieprawidłowy identyfikator bota."))
    );
    assert_eq!(step(&none), BotStep::Load(id(CHAN)));
    assert_eq!(step(&BotFacts { channel: Some(Lookup::Failed), ..none }), no(message(404, "Channel not found")));
    let other = BotFacts { channel: Some(Lookup::Found(id(OTHER))), ..none };
    assert_eq!(step(&other), no(message(403, "Tylko administrator kanału może dodawać boty.")));
    assert_eq!(step(&own), BotStep::LoadBot(id(BOT)));
    assert_eq!(step(&BotFacts { bot: Some(Lookup::Failed), ..own }), no(message(500, "Internal Server Error")));
    let foreign = no(message(403, "Możesz dodać tylko własnego bota."));
    assert_eq!(step(&BotFacts { bot: Some(Lookup::Missing), ..own }), foreign);
    assert_eq!(step(&BotFacts { bot: Some(Lookup::Found(None)), ..own }), foreign);
    assert_eq!(step(&BotFacts { bot: Some(Lookup::Found(Some(id(OTHER)))), ..own }), foreign);
    let f = BotFacts { bot: Some(Lookup::Found(Some(id(ME)))), ..own };
    assert_eq!(step(&f), BotStep::AddAndReply {
        channel: id(CHAN),
        bot: id(BOT),
        reply: "Bot dodany do kanału.",
    });
    assert_eq!(
        add_bot_to_channel(Some(ME), CHAN, &body, &vec![id(BOT)], &f),
        no(message(400, "Bot jest już w tym kanale."))
    );
    assert_eq!(
        remove_bot_from_channel(Some(ME), CHAN, BOT, &own),
        BotStep::RemoveAndReply {
            channel: id(CHAN),
            bot: id(BOT),
            reply: "Bot usunięty z kanału.",
        }
    );
    assert_eq!(
        remove_bot_from_channel(Some(ME), CHAN, BOT, &other),
        no(message(403, "Tylko administrator kanału może usuwać boty."))
    );
    assert_eq!(
        get_installable_bots(Some(ME), CHAN, &bots, &vec![id(OTHER)], &other),
        no(message(403, "Tylko administrator kanału może zarządzać botami."))
    );
    assert_eq!(get_installable_bots(Some(ME), CHAN, &bots, &vec![id(OTHER)], &own), BotStep::FindBots(id(ME)));
    let f = BotFacts { bots: Some(Done::Failed), ..own };
    assert_eq!(get_installable_bots(Some(ME), CHAN, &bots, &vec![id(OTHER)], &f), no(message(500, "Internal Server Error")));
    let f = BotFacts { bots: Some(Done::Worked), ..own };
    assert_eq!(get_installable_bots(Some(ME), CHAN, &bots, &vec![id(OTHER)], &f), BotStep::ReplyInstallable(vec![0]));
    assert_eq!(installable_bots(&bots, &vec![]), vec![0, 2]);
}

#[test]
fn compact_moderation() {
    let about = |u: &str| TargetUserBody { user_id: some(u), duration_seconds: Some(60) };
    let channel = |by_owner| Lookup::Found(Moderated { admin: id(ME), by_owner, target_is_member: true });
    let no = KickStep::Refuse;
    let members = vec![id(ME), id(OTHER)];
    let nobody = TargetUserBody { user_id: None, duration_seconds: None };
    assert_eq!(kick_channel_member(&nobody, CHAN, &members, None), no(message(400, "Brak identyfikatora użytkownika")));
    assert_eq!(kick_channel_member(&about(OTHER), "x", &members, None), no(message(404, "Kanał nie znaleziony")));
    assert_eq!(kick_channel_member(&about(OTHER), CHAN, &members, None), KickStep::Load(id(CHAN)));
    assert_eq!(
        kick_channel_member(&about(OTHER), CHAN, &members, Some(Lookup::Failed)),
        no(message(404, "Kanał nie znaleziony"))
    );
    assert_eq!(
        kick_channel_member(&about(OTHER), CHAN, &members, Some(channel(false))),
        no(message(403, "Tylko twórca kanału może wyrzucać członków"))
    );
    assert_eq!(
        kick_channel_member(&about(ME), CHAN, &members, Some(channel(true))),
        no(message(400, "Nie można wyrzucić twórcy kanału"))
    );
    assert_eq!(
        kick_channel_member(&about("x"), CHAN, &members, Some(channel(true))),
        KickStep::KickAndReply { channel: id(CHAN), user: None, members: vec![id(ME), id(OTHER)], event: "channel-left" }
    );
    assert_eq!(
        kick_channel_member(&about(OTHER), CHAN, &members, Some(channel(true))),
        KickStep::KickAndReply { channel: id(CHAN), user: Some(id(OTHER)), members: vec![id(ME)], event: "channel-left" }
    );
    let f = ModerationFacts {
        channel: Some(channel(true)),
        written: None,
        pulled: None,
        undo_tries: 0,
        undone: false,
        lists: None,
    };
    let (c, u) = (id(CHAN), id(OTHER));
    assert_eq!(ban_channel_member(&about(OTHER), CHAN, &f), ModerationStep::Ban { channel: c, user: u, seconds: Some(60) });
    assert_eq!(unban_channel_member(&about(OTHER), CHAN, &f), ModerationStep::Unban { channel: c, user: u });
    assert_eq!(mute_channel_member(&about(OTHER), CHAN, &f), ModerationStep::Mute { channel: c, user: u, seconds: Some(60) });
    assert_eq!(unmute_channel_member(&about(OTHER), CHAN, &f), ModerationStep::Unmute { channel: c, user: u });
    let f = ModerationFacts { written: Some(Done::Failed), lists: Some(Done::Failed), ..f };
    assert_eq!(ban_channel_member(&about(OTHER), CHAN, &f), ModerationStep::Reply);
    let untold = ModerationFacts { lists: None, pulled: Some(Done::Worked), ..f };
    assert_eq!(
        ban_channel_member(&about(OTHER), CHAN, &untold),
        ModerationStep::TellAndLoadLists { channel: c, user: u, after: Aftermath::Told("channel-left") }
    );
    let f = ModerationFacts { channel: Some(Lookup::Failed), ..f };
    assert_eq!(
        mute_channel_member(&about(OTHER), CHAN, &f),
        ModerationStep::Refuse(message(404, "Kanał nie znaleziony"))
    );
}

#[test]
fn compact_mutes_and_reports() {
    let f = ViewFacts { channel: Some(Lookup::Failed), user: None, lists: None, encoded: None, stored: None };
    assert_eq!(toggle_channel_mute(Some(ME), CHAN, &vec![], &f), MuteStep::Refuse(no_channel_access()));
    let f = ViewFacts { channel: Some(Lookup::Found(true)), user: Some(Lookup::Failed), ..f };
    assert_eq!(
        toggle_channel_mute(Some(ME), CHAN, &vec![], &f),
        MuteStep::Refuse(message(404, "Użytkownik nie znaleziony"))
    );
    let f = ViewFacts { user: Some(Lookup::Found(())), ..f };
    assert_eq!(
        toggle_channel_mute(Some(ME), CHAN, &vec![id(CHAN)], &f),
        MuteStep::StoreMutes { user: id(ME), channels: vec![] }
    );
    let body = ReportBody { reason: some("Inne"), details: None };
    let f = ReportFacts { channel: Some(Lookup::Failed), user: None, stored: None };
    assert_eq!(
        report_channel(Some(ME), CHAN, &body, &f),
        ReportStep::Refuse(message(404, "Kanał nie znaleziony"))
    );
    let f = ReportFacts { channel: Some(Lookup::Found(true)), user: Some(Lookup::Failed), stored: None };
    assert_eq!(
        report_channel(Some(ME), CHAN, &body, &f),
        ReportStep::Refuse(message(404, "Użytkownik nie znaleziony"))
    );
}
