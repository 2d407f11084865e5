//! Bots and announcements.

use klovy_chat_server::controllers::announcement_controller::{
    dismiss_announcements, get_my_announcements, read_dismissed, unread, AnnouncementStep,
    DismissAnnouncementsBody,
};
use klovy_chat_server::controllers::bot_controller::{
    bot_me, bot_send_channel_message, create_bot, delete_bot, display_name, display_name_too_long_text,
    emit_bot_profile_updated, list_my_bots, message_content, name_taken, no_bot, owned_bot, profile_changed,
    regenerate_bot_token, server_error, stored_display_name, stored_username, unauthorized, update_bot, Bot, BotProfile,
    BotSendMessageBody, CreateBotBody, CreateFacts, CreateStep, DeleteFacts, DeleteStep, ListBotsStep, MeStep,
    BotPatch, OwnedBot, SendFacts, SendStep, TokenStep, UpdateBotBody, UpdateFacts, UpdateStep,
};
use klovy_chat_server::ids::Oid;
use klovy_chat_server::reply::{after, coded, error, message, Access, Answer, Done, Lookup};

const ME: &str = "0000000000000000000000a1";
const OTHER: &str = "0000000000000000000000b2";
const BOT: &str = "0000000000000000000000d4";
const CHAN: &str = "0000000000000000000000e5";

fn id(s: &str) -> Oid {
    match Oid::parse(s) {
        Some(o) => o,
        None => panic!("not an identifier"),
    }
}

fn some(s: &str) -> Option<String> {
    Some(s.to_string())
}

fn mine() -> Option<Lookup<Bot>> {
    Some(Lookup::Found(Bot { id: Some(id(BOT)), owner: Some(id(ME)) }))
}

#[test]
fn announcements_are_listed() {
    let all = vec![Some(id(ME)), None, Some(id(BOT)), Some(id(CHAN))];
    let seen = Some(vec![id(BOT)]);
    let no = AnnouncementStep::Refuse;
    assert_eq!(get_my_announcements(None, &all, &seen, None), no(error(401, "User not authenticated.")));
    assert_eq!(get_my_announcements(Some("x"), &all, &seen, None), no(error(400, "Invalid user id.")));
    assert_eq!(get_my_announcements(Some(ME), &all, &seen, None), AnnouncementStep::LoadActive(id(ME)));
    assert_eq!(
        get_my_announcements(Some(ME), &all, &seen, Some(Done::Failed)),
        no(error(500, "Nie udało się pobrać ogłoszeń."))
    );
    assert_eq!(get_my_announcements(Some(ME), &all, &seen, Some(Done::Worked)), AnnouncementStep::Show(vec![0, 3]));
    assert_eq!(
        get_my_announcements(Some(ME), &all, &None, Some(Done::Worked)),
        AnnouncementStep::Show(vec![0, 2, 3])
    );
}

#[test]
fn dismissed_announcements_stay_hidden() {
    let all = vec![Some(id(ME)), None, Some(id(BOT)), Some(id(CHAN))];
    assert_eq!(unread(&all, &vec![id(BOT)]), vec![0, 3]);
    assert_eq!(unread(&all, &vec![]), vec![0, 2, 3]);
    let no = AnnouncementStep::Refuse;
    let body = DismissAnnouncementsBody { announcement_ids: Some(vec![BOT.to_string(), "x".to_string()]) };
    assert_eq!(read_dismissed(&body), vec![id(BOT)]);
    assert_eq!(dismiss_announcements(None, &body, None), no(error(401, "User not authenticated.")));
    let none = DismissAnnouncementsBody { announcement_ids: Some(vec!["x".to_string()]) };
    assert_eq!(dismiss_announcements(Some(ME), &none, None), no(error(400, "Brak ogłoszeń do zamknięcia.")));
    assert_eq!(dismiss_announcements(Some(ME), &body, None), AnnouncementStep::Dismiss {
        user: id(ME),
        ids: vec![id(BOT)],
    });
    assert_eq!(
        dismiss_announcements(Some(ME), &body, Some(Err(()))),
        no(error(500, "Nie udało się zamknąć ogłoszeń."))
    );
    assert_eq!(
        dismiss_announcements(Some(ME), &body, Some(Ok(1))),
        AnnouncementStep::Reply { message: "Ogłoszenia zostały zamknięte.", dismissed: 1 }
    );
}

#[test]
fn bot_lists() {
    assert_eq!(list_my_bots(None, None), ListBotsStep::Refuse(message(401, "Unauthorized")));
    assert_eq!(list_my_bots(Some(ME), None), ListBotsStep::Load(id(ME)));
    assert_eq!(list_my_bots(Some(ME), Some(Done::Worked)), ListBotsStep::Reply);
    assert_eq!(
        list_my_bots(Some(ME), Some(Done::Failed)),
        ListBotsStep::Refuse(message(500, "Internal Server Error"))
    );
    assert_eq!(
        display_name_too_long_text(32),
        "Nazwa wyświetlana może mieć maksymalnie 32 znaków."
    );
    assert_eq!(bot_me(None, None), MeStep::Refuse(unauthorized()));
    assert_eq!(bot_me(Some(BOT), None), MeStep::Find(id(BOT)));
    assert_eq!(bot_me(Some(BOT), Some(false)), MeStep::Refuse(unauthorized()));
    assert_eq!(bot_me(Some(BOT), Some(true)), MeStep::Reply);
}

#[test]
fn bots_are_limited() {
    let no = CreateStep::Refuse;
    let body = CreateBotBody { username: some("bot"), display_name: some(" Bot ") };
    let mut f = CreateFacts { count: None, taken: None, created: None, taken_after: None, issued: None };
    let step = |f: &CreateFacts| create_bot(Some(ME), &body, "bot1", true, 3, f);
    assert_eq!(display_name(&body), "Bot");
    assert_eq!(create_bot(Some("x"), &body, "bot1", true, 3, &f), no(unauthorized()));
    assert_eq!(
        create_bot(Some(ME), &body, "bot1", false, 3, &f),
        no(message(400, "Nazwa bota: 3–32 znaków, tylko małe litery, cyfry i _."))
    );
    assert_eq!(create_bot(Some(ME), &body, "bot1", true, 2, &f), CreateStep::RefuseLongName);
    assert_eq!(step(&f), CreateStep::CountBots(id(ME)));
    f.count = Some(10);
    assert_eq!(step(&f), no(message(400, "Osiągnięto limit 10 botów na konto.")));
    f.count = Some(9);
    assert_eq!(step(&f), CreateStep::AskTaken("bot1".to_string()));
    f.taken = Some(Answer::Yes);
    assert_eq!(step(&f), no(message(409, "Ta nazwa użytkownika jest już zajęta. Wybierz inną.")));
    f.taken = Some(Answer::Failed);
    assert_eq!(step(&f), no(server_error()));
    f.taken = Some(Answer::No);
    assert_eq!(step(&f), CreateStep::Create {
        owner: id(ME),
        username: "bot1".to_string(),
        display_name: "Bot".to_string(),
    });
    f.created = Some(Lookup::Failed);
    assert_eq!(step(&f), CreateStep::AskTakenAfter("bot1".to_string()));
    f.taken_after = Some(true);
    assert_eq!(step(&f), no(name_taken()));
    f.taken_after = Some(false);
    assert_eq!(step(&f), no(server_error()));
    f.created = Some(Lookup::Found(None));
    assert_eq!(step(&f), no(server_error()));
    f.created = Some(Lookup::Found(Some(id(BOT))));
    assert_eq!(step(&f), CreateStep::IssueToken(id(BOT)));
    f.issued = Some(Done::Failed);
    assert_eq!(step(&f), no(server_error()));
    f.issued = Some(Done::Worked);
    assert_eq!(step(&f), CreateStep::ReplyCreated);
}

#[test]
fn bots_obey_their_owner() {
    let no = OwnedBot::Refuse;
    assert_eq!(owned_bot(None, BOT, None), no(unauthorized()));
    assert_eq!(owned_bot(Some(ME), "x", None), no(message(404, "Bot nie znaleziony.")));
    assert_eq!(owned_bot(Some(ME), BOT, None), OwnedBot::Find(id(BOT)));
    assert_eq!(owned_bot(Some(ME), BOT, Some(Lookup::Failed)), no(server_error()));
    assert_eq!(owned_bot(Some(ME), BOT, Some(Lookup::Missing)), no(no_bot()));
    assert_eq!(owned_bot(Some(OTHER), BOT, mine()), no(no_bot()));
    let lost = Some(Lookup::Found(Bot { id: None, owner: Some(id(ME)) }));
    assert_eq!(owned_bot(Some(ME), BOT, lost), no(server_error()));
    assert_eq!(owned_bot(Some(ME), BOT, mine()), OwnedBot::Ready(id(BOT)));
    assert_eq!(regenerate_bot_token(Some(OTHER), BOT, mine(), None), TokenStep::Refuse(no_bot()));
    assert_eq!(regenerate_bot_token(Some(ME), BOT, None, None), TokenStep::Find(id(BOT)));
    assert_eq!(regenerate_bot_token(Some(ME), BOT, mine(), None), TokenStep::IssueToken(id(BOT)));
    assert_eq!(regenerate_bot_token(Some(ME), BOT, mine(), Some(Done::Worked)), TokenStep::Reply);
    assert_eq!(
        regenerate_bot_token(Some(ME), BOT, mine(), Some(Done::Failed)),
        TokenStep::Refuse(server_error())
    );
}

fn profile() -> BotProfile {
    BotProfile { username: "stary".to_string(), display_name: some("Bot"), color: Some(3) }
}

#[test]
fn bot_profile_changes() {
    let body = |u: Option<&str>, d: Option<&str>, color| UpdateBotBody {
        username: u.map(|s| s.to_string()),
        display_name: d.map(|s| s.to_string()),
        color,
    };
    assert!(!profile_changed(&body(None, None, None), "", &profile()));
    assert!(profile_changed(&body(Some("nowy"), None, None), "nowy", &profile()));
    assert!(!profile_changed(&body(Some("stary"), None, None), "stary", &profile()));
    assert!(!profile_changed(&body(None, Some(" Bot "), None), "", &profile()));
    assert!(profile_changed(&body(None, Some(" "), None), "", &profile()));
    assert!(profile_changed(&body(None, None, Some(4)), "", &profile()));
    assert!(!profile_changed(&body(None, None, Some(3)), "", &profile()));
    assert_eq!(stored_username(&body(Some("@Nowy"), None, None), "nowy", &profile()), some("nowy"));
    assert_eq!(stored_username(&body(Some("stary"), None, None), "stary", &profile()), None);
    assert_eq!(stored_username(&body(None, Some("x"), None), "nowy", &profile()), None);
    assert_eq!(stored_display_name(&body(None, Some("  "), None)), None);
    assert_eq!(stored_display_name(&body(None, Some(" A "), None)), some("A"));
}

#[test]
fn bot_update_steps() {
    let no = UpdateStep::Refuse;
    let mut f = UpdateFacts { found: None, taken: None, stored: None, taken_after: None, reloaded: None, told: false };
    let body = UpdateBotBody { username: some("nowy"), display_name: some("Bot2"), color: None };
    let p = profile();
    let step = |f: &UpdateFacts| update_bot(Some(ME), BOT, &body, "nowy", true, &p, 4, f);
    assert_eq!(step(&f), UpdateStep::Find(id(BOT)));
    f.found = mine();
    assert_eq!(update_bot(Some(OTHER), BOT, &body, "nowy", true, &p, 4, &f), no(no_bot()));
    assert_eq!(
        update_bot(Some(ME), BOT, &body, "nowy", false, &p, 4, &f),
        no(message(400, "Nazwa użytkownika: 3–32 znaków, tylko małe litery, cyfry i _."))
    );
    assert_eq!(step(&f), UpdateStep::AskTaken { bot: id(BOT), name: "nowy".to_string() });
    f.taken = Some(Answer::Yes);
    assert_eq!(step(&f), no(name_taken()));
    f.taken = Some(Answer::Failed);
    assert_eq!(step(&f), no(server_error()));
    f.taken = Some(Answer::No);
    assert_eq!(update_bot(Some(ME), BOT, &body, "nowy", true, &p, 3, &f), UpdateStep::RefuseLongName);
    assert_eq!(step(&f), UpdateStep::Store {
        bot: id(BOT),
        patch: BotPatch {
            username: some("nowy"),
            sets_display_name: true,
            display_name: some("Bot2"),
            color: None,
        },
    });
    f.stored = Some(Lookup::Missing);
    assert_eq!(step(&f), no(no_bot()));
    f.stored = Some(Lookup::Failed);
    assert_eq!(step(&f), UpdateStep::AskTakenAfter { bot: id(BOT), name: "nowy".to_string() });
    f.taken_after = Some(true);
    assert_eq!(step(&f), no(name_taken()));
    f.taken_after = Some(false);
    assert_eq!(step(&f), no(server_error()));
    f.stored = Some(Lookup::Found(()));
    assert_eq!(step(&f), UpdateStep::Reload(id(BOT)));
    f.reloaded = Some(false);
    assert_eq!(step(&f), no(server_error()));
    f.reloaded = Some(true);
    assert_eq!(step(&f), UpdateStep::TellOthers(id(BOT)));
    f.told = true;
    assert_eq!(step(&f), UpdateStep::Reply);
    let nothing = UpdateBotBody { username: None, display_name: None, color: None };
    let f = UpdateFacts { stored: None, taken: None, taken_after: None, told: false, ..f };
    assert_eq!(update_bot(Some(ME), BOT, &nothing, "", false, &p, 4, &f), UpdateStep::Reply);
}

#[test]
fn bot_watchers_are_told_once() {
    let a = vec![ME.to_string(), BOT.to_string()];
    let b = vec![OTHER.to_string(), ME.to_string()];
    assert_eq!(emit_bot_profile_updated(&vec![a, b], BOT), vec![ME, OTHER]);
    assert!(emit_bot_profile_updated(&vec![], BOT).is_empty());
}

#[test]
fn deleted_bots_leave_nothing() {
    let mut f = DeleteFacts { found: None, token_revoked: false, left_channels: false, deleted: false };
    assert_eq!(delete_bot(None, BOT, &f), DeleteStep::Refuse(unauthorized()));
    assert_eq!(delete_bot(Some(ME), BOT, &f), DeleteStep::Find(id(BOT)));
    f.found = mine();
    assert_eq!(delete_bot(Some(ME), BOT, &f), DeleteStep::RevokeToken(id(BOT)));
    f.token_revoked = true;
    assert_eq!(delete_bot(Some(ME), BOT, &f), DeleteStep::LeaveChannels(id(BOT)));
    f.left_channels = true;
    assert_eq!(delete_bot(Some(ME), BOT, &f), DeleteStep::Delete(id(BOT)));
    f.deleted = true;
    assert_eq!(delete_bot(Some(ME), BOT, &f), DeleteStep::Reply("Bot usunięty."));
}

#[test]
fn bot_messages_are_checked() {
    let no = SendStep::Refuse;
    let body = |s: &str| BotSendMessageBody { content: some(s) };
    let mut f = SendFacts { counted: None, access: None, locked: None, wait: None, sent: None };
    let b = body(" hej ");
    let step = |f: &SendFacts| bot_send_channel_message(Some(BOT), CHAN, &b, f);
    assert_eq!(message_content(&b), "hej");
    assert_eq!(bot_send_channel_message(None, CHAN, &b, &f), no(unauthorized()));
    assert_eq!(step(&f), SendStep::CountMessage);
    f.counted = Some(false);
    assert_eq!(step(&f), no(coded(message(429, "Zbyt wiele wiadomości. Zwolnij tempo."), "RATE_LIMIT")));
    f.counted = Some(true);
    assert_eq!(
        bot_send_channel_message(Some(BOT), CHAN, &body("  "), &f),
        no(message(400, "Treść wiadomości jest wymagana."))
    );
    assert_eq!(
        bot_send_channel_message(Some(BOT), CHAN, &body("ż".repeat(4001).as_str()), &f),
        no(message(400, "Wiadomość może mieć maksymalnie 4000 znaków."))
    );
    assert_eq!(step(&f), SendStep::CheckAccess);
    f.access = Some(Access::Unavailable("a"));
    assert_eq!(step(&f), no(coded(message(403, "a"), "FORBIDDEN")));
    f.access = Some(Access::Denied("b"));
    assert_eq!(step(&f), no(coded(message(403, "b"), "FORBIDDEN")));
    f.access = Some(Access::Granted);
    assert_eq!(step(&f), SendStep::AskLocked);
    f.locked = Some(true);
    assert_eq!(step(&f), no(coded(message(403, "Czat na tym kanale jest zablokowany."), "CHAT_LOCKED")));
    f.locked = Some(false);
    assert_eq!(step(&f), SendStep::CheckSlowmode);
    f.wait = Some(Some(9));
    assert_eq!(
        step(&f),
        no(after(coded(message(429, "Slowmode is enabled for this channel."), "SLOWMODE"), 9))
    );
    f.wait = Some(None);
    assert_eq!(bot_send_channel_message(Some(BOT), "x", &b, &f), no(message(404, "Kanał nie znaleziony.")));
    assert_eq!(bot_send_channel_message(Some("x"), CHAN, &b, &f), no(unauthorized()));
    assert_eq!(step(&f), SendStep::Send {
        channel: id(CHAN),
        bot: id(BOT),
        content: "hej".to_string(),
        kind: "TEXT",
    });
    f.sent = Some(false);
    assert_eq!(step(&f), no(server_error()));
    f.sent = Some(true);
    assert_eq!(step(&f), SendStep::ReplySent);
}
