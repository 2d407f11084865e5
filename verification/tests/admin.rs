//! The administrator's panel.

use klovy_chat_server::controllers::admin_controller::{
    BadgePatch, BanStep, PasswordStep, admin_logout, admin_session_status, assign_badge, badge_description, block_reason, block_user, create_badge,
    delete_badge, delete_channel_admin, delete_user, delete_user_warning, get_user_badges, list_badges,
    list_channel_reports, list_channels, list_user_warnings, list_users, new_icon, new_name, new_password, no_user,
    pending_whitelist_count, read_change, read_page, remaining_featured, remove_assignment, remove_badge,
    report_status_str, restore_user, rows_before, set_user_password, set_user_whitelist, show_list, unacknowledged,
    unblock_user, update_badge, update_channel_report_status, warn_user, warning_count, warning_reason,
    AssignBadgeBody, AssignFacts, AssignStep, Assignment, BadgeFacts, BadgeStep, BlockUserBody, Breach,
    ChannelFacts, ChannelStep, CountRow, CountValue, CreateBadgeBody, DeleteBadgeFacts, DeleteBadgeStep,
    FieldChange, ListStep, Listed, Managed, PageQuery, ReportFacts, ReportStatus, ReportStep, SessionStep,
    SetUserPasswordBody, SetWhitelistBody, UpdateBadgeBody, UpdateReportBody, UserFacts, UserStep, WarnFacts,
    WarnStep, WarnUserBody, WarningsStep,
};
use klovy_chat_server::ids::Oid;
use klovy_chat_server::reply::{coded, error, failing, message, Done, Lookup};

const USER: &str = "0000000000000000000000a1";
const BADGE: &str = "0000000000000000000000b2";
const ITEM: &str = "0000000000000000000000c3";

fn id(s: &str) -> Oid {
    match Oid::parse(s) {
        Some(o) => o,
        None => panic!("not an identifier"),
    }
}

fn some(s: &str) -> Option<String> {
    Some(s.to_string())
}

#[test]
fn admin_counts() {
    let rows = vec![
        CountRow { user: Some(id(USER)), count: CountValue::Int32(3) },
        CountRow { user: None, count: CountValue::Int32(9) },
        CountRow { user: Some(id(BADGE)), count: CountValue::Int64(7) },
        CountRow { user: Some(id(ITEM)), count: CountValue::Other },
    ];
    assert_eq!(warning_count(&rows, Some(id(USER))), 3);
    assert_eq!(warning_count(&rows, Some(id(BADGE))), 7);
    assert_eq!(warning_count(&rows, Some(id(ITEM))), 0);
    assert_eq!(warning_count(&rows, None), 0);
    assert_eq!(warning_count(&vec![], Some(id(USER))), 0);
    assert_eq!(pending_whitelist_count(true, Some(4)), 4);
    assert_eq!(pending_whitelist_count(false, Some(4)), 0);
    assert_eq!(pending_whitelist_count(true, None), 0);
    let pending = vec![ReportStatus::Pending, ReportStatus::Reviewed, ReportStatus::Pending, ReportStatus::Dismissed];
    assert_eq!(list_channel_reports(&pending), 2);
    assert_eq!(unacknowledged(&vec![true, false, false]), 2);
    assert_eq!(report_status_str(ReportStatus::Pending), "pending");
    assert_eq!(report_status_str(ReportStatus::Reviewed), "reviewed");
    assert_eq!(report_status_str(ReportStatus::Dismissed), "dismissed");
}

#[test]
fn admin_sessions_are_reported() {
    assert_eq!(admin_session_status(false, Some(true)), SessionStep::ReplyGuest);
    assert_eq!(admin_session_status(true, None), SessionStep::ResolveAdmin);
    assert_eq!(admin_session_status(true, Some(false)), SessionStep::ReplyGuest);
    assert_eq!(admin_session_status(true, Some(true)), SessionStep::ReplyAdmin);
    assert_eq!(admin_logout(), "Zamknięto panel administratora.");
}

#[test]
fn admin_pages_are_bounded() {
    assert_eq!(read_page(None), PageQuery { page: 1, limit: 50 });
    assert_eq!(read_page(Some("page=0&limit=0")), PageQuery { page: 1, limit: 1 });
    assert_eq!(read_page(Some("limit=101&page=3")), PageQuery { page: 3, limit: 100 });
    assert_eq!(read_page(Some("limit=x")), PageQuery { page: 1, limit: 50 });
}

#[test]
fn admin_pages_follow_each_other() {
    assert_eq!(rows_before(PageQuery { page: 1, limit: 50 }), 0);
    assert_eq!(rows_before(PageQuery { page: 4, limit: 25 }), 75);
}

#[test]
fn admin_searches_are_escaped() {
    let q = list_users(Some("search=@O.La%20&whitelist=Pending&page=2"));
    assert_eq!(q.page, PageQuery { page: 2, limit: 50 });
    assert_eq!(q.pattern, some("o\\.la%20"));
    assert_eq!(q.whitelisted, Some(false));
    let q = list_users(Some("search=ŻÓŁW+&whitelist=approved"));
    assert_eq!(q.pattern, some("żółw\\+"));
    assert_eq!(q.whitelisted, Some(true));
    let q = list_users(None);
    assert_eq!(q.pattern, None);
    assert_eq!(q.whitelisted, None);
    let q = list_channels(Some("search= a-b "));
    assert_eq!(q.pattern, some("a\\-b"));
    assert_eq!(list_channels(Some("search=")).pattern, None);
}

#[test]
fn admin_lists() {
    assert_eq!(show_list(Listed::Users, None), ListStep::Load);
    assert_eq!(show_list(Listed::Users, Some(Done::Worked)), ListStep::Reply);
    let failed = Some(Done::Failed);
    assert_eq!(
        show_list(Listed::Users, failed),
        ListStep::Refuse(error(500, "Nie udało się pobrać listy użytkowników."))
    );
    assert_eq!(
        show_list(Listed::Channels, failed),
        ListStep::Refuse(error(500, "Nie udało się pobrać listy kanałów."))
    );
    assert_eq!(show_list(Listed::Reports, failed), ListStep::Refuse(message(500, "Internal Server Error")));
    assert_eq!(list_badges(failed), ListStep::Refuse(failing(message(500, "Failed to fetch badges"))));
}

const NO_USER: UserFacts =
    UserFacts { user: None, breach: None, stored: None, ended: false, told: false, logged: false };

fn managed(is_bot: bool, is_disabled: bool) -> Option<Lookup<Managed>> {
    Some(Lookup::Found(Managed { is_bot, is_disabled }))
}

#[test]
fn whitelist_approvals() {
    let no = UserStep::Refuse;
    let yes = SetWhitelistBody { approved: Some(true) };
    let off = SetWhitelistBody { approved: None };
    assert_eq!(
        set_user_whitelist(false, USER, &yes, &NO_USER),
        no(error(400, "Whitelista nie jest włączona na tym serwerze."))
    );
    assert_eq!(no_user(), error(404, "Użytkownik nie istnieje."));
    assert_eq!(set_user_whitelist(true, "x", &yes, &NO_USER), no(no_user()));
    assert_eq!(set_user_whitelist(true, USER, &yes, &NO_USER), UserStep::FindUser(id(USER)));
    let f = UserFacts { user: Some(Lookup::Failed), ..NO_USER };
    assert_eq!(set_user_whitelist(true, USER, &yes, &f), no(no_user()));
    let mut f = UserFacts { user: managed(false, false), ..NO_USER };
    assert_eq!(set_user_whitelist(true, USER, &yes, &f), UserStep::StoreApproval { user: id(USER), approved: true });
    assert_eq!(set_user_whitelist(true, USER, &off, &f), UserStep::StoreApproval { user: id(USER), approved: false });
    f.stored = Some(Lookup::Missing);
    assert_eq!(set_user_whitelist(true, USER, &yes, &f), no(no_user()));
    f.stored = Some(Lookup::Failed);
    assert_eq!(
        set_user_whitelist(true, USER, &yes, &f),
        no(error(500, "Nie udało się zaktualizować whitelisty."))
    );
    f.stored = Some(Lookup::Found(()));
    assert_eq!(set_user_whitelist(true, USER, &yes, &f), UserStep::TellApproved(id(USER)));
    assert_eq!(set_user_whitelist(true, USER, &off, &f), UserStep::EndSessions(id(USER)));
    f.told = true;
    f.ended = true;
    assert_eq!(
        set_user_whitelist(true, USER, &yes, &f),
        UserStep::Log { action: "whitelist.approve", user: id(USER) }
    );
    assert_eq!(
        set_user_whitelist(true, USER, &off, &f),
        UserStep::Log { action: "whitelist.revoke", user: id(USER) }
    );
    f.logged = true;
    assert_eq!(
        set_user_whitelist(true, USER, &yes, &f),
        UserStep::Reply("Użytkownik został zatwierdzony na whitelistę.")
    );
    assert_eq!(
        set_user_whitelist(true, USER, &off, &f),
        UserStep::Reply("Użytkownik został usunięty z whitelisty.")
    );
}

#[test]
fn password_resets() {
    let no = PasswordStep::Refuse;
    let body = SetUserPasswordBody { new_password: some(" tajne ") };
    assert_eq!(new_password(&body), "tajne");
    assert_eq!(set_user_password("x", &body, &NO_USER), no(no_user()));
    let empty = SetUserPasswordBody { new_password: some(" ") };
    assert_eq!(set_user_password(USER, &empty, &NO_USER), no(error(400, "Nowe hasło jest wymagane.")));
    assert_eq!(set_user_password(USER, &body, &NO_USER), PasswordStep::FindUser(id(USER)));
    let f = UserFacts { user: Some(Lookup::Missing), ..NO_USER };
    assert_eq!(set_user_password(USER, &body, &f), no(no_user()));
    let f = UserFacts { user: managed(true, false), ..NO_USER };
    assert_eq!(set_user_password(USER, &body, &f), no(error(400, "Nie można zmienić hasła konta bota.")));
    let mut f = UserFacts { user: managed(false, false), ..NO_USER };
    assert_eq!(set_user_password(USER, &body, &f), PasswordStep::CheckBreach("tajne".to_string()));
    f.breach = Some(Breach::Breached);
    assert_eq!(
        set_user_password(USER, &body, &f),
        no(coded(
            error(400, "To hasło pojawiło się w wycieku danych. Wybierz inne, bezpieczniejsze hasło."),
            "PASSWORD_BREACHED"
        ))
    );
    f.breach = Some(Breach::Unavailable);
    assert_eq!(
        set_user_password(USER, &body, &f),
        no(error(503, "Nie można teraz zweryfikować hasła. Spróbuj ponownie za chwilę."))
    );
    f.breach = Some(Breach::Safe);
    assert_eq!(set_user_password(USER, &body, &f), PasswordStep::StorePassword { user: id(USER), password: "tajne".to_string() });
    f.stored = Some(Lookup::Failed);
    assert_eq!(set_user_password(USER, &body, &f), no(error(500, "Nie udało się zmienić hasła.")));
    f.stored = Some(Lookup::Found(()));
    assert_eq!(set_user_password(USER, &body, &f), PasswordStep::EndSessions(id(USER)));
    f.ended = true;
    assert_eq!(
        set_user_password(USER, &body, &f),
        PasswordStep::Log { action: "user.password.reset", user: id(USER) }
    );
    f.logged = true;
    assert_eq!(
        set_user_password(USER, &body, &f),
        PasswordStep::Reply("Hasło zostało zresetowane. Użytkownik musi zalogować się ponownie.")
    );
}

fn banned() -> BlockUserBody {
    BlockUserBody { reason: some(" spam ") }
}

#[test]
fn sessions_end_where_accounts_close() {
    let stored = UserFacts { user: managed(false, false), stored: Some(Lookup::Found(())), logged: true, ..NO_USER };
    assert_eq!(block_user(USER, &banned(), &stored), BanStep::RevokeSessions(id(USER)));
    assert_eq!(delete_user(USER, &stored), UserStep::EndSessions(id(USER)));
    let ended = UserFacts { ended: true, ..stored };
    assert_eq!(block_user(USER, &banned(), &ended), BanStep::Reply("Użytkownik został zbanowany."));
    assert_eq!(delete_user(USER, &ended), UserStep::Reply("Konto użytkownika zostało usunięte."));
}

#[test]
fn user_actions_are_logged() {
    let no = UserStep::Refuse;
    let not = BanStep::Refuse;
    assert_eq!(block_user("x", &banned(), &NO_USER), not(no_user()));
    assert_eq!(unblock_user("x", &NO_USER), no(no_user()));
    assert_eq!(delete_user("x", &NO_USER), no(no_user()));
    assert_eq!(restore_user("x", &NO_USER), no(no_user()));
    assert_eq!(block_user(USER, &banned(), &NO_USER), BanStep::FindUser(id(USER)));
    let f = UserFacts { user: Some(Lookup::Failed), ..NO_USER };
    assert_eq!(block_user(USER, &banned(), &f), not(no_user()));
    assert_eq!(restore_user(USER, &f), no(error(500, "Nie udało się pobrać użytkownika.")));
    let f = UserFacts { user: managed(false, true), ended: true, ..NO_USER };
    assert_eq!(block_user(USER, &banned(), &f), BanStep::StoreBan { user: id(USER), reason: some("spam") });
    assert_eq!(unblock_user(USER, &f), UserStep::StoreUnban(id(USER)));
    assert_eq!(delete_user(USER, &f), UserStep::Purge(id(USER)));
    assert_eq!(restore_user(USER, &f), UserStep::StoreRestored(id(USER)));
    let active = UserFacts { user: managed(false, false), ..f };
    assert_eq!(restore_user(USER, &active), no(error(400, "To konto nie wymaga przywrócenia.")));
    let bad = UserFacts { stored: Some(Lookup::Failed), ..f };
    assert_eq!(block_user(USER, &banned(), &bad), not(error(500, "Nie udało się zbanować użytkownika.")));
    assert_eq!(unblock_user(USER, &bad), no(error(500, "Nie udało się odbanować użytkownika.")));
    assert_eq!(delete_user(USER, &bad), no(error(500, "Nie udało się usunąć użytkownika.")));
    assert_eq!(restore_user(USER, &bad), no(error(500, "Nie udało się przywrócić konta.")));
    let good = UserFacts { stored: Some(Lookup::Found(())), ..f };
    assert_eq!(block_user(USER, &banned(), &good), BanStep::Log { action: "user.ban", user: id(USER) });
    assert_eq!(unblock_user(USER, &good), UserStep::Log { action: "user.unban", user: id(USER) });
    assert_eq!(delete_user(USER, &good), UserStep::Log { action: "user.delete", user: id(USER) });
    assert_eq!(restore_user(USER, &good), UserStep::Log { action: "user.restore", user: id(USER) });
    let done = UserFacts { logged: true, ..good };
    assert_eq!(unblock_user(USER, &done), UserStep::Reply("Użytkownik został odbanowany."));
    assert_eq!(restore_user(USER, &done), UserStep::Reply("Konto użytkownika zostało przywrócone."));
}

#[test]
fn block_reasons_are_cut() {
    assert_eq!(block_reason(&BlockUserBody { reason: None }), None);
    assert_eq!(block_reason(&BlockUserBody { reason: some("  ") }), None);
    assert_eq!(block_reason(&BlockUserBody { reason: some(" spam ") }), some("spam"));
    assert_eq!(block_reason(&BlockUserBody { reason: Some("ż".repeat(501)) }), Some("ż".repeat(500)));
}

#[test]
fn admin_deletes_channel_last() {
    let no = ChannelStep::Refuse;
    let mut f = ChannelFacts { found: None, messages: None, invites: None, channel: None, told: false, logged: false };
    let failed = no(error(500, "Nie udało się usunąć kanału."));
    assert_eq!(delete_channel_admin("x", &f), no(error(404, "Kanał nie istnieje.")));
    assert_eq!(delete_channel_admin(ITEM, &f), ChannelStep::FindChannel(id(ITEM)));
    f.found = Some(false);
    assert_eq!(delete_channel_admin(ITEM, &f), no(error(404, "Kanał nie istnieje.")));
    f.found = Some(true);
    assert_eq!(delete_channel_admin(ITEM, &f), ChannelStep::DeleteMessages(id(ITEM)));
    f.messages = Some(Done::Failed);
    assert_eq!(delete_channel_admin(ITEM, &f), failed);
    f.messages = Some(Done::Worked);
    assert_eq!(delete_channel_admin(ITEM, &f), ChannelStep::DeleteInvites(id(ITEM)));
    f.invites = Some(Done::Failed);
    assert_eq!(delete_channel_admin(ITEM, &f), failed);
    f.invites = Some(Done::Worked);
    assert_eq!(delete_channel_admin(ITEM, &f), ChannelStep::DeleteChannel(id(ITEM)));
    f.channel = Some(Done::Failed);
    assert_eq!(delete_channel_admin(ITEM, &f), failed);
    f.channel = Some(Done::Worked);
    assert_eq!(delete_channel_admin(ITEM, &f), ChannelStep::TellMembers(id(ITEM)));
    f.told = true;
    assert_eq!(delete_channel_admin(ITEM, &f), ChannelStep::Log { action: "channel.delete", channel: id(ITEM) });
    f.logged = true;
    assert_eq!(delete_channel_admin(ITEM, &f), ChannelStep::Reply("Kanał został usunięty."));
}

#[test]
fn settled_reports_do_not_wait() {
    let no = ReportStep::Refuse;
    let body = |s: &str| UpdateReportBody { status: some(s) };
    let mut f = ReportFacts { stored: None, logged: false, reloaded: None };
    assert_eq!(update_channel_report_status(ITEM, &body("pending"), &f), no(message(400, "Nieprawidłowy status")));
    assert_eq!(update_channel_report_status("x", &body("reviewed"), &f), no(message(404, "Zgłoszenie nie znalezione")));
    assert_eq!(
        update_channel_report_status(ITEM, &body("reviewed"), &f),
        ReportStep::Store { report: id(ITEM), status: ReportStatus::Reviewed }
    );
    assert_eq!(
        update_channel_report_status(ITEM, &body("dismissed"), &f),
        ReportStep::Store { report: id(ITEM), status: ReportStatus::Dismissed }
    );
    let step = |f: &ReportFacts| update_channel_report_status(ITEM, &body("reviewed"), f);
    f.stored = Some(Done::Failed);
    assert_eq!(step(&f), no(message(500, "Internal Server Error")));
    f.stored = Some(Done::Worked);
    assert_eq!(step(&f), ReportStep::Log { action: "report.update", report: id(ITEM) });
    f.logged = true;
    assert_eq!(step(&f), ReportStep::Reload(id(ITEM)));
    f.reloaded = Some(false);
    assert_eq!(step(&f), no(message(404, "Zgłoszenie nie znalezione")));
    f.reloaded = Some(true);
    assert_eq!(step(&f), ReportStep::Reply("Status zaktualizowany"));
}

const NO_BADGE: BadgeFacts =
    BadgeFacts { found: None, taken: None, icon_valid: None, color_valid: None, stored: None, reloaded: None };

#[test]
fn created_badges_are_checked() {
    let no = |t| BadgeStep::Refuse(failing(message(400, t)));
    let body = |name: &str, color: &str, description: &str| CreateBadgeBody {
        name: some(name),
        icon: some("star"),
        color: some(color),
        description: some(description),
    };
    assert_eq!(create_badge(&body(" ", "", ""), "#FF0000", &NO_BADGE), no("Name and icon are required"));
    assert_eq!(
        create_badge(&body("ż".repeat(65).as_str(), "", ""), "#FF0000", &NO_BADGE),
        no("Badge name is too long (max 64 characters)")
    );
    let b = body("VIP", "#ff0000", "x");
    assert_eq!(create_badge(&b, "#FF0000", &NO_BADGE), BadgeStep::CheckIcon("star".to_string()));
    assert_eq!(create_badge(&b, "#FF0000", &BadgeFacts { icon_valid: Some(false), ..NO_BADGE }), no("Invalid icon name"));
    let mut f = BadgeFacts { icon_valid: Some(true), ..NO_BADGE };
    assert_eq!(create_badge(&b, "#FF0000", &f), BadgeStep::CheckColor("#ff0000".to_string()));
    assert_eq!(
        create_badge(&b, "#FF0000", &BadgeFacts { color_valid: Some(false), ..f }),
        no("Invalid badge color (use #RRGGBB)")
    );
    f.color_valid = Some(true);
    assert_eq!(
        create_badge(&body("VIP", "", "ż".repeat(501).as_str()), "#FF0000", &f),
        no("Description is too long (max 500 characters)")
    );
    assert_eq!(create_badge(&b, "#FF0000", &f), BadgeStep::FindByName("VIP".to_string()));
    f.taken = Some(true);
    assert_eq!(
        create_badge(&b, "#FF0000", &f),
        BadgeStep::Refuse(failing(message(409, "Badge with this name already exists")))
    );
    f.taken = Some(false);
    assert_eq!(create_badge(&b, "#FF0000", &f), BadgeStep::Create {
        name: "VIP".to_string(),
        icon: "star".to_string(),
        color: some("#FF0000"),
        description: some("x"),
    });
    f.stored = Some(Done::Failed);
    assert_eq!(create_badge(&b, "#FF0000", &f), BadgeStep::Refuse(failing(message(500, "Failed to create badge"))));
    f.stored = Some(Done::Worked);
    assert_eq!(create_badge(&b, "#FF0000", &f), BadgeStep::Reply(201));
    assert_eq!(badge_description(&body("VIP", "", " opis ")), some("opis"));
    let bare = CreateBadgeBody { name: None, icon: None, color: None, description: None };
    assert_eq!(badge_description(&bare), None);
}

#[test]
fn updated_badges_are_checked() {
    let no = |s, t| BadgeStep::Refuse(failing(message(s, t)));
    let body = UpdateBadgeBody { name: some(" Nowa "), icon: some("star"), color: some(" #fff "), description: some("") };
    let step = |f: &BadgeFacts| update_badge(BADGE, &body, "Stara", "#FFFFFF", f);
    assert_eq!(new_name(&body, "Stara"), some("Nowa"));
    assert_eq!(new_name(&body, "Nowa"), None);
    assert_eq!(new_icon(&body), some("star"));
    assert!(matches!(read_change(&body.color), FieldChange::Put(s) if s == "#fff"));
    assert!(matches!(read_change(&body.description), FieldChange::Clear));
    assert!(matches!(read_change(&None), FieldChange::Keep));
    assert_eq!(update_badge("x", &body, "", "#FFFFFF", &NO_BADGE), no(400, "Invalid badge ID"));
    assert_eq!(step(&NO_BADGE), BadgeStep::FindBadge(id(BADGE)));
    assert_eq!(step(&BadgeFacts { found: Some(Lookup::Missing), ..NO_BADGE }), no(404, "Badge not found"));
    assert_eq!(step(&BadgeFacts { found: Some(Lookup::Failed), ..NO_BADGE }), no(500, "Failed to update badge"));
    let mut f = BadgeFacts { found: Some(Lookup::Found(())), ..NO_BADGE };
    let long = UpdateBadgeBody { name: Some("a".repeat(65)), icon: None, color: None, description: None };
    assert_eq!(
        update_badge(BADGE, &long, "", "#FFFFFF", &f),
        no(400, "Badge name is too long (max 64 characters)")
    );
    assert_eq!(step(&f), BadgeStep::FindByName("Nowa".to_string()));
    assert_eq!(step(&BadgeFacts { taken: Some(true), ..f }), no(409, "Badge with this name already exists"));
    f.taken = Some(false);
    assert_eq!(step(&f), BadgeStep::CheckIcon("star".to_string()));
    assert_eq!(step(&BadgeFacts { icon_valid: Some(false), ..f }), no(400, "Invalid icon name"));
    f.icon_valid = Some(true);
    assert_eq!(step(&f), BadgeStep::CheckColor("#fff".to_string()));
    assert_eq!(
        step(&BadgeFacts { color_valid: Some(false), ..f }),
        no(400, "Invalid badge color (use #RRGGBB)")
    );
    f.color_valid = Some(true);
    let wordy = UpdateBadgeBody { name: None, icon: None, color: None, description: Some("a".repeat(501)) };
    assert_eq!(
        update_badge(BADGE, &wordy, "", "#FFFFFF", &f),
        no(400, "Description is too long (max 500 characters)")
    );
    assert_eq!(step(&f), BadgeStep::Store {
        badge: id(BADGE),
        patch: BadgePatch {
            name: some("Nowa"),
            icon: some("star"),
            color: FieldChange::Put("#FFFFFF".to_string()),
            description: FieldChange::Clear,
        },
    });
    f.stored = Some(Done::Failed);
    assert_eq!(step(&f), no(500, "Failed to update badge"));
    f.stored = Some(Done::Worked);
    assert_eq!(step(&f), BadgeStep::Reload(id(BADGE)));
    f.reloaded = Some(false);
    assert_eq!(step(&f), no(500, "Failed to update badge"));
    f.reloaded = Some(true);
    assert_eq!(step(&f), BadgeStep::Reply(200));
}

#[test]
fn badge_deletion() {
    let no = |s, t| DeleteBadgeStep::Refuse(failing(message(s, t)));
    let mut f = DeleteBadgeFacts { found: None, deleted: None, pulled: false };
    assert_eq!(delete_badge("x", &f), no(400, "Invalid badge ID"));
    assert_eq!(delete_badge(BADGE, &f), DeleteBadgeStep::FindBadge(id(BADGE)));
    f.found = Some(false);
    assert_eq!(delete_badge(BADGE, &f), no(404, "Badge not found"));
    f.found = Some(true);
    assert_eq!(delete_badge(BADGE, &f), DeleteBadgeStep::Delete(id(BADGE)));
    f.deleted = Some(Done::Failed);
    assert_eq!(delete_badge(BADGE, &f), no(500, "Failed to delete badge"));
    f.deleted = Some(Done::Worked);
    assert_eq!(delete_badge(BADGE, &f), DeleteBadgeStep::PullFromUsers(id(BADGE)));
    f.pulled = true;
    assert_eq!(delete_badge(BADGE, &f), DeleteBadgeStep::Reply("Badge deleted successfully"));
}

const NO_ASSIGN: AssignFacts = AssignFacts {
    user: None,
    badge_found: None,
    deduped: None,
    cleaned: false,
    has: None,
    stored: None,
    reloaded: None,
    told: false,
};

#[test]
fn badges_are_given_once() {
    let held = vec![Assignment { id: Some(id(USER)), badge: id(USER) }];
    let no = |s, t| AssignStep::Refuse(failing(message(s, t)));
    let body = AssignBadgeBody { badge_id: some(BADGE) };
    let step = |f: &AssignFacts| assign_badge(USER, &body, &held, id(ITEM), f);
    assert_eq!(assign_badge("x", &body, &held, id(ITEM), &NO_ASSIGN), no(400, "Invalid user ID"));
    assert_eq!(assign_badge(USER, &AssignBadgeBody { badge_id: None }, &held, id(ITEM), &NO_ASSIGN), no(400, "Invalid badge ID"));
    assert_eq!(step(&NO_ASSIGN), AssignStep::FindUser(id(USER)));
    assert_eq!(step(&AssignFacts { user: Some(Lookup::Missing), ..NO_ASSIGN }), no(404, "User not found"));
    assert_eq!(step(&AssignFacts { user: Some(Lookup::Failed), ..NO_ASSIGN }), no(500, "Failed to assign badge"));
    let mut f = AssignFacts { user: Some(Lookup::Found(())), ..NO_ASSIGN };
    assert_eq!(step(&f), AssignStep::FindBadge(id(BADGE)));
    f.badge_found = Some(false);
    assert_eq!(step(&f), no(404, "Badge not found"));
    f.badge_found = Some(true);
    assert_eq!(step(&f), AssignStep::PrepareBadges);
    f.deduped = Some(true);
    assert_eq!(step(&f), AssignStep::StoreCleaned {
        user: id(USER),
        badges: vec![Assignment { id: Some(id(USER)), badge: id(USER) }],
    });
    f.cleaned = true;
    assert_eq!(step(&f), AssignStep::AskHas(id(BADGE)));
    f.has = Some(true);
    assert_eq!(
        step(&f),
        AssignStep::Refuse(failing(coded(
            message(400, "Ten użytkownik ma już tę odznakę."),
            "BADGE_ALREADY_ASSIGNED"
        )))
    );
    f.has = Some(false);
    assert_eq!(step(&f), AssignStep::StoreGiven {
        user: id(USER),
        badges: vec![
            Assignment { id: Some(id(USER)), badge: id(USER) },
            Assignment { id: Some(id(ITEM)), badge: id(BADGE) },
        ],
    });
    f.stored = Some(Done::Failed);
    assert_eq!(step(&f), no(500, "Failed to assign badge"));
    f.stored = Some(Done::Worked);
    assert_eq!(step(&f), AssignStep::Reload(id(USER)));
    f.reloaded = Some(true);
    assert_eq!(step(&f), AssignStep::TellOthers { user: id(USER), event: "badge:assigned" });
    f.told = true;
    assert_eq!(step(&f), AssignStep::Reply("Badge assigned successfully"));
    let f = AssignFacts { reloaded: Some(false), told: false, ..f };
    assert_eq!(step(&f), AssignStep::Reply("Badge assigned successfully"));
}

#[test]
fn removed_badge_is_gone() {
    let badges = vec![
        Assignment { id: Some(id(ITEM)), badge: id(BADGE) },
        Assignment { id: None, badge: id(BADGE) },
        Assignment { id: Some(id(USER)), badge: id(BADGE) },
    ];
    let left = remove_assignment(&badges, id(ITEM));
    assert_eq!(left, vec![badges[1], badges[2]]);
    assert_eq!(remove_assignment(&left, id(ITEM)), left);
    assert_eq!(remaining_featured(&vec![id(ITEM), id(USER)], id(ITEM)), vec![id(USER)]);
    let no = |s, t| AssignStep::Refuse(failing(message(s, t)));
    let step = |f: &AssignFacts| remove_badge(USER, ITEM, &badges, &vec![id(ITEM), id(USER)], f);
    assert_eq!(remove_badge("x", ITEM, &badges, &vec![id(ITEM), id(USER)], &NO_ASSIGN), no(400, "Invalid user ID"));
    assert_eq!(remove_badge(USER, "x", &badges, &vec![id(ITEM), id(USER)], &NO_ASSIGN), no(400, "Invalid badge assignment ID"));
    assert_eq!(step(&NO_ASSIGN), AssignStep::FindUser(id(USER)));
    assert_eq!(step(&AssignFacts { user: Some(Lookup::Missing), ..NO_ASSIGN }), no(404, "User not found"));
    assert_eq!(step(&AssignFacts { user: Some(Lookup::Failed), ..NO_ASSIGN }), no(500, "Failed to remove badge"));
    let mut f = AssignFacts { user: Some(Lookup::Found(())), ..NO_ASSIGN };
    assert_eq!(remove_badge(USER, ITEM, &left, &vec![id(ITEM), id(USER)], &f), no(404, "Badge assignment not found"));
    assert_eq!(step(&f), AssignStep::StoreTaken {
        user: id(USER),
        badges: remove_assignment(&badges, id(ITEM)),
        featured: vec![id(USER)],
    });
    f.stored = Some(Done::Failed);
    assert_eq!(step(&f), no(500, "Failed to remove badge"));
    f.stored = Some(Done::Worked);
    assert_eq!(step(&f), AssignStep::Reload(id(USER)));
    f.reloaded = Some(false);
    assert_eq!(step(&f), AssignStep::Reply("Badge removed successfully"));
    assert_eq!(get_user_badges("x", None), no(400, "Invalid user ID"));
    assert_eq!(get_user_badges(USER, None), AssignStep::FindUser(id(USER)));
    assert_eq!(get_user_badges(USER, Some(Lookup::Missing)), no(404, "User not found"));
    assert_eq!(get_user_badges(USER, Some(Lookup::Failed)), no(500, "Failed to load user badges"));
    assert_eq!(get_user_badges(USER, Some(Lookup::Found(()))), AssignStep::Reply(""));
}

#[test]
fn warnings_are_given_and_taken_back() {
    let no = WarnStep::Refuse;
    let body = |s: &str| WarnUserBody { reason: some(s), severity: some("high") };
    let mut f = WarnFacts { found: None, created: None, deleted: None, counted: None, told: false, logged: false };
    let b = body(" spam ");
    assert_eq!(warning_reason(&b), "spam");
    assert_eq!(warn_user("x", &b, &f), no(no_user()));
    assert_eq!(warn_user(USER, &body(" "), &f), no(error(400, "Powód ostrzeżenia jest wymagany.")));
    assert_eq!(
        warn_user(USER, &body("ż".repeat(1001).as_str()), &f),
        no(error(400, "Powód ostrzeżenia jest zbyt długi (maks. 1000 znaków)."))
    );
    assert_eq!(warn_user(USER, &b, &f), WarnStep::FindUser(id(USER)));
    f.found = Some(false);
    assert_eq!(warn_user(USER, &b, &f), no(no_user()));
    f.found = Some(true);
    assert_eq!(warn_user(USER, &b, &f), WarnStep::Create {
        user: id(USER),
        reason: "spam".to_string(),
        severity: some("high"),
    });
    f.created = Some(Done::Failed);
    assert_eq!(warn_user(USER, &b, &f), no(error(500, "Nie udało się wystawić ostrzeżenia.")));
    f.created = Some(Done::Worked);
    assert_eq!(warn_user(USER, &b, &f), WarnStep::Count(id(USER)));
    f.counted = Some(None);
    assert_eq!(warn_user(USER, &b, &f), WarnStep::TellWarned {
        user: id(USER),
        event: "user:warned",
        count: 0,
    });
    f.counted = Some(Some(2));
    assert_eq!(warn_user(USER, &b, &f), WarnStep::TellWarned {
        user: id(USER),
        event: "user:warned",
        count: 2,
    });
    f.told = true;
    assert_eq!(warn_user(USER, &b, &f), WarnStep::Log { action: "user.warn", user: id(USER) });
    f.logged = true;
    assert_eq!(warn_user(USER, &b, &f), WarnStep::Reply {
        message: "Ostrzeżenie zostało wystawione.",
        count: 2,
    });
    let gone = error(404, "Ostrzeżenie nie istnieje.");
    assert_eq!(delete_user_warning("x", ITEM, &f), no(no_user()));
    assert_eq!(delete_user_warning(USER, "x", &f), no(gone));
    assert_eq!(delete_user_warning(USER, ITEM, &f), WarnStep::Delete { warning: id(ITEM), user: id(USER) });
    f.deleted = Some(Lookup::Missing);
    assert_eq!(delete_user_warning(USER, ITEM, &f), no(gone));
    f.deleted = Some(Lookup::Failed);
    assert_eq!(delete_user_warning(USER, ITEM, &f), no(error(500, "Nie udało się usunąć ostrzeżenia.")));
    f.deleted = Some(Lookup::Found(()));
    assert_eq!(delete_user_warning(USER, ITEM, &f), WarnStep::Reply {
        message: "Ostrzeżenie zostało usunięte.",
        count: 2,
    });
    f.logged = false;
    assert_eq!(
        delete_user_warning(USER, ITEM, &f),
        WarnStep::Log { action: "user.warning.delete", user: id(USER) }
    );
    f.told = false;
    assert_eq!(delete_user_warning(USER, ITEM, &f), WarnStep::TellRevoked {
        user: id(USER),
        event: "user:warning-revoked",
        warning: id(ITEM),
        count: 2,
    });
    f.counted = None;
    assert_eq!(delete_user_warning(USER, ITEM, &f), WarnStep::Count(id(USER)));
    assert_eq!(list_user_warnings("x", &vec![], None), WarningsStep::Refuse(no_user()));
    assert_eq!(list_user_warnings(USER, &vec![true, false, false], None), WarningsStep::Load(id(USER)));
    assert_eq!(
        list_user_warnings(USER, &vec![true, false, false], Some(Done::Failed)),
        WarningsStep::Refuse(error(500, "Nie udało się pobrać ostrzeżeń."))
    );
    assert_eq!(list_user_warnings(USER, &vec![true, false, false], Some(Done::Worked)), WarningsStep::Reply {
        total: 3,
        unacknowledged: 2,
    });
}
