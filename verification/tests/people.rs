//! Friends and contacts.

use klovy_chat_server::controllers::contacts_controller::{
    delete_conversation, dm_unread_count, get_blocked_contacts, get_contacts_for_list, normalize_text,
    order_contacts, search_contacts, search_users_by_term, show_found, switched, toggle_contact_block,
    toggle_contact_mute, list_contacts, BlockedContact, BlockedStep, Contact, ContactsStep, Friend, OwnLists, DeleteStep, FoundStep, SearchBody, SearchStep, ToggleFacts, UserFilter,
    ToggleStep,
};
use klovy_chat_server::controllers::friends_controller::{
    accept_friend_request, cancel_friend_request, check_friendship, get_friends, get_received_requests,
    get_sent_requests, other_friend, recipient_available, reject_friend_request, remove_friend,
    request_unavailable, send_friend_request, status_str, AnswerFacts, AnswerStep, CheckFacts, CheckStep, Existing,
    ListStep, RequestFilter, PendingRequest, Recipient, RemoveStep, Request, RequestStatus, SendFacts, SendFriendRequestBody,
    SendStep,
};
use klovy_chat_server::ids::Oid;
use klovy_chat_server::reply::{error, message, plain, Done, Lookup};

const ME: &str = "0000000000000000000000a1";
const OTHER: &str = "0000000000000000000000b2";
const GONE: &str = "0000000000000000000000c3";
const REQ: &str = "0000000000000000000000d4";

fn id(s: &str) -> Oid {
    match Oid::parse(s) {
        Some(o) => o,
        None => panic!("not an identifier"),
    }
}

fn somebody() -> Recipient {
    Recipient { id: Some(id(OTHER)), login_allowed: true, is_bot: false, is_whitelisted: false }
}

const NO_SEND: SendFacts = SendFacts {
    whitelist_enabled: false,
    recipient: None,
    friends: None,
    existing: None,
    changed: false,
    created: None,
};

fn body() -> SendFriendRequestBody {
    SendFriendRequestBody { username: Some("@ola".to_string()) }
}

fn send(f: &SendFacts) -> SendStep {
    send_friend_request(Some(ME), &body(), "ola", f)
}

#[test]
fn request_statuses_and_recipients() {
    assert_eq!(status_str(RequestStatus::Pending), "pending");
    assert_eq!(status_str(RequestStatus::Accepted), "accepted");
    assert_eq!(status_str(RequestStatus::Rejected), "rejected");
    assert!(recipient_available(&somebody(), false));
    assert!(!recipient_available(&somebody(), true));
    assert!(recipient_available(&Recipient { is_whitelisted: true, ..somebody() }, true));
    assert!(!recipient_available(&Recipient { is_bot: true, ..somebody() }, false));
    assert!(!recipient_available(&Recipient { login_allowed: false, ..somebody() }, false));
    assert_eq!(other_friend(id(ME), id(ME), id(OTHER)), id(OTHER));
    assert_eq!(other_friend(id(ME), id(OTHER), id(ME)), id(OTHER));
}

#[test]
fn friend_request_refusals() {
    let no = SendStep::Refuse;
    assert_eq!(send_friend_request(None, &body(), "ola", &NO_SEND), no(error(401, "Unauthorized")));
    assert_eq!(send_friend_request(Some("x"), &body(), "ola", &NO_SEND), no(error(401, "Unauthorized")));
    let empty = SendFriendRequestBody { username: Some("  ".to_string()) };
    assert_eq!(
        send_friend_request(Some(ME), &empty, "", &NO_SEND),
        no(error(400, "Podaj nazwę użytkownika (@username)."))
    );
    assert_eq!(
        send_friend_request(Some(ME), &body(), "", &NO_SEND),
        no(error(400, "Nieprawidłowa nazwa użytkownika."))
    );
    assert_eq!(send(&NO_SEND), SendStep::FindRecipient("ola".to_string()));
    assert_eq!(send(&SendFacts { recipient: Some(Lookup::Missing), ..NO_SEND }), no(request_unavailable()));
    assert_eq!(request_unavailable(), error(400, "Nie można wysłać zaproszenia do tego użytkownika."));
    let internal = no(error(500, "Internal Server Error"));
    assert_eq!(send(&SendFacts { recipient: Some(Lookup::Failed), ..NO_SEND }), internal);
    let nameless = Recipient { id: None, ..somebody() };
    assert_eq!(send(&SendFacts { recipient: Some(Lookup::Found(nameless)), ..NO_SEND }), internal);
    let bot = Recipient { is_bot: true, ..somebody() };
    assert_eq!(send(&SendFacts { recipient: Some(Lookup::Found(bot)), ..NO_SEND }), no(request_unavailable()));
    let myself = Recipient { id: Some(id(ME)), ..somebody() };
    assert_eq!(send(&SendFacts { recipient: Some(Lookup::Found(myself)), ..NO_SEND }), no(request_unavailable()));
    let f = SendFacts { recipient: Some(Lookup::Found(somebody())), ..NO_SEND };
    assert_eq!(send(&f), SendStep::AskFriends { from: id(ME), to: id(OTHER) });
    assert_eq!(send(&SendFacts { friends: Some(true), ..f }), no(request_unavailable()));
}

#[test]
fn one_request_between_two_users() {
    let no = SendStep::Refuse;
    let (from, to) = (id(ME), id(OTHER));
    let f = SendFacts { recipient: Some(Lookup::Found(somebody())), friends: Some(false), ..NO_SEND };
    assert_eq!(send(&f), SendStep::FindExisting { from, to });
    let new = SendFacts { existing: Some(None), ..f };
    assert_eq!(send(&new), SendStep::Create { from, to });
    assert_eq!(send(&SendFacts { created: Some(Done::Failed), ..new }), no(error(500, "Internal Server Error")));
    assert_eq!(send(&SendFacts { created: Some(Done::Worked), ..new }), SendStep::ReplyCreated);
    let old = |by, status| SendFacts { existing: Some(Some(Existing { id: id(REQ), from: by, status })), ..f };
    assert_eq!(send(&old(from, RequestStatus::Accepted)), no(request_unavailable()));
    assert_eq!(send(&old(from, RequestStatus::Pending)), no(request_unavailable()));
    assert_eq!(send(&old(to, RequestStatus::Pending)), SendStep::AcceptExisting(id(REQ)));
    assert_eq!(send(&SendFacts { changed: true, ..old(to, RequestStatus::Pending) }), SendStep::ReplyAutoAccepted);
    assert_eq!(send(&old(to, RequestStatus::Rejected)), SendStep::Reopen { request: id(REQ), from, to });
    assert_eq!(send(&SendFacts { changed: true, ..old(to, RequestStatus::Rejected) }), SendStep::ReplyReopened(id(REQ)));
}

#[test]
fn friend_lists() {
    assert_eq!(get_friends(None, None), ListStep::Refuse(error(401, "Unauthorized")));
    let pending = RequestFilter { status: RequestStatus::Pending, newest_by: "createdAt" };
    let accepted = RequestFilter { status: RequestStatus::Accepted, newest_by: "updatedAt" };
    assert_eq!(get_friends(Some(ME), None), ListStep::FindFriends(id(ME), accepted));
    assert_eq!(get_received_requests(Some(ME), None), ListStep::FindReceived(id(ME), pending));
    assert_eq!(get_sent_requests(Some(ME), None), ListStep::FindSent(id(ME), pending));
    assert_eq!(
        get_sent_requests(Some(ME), Some(Done::Failed)),
        ListStep::Refuse(error(500, "Internal Server Error"))
    );
    assert_eq!(get_received_requests(Some(ME), Some(Done::Worked)), ListStep::Reply(id(ME)));
}

#[test]
fn request_is_answered_by_its_receiver() {
    let no = AnswerStep::Refuse;
    let req = |status| Some(Lookup::Found(Request { from: id(OTHER), to: id(ME), status }));
    let none = AnswerFacts { request: None, changed: false, sender: None };
    assert_eq!(accept_friend_request(None, REQ, &none), no(error(401, "Unauthorized")));
    assert_eq!(accept_friend_request(Some(ME), "x", &none), no(error(400, "Nieprawidłowe zaproszenie.")));
    assert_eq!(accept_friend_request(Some(ME), REQ, &none), AnswerStep::Load(id(REQ)));
    let f = AnswerFacts { request: Some(Lookup::Missing), ..none };
    assert_eq!(reject_friend_request(Some(ME), REQ, &f), no(error(404, "Zaproszenie nie istnieje.")));
    let f = AnswerFacts { request: Some(Lookup::Failed), ..none };
    assert_eq!(cancel_friend_request(Some(ME), REQ, &f), no(error(500, "Internal Server Error")));
    let f = AnswerFacts { request: req(RequestStatus::Pending), ..none };
    let denied = no(error(403, "Brak uprawnień do tego zaproszenia."));
    assert_eq!(accept_friend_request(Some(OTHER), REQ, &f), denied);
    assert_eq!(reject_friend_request(Some(OTHER), REQ, &f), denied);
    assert_eq!(cancel_friend_request(Some(ME), REQ, &f), denied);
    assert_eq!(accept_friend_request(Some(ME), REQ, &f), AnswerStep::Accept(id(REQ)));
    assert_eq!(reject_friend_request(Some(ME), REQ, &f), AnswerStep::Reject(id(REQ)));
    assert_eq!(cancel_friend_request(Some(OTHER), REQ, &f), AnswerStep::Reject(id(REQ)));
    let old = AnswerFacts { request: req(RequestStatus::Accepted), ..none };
    assert_eq!(
        accept_friend_request(Some(ME), REQ, &old),
        no(error(400, "To zaproszenie nie jest już aktywne."))
    );
    let f = AnswerFacts { changed: true, ..f };
    assert_eq!(reject_friend_request(Some(ME), REQ, &f), AnswerStep::Reply);
    assert_eq!(accept_friend_request(Some(ME), REQ, &f), AnswerStep::LoadSender(id(OTHER)));
    let g = AnswerFacts { sender: Some(Lookup::Missing), ..f };
    assert_eq!(accept_friend_request(Some(ME), REQ, &g), no(error(500, "Internal Server Error")));
    let g = AnswerFacts { sender: Some(Lookup::Found(())), ..f };
    assert_eq!(accept_friend_request(Some(ME), REQ, &g), AnswerStep::Reply);
}

#[test]
fn dm_is_blocked_by_either_side() {
    let (me, other) = (id(ME), id(OTHER));
    let none = CheckFacts { other: None, friends: None, blocks: None, incoming: None, outgoing: None };
    let check = |f: &CheckFacts| check_friendship(Some(ME), OTHER, &vec![], &vec![id(ME)], f);
    assert_eq!(
        check_friendship(None, OTHER, &vec![], &vec![], &none),
        CheckStep::Refuse(error(401, "Unauthorized"))
    );
    assert_eq!(
        check_friendship(Some(ME), "x", &vec![], &vec![], &none),
        CheckStep::Refuse(error(400, "Nieprawidłowy identyfikator użytkownika."))
    );
    assert_eq!(check(&none), CheckStep::LoadOther(other));
    assert_eq!(check(&CheckFacts { other: Some(Lookup::Failed), ..none }), CheckStep::ReplyNobody);
    let f = CheckFacts { other: Some(Lookup::Found(())), ..none };
    assert_eq!(check(&f), CheckStep::AskFriends);
    let friends = CheckFacts { friends: Some(true), ..f };
    assert_eq!(check(&friends), CheckStep::LoadBlocks { me, other });
    assert_eq!(
        check(&CheckFacts { blocks: Some(Done::Worked), ..friends }),
        CheckStep::ReplyFriends { blocked_by_me: false, blocked_by_other: true, dm_blocked: true }
    );
    assert_eq!(
        check(&CheckFacts { blocks: Some(Done::Failed), ..friends }),
        CheckStep::ReplyFriends { blocked_by_me: false, blocked_by_other: false, dm_blocked: false }
    );
    let strangers = CheckFacts { friends: Some(false), ..f };
    assert_eq!(check(&strangers), CheckStep::FindIncoming { from: other, to: me });
    let f = CheckFacts { incoming: Some(Some(Some(id(REQ)))), ..strangers };
    assert_eq!(check(&f), CheckStep::ReplyNotFriends(PendingRequest::Incoming(Some(id(REQ)))));
    let f = CheckFacts { incoming: Some(None), ..strangers };
    assert_eq!(check(&f), CheckStep::FindOutgoing { from: me, to: other });
    let g = CheckFacts { outgoing: Some(Some(None)), ..f };
    assert_eq!(check(&g), CheckStep::ReplyNotFriends(PendingRequest::Outgoing(None)));
    let g = CheckFacts { outgoing: Some(None), ..f };
    assert_eq!(check(&g), CheckStep::ReplyNotFriends(PendingRequest::Nothing));
}

#[test]
fn friend_removal() {
    let no = RemoveStep::Refuse;
    assert_eq!(remove_friend(None, OTHER, None), no(error(401, "Unauthorized")));
    assert_eq!(remove_friend(Some(ME), "x", None), no(error(400, "Nieprawidłowy identyfikator użytkownika.")));
    assert_eq!(remove_friend(Some(ME), ME, None), no(error(400, "Nie możesz usunąć siebie z kontaktów.")));
    assert_eq!(remove_friend(Some(ME), OTHER, None), RemoveStep::FindFriendship { me: id(ME), friend: id(OTHER) });
    assert_eq!(
        remove_friend(Some(ME), OTHER, Some(None)),
        no(error(404, "Ten użytkownik nie jest w Twoich kontaktach."))
    );
    assert_eq!(
        remove_friend(Some(ME), OTHER, Some(Some(id(REQ)))),
        RemoveStep::RemoveAndReply { friendship: id(REQ), me: id(ME), friend: id(OTHER) }
    );
}

#[test]
fn contact_search() {
    let term = |s: &str| SearchBody { search_term: Some(s.to_string()) };
    assert_eq!(normalize_text("  ŻÓŁTA   Łódź "), "zolta lodz");
    assert_eq!(normalize_text("ÀB"), "àb");
    assert_eq!(
        search_contacts(None, &term("ola"), None, false, false),
        SearchStep::Refuse(plain(500, "Internal Server Error."))
    );
    assert_eq!(
        search_contacts(Some(ME), &SearchBody { search_term: None }, None, false, false),
        SearchStep::Refuse(plain(400, "Search Term is required."))
    );
    assert_eq!(
        search_contacts(Some(ME), &term(" o  "), None, false, false),
        SearchStep::Refuse(plain(400, "Search term must be at least 3 characters."))
    );
    assert_eq!(
        search_contacts(Some(ME), &term(" Żół "), None, false, false),
        SearchStep::EscapeTerm("zol".to_string())
    );
    let found = |whitelisted_only| UserFilter {
        other_than: id(ME),
        pattern: "^zol".to_string(),
        ignore_case: true,
        active: true,
        blocked: false,
        banned: false,
        disabled: false,
        deletion_scheduled: false,
        bots: false,
        whitelisted_only,
        limit: 10,
    };
    assert_eq!(
        search_contacts(Some(ME), &term("żół"), Some("zol"), true, false),
        SearchStep::Search(found(true))
    );
    assert_eq!(search_users_by_term(id(ME), "zol", false), found(false));
    assert_eq!(search_contacts(Some(ME), &term("ola"), Some("ola"), false, true), SearchStep::Reply);
    assert_eq!(show_found(None, Some(true)), FoundStep::Skip);
    assert_eq!(show_found(Some(id(OTHER)), None), FoundStep::AskFriends(id(OTHER)));
    assert_eq!(show_found(Some(id(OTHER)), Some(true)), FoundStep::ShowFriend(id(OTHER)));
    assert_eq!(show_found(Some(id(OTHER)), Some(false)), FoundStep::ShowStranger(id(OTHER)));
}

#[test]
fn normalizing_twice_changes_nothing() {
    for s in ["  ŻÓŁTA   Łódź ", "ABC d", "", " \t ", "ą"] {
        let once = normalize_text(s);
        assert_eq!(normalize_text(once.as_str()), once);
    }
    assert_eq!(normalize_text("  ŻÓŁĆ \t Gęś "), "zolc ges");
    assert_eq!(normalize_text("ĄĆĘŁŃÓŚŹŻ ąćęłńóśźż"), "acelnoszz acelnoszz");
}

#[test]
fn normalized_text_is_single_spaced() {
    for s in ["  ŻÓŁTA \u{3000}  Łódź ", "\u{a0}À \n\u{2003} ß\t", "", " \t ", "ola"] {
        let n = normalize_text(s);
        assert_eq!(n, n.trim());
        let spaces: Vec<bool> = n.chars().map(|c| c.is_whitespace()).collect();
        assert!(spaces.windows(2).all(|w| !(w[0] && w[1])));
        assert!(n.chars().all(|c| c == ' ' || !c.is_whitespace()));
    }
}

#[test]
fn contact_lists() {
    let no = ContactsStep::Refuse;
    let friend = |from: &str, to: &str, found: bool, last: Option<i64>, unread: Option<u64>| Friend {
        from: id(from),
        to: id(to),
        found,
        last,
        unread,
    };
    let friends = vec![
        friend(ME, OTHER, true, None, Some(2)),
        friend(REQ, ME, true, Some(9), None),
        friend(ME, GONE, false, Some(99), Some(1)),
    ];
    let own = Some(OwnLists { muted: vec![id(OTHER)], blocked: vec![id(REQ), id(GONE)] });
    let ask = |user: Option<&str>, loaded: Option<Done>| get_contacts_for_list(user, &friends, &own, loaded);
    assert_eq!(ask(None, None), no(plain(400, "User ID is required.")));
    assert_eq!(ask(Some("x"), None), no(plain(400, "User ID is required.")));
    assert_eq!(ask(Some(ME), None), ContactsStep::LoadFriendships(id(ME)));
    assert_eq!(ask(Some(ME), Some(Done::Failed)), no(plain(500, "Internal Server Error")));
    let contact = |user: &str, last: Option<i64>, unread: u64, muted: bool, blocked: bool| Contact {
        id: id(user),
        last,
        unread,
        muted,
        blocked,
    };
    assert_eq!(
        ask(Some(ME), Some(Done::Worked)),
        ContactsStep::Reply(vec![
            contact(REQ, Some(9), 0, false, true),
            contact(OTHER, None, 2, true, false),
        ])
    );
    assert_eq!(
        get_contacts_for_list(Some(ME), &friends, &None, Some(Done::Worked)),
        ContactsStep::Reply(vec![
            contact(REQ, Some(9), 0, false, false),
            contact(OTHER, None, 2, false, false),
        ])
    );
    assert_eq!(list_contacts(&vec![], id(ME), &own), vec![]);
    assert_eq!(order_contacts(&vec![None, Some(5), Some(-1), Some(9)]), vec![3, 1, 0, 2]);
    assert_eq!(dm_unread_count(None), 0);
    assert_eq!(dm_unread_count(Some(4)), 4);
    let no = BlockedStep::Refuse;
    let contact = |user: &str, found: bool| BlockedContact { id: id(user), found };
    let blocked = vec![contact(REQ, true), contact(GONE, false), contact(OTHER, true)];
    assert_eq!(get_blocked_contacts(None, &blocked, None), no(message(401, "Brak autoryzacji")));
    assert_eq!(get_blocked_contacts(Some("x"), &blocked, None), no(message(400, "Nieprawidłowy użytkownik")));
    assert_eq!(get_blocked_contacts(Some(ME), &blocked, None), BlockedStep::LoadUser(id(ME)));
    assert_eq!(get_blocked_contacts(Some(ME), &blocked, Some(false)), no(message(404, "Użytkownik nie znaleziony")));
    assert_eq!(get_blocked_contacts(Some(ME), &blocked, Some(true)), BlockedStep::Reply(vec![id(REQ), id(OTHER)]));
}

#[test]
fn contact_toggle_reports_the_stored_list() {
    let no = ToggleStep::Refuse;
    let mut f = ToggleFacts { friends: None, user: None, stored: None };
    let none = vec![];
    assert_eq!(toggle_contact_mute(None, OTHER, &none, &f), no(message(401, "Brak autoryzacji")));
    assert_eq!(
        toggle_contact_mute(Some(ME), "x", &none, &f),
        no(message(400, "Nieprawidłowy identyfikator kontaktu"))
    );
    assert_eq!(toggle_contact_block(Some(ME), OTHER, &none, &f), ToggleStep::AskFriends);
    f.friends = Some(false);
    assert_eq!(
        toggle_contact_block(Some(ME), OTHER, &none, &f),
        no(message(404, "Kontakt nie znaleziony lub brak relacji znajomości"))
    );
    f.friends = Some(true);
    assert_eq!(toggle_contact_mute(Some("x"), OTHER, &none, &f), no(message(404, "Użytkownik nie znaleziony")));
    assert_eq!(toggle_contact_mute(Some(ME), OTHER, &none, &f), ToggleStep::LoadUser(id(ME)));
    f.user = Some(false);
    assert_eq!(toggle_contact_mute(Some(ME), OTHER, &none, &f), no(message(404, "Użytkownik nie znaleziony")));
    f.user = Some(true);
    assert_eq!(
        toggle_contact_mute(Some(ME), OTHER, &none, &f),
        ToggleStep::Store { user: id(ME), field: "mutedContacts", list: vec![id(OTHER)] }
    );
    assert_eq!(
        toggle_contact_block(Some(ME), OTHER, &vec![id(OTHER), id(REQ)], &f),
        ToggleStep::Store { user: id(ME), field: "blockedContacts", list: vec![id(REQ)] }
    );
    f.stored = Some(Done::Failed);
    assert_eq!(toggle_contact_mute(Some(ME), OTHER, &none, &f), no(message(500, "Internal Server Error")));
    f.stored = Some(Done::Worked);
    assert_eq!(
        toggle_contact_mute(Some(ME), OTHER, &none, &f),
        ToggleStep::Reply { on: true, words: "Konwersacja wyciszona" }
    );
    let there = switched(&none, id(OTHER));
    assert_eq!(there, vec![id(OTHER)]);
    assert_eq!(
        toggle_contact_mute(Some(ME), OTHER, &there, &f),
        ToggleStep::Reply { on: false, words: "Wyciszenie wyłączone" }
    );
    assert_eq!(
        toggle_contact_block(Some(ME), OTHER, &none, &f),
        ToggleStep::Reply { on: true, words: "Użytkownik zablokowany" }
    );
    assert_eq!(
        toggle_contact_block(Some(ME), OTHER, &there, &f),
        ToggleStep::Reply { on: false, words: "Użytkownik odblokowany" }
    );
}

#[test]
fn conversations_are_deleted_among_friends() {
    let no = DeleteStep::Refuse;
    assert_eq!(delete_conversation(None, OTHER, None, false), no(message(400, "Missing user or contact id")));
    assert_eq!(delete_conversation(Some(ME), OTHER, None, false), DeleteStep::AskFriends);
    assert_eq!(
        delete_conversation(Some(ME), OTHER, Some(false), false),
        no(message(403, "You can only delete conversations with friends"))
    );
    assert_eq!(
        delete_conversation(Some(ME), OTHER, Some(true), false),
        DeleteStep::DeleteMessages { user: id(ME), contact: id(OTHER) }
    );
    assert_eq!(delete_conversation(Some(ME), OTHER, Some(true), true), DeleteStep::Reply("Conversation deleted"));
}
