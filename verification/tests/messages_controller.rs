//! Messages of the compact service.

use klovy_chat_server::controllers::messages::{
    pin_patch, pinned_filter, upload_context, DeleteFacts, EditFacts, EditWork, HistoryStep, PinFacts, PinRight, PinStep, Prepared, PreviewFacts,
    PreviewStep, Room, Target, UploadFacts, UploadLimits, UploadPlace, UploadStep,
};
use klovy_chat_server::controllers::messages_controller::{
    delete_message, edit_message, get_messages, get_pinned_messages, link_preview, pin_message, search_messages,
    unpin_message, upload_file, make_edit_patch, DeleteStep, EditPatch, EditStep, GetMessagesBody, LinkPreviewBody, ListFacts,
    PageFacts, PatternFilter, PinnedBody, PinnedStep, Reading, SearchMessagesBody, SearchStep, Where,
};
use klovy_chat_server::ids::Oid;
use klovy_chat_server::model::{Account, Place};
use klovy_chat_server::reply::{error, plain, titled, Access, Done, Lookup, Wrote};

const ME: &str = "0000000000000000000000a1";
const OTHER: &str = "0000000000000000000000b2";
const MSG: &str = "0000000000000000000000d4";
const CHAN: &str = "0000000000000000000000e5";

fn id(s: &str) -> Oid {
    match Oid::parse(s) {
        Some(o) => o,
        None => panic!("not an identifier"),
    }
}

fn some(s: &str) -> Option<String> {
    Some(s.to_string())
}

#[test]
fn compact_history_pages() {
    let mut f = PageFacts { access: None, cursor: None, page: None };
    let b = GetMessagesBody { id: some(OTHER), limit: Some(500), before: some(MSG) };
    assert_eq!(
        get_messages(None, &b, &f),
        HistoryStep::Refuse(titled(401, "UNAUTHORIZED", "Authentication required."))
    );
    let nobody = GetMessagesBody { id: None, limit: None, before: None };
    assert_eq!(
        get_messages(Some(ME), &nobody, &f),
        HistoryStep::Refuse(titled(400, "INVALID_REQUEST", "Contact id is required."))
    );
    assert_eq!(get_messages(Some(ME), &b, &f), HistoryStep::Authorize);
    f.access = Some(Reading::Denied("Nie"));
    assert_eq!(get_messages(Some(ME), &b, &f), HistoryStep::Refuse(titled(403, "ACCESS_DENIED", "Nie")));
    f.access = Some(Reading::Granted { me: id(ME), other: id(OTHER) });
    assert_eq!(get_messages(Some(ME), &b, &f), HistoryStep::CheckCursor { me: id(ME), other: id(OTHER) });
    f.cursor = Some(None);
    assert_eq!(
        get_messages(Some(ME), &b, &f),
        HistoryStep::Refuse(titled(400, "INVALID_CURSOR", "Invalid pagination cursor."))
    );
    f.cursor = Some(Some(id(MSG)));
    assert_eq!(
        get_messages(Some(ME), &b, &f),
        HistoryStep::Find { me: id(ME), other: id(OTHER), before: Some(id(MSG)), fetch: 101 }
    );
    let plain_body = GetMessagesBody { id: some(OTHER), limit: None, before: None };
    assert_eq!(
        get_messages(Some(ME), &plain_body, &f),
        HistoryStep::Find { me: id(ME), other: id(OTHER), before: None, fetch: 51 }
    );
    f.page = Some(Done::Failed);
    assert_eq!(get_messages(Some(ME), &b, &f), HistoryStep::Refuse(plain(500, "Internal Server Error")));
    f.page = Some(Done::Worked);
    assert_eq!(get_messages(Some(ME), &b, &f), HistoryStep::Page { me: id(ME), other: id(OTHER), limit: 100 });
}

const NO_EDIT: EditFacts = EditFacts {
    account: None,
    message: None,
    access: None,
    channel: None,
    channel_again: None,
    mentions: None,
    encoded: None,
    sealed: None,
    indexed: None,
    wrote: None,
    reread: None,
    reread_again: None,
};

fn room() -> Room {
    Room { members: vec![id(OTHER)], admin: id(ME) }
}

fn work() -> EditWork {
    EditWork {
        mentions: vec![id(OTHER)],
        names_everyone: true,
        sealed: "sealed".to_string(),
        search_text: "x".to_string(),
        search_tokens: vec![],
    }
}

fn patch(mentions: Vec<Oid>, mentions_everyone: bool) -> EditPatch {
    EditPatch { content: "sealed".to_string(), search_text: "x".to_string(), mentions, mentions_everyone, edited: true }
}

fn edit(f: &EditFacts) -> EditStep {
    edit_message(Some(ME), MSG, " x", true, &room(), &work(), f)
}

fn mine(place: Place) -> Option<Lookup<Target>> {
    Some(Lookup::Found(Target { sender: id(ME), is_text: true, place }))
}

#[test]
fn compact_edit_steps() {
    let mut f = NO_EDIT;
    assert_eq!(edit(&f), EditStep::LoadAccount(id(ME)));
    f.account = Some(Account::Allowed);
    assert_eq!(edit(&f), EditStep::LoadMessage(id(MSG)));
    f.message = mine(Place::Channel(id(CHAN)));
    assert_eq!(edit(&f), EditStep::CheckParticipant);
    f.access = Some(Access::Granted);
    assert_eq!(edit(&f), EditStep::LoadChannel(id(CHAN)));
    f.channel = Some(Lookup::Found(()));
    assert_eq!(edit(&f), EditStep::ResolveMentions {
        content: " x".to_string(),
        candidates: vec![OTHER.to_string(), ME.to_string()],
    });
    f.mentions = Some(Done::Worked);
    assert_eq!(edit(&f), EditStep::SealContent("x".to_string()));
    f.sealed = Some(Done::Worked);
    assert_eq!(edit(&f), EditStep::Write { message: id(MSG), patch: patch(vec![id(OTHER)], true) });
    f.channel = Some(Lookup::Missing);
    assert_eq!(edit(&f), EditStep::Write { message: id(MSG), patch: patch(vec![], false) });
    f.wrote = Some(Wrote::Unchanged);
    assert_eq!(edit(&f), EditStep::Reread(id(MSG)));
    f.reread = Some(Lookup::Missing);
    assert_eq!(edit(&f), EditStep::Refuse(error(500, "Internal server error")));
    f.reread = Some(Lookup::Found(Target { sender: id(ME), is_text: true, place: Place::Nowhere }));
    assert_eq!(edit(&f), EditStep::Reply);
}

#[test]
fn compact_edit_mentions_within_reach() {
    assert_eq!(make_edit_patch(&work(), true, true), patch(vec![id(OTHER)], true));
    assert_eq!(make_edit_patch(&work(), true, false), patch(vec![id(OTHER)], false));
    assert_eq!(make_edit_patch(&work(), false, true), patch(vec![], false));
}

#[test]
fn compact_edit_refusals() {
    let no = EditStep::Refuse;
    assert_eq!(edit_message(None, MSG, "x", true, &room(), &work(), &NO_EDIT), no(error(401, "Unauthorized")));
    assert_eq!(edit_message(Some(ME), "?", "x", true, &room(), &work(), &NO_EDIT), no(error(404, "Message not found")));
    let f = EditFacts { account: Some(Account::Blocked), ..NO_EDIT };
    assert_eq!(edit(&f), no(error(403, "Account is inactive or blocked")));
    let f = EditFacts { account: Some(Account::Unavailable), ..NO_EDIT };
    assert_eq!(edit(&f), no(error(401, "User not found")));
    let known = EditFacts { account: Some(Account::Allowed), ..NO_EDIT };
    assert_eq!(edit(&EditFacts { message: Some(Lookup::Missing), ..known }), no(error(404, "Message not found")));
    assert_eq!(edit(&EditFacts { message: Some(Lookup::Failed), ..known }), no(error(500, "Internal server error")));
    let f = EditFacts { message: mine(Place::Dm(id(OTHER))), ..known };
    assert_eq!(
        edit_message(Some(OTHER), MSG, "x", true, &room(), &work(), &f),
        no(error(403, "Not authorized to edit this message"))
    );
    assert_eq!(edit(&EditFacts { access: Some(Access::Unavailable("a")), ..f }), no(error(403, "a")));
    assert_eq!(edit(&EditFacts { access: Some(Access::Denied("b")), ..f }), no(error(403, "b")));
    let f = EditFacts { access: Some(Access::Granted), ..f };
    assert_eq!(
        edit_message(Some(ME), MSG, " ", true, &room(), &work(), &f),
        no(error(400, "Treść wiadomości jest wymagana"))
    );
    assert_eq!(
        edit_message(Some(ME), MSG, "x", false, &room(), &work(), &f),
        no(error(400, "Wiadomość nie może przekraczać 2000 znaków"))
    );
    let f = EditFacts { mentions: Some(Done::Worked), ..f };
    assert_eq!(edit(&EditFacts { sealed: Some(Done::Failed), ..f }), no(error(500, "Internal server error")));
    let f = EditFacts { sealed: Some(Done::Worked), wrote: Some(Wrote::Failed), ..f };
    assert_eq!(edit(&f), no(error(500, "Internal server error")));
}

#[test]
fn compact_rights_come_before_action() {
    let none = DeleteFacts {
        message: None,
        access: None,
        deletion: None,
        cleaned: false,
        marks: None,
        channel: None,
        channel_again: None,
        readers: None,
    };
    let no = DeleteStep::Refuse;
    assert_eq!(delete_message(None, MSG, &some("u"), &none), no(error(401, "User not authenticated")));
    assert_eq!(delete_message(Some(ME), "", &some("u"), &none), no(error(404, "Message not found")));
    assert_eq!(delete_message(Some(ME), MSG, &some("u"), &none), DeleteStep::LoadMessage(id(MSG)));
    let f = DeleteFacts { message: Some(Lookup::Missing), ..none };
    assert_eq!(delete_message(Some(ME), MSG, &some("u"), &f), no(error(404, "Message not found")));
    let f = DeleteFacts { message: Some(Lookup::Failed), ..none };
    assert_eq!(delete_message(Some(ME), MSG, &some("u"), &f), no(error(500, "Internal server error")));
    let f = DeleteFacts { message: mine(Place::Dm(id(OTHER))), ..none };
    assert_eq!(delete_message(Some(OTHER), MSG, &some("u"), &f), no(error(403, "Not authorized to delete this message")));
    assert_eq!(delete_message(Some(ME), MSG, &some("u"), &f), DeleteStep::CheckParticipant);
    let g = DeleteFacts { access: Some(Access::Denied("x")), ..f };
    assert_eq!(delete_message(Some(ME), MSG, &some("u"), &g), no(error(403, "x")));
    let g = DeleteFacts { access: Some(Access::Unavailable("y")), ..f };
    assert_eq!(delete_message(Some(ME), MSG, &some("u"), &g), no(error(403, "y")));
    let g = DeleteFacts { access: Some(Access::Granted), ..f };
    assert_eq!(delete_message(Some(ME), MSG, &some("u"), &g), DeleteStep::DeleteAndReply {
        message: id(MSG),
        file_url: some("u"),
    });
}

#[test]
fn compact_pins() {
    let none = PinFacts { message: None, right: None, wrote: None, reread: None, reread_again: None };
    let no = PinStep::Refuse;
    assert_eq!(pin_message(None, MSG, &none), no(error(401, "Unauthorized")));
    assert_eq!(pin_message(Some(ME), "x", &none), no(error(404, "Message not found")));
    assert_eq!(pin_message(Some(ME), MSG, &none), PinStep::LoadMessage(id(MSG)));
    let f = PinFacts { message: Some(Lookup::Failed), ..none };
    assert_eq!(pin_message(Some(ME), MSG, &f), no(error(404, "Message not found")));
    let f = PinFacts { message: Some(Lookup::Found(false)), ..none };
    assert_eq!(pin_message(Some(ME), MSG, &f), PinStep::CheckRight);
    let g = PinFacts { right: Some(PinRight::Unavailable), ..f };
    assert_eq!(
        unpin_message(Some(ME), MSG, &g),
        no(titled(403, "FORBIDDEN", "Nie masz uprawnień do odpięcia tej wiadomości."))
    );
    let g = PinFacts { right: Some(PinRight::Yes), ..f };
    assert_eq!(pin_message(Some("me"), MSG, &g), no(error(400, "Invalid user id")));
    assert_eq!(pin_message(Some(ME), MSG, &g), PinStep::Pin { message: id(MSG), patch: pin_patch(Some(id(ME))) });
    assert_eq!(unpin_message(Some(ME), MSG, &g), PinStep::Unpin { message: id(MSG), patch: pin_patch(None) });
    let g = PinFacts { wrote: Some(Done::Failed), ..g };
    assert_eq!(pin_message(Some(ME), MSG, &g), PinStep::Reread(id(MSG)));
    let h = PinFacts { reread: Some(Lookup::Missing), ..g };
    assert_eq!(pin_message(Some(ME), MSG, &h), no(error(500, "Internal Server Error")));
    let h = PinFacts { reread: Some(Lookup::Found(())), ..g };
    assert_eq!(pin_message(Some(ME), MSG, &h), PinStep::PublishStored);
}

#[test]
fn compact_lists() {
    let none = ListFacts { channel_access: None, dm_access: None, found: None };
    let no = PinnedStep::Refuse;
    let not = SearchStep::Refuse;
    let pattern = Some("p");
    let ch = PinnedBody { contact_id: None, channel_id: some(CHAN) };
    let dm = SearchMessagesBody { query: some("ab"), contact_id: some(OTHER), channel_id: None };
    assert_eq!(get_pinned_messages(None, &ch, &none), no(error(401, "Unauthorized")));
    assert_eq!(search_messages(None, &dm, pattern, &none), not(error(401, "Unauthorized")));
    let short = SearchMessagesBody { query: some(" a"), contact_id: None, channel_id: None };
    assert_eq!(
        search_messages(Some(ME), &short, pattern, &none),
        not(titled(400, "QUERY_TOO_SHORT", "Wpisz co najmniej 2 znaki."))
    );
    let nowhere = PinnedBody { contact_id: None, channel_id: None };
    assert_eq!(get_pinned_messages(Some(ME), &nowhere, &none), no(error(400, "contactId or channelId required")));
    assert_eq!(get_pinned_messages(Some(ME), &ch, &none), PinnedStep::CheckChannel);
    let f = ListFacts { channel_access: Some(false), ..none };
    assert_eq!(get_pinned_messages(Some(ME), &ch, &f), no(error(403, "Access denied")));
    let f = ListFacts { channel_access: Some(true), ..none };
    let bad = PinnedBody { contact_id: None, channel_id: some("x") };
    assert_eq!(get_pinned_messages(Some(ME), &bad, &f), no(error(400, "Invalid channel id")));
    assert_eq!(get_pinned_messages(Some(ME), &ch, &f), PinnedStep::FindPinned {
        at: Where::Channel(id(CHAN)),
        filter: pinned_filter(),
    });
    let g = ListFacts { found: Some(Done::Failed), ..f };
    assert_eq!(get_pinned_messages(Some(ME), &ch, &g), no(error(500, "Internal Server Error")));
    let g = ListFacts { found: Some(Done::Worked), ..f };
    assert_eq!(get_pinned_messages(Some(ME), &ch, &g), PinnedStep::Reply);
    assert_eq!(search_messages(Some(ME), &dm, pattern, &none), SearchStep::CheckDm);
    let f = ListFacts { dm_access: Some(Reading::Denied("x")), ..none };
    assert_eq!(search_messages(Some(ME), &dm, pattern, &f), not(error(403, "Access denied")));
    let f = ListFacts { dm_access: Some(Reading::Granted { me: id(ME), other: id(OTHER) }), ..none };
    assert_eq!(
        search_messages(Some(ME), &dm, pattern, &f),
        SearchStep::FindMatching {
            at: Where::Dm { me: id(ME), other: id(OTHER) },
            filter: PatternFilter {
                pattern: "p".to_string(),
                kind: "TEXT",
                deleted: false,
                newest_by: "timestamp",
                limit: 50,
            },
        }
    );
    let spaced = SearchMessagesBody { query: some(" a b "), contact_id: some(OTHER), channel_id: None };
    assert_eq!(search_messages(Some(ME), &spaced, None, &none), SearchStep::MakePattern("a b".to_string()));
}

#[test]
fn compact_preview_and_upload() {
    let body = LinkPreviewBody { url: some("https://x") };
    let f = PreviewFacts { counted: Some(true), safe: Some(true), fetched: None };
    assert_eq!(link_preview(Some(ME), &body, &f), PreviewStep::Fetch("https://x".to_string()));
    let limits = UploadLimits { image_bytes: 1048576, file_bytes: 2097152 };
    let f = UploadFacts {
        magic: Some(true),
        document: None,
        size: Some(Some(true)),
        quota: Some(Err(0)),
        wait: None,
        access: None,
        prepared: Some(Prepared::Unreadable),
        exceeds: None,
        put: None,
        put_thumb: None,
        registered: None,
        too_many_pending: None,
        adjusted: None,
        removed: false,
        claimed: false,
        logged: false,
    };
    let ctx = upload_context("dm", OTHER);
    let place = UploadPlace {
        unique: "u".to_string(),
        path: None,
        thumb_path: None,
        declared: None,
        found: None,
    };
    assert_eq!(
        upload_file(Some(ME), "a.png", "png", true, &limits, &ctx, &place, &f),
        UploadStep::RefuseQuota { retry_after: 0 }
    );
    let f = UploadFacts { quota: Some(Ok(())), access: Some(Access::Unavailable("x")), ..f };
    assert_eq!(
        upload_file(Some(ME), "a.png", "png", true, &limits, &ctx, &place, &f),
        UploadStep::Refuse(plain(403, "You cannot upload to this conversation."))
    );
}
