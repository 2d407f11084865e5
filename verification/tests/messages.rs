//! Messages: history, edits, deletions, pins, search, previews and uploads.

use klovy_chat_server::controllers::messages::{
    access_refusal, account_refusal, allowed_extension, attachment_limit_text, channel_mention_candidates,
    clamp_page_size, delete_message, dm_mention_candidates, edit_fanout, edit_message, fallback_recipients,
    get_messages, get_pinned_messages, internal_again, link_preview, mention_preview, mute_scope,
    newly_mentioned, pin_fallback_recipients, pin_message, pin_pair_recipients, preview_rate_key,
    preview_target, readers_to_tell, search_messages, search_query, stored_name, too_large_text,
    unpin_message, unread_affected, upload_context, upload_extension, upload_file, upload_name, Cursor,
    DeleteFacts, DeleteStep, Deletion, DeletionScope, EditNews, FileKind, MentionNotice, mention_notice, Tip, EditFacts, EditPatch, EditStep, EditWork, PinPatch, PinState, Room, SearchFilter, FanoutFacts, FanoutStep, GetMessagesBody,
    HistoryFacts, HistoryStep, LinkPreviewBody, PinFacts, PinRight, PinStep, PinnedBody, PinnedFacts,
    PinnedStep, Prepared, PreviewFacts, PreviewStep, ReadMark, Readers, SearchFacts, SearchMessagesBody,
    SearchStep, Target, UploadContext, UploadFacts, UploadLimits, UploadPlace, UploadStep, apply_pin, pin_patch, pinned_filter,
    make_edit_patch,
};
use klovy_chat_server::ids::Oid;
use klovy_chat_server::model::{Account, DmAccess, Place};
use klovy_chat_server::reply::{again, error, plain, titled, unavailable, Access, Answer, Done, Lookup, Quota, Wrote};

const ME: &str = "0000000000000000000000a1";
const OTHER: &str = "0000000000000000000000b2";
const THIRD: &str = "0000000000000000000000c3";
const MSG: &str = "0000000000000000000000d4";
const CHAN: &str = "0000000000000000000000e5";

fn id(s: &str) -> Oid {
    match Oid::parse(s) {
        Some(o) => o,
        None => panic!("not an identifier"),
    }
}

fn some(s: &str) -> Option<String> {
    Some(s.to_string())
}

fn history(before: Option<&str>, limit: Option<i64>) -> GetMessagesBody {
    GetMessagesBody { id: some(OTHER), limit, before: before.map(|s| s.to_string()) }
}

const NO_HISTORY: HistoryFacts = HistoryFacts { access: None, cursor: None, page: None };

#[test]
fn page_sizes_are_clamped() {
    assert_eq!(clamp_page_size(None), 30);
    assert_eq!(clamp_page_size(Some(0)), 1);
    assert_eq!(clamp_page_size(Some(i64::MIN)), 1);
    assert_eq!(clamp_page_size(Some(50)), 50);
    assert_eq!(clamp_page_size(Some(51)), 50);
}

#[test]
fn history_is_read_step_by_step() {
    let b = history(Some(MSG), Some(20));
    let mut f = NO_HISTORY;
    assert_eq!(get_messages(Some(ME), &b, &f), HistoryStep::Authorize);
    f.access = Some(DmAccess::Granted { me: id(ME), other: id(OTHER) });
    assert_eq!(get_messages(Some(ME), &b, &f), HistoryStep::CheckCursor { me: id(ME), other: id(OTHER) });
    f.cursor = Some(Cursor::At(id(MSG)));
    assert_eq!(
        get_messages(Some(ME), &b, &f),
        HistoryStep::Find { me: id(ME), other: id(OTHER), before: Some(id(MSG)), fetch: 21 }
    );
    f.page = Some(Done::Worked);
    assert_eq!(get_messages(Some(ME), &b, &f), HistoryStep::Page { me: id(ME), other: id(OTHER), limit: 20 });
    f.cursor = None;
    f.page = None;
    assert_eq!(
        get_messages(Some(ME), &history(None, None), &f),
        HistoryStep::Find { me: id(ME), other: id(OTHER), before: None, fetch: 31 }
    );
}

#[test]
fn history_refusals() {
    let b = history(Some(MSG), None);
    let granted = Some(DmAccess::Granted { me: id(ME), other: id(OTHER) });
    assert_eq!(
        get_messages(None, &b, &NO_HISTORY),
        HistoryStep::Refuse(titled(401, "UNAUTHORIZED", "Authentication required."))
    );
    assert_eq!(
        get_messages(Some(ME), &GetMessagesBody { id: some(""), limit: None, before: None }, &NO_HISTORY),
        HistoryStep::Refuse(titled(400, "INVALID_REQUEST", "Contact id is required."))
    );
    let f = HistoryFacts { access: Some(DmAccess::Unavailable), ..NO_HISTORY };
    assert_eq!(get_messages(Some(ME), &b, &f), HistoryStep::Refuse(unavailable()));
    let f = HistoryFacts { access: Some(DmAccess::Denied("Nie")), ..NO_HISTORY };
    assert_eq!(get_messages(Some(ME), &b, &f), HistoryStep::Refuse(titled(403, "ACCESS_DENIED", "Nie")));
    let f = HistoryFacts { access: granted, cursor: Some(Cursor::Unavailable), page: None };
    assert_eq!(
        get_messages(Some(ME), &b, &f),
        HistoryStep::Refuse(again(titled(503, "UNAVAILABLE", "Temporarily unavailable. Retry.")))
    );
    let f = HistoryFacts { access: granted, cursor: Some(Cursor::Invalid), page: None };
    assert_eq!(
        get_messages(Some(ME), &b, &f),
        HistoryStep::Refuse(titled(400, "INVALID_CURSOR", "Invalid pagination cursor."))
    );
    let f = HistoryFacts { access: granted, cursor: Some(Cursor::At(id(MSG))), page: Some(Done::Failed) };
    assert_eq!(get_messages(Some(ME), &b, &f), HistoryStep::Refuse(plain(500, "Internal Server Error")));
}

const NO_EDIT: EditFacts = EditFacts {
    account: None,
    message: None,
    access: None,
    channel: None,
    channel_again: None,
    mentions: None,
    encoded: None,
    sealed: None,
    indexed: None,
    wrote: None,
    reread: None,
    reread_again: None,
};

fn room() -> Room {
    Room { members: vec![id(OTHER)], admin: id(ME) }
}

fn work() -> EditWork {
    EditWork {
        mentions: vec![id(OTHER)],
        names_everyone: true,
        sealed: "sealed".to_string(),
        search_text: "hej".to_string(),
        search_tokens: vec!["t1".to_string()],
    }
}

fn patch(mentions_everyone: bool) -> EditPatch {
    EditPatch {
        content: "sealed".to_string(),
        search_text: "hej".to_string(),
        search_tokens: vec!["t1".to_string()],
        mentions: vec![id(OTHER)],
        mentions_everyone,
        edited: true,
    }
}

fn edit(f: &EditFacts) -> EditStep {
    edit_message(Some(ME), MSG, " hej ", true, &room(), &work(), f)
}

fn mine(place: Place) -> Option<Lookup<Target>> {
    Some(Lookup::Found(Target { sender: id(ME), is_text: true, place }))
}

#[test]
fn edit_runs_through_its_steps() {
    let target = Target { sender: id(ME), is_text: true, place: Place::Channel(id(CHAN)) };
    let mut f = NO_EDIT;
    assert_eq!(edit(&f), EditStep::LoadAccount(id(ME)));
    f.account = Some(Account::Allowed);
    assert_eq!(edit(&f), EditStep::LoadMessage(id(MSG)));
    f.message = Some(Lookup::Found(target));
    assert_eq!(edit(&f), EditStep::CheckParticipant);
    f.access = Some(Access::Granted);
    assert_eq!(edit(&f), EditStep::LoadChannel(id(CHAN)));
    f.channel = Some(Lookup::Failed);
    assert_eq!(edit(&f), EditStep::ReloadChannel(id(CHAN)));
    f.channel_again = Some(Lookup::Found(()));
    assert_eq!(edit(&f), EditStep::ResolveMentions {
        content: " hej ".to_string(),
        candidates: vec![OTHER.to_string(), ME.to_string()],
    });
    f.mentions = Some(Done::Worked);
    assert_eq!(edit(&f), EditStep::EncodeMentions(vec![id(OTHER)]));
    f.encoded = Some(Done::Worked);
    assert_eq!(edit(&f), EditStep::SealContent("hej".to_string()));
    f.sealed = Some(Done::Worked);
    assert_eq!(edit(&f), EditStep::IndexContent("hej".to_string()));
    f.indexed = Some(Done::Worked);
    assert_eq!(edit(&f), EditStep::Write { message: id(MSG), patch: patch(true), unless_deleted: true });
    let dm = EditFacts { message: mine(Place::Dm(id(OTHER))), ..f };
    assert_eq!(edit(&dm), EditStep::Write { message: id(MSG), patch: patch(false), unless_deleted: true });
    assert_eq!(make_edit_patch(&work(), Place::Dm(id(OTHER))), patch(false));
    f.wrote = Some(Wrote::Changed);
    assert_eq!(edit(&f), EditStep::Reread(id(MSG)));
    f.reread = Some(Lookup::Failed);
    assert_eq!(edit(&f), EditStep::RereadAgain(id(MSG)));
    f.reread_again = Some(Lookup::Found(target));
    assert_eq!(edit(&f), EditStep::Publish(target));
    f.reread = Some(Lookup::Found(target));
    assert_eq!(edit(&f), EditStep::Publish(target));
}

#[test]
fn edit_refusals() {
    let no = EditStep::Refuse;
    assert_eq!(edit_message(None, MSG, "x", true, &room(), &work(), &NO_EDIT), no(error(401, "Unauthorized")));
    assert_eq!(edit_message(Some(ME), "zz", "x", true, &room(), &work(), &NO_EDIT), no(error(404, "Message not found")));
    let f = EditFacts { account: Some(Account::Blocked), ..NO_EDIT };
    assert_eq!(edit(&f), no(error(403, "Account is inactive or blocked")));
    let f = EditFacts { account: Some(Account::Missing), ..NO_EDIT };
    assert_eq!(edit(&f), no(error(401, "User not found")));
    let f = EditFacts { account: Some(Account::Unavailable), ..NO_EDIT };
    assert_eq!(edit(&f), no(unavailable()));
    let known = EditFacts { account: Some(Account::Allowed), ..NO_EDIT };
    let f = EditFacts { message: Some(Lookup::Missing), ..known };
    assert_eq!(edit(&f), no(error(404, "Message not found")));
    let f = EditFacts { message: Some(Lookup::Failed), ..known };
    assert_eq!(edit(&f), no(internal_again()));
    let theirs = Target { sender: id(OTHER), is_text: true, place: Place::Dm(id(ME)) };
    let f = EditFacts { message: Some(Lookup::Found(theirs)), ..known };
    assert_eq!(edit(&f), no(error(403, "Not authorized to edit this message")));
    let file = Target { sender: id(ME), is_text: false, place: Place::Dm(id(OTHER)) };
    let f = EditFacts { message: Some(Lookup::Found(file)), ..known };
    assert_eq!(edit(&f), no(error(400, "Only text messages can be edited")));
    let f = EditFacts { message: mine(Place::Dm(id(OTHER))), access: Some(Access::Denied("no")), ..known };
    assert_eq!(edit(&f), no(error(403, "no")));
    let f = EditFacts { message: mine(Place::Dm(id(OTHER))), access: Some(Access::Unavailable("later")), ..known };
    assert_eq!(edit(&f), no(again(error(503, "later"))));
    let in_dm = EditFacts { message: mine(Place::Dm(id(OTHER))), access: Some(Access::Granted), ..known };
    assert_eq!(
        edit_message(Some(ME), MSG, "  \n", true, &room(), &work(), &in_dm),
        no(error(400, "Treść wiadomości jest wymagana"))
    );
    assert_eq!(
        edit_message(Some(ME), MSG, "x", false, &room(), &work(), &in_dm),
        no(error(400, "Wiadomość nie może przekraczać 2000 znaków"))
    );
    let f = EditFacts { message: mine(Place::Nowhere), ..in_dm };
    assert_eq!(edit(&f), no(error(400, "Invalid message")));
    let in_channel = EditFacts { message: mine(Place::Channel(id(CHAN))), ..in_dm };
    let f = EditFacts { channel: Some(Lookup::Missing), ..in_channel };
    assert_eq!(edit(&f), no(error(404, "Channel not found")));
    let f = EditFacts { channel: Some(Lookup::Failed), channel_again: Some(Lookup::Missing), ..in_channel };
    assert_eq!(edit(&f), no(error(404, "Channel not found")));
    let f = EditFacts { channel: Some(Lookup::Failed), channel_again: Some(Lookup::Failed), ..in_channel };
    assert_eq!(edit(&f), no(internal_again()));
    let f = EditFacts { mentions: Some(Done::Failed), ..in_dm };
    assert_eq!(edit(&f), no(unavailable()));
    let ok = Some(Done::Worked);
    let f = EditFacts { mentions: ok, encoded: Some(Done::Failed), ..in_dm };
    assert_eq!(edit(&f), no(internal_again()));
    let f = EditFacts { mentions: ok, encoded: ok, sealed: Some(Done::Failed), ..in_dm };
    assert_eq!(edit(&f), no(internal_again()));
    let f = EditFacts { mentions: ok, encoded: ok, sealed: ok, indexed: Some(Done::Failed), ..in_dm };
    assert_eq!(edit(&f), no(internal_again()));
    let ready = EditFacts { mentions: ok, encoded: ok, sealed: ok, indexed: ok, ..in_dm };
    let f = EditFacts { wrote: Some(Wrote::Failed), ..ready };
    assert_eq!(edit(&f), no(internal_again()));
    let f = EditFacts { wrote: Some(Wrote::Unchanged), ..ready };
    assert_eq!(edit(&f), no(error(404, "Message not found")));
    let f = EditFacts {
        wrote: Some(Wrote::Changed),
        reread: Some(Lookup::Missing),
        reread_again: Some(Lookup::Failed),
        ..ready
    };
    assert_eq!(edit(&f), no(internal_again()));
}

#[test]
fn refusals_by_account_and_access() {
    assert_eq!(account_refusal(Account::Unavailable), unavailable());
    assert_eq!(access_refusal(Access::Denied("x")), error(403, "x"));
    assert_eq!(internal_again(), again(error(500, "Internal server error")));
}

#[test]
fn edit_is_stored_for_its_sender_only() {
    let f = EditFacts { account: Some(Account::Allowed), message: mine(Place::Dm(id(OTHER))), ..NO_EDIT };
    assert_eq!(
        edit_message(Some(OTHER), MSG, "x", true, &room(), &work(), &f),
        EditStep::Refuse(error(403, "Not authorized to edit this message"))
    );
}

#[test]
fn mention_candidates_and_scopes() {
    assert_eq!(channel_mention_candidates(&vec![id(ME)], id(OTHER)), vec![ME, OTHER]);
    assert_eq!(channel_mention_candidates(&vec![id(ME)], id(ME)), vec![ME, ME]);
    assert_eq!(dm_mention_candidates(id(ME), id(OTHER)), vec![ME, OTHER]);
    assert_eq!(mute_scope(&vec![id(ME)], id(ME)), vec![id(ME)]);
    assert_eq!(mute_scope(&vec![id(ME)], id(OTHER)), vec![id(ME), id(OTHER)]);
}

#[test]
fn sender_and_muted_hear_of_no_mention() {
    let all = vec![ME.to_string(), OTHER.to_string(), THIRD.to_string()];
    let muted = vec![THIRD.to_string()];
    let names = vec![id(ME), id(OTHER), id(THIRD)];
    assert_eq!(newly_mentioned(&all, ME, Some(&muted), &names, &vec![], false, false), vec![OTHER]);
    assert_eq!(newly_mentioned(&all, ME, Some(&muted), &vec![], &vec![], true, false), vec![OTHER]);
    assert!(newly_mentioned(&all, ME, None, &names, &vec![], true, false).is_empty());
}

#[test]
fn no_new_mention_without_new_names() {
    let all = vec![ME.to_string(), OTHER.to_string()];
    let names = vec![id(OTHER)];
    assert!(newly_mentioned(&all, ME, Some(&vec![]), &names, &names, true, true).is_empty());
    assert_eq!(newly_mentioned(&all, ME, Some(&vec![]), &names, &names, true, false), vec![OTHER]);
}

#[test]
fn mention_previews_hold_140_characters() {
    assert_eq!(mention_preview("  hej  "), "hej");
    assert_eq!(mention_preview("ż".repeat(140).as_str()), "ż".repeat(140));
    assert_eq!(mention_preview("ż".repeat(141).as_str()), format!("{}…", "ż".repeat(140)));
}

#[test]
fn readers_join_the_first_recipients_once() {
    assert_eq!(fallback_recipients(&vec![ME.to_string()], &vec![id(OTHER), id(ME), id(OTHER)]), vec![ME, OTHER]);
}

fn news() -> EditNews {
    EditNews {
        message: id(MSG),
        sender: id(ME),
        content: " hej ".to_string(),
        mentions: vec![id(OTHER)],
        previous: vec![],
        everyone: false,
        previous_everyone: false,
        room: room(),
        channel_name: "Ogólny".to_string(),
        recipients: vec![ME.to_string(), OTHER.to_string(), THIRD.to_string()],
        muted: vec![THIRD.to_string()],
        readers: vec![id(THIRD), id(ME)],
    }
}

fn notice(scope: &'static str, source: &str, source_name: Option<&str>) -> Option<MentionNotice> {
    Some(MentionNotice {
        event: "message-mention",
        scope,
        source: source.to_string(),
        source_name: source_name.map(|s| s.to_string()),
        message: MSG.to_string(),
        from: ME.to_string(),
        preview: "hej".to_string(),
    })
}

fn told(to: &[&str], mentioned: &[&str], notice: Option<MentionNotice>) -> FanoutStep {
    let own = |v: &[&str]| v.iter().map(|s| s.to_string()).collect();
    FanoutStep::Tell {
        to: own(to),
        event: "message-edited",
        mentioned: own(mentioned),
        notice,
    }
}

#[test]
fn edit_fanout_steps() {
    let fresh = FanoutFacts {
        tip_stored: false,
        mute_channel: None,
        muted: None,
        recipient_muted: None,
        channel: None,
        readers_sought: false,
    };
    let none = FanoutFacts { tip_stored: true, ..fresh };
    let c = Place::Channel(id(CHAN));
    let in_channel = || notice("channel", CHAN, Some("Ogólny"));
    let in_dm = || notice("dm", ME, None);
    assert_eq!(edit_fanout(c, &news(), &fresh), FanoutStep::StoreTip(c));
    assert_eq!(edit_fanout(c, &news(), &none), FanoutStep::LoadChannelForMutes(id(CHAN)));
    let f = FanoutFacts { mute_channel: Some(Lookup::Found(())), ..none };
    assert_eq!(
        edit_fanout(c, &news(), &f),
        FanoutStep::FindMuted { channel: id(CHAN), users: vec![id(OTHER), id(ME)] }
    );
    let f = FanoutFacts { muted: Some(Done::Worked), ..f };
    assert_eq!(edit_fanout(c, &news(), &f), FanoutStep::LoadChannel(id(CHAN)));
    let g = FanoutFacts { channel: Some(Lookup::Found(())), ..f };
    assert_eq!(edit_fanout(c, &news(), &g), told(&[ME, OTHER, THIRD], &[OTHER], in_channel()));
    let all = EditNews { everyone: true, muted: vec![], ..news() };
    assert_eq!(edit_fanout(c, &all, &g), told(&[ME, OTHER, THIRD], &[OTHER, THIRD], in_channel()));
    let g = FanoutFacts { muted: Some(Done::Failed), ..g };
    assert_eq!(edit_fanout(c, &news(), &g), told(&[ME, OTHER, THIRD], &[], in_channel()));
    let g = FanoutFacts { channel: Some(Lookup::Failed), ..f };
    assert_eq!(edit_fanout(c, &news(), &g), FanoutStep::FindReaders(id(CHAN)));
    let g = FanoutFacts { readers_sought: true, ..g };
    assert_eq!(edit_fanout(c, &news(), &g), told(&[ME, THIRD], &[], None));
    let d = Place::Dm(id(OTHER));
    assert_eq!(edit_fanout(d, &news(), &none), FanoutStep::LoadRecipient(id(OTHER)));
    let f = FanoutFacts { recipient_muted: Some(Lookup::Found(false)), ..none };
    assert_eq!(edit_fanout(d, &news(), &f), told(&[OTHER, ME], &[OTHER], in_dm()));
    let f = FanoutFacts { recipient_muted: Some(Lookup::Found(true)), ..none };
    assert_eq!(edit_fanout(d, &news(), &f), told(&[OTHER, ME], &[], in_dm()));
    let f = FanoutFacts { recipient_muted: Some(Lookup::Failed), ..none };
    assert_eq!(edit_fanout(d, &news(), &f), told(&[OTHER, ME], &[], in_dm()));
    assert_eq!(edit_fanout(Place::Nowhere, &news(), &none), told(&[], &[], None));
    assert_eq!(mention_notice(c, &news()), in_channel());
    assert_eq!(mention_notice(d, &news()), in_dm());
    assert_eq!(mention_notice(Place::Nowhere, &news()), None);
}

const NO_DELETE: DeleteFacts = DeleteFacts {
    message: None,
    access: None,
    deletion: None,
    cleaned: false,
    channel: None,
    channel_again: None,
    marks: None,
    readers: None,
};

fn scope() -> DeletionScope {
    DeletionScope {
        file_url: some("u"),
        sent: 40,
        room: Room { members: vec![id(ME), id(OTHER)], admin: id(THIRD) },
        marks: vec![
            ReadMark { user: id(OTHER), last_read: 50, created: 1 },
            ReadMark { user: id(THIRD), last_read: 0, created: 20 },
        ],
        readers: vec![id(THIRD), id(ME), id(THIRD)],
    }
}

fn deletion(f: &DeleteFacts) -> DeleteStep {
    delete_message(Some(ME), MSG, &scope(), f)
}

#[test]
fn deletion_runs_through_its_steps() {
    let message = || MSG.to_string();
    let event = "message-deleted";
    let code = "DELETE_FANOUT_DEGRADED";
    let mut f = NO_DELETE;
    assert_eq!(deletion(&f), DeleteStep::LoadMessage(id(MSG)));
    f.message = mine(Place::Channel(id(CHAN)));
    assert_eq!(deletion(&f), DeleteStep::CheckParticipant);
    f.access = Some(Access::Granted);
    assert_eq!(deletion(&f), DeleteStep::SoftDelete(id(MSG)));
    f.deletion = Some(Deletion::Deleted { was_unread: true });
    assert_eq!(
        deletion(&f),
        DeleteStep::CleanUp { id: id(MSG), file_url: some("u"), tip: Tip::Channel(id(CHAN)) }
    );
    f.cleaned = true;
    assert_eq!(deletion(&f), DeleteStep::LoadChannel(id(CHAN)));
    f.channel = Some(Lookup::Failed);
    assert_eq!(deletion(&f), DeleteStep::ReloadChannel(id(CHAN)));
    f.channel_again = Some(Lookup::Found(()));
    assert_eq!(
        deletion(&f),
        DeleteStep::TellAndLoadMarks {
            channel: id(CHAN),
            message: message(),
            event,
            users: vec![id(ME), id(OTHER), id(THIRD)],
        }
    );
    f.marks = Some(Done::Worked);
    assert_eq!(deletion(&f), DeleteStep::RecountAndReply { channel: id(CHAN), users: vec![id(THIRD)] });
    f.marks = Some(Done::Failed);
    assert_eq!(
        deletion(&f),
        DeleteStep::RecountAndReply { channel: id(CHAN), users: vec![id(OTHER), id(THIRD)] }
    );
    f.channel = Some(Lookup::Missing);
    assert_eq!(
        deletion(&f),
        DeleteStep::WarnAndFindReaders { channel: id(CHAN), sender: id(ME), message: message(), event, code }
    );
    f.readers = Some(Readers::Listed);
    assert_eq!(
        deletion(&f),
        DeleteStep::TellReaders {
            channel: id(CHAN),
            users: vec![id(THIRD)],
            message: message(),
            event,
            recount: true,
        }
    );
    f.readers = Some(Readers::BrokeOff);
    assert_eq!(deletion(&f), DeleteStep::ReplyDegraded { sender: id(ME), message: message(), code });
    f.readers = Some(Readers::NotSearched);
    assert_eq!(deletion(&f), DeleteStep::ReplyDone);
    f.message = mine(Place::Dm(id(OTHER)));
    assert_eq!(
        deletion(&f),
        DeleteStep::TellPair {
            sender: id(ME),
            recipient: id(OTHER),
            message: message(),
            event,
            recount: true,
        }
    );
    f.cleaned = false;
    assert_eq!(
        deletion(&f),
        DeleteStep::CleanUp {
            id: id(MSG),
            file_url: some("u"),
            tip: Tip::Dm { sender: id(ME), recipient: id(OTHER) },
        }
    );
    f.deletion = Some(Deletion::Already);
    assert_eq!(deletion(&f), DeleteStep::ReplyDone);
}

#[test]
fn deletion_refusals() {
    let no = DeleteStep::Refuse;
    assert_eq!(delete_message(None, MSG, &scope(), &NO_DELETE), no(error(401, "User not authenticated")));
    assert_eq!(delete_message(Some(ME), "x", &scope(), &NO_DELETE), no(error(404, "Message not found")));
    let f = DeleteFacts { message: Some(Lookup::Missing), ..NO_DELETE };
    assert_eq!(deletion(&f), no(error(404, "Message not found")));
    let f = DeleteFacts { message: Some(Lookup::Failed), ..NO_DELETE };
    assert_eq!(deletion(&f), no(internal_again()));
    let known = DeleteFacts { message: mine(Place::Dm(id(OTHER))), ..NO_DELETE };
    assert_eq!(delete_message(Some(OTHER), MSG, &scope(), &known), no(error(403, "Not authorized to delete this message")));
    let f = DeleteFacts { access: Some(Access::Denied("x")), ..known };
    assert_eq!(deletion(&f), no(error(403, "x")));
    let f = DeleteFacts { access: Some(Access::Granted), deletion: Some(Deletion::Failed), ..known };
    assert_eq!(deletion(&f), no(again(error(500, "Failed to delete message"))));
}

#[test]
fn deletion_is_not_refused_afterwards() {
    for place in [Place::Nowhere, Place::Dm(id(OTHER)), Place::Channel(id(CHAN))] {
        for channel in [Lookup::Missing, Lookup::Failed] {
            let f = DeleteFacts {
                message: mine(place),
                access: Some(Access::Granted),
                deletion: Some(Deletion::Deleted { was_unread: false }),
                cleaned: true,
                channel: Some(channel),
                channel_again: Some(Lookup::Failed),
                marks: None,
                readers: Some(Readers::BrokeOff),
            };
            assert!(!matches!(deletion(&f), DeleteStep::Refuse(_)));
        }
    }
}

#[test]
fn deletion_recounts_who_may_not_have_read() {
    let marks = vec![
        ReadMark { user: id(OTHER), last_read: 50, created: 1 },
        ReadMark { user: id(THIRD), last_read: 0, created: 20 },
    ];
    let members = vec![id(ME), id(OTHER), id(OTHER)];
    assert_eq!(unread_affected(&members, id(THIRD), id(ME), Some(&marks), 40), vec![id(THIRD)]);
    assert_eq!(unread_affected(&members, id(THIRD), id(ME), Some(&marks), 60), vec![id(OTHER), id(THIRD)]);
    assert_eq!(unread_affected(&members, id(CHAN), id(ME), Some(&marks), 10), vec![id(CHAN)]);
    let zero = vec![ReadMark { user: id(OTHER), last_read: 0, created: 0 }];
    assert_eq!(unread_affected(&vec![id(OTHER)], id(ME), id(ME), Some(&zero), 10), vec![]);
}

#[test]
fn sender_is_not_recounted() {
    assert_eq!(unread_affected(&vec![id(ME), id(OTHER)], id(ME), id(ME), None, 0), vec![id(OTHER)]);
    assert_eq!(readers_to_tell(&vec![id(OTHER), id(ME), id(OTHER)], id(ME)), vec![id(OTHER)]);
}

const NO_PIN: PinFacts = PinFacts { message: None, right: None, wrote: None, reread: None, reread_again: None };

#[test]
fn pin_runs_through_its_steps() {
    let mut f = NO_PIN;
    assert_eq!(pin_message(Some(ME), MSG, &f), PinStep::LoadMessage(id(MSG)));
    f.message = Some(Lookup::Found(false));
    assert_eq!(pin_message(Some(ME), MSG, &f), PinStep::CheckRight);
    f.right = Some(PinRight::Yes);
    assert_eq!(pin_message(Some(ME), MSG, &f), PinStep::Pin { message: id(MSG), patch: pin_patch(Some(id(ME))) });
    assert_eq!(unpin_message(Some(ME), MSG, &f), PinStep::Unpin { message: id(MSG), patch: pin_patch(None) });
    assert_eq!(unpin_message(Some("nobody"), MSG, &f), PinStep::Unpin { message: id(MSG), patch: pin_patch(None) });
    f.wrote = Some(Done::Worked);
    assert_eq!(pin_message(Some(ME), MSG, &f), PinStep::Reread(id(MSG)));
    f.reread = Some(Lookup::Missing);
    assert_eq!(pin_message(Some(ME), MSG, &f), PinStep::RereadAgain(id(MSG)));
    f.reread_again = Some(Lookup::Failed);
    assert_eq!(pin_message(Some(ME), MSG, &f), PinStep::PublishPatched(pin_patch(Some(id(ME)))));
    f.reread_again = Some(Lookup::Found(()));
    assert_eq!(unpin_message(Some(ME), MSG, &f), PinStep::PublishStored);
    f.reread = Some(Lookup::Found(()));
    assert_eq!(pin_message(Some(ME), MSG, &f), PinStep::PublishStored);
}

#[test]
fn unpinning_undoes_pinning() {
    assert_eq!(pin_patch(Some(id(ME))), PinPatch { pinned: true, pinned_by: Some(id(ME)) });
    assert_eq!(
        apply_pin(pin_patch(Some(id(ME))), 7),
        PinState { pinned: true, pinned_by: Some(id(ME)), pinned_at: Some(7) }
    );
    assert_eq!(apply_pin(pin_patch(None), 8), PinState { pinned: false, pinned_by: None, pinned_at: None });
}

#[test]
fn pin_refusals() {
    let no = PinStep::Refuse;
    assert_eq!(pin_message(None, MSG, &NO_PIN), no(error(401, "Unauthorized")));
    assert_eq!(pin_message(Some(ME), "x", &NO_PIN), no(error(404, "Message not found")));
    let f = PinFacts { message: Some(Lookup::Failed), ..NO_PIN };
    assert_eq!(pin_message(Some(ME), MSG, &f), no(unavailable()));
    let f = PinFacts { message: Some(Lookup::Found(true)), ..NO_PIN };
    assert_eq!(pin_message(Some(ME), MSG, &f), no(error(404, "Message not found")));
    let known = PinFacts { message: Some(Lookup::Found(false)), ..NO_PIN };
    let f = PinFacts { right: Some(PinRight::Unavailable), ..known };
    assert_eq!(unpin_message(Some(ME), MSG, &f), no(unavailable()));
    let f = PinFacts { right: Some(PinRight::No), ..known };
    assert_eq!(
        pin_message(Some(ME), MSG, &f),
        no(titled(403, "FORBIDDEN", "Nie masz uprawnień do przypinania tej wiadomości."))
    );
    assert_eq!(
        unpin_message(Some(ME), MSG, &f),
        no(titled(403, "FORBIDDEN", "Nie masz uprawnień do odpięcia tej wiadomości."))
    );
    let allowed = PinFacts { right: Some(PinRight::Yes), ..known };
    assert_eq!(pin_message(Some("nobody"), MSG, &allowed), no(error(400, "Invalid user id")));
    let f = PinFacts { wrote: Some(Done::Failed), ..allowed };
    assert_eq!(pin_message(Some(ME), MSG, &f), no(again(error(500, "Failed to pin message"))));
    assert_eq!(unpin_message(Some(ME), MSG, &f), no(again(error(500, "Failed to unpin message"))));
}

#[test]
fn pin_news_recipients() {
    assert_eq!(pin_fallback_recipients(ME, id(ME), &vec![id(OTHER), id(ME)]), vec![ME, OTHER]);
    assert_eq!(pin_fallback_recipients(ME, id(OTHER), &vec![]), vec![ME, OTHER]);
    assert_eq!(pin_pair_recipients(ME, id(ME), id(OTHER)), vec![OTHER, ME]);
    assert_eq!(pin_pair_recipients(THIRD, id(ME), id(OTHER)), vec![OTHER, ME, THIRD]);
}

#[test]
fn pinned_messages_steps_and_refusals() {
    let listed = pinned_filter();
    assert!(listed.pinned && !listed.deleted);
    assert_eq!(listed.newest_by, "pinnedAt");
    assert_eq!(listed.limit, 50);
    let none = PinnedFacts {
        channel_access: None,
        dm_access: None,
        found: None,
        shown: 0,
        may_pin_first: None,
        may_pin_here: None,
    };
    let no = PinnedStep::Refuse;
    let ch = PinnedBody { contact_id: None, channel_id: some(CHAN) };
    let dm = PinnedBody { contact_id: some(OTHER), channel_id: None };
    let bad = PinnedBody { contact_id: None, channel_id: some("zzz") };
    let empty = PinnedBody { contact_id: None, channel_id: None };
    assert_eq!(get_pinned_messages(None, &ch, &none), no(error(401, "Unauthorized")));
    assert_eq!(get_pinned_messages(Some(ME), &empty, &none), no(error(400, "contactId or channelId required")));
    assert_eq!(get_pinned_messages(Some(ME), &ch, &none), PinnedStep::CheckChannel);
    assert_eq!(get_pinned_messages(Some(ME), &dm, &none), PinnedStep::CheckDm);
    let f = PinnedFacts { channel_access: Some(Access::Unavailable("x")), ..none };
    assert_eq!(get_pinned_messages(Some(ME), &ch, &f), no(unavailable()));
    let f = PinnedFacts { channel_access: Some(Access::Denied("x")), ..none };
    assert_eq!(get_pinned_messages(Some(ME), &ch, &f), no(error(403, "Access denied")));
    let f = PinnedFacts { channel_access: Some(Access::Granted), ..none };
    assert_eq!(get_pinned_messages(Some(ME), &bad, &f), no(error(400, "Invalid channel id")));
    assert_eq!(
        get_pinned_messages(Some(ME), &ch, &f),
        PinnedStep::FindInChannel { channel: id(CHAN), filter: pinned_filter() }
    );
    let f = PinnedFacts { found: Some(Done::Failed), ..f };
    assert_eq!(get_pinned_messages(Some(ME), &ch, &f), no(unavailable()));
    let f = PinnedFacts { found: Some(Done::Worked), ..f };
    assert_eq!(get_pinned_messages(Some(ME), &ch, &f), PinnedStep::AskMayPinInChannel);
    let f = PinnedFacts { may_pin_here: Some(true), ..f };
    assert_eq!(get_pinned_messages(Some(ME), &ch, &f), PinnedStep::Reply { can_pin: true });
    let f = PinnedFacts { shown: 2, ..f };
    assert_eq!(get_pinned_messages(Some(ME), &ch, &f), PinnedStep::AskMayPinFirst);
    let f = PinnedFacts { may_pin_first: Some(false), ..f };
    assert_eq!(get_pinned_messages(Some(ME), &ch, &f), PinnedStep::Reply { can_pin: false });
    let f = PinnedFacts { dm_access: Some(DmAccess::Unavailable), ..none };
    assert_eq!(get_pinned_messages(Some(ME), &dm, &f), no(unavailable()));
    let f = PinnedFacts { dm_access: Some(DmAccess::Denied("x")), ..none };
    assert_eq!(get_pinned_messages(Some(ME), &dm, &f), no(error(403, "Access denied")));
    let f = PinnedFacts { dm_access: Some(DmAccess::Granted { me: id(ME), other: id(OTHER) }), ..none };
    assert_eq!(
        get_pinned_messages(Some(ME), &dm, &f),
        PinnedStep::FindInDm { me: id(ME), other: id(OTHER), filter: pinned_filter() }
    );
    let f = PinnedFacts { found: Some(Done::Worked), ..f };
    assert_eq!(get_pinned_messages(Some(ME), &dm, &f), PinnedStep::AskMayPinInDm);
}

fn search_for(query: &str) -> SearchMessagesBody {
    SearchMessagesBody { query: some(query), contact_id: None, channel_id: some(CHAN) }
}

const NO_SEARCH: SearchFacts = SearchFacts { channel_access: None, dm_access: None, found: None };

#[test]
fn search_steps_and_refusals() {
    let no = SearchStep::Refuse;
    let tokens = vec!["t1".to_string(), "t2".to_string()];
    let filter = || SearchFilter {
        tokens: vec!["t1".to_string(), "t2".to_string()],
        kind: "TEXT",
        deleted: false,
        newest_by: "timestamp",
        limit: 50,
    };
    let short = no(titled(400, "QUERY_TOO_SHORT", "Wpisz co najmniej 2 znaki."));
    assert_eq!(search_query(&search_for("  ab ")), "ab");
    assert_eq!(search_messages(None, &search_for("ab"), Some(&tokens), &NO_SEARCH), no(error(401, "Unauthorized")));
    assert_eq!(search_messages(Some(ME), &search_for(" a "), Some(&tokens), &NO_SEARCH), short);
    assert_eq!(
        search_messages(Some(ME), &search_for("ż".repeat(201).as_str()), Some(&tokens), &NO_SEARCH),
        no(titled(400, "QUERY_TOO_LONG", "Zapytanie może mieć co najwyżej 200 znaków."))
    );
    assert_eq!(search_messages(Some(ME), &search_for("ż".repeat(200).as_str()), Some(&tokens), &NO_SEARCH), SearchStep::CheckChannel);
    assert_eq!(
        search_messages(Some(ME), &search_for(" ab "), None, &NO_SEARCH),
        SearchStep::SplitQuery("ab".to_string())
    );
    assert_eq!(search_messages(Some(ME), &search_for("ab"), Some(&vec![]), &NO_SEARCH), short);
    let f = SearchFacts { channel_access: Some(Access::Denied("x")), ..NO_SEARCH };
    assert_eq!(search_messages(Some(ME), &search_for("ab"), Some(&tokens), &f), no(error(403, "Access denied")));
    let f = SearchFacts { channel_access: Some(Access::Granted), ..NO_SEARCH };
    assert_eq!(
        search_messages(Some(ME), &search_for("ab"), Some(&tokens), &f),
        SearchStep::FindInChannel { channel: id(CHAN), filter: filter() }
    );
    let f = SearchFacts { found: Some(Done::Failed), ..f };
    assert_eq!(search_messages(Some(ME), &search_for("ab"), Some(&tokens), &f), no(unavailable()));
    let f = SearchFacts { found: Some(Done::Worked), ..f };
    assert_eq!(search_messages(Some(ME), &search_for("ab"), Some(&tokens), &f), SearchStep::Reply);
    let dm = SearchMessagesBody { query: some("ab"), contact_id: some(OTHER), channel_id: some("") };
    assert_eq!(search_messages(Some(ME), &dm, Some(&tokens), &NO_SEARCH), SearchStep::CheckDm);
    let f = SearchFacts { dm_access: Some(DmAccess::Granted { me: id(ME), other: id(OTHER) }), ..NO_SEARCH };
    assert_eq!(
        search_messages(Some(ME), &dm, Some(&tokens), &f),
        SearchStep::FindInDm { me: id(ME), other: id(OTHER), filter: filter() }
    );
    let nowhere = SearchMessagesBody { query: some("ab"), contact_id: None, channel_id: None };
    assert_eq!(search_messages(Some(ME), &nowhere, Some(&tokens), &NO_SEARCH), no(error(400, "contactId or channelId required")));
    let bad = SearchMessagesBody { query: some("ab"), contact_id: None, channel_id: some("zz") };
    let f = SearchFacts { channel_access: Some(Access::Granted), ..NO_SEARCH };
    assert_eq!(search_messages(Some(ME), &bad, Some(&tokens), &f), no(error(400, "Invalid channel id")));
}

#[test]
fn preview_steps_and_refusals() {
    let no = PreviewStep::Refuse;
    let body = LinkPreviewBody { url: some(" https://x.pl ") };
    let none = PreviewFacts { counted: None, safe: None, fetched: None };
    assert_eq!(preview_target(&body), "https://x.pl");
    assert_eq!(preview_rate_key("u1"), "link-preview:u1");
    assert_eq!(
        link_preview(Some(""), &body, &none),
        no(titled(401, "UNAUTHORIZED", "Authentication required."))
    );
    assert_eq!(link_preview(Some(ME), &body, &none), PreviewStep::CountRequest {
        key: format!("link-preview:{ME}"),
        quota: Quota { max: 40, seconds: 60 },
    });
    let f = PreviewFacts { counted: Some(false), ..none };
    assert_eq!(
        link_preview(Some(ME), &body, &f),
        no(titled(429, "TOO_MANY_REQUESTS", "Too many preview requests."))
    );
    let f = PreviewFacts { counted: Some(true), ..none };
    assert_eq!(link_preview(Some(ME), &body, &f), PreviewStep::CheckTarget("https://x.pl".to_string()));
    let empty = LinkPreviewBody { url: None };
    assert_eq!(link_preview(Some(ME), &empty, &f), no(titled(400, "INVALID_URL", "Invalid preview URL.")));
    let f = PreviewFacts { safe: Some(false), ..f };
    assert_eq!(link_preview(Some(ME), &body, &f), no(titled(400, "INVALID_URL", "Invalid preview URL.")));
    let f = PreviewFacts { safe: Some(true), ..f };
    assert_eq!(link_preview(Some(ME), &body, &f), PreviewStep::Fetch("https://x.pl".to_string()));
    let f = PreviewFacts { fetched: Some(Err("timeout")), ..f };
    assert_eq!(link_preview(Some(ME), &body, &f), no(titled(502, "PREVIEW_UNAVAILABLE", "timeout")));
    let f = PreviewFacts { fetched: Some(Ok(())), ..f };
    assert_eq!(link_preview(Some(ME), &body, &f), PreviewStep::Reply);
}

#[test]
fn upload_names_and_kinds() {
    assert_eq!(upload_name(None), "");
    assert_eq!(upload_name(Some("C:\\dir/a.PNG")), "a.PNG");
    assert_eq!(upload_extension("a.PNG"), "png");
    assert_eq!(upload_extension("a.ŻÓŁ"), "żół");
    assert_eq!(upload_extension("Makefile"), "makefile");
    assert!(allowed_extension("webp"));
    assert!(!allowed_extension("exe"));
    let c = upload_context(" DM ", " x ");
    assert_eq!((c.kind.as_str(), c.id.as_str()), ("dm", "x"));
    assert_eq!(stored_name("u", "png", true), "u.webp");
    assert_eq!(stored_name("u", "pdf", false), "u.pdf");
    assert_eq!(too_large_text(25), "File too large. Maximum size is 25 MB.");
    assert_eq!(
        attachment_limit_text(20, 3659),
        "Osiągnięto limit 20 załączników na 60 minut. Spróbuj ponownie później."
    );
}

#[test]
fn upload_name_holds_no_separator() {
    for n in ["a/b", "/", "\\", "x\\y/z", "plain"] {
        let r = upload_name(Some(n));
        assert!(!r.contains('/') && !r.contains('\\'));
    }
}

const NO_UPLOAD: UploadFacts = UploadFacts {
    magic: None,
    document: None,
    size: None,
    quota: None,
    wait: None,
    access: None,
    prepared: None,
    exceeds: None,
    put: None,
    put_thumb: None,
    registered: None,
    too_many_pending: None,
    adjusted: None,
    removed: false,
    claimed: false,
    logged: false,
};

const LIMITS: UploadLimits = UploadLimits { image_bytes: 10_485_760, file_bytes: 26_214_400 };

fn place() -> UploadPlace {
    let found = FileKind { content_type: "image/webp".to_string(), hash: "h".to_string() };
    UploadPlace { found: Some(found), ..undescribed() }
}

fn undescribed() -> UploadPlace {
    UploadPlace {
        unique: "u".to_string(),
        path: some("p/u"),
        thumb_path: some("p/t"),
        declared: some("image/png"),
        found: None,
    }
}

fn unplaced() -> UploadPlace {
    UploadPlace { path: None, thumb_path: None, ..undescribed() }
}

fn image(f: &UploadFacts) -> UploadStep {
    upload_file(Some(ME), "a.png", "png", true, &LIMITS, &upload_context("dm", OTHER), &place(), f)
}

fn document(f: &UploadFacts) -> UploadStep {
    upload_file(Some(ME), "a.pdf", "pdf", false, &LIMITS, &upload_context("channel", CHAN), &place(), f)
}

#[test]
fn upload_runs_through_its_steps() {
    let mut f = NO_UPLOAD;
    assert_eq!(document(&f), UploadStep::CheckMagic);
    f.magic = Some(true);
    assert_eq!(document(&f), UploadStep::CheckDocument);
    assert_eq!(image(&f), UploadStep::MeasureFile { max_bytes: 10_485_760 });
    f.document = Some(true);
    assert_eq!(document(&f), UploadStep::MeasureFile { max_bytes: 26_214_400 });
    f.size = Some(Some(true));
    assert_eq!(document(&f), UploadStep::ConsumeQuota);
    f.quota = Some(Ok(()));
    assert_eq!(document(&f), UploadStep::CheckChannel);
    assert_eq!(image(&f), UploadStep::CheckDm);
    f.access = Some(Access::Granted);
    assert_eq!(
        upload_file(Some(ME), "a.png", "png", true, &LIMITS, &upload_context("dm", OTHER), &unplaced(), &f),
        UploadStep::MakePath {
            dm: true,
            owner: ME.to_string(),
            context: OTHER.to_string(),
            name: "u.webp".to_string(),
        }
    );
    assert_eq!(
        upload_file(Some(ME), "a.pdf", "pdf", false, &LIMITS, &upload_context("channel", CHAN), &unplaced(), &f),
        UploadStep::MakePath {
            dm: false,
            owner: ME.to_string(),
            context: CHAN.to_string(),
            name: "u.pdf".to_string(),
        }
    );
    assert_eq!(document(&f), UploadStep::ReadFile);
    assert_eq!(image(&f), UploadStep::Reencode);
    f.prepared = Some(Prepared::Ready { size: 100, thumb: Some(7), within_limit: true });
    assert_eq!(image(&f), UploadStep::CheckRoom { user: id(ME), bytes: 107 });
    f.exceeds = Some(Answer::No);
    let dm = upload_context("dm", OTHER);
    assert_eq!(
        upload_file(Some(ME), "a.png", "png", true, &LIMITS, &dm, &undescribed(), &f),
        UploadStep::Describe { ext: "webp".to_string(), declared: some("image/png") }
    );
    let channel = upload_context("channel", CHAN);
    assert_eq!(
        upload_file(Some(ME), "a.pdf", "pdf", false, &LIMITS, &channel, &undescribed(), &f),
        UploadStep::Describe { ext: "pdf".to_string(), declared: some("image/png") }
    );
    let webp = || "image/webp".to_string();
    assert_eq!(image(&f), UploadStep::Put { path: "p/u".to_string(), content_type: webp() });
    f.put = Some(Done::Worked);
    assert_eq!(image(&f), UploadStep::PutThumb { path: "p/t".to_string(), content_type: webp() });
    f.put_thumb = Some(Done::Worked);
    assert_eq!(image(&f), UploadStep::Register {
        user: id(ME),
        path: "p/u".to_string(),
        kind: "dm".to_string(),
        context: OTHER.to_string(),
        bytes: 107,
        hash: "h".to_string(),
    });
    f.registered = Some(Done::Worked);
    assert_eq!(image(&f), UploadStep::Adjust { user: id(ME), bytes: 107 });
    f.adjusted = Some(Done::Worked);
    assert_eq!(image(&f), UploadStep::Log {
        owner: ME.to_string(),
        path: "p/u".to_string(),
        kind: "dm".to_string(),
        context: OTHER.to_string(),
        bytes: 100,
    });
    f.logged = true;
    assert_eq!(image(&f), UploadStep::Reply { path: "p/u".to_string() });
}

#[test]
fn upload_sizes_saturate() {
    let f = UploadFacts {
        magic: Some(true),
        size: Some(Some(true)),
        quota: Some(Ok(())),
        access: Some(Access::Granted),
        prepared: Some(Prepared::Ready { size: u64::MAX, thumb: Some(1), within_limit: true }),
        ..NO_UPLOAD
    };
    assert_eq!(image(&f), UploadStep::CheckRoom { user: id(ME), bytes: u64::MAX });
}

#[test]
fn upload_refusals() {
    let no = UploadStep::Refuse;
    let dm = upload_context("dm", OTHER);
    let up = |user: Option<&str>, name: &str, ext: &str, ctx: &UploadContext, f: &UploadFacts| upload_file(user, name, ext, true, &LIMITS, ctx, &place(), f);
    assert_eq!(up(Some(ME), "", "png", &dm, &NO_UPLOAD), no(plain(400, "File is required.")));
    assert_eq!(up(Some(ME), "a.exe", "exe", &dm, &NO_UPLOAD), no(plain(400, "Invalid file type.")));
    let f = UploadFacts { magic: Some(false), ..NO_UPLOAD };
    assert_eq!(image(&f), no(plain(400, "Invalid file content.")));
    let f = UploadFacts { magic: Some(true), document: Some(false), ..NO_UPLOAD };
    assert_eq!(document(&f), no(plain(400, "Invalid file content.")));
    let f = UploadFacts { magic: Some(true), size: Some(None), ..NO_UPLOAD };
    assert_eq!(image(&f), UploadStep::RefuseTooLarge { limit_mb: 10 });
    let f = UploadFacts { magic: Some(true), document: Some(true), size: Some(Some(false)), ..NO_UPLOAD };
    assert_eq!(document(&f), UploadStep::RefuseTooLarge { limit_mb: 25 });
    let sized = UploadFacts { magic: Some(true), size: Some(Some(true)), ..NO_UPLOAD };
    assert_eq!(up(Some(ME), "a..png", "png", &dm, &sized), no(plain(400, "Invalid file name.")));
    assert_eq!(up(Some(ME), "a/b.png", "png", &dm, &sized), no(plain(400, "Invalid file name.")));
    assert_eq!(up(None, "a.png", "png", &dm, &sized), no(plain(401, "Authentication required.")));
    assert_eq!(up(Some("me"), "a.png", "png", &dm, &sized), no(plain(400, "Invalid user.")));
    assert_eq!(
        up(Some(ME), "a.png", "png", &upload_context("dm", " "), &sized),
        no(plain(400, "Upload context is required."))
    );
    assert_eq!(
        up(Some(ME), "a.png", "png", &upload_context("group", OTHER), &sized),
        no(plain(400, "Invalid upload context."))
    );
    let f = UploadFacts { quota: Some(Err(0)), ..sized };
    assert_eq!(image(&f), UploadStep::AskWait);
    let f = UploadFacts { wait: Some(12), ..f };
    assert_eq!(image(&f), UploadStep::RefuseQuota { retry_after: 12 });
    let f = UploadFacts { quota: Some(Err(5)), ..sized };
    assert_eq!(image(&f), UploadStep::RefuseQuota { retry_after: 5 });
    let paid = UploadFacts { quota: Some(Ok(())), ..sized };
    assert_eq!(
        up(Some(ME), "a.png", "png", &upload_context("dm", "zz"), &paid),
        no(plain(400, "Invalid contact ID."))
    );
    assert_eq!(
        up(Some(ME), "a.png", "png", &upload_context("channel", "zz"), &paid),
        no(plain(400, "Invalid channel ID."))
    );
    let f = UploadFacts { access: Some(Access::Unavailable("x")), ..paid };
    assert_eq!(image(&f), no(unavailable()));
    let f = UploadFacts { access: Some(Access::Denied("x")), document: Some(true), ..paid };
    assert_eq!(image(&f), no(plain(403, "You cannot upload to this conversation.")));
    assert_eq!(document(&f), no(plain(403, "You cannot upload to this channel.")));
    let let_in = UploadFacts { access: Some(Access::Granted), ..paid };
    let f = UploadFacts { prepared: Some(Prepared::BadImage("bad")), ..let_in };
    assert_eq!(image(&f), no(plain(400, "bad")));
    let f = UploadFacts { prepared: Some(Prepared::Unreadable), ..let_in };
    assert_eq!(image(&f), no(plain(500, "Internal Server Error.")));
    let f = UploadFacts { prepared: Some(Prepared::Ready { size: 1, thumb: None, within_limit: false }), ..let_in };
    assert_eq!(image(&f), UploadStep::RefuseTooLarge { limit_mb: 10 });
    let ready = UploadFacts { prepared: Some(Prepared::Ready { size: 1, thumb: None, within_limit: true }), ..let_in };
    for full in [Answer::Yes, Answer::Failed] {
        let f = UploadFacts { exceeds: Some(full), ..ready };
        assert_eq!(
            image(&f),
            no(plain(413, "Storage quota exceeded. Delete old attachments or wait for cleanup."))
        );
    }
    let f = UploadFacts { exceeds: Some(Answer::No), put: Some(Done::Failed), ..ready };
    assert_eq!(image(&f), no(plain(500, "Internal Server Error.")));
}

#[test]
fn refused_upload_leaves_no_file() {
    let no = UploadStep::Refuse;
    let failed = no(plain(500, "Internal Server Error."));
    let put = UploadFacts {
        magic: Some(true),
        size: Some(Some(true)),
        quota: Some(Ok(())),
        access: Some(Access::Granted),
        prepared: Some(Prepared::Ready { size: 1, thumb: Some(1), within_limit: true }),
        exceeds: Some(Answer::No),
        put: Some(Done::Worked),
        ..NO_UPLOAD
    };
    let f = UploadFacts { put_thumb: Some(Done::Failed), ..put };
    assert_eq!(image(&f), UploadStep::RemoveFile { path: "p/u".to_string() });
    let put = UploadFacts { put_thumb: Some(Done::Worked), ..put };
    assert_eq!(image(&UploadFacts { removed: true, ..f }), failed);
    let f = UploadFacts { registered: Some(Done::Failed), ..put };
    assert_eq!(image(&f), UploadStep::RemoveAttachment { path: "p/u".to_string() });
    let f = UploadFacts { removed: true, ..f };
    assert_eq!(image(&f), UploadStep::CountPending(id(ME)));
    assert_eq!(
        image(&UploadFacts { too_many_pending: Some(Some(true)), ..f }),
        no(plain(429, "Too many pending uploads. Send or wait before uploading more."))
    );
    assert_eq!(image(&UploadFacts { too_many_pending: Some(None), ..f }), failed);
    let f = UploadFacts { registered: Some(Done::Worked), adjusted: Some(Done::Failed), ..put };
    assert_eq!(image(&f), UploadStep::RemoveAttachment { path: "p/u".to_string() });
    let f = UploadFacts { removed: true, ..f };
    assert_eq!(image(&f), UploadStep::Claim { user: id(ME), path: "p/u".to_string() });
    assert_eq!(image(&UploadFacts { claimed: true, ..f }), failed);
}
