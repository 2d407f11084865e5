//! End-to-end keys and emojis.

use klovy_chat_server::controllers::e2e_controller::{
    append_e2e_prekeys, bulk_capability_users, bulk_key_users, delete_e2e_keys,
    find_fingerprint, get_e2e_capabilities, get_e2e_key_bulk, get_e2e_key_bundle, get_e2e_key_fingerprint, get_e2e_status,
    identity_rotation_required_response, invalid_keys_response, patch_e2e_settings, put_e2e_keys, read_named,
    read_users, AppendPreKeysBody, BulkQuery, BulkStep, BundleFacts, BundleStep, CapabilityStep, FingerprintRow, DeleteKeysStep, Fingerprints, KeyBundle, KeySummary, PutE2eKeysBody, SignedPreKeyRecord,
    KeyFacts, KeyStep, OneTimePreKeyRecord, PatchE2eSettingsBody, SettingsFacts, SettingsStep,
};
use klovy_chat_server::controllers::emojis::{
    get_emojis, normalize_groups, EmojiStep, Fetched, RawEmoji, RawGroup,
};
use klovy_chat_server::ids::Oid;
use klovy_chat_server::reply::{error, titled, Done, Lookup};

const ME: &str = "0000000000000000000000a1";
const OTHER: &str = "0000000000000000000000b2";

fn id(s: &str) -> Oid {
    match Oid::parse(s) {
        Some(o) => o,
        None => panic!("not an identifier"),
    }
}

#[test]
fn encryption_status() {
    let keys = KeySummary { registration_id: 7, fingerprint: "fp".to_string(), left: 3 };
    let no = SettingsStep::Refuse;
    let mut f = SettingsFacts { account: None, bundle: None, stored: None };
    assert_eq!(get_e2e_status(None, &keys, &f), no(error(401, "Unauthorized")));
    assert_eq!(get_e2e_status(Some("x"), &keys, &f), no(error(400, "Invalid user id")));
    assert_eq!(get_e2e_status(Some(ME), &keys, &f), SettingsStep::LoadUser(id(ME)));
    f.account = Some(Lookup::Missing);
    assert_eq!(get_e2e_status(Some(ME), &keys, &f), no(error(404, "User not found")));
    f.account = Some(Lookup::Failed);
    assert_eq!(get_e2e_status(Some(ME), &keys, &f), no(error(500, "Server error")));
    f.account = Some(Lookup::Found(true));
    assert_eq!(get_e2e_status(Some(ME), &keys, &f), SettingsStep::FindKeys(id(ME)));
    f.bundle = Some(Lookup::Failed);
    assert_eq!(get_e2e_status(Some(ME), &keys, &f), SettingsStep::ReplyStatus {
        enabled: true,
        has_keys: false,
        registration_id: None,
        fingerprint: None,
        left: 0,
    });
    f.bundle = Some(Lookup::Found(()));
    assert_eq!(get_e2e_status(Some(ME), &keys, &f), SettingsStep::ReplyStatus {
        enabled: true,
        has_keys: true,
        registration_id: Some(7),
        fingerprint: Some("fp".to_string()),
        left: 3,
    });
}

#[test]
fn encryption_needs_keys() {
    let no = SettingsStep::Refuse;
    let on = PatchE2eSettingsBody { enabled: true };
    let off = PatchE2eSettingsBody { enabled: false };
    let mut f = SettingsFacts { account: None, bundle: None, stored: None };
    assert_eq!(patch_e2e_settings(None, &on, &f), no(error(401, "Unauthorized")));
    assert_eq!(patch_e2e_settings(Some(ME), &on, &f), SettingsStep::FindKeys(id(ME)));
    assert_eq!(patch_e2e_settings(Some(ME), &off, &f), SettingsStep::Store { user: id(ME), enabled: false });
    f.bundle = Some(Lookup::Failed);
    assert_eq!(patch_e2e_settings(Some(ME), &on, &f), no(error(500, "Server error")));
    f.bundle = Some(Lookup::Missing);
    assert_eq!(
        patch_e2e_settings(Some(ME), &on, &f),
        no(titled(400, "E2E_KEYS_REQUIRED", "Upload key bundle before enabling end-to-end encryption."))
    );
    f.bundle = Some(Lookup::Found(()));
    assert_eq!(patch_e2e_settings(Some(ME), &on, &f), SettingsStep::Store { user: id(ME), enabled: true });
    f.stored = Some(Done::Failed);
    assert_eq!(patch_e2e_settings(Some(ME), &on, &f), no(error(500, "Server error")));
    f.stored = Some(Done::Worked);
    assert_eq!(patch_e2e_settings(Some(ME), &on, &f), SettingsStep::ReplyEnabled(true));
}

const NO_KEYS: KeyFacts = KeyFacts {
    pre_keys_valid: None,
    bundle_valid: None,
    stored: None,
    counted: false,
};

fn signed() -> SignedPreKeyRecord {
    SignedPreKeyRecord { key_id: 2, public_key: "spk".to_string(), signature: "sig".to_string() }
}

fn one_time() -> OneTimePreKeyRecord {
    OneTimePreKeyRecord { key_id: 1, public_key: "k".to_string() }
}

fn prints(stored: Option<Option<&str>>, computed: Option<Option<&str>>) -> Fingerprints {
    let own = |o: Option<Option<&str>>| o.map(|i| i.map(|s| s.to_string()));
    Fingerprints { stored: own(stored), computed: own(computed) }
}

#[test]
fn identity_does_not_change() {
    let no = KeyStep::Refuse;
    let body = PutE2eKeysBody {
        registration_id: 9,
        identity_key: " idk ".to_string(),
        signed_pre_key: signed(),
        one_time_pre_keys: vec![one_time()],
    };
    let put = |p: &Fingerprints, f: &KeyFacts| put_e2e_keys(Some(ME), &body, p, f);
    assert_eq!(invalid_keys_response(), titled(400, "INVALID_E2E_KEYS", "Invalid key bundle payload."));
    let unknown = prints(None, None);
    let mut f = NO_KEYS;
    assert_eq!(put_e2e_keys(None, &body, &unknown, &f), no(error(401, "Unauthorized")));
    assert_eq!(put(&unknown, &f), KeyStep::CheckPreKeys);
    f.pre_keys_valid = Some(false);
    assert_eq!(put(&unknown, &f), no(invalid_keys_response()));
    f.pre_keys_valid = Some(true);
    assert_eq!(put(&unknown, &f), KeyStep::FindKeys(id(ME)));
    assert_eq!(put(&prints(Some(Some("fp")), None), &f), KeyStep::Fingerprint(" idk ".to_string()));
    assert_eq!(put(&prints(Some(Some("fp")), Some(None)), &f), no(invalid_keys_response()));
    assert_eq!(put(&prints(Some(Some("fp")), Some(Some("gp"))), &f), no(identity_rotation_required_response()));
    let same = prints(Some(Some("fp")), Some(Some("fp")));
    assert_eq!(put(&same, &f), KeyStep::CheckBundle);
    f.bundle_valid = Some(false);
    assert_eq!(put(&same, &f), no(invalid_keys_response()));
    f.bundle_valid = Some(true);
    let stored = KeyBundle {
        user: id(ME),
        registration_id: 9,
        identity_key: "idk".to_string(),
        identity_fingerprint: "fp".to_string(),
        signed_pre_key: signed(),
        one_time_pre_keys: vec![one_time()],
    };
    assert_eq!(put(&same, &f), KeyStep::Store(stored));
    assert_eq!(put(&prints(Some(None), None), &f), KeyStep::Fingerprint(" idk ".to_string()));
    assert_eq!(put(&prints(Some(None), Some(None)), &f), no(invalid_keys_response()));
    f.stored = Some(Done::Failed);
    assert_eq!(put(&same, &f), no(error(500, "Server error")));
    f.stored = Some(Done::Worked);
    assert_eq!(put(&same, &f), KeyStep::Reply);
}

#[test]
fn one_time_keys_are_appended() {
    let no = KeyStep::Refuse;
    let none = AppendPreKeysBody { one_time_pre_keys: vec![] };
    let one = AppendPreKeysBody {
        one_time_pre_keys: vec![OneTimePreKeyRecord { key_id: 1, public_key: "k".to_string() }],
    };
    let mut f = NO_KEYS;
    assert_eq!(append_e2e_prekeys(Some(ME), &none, &f), no(error(400, "No prekeys provided")));
    assert_eq!(append_e2e_prekeys(Some(ME), &one, &f), KeyStep::CheckPreKeys);
    f.pre_keys_valid = Some(false);
    assert_eq!(append_e2e_prekeys(Some(ME), &one, &f), no(invalid_keys_response()));
    f.pre_keys_valid = Some(true);
    assert_eq!(append_e2e_prekeys(Some(ME), &one, &f), KeyStep::Append(id(ME), vec![one_time()]));
    f.stored = Some(Done::Failed);
    assert_eq!(append_e2e_prekeys(Some(ME), &one, &f), no(error(500, "Server error")));
    f.stored = Some(Done::Worked);
    assert_eq!(append_e2e_prekeys(Some(ME), &one, &f), KeyStep::CountLeft(id(ME)));
    f.counted = true;
    assert_eq!(append_e2e_prekeys(Some(ME), &one, &f), KeyStep::Reply);
    assert_eq!(delete_e2e_keys(None, false, false), DeleteKeysStep::Refuse(error(401, "Unauthorized")));
    assert_eq!(delete_e2e_keys(Some(ME), false, false), DeleteKeysStep::DeleteKeys(id(ME)));
    assert_eq!(delete_e2e_keys(Some(ME), true, false), DeleteKeysStep::Disable(id(ME)));
    assert_eq!(delete_e2e_keys(Some(ME), true, true), DeleteKeysStep::Reply);
}

#[test]
fn keys_go_to_friends() {
    let no = BundleStep::Refuse;
    let mut f = BundleFacts { account: None, friends: None, bundle: None };
    assert_eq!(get_e2e_key_bundle(None, OTHER, &f), no(error(401, "Unauthorized")));
    assert_eq!(get_e2e_key_bundle(Some(ME), "x", &f), no(error(400, "Invalid user id")));
    assert_eq!(get_e2e_key_fingerprint(Some(ME), OTHER, &f), BundleStep::LoadUser(id(OTHER)));
    f.account = Some(Lookup::Missing);
    assert_eq!(get_e2e_key_bundle(Some(ME), OTHER, &f), no(error(404, "User not found")));
    f.account = Some(Lookup::Failed);
    assert_eq!(get_e2e_key_bundle(Some(ME), OTHER, &f), no(error(500, "Server error")));
    f.account = Some(Lookup::Found(false));
    assert_eq!(get_e2e_key_bundle(Some(ME), OTHER, &f), no(error(404, "E2E not enabled for user")));
    f.account = Some(Lookup::Found(true));
    assert_eq!(get_e2e_key_bundle(Some(ME), OTHER, &f), BundleStep::AskFriends(id(OTHER)));
    assert_eq!(get_e2e_key_bundle(Some(ME), ME, &f), BundleStep::TakeKeys(id(ME)));
    f.friends = Some(false);
    assert_eq!(get_e2e_key_bundle(Some(ME), OTHER, &f), no(error(403, "Access denied")));
    f.friends = Some(true);
    assert_eq!(get_e2e_key_bundle(Some(ME), OTHER, &f), BundleStep::TakeKeys(id(OTHER)));
    assert_eq!(get_e2e_key_fingerprint(Some(ME), OTHER, &f), BundleStep::LookAtKeys(id(OTHER)));
    f.bundle = Some(Lookup::Missing);
    assert_eq!(get_e2e_key_bundle(Some(ME), OTHER, &f), no(error(404, "No key bundle")));
    f.bundle = Some(Lookup::Failed);
    assert_eq!(get_e2e_key_bundle(Some(ME), OTHER, &f), no(error(500, "Server error")));
    f.bundle = Some(Lookup::Found(()));
    assert_eq!(get_e2e_key_fingerprint(Some(ME), OTHER, &f), BundleStep::Reply(id(OTHER)));
}

#[test]
fn bulk_lists_are_cut() {
    let list = format!(" {ME} ,x,,{OTHER}");
    assert_eq!(read_users(list.as_str(), 5), vec![id(ME), id(OTHER)]);
    assert_eq!(read_users(list.as_str(), 1), vec![id(ME)]);
    assert_eq!(read_named(&vec![" x".to_string(), OTHER.to_string()]), vec![id(OTHER)]);
    let many = BulkQuery { ids: vec![ME; 120].join(",") };
    assert_eq!(bulk_key_users(&many).len(), 50);
    assert_eq!(bulk_capability_users(&many).len(), 100);
}

#[test]
fn bulk_shows_friends() {
    let row = |user: &str, fingerprint: &str| FingerprintRow {
        user: id(user),
        fingerprint: fingerprint.to_string(),
    };
    let rows = vec![row(OTHER, "old"), row(ME, "mine"), row(OTHER, "new")];
    assert_eq!(find_fingerprint(&rows, id(ME)), Some("mine".to_string()));
    let mut f = BundleFacts { account: None, friends: None, bundle: None };
    assert_eq!(get_e2e_key_bulk(None, id(OTHER), &f), BulkStep::Refuse(error(401, "Unauthorized")));
    assert_eq!(get_e2e_key_bulk(Some(ME), id(OTHER), &f), BulkStep::LoadUser(id(OTHER)));
    assert_eq!(get_e2e_capabilities(Some(ME), id(OTHER), &rows, &f), CapabilityStep::AskFriends(id(OTHER)));
    assert_eq!(get_e2e_capabilities(Some(ME), id(ME), &rows, &f), CapabilityStep::LoadUser(id(ME)));
    f.account = Some(Lookup::Found(false));
    assert_eq!(get_e2e_key_bulk(Some(ME), id(OTHER), &f), BulkStep::Skip);
    f.account = Some(Lookup::Found(true));
    assert_eq!(get_e2e_key_bulk(Some(ME), id(OTHER), &f), BulkStep::AskFriends(id(OTHER)));
    f.friends = Some(false);
    assert_eq!(get_e2e_key_bulk(Some(ME), id(OTHER), &f), BulkStep::Skip);
    assert_eq!(get_e2e_capabilities(Some(ME), id(OTHER), &rows, &f), CapabilityStep::Skip);
    f.friends = Some(true);
    assert_eq!(get_e2e_key_bulk(Some(ME), id(OTHER), &f), BulkStep::TakeKeys(id(OTHER)));
    assert_eq!(get_e2e_capabilities(Some(ME), id(OTHER), &rows, &f), CapabilityStep::LookAtKeys(id(OTHER)));
    f.bundle = Some(Lookup::Missing);
    assert_eq!(get_e2e_key_bulk(Some(ME), id(OTHER), &f), BulkStep::Skip);
    assert_eq!(get_e2e_capabilities(Some(ME), id(OTHER), &rows, &f), CapabilityStep::Show {
        user: id(OTHER),
        enabled: true,
        has_keys: false,
        fingerprint: Some("new".to_string()),
    });
    assert_eq!(get_e2e_capabilities(Some(ME), id(ME), &vec![], &f), CapabilityStep::Show {
        user: id(ME),
        enabled: true,
        has_keys: false,
        fingerprint: None,
    });
    f.bundle = Some(Lookup::Found(()));
    assert_eq!(get_e2e_key_bulk(Some(ME), id(OTHER), &f), BulkStep::Show(id(OTHER)));
}

#[test]
fn emoji_groups_are_normalized() {
    let emoji = |e: &str, s: &str| RawEmoji { emoji: e.to_string(), name: s.to_string(), slug: s.to_string() };
    let groups = vec![
        RawGroup { name: "A".to_string(), slug: "a".to_string(), emojis: vec![emoji("😀", "grinning_face")] },
        RawGroup { name: "B".to_string(), slug: "b".to_string(), emojis: vec![emoji("🐱", "cat"), emoji("🐶", "dog_face_x")] },
    ];
    let d = normalize_groups(&groups);
    assert_eq!(d.count, 3);
    assert_eq!(d.groups.len(), 2);
    assert_eq!(d.groups[0].emojis[0].char, "😀");
    assert_eq!(d.groups[0].emojis[0].name, "grinning_face");
    assert_eq!(d.groups[0].emojis[0].keywords, "grinning face");
    assert_eq!(d.groups[1].name, "B");
    assert_eq!(d.groups[1].slug, "b");
    assert_eq!(d.groups[1].emojis[1].keywords, "dog face x");
}

#[test]
fn upstream_emoji_failure_is_a_bad_gateway() {
    let no = EmojiStep::Refuse;
    assert_eq!(get_emojis(None, None), EmojiStep::Fetch);
    assert_eq!(get_emojis(Some(3), None), EmojiStep::Reply);
    assert_eq!(get_emojis(Some(0), None), no(error(503, "Zbiór emotek jest niedostępny.")));
    assert_eq!(
        get_emojis(None, Some(Fetched::Unreachable)),
        no(error(502, "Nie udało się połączyć z serwerem emotek."))
    );
    assert_eq!(
        get_emojis(None, Some(Fetched::Refused)),
        no(error(502, "Nie udało się pobrać listy emotek."))
    );
    assert_eq!(
        get_emojis(None, Some(Fetched::Unreadable)),
        no(error(502, "Nie udało się pobrać listy emotek."))
    );
    assert_eq!(get_emojis(None, Some(Fetched::Empty)), no(error(503, "Zbiór emotek jest niedostępny.")));
    assert_eq!(get_emojis(None, Some(Fetched::Groups(0))), EmojiStep::Keep { count: 0 });
    assert_eq!(get_emojis(None, Some(Fetched::Groups(9))), EmojiStep::Keep { count: 9 });
    assert_eq!(get_emojis(Some(9), Some(Fetched::Groups(9))), EmojiStep::Reply);
}
