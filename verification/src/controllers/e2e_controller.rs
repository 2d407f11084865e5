//! The public keys of users who write to each other encrypted.

use vstd::prelude::*;

use crate::ids;
use crate::ids::{Oid, is_hex_of, parse_oid};
use crate::reply::{Done, Lookup, Refusal, error, titled};
use crate::text;

verus! {

/// A key that its owner has signed.
#[derive(Debug, PartialEq, Eq)]
pub struct SignedPreKeyRecord {
    pub key_id: u32,
    pub public_key: String,
    pub signature: String,
}

/// The view of `SignedPreKeyRecord`.
#[verifier::ext_equal]
pub struct SignedPreKeyRecordView {
    pub key_id: u32,
    pub public_key: Seq<char>,
    pub signature: Seq<char>,
}

impl View for SignedPreKeyRecord {
    type V = SignedPreKeyRecordView;

    open spec fn view(&self) -> SignedPreKeyRecordView {
        SignedPreKeyRecordView {
            key_id: self.key_id,
            public_key: self.public_key@,
            signature: self.signature@,
        }
    }
}

/// A key that is handed out once.
#[derive(Debug, PartialEq, Eq)]
pub struct OneTimePreKeyRecord {
    pub key_id: u32,
    pub public_key: String,
}

/// The view of `OneTimePreKeyRecord`.
#[verifier::ext_equal]
pub struct OneTimePreKeyRecordView {
    pub key_id: u32,
    pub public_key: Seq<char>,
}

impl View for OneTimePreKeyRecord {
    type V = OneTimePreKeyRecordView;

    open spec fn view(&self) -> OneTimePreKeyRecordView {
        OneTimePreKeyRecordView {
            key_id: self.key_id,
            public_key: self.public_key@,
        }
    }
}

/// The keys that are handed out once.
pub open spec fn pre_keys(keys: Seq<OneTimePreKeyRecord>) -> Seq<OneTimePreKeyRecordView> {
    Seq::new(keys.len(), |i: int| keys[i]@)
}

fn copy_pre_keys(keys: &Vec<OneTimePreKeyRecord>) -> (r: Vec<OneTimePreKeyRecord>)
    ensures
        pre_keys(r@) == pre_keys(keys@),
{
    let mut out: Vec<OneTimePreKeyRecord> = Vec::new();
    let mut i: usize = 0;
    while i < keys.len()
        invariant
            i <= keys@.len(),
            out@.len() == i,
            forall|j: int| 0 <= j < i ==> (#[trigger] out@[j])@ == keys@[j]@,
        decreases keys@.len() - i,
    {
        out.push(
            OneTimePreKeyRecord { key_id: keys[i].key_id, public_key: keys[i].public_key.clone() },
        );
        i += 1;
    }
    assert(pre_keys(out@) =~= pre_keys(keys@));
    out
}

/// The keys that a user publishes.
pub struct PutE2eKeysBody {
    pub registration_id: u32,
    pub identity_key: String,
    pub signed_pre_key: SignedPreKeyRecord,
    pub one_time_pre_keys: Vec<OneTimePreKeyRecord>,
}

/// Whether to write encrypted.
pub struct PatchE2eSettingsBody {
    pub enabled: bool,
}

/// Further keys that are handed out once.
pub struct AppendPreKeysBody {
    pub one_time_pre_keys: Vec<OneTimePreKeyRecord>,
}

/// The users that a request asks for.
pub struct BulkQuery {
    pub ids: String,
}

/// How many users may be asked for at a time where keys are handed out.
pub const MAX_BULK_KEYS: usize = 50;

/// How many users may be asked for at a time where no keys are handed out.
pub const MAX_BULK_CAPABILITIES: usize = 100;

/// The reply to keys that are not in order.
#[verifier::allow_in_spec]
pub fn invalid_keys_response() -> Refusal
    returns
        titled(400, "INVALID_E2E_KEYS", "Invalid key bundle payload."),
{
    titled(400, "INVALID_E2E_KEYS", "Invalid key bundle payload.")
}

/// The reply to keys of another identity than the stored one.
#[verifier::allow_in_spec]
pub fn identity_rotation_required_response() -> Refusal
    returns
        titled(
            400,
            "E2E_IDENTITY_ROTATION_REQUIRED",
            "Identity key changed. Delete existing keys before uploading a new bundle.",
        ),
{
    titled(
        400,
        "E2E_IDENTITY_ROTATION_REQUIRED",
        "Identity key changed. Delete existing keys before uploading a new bundle.",
    )
}

/// How the user of a request stands.
pub open spec fn user_gate(user: Option<&str>) -> Result<Oid, Refusal> {
    if user is None {
        Err(error(401, "Unauthorized"))
    } else if ids::oid_of(user->0@) is None {
        Err(error(400, "Invalid user id"))
    } else {
        Ok(ids::oid_of(user->0@)->0)
    }
}

fn pass_user(user: Option<&str>) -> (r: Result<Oid, Refusal>)
    ensures
        r == user_gate(user),
{
    match user {
        None => Err(error(401, "Unauthorized")),
        Some(u) => match parse_oid(u) {
            None => Err(error(400, "Invalid user id")),
            Some(id) => Ok(id),
        },
    }
}

/// What is known while the settings of a user are shown or changed.
#[derive(Clone, Copy, Debug)]
pub struct SettingsFacts {
    /// The account, with whether it writes encrypted.
    pub account: Option<Lookup<bool>>,
    /// Whether keys are stored.
    pub bundle: Option<Lookup<()>>,
    pub stored: Option<Done>,
}

/// What is shown of the stored keys of a user.
pub struct KeySummary {
    pub registration_id: u32,
    pub fingerprint: String,
    /// How many keys are left to be handed out once.
    pub left: usize,
}

/// What to do next while the settings of a user are shown or changed.
#[derive(Debug, PartialEq, Eq)]
pub enum SettingsStep {
    LoadUser(Oid),
    FindKeys(Oid),
    Store { user: Oid, enabled: bool },
    ReplyStatus {
        enabled: bool,
        has_keys: bool,
        registration_id: Option<u32>,
        fingerprint: Option<String>,
        left: usize,
    },
    ReplyEnabled(bool),
    Refuse(Refusal),
}

/// The view of `SettingsStep`.
#[verifier::ext_equal]
pub enum SettingsStepView {
    LoadUser(Oid),
    FindKeys(Oid),
    Store { user: Oid, enabled: bool },
    ReplyStatus {
        enabled: bool,
        has_keys: bool,
        registration_id: Option<u32>,
        fingerprint: Option<Seq<char>>,
        left: usize,
    },
    ReplyEnabled(bool),
    Refuse(Refusal),
}

impl View for SettingsStep {
    type V = SettingsStepView;

    open spec fn view(&self) -> SettingsStepView {
        match self {
            SettingsStep::LoadUser(a) => SettingsStepView::LoadUser(*a),
            SettingsStep::FindKeys(a) => SettingsStepView::FindKeys(*a),
            SettingsStep::Store { user, enabled } => SettingsStepView::Store {
                user: *user,
                enabled: *enabled,
            },
            SettingsStep::ReplyStatus {
                enabled,
                has_keys,
                registration_id,
                fingerprint,
                left,
            } => SettingsStepView::ReplyStatus {
                enabled: *enabled,
                has_keys: *has_keys,
                registration_id: *registration_id,
                fingerprint: text::opt(*fingerprint),
                left: *left,
            },
            SettingsStep::ReplyEnabled(a) => SettingsStepView::ReplyEnabled(*a),
            SettingsStep::Refuse(a) => SettingsStepView::Refuse(*a),
        }
    }
}

pub open spec fn status_step(user: Option<&str>, keys: KeySummary, f: SettingsFacts) -> SettingsStepView {
    match user_gate(user) {
        Err(r) => SettingsStepView::Refuse(r),
        Ok(id) => match f.account {
            None => SettingsStepView::LoadUser(id),
            Some(Lookup::Missing) => SettingsStepView::Refuse(error(404, "User not found")),
            Some(Lookup::Failed) => SettingsStepView::Refuse(error(500, "Server error")),
            Some(Lookup::Found(enabled)) => match f.bundle {
                None => SettingsStepView::FindKeys(id),
                Some(bundle) => if bundle is Found {
                    SettingsStepView::ReplyStatus {
                        enabled,
                        has_keys: true,
                        registration_id: Some(keys.registration_id),
                        fingerprint: Some(keys.fingerprint@),
                        left: keys.left,
                    }
                } else {
                    SettingsStepView::ReplyStatus {
                        enabled,
                        has_keys: false,
                        registration_id: None,
                        fingerprint: None,
                        left: 0,
                    }
                },
            },
        },
    }
}

/// Decides the next step of showing the settings of a user.
pub fn get_e2e_status(user: Option<&str>, keys: &KeySummary, f: &SettingsFacts) -> (r: SettingsStep)
    ensures
        r@ == status_step(user, *keys, *f),
{
    let id = match pass_user(user) {
        Err(r) => return SettingsStep::Refuse(r),
        Ok(id) => id,
    };
    let enabled = match f.account {
        None => return SettingsStep::LoadUser(id),
        Some(Lookup::Missing) => return SettingsStep::Refuse(error(404, "User not found")),
        Some(Lookup::Failed) => return SettingsStep::Refuse(error(500, "Server error")),
        Some(Lookup::Found(enabled)) => enabled,
    };
    match f.bundle {
        None => SettingsStep::FindKeys(id),
        Some(Lookup::Found(_)) => SettingsStep::ReplyStatus {
            enabled,
            has_keys: true,
            registration_id: Some(keys.registration_id),
            fingerprint: Some(keys.fingerprint.clone()),
            left: keys.left,
        },
        Some(_) => SettingsStep::ReplyStatus {
            enabled,
            has_keys: false,
            registration_id: None,
            fingerprint: None,
            left: 0,
        },
    }
}

pub open spec fn settings_step(
    user: Option<&str>,
    body: PatchE2eSettingsBody,
    f: SettingsFacts,
) -> SettingsStepView {
    match user_gate(user) {
        Err(r) => SettingsStepView::Refuse(r),
        Ok(id) => if body.enabled && f.bundle is None {
            SettingsStepView::FindKeys(id)
        } else if body.enabled && f.bundle->0 is Failed {
            SettingsStepView::Refuse(error(500, "Server error"))
        } else if body.enabled && f.bundle->0 is Missing {
            SettingsStepView::Refuse(
                titled(
                    400,
                    "E2E_KEYS_REQUIRED",
                    "Upload key bundle before enabling end-to-end encryption.",
                ),
            )
        } else {
            match f.stored {
                None => SettingsStepView::Store { user: id, enabled: body.enabled },
                Some(Done::Failed) => SettingsStepView::Refuse(error(500, "Server error")),
                Some(Done::Worked) => SettingsStepView::ReplyEnabled(body.enabled),
            }
        },
    }
}

/// Decides the next step of changing whether a user writes encrypted.
pub fn patch_e2e_settings(user: Option<&str>, body: &PatchE2eSettingsBody, f: &SettingsFacts) -> (r:
    SettingsStep)
    ensures
        r@ == settings_step(user, *body, *f),
{
    let id = match pass_user(user) {
        Err(r) => return SettingsStep::Refuse(r),
        Ok(id) => id,
    };
    if body.enabled {
        match f.bundle {
            None => return SettingsStep::FindKeys(id),
            Some(Lookup::Failed) => return SettingsStep::Refuse(error(500, "Server error")),
            Some(Lookup::Missing) => return SettingsStep::Refuse(
                titled(
                    400,
                    "E2E_KEYS_REQUIRED",
                    "Upload key bundle before enabling end-to-end encryption.",
                ),
            ),
            Some(Lookup::Found(_)) => {},
        }
    }
    match f.stored {
        None => SettingsStep::Store { user: id, enabled: body.enabled },
        Some(Done::Failed) => SettingsStep::Refuse(error(500, "Server error")),
        Some(Done::Worked) => SettingsStep::ReplyEnabled(body.enabled),
    }
}

/// A user writes encrypted only once keys are stored.
pub proof fn law_encryption_needs_keys(
    user: Option<&str>,
    body: PatchE2eSettingsBody,
    f: SettingsFacts,
)
    ensures
        settings_step(user, body, f) matches SettingsStepView::Store { enabled, .. } ==> (enabled
            ==> f.bundle is Some && f.bundle->0 is Found),
{
}

/// Encryption is switched off at any time and on wherever keys are stored: what was asked for is
/// stored, and shown in the reply.
pub proof fn law_encryption_is_switched_as_asked(
    user: Option<&str>,
    body: PatchE2eSettingsBody,
    f: SettingsFacts,
)
    requires
        user is Some,
        ids::oid_of(user->0@) is Some,
    ensures
        ({
            let s = settings_step(user, body, f);
            let may = !body.enabled || (f.bundle is Some && f.bundle->0 is Found);
            &&& may && f.stored is None ==> s == (SettingsStepView::Store {
                user: ids::oid_of(user->0@)->0,
                enabled: body.enabled,
            })
            &&& may && f.stored == Some(Done::Worked) ==> s == SettingsStepView::ReplyEnabled(
                body.enabled,
            )
            &&& may && f.stored == Some(Done::Failed) ==> s == SettingsStepView::Refuse(
                error(500, "Server error"),
            )
            &&& body.enabled && f.bundle is None ==> s == SettingsStepView::FindKeys(
                ids::oid_of(user->0@)->0,
            )
            &&& body.enabled && f.bundle is Some && f.bundle->0 !is Found ==> s is Refuse
        }),
{
}

/// The status of a user shows whether the account writes encrypted and, where keys are stored,
/// which; where none could be found it shows none, and is not refused for that.
pub proof fn law_status_shows_the_stored_keys(
    user: Option<&str>,
    keys: KeySummary,
    f: SettingsFacts,
)
    requires
        user is Some,
        ids::oid_of(user->0@) is Some,
    ensures
        ({
            let s = status_step(user, keys, f);
            &&& f.account is None ==> s == SettingsStepView::LoadUser(ids::oid_of(user->0@)->0)
            &&& f.account is Some && f.account->0 is Found && f.bundle is None ==> s
                == SettingsStepView::FindKeys(ids::oid_of(user->0@)->0)
            &&& f.account is Some && f.account->0 is Found && f.bundle is Some ==> s is ReplyStatus
            &&& s matches SettingsStepView::ReplyStatus {
                enabled,
                has_keys,
                registration_id,
                fingerprint,
                left,
            } ==> {
                &&& f.account == Some(Lookup::Found(enabled))
                &&& has_keys == (f.bundle is Some && f.bundle->0 is Found)
                &&& has_keys ==> registration_id == Some(keys.registration_id) && fingerprint == Some(
                    keys.fingerprint@,
                ) && left == keys.left
                &&& !has_keys ==> registration_id is None && fingerprint is None && left == 0
            }
            &&& f.account is Some && f.account->0 !is Found ==> s is Refuse
        }),
{
}

/// How the fingerprint of an identity key compares with the stored one.
#[derive(Clone, Copy, Debug, PartialEq, Eq)]
pub enum Fingerprint {
    /// The key has none.
    Unreadable,
    Same,
    Different,
}

/// What is known while keys are stored.
#[derive(Clone, Copy, Debug)]
pub struct KeyFacts {
    /// Whether the keys that are handed out once are in order.
    pub pre_keys_valid: Option<bool>,
    pub bundle_valid: Option<bool>,
    pub stored: Option<Done>,
    /// The keys that are left were counted.
    pub counted: bool,
}

/// The fingerprints of identity keys, as far as they are known.
pub struct Fingerprints {
    /// That of the stored key, or none where no key is stored or could be loaded.
    pub stored: Option<Option<String>>,
    /// That of the key that was sent, or none where it cannot be read.
    pub computed: Option<Option<String>>,
}

/// How the fingerprint of the key that was sent compares with the stored one.
pub open spec fn comparison(stored: Option<Seq<char>>, computed: Option<Seq<char>>) -> Fingerprint {
    match computed {
        None => Fingerprint::Unreadable,
        Some(c) => if stored is Some && stored->0 != c {
            Fingerprint::Different
        } else {
            Fingerprint::Same
        },
    }
}

/// The keys of a user, as they are stored.
#[derive(Debug, PartialEq, Eq)]
pub struct KeyBundle {
    pub user: Oid,
    pub registration_id: u32,
    pub identity_key: String,
    pub identity_fingerprint: String,
    pub signed_pre_key: SignedPreKeyRecord,
    pub one_time_pre_keys: Vec<OneTimePreKeyRecord>,
}

/// The view of `KeyBundle`.
#[verifier::ext_equal]
pub struct KeyBundleView {
    pub user: Oid,
    pub registration_id: u32,
    pub identity_key: Seq<char>,
    pub identity_fingerprint: Seq<char>,
    pub signed_pre_key: SignedPreKeyRecordView,
    pub one_time_pre_keys: Seq<OneTimePreKeyRecordView>,
}

impl View for KeyBundle {
    type V = KeyBundleView;

    open spec fn view(&self) -> KeyBundleView {
        KeyBundleView {
            user: self.user,
            registration_id: self.registration_id,
            identity_key: self.identity_key@,
            identity_fingerprint: self.identity_fingerprint@,
            signed_pre_key: self.signed_pre_key@,
            one_time_pre_keys: pre_keys(self.one_time_pre_keys@),
        }
    }
}

/// What to do next while keys are stored.
#[derive(Debug, PartialEq, Eq)]
pub enum KeyStep {
    /// Check the keys that are handed out once.
    CheckPreKeys,
    FindKeys(Oid),
    /// Compute the fingerprint of the identity key.
    Fingerprint(String),
    CheckBundle,
    Store(KeyBundle),
    Append(Oid, Vec<OneTimePreKeyRecord>),
    CountLeft(Oid),
    Reply,
    Refuse(Refusal),
}

/// The view of `KeyStep`.
#[verifier::ext_equal]
pub enum KeyStepView {
    CheckPreKeys,
    FindKeys(Oid),
    Fingerprint(Seq<char>),
    CheckBundle,
    Store(KeyBundleView),
    Append(Oid, Seq<OneTimePreKeyRecordView>),
    CountLeft(Oid),
    Reply,
    Refuse(Refusal),
}

impl View for KeyStep {
    type V = KeyStepView;

    open spec fn view(&self) -> KeyStepView {
        match self {
            KeyStep::CheckPreKeys => KeyStepView::CheckPreKeys,
            KeyStep::FindKeys(a) => KeyStepView::FindKeys(*a),
            KeyStep::Fingerprint(a) => KeyStepView::Fingerprint(a@),
            KeyStep::CheckBundle => KeyStepView::CheckBundle,
            KeyStep::Store(a) => KeyStepView::Store(a@),
            KeyStep::Append(a, b) => KeyStepView::Append(*a, pre_keys(b@)),
            KeyStep::CountLeft(a) => KeyStepView::CountLeft(*a),
            KeyStep::Reply => KeyStepView::Reply,
            KeyStep::Refuse(a) => KeyStepView::Refuse(*a),
        }
    }
}

/// The keys of a user, as they are stored: the identity key without the space around it.
pub open spec fn bundle_of(user: Oid, body: PutE2eKeysBody, fingerprint: Seq<char>) -> KeyBundleView {
    KeyBundleView {
        user,
        registration_id: body.registration_id,
        identity_key: text::trimmed(body.identity_key@),
        identity_fingerprint: fingerprint,
        signed_pre_key: body.signed_pre_key@,
        one_time_pre_keys: pre_keys(body.one_time_pre_keys@),
    }
}

/// Makes the keys of a user, as they are stored.
pub fn make_bundle(user: Oid, body: &PutE2eKeysBody, fingerprint: &str) -> (r: KeyBundle)
    ensures
        r@ == bundle_of(user, *body, fingerprint@),
{
    KeyBundle {
        user,
        registration_id: body.registration_id,
        identity_key: text::trim(body.identity_key.as_str()),
        identity_fingerprint: fingerprint.to_owned(),
        signed_pre_key: SignedPreKeyRecord {
            key_id: body.signed_pre_key.key_id,
            public_key: body.signed_pre_key.public_key.clone(),
            signature: body.signed_pre_key.signature.clone(),
        },
        one_time_pre_keys: copy_pre_keys(&body.one_time_pre_keys),
    }
}

pub open spec fn put_step(
    user: Option<&str>,
    body: PutE2eKeysBody,
    prints: Fingerprints,
    f: KeyFacts,
) -> KeyStepView {
    let stored = text::opt(prints.stored->0);
    let computed = text::opt(prints.computed->0);
    match user_gate(user) {
        Err(r) => KeyStepView::Refuse(r),
        Ok(id) => if f.pre_keys_valid is None {
            KeyStepView::CheckPreKeys
        } else if !f.pre_keys_valid->0 {
            KeyStepView::Refuse(invalid_keys_response())
        } else if prints.stored is None {
            KeyStepView::FindKeys(id)
        } else if stored is Some && prints.computed is None {
            KeyStepView::Fingerprint(body.identity_key@)
        } else if stored is Some && comparison(stored, computed) is Unreadable {
            KeyStepView::Refuse(invalid_keys_response())
        } else if stored is Some && comparison(stored, computed) is Different {
            KeyStepView::Refuse(identity_rotation_required_response())
        } else if f.bundle_valid is None {
            KeyStepView::CheckBundle
        } else if !f.bundle_valid->0 {
            KeyStepView::Refuse(invalid_keys_response())
        } else if prints.computed is None {
            KeyStepView::Fingerprint(body.identity_key@)
        } else if computed is None {
            KeyStepView::Refuse(invalid_keys_response())
        } else {
            match f.stored {
                None => KeyStepView::Store(bundle_of(id, body, computed->0)),
                Some(Done::Worked) => KeyStepView::Reply,
                Some(Done::Failed) => KeyStepView::Refuse(error(500, "Server error")),
            }
        },
    }
}

/// Decides the next step of storing the keys of a user.
pub fn put_e2e_keys(
    user: Option<&str>,
    body: &PutE2eKeysBody,
    prints: &Fingerprints,
    f: &KeyFacts,
) -> (r: KeyStep)
    ensures
        r@ == put_step(user, *body, *prints, *f),
{
    let id = match pass_user(user) {
        Err(r) => return KeyStep::Refuse(r),
        Ok(id) => id,
    };
    match f.pre_keys_valid {
        None => return KeyStep::CheckPreKeys,
        Some(false) => return KeyStep::Refuse(invalid_keys_response()),
        Some(true) => {},
    }
    match &prints.stored {
        None => return KeyStep::FindKeys(id),
        Some(None) => {},
        Some(Some(stored)) => match &prints.computed {
            None => return KeyStep::Fingerprint(body.identity_key.clone()),
            Some(None) => return KeyStep::Refuse(invalid_keys_response()),
            Some(Some(computed)) => {
                if !text::same_text(stored.as_str(), computed.as_str()) {
                    return KeyStep::Refuse(identity_rotation_required_response());
                }
            },
        },
    }
    match f.bundle_valid {
        None => return KeyStep::CheckBundle,
        Some(false) => return KeyStep::Refuse(invalid_keys_response()),
        Some(true) => {},
    }
    let fingerprint = match &prints.computed {
        None => return KeyStep::Fingerprint(body.identity_key.clone()),
        Some(None) => return KeyStep::Refuse(invalid_keys_response()),
        Some(Some(computed)) => computed,
    };
    match f.stored {
        None => KeyStep::Store(make_bundle(id, body, fingerprint.as_str())),
        Some(Done::Worked) => KeyStep::Reply,
        Some(Done::Failed) => KeyStep::Refuse(error(500, "Server error")),
    }
}

/// Stored keys are replaced only by keys of the same identity; only keys that were checked are
/// stored, under the user who sent them.
pub proof fn law_identity_does_not_change(
    user: Option<&str>,
    body: PutE2eKeysBody,
    prints: Fingerprints,
    f: KeyFacts,
)
    ensures
        put_step(user, body, prints, f) matches KeyStepView::Store(bundle) ==> f.bundle_valid == Some(
            true,
        ) && f.pre_keys_valid == Some(true) && (prints.stored->0 is Some ==> prints.stored->0->0@
            == bundle.identity_fingerprint) && user is Some && ids::oid_of(user->0@) == Some(
            bundle.user,
        ) && bundle.identity_key == text::trimmed(body.identity_key@),
{
}

/// Checked keys are stored: those that a signed-in user sends, with a fingerprint, where none are
/// stored or some of the same identity. They are stored as they were sent, under that fingerprint,
/// and the reply follows.
pub proof fn law_checked_keys_are_stored(
    user: Option<&str>,
    body: PutE2eKeysBody,
    prints: Fingerprints,
    f: KeyFacts,
)
    requires
        user is Some,
        ids::oid_of(user->0@) is Some,
        f.pre_keys_valid == Some(true),
        f.bundle_valid == Some(true),
        prints.computed is Some && prints.computed->0 is Some,
        prints.stored is Some,
        prints.stored->0 matches Some(old) ==> old@ == prints.computed->0->0@,
    ensures
        f.stored is None ==> ({
            let s = put_step(user, body, prints, f);
            &&& s is Store
            &&& s->Store_0.user == ids::oid_of(user->0@)->0
            &&& s->Store_0.registration_id == body.registration_id
            &&& s->Store_0.identity_key == text::trimmed(body.identity_key@)
            &&& s->Store_0.identity_fingerprint == prints.computed->0->0@
            &&& s->Store_0.signed_pre_key == body.signed_pre_key@
            &&& s->Store_0.one_time_pre_keys == pre_keys(body.one_time_pre_keys@)
        }),
        f.stored == Some(Done::Worked) ==> put_step(user, body, prints, f) is Reply,
        f.stored == Some(Done::Failed) ==> put_step(user, body, prints, f) == KeyStepView::Refuse(
            error(500, "Server error"),
        ),
{
}

/// Storing keys asks only for what is not known yet, and is not refused while the checks that were
/// made speak for the keys; keys are found and compared before they are stored.
pub proof fn law_storing_keys_makes_progress(
    user: Option<&str>,
    body: PutE2eKeysBody,
    prints: Fingerprints,
    f: KeyFacts,
)
    ensures
        ({
            let s = put_step(user, body, prints, f);
            let id = ids::oid_of(user->0@);
            &&& s is CheckPreKeys ==> f.pre_keys_valid is None
            &&& s is FindKeys ==> prints.stored is None
            &&& s is Fingerprint ==> prints.computed is None
            &&& s is CheckBundle ==> f.bundle_valid is None
            &&& s is Store ==> f.stored is None && prints.stored is Some && prints.computed is Some
                && prints.computed->0 is Some
            &&& s is Reply ==> f.stored == Some(Done::Worked)
            &&& s matches KeyStepView::FindKeys(u) ==> id == Some(u)
            &&& s matches KeyStepView::Fingerprint(key) ==> key == body.identity_key@
            &&& s !is Append && s !is CountLeft
            &&& user is Some && id is Some && f.pre_keys_valid != Some(false) && f.bundle_valid
                != Some(false) && (prints.computed is None || prints.computed->0 is Some) && (
            prints.stored is None || prints.stored->0 is None || prints.computed is None
                || prints.stored->0->0@ == prints.computed->0->0@) && f.stored != Some(Done::Failed)
                ==> s !is Refuse
            &&& user is None ==> s == KeyStepView::Refuse(error(401, "Unauthorized"))
            &&& user is Some && id is None ==> s == KeyStepView::Refuse(
                error(400, "Invalid user id"),
            )
            &&& user is Some && id is Some && f.pre_keys_valid == Some(false) ==> s
                == KeyStepView::Refuse(invalid_keys_response())
        }),
{
}

/// Keys of another identity than the stored ones are refused, with the request to delete those
/// first; an identity key without a fingerprint is refused as invalid.
pub proof fn law_other_identity_is_refused(
    user: Option<&str>,
    body: PutE2eKeysBody,
    prints: Fingerprints,
    f: KeyFacts,
)
    requires
        user is Some,
        ids::oid_of(user->0@) is Some,
        f.pre_keys_valid == Some(true),
        prints.stored is Some,
        prints.computed is Some,
    ensures
        prints.stored->0 is Some && prints.computed->0 is Some && prints.stored->0->0@
            != prints.computed->0->0@ ==> put_step(user, body, prints, f) == KeyStepView::Refuse(
            titled(
                400,
                "E2E_IDENTITY_ROTATION_REQUIRED",
                "Identity key changed. Delete existing keys before uploading a new bundle.",
            ),
        ),
        prints.computed->0 is None && f.bundle_valid is Some ==> put_step(user, body, prints, f)
            == KeyStepView::Refuse(titled(400, "INVALID_E2E_KEYS", "Invalid key bundle payload.")),
        f.bundle_valid == Some(false) && (prints.stored->0 is None || (prints.computed->0 is Some
            && prints.stored->0->0@ == prints.computed->0->0@)) ==> put_step(user, body, prints, f)
            == KeyStepView::Refuse(titled(400, "INVALID_E2E_KEYS", "Invalid key bundle payload.")),
{
}

pub open spec fn append_step(user: Option<&str>, body: AppendPreKeysBody, f: KeyFacts) -> KeyStepView {
    match user_gate(user) {
        Err(r) => KeyStepView::Refuse(r),
        Ok(id) => if body.one_time_pre_keys@.len() == 0 {
            KeyStepView::Refuse(error(400, "No prekeys provided"))
        } else if f.pre_keys_valid is None {
            KeyStepView::CheckPreKeys
        } else if !f.pre_keys_valid->0 {
            KeyStepView::Refuse(invalid_keys_response())
        } else if f.stored is None {
            KeyStepView::Append(id, pre_keys(body.one_time_pre_keys@))
        } else if f.stored->0 is Failed {
            KeyStepView::Refuse(error(500, "Server error"))
        } else if !f.counted {
            KeyStepView::CountLeft(id)
        } else {
            KeyStepView::Reply
        },
    }
}

/// Decides the next step of storing further keys.
pub fn append_e2e_prekeys(user: Option<&str>, body: &AppendPreKeysBody, f: &KeyFacts) -> (r: KeyStep)
    ensures
        r@ == append_step(user, *body, *f),
{
    let id = match pass_user(user) {
        Err(r) => return KeyStep::Refuse(r),
        Ok(id) => id,
    };
    if body.one_time_pre_keys.len() == 0 {
        return KeyStep::Refuse(error(400, "No prekeys provided"));
    }
    match f.pre_keys_valid {
        None => return KeyStep::CheckPreKeys,
        Some(false) => return KeyStep::Refuse(invalid_keys_response()),
        Some(true) => {},
    }
    match f.stored {
        None => return KeyStep::Append(id, copy_pre_keys(&body.one_time_pre_keys)),
        Some(Done::Failed) => return KeyStep::Refuse(error(500, "Server error")),
        Some(Done::Worked) => {},
    }
    if !f.counted {
        KeyStep::CountLeft(id)
    } else {
        KeyStep::Reply
    }
}

/// Further keys that were checked are stored for the signed-in user, all of them; then those left
/// are counted and the reply follows. Nothing is stored unchecked.
pub proof fn law_further_keys_are_stored(user: Option<&str>, body: AppendPreKeysBody, f: KeyFacts)
    ensures
        ({
            let s = append_step(user, body, f);
            let signed_in = user is Some && ids::oid_of(user->0@) is Some;
            let sound = signed_in && body.one_time_pre_keys@.len() > 0 && f.pre_keys_valid == Some(
                true,
            );
            &&& sound && f.stored is None ==> s == KeyStepView::Append(
                ids::oid_of(user->0@)->0,
                pre_keys(body.one_time_pre_keys@),
            )
            &&& sound && f.stored == Some(Done::Worked) && !f.counted ==> s == KeyStepView::CountLeft(
                ids::oid_of(user->0@)->0,
            )
            &&& sound && f.stored == Some(Done::Worked) && f.counted ==> s is Reply
            &&& s is Append ==> sound && f.stored is None
            &&& s is CountLeft || s is Reply ==> sound && f.stored == Some(Done::Worked)
            &&& s is CheckPreKeys <==> signed_in && body.one_time_pre_keys@.len() > 0
                && f.pre_keys_valid is None
            &&& s matches KeyStepView::Refuse(r) ==> {
                &&& r.status == 401 <==> user is None
                &&& r.status == 400 ==> !signed_in || body.one_time_pre_keys@.len() == 0
                    || f.pre_keys_valid == Some(false)
                &&& r.status == 500 ==> f.stored == Some(Done::Failed)
                &&& r.status == 401 || r.status == 400 || r.status == 500
            }
        }),
{
}

/// What to do next while the keys of a user are deleted.
#[derive(Clone, Copy, Debug, PartialEq, Eq)]
pub enum DeleteKeysStep {
    DeleteKeys(Oid),
    Disable(Oid),
    Reply,
    Refuse(Refusal),
}

/// Decides the next step of deleting the keys of a user. What fails on the way does not stop it.
pub fn delete_e2e_keys(user: Option<&str>, deleted: bool, disabled: bool) -> (r: DeleteKeysStep)
    ensures
        r == (match user_gate(user) {
            Err(refusal) => DeleteKeysStep::Refuse(refusal),
            Ok(id) => if !deleted {
                DeleteKeysStep::DeleteKeys(id)
            } else if !disabled {
                DeleteKeysStep::Disable(id)
            } else {
                DeleteKeysStep::Reply
            },
        }),
        user is Some && ids::oid_of(user->0@) is Some ==> r == (if !deleted {
            DeleteKeysStep::DeleteKeys(ids::oid_of(user->0@)->0)
        } else if !disabled {
            DeleteKeysStep::Disable(ids::oid_of(user->0@)->0)
        } else {
            DeleteKeysStep::Reply
        }),
        r is Reply ==> deleted && disabled,
{
    match pass_user(user) {
        Err(refusal) => DeleteKeysStep::Refuse(refusal),
        Ok(id) => if !deleted {
            DeleteKeysStep::DeleteKeys(id)
        } else if !disabled {
            DeleteKeysStep::Disable(id)
        } else {
            DeleteKeysStep::Reply
        },
    }
}

/// What is known while the keys of another user are asked for.
#[derive(Clone, Copy, Debug)]
pub struct BundleFacts {
    /// The account that is asked for, with whether it writes encrypted.
    pub account: Option<Lookup<bool>>,
    pub friends: Option<bool>,
    /// The keys, which are handed out or only looked at.
    pub bundle: Option<Lookup<()>>,
}

/// What to do next while the keys of another user are asked for.
#[derive(Clone, Copy, Debug, PartialEq, Eq)]
pub enum BundleStep {
    LoadUser(Oid),
    AskFriends(Oid),
    /// Take the keys of the user, with one that is handed out once; or look at them.
    TakeKeys(Oid),
    /// Load the keys, and take none away.
    LookAtKeys(Oid),
    Reply(Oid),
    Refuse(Refusal),
}

/// The step for the keys of a user: one that is handed out once is taken, or they are only
/// looked at.
pub open spec fn bundle_step(
    requester: Option<&str>,
    target: Seq<char>,
    take: bool,
    f: BundleFacts,
) -> BundleStep {
    let id = ids::oid_of(target)->0;
    if requester is None {
        BundleStep::Refuse(error(401, "Unauthorized"))
    } else if ids::oid_of(target) is None {
        BundleStep::Refuse(error(400, "Invalid user id"))
    } else if f.account is None {
        BundleStep::LoadUser(id)
    } else if f.account->0 is Missing {
        BundleStep::Refuse(error(404, "User not found"))
    } else if f.account->0 is Failed {
        BundleStep::Refuse(error(500, "Server error"))
    } else if !f.account->0->0 {
        BundleStep::Refuse(error(404, "E2E not enabled for user"))
    } else if requester->0@ != target && f.friends is None {
        BundleStep::AskFriends(id)
    } else if requester->0@ != target && !f.friends->0 {
        BundleStep::Refuse(error(403, "Access denied"))
    } else {
        match f.bundle {
            None => if take {
                BundleStep::TakeKeys(id)
            } else {
                BundleStep::LookAtKeys(id)
            },
            Some(Lookup::Found(_)) => BundleStep::Reply(id),
            Some(Lookup::Missing) => BundleStep::Refuse(error(404, "No key bundle")),
            Some(Lookup::Failed) => BundleStep::Refuse(error(500, "Server error")),
        }
    }
}

fn hand_out(requester: Option<&str>, target: &str, take: bool, f: &BundleFacts) -> (r: BundleStep)
    ensures
        r == bundle_step(requester, target@, take, *f),
{
    let requester = match requester {
        None => return BundleStep::Refuse(error(401, "Unauthorized")),
        Some(u) => u,
    };
    let id = match parse_oid(target) {
        None => return BundleStep::Refuse(error(400, "Invalid user id")),
        Some(id) => id,
    };
    match f.account {
        None => return BundleStep::LoadUser(id),
        Some(Lookup::Missing) => return BundleStep::Refuse(error(404, "User not found")),
        Some(Lookup::Failed) => return BundleStep::Refuse(error(500, "Server error")),
        Some(Lookup::Found(enabled)) => {
            if !enabled {
                return BundleStep::Refuse(error(404, "E2E not enabled for user"));
            }
        },
    }
    if !text::same_text(requester, target) {
        match f.friends {
            None => return BundleStep::AskFriends(id),
            Some(false) => return BundleStep::Refuse(error(403, "Access denied")),
            Some(true) => {},
        }
    }
    match f.bundle {
        None => if take {
            BundleStep::TakeKeys(id)
        } else {
            BundleStep::LookAtKeys(id)
        },
        Some(Lookup::Found(_)) => BundleStep::Reply(id),
        Some(Lookup::Missing) => BundleStep::Refuse(error(404, "No key bundle")),
        Some(Lookup::Failed) => BundleStep::Refuse(error(500, "Server error")),
    }
}

/// Decides the next step of handing out the keys of a user: one of those that are handed out
/// once goes with them.
pub fn get_e2e_key_bundle(requester: Option<&str>, target: &str, f: &BundleFacts) -> (r: BundleStep)
    ensures
        r == bundle_step(requester, target@, true, *f),
{
    hand_out(requester, target, true, f)
}

/// Decides the next step of showing the fingerprint of the key of a user.
pub fn get_e2e_key_fingerprint(requester: Option<&str>, target: &str, f: &BundleFacts) -> (r:
    BundleStep)
    ensures
        r == bundle_step(requester, target@, false, *f),
{
    hand_out(requester, target, false, f)
}

/// The keys of a user go only to the user and to friends, and only while the user writes
/// encrypted; a key is taken only where keys are handed out.
pub proof fn law_keys_go_to_friends(
    requester: Option<&str>,
    target: Seq<char>,
    take: bool,
    f: BundleFacts,
)
    ensures
        ({
            let s = bundle_step(requester, target, take, f);
            s is TakeKeys || s is LookAtKeys || s is Reply ==> f.account == Some(Lookup::Found(true))
                && requester is Some && (requester->0@ == target || f.friends == Some(true))
        }),
        bundle_step(requester, target, take, f) is TakeKeys ==> take,
{
}

/// A user who writes encrypted has the keys handed out to the user and to friends: the request is
/// not refused while nothing speaks against it, and ends with the keys. One key that is handed out
/// once is taken exactly where keys are handed out, and none where they are only looked at.
pub proof fn law_friends_get_the_keys(
    requester: Option<&str>,
    target: Seq<char>,
    take: bool,
    f: BundleFacts,
)
    ensures
        ({
            let s = bundle_step(requester, target, take, f);
            let allowed = requester is Some && ids::oid_of(target) is Some && (f.account is None
                || f.account == Some(Lookup::Found(true))) && (requester->0@ == target || f.friends
                != Some(false));
            let known = f.account is Some && (requester->0@ == target || f.friends is Some);
            &&& allowed && (f.bundle is None || f.bundle->0 is Found) ==> s !is Refuse
            &&& allowed && known && f.bundle is None && take ==> s == BundleStep::TakeKeys(
                ids::oid_of(target)->0,
            )
            &&& allowed && known && f.bundle is None && !take ==> s == BundleStep::LookAtKeys(
                ids::oid_of(target)->0,
            )
            &&& allowed && known && f.bundle is Some && f.bundle->0 is Found ==> s
                == BundleStep::Reply(ids::oid_of(target)->0)
            &&& s is LoadUser ==> s == BundleStep::LoadUser(ids::oid_of(target)->0) && f.account is
                None
            &&& s is AskFriends ==> s == BundleStep::AskFriends(ids::oid_of(target)->0) && f.friends
                is None && requester->0@ != target
            &&& s is TakeKeys || s is LookAtKeys ==> f.bundle is None
            &&& s matches BundleStep::Reply(id) ==> f.bundle is Some && f.bundle->0 is Found
                && ids::oid_of(target) == Some(id)
            &&& s matches BundleStep::Refuse(r) ==> {
                &&& r.status == 401 <==> requester is None
                &&& r.status == 400 ==> ids::oid_of(target) is None
                &&& r.status == 403 ==> requester->0@ != target && f.friends == Some(false)
                &&& r.status == 404 ==> f.account == Some(Lookup::<bool>::Missing) || f.account
                    == Some(Lookup::Found(false)) || (f.bundle is Some && f.bundle->0 is Missing)
                &&& r.status == 500 ==> f.account == Some(Lookup::<bool>::Failed) || (f.bundle is
                    Some && f.bundle->0 is Failed)
                &&& r.status == 401 || r.status == 400 || r.status == 403 || r.status == 404
                    || r.status == 500
            }
        }),
{
}

/// The users that texts name; texts that name none do not count.
pub open spec fn named(parts: Seq<Seq<char>>) -> Seq<Oid>
    decreases parts.len(),
{
    if parts.len() == 0 {
        Seq::empty()
    } else {
        match ids::oid_of(text::trimmed(parts.last())) {
            Some(id) => named(parts.drop_last()).push(id),
            None => named(parts.drop_last()),
        }
    }
}

/// The first `max` users that a list names, with commas between them.
pub open spec fn users_in(list: Seq<char>, max: int) -> Seq<Oid> {
    let all = named(text::split(list, ','));
    if all.len() <= max {
        all
    } else {
        all.take(max)
    }
}

/// Reads the users that texts name.
pub fn read_named(parts: &Vec<String>) -> (r: Vec<Oid>)
    ensures
        r@ == named(text::texts(parts@)),
{
    let ghost all = text::texts(parts@);
    let mut found: Vec<Oid> = Vec::new();
    let mut i: usize = 0;
    assert(all.take(0) =~= Seq::empty());
    while i < parts.len()
        invariant
            i <= parts.len(),
            all == text::texts(parts@),
            found@ == named(all.take(i as int)),
        decreases parts.len() - i,
    {
        assert(all.take(i + 1).drop_last() =~= all.take(i as int));
        assert(all.take(i + 1).last() == parts@[i as int]@);
        if let Some(id) = parse_oid(text::trim(parts[i].as_str()).as_str()) {
            found.push(id);
        }
        i += 1;
    }
    assert(all.take(i as int) =~= all);
    found
}

/// Reads the first `max` users that a list names.
pub fn read_users(list: &str, max: usize) -> (r: Vec<Oid>)
    ensures
        r@ == users_in(list@, max as int),
        r@.len() <= max,
{
    let found = read_named(&text::split_on(list, ','));
    if found.len() <= max {
        return found;
    }
    let mut out: Vec<Oid> = Vec::new();
    let mut k: usize = 0;
    while k < max
        invariant
            k <= max,
            max < found.len(),
            out@ == found@.take(k as int),
        decreases max - k,
    {
        out.push(found[k]);
        assert(out@ =~= found@.take(k + 1));
        k += 1;
    }
    out
}

/// Reads the users whose keys a request asks for.
pub fn bulk_key_users(q: &BulkQuery) -> (r: Vec<Oid>)
    ensures
        r@ == users_in(q.ids@, MAX_BULK_KEYS as int),
        r@.len() <= MAX_BULK_KEYS,
{
    read_users(q.ids.as_str(), MAX_BULK_KEYS)
}

/// Reads the users of whom a request asks whether they write encrypted.
pub fn bulk_capability_users(q: &BulkQuery) -> (r: Vec<Oid>)
    ensures
        r@ == users_in(q.ids@, MAX_BULK_CAPABILITIES as int),
        r@.len() <= MAX_BULK_CAPABILITIES,
{
    read_users(q.ids.as_str(), MAX_BULK_CAPABILITIES)
}

/// What to do next about one of many users whose keys are handed out.
#[derive(Clone, Copy, Debug, PartialEq, Eq)]
pub enum BulkStep {
    LoadUser(Oid),
    AskFriends(Oid),
    TakeKeys(Oid),
    /// Show the keys of the user in the reply.
    Show(Oid),
    /// Leave the user out of the reply.
    Skip,
    Refuse(Refusal),
}

pub open spec fn bulk_step(requester: Option<&str>, user: Oid, f: BundleFacts) -> BulkStep {
    if requester is None {
        BulkStep::Refuse(error(401, "Unauthorized"))
    } else if f.account is None {
        BulkStep::LoadUser(user)
    } else if f.account->0 !is Found || !f.account->0->0 {
        BulkStep::Skip
    } else if requester->0@ != ids::hex_of(user) && f.friends is None {
        BulkStep::AskFriends(user)
    } else if requester->0@ != ids::hex_of(user) && !f.friends->0 {
        BulkStep::Skip
    } else {
        match f.bundle {
            None => BulkStep::TakeKeys(user),
            Some(Lookup::Found(_)) => BulkStep::Show(user),
            Some(_) => BulkStep::Skip,
        }
    }
}

/// Decides the next step about one of the users whose keys are handed out.
pub fn get_e2e_key_bulk(requester: Option<&str>, user: Oid, f: &BundleFacts) -> (r: BulkStep)
    ensures
        r == bulk_step(requester, user, *f),
{
    let requester = match requester {
        None => return BulkStep::Refuse(error(401, "Unauthorized")),
        Some(u) => u,
    };
    match f.account {
        None => return BulkStep::LoadUser(user),
        Some(Lookup::Found(true)) => {},
        Some(_) => return BulkStep::Skip,
    }
    if !is_hex_of(user, requester) {
        match f.friends {
            None => return BulkStep::AskFriends(user),
            Some(false) => return BulkStep::Skip,
            Some(true) => {},
        }
    }
    match f.bundle {
        None => BulkStep::TakeKeys(user),
        Some(Lookup::Found(_)) => BulkStep::Show(user),
        Some(_) => BulkStep::Skip,
    }
}

/// The fingerprint of the key of a user.
#[derive(Debug, PartialEq, Eq)]
pub struct FingerprintRow {
    pub user: Oid,
    pub fingerprint: String,
}

/// The view of `FingerprintRow`.
#[verifier::ext_equal]
pub struct FingerprintRowView {
    pub user: Oid,
    pub fingerprint: Seq<char>,
}

impl View for FingerprintRow {
    type V = FingerprintRowView;

    open spec fn view(&self) -> FingerprintRowView {
        FingerprintRowView {
            user: self.user,
            fingerprint: self.fingerprint@,
        }
    }
}

/// The fingerprint of a user: of several, the one that stands last.
pub open spec fn fingerprint_in(rows: Seq<FingerprintRowView>, user: Oid) -> Option<Seq<char>>
    decreases rows.len(),
{
    if rows.len() == 0 {
        None
    } else if rows.last().user == user {
        Some(rows.last().fingerprint)
    } else {
        fingerprint_in(rows.drop_last(), user)
    }
}

/// The view of a list of fingerprints.
pub open spec fn fingerprint_rows(v: Seq<FingerprintRow>) -> Seq<FingerprintRowView> {
    v.map_values(|x: FingerprintRow| x@)
}

/// Finds the fingerprint of a user.
pub fn find_fingerprint(rows: &Vec<FingerprintRow>, user: Oid) -> (r: Option<String>)
    ensures
        text::opt(r) == fingerprint_in(fingerprint_rows(rows@), user),
{
    let ghost all = fingerprint_rows(rows@);
    let mut n: usize = rows.len();
    proof {
        assert(all.take(n as int) =~= all);
    }
    while n > 0
        invariant
            n <= rows.len(),
            all == fingerprint_rows(rows@),
            fingerprint_in(all, user) == fingerprint_in(all.take(n as int), user),
        decreases n,
    {
        proof {
            assert(all.take(n as int).drop_last() =~= all.take(n - 1));
        }
        let row = &rows[n - 1];
        if row.user == user {
            return Some(row.fingerprint.as_str().to_owned());
        }
        n -= 1;
    }
    None
}

/// What to do next about one of many users of whom is asked whether they write encrypted.
#[derive(Debug, PartialEq, Eq)]
pub enum CapabilityStep {
    LoadUser(Oid),
    AskFriends(Oid),
    /// Load the keys, and take none away.
    LookAtKeys(Oid),
    /// Show the user in the reply.
    Show { user: Oid, enabled: bool, has_keys: bool, fingerprint: Option<String> },
    /// Leave the user out of the reply.
    Skip,
    Refuse(Refusal),
}

/// The view of `CapabilityStep`.
#[verifier::ext_equal]
pub enum CapabilityStepView {
    LoadUser(Oid),
    AskFriends(Oid),
    LookAtKeys(Oid),
    Show { user: Oid, enabled: bool, has_keys: bool, fingerprint: Option<Seq<char>> },
    Skip,
    Refuse(Refusal),
}

impl View for CapabilityStep {
    type V = CapabilityStepView;

    open spec fn view(&self) -> CapabilityStepView {
        match self {
            CapabilityStep::LoadUser(a) => CapabilityStepView::LoadUser(*a),
            CapabilityStep::AskFriends(a) => CapabilityStepView::AskFriends(*a),
            CapabilityStep::LookAtKeys(a) => CapabilityStepView::LookAtKeys(*a),
            CapabilityStep::Show { user, enabled, has_keys, fingerprint } => CapabilityStepView::Show {
                user: *user,
                enabled: *enabled,
                has_keys: *has_keys,
                fingerprint: text::opt(*fingerprint),
            },
            CapabilityStep::Skip => CapabilityStepView::Skip,
            CapabilityStep::Refuse(a) => CapabilityStepView::Refuse(*a),
        }
    }
}

pub open spec fn capability_step(
    requester: Option<&str>,
    user: Oid,
    rows: Seq<FingerprintRowView>,
    f: BundleFacts,
) -> CapabilityStepView {
    if requester is None {
        CapabilityStepView::Refuse(error(401, "Unauthorized"))
    } else if requester->0@ != ids::hex_of(user) && f.friends is None {
        CapabilityStepView::AskFriends(user)
    } else if requester->0@ != ids::hex_of(user) && !f.friends->0 {
        CapabilityStepView::Skip
    } else {
        match f.account {
            None => CapabilityStepView::LoadUser(user),
            Some(Lookup::Found(enabled)) => match f.bundle {
                None => CapabilityStepView::LookAtKeys(user),
                Some(found) => CapabilityStepView::Show {
                    user,
                    enabled,
                    has_keys: found is Found,
                    fingerprint: fingerprint_in(rows, user),
                },
            },
            Some(_) => CapabilityStepView::Skip,
        }
    }
}

/// Decides the next step about one of the users of whom is asked whether they write encrypted;
/// their keys are only looked at. `rows` are the fingerprints of all those users, as far as they
/// could be loaded.
pub fn get_e2e_capabilities(
    requester: Option<&str>,
    user: Oid,
    rows: &Vec<FingerprintRow>,
    f: &BundleFacts,
) -> (r: CapabilityStep)
    ensures
        r@ == capability_step(requester, user, fingerprint_rows(rows@), *f),
{
    let requester = match requester {
        None => return CapabilityStep::Refuse(error(401, "Unauthorized")),
        Some(u) => u,
    };
    if !is_hex_of(user, requester) {
        match f.friends {
            None => return CapabilityStep::AskFriends(user),
            Some(false) => return CapabilityStep::Skip,
            Some(true) => {},
        }
    }
    match f.account {
        None => CapabilityStep::LoadUser(user),
        Some(Lookup::Found(enabled)) => {
            let has_keys = match f.bundle {
                None => return CapabilityStep::LookAtKeys(user),
                Some(Lookup::Found(_)) => true,
                Some(_) => false,
            };
            CapabilityStep::Show {
                user,
                enabled,
                has_keys,
                fingerprint: find_fingerprint(rows, user),
            }
        },
        Some(_) => CapabilityStep::Skip,
    }
}

/// Of many users, too, a request learns only of the user that it comes from and of friends.
pub proof fn law_bulk_shows_friends(
    requester: Option<&str>,
    user: Oid,
    rows: Seq<FingerprintRowView>,
    f: BundleFacts,
)
    ensures
        ({
            let keys = bulk_step(requester, user, f);
            let shown = capability_step(requester, user, rows, f);
            keys is Show || keys is TakeKeys || shown is Show || shown is LookAtKeys ==> requester
                is Some && (requester->0@ == ids::hex_of(user) || f.friends == Some(true))
        }),
        bulk_step(requester, user, f) is TakeKeys ==> f.account == Some(Lookup::Found(true)),
{
}

/// Of many users, those who write encrypted, are asked for by themselves or by a friend and have
/// keys are shown; the others are left out, and the request is not refused for them.
pub proof fn law_bulk_leaves_out_the_others(
    requester: Option<&str>,
    user: Oid,
    rows: Seq<FingerprintRowView>,
    f: BundleFacts,
)
    requires
        requester is Some,
    ensures
        ({
            let s = bulk_step(requester, user, f);
            let near = requester->0@ == ids::hex_of(user) || f.friends == Some(true);
            let far = requester->0@ != ids::hex_of(user) && f.friends == Some(false);
            let found = f.bundle is Some && f.bundle->0 is Found;
            &&& s !is Refuse
            &&& f.account == Some(Lookup::Found(true)) && near && f.bundle is None ==> s
                == BulkStep::TakeKeys(user)
            &&& f.account == Some(Lookup::Found(true)) && near && found ==> s == BulkStep::Show(user)
            &&& s == BulkStep::Show(user) || s == BulkStep::TakeKeys(user) || s == BulkStep::LoadUser(
                user,
            ) || s == BulkStep::AskFriends(user) || s is Skip
            &&& s is Show ==> found
            &&& s is LoadUser <==> f.account is None
            &&& s is AskFriends ==> f.friends is None
            &&& s is Skip ==> f.account != Some(Lookup::Found(true)) || far || (f.bundle is Some
                && f.bundle->0 !is Found)
        }),
        ({
            let s = capability_step(requester, user, rows, f);
            let near = requester->0@ == ids::hex_of(user) || f.friends == Some(true);
            &&& s !is Refuse
            &&& near && f.account is None ==> s == CapabilityStepView::LoadUser(user)
            &&& near && f.account is Some && f.account->0 is Found && f.bundle is None ==> s
                == CapabilityStepView::LookAtKeys(user)
            &&& near && f.account is Some && f.account->0 is Found && f.bundle is Some ==> s is Show
            &&& s matches CapabilityStepView::Show { user: u, enabled, has_keys, fingerprint } ==> u
                == user && f.account == Some(Lookup::Found(enabled)) && has_keys == (f.bundle->0 is
                Found) && ((forall|i: int|
                0 <= i < rows.len() ==> (#[trigger] rows[i]).user != user) ==> fingerprint is None)
            &&& s is AskFriends ==> f.friends is None && s == CapabilityStepView::AskFriends(user)
            &&& s is Skip ==> !near || (f.account is Some && f.account->0 !is Found)
        }),
{
    lemma_no_row_no_fingerprint(rows, user);
}

proof fn lemma_no_row_no_fingerprint(rows: Seq<FingerprintRowView>, user: Oid)
    ensures
        (forall|i: int| 0 <= i < rows.len() ==> (#[trigger] rows[i]).user != user)
            ==> fingerprint_in(rows, user) is None,
    decreases rows.len(),
{
    if rows.len() > 0 {
        let rest = rows.drop_last();
        lemma_no_row_no_fingerprint(rest, user);
        if forall|i: int| 0 <= i < rows.len() ==> (#[trigger] rows[i]).user != user {
            assert forall|i: int| 0 <= i < rest.len() implies (#[trigger] rest[i]).user != user by {
                assert(rest[i] == rows[i]);
            }
            assert(rows[rows.len() - 1].user != user);
        }
    }
}

/// Of the fingerprints of a user the one that stands last counts; those of others do not.
pub proof fn law_last_fingerprint_counts(
    rows: Seq<FingerprintRowView>,
    row: FingerprintRowView,
    user: Oid,
)
    ensures
        row.user == user ==> fingerprint_in(rows.push(row), user) == Some(row.fingerprint),
        row.user != user ==> fingerprint_in(rows.push(row), user) == fingerprint_in(rows, user),
        fingerprint_in(Seq::empty(), user) is None,
{
    assert(rows.push(row).drop_last() =~= rows);
}

/// A list names the users whose ids stand in it, in order, with space around them or not; what is
/// no id names nobody, and only the first `max` are read.
pub proof fn law_named_users_are_read(parts: Seq<Seq<char>>, part: Seq<char>, max: int)
    ensures
        ids::oid_of(text::trimmed(part)) matches Some(id) ==> named(parts.push(part)) == named(
            parts,
        ).push(id),
        ids::oid_of(text::trimmed(part)) is None ==> named(parts.push(part)) == named(parts),
        named(Seq::empty()) == Seq::<Oid>::empty(),
        forall|list: Seq<char>|
            0 <= max ==> (#[trigger] users_in(list, max)).len() <= max && users_in(list, max)
                == named(text::split(list, ',')).take(users_in(list, max).len() as int),
        forall|list: Seq<char>|
            named(text::split(list, ',')).len() <= max ==> #[trigger] users_in(list, max) == named(
                text::split(list, ','),
            ),
{
    assert(parts.push(part).drop_last() =~= parts);
    assert forall|list: Seq<char>| 0 <= max implies (#[trigger] users_in(list, max)).len() <= max
        && users_in(list, max) == named(text::split(list, ',')).take(
        users_in(list, max).len() as int,
    ) by {
        let all = named(text::split(list, ','));
        assert(all.take(all.len() as int) =~= all);
    }
}

} // verus!
