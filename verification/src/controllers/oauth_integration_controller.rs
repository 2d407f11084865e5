//! Linking accounts of other services to a profile.

use vstd::prelude::*;

use crate::controllers::spotify_controller;
use crate::controllers::spotify_controller::{
    ActiveUser, ChangeFacts, ChangeStep, Listener, Music, ReturnSites, StoredToken, SyncFacts,
    SyncStep, SyncStepView, change_settings, choose_origin, chosen_origin, load_active_user,
    resolve_spotify_refresh_token, status_quota, sync_listening,
};
use crate::ids;
use crate::ids::Oid;
use crate::percent;
use crate::reply::{Done, Lookup, Quota, Refusal, error};
use crate::text;

verus! {

/// Where to return after linking.
pub struct ConnectQuery {
    pub return_to: Option<String>,
}

/// What a service sends back after a sign-in.
pub struct CallbackQuery {
    pub code: Option<String>,
    pub state: Option<String>,
    pub error: Option<String>,
    pub error_description: Option<String>,
}

/// A client that reports what is playing.
pub struct ListeningSyncBody {
    pub client_type: String,
    pub client_instance_id: String,
}

/// Whether to show what is playing.
pub struct ListeningSettingsBody {
    pub share_listening: bool,
}

/// The kind of client that is meant where none is named.
pub fn default_client_type() -> (r: String)
    ensures
        r@ == "web"@,
{
    "web".to_owned()
}

/// What the rules read of a service.
#[derive(Clone, Copy, Debug, PartialEq, Eq)]
pub struct Provider {
    pub id: &'static str,
    pub name: &'static str,
    pub oauth_supported: bool,
    /// Whether it is configured.
    pub enabled: bool,
    pub listening_sync: bool,
    pub use_pkce: bool,
    pub revoke_on_disconnect: bool,
}

/// Whether a service is Spotify.
pub open spec fn names_spotify(provider: Seq<char>) -> bool {
    provider == "spotify"@
}

/// Decides by its id whether a service is Spotify.
pub fn is_spotify(provider: &str) -> (r: bool)
    ensures
        r == (provider@ == "spotify"@),
        r == names_spotify(provider@),
{
    text::same_text(provider, "spotify")
}

/// An account of a service, as a profile shows it.
pub struct ConnectedAccount {
    pub provider: String,
    pub account_name: String,
    pub profile_url: String,
}

/// The words for a service without a public sign-in.
pub fn no_oauth_text(name: &str) -> (r: String)
    ensures
        r@ == "Integracja "@ + name@ + " nie ma publicznego OAuth API"@,
{
    text::join3("Integracja ", name, " nie ma publicznego OAuth API")
}

/// The words for a service that is not configured.
pub fn not_configured_text(name: &str) -> (r: String)
    ensures
        r@ == "Integracja "@ + name@ + " nie jest skonfigurowana"@,
{
    text::join3("Integracja ", name, " nie jest skonfigurowana")
}

/// Where a user is sent after a failed sign-in.
pub fn oauth_fail(frontend: &str, provider: &str, words: &str) -> (r: String)
    ensures
        r@ == frontend@ + "/?integration="@ + provider@ + "&status=error&message="@
            + percent::encoded(vstd::utf8::encode_utf8(words@), true),
{
    let mut s = text::join3(frontend, "/?integration=", provider);
    s.append("&status=error&message=");
    s.append(percent::encode(words, true).as_str());
    s
}

/// Where a user is sent after a successful sign-in.
pub fn oauth_success(frontend: &str, provider: &str) -> (r: String)
    ensures
        r@ == frontend@ + "/?integration="@ + provider@ + "&status=connected"@,
{
    let mut s = text::join3(frontend, "/?integration=", provider);
    s.append("&status=connected");
    s
}

/// Whether the account at `i` is one of the service `provider`.
pub open spec fn is_account_of(accounts: Seq<ConnectedAccount>, provider: Seq<char>, i: int) -> bool {
    0 <= i < accounts.len() && accounts[i].provider@ == provider
}

/// Finds the first account of a service.
pub fn account_of(accounts: &Vec<ConnectedAccount>, provider: &str) -> (r: Option<usize>)
    ensures
        match r {
            Some(i) => is_account_of(accounts@, provider@, i as int) && forall|j: int|
                0 <= j < i ==> !#[trigger] is_account_of(accounts@, provider@, j),
            None => forall|j: int| !#[trigger] is_account_of(accounts@, provider@, j),
        },
{
    let mut i: usize = 0;
    while i < accounts.len()
        invariant
            i <= accounts.len(),
            forall|j: int| 0 <= j < i ==> !#[trigger] is_account_of(accounts@, provider@, j),
        decreases accounts.len() - i,
    {
        if text::same_text(accounts[i].provider.as_str(), provider) {
            assert(is_account_of(accounts@, provider@, i as int));
            return Some(i);
        }
        i += 1;
    }
    None
}

/// What a stored link says of the account.
pub struct LinkedAccount {
    pub user_id: Option<String>,
    pub display_name: Option<String>,
}

/// What to do to show a linked account that the profile lacks.
pub enum Backfill {
    AskConnected(Oid),
    LoadLink(Oid),
    /// Add this account to the profile.
    Put(ConnectedAccount),
    Nothing,
}

/// The view of what to do to show a linked account that the profile lacks.
pub enum BackfillView {
    AskConnected(Oid),
    LoadLink(Oid),
    Put { provider: Seq<char>, account_name: Seq<char>, profile_url: Seq<char> },
    Nothing,
}

impl View for Backfill {
    type V = BackfillView;

    open spec fn view(&self) -> BackfillView {
        match self {
            Backfill::AskConnected(id) => BackfillView::AskConnected(*id),
            Backfill::LoadLink(id) => BackfillView::LoadLink(*id),
            Backfill::Put(a) => BackfillView::Put {
                provider: a.provider@,
                account_name: a.account_name@,
                profile_url: a.profile_url@,
            },
            Backfill::Nothing => BackfillView::Nothing,
        }
    }
}

/// What to do to show a linked account that the profile lacks. Only Spotify accounts have an
/// address that their id gives.
pub open spec fn backfill(
    user: Option<Oid>,
    connected: Option<bool>,
    accounts: Seq<ConnectedAccount>,
    link: Option<Option<LinkedAccount>>,
    provider: Seq<char>,
    name: Seq<char>,
) -> BackfillView {
    if user is None {
        BackfillView::Nothing
    } else if connected is None {
        BackfillView::AskConnected(user->0)
    } else if !connected->0 {
        BackfillView::Nothing
    } else if exists|j: int| #[trigger] is_account_of(accounts, provider, j) {
        BackfillView::Nothing
    } else if link is None {
        BackfillView::LoadLink(user->0)
    } else if link->0 is None || link->0->0.user_id is None || provider != "spotify"@ {
        BackfillView::Nothing
    } else {
        BackfillView::Put {
            provider,
            account_name: match link->0->0.display_name {
                Some(n) => n@,
                None => name,
            },
            profile_url: "https://open.spotify.com/user/"@ + link->0->0.user_id->0@,
        }
    }
}

/// Decides what to do to show a linked account that the profile lacks.
pub fn backfill_connected_account(
    user: Option<Oid>,
    connected: Option<bool>,
    accounts: &Vec<ConnectedAccount>,
    link: &Option<Option<LinkedAccount>>,
    provider: &str,
    name: &str,
) -> (r: Backfill)
    ensures
        r@ == backfill(user, connected, accounts@, *link, provider@, name@),
{
    let id = match user {
        None => return Backfill::Nothing,
        Some(id) => id,
    };
    match connected {
        None => return Backfill::AskConnected(id),
        Some(false) => return Backfill::Nothing,
        Some(true) => {},
    }
    if account_of(accounts, provider).is_some() {
        return Backfill::Nothing;
    }
    let linked = match link {
        None => return Backfill::LoadLink(id),
        Some(None) => return Backfill::Nothing,
        Some(Some(l)) => l,
    };
    let user_id = match &linked.user_id {
        None => return Backfill::Nothing,
        Some(s) => s,
    };
    let account_name = match &linked.display_name {
        Some(n) => n.as_str().to_owned(),
        None => name.to_owned(),
    };
    if !text::same_text(provider, "spotify") {
        return Backfill::Nothing;
    }
    Backfill::Put(
        ConnectedAccount {
            provider: provider.to_owned(),
            account_name,
            profile_url: text::join2("https://open.spotify.com/user/", user_id.as_str()),
        },
    )
}

/// A linked Spotify account that the profile lacks is put there, under its name or else that of the
/// service; nothing is put where one stands already or none is linked.
pub proof fn law_missing_account_is_put_on_the_profile(
    user: Option<Oid>,
    connected: Option<bool>,
    accounts: Seq<ConnectedAccount>,
    link: Option<Option<LinkedAccount>>,
    provider: Seq<char>,
    name: Seq<char>,
)
    ensures
        ({
            let s = backfill(user, connected, accounts, link, provider, name);
            let there = exists|j: int|
                0 <= j < accounts.len() && (#[trigger] accounts[j]).provider@ == provider;
            let linked = user is Some && connected is Some && connected->0 && !there;
            let account = link is Some && link->0 is Some && link->0->0.user_id is Some;
            &&& linked && account && provider == "spotify"@ <==> s is Put
            &&& s matches BackfillView::Put { provider: p, account_name, profile_url } ==> p == provider
                && profile_url == "https://open.spotify.com/user/"@ + link->0->0.user_id->0@ && (
            link->0->0.display_name is None ==> account_name == name) && (
            link->0->0.display_name is Some ==> account_name == link->0->0.display_name->0@)
            &&& user is Some && connected is None ==> s == BackfillView::AskConnected(user->0)
            &&& linked && link is None ==> s == BackfillView::LoadLink(user->0)
            &&& user is Some && connected is Some && connected->0 && there ==> s is Nothing
        }),
{
    if exists|j: int| 0 <= j < accounts.len() && (#[trigger] accounts[j]).provider@ == provider {
        let j = choose|j: int|
            0 <= j < accounts.len() && (#[trigger] accounts[j]).provider@ == provider;
        assert(is_account_of(accounts, provider, j));
    }
    if exists|j: int| #[trigger] is_account_of(accounts, provider, j) {
        let j = choose|j: int| #[trigger] is_account_of(accounts, provider, j);
        assert(accounts[j].provider@ == provider);
    }
}

/// One line of the list of services.
pub struct CatalogItem {
    pub id: &'static str,
    pub name: &'static str,
    pub oauth_supported: bool,
    pub enabled: bool,
    pub listening_sync: bool,
}

/// Lists the services, each in its place.
pub fn integration_catalog(providers: &Vec<Provider>) -> (r: Vec<CatalogItem>)
    ensures
        r@ == Seq::new(
            providers@.len(),
            |i: int|
                (CatalogItem {
                    id: providers@[i].id,
                    name: providers@[i].name,
                    oauth_supported: providers@[i].oauth_supported,
                    enabled: providers@[i].enabled,
                    listening_sync: providers@[i].listening_sync,
                }),
        ),
{
    let mut out: Vec<CatalogItem> = Vec::new();
    let mut i: usize = 0;
    while i < providers.len()
        invariant
            i <= providers.len(),
            out@.len() == i,
            forall|j: int|
                0 <= j < i ==> #[trigger] out@[j] == (CatalogItem {
                    id: providers@[j].id,
                    name: providers@[j].name,
                    oauth_supported: providers@[j].oauth_supported,
                    enabled: providers@[j].enabled,
                    listening_sync: providers@[j].listening_sync,
                }),
        decreases providers.len() - i,
    {
        out.push(
            CatalogItem {
                id: providers[i].id,
                name: providers[i].name,
                oauth_supported: providers[i].oauth_supported,
                enabled: providers[i].enabled,
                listening_sync: providers[i].listening_sync,
            },
        );
        i += 1;
    }
    out
}

/// The first account of a service in a profile.
pub open spec fn first_account(accounts: Seq<ConnectedAccount>, provider: Seq<char>) -> Option<
    ConnectedAccount,
>
    decreases accounts.len(),
{
    if accounts.len() == 0 {
        None
    } else {
        match first_account(accounts.drop_last(), provider) {
            Some(a) => Some(a),
            None => if accounts.last().provider@ == provider {
                Some(accounts.last())
            } else {
                None
            },
        }
    }
}

proof fn lemma_first_account(accounts: Seq<ConnectedAccount>, provider: Seq<char>, n: int)
    requires
        0 <= n <= accounts.len(),
        forall|j: int| 0 <= j < n ==> !#[trigger] is_account_of(accounts, provider, j),
        n < accounts.len() ==> is_account_of(accounts, provider, n),
    ensures
        first_account(accounts, provider) == (if n < accounts.len() {
            Some(accounts[n])
        } else {
            None
        }),
    decreases accounts.len(),
{
    if accounts.len() > 0 {
        let rest = accounts.drop_last();
        let k = if n < rest.len() {
            n
        } else {
            rest.len() as int
        };
        assert forall|j: int| 0 <= j < k implies !#[trigger] is_account_of(rest, provider, j) by {
            assert(!is_account_of(accounts, provider, j));
        }
        if n < rest.len() {
            assert(is_account_of(rest, provider, n));
        }
        lemma_first_account(rest, provider, k);
        if n == accounts.len() {
            assert(!is_account_of(accounts, provider, accounts.len() - 1));
        }
    }
}

/// What is known while a link is shown or made.
#[derive(Clone, Copy, Debug)]
pub struct IntegrationFacts {
    pub counted: Option<bool>,
    pub account: Option<Lookup<Listener>>,
    /// Whether a linked account that the profile lacks was looked for.
    pub backfilled: bool,
    pub connected: Option<bool>,
    /// The address of the sign-in was made.
    pub built: Option<Done>,
}

/// What to do next while a link is shown or made.
#[derive(Debug, PartialEq, Eq)]
pub enum IntegrationStep {
    /// Count one request under the key.
    CountRequest { key: String, quota: Quota },
    LoadUser(Oid),
    Backfill(Oid),
    AskConnected(Oid),
    /// Make the state of the sign-in, for the user and with this return, and its address; with a
    /// challenge where `pkce` holds.
    BuildAddress { provider: &'static str, user: String, origin: String, pkce: bool },
    ReplyStatus {
        provider: &'static str,
        connected: bool,
        enabled: bool,
        oauth_supported: bool,
        account_name: Option<String>,
        profile_url: Option<String>,
        shares: Option<bool>,
    },
    /// Reply with the address.
    ReplyAddress,
    /// Refuse with this status and the words of `no_oauth_text`.
    RefuseNoOauth(u16),
    /// Refuse with this status and the words of `not_configured_text`.
    RefuseNotConfigured(u16),
    /// Refuse with this status and the words of the failure.
    RefuseFailure(u16),
    Refuse(Refusal),
}

/// The view of `IntegrationStep`.
#[verifier::ext_equal]
pub enum IntegrationStepView {
    CountRequest { key: Seq<char>, quota: Quota },
    LoadUser(Oid),
    Backfill(Oid),
    AskConnected(Oid),
    BuildAddress { provider: &'static str, user: Seq<char>, origin: Seq<char>, pkce: bool },
    ReplyStatus {
        provider: &'static str,
        connected: bool,
        enabled: bool,
        oauth_supported: bool,
        account_name: Option<Seq<char>>,
        profile_url: Option<Seq<char>>,
        shares: Option<bool>,
    },
    ReplyAddress,
    RefuseNoOauth(u16),
    RefuseNotConfigured(u16),
    RefuseFailure(u16),
    Refuse(Refusal),
}

impl View for IntegrationStep {
    type V = IntegrationStepView;

    open spec fn view(&self) -> IntegrationStepView {
        match self {
            IntegrationStep::CountRequest { key, quota } => IntegrationStepView::CountRequest {
                key: key@,
                quota: *quota,
            },
            IntegrationStep::LoadUser(a) => IntegrationStepView::LoadUser(*a),
            IntegrationStep::Backfill(a) => IntegrationStepView::Backfill(*a),
            IntegrationStep::AskConnected(a) => IntegrationStepView::AskConnected(*a),
            IntegrationStep::BuildAddress { provider, user, origin, pkce } => IntegrationStepView::BuildAddress {
                provider: *provider,
                user: user@,
                origin: origin@,
                pkce: *pkce,
            },
            IntegrationStep::ReplyStatus {
                provider,
                connected,
                enabled,
                oauth_supported,
                account_name,
                profile_url,
                shares,
            } => IntegrationStepView::ReplyStatus {
                provider: *provider,
                connected: *connected,
                enabled: *enabled,
                oauth_supported: *oauth_supported,
                account_name: text::opt(*account_name),
                profile_url: text::opt(*profile_url),
                shares: *shares,
            },
            IntegrationStep::ReplyAddress => IntegrationStepView::ReplyAddress,
            IntegrationStep::RefuseNoOauth(a) => IntegrationStepView::RefuseNoOauth(*a),
            IntegrationStep::RefuseNotConfigured(a) => IntegrationStepView::RefuseNotConfigured(*a),
            IntegrationStep::RefuseFailure(a) => IntegrationStepView::RefuseFailure(*a),
            IntegrationStep::Refuse(a) => IntegrationStepView::Refuse(*a),
        }
    }
}

/// The key under which the requests of a user for a service are counted.
pub open spec fn status_key(path: Seq<char>, user: Seq<char>) -> Seq<char> {
    "integration-status:"@ + path + ":"@ + user
}

pub open spec fn status_step(
    path: &str,
    provider: Option<Provider>,
    user: Option<&str>,
    accounts: Seq<ConnectedAccount>,
    f: IntegrationFacts,
) -> IntegrationStepView {
    if provider is None {
        IntegrationStepView::Refuse(error(404, "Unknown integration"))
    } else if user is None {
        IntegrationStepView::Refuse(error(401, "Authentication required"))
    } else if f.counted is None {
        IntegrationStepView::CountRequest {
            key: status_key(path@, user->0@),
            quota: status_quota(),
        }
    } else if !f.counted->0 {
        IntegrationStepView::Refuse(error(429, "Rate limit exceeded"))
    } else {
        match spotify_controller::active_user(user->0@, true, f.account) {
            ActiveUser::Load(id) => IntegrationStepView::LoadUser(id),
            ActiveUser::Refuse(r) => IntegrationStepView::Refuse(r),
            ActiveUser::Ready(u) => if u.id is None {
                IntegrationStepView::Refuse(error(500, "Server error"))
            } else if provider->0.listening_sync && !f.backfilled {
                IntegrationStepView::Backfill(u.id->0)
            } else {
                match f.connected {
                    None => IntegrationStepView::AskConnected(u.id->0),
                    Some(connected) => IntegrationStepView::ReplyStatus {
                        provider: provider->0.id,
                        connected,
                        enabled: provider->0.enabled,
                        oauth_supported: provider->0.oauth_supported,
                        account_name: match first_account(accounts, provider->0.id@) {
                            Some(a) => Some(a.account_name@),
                            None => None,
                        },
                        profile_url: match first_account(accounts, provider->0.id@) {
                            Some(a) => Some(a.profile_url@),
                            None => None,
                        },
                        shares: if provider->0.listening_sync {
                            Some(u.shares)
                        } else {
                            None
                        },
                    },
                }
            },
        }
    }
}

/// Decides the next step of showing whether a service is linked.
pub fn oauth_status(
    path: &str,
    provider: Option<Provider>,
    user: Option<&str>,
    accounts: &Vec<ConnectedAccount>,
    f: &IntegrationFacts,
) -> (r: IntegrationStep)
    ensures
        r@ == status_step(path, provider, user, accounts@, *f),
{
    let def = match provider {
        None => return IntegrationStep::Refuse(error(404, "Unknown integration")),
        Some(p) => p,
    };
    let user = match user {
        None => return IntegrationStep::Refuse(error(401, "Authentication required")),
        Some(u) => u,
    };
    match f.counted {
        None => return IntegrationStep::CountRequest {
            key: text::join3(text::join2("integration-status:", path).as_str(), ":", user),
            quota: status_quota(),
        },
        Some(allowed) => {
            if !allowed {
                return IntegrationStep::Refuse(error(429, "Rate limit exceeded"));
            }
        },
    }
    let u = match load_active_user(user, true, f.account) {
        ActiveUser::Load(id) => return IntegrationStep::LoadUser(id),
        ActiveUser::Refuse(r) => return IntegrationStep::Refuse(r),
        ActiveUser::Ready(u) => u,
    };
    let id = match u.id {
        None => return IntegrationStep::Refuse(error(500, "Server error")),
        Some(id) => id,
    };
    if def.listening_sync && !f.backfilled {
        return IntegrationStep::Backfill(id);
    }
    let connected = match f.connected {
        None => return IntegrationStep::AskConnected(id),
        Some(connected) => connected,
    };
    let shares = if def.listening_sync {
        Some(u.shares)
    } else {
        None
    };
    match account_of(accounts, def.id) {
        None => {
            proof {
                lemma_first_account(accounts@, def.id@, accounts@.len() as int);
            }
            IntegrationStep::ReplyStatus {
                provider: def.id,
                connected,
                enabled: def.enabled,
                oauth_supported: def.oauth_supported,
                account_name: None,
                profile_url: None,
                shares,
            }
        },
        Some(i) => {
            proof {
                lemma_first_account(accounts@, def.id@, i as int);
            }
            IntegrationStep::ReplyStatus {
                provider: def.id,
                connected,
                enabled: def.enabled,
                oauth_supported: def.oauth_supported,
                account_name: Some(accounts[i].account_name.clone()),
                profile_url: Some(accounts[i].profile_url.clone()),
                shares,
            }
        },
    }
}

/// A user who may log in sees the state of a known service: the request is not refused while nothing
/// fails and it is within 15 a minute; the reply shows the first account of that service.
pub proof fn law_integration_status_is_shown(
    path: &str,
    provider: Option<Provider>,
    user: Option<&str>,
    accounts: Seq<ConnectedAccount>,
    f: IntegrationFacts,
)
    requires
        user is Some && ids::oid_of(user->0@) is Some,
        f.account matches Some(a) ==> a is Found && a->0.login_allowed && a->0.id is Some,
        provider is Some,
        f.counted != Some(false),
    ensures
        ({
            let s = status_step(path, provider, user, accounts, f);
            let p = provider->0;
            let known = f.counted is Some && f.account is Some;
            let ready = known && (!p.listening_sync || f.backfilled);
            &&& s !is Refuse
            &&& f.counted is None ==> s == (IntegrationStepView::CountRequest {
                key: "integration-status:"@ + path@ + ":"@ + user->0@,
                quota: (Quota { max: 15, seconds: 60 }),
            })
            &&& f.counted is Some && f.account is None ==> s == IntegrationStepView::LoadUser(
                ids::oid_of(user->0@)->0,
            )
            &&& known && p.listening_sync && !f.backfilled ==> s == IntegrationStepView::Backfill(
                f.account->0->0.id->0,
            )
            &&& ready && f.connected is None ==> s == IntegrationStepView::AskConnected(
                f.account->0->0.id->0,
            )
            &&& ready && f.connected is Some <==> s is ReplyStatus
            &&& s matches IntegrationStepView::ReplyStatus {
                provider: id,
                connected,
                enabled,
                oauth_supported,
                account_name,
                profile_url,
                shares,
            } ==> {
                &&& id == p.id && Some(connected) == f.connected && enabled == p.enabled
                    && oauth_supported == p.oauth_supported
                &&& shares is Some <==> p.listening_sync
                &&& shares is Some ==> shares->0 == f.account->0->0.shares
                &&& account_name is Some <==> first_account(accounts, p.id@) is Some
                &&& account_name is Some ==> account_name->0 == first_account(
                    accounts,
                    p.id@,
                )->0.account_name@ && profile_url == Some(
                    first_account(accounts, p.id@)->0.profile_url@,
                )
            }
        }),
{
}

/// The first account of a service is the one that stands first: a further one changes nothing.
pub proof fn law_first_account_stands_first(
    accounts: Seq<ConnectedAccount>,
    more: ConnectedAccount,
    provider: Seq<char>,
)
    ensures
        first_account(accounts, provider) is Some ==> first_account(accounts.push(more), provider)
            == first_account(accounts, provider),
        first_account(accounts, provider) is None && more.provider@ == provider ==> first_account(
            accounts.push(more),
            provider,
        ) == Some(more),
        first_account(accounts, provider) is None && more.provider@ != provider ==> first_account(
            accounts.push(more),
            provider,
        ) is None,
        first_account(Seq::empty(), provider) is None,
{
    assert(accounts.push(more).drop_last() =~= accounts);
}

pub open spec fn connect_step(
    provider: Option<Provider>,
    user: Option<&str>,
    query: ConnectQuery,
    sites: ReturnSites,
    f: IntegrationFacts,
) -> IntegrationStepView {
    if provider is None {
        IntegrationStepView::Refuse(error(404, "Unknown integration"))
    } else if !provider->0.oauth_supported {
        IntegrationStepView::RefuseNoOauth(503)
    } else if !provider->0.enabled {
        IntegrationStepView::RefuseNotConfigured(503)
    } else if user is None {
        IntegrationStepView::Refuse(error(401, "Authentication required"))
    } else {
        match spotify_controller::active_user(user->0@, true, f.account) {
            ActiveUser::Load(id) => IntegrationStepView::LoadUser(id),
            ActiveUser::Refuse(_) => IntegrationStepView::Refuse(error(401, "Authentication required")),
            ActiveUser::Ready(_) => match f.built {
                None => IntegrationStepView::BuildAddress {
                    provider: provider->0.id,
                    user: user->0@,
                    origin: chosen_origin(query.return_to, sites),
                    pkce: provider->0.use_pkce,
                },
                Some(Done::Failed) => IntegrationStepView::RefuseFailure(500),
                Some(Done::Worked) => IntegrationStepView::ReplyAddress,
            },
        }
    }
}

/// Decides the next step of handing a user the address of a sign-in.
pub fn oauth_connect_url(
    provider: Option<Provider>,
    user: Option<&str>,
    query: &ConnectQuery,
    sites: &ReturnSites,
    f: &IntegrationFacts,
) -> (r: IntegrationStep)
    ensures
        r@ == connect_step(provider, user, *query, *sites, *f),
{
    let def = match provider {
        None => return IntegrationStep::Refuse(error(404, "Unknown integration")),
        Some(p) => p,
    };
    if !def.oauth_supported {
        return IntegrationStep::RefuseNoOauth(503);
    }
    if !def.enabled {
        return IntegrationStep::RefuseNotConfigured(503);
    }
    let user = match user {
        None => return IntegrationStep::Refuse(error(401, "Authentication required")),
        Some(u) => u,
    };
    match load_active_user(user, true, f.account) {
        ActiveUser::Load(id) => IntegrationStep::LoadUser(id),
        ActiveUser::Refuse(_) => IntegrationStep::Refuse(error(401, "Authentication required")),
        ActiveUser::Ready(_) => match f.built {
            None => IntegrationStep::BuildAddress {
                provider: def.id,
                user: user.to_owned(),
                origin: choose_origin(&query.return_to, sites),
                pkce: def.use_pkce,
            },
            Some(Done::Failed) => IntegrationStep::RefuseFailure(500),
            Some(Done::Worked) => IntegrationStep::ReplyAddress,
        },
    }
}

/// A user who may log in begins a sign-in with a service that has one and is configured, and with no
/// other; the request is not refused while nothing fails and ends with the address.
pub proof fn law_integration_sign_in_is_begun(
    provider: Option<Provider>,
    user: Option<&str>,
    query: ConnectQuery,
    sites: ReturnSites,
    f: IntegrationFacts,
)
    requires
        user is Some && ids::oid_of(user->0@) is Some,
        f.account matches Some(a) ==> a is Found && a->0.login_allowed && a->0.id is Some,
        provider is Some,
    ensures
        ({
            let s = connect_step(provider, user, query, sites, f);
            let p = provider->0;
            let open = p.oauth_supported && p.enabled;
            &&& open ==> s !is Refuse && s !is RefuseNoOauth && s !is RefuseNotConfigured
            &&& open && f.account is None ==> s == IntegrationStepView::LoadUser(
                ids::oid_of(user->0@)->0,
            )
            &&& open && f.account is Some && f.built is None ==> s == (
            IntegrationStepView::BuildAddress {
                provider: p.id,
                user: user->0@,
                origin: chosen_origin(query.return_to, sites),
                pkce: p.use_pkce,
            })
            &&& open && f.account is Some && f.built == Some(Done::Worked) <==> s is ReplyAddress
            &&& !p.oauth_supported ==> s == IntegrationStepView::RefuseNoOauth(503)
            &&& p.oauth_supported && !p.enabled ==> s == IntegrationStepView::RefuseNotConfigured(503)
        }),
{
}

/// The token that keeps a link alive: the one that came with the sign-in; else, for Spotify, the
/// stored one, and for the others the access token.
pub open spec fn refresh_token(
    provider: Seq<char>,
    given: Option<String>,
    access: String,
    stored: StoredToken,
) -> Result<Seq<char>, Seq<char>> {
    if given is None && !names_spotify(provider) {
        Ok(access@)
    } else {
        spotify_controller::refresh_token(given, stored)
    }
}

/// Picks the token that keeps a link alive.
pub fn resolve_refresh_token(
    provider: &str,
    given: Option<String>,
    access: String,
    stored: StoredToken,
) -> (r: Result<String, String>)
    ensures
        spotify_controller::text_or_words(r) == refresh_token(provider@, given, access, stored),
{
    if given.is_none() && !is_spotify(provider) {
        Ok(access)
    } else {
        resolve_spotify_refresh_token(given, stored)
    }
}

/// The token that came with a sign-in keeps a link alive; else for Spotify the stored one does, and for
/// the others the access token.
pub proof fn law_link_is_kept_alive(
    provider: Seq<char>,
    given: Option<String>,
    access: String,
    stored: StoredToken,
)
    ensures
        given matches Some(t) ==> refresh_token(provider, given, access, stored) == Ok::<
            Seq<char>,
            Seq<char>,
        >(t@),
        given is None && provider != "spotify"@ ==> refresh_token(provider, given, access, stored)
            == Ok::<Seq<char>, Seq<char>>(access@),
        given is None && provider == "spotify"@ && stored is Readable ==> refresh_token(
            provider,
            given,
            access,
            stored,
        ) == Ok::<Seq<char>, Seq<char>>(stored->Readable_0@),
        given is None && provider == "spotify"@ && stored !is Readable ==> refresh_token(
            provider,
            given,
            access,
            stored,
        ) is Err,
{
}

/// What is known when a service sends a user back.
#[derive(Clone, Copy, Debug)]
pub struct CallbackFacts {
    /// Whether the state was accepted.
    pub state: Option<bool>,
    pub exchanged: Option<Done>,
    pub refresh: Option<Done>,
    /// Whether a profile could be had.
    pub profile: Option<bool>,
    pub stored: Option<Done>,
    /// Whether the account was put on the profile.
    pub shown: Option<bool>,
    pub told: bool,
}

/// What came up while a user was sent back, and where to return to.
pub struct CallbackWork {
    /// The service as the request names it.
    pub path: String,
    /// The address of the web client.
    pub home: String,
    /// Where the state returns to, the user it is for, and its verifier.
    pub origin: String,
    pub user: Oid,
    pub verifier: Option<String>,
    /// The words for the error that the service reported.
    pub reported_error: String,
    /// Why the state was not accepted.
    pub state_error: String,
    /// The words for a failed exchange of the code.
    pub exchange_error: String,
    pub refresh_error: String,
}

/// What to do next when a service sends a user back.
#[derive(Debug, PartialEq, Eq)]
pub enum CallbackStep {
    CheckState(String),
    ExchangeCode { code: String, verifier: Option<String> },
    /// Find the token that keeps the link of the user alive.
    ResolveRefreshToken(Oid),
    LoadProfile(Oid),
    /// Store the link, with the profile where `profile` holds, else under the name of the service.
    Store { user: Oid, provider: &'static str, profile: bool },
    /// Show the account in the profile of the user.
    ShowAccount(Oid),
    /// Tell others of the linked accounts.
    TellOthers(Oid),
    /// Send the client on to this address.
    Succeed(String),
    /// Send the client on to this address, which tells of the failure.
    Fail(String),
}

/// The view of `CallbackStep`.
#[verifier::ext_equal]
pub enum CallbackStepView {
    CheckState(Seq<char>),
    ExchangeCode { code: Seq<char>, verifier: Option<Seq<char>> },
    ResolveRefreshToken(Oid),
    LoadProfile(Oid),
    Store { user: Oid, provider: &'static str, profile: bool },
    ShowAccount(Oid),
    TellOthers(Oid),
    Succeed(Seq<char>),
    Fail(Seq<char>),
}

impl View for CallbackStep {
    type V = CallbackStepView;

    open spec fn view(&self) -> CallbackStepView {
        match self {
            CallbackStep::CheckState(a) => CallbackStepView::CheckState(a@),
            CallbackStep::ExchangeCode { code, verifier } => CallbackStepView::ExchangeCode {
                code: code@,
                verifier: text::opt(*verifier),
            },
            CallbackStep::ResolveRefreshToken(a) => CallbackStepView::ResolveRefreshToken(*a),
            CallbackStep::LoadProfile(a) => CallbackStepView::LoadProfile(*a),
            CallbackStep::Store { user, provider, profile } => CallbackStepView::Store {
                user: *user,
                provider: *provider,
                profile: *profile,
            },
            CallbackStep::ShowAccount(a) => CallbackStepView::ShowAccount(*a),
            CallbackStep::TellOthers(a) => CallbackStepView::TellOthers(*a),
            CallbackStep::Succeed(a) => CallbackStepView::Succeed(a@),
            CallbackStep::Fail(a) => CallbackStepView::Fail(a@),
        }
    }
}

/// The address that tells of a failure.
pub open spec fn failure_at(frontend: Seq<char>, provider: Seq<char>, words: Seq<char>) -> Seq<char> {
    frontend + "/?integration="@ + provider + "&status=error&message="@ + percent::encoded(
        vstd::utf8::encode_utf8(words),
        true,
    )
}

/// The steps when a service sends a user back. A failure before the state is accepted returns to
/// the web client, one after it to the origin of the state.
pub open spec fn callback_step(
    provider: Option<Provider>,
    query: CallbackQuery,
    work: CallbackWork,
    f: CallbackFacts,
) -> CallbackStepView {
    let home = text::trim_end_of(work.home@, '/');
    let id = provider->0.id@;
    if provider is None {
        CallbackStepView::Fail(failure_at(work.home@, work.path@, "Nieznana integracja"@))
    } else if !provider->0.enabled {
        CallbackStepView::Fail(
            failure_at(
                home,
                id,
                "Integracja "@ + provider->0.name@ + " nie jest skonfigurowana"@,
            ),
        )
    } else if query.error is Some {
        CallbackStepView::Fail(failure_at(home, id, work.reported_error@))
    } else if query.code is None {
        CallbackStepView::Fail(failure_at(home, id, "Brak kodu autoryzacji"@))
    } else if query.state is None {
        CallbackStepView::Fail(failure_at(home, id, "Brak stanu OAuth"@))
    } else if f.state is None {
        CallbackStepView::CheckState(query.state->0@)
    } else if !f.state->0 {
        CallbackStepView::Fail(failure_at(home, id, work.state_error@))
    } else if f.exchanged is None {
        CallbackStepView::ExchangeCode {
            code: query.code->0@,
            verifier: if provider->0.use_pkce {
                text::opt(work.verifier)
            } else {
                None
            },
        }
    } else if f.exchanged->0 is Failed {
        CallbackStepView::Fail(failure_at(work.origin@, id, work.exchange_error@))
    } else if f.refresh is None {
        CallbackStepView::ResolveRefreshToken(work.user)
    } else if f.refresh->0 is Failed {
        CallbackStepView::Fail(failure_at(work.origin@, id, work.refresh_error@))
    } else if f.profile is None {
        CallbackStepView::LoadProfile(work.user)
    } else if f.stored is None {
        CallbackStepView::Store { user: work.user, provider: provider->0.id, profile: f.profile->0 }
    } else if f.stored->0 is Failed {
        CallbackStepView::Fail(
            failure_at(
                work.origin@,
                id,
                if names_spotify(provider->0.id@) {
                    "Nie udało się zapisać połączenia Spotify. Spróbuj połączyć ponownie."@
                } else {
                    "Nie udało się zapisać połączenia"@
                },
            ),
        )
    } else if f.profile->0 && f.shown is None {
        CallbackStepView::ShowAccount(work.user)
    } else if f.profile->0 && f.shown->0 && !f.told {
        CallbackStepView::TellOthers(work.user)
    } else {
        CallbackStepView::Succeed(
            work.origin@ + "/?integration="@ + id + "&status=connected"@,
        )
    }
}

fn fail_at(frontend: &str, provider: &str, words: &str) -> (r: CallbackStep)
    ensures
        r@ == CallbackStepView::Fail(failure_at(frontend@, provider@, words@)),
{
    CallbackStep::Fail(oauth_fail(frontend, provider, words))
}

/// Decides the next step when a service sends a user back.
pub fn oauth_callback(
    provider: Option<Provider>,
    query: &CallbackQuery,
    work: &CallbackWork,
    f: &CallbackFacts,
) -> (r: CallbackStep)
    ensures
        r@ == callback_step(provider, *query, *work, *f),
{
    let home = text::trim_end_char(work.home.as_str(), '/');
    let origin = work.origin.as_str();
    let def = match provider {
        None => return fail_at(work.home.as_str(), work.path.as_str(), "Nieznana integracja"),
        Some(p) => p,
    };
    if !def.enabled {
        return fail_at(home.as_str(), def.id, not_configured_text(def.name).as_str());
    }
    if query.error.is_some() {
        return fail_at(home.as_str(), def.id, work.reported_error.as_str());
    }
    let code = match &query.code {
        None => return fail_at(home.as_str(), def.id, "Brak kodu autoryzacji"),
        Some(code) => code,
    };
    let state = match &query.state {
        None => return fail_at(home.as_str(), def.id, "Brak stanu OAuth"),
        Some(state) => state,
    };
    match f.state {
        None => return CallbackStep::CheckState(state.clone()),
        Some(accepted) => {
            if !accepted {
                return fail_at(home.as_str(), def.id, work.state_error.as_str());
            }
        },
    }
    match f.exchanged {
        None => return CallbackStep::ExchangeCode {
            code: code.clone(),
            verifier: match &work.verifier {
                None => None,
                Some(v) => if def.use_pkce {
                    Some(v.clone())
                } else {
                    None
                },
            },
        },
        Some(Done::Failed) => return fail_at(origin, def.id, work.exchange_error.as_str()),
        Some(Done::Worked) => {},
    }
    match f.refresh {
        None => return CallbackStep::ResolveRefreshToken(work.user),
        Some(Done::Failed) => return fail_at(origin, def.id, work.refresh_error.as_str()),
        Some(Done::Worked) => {},
    }
    let profile = match f.profile {
        None => return CallbackStep::LoadProfile(work.user),
        Some(profile) => profile,
    };
    match f.stored {
        None => return CallbackStep::Store { user: work.user, provider: def.id, profile },
        Some(Done::Failed) => {
            return fail_at(
                origin,
                def.id,
                if is_spotify(def.id) {
                    "Nie udało się zapisać połączenia Spotify. Spróbuj połączyć ponownie."
                } else {
                    "Nie udało się zapisać połączenia"
                },
            );
        },
        Some(Done::Worked) => {},
    }
    if profile {
        match f.shown {
            None => return CallbackStep::ShowAccount(work.user),
            Some(shown) => {
                if shown && !f.told {
                    return CallbackStep::TellOthers(work.user);
                }
            },
        }
    }
    CallbackStep::Succeed(oauth_success(origin, def.id))
}

/// A code is exchanged and a link stored only for a configured service, after the state was
/// accepted, for the user of the state.
pub proof fn law_integration_link_needs_accepted_state(
    provider: Option<Provider>,
    query: CallbackQuery,
    work: CallbackWork,
    f: CallbackFacts,
)
    ensures
        ({
            let s = callback_step(provider, query, work, f);
            s is ExchangeCode || s is Store || s is ShowAccount || s is Succeed ==> f.state == Some(
                true,
            ) && provider is Some && provider->0.enabled && query.error is None
        }),
        callback_step(provider, query, work, f) matches CallbackStepView::Store { user, .. } ==> user
            == work.user,
{
}

/// A user is told of success only where the link is stored.
pub proof fn law_integration_success_is_stored(
    provider: Option<Provider>,
    query: CallbackQuery,
    work: CallbackWork,
    f: CallbackFacts,
)
    ensures
        callback_step(provider, query, work, f) is Succeed ==> f.stored == Some(Done::Worked),
{
}

/// A sign-in that a configured service confirms, under a state that was accepted, is exchanged, stored for
/// the user of the state and shown where a profile was had: it does not fail while nothing fails, and
/// asks only for what is not known yet.
pub proof fn law_confirmed_integration_is_stored(
    provider: Option<Provider>,
    query: CallbackQuery,
    work: CallbackWork,
    f: CallbackFacts,
)
    ensures
        ({
            let s = callback_step(provider, query, work, f);
            let p = provider->0;
            let fits = provider is Some && p.enabled && query.error is None && query.code is Some
                && query.state is Some && f.state != Some(false) && f.exchanged != Some(Done::Failed)
                && f.refresh != Some(Done::Failed) && f.stored != Some(Done::Failed);
            let had = f.state is Some && f.exchanged is Some && f.refresh is Some && f.profile is Some;
            &&& fits ==> s !is Fail
            &&& fits && f.state is None ==> s == CallbackStepView::CheckState(query.state->0@)
            &&& fits && f.state is Some && f.exchanged is None ==> s == (
            CallbackStepView::ExchangeCode {
                code: query.code->0@,
                verifier: if p.use_pkce {
                    text::opt(work.verifier)
                } else {
                    None
                },
            })
            &&& fits && f.state is Some && f.exchanged is Some && f.refresh is None ==> s
                == CallbackStepView::ResolveRefreshToken(work.user)
            &&& fits && f.state is Some && f.exchanged is Some && f.refresh is Some && f.profile is
                None ==> s == CallbackStepView::LoadProfile(work.user)
            &&& fits && had && f.stored is None ==> s == (CallbackStepView::Store {
                user: work.user,
                provider: p.id,
                profile: f.profile->0,
            })
            &&& fits && had && f.stored is Some && f.profile->0 && f.shown is None ==> s
                == CallbackStepView::ShowAccount(work.user)
            &&& fits && had && f.stored is Some && f.profile->0 && f.shown is Some && f.shown->0
                && !f.told ==> s == CallbackStepView::TellOthers(work.user)
            &&& fits && had && f.stored is Some && (!f.profile->0 || (f.shown is Some && (
            !f.shown->0 || f.told))) <==> s is Succeed
            &&& s matches CallbackStepView::Succeed(at) ==> at == work.origin@ + "/?integration="@
                + p.id@ + "&status=connected"@
        }),
{
}

/// What is known while a link is removed.
#[derive(Clone, Copy, Debug)]
pub struct UnlinkFacts {
    pub account: Option<Lookup<Listener>>,
    /// The stored link was looked for, revoked and deleted.
    pub unlinked: bool,
    /// The account was taken off the profile.
    pub removed: Option<Lookup<()>>,
    /// Nothing is shown as playing any more, and those who see it were told.
    pub cleared: bool,
    pub told: bool,
}

/// What to do next while a link is removed.
#[derive(Clone, Copy, Debug, PartialEq, Eq)]
pub enum UnlinkStep {
    LoadUser(Oid),
    /// Delete the stored link, if there is one; first revoke it where `revoke` holds.
    Unlink { user: Oid, revoke: bool },
    RemoveAccount(Oid),
    /// Show nothing as playing any more, and tell those who see it.
    ClearActivity(Oid),
    TellOthers(Oid),
    Reply,
    Refuse(Refusal),
}

pub open spec fn disconnect_step(
    provider: Option<Provider>,
    user: Option<&str>,
    f: UnlinkFacts,
) -> UnlinkStep {
    if provider is None {
        UnlinkStep::Refuse(error(404, "Unknown integration"))
    } else if user is None {
        UnlinkStep::Refuse(error(401, "Authentication required"))
    } else {
        match spotify_controller::active_user(user->0@, true, f.account) {
            ActiveUser::Load(id) => UnlinkStep::LoadUser(id),
            ActiveUser::Refuse(r) => UnlinkStep::Refuse(r),
            ActiveUser::Ready(u) => if u.id is None {
                UnlinkStep::Refuse(error(500, "Server error"))
            } else if !f.unlinked {
                UnlinkStep::Unlink { user: u.id->0, revoke: provider->0.revoke_on_disconnect }
            } else if f.removed is None {
                UnlinkStep::RemoveAccount(u.id->0)
            } else if f.removed->0 !is Found {
                UnlinkStep::Refuse(error(500, "Server error"))
            } else if provider->0.listening_sync && !f.cleared {
                UnlinkStep::ClearActivity(u.id->0)
            } else if !f.told {
                UnlinkStep::TellOthers(u.id->0)
            } else {
                UnlinkStep::Reply
            },
        }
    }
}

/// Decides the next step of removing a link.
pub fn oauth_disconnect(provider: Option<Provider>, user: Option<&str>, f: &UnlinkFacts) -> (r:
    UnlinkStep)
    ensures
        r == disconnect_step(provider, user, *f),
{
    let def = match provider {
        None => return UnlinkStep::Refuse(error(404, "Unknown integration")),
        Some(p) => p,
    };
    let user = match user {
        None => return UnlinkStep::Refuse(error(401, "Authentication required")),
        Some(u) => u,
    };
    let u = match load_active_user(user, true, f.account) {
        ActiveUser::Load(id) => return UnlinkStep::LoadUser(id),
        ActiveUser::Refuse(r) => return UnlinkStep::Refuse(r),
        ActiveUser::Ready(u) => u,
    };
    let id = match u.id {
        None => return UnlinkStep::Refuse(error(500, "Server error")),
        Some(id) => id,
    };
    if !f.unlinked {
        return UnlinkStep::Unlink { user: id, revoke: def.revoke_on_disconnect };
    }
    match f.removed {
        None => return UnlinkStep::RemoveAccount(id),
        Some(Lookup::Found(_)) => {},
        Some(_) => return UnlinkStep::Refuse(error(500, "Server error")),
    }
    if def.listening_sync && !f.cleared {
        return UnlinkStep::ClearActivity(id);
    }
    if !f.told {
        UnlinkStep::TellOthers(id)
    } else {
        UnlinkStep::Reply
    }
}

/// A user who may log in removes the link to a known service: it is deleted, the account taken off the
/// profile, what is playing cleared where the service shows it, others told, and success replied, in that
/// order; the request is not refused while nothing fails.
pub proof fn law_integration_is_unlinked(
    provider: Option<Provider>,
    user: Option<&str>,
    f: UnlinkFacts,
)
    requires
        user is Some && ids::oid_of(user->0@) is Some,
        f.account matches Some(a) ==> a is Found && a->0.login_allowed && a->0.id is Some,
        provider is Some,
        f.removed matches Some(r) ==> r is Found,
    ensures
        ({
            let s = disconnect_step(provider, user, f);
            let p = provider->0;
            let id = f.account->0->0.id->0;
            let off = f.account is Some && f.unlinked && f.removed is Some;
            let clear = !p.listening_sync || f.cleared;
            &&& s !is Refuse
            &&& f.account is None ==> s == UnlinkStep::LoadUser(ids::oid_of(user->0@)->0)
            &&& f.account is Some && !f.unlinked ==> s == (UnlinkStep::Unlink {
                user: id,
                revoke: p.revoke_on_disconnect,
            })
            &&& f.account is Some && f.unlinked && f.removed is None ==> s
                == UnlinkStep::RemoveAccount(id)
            &&& off && !clear ==> s == UnlinkStep::ClearActivity(id)
            &&& off && clear && !f.told ==> s == UnlinkStep::TellOthers(id)
            &&& off && clear && f.told <==> s is Reply
        }),
{
}

pub open spec fn integration_sync_step(
    path: &str,
    provider: Option<Provider>,
    user: Option<&str>,
    body: ListeningSyncBody,
    music: Music,
    f: SyncFacts,
) -> SyncStepView {
    if provider is None {
        SyncStepView::Refuse(error(404, "Unknown integration"))
    } else if !provider->0.listening_sync {
        SyncStepView::Refuse(error(400, "Listening sync not supported"))
    } else {
        spotify_controller::sync_step(
            user,
            provider->0.id,
            "integration-sync:"@ + path@ + ":"@,
            body.client_type@,
            body.client_instance_id@,
            true,
            true,
            error(400, "Integration not connected"),
            music,
            f,
        )
    }
}

/// Decides the next step of taking in a report of what is playing.
pub fn oauth_sync(
    path: &str,
    provider: Option<Provider>,
    user: Option<&str>,
    body: &ListeningSyncBody,
    music: &Music,
    f: &SyncFacts,
) -> (r: SyncStep)
    ensures
        r@ == integration_sync_step(path, provider, user, *body, *music, *f),
{
    let def = match provider {
        None => return SyncStep::Refuse(error(404, "Unknown integration")),
        Some(p) => p,
    };
    if !def.listening_sync {
        return SyncStep::Refuse(error(400, "Listening sync not supported"));
    }
    let prefix = text::join3("integration-sync:", path, ":");
    sync_listening(
        user,
        def.id,
        prefix.as_str(),
        body.client_type.as_str(),
        body.client_instance_id.as_str(),
        true,
        true,
        error(400, "Integration not connected"),
        music,
        f,
    )
}

/// A report goes to the service that shows what is playing, under a count of its own; others take none.
pub proof fn law_only_listening_services_take_reports(
    path: &str,
    provider: Option<Provider>,
    user: Option<&str>,
    body: ListeningSyncBody,
    music: Music,
    f: SyncFacts,
)
    ensures
        ({
            let s = integration_sync_step(path, provider, user, body, music, f);
            &&& provider is None ==> s == SyncStepView::Refuse(error(404, "Unknown integration"))
            &&& provider is Some && !provider->0.listening_sync ==> s == SyncStepView::Refuse(
                error(400, "Listening sync not supported"),
            )
            &&& provider is Some && provider->0.listening_sync && user is Some && f.counted is None
                ==> s is CountRequest
            &&& s matches SyncStepView::CountRequest { key, .. } ==> key == "integration-sync:"@ + path@
                + ":"@ + user->0@
            &&& s matches SyncStepView::LoadToken { provider: id, .. } ==> id == provider->0.id
        }),
{
}

/// Decides the next step of changing whether to show what is playing.
pub fn update_listening_settings(
    user: Option<&str>,
    body: &ListeningSettingsBody,
    f: &ChangeFacts,
) -> (r: ChangeStep)
    ensures
        r == spotify_controller::settings_step(user, body.share_listening, true, *f),
{
    change_settings(user, body.share_listening, true, f)
}

} // verus!
