//! Spotify and the other integrations.

use klovy_chat_server::controllers::oauth_integration_controller as oauth;
use klovy_chat_server::controllers::oauth_integration_controller::{
    account_of, backfill_connected_account, integration_catalog, no_oauth_text, not_configured_text, oauth_callback,
    oauth_connect_url, oauth_disconnect, oauth_fail, oauth_status, oauth_success, oauth_sync, is_spotify, resolve_refresh_token,
    Backfill, CallbackQuery, ConnectedAccount, IntegrationFacts, IntegrationStep, LinkedAccount, ListeningSyncBody,
    ConnectQuery, Provider, UnlinkFacts, UnlinkStep,
};
use klovy_chat_server::controllers::spotify_controller::{
    allowed_return_origins, build_oauth_state, default_client_type, exchange_failure_text, failure_address,
    frontend_url, load_active_user, map_spotify_oauth_error, normalize_return_origin, oauth_state_message,
    resolve_spotify_refresh_token, spotify_callback, spotify_connect, spotify_connect_url, spotify_disconnect,
    spotify_status, spotify_sync, state_expiry, state_part_decode, state_part_encode, success_address,
    update_listening_settings, url_decode, url_encode, verify_legacy_dot_oauth_state, verify_oauth_state,
    verify_pipe_oauth_state, ActiveUser, CallbackFacts, CallbackStep, CallbackWork, ChangeFacts, ChangeStep, LinkFacts, LinkStep,
    ListeningSettingsBody, Listener, SpotifyCallbackQuery, SpotifySyncBody, StateCheck, StoredToken, SyncFacts,
    SyncStep, Activity, Music, Report, show_activity, ReturnSites, SpotifyConnectQuery,
};
use klovy_chat_server::ids::Oid;
use klovy_chat_server::reply::{after, error, Done, Lookup, Quota};

const ME: &str = "0000000000000000000000a1";

fn id(s: &str) -> Oid {
    match Oid::parse(s) {
        Some(o) => o,
        None => panic!("not an identifier"),
    }
}

fn some(s: &str) -> Option<String> {
    Some(s.to_string())
}

fn listener() -> Listener {
    Listener { id: Some(id(ME)), login_allowed: true, is_bot: false, shares: true }
}

fn found(l: Listener) -> Option<Lookup<Listener>> {
    Some(Lookup::Found(l))
}

fn sites() -> ReturnSites {
    ReturnSites { development: false, frontend: some("https://k.pl/"), other: some("https://a.pl") }
}

#[test]
fn return_origins() {
    assert_eq!(default_client_type(), "web");
    assert_eq!(frontend_url(None), "http://127.0.0.1:5173");
    assert_eq!(frontend_url(Some("https://k.pl/")), "https://k.pl/");
    assert_eq!(
        allowed_return_origins(true, Some("https://k.pl/"), Some("https://a.pl")),
        vec!["http://127.0.0.1:5173", "https://a.pl", "https://k.pl"]
    );
    assert_eq!(allowed_return_origins(false, Some("https://k.pl"), Some("https://k.pl/")), vec!["https://k.pl"]);
    assert!(allowed_return_origins(false, None, None).is_empty());
}

#[test]
fn sign_in_returns_home() {
    let home = Some("https://k.pl/");
    assert_eq!(normalize_return_origin(Some(" https://a.pl/ "), false, home, Some("https://a.pl")), "https://a.pl");
    assert_eq!(normalize_return_origin(Some("https://evil.pl"), false, home, None), "https://k.pl");
    assert_eq!(normalize_return_origin(Some("http://127.0.0.1:5173"), false, home, None), "https://k.pl");
    assert_eq!(normalize_return_origin(Some("http://127.0.0.1:5173"), true, home, None), "http://127.0.0.1:5173");
    assert_eq!(normalize_return_origin(None, false, None, None), "http://127.0.0.1:5173");
}

#[test]
fn address_parts() {
    assert_eq!(state_part_encode("https://k.pl"), "https%3A%2F%2Fk%2Epl");
    assert_eq!(url_encode("https://k.pl ż"), "https%3A%2F%2Fk.pl%20%C5%BC");
    assert_eq!(url_decode("a%2Fb"), Ok("a/b".to_string()));
    assert_eq!(url_decode("%zz"), Err("Invalid OAuth return origin"));
    assert_eq!(state_part_decode("k%2Epl"), Ok("k.pl".to_string()));
    assert_eq!(failure_address("https://k.pl", "nie ma"), "https://k.pl/?spotify=error&message=nie%20ma");
    assert_eq!(success_address("https://k.pl"), "https://k.pl/?spotify=connected");
    assert_eq!(exchange_failure_text("boom", "r"), "boom");
    assert_eq!(
        exchange_failure_text("x invalid_grant y", "https://r"),
        "Kod autoryzacji wygasł lub redirect URI nie zgadza się z Spotify Dashboard. Upewnij się, że Redirect URI to dokładnie: https://r"
    );
}

#[test]
fn state_messages() {
    assert_eq!(oauth_state_message("u", 5, None, None), "spotify-oauth:u:5");
    assert_eq!(oauth_state_message("u", -5, Some("o"), None), "spotify-oauth:u:-5:o");
    assert_eq!(oauth_state_message("u", 5, Some("o"), Some("v")), "spotify-oauth:u:5:o:v");
    assert_eq!(state_expiry(1000), 601_000);
    assert_eq!(
        build_oauth_state("u", 5, "https://k.pl", "v.1", "sig"),
        "u|5|https%3A%2F%2Fk%2Epl|v%2E1|sig"
    );
}

#[test]
fn built_state_reads_back() {
    let state = build_oauth_state(ME, 100, "https://k.pl", "v~1", "sig");
    match verify_oauth_state(state.as_str(), "home", 100, None) {
        StateCheck::CheckSignature { message, signature } => {
            assert_eq!(message, format!("spotify-oauth:{ME}:100:https://k.pl:v~1"));
            assert_eq!(signature, "sig");
        }
        _ => panic!("signature not asked"),
    }
    match verify_pipe_oauth_state(state.as_str(), 100, Some(true)) {
        StateCheck::Accept { user, origin, verifier } => {
            assert_eq!(user, id(ME));
            assert_eq!(origin, "https://k.pl");
            assert_eq!(verifier, some("v~1"));
        }
        _ => panic!("not accepted"),
    }
    assert!(matches!(
        verify_oauth_state(state.as_str(), "home", 100, Some(false)),
        StateCheck::Reject("Invalid OAuth state signature")
    ));
}

#[test]
fn accepted_state_is_signed_and_fresh() {
    let state = build_oauth_state(ME, 100, "o", "v", "sig");
    assert!(matches!(
        verify_oauth_state(state.as_str(), "home", 101, Some(true)),
        StateCheck::Reject("OAuth state expired")
    ));
    let reject = |s: &str, why: &str| match verify_oauth_state(s, "home", 1, Some(true)) {
        StateCheck::Reject(w) => assert_eq!(w, why),
        _ => panic!("accepted"),
    };
    reject("a|b", "Invalid OAuth state");
    reject("a|b|c|d|e", "Invalid OAuth state expiry");
    reject("a|9|%zz|d|e", "Invalid OAuth return origin");
    reject("a|9|c|%zz|e", "Invalid OAuth return origin");
    reject("a|9|c|d|e", "Invalid user id in OAuth state");
    reject("a.b", "Invalid OAuth state");
    reject("a.b.c", "Invalid OAuth state expiry");
    reject("a.b.c.d", "Invalid OAuth state expiry");
    reject("a.9.%zz.d", "Invalid OAuth return origin");
    reject("", "Invalid OAuth state");
}

#[test]
fn replaced_part_changes_what_is_signed() {
    let signed = oauth_state_message(ME, 100, Some("o"), Some("v"));
    assert_ne!(oauth_state_message("x", 100, Some("o"), Some("v")), signed);
    assert_ne!(oauth_state_message(ME, 101, Some("o"), Some("v")), signed);
    assert_ne!(oauth_state_message(ME, 100, Some("p"), Some("v")), signed);
    assert_ne!(oauth_state_message(ME, 100, Some("o"), Some("w")), signed);
}

#[test]
fn state_runs_out() {
    let state = build_oauth_state(ME, 100, "https://k.pl", "v", "sig");
    for signed in [None, Some(true), Some(false)] {
        assert!(matches!(
            verify_oauth_state(state.as_str(), "home", 101, signed),
            StateCheck::Reject("OAuth state expired")
        ));
    }
}

#[test]
fn older_states_are_read() {
    let three = format!("{ME}.9.sig");
    match verify_legacy_dot_oauth_state(three.as_str(), "home", 1, Some(true)) {
        StateCheck::Accept { user, origin, verifier } => {
            assert_eq!((user, origin.as_str(), verifier), (id(ME), "home", None));
        }
        _ => panic!("not accepted"),
    }
    match verify_legacy_dot_oauth_state(three.as_str(), "home", 1, None) {
        StateCheck::CheckSignature { message, signature } => {
            assert_eq!(message, format!("spotify-oauth:{ME}:9"));
            assert_eq!(signature, "sig");
        }
        _ => panic!("signature not asked"),
    }
    let four = format!("{ME}.9.https%3A%2F%2Fk.sig.x");
    match verify_oauth_state(four.as_str(), "home", 1, None) {
        StateCheck::CheckSignature { message, signature } => {
            assert_eq!(message, format!("spotify-oauth:{ME}:9:https://k"));
            assert_eq!(signature, "sig.x");
        }
        _ => panic!("signature not asked"),
    }
}

#[test]
fn spotify_error_words() {
    assert_eq!(map_spotify_oauth_error("invalid_scope", ""), "Nieprawidłowy zakres uprawnień Spotify.");
    assert_eq!(map_spotify_oauth_error("boom", "why"), "Błąd Spotify: boom (why)");
    assert!(map_spotify_oauth_error("access_denied", "").starts_with("Odmowa dostępu Spotify."));
    assert!(map_spotify_oauth_error("server_error", "x").ends_with("(nie przez Google/Facebook/Apple). (x)"));
}

#[test]
fn active_users() {
    let no = ActiveUser::Refuse;
    assert_eq!(load_active_user("x", false, None), no(error(401, "Authentication required")));
    assert_eq!(load_active_user(ME, false, None), ActiveUser::Load(id(ME)));
    assert_eq!(load_active_user(ME, false, Some(Lookup::Missing)), no(error(401, "Authentication required")));
    assert_eq!(load_active_user(ME, false, Some(Lookup::Failed)), no(error(500, "Server error")));
    let bot = Listener { is_bot: true, ..listener() };
    assert_eq!(load_active_user(ME, false, found(bot)), no(error(403, "Forbidden")));
    assert_eq!(load_active_user(ME, true, found(bot)), ActiveUser::Ready(bot));
    let closed = Listener { login_allowed: false, ..listener() };
    assert_eq!(load_active_user(ME, true, found(closed)), no(error(403, "Forbidden")));
}

#[test]
fn spotify_links() {
    let no = LinkStep::Refuse;
    let back = SpotifyConnectQuery { return_to: some("https://a.pl/") };
    let mut f = LinkFacts { enabled: true, counted: None, account: None, connected: None, built: None };
    assert_eq!(spotify_status(None, &f), no(error(401, "Authentication required")));
    assert_eq!(spotify_status(Some(ME), &f), LinkStep::CountRequest {
        key: format!("spotify-status:{ME}"),
        quota: Quota { max: 15, seconds: 60 },
    });
    f.counted = Some(false);
    assert_eq!(spotify_status(Some(ME), &f), no(error(429, "Rate limit exceeded")));
    f.counted = Some(true);
    assert_eq!(spotify_status(Some(ME), &f), LinkStep::LoadUser(id(ME)));
    f.account = Some(Lookup::Failed);
    assert_eq!(spotify_status(Some(ME), &f), no(error(401, "Authentication required")));
    f.account = found(Listener { id: None, ..listener() });
    assert_eq!(spotify_status(Some(ME), &f), no(error(500, "Server error")));
    f.account = found(listener());
    assert_eq!(spotify_status(Some(ME), &f), LinkStep::AskConnected(id(ME)));
    f.connected = Some(true);
    assert_eq!(
        spotify_status(Some(ME), &f),
        LinkStep::ReplyStatus { connected: true, shares: true, enabled: true }
    );
    assert_eq!(spotify_connect(None, &back, &sites(), &f), no(error(401, "Authentication required")));
    assert_eq!(spotify_connect(Some(ME), &back, &sites(), &f), LinkStep::BuildAddress {
        user: ME.to_string(),
        origin: "https://a.pl".to_string(),
    });
    let astray = SpotifyConnectQuery { return_to: some("https://evil.pl") };
    assert_eq!(spotify_connect_url(Some(ME), &astray, &sites(), &f), LinkStep::BuildAddress {
        user: ME.to_string(),
        origin: "https://k.pl".to_string(),
    });
    f.built = Some(Done::Failed);
    assert_eq!(spotify_connect_url(Some(ME), &back, &sites(), &f), LinkStep::RefuseFailure(500));
    f.built = Some(Done::Worked);
    assert_eq!(spotify_connect_url(Some(ME), &back, &sites(), &f), LinkStep::ReplyAddress);
    assert_eq!(spotify_connect(Some(ME), &back, &sites(), &f), LinkStep::Redirect);
    f.enabled = false;
    assert_eq!(spotify_connect(Some(ME), &back, &sites(), &f), no(error(503, "Spotify integration is not configured")));
}

#[test]
fn refresh_tokens() {
    assert_eq!(resolve_spotify_refresh_token(some("a"), StoredToken::Missing), Ok("a".to_string()));
    assert_eq!(
        resolve_spotify_refresh_token(None, StoredToken::Readable("b".to_string())),
        Ok("b".to_string())
    );
    assert_eq!(
        resolve_spotify_refresh_token(None, StoredToken::Broken("c".to_string())),
        Err("c".to_string())
    );
    match resolve_spotify_refresh_token(None, StoredToken::Missing) {
        Err(w) => assert!(w.starts_with("Spotify już zatwierdziło tę aplikację")),
        Ok(_) => panic!("no token was there"),
    }
    assert_eq!(
        resolve_refresh_token("twitch", None, "acc".to_string(), StoredToken::Missing),
        Ok("acc".to_string())
    );
    assert_eq!(
        resolve_refresh_token("spotify", None, "acc".to_string(), StoredToken::Readable("r".to_string())),
        Ok("r".to_string())
    );
    assert_eq!(
        resolve_refresh_token("twitch", some("g"), "acc".to_string(), StoredToken::Missing),
        Ok("g".to_string())
    );
}

fn work() -> CallbackWork {
    CallbackWork {
        home: "https://k.pl/".to_string(),
        origin: "https://a.pl".to_string(),
        user: id(ME),
        verifier: some("v"),
        state_error: "bad state".to_string(),
        exchange_error: "no exchange".to_string(),
        refresh_error: "no refresh".to_string(),
        redirect_uri: "https://r".to_string(),
    }
}

#[test]
fn link_needs_accepted_state() {
    let q = |code: Option<&str>, state: Option<&str>, error: Option<&str>| SpotifyCallbackQuery {
        code: code.map(|s| s.to_string()),
        state: state.map(|s| s.to_string()),
        error: error.map(|s| s.to_string()),
        error_description: None,
    };
    let full = q(Some("c"), Some("s"), None);
    let mut f = CallbackFacts { enabled: false, state: None, exchanged: None, refresh: None, stored: None };
    assert_eq!(
        spotify_callback(&full, &work(), &f),
        CallbackStep::Fail(failure_address("https://k.pl", "Integracja Spotify nie jest skonfigurowana"))
    );
    f.enabled = true;
    assert_eq!(spotify_callback(&q(Some("c"), Some("s"), Some("e")), &work(), &f), CallbackStep::Fail(
        "https://k.pl/?spotify=error&message=B%C5%82%C4%85d%20Spotify%3A%20e".to_string()
    ));
    assert_eq!(spotify_callback(&q(None, Some("s"), None), &work(), &f), CallbackStep::Fail(failure_address("https://k.pl", "Brak kodu autoryzacji")));
    assert_eq!(spotify_callback(&q(Some("c"), None, None), &work(), &f), CallbackStep::Fail(failure_address("https://k.pl", "Brak stanu OAuth")));
    assert_eq!(spotify_callback(&full, &work(), &f), CallbackStep::CheckState("s".to_string()));
    f.state = Some(false);
    assert_eq!(spotify_callback(&full, &work(), &f), CallbackStep::Fail(failure_address("https://k.pl", "bad state")));
    f.state = Some(true);
    assert_eq!(spotify_callback(&full, &work(), &f), CallbackStep::ExchangeCode { code: "c".to_string(), verifier: some("v") });
    f.exchanged = Some(Done::Failed);
    assert_eq!(spotify_callback(&full, &work(), &f), CallbackStep::Fail(failure_address("https://a.pl", "no exchange")));
    f.exchanged = Some(Done::Worked);
    assert_eq!(spotify_callback(&full, &work(), &f), CallbackStep::ResolveRefreshToken(id(ME)));
    f.refresh = Some(Done::Failed);
    assert_eq!(spotify_callback(&full, &work(), &f), CallbackStep::Fail(failure_address("https://a.pl", "no refresh")));
    f.refresh = Some(Done::Worked);
    assert_eq!(spotify_callback(&full, &work(), &f), CallbackStep::Store(id(ME)));
    f.stored = Some(Done::Failed);
    assert_eq!(
        spotify_callback(&full, &work(), &f),
        CallbackStep::Fail(failure_address("https://a.pl", "Nie udało się zapisać połączenia Spotify. Spróbuj połączyć ponownie."))
    );
    f.stored = Some(Done::Worked);
    assert_eq!(spotify_callback(&full, &work(), &f), CallbackStep::Succeed("https://a.pl/?spotify=connected".to_string()));
}

const NO_SYNC: SyncFacts = SyncFacts {
    counted: None,
    account: None,
    cleared: false,
    token: None,
    fetched: None,
    applies: None,
    stored: None,
};

fn silence() -> Music {
    Music { stored: None, fetched: None, updated: None, updated_shares: true }
}

fn sync_body(client_type: &str, instance: &str) -> SpotifySyncBody {
    SpotifySyncBody { client_type: client_type.to_string(), client_instance_id: instance.to_string() }
}

fn activity(playing: bool, words: &str) -> Option<Activity> {
    Some(Activity { playing, words: words.to_string() })
}

#[test]
fn only_what_is_playing_is_shown() {
    assert!(is_spotify("spotify"));
    assert!(!is_spotify("Spotify"));
    assert!(!is_spotify("twitch"));
    assert_eq!(show_activity(&activity(true, "a")), some("a"));
    assert_eq!(show_activity(&activity(false, "a")), None);
    assert_eq!(show_activity(&None), None);
}

#[test]
fn listening_is_stored_where_shared() {
    let no = SyncStep::Refuse;
    let b = sync_body("web", "i1");
    let mut m = silence();
    let mut f = NO_SYNC;
    assert_eq!(spotify_sync(None, &b, &m, &f), no(error(401, "Authentication required")));
    assert_eq!(spotify_sync(Some(ME), &b, &m, &f), SyncStep::CountRequest {
        key: format!("spotify-sync:{ME}"),
        quota: Quota { max: 8, seconds: 60 },
    });
    f.counted = Some(false);
    assert_eq!(spotify_sync(Some(ME), &b, &m, &f), no(after(error(429, "Rate limit exceeded"), 15)));
    f.counted = Some(true);
    assert_eq!(spotify_sync(Some(ME), &b, &m, &f), SyncStep::LoadUser(id(ME)));
    f.account = found(Listener { is_bot: true, ..listener() });
    assert_eq!(spotify_sync(Some(ME), &b, &m, &f), no(error(401, "Authentication required")));
    f.account = found(listener());
    assert_eq!(spotify_sync(Some(ME), &sync_body("web", "  "), &m, &f), no(error(400, "Invalid clientInstanceId")));
    assert_eq!(
        spotify_sync(Some(ME), &sync_body("web", "ż".repeat(65).as_str()), &m, &f),
        no(error(400, "Invalid clientInstanceId"))
    );
    assert_eq!(
        spotify_sync(Some(ME), &sync_body("web", "ż".repeat(64).as_str()), &m, &f),
        SyncStep::LoadToken { user: id(ME), provider: "spotify" }
    );
    assert_eq!(spotify_sync(Some(ME), &sync_body("mobile", "i"), &m, &f), no(error(400, "Invalid clientType")));
    assert_eq!(spotify_sync(Some(ME), &sync_body("desktop", "i"), &m, &f), SyncStep::LoadToken { user: id(ME), provider: "spotify" });
    f.token = Some(false);
    assert_eq!(spotify_sync(Some(ME), &b, &m, &f), no(error(400, "Spotify not connected")));
    f.token = Some(true);
    assert_eq!(spotify_sync(Some(ME), &b, &m, &f), SyncStep::Fetch {
        client_type: "web".to_string(),
        client_instance_id: "i1".to_string(),
    });
    f.fetched = Some(Done::Failed);
    assert_eq!(spotify_sync(Some(ME), &b, &m, &f), SyncStep::RefuseFailure(502));
    f.fetched = Some(Done::Worked);
    m.stored = activity(true, "old");
    m.fetched = activity(true, "new");
    assert_eq!(spotify_sync(Some(ME), &b, &m, &f), SyncStep::AskApplies {
        stored: activity(true, "old"),
        report: Report {
            activity: activity(true, "new"),
            client_type: "web".to_string(),
            client_instance_id: "i1".to_string(),
        },
    });
    f.applies = Some(false);
    assert_eq!(spotify_sync(Some(ME), &b, &m, &f), SyncStep::Reply {
        shown: some("old"),
        shares: true,
        applied: Some(false),
    });
    m.stored = activity(false, "old");
    assert_eq!(spotify_sync(Some(ME), &b, &m, &f), SyncStep::Reply {
        shown: None,
        shares: true,
        applied: Some(false),
    });
    f.applies = Some(true);
    assert_eq!(spotify_sync(Some(ME), &b, &m, &f), SyncStep::Store {
        user: id(ME),
        activity: activity(true, "new"),
    });
    f.stored = Some(Lookup::Missing);
    assert_eq!(spotify_sync(Some(ME), &b, &m, &f), no(error(500, "Server error")));
    f.stored = Some(Lookup::Found(()));
    m.updated = activity(true, "new");
    assert_eq!(spotify_sync(Some(ME), &b, &m, &f), SyncStep::TellAndReply {
        shown: some("new"),
        shares: true,
        applied: Some(true),
    });
    m.updated = activity(false, "new");
    assert_eq!(spotify_sync(Some(ME), &b, &m, &f), SyncStep::TellAndReply {
        shown: None,
        shares: true,
        applied: Some(true),
    });
    f.account = found(Listener { shares: false, ..listener() });
    assert_eq!(spotify_sync(Some(ME), &b, &m, &f), SyncStep::Clear(id(ME)));
    f.cleared = true;
    assert_eq!(spotify_sync(Some(ME), &b, &m, &f), SyncStep::Reply {
        shown: None,
        shares: false,
        applied: None,
    });
}

#[test]
fn listening_settings_and_disconnection() {
    let no = ChangeStep::Refuse;
    let on = ListeningSettingsBody { share_listening: true };
    let off = ListeningSettingsBody { share_listening: false };
    let mut f = ChangeFacts { account: None, unlinked: false, stored: None };
    assert_eq!(spotify_disconnect(None, &f), no(error(401, "Authentication required")));
    assert_eq!(spotify_disconnect(Some(ME), &f), ChangeStep::LoadUser(id(ME)));
    f.account = found(listener());
    assert_eq!(spotify_disconnect(Some(ME), &f), ChangeStep::Unlink(id(ME)));
    assert_eq!(
        update_listening_settings(Some(ME), &on, &f),
        ChangeStep::StoreSettings { user: id(ME), share: true, clear: false }
    );
    assert_eq!(
        update_listening_settings(Some(ME), &off, &f),
        ChangeStep::StoreSettings { user: id(ME), share: false, clear: true }
    );
    f.unlinked = true;
    assert_eq!(spotify_disconnect(Some(ME), &f), ChangeStep::ClearActivity(id(ME)));
    f.stored = Some(Lookup::Failed);
    assert_eq!(spotify_disconnect(Some(ME), &f), no(error(500, "Server error")));
    f.stored = Some(Lookup::Found(()));
    assert_eq!(spotify_disconnect(Some(ME), &f), ChangeStep::TellAndReply);
    assert_eq!(update_listening_settings(Some(ME), &on, &f), ChangeStep::Reply);
    assert_eq!(update_listening_settings(Some(ME), &off, &f), ChangeStep::TellAndReply);
    f.account = found(Listener { is_bot: true, ..listener() });
    assert_eq!(update_listening_settings(Some(ME), &on, &f), no(error(401, "Authentication required")));
    let o = oauth::ListeningSettingsBody { share_listening: true };
    assert_eq!(oauth::update_listening_settings(Some(ME), &o, &f), ChangeStep::Reply);
}

fn provider() -> Provider {
    Provider {
        id: "spotify",
        name: "Spotify",
        oauth_supported: true,
        enabled: true,
        listening_sync: true,
        use_pkce: true,
        revoke_on_disconnect: true,
    }
}

#[test]
fn integration_words_and_catalog() {
    assert_eq!(oauth::default_client_type(), "web");
    assert_eq!(no_oauth_text("Steam"), "Integracja Steam nie ma publicznego OAuth API");
    assert_eq!(not_configured_text("Steam"), "Integracja Steam nie jest skonfigurowana");
    assert_eq!(oauth_fail("https://k", "x", "a b"), "https://k/?integration=x&status=error&message=a%20b");
    assert_eq!(oauth_success("https://k", "x"), "https://k/?integration=x&status=connected");
    let items = integration_catalog(&vec![provider(), Provider { enabled: false, listening_sync: false, ..provider() }]);
    assert_eq!(items.len(), 2);
    assert_eq!((items[0].id, items[0].name), ("spotify", "Spotify"));
    assert!(items[0].enabled && items[0].listening_sync && items[0].oauth_supported);
    assert!(!items[1].enabled && !items[1].listening_sync && items[1].oauth_supported);
}

fn account(provider: &str) -> ConnectedAccount {
    ConnectedAccount {
        provider: provider.to_string(),
        account_name: "n".to_string(),
        profile_url: "u".to_string(),
    }
}

#[test]
fn linked_accounts_are_backfilled() {
    let accounts = vec![account("a"), account("b"), account("b")];
    assert_eq!(account_of(&accounts, "b"), Some(1));
    assert_eq!(account_of(&accounts, "c"), None);
    let link = Some(Some(LinkedAccount { user_id: some("u1"), display_name: None }));
    let run = |connected, accounts: &Vec<ConnectedAccount>, link: &Option<Option<LinkedAccount>>, provider: &str| {
        backfill_connected_account(Some(id(ME)), connected, accounts, link, provider, "Spotify")
    };
    assert!(matches!(
        backfill_connected_account(None, None, &vec![], &None, "spotify", "Spotify"),
        Backfill::Nothing
    ));
    assert!(matches!(run(None, &vec![], &None, "spotify"), Backfill::AskConnected(u) if u == id(ME)));
    assert!(matches!(run(Some(false), &vec![], &link, "spotify"), Backfill::Nothing));
    assert!(matches!(run(Some(true), &vec![account("spotify")], &link, "spotify"), Backfill::Nothing));
    assert!(matches!(run(Some(true), &vec![], &None, "spotify"), Backfill::LoadLink(u) if u == id(ME)));
    assert!(matches!(run(Some(true), &vec![], &Some(None), "spotify"), Backfill::Nothing));
    assert!(matches!(run(Some(true), &vec![], &link, "github"), Backfill::Nothing));
    match run(Some(true), &accounts, &link, "spotify") {
        Backfill::Put(a) => {
            assert_eq!(a.provider, "spotify");
            assert_eq!(a.account_name, "Spotify");
            assert_eq!(a.profile_url, "https://open.spotify.com/user/u1");
        }
        _ => panic!("nothing put"),
    }
}

#[test]
fn integration_links() {
    let no = IntegrationStep::Refuse;
    let back = ConnectQuery { return_to: some("https://a.pl") };
    let accounts = vec![account("steam"), account("spotify")];
    let shown = |shares| IntegrationStep::ReplyStatus {
        provider: "spotify",
        connected: false,
        enabled: true,
        oauth_supported: true,
        account_name: some("n"),
        profile_url: some("u"),
        shares,
    };
    let p = Some(provider());
    let mut f = IntegrationFacts { counted: None, account: None, backfilled: false, connected: None, built: None };
    assert_eq!(oauth_status("spotify", None, Some(ME), &accounts, &f), no(error(404, "Unknown integration")));
    assert_eq!(oauth_status("spotify", p, None, &accounts, &f), no(error(401, "Authentication required")));
    assert_eq!(oauth_status("spotify", p, Some(ME), &accounts, &f), IntegrationStep::CountRequest {
        key: format!("integration-status:spotify:{ME}"),
        quota: Quota { max: 15, seconds: 60 },
    });
    f.counted = Some(false);
    assert_eq!(oauth_status("spotify", p, Some(ME), &accounts, &f), no(error(429, "Rate limit exceeded")));
    f.counted = Some(true);
    assert_eq!(oauth_status("spotify", p, Some(ME), &accounts, &f), IntegrationStep::LoadUser(id(ME)));
    f.account = Some(Lookup::Failed);
    assert_eq!(oauth_status("spotify", p, Some(ME), &accounts, &f), no(error(500, "Server error")));
    assert_eq!(oauth_connect_url(p, Some(ME), &back, &sites(), &f), no(error(401, "Authentication required")));
    f.account = found(listener());
    assert_eq!(oauth_status("spotify", p, Some(ME), &accounts, &f), IntegrationStep::Backfill(id(ME)));
    f.backfilled = true;
    assert_eq!(oauth_status("spotify", p, Some(ME), &accounts, &f), IntegrationStep::AskConnected(id(ME)));
    f.connected = Some(false);
    assert_eq!(
        oauth_status("spotify", p, Some(ME), &accounts, &f),
        shown(Some(true))
    );
    let plain = Some(Provider { listening_sync: false, ..provider() });
    assert_eq!(
        oauth_status("spotify", plain, Some(ME), &accounts, &f),
        shown(None)
    );
    assert_eq!(oauth_connect_url(None, Some(ME), &back, &sites(), &f), no(error(404, "Unknown integration")));
    let closed = Some(Provider { oauth_supported: false, ..provider() });
    assert_eq!(oauth_connect_url(closed, Some(ME), &back, &sites(), &f), IntegrationStep::RefuseNoOauth(503));
    let off = Some(Provider { enabled: false, ..provider() });
    assert_eq!(oauth_connect_url(off, Some(ME), &back, &sites(), &f), IntegrationStep::RefuseNotConfigured(503));
    assert_eq!(oauth_connect_url(p, None, &back, &sites(), &f), no(error(401, "Authentication required")));
    assert_eq!(oauth_connect_url(p, Some(ME), &back, &sites(), &f), IntegrationStep::BuildAddress {
        provider: "spotify",
        user: ME.to_string(),
        origin: "https://a.pl".to_string(),
        pkce: true,
    });
    f.built = Some(Done::Failed);
    assert_eq!(oauth_connect_url(p, Some(ME), &back, &sites(), &f), IntegrationStep::RefuseFailure(500));
    f.built = Some(Done::Worked);
    assert_eq!(oauth_connect_url(p, Some(ME), &back, &sites(), &f), IntegrationStep::ReplyAddress);
}

fn oauth_work() -> oauth::CallbackWork {
    oauth::CallbackWork {
        path: "zzz".to_string(),
        home: "https://k.pl/".to_string(),
        origin: "https://a.pl".to_string(),
        user: id(ME),
        verifier: some("v"),
        reported_error: "reported".to_string(),
        state_error: "bad state".to_string(),
        exchange_error: "no exchange".to_string(),
        refresh_error: "no refresh".to_string(),
    }
}

#[test]
fn integration_success_is_stored() {
    let q = |error: Option<&str>, code: Option<&str>, state: Option<&str>| CallbackQuery {
        code: code.map(|s| s.to_string()),
        state: state.map(|s| s.to_string()),
        error: error.map(|s| s.to_string()),
        error_description: None,
    };
    let p = Some(provider());
    let full = q(None, Some("c"), Some("s"));
    let mut f = oauth::CallbackFacts {
        state: None,
        exchanged: None,
        refresh: None,
        profile: None,
        stored: None,
        shown: None,
        told: false,
    };
    assert_eq!(oauth_callback(None, &full, &oauth_work(), &f), oauth::CallbackStep::Fail(
        "https://k.pl//?integration=zzz&status=error&message=Nieznana%20integracja".to_string()
    ));
    let off = Some(Provider { enabled: false, ..provider() });
    assert_eq!(oauth_callback(off, &full, &oauth_work(), &f), oauth::CallbackStep::Fail(oauth_fail("https://k.pl", "spotify", "Integracja Spotify nie jest skonfigurowana")));
    assert_eq!(oauth_callback(p, &q(Some("e"), None, None), &oauth_work(), &f), oauth::CallbackStep::Fail(oauth_fail("https://k.pl", "spotify", "reported")));
    assert_eq!(
        oauth_callback(p, &q(None, None, Some("s")), &oauth_work(), &f),
        oauth::CallbackStep::Fail(oauth_fail("https://k.pl", "spotify", "Brak kodu autoryzacji"))
    );
    assert_eq!(
        oauth_callback(p, &q(None, Some("c"), None), &oauth_work(), &f),
        oauth::CallbackStep::Fail(oauth_fail("https://k.pl", "spotify", "Brak stanu OAuth"))
    );
    assert_eq!(oauth_callback(p, &full, &oauth_work(), &f), oauth::CallbackStep::CheckState("s".to_string()));
    f.state = Some(false);
    assert_eq!(oauth_callback(p, &full, &oauth_work(), &f), oauth::CallbackStep::Fail(oauth_fail("https://k.pl", "spotify", "bad state")));
    f.state = Some(true);
    assert_eq!(oauth_callback(p, &full, &oauth_work(), &f), oauth::CallbackStep::ExchangeCode {
        code: "c".to_string(),
        verifier: some("v"),
    });
    f.exchanged = Some(Done::Failed);
    assert_eq!(oauth_callback(p, &full, &oauth_work(), &f), oauth::CallbackStep::Fail(oauth_fail("https://a.pl", "spotify", "no exchange")));
    f.exchanged = Some(Done::Worked);
    assert_eq!(oauth_callback(p, &full, &oauth_work(), &f), oauth::CallbackStep::ResolveRefreshToken(id(ME)));
    f.refresh = Some(Done::Failed);
    assert_eq!(oauth_callback(p, &full, &oauth_work(), &f), oauth::CallbackStep::Fail(oauth_fail("https://a.pl", "spotify", "no refresh")));
    f.refresh = Some(Done::Worked);
    assert_eq!(oauth_callback(p, &full, &oauth_work(), &f), oauth::CallbackStep::LoadProfile(id(ME)));
    f.profile = Some(true);
    assert_eq!(oauth_callback(p, &full, &oauth_work(), &f), oauth::CallbackStep::Store {
        user: id(ME),
        provider: "spotify",
        profile: true,
    });
    f.stored = Some(Done::Failed);
    assert_eq!(
        oauth_callback(p, &full, &oauth_work(), &f),
        oauth::CallbackStep::Fail(oauth_fail("https://a.pl", "spotify", "Nie udało się zapisać połączenia Spotify. Spróbuj połączyć ponownie."))
    );
    let other = Some(Provider { id: "twitch", ..provider() });
    assert_eq!(
        oauth_callback(other, &full, &oauth_work(), &f),
        oauth::CallbackStep::Fail(oauth_fail("https://a.pl", "twitch", "Nie udało się zapisać połączenia"))
    );
    f.stored = Some(Done::Worked);
    assert_eq!(oauth_callback(p, &full, &oauth_work(), &f), oauth::CallbackStep::ShowAccount(id(ME)));
    f.shown = Some(true);
    assert_eq!(oauth_callback(p, &full, &oauth_work(), &f), oauth::CallbackStep::TellOthers(id(ME)));
    f.told = true;
    assert_eq!(oauth_callback(p, &full, &oauth_work(), &f), oauth::CallbackStep::Succeed(
        "https://a.pl/?integration=spotify&status=connected".to_string()
    ));
    f.profile = Some(false);
    f.shown = None;
    assert_eq!(oauth_callback(p, &full, &oauth_work(), &f), oauth::CallbackStep::Succeed(
        "https://a.pl/?integration=spotify&status=connected".to_string()
    ));
}

#[test]
fn integration_disconnection_and_sync() {
    let no = UnlinkStep::Refuse;
    let p = Some(provider());
    let mut f = UnlinkFacts { account: None, unlinked: false, removed: None, cleared: false, told: false };
    assert_eq!(oauth_disconnect(None, Some(ME), &f), no(error(404, "Unknown integration")));
    assert_eq!(oauth_disconnect(p, None, &f), no(error(401, "Authentication required")));
    assert_eq!(oauth_disconnect(p, Some(ME), &f), UnlinkStep::LoadUser(id(ME)));
    f.account = found(Listener { login_allowed: false, ..listener() });
    assert_eq!(oauth_disconnect(p, Some(ME), &f), no(error(403, "Forbidden")));
    f.account = found(listener());
    assert_eq!(oauth_disconnect(p, Some(ME), &f), UnlinkStep::Unlink { user: id(ME), revoke: true });
    f.unlinked = true;
    assert_eq!(oauth_disconnect(p, Some(ME), &f), UnlinkStep::RemoveAccount(id(ME)));
    f.removed = Some(Lookup::Failed);
    assert_eq!(oauth_disconnect(p, Some(ME), &f), no(error(500, "Server error")));
    f.removed = Some(Lookup::Found(()));
    assert_eq!(oauth_disconnect(p, Some(ME), &f), UnlinkStep::ClearActivity(id(ME)));
    f.cleared = true;
    assert_eq!(oauth_disconnect(p, Some(ME), &f), UnlinkStep::TellOthers(id(ME)));
    f.told = true;
    assert_eq!(oauth_disconnect(p, Some(ME), &f), UnlinkStep::Reply);
    let body = ListeningSyncBody { client_type: "mobile".to_string(), client_instance_id: "i".to_string() };
    let g = SyncFacts {
        counted: Some(true),
        account: found(Listener { is_bot: true, ..listener() }),
        token: Some(false),
        ..NO_SYNC
    };
    assert_eq!(oauth_sync("spotify", None, Some(ME), &body, &silence(), &g), SyncStep::Refuse(error(404, "Unknown integration")));
    let plain = Some(Provider { listening_sync: false, ..provider() });
    assert_eq!(oauth_sync("spotify", plain, Some(ME), &body, &silence(), &g), SyncStep::Refuse(error(400, "Listening sync not supported")));
    assert_eq!(oauth_sync("spotify", p, Some(ME), &body, &silence(), &g), SyncStep::Refuse(error(400, "Integration not connected")));
    let other = Some(Provider { id: "twitch", ..provider() });
    assert_eq!(
        oauth_sync("twitch", other, Some(ME), &body, &silence(), &SyncFacts { token: None, ..g }),
        SyncStep::LoadToken { user: id(ME), provider: "twitch" }
    );
}

#[test]
fn integration_reports_are_counted_by_service() {
    let none = SyncFacts {
        counted: None,
        account: None,
        cleared: false,
        token: None,
        fetched: None,
        applies: None,
        stored: None,
    };
    let body = ListeningSyncBody { client_type: "web".to_string(), client_instance_id: "i".to_string() };
    assert_eq!(
        oauth_sync("spotify", Some(provider()), Some(ME), &body, &silence(), &none),
        SyncStep::CountRequest {
            key: format!("integration-sync:spotify:{ME}"),
            quota: Quota { max: 8, seconds: 60 },
        }
    );
}
