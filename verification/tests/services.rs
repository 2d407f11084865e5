//! Status, stickers, voice, whitelist and the description of the service.

use klovy_chat_server::controllers::api_info_controller::{
    build_info, captcha_feature, cdn_feature, env_nonempty, http_to_ws, legal_links, limits_feature,
    livekit_feature, livekit_nodes_from_env, public_api_base, public_app_url, public_ws_url, show_node,
    single_livekit_feature, trim_trailing_slash, RawNode, Settings,
};
use klovy_chat_server::controllers::status_controller::{
    names_availability, told_last_seen, update_user_status, StatusFacts, StatusStep, UpdateStatusBody,
};
use klovy_chat_server::controllers::stickers::{
    fetch_from_giphy, parse_limit, search_params, search_stickers, show_sticker, stickers_in, trending_params,
    trending_stickers, Fetched, RawSticker, StickerQuery, StickerStep,
};
use klovy_chat_server::controllers::user_controller;
use klovy_chat_server::controllers::voice_controller::{
    build_dm_room_name, call_peer, get_active_call, get_voice_token, token_denied_message, token_id, token_times,
    ActiveCall, ActiveCallStep, CallSessionError, Issue, LiveKitClaims, TokenFacts, TokenStep, VideoGrant, VoiceTokenBody,
    make_claims,
};
use klovy_chat_server::controllers::whitelist_controller::{approve_user, ApproveStep, ApproveUserBody};
use klovy_chat_server::ids::Oid;
use klovy_chat_server::reply::{again, coded, error, message, Answer, Lookup, Quota};

const ME: &str = "0000000000000000000000a1";
const OTHER: &str = "0000000000000000000000b2";

fn id(s: &str) -> Oid {
    match Oid::parse(s) {
        Some(o) => o,
        None => panic!("not an identifier"),
    }
}

fn some(s: &str) -> Option<String> {
    Some(s.to_string())
}

#[test]
fn stored_availability_is_known() {
    let no = StatusStep::Refuse;
    let body = |s: &str| UpdateStatusBody { availability_status: some(s) };
    let mut f = StatusFacts { user: None, stored: None, told: false, cached: false };
    for s in ["online", "away", "brb", "dnd"] {
        assert!(names_availability(s));
    }
    assert!(!names_availability("Online"));
    assert_eq!(update_user_status(Some(ME), &body("busy"), &f), no(error(400, "Invalid availability status")));
    let none = UpdateStatusBody { availability_status: None };
    assert_eq!(update_user_status(Some(ME), &none, &f), no(error(400, "Invalid availability status")));
    let b = body("away");
    assert_eq!(update_user_status(None, &b, &f), no(error(500, "Server error")));
    assert_eq!(update_user_status(Some(ME), &b, &f), StatusStep::LoadUser(id(ME)));
    f.user = Some(Lookup::Missing);
    assert_eq!(update_user_status(Some(ME), &b, &f), no(error(404, "User not found")));
    f.user = Some(Lookup::Failed);
    assert_eq!(update_user_status(Some(ME), &b, &f), no(error(503, "Temporarily unavailable. Retry.")));
    f.user = Some(Lookup::Found(()));
    assert_eq!(update_user_status(Some(ME), &b, &f), StatusStep::Store { user: id(ME), status: "away".to_string() });
    f.stored = Some(Lookup::Missing);
    assert_eq!(update_user_status(Some(ME), &b, &f), no(error(404, "User not found")));
    f.stored = Some(Lookup::Failed);
    assert_eq!(update_user_status(Some(ME), &b, &f), no(error(503, "Temporarily unavailable. Retry.")));
    f.stored = Some(Lookup::Found(()));
    assert_eq!(update_user_status(Some(ME), &b, &f), StatusStep::TellOthers { user: id(ME), status: "away".to_string() });
    f.told = true;
    assert_eq!(update_user_status(Some(ME), &b, &f), StatusStep::PutInCache { user: id(ME), status: "away".to_string() });
    f.cached = true;
    assert_eq!(update_user_status(Some(ME), &b, &f), StatusStep::Reply { status: "away".to_string() });
    assert_eq!(told_last_seen(true, Some(5)), None);
    assert_eq!(told_last_seen(false, Some(5)), Some(5));
}

#[test]
fn status_is_for_friends() {
    let no = user_controller::StatusStep::Refuse;
    let ask = user_controller::get_user_status;
    assert_eq!(ask(Some(""), OTHER, None, None), no(error(401, "Authentication required")));
    assert_eq!(ask(Some(ME), "x", None, None), no(error(404, "User not found")));
    assert_eq!(ask(Some(ME), OTHER, None, None), user_controller::StatusStep::AskFriends);
    assert_eq!(ask(Some(ME), ME, None, None), user_controller::StatusStep::LoadUser(id(ME)));
    assert_eq!(ask(Some(ME), OTHER, Some(Answer::No), None), no(error(403, "Forbidden")));
    assert_eq!(
        ask(Some(ME), OTHER, Some(Answer::Failed), None),
        no(again(error(503, "Temporarily unavailable")))
    );
    let yes = Some(Answer::Yes);
    assert_eq!(ask(Some(ME), OTHER, yes, None), user_controller::StatusStep::LoadUser(id(OTHER)));
    assert_eq!(ask(Some(ME), OTHER, yes, Some(Lookup::Missing)), no(error(404, "User not found")));
    assert_eq!(ask(Some(ME), OTHER, yes, Some(Lookup::Failed)), no(error(500, "Server error")));
    assert_eq!(ask(Some(ME), OTHER, yes, Some(Lookup::Found(()))), user_controller::StatusStep::Reply);
}

#[test]
fn sticker_limits() {
    assert_eq!(parse_limit(&None), 24);
    assert_eq!(parse_limit(&some("x")), 24);
    assert_eq!(parse_limit(&some("0")), 24);
    assert_eq!(parse_limit(&some("-3")), 24);
    assert_eq!(parse_limit(&some("50")), 50);
    assert_eq!(parse_limit(&some("51")), 50);
    assert_eq!(parse_limit(&some("4294967296")), 0);
}

fn raw() -> RawSticker {
    RawSticker {
        id: some("1"),
        original_url: some("o"),
        fixed_height_small: None,
        fixed_height: None,
        fixed_width: None,
        title: None,
        width: None,
        height: None,
    }
}

#[test]
fn stickers_are_shown() {
    assert!(show_sticker(&RawSticker { id: None, ..raw() }).is_none());
    assert!(show_sticker(&RawSticker { original_url: None, ..raw() }).is_none());
    match show_sticker(&raw()) {
        Some(s) => {
            assert_eq!((s.id.as_str(), s.url.as_str(), s.preview.as_str()), ("1", "o", "o"));
            assert_eq!((s.title.as_str(), s.width, s.height), ("Naklejka", 0, 0));
        }
        None => panic!("not shown"),
    }
    let full = RawSticker {
        fixed_height_small: some("s"),
        fixed_height: some("h"),
        title: some(" Kot "),
        width: some("20"),
        height: some("x"),
        ..raw()
    };
    match show_sticker(&full) {
        Some(s) => {
            assert_eq!((s.title.as_str(), s.preview.as_str(), s.width, s.height), ("Kot", "s", 20, 0));
        }
        None => panic!("not shown"),
    }
}

#[test]
fn sticker_documents_are_read() {
    let doc = "{\"data\":[{\"id\":\"1\",\"title\":\"Kot\",\"images\":{\"original\":{\"url\":\"o\",\"width\":\"7\"},\"fixed_width\":{\"url\":\"w\"}}},{\"id\":\"2\"},3]}";
    match stickers_in(doc.as_bytes()) {
        Some(v) => {
            assert_eq!(v.len(), 1);
            assert_eq!((v[0].id.as_str(), v[0].title.as_str(), v[0].url.as_str()), ("1", "Kot", "o"));
            assert_eq!((v[0].preview.as_str(), v[0].width, v[0].height), ("w", 7, 0));
        }
        None => panic!("unreadable"),
    }
    assert!(matches!(stickers_in(b"{\"data\":5}"), Some(v) if v.is_empty()));
    assert!(matches!(stickers_in(b"[]"), Some(v) if v.is_empty()));
    assert!(stickers_in(b"{").is_none());
}

#[test]
fn sticker_searches() {
    let no = StickerStep::Refuse;
    let q = |s: &str| StickerQuery { q: some(s), limit: some("9"), lang: None };
    let down = no(error(503, "Wyszukiwarka naklejek jest niedostępna (brak konfiguracji)."));
    assert_eq!(search_stickers(None, &q("kot"), None), down);
    assert_eq!(trending_stickers(Some(""), None), down);
    assert_eq!(search_stickers(Some("k"), &q("  "), None), no(error(400, "Brak frazy wyszukiwania.")));
    assert_eq!(
        search_stickers(Some("k"), &q("ż".repeat(51).as_str()), None),
        no(error(400, "Fraza wyszukiwania jest zbyt długa."))
    );
    assert_eq!(search_stickers(Some("k"), &q("ż".repeat(50).as_str()), None), StickerStep::Fetch);
    assert_eq!(fetch_from_giphy(Some(Fetched::Unreachable)), no(error(502, "Nie udało się połączyć z Giphy.")));
    assert_eq!(
        fetch_from_giphy(Some(Fetched::Refused)),
        no(error(502, "Nie udało się pobrać naklejek z Giphy."))
    );
    assert_eq!(
        trending_stickers(Some("k"), Some(Fetched::Unreadable)),
        no(error(502, "Nie udało się pobrać naklejek z Giphy."))
    );
    assert_eq!(search_stickers(Some("k"), &q("kot"), Some(Fetched::Stickers)), StickerStep::Reply);
    let p: Vec<(String, String)> =
        search_params("k", &q(" kot "), "pl").into_iter().map(|p| (p.name.to_string(), p.value)).collect();
    let expected: Vec<(String, String)> = vec![
        ("api_key", "k"),
        ("q", "kot"),
        ("limit", "9"),
        ("rating", "pg-13"),
        ("lang", "pl"),
        ("bundle", "messaging_non_clips"),
    ]
    .into_iter()
    .map(|(a, b)| (a.to_string(), b.to_string()))
    .collect();
    assert_eq!(p, expected);
    let t: Vec<&str> = trending_params("k", &q("")).iter().map(|p| p.name).collect();
    assert_eq!(t, vec!["api_key", "limit", "rating", "bundle"]);
}

#[test]
fn rooms_are_symmetric_and_distinct() {
    assert_eq!(build_dm_room_name("b", "a"), "dm_a_b");
    assert_eq!(build_dm_room_name("a", "b"), "dm_a_b");
    assert_eq!(build_dm_room_name("a", "a"), "dm_a_a");
    assert_ne!(build_dm_room_name("a", "c"), build_dm_room_name("a", "b"));
}

fn issue() -> Issue {
    Issue { key: "key".to_string(), session: "s1".to_string(), mark: "m1".to_string(), now: 1000 }
}

fn claims(user: &str) -> LiveKitClaims {
    LiveKitClaims {
        exp: 1180,
        iss: "key".to_string(),
        sub: user.to_string(),
        nbf: 1000,
        jti: "s1:m1".to_string(),
        video: VideoGrant {
            room: format!("dm_{ME}_{OTHER}"),
            room_join: true,
            can_publish: true,
            can_subscribe: true,
            can_publish_data: true,
        },
    }
}

#[test]
fn voice_claims() {
    assert_eq!(make_claims(ME, OTHER, &issue()), claims(ME));
    assert_eq!(make_claims(OTHER, ME, &issue()), claims(OTHER));
}

#[test]
fn voice_tokens_are_for_friends_in_a_call() {
    let no = TokenStep::Refuse;
    let peer = |s: &str| VoiceTokenBody { peer_id: some(s) };
    let mut f = TokenFacts {
        counted: None,
        session: None,
        configured: None,
        url_allowed: None,
        friends: None,
        signed: None,
    };
    let b = peer(OTHER);
    let step = |f: &TokenFacts| get_voice_token(Some(ME), &b, &issue(), f);
    assert_eq!(get_voice_token(None, &b, &issue(), &f), no(message(401, "Not authenticated.")));
    assert_eq!(step(&f), TokenStep::CountRequest {
        key: format!("voice-token:{ME}"),
        quota: Quota { max: 20, seconds: 60 },
    });
    f.counted = Some(false);
    assert_eq!(step(&f), no(message(429, "Zbyt wiele prób dołączenia do rozmowy. Spróbuj za chwilę.")));
    f.counted = Some(true);
    assert_eq!(get_voice_token(Some(ME), &peer(""), &issue(), &f), no(message(400, "peerId is required.")));
    assert_eq!(get_voice_token(Some(ME), &peer(ME), &issue(), &f), no(message(400, "Cannot call yourself.")));
    assert_eq!(step(&f), TokenStep::AskSession { user: ME.to_string(), peer: OTHER.to_string() });
    f.session = Some(Err(CallSessionError::NotFound));
    let inactive = "Połączenie nie jest aktywne lub wygasło. Zaakceptuj rozmowę przed dołączeniem.";
    assert_eq!(step(&f), no(coded(message(403, inactive), "CALL_NOT_ACCEPTED")));
    assert_eq!(token_denied_message(CallSessionError::InvalidPhase), inactive);
    assert_eq!(
        token_denied_message(CallSessionError::WrongRole),
        "Brak uprawnień do dołączenia do tej rozmowy."
    );
    assert_eq!(
        token_denied_message(CallSessionError::InProgress),
        "Brak uprawnień do dołączenia do tej rozmowy."
    );
    f.session = Some(Ok(()));
    assert_eq!(step(&f), TokenStep::LoadConfiguration);
    f.configured = Some(false);
    assert_eq!(step(&f), no(message(500, "Voice service is not configured.")));
    f.configured = Some(true);
    assert_eq!(step(&f), TokenStep::CheckUrl);
    f.url_allowed = Some(false);
    assert_eq!(step(&f), no(message(500, "Voice service is not configured.")));
    f.url_allowed = Some(true);
    assert_eq!(step(&f), TokenStep::AskFriends { user: ME.to_string(), peer: OTHER.to_string() });
    f.friends = Some(false);
    assert_eq!(step(&f), no(message(403, "Możesz dzwonić tylko do znajomych.")));
    f.friends = Some(true);
    assert_eq!(step(&f), TokenStep::SignToken(claims(ME)));
    f.signed = Some(false);
    assert_eq!(step(&f), no(message(500, "Failed to create voice token.")));
    f.signed = Some(true);
    assert_eq!(step(&f), TokenStep::Reply { room: format!("dm_{ME}_{OTHER}") });
}

#[test]
fn calls_and_their_tokens() {
    let t = token_times(1000);
    assert_eq!((t.begins, t.ends), (1000, 1180));
    assert_eq!(token_id("s", "m"), "s:m");
    assert_eq!(call_peer("a", "a", "b"), "b");
    assert_eq!(call_peer("b", "a", "b"), "a");
    assert_eq!(get_active_call(None, None), ActiveCallStep::Refuse(message(401, "Not authenticated.")));
    assert_eq!(get_active_call(Some(ME), None), ActiveCallStep::AskSession(ME.to_string()));
    assert_eq!(get_active_call(Some(ME), Some(None)), ActiveCallStep::ReplyNone);
    let call = ActiveCall { caller: OTHER.to_string(), callee: ME.to_string(), mode: "video".to_string() };
    assert_eq!(
        get_active_call(Some(ME), Some(Some(&call))),
        ActiveCallStep::ReplyActive { peer: OTHER.to_string(), mode: "video".to_string() }
    );
    assert_eq!(
        get_active_call(Some(OTHER), Some(Some(&call))),
        ActiveCallStep::ReplyActive { peer: ME.to_string(), mode: "video".to_string() }
    );
}

#[test]
fn whitelist_approval() {
    let no = ApproveStep::Refuse;
    let b = ApproveUserBody { user_id: some(ME) };
    assert_eq!(approve_user(&ApproveUserBody { user_id: None }, None), no(message(400, "User ID required.")));
    assert_eq!(approve_user(&ApproveUserBody { user_id: some("x") }, None), no(message(404, "User not found.")));
    assert_eq!(approve_user(&b, None), ApproveStep::Store(id(ME)));
    assert_eq!(approve_user(&b, Some(Lookup::Missing)), no(message(404, "User not found.")));
    assert_eq!(approve_user(&b, Some(Lookup::Failed)), no(message(500, "Error approving user.")));
    assert_eq!(approve_user(&b, Some(Lookup::Found(()))), ApproveStep::Reply("User approved."));
}

fn settings() -> Settings<'static> {
    Settings {
        production: false,
        public_api_url: None,
        api_public_url: None,
        port: None,
        public_ws_url: None,
        frontend_url: None,
        public_app_url: None,
        turnstile_site_key: None,
        livekit_nodes: None,
        livekit_url: None,
        livekit_api_key: None,
        livekit_api_secret: None,
        livekit_node_name: None,
        public_website_url: None,
        git_commit_sha: None,
        commit_sha: None,
        git_commit_timestamp: None,
        git_origin_url: None,
    }
}

#[test]
fn service_addresses() {
    assert_eq!(env_nonempty(Some(" x ")), some("x"));
    assert_eq!(env_nonempty(Some("  ")), None);
    assert_eq!(trim_trailing_slash(" https://k.pl// "), "https://k.pl");
    assert_eq!(http_to_ws("https://k.pl/"), "wss://k.pl");
    assert_eq!(http_to_ws("http://k.pl"), "ws://k.pl");
    assert_eq!(http_to_ws("wss://k.pl"), "wss://k.pl");
    let s = settings();
    assert_eq!(public_api_base(&s), "http://127.0.0.1:6700");
    assert_eq!(public_ws_url(&s), "ws://127.0.0.1:6700/ws");
    assert_eq!(public_app_url(&s), "http://127.0.0.1:5173");
    let s = Settings { port: Some("80"), ..settings() };
    assert_eq!(public_api_base(&s), "http://127.0.0.1:80");
    let s = Settings { production: true, ..settings() };
    assert_eq!(public_api_base(&s), "https://api.klovy.chat");
    assert_eq!(public_ws_url(&s), "wss://api.klovy.chat/ws");
    assert_eq!(public_app_url(&s), "https://app.klovy.chat");
    let s = Settings {
        public_api_url: Some(" "),
        api_public_url: Some("https://a.pl/"),
        public_ws_url: Some("wss://w.pl/"),
        frontend_url: Some(" https://f.pl/ , https://g.pl"),
        ..settings()
    };
    assert_eq!(public_api_base(&s), "https://a.pl");
    assert_eq!(public_ws_url(&s), "wss://w.pl");
    assert_eq!(public_app_url(&s), "https://f.pl");
}

#[test]
fn service_features() {
    let s = Settings { turnstile_site_key: Some(" key "), ..settings() };
    let f = captcha_feature(&s);
    assert!(f.enabled && f.value == "key");
    let f = captcha_feature(&settings());
    assert!(!f.enabled && f.value.is_empty());
    let f = cdn_feature("https://c.pl/");
    assert!(f.enabled && f.value == "https://c.pl");
    assert!(!cdn_feature("/").enabled);
    assert_eq!(limits_feature(2000, 4000), 2000);
    assert_eq!(limits_feature(5000, 4000), 4000);
    let l = legal_links(&settings());
    assert_eq!(l.terms_of_service, "https://klovy.chat/docs/Terms-of-Use-Klovy-Chat.pdf");
    assert_eq!(l.privacy_policy, "https://klovy.chat/docs/Privacy-Policy-Klovy-Chat.pdf");
    assert_eq!(l.guidelines, "https://klovy.chat/docs/Community-Guidelines-Klovy-Chat.pdf");
    let b = build_info(&settings(), None, Some("t"));
    assert_eq!((b.commit_sha.as_str(), b.commit_timestamp.as_str()), ("unknown", "t"));
    assert_eq!(b.origin_url, "https://github.com/KlovyChat");
    let s = Settings { commit_sha: Some("abc"), git_origin_url: Some("o"), ..settings() };
    let b = build_info(&s, Some("x"), None);
    assert_eq!((b.commit_sha.as_str(), b.commit_timestamp.as_str(), b.origin_url.as_str()), ("abc", "unknown", "o"));
}

#[test]
fn voice_nodes_are_read() {
    let nodes = "[{\"name\":\"a\",\"public_url\":\"wss://a\"},{\"name\":\"b\"},{\"name\":\"c\",\"url\":\"wss://c\"},{\"name\":\"d\",\"public_url\":1,\"url\":\"x\"}]";
    match livekit_nodes_from_env(Some(nodes)) {
        Some(v) => {
            assert_eq!(v.len(), 2);
            assert_eq!((v[0].name.as_str(), v[0].public_url.as_str(), v[0].place), ("a", "wss://a", Some(0)));
            assert_eq!((v[1].name.as_str(), v[1].public_url.as_str(), v[1].place), ("c", "wss://c", Some(2)));
        }
        None => panic!("no nodes"),
    }
    assert!(livekit_nodes_from_env(Some("[]")).is_none());
    assert!(livekit_nodes_from_env(Some("{}")).is_none());
    assert!(livekit_nodes_from_env(Some("x")).is_none());
    assert!(livekit_nodes_from_env(None).is_none());
    assert!(show_node(RawNode { name: some("n"), public_url: None }, 3).is_none());
    let f = livekit_feature(&Settings { livekit_nodes: Some(nodes), ..settings() });
    assert!(f.enabled && f.nodes.len() == 2);
    let s = Settings {
        livekit_url: Some("https://v.pl/"),
        livekit_api_key: Some("k"),
        livekit_api_secret: Some("s"),
        ..settings()
    };
    let f = livekit_feature(&s);
    assert!(f.enabled && f.nodes.len() == 1);
    assert_eq!((f.nodes[0].name.as_str(), f.nodes[0].public_url.as_str()), ("default", "wss://v.pl"));
    let f = single_livekit_feature(&Settings { livekit_api_key: None, livekit_node_name: Some("w"), ..s });
    assert!(!f.enabled);
    assert_eq!(f.nodes[0].name, "w");
    assert!(single_livekit_feature(&settings()).nodes.is_empty());
}
