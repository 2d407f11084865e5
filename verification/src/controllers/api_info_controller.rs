//! What the server tells every client about itself.

use vstd::prelude::*;

use crate::json;
use crate::json::{as_text, items, member, parse, text_member};
use crate::text;

verus! {

/// The setting that a variable gives: nothing where it is blank.
pub open spec fn setting(value: Option<&str>) -> Option<Seq<char>> {
    if value is Some && text::trimmed(value->0@).len() > 0 {
        Some(text::trimmed(value->0@))
    } else {
        None
    }
}

/// Reads the setting that a variable gives.
pub fn env_nonempty(value: Option<&str>) -> (r: Option<String>)
    ensures
        text::opt(r) == setting(value),
{
    match value {
        None => None,
        Some(v) => {
            let t = text::trim(v);
            if t.as_str().is_empty() {
                None
            } else {
                Some(t)
            }
        },
    }
}

/// The first of two settings that is there.
pub open spec fn either(a: Option<&str>, b: Option<&str>) -> Option<Seq<char>> {
    if setting(a) is Some {
        setting(a)
    } else {
        setting(b)
    }
}

fn read_either(a: Option<&str>, b: Option<&str>) -> (r: Option<String>)
    ensures
        text::opt(r) == either(a, b),
{
    match env_nonempty(a) {
        Some(s) => Some(s),
        None => env_nonempty(b),
    }
}

/// An address without spaces around it and slashes at its end.
pub open spec fn bare_url(url: Seq<char>) -> Seq<char> {
    text::trim_end_of(text::trimmed(url), '/')
}

/// Writes an address without spaces around it and slashes at its end.
pub fn trim_trailing_slash(url: &str) -> (r: String)
    ensures
        r@ == bare_url(url@),
{
    text::trim_end_char(text::trim(url).as_str(), '/')
}

/// The socket address that belongs to an address.
pub open spec fn socket_url(url: Seq<char>) -> Seq<char> {
    let bare = bare_url(url);
    if text::without_prefix(bare, "https://"@) is Some {
        "wss://"@ + text::without_prefix(bare, "https://"@)->0
    } else if text::without_prefix(bare, "http://"@) is Some {
        "ws://"@ + text::without_prefix(bare, "http://"@)->0
    } else {
        bare
    }
}

/// Writes the socket address that belongs to an address.
pub fn http_to_ws(url: &str) -> (r: String)
    ensures
        r@ == socket_url(url@),
{
    let bare = trim_trailing_slash(url);
    if let Some(rest) = text::strip_prefix(bare.as_str(), "https://") {
        return text::join2("wss://", rest.as_str());
    }
    if let Some(rest) = text::strip_prefix(bare.as_str(), "http://") {
        return text::join2("ws://", rest.as_str());
    }
    bare
}

/// A secure address stays secure as that of a socket, and a plain one plain.
pub proof fn law_sockets_are_as_secure_as_addresses(url: Seq<char>, rest: Seq<char>)
    ensures
        bare_url(url) == "https://"@ + rest ==> socket_url(url) == "wss://"@ + rest,
        bare_url(url) == "http://"@ + rest ==> socket_url(url) == "ws://"@ + rest,
{
    reveal_strlit("https://");
    reveal_strlit("http://");
    let bare = bare_url(url);
    if bare == "https://"@ + rest {
        assert(bare.subrange(0, "https://"@.len() as int) =~= "https://"@);
        assert(bare.skip("https://"@.len() as int) =~= rest);
    }
    if bare == "http://"@ + rest {
        assert(bare.subrange(0, "http://"@.len() as int) =~= "http://"@);
        assert(bare.skip("http://"@.len() as int) =~= rest);
        assert(bare[4] == ':');
        assert("https://"@[4] == 's');
        if text::begins_with(bare, "https://"@) {
            assert(bare.subrange(0, 8)[4] == bare[4]);
        }
    }
}

/// The settings that the description of the server rests on, as the environment gives them.
pub struct Settings<'a> {
    pub production: bool,
    pub public_api_url: Option<&'a str>,
    pub api_public_url: Option<&'a str>,
    pub port: Option<&'a str>,
    pub public_ws_url: Option<&'a str>,
    pub frontend_url: Option<&'a str>,
    pub public_app_url: Option<&'a str>,
    pub turnstile_site_key: Option<&'a str>,
    pub livekit_nodes: Option<&'a str>,
    pub livekit_url: Option<&'a str>,
    pub livekit_api_key: Option<&'a str>,
    pub livekit_api_secret: Option<&'a str>,
    pub livekit_node_name: Option<&'a str>,
    pub public_website_url: Option<&'a str>,
    pub git_commit_sha: Option<&'a str>,
    pub commit_sha: Option<&'a str>,
    pub git_commit_timestamp: Option<&'a str>,
    pub git_origin_url: Option<&'a str>,
}

/// The address that clients reach the server at.
pub open spec fn api_base(s: Settings) -> Seq<char> {
    if either(s.public_api_url, s.api_public_url) is Some {
        bare_url(either(s.public_api_url, s.api_public_url)->0)
    } else if s.production {
        "https://api.klovy.chat"@
    } else {
        "http://127.0.0.1:"@ + match setting(s.port) {
            Some(p) => p,
            None => "6700"@,
        }
    }
}

/// Finds the address that clients reach the server at.
pub fn public_api_base(s: &Settings) -> (r: String)
    ensures
        r@ == api_base(*s),
{
    match read_either(s.public_api_url, s.api_public_url) {
        Some(u) => trim_trailing_slash(u.as_str()),
        None => if s.production {
            "https://api.klovy.chat".to_owned()
        } else {
            match env_nonempty(s.port) {
                Some(p) => text::join2("http://127.0.0.1:", p.as_str()),
                None => text::join2("http://127.0.0.1:", "6700"),
            }
        },
    }
}

/// The address of the socket.
pub open spec fn ws_url(s: Settings) -> Seq<char> {
    match setting(s.public_ws_url) {
        Some(w) => bare_url(w),
        None => socket_url(api_base(s)) + "/ws"@,
    }
}

/// Finds the address of the socket.
pub fn public_ws_url(s: &Settings) -> (r: String)
    ensures
        r@ == ws_url(*s),
{
    match env_nonempty(s.public_ws_url) {
        Some(w) => trim_trailing_slash(w.as_str()),
        None => text::join2(http_to_ws(public_api_base(s).as_str()).as_str(), "/ws"),
    }
}

/// The address of the web client: the first of those configured.
pub open spec fn app_url(s: Settings) -> Seq<char> {
    let configured = either(s.frontend_url, s.public_app_url);
    let first = bare_url(text::trimmed(text::split(configured->0, ',')[0]));
    if configured is Some && first.len() > 0 {
        first
    } else if s.production {
        "https://app.klovy.chat"@
    } else {
        "http://127.0.0.1:5173"@
    }
}

/// Finds the address of the web client.
pub fn public_app_url(s: &Settings) -> (r: String)
    ensures
        r@ == app_url(*s),
{
    if let Some(all) = read_either(s.frontend_url, s.public_app_url) {
        let parts = text::split_on(all.as_str(), ',');
        if parts.len() > 0 {
            assert(text::texts(parts@)[0] == parts@[0]@);
            let first = trim_trailing_slash(text::trim(parts[0].as_str()).as_str());
            if !first.as_str().is_empty() {
                return first;
            }
        } else {
            assert(text::texts(parts@).len() == 0);
        }
    }
    if s.production {
        "https://app.klovy.chat".to_owned()
    } else {
        "http://127.0.0.1:5173".to_owned()
    }
}

/// What is configured is shown, without a slash at its end; else the public addresses in production and
/// the local ones in development. The address of the socket follows from that of the interface.
pub proof fn law_configured_addresses_are_shown(
    s: Settings,
)
    ensures
        ({
            let api = if setting(s.public_api_url) is Some {
                setting(s.public_api_url)
            } else {
                setting(s.api_public_url)
            };
            &&& api is Some ==> api_base(s) == text::trim_end_of(text::trimmed(api->0), '/')
            &&& api is None && s.production ==> api_base(s) == "https://api.klovy.chat"@
            &&& api is None && !s.production && setting(s.port) is None ==> api_base(s)
                == "http://127.0.0.1:"@ + "6700"@
            &&& api is None && !s.production && setting(s.port) is Some ==> api_base(s)
                == "http://127.0.0.1:"@ + setting(s.port)->0
            &&& setting(s.public_ws_url) is None ==> ws_url(s) == socket_url(api_base(s)) + "/ws"@
            &&& setting(s.public_ws_url) is Some ==> ws_url(s) == text::trim_end_of(
                text::trimmed(setting(s.public_ws_url)->0),
                '/',
            )
            &&& setting(s.frontend_url) is None && setting(s.public_app_url) is None ==> app_url(s) == (
            if s.production {
                "https://app.klovy.chat"@
            } else {
                "http://127.0.0.1:5173"@
            })
        }),
{
}

/// A service that may be off, with its key or address.
pub struct Feature {
    pub enabled: bool,
    pub value: String,
}

/// Tells whether requests are guarded against robots, and with which key.
pub fn captcha_feature(s: &Settings) -> (r: Feature)
    ensures
        r.enabled == (setting(s.turnstile_site_key) is Some),
        r.value@ == (match setting(s.turnstile_site_key) {
            Some(k) => k,
            None => Seq::empty(),
        }),
{
    match env_nonempty(s.turnstile_site_key) {
        Some(k) => Feature { enabled: true, value: k },
        None => Feature { enabled: false, value: String::new() },
    }
}

/// Tells where stored files are served from; `base` is the configured address.
pub fn cdn_feature(base: &str) -> (r: Feature)
    ensures
        r.value@ == bare_url(base@),
        r.enabled == (bare_url(base@).len() > 0),
{
    let url = trim_trailing_slash(base);
    Feature { enabled: !url.as_str().is_empty(), value: url }
}

/// What is read of a node of the voice service.
pub struct RawNode {
    pub name: Option<String>,
    pub public_url: Option<String>,
}

/// A node of the voice service, with its place in the configured list.
pub struct LivekitNode {
    pub name: String,
    pub public_url: String,
    pub place: Option<usize>,
}

/// The texts of a node.
pub struct NodeView {
    pub name: Seq<char>,
    pub public_url: Seq<char>,
    pub place: Option<usize>,
}

impl View for LivekitNode {
    type V = NodeView;

    open spec fn view(&self) -> NodeView {
        NodeView { name: self.name@, public_url: self.public_url@, place: self.place }
    }
}

/// The views of nodes.
pub open spec fn node_views(s: Seq<LivekitNode>) -> Seq<NodeView> {
    s.map_values(|n: LivekitNode| n@)
}

/// The text of the address of a node in a document: `public_url` counts before `url`.
pub open spec fn picked_url(j: json::Json) -> Option<Seq<char>> {
    if json::member_of(j, "public_url"@) is Some {
        json::text_of(json::member_of(j, "public_url"@)->0)
    } else {
        json::text_member_of(j, "url"@)
    }
}

/// Reads a node in a document.
pub fn pick_node(v: &serde_json::Value) -> (r: RawNode)
    ensures
        text::opt(r.name) == json::text_member_of(json::content(*v), "name"@),
        text::opt(r.public_url) == picked_url(json::content(*v)),
{
    let public_url = match member(v, "public_url") {
        Some(m) => match as_text(m) {
            Some(s) => Some(s.to_owned()),
            None => None,
        },
        None => text_member(v, "url"),
    };
    RawNode { name: text_member(v, "name"), public_url }
}

/// A node as clients get it; none where it lacks a name or an address.
pub open spec fn shown_node(name: Option<Seq<char>>, url: Option<Seq<char>>, place: usize) -> Option<
    NodeView,
> {
    if name is Some && url is Some {
        Some(NodeView { name: name->0, public_url: url->0, place: Some(place) })
    } else {
        None
    }
}

/// The view of a node that may be missing.
pub open spec fn opt_node(n: Option<LivekitNode>) -> Option<NodeView> {
    match n {
        None => None,
        Some(n) => Some(n@),
    }
}

/// Makes the node that clients get.
pub fn show_node(raw: RawNode, place: usize) -> (r: Option<LivekitNode>)
    ensures
        opt_node(r) == shown_node(text::opt(raw.name), text::opt(raw.public_url), place),
{
    match (raw.name, raw.public_url) {
        (Some(name), Some(public_url)) => Some(
            LivekitNode { name, public_url, place: Some(place) },
        ),
        _ => None,
    }
}

/// The nodes of a list that can be shown, in order.
pub open spec fn all_nodes(list: Seq<json::Json>) -> Seq<NodeView>
    decreases list.len(),
{
    if list.len() == 0 {
        Seq::empty()
    } else {
        let last = list.last();
        match shown_node(
            json::text_member_of(last, "name"@),
            picked_url(last),
            (list.len() - 1) as usize,
        ) {
            Some(n) => all_nodes(list.drop_last()).push(n),
            None => all_nodes(list.drop_last()),
        }
    }
}

/// The nodes that a setting lists; none where it is missing, is no list, or lists none that can
/// be shown.
pub open spec fn configured_nodes(raw: Option<&str>) -> Option<Seq<NodeView>> {
    match setting(raw) {
        None => None,
        Some(s) => match json::document(s) {
            Some(json::Json::List(l)) => if all_nodes(l).len() == 0 {
                None
            } else {
                Some(all_nodes(l))
            },
            _ => None,
        },
    }
}

/// Makes the nodes of a list that clients get.
pub fn show_nodes(list: &Vec<serde_json::Value>) -> (r: Vec<LivekitNode>)
    ensures
        node_views(r@) == all_nodes(json::contents(list@)),
{
    let ghost all = json::contents(list@);
    let mut out: Vec<LivekitNode> = Vec::new();
    let mut i: usize = 0;
    assert(all.take(0) =~= Seq::empty());
    assert(node_views(out@) =~= Seq::empty());
    while i < list.len()
        invariant
            i <= list.len(),
            all == json::contents(list@),
            node_views(out@) == all_nodes(all.take(i as int)),
        decreases list.len() - i,
    {
        assert(all.take(i + 1).drop_last() =~= all.take(i as int));
        assert(all.take(i + 1).last() == json::content(list@[i as int]));
        if let Some(n) = show_node(pick_node(&list[i]), i) {
            let ghost before = out@;
            out.push(n);
            assert(node_views(out@) =~= node_views(before).push(n@));
        }
        i += 1;
    }
    assert(all.take(i as int) =~= all);
    out
}

/// The views of nodes that may be missing.
pub open spec fn opt_nodes(n: Option<Vec<LivekitNode>>) -> Option<Seq<NodeView>> {
    match n {
        None => None,
        Some(v) => Some(node_views(v@)),
    }
}

/// Reads the nodes that a setting lists.
pub fn livekit_nodes_from_env(raw: Option<&str>) -> (r: Option<Vec<LivekitNode>>)
    ensures
        opt_nodes(r) == configured_nodes(raw),
{
    let raw = match env_nonempty(raw) {
        None => return None,
        Some(s) => s,
    };
    let parsed = match parse(raw.as_str()) {
        None => return None,
        Some(v) => v,
    };
    let list = match items(&parsed) {
        None => return None,
        Some(l) => l,
    };
    let nodes = show_nodes(list);
    assert(node_views(nodes@).len() == nodes@.len());
    if nodes.len() == 0 {
        None
    } else {
        Some(nodes)
    }
}

/// What clients are told of the voice service.
pub struct LivekitFeature {
    pub enabled: bool,
    pub nodes: Vec<LivekitNode>,
}

/// The single node that the address of the voice service gives.
pub open spec fn single_node(s: Settings) -> Seq<NodeView> {
    match setting(s.livekit_url) {
        None => Seq::empty(),
        Some(u) => seq![
            NodeView {
                name: match setting(s.livekit_node_name) {
                    Some(n) => n,
                    None => "default"@,
                },
                public_url: socket_url(u),
                place: None,
            },
        ],
    }
}

/// Tells about the voice service where no nodes are listed: it is on where an address, a key and
/// a secret are configured.
pub fn single_livekit_feature(s: &Settings) -> (r: LivekitFeature)
    ensures
        r.enabled == (setting(s.livekit_url) is Some && setting(s.livekit_api_key) is Some
            && setting(s.livekit_api_secret) is Some),
        node_views(r.nodes@) == single_node(*s),
{
    let url = env_nonempty(s.livekit_url);
    let enabled = url.is_some() && env_nonempty(s.livekit_api_key).is_some() && env_nonempty(
        s.livekit_api_secret,
    ).is_some();
    let mut nodes: Vec<LivekitNode> = Vec::new();
    assert(node_views(nodes@) =~= Seq::empty());
    if let Some(u) = url {
        let name = match env_nonempty(s.livekit_node_name) {
            Some(n) => n,
            None => "default".to_owned(),
        };
        nodes.push(LivekitNode { name, public_url: http_to_ws(u.as_str()), place: None });
        assert(node_views(nodes@) =~= single_node(*s));
    }
    LivekitFeature { enabled, nodes }
}

/// Tells about the voice service.
pub fn livekit_feature(s: &Settings) -> (r: LivekitFeature)
    ensures
        match configured_nodes(s.livekit_nodes) {
            Some(nodes) => r.enabled && node_views(r.nodes@) == nodes,
            None => r.enabled == (setting(s.livekit_url) is Some && setting(s.livekit_api_key)
                is Some && setting(s.livekit_api_secret) is Some) && node_views(r.nodes@)
                == single_node(*s),
        },
{
    match livekit_nodes_from_env(s.livekit_nodes) {
        Some(nodes) => LivekitFeature { enabled: true, nodes },
        None => single_livekit_feature(s),
    }
}

/// The longest message that clients may send: the smaller of the two limits that hold for it.
pub fn limits_feature(max_content: usize, max_chars: usize) -> (r: u64)
    ensures
        r == (if max_content <= max_chars {
            max_content
        } else {
            max_chars
        }),
{
    if max_content <= max_chars {
        max_content as u64
    } else {
        max_chars as u64
    }
}

/// Where the legal documents are.
pub struct LegalLinks {
    pub terms_of_service: String,
    pub privacy_policy: String,
    pub guidelines: String,
}

/// The address of the website.
pub open spec fn website(s: Settings) -> Seq<char> {
    match setting(s.public_website_url) {
        Some(u) => bare_url(u),
        None => "https://klovy.chat"@,
    }
}

/// Finds where the legal documents are.
pub fn legal_links(s: &Settings) -> (r: LegalLinks)
    ensures
        r.terms_of_service@ == website(*s) + "/docs/Terms-of-Use-Klovy-Chat.pdf"@,
        r.privacy_policy@ == website(*s) + "/docs/Privacy-Policy-Klovy-Chat.pdf"@,
        r.guidelines@ == website(*s) + "/docs/Community-Guidelines-Klovy-Chat.pdf"@,
{
    let site = match env_nonempty(s.public_website_url) {
        Some(u) => trim_trailing_slash(u.as_str()),
        None => "https://klovy.chat".to_owned(),
    };
    LegalLinks {
        terms_of_service: text::join2(site.as_str(), "/docs/Terms-of-Use-Klovy-Chat.pdf"),
        privacy_policy: text::join2(site.as_str(), "/docs/Privacy-Policy-Klovy-Chat.pdf"),
        guidelines: text::join2(site.as_str(), "/docs/Community-Guidelines-Klovy-Chat.pdf"),
    }
}

/// Every configured voice node with a name and an address is listed, in order and by its place, and no
/// other; a single node is listed where only its address is configured.
pub proof fn law_named_nodes_are_listed(list: Seq<json::Json>, more: json::Json)
    requires
        list.len() <= usize::MAX,
    ensures
        ({
            let name = json::text_member_of(more, "name"@);
            let public = json::member_of(more, "public_url"@);
            let url = if public is Some {
                json::text_of(public->0)
            } else {
                json::text_member_of(more, "url"@)
            };
            &&& name is Some && url is Some ==> all_nodes(list.push(more)) == all_nodes(list).push(
                NodeView { name: name->0, public_url: url->0, place: Some(list.len() as usize) },
            )
            &&& name is None || url is None ==> all_nodes(list.push(more)) == all_nodes(list)
            &&& all_nodes(Seq::empty()).len() == 0
        }),
{
    assert(list.push(more).drop_last() =~= list);
}

/// Where only the address of a voice node is configured, one node is listed, under the configured name or
/// `default`.
pub proof fn law_single_node_is_listed(s: Settings)
    ensures
        setting(s.livekit_url) is None ==> single_node(s).len() == 0,
        setting(s.livekit_url) is Some ==> single_node(s).len() == 1 && single_node(s)[0].public_url
            == socket_url(setting(s.livekit_url)->0) && single_node(s)[0].place is None,
        setting(s.livekit_url) is Some && setting(s.livekit_node_name) is Some ==> single_node(s)[0].name
            == setting(s.livekit_node_name)->0,
        setting(s.livekit_url) is Some && setting(s.livekit_node_name) is None ==> single_node(s)[0].name
            == "default"@,
        setting(s.public_website_url) is Some ==> website(s) == bare_url(
            setting(s.public_website_url)->0,
        ),
{
}

/// Which build of the server runs.
pub struct BuildInfo {
    pub commit_sha: String,
    pub commit_timestamp: String,
    pub origin_url: String,
}

/// A setting, else what was known when the server was built, else the word for what is unknown.
pub open spec fn known(found: Option<Seq<char>>, built: Option<&str>) -> Seq<char> {
    match found {
        Some(s) => s,
        None => match built {
            Some(b) => b@,
            None => "unknown"@,
        },
    }
}

fn read_known(found: Option<String>, built: Option<&str>) -> (r: String)
    ensures
        r@ == known(text::opt(found), built),
{
    match found {
        Some(s) => s,
        None => match built {
            Some(b) => b.to_owned(),
            None => "unknown".to_owned(),
        },
    }
}

/// Tells which build of the server runs; `built_sha` and `built_timestamp` are what was known
/// when it was built.
pub fn build_info(s: &Settings, built_sha: Option<&str>, built_timestamp: Option<&str>) -> (r:
    BuildInfo)
    ensures
        r.commit_sha@ == known(either(s.git_commit_sha, s.commit_sha), built_sha),
        r.commit_timestamp@ == known(setting(s.git_commit_timestamp), built_timestamp),
        r.origin_url@ == (match setting(s.git_origin_url) {
            Some(u) => u,
            None => "https://github.com/KlovyChat"@,
        }),
{
    BuildInfo {
        commit_sha: read_known(read_either(s.git_commit_sha, s.commit_sha), built_sha),
        commit_timestamp: read_known(env_nonempty(s.git_commit_timestamp), built_timestamp),
        origin_url: match env_nonempty(s.git_origin_url) {
            Some(u) => u,
            None => "https://github.com/KlovyChat".to_owned(),
        },
    }
}

} // verus!
