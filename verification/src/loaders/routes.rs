//! Which handlers stand where, and what stands before them.

use vstd::prelude::*;

verus! {

/// How often handlers may be called.
#[derive(Clone, Copy, Debug, PartialEq, Eq, Structural)]
pub enum Limit {
    Unlimited,
    /// As often as one may try to log in.
    Auth,
    /// As often as one may send.
    Send,
}

/// The handlers that stand under a path.
#[derive(Clone, Copy, Debug, PartialEq, Eq, Structural)]
pub enum Routes {
    /// The public description of the server, and nothing below the path.
    Info,
    Auth,
    Admin,
    Whitelist,
    Channels,
    Contacts,
    Messages,
    E2e,
    Friends,
    Gifs,
    Stickers,
    Emojis,
    Voice,
    Users,
    Status,
    Security,
    Integrations,
    Invites,
}

/// Handlers under a path, and what stands before them.
#[derive(Clone, Copy, Debug, PartialEq, Eq)]
pub struct Scope {
    pub path: &'static str,
    pub limit: Limit,
    /// Whether only approved users pass, where approval is on.
    pub needs_approval: bool,
    pub routes: Routes,
}

/// All handlers, in the order in which they are looked for.
pub open spec fn all_scopes() -> Seq<Scope> {
    seq![
        Scope { path: "/", limit: Limit::Unlimited, needs_approval: false, routes: Routes::Info },
        Scope { path: "/api", limit: Limit::Unlimited, needs_approval: false, routes: Routes::Info },
        Scope { path: "/api/auth", limit: Limit::Auth, needs_approval: false, routes: Routes::Auth },
        Scope { path: "/api/admin", limit: Limit::Unlimited, needs_approval: false, routes: Routes::Admin },
        Scope { path: "/api/admins", limit: Limit::Unlimited, needs_approval: false, routes: Routes::Admin },
        Scope { path: "/whitelist", limit: Limit::Auth, needs_approval: false, routes: Routes::Whitelist },
        Scope { path: "/api/whitelist", limit: Limit::Auth, needs_approval: false, routes: Routes::Whitelist },
        Scope { path: "/api/channel", limit: Limit::Send, needs_approval: true, routes: Routes::Channels },
        Scope { path: "/api/channels", limit: Limit::Send, needs_approval: true, routes: Routes::Channels },
        Scope { path: "/api/contacts", limit: Limit::Unlimited, needs_approval: true, routes: Routes::Contacts },
        Scope { path: "/api/contact", limit: Limit::Unlimited, needs_approval: true, routes: Routes::Contacts },
        Scope { path: "/api/messages", limit: Limit::Send, needs_approval: true, routes: Routes::Messages },
        Scope { path: "/api/message", limit: Limit::Send, needs_approval: true, routes: Routes::Messages },
        Scope { path: "/api/e2e", limit: Limit::Unlimited, needs_approval: true, routes: Routes::E2e },
        Scope { path: "/api/friends", limit: Limit::Unlimited, needs_approval: true, routes: Routes::Friends },
        Scope { path: "/api/friend", limit: Limit::Unlimited, needs_approval: true, routes: Routes::Friends },
        Scope { path: "/api/gifs", limit: Limit::Send, needs_approval: true, routes: Routes::Gifs },
        Scope { path: "/api/gif", limit: Limit::Send, needs_approval: true, routes: Routes::Gifs },
        Scope { path: "/api/stickers", limit: Limit::Send, needs_approval: true, routes: Routes::Stickers },
        Scope { path: "/api/emojis", limit: Limit::Unlimited, needs_approval: true, routes: Routes::Emojis },
        Scope { path: "/api/emoji", limit: Limit::Unlimited, needs_approval: true, routes: Routes::Emojis },
        Scope { path: "/api/voice", limit: Limit::Send, needs_approval: true, routes: Routes::Voice },
        Scope { path: "/api/voices", limit: Limit::Send, needs_approval: true, routes: Routes::Voice },
        Scope { path: "/api/user", limit: Limit::Unlimited, needs_approval: true, routes: Routes::Users },
        Scope { path: "/api/users", limit: Limit::Unlimited, needs_approval: true, routes: Routes::Users },
        Scope { path: "/api/user/status", limit: Limit::Unlimited, needs_approval: true, routes: Routes::Status },
        Scope { path: "/api/status", limit: Limit::Unlimited, needs_approval: true, routes: Routes::Status },
        Scope { path: "/api/security", limit: Limit::Auth, needs_approval: false, routes: Routes::Security },
        Scope { path: "/api/integrations", limit: Limit::Unlimited, needs_approval: true, routes: Routes::Integrations },
        Scope { path: "/api/invite", limit: Limit::Unlimited, needs_approval: true, routes: Routes::Invites },
        Scope { path: "/api/invites", limit: Limit::Unlimited, needs_approval: true, routes: Routes::Invites },
    ]
}

/// Lists all handlers, in the order in which they are looked for.
pub fn scopes() -> (r: Vec<Scope>)
    ensures
        r@ == all_scopes(),
{
    let r: Vec<Scope> = vec![
        Scope { path: "/", limit: Limit::Unlimited, needs_approval: false, routes: Routes::Info },
        Scope { path: "/api", limit: Limit::Unlimited, needs_approval: false, routes: Routes::Info },
        Scope { path: "/api/auth", limit: Limit::Auth, needs_approval: false, routes: Routes::Auth },
        Scope { path: "/api/admin", limit: Limit::Unlimited, needs_approval: false, routes: Routes::Admin },
        Scope { path: "/api/admins", limit: Limit::Unlimited, needs_approval: false, routes: Routes::Admin },
        Scope { path: "/whitelist", limit: Limit::Auth, needs_approval: false, routes: Routes::Whitelist },
        Scope { path: "/api/whitelist", limit: Limit::Auth, needs_approval: false, routes: Routes::Whitelist },
        Scope { path: "/api/channel", limit: Limit::Send, needs_approval: true, routes: Routes::Channels },
        Scope { path: "/api/channels", limit: Limit::Send, needs_approval: true, routes: Routes::Channels },
        Scope { path: "/api/contacts", limit: Limit::Unlimited, needs_approval: true, routes: Routes::Contacts },
        Scope { path: "/api/contact", limit: Limit::Unlimited, needs_approval: true, routes: Routes::Contacts },
        Scope { path: "/api/messages", limit: Limit::Send, needs_approval: true, routes: Routes::Messages },
        Scope { path: "/api/message", limit: Limit::Send, needs_approval: true, routes: Routes::Messages },
        Scope { path: "/api/e2e", limit: Limit::Unlimited, needs_approval: true, routes: Routes::E2e },
        Scope { path: "/api/friends", limit: Limit::Unlimited, needs_approval: true, routes: Routes::Friends },
        Scope { path: "/api/friend", limit: Limit::Unlimited, needs_approval: true, routes: Routes::Friends },
        Scope { path: "/api/gifs", limit: Limit::Send, needs_approval: true, routes: Routes::Gifs },
        Scope { path: "/api/gif", limit: Limit::Send, needs_approval: true, routes: Routes::Gifs },
        Scope { path: "/api/stickers", limit: Limit::Send, needs_approval: true, routes: Routes::Stickers },
        Scope { path: "/api/emojis", limit: Limit::Unlimited, needs_approval: true, routes: Routes::Emojis },
        Scope { path: "/api/emoji", limit: Limit::Unlimited, needs_approval: true, routes: Routes::Emojis },
        Scope { path: "/api/voice", limit: Limit::Send, needs_approval: true, routes: Routes::Voice },
        Scope { path: "/api/voices", limit: Limit::Send, needs_approval: true, routes: Routes::Voice },
        Scope { path: "/api/user", limit: Limit::Unlimited, needs_approval: true, routes: Routes::Users },
        Scope { path: "/api/users", limit: Limit::Unlimited, needs_approval: true, routes: Routes::Users },
        Scope { path: "/api/user/status", limit: Limit::Unlimited, needs_approval: true, routes: Routes::Status },
        Scope { path: "/api/status", limit: Limit::Unlimited, needs_approval: true, routes: Routes::Status },
        Scope { path: "/api/security", limit: Limit::Auth, needs_approval: false, routes: Routes::Security },
        Scope { path: "/api/integrations", limit: Limit::Unlimited, needs_approval: true, routes: Routes::Integrations },
        Scope { path: "/api/invite", limit: Limit::Unlimited, needs_approval: true, routes: Routes::Invites },
        Scope { path: "/api/invites", limit: Limit::Unlimited, needs_approval: true, routes: Routes::Invites },
    ];
    assert(r@ =~= all_scopes());
    r
}

/// Whether handlers are open to users who are not approved: those that describe the server, and
/// those by which one logs in, asks for approval, administers or reports.
pub open spec fn is_open(routes: Routes) -> bool {
    routes is Info || routes is Auth || routes is Admin || routes is Whitelist || routes is Security
}

/// Approval is asked for before all handlers but the open ones.
pub proof fn law_approval_guards_all_but_the_open(i: int)
    requires
        0 <= i < all_scopes().len(),
    ensures
        all_scopes()[i].needs_approval <==> !is_open(all_scopes()[i].routes),
{
}

/// Whatever is sent to others is limited.
pub proof fn law_sending_is_limited(i: int)
    requires
        0 <= i < all_scopes().len(),
    ensures
        all_scopes()[i].routes is Channels || all_scopes()[i].routes is Messages
            || all_scopes()[i].routes is Voice || all_scopes()[i].routes is Stickers
            || all_scopes()[i].routes is Gifs ==> all_scopes()[i].limit is Send,
{
}

/// What stands before all handlers.
#[derive(Clone, Copy, Debug, PartialEq, Eq, Structural)]
pub enum Layer {
    Compression,
    SecurityHeaders,
    SuspiciousRequests,
    BlockedAddresses,
    SuspiciousActivity,
    GlobalLimit,
    Origin,
    Csrf,
    OfficialClient,
    SanitizedInput,
    ValidJson,
    InternalProxy,
}

/// What stands before all handlers, in the order in which it is put there.
pub open spec fn all_layers() -> Seq<Layer> {
    seq![
        Layer::Compression,
        Layer::SecurityHeaders,
        Layer::SuspiciousRequests,
        Layer::BlockedAddresses,
        Layer::SuspiciousActivity,
        Layer::GlobalLimit,
        Layer::Origin,
        Layer::Csrf,
        Layer::OfficialClient,
        Layer::SanitizedInput,
        Layer::ValidJson,
        Layer::InternalProxy,
    ]
}

/// Lists what stands before all handlers. The last of the list meets a request first.
pub fn layers() -> (r: Vec<Layer>)
    ensures
        r@ == all_layers(),
{
    let r: Vec<Layer> = vec![
        Layer::Compression,
        Layer::SecurityHeaders,
        Layer::SuspiciousRequests,
        Layer::BlockedAddresses,
        Layer::SuspiciousActivity,
        Layer::GlobalLimit,
        Layer::Origin,
        Layer::Csrf,
        Layer::OfficialClient,
        Layer::SanitizedInput,
        Layer::ValidJson,
        Layer::InternalProxy,
    ];
    assert(r@ =~= all_layers());
    r
}

/// Whether a request meets `a` before it meets `b`, where it passes `a`.
pub open spec fn meets_first(a: Layer, b: Layer) -> bool {
    exists|i: int, j: int|
        0 <= j < i < all_layers().len() && #[trigger] all_layers()[i] == a
            && #[trigger] all_layers()[j] == b
}

/// A request of another client is refused before its tokens are compared and its origin is looked
/// at, and only what came through the public server gets as far as that.
pub proof fn law_other_clients_are_refused_first()
    ensures
        meets_first(Layer::OfficialClient, Layer::Csrf),
        meets_first(Layer::OfficialClient, Layer::Origin),
        meets_first(Layer::InternalProxy, Layer::OfficialClient),
{
    let l = all_layers();
    assert(l[6] == Layer::Origin && l[7] == Layer::Csrf && l[8] == Layer::OfficialClient && l[11]
        == Layer::InternalProxy);
}

/// The description of the server stands at two paths, for everyone.
pub proof fn law_description_is_public(i: int)
    requires
        0 <= i < all_scopes().len(),
    ensures
        all_scopes()[i].routes is Info <==> i < 2,
        all_scopes()[0].path == "/",
        all_scopes()[1].path == "/api",
        all_scopes()[i].routes is Info ==> all_scopes()[i].limit is Unlimited
            && !all_scopes()[i].needs_approval,
{
}

} // verus!
