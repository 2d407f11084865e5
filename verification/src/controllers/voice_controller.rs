//! Voice calls between friends.

use vstd::prelude::*;

use crate::reply::{Quota, Refusal, coded, message};
use crate::text;

verus! {

/// How long a token for a call is valid, in seconds.
pub const TOKEN_TTL_SECS: i64 = 180;

/// The user to be called.
pub struct VoiceTokenBody {
    pub peer_id: Option<String>,
}

/// The name of the room of two users: the same whichever of them is named first.
pub open spec fn room_name(a: Seq<char>, b: Seq<char>) -> Seq<char> {
    if text::precedes(b, a) {
        "dm_"@ + b + "_"@ + a
    } else {
        "dm_"@ + a + "_"@ + b
    }
}

/// Names the room of two users.
pub fn build_dm_room_name(user_a: &str, user_b: &str) -> (r: String)
    ensures
        r@ == room_name(user_a@, user_b@),
{
    let mut s = "dm_".to_owned();
    if text::sorts_before(user_b, user_a) {
        s.append(user_b);
        s.append("_");
        s.append(user_a);
    } else {
        s.append(user_a);
        s.append("_");
        s.append(user_b);
    }
    s
}

/// Two users share one room, whoever calls.
pub proof fn law_room_is_symmetric(a: Seq<char>, b: Seq<char>)
    ensures
        room_name(a, b) == room_name(b, a),
{
    text::law_order_is_total(a, b);
}

proof fn lemma_parts_of_room(x: Seq<char>, y: Seq<char>, v: Seq<char>, w: Seq<char>)
    requires
        !x.contains('_'),
        !v.contains('_'),
        "dm_"@ + x + "_"@ + y == "dm_"@ + v + "_"@ + w,
    ensures
        x == v,
        y == w,
{
    reveal_strlit("dm_");
    reveal_strlit("_");
    let s = "dm_"@ + x + "_"@ + y;
    let t = "dm_"@ + v + "_"@ + w;
    assert(s.skip(3) =~= x + seq!['_'] + y);
    assert(t.skip(3) =~= v + seq!['_'] + w);
    let p = x + seq!['_'] + y;
    assert(p == v + seq!['_'] + w);
    assert(p[x.len() as int] == '_');
    assert(p[v.len() as int] == '_');
    if x.len() < v.len() {
        assert(v[x.len() as int] == p[x.len() as int]);
        assert(v.contains('_'));
    }
    if v.len() < x.len() {
        assert(x[v.len() as int] == p[v.len() as int]);
        assert(x.contains('_'));
    }
    assert(p.take(x.len() as int) =~= x);
    assert(p.take(x.len() as int) =~= v);
    assert(p.skip(x.len() as int + 1) =~= y);
    assert(p.skip(x.len() as int + 1) =~= w);
}

/// No other two users share the room of two users, as ids hold no `_`.
pub proof fn law_rooms_are_distinct(a: Seq<char>, b: Seq<char>, c: Seq<char>, d: Seq<char>)
    requires
        !a.contains('_'),
        !b.contains('_'),
        !c.contains('_'),
        !d.contains('_'),
        room_name(a, b) == room_name(c, d),
    ensures
        (a == c && b == d) || (a == d && b == c),
{
    let (x, y) = if text::precedes(b, a) {
        (b, a)
    } else {
        (a, b)
    };
    let (v, w) = if text::precedes(d, c) {
        (d, c)
    } else {
        (c, d)
    };
    lemma_parts_of_room(x, y, v, w);
}

/// Why a call cannot be joined.
#[derive(Clone, Copy, Debug, PartialEq, Eq)]
pub enum CallSessionError {
    NotFound,
    InvalidPhase,
    WrongRole,
    InProgress,
}

/// The words for why a call cannot be joined.
#[verifier::allow_in_spec]
pub fn token_denied_message(err: CallSessionError) -> &'static str
    returns
        (match err {
            CallSessionError::NotFound =>
                "Połączenie nie jest aktywne lub wygasło. Zaakceptuj rozmowę przed dołączeniem.",
            CallSessionError::InvalidPhase =>
                "Połączenie nie jest aktywne lub wygasło. Zaakceptuj rozmowę przed dołączeniem.",
            CallSessionError::WrongRole => "Brak uprawnień do dołączenia do tej rozmowy.",
            CallSessionError::InProgress => "Brak uprawnień do dołączenia do tej rozmowy.",
        }),
{
    match err {
        CallSessionError::NotFound =>
            "Połączenie nie jest aktywne lub wygasło. Zaakceptuj rozmowę przed dołączeniem.",
        CallSessionError::InvalidPhase =>
            "Połączenie nie jest aktywne lub wygasło. Zaakceptuj rozmowę przed dołączeniem.",
        CallSessionError::WrongRole => "Brak uprawnień do dołączenia do tej rozmowy.",
        CallSessionError::InProgress => "Brak uprawnień do dołączenia do tej rozmowy.",
    }
}

/// What is known while a token for a call is made.
#[derive(Clone, Copy, Debug)]
pub struct TokenFacts {
    /// Whether the request was within the rate limit.
    pub counted: Option<bool>,
    /// Whether the two are in a call, with the reason where they are not.
    pub session: Option<Result<(), CallSessionError>>,
    /// Whether the voice service is configured.
    pub configured: Option<bool>,
    /// Whether the address of the voice service is an allowed one.
    pub url_allowed: Option<bool>,
    pub friends: Option<bool>,
    /// Whether the token could be signed.
    pub signed: Option<bool>,
}

/// When a token begins to be valid and when it ends, in seconds.
pub struct TokenTimes {
    pub begins: usize,
    pub ends: usize,
}

/// When a token that is made at `now` is valid: for three minutes.
pub fn token_times(now: i64) -> (r: TokenTimes)
    requires
        now + TOKEN_TTL_SECS <= i64::MAX,
    ensures
        r.begins == now as usize,
        r.ends == (now + TOKEN_TTL_SECS) as i64 as usize,
{
    let end: i64 = now + TOKEN_TTL_SECS;
    TokenTimes {
        begins: #[verifier::truncate] (now as usize),
        ends: #[verifier::truncate] (end as usize),
    }
}

/// The id of a token: the session and a mark of its own.
pub fn token_id(session: &str, mark: &str) -> (r: String)
    ensures
        r@ == session@ + ":"@ + mark@,
{
    text::join3(session, ":", mark)
}

/// What a token says besides the user: when it holds, who made it, and for which call.
pub struct Issue {
    /// The key of the voice service.
    pub key: String,
    /// The session of the call.
    pub session: String,
    /// A mark of its own.
    pub mark: String,
    /// The time, in seconds.
    pub now: i64,
}

/// What the bearer of a token may do in a room.
#[derive(Debug, PartialEq, Eq)]
pub struct VideoGrant {
    pub room: String,
    pub room_join: bool,
    pub can_publish: bool,
    pub can_subscribe: bool,
    pub can_publish_data: bool,
}

/// The view of `VideoGrant`.
#[verifier::ext_equal]
pub struct VideoGrantView {
    pub room: Seq<char>,
    pub room_join: bool,
    pub can_publish: bool,
    pub can_subscribe: bool,
    pub can_publish_data: bool,
}

impl View for VideoGrant {
    type V = VideoGrantView;

    open spec fn view(&self) -> VideoGrantView {
        VideoGrantView {
            room: self.room@,
            room_join: self.room_join,
            can_publish: self.can_publish,
            can_subscribe: self.can_subscribe,
            can_publish_data: self.can_publish_data,
        }
    }
}

/// What a token claims.
#[derive(Debug, PartialEq, Eq)]
pub struct LiveKitClaims {
    /// When it ends, in seconds.
    pub exp: usize,
    pub iss: String,
    pub sub: String,
    /// When it begins, in seconds.
    pub nbf: usize,
    pub jti: String,
    pub video: VideoGrant,
}

/// The view of `LiveKitClaims`.
#[verifier::ext_equal]
pub struct LiveKitClaimsView {
    pub exp: usize,
    pub iss: Seq<char>,
    pub sub: Seq<char>,
    pub nbf: usize,
    pub jti: Seq<char>,
    pub video: VideoGrantView,
}

impl View for LiveKitClaims {
    type V = LiveKitClaimsView;

    open spec fn view(&self) -> LiveKitClaimsView {
        LiveKitClaimsView {
            exp: self.exp,
            iss: self.iss@,
            sub: self.sub@,
            nbf: self.nbf,
            jti: self.jti@,
            video: self.video@,
        }
    }
}

/// The claims of a token: for the user, in the room of the two, from now on for three minutes.
pub open spec fn claims(user: Seq<char>, peer: Seq<char>, issue: Issue) -> LiveKitClaimsView {
    LiveKitClaimsView {
        exp: (issue.now + TOKEN_TTL_SECS) as i64 as usize,
        iss: issue.key@,
        sub: user,
        nbf: issue.now as usize,
        jti: issue.session@ + ":"@ + issue.mark@,
        video: (VideoGrantView {
            room: room_name(user, peer),
            room_join: true,
            can_publish: true,
            can_subscribe: true,
            can_publish_data: true,
        }),
    }
}

/// Makes the claims of a token.
pub fn make_claims(user: &str, peer: &str, issue: &Issue) -> (r: LiveKitClaims)
    requires
        issue.now + TOKEN_TTL_SECS <= i64::MAX,
    ensures
        r@ == claims(user@, peer@, *issue),
{
    let times = token_times(issue.now);
    LiveKitClaims {
        exp: times.ends,
        iss: issue.key.clone(),
        sub: user.to_owned(),
        nbf: times.begins,
        jti: token_id(issue.session.as_str(), issue.mark.as_str()),
        video: VideoGrant {
            room: build_dm_room_name(user, peer),
            room_join: true,
            can_publish: true,
            can_subscribe: true,
            can_publish_data: true,
        },
    }
}

/// A token that is made in the years of the epoch begins at once, ends three minutes later, and
/// opens the same room to either of the two, each under their own name.
pub proof fn law_token_holds_for_three_minutes(user: Seq<char>, peer: Seq<char>, issue: Issue)
    requires
        0 <= issue.now,
        issue.now + TOKEN_TTL_SECS <= u32::MAX,
    ensures
        claims(user, peer, issue).nbf == issue.now,
        claims(user, peer, issue).exp == claims(user, peer, issue).nbf + 180,
        claims(user, peer, issue).sub == user,
        claims(user, peer, issue).video == claims(peer, user, issue).video,
{
    law_room_is_symmetric(user, peer);
}

/// What to do next while a token for a call is made.
#[derive(Debug, PartialEq, Eq)]
pub enum TokenStep {
    /// Count one request under the key.
    CountRequest { key: String, quota: Quota },
    /// Ask whether the two are in a call.
    AskSession { user: String, peer: String },
    LoadConfiguration,
    CheckUrl,
    AskFriends { user: String, peer: String },
    SignToken(LiveKitClaims),
    /// Reply with the token, the address of the service and the room.
    Reply { room: String },
    Refuse(Refusal),
}

/// The view of `TokenStep`.
#[verifier::ext_equal]
pub enum TokenStepView {
    CountRequest { key: Seq<char>, quota: Quota },
    AskSession { user: Seq<char>, peer: Seq<char> },
    LoadConfiguration,
    CheckUrl,
    AskFriends { user: Seq<char>, peer: Seq<char> },
    SignToken(LiveKitClaimsView),
    Reply { room: Seq<char> },
    Refuse(Refusal),
}

impl View for TokenStep {
    type V = TokenStepView;

    open spec fn view(&self) -> TokenStepView {
        match self {
            TokenStep::CountRequest { key, quota } => TokenStepView::CountRequest {
                key: key@,
                quota: *quota,
            },
            TokenStep::AskSession { user, peer } => TokenStepView::AskSession {
                user: user@,
                peer: peer@,
            },
            TokenStep::LoadConfiguration => TokenStepView::LoadConfiguration,
            TokenStep::CheckUrl => TokenStepView::CheckUrl,
            TokenStep::AskFriends { user, peer } => TokenStepView::AskFriends {
                user: user@,
                peer: peer@,
            },
            TokenStep::SignToken(a) => TokenStepView::SignToken(a@),
            TokenStep::Reply { room } => TokenStepView::Reply { room: room@ },
            TokenStep::Refuse(a) => TokenStepView::Refuse(*a),
        }
    }
}

/// The key under which the requests of a user are counted.
pub open spec fn token_key(user: Seq<char>) -> Seq<char> {
    "voice-token:"@ + user
}

/// How many requests are let through.
#[verifier::allow_in_spec]
pub fn token_quota() -> Quota
    returns
        (Quota { max: 20, seconds: 60 }),
{
    Quota { max: 20, seconds: 60 }
}

pub open spec fn token_step(
    user: Option<&str>,
    body: VoiceTokenBody,
    issue: Issue,
    f: TokenFacts,
) -> TokenStepView {
    let peer = body.peer_id->0@;
    if user is None {
        TokenStepView::Refuse(message(401, "Not authenticated."))
    } else if f.counted is None {
        TokenStepView::CountRequest { key: token_key(user->0@), quota: token_quota() }
    } else if !f.counted->0 {
        TokenStepView::Refuse(
            message(429, "Zbyt wiele prób dołączenia do rozmowy. Spróbuj za chwilę."),
        )
    } else if body.peer_id is None || body.peer_id->0@.len() == 0 {
        TokenStepView::Refuse(message(400, "peerId is required."))
    } else if body.peer_id->0@ == user->0@ {
        TokenStepView::Refuse(message(400, "Cannot call yourself."))
    } else if f.session is None {
        TokenStepView::AskSession { user: user->0@, peer }
    } else if f.session->0 is Err {
        TokenStepView::Refuse(
            coded(message(403, token_denied_message(f.session->0->Err_0)), "CALL_NOT_ACCEPTED"),
        )
    } else if f.configured is None {
        TokenStepView::LoadConfiguration
    } else if !f.configured->0 {
        TokenStepView::Refuse(message(500, "Voice service is not configured."))
    } else if f.url_allowed is None {
        TokenStepView::CheckUrl
    } else if !f.url_allowed->0 {
        TokenStepView::Refuse(message(500, "Voice service is not configured."))
    } else if f.friends is None {
        TokenStepView::AskFriends { user: user->0@, peer }
    } else if !f.friends->0 {
        TokenStepView::Refuse(message(403, "Możesz dzwonić tylko do znajomych."))
    } else {
        match f.signed {
            None => TokenStepView::SignToken(claims(user->0@, peer, issue)),
            Some(true) => TokenStepView::Reply { room: room_name(user->0@, peer) },
            Some(false) => TokenStepView::Refuse(message(500, "Failed to create voice token.")),
        }
    }
}

/// Decides the next step of making a token for a call.
pub fn get_voice_token(
    user: Option<&str>,
    body: &VoiceTokenBody,
    issue: &Issue,
    f: &TokenFacts,
) -> (r: TokenStep)
    requires
        issue.now + TOKEN_TTL_SECS <= i64::MAX,
    ensures
        r@ == token_step(user, *body, *issue, *f),
{
    let user = match user {
        None => return TokenStep::Refuse(message(401, "Not authenticated.")),
        Some(u) => u,
    };
    match f.counted {
        None => return TokenStep::CountRequest {
            key: text::join2("voice-token:", user),
            quota: token_quota(),
        },
        Some(false) => return TokenStep::Refuse(
            message(429, "Zbyt wiele prób dołączenia do rozmowy. Spróbuj za chwilę."),
        ),
        Some(true) => {},
    }
    let peer = match &body.peer_id {
        None => return TokenStep::Refuse(message(400, "peerId is required.")),
        Some(p) => p,
    };
    if peer.as_str().is_empty() {
        return TokenStep::Refuse(message(400, "peerId is required."));
    }
    if text::same_text(peer.as_str(), user) {
        return TokenStep::Refuse(message(400, "Cannot call yourself."));
    }
    match f.session {
        None => return TokenStep::AskSession { user: user.to_owned(), peer: peer.clone() },
        Some(Err(why)) => return TokenStep::Refuse(
            coded(message(403, token_denied_message(why)), "CALL_NOT_ACCEPTED"),
        ),
        Some(Ok(_)) => {},
    }
    match f.configured {
        None => return TokenStep::LoadConfiguration,
        Some(false) => return TokenStep::Refuse(message(500, "Voice service is not configured.")),
        Some(true) => {},
    }
    match f.url_allowed {
        None => return TokenStep::CheckUrl,
        Some(false) => return TokenStep::Refuse(message(500, "Voice service is not configured.")),
        Some(true) => {},
    }
    match f.friends {
        None => return TokenStep::AskFriends { user: user.to_owned(), peer: peer.clone() },
        Some(false) => return TokenStep::Refuse(message(403, "Możesz dzwonić tylko do znajomych.")),
        Some(true) => {},
    }
    match f.signed {
        None => TokenStep::SignToken(make_claims(user, peer.as_str(), issue)),
        Some(true) => TokenStep::Reply { room: build_dm_room_name(user, peer.as_str()) },
        Some(false) => TokenStep::Refuse(message(500, "Failed to create voice token.")),
    }
}

/// A token is signed only for a call that was accepted, and only between two different friends;
/// it names the user who asked and the room of the two.
pub proof fn law_tokens_are_for_friends_in_a_call(
    user: Option<&str>,
    body: VoiceTokenBody,
    issue: Issue,
    f: TokenFacts,
)
    ensures
        ({
            let s = token_step(user, body, issue, f);
            s is SignToken || s is Reply ==> f.friends == Some(true) && f.session is Some
                && f.session->0 is Ok && user is Some && body.peer_id is Some && body.peer_id->0@
                != user->0@
        }),
        token_step(user, body, issue, f) matches TokenStepView::SignToken(c) ==> c.sub == user->0@
            && c.video.room == room_name(user->0@, body.peer_id->0@),
{
}

/// Friends in a call get a token for their room: the request is not refused while nothing speaks against
/// it, the token is for the user who asks and the room of the two, and replied only where it was signed.
pub proof fn law_friends_in_a_call_get_a_token(
    user: Option<&str>,
    body: VoiceTokenBody,
    issue: Issue,
    f: TokenFacts,
)
    ensures
        ({
            let s = token_step(user, body, issue, f);
            let two = user is Some && body.peer_id is Some && body.peer_id->0@.len() > 0
                && body.peer_id->0@ != user->0@;
            let peer = body.peer_id->0@;
            let fits = two && f.counted != Some(false) && (f.session is None || f.session->0 is Ok)
                && f.configured != Some(false) && f.url_allowed != Some(false) && f.friends != Some(
                false,
            ) && f.signed != Some(false);
            let known = f.counted is Some && f.session is Some && f.configured is Some
                && f.url_allowed is Some && f.friends is Some;
            &&& fits ==> s !is Refuse
            &&& user is Some && f.counted is None ==> s == (TokenStepView::CountRequest {
                key: "voice-token:"@ + user->0@,
                quota: (Quota { max: 20, seconds: 60 }),
            })
            &&& fits && f.counted is Some && f.session is None ==> s == (TokenStepView::AskSession {
                user: user->0@,
                peer,
            })
            &&& fits && known && f.signed is None ==> s is SignToken
            &&& fits && known && f.signed is Some ==> s == (TokenStepView::Reply {
                room: room_name(user->0@, peer),
            })
            &&& s matches TokenStepView::SignToken(c) ==> f.signed is None && c.sub == user->0@
                && c.video.room == room_name(user->0@, peer) && c.video.room_join
                && c.video.can_publish && c.video.can_subscribe && c.video.can_publish_data && c.iss
                == issue.key@ && c.jti == issue.session@ + ":"@ + issue.mark@ && known && fits
            &&& s is Reply ==> f.signed is Some && f.signed->0 && known
            &&& s matches TokenStepView::AskFriends { user: u, peer: p } ==> u == user->0@ && p == peer
                && f.friends is None
            &&& s is LoadConfiguration ==> f.configured is None
            &&& s is CheckUrl ==> f.url_allowed is None
            &&& user is None ==> s == TokenStepView::Refuse(message(401, "Not authenticated."))
            &&& f.session is Some && f.session->0 is Err ==> s !is SignToken && s !is Reply
        }),
{
}

/// The other side of a call.
pub open spec fn peer_of(user: Seq<char>, caller: Seq<char>, callee: Seq<char>) -> Seq<char> {
    if caller == user {
        callee
    } else {
        caller
    }
}

/// Finds the other side of a call.
pub fn call_peer(user: &str, caller: &str, callee: &str) -> (r: String)
    ensures
        r@ == peer_of(user@, caller@, callee@),
{
    if text::same_text(caller, user) {
        callee.to_owned()
    } else {
        caller.to_owned()
    }
}

/// The peer of a call is the other of the two.
pub proof fn law_peer_is_the_other(
    caller: Seq<char>,
    callee: Seq<char>,
)
    ensures
        peer_of(caller, caller, callee) == callee,
        caller != callee ==> peer_of(callee, caller, callee) == caller,
{
}

/// A call that goes on.
pub struct ActiveCall {
    pub caller: String,
    pub callee: String,
    pub mode: String,
}

/// What is shown of the call of a user.
#[derive(Debug, PartialEq, Eq)]
pub enum ActiveCallStep {
    AskSession(String),
    ReplyNone,
    ReplyActive { peer: String, mode: String },
    Refuse(Refusal),
}

/// The view of `ActiveCallStep`.
#[verifier::ext_equal]
pub enum ActiveCallStepView {
    AskSession(Seq<char>),
    ReplyNone,
    ReplyActive { peer: Seq<char>, mode: Seq<char> },
    Refuse(Refusal),
}

impl View for ActiveCallStep {
    type V = ActiveCallStepView;

    open spec fn view(&self) -> ActiveCallStepView {
        match self {
            ActiveCallStep::AskSession(a) => ActiveCallStepView::AskSession(a@),
            ActiveCallStep::ReplyNone => ActiveCallStepView::ReplyNone,
            ActiveCallStep::ReplyActive { peer, mode } => ActiveCallStepView::ReplyActive {
                peer: peer@,
                mode: mode@,
            },
            ActiveCallStep::Refuse(a) => ActiveCallStepView::Refuse(*a),
        }
    }
}

/// Decides the next step of showing the call of a user; `active` is the call, if there is one.
pub fn get_active_call(user: Option<&str>, active: Option<Option<&ActiveCall>>) -> (r: ActiveCallStep)
    ensures
        r@ == (if user is None {
            ActiveCallStepView::Refuse(message(401, "Not authenticated."))
        } else {
            match active {
                None => ActiveCallStepView::AskSession(user->0@),
                Some(None) => ActiveCallStepView::ReplyNone,
                Some(Some(call)) => ActiveCallStepView::ReplyActive {
                    peer: peer_of(user->0@, call.caller@, call.callee@),
                    mode: call.mode@,
                },
            }
        }),
        user is Some && active is None ==> r@ == ActiveCallStepView::AskSession(user->0@),
        r@ is ReplyActive <==> user is Some && active is Some && active->0 is Some,
        r@ matches ActiveCallStepView::ReplyActive { peer, mode } ==> mode == active->0->0.mode@ && (
        active->0->0.caller@ == user->0@ ==> peer == active->0->0.callee@) && (active->0->0.caller@
            != user->0@ ==> peer == active->0->0.caller@),
        r@ is ReplyNone <==> user is Some && active is Some && active->0 is None,
{
    let user = match user {
        None => return ActiveCallStep::Refuse(message(401, "Not authenticated.")),
        Some(u) => u,
    };
    match active {
        None => ActiveCallStep::AskSession(user.to_owned()),
        Some(None) => ActiveCallStep::ReplyNone,
        Some(Some(call)) => ActiveCallStep::ReplyActive {
            peer: call_peer(user, call.caller.as_str(), call.callee.as_str()),
            mode: call.mode.clone(),
        },
    }
}

} // verus!
