//! Who a request comes from, and requests that look like attacks.

use vstd::prelude::*;

use crate::ids;
use crate::ids::{Oid, parse_oid};
use crate::patterns;
use crate::patterns::{compile_all, matches_any};
use crate::reply::{Lookup, Refusal, error, message};
use crate::text;

verus! {

/// How long a token may be, in bytes.
pub const MAX_TOKEN_BYTES: usize = 1000;

/// The user that a request comes from.
pub struct RequestUserId(pub String);

/// What a token says.
#[derive(Debug, PartialEq, Eq)]
pub struct TokenPayload {
    pub user_id: String,
    pub token_version: i32,
    pub session_family_id: Option<String>,
    pub exp: usize,
    pub iss: String,
    pub aud: String,
}

/// The view of `TokenPayload`.
#[verifier::ext_equal]
pub struct TokenPayloadView {
    pub user_id: Seq<char>,
    pub token_version: i32,
    pub session_family_id: Option<Seq<char>>,
    pub exp: usize,
    pub iss: Seq<char>,
    pub aud: Seq<char>,
}

impl View for TokenPayload {
    type V = TokenPayloadView;

    open spec fn view(&self) -> TokenPayloadView {
        TokenPayloadView {
            user_id: self.user_id@,
            token_version: self.token_version,
            session_family_id: text::opt(self.session_family_id),
            exp: self.exp,
            iss: self.iss@,
            aud: self.aud@,
        }
    }
}

/// The user that a request comes from, where one was noted.
pub fn request_user_id(noted: &Option<RequestUserId>) -> (r: Option<String>)
    ensures
        text::opt(r) == (match *noted {
            None => None,
            Some(u) => Some(u.0@),
        }),
{
    match noted {
        None => None,
        Some(u) => Some(u.0.as_str().to_owned()),
    }
}

/// What came of reading a token.
#[derive(Debug, PartialEq, Eq)]
pub enum Decoded {
    /// It is in order.
    Valid(TokenPayload),
    Expired,
    Invalid,
}

/// What is known of the user that a token names.
#[derive(Clone, Copy, Debug, PartialEq, Eq)]
pub enum TokenUser {
    Active,
    Denied,
    Unavailable,
}

/// What is known while the token of a request is checked.
#[derive(Debug)]
pub struct TokenFacts {
    /// Whether the key for tokens is configured.
    pub key: Option<bool>,
    pub decoded: Option<Decoded>,
    pub user: Option<TokenUser>,
}

/// What to do next while the token of a request is checked.
#[derive(Debug, PartialEq, Eq)]
pub enum TokenStep {
    LoadKey,
    Decode(String),
    /// Ask whether the user that the token names is active, and the token still stands.
    CheckUser { user: String, version: i32, family: Option<String> },
    /// Let the request pass, as one of this user.
    Pass(String),
    Refuse(Refusal),
}

/// The view of `TokenStep`.
#[verifier::ext_equal]
pub enum TokenStepView {
    LoadKey,
    Decode(Seq<char>),
    CheckUser { user: Seq<char>, version: i32, family: Option<Seq<char>> },
    Pass(Seq<char>),
    Refuse(Refusal),
}

impl View for TokenStep {
    type V = TokenStepView;

    open spec fn view(&self) -> TokenStepView {
        match self {
            TokenStep::LoadKey => TokenStepView::LoadKey,
            TokenStep::Decode(a) => TokenStepView::Decode(a@),
            TokenStep::CheckUser { user, version, family } => TokenStepView::CheckUser {
                user: user@,
                version: *version,
                family: text::opt(*family),
            },
            TokenStep::Pass(a) => TokenStepView::Pass(a@),
            TokenStep::Refuse(a) => TokenStepView::Refuse(*a),
        }
    }
}

pub open spec fn token_step(token: Option<&str>, f: TokenFacts) -> TokenStepView {
    let payload = f.decoded->0->Valid_0;
    if token is None {
        TokenStepView::Refuse(message(401, "Authentication token missing."))
    } else if text::byte_len(token->0@) > MAX_TOKEN_BYTES {
        TokenStepView::Refuse(message(401, "Invalid token format."))
    } else if f.key is None {
        TokenStepView::LoadKey
    } else if !f.key->0 {
        TokenStepView::Refuse(message(500, "Authentication is not configured."))
    } else if f.decoded is None {
        TokenStepView::Decode(token->0@)
    } else if f.decoded->0 is Expired {
        TokenStepView::Refuse(message(401, "Token expired."))
    } else if f.decoded->0 is Invalid {
        TokenStepView::Refuse(message(403, "Invalid token."))
    } else if payload.user_id@.len() == 0 {
        TokenStepView::Refuse(message(403, "Invalid token payload."))
    } else {
        match f.user {
            None => TokenStepView::CheckUser {
                user: payload.user_id@,
                version: payload.token_version,
                family: text::opt(payload.session_family_id),
            },
            Some(TokenUser::Active) => TokenStepView::Pass(payload.user_id@),
            Some(TokenUser::Unavailable) => TokenStepView::Refuse(
                message(503, "Temporarily unavailable. Retry."),
            ),
            Some(TokenUser::Denied) => TokenStepView::Refuse(
                message(403, "User not found or inactive."),
            ),
        }
    }
}

/// Decides the next step of checking the token of a request.
pub fn verify_token(token: Option<&str>, f: &TokenFacts) -> (r: TokenStep)
    ensures
        r@ == token_step(token, *f),
{
    let token = match token {
        None => return TokenStep::Refuse(message(401, "Authentication token missing.")),
        Some(t) => t,
    };
    if token.len() > MAX_TOKEN_BYTES {
        return TokenStep::Refuse(message(401, "Invalid token format."));
    }
    match f.key {
        None => return TokenStep::LoadKey,
        Some(false) => return TokenStep::Refuse(message(500, "Authentication is not configured.")),
        Some(true) => {},
    }
    let payload = match &f.decoded {
        None => return TokenStep::Decode(token.to_owned()),
        Some(Decoded::Expired) => return TokenStep::Refuse(message(401, "Token expired.")),
        Some(Decoded::Invalid) => return TokenStep::Refuse(message(403, "Invalid token.")),
        Some(Decoded::Valid(payload)) => payload,
    };
    if payload.user_id.as_str().is_empty() {
        return TokenStep::Refuse(message(403, "Invalid token payload."));
    }
    match f.user {
        None => TokenStep::CheckUser {
            user: payload.user_id.clone(),
            version: payload.token_version,
            family: match &payload.session_family_id {
                None => None,
                Some(family) => Some(family.clone()),
            },
        },
        Some(TokenUser::Active) => TokenStep::Pass(payload.user_id.clone()),
        Some(TokenUser::Unavailable) => TokenStep::Refuse(
            message(503, "Temporarily unavailable. Retry."),
        ),
        Some(TokenUser::Denied) => TokenStep::Refuse(message(403, "User not found or inactive.")),
    }
}

/// A request passes only with a token that is in order and names an active user, and it passes as
/// that user.
pub proof fn law_requests_pass_by_their_token(token: Option<&str>, f: TokenFacts)
    ensures
        token_step(token, f) matches TokenStepView::Pass(user) ==> token is Some && f.decoded is Some
            && f.decoded->0 is Valid && user == f.decoded->0->Valid_0.user_id@ && user.len() > 0
            && f.user == Some(TokenUser::Active),
{
}

/// A request with a valid token of an active user passes as one of that user: it is not refused while
/// nothing speaks against it, and asks only for what is not known yet.
pub proof fn law_active_users_pass(
    token: Option<&str>,
    f: TokenFacts,
)
    requires
        token is Some && text::byte_len(token->0@) <= 1000,
        f.key != Some(false),
        f.decoded matches Some(d) ==> d is Valid && d->Valid_0.user_id@.len() > 0,
        f.user is None || f.user == Some(TokenUser::Active),
    ensures
        ({
            let s = token_step(token, f);
            let payload = f.decoded->0->Valid_0;
            &&& s !is Refuse
            &&& f.key is None ==> s is LoadKey
            &&& f.key is Some && f.decoded is None ==> s == TokenStepView::Decode(token->0@)
            &&& f.key is Some && f.decoded is Some && f.user is None ==> s == (
            TokenStepView::CheckUser {
                user: payload.user_id@,
                version: payload.token_version,
                family: text::opt(payload.session_family_id),
            })
            &&& f.key is Some && f.decoded is Some && f.user is Some ==> s == TokenStepView::Pass(
                payload.user_id@,
            )
        }),
{
}

/// A refused token has its reason: it is missing, too long or expired (401), not valid or not of an active
/// user (403), or the key or the database fails (500, 503).
pub proof fn law_refused_token_has_its_reason(
    token: Option<&str>,
    f: TokenFacts,
)
    ensures
        token_step(token, f) matches TokenStepView::Refuse(r) ==> {
            &&& r.status == 401 ==> token is None || text::byte_len(token->0@) > 1000 || (f.decoded is
                Some && f.decoded->0 is Expired)
            &&& r.status == 403 ==> (f.decoded is Some && (f.decoded->0 is Invalid
                || f.decoded->0->Valid_0.user_id@.len() == 0)) || f.user == Some(TokenUser::Denied)
            &&& r.status == 500 ==> f.key is Some && !f.key->0
            &&& r.status == 503 ==> f.user == Some(TokenUser::Unavailable)
            &&& r.status == 401 || r.status == 403 || r.status == 500 || r.status == 503
        },
        token is None || text::byte_len(token->0@) > 1000 ==> token_step(token, f) is Refuse,
        token_step(token, f) is Pass ==> f.key is Some && f.key->0 && text::byte_len(token->0@)
            <= 1000,
{
}

/// What to do next with a request to log out, which passes in any case.
#[derive(Debug, PartialEq, Eq)]
pub enum LogoutStep {
    LoadKey,
    Decode(String),
    /// Let the request pass, as one of this user.
    PassAsUser(String),
    Pass,
}

/// The view of `LogoutStep`.
#[verifier::ext_equal]
pub enum LogoutStepView {
    LoadKey,
    Decode(Seq<char>),
    PassAsUser(Seq<char>),
    Pass,
}

impl View for LogoutStep {
    type V = LogoutStepView;

    open spec fn view(&self) -> LogoutStepView {
        match self {
            LogoutStep::LoadKey => LogoutStepView::LoadKey,
            LogoutStep::Decode(a) => LogoutStepView::Decode(a@),
            LogoutStep::PassAsUser(a) => LogoutStepView::PassAsUser(a@),
            LogoutStep::Pass => LogoutStepView::Pass,
        }
    }
}

pub open spec fn logout_step(
    token: Option<&str>,
    key: Option<bool>,
    user: Option<Option<&str>>,
) -> LogoutStepView {
    if token is None || token->0@.len() == 0 || text::byte_len(token->0@) > MAX_TOKEN_BYTES {
        LogoutStepView::Pass
    } else if key is None {
        LogoutStepView::LoadKey
    } else if !key->0 {
        LogoutStepView::Pass
    } else if user is None {
        LogoutStepView::Decode(token->0@)
    } else if user->0 is Some && ids::oid_of(user->0->0@) is Some {
        LogoutStepView::PassAsUser(user->0->0@)
    } else {
        LogoutStepView::Pass
    }
}

/// Decides the next step with a request to log out; `user` is the user that the token names,
/// where it is in order. Users who may not act can still log out.
pub fn verify_token_for_logout(
    token: Option<&str>,
    key: Option<bool>,
    user: Option<Option<&str>>,
) -> (r: LogoutStep)
    ensures
        r@ == logout_step(token, key, user),
{
    let token = match token {
        None => return LogoutStep::Pass,
        Some(t) => t,
    };
    if token.is_empty() || token.len() > MAX_TOKEN_BYTES {
        return LogoutStep::Pass;
    }
    match key {
        None => return LogoutStep::LoadKey,
        Some(false) => return LogoutStep::Pass,
        Some(true) => {},
    }
    match user {
        None => LogoutStep::Decode(token.to_owned()),
        Some(None) => LogoutStep::Pass,
        Some(Some(u)) => match parse_oid(u) {
            None => LogoutStep::Pass,
            Some(_) => LogoutStep::PassAsUser(u.to_owned()),
        },
    }
}

/// A request to log out always passes: as one of the user where the token names one, else as nobody's.
pub proof fn law_logging_out_always_passes(
    token: Option<&str>,
    key: Option<bool>,
    user: Option<Option<&str>>,
)
    ensures
        ({
            let s = logout_step(token, key, user);
            let given = token is Some && token->0@.len() > 0 && text::byte_len(token->0@) <= 1000;
            let keyed = given && key is Some && key->0;
            &&& given && key is None <==> s is LoadKey
            &&& keyed && user is None <==> s is Decode
            &&& s matches LogoutStepView::Decode(t) ==> t == token->0@
            &&& keyed && user is Some && user->0 is Some && ids::oid_of(user->0->0@) is Some <==> s is
                PassAsUser
            &&& s matches LogoutStepView::PassAsUser(u) ==> u == user->0->0@
            &&& key is Some && user is Some ==> s is Pass || s is PassAsUser
        }),
{
}

/// What to do next to find the user of a request.
#[derive(Clone, Copy, Debug, PartialEq, Eq)]
pub enum ResolveStep {
    LoadUser(Oid),
    /// Use the token, with the refresh token where there is one.
    UseToken { with_refresh: bool },
    /// The user that was loaded.
    Found,
    Denied,
    Unavailable,
}

pub open spec fn resolve_step(
    noted: Option<&str>,
    loaded: Option<Lookup<bool>>,
    token: bool,
    refresh: bool,
) -> ResolveStep {
    if noted is Some && ids::oid_of(noted->0@) is None {
        ResolveStep::Denied
    } else if noted is Some {
        match loaded {
            None => ResolveStep::LoadUser(ids::oid_of(noted->0@)->0),
            Some(Lookup::Found(login_allowed)) => if login_allowed {
                ResolveStep::Found
            } else {
                ResolveStep::Denied
            },
            Some(Lookup::Missing) => ResolveStep::Denied,
            Some(Lookup::Failed) => ResolveStep::Unavailable,
        }
    } else if token {
        ResolveStep::UseToken { with_refresh: refresh }
    } else {
        ResolveStep::Denied
    }
}

/// Decides the next step of finding the user of a request. `noted` is the user that was noted for
/// it, `loaded` whether that account may log in, `token` and `refresh` which cookies it has.
pub fn resolve_authenticated_user(
    noted: Option<&str>,
    loaded: Option<Lookup<bool>>,
    token: bool,
    refresh: bool,
) -> (r: ResolveStep)
    ensures
        r == resolve_step(noted, loaded, token, refresh),
{
    if let Some(u) = noted {
        return match parse_oid(u) {
            None => ResolveStep::Denied,
            Some(id) => match loaded {
                None => ResolveStep::LoadUser(id),
                Some(Lookup::Found(login_allowed)) => if login_allowed {
                    ResolveStep::Found
                } else {
                    ResolveStep::Denied
                },
                Some(Lookup::Missing) => ResolveStep::Denied,
                Some(Lookup::Failed) => ResolveStep::Unavailable,
            },
        };
    }
    if token {
        ResolveStep::UseToken { with_refresh: refresh }
    } else {
        ResolveStep::Denied
    }
}

/// The user whom a request was noted for is found where the account may log in; without a note the token
/// is used, and without a token nobody is found.
pub proof fn law_noted_user_is_found(
    noted: Option<&str>,
    loaded: Option<Lookup<bool>>,
    token: bool,
    refresh: bool,
)
    ensures
        ({
            let s = resolve_step(noted, loaded, token, refresh);
            let named = noted is Some && ids::oid_of(noted->0@) is Some;
            &&& named && loaded is None <==> s is LoadUser
            &&& s is LoadUser ==> s == ResolveStep::LoadUser(ids::oid_of(noted->0@)->0)
            &&& named && loaded is Some && loaded->0 is Found && loaded->0->0 <==> s is Found
            &&& named && loaded is Some && loaded->0 is Failed <==> s is Unavailable
            &&& noted is None && token <==> s is UseToken
            &&& s is UseToken ==> s == (ResolveStep::UseToken { with_refresh: refresh })
        }),
{
}

/// What to do next while the account of a request is checked.
#[derive(Clone, Copy, Debug, PartialEq, Eq)]
pub enum AccountStep {
    LoadUser(Oid),
    Pass,
    Refuse(Refusal),
}

pub open spec fn account_step(user: Option<&str>, loaded: Option<Lookup<bool>>) -> AccountStep {
    if user is None || ids::oid_of(user->0@) is None {
        AccountStep::Refuse(error(401, "User not found"))
    } else {
        match loaded {
            None => AccountStep::LoadUser(ids::oid_of(user->0@)->0),
            Some(Lookup::Missing) => AccountStep::Refuse(error(401, "User not found")),
            Some(Lookup::Failed) => AccountStep::Refuse(
                error(503, "Temporarily unavailable. Retry."),
            ),
            Some(Lookup::Found(login_allowed)) => if login_allowed {
                AccountStep::Pass
            } else {
                AccountStep::Refuse(error(403, "Account is inactive or blocked"))
            },
        }
    }
}

/// Decides the next step of checking the account of a request; `loaded` is whether the account
/// may log in.
pub fn require_active_account(user: Option<&str>, loaded: Option<Lookup<bool>>) -> (r: AccountStep)
    ensures
        r == account_step(user, loaded),
{
    let user = match user {
        None => return AccountStep::Refuse(error(401, "User not found")),
        Some(u) => u,
    };
    let id = match parse_oid(user) {
        None => return AccountStep::Refuse(error(401, "User not found")),
        Some(id) => id,
    };
    match loaded {
        None => AccountStep::LoadUser(id),
        Some(Lookup::Missing) => AccountStep::Refuse(error(401, "User not found")),
        Some(Lookup::Failed) => AccountStep::Refuse(error(503, "Temporarily unavailable. Retry.")),
        Some(Lookup::Found(login_allowed)) => if login_allowed {
            AccountStep::Pass
        } else {
            AccountStep::Refuse(error(403, "Account is inactive or blocked"))
        },
    }
}

/// A user whose account may log in passes, and nobody else.
pub proof fn law_active_accounts_pass(
    user: Option<&str>,
    loaded: Option<Lookup<bool>>,
)
    ensures
        ({
            let s = account_step(user, loaded);
            let named = user is Some && ids::oid_of(user->0@) is Some;
            &&& named && loaded is None <==> s is LoadUser
            &&& s is LoadUser ==> s == AccountStep::LoadUser(ids::oid_of(user->0@)->0)
            &&& named && loaded is Some && loaded->0 is Found && loaded->0->0 <==> s is Pass
            &&& named && loaded is Some && loaded->0 is Found && !loaded->0->0 ==> s
                == AccountStep::Refuse(error(403, "Account is inactive or blocked"))
        }),
{
}

/// The expressions that mark a request as an attack.
pub open spec fn attack_patterns() -> Seq<&'static str> {
    seq![
        r"\.\.",
        r"(?:\.\.[/\\]|[/\\]\.\.[/\\])",
        r"(?i)%2e%2e",
        r"(?i)%252e%252e",
        r"(?i)<script",
        r"(?i)<iframe",
        r"(?i)<object",
        r"(?i)<embed",
        r"(?i)<form",
        r"(?i)javascript:",
        r"(?i)vbscript:",
        r"(?i)data:text/html",
        r"(?i)on\w+\s*=",
        r"(?i)style\s*=.*expression",
        r"(?i)@import",
        r"(?i)union.*select",
        r"(?i)insert.*into",
        r"(?i)update.*set",
        r"(?i)delete.*from",
        r"(?i)drop.*table",
        r"(?i)create.*table",
        r"(?i)alter.*table",
        r"(?i)exec.*\(",
        r"(?i)execute.*\(",
        r"(?i)sp_",
        r"(?i)xp_",
        r"(?i);.*select",
        r"(?i);\s*drop",
        r#"(?i)'\s*or\s*'1'\s*=\s*'1"#,
        r#"(?i)"\s*or\s*"1"\s*=\s*"1"#,
        r"(?i)'\s*or\s*1\s*=\s*1",
        r#"(?i)"\s*or\s*1\s*=\s*1"#,
        r"\$\(.*\)",
        r"`.*`",
        r"(?i)system\(",
        r"(?i)exec\(",
        r"(?i)eval\(",
        r"(?i)passthru\(",
        r"(?i)shell_exec\(",
        r"(?i)cmd\.exe",
        r"(?i)powershell",
        r"(?i)bash",
        r"(?i)/bin/",
        r"\(\|\(",
        r"\)\|\)",
        r"\*\)\(",
        r"(?i)<!ENTITY",
        r"(?i)<!DOCTYPE.*ENTITY",
        r"(?i)SYSTEM.*file:",
        r"<%.*%>",
        r"(?i)\$where",
        r"(?i)php://",
        r"(?i)file://",
        r"(?i)data://",
        r"(?i)expect://",
        r"(?i)\.php\?",
        r"(?i)\.asp\?",
        r"(?i)\.tsp\?",
        r"(?i)content-type:",
        r"(?i)set-cookie:",
        r"(?i)sqlmap",
        r"(?i)nmap",
        r"(?i)nikto",
        r"(?i)burp",
        r"(?i)\bzap\b",
        r"(?i)masscan",
        r"(?i)dirb",
        r"(?i)gobuster",
        r"(?i)&#x",
        r"&#\d+",
        r"(?i)__proto__",
        r"(?i)constructor.*prototype",
        r"(?i)none.*algorithm",
    ]
}

/// Lists the expressions that mark a request as an attack.
pub fn suspicious_patterns() -> (r: Vec<&'static str>)
    ensures
        r@ == attack_patterns(),
{
    let r: Vec<&'static str> = vec![
        r"\.\.",
        r"(?:\.\.[/\\]|[/\\]\.\.[/\\])",
        r"(?i)%2e%2e",
        r"(?i)%252e%252e",
        r"(?i)<script",
        r"(?i)<iframe",
        r"(?i)<object",
        r"(?i)<embed",
        r"(?i)<form",
        r"(?i)javascript:",
        r"(?i)vbscript:",
        r"(?i)data:text/html",
        r"(?i)on\w+\s*=",
        r"(?i)style\s*=.*expression",
        r"(?i)@import",
        r"(?i)union.*select",
        r"(?i)insert.*into",
        r"(?i)update.*set",
        r"(?i)delete.*from",
        r"(?i)drop.*table",
        r"(?i)create.*table",
        r"(?i)alter.*table",
        r"(?i)exec.*\(",
        r"(?i)execute.*\(",
        r"(?i)sp_",
        r"(?i)xp_",
        r"(?i);.*select",
        r"(?i);\s*drop",
        r#"(?i)'\s*or\s*'1'\s*=\s*'1"#,
        r#"(?i)"\s*or\s*"1"\s*=\s*"1"#,
        r"(?i)'\s*or\s*1\s*=\s*1",
        r#"(?i)"\s*or\s*1\s*=\s*1"#,
        r"\$\(.*\)",
        r"`.*`",
        r"(?i)system\(",
        r"(?i)exec\(",
        r"(?i)eval\(",
        r"(?i)passthru\(",
        r"(?i)shell_exec\(",
        r"(?i)cmd\.exe",
        r"(?i)powershell",
        r"(?i)bash",
        r"(?i)/bin/",
        r"\(\|\(",
        r"\)\|\)",
        r"\*\)\(",
        r"(?i)<!ENTITY",
        r"(?i)<!DOCTYPE.*ENTITY",
        r"(?i)SYSTEM.*file:",
        r"<%.*%>",
        r"(?i)\$where",
        r"(?i)php://",
        r"(?i)file://",
        r"(?i)data://",
        r"(?i)expect://",
        r"(?i)\.php\?",
        r"(?i)\.asp\?",
        r"(?i)\.tsp\?",
        r"(?i)content-type:",
        r"(?i)set-cookie:",
        r"(?i)sqlmap",
        r"(?i)nmap",
        r"(?i)nikto",
        r"(?i)burp",
        r"(?i)\bzap\b",
        r"(?i)masscan",
        r"(?i)dirb",
        r"(?i)gobuster",
        r"(?i)&#x",
        r"&#\d+",
        r"(?i)__proto__",
        r"(?i)constructor.*prototype",
        r"(?i)none.*algorithm",
    ];
    assert(r@ =~= attack_patterns());
    r
}

/// Compiles the expressions that mark a request as an attack; nothing comes back where one of
/// them cannot be compiled.
pub fn compile_suspicious_patterns() -> (r: Option<Vec<regex::Regex>>)
    ensures
        match r {
            Some(v) => patterns::sources(v@) == patterns::views(attack_patterns()),
            None => !patterns::all_compile(patterns::views(attack_patterns())),
        },
{
    compile_all(&suspicious_patterns())
}

/// Which of the headers that tell of other addresses a request has.
#[derive(Clone, Copy, Debug, PartialEq, Eq)]
pub struct AddressHeaders {
    pub x_forwarded_for: bool,
    pub x_real_ip: bool,
    pub x_originating_ip: bool,
    pub x_remote_ip: bool,
    pub x_cluster_client_ip: bool,
}

/// 1 where something holds, else 0.
pub open spec fn one_if(b: bool) -> int {
    if b {
        1
    } else {
        0
    }
}

/// How many of the headers a request has.
pub open spec fn header_count(h: AddressHeaders) -> int {
    one_if(h.x_forwarded_for) + one_if(h.x_real_ip) + one_if(h.x_originating_ip) + one_if(
        h.x_remote_ip,
    ) + one_if(h.x_cluster_client_ip)
}

fn count_headers(h: AddressHeaders) -> (r: u32)
    ensures
        r == header_count(h),
{
    let mut n: u32 = 0;
    if h.x_forwarded_for {
        n += 1;
    }
    if h.x_real_ip {
        n += 1;
    }
    if h.x_originating_ip {
        n += 1;
    }
    if h.x_remote_ip {
        n += 1;
    }
    if h.x_cluster_client_ip {
        n += 1;
    }
    n
}

/// The text of a request that is searched for marks of attacks.
pub open spec fn request_data(uri: Seq<char>, query: Seq<char>) -> Seq<char> {
    uri + " "@ + query
}

/// Whether a request is suspicious; `marked` is whether one of the expressions matches it.
pub open spec fn suspicious_if(marked: bool, headers: AddressHeaders, query: Seq<char>) -> bool {
    marked || header_count(headers) > 2 || text::split(query, '&').len() > 50
}

/// Finds whether a request is suspicious; `marked` is whether one of the expressions matches it.
pub fn judge(marked: bool, headers: AddressHeaders, query: &str) -> (r: bool)
    ensures
        r == suspicious_if(marked, headers, query@),
{
    if marked || count_headers(headers) > 2 {
        return true;
    }
    let parts = text::split_on(query, '&');
    assert(text::texts(parts@).len() == parts@.len());
    parts.len() > 50
}

/// A request is suspicious where a pattern marks it, where it names its address in more than two headers, or
/// where its query has more than fifty parts; and nowhere else.
pub proof fn law_suspicious_requests_are_marked(
    marked: bool,
    headers: AddressHeaders,
    query: Seq<char>,
)
    ensures
        marked ==> suspicious_if(marked, headers, query),
        text::split(query, '&').len() > 50 ==> suspicious_if(marked, headers, query),
        headers.x_forwarded_for && headers.x_real_ip && headers.x_originating_ip ==> suspicious_if(
            marked,
            headers,
            query,
        ),
        headers.x_remote_ip && headers.x_real_ip && headers.x_cluster_client_ip ==> suspicious_if(
            marked,
            headers,
            query,
        ),
        !marked && text::split(query, '&').len() <= 50 && !headers.x_originating_ip
            && !headers.x_remote_ip && !headers.x_cluster_client_ip ==> !suspicious_if(
            marked,
            headers,
            query,
        ),
        0 <= header_count(headers) <= 5,
{
}

/// What is done with a request that may be suspicious.
#[derive(Clone, Copy, Debug, PartialEq, Eq)]
pub enum SuspicionStep {
    Pass,
    Refuse(Refusal),
}

/// Decides whether a request passes; `list` are the compiled expressions. In development every
/// request does.
pub fn log_suspicious_activity(
    development: bool,
    list: &Vec<regex::Regex>,
    uri: &str,
    query: &str,
    headers: AddressHeaders,
) -> (r: SuspicionStep)
    ensures
        r == (if !development && suspicious_if(
            patterns::any_matches(patterns::sources(list@), request_data(uri@, query@)),
            headers,
            query@,
        ) {
            SuspicionStep::Refuse(message(400, "Invalid request"))
        } else {
            SuspicionStep::Pass
        }),
{
    if development {
        return SuspicionStep::Pass;
    }
    let marked = matches_any(list, text::join3(uri, " ", query).as_str());
    if judge(marked, headers, query) {
        SuspicionStep::Refuse(message(400, "Invalid request"))
    } else {
        SuspicionStep::Pass
    }
}

/// Decides whether a request passes by the expressions that the guard knows, which are compiled
/// first; none where one of them is no expression.
pub fn check_suspicious_activity(
    development: bool,
    uri: &str,
    query: &str,
    headers: AddressHeaders,
) -> (r: Option<SuspicionStep>)
    ensures
        match r {
            None => !development && !patterns::all_compile(patterns::views(attack_patterns())),
            Some(step) => step == (if !development && suspicious_if(
                patterns::any_matches(
                    patterns::views(attack_patterns()),
                    request_data(uri@, query@),
                ),
                headers,
                query@,
            ) {
                SuspicionStep::Refuse(message(400, "Invalid request"))
            } else {
                SuspicionStep::Pass
            }),
        },
{
    if development {
        return Some(SuspicionStep::Pass);
    }
    match compile_suspicious_patterns() {
        None => None,
        Some(list) => Some(log_suspicious_activity(development, &list, uri, query, headers)),
    }
}

} // verus!
