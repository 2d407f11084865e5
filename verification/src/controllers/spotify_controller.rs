//! Linking a Spotify account, and showing what its owner listens to.

use vstd::prelude::*;

use crate::ids;
use crate::ids::{Oid, parse_oid};
use crate::lists;
use crate::percent;
use crate::reply::{Done, Lookup, Quota, Refusal, after, error};
use crate::text;

verus! {

/// How long the state of a sign-in is valid, in milliseconds.
pub const OAUTH_STATE_TTL_MS: i64 = 600_000;

/// Where to return after linking.
pub struct SpotifyConnectQuery {
    pub return_to: Option<String>,
}

/// What Spotify sends back after a sign-in.
pub struct SpotifyCallbackQuery {
    pub code: Option<String>,
    pub state: Option<String>,
    pub error: Option<String>,
    pub error_description: Option<String>,
}

/// A client that reports what is playing.
pub struct SpotifySyncBody {
    pub client_type: String,
    pub client_instance_id: String,
}

/// Whether to show what is playing.
pub struct ListeningSettingsBody {
    pub share_listening: bool,
}

/// The kind of client that is meant where none is named.
pub fn default_client_type() -> (r: String)
    ensures
        r@ == "web"@,
{
    "web".to_owned()
}

/// The address of the web client.
pub open spec fn client_url(configured: Option<Seq<char>>) -> Seq<char> {
    match configured {
        None => "http://127.0.0.1:5173"@,
        Some(u) => u,
    }
}

/// Finds the address of the web client.
pub fn frontend_url(configured: Option<&str>) -> (r: String)
    ensures
        r@ == client_url(text::opt_str(configured)),
{
    match configured {
        None => "http://127.0.0.1:5173".to_owned(),
        Some(u) => u.to_owned(),
    }
}

/// Whether texts stand in order, each once.
pub open spec fn ascending(s: Seq<Seq<char>>) -> bool {
    forall|i: int, j: int| 0 <= i < j < s.len() ==> text::precedes(#[trigger] s[i], #[trigger] s[j])
}

fn insert_sorted(v: &mut Vec<String>, x: String)
    requires
        ascending(text::texts(old(v)@)),
    ensures
        ascending(text::texts(final(v)@)),
        forall|t: Seq<char>| #[trigger]
            text::texts(final(v)@).contains(t) <==> text::texts(old(v)@).contains(t) || t == x@,
{
    let mut p: usize = 0;
    while p < v.len() && text::sorts_before(v[p].as_str(), x.as_str())
        invariant
            p <= v.len(),
            v@ == old(v)@,
            forall|i: int| 0 <= i < p ==> text::precedes(#[trigger] text::texts(v@)[i], x@),
        decreases v.len() - p,
    {
        p += 1;
    }
    let ghost s = text::texts(v@);
    if p < v.len() && text::same_text(v[p].as_str(), x.as_str()) {
        assert(s[p as int] == x@);
        assert(s.contains(x@));
        return ;
    }
    let ghost word = x@;
    v.insert(p, x);
    proof {
        let t = text::texts(v@);
        assert(t =~= s.insert(p as int, word));
        if p < s.len() {
            text::law_order_is_total(s[p as int], word);
        }
        assert forall|i: int, j: int| 0 <= i < j < t.len() implies text::precedes(
            #[trigger] t[i],
            #[trigger] t[j],
        ) by {
            let a = if i < p { i } else { i - 1 };
            let b = if j < p { j } else { j - 1 };
            if i != p && j != p {
                assert(t[i] == s[a] && t[j] == s[b]);
            } else if j == p {
                assert(t[i] == s[i]);
            } else {
                assert(t[j] == s[b]);
                if b > p {
                    assert(text::precedes(s[p as int], s[b]));
                    text::law_order_is_transitive(word, s[p as int], s[b]);
                }
            }
        }
        assert forall|w: Seq<char>| #[trigger] t.contains(w) <==> s.contains(w) || w == word by {
            if t.contains(w) {
                let k = choose|k: int| 0 <= k < t.len() && t[k] == w;
                if k < p {
                    assert(s[k] == w);
                } else if k > p {
                    assert(s[k - 1] == w);
                }
            }
            if s.contains(w) {
                let k = choose|k: int| 0 <= k < s.len() && s[k] == w;
                if k < p {
                    assert(t[k] == w);
                } else {
                    assert(t[k + 1] == w);
                }
            }
            if w == word {
                assert(t[p as int] == w);
            }
        }
    }
}

/// Whether a sign-in may return to `origin`.
pub open spec fn is_allowed_origin(
    origin: Seq<char>,
    development: bool,
    frontend: Option<Seq<char>>,
    other: Option<Seq<char>>,
) -> bool {
    (development && origin == "http://127.0.0.1:5173"@) || (frontend is Some && origin
        == text::trim_end_of(frontend->0, '/')) || (other is Some && origin == text::trim_end_of(
        other->0,
        '/',
    ))
}

/// The origins that a sign-in may return to, in order, each once: the local one in development,
/// and those configured, without slashes at the end.
pub fn allowed_return_origins(
    development: bool,
    frontend: Option<&str>,
    other: Option<&str>,
) -> (r: Vec<String>)
    ensures
        ascending(text::texts(r@)),
        forall|t: Seq<char>| #[trigger]
            text::texts(r@).contains(t) <==> is_allowed_origin(
                t,
                development,
                text::opt_str(frontend),
                text::opt_str(other),
            ),
{
    let mut v: Vec<String> = Vec::new();
    assert(text::texts(v@) =~= Seq::<Seq<char>>::empty());
    if development {
        insert_sorted(&mut v, "http://127.0.0.1:5173".to_owned());
    }
    if let Some(u) = frontend {
        insert_sorted(&mut v, text::trim_end_char(u, '/'));
    }
    if let Some(u) = other {
        insert_sorted(&mut v, text::trim_end_char(u, '/'));
    }
    v
}

/// Where a sign-in returns to.
pub open spec fn return_origin(
    return_to: Option<Seq<char>>,
    development: bool,
    frontend: Option<Seq<char>>,
    other: Option<Seq<char>>,
) -> Seq<char> {
    let wanted = text::trim_end_of(text::trimmed(return_to->0), '/');
    if return_to is Some && text::trimmed(return_to->0).len() > 0 && is_allowed_origin(
        wanted,
        development,
        frontend,
        other,
    ) {
        wanted
    } else {
        text::trim_end_of(client_url(frontend), '/')
    }
}

/// Finds where a sign-in returns to: to the origin that was asked for if it is allowed, else to
/// the web client.
pub fn normalize_return_origin(
    return_to: Option<&str>,
    development: bool,
    frontend: Option<&str>,
    other: Option<&str>,
) -> (r: String)
    ensures
        r@ == return_origin(
            text::opt_str(return_to),
            development,
            text::opt_str(frontend),
            text::opt_str(other),
        ),
{
    let fallback = text::trim_end_char(frontend_url(frontend).as_str(), '/');
    let raw = match return_to {
        None => return fallback,
        Some(s) => text::trim(s),
    };
    if raw.as_str().is_empty() {
        return fallback;
    }
    let wanted = text::trim_end_char(raw.as_str(), '/');
    let allowed = allowed_return_origins(development, frontend, other);
    if lists::has_text(&allowed, wanted.as_str()) {
        wanted
    } else {
        fallback
    }
}

/// A sign-in returns to an allowed origin or to the web client, whatever was asked for.
pub proof fn law_sign_in_returns_home(
    return_to: Option<Seq<char>>,
    development: bool,
    frontend: Option<Seq<char>>,
    other: Option<Seq<char>>,
)
    ensures
        is_allowed_origin(
            return_origin(return_to, development, frontend, other),
            development,
            frontend,
            other,
        ) || return_origin(return_to, development, frontend, other) == text::trim_end_of(
            client_url(frontend),
            '/',
        ),
{
}

/// A return that is asked for and allowed is taken; without one the sign-in returns to the web client.
/// Allowed are the configured addresses, and in development the local one.
pub proof fn law_allowed_return_is_taken(
    return_to: Option<Seq<char>>,
    development: bool,
    frontend: Option<Seq<char>>,
    other: Option<Seq<char>>,
)
    ensures
        ({
            let wanted = text::trim_end_of(text::trimmed(return_to->0), '/');
            let home = text::trim_end_of(
                match frontend {
                    None => "http://127.0.0.1:5173"@,
                    Some(u) => u,
                },
                '/',
            );
            let allowed = (development && wanted == "http://127.0.0.1:5173"@) || (frontend is Some
                && wanted == text::trim_end_of(frontend->0, '/')) || (other is Some && wanted
                == text::trim_end_of(other->0, '/'));
            let given = return_to is Some && text::trimmed(return_to->0).len() > 0;
            &&& given && allowed ==> return_origin(return_to, development, frontend, other) == wanted
            &&& !given || !allowed ==> return_origin(return_to, development, frontend, other) == home
        }),
{
}

/// Writes a part of a state: letters, digits, `-` and `_` as they are.
pub fn state_part_encode(value: &str) -> (r: String)
    ensures
        r@ == percent::encoded(vstd::utf8::encode_utf8(value@), false),
{
    percent::encode(value, false)
}

/// Writes a value for an address: `.` and `~` stay too.
pub fn url_encode(value: &str) -> (r: String)
    ensures
        r@ == percent::encoded(vstd::utf8::encode_utf8(value@), true),
{
    percent::encode(value, true)
}

/// What `value` spells, taken from an address.
pub open spec fn spelled(value: Seq<char>) -> Option<Seq<char>> {
    percent::decoded(vstd::utf8::encode_utf8(value))
}

/// The view of a text or the reason why there is none.
pub open spec fn or_reason(r: Result<String, &'static str>) -> Result<Seq<char>, &'static str> {
    match r {
        Ok(s) => Ok(s@),
        Err(e) => Err(e),
    }
}

/// Reads a value from an address.
pub fn url_decode(value: &str) -> (r: Result<String, &'static str>)
    ensures
        or_reason(r) == (match spelled(value@) {
            Some(s) => Ok::<Seq<char>, &'static str>(s),
            None => Err("Invalid OAuth return origin"),
        }),
{
    match percent::decode(value) {
        Some(s) => Ok(s),
        None => Err("Invalid OAuth return origin"),
    }
}

/// Reads a part of a state.
pub fn state_part_decode(value: &str) -> (r: Result<String, &'static str>)
    ensures
        or_reason(r) == (match spelled(value@) {
            Some(s) => Ok::<Seq<char>, &'static str>(s),
            None => Err("Invalid OAuth return origin"),
        }),
{
    url_decode(value)
}

/// What the signature of a state covers.
pub open spec fn state_message(
    user: Seq<char>,
    expires: int,
    origin: Option<Seq<char>>,
    verifier: Option<Seq<char>>,
) -> Seq<char> {
    let base = "spotify-oauth:"@ + user + seq![':'] + text::decimal_signed(expires);
    let with_origin = match origin {
        None => base,
        Some(o) => base + seq![':'] + o,
    };
    match verifier {
        None => with_origin,
        Some(v) => with_origin + seq![':'] + v,
    }
}

/// Puts together what the signature of a state covers.
pub fn oauth_state_message(
    user: &str,
    expires: i64,
    origin: Option<&str>,
    verifier: Option<&str>,
) -> (r: String)
    ensures
        r@ == state_message(user@, expires as int, text::opt_str(origin), text::opt_str(verifier)),
{
    let mut s = text::join2("spotify-oauth:", user);
    s.push(':');
    s.append(text::write_i64(expires).as_str());
    assert(s@ =~= "spotify-oauth:"@ + user@ + seq![':'] + text::decimal_signed(expires as int));
    if let Some(o) = origin {
        let ghost before = s@;
        s.push(':');
        s.append(o);
        assert(s@ =~= before + seq![':'] + o@);
    }
    if let Some(v) = verifier {
        let ghost before = s@;
        s.push(':');
        s.append(v);
        assert(s@ =~= before + seq![':'] + v@);
    }
    s
}

/// When a state made at `now` runs out.
pub fn state_expiry(now: i64) -> (r: i64)
    requires
        now <= i64::MAX - OAUTH_STATE_TTL_MS,
    ensures
        r == now + OAUTH_STATE_TTL_MS,
{
    now + OAUTH_STATE_TTL_MS
}

/// The text of a state.
pub open spec fn state_text(
    user: Seq<char>,
    expires: int,
    origin: Seq<char>,
    verifier: Seq<char>,
    signature: Seq<char>,
) -> Seq<char> {
    user + seq!['|'] + (text::decimal_signed(expires) + seq!['|'] + (percent::encoded(
        vstd::utf8::encode_utf8(origin),
        false,
    ) + seq!['|'] + (percent::encoded(vstd::utf8::encode_utf8(verifier), false) + seq!['|']
        + signature)))
}

/// Writes the state of a sign-in. `signature` is that of `oauth_state_message`.
pub fn build_oauth_state(
    user: &str,
    expires: i64,
    origin: &str,
    verifier: &str,
    signature: &str,
) -> (r: String)
    ensures
        r@ == state_text(user@, expires as int, origin@, verifier@, signature@),
{
    let mut s = user.to_owned();
    s.push('|');
    s.append(text::write_i64(expires).as_str());
    s.push('|');
    s.append(state_part_encode(origin).as_str());
    s.push('|');
    s.append(state_part_encode(verifier).as_str());
    s.push('|');
    s.append(signature);
    assert(s@ =~= state_text(user@, expires as int, origin@, verifier@, signature@));
    s
}

/// How a state stands: its signature is to be checked, or it holds, or it does not.
pub enum StateCheck {
    CheckSignature { message: String, signature: String },
    Accept { user: Oid, origin: String, verifier: Option<String> },
    Reject(&'static str),
}

/// The view of how a state stands.
pub enum StateCheckView {
    CheckSignature { message: Seq<char>, signature: Seq<char> },
    Accept { user: Oid, origin: Seq<char>, verifier: Option<Seq<char>> },
    Reject(&'static str),
}

impl View for StateCheck {
    type V = StateCheckView;

    open spec fn view(&self) -> StateCheckView {
        match self {
            StateCheck::CheckSignature { message, signature } => StateCheckView::CheckSignature {
                message: message@,
                signature: signature@,
            },
            StateCheck::Accept { user, origin, verifier } => StateCheckView::Accept {
                user: *user,
                origin: origin@,
                verifier: text::opt(*verifier),
            },
            StateCheck::Reject(why) => StateCheckView::Reject(why),
        }
    }
}

/// How a state stands whose parts have been read. `signed` is whether its signature is right,
/// once that is known.
pub open spec fn parts_check(
    user: Seq<char>,
    expires: Option<i64>,
    origin: Option<Seq<char>>,
    shown_origin: Seq<char>,
    verifier: Option<Seq<char>>,
    signature: Seq<char>,
    now: i64,
    signed: Option<bool>,
) -> StateCheckView {
    if expires is None {
        StateCheckView::Reject("Invalid OAuth state expiry")
    } else if now > expires->0 {
        StateCheckView::Reject("OAuth state expired")
    } else if signed is None {
        StateCheckView::CheckSignature {
            message: state_message(user, expires->0 as int, origin, verifier),
            signature,
        }
    } else if !signed->0 {
        StateCheckView::Reject("Invalid OAuth state signature")
    } else if ids::oid_of(user) is None {
        StateCheckView::Reject("Invalid user id in OAuth state")
    } else {
        StateCheckView::Accept { user: ids::oid_of(user)->0, origin: shown_origin, verifier }
    }
}

fn check_parts(
    user: &str,
    expires: i64,
    origin: Option<&str>,
    shown_origin: &str,
    verifier: Option<&str>,
    signature: &str,
    now: i64,
    signed: Option<bool>,
) -> (r: StateCheck)
    ensures
        r@ == parts_check(
            user@,
            Some(expires),
            text::opt_str(origin),
            shown_origin@,
            text::opt_str(verifier),
            signature@,
            now,
            signed,
        ),
{
    if now > expires {
        return StateCheck::Reject("OAuth state expired");
    }
    match signed {
        None => StateCheck::CheckSignature {
            message: oauth_state_message(user, expires, origin, verifier),
            signature: signature.to_owned(),
        },
        Some(false) => StateCheck::Reject("Invalid OAuth state signature"),
        Some(true) => match parse_oid(user) {
            None => StateCheck::Reject("Invalid user id in OAuth state"),
            Some(id) => StateCheck::Accept {
                user: id,
                origin: shown_origin.to_owned(),
                verifier: match verifier {
                    None => None,
                    Some(v) => Some(v.to_owned()),
                },
            },
        },
    }
}

/// How a state in five parts stands.
pub open spec fn pipe_check(state: Seq<char>, now: i64, signed: Option<bool>) -> StateCheckView {
    let parts = text::split_n(state, '|', 5);
    let expires = text::i64_of(parts[1]);
    let origin = spelled(parts[2]);
    let verifier = spelled(parts[3]);
    if parts.len() != 5 {
        StateCheckView::Reject("Invalid OAuth state")
    } else if expires is None {
        StateCheckView::Reject("Invalid OAuth state expiry")
    } else if origin is None || verifier is None {
        StateCheckView::Reject("Invalid OAuth return origin")
    } else {
        parts_check(parts[0], expires, origin, origin->0, verifier, parts[4], now, signed)
    }
}

/// Checks a state in five parts.
pub fn verify_pipe_oauth_state(state: &str, now: i64, signed: Option<bool>) -> (r: StateCheck)
    ensures
        r@ == pipe_check(state@, now, signed),
{
    let parts = text::split_at_most(state, '|', 5);
    proof {
        assert(text::texts(parts@).len() == parts@.len());
    }
    if parts.len() != 5 {
        return StateCheck::Reject("Invalid OAuth state");
    }
    assert(text::texts(parts@)[0] == parts@[0]@);
    assert(text::texts(parts@)[1] == parts@[1]@);
    assert(text::texts(parts@)[2] == parts@[2]@);
    assert(text::texts(parts@)[3] == parts@[3]@);
    assert(text::texts(parts@)[4] == parts@[4]@);
    let expires = match text::parse_i64(parts[1].as_str()) {
        None => return StateCheck::Reject("Invalid OAuth state expiry"),
        Some(t) => t,
    };
    let origin = match state_part_decode(parts[2].as_str()) {
        Err(why) => return StateCheck::Reject(why),
        Ok(s) => s,
    };
    let verifier = match state_part_decode(parts[3].as_str()) {
        Err(why) => return StateCheck::Reject(why),
        Ok(s) => s,
    };
    check_parts(
        parts[0].as_str(),
        expires,
        Some(origin.as_str()),
        origin.as_str(),
        Some(verifier.as_str()),
        parts[4].as_str(),
        now,
        signed,
    )
}

/// How a state in three or four parts stands; `home` is where one without an origin returns to.
pub open spec fn dot_check(
    state: Seq<char>,
    home: Seq<char>,
    now: i64,
    signed: Option<bool>,
) -> StateCheckView {
    let parts = text::split_n(state, '.', 4);
    let expires = text::i64_of(parts[1]);
    let origin = spelled(parts[2]);
    if parts.len() == 3 {
        parts_check(parts[0], expires, None, home, None, parts[2], now, signed)
    } else if parts.len() != 4 {
        StateCheckView::Reject("Invalid OAuth state")
    } else if expires is None {
        StateCheckView::Reject("Invalid OAuth state expiry")
    } else if origin is None {
        StateCheckView::Reject("Invalid OAuth return origin")
    } else {
        parts_check(parts[0], expires, origin, origin->0, None, parts[3], now, signed)
    }
}

/// Checks a state in three or four parts.
pub fn verify_legacy_dot_oauth_state(
    state: &str,
    home: &str,
    now: i64,
    signed: Option<bool>,
) -> (r: StateCheck)
    ensures
        r@ == dot_check(state@, home@, now, signed),
{
    let parts = text::split_at_most(state, '.', 4);
    proof {
        assert(text::texts(parts@).len() == parts@.len());
    }
    if parts.len() != 3 && parts.len() != 4 {
        return StateCheck::Reject("Invalid OAuth state");
    }
    assert(text::texts(parts@)[0] == parts@[0]@);
    assert(text::texts(parts@)[1] == parts@[1]@);
    assert(text::texts(parts@)[2] == parts@[2]@);
    let expires = match text::parse_i64(parts[1].as_str()) {
        None => return StateCheck::Reject("Invalid OAuth state expiry"),
        Some(t) => t,
    };
    if parts.len() == 3 {
        return check_parts(
            parts[0].as_str(),
            expires,
            None,
            home,
            None,
            parts[2].as_str(),
            now,
            signed,
        );
    }
    assert(text::texts(parts@)[3] == parts@[3]@);
    let origin = match state_part_decode(parts[2].as_str()) {
        Err(why) => return StateCheck::Reject(why),
        Ok(s) => s,
    };
    check_parts(
        parts[0].as_str(),
        expires,
        Some(origin.as_str()),
        origin.as_str(),
        None,
        parts[3].as_str(),
        now,
        signed,
    )
}

/// How a state stands.
pub open spec fn state_check(
    state: Seq<char>,
    home: Seq<char>,
    now: i64,
    signed: Option<bool>,
) -> StateCheckView {
    if state.contains('|') {
        pipe_check(state, now, signed)
    } else {
        dot_check(state, home, now, signed)
    }
}

/// Checks the state of a sign-in at `now`. `signed` is whether its signature is right, once that
/// is known.
pub fn verify_oauth_state(state: &str, home: &str, now: i64, signed: Option<bool>) -> (r: StateCheck)
    ensures
        r@ == state_check(state@, home@, now, signed),
{
    if text::has_char(state, '|') {
        verify_pipe_oauth_state(state, now, signed)
    } else {
        verify_legacy_dot_oauth_state(state, home, now, signed)
    }
}

proof fn lemma_no_pipe_in_decimal(n: int)
    ensures
        !text::decimal_signed(n).contains('|'),
{
    let m = (if n < 0 { -n } else { n }) as nat;
    text::law_decimal_reads_back(m);
    let d = text::decimal(m);
    assert forall|i: int| 0 <= i < text::decimal_signed(n).len() implies text::decimal_signed(n)[i] != '|' by {
        if n < 0 {
            if i > 0 {
                assert(text::decimal_signed(n)[i] == d[i - 1]);
            }
        } else {
            assert(text::decimal_signed(n)[i] == d[i]);
        }
    }
}

proof fn lemma_no_pipe_in_written(s: Seq<char>)
    ensures
        !percent::encoded(vstd::utf8::encode_utf8(s), false).contains('|'),
{
    let e = percent::encoded(vstd::utf8::encode_utf8(s), false);
    percent::law_written_text_is_safe(vstd::utf8::encode_utf8(s), false);
    assert forall|i: int| 0 <= i < e.len() implies e[i] != '|' by {
        assert(percent::is_written(e[i], false));
    }
}

proof fn lemma_parts_of_state(
    user: Seq<char>,
    expires: i64,
    origin: Seq<char>,
    verifier: Seq<char>,
    signature: Seq<char>,
)
    requires
        ids::is_oid_text(user),
        vstd::utf8::is_ascii_chars(origin),
        vstd::utf8::is_ascii_chars(verifier),
    ensures
        ({
            let state = state_text(user, expires as int, origin, verifier, signature);
            let parts = text::split_n(state, '|', 5);
            &&& state.contains('|')
            &&& parts.len() == 5
            &&& parts[0] == user
            &&& text::i64_of(parts[1]) == Some(expires)
            &&& spelled(parts[2]) == Some(origin)
            &&& spelled(parts[3]) == Some(verifier)
            &&& parts[4] == signature
        }),
{
    let eo = percent::encoded(vstd::utf8::encode_utf8(origin), false);
    let ev = percent::encoded(vstd::utf8::encode_utf8(verifier), false);
    let d = text::decimal_signed(expires as int);
    let state = state_text(user, expires as int, origin, verifier, signature);
    let r3 = ev + seq!['|'] + signature;
    let r2 = eo + seq!['|'] + r3;
    let r1 = d + seq!['|'] + r2;
    assert(state == user + seq!['|'] + r1);
    assert(!user.contains('|')) by {
        assert forall|i: int| 0 <= i < user.len() implies user[i] != '|' by {
            assert(ids::is_hex_digit(user[i]));
        }
    }
    lemma_no_pipe_in_decimal(expires as int);
    lemma_no_pipe_in_written(origin);
    lemma_no_pipe_in_written(verifier);
    text::lemma_split_n_first(user, r1, '|', 5);
    text::lemma_split_n_first(d, r2, '|', 4);
    text::lemma_split_n_first(eo, r3, '|', 3);
    text::lemma_split_n_first(ev, signature, '|', 2);
    assert(text::split_n(signature, '|', 1) == seq![signature]);
    let parts = text::split_n(state, '|', 5);
    assert(parts =~= seq![user, d, eo, ev, signature]);
    text::law_signed_decimal_reads_back(expires);
    percent::law_ascii_text_reads_back(origin, false);
    percent::law_ascii_text_reads_back(verifier, false);
    assert(state[user.len() as int] == '|');
    assert(state.contains('|'));
}

/// A state that was built reads back until it runs out: the signature is checked against the
/// message that it was made for, and once that is right the state gives the user, the origin and
/// the verifier that it was built from.
pub proof fn law_built_state_reads_back(
    user: Seq<char>,
    expires: i64,
    origin: Seq<char>,
    verifier: Seq<char>,
    signature: Seq<char>,
    home: Seq<char>,
    now: i64,
)
    requires
        ids::is_oid_text(user),
        vstd::utf8::is_ascii_chars(origin),
        vstd::utf8::is_ascii_chars(verifier),
        now <= expires,
    ensures
        ({
            let state = state_text(user, expires as int, origin, verifier, signature);
            &&& state_check(state, home, now, None) == StateCheckView::CheckSignature {
                message: state_message(user, expires as int, Some(origin), Some(verifier)),
                signature,
            }
            &&& state_check(state, home, now, Some(true)) == StateCheckView::Accept {
                user: ids::oid_of(user)->0,
                origin,
                verifier: Some(verifier),
            }
            &&& state_check(state, home, now, Some(false)) == StateCheckView::Reject(
                "Invalid OAuth state signature",
            )
        }),
{
    lemma_parts_of_state(user, expires, origin, verifier, signature);
}

/// A state is refused as expired once its time is over, however it is signed.
pub proof fn law_state_runs_out(
    user: Seq<char>,
    expires: i64,
    origin: Seq<char>,
    verifier: Seq<char>,
    signature: Seq<char>,
    home: Seq<char>,
    now: i64,
    signed: Option<bool>,
)
    requires
        ids::is_oid_text(user),
        vstd::utf8::is_ascii_chars(origin),
        vstd::utf8::is_ascii_chars(verifier),
        expires < now,
    ensures
        state_check(
            state_text(user, expires as int, origin, verifier, signature),
            home,
            now,
            signed,
        ) == StateCheckView::Reject("OAuth state expired"),
{
    lemma_parts_of_state(user, expires, origin, verifier, signature);
}

proof fn lemma_same_ends(a: Seq<char>, x: Seq<char>, y: Seq<char>, b: Seq<char>)
    requires
        a + x + b == a + y + b,
    ensures
        x == y,
{
    let s = a + x + b;
    let t = a + y + b;
    assert(s.len() == t.len());
    assert(x =~= s.subrange(a.len() as int, (a.len() + x.len()) as int));
    assert(y =~= t.subrange(a.len() as int, (a.len() + y.len()) as int));
}

/// What is signed changes with each part of a state: where one is replaced, the message is
/// another one.
pub proof fn law_replaced_part_changes_what_is_signed(
    user: Seq<char>,
    expires: i64,
    origin: Seq<char>,
    verifier: Seq<char>,
    other: Seq<char>,
    later: i64,
)
    ensures
        ({
            let signed = state_message(user, expires as int, Some(origin), Some(verifier));
            &&& other != user ==> state_message(other, expires as int, Some(origin), Some(verifier))
                != signed
            &&& later != expires ==> state_message(user, later as int, Some(origin), Some(verifier))
                != signed
            &&& other != origin ==> state_message(user, expires as int, Some(other), Some(verifier))
                != signed
            &&& other != verifier ==> state_message(user, expires as int, Some(origin), Some(other))
                != signed
        }),
{
    let start = "spotify-oauth:"@;
    let c = seq![':'];
    let d = text::decimal_signed(expires as int);
    let l = text::decimal_signed(later as int);
    let signed = state_message(user, expires as int, Some(origin), Some(verifier));
    if state_message(other, expires as int, Some(origin), Some(verifier)) == signed {
        let end = c + d + c + origin + c + verifier;
        assert(signed =~= start + user + end);
        assert(signed =~= start + other + end);
        lemma_same_ends(start, user, other, end);
    }
    if state_message(user, later as int, Some(origin), Some(verifier)) == signed {
        let begin = start + user + c;
        let end = c + origin + c + verifier;
        assert(signed =~= begin + d + end);
        assert(signed =~= begin + l + end);
        lemma_same_ends(begin, d, l, end);
        text::law_signed_decimal_reads_back(expires);
        text::law_signed_decimal_reads_back(later);
    }
    if state_message(user, expires as int, Some(other), Some(verifier)) == signed {
        let begin = start + user + c + d + c;
        let end = c + verifier;
        assert(signed =~= begin + origin + end);
        assert(signed =~= begin + other + end);
        lemma_same_ends(begin, origin, other, end);
    }
    if state_message(user, expires as int, Some(origin), Some(other)) == signed {
        let begin = start + user + c + d + c + origin + c;
        let end = Seq::<char>::empty();
        assert(signed =~= begin + verifier + end);
        assert(signed =~= begin + other + end);
        lemma_same_ends(begin, verifier, other, end);
    }
}

/// A state is accepted only with a right signature, before it runs out, and for a user.
pub proof fn law_accepted_state_is_signed_and_fresh(
    state: Seq<char>,
    home: Seq<char>,
    now: i64,
    signed: Option<bool>,
)
    requires
        state_check(state, home, now, signed) is Accept,
    ensures
        signed == Some(true),
        state_check(state, home, now, None) is CheckSignature,
{
}

/// What an error that Spotify reports is shown as.
pub open spec fn spotify_error_text(error: Seq<char>, description: Seq<char>) -> Seq<char> {
    let base = if error == "access_denied"@ {
        "Odmowa dostępu Spotify. W trybie Development dodaj swój adres e-mail konta Spotify w Spotify Developer Dashboard → User Management → Add user."@
    } else if error == "invalid_scope"@ {
        "Nieprawidłowy zakres uprawnień Spotify."@
    } else if error == "server_error"@ {
        "Błąd serwera Spotify. Spróbuj ponownie za chwilę i zaloguj się bezpośrednio e-mailem Spotify (nie przez Google/Facebook/Apple)."@
    } else {
        "Błąd Spotify: "@ + error
    };
    if description.len() == 0 {
        base
    } else {
        base + " ("@ + description + ")"@
    }
}

/// Puts an error that Spotify reports into words.
pub fn map_spotify_oauth_error(error: &str, description: &str) -> (r: String)
    ensures
        r@ == spotify_error_text(error@, description@),
{
    let mut base = if text::same_text(error, "access_denied") {
        "Odmowa dostępu Spotify. W trybie Development dodaj swój adres e-mail konta Spotify w Spotify Developer Dashboard → User Management → Add user.".to_owned()
    } else if text::same_text(error, "invalid_scope") {
        "Nieprawidłowy zakres uprawnień Spotify.".to_owned()
    } else if text::same_text(error, "server_error") {
        "Błąd serwera Spotify. Spróbuj ponownie za chwilę i zaloguj się bezpośrednio e-mailem Spotify (nie przez Google/Facebook/Apple).".to_owned()
    } else {
        text::join2("Błąd Spotify: ", error)
    };
    if description.is_empty() {
        base
    } else {
        base.append(" (");
        base.append(description);
        base.append(")");
        base
    }
}

/// What the rules read of the account of a listener.
#[derive(Clone, Copy, Debug, PartialEq, Eq)]
pub struct Listener {
    pub id: Option<Oid>,
    pub login_allowed: bool,
    pub is_bot: bool,
    pub shares: bool,
}

/// How the account of a user stands.
#[derive(Clone, Copy, Debug, PartialEq, Eq)]
pub enum ActiveUser {
    Load(Oid),
    Ready(Listener),
    Refuse(Refusal),
}

/// How the account of `user` stands; bots count where `bots` holds.
pub open spec fn active_user(user: Seq<char>, bots: bool, account: Option<Lookup<Listener>>) -> ActiveUser {
    if ids::oid_of(user) is None {
        ActiveUser::Refuse(error(401, "Authentication required"))
    } else if account is None {
        ActiveUser::Load(ids::oid_of(user)->0)
    } else if account->0 is Missing {
        ActiveUser::Refuse(error(401, "Authentication required"))
    } else if account->0 is Failed {
        ActiveUser::Refuse(error(500, "Server error"))
    } else if account->0->0.login_allowed && (bots || !account->0->0.is_bot) {
        ActiveUser::Ready(account->0->0)
    } else {
        ActiveUser::Refuse(error(403, "Forbidden"))
    }
}

/// Finds how the account of a user stands.
pub fn load_active_user(user: &str, bots: bool, account: Option<Lookup<Listener>>) -> (r: ActiveUser)
    ensures
        r == active_user(user@, bots, account),
{
    let oid = match parse_oid(user) {
        None => return ActiveUser::Refuse(error(401, "Authentication required")),
        Some(id) => id,
    };
    match account {
        None => ActiveUser::Load(oid),
        Some(Lookup::Missing) => ActiveUser::Refuse(error(401, "Authentication required")),
        Some(Lookup::Failed) => ActiveUser::Refuse(error(500, "Server error")),
        Some(Lookup::Found(u)) => {
            if u.login_allowed && (bots || !u.is_bot) {
                ActiveUser::Ready(u)
            } else {
                ActiveUser::Refuse(error(403, "Forbidden"))
            }
        },
    }
}

/// A user whose account was found and may log in is let through, a bot only where bots may; nobody else
/// is.
pub proof fn law_active_users_are_let_through(
    user: Seq<char>,
    bots: bool,
    account: Option<Lookup<Listener>>,
)
    ensures
        ({
            let s = active_user(user, bots, account);
            let found = account is Some && account->0 is Found;
            let a = account->0->0;
            &&& ids::oid_of(user) is Some && found && a.login_allowed && (bots || !a.is_bot) <==> s is
                Ready
            &&& s is Ready ==> s == ActiveUser::Ready(a)
            &&& ids::oid_of(user) is Some && account is None <==> s is Load
            &&& s is Load ==> s == ActiveUser::Load(ids::oid_of(user)->0)
            &&& ids::oid_of(user) is Some && found && s !is Ready ==> s == ActiveUser::Refuse(
                error(403, "Forbidden"),
            )
        }),
{
}

/// What is known while the link of a user is shown or made.
#[derive(Clone, Copy, Debug)]
pub struct LinkFacts {
    /// Whether the integration is configured.
    pub enabled: bool,
    /// Whether the request was within the rate limit.
    pub counted: Option<bool>,
    pub account: Option<Lookup<Listener>>,
    pub connected: Option<bool>,
    /// The address of the sign-in was made.
    pub built: Option<Done>,
}

/// Where a sign-in may return to.
pub struct ReturnSites {
    pub development: bool,
    pub frontend: Option<String>,
    pub other: Option<String>,
}

/// Where a sign-in returns to.
pub open spec fn chosen_origin(return_to: Option<String>, sites: ReturnSites) -> Seq<char> {
    return_origin(
        text::opt(return_to),
        sites.development,
        text::opt(sites.frontend),
        text::opt(sites.other),
    )
}

/// Chooses where a sign-in returns to.
pub fn choose_origin(return_to: &Option<String>, sites: &ReturnSites) -> (r: String)
    ensures
        r@ == chosen_origin(*return_to, *sites),
{
    normalize_return_origin(
        text::as_opt_str(return_to),
        sites.development,
        text::as_opt_str(&sites.frontend),
        text::as_opt_str(&sites.other),
    )
}

/// What to do next while the link of a user is shown or made.
#[derive(Debug, PartialEq, Eq)]
pub enum LinkStep {
    /// Count one request under the key.
    CountRequest { key: String, quota: Quota },
    LoadUser(Oid),
    AskConnected(Oid),
    /// Make the state of the sign-in, for the user and with this return, and its address.
    BuildAddress { user: String, origin: String },
    ReplyStatus { connected: bool, shares: bool, enabled: bool },
    /// Send the client on to the address.
    Redirect,
    /// Reply with the address.
    ReplyAddress,
    /// Refuse with this status and the words of the failure.
    RefuseFailure(u16),
    Refuse(Refusal),
}

/// The view of `LinkStep`.
#[verifier::ext_equal]
pub enum LinkStepView {
    CountRequest { key: Seq<char>, quota: Quota },
    LoadUser(Oid),
    AskConnected(Oid),
    BuildAddress { user: Seq<char>, origin: Seq<char> },
    ReplyStatus { connected: bool, shares: bool, enabled: bool },
    Redirect,
    ReplyAddress,
    RefuseFailure(u16),
    Refuse(Refusal),
}

impl View for LinkStep {
    type V = LinkStepView;

    open spec fn view(&self) -> LinkStepView {
        match self {
            LinkStep::CountRequest { key, quota } => LinkStepView::CountRequest {
                key: key@,
                quota: *quota,
            },
            LinkStep::LoadUser(a) => LinkStepView::LoadUser(*a),
            LinkStep::AskConnected(a) => LinkStepView::AskConnected(*a),
            LinkStep::BuildAddress { user, origin } => LinkStepView::BuildAddress {
                user: user@,
                origin: origin@,
            },
            LinkStep::ReplyStatus { connected, shares, enabled } => LinkStepView::ReplyStatus {
                connected: *connected,
                shares: *shares,
                enabled: *enabled,
            },
            LinkStep::Redirect => LinkStepView::Redirect,
            LinkStep::ReplyAddress => LinkStepView::ReplyAddress,
            LinkStep::RefuseFailure(a) => LinkStepView::RefuseFailure(*a),
            LinkStep::Refuse(a) => LinkStepView::Refuse(*a),
        }
    }
}

/// How often a user may ask whether a link stands.
#[verifier::allow_in_spec]
pub fn status_quota() -> Quota
    returns
        (Quota { max: 15, seconds: 60 }),
{
    Quota { max: 15, seconds: 60 }
}

/// How often a user may report what is playing.
#[verifier::allow_in_spec]
pub fn sync_quota() -> Quota
    returns
        (Quota { max: 8, seconds: 60 }),
{
    Quota { max: 8, seconds: 60 }
}

pub open spec fn status_step(user: Option<&str>, f: LinkFacts) -> LinkStepView {
    if user is None {
        LinkStepView::Refuse(error(401, "Authentication required"))
    } else if f.counted is None {
        LinkStepView::CountRequest { key: "spotify-status:"@ + user->0@, quota: status_quota() }
    } else if !f.counted->0 {
        LinkStepView::Refuse(error(429, "Rate limit exceeded"))
    } else {
        match active_user(user->0@, false, f.account) {
            ActiveUser::Load(id) => LinkStepView::LoadUser(id),
            ActiveUser::Refuse(_) => LinkStepView::Refuse(error(401, "Authentication required")),
            ActiveUser::Ready(u) => if u.id is None {
                LinkStepView::Refuse(error(500, "Server error"))
            } else {
                match f.connected {
                    None => LinkStepView::AskConnected(u.id->0),
                    Some(connected) => LinkStepView::ReplyStatus {
                        connected,
                        shares: u.shares,
                        enabled: f.enabled,
                    },
                }
            },
        }
    }
}

/// Decides the next step of showing whether Spotify is linked.
pub fn spotify_status(user: Option<&str>, f: &LinkFacts) -> (r: LinkStep)
    ensures
        r@ == status_step(user, *f),
{
    let user = match user {
        None => return LinkStep::Refuse(error(401, "Authentication required")),
        Some(u) => u,
    };
    match f.counted {
        None => return LinkStep::CountRequest {
            key: text::join2("spotify-status:", user),
            quota: status_quota(),
        },
        Some(allowed) => {
            if !allowed {
                return LinkStep::Refuse(error(429, "Rate limit exceeded"));
            }
        },
    }
    match load_active_user(user, false, f.account) {
        ActiveUser::Load(id) => LinkStep::LoadUser(id),
        ActiveUser::Refuse(_) => LinkStep::Refuse(error(401, "Authentication required")),
        ActiveUser::Ready(u) => match u.id {
            None => LinkStep::Refuse(error(500, "Server error")),
            Some(id) => match f.connected {
                None => LinkStep::AskConnected(id),
                Some(connected) => LinkStep::ReplyStatus {
                    connected,
                    shares: u.shares,
                    enabled: f.enabled,
                },
            },
        },
    }
}

/// A user who may log in sees the state of the link: the request is not refused while nothing fails and
/// it is within 15 a minute.
pub proof fn law_link_status_is_shown(
    user: Option<&str>,
    f: LinkFacts,
)
    requires
        user is Some && ids::oid_of(user->0@) is Some,
        f.account matches Some(a) ==> a is Found && a->0.login_allowed && !a->0.is_bot && a->0.id is
            Some,
        f.counted != Some(false),
    ensures
        ({
            let s = status_step(user, f);
            &&& s !is Refuse
            &&& f.counted is None ==> s == (LinkStepView::CountRequest {
                key: "spotify-status:"@ + user->0@,
                quota: (Quota { max: 15, seconds: 60 }),
            })
            &&& f.counted is Some && f.account is None ==> s == LinkStepView::LoadUser(
                ids::oid_of(user->0@)->0,
            )
            &&& f.counted is Some && f.account is Some && f.connected is None ==> s
                == LinkStepView::AskConnected(f.account->0->0.id->0)
            &&& f.counted is Some && f.account is Some && f.connected is Some ==> s == (
            LinkStepView::ReplyStatus {
                connected: f.connected->0,
                shares: f.account->0->0.shares,
                enabled: f.enabled,
            })
        }),
{
}

pub open spec fn connect_step(
    user: Option<&str>,
    query: SpotifyConnectQuery,
    sites: ReturnSites,
    redirect: bool,
    f: LinkFacts,
) -> LinkStepView {
    if !f.enabled {
        LinkStepView::Refuse(error(503, "Spotify integration is not configured"))
    } else if user is None {
        LinkStepView::Refuse(error(401, "Authentication required"))
    } else {
        match active_user(user->0@, false, f.account) {
            ActiveUser::Load(id) => LinkStepView::LoadUser(id),
            ActiveUser::Refuse(_) => LinkStepView::Refuse(error(401, "Authentication required")),
            ActiveUser::Ready(_) => match f.built {
                None => LinkStepView::BuildAddress {
                    user: user->0@,
                    origin: chosen_origin(query.return_to, sites),
                },
                Some(Done::Failed) => LinkStepView::RefuseFailure(500),
                Some(Done::Worked) => if redirect {
                    LinkStepView::Redirect
                } else {
                    LinkStepView::ReplyAddress
                },
            },
        }
    }
}

fn sign_in(
    user: Option<&str>,
    query: &SpotifyConnectQuery,
    sites: &ReturnSites,
    redirect: bool,
    f: &LinkFacts,
) -> (r: LinkStep)
    ensures
        r@ == connect_step(user, *query, *sites, redirect, *f),
{
    if !f.enabled {
        return LinkStep::Refuse(error(503, "Spotify integration is not configured"));
    }
    let user = match user {
        None => return LinkStep::Refuse(error(401, "Authentication required")),
        Some(u) => u,
    };
    match load_active_user(user, false, f.account) {
        ActiveUser::Load(id) => LinkStep::LoadUser(id),
        ActiveUser::Refuse(_) => LinkStep::Refuse(error(401, "Authentication required")),
        ActiveUser::Ready(_) => match f.built {
            None => LinkStep::BuildAddress {
                user: user.to_owned(),
                origin: choose_origin(&query.return_to, sites),
            },
            Some(Done::Failed) => LinkStep::RefuseFailure(500),
            Some(Done::Worked) => if redirect {
                LinkStep::Redirect
            } else {
                LinkStep::ReplyAddress
            },
        },
    }
}

/// Decides the next step of sending a user to the sign-in.
pub fn spotify_connect(
    user: Option<&str>,
    query: &SpotifyConnectQuery,
    sites: &ReturnSites,
    f: &LinkFacts,
) -> (r: LinkStep)
    ensures
        r@ == connect_step(user, *query, *sites, true, *f),
{
    sign_in(user, query, sites, true, f)
}

/// Decides the next step of handing a user the address of the sign-in.
pub fn spotify_connect_url(
    user: Option<&str>,
    query: &SpotifyConnectQuery,
    sites: &ReturnSites,
    f: &LinkFacts,
) -> (r: LinkStep)
    ensures
        r@ == connect_step(user, *query, *sites, false, *f),
{
    sign_in(user, query, sites, false, f)
}

/// A sign-in is begun for the user who asks, and returns to an origin that is allowed or home.
pub proof fn law_sign_in_is_begun_for_its_user(
    user: Option<&str>,
    query: SpotifyConnectQuery,
    sites: ReturnSites,
    redirect: bool,
    f: LinkFacts,
)
    ensures
        connect_step(user, query, sites, redirect, f) matches LinkStepView::BuildAddress {
            user: u,
            origin,
        } ==> user is Some && u == user->0@ && f.enabled && (is_allowed_origin(
            origin,
            sites.development,
            text::opt(sites.frontend),
            text::opt(sites.other),
        ) || origin == text::trim_end_of(client_url(text::opt(sites.frontend)), '/')),
{
    law_sign_in_returns_home(
        text::opt(query.return_to),
        sites.development,
        text::opt(sites.frontend),
        text::opt(sites.other),
    );
}

/// A user who may log in begins a sign-in where the integration is configured: the request is not refused
/// while nothing fails, and ends with the address, as a redirect or in the reply.
pub proof fn law_sign_in_is_begun(
    user: Option<&str>,
    query: SpotifyConnectQuery,
    sites: ReturnSites,
    redirect: bool,
    f: LinkFacts,
)
    requires
        user is Some && ids::oid_of(user->0@) is Some,
        f.account matches Some(a) ==> a is Found && a->0.login_allowed && !a->0.is_bot && a->0.id is
            Some,
        f.enabled,
    ensures
        ({
            let s = connect_step(user, query, sites, redirect, f);
            &&& s !is Refuse
            &&& f.account is None ==> s == LinkStepView::LoadUser(ids::oid_of(user->0@)->0)
            &&& f.account is Some && f.built is None ==> s is BuildAddress
            &&& f.account is Some && f.built == Some(Done::Worked) && redirect ==> s is Redirect
            &&& f.account is Some && f.built == Some(Done::Worked) && !redirect ==> s is ReplyAddress
            &&& f.account is Some && f.built == Some(Done::Failed) ==> s == LinkStepView::RefuseFailure(
                500,
            )
        }),
{
}

/// The words that ask a user to link Spotify anew.
pub open spec fn reauth_hint() -> Seq<char> {
    "Spotify już zatwierdziło tę aplikację, ale Klovy nie ma zapisanego tokenu. Wejdź na https://www.spotify.com/account/apps/, usuń aplikację Klovy i połącz ponownie."@
}

/// A token that is stored for a user, as far as it can be read.
pub enum StoredToken {
    Missing,
    Readable(String),
    /// It cannot be read, for the reason given.
    Broken(String),
}

/// The token that keeps the link alive: the one that came with the sign-in, else the stored one.
pub open spec fn refresh_token(given: Option<String>, stored: StoredToken) -> Result<Seq<char>, Seq<char>> {
    match given {
        Some(t) => Ok(t@),
        None => match stored {
            StoredToken::Missing => Err(reauth_hint()),
            StoredToken::Readable(t) => Ok(t@),
            StoredToken::Broken(why) => Err(why@),
        },
    }
}

/// The view of a text or of the words that say why there is none.
pub open spec fn text_or_words(r: Result<String, String>) -> Result<Seq<char>, Seq<char>> {
    match r {
        Ok(s) => Ok(s@),
        Err(e) => Err(e@),
    }
}

/// Picks the token that keeps the link alive.
pub fn resolve_spotify_refresh_token(given: Option<String>, stored: StoredToken) -> (r: Result<
    String,
    String,
>)
    ensures
        text_or_words(r) == refresh_token(given, stored),
{
    match given {
        Some(t) => Ok(t),
        None => match stored {
            StoredToken::Missing => Err(
                "Spotify już zatwierdziło tę aplikację, ale Klovy nie ma zapisanego tokenu. Wejdź na https://www.spotify.com/account/apps/, usuń aplikację Klovy i połącz ponownie.".to_owned(),
            ),
            StoredToken::Readable(t) => Ok(t),
            StoredToken::Broken(why) => Err(why),
        },
    }
}

/// The token that came with a sign-in keeps the link alive, else the stored one; without either, or with
/// one that cannot be read, the reason is told.
pub proof fn law_given_token_comes_first(
    given: Option<String>,
    stored: StoredToken,
)
    ensures
        given matches Some(t) ==> refresh_token(given, stored) == Ok::<Seq<char>, Seq<char>>(t@),
        given is None && stored is Readable ==> refresh_token(given, stored) == Ok::<
            Seq<char>,
            Seq<char>,
        >(stored->Readable_0@),
        given is None && stored is Broken ==> refresh_token(given, stored) == Err::<
            Seq<char>,
            Seq<char>,
        >(stored->Broken_0@),
        given is None && stored is Missing ==> refresh_token(given, stored) is Err,
{
}

/// What is known when Spotify sends a user back.
#[derive(Clone, Copy, Debug)]
pub struct CallbackFacts {
    pub enabled: bool,
    /// Whether the state was accepted.
    pub state: Option<bool>,
    pub exchanged: Option<Done>,
    pub refresh: Option<Done>,
    pub stored: Option<Done>,
}

/// What came up while a user was sent back, and where to return to.
pub struct CallbackWork {
    /// The address of the web client.
    pub home: String,
    /// Where the state returns to, the user it is for, and its verifier.
    pub origin: String,
    pub user: Oid,
    pub verifier: Option<String>,
    /// Why the state was not accepted.
    pub state_error: String,
    pub exchange_error: String,
    pub refresh_error: String,
    /// The address that the service returns to.
    pub redirect_uri: String,
}

/// What to do next when Spotify sends a user back.
#[derive(Debug, PartialEq, Eq)]
pub enum CallbackStep {
    CheckState(String),
    ExchangeCode { code: String, verifier: Option<String> },
    /// Find the token that keeps the link of the user alive.
    ResolveRefreshToken(Oid),
    /// Load the profile if it can be had, and store the link of the user.
    Store(Oid),
    /// Send the client on to this address.
    Succeed(String),
    /// Send the client on to this address, which tells of the failure.
    Fail(String),
}

/// The view of `CallbackStep`.
#[verifier::ext_equal]
pub enum CallbackStepView {
    CheckState(Seq<char>),
    ExchangeCode { code: Seq<char>, verifier: Option<Seq<char>> },
    ResolveRefreshToken(Oid),
    Store(Oid),
    Succeed(Seq<char>),
    Fail(Seq<char>),
}

impl View for CallbackStep {
    type V = CallbackStepView;

    open spec fn view(&self) -> CallbackStepView {
        match self {
            CallbackStep::CheckState(a) => CallbackStepView::CheckState(a@),
            CallbackStep::ExchangeCode { code, verifier } => CallbackStepView::ExchangeCode {
                code: code@,
                verifier: text::opt(*verifier),
            },
            CallbackStep::ResolveRefreshToken(a) => CallbackStepView::ResolveRefreshToken(*a),
            CallbackStep::Store(a) => CallbackStepView::Store(*a),
            CallbackStep::Succeed(a) => CallbackStepView::Succeed(a@),
            CallbackStep::Fail(a) => CallbackStepView::Fail(a@),
        }
    }
}

/// The address that tells of a failure.
pub open spec fn failure_at(frontend: Seq<char>, words: Seq<char>) -> Seq<char> {
    frontend + "/?spotify=error&message="@ + percent::encoded(
        vstd::utf8::encode_utf8(words),
        true,
    )
}

/// The words for a failed exchange of the code.
pub open spec fn exchange_words(why: Seq<char>, redirect: Seq<char>) -> Seq<char> {
    if text::contains_text(why, "invalid_grant"@) {
        "Kod autoryzacji wygasł lub redirect URI nie zgadza się z Spotify Dashboard. Upewnij się, że Redirect URI to dokładnie: "@
            + redirect
    } else {
        why
    }
}

/// The steps when Spotify sends a user back. A failure before the state is accepted returns to
/// the web client, one after it to the origin of the state.
pub open spec fn callback_step(
    query: SpotifyCallbackQuery,
    work: CallbackWork,
    f: CallbackFacts,
) -> CallbackStepView {
    let home = text::trim_end_of(work.home@, '/');
    if !f.enabled {
        CallbackStepView::Fail(failure_at(home, "Integracja Spotify nie jest skonfigurowana"@))
    } else if query.error is Some {
        CallbackStepView::Fail(
            failure_at(
                home,
                spotify_error_text(query.error->0@, text::or_empty(query.error_description)),
            ),
        )
    } else if query.code is None {
        CallbackStepView::Fail(failure_at(home, "Brak kodu autoryzacji"@))
    } else if query.state is None {
        CallbackStepView::Fail(failure_at(home, "Brak stanu OAuth"@))
    } else if f.state is None {
        CallbackStepView::CheckState(query.state->0@)
    } else if !f.state->0 {
        CallbackStepView::Fail(failure_at(home, work.state_error@))
    } else if f.exchanged is None {
        CallbackStepView::ExchangeCode { code: query.code->0@, verifier: text::opt(work.verifier) }
    } else if f.exchanged->0 is Failed {
        CallbackStepView::Fail(
            failure_at(
                work.origin@,
                exchange_words(work.exchange_error@, work.redirect_uri@),
            ),
        )
    } else if f.refresh is None {
        CallbackStepView::ResolveRefreshToken(work.user)
    } else if f.refresh->0 is Failed {
        CallbackStepView::Fail(failure_at(work.origin@, work.refresh_error@))
    } else {
        match f.stored {
            None => CallbackStepView::Store(work.user),
            Some(Done::Failed) => CallbackStepView::Fail(
                failure_at(
                    work.origin@,
                    "Nie udało się zapisać połączenia Spotify. Spróbuj połączyć ponownie."@,
                ),
            ),
            Some(Done::Worked) => CallbackStepView::Succeed(work.origin@ + "/?spotify=connected"@),
        }
    }
}

fn fail_at(frontend: &str, words: &str) -> (r: CallbackStep)
    ensures
        r@ == CallbackStepView::Fail(failure_at(frontend@, words@)),
{
    CallbackStep::Fail(failure_address(frontend, words))
}

/// Decides the next step when Spotify sends a user back.
pub fn spotify_callback(query: &SpotifyCallbackQuery, work: &CallbackWork, f: &CallbackFacts) -> (r:
    CallbackStep)
    ensures
        r@ == callback_step(*query, *work, *f),
{
    let home = text::trim_end_char(work.home.as_str(), '/');
    if !f.enabled {
        return fail_at(home.as_str(), "Integracja Spotify nie jest skonfigurowana");
    }
    if let Some(error) = &query.error {
        let description = text::text_or_empty(&query.error_description);
        let words = map_spotify_oauth_error(error.as_str(), description.as_str());
        return fail_at(home.as_str(), words.as_str());
    }
    let code = match &query.code {
        None => return fail_at(home.as_str(), "Brak kodu autoryzacji"),
        Some(code) => code,
    };
    let state = match &query.state {
        None => return fail_at(home.as_str(), "Brak stanu OAuth"),
        Some(state) => state,
    };
    match f.state {
        None => return CallbackStep::CheckState(state.clone()),
        Some(accepted) => {
            if !accepted {
                return fail_at(home.as_str(), work.state_error.as_str());
            }
        },
    }
    match f.exchanged {
        None => return CallbackStep::ExchangeCode {
            code: code.clone(),
            verifier: match &work.verifier {
                None => None,
                Some(v) => Some(v.clone()),
            },
        },
        Some(Done::Failed) => {
            let words = exchange_failure_text(
                work.exchange_error.as_str(),
                work.redirect_uri.as_str(),
            );
            return fail_at(work.origin.as_str(), words.as_str());
        },
        Some(Done::Worked) => {},
    }
    match f.refresh {
        None => return CallbackStep::ResolveRefreshToken(work.user),
        Some(Done::Failed) => return fail_at(work.origin.as_str(), work.refresh_error.as_str()),
        Some(Done::Worked) => {},
    }
    match f.stored {
        None => CallbackStep::Store(work.user),
        Some(Done::Failed) => fail_at(
            work.origin.as_str(),
            "Nie udało się zapisać połączenia Spotify. Spróbuj połączyć ponownie.",
        ),
        Some(Done::Worked) => CallbackStep::Succeed(success_address(work.origin.as_str())),
    }
}

/// A code is exchanged and a link stored only after the state was accepted, for the user of the
/// state.
pub proof fn law_link_needs_accepted_state(
    query: SpotifyCallbackQuery,
    work: CallbackWork,
    f: CallbackFacts,
)
    ensures
        ({
            let s = callback_step(query, work, f);
            s is ExchangeCode || s is Store || s is Succeed ==> f.state == Some(true)
                && query.error is None && query.code is Some
        }),
        callback_step(query, work, f) matches CallbackStepView::Store(user) ==> user == work.user,
{
}

/// A sign-in that the service confirms, under a state that was accepted, is exchanged, stored for the
/// user of the state and ends where that user came from: it does not fail while nothing fails, asks only
/// for what is not known yet, and succeeds only where the link was stored.
pub proof fn law_confirmed_sign_in_is_stored(
    query: SpotifyCallbackQuery,
    work: CallbackWork,
    f: CallbackFacts,
)
    ensures
        ({
            let s = callback_step(query, work, f);
            let fits = f.enabled && query.error is None && query.code is Some && query.state is Some
                && f.state != Some(false) && f.exchanged != Some(Done::Failed) && f.refresh != Some(
                Done::Failed,
            ) && f.stored != Some(Done::Failed);
            &&& fits ==> s !is Fail
            &&& fits && f.state is None ==> s == CallbackStepView::CheckState(query.state->0@)
            &&& fits && f.state is Some && f.exchanged is None ==> s == (
            CallbackStepView::ExchangeCode {
                code: query.code->0@,
                verifier: text::opt(work.verifier),
            })
            &&& fits && f.state is Some && f.exchanged is Some && f.refresh is None ==> s
                == CallbackStepView::ResolveRefreshToken(work.user)
            &&& fits && f.state is Some && f.exchanged is Some && f.refresh is Some && f.stored is None
                ==> s == CallbackStepView::Store(work.user)
            &&& fits && f.state is Some && f.exchanged is Some && f.refresh is Some && f.stored is Some
                <==> s is Succeed
            &&& s matches CallbackStepView::Succeed(at) ==> at == work.origin@
                + "/?spotify=connected"@
        }),
{
}

/// Writes the words for a failed exchange of the code.
pub fn exchange_failure_text(why: &str, redirect: &str) -> (r: String)
    ensures
        r@ == exchange_words(why@, redirect@),
{
    if text::has_text(why, "invalid_grant") {
        text::join2(
            "Kod autoryzacji wygasł lub redirect URI nie zgadza się z Spotify Dashboard. Upewnij się, że Redirect URI to dokładnie: ",
            redirect,
        )
    } else {
        why.to_owned()
    }
}

/// Where a user is sent after a failed sign-in.
pub fn failure_address(frontend: &str, words: &str) -> (r: String)
    ensures
        r@ == frontend@ + "/?spotify=error&message="@ + percent::encoded(
            vstd::utf8::encode_utf8(words@),
            true,
        ),
{
    text::join3(frontend, "/?spotify=error&message=", url_encode(words).as_str())
}

/// Where a user is sent after a successful sign-in.
pub fn success_address(frontend: &str) -> (r: String)
    ensures
        r@ == frontend@ + "/?spotify=connected"@,
{
    text::join2(frontend, "/?spotify=connected")
}

/// What is known while a report of what is playing is taken in.
#[derive(Clone, Copy, Debug)]
pub struct SyncFacts {
    pub counted: Option<bool>,
    pub account: Option<Lookup<Listener>>,
    /// Whether what was shown as playing was cleared.
    pub cleared: bool,
    /// Whether a token is stored.
    pub token: Option<bool>,
    /// What is playing was asked for.
    pub fetched: Option<Done>,
    /// Whether the report counts against what is shown.
    pub applies: Option<bool>,
    pub stored: Option<Lookup<()>>,
}

/// Something that a user listens to.
#[derive(Debug, PartialEq, Eq)]
pub struct Activity {
    pub playing: bool,
    /// It, written out as it is shown.
    pub words: String,
}

/// The view of `Activity`.
#[verifier::ext_equal]
pub struct ActivityView {
    pub playing: bool,
    pub words: Seq<char>,
}

impl View for Activity {
    type V = ActivityView;

    open spec fn view(&self) -> ActivityView {
        ActivityView {
            playing: self.playing,
            words: self.words@,
        }
    }
}

/// The view of an activity that may be missing.
pub open spec fn opt_activity(a: Option<Activity>) -> Option<ActivityView> {
    match a {
        None => None,
        Some(a) => Some(a@),
    }
}

/// What is shown of an activity: nothing unless it is playing.
pub open spec fn shown_activity(a: Option<ActivityView>) -> Option<Seq<char>> {
    match a {
        None => None,
        Some(a) => if a.playing {
            Some(a.words)
        } else {
            None
        },
    }
}

/// Finds what is shown of an activity.
pub fn show_activity(a: &Option<Activity>) -> (r: Option<String>)
    ensures
        text::opt(r) == shown_activity(opt_activity(*a)),
{
    match a {
        None => None,
        Some(a) => {
            if a.playing {
                Some(a.words.as_str().to_owned())
            } else {
                None
            }
        },
    }
}

fn copy_activity(a: &Option<Activity>) -> (r: Option<Activity>)
    ensures
        opt_activity(r) == opt_activity(*a),
{
    match a {
        None => None,
        Some(a) => Some(Activity { playing: a.playing, words: a.words.as_str().to_owned() }),
    }
}

/// What a client says is playing.
#[derive(Debug, PartialEq, Eq)]
pub struct Report {
    pub activity: Option<Activity>,
    pub client_type: String,
    pub client_instance_id: String,
}

/// The view of `Report`.
#[verifier::ext_equal]
pub struct ReportView {
    pub activity: Option<ActivityView>,
    pub client_type: Seq<char>,
    pub client_instance_id: Seq<char>,
}

impl View for Report {
    type V = ReportView;

    open spec fn view(&self) -> ReportView {
        ReportView {
            activity: opt_activity(self.activity),
            client_type: self.client_type@,
            client_instance_id: self.client_instance_id@,
        }
    }
}

/// What is known of the music of a user.
pub struct Music {
    /// What is stored as playing.
    pub stored: Option<Activity>,
    /// What the service says is playing.
    pub fetched: Option<Activity>,
    /// What is stored as playing after the report was taken in.
    pub updated: Option<Activity>,
    /// Whether the user shares it after that.
    pub updated_shares: bool,
}

/// What to do next while a report of what is playing is taken in.
#[derive(Debug, PartialEq, Eq)]
pub enum SyncStep {
    /// Count one request under the key.
    CountRequest { key: String, quota: Quota },
    LoadUser(Oid),
    /// Show nothing as playing any more, and tell those who see it.
    Clear(Oid),
    LoadToken { user: Oid, provider: &'static str },
    /// Renew the access if needed, and ask what is playing on this client.
    Fetch { client_type: String, client_instance_id: String },
    /// Ask whether the report counts against what is stored.
    AskApplies { stored: Option<Activity>, report: Report },
    /// Store what is playing, or that nothing is.
    Store { user: Oid, activity: Option<Activity> },
    /// Reply with what is shown, whether it is shared and, where a report was looked at, whether it
    /// was taken in.
    Reply { shown: Option<String>, shares: bool, applied: Option<bool> },
    /// Tell those who see it, and reply like that.
    TellAndReply { shown: Option<String>, shares: bool, applied: Option<bool> },
    /// Refuse with this status and the words of the failure.
    RefuseFailure(u16),
    Refuse(Refusal),
}

/// The view of `SyncStep`.
#[verifier::ext_equal]
pub enum SyncStepView {
    CountRequest { key: Seq<char>, quota: Quota },
    LoadUser(Oid),
    Clear(Oid),
    LoadToken { user: Oid, provider: &'static str },
    Fetch { client_type: Seq<char>, client_instance_id: Seq<char> },
    AskApplies { stored: Option<ActivityView>, report: ReportView },
    Store { user: Oid, activity: Option<ActivityView> },
    Reply { shown: Option<Seq<char>>, shares: bool, applied: Option<bool> },
    TellAndReply { shown: Option<Seq<char>>, shares: bool, applied: Option<bool> },
    RefuseFailure(u16),
    Refuse(Refusal),
}

impl View for SyncStep {
    type V = SyncStepView;

    open spec fn view(&self) -> SyncStepView {
        match self {
            SyncStep::CountRequest { key, quota } => SyncStepView::CountRequest {
                key: key@,
                quota: *quota,
            },
            SyncStep::LoadUser(a) => SyncStepView::LoadUser(*a),
            SyncStep::Clear(a) => SyncStepView::Clear(*a),
            SyncStep::LoadToken { user, provider } => SyncStepView::LoadToken {
                user: *user,
                provider: *provider,
            },
            SyncStep::Fetch { client_type, client_instance_id } => SyncStepView::Fetch {
                client_type: client_type@,
                client_instance_id: client_instance_id@,
            },
            SyncStep::AskApplies { stored, report } => SyncStepView::AskApplies {
                stored: opt_activity(*stored), report: report@,
            },
            SyncStep::Store { user, activity } => SyncStepView::Store {
                user: *user,
                activity: opt_activity(*activity),
            },
            SyncStep::Reply { shown, shares, applied } => SyncStepView::Reply {
                shown: text::opt(*shown),
                shares: *shares,
                applied: *applied,
            },
            SyncStep::TellAndReply { shown, shares, applied } => SyncStepView::TellAndReply {
                shown: text::opt(*shown),
                shares: *shares,
                applied: *applied,
            },
            SyncStep::RefuseFailure(a) => SyncStepView::RefuseFailure(*a),
            SyncStep::Refuse(a) => SyncStepView::Refuse(*a),
        }
    }
}

/// The steps of taking in a report; `mobile` is whether reports of mobile clients count.
pub open spec fn sync_step(
    user: Option<&str>,
    provider: &'static str,
    prefix: Seq<char>,
    client_type: Seq<char>,
    instance: Seq<char>,
    bots: bool,
    mobile: bool,
    not_connected: Refusal,
    music: Music,
    f: SyncFacts,
) -> SyncStepView {
    if user is None {
        SyncStepView::Refuse(error(401, "Authentication required"))
    } else if f.counted is None {
        SyncStepView::CountRequest { key: prefix + user->0@, quota: sync_quota() }
    } else if !f.counted->0 {
        SyncStepView::Refuse(after(error(429, "Rate limit exceeded"), 15))
    } else {
        match active_user(user->0@, bots, f.account) {
            ActiveUser::Load(id) => SyncStepView::LoadUser(id),
            ActiveUser::Refuse(_) => SyncStepView::Refuse(error(401, "Authentication required")),
            ActiveUser::Ready(u) => if u.id is None {
                SyncStepView::Refuse(error(500, "Server error"))
            } else if text::trimmed(instance).len() == 0 || text::byte_len(instance) > 128 {
                SyncStepView::Refuse(error(400, "Invalid clientInstanceId"))
            } else if client_type != "web"@ && client_type != "desktop"@ && !(mobile && client_type
                == "mobile"@) {
                SyncStepView::Refuse(error(400, "Invalid clientType"))
            } else if !u.shares {
                if music.stored is Some && !f.cleared {
                    SyncStepView::Clear(u.id->0)
                } else {
                    SyncStepView::Reply { shown: None, shares: false, applied: None }
                }
            } else if f.token is None {
                SyncStepView::LoadToken { user: u.id->0, provider }
            } else if !f.token->0 {
                SyncStepView::Refuse(not_connected)
            } else if f.fetched is None {
                SyncStepView::Fetch { client_type, client_instance_id: instance }
            } else if f.fetched->0 is Failed {
                SyncStepView::RefuseFailure(502)
            } else if f.applies is None {
                SyncStepView::AskApplies {
                    stored: opt_activity(music.stored),
                    report: ReportView {
                        activity: opt_activity(music.fetched),
                        client_type,
                        client_instance_id: instance,
                    },
                }
            } else if !f.applies->0 {
                SyncStepView::Reply {
                    shown: shown_activity(opt_activity(music.stored)),
                    shares: u.shares,
                    applied: Some(false),
                }
            } else if f.stored is None {
                SyncStepView::Store { user: u.id->0, activity: opt_activity(music.fetched) }
            } else if f.stored->0 is Found {
                SyncStepView::TellAndReply {
                    shown: shown_activity(opt_activity(music.updated)),
                    shares: music.updated_shares,
                    applied: Some(true),
                }
            } else {
                SyncStepView::Refuse(error(500, "Server error"))
            },
        }
    }
}

/// Decides the next step of taking in a report; see `sync_step`.
pub fn sync_listening(
    user: Option<&str>,
    provider: &'static str,
    prefix: &str,
    client_type: &str,
    instance: &str,
    bots: bool,
    mobile: bool,
    not_connected: Refusal,
    music: &Music,
    f: &SyncFacts,
) -> (r: SyncStep)
    ensures
        r@ == sync_step(
            user,
            provider,
            prefix@,
            client_type@,
            instance@,
            bots,
            mobile,
            not_connected,
            *music,
            *f,
        ),
{
    let user = match user {
        None => return SyncStep::Refuse(error(401, "Authentication required")),
        Some(u) => u,
    };
    match f.counted {
        None => return SyncStep::CountRequest { key: text::join2(prefix, user), quota: sync_quota() },
        Some(allowed) => {
            if !allowed {
                return SyncStep::Refuse(after(error(429, "Rate limit exceeded"), 15));
            }
        },
    }
    let u = match load_active_user(user, bots, f.account) {
        ActiveUser::Load(id) => return SyncStep::LoadUser(id),
        ActiveUser::Refuse(_) => return SyncStep::Refuse(error(401, "Authentication required")),
        ActiveUser::Ready(u) => u,
    };
    let id = match u.id {
        None => return SyncStep::Refuse(error(500, "Server error")),
        Some(id) => id,
    };
    if text::trim(instance).as_str().is_empty() || instance.len() > 128 {
        return SyncStep::Refuse(error(400, "Invalid clientInstanceId"));
    }
    if !text::same_text(client_type, "web") && !text::same_text(client_type, "desktop") && !(mobile
        && text::same_text(client_type, "mobile")) {
        return SyncStep::Refuse(error(400, "Invalid clientType"));
    }
    if !u.shares {
        return if music.stored.is_some() && !f.cleared {
            SyncStep::Clear(id)
        } else {
            SyncStep::Reply { shown: None, shares: false, applied: None }
        };
    }
    match f.token {
        None => return SyncStep::LoadToken { user: id, provider },
        Some(found) => {
            if !found {
                return SyncStep::Refuse(not_connected);
            }
        },
    }
    match f.fetched {
        None => return SyncStep::Fetch {
            client_type: client_type.to_owned(),
            client_instance_id: instance.to_owned(),
        },
        Some(Done::Failed) => return SyncStep::RefuseFailure(502),
        Some(Done::Worked) => {},
    }
    match f.applies {
        None => return SyncStep::AskApplies {
            stored: copy_activity(&music.stored),
            report: Report {
                activity: copy_activity(&music.fetched),
                client_type: client_type.to_owned(),
                client_instance_id: instance.to_owned(),
            },
        },
        Some(applies) => {
            if !applies {
                return SyncStep::Reply {
                    shown: show_activity(&music.stored),
                    shares: u.shares,
                    applied: Some(false),
                };
            }
        },
    }
    match f.stored {
        None => SyncStep::Store { user: id, activity: copy_activity(&music.fetched) },
        Some(Lookup::Found(_)) => SyncStep::TellAndReply {
            shown: show_activity(&music.updated),
            shares: music.updated_shares,
            applied: Some(true),
        },
        _ => SyncStep::Refuse(error(500, "Server error")),
    }
}

/// Decides the next step of taking in a report of a Spotify client.
pub fn spotify_sync(
    user: Option<&str>,
    body: &SpotifySyncBody,
    music: &Music,
    f: &SyncFacts,
) -> (r: SyncStep)
    ensures
        r@ == sync_step(
            user,
            "spotify",
            "spotify-sync:"@,
            body.client_type@,
            body.client_instance_id@,
            false,
            false,
            error(400, "Spotify not connected"),
            *music,
            *f,
        ),
{
    sync_listening(
        user,
        "spotify",
        "spotify-sync:",
        body.client_type.as_str(),
        body.client_instance_id.as_str(),
        false,
        false,
        error(400, "Spotify not connected"),
        music,
        f,
    )
}

/// What is playing is asked for and stored only for a user who shares it.
pub proof fn law_listening_is_stored_where_shared(
    user: Option<&str>,
    provider: &'static str,
    prefix: Seq<char>,
    client_type: Seq<char>,
    instance: Seq<char>,
    bots: bool,
    mobile: bool,
    not_connected: Refusal,
    music: Music,
    f: SyncFacts,
)
    ensures
        ({
            let s = sync_step(
                user,
                provider,
                prefix,
                client_type,
                instance,
                bots,
                mobile,
                not_connected,
                music,
                f,
            );
            s is Fetch || s is Store || s is TellAndReply ==> f.account is Some && f.account->0 is Found
                && f.account->0->0.shares && f.account->0->0.login_allowed
        }),
{
}

/// An activity is shown only while it is playing, as it is stored; where a report was taken in, as
/// it is stored afterwards.
pub proof fn law_only_what_is_playing_is_shown(
    user: Option<&str>,
    provider: &'static str,
    prefix: Seq<char>,
    client_type: Seq<char>,
    instance: Seq<char>,
    bots: bool,
    mobile: bool,
    not_connected: Refusal,
    music: Music,
    f: SyncFacts,
)
    ensures
        ({
            let s = sync_step(
                user,
                provider,
                prefix,
                client_type,
                instance,
                bots,
                mobile,
                not_connected,
                music,
                f,
            );
            &&& s matches SyncStepView::Reply { shown: Some(words), .. } ==> music.stored is Some
                && music.stored->0.playing && words == music.stored->0.words@
            &&& s matches SyncStepView::TellAndReply { shown: Some(words), .. } ==> music.updated is Some
                && music.updated->0.playing && words == music.updated->0.words@
        }),
{
}

/// A report of a client of a known kind, from a user who shares it and has linked the service, is taken
/// in: it is not refused while nothing fails, and asks only for what is not known yet. What the service
/// says is playing is stored for that user and told only where it was stored.
pub proof fn law_report_is_taken_in(
    user: Option<&str>,
    provider: &'static str,
    prefix: Seq<char>,
    client_type: Seq<char>,
    instance: Seq<char>,
    bots: bool,
    mobile: bool,
    not_connected: Refusal,
    music: Music,
    f: SyncFacts,
)
    requires
        user is Some && ids::oid_of(user->0@) is Some,
        f.counted != Some(false),
        f.account matches Some(a) ==> a is Found && a->0.login_allowed && (bots || !a->0.is_bot)
            && a->0.id is Some,
        text::trimmed(instance).len() > 0 && text::byte_len(instance) <= 128,
        client_type == "web"@ || client_type == "desktop"@ || (mobile && client_type == "mobile"@),
    ensures
        ({
            let s = sync_step(
                user,
                provider,
                prefix,
                client_type,
                instance,
                bots,
                mobile,
                not_connected,
                music,
                f,
            );
            let known = f.counted is Some && f.account is Some;
            let shares = known && f.account->0->0.shares;
            let id = f.account->0->0.id->0;
            let linked = shares && f.token is Some && f.token->0;
            let heard = linked && f.fetched == Some(Done::Worked);
            let counts = heard && f.applies is Some && f.applies->0;
            &&& f.token != Some(false) && (f.stored is None || f.stored->0 is Found) ==> s !is Refuse
            &&& f.counted is None ==> s == (SyncStepView::CountRequest {
                key: prefix + user->0@,
                quota: (Quota { max: 8, seconds: 60 }),
            })
            &&& f.counted is Some && f.account is None ==> s == SyncStepView::LoadUser(
                ids::oid_of(user->0@)->0,
            )
            &&& known && !shares && music.stored is Some && !f.cleared ==> s == SyncStepView::Clear(id)
            &&& known && !shares && (music.stored is None || f.cleared) ==> s == (SyncStepView::Reply {
                shown: None,
                shares: false,
                applied: None,
            })
            &&& shares && f.token is None ==> s == (SyncStepView::LoadToken { user: id, provider })
            &&& shares && f.token == Some(false) ==> s == SyncStepView::Refuse(not_connected)
            &&& linked && f.fetched is None ==> s == (SyncStepView::Fetch {
                client_type,
                client_instance_id: instance,
            })
            &&& linked && f.fetched == Some(Done::Failed) ==> s == SyncStepView::RefuseFailure(502)
            &&& heard && f.applies is None ==> s is AskApplies
            &&& s matches SyncStepView::AskApplies { stored, report } ==> stored == opt_activity(
                music.stored,
            ) && report.activity == opt_activity(music.fetched) && report.client_type == client_type
                && report.client_instance_id == instance
            &&& heard && f.applies is Some && !f.applies->0 ==> s is Reply
            &&& counts && f.stored is None ==> s == (SyncStepView::Store {
                user: id,
                activity: opt_activity(music.fetched),
            })
            &&& counts && f.stored is Some && f.stored->0 is Found <==> s is TellAndReply
            &&& s matches SyncStepView::TellAndReply { shares: now, applied, .. } ==> applied == Some(
                true,
            ) && now == music.updated_shares
            &&& s matches SyncStepView::Reply { shown, shares: now, applied } ==> now == shares && (
            applied == Some(true) ==> false) && (music.stored is None ==> shown is None) && (shares
                && music.stored is Some && music.stored->0.playing ==> shown == Some(
                music.stored->0.words@,
            ))
        }),
{
}

/// What is known while a link is removed or the settings are changed.
#[derive(Clone, Copy, Debug)]
pub struct ChangeFacts {
    pub account: Option<Lookup<Listener>>,
    /// The stored token was looked for, revoked and deleted.
    pub unlinked: bool,
    pub stored: Option<Lookup<()>>,
}

/// What to do next while a link is removed or the settings are changed.
#[derive(Clone, Copy, Debug, PartialEq, Eq)]
pub enum ChangeStep {
    LoadUser(Oid),
    /// Revoke and delete the stored token, if there is one.
    Unlink(Oid),
    /// Show nothing as playing any more.
    ClearActivity(Oid),
    /// Store whether to share; where not, show nothing as playing any more.
    StoreSettings { user: Oid, share: bool, clear: bool },
    /// Tell those who see it, and reply.
    TellAndReply,
    Reply,
    Refuse(Refusal),
}

pub open spec fn disconnect_step(user: Option<&str>, f: ChangeFacts) -> ChangeStep {
    if user is None {
        ChangeStep::Refuse(error(401, "Authentication required"))
    } else {
        match active_user(user->0@, false, f.account) {
            ActiveUser::Load(id) => ChangeStep::LoadUser(id),
            ActiveUser::Refuse(_) => ChangeStep::Refuse(error(401, "Authentication required")),
            ActiveUser::Ready(u) => if u.id is None {
                ChangeStep::Refuse(error(500, "Server error"))
            } else if !f.unlinked {
                ChangeStep::Unlink(u.id->0)
            } else {
                match f.stored {
                    None => ChangeStep::ClearActivity(u.id->0),
                    Some(Lookup::Found(_)) => ChangeStep::TellAndReply,
                    Some(_) => ChangeStep::Refuse(error(500, "Server error")),
                }
            },
        }
    }
}

/// Decides the next step of removing the link.
pub fn spotify_disconnect(user: Option<&str>, f: &ChangeFacts) -> (r: ChangeStep)
    ensures
        r == disconnect_step(user, *f),
{
    let user = match user {
        None => return ChangeStep::Refuse(error(401, "Authentication required")),
        Some(u) => u,
    };
    let u = match load_active_user(user, false, f.account) {
        ActiveUser::Load(id) => return ChangeStep::LoadUser(id),
        ActiveUser::Refuse(_) => return ChangeStep::Refuse(error(401, "Authentication required")),
        ActiveUser::Ready(u) => u,
    };
    let id = match u.id {
        None => return ChangeStep::Refuse(error(500, "Server error")),
        Some(id) => id,
    };
    if !f.unlinked {
        return ChangeStep::Unlink(id);
    }
    match f.stored {
        None => ChangeStep::ClearActivity(id),
        Some(Lookup::Found(_)) => ChangeStep::TellAndReply,
        Some(_) => ChangeStep::Refuse(error(500, "Server error")),
    }
}

pub open spec fn settings_step(user: Option<&str>, share: bool, bots: bool, f: ChangeFacts) -> ChangeStep {
    if user is None {
        ChangeStep::Refuse(error(401, "Authentication required"))
    } else {
        match active_user(user->0@, bots, f.account) {
            ActiveUser::Load(id) => ChangeStep::LoadUser(id),
            ActiveUser::Refuse(_) => ChangeStep::Refuse(error(401, "Authentication required")),
            ActiveUser::Ready(u) => if u.id is None {
                ChangeStep::Refuse(error(500, "Server error"))
            } else {
                match f.stored {
                    None => ChangeStep::StoreSettings { user: u.id->0, share, clear: !share },
                    Some(Lookup::Found(_)) => if share {
                        ChangeStep::Reply
                    } else {
                        ChangeStep::TellAndReply
                    },
                    Some(_) => ChangeStep::Refuse(error(500, "Server error")),
                }
            },
        }
    }
}

/// Decides the next step of changing the settings; bots count where `bots` holds.
pub fn change_settings(user: Option<&str>, share: bool, bots: bool, f: &ChangeFacts) -> (r: ChangeStep)
    ensures
        r == settings_step(user, share, bots, *f),
{
    let user = match user {
        None => return ChangeStep::Refuse(error(401, "Authentication required")),
        Some(u) => u,
    };
    let u = match load_active_user(user, bots, f.account) {
        ActiveUser::Load(id) => return ChangeStep::LoadUser(id),
        ActiveUser::Refuse(_) => return ChangeStep::Refuse(error(401, "Authentication required")),
        ActiveUser::Ready(u) => u,
    };
    let id = match u.id {
        None => return ChangeStep::Refuse(error(500, "Server error")),
        Some(id) => id,
    };
    match f.stored {
        None => ChangeStep::StoreSettings { user: id, share, clear: !share },
        Some(Lookup::Found(_)) => if share {
            ChangeStep::Reply
        } else {
            ChangeStep::TellAndReply
        },
        Some(_) => ChangeStep::Refuse(error(500, "Server error")),
    }
}

/// A user who may log in removes the link and chooses whether to share: neither is refused while nothing
/// fails. The choice is stored as made, and nothing stays shown of a user who shares no more; success is
/// replied only where that was stored.
pub proof fn law_listening_settings_are_changed(
    user: Option<&str>,
    share: bool,
    bots: bool,
    f: ChangeFacts,
)
    requires
        user is Some && ids::oid_of(user->0@) is Some,
        f.account matches Some(a) ==> a is Found && a->0.login_allowed && !a->0.is_bot && a->0.id is
            Some,
        f.stored matches Some(s) ==> s is Found,
    ensures
        ({
            let s = settings_step(user, share, bots, f);
            let id = f.account->0->0.id->0;
            &&& s !is Refuse
            &&& f.account is None ==> s == ChangeStep::LoadUser(ids::oid_of(user->0@)->0)
            &&& f.account is Some && f.stored is None ==> s == (ChangeStep::StoreSettings {
                user: id,
                share,
                clear: !share,
            })
            &&& f.account is Some && f.stored is Some && share <==> s is Reply
            &&& f.account is Some && f.stored is Some && !share <==> s is TellAndReply
        }),
        ({
            let s = disconnect_step(user, f);
            let id = f.account->0->0.id->0;
            &&& s !is Refuse
            &&& f.account is None ==> s == ChangeStep::LoadUser(ids::oid_of(user->0@)->0)
            &&& f.account is Some && !f.unlinked ==> s == ChangeStep::Unlink(id)
            &&& f.account is Some && f.unlinked && f.stored is None ==> s == ChangeStep::ClearActivity(
                id,
            )
            &&& f.account is Some && f.unlinked && f.stored is Some <==> s is TellAndReply
        }),
{
}

/// Decides the next step of changing whether to show what is playing.
pub fn update_listening_settings(
    user: Option<&str>,
    body: &ListeningSettingsBody,
    f: &ChangeFacts,
) -> (r: ChangeStep)
    ensures
        r == settings_step(user, body.share_listening, false, *f),
{
    change_settings(user, body.share_listening, false, f)
}

} // verus!
