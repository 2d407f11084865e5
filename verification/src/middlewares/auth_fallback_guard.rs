//! What guards logins and new accounts while the puzzle for robots cannot be checked.

use vstd::prelude::*;

use crate::json;
use crate::json::{parse_bytes, text_member};
use crate::middlewares::turnstile_middleware::TurnstileOutcome;
use crate::reply::{Quota, Refusal, after, error};
use crate::stamps;
use crate::stamps::{Stamp, Stamps, time_since};
use crate::text;

verus! {

/// How far apart two attempts of an address must be, in nanoseconds.
pub const MIN_AUTH_INTERVAL: u64 = 3_000_000_000;

/// The longest age of an attempt that is remembered, in nanoseconds: just under an hour.
pub const MAX_ATTEMPT_AGE: u64 = 3_599_999_999_999;

/// How long a reply is held back at least, in milliseconds.
pub const FALLBACK_DELAY_BASE_MS: u64 = 1500;

/// How short the name of a client may be, in bytes.
pub const MIN_USER_AGENT_BYTES: usize = 8;

/// The fields that people leave empty because they do not see them.
pub open spec fn trap_fields() -> Seq<&'static str> {
    seq![
        "website",
        "url",
        "company",
        "fax",
        "phone2",
        "address_line2",
        "email_confirm",
        "confirm_email",
        "middle_name",
        "honeypot",
        "_gotcha",
        "botcheck",
    ]
}

/// Lists the fields that people leave empty.
pub fn honeypot_fields() -> (r: Vec<&'static str>)
    ensures
        r@ == trap_fields(),
{
    let r: Vec<&'static str> = vec![
        "website",
        "url",
        "company",
        "fax",
        "phone2",
        "address_line2",
        "email_confirm",
        "confirm_email",
        "middle_name",
        "honeypot",
        "_gotcha",
        "botcheck",
    ];
    assert(r@ =~= trap_fields());
    r
}

/// Whether a field holds a text that is not blank.
pub open spec fn is_filled(value: Option<Seq<char>>) -> bool {
    value is Some && text::trimmed(value->0).len() > 0
}

/// Finds whether a field holds a text that is not blank.
pub fn filled(value: Option<&str>) -> (r: bool)
    ensures
        r == is_filled(text::opt_str(value)),
{
    match value {
        None => false,
        Some(v) => !text::trim(v).as_str().is_empty(),
    }
}

/// Whether a document holds a text in one of the fields that people leave empty.
pub open spec fn is_trapped(j: json::Json) -> bool {
    exists|i: int|
        0 <= i < trap_fields().len() && is_filled(
            json::text_member_of(j, (#[trigger] trap_fields()[i])@),
        )
}

/// Finds whether a document holds a text in one of the fields that people leave empty.
pub fn honeypot_triggered(body: &serde_json::Value) -> (r: bool)
    ensures
        r == is_trapped(json::content(*body)),
{
    let fields = honeypot_fields();
    let mut i: usize = 0;
    while i < fields.len()
        invariant
            i <= fields.len(),
            fields@ == trap_fields(),
            forall|j: int|
                0 <= j < i ==> !is_filled(
                    json::text_member_of(json::content(*body), (#[trigger] trap_fields()[j])@),
                ),
        decreases fields.len() - i,
    {
        let value = text_member(body, fields[i]);
        let hit = match &value {
            None => filled(None),
            Some(v) => filled(Some(v.as_str())),
        };
        if hit {
            assert(is_filled(
                json::text_member_of(json::content(*body), trap_fields()[i as int]@),
            ));
            return true;
        }
        i += 1;
    }
    false
}

/// A document springs the trap exactly where one of the trap fields holds more than white space.
pub proof fn law_filled_trap_fields_spring_the_trap(j: json::Json, i: int)
    requires
        0 <= i < 12,
    ensures
        trap_fields().len() == 12,
        json::text_member_of(j, trap_fields()[i]@) is Some && text::trimmed(
            json::text_member_of(j, trap_fields()[i]@)->0,
        ).len() > 0 ==> is_trapped(j),
        (forall|k: int|
            0 <= k < 12 ==> json::text_member_of(j, (#[trigger] trap_fields()[k])@) is None || text::trimmed(
                json::text_member_of(j, trap_fields()[k]@)->0,
            ).len() == 0) ==> !is_trapped(j),
{
    if json::text_member_of(j, trap_fields()[i]@) is Some && text::trimmed(
        json::text_member_of(j, trap_fields()[i]@)->0,
    ).len() > 0 {
        assert(is_filled(json::text_member_of(j, trap_fields()[i]@)));
    }
}

/// Finds whether the body of a request springs the trap; a body that is no document does not.
pub fn body_springs_trap(bytes: &[u8]) -> (r: bool)
    ensures
        r == (json::document_in(bytes@) is Some && is_trapped(json::document_in(bytes@)->0)),
{
    match parse_bytes(bytes) {
        None => false,
        Some(v) => honeypot_triggered(&v),
    }
}

/// Reads the name that a client gives itself; empty where it gives none.
pub fn client_user_agent(header: Option<&str>) -> (r: String)
    ensures
        r@ == (match header {
            None => Seq::empty(),
            Some(h) => text::trimmed(h@),
        }),
{
    match header {
        None => String::new(),
        Some(h) => text::trim(h),
    }
}

/// Whether the header of the official client speaks for a request; `bot` is whether it is that of a known robot.
pub open spec fn is_plausible(name: Option<&str>, bot: bool) -> bool {
    name is Some && text::byte_len(text::trimmed(name->0@)) >= MIN_USER_AGENT_BYTES && !bot
}

/// Finds whether a request shows the official client: `client` is its header of that client,
/// `client_is_bot` whether the header names a known robot.
pub fn has_trusted_client_fingerprint(client: Option<&str>, client_is_bot: bool) -> (r: bool)
    ensures
        r == is_plausible(client, client_is_bot),
{
    match client {
        None => false,
        Some(n) => text::trim(n).as_str().len() >= MIN_USER_AGENT_BYTES && !client_is_bot,
    }
}

/// When addresses last tried to log in.
pub struct LastAttempts {
    attempts: Stamps,
}

/// Whether an address tried again too soon.
pub open spec fn is_too_soon(m: Map<Seq<char>, Stamp>, ip: Seq<char>, now: u64) -> bool {
    m.contains_key(ip) && stamps::age(now, m[ip].last) < MIN_AUTH_INTERVAL
}

/// What is remembered after an attempt of `ip` at `now`: one that is too soon is not.
pub open spec fn after_attempt(m: Map<Seq<char>, Stamp>, ip: Seq<char>, now: u64) -> Map<
    Seq<char>,
    Stamp,
> {
    let kept = stamps::recent(m, now, MAX_ATTEMPT_AGE);
    if is_too_soon(m, ip, now) {
        kept
    } else {
        kept.insert(ip, (Stamp { count: 1, last: now }))
    }
}

impl View for LastAttempts {
    type V = Map<Seq<char>, Stamp>;

    closed spec fn view(&self) -> Map<Seq<char>, Stamp> {
        self.attempts@
    }
}

impl LastAttempts {
    /// Whether what is stored is in order.
    pub closed spec fn wf(&self) -> bool {
        self.attempts.wf()
    }

    /// Nobody has tried.
    pub fn new() -> (r: Self)
        ensures
            r.wf(),
            r@ == Map::<Seq<char>, Stamp>::empty(),
    {
        LastAttempts { attempts: Stamps::new() }
    }

    /// Notes an attempt of `ip` at `now`, and finds whether it comes too soon.
    pub fn too_soon_since_last_attempt(&mut self, ip: &str, now: u64) -> (r: bool)
        requires
            old(self).wf(),
        ensures
            final(self).wf(),
            r == is_too_soon(old(self)@, ip@, now),
            final(self)@ == after_attempt(old(self)@, ip@, now),
    {
        self.attempts.keep_recent(now, MAX_ATTEMPT_AGE);
        if let Some(s) = self.attempts.get(ip) {
            if time_since(now, s.last) < MIN_AUTH_INTERVAL {
                return true;
            }
        }
        self.attempts.put(ip, Stamp { count: 1, last: now });
        false
    }
}

/// An attempt that counts makes the next one of the same address come too soon for three seconds,
/// and no longer; it makes none of another address come too soon.
pub proof fn law_attempts_are_spaced(
    m: Map<Seq<char>, Stamp>,
    ip: Seq<char>,
    now: u64,
    later: u64,
    other: Seq<char>,
)
    requires
        !is_too_soon(m, ip, now),
        now <= later,
        other != ip,
    ensures
        is_too_soon(after_attempt(m, ip, now), ip, later) <==> later - now < MIN_AUTH_INTERVAL,
        is_too_soon(after_attempt(m, ip, now), other, now) == is_too_soon(m, other, now),
{
}

/// How long a reply is held back, in milliseconds; `nanos` is the part of the present second that
/// has passed, where the clock gives it.
pub open spec fn delay_of(nanos: Option<u32>) -> u64 {
    match nanos {
        Some(n) => (FALLBACK_DELAY_BASE_MS + n % 1000) as u64,
        None => FALLBACK_DELAY_BASE_MS,
    }
}

/// Finds how long a reply is held back.
pub fn fallback_delay_ms(nanos: Option<u32>) -> (r: u64)
    ensures
        r == delay_of(nanos),
{
    match nanos {
        Some(n) => FALLBACK_DELAY_BASE_MS + (n % 1000) as u64,
        None => FALLBACK_DELAY_BASE_MS,
    }
}

/// What a request asks for.
#[derive(Clone, Copy, Debug, PartialEq, Eq)]
pub enum Action {
    Signup,
    Login,
}

/// What is known while a request is guarded.
#[derive(Clone, Copy, Debug)]
pub struct FallbackFacts {
    /// Whether addresses are watched.
    pub watched: bool,
    /// Whether the body springs the trap.
    pub trapped: Option<bool>,
    /// The request was noted as a suspicious one of its address.
    pub noted: bool,
    /// Whether the attempt was within the limit.
    pub counted: Option<bool>,
    /// Whether the attempt comes too soon.
    pub too_soon: Option<bool>,
    /// The part of the present second that has passed, where the clock gives it.
    pub nanos: Option<u32>,
    /// The reply was held back.
    pub delayed: bool,
}

/// What to do next while a request is guarded.
#[derive(Clone, Copy, Debug, PartialEq, Eq)]
pub enum FallbackStep {
    Pass,
    CheckBody,
    NoteSuspicious,
    /// Count one attempt of the address to do this.
    CountAttempt { action: Action, quota: Quota },
    CheckInterval,
    /// Hold the reply back for so many milliseconds.
    Delay(u64),
    Refuse(Refusal),
}

/// How often an address may attempt something.
pub open spec fn attempts_allowed(action: Action) -> Quota {
    match action {
        Action::Signup => Quota { max: 5, seconds: 3600 },
        Action::Login => Quota { max: 4, seconds: 900 },
    }
}

/// Reads how often an address may attempt something.
pub fn attempt_quota(action: Action) -> (r: Quota)
    ensures
        r == attempts_allowed(action),
{
    match action {
        Action::Signup => Quota { max: 5, seconds: 3600 },
        Action::Login => Quota { max: 4, seconds: 900 },
    }
}

/// The seconds to wait after too many attempts.
pub open spec fn retry_after(action: Action) -> u64 {
    match action {
        Action::Signup => 3600,
        Action::Login => 900,
    }
}

pub open spec fn fallback_step(
    action: Action,
    development: bool,
    outcome: Option<TurnstileOutcome>,
    trusted_client: bool,
    f: FallbackFacts,
) -> FallbackStep {
    let to_note = f.watched && !f.noted;
    if development {
        FallbackStep::Pass
    } else if f.trapped is None {
        FallbackStep::CheckBody
    } else if f.trapped->0 && to_note {
        FallbackStep::NoteSuspicious
    } else if f.trapped->0 {
        FallbackStep::Refuse(error(400, "Invalid request"))
    } else if outcome == Some(TurnstileOutcome::Verified) {
        FallbackStep::Pass
    } else if !trusted_client && to_note {
        FallbackStep::NoteSuspicious
    } else if !trusted_client {
        FallbackStep::Refuse(error(400, "Unsupported client"))
    } else if f.counted is None {
        FallbackStep::CountAttempt { action, quota: attempts_allowed(action) }
    } else if !f.counted->0 && to_note {
        FallbackStep::NoteSuspicious
    } else if !f.counted->0 {
        FallbackStep::Refuse(
            after(error(429, "Too many attempts. Try again later."), retry_after(action)),
        )
    } else if f.too_soon is None {
        FallbackStep::CheckInterval
    } else if f.too_soon->0 {
        FallbackStep::Refuse(after(error(429, "Too many attempts. Try again later."), 3))
    } else if !f.delayed {
        FallbackStep::Delay(delay_of(f.nanos))
    } else {
        FallbackStep::Pass
    }
}

/// Decides the next step of guarding a request; `outcome` is how it got past the puzzle, where
/// that was noted, `client` its header of the official client, and `client_is_bot` whether that
/// names a known robot.
pub fn run_auth_fallback_guard(
    action: Action,
    development: bool,
    outcome: Option<TurnstileOutcome>,
    client: Option<&str>,
    client_is_bot: bool,
    f: &FallbackFacts,
) -> (r: FallbackStep)
    ensures
        r == fallback_step(action, development, outcome, is_plausible(client, client_is_bot), *f),
{
    if development {
        return FallbackStep::Pass;
    }
    let to_note = f.watched && !f.noted;
    match f.trapped {
        None => return FallbackStep::CheckBody,
        Some(true) => {
            return if to_note {
                FallbackStep::NoteSuspicious
            } else {
                FallbackStep::Refuse(error(400, "Invalid request"))
            };
        },
        Some(false) => {},
    }
    if let Some(TurnstileOutcome::Verified) = outcome {
        return FallbackStep::Pass;
    }
    if !has_trusted_client_fingerprint(client, client_is_bot) {
        return if to_note {
            FallbackStep::NoteSuspicious
        } else {
            FallbackStep::Refuse(error(400, "Unsupported client"))
        };
    }
    match f.counted {
        None => return FallbackStep::CountAttempt { action, quota: attempt_quota(action) },
        Some(false) => {
            return if to_note {
                FallbackStep::NoteSuspicious
            } else {
                FallbackStep::Refuse(
                    after(
                        error(429, "Too many attempts. Try again later."),
                        attempt_quota(action).seconds,
                    ),
                )
            };
        },
        Some(true) => {},
    }
    match f.too_soon {
        None => return FallbackStep::CheckInterval,
        Some(true) => return FallbackStep::Refuse(
            after(error(429, "Too many attempts. Try again later."), 3),
        ),
        Some(false) => {},
    }
    if !f.delayed {
        FallbackStep::Delay(fallback_delay_ms(f.nanos))
    } else {
        FallbackStep::Pass
    }
}

/// Decides the next step of guarding a request for a new account.
pub fn auth_fallback_guard_signup(
    development: bool,
    outcome: Option<TurnstileOutcome>,
    client: Option<&str>,
    client_is_bot: bool,
    f: &FallbackFacts,
) -> (r: FallbackStep)
    ensures
        r == fallback_step(
            Action::Signup,
            development,
            outcome,
            is_plausible(client, client_is_bot),
            *f,
        ),
{
    run_auth_fallback_guard(Action::Signup, development, outcome, client, client_is_bot, f)
}

/// Decides the next step of guarding a request to log in.
pub fn auth_fallback_guard_login(
    development: bool,
    outcome: Option<TurnstileOutcome>,
    client: Option<&str>,
    client_is_bot: bool,
    f: &FallbackFacts,
) -> (r: FallbackStep)
    ensures
        r == fallback_step(
            Action::Login,
            development,
            outcome,
            is_plausible(client, client_is_bot),
            *f,
        ),
{
    run_auth_fallback_guard(Action::Login, development, outcome, client, client_is_bot, f)
}

/// A request that springs the trap never passes; where the puzzle was solved, nothing else is
/// asked; where it was not, a request passes only from a real client, within the limits, and late.
pub proof fn law_fallback_layers(
    action: Action,
    outcome: Option<TurnstileOutcome>,
    client: Option<&str>,
    client_is_bot: bool,
    f: FallbackFacts,
)
    ensures
        ({
            let trusted = is_plausible(client, client_is_bot);
            let step = fallback_step(action, false, outcome, trusted, f);
            &&& f.trapped == Some(true) ==> step !is Pass
            &&& f.trapped == Some(false) && outcome == Some(TurnstileOutcome::Verified)
                ==> step is Pass
            &&& outcome != Some(TurnstileOutcome::Verified) && step is Pass ==> client is Some
                && trusted && f.counted == Some(true) && f.too_soon == Some(false) && f.delayed
            &&& step matches FallbackStep::Delay(ms) ==> ms >= FALLBACK_DELAY_BASE_MS
        }),
{
}

/// A request that springs no trap passes where it was verified; one that was not passes too, for a
/// plausible client within the limits, after a delay: neither is refused while nothing speaks against it.
/// Nothing is asked that is known already, and nobody is noted twice.
pub proof fn law_plain_requests_pass(
    action: Action,
    development: bool,
    outcome: Option<TurnstileOutcome>,
    trusted: bool,
    f: FallbackFacts,
)
    ensures
        ({
            let s = fallback_step(action, development, outcome, trusted, f);
            let verified = outcome == Some(TurnstileOutcome::Verified);
            let plain = !development && f.trapped is Some && !f.trapped->0 && !verified && trusted;
            let within = plain && f.counted is Some && f.counted->0;
            let spaced = within && f.too_soon is Some && !f.too_soon->0;
            &&& development ==> s is Pass
            &&& !development && f.trapped is None <==> s is CheckBody
            &&& plain && f.counted is None <==> s is CountAttempt
            &&& s matches FallbackStep::CountAttempt { action: a, quota } ==> a == action && (
            action is Signup ==> quota.max == 5 && quota.seconds == 3600) && (action is Login
                ==> quota.max == 4 && quota.seconds == 900)
            &&& within && f.too_soon is None <==> s is CheckInterval
            &&& spaced && !f.delayed <==> s is Delay
            &&& s matches FallbackStep::Delay(ms) ==> 1500 <= ms < 2500
            &&& spaced && f.delayed ==> s is Pass
            &&& s is NoteSuspicious ==> f.watched && !f.noted
            &&& s is Refuse && f.watched && !f.noted ==> f.too_soon is Some && f.too_soon->0
            &&& s matches FallbackStep::Refuse(r) ==> {
                &&& r.status == 400 ==> (f.trapped is Some && f.trapped->0) || !trusted
                &&& r.status == 429 ==> (f.counted is Some && !f.counted->0) || (f.too_soon is Some
                    && f.too_soon->0)
                &&& r.status == 429 && f.counted is Some && !f.counted->0 ==> r.retry_after == Some(
                    match action {
                        Action::Signup => 3600u64,
                        Action::Login => 900,
                    },
                )
                &&& r.status == 400 || r.status == 429
            }
        }),
{
}

} // verus!
