//! Blocking addresses that behave suspiciously.

use vstd::hash_set::StringHashSet;
use vstd::prelude::*;

use crate::middlewares::Guard;
use crate::reply::titled;
use crate::stamps;
use crate::stamps::{Stamp, Stamps, time_since};
use crate::text;

verus! {

/// How many suspicious requests lead to a block.
pub const MAX_SUSPICIOUS_ACTIVITY: u32 = 10;

/// How long a block lasts, and how long a suspicious request counts, in nanoseconds.
pub const BLOCK_DURATION: u64 = 3_600_000_000_000;

/// How many addresses are watched before old ones are forgotten.
pub const MAX_WATCHED: usize = 20_000;

/// How many addresses can be blocked at a time.
pub const MAX_BLOCKED: usize = 10_000;

/// What is known of addresses.
pub struct BlockerView {
    pub watched: Map<Seq<char>, Stamp>,
    pub blocked: Set<Seq<char>>,
}

/// The addresses that are watched and those that are blocked.
pub struct IPBlockerArc {
    blocked_ips: StringHashSet,
    suspicious_activity: Stamps,
}

/// The addresses that are still watched when a request comes at `now`: all of them, or where
/// there are many those whose last suspicious request still counts.
pub open spec fn still_watched(watched: Map<Seq<char>, Stamp>, now: u64) -> Map<Seq<char>, Stamp> {
    if watched.len() >= MAX_WATCHED {
        stamps::recent(watched, now, BLOCK_DURATION)
    } else {
        watched
    }
}

/// How many suspicious requests of `ip` count at `now`.
pub open spec fn strikes(watched: Map<Seq<char>, Stamp>, ip: Seq<char>, now: u64) -> u32 {
    if stamps::is_recent(watched, ip, now, BLOCK_DURATION) {
        watched[ip].count
    } else {
        0
    }
}

/// What is known after `ip` was blocked: nothing changes where too many are.
pub open spec fn after_block(b: BlockerView, ip: Seq<char>) -> BlockerView {
    if b.blocked.len() >= MAX_BLOCKED && !b.blocked.contains(ip) {
        b
    } else {
        BlockerView { blocked: b.blocked.insert(ip), ..b }
    }
}

/// What is known after a suspicious request of `ip` at `now`.
pub open spec fn after_activity(b: BlockerView, ip: Seq<char>, now: u64) -> BlockerView {
    let n = (strikes(b.watched, ip, now) + 1) as u32;
    let noted = BlockerView {
        watched: still_watched(b.watched, now).insert(ip, (Stamp { count: n, last: now })),
        ..b
    };
    if n >= MAX_SUSPICIOUS_ACTIVITY {
        after_block(noted, ip)
    } else {
        noted
    }
}

impl View for IPBlockerArc {
    type V = BlockerView;

    closed spec fn view(&self) -> BlockerView {
        BlockerView { watched: self.suspicious_activity@, blocked: self.blocked_ips@ }
    }
}

impl IPBlockerArc {
    /// Whether what is stored is in order.
    pub closed spec fn wf(&self) -> bool {
        self.suspicious_activity.wf()
    }

    /// No address is watched or blocked.
    pub fn new() -> (r: Self)
        ensures
            r.wf(),
            r@.watched == Map::<Seq<char>, Stamp>::empty(),
            r@.blocked == Set::<Seq<char>>::empty(),
    {
        IPBlockerArc { blocked_ips: StringHashSet::new(), suspicious_activity: Stamps::new() }
    }

    /// Whether `ip` is blocked.
    pub fn is_blocked(&self, ip: &str) -> (r: bool)
        ensures
            r == self@.blocked.contains(ip@),
    {
        self.blocked_ips.contains(ip)
    }

    /// How many suspicious requests of `ip` count at `now`.
    pub fn strikes_of(&self, ip: &str, now: u64) -> (r: u32)
        ensures
            r == strikes(self@.watched, ip@, now),
    {
        match self.suspicious_activity.get(ip) {
            None => 0,
            Some(s) => if time_since(now, s.last) <= BLOCK_DURATION {
                s.count
            } else {
                0
            },
        }
    }

    /// Notes a suspicious request of `ip` at `now`. Where this blocks the address, the result
    /// says after how long `unblock` is due.
    pub fn add_suspicious_activity(&mut self, ip: &str, now: u64) -> (r: Option<u64>)
        requires
            old(self).wf(),
            strikes(old(self)@.watched, ip@, now) < u32::MAX,
        ensures
            final(self).wf(),
            final(self)@ == after_activity(old(self)@, ip@, now),
            r == (if !old(self)@.blocked.contains(ip@) && final(self)@.blocked.contains(ip@) {
                Some(BLOCK_DURATION)
            } else {
                None
            }),
    {
        let count = self.strikes_of(ip, now) + 1;
        if self.suspicious_activity.len() >= MAX_WATCHED {
            self.suspicious_activity.keep_recent(now, BLOCK_DURATION);
        }
        self.suspicious_activity.put(ip, Stamp { count, last: now });
        if count >= MAX_SUSPICIOUS_ACTIVITY {
            if !self.is_blocked(ip) {
                return self.block_ip_arc(ip, None);
            }
            assert(self@.blocked.insert(ip@) =~= self@.blocked);
        }
        None
    }

    /// Blocks `ip`. The result says after how long `unblock` is due; nothing comes back where too
    /// many addresses are blocked.
    pub fn block_ip_arc(&mut self, ip: &str, duration: Option<u64>) -> (r: Option<u64>)
        requires
            old(self).wf(),
        ensures
            final(self).wf(),
            final(self)@ == after_block(old(self)@, ip@),
            r == (if final(self)@.blocked.contains(ip@) {
                Some(
                    match duration {
                        Some(d) => d,
                        None => BLOCK_DURATION,
                    },
                )
            } else {
                None
            }),
    {
        if self.blocked_ips.len() >= MAX_BLOCKED && !self.blocked_ips.contains(ip) {
            return None;
        }
        self.blocked_ips.insert(ip.to_owned());
        match duration {
            Some(d) => Some(d),
            None => Some(BLOCK_DURATION),
        }
    }

    /// Lifts the block of `ip`, as is due when its time is over.
    pub fn unblock(&mut self, ip: &str)
        requires
            old(self).wf(),
        ensures
            final(self).wf(),
            final(self)@ == (BlockerView { blocked: old(self)@.blocked.remove(ip@), ..old(self)@ }),
    {
        self.blocked_ips.remove(ip);
    }
}

/// Forgetting old addresses never changes how many suspicious requests count.
pub proof fn law_forgetting_changes_nothing(watched: Map<Seq<char>, Stamp>, ip: Seq<char>, now: u64)
    ensures
        strikes(still_watched(watched, now), ip, now) == strikes(watched, ip, now),
{
}

/// A suspicious request blocks no other address, and lifts no block.
pub proof fn law_others_are_not_blocked(b: BlockerView, ip: Seq<char>, now: u64, other: Seq<char>)
    requires
        other != ip,
    ensures
        after_activity(b, ip, now).blocked.contains(other) == b.blocked.contains(other),
        b.blocked.contains(ip) ==> after_activity(b, ip, now).blocked.contains(ip),
        strikes(after_activity(b, ip, now).watched, other, now) == strikes(b.watched, other, now),
{
}

/// A suspicious request counts as one more strike against its address, and one that comes long after
/// the last counts as the first; an address is blocked by its tenth strike, and not before.
pub proof fn law_each_strike_counts_once(b: BlockerView, ip: Seq<char>, now: u64)
    requires
        strikes(b.watched, ip, now) < u32::MAX,
    ensures
        strikes(after_activity(b, ip, now).watched, ip, now) == strikes(b.watched, ip, now) + 1,
        strikes(b.watched, ip, now) + 1 < 10 ==> after_activity(b, ip, now).blocked == b.blocked,
        strikes(b.watched, ip, now) + 1 >= 10 && b.blocked.len() < 10_000 ==> after_activity(
            b,
            ip,
            now,
        ).blocked.contains(ip),
        after_block(b, ip).watched == b.watched,
        b.blocked.len() < 10_000 ==> after_block(b, ip).blocked == b.blocked.insert(ip),
{
}

/// What is known after suspicious requests of `ip` at `times`.
pub open spec fn after_all(b: BlockerView, ip: Seq<char>, times: Seq<u64>) -> BlockerView
    decreases times.len(),
{
    if times.len() == 0 {
        b
    } else {
        after_activity(after_all(b, ip, times.drop_last()), ip, times.last())
    }
}

/// Whether each time is at most `BLOCK_DURATION` after the one before it.
pub open spec fn close_together(times: Seq<u64>) -> bool {
    forall|i: int|
        0 < i < times.len() ==> times[i - 1] <= #[trigger] times[i] <= times[i - 1] + BLOCK_DURATION
}

proof fn lemma_strikes_add_up(b: BlockerView, ip: Seq<char>, times: Seq<u64>)
    requires
        0 < times.len(),
        strikes(b.watched, ip, times[0]) + times.len() <= u32::MAX,
        close_together(times),
    ensures
        after_all(b, ip, times).watched.contains_key(ip),
        after_all(b, ip, times).watched[ip] == (Stamp {
            count: (strikes(b.watched, ip, times[0]) + times.len()) as u32,
            last: times.last(),
        }),
    decreases times.len(),
{
    let rest = times.drop_last();
    if rest.len() > 0 {
        assert(close_together(rest)) by {
            assert forall|i: int| 0 < i < rest.len() implies rest[i - 1] <= #[trigger] rest[i]
                <= rest[i - 1] + BLOCK_DURATION by {
                assert(times[i - 1] <= times[i]);
            }
        }
        lemma_strikes_add_up(b, ip, rest);
        let n = times.len() - 1;
        assert(rest.last() == times[n - 1]);
        assert(times[n - 1] <= times[n] <= times[n - 1] + BLOCK_DURATION);
        let before = after_all(b, ip, rest);
        assert(stamps::is_recent(before.watched, ip, times.last(), BLOCK_DURATION));
        assert(strikes(before.watched, ip, times.last()) == strikes(b.watched, ip, times[0])
            + rest.len());
    } else {
        assert(after_all(b, ip, rest) == b);
    }
}

proof fn lemma_blocked_grows_by_one(b: BlockerView, ip: Seq<char>, times: Seq<u64>)
    requires
        b.blocked.finite(),
    ensures
        after_all(b, ip, times).blocked == b.blocked || after_all(b, ip, times).blocked
            == b.blocked.insert(ip),
    decreases times.len(),
{
    if times.len() > 0 {
        lemma_blocked_grows_by_one(b, ip, times.drop_last());
        assert(b.blocked.insert(ip).insert(ip) =~= b.blocked.insert(ip));
    }
}

/// Suspicious requests of an address, each within an hour of the one before it, block the address
/// once it has ten strikes with those that still counted before, unless too many are blocked.
pub proof fn law_ten_strikes_block(b: BlockerView, ip: Seq<char>, times: Seq<u64>)
    requires
        0 < times.len(),
        MAX_SUSPICIOUS_ACTIVITY <= strikes(b.watched, ip, times[0]) + times.len() <= u32::MAX,
        close_together(times),
        b.blocked.finite(),
        b.blocked.len() < MAX_BLOCKED,
    ensures
        after_all(b, ip, times).blocked.contains(ip),
{
    lemma_strikes_add_up(b, ip, times);
    lemma_blocked_grows_by_one(b, ip, times.drop_last());
    let before = after_all(b, ip, times.drop_last());
    let now = times.last();
    assert(after_all(b, ip, times).watched[ip].count == (strikes(before.watched, ip, now) + 1) as u32);
}

/// While as many addresses are blocked as may be, suspicious requests block no further one.
pub proof fn law_full_list_takes_no_address(b: BlockerView, ip: Seq<char>, times: Seq<u64>)
    requires
        b.blocked.len() >= MAX_BLOCKED,
    ensures
        after_all(b, ip, times).blocked == b.blocked,
    decreases times.len(),
{
    if times.len() > 0 {
        law_full_list_takes_no_address(b, ip, times.drop_last());
        assert(b.blocked.contains(ip) ==> b.blocked.insert(ip) =~= b.blocked);
    }
}

proof fn lemma_few_strikes_block_nothing(b: BlockerView, ip: Seq<char>, times: Seq<u64>)
    requires
        times.len() > 0 ==> strikes(b.watched, ip, times[0]) + times.len() < MAX_SUSPICIOUS_ACTIVITY,
    ensures
        after_all(b, ip, times).blocked == b.blocked,
        times.len() > 0 && after_all(b, ip, times).watched.contains_key(ip) ==> after_all(
            b,
            ip,
            times,
        ).watched[ip].count <= strikes(b.watched, ip, times[0]) + times.len(),
    decreases times.len(),
{
    if times.len() > 0 {
        let rest = times.drop_last();
        lemma_few_strikes_block_nothing(b, ip, rest);
        if rest.len() == 0 {
            assert(after_all(b, ip, rest) == b);
        } else {
            assert(rest[0] == times[0]);
        }
    }
}

/// Fewer than ten suspicious requests of an address block nothing: those that it made before
/// count too, unless the last of them is more than an hour ago.
pub proof fn law_few_strikes_do_not_block(b: BlockerView, ip: Seq<char>, times: Seq<u64>)
    requires
        times.len() > 0 ==> strikes(b.watched, ip, times[0]) + times.len() < MAX_SUSPICIOUS_ACTIVITY,
    ensures
        after_all(b, ip, times).blocked == b.blocked,
{
    lemma_few_strikes_block_nothing(b, ip, times);
}

/// What an address did more than an hour ago does not count: fewer than ten requests after that
/// block nothing, however many there were before.
pub proof fn law_old_strikes_are_forgotten(b: BlockerView, ip: Seq<char>, times: Seq<u64>)
    requires
        0 < times.len() < MAX_SUSPICIOUS_ACTIVITY,
        b.watched.contains_key(ip) ==> b.watched[ip].last + BLOCK_DURATION < times[0],
    ensures
        strikes(b.watched, ip, times[0]) == 0,
        after_all(b, ip, times).blocked == b.blocked,
{
    lemma_few_strikes_block_nothing(b, ip, times);
}

/// Decides whether a request of an address passes; `blocked` is whether the address is blocked.
pub fn ip_blocker_middleware(blocked: bool) -> (r: Guard)
    ensures
        r == (if blocked {
            Guard::Refuse(
                titled(
                    403,
                    "Access denied",
                    "Your IP has been temporarily blocked due to suspicious activity",
                ),
            )
        } else {
            Guard::Pass
        }),
{
    if blocked {
        Guard::Refuse(
            titled(
                403,
                "Access denied",
                "Your IP has been temporarily blocked due to suspicious activity",
            ),
        )
    } else {
        Guard::Pass
    }
}

/// How many texts are not empty.
pub open spec fn filled(parts: Seq<Seq<char>>) -> nat
    decreases parts.len(),
{
    if parts.len() == 0 {
        0
    } else {
        filled(parts.drop_last()) + if parts.last().len() == 0 {
            0nat
        } else {
            1
        }
    }
}

fn count_filled(parts: &Vec<String>) -> (r: usize)
    ensures
        r == filled(text::texts(parts@)),
{
    let ghost all = text::texts(parts@);
    let mut n: usize = 0;
    let mut i: usize = 0;
    assert(all.take(0) =~= Seq::empty());
    while i < parts.len()
        invariant
            i <= parts.len(),
            all == text::texts(parts@),
            n == filled(all.take(i as int)),
            n <= i,
        decreases parts.len() - i,
    {
        assert(all.take(i + 1).drop_last() =~= all.take(i as int));
        assert(all.take(i + 1).last() == parts@[i as int]@);
        if !parts[i].as_str().is_empty() {
            n += 1;
        }
        i += 1;
    }
    assert(all.take(i as int) =~= all);
    n
}

/// Whether a request is suspicious by its path, its client or its many parameters.
pub open spec fn is_suspicious(path: Seq<char>, known_bot: bool, query: Seq<char>) -> bool {
    text::contains_text(path, ".."@) || text::contains_text(path, "<script"@) || known_bot || filled(
        text::split(query, '&'),
    ) > 50
}

/// Finds whether a request is suspicious; `known_bot` is whether its client is a known robot.
pub fn track_suspicious_activity(path: &str, known_bot: bool, query: &str) -> (r: bool)
    ensures
        r == is_suspicious(path@, known_bot, query@),
{
    text::has_text(path, "..") || text::has_text(path, "<script") || known_bot || count_filled(
        &text::split_on(query, '&'),
    ) > 50
}

/// Requests that climb directories, carry scripts, come from known robots or ask for more than fifty
/// things count as suspicious; others do not.
pub proof fn law_suspicious_requests_are_noted(path: Seq<char>, known_bot: bool, query: Seq<char>)
    ensures
        text::contains_text(path, ".."@) || text::contains_text(path, "<script"@) || known_bot
            ==> is_suspicious(path, known_bot, query),
        filled(text::split(query, '&')) > 50 ==> is_suspicious(path, known_bot, query),
        is_suspicious(path, known_bot, query) ==> known_bot || text::contains_text(path, ".."@)
            || text::contains_text(path, "<script"@) || filled(text::split(query, '&')) > 50,
        forall|parts: Seq<Seq<char>>, part: Seq<char>|
            #![trigger filled(parts.push(part))]
            filled(parts.push(part)) == filled(parts) + (if part.len() == 0 {
                0int
            } else {
                1
            }),
{
    assert forall|parts: Seq<Seq<char>>, part: Seq<char>|
        #![trigger filled(parts.push(part))]
        filled(parts.push(part)) == filled(parts) + (if part.len() == 0 {
            0int
        } else {
            1
        }) by {
        assert(parts.push(part).drop_last() =~= parts);
    }
}

} // verus!
