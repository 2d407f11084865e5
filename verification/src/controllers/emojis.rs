//! The list of emoji, which another server provides.

use vstd::prelude::*;

use crate::reply::{Refusal, error};
use crate::text;

verus! {

/// An emoji as the other server lists it.
pub struct RawEmoji {
    pub emoji: String,
    pub name: String,
    pub slug: String,
}

/// A group of emoji as the other server lists it.
pub struct RawGroup {
    pub name: String,
    pub slug: String,
    pub emojis: Vec<RawEmoji>,
}

/// An emoji as clients get it.
pub struct Emoji {
    pub char: String,
    pub name: String,
    pub keywords: String,
}

/// A group of emoji as clients get it.
pub struct EmojiGroup {
    pub name: String,
    pub slug: String,
    pub emojis: Vec<Emoji>,
}

/// All emoji, and how many there are.
pub struct EmojiDataset {
    pub count: usize,
    pub groups: Vec<EmojiGroup>,
}

/// The texts of an emoji: itself, its name and its keywords.
pub struct EmojiView {
    pub char: Seq<char>,
    pub name: Seq<char>,
    pub keywords: Seq<char>,
}

/// The texts of a group.
pub struct GroupView {
    pub name: Seq<char>,
    pub slug: Seq<char>,
    pub emojis: Seq<EmojiView>,
}

impl View for Emoji {
    type V = EmojiView;

    open spec fn view(&self) -> EmojiView {
        EmojiView { char: self.char@, name: self.name@, keywords: self.keywords@ }
    }
}

impl View for EmojiGroup {
    type V = GroupView;

    open spec fn view(&self) -> GroupView {
        GroupView {
            name: self.name@,
            slug: self.slug@,
            emojis: self.emojis@.map_values(|e: Emoji| e@),
        }
    }
}

/// An emoji as clients get it: its keywords are the words of its slug.
pub open spec fn shown_emoji(e: RawEmoji) -> EmojiView {
    EmojiView { char: e.emoji@, name: e.name@, keywords: text::replaced(e.slug@, '_', ' ') }
}

/// A group as clients get it.
pub open spec fn shown_group(g: RawGroup) -> GroupView {
    GroupView {
        name: g.name@,
        slug: g.slug@,
        emojis: g.emojis@.map_values(|e: RawEmoji| shown_emoji(e)),
    }
}

/// How many emoji groups hold.
pub open spec fn total(groups: Seq<RawGroup>) -> nat
    decreases groups.len(),
{
    if groups.len() == 0 {
        0
    } else {
        total(groups.drop_last()) + groups.last().emojis@.len()
    }
}

proof fn lemma_total_grows(groups: Seq<RawGroup>, n: int)
    requires
        0 <= n <= groups.len(),
    ensures
        total(groups.take(n)) <= total(groups),
    decreases groups.len() - n,
{
    if n < groups.len() {
        assert(groups.take(n + 1).drop_last() =~= groups.take(n));
        lemma_total_grows(groups, n + 1);
    } else {
        assert(groups.take(n) =~= groups);
    }
}

fn show_emojis(emojis: &Vec<RawEmoji>) -> (r: Vec<Emoji>)
    ensures
        r@.map_values(|e: Emoji| e@) == emojis@.map_values(|e: RawEmoji| shown_emoji(e)),
{
    let mut out: Vec<Emoji> = Vec::new();
    let mut i: usize = 0;
    while i < emojis.len()
        invariant
            i <= emojis.len(),
            out@.len() == i,
            forall|j: int| 0 <= j < i ==> (#[trigger] out@[j])@ == shown_emoji(emojis@[j]),
        decreases emojis.len() - i,
    {
        let e = &emojis[i];
        out.push(
            Emoji {
                char: e.emoji.as_str().to_owned(),
                name: e.name.as_str().to_owned(),
                keywords: text::replace_char(e.slug.as_str(), '_', ' '),
            },
        );
        i += 1;
    }
    assert(out@.map_values(|e: Emoji| e@) =~= emojis@.map_values(|e: RawEmoji| shown_emoji(e)));
    out
}

/// Makes the list that clients get.
pub fn normalize_groups(groups: &Vec<RawGroup>) -> (r: EmojiDataset)
    requires
        total(groups@) <= usize::MAX,
    ensures
        r.count == total(groups@),
        r.groups@.map_values(|g: EmojiGroup| g@) == groups@.map_values(
            |g: RawGroup| shown_group(g),
        ),
{
    let mut count: usize = 0;
    let mut out: Vec<EmojiGroup> = Vec::new();
    let mut i: usize = 0;
    assert(groups@.take(0) =~= Seq::empty());
    while i < groups.len()
        invariant
            i <= groups.len(),
            total(groups@) <= usize::MAX,
            count == total(groups@.take(i as int)),
            out@.len() == i,
            forall|j: int| 0 <= j < i ==> (#[trigger] out@[j])@ == shown_group(groups@[j]),
        decreases groups.len() - i,
    {
        proof {
            lemma_total_grows(groups@, i + 1);
            assert(groups@.take(i + 1).drop_last() =~= groups@.take(i as int));
        }
        let g = &groups[i];
        count += g.emojis.len();
        out.push(
            EmojiGroup {
                name: g.name.as_str().to_owned(),
                slug: g.slug.as_str().to_owned(),
                emojis: show_emojis(&g.emojis),
            },
        );
        i += 1;
    }
    assert(groups@.take(i as int) =~= groups@);
    assert(out@.map_values(|g: EmojiGroup| g@) =~= groups@.map_values(|g: RawGroup| shown_group(g)));
    EmojiDataset { count, groups: out }
}

/// Every emoji is kept with its name, its words apart where its mark has underscores, and counted once.
pub proof fn law_every_emoji_is_kept(groups: Seq<RawGroup>, more: RawGroup, e: RawEmoji)
    ensures
        shown_emoji(e).char == e.emoji@ && shown_emoji(e).name == e.name@,
        shown_emoji(e).keywords.len() == e.slug@.len(),
        !shown_emoji(e).keywords.contains('_'),
        shown_group(more).name == more.name@ && shown_group(more).slug == more.slug@,
        shown_group(more).emojis.len() == more.emojis@.len(),
        forall|i: int|
            0 <= i < more.emojis@.len() ==> #[trigger] shown_group(more).emojis[i] == shown_emoji(
                more.emojis@[i],
            ),
        total(groups.push(more)) == total(groups) + more.emojis@.len(),
        total(Seq::empty()) == 0,
{
    assert(groups.push(more).drop_last() =~= groups);
    let k = shown_emoji(e).keywords;
    if k.contains('_') {
        let i = choose|i: int| 0 <= i < k.len() && k[i] == '_';
        assert(k[i] != '_');
    }
}

/// How asking the other server went.
#[derive(Clone, Copy, Debug, PartialEq, Eq)]
pub enum Fetched {
    /// It did not answer.
    Unreachable,
    /// It refused.
    Refused,
    /// Its answer could not be read.
    Unreadable,
    /// It listed no group.
    Empty,
    /// It listed groups, with this many emoji in all.
    Groups(usize),
}

/// What to do next while the emoji are shown.
#[derive(Clone, Copy, Debug, PartialEq, Eq)]
pub enum EmojiStep {
    Fetch,
    /// Keep the list that was fetched, as `normalize_groups` makes it, and show it from now on.
    Keep { count: usize },
    Reply,
    Refuse(Refusal),
}

/// The steps of showing the emoji; `cached` is how many the stored list holds, where there is one.
pub open spec fn emoji_step(cached: Option<usize>, fetched: Option<Fetched>) -> EmojiStep {
    if cached == Some(0usize) {
        EmojiStep::Refuse(error(503, "Zbiór emotek jest niedostępny."))
    } else if cached is Some {
        EmojiStep::Reply
    } else {
        match fetched {
            None => EmojiStep::Fetch,
            Some(Fetched::Unreachable) => EmojiStep::Refuse(
                error(502, "Nie udało się połączyć z serwerem emotek."),
            ),
            Some(Fetched::Refused) => EmojiStep::Refuse(
                error(502, "Nie udało się pobrać listy emotek."),
            ),
            Some(Fetched::Unreadable) => EmojiStep::Refuse(
                error(502, "Nie udało się pobrać listy emotek."),
            ),
            Some(Fetched::Empty) => EmojiStep::Refuse(error(503, "Zbiór emotek jest niedostępny.")),
            Some(Fetched::Groups(count)) => EmojiStep::Keep { count },
        }
    }
}

/// Decides the next step of showing the emoji.
pub fn get_emojis(cached: Option<usize>, fetched: Option<Fetched>) -> (r: EmojiStep)
    ensures
        r == emoji_step(cached, fetched),
{
    if let Some(n) = cached {
        return if n == 0 {
            EmojiStep::Refuse(error(503, "Zbiór emotek jest niedostępny."))
        } else {
            EmojiStep::Reply
        };
    }
    match fetched {
        None => EmojiStep::Fetch,
        Some(Fetched::Unreachable) => EmojiStep::Refuse(
            error(502, "Nie udało się połączyć z serwerem emotek."),
        ),
        Some(Fetched::Refused) => EmojiStep::Refuse(
            error(502, "Nie udało się pobrać listy emotek."),
        ),
        Some(Fetched::Unreadable) => EmojiStep::Refuse(
            error(502, "Nie udało się pobrać listy emotek."),
        ),
        Some(Fetched::Empty) => EmojiStep::Refuse(error(503, "Zbiór emotek jest niedostępny.")),
        Some(Fetched::Groups(count)) => EmojiStep::Keep { count },
    }
}

/// Where the other server fails, the reply is a bad gateway.
pub proof fn law_upstream_failure_is_a_bad_gateway(fetched: Fetched)
    requires
        fetched is Unreachable || fetched is Refused || fetched is Unreadable,
    ensures
        emoji_step(None, Some(fetched)) matches EmojiStep::Refuse(r) && r.status == 502,
{
}

/// A fetch that failed, or that listed no group, is not kept: the next request asks again.
pub proof fn law_failed_fetch_is_not_kept(cached: Option<usize>, fetched: Fetched)
    requires
        fetched !is Groups,
    ensures
        emoji_step(cached, Some(fetched)) !is Keep,
        emoji_step(None, Some(fetched)) is Refuse,
        emoji_step(None, None) is Fetch,
{
}

/// What is kept is shown without another fetch.
pub proof fn law_kept_list_is_shown(groups: Seq<RawGroup>, fetched: Option<Fetched>)
    requires
        total(groups) <= usize::MAX,
    ensures
        emoji_step(None, Some(Fetched::Groups(total(groups) as usize))) == (EmojiStep::Keep {
            count: total(groups) as usize,
        }),
        emoji_step(Some(total(groups) as usize), fetched) !is Fetch,
        total(groups) > 0 ==> emoji_step(Some(total(groups) as usize), fetched) is Reply,
{
}

} // verus!
