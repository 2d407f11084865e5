//! Contacts of a user.

use vstd::prelude::*;

use crate::ids;
use crate::ids::{Oid, parse_oid};
use crate::lists;
use crate::order;
use crate::reply::{Done, Refusal, message, plain};
use crate::text;

verus! {

/// How long a search term must be.
pub const MIN_SEARCH_LENGTH: usize = 3;

/// How many users a search finds at most.
pub const SEARCH_RESULT_LIMIT: i64 = 10;

/// What to search for.
pub struct SearchBody {
    pub search_term: Option<String>,
}

/// `c` without the marks of a Polish letter.
pub open spec fn plain_letter(c: char) -> char {
    if c == 'ą' || c == 'Ą' {
        'a'
    } else if c == 'ć' || c == 'Ć' {
        'c'
    } else if c == 'ę' || c == 'Ę' {
        'e'
    } else if c == 'ł' || c == 'Ł' {
        'l'
    } else if c == 'ń' || c == 'Ń' {
        'n'
    } else if c == 'ó' || c == 'Ó' {
        'o'
    } else if c == 'ś' || c == 'Ś' {
        's'
    } else if c == 'ź' || c == 'Ź' || c == 'ż' || c == 'Ż' {
        'z'
    } else {
        c
    }
}

/// `s` with plain letters in place of Polish ones.
pub open spec fn plain_letters(s: Seq<char>) -> Seq<char> {
    s.map_values(|c: char| plain_letter(c))
}

/// `s` as it is searched for: plain letters, lower case, one space between words.
pub open spec fn normalized(s: Seq<char>) -> Seq<char> {
    text::join(text::words(text::lowered(plain_letters(s))), " "@)
}

/// A normalized text neither begins nor ends with white space, and white space in it is one space
/// at a time.
pub proof fn law_normalized_text_is_single_spaced(s: Seq<char>)
    ensures
        text::is_single_spaced(normalized(s)),
{
    let low = text::lowered(plain_letters(s));
    text::lemma_words_are_words(low);
    text::law_joined_words_are_single_spaced(text::words(low));
}

/// A normalized text that has neither a Polish letter nor anything to lower stays as it is:
/// normalizing it again changes nothing.
pub proof fn law_normalized_text_stays(s: Seq<char>)
    requires
        text::lowered(plain_letters(normalized(s))) == normalized(s),
    ensures
        normalized(normalized(s)) == normalized(s),
{
    let low = text::lowered(plain_letters(s));
    text::lemma_words_are_words(low);
    text::law_joined_words_are_read_back(text::words(low));
}

/// A text of ASCII and Polish letters that was normalized once has no Polish letter any more and
/// stays as it is: normalizing it again changes nothing.
pub proof fn law_normalizing_twice_changes_nothing(s: Seq<char>)
    requires
        vstd::utf8::is_ascii_chars(plain_letters(s)),
    ensures
        plain_letters(normalized(s)) == normalized(s),
        normalized(normalized(s)) == normalized(s),
{
    let low = text::lowered(plain_letters(s));
    let n = normalized(s);
    text::lemma_lowered_ascii_is_low(plain_letters(s));
    text::lemma_words_of_low(low);
    text::lemma_join_of_low(text::words(low));
    assert(plain_letters(n) =~= n) by {
        assert forall|i: int| 0 <= i < n.len() implies plain_letter(#[trigger] n[i]) == n[i] by {
            assert(text::is_low_char(n[i]));
        }
    }
    text::lemma_low_is_lowered(n);
    law_normalized_text_stays(s);
}

fn without_marks(s: &str) -> (r: String)
    ensures
        r@ == plain_letters(s@),
{
    let v = text::to_chars(s);
    let mut out = String::new();
    let mut i: usize = 0;
    assert(plain_letters(s@.take(0)) =~= Seq::empty());
    while i < v.len()
        invariant
            i <= v.len(),
            v@ == s@,
            out@ == plain_letters(s@.take(i as int)),
        decreases v.len() - i,
    {
        let c = v[i];
        let p = match c {
            'ą' | 'Ą' => 'a',
            'ć' | 'Ć' => 'c',
            'ę' | 'Ę' => 'e',
            'ł' | 'Ł' => 'l',
            'ń' | 'Ń' => 'n',
            'ó' | 'Ó' => 'o',
            'ś' | 'Ś' => 's',
            'ź' | 'Ź' | 'ż' | 'Ż' => 'z',
            other => other,
        };
        out.push(p);
        assert(plain_letters(s@.take(i + 1)) =~= plain_letters(s@.take(i as int)).push(p));
        i += 1;
    }
    assert(s@.take(i as int) =~= s@);
    out
}

/// Writes a text as it is searched for.
pub fn normalize_text(s: &str) -> (r: String)
    ensures
        r@ == normalized(s@),
{
    let mapped = without_marks(s);
    let lower = text::lowercase(mapped.as_str());
    let words = text::split_words(lower.as_str());
    text::join_with(&words, " ")
}

/// Which users a search finds.
#[derive(Debug, PartialEq, Eq)]
pub struct UserFilter {
    /// Every user but this one.
    pub other_than: Oid,
    /// The expression that the user name or the shown name matches.
    pub pattern: String,
    pub ignore_case: bool,
    pub active: bool,
    pub blocked: bool,
    pub banned: bool,
    pub disabled: bool,
    pub deletion_scheduled: bool,
    pub bots: bool,
    pub whitelisted_only: bool,
    pub limit: i64,
}

/// The view of `UserFilter`.
#[verifier::ext_equal]
pub struct UserFilterView {
    pub other_than: Oid,
    pub pattern: Seq<char>,
    pub ignore_case: bool,
    pub active: bool,
    pub blocked: bool,
    pub banned: bool,
    pub disabled: bool,
    pub deletion_scheduled: bool,
    pub bots: bool,
    pub whitelisted_only: bool,
    pub limit: i64,
}

impl View for UserFilter {
    type V = UserFilterView;

    open spec fn view(&self) -> UserFilterView {
        UserFilterView {
            other_than: self.other_than,
            pattern: self.pattern@,
            ignore_case: self.ignore_case,
            active: self.active,
            blocked: self.blocked,
            banned: self.banned,
            disabled: self.disabled,
            deletion_scheduled: self.deletion_scheduled,
            bots: self.bots,
            whitelisted_only: self.whitelisted_only,
            limit: self.limit,
        }
    }
}

/// The users that a search finds: others than the one who asks, who can log in and are no bots,
/// whose names begin with the term.
pub open spec fn user_filter(exclude: Oid, escaped: Seq<char>, whitelist: bool) -> UserFilterView {
    UserFilterView {
        other_than: exclude,
        pattern: "^"@ + escaped,
        ignore_case: true,
        active: true,
        blocked: false,
        banned: false,
        disabled: false,
        deletion_scheduled: false,
        bots: false,
        whitelisted_only: whitelist,
        limit: SEARCH_RESULT_LIMIT,
    }
}

/// Which users a search finds; `escaped` is an expression that matches the term alone.
pub fn search_users_by_term(exclude: Oid, escaped: &str, whitelist: bool) -> (r: UserFilter)
    ensures
        r@ == user_filter(exclude, escaped@, whitelist),
{
    UserFilter {
        other_than: exclude,
        pattern: text::join2("^", escaped),
        ignore_case: true,
        active: true,
        blocked: false,
        banned: false,
        disabled: false,
        deletion_scheduled: false,
        bots: false,
        whitelisted_only: whitelist,
        limit: SEARCH_RESULT_LIMIT,
    }
}

/// What to do next while users are searched for.
#[derive(Debug, PartialEq, Eq)]
pub enum SearchStep {
    /// Make an expression that matches the term alone.
    EscapeTerm(String),
    Search(UserFilter),
    Reply,
    Refuse(Refusal),
}

/// The view of `SearchStep`.
#[verifier::ext_equal]
pub enum SearchStepView {
    EscapeTerm(Seq<char>),
    Search(UserFilterView),
    Reply,
    Refuse(Refusal),
}

impl View for SearchStep {
    type V = SearchStepView;

    open spec fn view(&self) -> SearchStepView {
        match self {
            SearchStep::EscapeTerm(a) => SearchStepView::EscapeTerm(a@),
            SearchStep::Search(a) => SearchStepView::Search(a@),
            SearchStep::Reply => SearchStepView::Reply,
            SearchStep::Refuse(a) => SearchStepView::Refuse(*a),
        }
    }
}

pub open spec fn search_step(
    user: Option<&str>,
    body: SearchBody,
    escaped: Option<Seq<char>>,
    whitelist: bool,
    searched: bool,
) -> SearchStepView {
    let term = normalized(body.search_term->0@);
    if user is None || ids::oid_of(user->0@) is None {
        SearchStepView::Refuse(plain(500, "Internal Server Error."))
    } else if body.search_term is None {
        SearchStepView::Refuse(plain(400, "Search Term is required."))
    } else if term.len() < MIN_SEARCH_LENGTH {
        SearchStepView::Refuse(plain(400, "Search term must be at least 3 characters."))
    } else if searched {
        SearchStepView::Reply
    } else {
        match escaped {
            None => SearchStepView::EscapeTerm(term),
            Some(e) => SearchStepView::Search(user_filter(ids::oid_of(user->0@)->0, e, whitelist)),
        }
    }
}

/// Decides the next step of searching for users; `whitelist` is whether only whitelisted users
/// are shown.
pub fn search_contacts(
    user: Option<&str>,
    body: &SearchBody,
    escaped: Option<&str>,
    whitelist: bool,
    searched: bool,
) -> (r: SearchStep)
    ensures
        r@ == search_step(user, *body, text::opt_str(escaped), whitelist, searched),
{
    let id = match user {
        None => return SearchStep::Refuse(plain(500, "Internal Server Error.")),
        Some(u) => match parse_oid(u) {
            None => return SearchStep::Refuse(plain(500, "Internal Server Error.")),
            Some(id) => id,
        },
    };
    let term = match &body.search_term {
        None => return SearchStep::Refuse(plain(400, "Search Term is required.")),
        Some(t) => normalize_text(t.as_str()),
    };
    if term.as_str().unicode_len() < MIN_SEARCH_LENGTH {
        return SearchStep::Refuse(plain(400, "Search term must be at least 3 characters."));
    }
    if searched {
        return SearchStep::Reply;
    }
    match escaped {
        None => SearchStep::EscapeTerm(term),
        Some(e) => SearchStep::Search(search_users_by_term(id, e, whitelist)),
    }
}

/// A signed-in user finds others by a term of at least three characters, once it is normalized: at most
/// ten whose name begins with it, in any case, who are neither the user nor bots, and whose accounts are
/// in use.
pub proof fn law_users_are_found_by_a_term(
    user: Option<&str>,
    body: SearchBody,
    escaped: Option<Seq<char>>,
    whitelist: bool,
    searched: bool,
)
    ensures
        ({
            let s = search_step(user, body, escaped, whitelist, searched);
            let signed_in = user is Some && ids::oid_of(user->0@) is Some;
            let fits = signed_in && body.search_term is Some && normalized(
                body.search_term->0@,
            ).len() >= 3;
            &&& fits && searched <==> s is Reply
            &&& fits && !searched && escaped is None <==> s is EscapeTerm
            &&& s is EscapeTerm ==> s == SearchStepView::EscapeTerm(
                normalized(body.search_term->0@),
            )
            &&& fits && !searched && escaped is Some <==> s is Search
            &&& s matches SearchStepView::Search(filter) ==> filter.other_than == ids::oid_of(
                user->0@,
            )->0 && filter.pattern == "^"@ + escaped->0 && filter.ignore_case && filter.active
                && !filter.blocked && !filter.banned && !filter.disabled
                && !filter.deletion_scheduled && !filter.bots && filter.whitelisted_only == whitelist
                && filter.limit == 10
        }),
{
}

/// How a user that was found is shown.
#[derive(Clone, Copy, Debug, PartialEq, Eq)]
pub enum FoundStep {
    AskFriends(Oid),
    /// With what only friends see.
    ShowFriend(Oid),
    ShowStranger(Oid),
    Skip,
}

/// Decides how a user that was found is shown: only friends see the profile text and picture.
pub fn show_found(candidate: Option<Oid>, friends: Option<bool>) -> (r: FoundStep)
    ensures
        r == (match candidate {
            None => FoundStep::Skip,
            Some(id) => match friends {
                None => FoundStep::AskFriends(id),
                Some(true) => FoundStep::ShowFriend(id),
                Some(false) => FoundStep::ShowStranger(id),
            },
        }),
{
    match candidate {
        None => FoundStep::Skip,
        Some(id) => match friends {
            None => FoundStep::AskFriends(id),
            Some(true) => FoundStep::ShowFriend(id),
            Some(false) => FoundStep::ShowStranger(id),
        },
    }
}

/// A friendship of a user, and what is known of the friend.
#[derive(Clone, Copy, Debug, PartialEq, Eq)]
pub struct Friend {
    pub from: Oid,
    pub to: Oid,
    /// Whether the account of the friend was found.
    pub found: bool,
    /// When the last message between the two was sent.
    pub last: Option<i64>,
    /// How many messages of the friend are unread, unless they could not be counted.
    pub unread: Option<u64>,
}

/// The contacts that a user has muted and those that the user has blocked.
pub struct OwnLists {
    pub muted: Vec<Oid>,
    pub blocked: Vec<Oid>,
}

/// A contact as it is shown.
#[derive(Clone, Copy, Debug, PartialEq, Eq)]
pub struct Contact {
    pub id: Oid,
    pub last: Option<i64>,
    pub unread: u64,
    pub muted: bool,
    pub blocked: bool,
}

/// The other one of a friendship.
pub open spec fn friend_of(f: Friend, user: Oid) -> Oid {
    if f.from == user {
        f.to
    } else {
        f.from
    }
}

/// Those whom a user has muted: nobody where the account could not be loaded.
pub open spec fn muted_by(own: Option<OwnLists>) -> Seq<Oid> {
    match own {
        None => Seq::empty(),
        Some(l) => l.muted@,
    }
}

/// Those whom a user has blocked: nobody where the account could not be loaded.
pub open spec fn blocked_by(own: Option<OwnLists>) -> Seq<Oid> {
    match own {
        None => Seq::empty(),
        Some(l) => l.blocked@,
    }
}

/// A friend as a contact of a user.
pub open spec fn contact_of(f: Friend, user: Oid, own: Option<OwnLists>) -> Contact {
    Contact {
        id: friend_of(f, user),
        last: f.last,
        unread: known_unread(f.unread),
        muted: muted_by(own).contains(friend_of(f, user)),
        blocked: blocked_by(own).contains(friend_of(f, user)),
    }
}

/// The friends of a user as contacts; friends whose account was not found are left out.
pub open spec fn contacts_of(friends: Seq<Friend>, user: Oid, own: Option<OwnLists>) -> Seq<Contact>
    decreases friends.len(),
{
    if friends.len() == 0 {
        Seq::empty()
    } else if friends.last().found {
        contacts_of(friends.drop_last(), user, own).push(contact_of(friends.last(), user, own))
    } else {
        contacts_of(friends.drop_last(), user, own)
    }
}

/// The time of the last message with a contact, 0 where there is none.
pub open spec fn last_time(t: Option<i64>) -> i64 {
    match t {
        Some(t) => t,
        None => 0,
    }
}

/// The times by which contacts are ordered.
pub open spec fn contact_times(all: Seq<Contact>) -> Seq<i64> {
    all.map_values(|c: Contact| last_time(c.last))
}

/// Whether `shown` is `all`, ordered by the last message, the latest first; contacts with the
/// same time keep their order.
pub open spec fn is_contact_list(all: Seq<Contact>, shown: Seq<Contact>) -> bool {
    exists|order: Seq<usize>| #[trigger]
        order::is_descending(contact_times(all), all.len() as int, order) && shown
            == order.map_values(|i: usize| all[i as int])
}

/// Orders contacts by their last message, the latest first; contacts with the same time keep
/// their order. The result holds the places of the contacts.
pub fn order_contacts(times: &Vec<Option<i64>>) -> (r: Vec<usize>)
    ensures
        order::is_descending(
            times@.map_values(|t: Option<i64>| last_time(t)),
            times@.len() as int,
            r@,
        ),
{
    let mut keys: Vec<i64> = Vec::new();
    let mut i: usize = 0;
    while i < times.len()
        invariant
            i <= times.len(),
            keys@.len() == i,
            forall|j: int| 0 <= j < i ==> #[trigger] keys@[j] == last_time(times@[j]),
        decreases times.len() - i,
    {
        keys.push(
            match times[i] {
                Some(t) => t,
                None => 0,
            },
        );
        i += 1;
    }
    assert(keys@ =~= times@.map_values(|t: Option<i64>| last_time(t)));
    order::descending(&keys)
}

/// How many messages are unread: none where they could not be counted.
pub open spec fn known_unread(counted: Option<u64>) -> u64 {
    match counted {
        Some(n) => n,
        None => 0,
    }
}

/// How many messages are unread: none where they could not be counted.
pub fn dm_unread_count(counted: Option<u64>) -> (r: u64)
    ensures
        r == (match counted {
            Some(n) => n,
            None => 0,
        }),
{
    match counted {
        Some(n) => n,
        None => 0,
    }
}

fn list_friends(friends: &Vec<Friend>, user: Oid, own: &Option<OwnLists>) -> (r: Vec<Contact>)
    ensures
        r@ == contacts_of(friends@, user, *own),
{
    let mut all: Vec<Contact> = Vec::new();
    let mut i: usize = 0;
    assert(friends@.take(0) =~= Seq::empty());
    while i < friends.len()
        invariant
            i <= friends.len(),
            all@ == contacts_of(friends@.take(i as int), user, *own),
        decreases friends.len() - i,
    {
        assert(friends@.take(i + 1).drop_last() =~= friends@.take(i as int));
        let f = friends[i];
        if f.found {
            let id = if f.from == user {
                f.to
            } else {
                f.from
            };
            let (muted, blocked) = match own {
                None => (false, false),
                Some(l) => (lists::has_oid(&l.muted, id), lists::has_oid(&l.blocked, id)),
            };
            all.push(
                Contact { id, last: f.last, unread: dm_unread_count(f.unread), muted, blocked },
            );
        }
        i += 1;
    }
    assert(friends@.take(i as int) =~= friends@);
    all
}

/// Lists the contacts of a user.
pub fn list_contacts(friends: &Vec<Friend>, user: Oid, own: &Option<OwnLists>) -> (r: Vec<Contact>)
    ensures
        is_contact_list(contacts_of(friends@, user, *own), r@),
{
    let all = list_friends(friends, user, own);
    let mut times: Vec<Option<i64>> = Vec::new();
    let mut i: usize = 0;
    while i < all.len()
        invariant
            i <= all.len(),
            times@.len() == i,
            forall|j: int| 0 <= j < i ==> #[trigger] times@[j] == all@[j].last,
        decreases all.len() - i,
    {
        times.push(all[i].last);
        i += 1;
    }
    let order = order_contacts(&times);
    assert(times@.map_values(|t: Option<i64>| last_time(t)) =~= contact_times(all@));
    let mut shown: Vec<Contact> = Vec::new();
    let mut k: usize = 0;
    while k < order.len()
        invariant
            k <= order.len(),
            order::is_descending(contact_times(all@), all@.len() as int, order@),
            shown@.len() == k,
            forall|j: int| 0 <= j < k ==> #[trigger] shown@[j] == all@[order@[j] as int],
        decreases order.len() - k,
    {
        shown.push(all[order[k]]);
        k += 1;
    }
    assert(shown@ =~= order@.map_values(|i: usize| all@[i as int]));
    shown
}

proof fn lemma_found_friends_are_contacts(
    friends: Seq<Friend>,
    user: Oid,
    own: Option<OwnLists>,
    c: Contact,
)
    ensures
        contacts_of(friends, user, own).contains(c) <==> exists|i: int|
            0 <= i < friends.len() && (#[trigger] friends[i]).found && contact_of(
                friends[i],
                user,
                own,
            ) == c,
    decreases friends.len(),
{
    if friends.len() > 0 {
        let rest = friends.drop_last();
        let before = contacts_of(rest, user, own);
        let all = contacts_of(friends, user, own);
        lemma_found_friends_are_contacts(rest, user, own, c);
        if all.contains(c) {
            let k = choose|k: int| 0 <= k < all.len() && all[k] == c;
            if friends.last().found && k == before.len() {
                assert(friends[friends.len() - 1].found);
            } else {
                assert(before[k] == c);
                let i = choose|i: int|
                    0 <= i < rest.len() && (#[trigger] rest[i]).found && contact_of(
                        rest[i],
                        user,
                        own,
                    ) == c;
                assert(friends[i] == rest[i]);
            }
        }
        if exists|i: int|
            0 <= i < friends.len() && (#[trigger] friends[i]).found && contact_of(
                friends[i],
                user,
                own,
            ) == c {
            let i = choose|i: int|
                0 <= i < friends.len() && (#[trigger] friends[i]).found && contact_of(
                    friends[i],
                    user,
                    own,
                ) == c;
            if i < rest.len() {
                assert(rest[i] == friends[i]);
                let k = choose|k: int| 0 <= k < before.len() && before[k] == c;
                assert(all[k] == c);
            } else {
                assert(all.last() == c);
            }
        }
    }
}

/// A contact is shown exactly where it is a friend whose account was found; it counts as muted
/// and as blocked exactly where the user has muted or blocked it.
pub proof fn law_contacts_are_the_friends_found(
    friends: Seq<Friend>,
    user: Oid,
    own: Option<OwnLists>,
    shown: Seq<Contact>,
    c: Contact,
)
    requires
        is_contact_list(contacts_of(friends, user, own), shown),
    ensures
        shown.contains(c) <==> exists|i: int|
            0 <= i < friends.len() && (#[trigger] friends[i]).found && contact_of(
                friends[i],
                user,
                own,
            ) == c,
        shown.contains(c) ==> c.muted == muted_by(own).contains(c.id) && c.blocked == blocked_by(
            own,
        ).contains(c.id),
{
    let all = contacts_of(friends, user, own);
    let order = choose|order: Seq<usize>| #[trigger]
        order::is_descending(contact_times(all), all.len() as int, order) && shown
            == order.map_values(|i: usize| all[i as int]);
    lemma_found_friends_are_contacts(friends, user, own, c);
    if shown.contains(c) {
        let k = choose|k: int| 0 <= k < shown.len() && shown[k] == c;
        assert(all[order[k] as int] == c);
    }
    if all.contains(c) {
        let x = choose|x: int| 0 <= x < all.len() && all[x] == c;
        order::lemma_holds_each(contact_times(all), all.len() as int, order, x);
        let k = choose|k: int| 0 <= k < order.len() && order[k] == x;
        assert(shown[k] == c);
    }
}

/// What to do next while the contacts of a user are shown.
#[derive(Debug, PartialEq, Eq)]
pub enum ContactsStep {
    LoadFriendships(Oid),
    /// Reply with the contacts, in this order.
    Reply(Vec<Contact>),
    Refuse(Refusal),
}

/// Decides the next step of showing the contacts of a user. `own` are the lists of the user, if
/// the account could be loaded.
pub fn get_contacts_for_list(
    user: Option<&str>,
    friends: &Vec<Friend>,
    own: &Option<OwnLists>,
    loaded: Option<Done>,
) -> (r: ContactsStep)
    ensures
        user is None || ids::oid_of(user->0@) is None ==> r == ContactsStep::Refuse(
            plain(400, "User ID is required."),
        ),
        user is Some && ids::oid_of(user->0@) is Some ==> match loaded {
            None => r == ContactsStep::LoadFriendships(ids::oid_of(user->0@)->0),
            Some(Done::Failed) => r == ContactsStep::Refuse(plain(500, "Internal Server Error")),
            Some(Done::Worked) => r is Reply && is_contact_list(
                contacts_of(friends@, ids::oid_of(user->0@)->0, *own),
                r->Reply_0@,
            ),
        },
{
    let id = match user {
        None => return ContactsStep::Refuse(plain(400, "User ID is required.")),
        Some(u) => match parse_oid(u) {
            None => return ContactsStep::Refuse(plain(400, "User ID is required.")),
            Some(id) => id,
        },
    };
    match loaded {
        None => ContactsStep::LoadFriendships(id),
        Some(Done::Failed) => ContactsStep::Refuse(plain(500, "Internal Server Error")),
        Some(Done::Worked) => ContactsStep::Reply(list_contacts(friends, id, own)),
    }
}

/// What is known while a contact is muted or blocked.
#[derive(Clone, Copy, Debug)]
pub struct ToggleFacts {
    pub friends: Option<bool>,
    /// Whether the account of the user was found.
    pub user: Option<bool>,
    pub stored: Option<Done>,
}

/// What to do next while a contact is muted or blocked.
#[derive(Debug, PartialEq, Eq)]
pub enum ToggleStep {
    AskFriends,
    LoadUser(Oid),
    /// Store the list in the field of the account.
    Store { user: Oid, field: &'static str, list: Vec<Oid> },
    Reply { on: bool, words: &'static str },
    Refuse(Refusal),
}

/// The view of `ToggleStep`.
#[verifier::ext_equal]
pub enum ToggleStepView {
    AskFriends,
    LoadUser(Oid),
    Store { user: Oid, field: &'static str, list: Seq<Oid> },
    Reply { on: bool, words: &'static str },
    Refuse(Refusal),
}

impl View for ToggleStep {
    type V = ToggleStepView;

    open spec fn view(&self) -> ToggleStepView {
        match self {
            ToggleStep::AskFriends => ToggleStepView::AskFriends,
            ToggleStep::LoadUser(a) => ToggleStepView::LoadUser(*a),
            ToggleStep::Store { user, field, list } => ToggleStepView::Store {
                user: *user,
                field: *field,
                list: list@,
            },
            ToggleStep::Reply { on, words } => ToggleStepView::Reply { on: *on, words: *words },
            ToggleStep::Refuse(a) => ToggleStepView::Refuse(*a),
        }
    }
}

pub open spec fn toggle_step(
    user: Option<&str>,
    contact: Seq<char>,
    field: &'static str,
    list: Seq<Oid>,
    words_on: &'static str,
    words_off: &'static str,
    f: ToggleFacts,
) -> ToggleStepView {
    if user is None {
        ToggleStepView::Refuse(message(401, "Brak autoryzacji"))
    } else if ids::oid_of(contact) is None {
        ToggleStepView::Refuse(message(400, "Nieprawidłowy identyfikator kontaktu"))
    } else if f.friends is None {
        ToggleStepView::AskFriends
    } else if !f.friends->0 {
        ToggleStepView::Refuse(
            message(404, "Kontakt nie znaleziony lub brak relacji znajomości"),
        )
    } else if ids::oid_of(user->0@) is None || f.user == Some(false) {
        ToggleStepView::Refuse(message(404, "Użytkownik nie znaleziony"))
    } else if f.user is None {
        ToggleStepView::LoadUser(ids::oid_of(user->0@)->0)
    } else {
        match f.stored {
            None => ToggleStepView::Store {
                user: ids::oid_of(user->0@)->0,
                field,
                list: lists::toggled(list, ids::oid_of(contact)->0),
            },
            Some(Done::Failed) => ToggleStepView::Refuse(message(500, "Internal Server Error")),
            Some(Done::Worked) => if list.contains(ids::oid_of(contact)->0) {
                ToggleStepView::Reply { on: false, words: words_off }
            } else {
                ToggleStepView::Reply { on: true, words: words_on }
            },
        }
    }
}

fn toggle(
    user: Option<&str>,
    contact: &str,
    field: &'static str,
    list: &Vec<Oid>,
    words_on: &'static str,
    words_off: &'static str,
    f: &ToggleFacts,
) -> (r: ToggleStep)
    ensures
        r@ == toggle_step(user, contact@, field, list@, words_on, words_off, *f),
{
    let user = match user {
        None => return ToggleStep::Refuse(message(401, "Brak autoryzacji")),
        Some(u) => u,
    };
    let cid = match parse_oid(contact) {
        None => return ToggleStep::Refuse(message(400, "Nieprawidłowy identyfikator kontaktu")),
        Some(id) => id,
    };
    match f.friends {
        None => return ToggleStep::AskFriends,
        Some(false) => return ToggleStep::Refuse(
            message(404, "Kontakt nie znaleziony lub brak relacji znajomości"),
        ),
        Some(true) => {},
    }
    let uid = match parse_oid(user) {
        None => return ToggleStep::Refuse(message(404, "Użytkownik nie znaleziony")),
        Some(id) => id,
    };
    match f.user {
        None => return ToggleStep::LoadUser(uid),
        Some(false) => return ToggleStep::Refuse(message(404, "Użytkownik nie znaleziony")),
        Some(true) => {},
    }
    match f.stored {
        None => ToggleStep::Store { user: uid, field, list: switched(list, cid) },
        Some(Done::Failed) => ToggleStep::Refuse(message(500, "Internal Server Error")),
        Some(Done::Worked) => if lists::has_oid(list, cid) {
            ToggleStep::Reply { on: false, words: words_off }
        } else {
            ToggleStep::Reply { on: true, words: words_on }
        },
    }
}

/// The list of a user with the membership of a contact switched.
pub fn switched(list: &Vec<Oid>, contact: Oid) -> (r: Vec<Oid>)
    ensures
        r@ == lists::toggled(list@, contact),
{
    lists::toggle_oid(list, contact)
}

/// Decides the next step of muting a contact or lifting the mute; `muted` are the contacts that
/// the user had muted.
pub fn toggle_contact_mute(user: Option<&str>, contact: &str, muted: &Vec<Oid>, f: &ToggleFacts) -> (r:
    ToggleStep)
    ensures
        r@ == toggle_step(
            user,
            contact@,
            "mutedContacts",
            muted@,
            "Konwersacja wyciszona",
            "Wyciszenie wyłączone",
            *f,
        ),
{
    toggle(user, contact, "mutedContacts", muted, "Konwersacja wyciszona", "Wyciszenie wyłączone", f)
}

/// Decides the next step of blocking a contact or lifting the block; `blocked` are the contacts
/// that the user had blocked.
pub fn toggle_contact_block(user: Option<&str>, contact: &str, blocked: &Vec<Oid>, f: &ToggleFacts) -> (r:
    ToggleStep)
    ensures
        r@ == toggle_step(
            user,
            contact@,
            "blockedContacts",
            blocked@,
            "Użytkownik zablokowany",
            "Użytkownik odblokowany",
            *f,
        ),
{
    toggle(user, contact, "blockedContacts", blocked, "Użytkownik zablokowany", "Użytkownik odblokowany", f)
}

/// The reply says what the stored list holds: where each contact is listed at most once, a
/// contact is reported as on exactly where the list that was stored holds it.
pub proof fn law_toggle_reports_the_stored_list(
    user: Option<&str>,
    contact: Seq<char>,
    field: &'static str,
    list: Seq<Oid>,
    words_on: &'static str,
    words_off: &'static str,
    f: ToggleFacts,
)
    requires
        list.no_duplicates(),
    ensures
        toggle_step(user, contact, field, list, words_on, words_off, f) matches ToggleStepView::Reply {
            on,
            ..
        } ==> on == lists::toggled(list, ids::oid_of(contact)->0).contains(ids::oid_of(contact)->0),
{
    let x = ids::oid_of(contact)->0;
    lists::law_toggle_switches_one_membership(list, x);
    if !list.contains(x) {
        assert(list.push(x).last() == x);
        assert(list.push(x).contains(x));
    }
}

/// A user mutes, unmutes, blocks and unblocks a friend: the request is not refused while nothing fails,
/// the list that is stored differs from the old one in that contact alone, and the reply with the words
/// for it comes only after that.
pub proof fn law_contact_is_switched(
    user: Option<&str>,
    contact: Seq<char>,
    field: &'static str,
    list: Seq<Oid>,
    words_on: &'static str,
    words_off: &'static str,
    f: ToggleFacts,
    other: Oid,
)
    requires
        list.no_duplicates(),
    ensures
        ({
            let s = toggle_step(user, contact, field, list, words_on, words_off, f);
            let cid = ids::oid_of(contact);
            let uid = ids::oid_of(user->0@);
            let near = user is Some && cid is Some && f.friends == Some(true) && uid is Some;
            &&& user is Some && cid is Some && f.friends is None <==> s is AskFriends
            &&& near && f.user is None <==> s is LoadUser
            &&& s is LoadUser ==> s == ToggleStepView::LoadUser(uid->0)
            &&& near && f.user is Some && f.user->0 && f.stored is None <==> s is Store
            &&& near && f.user is Some && f.user->0 && f.stored == Some(Done::Worked) <==> s is Reply
            &&& s matches ToggleStepView::Store { user: u, field: place, list: new } ==> Some(u) == uid
                && place == field && (new.contains(cid->0) <==> !list.contains(cid->0)) && (other
                != cid->0 ==> (new.contains(other) <==> list.contains(other)))
            &&& s matches ToggleStepView::Reply { on, words } ==> (on <==> !list.contains(cid->0)) && (
            on ==> words == words_on) && (!on ==> words == words_off)
            &&& user is None ==> s is Refuse
            &&& f.friends == Some(false) ==> s is Refuse
        }),
{
    if ids::oid_of(contact) is Some {
        let x = ids::oid_of(contact)->0;
        let new = lists::toggled(list, x);
        lists::law_toggle_switches_one_membership(list, x);
        assert(new.contains(x) <==> !list.contains(x));
        assert(other != x ==> (new.contains(other) <==> list.contains(other)));
    }
}

/// What to do next while blocked contacts are shown.
#[derive(Debug, PartialEq, Eq)]
pub enum BlockedStep {
    LoadUser(Oid),
    /// Reply with these contacts.
    Reply(Vec<Oid>),
    Refuse(Refusal),
}

/// The view of `BlockedStep`.
#[verifier::ext_equal]
pub enum BlockedStepView {
    LoadUser(Oid),
    Reply(Seq<Oid>),
    Refuse(Refusal),
}

impl View for BlockedStep {
    type V = BlockedStepView;

    open spec fn view(&self) -> BlockedStepView {
        match self {
            BlockedStep::LoadUser(a) => BlockedStepView::LoadUser(*a),
            BlockedStep::Reply(a) => BlockedStepView::Reply(a@),
            BlockedStep::Refuse(a) => BlockedStepView::Refuse(*a),
        }
    }
}

/// A blocked contact, and whether its account was found.
#[derive(Clone, Copy, Debug, PartialEq, Eq)]
pub struct BlockedContact {
    pub id: Oid,
    pub found: bool,
}

/// The contacts whose account was found, in order.
pub open spec fn found_contacts(blocked: Seq<BlockedContact>) -> Seq<Oid>
    decreases blocked.len(),
{
    if blocked.len() == 0 {
        Seq::empty()
    } else if blocked.last().found {
        found_contacts(blocked.drop_last()).push(blocked.last().id)
    } else {
        found_contacts(blocked.drop_last())
    }
}

/// Picks the contacts whose account was found.
pub fn pick_found(blocked: &Vec<BlockedContact>) -> (r: Vec<Oid>)
    ensures
        r@ == found_contacts(blocked@),
{
    let mut out: Vec<Oid> = Vec::new();
    let mut i: usize = 0;
    assert(blocked@.take(0) =~= Seq::empty());
    while i < blocked.len()
        invariant
            i <= blocked.len(),
            out@ == found_contacts(blocked@.take(i as int)),
        decreases blocked.len() - i,
    {
        assert(blocked@.take(i + 1).drop_last() =~= blocked@.take(i as int));
        if blocked[i].found {
            out.push(blocked[i].id);
        }
        i += 1;
    }
    assert(blocked@.take(i as int) =~= blocked@);
    out
}

pub open spec fn blocked_step(
    user: Option<&str>,
    blocked: Seq<BlockedContact>,
    found: Option<bool>,
) -> BlockedStepView {
    if user is None {
        BlockedStepView::Refuse(message(401, "Brak autoryzacji"))
    } else if ids::oid_of(user->0@) is None {
        BlockedStepView::Refuse(message(400, "Nieprawidłowy użytkownik"))
    } else {
        match found {
            None => BlockedStepView::LoadUser(ids::oid_of(user->0@)->0),
            Some(false) => BlockedStepView::Refuse(message(404, "Użytkownik nie znaleziony")),
            Some(true) => BlockedStepView::Reply(found_contacts(blocked)),
        }
    }
}

/// Decides the next step of showing the contacts that a user has blocked.
pub fn get_blocked_contacts(
    user: Option<&str>,
    blocked: &Vec<BlockedContact>,
    found: Option<bool>,
) -> (r: BlockedStep)
    ensures
        r@ == blocked_step(user, blocked@, found),
{
    let user = match user {
        None => return BlockedStep::Refuse(message(401, "Brak autoryzacji")),
        Some(u) => u,
    };
    let id = match parse_oid(user) {
        None => return BlockedStep::Refuse(message(400, "Nieprawidłowy użytkownik")),
        Some(id) => id,
    };
    match found {
        None => BlockedStep::LoadUser(id),
        Some(false) => BlockedStep::Refuse(message(404, "Użytkownik nie znaleziony")),
        Some(true) => BlockedStep::Reply(pick_found(blocked)),
    }
}

/// A signed-in user sees the blocked contacts whose accounts were found, all of them and in order.
pub proof fn law_blocked_contacts_are_shown(
    user: Option<&str>,
    blocked: Seq<BlockedContact>,
    more: BlockedContact,
    found: Option<bool>,
)
    ensures
        more.found ==> found_contacts(blocked.push(more)) == found_contacts(blocked).push(more.id),
        !more.found ==> found_contacts(blocked.push(more)) == found_contacts(blocked),
        found_contacts(Seq::empty()).len() == 0,
        ({
            let s = blocked_step(user, blocked, found);
            let signed_in = user is Some && ids::oid_of(user->0@) is Some;
            &&& signed_in && found is None ==> s == BlockedStepView::LoadUser(
                ids::oid_of(user->0@)->0,
            )
            &&& signed_in && found == Some(true) ==> s == BlockedStepView::Reply(
                found_contacts(blocked),
            )
            &&& s is Reply ==> signed_in && found == Some(true)
        }),
{
    assert(blocked.push(more).drop_last() =~= blocked);
}

/// What to do next while a conversation is deleted.
#[derive(Clone, Copy, Debug, PartialEq, Eq)]
pub enum DeleteStep {
    AskFriends,
    /// Delete the messages between the two, and their attachments that nothing else uses.
    DeleteMessages { user: Oid, contact: Oid },
    Reply(&'static str),
    Refuse(Refusal),
}

pub open spec fn delete_step(
    user: Option<&str>,
    contact: Seq<char>,
    friends: Option<bool>,
    deleted: bool,
) -> DeleteStep {
    if user is None || ids::oid_of(user->0@) is None || ids::oid_of(contact) is None {
        DeleteStep::Refuse(message(400, "Missing user or contact id"))
    } else if friends is None {
        DeleteStep::AskFriends
    } else if !friends->0 {
        DeleteStep::Refuse(message(403, "You can only delete conversations with friends"))
    } else if !deleted {
        DeleteStep::DeleteMessages {
            user: ids::oid_of(user->0@)->0,
            contact: ids::oid_of(contact)->0,
        }
    } else {
        DeleteStep::Reply("Conversation deleted")
    }
}

/// Decides the next step of deleting a conversation.
pub fn delete_conversation(
    user: Option<&str>,
    contact: &str,
    friends: Option<bool>,
    deleted: bool,
) -> (r: DeleteStep)
    ensures
        r == delete_step(user, contact@, friends, deleted),
{
    let user = match user {
        None => return DeleteStep::Refuse(message(400, "Missing user or contact id")),
        Some(u) => u,
    };
    match (parse_oid(user), parse_oid(contact)) {
        (Some(uid), Some(cid)) => match friends {
            None => DeleteStep::AskFriends,
            Some(false) => DeleteStep::Refuse(
                message(403, "You can only delete conversations with friends"),
            ),
            Some(true) => if !deleted {
                DeleteStep::DeleteMessages { user: uid, contact: cid }
            } else {
                DeleteStep::Reply("Conversation deleted")
            },
        },
        _ => DeleteStep::Refuse(message(400, "Missing user or contact id")),
    }
}

/// A user mutes and blocks only friends, and deletes only conversations with friends.
pub proof fn law_contacts_are_friends(
    user: Option<&str>,
    contact: Seq<char>,
    field: &'static str,
    list: Seq<Oid>,
    words_on: &'static str,
    words_off: &'static str,
    f: ToggleFacts,
    deleted: bool,
)
    ensures
        toggle_step(user, contact, field, list, words_on, words_off, f) is Store ==> f.friends == Some(true),
        delete_step(user, contact, f.friends, deleted) is DeleteMessages ==> f.friends == Some(true),
{
}

/// A user deletes the conversation with a friend, and no other: it is deleted once, and success is
/// replied only after that.
pub proof fn law_conversation_is_deleted(
    user: Option<&str>,
    contact: Seq<char>,
    friends: Option<bool>,
    deleted: bool,
)
    ensures
        ({
            let s = delete_step(user, contact, friends, deleted);
            let named = user is Some && ids::oid_of(user->0@) is Some && ids::oid_of(contact) is Some;
            &&& named && friends is None <==> s is AskFriends
            &&& named && friends == Some(true) && !deleted <==> s is DeleteMessages
            &&& s is DeleteMessages ==> s == (DeleteStep::DeleteMessages {
                user: ids::oid_of(user->0@)->0,
                contact: ids::oid_of(contact)->0,
            })
            &&& named && friends == Some(true) && deleted <==> s is Reply
            &&& named && friends == Some(false) ==> s == DeleteStep::Refuse(
                message(403, "You can only delete conversations with friends"),
            )
        }),
{
}

} // verus!
