//! Reading the query of an address.

use vstd::prelude::*;

use crate::text;

verus! {

/// The value that a form-encoded query gives to `key`.
pub uninterp spec fn form_value(query: Seq<char>, key: Seq<char>) -> Option<Seq<char>>;

/// Reads a form-encoded query with `actix_web::web::Query::from_query`, as a map from texts to
/// texts, and takes the value under `key`; none where the query cannot be read or has no such
/// key. What the encoding makes of a query has only a name here.
#[verifier::external_body]
pub(crate) fn read_form_value(query: &str, key: &str) -> (r: Option<String>)
    ensures
        text::opt(r) == form_value(query@, key@),
{
    let form = actix_web::web::Query::<std::collections::HashMap<String, String>>::from_query(query);
    form.ok().and_then(|q| q.into_inner().remove(key))
}

/// The value that the pair `pair` gives to `key`.
pub open spec fn pair_value(pair: Seq<char>, key: Seq<char>) -> Option<Seq<char>> {
    match text::split_once(pair, '=') {
        Some(p) => if p.0 == key {
            Some(p.1)
        } else {
            None
        },
        None => None,
    }
}

/// The first value that `pairs` give to `key`.
pub open spec fn value_in(pairs: Seq<Seq<char>>, key: Seq<char>) -> Option<Seq<char>>
    decreases pairs.len(),
{
    if pairs.len() == 0 {
        None
    } else if pair_value(pairs[0], key) is Some {
        pair_value(pairs[0], key)
    } else {
        value_in(pairs.skip(1), key)
    }
}

/// The first number that `pairs` give to `key`; values that are no numbers do not count.
pub open spec fn number_in(pairs: Seq<Seq<char>>, key: Seq<char>) -> Option<u64>
    decreases pairs.len(),
{
    if pairs.len() == 0 {
        None
    } else if pair_value(pairs[0], key) is Some && text::u64_of(pair_value(pairs[0], key)->0) is Some {
        text::u64_of(pair_value(pairs[0], key)->0)
    } else {
        number_in(pairs.skip(1), key)
    }
}

/// The text that a query gives to `key`; empty where it gives none.
pub open spec fn text_of(query: Option<&str>, key: Seq<char>) -> Seq<char> {
    match query {
        None => Seq::empty(),
        Some(q) => match value_in(text::split(q@, '&'), key) {
            Some(v) => v,
            None => Seq::empty(),
        },
    }
}

/// The number that a query gives to `key`, else `default`.
pub open spec fn number_of(query: Option<&str>, key: Seq<char>, default: u64) -> u64 {
    match query {
        None => default,
        Some(q) => match number_in(text::split(q@, '&'), key) {
            Some(v) => v,
            None => default,
        },
    }
}

fn value_of_pair(pair: &str, key: &str) -> (r: Option<String>)
    ensures
        text::opt(r) == pair_value(pair@, key@),
{
    match text::cut_once(pair, '=') {
        None => None,
        Some(p) => {
            let (k, v) = p;
            if text::same_text(k.as_str(), key) {
                Some(v)
            } else {
                None
            }
        },
    }
}

/// Reads the text that a query gives to `key`.
pub fn query_str(query: Option<&str>, key: &str) -> (r: String)
    ensures
        r@ == text_of(query, key@),
{
    let q = match query {
        None => return String::new(),
        Some(q) => q,
    };
    let pairs = text::split_on(q, '&');
    let ghost all = text::texts(pairs@);
    let mut i: usize = 0;
    assert(all.skip(0) =~= all);
    while i < pairs.len()
        invariant
            i <= pairs.len(),
            all == text::texts(pairs@),
            query == Some(q),
            all == text::split(q@, '&'),
            value_in(all, key@) == value_in(all.skip(i as int), key@),
        decreases pairs.len() - i,
    {
        assert(all.skip(i as int)[0] == pairs@[i as int]@);
        assert(all.skip(i as int).skip(1) =~= all.skip(i + 1));
        if let Some(v) = value_of_pair(pairs[i].as_str(), key) {
            return v;
        }
        i += 1;
    }
    String::new()
}

/// Reads the number that a query gives to `key`.
pub fn query_u64(query: Option<&str>, key: &str, default: u64) -> (r: u64)
    ensures
        r == number_of(query, key@, default),
{
    let q = match query {
        None => return default,
        Some(q) => q,
    };
    let pairs = text::split_on(q, '&');
    let ghost all = text::texts(pairs@);
    let mut i: usize = 0;
    assert(all.skip(0) =~= all);
    while i < pairs.len()
        invariant
            i <= pairs.len(),
            all == text::texts(pairs@),
            query == Some(q),
            all == text::split(q@, '&'),
            number_in(all, key@) == number_in(all.skip(i as int), key@),
        decreases pairs.len() - i,
    {
        assert(all.skip(i as int)[0] == pairs@[i as int]@);
        assert(all.skip(i as int).skip(1) =~= all.skip(i + 1));
        if let Some(v) = value_of_pair(pairs[i].as_str(), key) {
            if let Some(n) = text::parse_u64(v.as_str()) {
                return n;
            }
        }
        i += 1;
    }
    default
}

/// The first value of a key counts, as a text; as a number the first that is one. Other keys do not.
pub proof fn law_first_value_counts(
    pair: Seq<char>,
    rest: Seq<Seq<char>>,
    key: Seq<char>,
    value: Seq<char>,
)
    requires
        !key.contains('='),
    ensures
        value_in(seq![key + seq!['='] + value] + rest, key) == Some(value),
        text::u64_of(value) is Some ==> number_in(seq![key + seq!['='] + value] + rest, key)
            == text::u64_of(value),
        text::u64_of(value) is None ==> number_in(seq![key + seq!['='] + value] + rest, key)
            == number_in(rest, key),
        pair_value(pair, key) is None ==> value_in(seq![pair] + rest, key) == value_in(rest, key)
            && number_in(seq![pair] + rest, key) == number_in(rest, key),
        value_in(Seq::empty(), key) is None && number_in(Seq::empty(), key) is None,
{
    text::law_text_is_cut_at_separators(key, value, '=');
    assert((seq![key + seq!['='] + value] + rest).skip(1) =~= rest);
    assert((seq![pair] + rest).skip(1) =~= rest);
}

/// Without a query, or without the key in it, the text is empty and the number the one for that.
pub proof fn law_missing_key_has_its_default(query: Option<&str>, key: Seq<char>, default: u64)
    ensures
        query is None ==> text_of(query, key).len() == 0 && number_of(query, key, default) == default,
        query is Some && number_in(text::split(query->0@, '&'), key) is None ==> number_of(
            query,
            key,
            default,
        ) == default,
        query is Some && number_in(text::split(query->0@, '&'), key) is Some ==> Some(
            number_of(query, key, default),
        ) == number_in(text::split(query->0@, '&'), key),
        query is Some && value_in(text::split(query->0@, '&'), key) is Some ==> Some(
            text_of(query, key),
        ) == value_in(text::split(query->0@, '&'), key),
{
}

} // verus!
