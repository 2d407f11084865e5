//! Text handling shared by the request rules.

use vstd::prelude::*;

verus! {

/// Appends a character with `String::push`: the text grows by that character.
pub assume_specification[ String::push ](s: &mut String, ch: char)
    ensures
        final(s)@ == old(s)@.push(ch),
;

/// What `str::to_lowercase` makes of a text.
pub uninterp spec fn lowercase_of(s: Seq<char>) -> Seq<char>;

/// The ASCII lower-case form of `c`; other characters stay.
pub open spec fn ascii_lower_char(c: char) -> char {
    if 'A' <= c && c <= 'Z' {
        (c as u8 + 32) as char
    } else {
        c
    }
}

/// `s` with its ASCII letters in lower case.
pub open spec fn ascii_lower(s: Seq<char>) -> Seq<char> {
    s.map_values(|c: char| ascii_lower_char(c))
}

/// Lower-cases a text with `str::to_lowercase`. The full Unicode mapping has only a
/// name here; a text of ASCII characters gets its letters lower-cased one by one.
#[verifier::external_body]
pub(crate) fn lowercase(s: &str) -> (r: String)
    ensures
        r@ == lowercase_of(s@),
        vstd::utf8::is_ascii_chars(s@) ==> r@ == ascii_lower(s@),
{
    s.to_lowercase()
}

/// `s` in lower case: an ASCII text letter by letter, any other as `str::to_lowercase` has it.
pub open spec fn lowered(s: Seq<char>) -> Seq<char> {
    if vstd::utf8::is_ascii_chars(s) {
        ascii_lower(s)
    } else {
        lowercase_of(s)
    }
}

/// Length of `s` in UTF-8 bytes.
pub open spec fn byte_len(s: Seq<char>) -> usize {
    vstd::utf8::encode_utf8(s).len() as usize
}

/// The texts of a list of strings.
pub open spec fn texts(v: Seq<String>) -> Seq<Seq<char>> {
    v.map_values(|s: String| s@)
}

/// The characters of `s`, in order.
pub fn to_chars(s: &str) -> (r: Vec<char>)
    ensures
        r@ == s@,
{
    let mut v: Vec<char> = Vec::new();
    for c in it: s.chars()
        invariant
            v@ == s@.take(it.index()),
            it.seq() == s@,
    {
        v.push(c);
    }
    v
}

/// The text made of the characters of `v` from `from` up to `to`.
pub fn from_chars(v: &Vec<char>, from: usize, to: usize) -> (r: String)
    requires
        from <= to <= v.len(),
    ensures
        r@ == v@.subrange(from as int, to as int),
{
    let mut s = String::new();
    let mut i: usize = from;
    while i < to
        invariant
            from <= i <= to <= v.len(),
            s@ == v@.subrange(from as int, i as int),
        decreases to - i,
    {
        s.push(v[i]);
        i += 1;
        assert(s@ =~= v@.subrange(from as int, i as int));
    }
    s
}

/// Whether `a` and `b` are the same text.
pub fn same_text(a: &str, b: &str) -> (r: bool)
    ensures
        r == (a@ == b@),
{
    a.to_owned() == b.to_owned()
}

/// Whether `a` and `b` are the same text: where they are as long as each other, every character is
/// looked at, so that the time taken does not tell where they differ.
pub fn same_throughout(a: &str, b: &str) -> (r: bool)
    ensures
        r == (a@ == b@),
{
    let x = to_chars(a);
    let y = to_chars(b);
    if x.len() != y.len() {
        return false;
    }
    let mut equal: usize = 0;
    let mut i: usize = 0;
    while i < x.len()
        invariant
            equal <= i <= x.len(),
            x.len() == y.len(),
            equal == i <==> (forall|j: int| 0 <= j < i ==> x@[j] == y@[j]),
        decreases x.len() - i,
    {
        if x[i] == y[i] {
            equal += 1;
        }
        i += 1;
    }
    proof {
        assert(equal == i ==> x@ =~= y@);
    }
    equal == i
}

/// `a` followed by `b`.
pub fn join2(a: &str, b: &str) -> (r: String)
    ensures
        r@ == a@ + b@,
{
    let mut s = a.to_owned();
    s.append(b);
    s
}

/// `a`, `b` and `c`, one after the other.
pub fn join3(a: &str, b: &str, c: &str) -> (r: String)
    ensures
        r@ == a@ + b@ + c@,
{
    let mut s = a.to_owned();
    s.append(b);
    s.append(c);
    s
}

/// The first `n` characters of `s`, or all of them where there are fewer.
pub open spec fn prefix(s: Seq<char>, n: int) -> Seq<char> {
    if s.len() <= n {
        s
    } else {
        s.take(n)
    }
}

/// Cuts `s` to its first `n` characters.
pub fn take_chars(s: &str, n: usize) -> (r: String)
    ensures
        r@ == prefix(s@, n as int),
{
    let v = to_chars(s);
    if v.len() <= n {
        s.to_owned()
    } else {
        from_chars(&v, 0, n)
    }
}

/// A text is cut to its first characters where it is longer, and stays as it is else.
pub proof fn law_cut_text_is_a_beginning(s: Seq<char>, n: int)
    requires
        0 <= n,
    ensures
        prefix(s, n).len() <= n,
        s.len() <= n ==> prefix(s, n) == s,
        s.len() > n ==> prefix(s, n).len() == n,
        forall|i: int| 0 <= i < prefix(s, n).len() ==> #[trigger] prefix(s, n)[i] == s[i],
{
}

/// Whether `s` holds the character `c`.
pub fn has_char(s: &str, c: char) -> (r: bool)
    ensures
        r == s@.contains(c),
{
    let v = to_chars(s);
    let mut i: usize = 0;
    while i < v.len()
        invariant
            i <= v.len(),
            v@ == s@,
            forall|j: int| 0 <= j < i ==> s@[j] != c,
        decreases v.len() - i,
    {
        if v[i] == c {
            assert(s@[i as int] == c);
            return true;
        }
        i += 1;
    }
    false
}

/// Whether `p` stands in `s` at position `i`.
pub open spec fn stands_at(s: Seq<char>, p: Seq<char>, i: int) -> bool {
    0 <= i && i + p.len() <= s.len() && s.subrange(i, i + p.len()) == p
}

/// Whether `p` stands somewhere in `s`.
pub open spec fn contains_text(s: Seq<char>, p: Seq<char>) -> bool {
    exists|i: int| stands_at(s, p, i)
}

/// Whether `p` stands in `v` at position `i`.
fn matches_at(v: &Vec<char>, p: &Vec<char>, i: usize) -> (r: bool)
    requires
        i <= v.len(),
    ensures
        r == stands_at(v@, p@, i as int),
{
    if p.len() > v.len() - i {
        return false;
    }
    let mut k: usize = 0;
    while k < p.len()
        invariant
            k <= p.len(),
            i + p.len() <= v.len(),
            forall|j: int| 0 <= j < k ==> v@[i + j] == p@[j],
        decreases p.len() - k,
    {
        if v[i + k] != p[k] {
            assert(v@.subrange(i as int, i + p@.len())[k as int] != p@[k as int]);
            return false;
        }
        k += 1;
    }
    assert(v@.subrange(i as int, i + p@.len()) =~= p@);
    true
}

/// Whether `p` stands somewhere in `s`.
pub fn has_text(s: &str, p: &str) -> (r: bool)
    ensures
        r == contains_text(s@, p@),
{
    let v = to_chars(s);
    let w = to_chars(p);
    let mut i: usize = 0;
    while i < v.len()
        invariant
            i <= v.len(),
            v@ == s@,
            w@ == p@,
            forall|j: int| 0 <= j < i ==> !stands_at(s@, p@, j),
        decreases v.len() - i,
    {
        if matches_at(&v, &w, i) {
            return true;
        }
        i += 1;
    }
    let last = matches_at(&v, &w, i);
    assert(forall|j: int| j > s@.len() ==> !stands_at(s@, p@, j));
    last
}

/// Whether `s` begins with `p`.
pub open spec fn begins_with(s: Seq<char>, p: Seq<char>) -> bool {
    stands_at(s, p, 0)
}

/// Whether `s` ends with `p`.
pub open spec fn ends_with(s: Seq<char>, p: Seq<char>) -> bool {
    stands_at(s, p, s.len() - p.len())
}

/// Whether `s` ends with `p`.
pub fn has_suffix(s: &str, p: &str) -> (r: bool)
    ensures
        r == ends_with(s@, p@),
{
    let v = to_chars(s);
    let w = to_chars(p);
    if w.len() > v.len() {
        return false;
    }
    matches_at(&v, &w, v.len() - w.len())
}

/// `s` without the prefix `p`, if it begins with it.
pub open spec fn without_prefix(s: Seq<char>, p: Seq<char>) -> Option<Seq<char>> {
    if begins_with(s, p) {
        Some(s.skip(p.len() as int))
    } else {
        None
    }
}

/// The view of an optional text.
pub open spec fn opt(s: Option<String>) -> Option<Seq<char>> {
    match s {
        None => None,
        Some(s) => Some(s@),
    }
}

/// The text of an optional member, unless it is absent or empty.
pub open spec fn given(s: Option<String>) -> Option<Seq<char>> {
    match s {
        None => None,
        Some(t) => if t@.len() == 0 {
            None
        } else {
            Some(t@)
        },
    }
}

/// The view of an optional borrowed text.
pub open spec fn opt_str(s: Option<&str>) -> Option<Seq<char>> {
    match s {
        None => None,
        Some(t) => Some(t@),
    }
}

/// Borrows an optional text.
pub fn as_opt_str(s: &Option<String>) -> (r: Option<&str>)
    ensures
        opt_str(r) == opt(*s),
{
    match s {
        None => None,
        Some(t) => Some(t.as_str()),
    }
}

/// The text of an optional member, unless it is absent or empty.
pub fn given_text(s: &Option<String>) -> (r: Option<&str>)
    ensures
        opt_str(r) == given(*s),
{
    match s {
        None => None,
        Some(t) => {
            if t.as_str().is_empty() {
                None
            } else {
                Some(t.as_str())
            }
        },
    }
}

/// The text of an optional member, empty where it is absent.
pub open spec fn or_empty(s: Option<String>) -> Seq<char> {
    match s {
        None => Seq::empty(),
        Some(t) => t@,
    }
}

/// The text of an optional member, empty where it is absent.
pub fn text_or_empty(s: &Option<String>) -> (r: String)
    ensures
        r@ == or_empty(*s),
{
    match s {
        None => String::new(),
        Some(t) => t.clone(),
    }
}

/// Removes the prefix `p` from `s`.
pub fn strip_prefix(s: &str, p: &str) -> (r: Option<String>)
    ensures
        opt(r) == without_prefix(s@, p@),
{
    let v = to_chars(s);
    let w = to_chars(p);
    if matches_at(&v, &w, 0) {
        let out = from_chars(&v, w.len(), v.len());
        assert(out@ =~= s@.skip(p@.len() as int));
        Some(out)
    } else {
        None
    }
}

/// Whether `c` is white space: the characters with Unicode's White_Space property.
pub open spec fn is_white(c: char) -> bool {
    ('\u{9}' <= c && c <= '\u{d}') || c == ' ' || c == '\u{85}' || c == '\u{a0}' || c == '\u{1680}'
        || ('\u{2000}' <= c && c <= '\u{200a}') || c == '\u{2028}' || c == '\u{2029}' || c
        == '\u{202f}' || c == '\u{205f}' || c == '\u{3000}'
}

/// Whether `c` is white space.
pub fn white(c: char) -> (r: bool)
    ensures
        r == is_white(c),
{
    ('\u{9}' <= c && c <= '\u{d}') || c == ' ' || c == '\u{85}' || c == '\u{a0}' || c == '\u{1680}'
        || ('\u{2000}' <= c && c <= '\u{200a}') || c == '\u{2028}' || c == '\u{2029}' || c
        == '\u{202f}' || c == '\u{205f}' || c == '\u{3000}'
}

/// `s` without the white space that it begins with.
pub open spec fn trim_start(s: Seq<char>) -> Seq<char>
    decreases s.len(),
{
    if s.len() > 0 && is_white(s[0]) {
        trim_start(s.drop_first())
    } else {
        s
    }
}

/// `s` without the white space that it ends with.
pub open spec fn trim_end(s: Seq<char>) -> Seq<char>
    decreases s.len(),
{
    if s.len() > 0 && is_white(s.last()) {
        trim_end(s.drop_last())
    } else {
        s
    }
}

/// `s` without the white space at its two ends.
pub open spec fn trimmed(s: Seq<char>) -> Seq<char> {
    trim_end(trim_start(s))
}

/// Removes the white space at the two ends of `s`.
pub fn trim(s: &str) -> (r: String)
    ensures
        r@ == trimmed(s@),
{
    let v = to_chars(s);
    let mut a: usize = 0;
    assert(s@.skip(0) =~= s@);
    while a < v.len() && white(v[a])
        invariant
            a <= v.len(),
            v@ == s@,
            trim_start(s@) == trim_start(s@.skip(a as int)),
        decreases v.len() - a,
    {
        assert(s@.skip(a as int).drop_first() =~= s@.skip(a + 1));
        a += 1;
    }
    assert(trim_start(s@) == s@.skip(a as int));
    let mut b: usize = v.len();
    while a < b && white(v[b - 1])
        invariant
            a <= b <= v.len(),
            v@ == s@,
            trim_end(s@.skip(a as int)) == trim_end(s@.subrange(a as int, b as int)),
        decreases b,
    {
        assert(s@.subrange(a as int, b as int).drop_last() =~= s@.subrange(a as int, b - 1));
        b -= 1;
    }
    from_chars(&v, a, b)
}

/// Trimming takes white space off both ends and nothing else: what is left neither begins nor ends
/// with it, stood in the text without a gap, and only white space stood around it.
pub proof fn law_trimming_takes_the_white_ends(s: Seq<char>)
    ensures
        trimmed(s).len() > 0 ==> !is_white(trimmed(s)[0]) && !is_white(trimmed(s).last()),
        exists|a: int, b: int|
            0 <= a <= b <= s.len() && trimmed(s) == #[trigger] s.subrange(a, b) && (forall|i: int|
                0 <= i < a ==> is_white(#[trigger] s[i])) && (forall|i: int|
                b <= i < s.len() ==> is_white(#[trigger] s[i])),
        (s.len() == 0 || (!is_white(s[0]) && !is_white(s.last()))) ==> trimmed(s) == s,
        trimmed(trimmed(s)) == trimmed(s),
{
    lemma_trim_start(s);
    let t = trim_start(s);
    lemma_trim_end(t);
    let a = s.len() - t.len();
    let b = a + trim_end(t).len();
    assert(trimmed(s) =~= s.subrange(a, b));
    assert forall|i: int| b <= i < s.len() implies is_white(#[trigger] s[i]) by {
        assert(s[i] == t[i - a]);
    }
    if trimmed(s).len() > 0 {
        assert(trimmed(s)[0] == t[0]);
    }
    lemma_trim_start(trimmed(s));
}

proof fn lemma_trim_start(s: Seq<char>)
    ensures
        trim_start(s).len() <= s.len(),
        trim_start(s) == s.skip(s.len() - trim_start(s).len()),
        forall|i: int| 0 <= i < s.len() - trim_start(s).len() ==> is_white(#[trigger] s[i]),
        trim_start(s).len() > 0 ==> !is_white(trim_start(s)[0]),
    decreases s.len(),
{
    if s.len() > 0 && is_white(s[0]) {
        let t = s.drop_first();
        lemma_trim_start(t);
        assert(trim_start(s) =~= s.skip(s.len() - trim_start(s).len()));
        assert forall|i: int| 0 <= i < s.len() - trim_start(s).len() implies is_white(#[trigger] s[i]) by {
            if i > 0 {
                assert(s[i] == t[i - 1]);
            }
        }
    } else {
        assert(s.skip(0) =~= s);
    }
}

proof fn lemma_trim_end(s: Seq<char>)
    ensures
        trim_end(s).len() <= s.len(),
        trim_end(s) == s.take(trim_end(s).len() as int),
        forall|i: int| trim_end(s).len() <= i < s.len() ==> is_white(#[trigger] s[i]),
        trim_end(s).len() > 0 ==> !is_white(trim_end(s).last()),
    decreases s.len(),
{
    if s.len() > 0 && is_white(s.last()) {
        let t = s.drop_last();
        lemma_trim_end(t);
        assert(trim_end(s) =~= s.take(trim_end(s).len() as int));
        assert forall|i: int| trim_end(s).len() <= i < s.len() implies is_white(#[trigger] s[i]) by {
            if i < t.len() {
                assert(s[i] == t[i]);
            }
        }
    } else {
        assert(s.take(s.len() as int) =~= s);
    }
}

/// `s` without the characters `c` that it ends with.
pub open spec fn trim_end_of(s: Seq<char>, c: char) -> Seq<char>
    decreases s.len(),
{
    if s.len() > 0 && s.last() == c {
        trim_end_of(s.drop_last(), c)
    } else {
        s
    }
}

/// `s` without the characters `c` that it begins with.
pub open spec fn trim_start_of(s: Seq<char>, c: char) -> Seq<char>
    decreases s.len(),
{
    if s.len() > 0 && s[0] == c {
        trim_start_of(s.drop_first(), c)
    } else {
        s
    }
}

/// Removes the characters `c` that `s` ends with.
pub fn trim_end_char(s: &str, c: char) -> (r: String)
    ensures
        r@ == trim_end_of(s@, c),
{
    let v = to_chars(s);
    let mut b: usize = v.len();
    assert(s@.take(b as int) =~= s@);
    while 0 < b && v[b - 1] == c
        invariant
            b <= v.len(),
            v@ == s@,
            trim_end_of(s@, c) == trim_end_of(s@.take(b as int), c),
        decreases b,
    {
        assert(s@.take(b as int).drop_last() =~= s@.take(b - 1));
        b -= 1;
    }
    let out = from_chars(&v, 0, b);
    assert(out@ =~= s@.take(b as int));
    out
}

/// Removes the characters `c` that `s` begins with.
pub fn trim_start_char(s: &str, c: char) -> (r: String)
    ensures
        r@ == trim_start_of(s@, c),
{
    let v = to_chars(s);
    let mut a: usize = 0;
    assert(s@.skip(0) =~= s@);
    while a < v.len() && v[a] == c
        invariant
            a <= v.len(),
            v@ == s@,
            trim_start_of(s@, c) == trim_start_of(s@.skip(a as int), c),
        decreases v.len() - a,
    {
        assert(s@.skip(a as int).drop_first() =~= s@.skip(a + 1));
        a += 1;
    }
    let out = from_chars(&v, a, v.len());
    assert(out@ =~= s@.skip(a as int));
    out
}

/// What is taken off an end of a text is that character and nothing else.
pub proof fn law_one_character_is_taken_off(s: Seq<char>, c: char)
    ensures
        trim_end_of(s.push(c), c) == trim_end_of(s, c),
        s.len() > 0 && s.last() != c ==> trim_end_of(s, c) == s,
        trim_start_of(seq![c] + s, c) == trim_start_of(s, c),
        s.len() > 0 && s[0] != c ==> trim_start_of(s, c) == s,
        trim_end_of(Seq::empty(), c).len() == 0 && trim_start_of(Seq::empty(), c).len() == 0,
{
    assert(s.push(c).drop_last() =~= s);
    assert((seq![c] + s).drop_first() =~= s);
}

/// The position of the first `c` in `s`; the length of `s` where there is none.
pub open spec fn position(s: Seq<char>, c: char) -> int
    decreases s.len(),
{
    if s.len() == 0 || s[0] == c {
        0
    } else {
        1 + position(s.drop_first(), c)
    }
}

/// The position lies in the text, the character stands there and nowhere before.
pub proof fn lemma_position(s: Seq<char>, c: char)
    ensures
        0 <= position(s, c) <= s.len(),
        position(s, c) < s.len() ==> s[position(s, c)] == c,
        position(s, c) < s.len() <==> s.contains(c),
        forall|i: int| 0 <= i < position(s, c) ==> s[i] != c,
    decreases s.len(),
{
    if s.len() > 0 && s[0] != c {
        let t = s.drop_first();
        lemma_position(t, c);
        assert forall|i: int| 0 <= i < position(s, c) implies s[i] != c by {
            if i > 0 {
                assert(s[i] == t[i - 1]);
            }
        }
        if s.contains(c) {
            let k = s.index_of(c);
            assert(t[k - 1] == c);
        }
        if t.contains(c) {
            assert(s[position(s, c)] == c);
        }
    } else if s.len() > 0 {
        assert(s[0] == c);
    }
}

/// A position with the property of the first `c` is the first.
pub proof fn lemma_position_is(s: Seq<char>, c: char, k: int)
    requires
        0 <= k <= s.len(),
        k < s.len() ==> s[k] == c,
        forall|i: int| 0 <= i < k ==> s[i] != c,
    ensures
        position(s, c) == k,
{
    lemma_position(s, c);
    if position(s, c) < k {
        assert(s[position(s, c)] == c);
    }
}

/// Finds the first `c` of `v` at or after `from`.
fn find_from(v: &Vec<char>, from: usize, c: char) -> (r: usize)
    requires
        from <= v.len(),
    ensures
        from <= r <= v.len(),
        r - from == position(v@.skip(from as int), c),
{
    let mut i: usize = from;
    while i < v.len() && v[i] != c
        invariant
            from <= i <= v.len(),
            forall|j: int| from <= j < i ==> v@[j] != c,
        decreases v.len() - i,
    {
        i += 1;
    }
    proof {
        let t = v@.skip(from as int);
        assert forall|k: int| 0 <= k < i - from implies t[k] != c by {
            assert(t[k] == v@[from + k]);
        }
        lemma_position_is(t, c, i - from);
    }
    i
}

/// The pieces of `s` between the characters `c`: one more than there are `c`.
pub open spec fn split(s: Seq<char>, c: char) -> Seq<Seq<char>>
    decreases s.len(),
    via split_decreases
{
    let k = position(s, c);
    if k >= s.len() || k < 0 {
        seq![s]
    } else {
        seq![s.take(k)] + split(s.skip(k + 1), c)
    }
}

#[via_fn]
proof fn split_decreases(s: Seq<char>, c: char) {
    lemma_position(s, c);
}

/// Cuts `s` at every `c`.
pub fn split_on(s: &str, c: char) -> (r: Vec<String>)
    ensures
        texts(r@) == split(s@, c),
{
    let v = to_chars(s);
    let mut out: Vec<String> = Vec::new();
    let mut a: usize = 0;
    assert(s@.skip(0) =~= s@);
    assert(texts(out@) + split(s@, c) =~= split(s@, c));
    loop
        invariant
            a <= v.len(),
            v@ == s@,
            split(s@, c) == texts(out@) + split(s@.skip(a as int), c),
        decreases v.len() - a,
    {
        let k = find_from(&v, a, c);
        let ghost rest = s@.skip(a as int);
        let piece = from_chars(&v, a, k);
        let ghost before = out@;
        out.push(piece);
        assert(texts(out@) =~= texts(before).push(piece@));
        if k == v.len() {
            assert(piece@ =~= rest);
            assert(texts(out@) =~= split(s@, c));
            return out;
        }
        assert(piece@ =~= rest.take(k - a));
        assert(rest.skip(k - a + 1) =~= s@.skip(k + 1));
        assert(texts(out@) + split(s@.skip(k + 1), c) =~= split(s@, c));
        a = k + 1;
    }
}

/// A text is cut at each separator and nowhere else: what stands before the first one is the first
/// piece, and a text without one is a piece itself. Pieces hold no separator.
pub proof fn law_text_is_cut_at_separators(a: Seq<char>, rest: Seq<char>, c: char)
    requires
        !a.contains(c),
    ensures
        split(a, c) == seq![a],
        split(a + seq![c] + rest, c) == seq![a] + split(rest, c),
        split_once(a, c) is None,
        split_once(a + seq![c] + rest, c) == Some((a, rest)),
{
    lemma_position(a, c);
    let s = a + seq![c] + rest;
    assert forall|i: int| 0 <= i < a.len() implies s[i] != c by {
        assert(s[i] == a[i]);
        assert(a.contains(a[i]));
    }
    assert(s[a.len() as int] == c);
    lemma_position_is(s, c, a.len() as int);
    assert(s.take(a.len() as int) =~= a);
    assert(s.skip(a.len() as int + 1) =~= rest);
}

/// The two sides of the first `c` in `s`.
pub open spec fn split_once(s: Seq<char>, c: char) -> Option<(Seq<char>, Seq<char>)> {
    let k = position(s, c);
    if k < s.len() {
        Some((s.take(k), s.skip(k + 1)))
    } else {
        None
    }
}

/// The view of an optional pair of texts.
pub open spec fn opt_pair(p: Option<(String, String)>) -> Option<(Seq<char>, Seq<char>)> {
    match p {
        None => None,
        Some(p) => Some((p.0@, p.1@)),
    }
}

/// Cuts `s` at the first `c`.
pub fn cut_once(s: &str, c: char) -> (r: Option<(String, String)>)
    ensures
        opt_pair(r) == split_once(s@, c),
{
    let v = to_chars(s);
    let k = find_from(&v, 0, c);
    assert(s@.skip(0) =~= s@);
    if k == v.len() {
        return None;
    }
    let left = from_chars(&v, 0, k);
    let right = from_chars(&v, k + 1, v.len());
    assert(left@ =~= s@.take(k as int));
    assert(right@ =~= s@.skip(k + 1));
    Some((left, right))
}

/// What follows the last of the characters `seps` in `s`; all of `s` where there is none.
pub open spec fn after_last(s: Seq<char>, seps: Seq<char>) -> Seq<char>
    decreases s.len(),
{
    if s.len() == 0 || seps.contains(s.last()) {
        Seq::empty()
    } else {
        after_last(s.drop_last(), seps).push(s.last())
    }
}

/// The part of `s` behind the last of the characters of `seps`.
pub fn tail_after(s: &str, seps: &str) -> (r: String)
    ensures
        r@ == after_last(s@, seps@),
{
    let v = to_chars(s);
    let mut a: usize = v.len();
    assert(s@.subrange(a as int, a as int) =~= Seq::<char>::empty());
    assert(s@.take(a as int) =~= s@);
    assert(after_last(s@, seps@) =~= after_last(s@.take(a as int), seps@) + s@.subrange(a as int, a as int));
    while 0 < a && !has_char(seps, v[a - 1])
        invariant
            a <= v.len(),
            v@ == s@,
            after_last(s@, seps@) == after_last(s@.take(a as int), seps@) + s@.skip(a as int),
        decreases a,
    {
        let ghost t = s@.take(a as int);
        assert(t.drop_last() =~= s@.take(a - 1));
        assert(t.last() == s@[a - 1]);
        assert(after_last(s@.take(a - 1), seps@).push(s@[a - 1]) + s@.skip(a as int) =~= after_last(
            s@.take(a - 1),
            seps@,
        ) + s@.skip(a - 1));
        a -= 1;
    }
    let out = from_chars(&v, a, v.len());
    assert(out@ =~= s@.skip(a as int));
    assert(after_last(s@.take(a as int), seps@) =~= Seq::<char>::empty());
    assert(out@ =~= after_last(s@, seps@));
    out
}

/// What stands after the last separator: without one the whole text, else the rest after it.
pub proof fn law_tail_stands_after_the_last_separator(
    head: Seq<char>,
    sep: char,
    tail: Seq<char>,
    seps: Seq<char>,
)
    requires
        forall|i: int| 0 <= i < tail.len() ==> !seps.contains(#[trigger] tail[i]),
    ensures
        after_last(tail, seps) == tail,
        seps.contains(sep) ==> after_last(head + seq![sep] + tail, seps) == tail,
    decreases tail.len(),
{
    let s = head + seq![sep] + tail;
    if tail.len() == 0 {
        assert(s.last() == sep);
        assert(after_last(tail, seps) =~= tail);
        if seps.contains(sep) {
            assert(after_last(s, seps) =~= tail);
        }
    } else {
        let t = tail.drop_last();
        assert forall|i: int| 0 <= i < t.len() implies !seps.contains(#[trigger] t[i]) by {
            assert(t[i] == tail[i]);
        }
        law_tail_stands_after_the_last_separator(head, sep, t, seps);
        assert(!seps.contains(tail[tail.len() - 1]));
        assert(t.push(tail.last()) =~= tail);
        assert(s.drop_last() =~= head + seq![sep] + t);
        assert(s.last() == tail.last());
    }
}

/// Lower-cases the ASCII letters of `s`.
pub fn lower_ascii(s: &str) -> (r: String)
    ensures
        r@ == ascii_lower(s@),
{
    let v = to_chars(s);
    let mut out = String::new();
    let mut i: usize = 0;
    while i < v.len()
        invariant
            i <= v.len(),
            v@ == s@,
            out@ == ascii_lower(s@.take(i as int)),
        decreases v.len() - i,
    {
        let c = v[i];
        if 'A' <= c && c <= 'Z' {
            let low: u8 = c as u8 + 32;
            out.push(low as char);
        } else {
            out.push(c);
        }
        i += 1;
        assert(ascii_lower(s@.take(i as int)) =~= ascii_lower(s@.take(i - 1)).push(
            ascii_lower_char(s@[i - 1]),
        ));
    }
    assert(s@.take(i as int) =~= s@);
    out
}

/// Lowering turns capital ASCII letters into small ones, each where it stands, and nothing else.
pub proof fn law_ascii_letters_are_lowered(s: Seq<char>)
    ensures
        ascii_lower(s).len() == s.len(),
        forall|i: int|
            0 <= i < s.len() ==> (if 'A' <= s[i] && s[i] <= 'Z' {
                #[trigger] ascii_lower(s)[i] as u32 == s[i] as u32 + 32
            } else {
                ascii_lower(s)[i] == s[i]
            }),
        ascii_lower(ascii_lower(s)) == ascii_lower(s),
{
    assert(ascii_lower(ascii_lower(s)) =~= ascii_lower(s));
}

/// The pieces, with `sep` between each two.
pub open spec fn join(parts: Seq<Seq<char>>, sep: Seq<char>) -> Seq<char>
    decreases parts.len(),
{
    if parts.len() == 0 {
        Seq::empty()
    } else if parts.len() == 1 {
        parts[0]
    } else {
        join(parts.drop_last(), sep) + sep + parts.last()
    }
}

/// Puts `sep` between the pieces.
pub fn join_with(parts: &Vec<String>, sep: &str) -> (r: String)
    ensures
        r@ == join(texts(parts@), sep@),
{
    let mut out = String::new();
    let mut i: usize = 0;
    while i < parts.len()
        invariant
            i <= parts.len(),
            out@ == join(texts(parts@).take(i as int), sep@),
        decreases parts.len() - i,
    {
        let ghost t = texts(parts@).take(i + 1);
        assert(t.drop_last() =~= texts(parts@).take(i as int));
        assert(t.last() == parts@[i as int]@);
        if i > 0 {
            out.append(sep);
            out.append(parts[i].as_str());
        } else {
            out.append(parts[i].as_str());
            assert(out@ =~= t[0]);
        }
        i += 1;
    }
    assert(texts(parts@).take(i as int) =~= texts(parts@));
    out
}

/// Whether `s` is one or more decimal digits.
pub open spec fn is_digits(s: Seq<char>) -> bool {
    s.len() > 0 && forall|i: int| 0 <= i < s.len() ==> '0' <= #[trigger] s[i] && s[i] <= '9'
}

/// The number that the decimal digits of `s` spell.
pub open spec fn digits_value(s: Seq<char>) -> nat
    decreases s.len(),
{
    if s.len() == 0 {
        0
    } else {
        (digits_value(s.drop_last()) * 10 + (s.last() as int - '0' as int)) as nat
    }
}

/// `s` without a leading plus sign.
pub open spec fn unsigned_digits(s: Seq<char>) -> Seq<char> {
    if s.len() > 0 && s[0] == '+' {
        s.skip(1)
    } else {
        s
    }
}

/// The number of at most `max` that `s` spells: decimal digits, a plus sign allowed before them.
pub open spec fn number_of(s: Seq<char>, max: nat) -> Option<nat> {
    let d = unsigned_digits(s);
    if is_digits(d) && digits_value(d) <= max {
        Some(digits_value(d))
    } else {
        None
    }
}

/// The `u64` that `s` spells.
pub open spec fn u64_of(s: Seq<char>) -> Option<u64> {
    match number_of(s, u64::MAX as nat) {
        None => None,
        Some(n) => Some(n as u64),
    }
}

/// The `i64` that `s` spells: as for `u64`, and a minus sign may stand before the digits.
pub open spec fn i64_of(s: Seq<char>) -> Option<i64> {
    if s.len() > 0 && s[0] == '-' {
        let d = s.skip(1);
        if is_digits(d) && digits_value(d) <= 0x8000_0000_0000_0000 {
            Some((-(digits_value(d) as int)) as i64)
        } else {
            None
        }
    } else {
        match number_of(s, i64::MAX as nat) {
            None => None,
            Some(n) => Some(n as i64),
        }
    }
}

proof fn lemma_digits_grow(s: Seq<char>, i: int)
    requires
        is_digits(s),
        0 <= i <= s.len(),
    ensures
        digits_value(s.take(i)) <= digits_value(s),
    decreases s.len() - i,
{
    if i < s.len() {
        lemma_digits_grow(s, i + 1);
        assert(s.take(i + 1).drop_last() =~= s.take(i));
        assert('0' <= s[i]);
    } else {
        assert(s.take(i) =~= s);
    }
}

/// Reads the digits of `v` from `from` on, up to `max`.
fn read_digits(v: &Vec<char>, from: usize, max: u64) -> (r: Option<u64>)
    requires
        from <= v.len(),
    ensures
        r == (if is_digits(v@.skip(from as int)) && digits_value(v@.skip(from as int)) <= max {
            Some(digits_value(v@.skip(from as int)) as u64)
        } else {
            None::<u64>
        }),
{
    let ghost d = v@.skip(from as int);
    let mut over = false;
    let mut n: u64 = 0;
    let mut i: usize = from;
    while i < v.len()
        invariant
            from <= i <= v.len(),
            d == v@.skip(from as int),
            forall|j: int| 0 <= j < i - from ==> '0' <= #[trigger] d[j] && d[j] <= '9',
            !over ==> n == digits_value(d.take(i - from)) && n <= max,
            over ==> digits_value(d.take(i - from)) > max,
        decreases v.len() - i,
    {
        let c = v[i];
        assert(d[i - from] == c);
        if c < '0' || '9' < c {
            return None;
        }
        proof {
            assert(d.take(i - from + 1).drop_last() =~= d.take(i - from));
            assert(d.take(i - from + 1).last() == c);
        }
        let digit: u64 = (c as u32 - '0' as u32) as u64;
        if !over {
            let wide: u128 = n as u128 * 10 + digit as u128;
            if wide > max as u128 {
                over = true;
            } else {
                n = wide as u64;
            }
        }
        i += 1;
    }
    assert(d.take(i - from) =~= d);
    if i == from || over {
        None
    } else {
        Some(n)
    }
}

/// Reads a number of at most `max`.
fn read_number(s: &str, max: u64) -> (r: Option<u64>)
    ensures
        r == (match number_of(s@, max as nat) {
            None => None::<u64>,
            Some(n) => Some(n as u64),
        }),
{
    let v = to_chars(s);
    let from: usize = if v.len() > 0 && v[0] == '+' {
        1
    } else {
        0
    };
    assert(s@.skip(0) =~= s@);
    read_digits(&v, from, max)
}

/// Reads a `u64`.
pub fn parse_u64(s: &str) -> (r: Option<u64>)
    ensures
        r == u64_of(s@),
{
    read_number(s, u64::MAX)
}

/// A number is read as it is written, with a sign before it or not, while it fits; a text that is no
/// number is none.
pub proof fn law_numbers_are_read_as_written(n: nat, s: Seq<char>)
    ensures
        n <= u64::MAX ==> u64_of(decimal(n)) == Some(n as u64) && u64_of(seq!['+'] + decimal(n))
            == Some(n as u64),
        n > u64::MAX ==> u64_of(decimal(n)) is None,
        n <= u32::MAX ==> u32_of(decimal(n)) == Some(n as u32),
        n > u32::MAX ==> u32_of(decimal(n)) is None,
        n <= u16::MAX ==> u16_of(decimal(n)) == Some(n as u16),
        n > u16::MAX ==> u16_of(decimal(n)) is None,
        s.len() == 0 ==> u64_of(s) is None && i64_of(s) is None && u32_of(s) is None && u16_of(s) is
            None,
        (exists|i: int| 1 <= i < s.len() && !('0' <= #[trigger] s[i] && s[i] <= '9')) ==> u64_of(s)
            is None && i64_of(s) is None && u32_of(s) is None && u16_of(s) is None,
{
    law_decimal_reads_back(n);
    let d = decimal(n);
    assert('0' <= d[0] && d[0] <= '9');
    assert(unsigned_digits(d) == d);
    assert((seq!['+'] + d).skip(1) =~= d);
    if exists|i: int| 1 <= i < s.len() && !('0' <= #[trigger] s[i] && s[i] <= '9') {
        let i = choose|i: int| 1 <= i < s.len() && !('0' <= #[trigger] s[i] && s[i] <= '9');
        assert(s.skip(1)[i - 1] == s[i]);
        assert(!is_digits(s.skip(1)));
        assert(!is_digits(s));
    }
}

/// Reads an `i64`.
pub fn parse_i64(s: &str) -> (r: Option<i64>)
    ensures
        r == i64_of(s@),
{
    let v = to_chars(s);
    if v.len() > 0 && v[0] == '-' {
        match read_digits(&v, 1, 0x8000_0000_0000_0000) {
            None => None,
            Some(n) => {
                if n == 0x8000_0000_0000_0000 {
                    Some(i64::MIN)
                } else {
                    Some(-(n as i64))
                }
            },
        }
    } else {
        match read_number(s, 0x7fff_ffff_ffff_ffff) {
            None => None,
            Some(n) => Some(n as i64),
        }
    }
}

/// The `u32` that `s` spells.
pub open spec fn u32_of(s: Seq<char>) -> Option<u32> {
    match number_of(s, u32::MAX as nat) {
        None => None,
        Some(n) => Some(n as u32),
    }
}

/// Reads a `u32`.
pub fn parse_u32(s: &str) -> (r: Option<u32>)
    ensures
        r == u32_of(s@),
{
    match read_number(s, 0xffff_ffff) {
        None => None,
        Some(n) => Some(n as u32),
    }
}

/// The `u16` that `s` spells.
pub open spec fn u16_of(s: Seq<char>) -> Option<u16> {
    match number_of(s, u16::MAX as nat) {
        None => None,
        Some(n) => Some(n as u16),
    }
}

/// Reads a `u16`.
pub fn parse_u16(s: &str) -> (r: Option<u16>)
    ensures
        r == u16_of(s@),
{
    match read_number(s, 0xffff) {
        None => None,
        Some(n) => Some(n as u16),
    }
}

/// The decimal digits of `n`.
pub open spec fn decimal(n: nat) -> Seq<char>
    decreases n,
{
    if n < 10 {
        seq![('0' as int + n) as char]
    } else {
        decimal(n / 10).push(('0' as int + n % 10) as char)
    }
}

/// Writes `n` in decimal digits.
pub fn write_u64(n: u64) -> (r: String)
    ensures
        r@ == decimal(n as nat),
    decreases n,
{
    let digit: u8 = 48 + (n % 10) as u8;
    if n < 10 {
        let mut s = String::new();
        s.push(digit as char);
        assert(s@ =~= decimal(n as nat));
        s
    } else {
        let mut s = write_u64(n / 10);
        s.push(digit as char);
        s
    }
}

/// The decimal digits of a number spell that number.
pub proof fn law_decimal_reads_back(n: nat)
    ensures
        is_digits(decimal(n)),
        digits_value(decimal(n)) == n,
    decreases n,
{
    if n < 10 {
        assert(decimal(n).drop_last() =~= Seq::<char>::empty());
        assert(decimal(n).last() == ('0' as int + n) as char);
        assert(digits_value(Seq::<char>::empty()) == 0);
        assert(digits_value(decimal(n)) == n);
    } else {
        law_decimal_reads_back(n / 10);
        assert(decimal(n).drop_last() =~= decimal(n / 10));
        assert forall|i: int| 0 <= i < decimal(n).len() implies '0' <= #[trigger] decimal(n)[i]
            && decimal(n)[i] <= '9' by {
            if i < decimal(n).len() - 1 {
                assert(decimal(n)[i] == decimal(n / 10)[i]);
            }
        }
    }
}

/// The decimal digits of `n`, after a minus sign where it is negative.
pub open spec fn decimal_signed(n: int) -> Seq<char> {
    if n < 0 {
        seq!['-'] + decimal((-n) as nat)
    } else {
        decimal(n as nat)
    }
}

/// Writes `n` in decimal digits.
pub fn write_i64(n: i64) -> (r: String)
    ensures
        r@ == decimal_signed(n as int),
{
    if n >= 0 {
        return write_u64(n as u64);
    }
    let size: u64 = if n == i64::MIN {
        0x8000_0000_0000_0000
    } else {
        (-n) as u64
    };
    let mut s = String::new();
    s.push('-');
    s.append(write_u64(size).as_str());
    assert(s@ =~= seq!['-'] + decimal((-(n as int)) as nat));
    s
}

/// A written number reads back as that number.
pub proof fn law_signed_decimal_reads_back(n: i64)
    ensures
        i64_of(decimal_signed(n as int)) == Some(n),
{
    if n < 0 {
        let m = (-(n as int)) as nat;
        law_decimal_reads_back(m);
        assert(decimal_signed(n as int).skip(1) =~= decimal(m));
        assert(decimal_signed(n as int)[0] == '-');
    } else {
        let m = n as nat;
        law_decimal_reads_back(m);
        assert('0' <= decimal(m)[0] && decimal(m)[0] <= '9');
    }
}

/// At most `n` pieces of `s` between the characters `c`; the last piece keeps what is left.
pub open spec fn split_n(s: Seq<char>, c: char, n: int) -> Seq<Seq<char>>
    decreases n,
{
    let k = position(s, c);
    if n <= 1 || k >= s.len() {
        seq![s]
    } else {
        seq![s.take(k)] + split_n(s.skip(k + 1), c, n - 1)
    }
}

/// Cuts `s` at `c` into at most `n` pieces.
pub fn split_at_most(s: &str, c: char, n: usize) -> (r: Vec<String>)
    requires
        n >= 1,
    ensures
        texts(r@) == split_n(s@, c, n as int),
        r@.len() <= n,
{
    let v = to_chars(s);
    let mut out: Vec<String> = Vec::new();
    let mut a: usize = 0;
    let mut left: usize = n;
    assert(s@.skip(0) =~= s@);
    assert(texts(out@) + split_n(s@, c, n as int) =~= split_n(s@, c, n as int));
    loop
        invariant
            a <= v.len(),
            1 <= left <= n,
            out@.len() == n - left,
            v@ == s@,
            split_n(s@, c, n as int) == texts(out@) + split_n(s@.skip(a as int), c, left as int),
        decreases left,
    {
        let ghost rest = s@.skip(a as int);
        let ghost before = out@;
        let k = find_from(&v, a, c);
        if left == 1 || k == v.len() {
            let piece = from_chars(&v, a, v.len());
            out.push(piece);
            assert(piece@ =~= rest);
            assert(texts(out@) =~= texts(before).push(piece@));
            assert(texts(out@) =~= split_n(s@, c, n as int));
            return out;
        }
        let piece = from_chars(&v, a, k);
        out.push(piece);
        assert(texts(out@) =~= texts(before).push(piece@));
        assert(piece@ =~= rest.take(k - a));
        assert(rest.skip(k - a + 1) =~= s@.skip(k + 1));
        assert(texts(out@) + split_n(s@.skip(k + 1), c, left - 1) =~= split_n(s@, c, n as int));
        a = k + 1;
        left -= 1;
    }
}

/// A piece without the separator is cut off in front of the first separator.
pub proof fn lemma_split_n_first(a: Seq<char>, rest: Seq<char>, c: char, n: int)
    requires
        !a.contains(c),
        n > 1,
    ensures
        split_n(a + seq![c] + rest, c, n) == seq![a] + split_n(rest, c, n - 1),
{
    let s = a + seq![c] + rest;
    assert forall|i: int| 0 <= i < a.len() implies s[i] != c by {
        assert(s[i] == a[i]);
        assert(a.contains(a[i]));
    }
    assert(s[a.len() as int] == c);
    lemma_position_is(s, c, a.len() as int);
    assert(s.take(a.len() as int) =~= a);
    assert(s.skip(a.len() as int + 1) =~= rest);
}

/// Whether `a` comes before `b` in the order of their characters.
pub open spec fn precedes(a: Seq<char>, b: Seq<char>) -> bool
    decreases a.len(),
{
    if b.len() == 0 {
        false
    } else if a.len() == 0 {
        true
    } else if a[0] != b[0] {
        a[0] < b[0]
    } else {
        precedes(a.drop_first(), b.drop_first())
    }
}

/// Whether `a` comes before `b` in the order of their characters.
pub fn sorts_before(a: &str, b: &str) -> (r: bool)
    ensures
        r == precedes(a@, b@),
{
    let v = to_chars(a);
    let w = to_chars(b);
    let mut i: usize = 0;
    assert(a@.skip(0) =~= a@);
    assert(b@.skip(0) =~= b@);
    while i < v.len() && i < w.len()
        invariant
            i <= v.len(),
            i <= w.len(),
            v@ == a@,
            w@ == b@,
            precedes(a@, b@) == precedes(a@.skip(i as int), b@.skip(i as int)),
        decreases v.len() - i,
    {
        if v[i] != w[i] {
            return v[i] < w[i];
        }
        assert(a@.skip(i as int).drop_first() =~= a@.skip(i + 1));
        assert(b@.skip(i as int).drop_first() =~= b@.skip(i + 1));
        i += 1;
    }
    i < w.len()
}

/// Of two different texts exactly one comes before the other.
pub proof fn law_order_is_total(a: Seq<char>, b: Seq<char>)
    ensures
        precedes(a, b) && precedes(b, a) ==> false,
        a != b ==> precedes(a, b) || precedes(b, a),
        a == b ==> !precedes(a, b),
    decreases a.len(),
{
    if a.len() > 0 && b.len() > 0 && a[0] == b[0] {
        law_order_is_total(a.drop_first(), b.drop_first());
        if a.drop_first() == b.drop_first() {
            assert(a =~= seq![a[0]] + a.drop_first());
            assert(b =~= seq![b[0]] + b.drop_first());
        }
    } else if a.len() == 0 && b.len() == 0 {
        assert(a =~= b);
    }
}

/// The order is transitive.
pub proof fn law_order_is_transitive(a: Seq<char>, b: Seq<char>, c: Seq<char>)
    requires
        precedes(a, b),
        precedes(b, c),
    ensures
        precedes(a, c),
    decreases a.len(),
{
    if a.len() > 0 && b.len() > 0 && c.len() > 0 && a[0] == b[0] && b[0] == c[0] {
        law_order_is_transitive(a.drop_first(), b.drop_first(), c.drop_first());
    }
}

/// The words of `s`, between which white space stands.
pub open spec fn words(s: Seq<char>) -> Seq<Seq<char>>
    decreases s.len(),
{
    if s.len() == 0 {
        Seq::empty()
    } else if is_white(s.last()) {
        words(s.drop_last())
    } else if s.len() == 1 || is_white(s[s.len() - 2]) {
        words(s.drop_last()).push(seq![s.last()])
    } else {
        words(s.drop_last()).drop_last().push(words(s.drop_last()).last().push(s.last()))
    }
}

/// Splits `s` into its words.
pub fn split_words(s: &str) -> (r: Vec<String>)
    ensures
        texts(r@) == words(s@),
{
    let v = to_chars(s);
    let mut out: Vec<String> = Vec::new();
    let mut open = false;
    let mut i: usize = 0;
    assert(s@.take(0) =~= Seq::empty());
    assert(texts(out@) =~= Seq::empty());
    while i < v.len()
        invariant
            i <= v.len(),
            v@ == s@,
            texts(out@) == words(s@.take(i as int)),
            open == (i > 0 && !is_white(s@[i - 1])),
            open ==> out@.len() > 0,
        decreases v.len() - i,
    {
        let c = v[i];
        let ghost before = out@;
        let ghost now = s@.take(i + 1);
        assert(now.drop_last() =~= s@.take(i as int));
        assert(now.last() == c);
        if white(c) {
            open = false;
        } else {
            let mut word = String::new();
            if open {
                assert(now[now.len() - 2] == s@[i - 1]);
                if let Some(w) = out.pop() {
                    word = w;
                }
                assert(texts(before).last() == word@);
                assert(texts(out@) =~= texts(before).drop_last());
            } else {
                assert(i > 0 ==> now[now.len() - 2] == s@[i - 1]);
            }
            let ghost start = word@;
            let ghost kept = out@;
            word.push(c);
            assert(!open ==> word@ =~= seq![c]);
            out.push(word);
            assert(texts(out@) =~= texts(kept).push(start.push(c)));
            open = true;
        }
        i += 1;
    }
    assert(s@.take(i as int) =~= s@);
    out
}

/// `s` with `to` in place of each `from`.
pub open spec fn replaced(s: Seq<char>, from: char, to: char) -> Seq<char> {
    s.map_values(
        |c: char|
            if c == from {
                to
            } else {
                c
            },
    )
}

/// Writes `s` with `to` in place of each `from`.
pub fn replace_char(s: &str, from: char, to: char) -> (r: String)
    ensures
        r@ == replaced(s@, from, to),
{
    let v = to_chars(s);
    let mut out = String::new();
    let mut i: usize = 0;
    assert(replaced(s@.take(0), from, to) =~= Seq::empty());
    while i < v.len()
        invariant
            i <= v.len(),
            v@ == s@,
            out@ == replaced(s@.take(i as int), from, to),
        decreases v.len() - i,
    {
        let c = if v[i] == from {
            to
        } else {
            v[i]
        };
        out.push(c);
        assert(replaced(s@.take(i + 1), from, to) =~= replaced(s@.take(i as int), from, to).push(c));
        i += 1;
    }
    assert(s@.take(i as int) =~= s@);
    out
}

/// An ASCII character that is no capital letter.
pub open spec fn is_low_char(c: char) -> bool {
    '\0' <= c && c <= '\u{7f}' && !('A' <= c && c <= 'Z')
}

/// A text of ASCII characters without capital letters.
pub open spec fn is_low(s: Seq<char>) -> bool {
    forall|i: int| 0 <= i < s.len() ==> is_low_char(#[trigger] s[i])
}

/// A word: not empty, and without white space.
pub open spec fn is_word(s: Seq<char>) -> bool {
    s.len() > 0 && forall|i: int| 0 <= i < s.len() ==> !is_white(#[trigger] s[i])
}

pub(crate) proof fn lemma_lowered_ascii_is_low(s: Seq<char>)
    requires
        vstd::utf8::is_ascii_chars(s),
    ensures
        is_low(lowered(s)),
{
    assert forall|i: int| 0 <= i < lowered(s).len() implies is_low_char(#[trigger] lowered(s)[i]) by {
        assert('\0' <= s[i] <= '\u{7f}');
        assert(lowered(s)[i] == ascii_lower_char(s[i]));
    }
}

pub(crate) proof fn lemma_low_is_lowered(s: Seq<char>)
    requires
        is_low(s),
    ensures
        vstd::utf8::is_ascii_chars(s),
        lowered(s) == s,
{
    assert forall|i: int| 0 <= i < s.len() implies '\0' <= #[trigger] s[i] <= '\u{7f}' by {
        assert(is_low_char(s[i]));
    }
    assert forall|i: int| 0 <= i < s.len() implies ascii_lower_char(#[trigger] s[i]) == s[i] by {
        assert(is_low_char(s[i]));
    }
    assert(ascii_lower(s) =~= s);
}

pub(crate) proof fn lemma_words_are_words(s: Seq<char>)
    ensures
        forall|k: int| 0 <= k < words(s).len() ==> is_word(#[trigger] words(s)[k]),
        s.len() > 0 && !is_white(s.last()) ==> words(s).len() > 0,
    decreases s.len(),
{
    if s.len() > 0 {
        let rest = s.drop_last();
        lemma_words_are_words(rest);
        if !is_white(s.last()) && s.len() > 1 && !is_white(s[s.len() - 2]) {
            assert(rest.last() == s[s.len() - 2]);
            let grown = words(rest).last().push(s.last());
            assert(is_word(words(rest)[words(rest).len() - 1]));
            assert(is_word(grown)) by {
                assert forall|i: int| 0 <= i < grown.len() implies !is_white(#[trigger] grown[i]) by {
                    if i < words(rest).last().len() {
                        assert(grown[i] == words(rest).last()[i]);
                    }
                }
            }
            assert forall|k: int| 0 <= k < words(s).len() implies is_word(#[trigger] words(s)[k]) by {
                if k < words(rest).len() - 1 {
                    assert(words(s)[k] == words(rest)[k]);
                }
            }
        } else if !is_white(s.last()) {
            assert forall|k: int| 0 <= k < words(s).len() implies is_word(#[trigger] words(s)[k]) by {
                if k < words(rest).len() {
                    assert(words(s)[k] == words(rest)[k]);
                }
            }
        }
    }
}

pub(crate) proof fn lemma_words_of_low(s: Seq<char>)
    requires
        is_low(s),
    ensures
        forall|k: int| 0 <= k < words(s).len() ==> is_low(#[trigger] words(s)[k]) && is_word(words(s)[k]),
    decreases s.len(),
{
    lemma_words_are_words(s);
    if s.len() > 0 {
        let rest = s.drop_last();
        assert(is_low(rest)) by {
            assert forall|i: int| 0 <= i < rest.len() implies is_low_char(#[trigger] rest[i]) by {
                assert(is_low_char(s[i]));
            }
        }
        lemma_words_of_low(rest);
        lemma_words_are_words(rest);
        let c = s.last();
        assert(is_low_char(s[s.len() - 1]));
        if !is_white(c) && s.len() > 1 && !is_white(s[s.len() - 2]) {
            assert(rest.last() == s[s.len() - 2]);
            let grown = words(rest).last().push(c);
            assert(is_low(words(rest)[words(rest).len() - 1]));
            assert(is_low(grown)) by {
                assert forall|i: int| 0 <= i < grown.len() implies is_low_char(#[trigger] grown[i]) by {
                    if i < words(rest).last().len() {
                        assert(grown[i] == words(rest).last()[i]);
                    }
                }
            }
            assert forall|k: int| 0 <= k < words(s).len() implies is_low(#[trigger] words(s)[k]) by {
                if k < words(rest).len() - 1 {
                    assert(words(s)[k] == words(rest)[k]);
                }
            }
        } else if !is_white(c) {
            assert(is_low(seq![c]));
            assert forall|k: int| 0 <= k < words(s).len() implies is_low(#[trigger] words(s)[k]) by {
                if k < words(rest).len() {
                    assert(words(s)[k] == words(rest)[k]);
                }
            }
        }
    }
}

pub(crate) proof fn lemma_join_of_low(parts: Seq<Seq<char>>)
    requires
        forall|k: int| 0 <= k < parts.len() ==> is_low(#[trigger] parts[k]),
    ensures
        is_low(join(parts, " "@)),
    decreases parts.len(),
{
    reveal_strlit(" ");
    if parts.len() == 1 {
        assert(is_low(parts[0]));
    } else if parts.len() > 1 {
        let rest = parts.drop_last();
        assert forall|k: int| 0 <= k < rest.len() implies is_low(#[trigger] rest[k]) by {
            assert(is_low(parts[k]));
        }
        lemma_join_of_low(rest);
        let all = join(parts, " "@);
        let head = join(rest, " "@);
        assert(is_low(parts[parts.len() - 1]));
        assert forall|i: int| 0 <= i < all.len() implies is_low_char(#[trigger] all[i]) by {
            if i < head.len() {
                assert(all[i] == head[i]);
            } else if i == head.len() {
                assert(all[i] == ' ');
            } else {
                assert(all[i] == parts.last()[i - head.len() - 1]);
            }
        }
    }
}

proof fn lemma_word_after_space(a: Seq<char>, w: Seq<char>)
    requires
        a.len() == 0 || is_white(a.last()),
        is_word(w),
    ensures
        words(a + w) == words(a).push(w),
    decreases w.len(),
{
    let s = a + w;
    assert(s.last() == w.last());
    assert(!is_white(w[w.len() - 1]));
    assert(s.drop_last() =~= a + w.drop_last());
    if w.len() == 1 {
        assert(s.drop_last() =~= a);
        assert(w =~= seq![w.last()]);
        if a.len() > 0 {
            assert(s[s.len() - 2] == a.last());
        }
    } else {
        let v = w.drop_last();
        assert(is_word(v)) by {
            assert forall|i: int| 0 <= i < v.len() implies !is_white(#[trigger] v[i]) by {
                assert(!is_white(w[i]));
            }
        }
        lemma_word_after_space(a, v);
        assert(s[s.len() - 2] == w[w.len() - 2]);
        assert(!is_white(w[w.len() - 2]));
        assert(words(a).push(v).drop_last() =~= words(a));
        assert(v.push(w.last()) =~= w);
    }
}

/// Words with one space between them are read back one by one.
pub proof fn law_joined_words_are_read_back(parts: Seq<Seq<char>>)
    requires
        forall|k: int| 0 <= k < parts.len() ==> is_word(#[trigger] parts[k]),
    ensures
        words(join(parts, " "@)) == parts,
    decreases parts.len(),
{
    reveal_strlit(" ");
    if parts.len() == 0 {
        assert(words(join(parts, " "@)) =~= parts);
    } else {
        let rest = parts.drop_last();
        let w = parts.last();
        assert(is_word(parts[parts.len() - 1]));
        if parts.len() == 1 {
            let none = Seq::<char>::empty();
            lemma_word_after_space(none, w);
            assert(none + w =~= w);
            assert(words(none).push(w) =~= parts);
        } else {
            assert forall|k: int| 0 <= k < rest.len() implies is_word(#[trigger] rest[k]) by {
                assert(is_word(parts[k]));
            }
            law_joined_words_are_read_back(rest);
            let head = join(rest, " "@) + " "@;
            assert(head.last() == ' ');
            assert(head.drop_last() =~= join(rest, " "@));
            lemma_word_after_space(head, w);
            assert(words(head) == rest);
            assert(rest.push(w) =~= parts);
        }
    }
}

/// A text that neither begins nor ends with white space, whose only white space is the space, and
/// in which no two spaces stand side by side.
pub open spec fn is_single_spaced(s: Seq<char>) -> bool {
    &&& s.len() > 0 ==> !is_white(s[0]) && !is_white(s.last())
    &&& forall|i: int| 0 <= i < s.len() && is_white(#[trigger] s[i]) ==> s[i] == ' '
    &&& forall|i: int| 0 < i < s.len() && is_white(#[trigger] s[i]) ==> !is_white(s[i - 1])
}

/// Words with one space between them make a text without white space at its ends and without
/// doubled white space.
pub proof fn law_joined_words_are_single_spaced(parts: Seq<Seq<char>>)
    requires
        forall|k: int| 0 <= k < parts.len() ==> is_word(#[trigger] parts[k]),
    ensures
        is_single_spaced(join(parts, " "@)),
        parts.len() > 0 ==> join(parts, " "@).len() > 0,
    decreases parts.len(),
{
    reveal_strlit(" ");
    if parts.len() == 1 {
        let w = parts[0];
        assert(is_word(w));
        assert(!is_white(w[0]) && !is_white(w[w.len() - 1]));
    } else if parts.len() > 1 {
        let rest = parts.drop_last();
        let w = parts.last();
        assert forall|k: int| 0 <= k < rest.len() implies is_word(#[trigger] rest[k]) by {
            assert(is_word(parts[k]));
        }
        law_joined_words_are_single_spaced(rest);
        let head = join(rest, " "@);
        let s = join(parts, " "@);
        assert(is_word(parts[parts.len() - 1]));
        assert(s[0] == head[0]);
        assert(s.last() == w[w.len() - 1]);
        assert(s[head.len() as int] == ' ');
        assert(head.last() == s[head.len() - 1]);
        assert forall|i: int| 0 <= i < s.len() && is_white(#[trigger] s[i]) implies s[i] == ' ' && (i
            > 0 ==> !is_white(s[i - 1])) by {
            if i < head.len() {
                assert(s[i] == head[i]);
                if i > 0 {
                    assert(s[i - 1] == head[i - 1]);
                }
            } else if i > head.len() {
                assert(s[i] == w[i - head.len() - 1]);
            }
        }
    }
}

} // verus!
