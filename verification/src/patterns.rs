//! Regular expressions, by way of the `regex` crate.

use vstd::prelude::*;

verus! {

/// Whether `c` has a meaning of its own in a regular expression.
pub open spec fn is_meta(c: char) -> bool {
    c == '\\' || c == '.' || c == '+' || c == '*' || c == '?' || c == '(' || c == ')' || c == '|'
        || c == '[' || c == ']' || c == '{' || c == '}' || c == '^' || c == '$' || c == '#' || c
        == '&' || c == '-' || c == '~'
}

/// `s` with a backslash before each character that has a meaning of its own.
pub open spec fn escaped(s: Seq<char>) -> Seq<char>
    decreases s.len(),
{
    if s.len() == 0 {
        Seq::empty()
    } else if is_meta(s.last()) {
        escaped(s.drop_last()).push('\\').push(s.last())
    } else {
        escaped(s.drop_last()).push(s.last())
    }
}

/// Escaping puts a backslash before each character with a meaning of its own, and leaves the others.
pub proof fn law_escaping_marks_what_has_a_meaning(s: Seq<char>, c: char)
    ensures
        is_meta(c) ==> escaped(s.push(c)) == escaped(s).push('\\').push(c),
        !is_meta(c) ==> escaped(s.push(c)) == escaped(s).push(c),
        escaped(Seq::empty()).len() == 0,
        c == '.' || c == '*' || c == '+' || c == '?' || c == '(' || c == ')' || c == '[' || c == ']'
            || c == '{' || c == '}' || c == '^' || c == '$' || c == '|' || c == '\\' ==> is_meta(c),
        ('a' <= c && c <= 'z') || ('A' <= c && c <= 'Z') || ('0' <= c && c <= '9') || c == ' ' || c
            == '_' ==> !is_meta(c),
{
    assert(s.push(c).drop_last() =~= s);
}

/// Writes an expression that matches `s` alone with `regex::escape`: it puts a backslash before
/// each of the characters of `is_meta`, and keeps every other character.
#[verifier::external_body]
pub(crate) fn escape(s: &str) -> (r: String)
    ensures
        r@ == escaped(s@),
{
    regex::escape(s)
}

/// A compiled expression of `regex`.
#[verifier::external_type_specification]
#[verifier::external_body]
pub struct ExRegex(regex::Regex);

/// The text that an expression was compiled from.
pub uninterp spec fn source(r: regex::Regex) -> Seq<char>;

/// Whether a text is an expression that can be compiled.
pub uninterp spec fn compiles(pattern: Seq<char>) -> bool;

/// Whether the expression `pattern` matches somewhere in `s`.
pub uninterp spec fn matches_in(pattern: Seq<char>, s: Seq<char>) -> bool;

/// Compiles an expression with `regex::Regex::new`. Which texts can be compiled has only a name
/// here; what comes back was compiled from the text.
#[verifier::external_body]
pub(crate) fn compile(pattern: &str) -> (r: Option<regex::Regex>)
    ensures
        match r {
            Some(re) => compiles(pattern@) && source(re) == pattern@,
            None => !compiles(pattern@),
        },
{
    regex::Regex::new(pattern).ok()
}

/// Looks for a match with `regex::Regex::is_match`. Where an expression matches has only a name
/// here; it depends on the text of the expression and on the text that is searched.
#[verifier::external_body]
pub(crate) fn is_match(re: &regex::Regex, s: &str) -> (r: bool)
    ensures
        r == matches_in(source(*re), s@),
{
    re.is_match(s)
}

/// The texts that expressions were compiled from.
pub open spec fn sources(v: Seq<regex::Regex>) -> Seq<Seq<char>> {
    v.map_values(|r: regex::Regex| source(r))
}

/// The texts of a list.
pub open spec fn views(v: Seq<&'static str>) -> Seq<Seq<char>> {
    v.map_values(|s: &'static str| s@)
}

/// Whether all texts can be compiled.
pub open spec fn all_compile(patterns: Seq<Seq<char>>) -> bool {
    forall|i: int| 0 <= i < patterns.len() ==> compiles(#[trigger] patterns[i])
}

/// Compiles a list of expressions; nothing comes back where one of them cannot be compiled.
pub fn compile_all(patterns: &Vec<&'static str>) -> (r: Option<Vec<regex::Regex>>)
    ensures
        match r {
            Some(v) => all_compile(views(patterns@)) && sources(v@) == views(patterns@),
            None => !all_compile(views(patterns@)),
        },
{
    let mut out: Vec<regex::Regex> = Vec::new();
    let mut i: usize = 0;
    while i < patterns.len()
        invariant
            i <= patterns.len(),
            out@.len() == i,
            forall|j: int| 0 <= j < i ==> compiles(#[trigger] views(patterns@)[j]),
            forall|j: int| 0 <= j < i ==> #[trigger] sources(out@)[j] == views(patterns@)[j],
        decreases patterns.len() - i,
    {
        assert(views(patterns@)[i as int] == patterns@[i as int]@);
        let re = match compile(patterns[i]) {
            None => return None,
            Some(re) => re,
        };
        let ghost before = out@;
        out.push(re);
        assert(sources(out@) =~= sources(before).push(source(re)));
        i += 1;
    }
    assert(sources(out@) =~= views(patterns@));
    Some(out)
}

/// Whether one of the expressions matches somewhere in `s`.
pub open spec fn any_matches(patterns: Seq<Seq<char>>, s: Seq<char>) -> bool {
    exists|i: int| 0 <= i < patterns.len() && matches_in(#[trigger] patterns[i], s)
}

/// Finds whether one of the expressions matches somewhere in `s`.
pub fn matches_any(list: &Vec<regex::Regex>, s: &str) -> (r: bool)
    ensures
        r == any_matches(sources(list@), s@),
{
    let mut i: usize = 0;
    while i < list.len()
        invariant
            i <= list.len(),
            forall|j: int| 0 <= j < i ==> !matches_in(#[trigger] sources(list@)[j], s@),
        decreases list.len() - i,
    {
        assert(sources(list@)[i as int] == source(list@[i as int]));
        if is_match(&list[i], s) {
            return true;
        }
        i += 1;
    }
    false
}

} // verus!
