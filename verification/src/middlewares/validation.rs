//! Passwords must be strong.

use vstd::prelude::*;

use crate::middlewares::Guard;
use crate::reply::error;
use crate::text;

verus! {

/// How long a password must be, in bytes.
pub const MIN_PASSWORD_BYTES: usize = 8;

/// Whether `c` is one of the characters that make a password special.
pub open spec fn is_special(c: char) -> bool {
    c == '@' || c == '$' || c == '!' || c == '%' || c == '*' || c == '?' || c == '&'
}

/// Whether a password is strong: long enough, with a small letter, a capital, a digit and a
/// special character.
pub open spec fn is_strong(p: Seq<char>) -> bool {
    &&& text::byte_len(p) >= MIN_PASSWORD_BYTES
    &&& exists|i: int| 0 <= i < p.len() && 'a' <= #[trigger] p[i] && p[i] <= 'z'
    &&& exists|i: int| 0 <= i < p.len() && 'A' <= #[trigger] p[i] && p[i] <= 'Z'
    &&& exists|i: int| 0 <= i < p.len() && '0' <= #[trigger] p[i] && p[i] <= '9'
    &&& exists|i: int| 0 <= i < p.len() && is_special(#[trigger] p[i])
}

/// Finds whether a password is strong.
pub fn strong(password: &str) -> (r: bool)
    ensures
        r == is_strong(password@),
{
    let v = text::to_chars(password);
    let mut lower = false;
    let mut upper = false;
    let mut digit = false;
    let mut special = false;
    let mut i: usize = 0;
    let ghost p = password@;
    while i < v.len()
        invariant
            i <= v.len(),
            v@ == p,
            p == password@,
            lower == exists|j: int| 0 <= j < i && 'a' <= #[trigger] p[j] && p[j] <= 'z',
            upper == exists|j: int| 0 <= j < i && 'A' <= #[trigger] p[j] && p[j] <= 'Z',
            digit == exists|j: int| 0 <= j < i && '0' <= #[trigger] p[j] && p[j] <= '9',
            special == exists|j: int| 0 <= j < i && is_special(#[trigger] p[j]),
        decreases v.len() - i,
    {
        let c = v[i];
        assert(c == p[i as int]);
        if 'a' <= c && c <= 'z' {
            lower = true;
        }
        if 'A' <= c && c <= 'Z' {
            upper = true;
        }
        if '0' <= c && c <= '9' {
            digit = true;
        }
        if c == '@' || c == '$' || c == '!' || c == '%' || c == '*' || c == '?' || c == '&' {
            special = true;
        }
        i += 1;
    }
    password.len() >= MIN_PASSWORD_BYTES && lower && upper && digit && special
}

/// The password that a request gives: `password` counts before `new_password`.
pub open spec fn given_password(password: Option<&str>, new_password: Option<&str>) -> Option<
    Seq<char>,
> {
    match password {
        Some(p) => Some(p@),
        None => text::opt_str(new_password),
    }
}

pub open spec fn password_guard(password: Option<&str>, new_password: Option<&str>) -> Guard {
    let p = given_password(password, new_password);
    if p is None || p->0.len() == 0 {
        Guard::Refuse(error(400, "Password is required"))
    } else if !is_strong(p->0) {
        Guard::Refuse(
            error(
                400,
                "Password must be at least 8 characters long and contain uppercase, lowercase, number and special character",
            ),
        )
    } else {
        Guard::Pass
    }
}

/// Decides whether a request with a password passes.
pub fn validate_password(password: Option<&str>, new_password: Option<&str>) -> (r: Guard)
    ensures
        r == password_guard(password, new_password),
{
    let given = match password {
        Some(p) => Some(p),
        None => new_password,
    };
    let p = match given {
        None => return Guard::Refuse(error(400, "Password is required")),
        Some(p) => p,
    };
    if p.is_empty() {
        return Guard::Refuse(error(400, "Password is required"));
    }
    if strong(p) {
        Guard::Pass
    } else {
        Guard::Refuse(
            error(
                400,
                "Password must be at least 8 characters long and contain uppercase, lowercase, number and special character",
            ),
        )
    }
}

/// Only strong passwords pass.
pub proof fn law_only_strong_passwords_pass(password: Option<&str>, new_password: Option<&str>)
    ensures
        password_guard(password, new_password) is Pass ==> given_password(password, new_password)
            is Some && is_strong(given_password(password, new_password)->0),
{
}

/// Every strong password passes, the first that is given being the one that counts.
pub proof fn law_strong_passwords_pass(
    password: Option<&str>,
    new_password: Option<&str>,
)
    ensures
        password is Some && password->0@.len() > 0 && is_strong(password->0@) ==> password_guard(
            password,
            new_password,
        ) is Pass,
        password is None && new_password is Some && new_password->0@.len() > 0 && is_strong(
            new_password->0@,
        ) ==> password_guard(password, new_password) is Pass,
        password is None && new_password is None ==> password_guard(password, new_password)
            == Guard::Refuse(error(400, "Password is required")),
        forall|p: Seq<char>| #[trigger]
            is_strong(p) <==> text::byte_len(p) >= 8 && (exists|i: int|
                0 <= i < p.len() && 'a' <= #[trigger] p[i] && p[i] <= 'z') && (exists|i: int|
                0 <= i < p.len() && 'A' <= #[trigger] p[i] && p[i] <= 'Z') && (exists|i: int|
                0 <= i < p.len() && '0' <= #[trigger] p[i] && p[i] <= '9') && (exists|i: int|
                0 <= i < p.len() && ((#[trigger] p[i]) == '@' || p[i] == '$' || p[i] == '!' || p[i]
                    == '%' || p[i] == '*' || p[i] == '?' || p[i] == '&')),
{
    assert forall|p: Seq<char>| #[trigger] is_strong(p) implies exists|i: int|
        0 <= i < p.len() && ((#[trigger] p[i]) == '@' || p[i] == '$' || p[i] == '!' || p[i] == '%'
            || p[i] == '*' || p[i] == '?' || p[i] == '&') by {
        let i = choose|i: int| 0 <= i < p.len() && is_special(#[trigger] p[i]);
        assert(p[i] == p[i]);
    }
}

} // verus!
