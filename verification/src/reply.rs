//! Replies that end a request, and the outcomes that requests wait for.

use vstd::prelude::*;

verus! {

/// A reply that refuses a request: its status and the members of its body.
#[derive(Clone, Copy, Debug, PartialEq, Eq)]
pub struct Refusal {
    pub status: u16,
    /// The whole body, where it is bare text.
    pub plain: Option<&'static str>,
    pub error: Option<&'static str>,
    pub message: Option<&'static str>,
    pub code: Option<&'static str>,
    /// Whether the body says that the request may be sent again.
    pub retryable: bool,
    pub retry_after: Option<u64>,
    /// Whether the body says `"success": false`.
    pub unsuccessful: bool,
}

/// A body that is bare text.
#[verifier::allow_in_spec]
pub fn plain(status: u16, text: &'static str) -> Refusal
    returns
        (Refusal {
            status,
            plain: Some(text),
            error: None,
            message: None,
            code: None,
            retryable: false,
            retry_after: None,
            unsuccessful: false,
        }),
{
    Refusal {
        status,
        plain: Some(text),
        error: None,
        message: None,
        code: None,
        retryable: false,
        retry_after: None,
        unsuccessful: false,
    }
}

/// A body with an `error` member.
#[verifier::allow_in_spec]
pub fn error(status: u16, text: &'static str) -> Refusal
    returns
        (Refusal {
            status,
            plain: None,
            error: Some(text),
            message: None,
            code: None,
            retryable: false,
            retry_after: None,
            unsuccessful: false,
        }),
{
    Refusal {
        status,
        plain: None,
        error: Some(text),
        message: None,
        code: None,
        retryable: false,
        retry_after: None,
        unsuccessful: false,
    }
}

/// A body with a `message` member.
#[verifier::allow_in_spec]
pub fn message(status: u16, text: &'static str) -> Refusal
    returns
        (Refusal {
            status,
            plain: None,
            error: None,
            message: Some(text),
            code: None,
            retryable: false,
            retry_after: None,
            unsuccessful: false,
        }),
{
    Refusal {
        status,
        plain: None,
        error: None,
        message: Some(text),
        code: None,
        retryable: false,
        retry_after: None,
        unsuccessful: false,
    }
}

/// A body with an `error` and a `message` member.
#[verifier::allow_in_spec]
pub fn titled(status: u16, title: &'static str, text: &'static str) -> Refusal
    returns
        (Refusal {
            status,
            plain: None,
            error: Some(title),
            message: Some(text),
            code: None,
            retryable: false,
            retry_after: None,
            unsuccessful: false,
        }),
{
    Refusal {
        status,
        plain: None,
        error: Some(title),
        message: Some(text),
        code: None,
        retryable: false,
        retry_after: None,
        unsuccessful: false,
    }
}

/// The same refusal, which says that the request may be sent again.
#[verifier::allow_in_spec]
pub fn again(r: Refusal) -> Refusal
    returns
        (Refusal { retryable: true, ..r }),
{
    Refusal { retryable: true, ..r }
}

/// The same refusal, with a `code` member.
#[verifier::allow_in_spec]
pub fn coded(r: Refusal, code: &'static str) -> Refusal
    returns
        (Refusal { code: Some(code), ..r }),
{
    Refusal { code: Some(code), ..r }
}

/// The same refusal, with the seconds to wait.
#[verifier::allow_in_spec]
pub fn after(r: Refusal, seconds: u64) -> Refusal
    returns
        (Refusal { retry_after: Some(seconds), ..r }),
{
    Refusal { retry_after: Some(seconds), ..r }
}

/// The same refusal, which says `"success": false`.
#[verifier::allow_in_spec]
pub fn failing(r: Refusal) -> Refusal
    returns
        (Refusal { unsuccessful: true, ..r }),
{
    Refusal { unsuccessful: true, ..r }
}

/// The reply while a service that the request needs is down.
#[verifier::allow_in_spec]
pub fn unavailable() -> Refusal
    returns
        again(error(503, "Temporarily unavailable")),
{
    again(error(503, "Temporarily unavailable"))
}

/// Outcome of loading a document.
#[derive(Debug, PartialEq, Eq)]
pub enum Lookup<T> {
    Found(T),
    Missing,
    Failed,
}

impl<T: Copy> Copy for Lookup<T> {

}

impl<T: Copy> Clone for Lookup<T> {
    fn clone(&self) -> (r: Self)
        ensures
            r == *self,
    {
        *self
    }
}

/// Outcome of a question that the database answers.
#[derive(Clone, Copy, Debug, PartialEq, Eq)]
pub enum Answer {
    Yes,
    No,
    Failed,
}

/// Outcome of a write: whether it changed a document.
#[derive(Clone, Copy, Debug, PartialEq, Eq)]
pub enum Wrote {
    Changed,
    Unchanged,
    Failed,
}

/// Outcome of a step that either worked or did not.
#[derive(Clone, Copy, Debug, PartialEq, Eq)]
pub enum Done {
    Worked,
    Failed,
}

/// Outcome of an access check, with the words that say why access was denied.
#[derive(Clone, Copy, Debug, PartialEq, Eq)]
pub enum Access {
    Granted,
    Unavailable(&'static str),
    Denied(&'static str),
}

/// How often something may be done: at most `max` times in `seconds`.
#[derive(Clone, Copy, Debug, PartialEq, Eq)]
pub struct Quota {
    pub max: u32,
    pub seconds: u64,
}

} // verus!
