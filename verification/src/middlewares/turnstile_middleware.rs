//! A puzzle that robots do not solve guards logins and new accounts.

use vstd::prelude::*;

use crate::reply::{Refusal, coded, error};
use crate::text;

verus! {

/// How a request got past the puzzle.
#[derive(Clone, Copy, Debug, PartialEq, Eq, Structural)]
pub enum TurnstileOutcome {
    Verified,
    /// The service could not be asked.
    Bypassed,
}

/// Whether a path is one for new accounts.
pub open spec fn is_for_signup(path: Seq<char>) -> bool {
    text::ends_with(path, "/signup"@) || text::ends_with(path, "/register"@)
}

/// Finds whether a path is one for new accounts.
pub fn is_signup_path(path: &str) -> (r: bool)
    ensures
        r == is_for_signup(path@),
{
    text::has_suffix(path, "/signup") || text::has_suffix(path, "/register")
}

/// What the service said of a token.
#[derive(Clone, Copy, Debug, PartialEq, Eq)]
pub enum SiteVerify {
    /// It did not answer.
    Unreachable,
    /// Its answer could not be read.
    Unreadable,
    /// It answered, with whether the token is good where it said so.
    Answered(Option<bool>),
}

/// What the service is sent: nothing else, and not the address of the client.
#[derive(Debug, PartialEq, Eq)]
pub struct VerifyForm {
    pub secret: String,
    pub response: String,
}

/// The view of `VerifyForm`.
#[verifier::ext_equal]
pub struct VerifyFormView {
    pub secret: Seq<char>,
    pub response: Seq<char>,
}

impl View for VerifyForm {
    type V = VerifyFormView;

    open spec fn view(&self) -> VerifyFormView {
        VerifyFormView {
            secret: self.secret@,
            response: self.response@,
        }
    }
}

/// What to do next while a token is checked.
#[derive(Debug, PartialEq, Eq)]
pub enum TurnstileStep {
    /// Let the request pass, with nothing noted.
    Pass,
    AskService(VerifyForm),
    /// Note the outcome, and let the request pass.
    PassWith(TurnstileOutcome),
    Refuse(Refusal),
}

/// The view of `TurnstileStep`.
#[verifier::ext_equal]
pub enum TurnstileStepView {
    Pass,
    AskService(VerifyFormView),
    PassWith(TurnstileOutcome),
    Refuse(Refusal),
}

impl View for TurnstileStep {
    type V = TurnstileStepView;

    open spec fn view(&self) -> TurnstileStepView {
        match self {
            TurnstileStep::Pass => TurnstileStepView::Pass,
            TurnstileStep::AskService(a) => TurnstileStepView::AskService(a@),
            TurnstileStep::PassWith(a) => TurnstileStepView::PassWith(*a),
            TurnstileStep::Refuse(a) => TurnstileStepView::Refuse(*a),
        }
    }
}

/// Makes what the service is sent.
pub fn verify_form(secret: &str, token: &str) -> (r: VerifyForm)
    ensures
        r@ == (VerifyFormView { secret: secret@, response: token@ }),
{
    VerifyForm { secret: secret.to_owned(), response: token.to_owned() }
}

/// The reply for new accounts while the service cannot be asked.
#[verifier::allow_in_spec]
pub fn turnstile_unavailable() -> Refusal
    returns
        coded(
            error(503, "Captcha verification is temporarily unavailable. Try again later."),
            "TURNSTILE_UNAVAILABLE",
        ),
{
    coded(
        error(503, "Captcha verification is temporarily unavailable. Try again later."),
        "TURNSTILE_UNAVAILABLE",
    )
}

pub open spec fn turnstile_step(
    development: bool,
    production: bool,
    path: Seq<char>,
    secret: Seq<char>,
    token: Option<&str>,
    reply: Option<SiteVerify>,
) -> TurnstileStepView {
    if development {
        TurnstileStepView::Pass
    } else if token is None || token->0@.len() == 0 {
        TurnstileStepView::Refuse(error(400, "Turnstile token is required"))
    } else {
        match reply {
            None => TurnstileStepView::AskService(VerifyFormView { secret, response: token->0@ }),
            Some(SiteVerify::Answered(Some(true))) => TurnstileStepView::PassWith(
                TurnstileOutcome::Verified,
            ),
            Some(SiteVerify::Answered(_)) => TurnstileStepView::Refuse(
                error(400, "Invalid Turnstile token"),
            ),
            _ => if production && is_for_signup(path) {
                TurnstileStepView::Refuse(turnstile_unavailable())
            } else {
                TurnstileStepView::PassWith(TurnstileOutcome::Bypassed)
            },
        }
    }
}

/// Decides the next step of checking a token.
pub fn verify_turnstile_token(
    development: bool,
    production: bool,
    path: &str,
    secret: &str,
    token: Option<&str>,
    reply: Option<SiteVerify>,
) -> (r: TurnstileStep)
    ensures
        r@ == turnstile_step(development, production, path@, secret@, token, reply),
{
    if development {
        return TurnstileStep::Pass;
    }
    let token = match token {
        None => return TurnstileStep::Refuse(error(400, "Turnstile token is required")),
        Some(t) => {
            if t.is_empty() {
                return TurnstileStep::Refuse(error(400, "Turnstile token is required"));
            }
            t
        },
    };
    match reply {
        None => TurnstileStep::AskService(verify_form(secret, token)),
        Some(SiteVerify::Answered(Some(true))) => TurnstileStep::PassWith(
            TurnstileOutcome::Verified,
        ),
        Some(SiteVerify::Answered(_)) => TurnstileStep::Refuse(error(400, "Invalid Turnstile token")),
        Some(_) => if production && is_signup_path(path) {
            TurnstileStep::Refuse(turnstile_unavailable())
        } else {
            TurnstileStep::PassWith(TurnstileOutcome::Bypassed)
        },
    }
}

/// In production a new account passes only with a token that the service called good.
pub proof fn law_new_accounts_are_verified(
    path: Seq<char>,
    secret: Seq<char>,
    token: Option<&str>,
    reply: Option<SiteVerify>,
)
    requires
        is_for_signup(path),
    ensures
        ({
            let s = turnstile_step(false, true, path, secret, token, reply);
            s is Pass || s is PassWith ==> s == TurnstileStepView::PassWith(TurnstileOutcome::Verified)
                && reply == Some(SiteVerify::Answered(Some(true)))
        }),
{
}

/// A token that the service called bad never passes.
pub proof fn law_bad_tokens_do_not_pass(
    production: bool,
    path: Seq<char>,
    secret: Seq<char>,
    token: Option<&str>,
    answer: Option<bool>,
)
    requires
        answer != Some(true),
    ensures
        turnstile_step(false, production, path, secret, token, Some(SiteVerify::Answered(answer))) is Refuse,
{
}

/// A request with a token that the service finds good passes as verified, and in development every request
/// passes; where the service cannot be asked others than new accounts pass, noted as such. The service is
/// asked with the token that came.
pub proof fn law_good_tokens_pass(
    development: bool,
    production: bool,
    path: Seq<char>,
    secret: Seq<char>,
    token: Option<&str>,
    reply: Option<SiteVerify>,
)
    ensures
        ({
            let s = turnstile_step(development, production, path, secret, token, reply);
            let given = token is Some && token->0@.len() > 0;
            let silent = reply is Some && (reply->0 is Unreachable || reply->0 is Unreadable);
            let signup = text::ends_with(path, "/signup"@) || text::ends_with(path, "/register"@);
            &&& development <==> s is Pass
            &&& !development && given && reply is None <==> s is AskService
            &&& s matches TurnstileStepView::AskService(form) ==> form.secret == secret && form.response
                == token->0@
            &&& !development && given && reply == Some(SiteVerify::Answered(Some(true))) ==> s
                == TurnstileStepView::PassWith(TurnstileOutcome::Verified)
            &&& !development && given && silent && !(production && signup) ==> s
                == TurnstileStepView::PassWith(TurnstileOutcome::Bypassed)
            &&& !development && given && silent && production && signup ==> s
                == TurnstileStepView::Refuse(turnstile_unavailable())
            &&& s == TurnstileStepView::PassWith(TurnstileOutcome::Verified) ==> reply == Some(
                SiteVerify::Answered(Some(true)),
            )
            &&& !development && !given ==> s == TurnstileStepView::Refuse(
                error(400, "Turnstile token is required"),
            )
        }),
{
}

} // verus!
