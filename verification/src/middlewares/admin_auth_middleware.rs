//! Access to the panel of the administrators.

use vstd::prelude::*;

use crate::ids::Oid;
use crate::middlewares::Guard;
use crate::reply::{Refusal, coded, error};
use crate::text;

verus! {

/// Whether a request only asks for the state of the session.
pub open spec fn is_session_probe(method: Seq<char>, path: Seq<char>) -> bool {
    method == "GET"@ && (path == "/api/admin"@ || path == "/api/admin/"@ || path
        == "/api/admin/session"@)
}

/// Finds whether a request only asks for the state of the session.
pub fn is_admin_session_status_request(method: &str, path: &str) -> (r: bool)
    ensures
        r == is_session_probe(method@, path@),
{
    text::same_text(method, "GET") && (text::same_text(path, "/api/admin") || text::same_text(
        path,
        "/api/admin/",
    ) || text::same_text(path, "/api/admin/session"))
}

/// The reply to an address from which the panel is closed.
#[verifier::allow_in_spec]
pub fn address_refused() -> Refusal
    returns
        coded(
            error(403, "Dostęp do panelu administratora z tego adresu IP jest zablokowany."),
            "ADMIN_IP_NOT_ALLOWED",
        ),
{
    coded(
        error(403, "Dostęp do panelu administratora z tego adresu IP jest zablokowany."),
        "ADMIN_IP_NOT_ALLOWED",
    )
}

/// What is done with a request for the panel.
#[derive(Clone, Copy, Debug, PartialEq, Eq)]
pub enum AddressStep {
    Pass,
    /// Reply that nobody is logged in, and that the address is why.
    ReplyNotAllowed,
    Refuse(Refusal),
}

pub open spec fn address_step(
    list_configured: bool,
    address_allowed: bool,
    method: Seq<char>,
    path: Seq<char>,
) -> AddressStep {
    if !list_configured || address_allowed {
        AddressStep::Pass
    } else if is_session_probe(method, path) {
        AddressStep::ReplyNotAllowed
    } else {
        AddressStep::Refuse(address_refused())
    }
}

/// Decides whether a request for the panel passes by its address.
pub fn check_admin_ip_allowlist(
    list_configured: bool,
    address_allowed: bool,
    method: &str,
    path: &str,
) -> (r: AddressStep)
    ensures
        r == address_step(list_configured, address_allowed, method@, path@),
{
    if !list_configured || address_allowed {
        return AddressStep::Pass;
    }
    if is_admin_session_status_request(method, path) {
        AddressStep::ReplyNotAllowed
    } else {
        AddressStep::Refuse(address_refused())
    }
}

/// An account that a request was found to come from.
#[derive(Clone, Copy, Debug, PartialEq, Eq)]
pub struct Account {
    pub id: Option<Oid>,
}

/// What is known while the session of an administrator is checked.
#[derive(Clone, Copy, Debug)]
pub struct SessionFacts {
    pub list_configured: bool,
    pub address_allowed: bool,
    /// The administrator whose request it is, if it is one of an administrator.
    pub admin: Option<Option<Account>>,
    /// Whether anybody is logged in.
    pub has_session: Option<bool>,
    /// The account of the request, if it is one that may open the panel.
    pub panel_account: Option<Option<Account>>,
    /// Whether the panel asks for a further confirmation that is missing.
    pub elevation_missing: Option<bool>,
}

/// What to do next while the session of an administrator is checked.
#[derive(Clone, Copy, Debug, PartialEq, Eq)]
pub enum SessionStep {
    ResolveAdmin,
    AskSession,
    ResolvePanelAccount,
    /// Ask whether this account has to confirm that it is an administrator.
    AskElevation(Option<Oid>),
    /// Let the request pass, as one of the administrator with this id.
    Pass(Option<Oid>),
    Refuse(Refusal),
}

pub open spec fn session_step(f: SessionFacts) -> SessionStep {
    if f.list_configured && !f.address_allowed {
        SessionStep::Refuse(address_refused())
    } else if f.admin is None {
        SessionStep::ResolveAdmin
    } else if f.admin->0 is Some {
        SessionStep::Pass(f.admin->0->0.id)
    } else if f.has_session is None {
        SessionStep::AskSession
    } else if !f.has_session->0 {
        SessionStep::Refuse(error(401, "Brak uprawnień administratora."))
    } else if f.panel_account is None {
        SessionStep::ResolvePanelAccount
    } else if f.panel_account->0 is Some && f.elevation_missing is None {
        SessionStep::AskElevation(f.panel_account->0->0.id)
    } else if f.panel_account->0 is Some && f.elevation_missing->0 {
        SessionStep::Refuse(
            coded(
                error(403, "Wymagane potwierdzenie dostępu administratora (ADMIN_SECRET)."),
                "ADMIN_ELEVATION_REQUIRED",
            ),
        )
    } else {
        SessionStep::Refuse(error(403, "Brak uprawnień administratora."))
    }
}

/// Decides the next step of checking the session of an administrator.
pub fn verify_admin_session(f: &SessionFacts) -> (r: SessionStep)
    ensures
        r == session_step(*f),
{
    if f.list_configured && !f.address_allowed {
        return SessionStep::Refuse(address_refused());
    }
    match f.admin {
        None => return SessionStep::ResolveAdmin,
        Some(Some(account)) => return SessionStep::Pass(account.id),
        Some(None) => {},
    }
    match f.has_session {
        None => return SessionStep::AskSession,
        Some(false) => return SessionStep::Refuse(error(401, "Brak uprawnień administratora.")),
        Some(true) => {},
    }
    match f.panel_account {
        None => return SessionStep::ResolvePanelAccount,
        Some(None) => {},
        Some(Some(account)) => match f.elevation_missing {
            None => return SessionStep::AskElevation(account.id),
            Some(true) => return SessionStep::Refuse(
                coded(
                    error(403, "Wymagane potwierdzenie dostępu administratora (ADMIN_SECRET)."),
                    "ADMIN_ELEVATION_REQUIRED",
                ),
            ),
            Some(false) => {},
        },
    }
    SessionStep::Refuse(error(403, "Brak uprawnień administratora."))
}

/// Only administrators pass, each under the own id, and only from an address that is allowed.
pub proof fn law_panel_is_for_administrators(f: SessionFacts)
    ensures
        session_step(f) matches SessionStep::Pass(id) ==> f.admin == Some(Some(Account { id }))
            && (f.list_configured ==> f.address_allowed),
{
}

/// An administrator at an allowed address passes, under the own id; others are refused by what they lack: a
/// session, the right, or the further confirmation. Only a question for the session is answered at an
/// address that is not allowed.
pub proof fn law_administrators_pass(
    f: SessionFacts,
    method: Seq<char>,
    path: Seq<char>,
)
    ensures
        ({
            let s = session_step(f);
            let here = !f.list_configured || f.address_allowed;
            let other = here && f.admin is Some && f.admin->0 is None;
            let inside = other && f.has_session is Some && f.has_session->0;
            &&& here && f.admin is None <==> s is ResolveAdmin
            &&& here && f.admin is Some && f.admin->0 is Some <==> s is Pass
            &&& s is Pass ==> s == SessionStep::Pass(f.admin->0->0.id)
            &&& other && f.has_session is None <==> s is AskSession
            &&& inside && f.panel_account is None <==> s is ResolvePanelAccount
            &&& inside && f.panel_account is Some && f.panel_account->0 is Some
                && f.elevation_missing is None <==> s is AskElevation
            &&& s is AskElevation ==> s == SessionStep::AskElevation(f.panel_account->0->0.id)
            &&& s matches SessionStep::Refuse(r) ==> (r.status == 401 <==> here && !inside) && (
            r.status == 401 || r.status == 403)
        }),
        ({
            let s = address_step(f.list_configured, f.address_allowed, method, path);
            &&& s is Pass <==> !f.list_configured || f.address_allowed
            &&& s is ReplyNotAllowed <==> s !is Pass && method == "GET"@ && (path == "/api/admin"@
                || path == "/api/admin/"@ || path == "/api/admin/session"@)
        }),
{
}

/// Decides whether a request for the panel passes: it does where administrators are configured.
pub fn check_admin_configured(configured: bool) -> (r: Guard)
    ensures
        r == (if configured {
            Guard::Pass
        } else {
            Guard::Refuse(
                error(
                    503,
                    "Panel administratora nie jest skonfigurowany (ustaw ADMIN_USER_IDS w .env).",
                ),
            )
        }),
{
    if configured {
        Guard::Pass
    } else {
        Guard::Refuse(
            error(
                503,
                "Panel administratora nie jest skonfigurowany (ustaw ADMIN_USER_IDS w .env).",
            ),
        )
    }
}

} // verus!
