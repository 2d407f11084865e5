//! Requests must come from the official client.

use vstd::prelude::*;

use crate::reply::{Refusal, error};
use crate::text;
use crate::text::{same_text, strip_prefix};

verus! {

/// What is done with a request.
#[derive(Clone, Copy, Debug, PartialEq, Eq)]
pub enum ClientStep {
    Pass,
    /// Note a suspicious request of the address.
    NoteSuspicious,
    Refuse(Refusal),
}

/// The query of a request that is looked at: none where it is empty.
pub open spec fn given_query(query: &str) -> Option<&str> {
    if query@.len() == 0 {
        None
    } else {
        Some(query)
    }
}

/// Reads the query of a request that is looked at.
pub fn query_given<'a>(query: &'a str) -> (r: Option<&'a str>)
    ensures
        r == given_query(query),
{
    if query.is_empty() {
        None
    } else {
        Some(query)
    }
}

/// Whether a request needs no name of a client: a preflight, the description of the server, and
/// the reports of other servers on security.
pub open spec fn is_exempt(method: Seq<char>, path: Seq<char>) -> bool {
    method == "OPTIONS"@ || path == "/api"@ || path == "/api/"@ || text::begins_with(
        path,
        "/api/security/"@,
    )
}

/// Decides whether a request needs no name of a client.
pub fn exempt(method: &str, path: &str) -> (r: bool)
    ensures
        r == (method@ == "OPTIONS"@ || path@ == "/api"@ || path@ == "/api/"@ || text::begins_with(
            path@,
            "/api/security/"@,
        )),
        r == is_exempt(method@, path@),
{
    same_text(method, "OPTIONS") || same_text(path, "/api") || same_text(path, "/api/")
        || strip_prefix(path, "/api/security/").is_some()
}

/// Whether a header names the official client: `KlovyChatApp/` and a version.
pub open spec fn is_official(header: Option<Seq<char>>) -> bool {
    match header {
        None => false,
        Some(value) => match text::without_prefix(value, "KlovyChatApp/"@) {
            None => false,
            Some(version) => version.len() > 0,
        },
    }
}

/// Decides whether a header names the official client.
pub fn official(header: Option<&str>) -> (r: bool)
    ensures
        r == is_official(text::opt_str(header)),
{
    match header {
        None => false,
        Some(value) => match strip_prefix(value, "KlovyChatApp/") {
            None => false,
            Some(version) => !version.as_str().is_empty(),
        },
    }
}

/// Whether a request passes: it needs no name of a client, or names the official one in its
/// header or in its query.
pub open spec fn may_pass(
    method: Seq<char>,
    path: Seq<char>,
    header: Option<Seq<char>>,
    in_query: bool,
) -> bool {
    is_exempt(method, path) || is_official(header) || in_query
}

pub open spec fn client_step(
    method: Seq<char>,
    path: Seq<char>,
    header: Option<Seq<char>>,
    in_query: bool,
    watched: bool,
    noted: bool,
) -> ClientStep {
    if may_pass(method, path, header, in_query) {
        ClientStep::Pass
    } else if watched && !noted {
        ClientStep::NoteSuspicious
    } else {
        ClientStep::Refuse(error(403, "Unsupported client"))
    }
}

/// Decides what is done with a request. `header` is the client that its header names, `in_query`
/// whether its query names the official client, `watched` whether addresses are watched, `noted`
/// whether this request was noted.
pub fn client_guard_middleware(
    method: &str,
    path: &str,
    header: Option<&str>,
    in_query: bool,
    watched: bool,
    noted: bool,
) -> (r: ClientStep)
    ensures
        r == client_step(method@, path@, text::opt_str(header), in_query, watched, noted),
{
    if exempt(method, path) || official(header) || in_query {
        ClientStep::Pass
    } else if watched && !noted {
        ClientStep::NoteSuspicious
    } else {
        ClientStep::Refuse(error(403, "Unsupported client"))
    }
}

/// A request that needs no name of a client passes at once, and its address is not noted: so do
/// all preflights, the description of the server and all reports on security.
pub proof fn law_exempt_requests_pass(
    method: Seq<char>,
    path: Seq<char>,
    header: Option<Seq<char>>,
    in_query: bool,
    watched: bool,
    noted: bool,
)
    ensures
        is_exempt(method, path) ==> client_step(method, path, header, in_query, watched, noted)
            == ClientStep::Pass,
        is_exempt("OPTIONS"@, path),
        is_exempt(method, "/api"@),
        is_exempt(method, "/api/"@),
        is_exempt(method, "/api/security/"@ + path),
{
    let report = "/api/security/"@ + path;
    assert(report.take("/api/security/"@.len() as int) =~= "/api/security/"@);
}

/// A request that needs a name of a client and names no official one never passes, and counts
/// against its address before it is refused.
pub proof fn law_other_clients_are_refused(
    method: Seq<char>,
    path: Seq<char>,
    header: Option<Seq<char>>,
    watched: bool,
    noted: bool,
)
    requires
        !is_exempt(method, path),
        !is_official(header),
    ensures
        client_step(method, path, header, false, watched, noted) !is Pass,
        client_step(method, path, header, false, watched, noted) is Refuse && watched ==> noted,
        client_step(method, path, header, false, watched, true) == ClientStep::Refuse(
            error(403, "Unsupported client"),
        ),
{
}

/// A request that names the official client with a version passes at once, in the header or in the query.
pub proof fn law_official_client_passes(
    method: Seq<char>,
    path: Seq<char>,
    version: Seq<char>,
    watched: bool,
    noted: bool,
)
    requires
        version.len() > 0,
    ensures
        client_step(method, path, Some("KlovyChatApp/"@ + version), false, watched, noted)
            == ClientStep::Pass,
        client_step(method, path, None, true, watched, noted) == ClientStep::Pass,
        !is_official(Some("KlovyChatApp/"@)),
        !is_official(None),
        forall|header: Seq<char>|
            is_official(Some(header)) ==> #[trigger] text::begins_with(header, "KlovyChatApp/"@)
                && header.len() > "KlovyChatApp/"@.len(),
{
    let header = "KlovyChatApp/"@ + version;
    assert(header.subrange(0, "KlovyChatApp/"@.len() as int) =~= "KlovyChatApp/"@);
    assert(header.skip("KlovyChatApp/"@.len() as int) =~= version);
}

} // verus!
