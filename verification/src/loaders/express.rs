//! What stands before the handlers of the server, and where it listens.

use vstd::prelude::*;

use crate::patterns;
use crate::patterns::{compile_all, matches_any};
use crate::reply::{Refusal, error};
use crate::text;

verus! {

/// The port where none is configured.
pub const DEFAULT_PORT: u16 = 6700;

/// How often the inner server is asked whether it is ready.
pub const HEALTH_ATTEMPTS: u32 = 50;

/// A header of a reply.
#[derive(Clone, Copy, Debug, PartialEq, Eq)]
pub struct Header {
    pub name: &'static str,
    pub value: &'static str,
}

/// The headers that every reply of the inner server gets.
pub open spec fn inner_headers() -> Seq<Header> {
    seq![
        Header { name: "x-content-type-options", value: "nosniff" },
        Header { name: "x-frame-options", value: "DENY" },
        Header { name: "x-xss-protection", value: "0" },
        Header { name: "referrer-policy", value: "strict-origin-when-cross-origin" },
        Header { name: "permissions-policy", value: "geolocation=(), microphone=(self), camera=(self), payment=(), usb=(), magnetometer=(), gyroscope=()" },
        Header { name: "x-download-options", value: "noopen" },
        Header { name: "x-permitted-cross-domain-policies", value: "none" },
        Header { name: "cross-origin-opener-policy", value: "same-origin" },
        Header { name: "cross-origin-embedder-policy", value: "credentialless" },
    ]
}

/// The header that keeps browsers on secure connections.
#[verifier::allow_in_spec]
pub fn transport_security() -> Header
    returns
        (Header { name: "strict-transport-security", value: "max-age=31536000; includeSubDomains" }),
{
    Header { name: "strict-transport-security", value: "max-age=31536000; includeSubDomains" }
}

/// Lists the headers with fixed values that every reply of the inner server gets.
pub fn security_headers_middleware(production: bool) -> (r: Vec<Header>)
    ensures
        r@ == (if production {
            inner_headers().push(transport_security())
        } else {
            inner_headers()
        }),
{
    let mut r: Vec<Header> = vec![
        Header { name: "x-content-type-options", value: "nosniff" },
        Header { name: "x-frame-options", value: "DENY" },
        Header { name: "x-xss-protection", value: "0" },
        Header { name: "referrer-policy", value: "strict-origin-when-cross-origin" },
        Header { name: "permissions-policy", value: "geolocation=(), microphone=(self), camera=(self), payment=(), usb=(), magnetometer=(), gyroscope=()" },
        Header { name: "x-download-options", value: "noopen" },
        Header { name: "x-permitted-cross-domain-policies", value: "none" },
        Header { name: "cross-origin-opener-policy", value: "same-origin" },
        Header { name: "cross-origin-embedder-policy", value: "credentialless" },
    ];
    assert(r@ =~= inner_headers());
    if production {
        r.push(transport_security());
    }
    r
}

/// The headers that every reply of the public server gets.
pub open spec fn outer_headers(production: bool) -> Seq<Header> {
    let first = seq![
        Header { name: "x-content-type-options", value: "nosniff" },
        Header { name: "x-frame-options", value: "DENY" },
        Header { name: "referrer-policy", value: "strict-origin-when-cross-origin" },
        Header { name: "cross-origin-opener-policy", value: "same-origin" },
    ];
    let last = Header { name: "permissions-policy", value: "geolocation=(), microphone=(self), camera=(self), payment=(), usb=()" };
    if production {
        first.push(transport_security()).push(last)
    } else {
        first.push(last)
    }
}

/// Lists the headers with fixed values that every reply of the public server gets.
pub fn public_security_headers(production: bool) -> (r: Vec<Header>)
    ensures
        r@ == outer_headers(production),
{
    let mut r: Vec<Header> = vec![
        Header { name: "x-content-type-options", value: "nosniff" },
        Header { name: "x-frame-options", value: "DENY" },
        Header { name: "referrer-policy", value: "strict-origin-when-cross-origin" },
        Header { name: "cross-origin-opener-policy", value: "same-origin" },
    ];
    if production {
        r.push(transport_security());
    }
    r.push(Header { name: "permissions-policy", value: "geolocation=(), microphone=(self), camera=(self), payment=(), usb=()" });
    assert(r@ =~= outer_headers(production));
    r
}

/// Whether a list of headers gives `name` the value `value`.
pub open spec fn gives(headers: Seq<Header>, name: &'static str, value: &'static str) -> bool {
    headers.contains((Header { name, value }))
}

/// Every reply forbids other sites to frame it and browsers to guess its type, and in production
/// keeps browsers on secure connections.
pub proof fn law_replies_are_hardened(production: bool)
    ensures
        gives(inner_headers(), "x-frame-options", "DENY"),
        gives(inner_headers(), "x-content-type-options", "nosniff"),
        gives(outer_headers(production), "x-frame-options", "DENY"),
        gives(outer_headers(production), "x-content-type-options", "nosniff"),
        production ==> outer_headers(production).contains(transport_security()),
{
    assert(inner_headers()[0] == (Header { name: "x-content-type-options", value: "nosniff" }));
    assert(inner_headers()[1] == (Header { name: "x-frame-options", value: "DENY" }));
    assert(outer_headers(production)[0] == (Header {
        name: "x-content-type-options",
        value: "nosniff",
    }));
    assert(outer_headers(production)[1] == (Header { name: "x-frame-options", value: "DENY" }));
    if production {
        assert(outer_headers(production)[4] == transport_security());
    }
}

/// The expressions that mark a request as suspicious.
pub open spec fn suspicious_texts() -> Seq<&'static str> {
    seq![
        r"\.\.",
        r"(?i)<script",
        r"(?i)javascript:",
        r"(?i)on\w+\s*=",
        r"(?i)union.*select",
        r"(?i)drop\s+table",
        r"(?i)exec\s*\(",
    ]
}

/// Lists the expressions that mark a request as suspicious.
pub fn suspicious_patterns() -> (r: Vec<&'static str>)
    ensures
        r@ == suspicious_texts(),
{
    let r: Vec<&'static str> = vec![
        r"\.\.",
        r"(?i)<script",
        r"(?i)javascript:",
        r"(?i)on\w+\s*=",
        r"(?i)union.*select",
        r"(?i)drop\s+table",
        r"(?i)exec\s*\(",
    ];
    assert(r@ =~= suspicious_texts());
    r
}

/// Compiles the expressions that mark a request as suspicious; nothing comes back where one of
/// them cannot be compiled.
pub fn compile_suspicious_patterns() -> (r: Option<Vec<regex::Regex>>)
    ensures
        match r {
            Some(v) => patterns::sources(v@) == patterns::views(suspicious_texts()),
            None => !patterns::all_compile(patterns::views(suspicious_texts())),
        },
{
    compile_all(&suspicious_patterns())
}

/// What is done with a request.
#[derive(Clone, Copy, Debug, PartialEq, Eq)]
pub enum RequestStep {
    Pass,
    Refuse(Refusal),
}

/// What is done with a request that is or is not marked as suspicious.
pub open spec fn request_step(marked: bool) -> RequestStep {
    if marked {
        RequestStep::Refuse(error(400, "Invalid request"))
    } else {
        RequestStep::Pass
    }
}

/// Decides whether a request passes; `list` are the compiled expressions.
pub fn suspicious_request_middleware(list: &Vec<regex::Regex>, uri: &str, query: &str) -> (r:
    RequestStep)
    ensures
        r == request_step(
            patterns::any_matches(patterns::sources(list@), uri@ + " "@ + query@),
        ),
{
    if matches_any(list, text::join3(uri, " ", query).as_str()) {
        RequestStep::Refuse(error(400, "Invalid request"))
    } else {
        RequestStep::Pass
    }
}

/// The headers that speak of one connection, or that only a proxy may set, are not handed on.
pub proof fn law_connection_headers_are_stripped(
    name: Seq<char>,
)
    ensures
        name == "host"@ || name == "connection"@ || name == "keep-alive"@ || name == "te"@ || name
            == "trailer"@ || name == "upgrade"@ ==> is_stripped(name),
        name == "content-length"@ || name == "transfer-encoding"@ || name == "content-encoding"@
            ==> is_stripped(name),
        name == "x-real-ip"@ || name == "x-forwarded-for"@ ==> is_stripped(name),
{
}

/// A request is refused exactly where a pattern marks it.
pub proof fn law_marked_requests_are_refused(
    marked: bool,
)
    ensures
        request_step(marked) is Refuse <==> marked,
        request_step(marked) is Pass <==> !marked,
{
}

/// What is done with a request for the report on security.
#[derive(Clone, Copy, Debug, PartialEq, Eq)]
pub enum ReportStep {
    Reply,
    Refuse(Refusal),
}

/// Whether a report can be asked for at all: there is a secret.
pub open spec fn report_is_offered(secret: Option<&str>) -> bool {
    secret is Some && text::trimmed(secret->0@).len() > 0
}

/// What is done with a request for the report; `header` is what the request shows.
pub open spec fn report_step(secret: Option<&str>, header: Option<&str>) -> ReportStep {
    if !report_is_offered(secret) {
        ReportStep::Refuse(error(404, "Not found"))
    } else if header is Some && header->0@ == "Bearer "@ + secret->0@ {
        ReportStep::Reply
    } else {
        ReportStep::Refuse(error(401, "Unauthorized"))
    }
}

/// Decides whether the report on security is shown.
pub fn security_report_handler(secret: Option<&str>, header: Option<&str>) -> (r: ReportStep)
    ensures
        r == report_step(secret, header),
{
    let secret = match secret {
        None => return ReportStep::Refuse(error(404, "Not found")),
        Some(s) => s,
    };
    if text::trim(secret).as_str().is_empty() {
        return ReportStep::Refuse(error(404, "Not found"));
    }
    match header {
        None => ReportStep::Refuse(error(401, "Unauthorized")),
        Some(h) => if text::same_throughout(h, expected_authorization(secret).as_str()) {
            ReportStep::Reply
        } else {
            ReportStep::Refuse(error(401, "Unauthorized"))
        },
    }
}

/// The header that is expected of a request for the report.
pub fn expected_authorization(secret: &str) -> (r: String)
    ensures
        r@ == "Bearer "@ + secret@,
{
    text::join2("Bearer ", secret)
}

/// The report is shown exactly to those who show the secret, and not at all where there is none.
pub proof fn law_report_needs_the_secret(secret: Option<&str>, header: Option<&str>)
    ensures
        report_step(secret, header) is Reply <==> report_is_offered(secret) && header is Some
            && header->0@ == "Bearer "@ + secret->0@,
{
}

/// The reply to a request for a path that is not known.
#[verifier::allow_in_spec]
pub fn not_found_handler() -> Refusal
    returns
        error(404, "Route not found"),
{
    error(404, "Route not found")
}

/// The port that a setting gives: one that is not 0, else the default.
pub open spec fn port_of(value: Option<&str>) -> u16 {
    if value is Some && text::u16_of(text::trimmed(value->0@)) is Some && text::u16_of(
        text::trimmed(value->0@),
    )->0 != 0 {
        text::u16_of(text::trimmed(value->0@))->0
    } else {
        DEFAULT_PORT
    }
}

/// Reads the port that a setting gives.
pub fn public_port(value: Option<&str>) -> (r: u16)
    ensures
        r == port_of(value),
{
    match value {
        None => DEFAULT_PORT,
        Some(v) => match text::parse_u16(text::trim(v).as_str()) {
            None => DEFAULT_PORT,
            Some(p) => if p != 0 {
                p
            } else {
                DEFAULT_PORT
            },
        },
    }
}

/// Whether a setting for the inner port is there.
pub open spec fn is_set(value: Option<&str>) -> bool {
    value is Some && text::trimmed(value->0@).len() > 0
}

/// The inner port that a setting gives: one that is not 0, else the next after `port`, if there
/// is one.
pub open spec fn inner_port_of(value: Option<&str>, port: u16) -> u16 {
    if is_set(value) && text::u16_of(text::trimmed(value->0@)) is Some && text::u16_of(
        text::trimmed(value->0@),
    )->0 != 0 {
        text::u16_of(text::trimmed(value->0@))->0
    } else if port < u16::MAX {
        (port + 1) as u16
    } else {
        u16::MAX
    }
}

/// Reads the inner port that a setting gives.
pub fn internal_port(value: Option<&str>, port: u16) -> (r: u16)
    ensures
        r == inner_port_of(value, port),
{
    if let Some(v) = value {
        let t = text::trim(v);
        if !t.as_str().is_empty() {
            if let Some(p) = text::parse_u16(t.as_str()) {
                if p != 0 {
                    return p;
                }
            }
        }
    }
    if port < u16::MAX {
        port + 1
    } else {
        u16::MAX
    }
}

/// A port that is configured is taken where it is one; without that the public server takes its own, and
/// the inner one the port after the public one.
pub proof fn law_configured_ports_are_taken(
    value: Option<&str>,
    port: u16,
)
    ensures
        ({
            let asked = text::u16_of(text::trimmed(value->0@));
            let fits = value is Some && asked is Some && asked->0 != 0;
            &&& fits ==> port_of(value) == asked->0
            &&& !fits ==> port_of(value) == 6700
            &&& fits && text::trimmed(value->0@).len() > 0 ==> inner_port_of(value, port) == asked->0
            &&& !fits && port < u16::MAX ==> inner_port_of(value, port) == port + 1
            &&& port_of(value) != 0
        }),
{
}

/// How the inner server finds its port.
#[derive(Clone, Copy, Debug, PartialEq, Eq)]
pub enum BindPlan {
    /// It must have this port.
    Must(u16),
    /// It takes any port where this one is taken.
    OrAny(u16),
}

/// Plans how the inner server finds its port: in production, or where one is configured, it must
/// have the one that was found.
pub fn plan_bind(production: bool, configured: Option<&str>, port: u16) -> (r: BindPlan)
    ensures
        r == (if production || is_set(configured) {
            BindPlan::Must(inner_port_of(configured, port))
        } else {
            BindPlan::OrAny(inner_port_of(configured, port))
        }),
{
    let p = internal_port(configured, port);
    let set = match configured {
        None => false,
        Some(v) => !text::trim(v).as_str().is_empty(),
    };
    if production || set {
        BindPlan::Must(p)
    } else {
        BindPlan::OrAny(p)
    }
}

/// Whether the public server takes any port where its own is taken: only where none was set.
pub fn may_take_any_port(configured: Option<&str>) -> (r: bool)
    ensures
        r == (configured is None),
{
    configured.is_none()
}

/// What to do after the inner server was asked whether it is ready.
#[derive(Clone, Copy, Debug, PartialEq, Eq)]
pub enum HealthStep {
    Ready,
    Wait,
    /// Go on anyway.
    GiveUp,
}

/// Decides what to do after the attempt with this number, counted from 0.
pub fn health_step(attempt: u32, ready: bool) -> (r: HealthStep)
    ensures
        r == (if ready {
            HealthStep::Ready
        } else if attempt + 1 >= HEALTH_ATTEMPTS {
            HealthStep::GiveUp
        } else {
            HealthStep::Wait
        }),
{
    if ready {
        HealthStep::Ready
    } else if attempt >= HEALTH_ATTEMPTS - 1 {
        HealthStep::GiveUp
    } else {
        HealthStep::Wait
    }
}

/// Whether a header of a request is not handed to the inner server.
pub open spec fn is_stripped(name: Seq<char>) -> bool {
    name == "host"@ || name == "content-length"@ || name == "transfer-encoding"@ || name == "content-encoding"@ || name == "connection"@ || name == "keep-alive"@ || name == "te"@ || name == "trailer"@ || name == "upgrade"@ || name == "x-real-ip"@ || name == "x-forwarded-for"@
}

/// Finds whether a header of a request is not handed to the inner server: those that describe
/// the connection or the framing of the body, and those that tell of other addresses.
pub fn should_strip_request_header(name: &str) -> (r: bool)
    ensures
        r == is_stripped(name@),
{
    text::same_text(name, "host") || text::same_text(name, "content-length") || text::same_text(name, "transfer-encoding") || text::same_text(name, "content-encoding") || text::same_text(name, "connection") || text::same_text(name, "keep-alive") || text::same_text(name, "te") || text::same_text(name, "trailer") || text::same_text(name, "upgrade") || text::same_text(name, "x-real-ip") || text::same_text(name, "x-forwarded-for")
}

/// Finds whether a header of a reply of the inner server is handed on; `cors` is whether it is
/// one that the public server sets itself.
pub fn keep_response_header(name: &str, cors: bool) -> (r: bool)
    ensures
        r == (name@ != "transfer-encoding"@ && !cors),
{
    !text::same_text(name, "transfer-encoding") && !cors
}

/// The address of the inner server.
pub fn inner_base(port: u16) -> (r: String)
    ensures
        r@ == "http://127.0.0.1:"@ + text::decimal(port as nat),
{
    text::join2("http://127.0.0.1:", text::write_u64(port as u64).as_str())
}

} // verus!
