//! Start of the service.

use klovy_chat_server::loaders::encrypt_old_messages::{
    parse_args, read_argument, Argument, Command, MigrateOptions,
};
use klovy_chat_server::loaders::express::{
    compile_suspicious_patterns, expected_authorization, health_step, inner_base, internal_port,
    keep_response_header, may_take_any_port, not_found_handler, plan_bind, public_port, public_security_headers,
    security_headers_middleware, security_report_handler, should_strip_request_header,
    suspicious_request_middleware, transport_security, BindPlan, HealthStep, ReportStep, RequestStep,
};
use klovy_chat_server::loaders::routes::{layers, scopes, Layer, Limit, Routes};
use klovy_chat_server::loaders::startup::{ensure_indexes, reconcile_note, whitelist_word, ReconcileNote};
use klovy_chat_server::reply::error;

fn args(v: &[&str]) -> Vec<String> {
    v.iter().map(|s| s.to_string()).collect()
}

#[test]
fn migration_arguments() {
    assert!(matches!(read_argument("--batch-size=7"), Argument::BatchSize(Some(7))));
    assert!(matches!(read_argument("--limit=x"), Argument::Limit(None)));
    assert_eq!(
        parse_args(&args(&[])),
        Command::Run(MigrateOptions { dry_run: true, batch_size: 200, limit: None })
    );
    assert_eq!(
        parse_args(&args(&["--apply", "--batch-size=50", "--limit=9"])),
        Command::Run(MigrateOptions { dry_run: false, batch_size: 50, limit: Some(9) })
    );
    assert_eq!(
        parse_args(&args(&["--apply", "--dry-run"])),
        Command::Run(MigrateOptions { dry_run: true, batch_size: 200, limit: None })
    );
    assert_eq!(parse_args(&args(&["-h", "--x"])), Command::Help);
    assert_eq!(parse_args(&args(&["--help"])), Command::Help);
    assert_eq!(parse_args(&args(&["--batch-size="])), Command::InvalidBatchSize);
    assert_eq!(parse_args(&args(&["--limit=-1"])), Command::InvalidLimit);
    assert_eq!(parse_args(&args(&["--apply", "apply"])), Command::Unknown(1));
    assert_eq!(
        parse_args(&args(&["--limit=--limit=3"])),
        Command::Run(MigrateOptions { dry_run: true, batch_size: 200, limit: Some(3) })
    );
}

#[test]
fn migration_writes_nothing_unasked() {
    assert!(matches!(parse_args(&args(&["--limit=5"])), Command::Run(o) if o.dry_run));
    assert!(matches!(parse_args(&args(&["--dry-run", "--batch-size=1"])), Command::Run(o) if o.dry_run));
}

#[test]
fn replies_are_hardened() {
    let inner = security_headers_middleware(true);
    assert_eq!(inner.len(), 10);
    assert!(inner.iter().any(|h| h.name == "x-frame-options" && h.value == "DENY"));
    assert!(inner.iter().any(|h| h.name == "x-xss-protection" && h.value == "0"));
    assert_eq!(inner[9], transport_security());
    assert_eq!(security_headers_middleware(false).len(), 9);
    let outer = public_security_headers(true);
    assert_eq!(outer.len(), 6);
    assert_eq!(outer[4].value, "max-age=31536000; includeSubDomains");
    assert_eq!(outer[5].name, "permissions-policy");
    assert_eq!(public_security_headers(false).len(), 5);
}

#[test]
fn suspicious_addresses_are_refused() {
    let list = match compile_suspicious_patterns() {
        Some(l) => l,
        None => panic!("does not compile"),
    };
    let no = RequestStep::Refuse(error(400, "Invalid request"));
    assert_eq!(suspicious_request_middleware(&list, "/api/x", "a=1"), RequestStep::Pass);
    assert_eq!(suspicious_request_middleware(&list, "/api/../x", ""), no);
    assert_eq!(suspicious_request_middleware(&list, "/x", "JavaScript:1"), no);
    assert_eq!(suspicious_request_middleware(&list, "/x", "drop  table"), no);
    assert_eq!(suspicious_request_middleware(&list, "/x", "droptable"), RequestStep::Pass);
}

#[test]
fn report_needs_the_secret() {
    let absent = ReportStep::Refuse(error(404, "Not found"));
    let no = ReportStep::Refuse(error(401, "Unauthorized"));
    assert_eq!(security_report_handler(None, Some("Bearer s")), absent);
    assert_eq!(security_report_handler(Some(" "), Some("Bearer  ")), absent);
    assert_eq!(security_report_handler(Some("s"), None), no);
    assert_eq!(security_report_handler(Some("s"), Some("Bearer t")), no);
    assert_eq!(security_report_handler(Some("s"), Some("s")), no);
    assert_eq!(security_report_handler(Some("s"), Some("Bearer s")), ReportStep::Reply);
    assert_eq!(expected_authorization("s"), "Bearer s");
    assert_eq!(not_found_handler(), error(404, "Route not found"));
}

#[test]
fn ports() {
    assert_eq!(public_port(None), 6700);
    assert_eq!(public_port(Some(" 80 ")), 80);
    assert_eq!(public_port(Some("0")), 6700);
    assert_eq!(public_port(Some("70000")), 6700);
    assert_eq!(internal_port(None, 6700), 6701);
    assert_eq!(internal_port(Some("9"), 6700), 9);
    assert_eq!(internal_port(None, 65535), 65535);
    assert_eq!(plan_bind(true, None, 10), BindPlan::Must(11));
    assert_eq!(plan_bind(false, Some("7"), 10), BindPlan::Must(7));
    assert_eq!(plan_bind(false, Some(" "), 10), BindPlan::OrAny(11));
    assert!(may_take_any_port(None));
    assert!(!may_take_any_port(Some("")));
    assert_eq!(inner_base(6701), "http://127.0.0.1:6701");
}

#[test]
fn health_is_awaited() {
    assert_eq!(health_step(0, true), HealthStep::Ready);
    assert_eq!(health_step(48, false), HealthStep::Wait);
    assert_eq!(health_step(49, false), HealthStep::GiveUp);
}

#[test]
fn forwarded_headers() {
    assert!(should_strip_request_header("host"));
    assert!(should_strip_request_header("x-forwarded-for"));
    assert!(!should_strip_request_header("cookie"));
    assert!(keep_response_header("content-type", false));
    assert!(!keep_response_header("transfer-encoding", false));
    assert!(!keep_response_header("content-type", true));
}

#[test]
fn approval_guards_all_but_the_open() {
    let all = scopes();
    assert_eq!(all.len(), 31);
    assert_eq!((all[0].path, all[0].needs_approval), ("/", false));
    assert!(matches!(all[1].routes, Routes::Info) && all[1].path == "/api");
    assert_eq!((all[2].path, all[2].needs_approval), ("/api/auth", false));
    for s in &all {
        let open = matches!(s.routes, Routes::Info | Routes::Auth | Routes::Admin | Routes::Whitelist | Routes::Security);
        assert_eq!(s.needs_approval, !open);
    }
}

#[test]
fn sending_is_limited() {
    for s in &scopes() {
        if matches!(s.routes, Routes::Messages | Routes::Channels | Routes::Voice) {
            assert!(matches!(s.limit, Limit::Send));
        }
    }
    assert_eq!(layers().len(), 12);
    assert!(matches!(layers()[0], Layer::Compression));
    assert!(matches!(layers()[7], Layer::Csrf));
    assert!(matches!(layers()[8], Layer::OfficialClient));
    assert!(matches!(layers()[11], Layer::InternalProxy));
}

#[test]
fn start_of_the_service() {
    assert_eq!(ensure_indexes(&vec![true, false, false], true), Some(1));
    assert_eq!(ensure_indexes(&vec![true, false], false), None);
    assert_eq!(ensure_indexes(&vec![true], true), None);
    assert!(matches!(reconcile_note(1, 0, 0), ReconcileNote::Removed));
    assert!(matches!(reconcile_note(0, 2, 5), ReconcileNote::Removed));
    assert!(matches!(reconcile_note(0, 0, 5), ReconcileNote::UsageRebuilt));
    assert!(matches!(reconcile_note(0, 0, 0), ReconcileNote::Nothing));
    assert_eq!(whitelist_word(true), "enabled");
    assert_eq!(whitelist_word(false), "disabled");
}
