use netcheck::scheduler::{
    assemble_report, path_progress, resolution_progress, stability_progress, start_events,
    transport_progress, DiagnosticRun,
};
use netcheck::types::{
    DiagnosticStatus, DnsResult, OverallStatus, ProbeOutcome, ProgressEvent, RoutingResult,
    StabilityResult, TcpResult,
};

fn dns_ok() -> DnsResult {
    DnsResult {
        domain: "example.com".to_string(),
        resolved_ips: vec!["93.184.216.34".to_string(), "93.184.216.35".to_string()],
        lookup_time_us: 50_000,
        ttl: None,
        nameservers: None,
        using_cdn: None,
    }
}

fn tcp_with(total_time_us: u64) -> TcpResult {
    TcpResult {
        dns_time_us: 20_000,
        connect_time_us: 60_000,
        ssl_time_us: 120_000,
        ttfb_us: 200_000,
        total_time_us,
        http_code: 200,
        download_speed_kbps: 500,
    }
}

fn step_status(events: &[ProgressEvent]) -> Vec<(String, DiagnosticStatus)> {
    events.iter().map(|e| (e.step.clone(), e.status)).collect()
}

#[test]
fn every_step_is_pending_before_probing() {
    let events = start_events();
    let steps: Vec<&str> = events.iter().take(6).map(|e| e.step.as_str()).collect();
    assert_eq!(steps, vec!["resolution", "transport", "secure-channel", "http", "path", "stability"]);
    assert!(events.iter().take(6).all(|e| e.status == DiagnosticStatus::Pending));
    assert_eq!(events[6].step, "resolution");
    assert_eq!(events[6].status, DiagnosticStatus::Running);
}

#[test]
fn resolution_progress_messages() {
    let e = resolution_progress(&ProbeOutcome::Completed(dns_ok()));
    assert_eq!(e[0].status, DiagnosticStatus::Success);
    assert_eq!(e[0].message, "Found 2 IPs, lookup 50ms");
    assert_eq!(
        step_status(&e[1..]),
        vec![
            ("transport".to_string(), DiagnosticStatus::Running),
            ("path".to_string(), DiagnosticStatus::Running),
            ("stability".to_string(), DiagnosticStatus::Running),
        ]
    );
    let e = resolution_progress(&ProbeOutcome::Failed("dig not found".to_string()));
    assert_eq!(e[0].status, DiagnosticStatus::Error);
    assert_eq!(e[0].message, "Error: dig not found");
    let e = resolution_progress(&ProbeOutcome::TimedOut);
    assert_eq!(e[0].message, "Timed out after 10 seconds");
}

#[test]
fn transport_progress_derives_three_steps() {
    let e = transport_progress(&ProbeOutcome::Completed(tcp_with(3_500_000)));
    assert_eq!(
        step_status(&e),
        vec![
            ("secure-channel".to_string(), DiagnosticStatus::Success),
            ("http".to_string(), DiagnosticStatus::Success),
            ("transport".to_string(), DiagnosticStatus::Warning),
        ]
    );
    assert_eq!(e[0].message, "SSL handshake: 60ms");
    assert_eq!(e[1].message, "HTTP 200, total time: 3500ms");
    assert_eq!(e[2].message, "Connect: 60ms, TTFB: 200ms");

    let mut plain = tcp_with(100_000);
    plain.ssl_time_us = 0;
    plain.http_code = 404;
    let e = transport_progress(&ProbeOutcome::Completed(plain));
    assert_eq!(e[0].status, DiagnosticStatus::Error);
    assert_eq!(e[0].message, "SSL handshake: -60ms");
    assert_eq!(e[1].status, DiagnosticStatus::Warning);

    let mut inverted = tcp_with(100_000);
    inverted.ssl_time_us = 40_000;
    let e = transport_progress(&ProbeOutcome::Completed(inverted));
    assert_eq!(e[0].status, DiagnosticStatus::Warning);
    assert_eq!(e[0].message, "SSL handshake: -20ms");

    let e = transport_progress(&ProbeOutcome::TimedOut);
    assert_eq!(
        step_status(&e),
        vec![
            ("transport".to_string(), DiagnosticStatus::Error),
            ("secure-channel".to_string(), DiagnosticStatus::Error),
            ("http".to_string(), DiagnosticStatus::Error),
        ]
    );
    assert_eq!(e[0].message, "Timed out after 30 seconds");
}

#[test]
fn path_and_stability_failures_are_warnings() {
    let e = path_progress(&ProbeOutcome::Failed("no traceroute".to_string()));
    assert_eq!(e[0].status, DiagnosticStatus::Warning);
    assert_eq!(e[0].message, "Error: no traceroute");
    let e = stability_progress(&ProbeOutcome::TimedOut);
    assert_eq!(e[0].status, DiagnosticStatus::Warning);
    let s = StabilityResult {
        total_tests: 10,
        successful_tests: 9,
        min_time_us: 1_000,
        avg_time_us: 2_000,
        max_time_us: 3_000,
        jitter_us: 500,
    };
    let e = stability_progress(&ProbeOutcome::Completed(s));
    assert_eq!(e[0].status, DiagnosticStatus::Warning);
    assert_eq!(e[0].message, "90% success, avg 2ms, jitter 1ms");
    let r = RoutingResult { target_ip: String::new(), hops: vec![], total_hops: 0, total_time_us: 1_500 };
    let e = path_progress(&ProbeOutcome::Completed(r));
    assert_eq!(e[0].status, DiagnosticStatus::Success);
    assert_eq!(e[0].message, "0 hops, 2ms");
}

#[test]
fn run_settles_each_slot_once_and_reports_when_all_settled() {
    let (mut run, events) = DiagnosticRun::start("example.com").unwrap();
    assert_eq!(events.len(), 7);
    assert_eq!(run.target_url(), "https://example.com");
    assert_eq!(run.domain(), "example.com");
    assert_eq!(run.target_address(), "");

    // Nothing of phase two is taken before resolution settles.
    assert!(run.settle_transport(ProbeOutcome::TimedOut).is_empty());

    let e = run.settle_resolution(ProbeOutcome::Completed(dns_ok()));
    assert_eq!(e.len(), 4);
    assert_eq!(run.target_address(), "93.184.216.34");
    assert!(run.settle_resolution(ProbeOutcome::TimedOut).is_empty());
    assert_eq!(run.target_address(), "93.184.216.34");

    assert_eq!(run.settle_path(ProbeOutcome::TimedOut).len(), 1);
    assert!(!run.is_settled());
    assert_eq!(run.settle_transport(ProbeOutcome::Completed(tcp_with(4_000_000))).len(), 3);
    assert!(run.settle_transport(ProbeOutcome::TimedOut).is_empty());
    assert_eq!(run.settle_stability(ProbeOutcome::Failed("x".to_string())).len(), 1);
    assert!(run.is_settled());

    let report = run.finish("2024-01-01 00:00:00 UTC".to_string()).unwrap();
    assert_eq!(report.target_url, "https://example.com");
    assert_eq!(report.timestamp, "2024-01-01 00:00:00 UTC");
    assert!(report.dns.is_some());
    assert_eq!(report.tcp.unwrap().total_time_us, 4_000_000);
    assert!(report.routing.is_none());
    assert!(report.stability.is_none());
    // 100 - 15: path and stability absences are informational only.
    assert_eq!(report.overall_status, OverallStatus::Good);
    assert_eq!(report.issues.len(), 3);
}

#[test]
fn unfinished_run_gives_no_report() {
    let (run, _events) = DiagnosticRun::start("https://example.com/x").unwrap();
    assert!(run.finish("t".to_string()).is_none());
}

#[test]
fn malformed_target_fails_before_probing() {
    match DiagnosticRun::start("http://") {
        Err(e) => assert_eq!(e, "empty host"),
        Ok(_) => panic!("a target without a host must be refused"),
    }
}

#[test]
fn assembled_report_carries_its_inputs() {
    let r = assemble_report("https://a.b".to_string(), "now".to_string(), None, None, None, None);
    assert_eq!(r.target_url, "https://a.b");
    assert_eq!(r.overall_status, OverallStatus::Failed);
    assert_eq!(r.issues.len(), 4);
}
