use netcheck::analysis::{analyze_results, status_for_score};
use netcheck::types::{
    DiagnosticIssue, DnsResult, IssueCategory, IssueSeverity, OverallStatus, RouteHop,
    RoutingResult, StabilityResult, TcpResult,
};

fn dns_ok() -> DnsResult {
    DnsResult {
        domain: "example.com".to_string(),
        resolved_ips: vec!["93.184.216.34".to_string(), "93.184.216.35".to_string()],
        lookup_time_us: 50_000,
        ttl: Some(300),
        nameservers: None,
        using_cdn: None,
    }
}

fn tcp_ok() -> TcpResult {
    TcpResult {
        dns_time_us: 20_000,
        connect_time_us: 60_000,
        ssl_time_us: 120_000,
        ttfb_us: 200_000,
        total_time_us: 300_000,
        http_code: 200,
        download_speed_kbps: 500,
    }
}

fn hop(n: u32, ip: &str) -> RouteHop {
    RouteHop {
        hop_number: n,
        ip_address: ip.to_string(),
        hostname: None,
        rtt_us: if ip == "*" { 0 } else { 1_000 },
        packet_loss_percent: if ip == "*" { 100 } else { 0 },
    }
}

fn routing_with(ips: &[&str]) -> RoutingResult {
    let hops: Vec<RouteHop> = ips.iter().enumerate().map(|(i, ip)| hop(i as u32 + 1, ip)).collect();
    let total_hops = hops.len() as u32;
    RoutingResult { target_ip: "93.184.216.34".to_string(), hops, total_hops, total_time_us: 5_000_000 }
}

fn stability_ok() -> StabilityResult {
    StabilityResult {
        total_tests: 10,
        successful_tests: 10,
        min_time_us: 90_000,
        avg_time_us: 100_000,
        max_time_us: 110_000,
        jitter_us: 5_000,
    }
}

fn count(issues: &[DiagnosticIssue], c: IssueCategory, s: IssueSeverity) -> usize {
    issues.iter().filter(|i| i.category == c && i.severity == s).count()
}

#[test]
fn status_bands_for_sample_scores() {
    assert_eq!(status_for_score(95), OverallStatus::Excellent);
    assert_eq!(status_for_score(80), OverallStatus::Good);
    assert_eq!(status_for_score(60), OverallStatus::Acceptable);
    assert_eq!(status_for_score(30), OverallStatus::Poor);
    assert_eq!(status_for_score(10), OverallStatus::Failed);
}

#[test]
fn status_band_edges_and_out_of_range_scores() {
    assert_eq!(status_for_score(90), OverallStatus::Excellent);
    assert_eq!(status_for_score(89), OverallStatus::Good);
    assert_eq!(status_for_score(75), OverallStatus::Good);
    assert_eq!(status_for_score(74), OverallStatus::Acceptable);
    assert_eq!(status_for_score(50), OverallStatus::Acceptable);
    assert_eq!(status_for_score(49), OverallStatus::Poor);
    assert_eq!(status_for_score(25), OverallStatus::Poor);
    assert_eq!(status_for_score(24), OverallStatus::Failed);
    assert_eq!(status_for_score(-50), OverallStatus::Failed);
    assert_eq!(status_for_score(150), OverallStatus::Excellent);
}

#[test]
fn healthy_snapshot_is_excellent_with_one_all_clear_recommendation() {
    let (issues, recs, status) = analyze_results(
        &Some(dns_ok()),
        &Some(tcp_ok()),
        &Some(routing_with(&["10.0.0.1", "10.0.0.2"])),
        &Some(stability_ok()),
    );
    assert!(issues.is_empty());
    assert_eq!(
        recs,
        vec!["The connection to the website works well; no issues were detected.".to_string()]
    );
    assert_eq!(status, OverallStatus::Excellent);
}

#[test]
fn slow_total_time_gives_one_transport_warning_and_good() {
    let mut tcp = tcp_ok();
    tcp.total_time_us = 4_000_000;
    let (issues, _recs, status) = analyze_results(&Some(dns_ok()), &Some(tcp), &None, &None);
    assert_eq!(count(&issues, IssueCategory::Tcp, IssueSeverity::Warning), 1);
    let warning = issues
        .iter()
        .find(|i| i.category == IssueCategory::Tcp && i.severity == IssueSeverity::Warning)
        .unwrap();
    assert_eq!(warning.title, "Total time slow");
    assert_eq!(warning.description, "Total time: 4000ms (should be < 3000ms)");
    // 100 - 15 = 85
    assert_eq!(status, OverallStatus::Good);
}

#[test]
fn empty_snapshot_fails_with_issues_and_escalation() {
    let (issues, recs, status) = analyze_results(&None, &None, &None, &None);
    assert_eq!(status, OverallStatus::Failed);
    assert!(!issues.is_empty());
    assert_eq!(issues.len(), 4);
    assert_eq!(issues[0].title, "DNS check unavailable");
    assert_eq!(issues[1].title, "Connection check unavailable");
    assert_eq!(issues[2].title, "Path trace unavailable");
    assert_eq!(issues[3].title, "Stability check unavailable");
    assert!(recs.contains(
        &"The connection has many problems - consider using a VPN or contacting your ISP."
            .to_string()
    ));
}

#[test]
fn unresolved_name_costs_fifty_points() {
    let mut dns = dns_ok();
    dns.resolved_ips.clear();
    let (issues, recs, status) =
        analyze_results(&Some(dns), &Some(tcp_ok()), &Some(routing_with(&["10.0.0.1"])), &Some(stability_ok()));
    assert_eq!(count(&issues, IssueCategory::Dns, IssueSeverity::Error), 1);
    assert_eq!(issues.len(), 1);
    assert_eq!(issues[0].title, "DNS resolution failed");
    assert_eq!(issues[0].description, "No IP address found for domain example.com");
    assert_eq!(issues[0].possible_causes.len(), 3);
    assert_eq!(issues[0].solutions.len(), 3);
    // 100 - 50 = 50
    assert_eq!(status, OverallStatus::Acceptable);
    assert_eq!(
        recs,
        vec!["Consider switching the DNS server to 1.1.1.1 (Cloudflare) or 8.8.8.8 (Google).".to_string()]
    );
}

#[test]
fn slow_lookup_warns_and_names_first_address() {
    let mut dns = dns_ok();
    dns.lookup_time_us = 250_400;
    let (issues, _recs, status) =
        analyze_results(&Some(dns), &Some(tcp_ok()), &Some(routing_with(&["10.0.0.1"])), &Some(stability_ok()));
    assert_eq!(issues.len(), 1);
    assert_eq!(issues[0].severity, IssueSeverity::Warning);
    assert_eq!(issues[0].description, "DNS lookup time: 250ms (should be < 200ms)");
    assert_eq!(issues[0].solutions[1], "Add example.com to /etc/hosts with IP 93.184.216.34");
    assert_eq!(status, OverallStatus::Excellent);
}

#[test]
fn cdn_recommendation_comes_first() {
    let mut dns = dns_ok();
    dns.using_cdn = Some("Cloudflare".to_string());
    let (_issues, recs, _status) =
        analyze_results(&Some(dns), &Some(tcp_ok()), &Some(routing_with(&["10.0.0.1"])), &Some(stability_ok()));
    assert_eq!(recs.len(), 2);
    assert_eq!(recs[0], "Website uses CDN Cloudflare - a good sign for performance");
}

#[test]
fn no_response_is_a_transport_error_and_stops_other_transport_rules() {
    let mut tcp = tcp_ok();
    tcp.http_code = 0;
    tcp.total_time_us = 9_000_000;
    tcp.connect_time_us = 5_000_000;
    let (issues, recs, status) =
        analyze_results(&Some(dns_ok()), &Some(tcp), &Some(routing_with(&["10.0.0.1"])), &Some(stability_ok()));
    assert_eq!(issues.len(), 1);
    assert_eq!(issues[0].title, "TCP connection failed");
    assert_eq!(issues[0].possible_causes.len(), 4);
    assert_eq!(status, OverallStatus::Acceptable);
    assert_eq!(recs, vec!["Check the WiFi signal and consider using a LAN cable.".to_string()]);
}

#[test]
fn slow_connect_and_handshake_and_server_error_add_up() {
    let tcp = TcpResult {
        dns_time_us: 10_000,
        connect_time_us: 610_000,
        ssl_time_us: 1_200_000,
        ttfb_us: 1_300_000,
        total_time_us: 1_500_000,
        http_code: 503,
        download_speed_kbps: 10,
    };
    let (issues, recs, status) =
        analyze_results(&Some(dns_ok()), &Some(tcp), &Some(routing_with(&["10.0.0.1"])), &Some(stability_ok()));
    let titles: Vec<&str> = issues.iter().map(|i| i.title.as_str()).collect();
    assert_eq!(titles, vec!["TCP connect slow", "SSL handshake slow", "HTTP Error 503"]);
    assert_eq!(issues[0].description, "TCP connect time: 600ms (should be < 500ms)");
    assert_eq!(issues[1].description, "SSL handshake time: 590ms (should be < 500ms)");
    assert_eq!(issues[1].category, IssueCategory::Ssl);
    assert_eq!(issues[2].category, IssueCategory::Http);
    assert_eq!(issues[2].severity, IssueSeverity::Error);
    // 100 - 15 - 10 - 5 - 20 = 50
    assert_eq!(status, OverallStatus::Acceptable);
    assert_eq!(recs, vec!["Check the WiFi signal and consider using a LAN cable.".to_string()]);
}

#[test]
fn total_time_between_one_and_three_seconds_costs_five_without_issue() {
    let mut tcp = tcp_ok();
    tcp.total_time_us = 2_000_000;
    let mut dns = dns_ok();
    dns.lookup_time_us = 300_000;
    let (issues, _recs, status) =
        analyze_results(&Some(dns), &Some(tcp), &Some(routing_with(&["10.0.0.1"])), &Some(stability_ok()));
    assert_eq!(issues.len(), 1);
    // 100 - 10 - 5 = 85
    assert_eq!(status, OverallStatus::Good);
}

#[test]
fn client_error_warns_without_score_change() {
    let mut tcp = tcp_ok();
    tcp.http_code = 404;
    let (issues, _recs, status) =
        analyze_results(&Some(dns_ok()), &Some(tcp), &Some(routing_with(&["10.0.0.1"])), &Some(stability_ok()));
    assert_eq!(issues.len(), 1);
    assert_eq!(issues[0].title, "HTTP Error 404");
    assert_eq!(issues[0].severity, IssueSeverity::Warning);
    assert_eq!(status, OverallStatus::Excellent);
}

#[test]
fn silent_hops_and_long_paths() {
    let (issues, _recs, status) = analyze_results(
        &Some(dns_ok()),
        &Some(tcp_ok()),
        &Some(routing_with(&["10.0.0.1", "*", "*"])),
        &Some(stability_ok()),
    );
    assert_eq!(issues.len(), 1);
    assert_eq!(issues[0].title, "Many hops not responding");
    assert_eq!(issues[0].description, "67% of hops in the traceroute did not respond");
    assert_eq!(status, OverallStatus::Excellent);

    let ips: Vec<&str> = (0..21).map(|_| "10.0.0.1").collect();
    let (issues, _recs, status) =
        analyze_results(&Some(dns_ok()), &Some(tcp_ok()), &Some(routing_with(&ips)), &Some(stability_ok()));
    assert_eq!(issues.len(), 1);
    assert_eq!(issues[0].severity, IssueSeverity::Info);
    assert_eq!(issues[0].description, "21 hops to the destination (more than usual)");
    assert_eq!(status, OverallStatus::Excellent);

    let (issues, _recs, _status) =
        analyze_results(&Some(dns_ok()), &Some(tcp_ok()), &Some(routing_with(&["1.1.1.1", "*", "2.2.2.2", "3.3.3.3"])), &Some(stability_ok()));
    assert!(issues.is_empty());
}

#[test]
fn unstable_connection_and_packet_loss_and_jitter() {
    let mut s = stability_ok();
    s.successful_tests = 7;
    s.jitter_us = 150_000;
    let (issues, _recs, status) =
        analyze_results(&Some(dns_ok()), &Some(tcp_ok()), &Some(routing_with(&["10.0.0.1"])), &Some(s));
    assert_eq!(issues.len(), 2);
    assert_eq!(issues[0].title, "Unstable connection");
    assert_eq!(issues[0].description, "Only 70% of requests succeeded");
    assert_eq!(issues[1].title, "High jitter");
    assert_eq!(issues[1].description, "Response time variation: 150ms");
    // 100 - 30 - 5 = 65
    assert_eq!(status, OverallStatus::Acceptable);

    let mut s = stability_ok();
    s.successful_tests = 8;
    let (issues, _recs, status) =
        analyze_results(&Some(dns_ok()), &Some(tcp_ok()), &Some(routing_with(&["10.0.0.1"])), &Some(s));
    assert_eq!(issues.len(), 1);
    assert_eq!(issues[0].title, "Packet loss detected");
    assert_eq!(issues[0].description, "Success rate: 80%");
    assert_eq!(status, OverallStatus::Excellent);
}

#[test]
fn analysis_twice_gives_identical_output() {
    let mut tcp = tcp_ok();
    tcp.total_time_us = 3_500_000;
    let dns = Some(dns_ok());
    let tcp = Some(tcp);
    let routing = Some(routing_with(&["*", "*", "10.0.0.3"]));
    let stability = Some(stability_ok());
    let first = analyze_results(&dns, &tcp, &routing, &stability);
    let second = analyze_results(&dns, &tcp, &routing, &stability);
    assert_eq!(format!("{:?}", first), format!("{:?}", second));
}
