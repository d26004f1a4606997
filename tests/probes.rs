use netcheck::dns::{cdn_from_lowercase, detect_cdn, dns_result_from_output};
use netcheck::routing::{parse_hop_line, routing_from_output};
use netcheck::stability::{sample_succeeded, summarize_samples};
use netcheck::target::{normalize_url, parse_domain};

#[test]
fn no_successful_samples_have_zero_timing() {
    let s = summarize_samples(10, &vec![]);
    assert_eq!(s.total_tests, 10);
    assert_eq!(s.successful_tests, 0);
    assert_eq!(s.min_time_us, 0);
    assert_eq!(s.avg_time_us, 0);
    assert_eq!(s.max_time_us, 0);
    assert_eq!(s.jitter_us, 0);
}

#[test]
fn samples_summary_min_avg_max_jitter() {
    let s = summarize_samples(10, &vec![100, 200, 300, 400]);
    assert_eq!(s.successful_tests, 4);
    assert_eq!(s.min_time_us, 100);
    assert_eq!(s.max_time_us, 400);
    assert_eq!(s.avg_time_us, 250);
    // |100-250| + |200-250| + |300-250| + |400-250| = 400, / 4
    assert_eq!(s.jitter_us, 100);
}

#[test]
fn sample_success_by_status_prefix() {
    assert!(sample_succeeded("200"));
    assert!(sample_succeeded("301"));
    assert!(!sample_succeeded("404"));
    assert!(!sample_succeeded("000"));
    assert!(!sample_succeeded(""));
}

#[test]
fn domain_from_target_with_and_without_scheme() {
    assert_eq!(parse_domain("https://example.com/path?q=1"), Ok("example.com".to_string()));
    assert_eq!(parse_domain("example.org"), Ok("example.org".to_string()));
    assert_eq!(parse_domain("http://Sub.Example.NET:8080/"), Ok("sub.example.net".to_string()));
    assert!(parse_domain("https://").is_err());
    assert!(parse_domain("exa mple.com").is_err());
}

#[test]
fn request_url_gets_https_when_no_scheme() {
    assert_eq!(normalize_url("example.com"), "https://example.com");
    assert_eq!(normalize_url("http://example.com"), "http://example.com");
}

#[test]
fn cdn_detection_lowercases_joined_names() {
    let ns = vec!["NS1.CLOUDFLARE.COM.".to_string(), "ns2.other.net.".to_string()];
    assert_eq!(detect_cdn(&ns), Some("Cloudflare".to_string()));
    let ns = vec!["ns-1.AwsDns-01.org.".to_string()];
    assert_eq!(detect_cdn(&ns), Some("AWS Route53".to_string()));
    let ns = vec!["ns1.example.net.".to_string()];
    assert_eq!(detect_cdn(&ns), None);
    assert_eq!(detect_cdn(&[]), None);
}

#[test]
fn cdn_from_lowercase_follows_order() {
    assert_eq!(cdn_from_lowercase("x.google.com y.azure-dns.com"), Some("Azure".to_string()));
    assert_eq!(cdn_from_lowercase("a.fastly.net"), Some("Fastly".to_string()));
    assert_eq!(cdn_from_lowercase("a1.akamai.net"), Some("Akamai".to_string()));
    assert_eq!(cdn_from_lowercase("ns.google.com"), Some("Google Cloud".to_string()));
    assert_eq!(cdn_from_lowercase("NS.GOOGLE.COM"), None);
}

#[test]
fn lookup_output_is_read_into_a_result() {
    let answer = "93.184.216.34\n;; comment\n\n  93.184.216.35  \n";
    let listing = "; <<>> DiG <<>>\nexample.com.\t\t3600\tIN\tA\t93.184.216.34\n";
    let ns = "a.iana-servers.net.\n\nb.iana-servers.net.\r\n";
    let r = dns_result_from_output("example.com", answer, 12_000, Some(listing), Some(ns));
    assert_eq!(r.domain, "example.com");
    assert_eq!(r.resolved_ips, vec!["93.184.216.34".to_string(), "93.184.216.35".to_string()]);
    assert_eq!(r.lookup_time_us, 12_000);
    assert_eq!(r.ttl, Some(3600));
    assert_eq!(
        r.nameservers,
        Some(vec!["a.iana-servers.net.".to_string(), "b.iana-servers.net.".to_string()])
    );
    assert_eq!(r.using_cdn, None);
}

#[test]
fn lookup_output_without_listing_or_names() {
    let r = dns_result_from_output("nowhere.invalid", "", 5_000, None, None);
    assert!(r.resolved_ips.is_empty());
    assert_eq!(r.ttl, None);
    assert_eq!(r.nameservers, None);
    assert_eq!(r.using_cdn, None);
    let r = dns_result_from_output("x.com", "1.2.3.4", 5_000, Some("x.com. abc IN A 1.2.3.4"), Some("ns1.cloudflare.com."));
    assert_eq!(r.ttl, None);
    assert_eq!(r.using_cdn, Some("Cloudflare".to_string()));
}

#[test]
fn hop_lines_are_read() {
    let h = parse_hop_line(" 1  192.168.1.1  0.512 ms").unwrap();
    assert_eq!(h.hop_number, 1);
    assert_eq!(h.ip_address, "192.168.1.1");
    assert_eq!(h.rtt_us, 512);
    assert_eq!(h.packet_loss_percent, 0);
    let h = parse_hop_line("12  * ").unwrap();
    assert_eq!(h.hop_number, 12);
    assert_eq!(h.ip_address, "*");
    assert_eq!(h.rtt_us, 0);
    assert_eq!(h.packet_loss_percent, 100);
    let h = parse_hop_line(" 3  10.0.0.1  15ms").unwrap();
    assert_eq!(h.rtt_us, 15_000);
    let h = parse_hop_line(" 4  10.0.0.2  7.25 kb").unwrap();
    assert_eq!(h.rtt_us, 0);
    assert!(parse_hop_line("traceroute to example.com (93.184.216.34), 15 hops max").is_none());
    assert!(parse_hop_line(" 5  10.0.0.3").is_none());
    assert!(parse_hop_line(" 6  *").is_none());
    let h = parse_hop_line("1 * 5 ms").unwrap();
    assert_eq!(h.ip_address, "*");
    assert_eq!(h.rtt_us, 0);
    assert_eq!(h.packet_loss_percent, 100);
}

#[test]
fn trace_output_skips_header_and_other_lines() {
    let out = "traceroute to example.com (93.184.216.34), 15 hops max\n 1  192.168.1.1  1.000 ms\n 2  * \n garbage\n 3  93.184.216.34  20.5 ms\n";
    let r = routing_from_output("93.184.216.34", out, 3_000_000);
    assert_eq!(r.target_ip, "93.184.216.34");
    assert_eq!(r.total_hops, 3);
    assert_eq!(r.hops.len(), 3);
    assert_eq!(r.hops[0].rtt_us, 1_000);
    assert_eq!(r.hops[1].ip_address, "*");
    assert_eq!(r.hops[2].hop_number, 3);
    assert_eq!(r.hops[2].rtt_us, 20_500);
    assert_eq!(r.total_time_us, 3_000_000);
    let r = routing_from_output("", "", 0);
    assert!(r.hops.is_empty());
    assert_eq!(r.total_hops, 0);
}
