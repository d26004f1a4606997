//! The analysis engine: threshold rules per category, an additive score that
//! starts at 100, and the verdict that the score falls into.
use vstd::prelude::*;
use crate::issues::{
    dns_absent, dns_absent_issue, tcp_absent, tcp_absent_issue, routing_absent,
    routing_absent_issue, stability_absent, stability_absent_issue,
    all_clear_recommendation, cdn_recommendation, dns_recommendation, dns_slow, dns_slow_issue,
    dns_unresolved, dns_unresolved_issue, escalation_recommendation, high_jitter, http_client_error,
    http_client_error_issue, http_server_error, http_server_error_issue, jitter_issue,
    link_recommendation, many_hops, many_hops_issue, packet_loss, packet_loss_issue, silent_hops,
    silent_hops_issue, ssl_slow, ssl_slow_issue, tcp_failed, tcp_failed_issue, tcp_slow,
    tcp_slow_issue, total_slow, total_slow_issue, unstable, unstable_issue,
};
use crate::types::{
    IssueSeverity, issue_views, texts, DiagnosticIssue, DnsResult, IssueCategory, IssueView, OverallStatus,
    RouteHop, RoutingResult, StabilityResult, TcpResult,
};

verus! {

/// The verdict for a score. Every integer falls in exactly one band.
pub open spec fn status_of(score: int) -> OverallStatus {
    if score >= 90 {
        OverallStatus::Excellent
    } else if score >= 75 {
        OverallStatus::Good
    } else if score >= 50 {
        OverallStatus::Acceptable
    } else if score >= 25 {
        OverallStatus::Poor
    } else {
        OverallStatus::Failed
    }
}

// ---- name resolution ----

/// Resolution: no address is an error; a lookup over 200 ms a warning.
pub open spec fn dns_issues(d: DnsResult) -> Seq<IssueView> {
    if d.resolved_ips@.len() == 0 {
        seq![dns_unresolved_issue(d.domain@)]
    } else if d.lookup_time_us > 200_000 {
        seq![dns_slow_issue(d.domain@, d.resolved_ips@[0]@, d.lookup_time_us as nat)]
    } else {
        seq![]
    }
}

/// Resolution costs 50 points for no address, 10 for a slow lookup.
pub open spec fn dns_penalty(d: DnsResult) -> int {
    if d.resolved_ips@.len() == 0 {
        50
    } else if d.lookup_time_us > 200_000 {
        10
    } else {
        0
    }
}

// ---- transport ----

/// Time to establish the connection alone; negative if the measurements disagree.
pub open spec fn connect_only(t: TcpResult) -> int {
    t.connect_time_us - t.dns_time_us
}

/// Time of the secure-channel handshake alone; negative for a plain connection.
pub open spec fn ssl_only(t: TcpResult) -> int {
    t.ssl_time_us - t.connect_time_us
}

/// A connection that took over 500 ms to establish.
pub open spec fn connect_issues(t: TcpResult) -> Seq<IssueView> {
    if connect_only(t) > 500_000 {
        seq![tcp_slow_issue(connect_only(t) as nat)]
    } else {
        seq![]
    }
}

/// A handshake that took over 500 ms.
pub open spec fn ssl_issues(t: TcpResult) -> Seq<IssueView> {
    if ssl_only(t) > 500_000 {
        seq![ssl_slow_issue(ssl_only(t) as nat)]
    } else {
        seq![]
    }
}

/// A request that took over 3000 ms in all.
pub open spec fn total_issues(t: TcpResult) -> Seq<IssueView> {
    if t.total_time_us > 3_000_000 {
        seq![total_slow_issue(t.total_time_us as nat)]
    } else {
        seq![]
    }
}

/// A client-side (4xx) or server-side (5xx and above) status.
pub open spec fn http_issues(t: TcpResult) -> Seq<IssueView> {
    if 400 <= t.http_code < 500 {
        seq![http_client_error_issue(t.http_code as nat)]
    } else if t.http_code >= 500 {
        seq![http_server_error_issue(t.http_code as nat)]
    } else {
        seq![]
    }
}

/// Transport: no response at all is an error and ends the transport rules;
/// otherwise the connection, handshake, total time and status rules apply.
pub open spec fn tcp_issues(t: TcpResult) -> Seq<IssueView> {
    if t.http_code == 0 {
        seq![tcp_failed_issue()]
    } else {
        connect_issues(t) + ssl_issues(t) + total_issues(t) + http_issues(t)
    }
}

/// A total time over 1000 ms and up to 3000 ms costs 5 points with no issue.
pub open spec fn tcp_penalty(t: TcpResult) -> int {
    if t.http_code == 0 {
        50
    } else {
        (if connect_only(t) > 500_000 { 15int } else { 0 }) + (if ssl_only(t) > 500_000 {
            10int
        } else {
            0
        }) + (if t.total_time_us > 3_000_000 {
            15int
        } else if t.total_time_us > 1_000_000 {
            5
        } else {
            0
        }) + (if t.http_code >= 500 {
            20int
        } else {
            0
        })
    }
}

// ---- path ----

/// Whether a hop gave no answer.
pub open spec fn is_silent(h: RouteHop) -> bool {
    h.ip_address@ == "*"@
}

/// How many of the hops gave no answer.
pub open spec fn silent_count(hops: Seq<RouteHop>) -> nat
    decreases hops.len(),
{
    if hops.len() == 0 {
        0
    } else {
        silent_count(hops.drop_last()) + (if is_silent(hops.last()) {
            1nat
        } else {
            0
        })
    }
}

/// The number of hops that the share of silent hops is taken of.
pub open spec fn hop_base(r: RoutingResult) -> nat {
    if r.hops@.len() == 0 {
        1
    } else {
        r.hops@.len()
    }
}

/// More than 30 percent of the hops were silent.
pub open spec fn too_many_silent(r: RoutingResult) -> bool {
    10 * silent_count(r.hops@) > 3 * hop_base(r)
}

/// Path: too many silent hops is a warning, more than 20 hops a note.
pub open spec fn routing_issues(r: RoutingResult) -> Seq<IssueView> {
    (if too_many_silent(r) {
        seq![silent_hops_issue(rounded_percent_of_hops(r))]
    } else {
        seq![]
    }) + (if r.total_hops > 20 {
        seq![many_hops_issue(r.total_hops as nat)]
    } else {
        seq![]
    })
}

/// The share of silent hops in whole percent.
pub open spec fn rounded_percent_of_hops(r: RoutingResult) -> nat {
    crate::text::rounded_percent(silent_count(r.hops@), hop_base(r))
}

/// Path costs 5 points for more than 20 hops.
pub open spec fn routing_penalty(r: RoutingResult) -> int {
    if r.total_hops > 20 {
        5
    } else {
        0
    }
}

// ---- stability ----

/// Under 100 percent of the samples succeeded.
pub open spec fn some_failed(s: StabilityResult) -> bool {
    s.successful_tests < s.total_tests
}

/// Under 80 percent of the samples succeeded.
pub open spec fn mostly_failed(s: StabilityResult) -> bool {
    5 * s.successful_tests < 4 * s.total_tests
}

/// Stability: a low success rate, and high jitter.
pub open spec fn stability_issues(s: StabilityResult) -> Seq<IssueView> {
    (if some_failed(s) {
        if mostly_failed(s) {
            seq![unstable_issue(s.successful_tests as nat, s.total_tests as nat)]
        } else {
            seq![packet_loss_issue(s.successful_tests as nat, s.total_tests as nat)]
        }
    } else {
        seq![]
    }) + (if s.jitter_us > 100_000 {
        seq![jitter_issue(s.jitter_us as nat)]
    } else {
        seq![]
    })
}

/// Stability costs 30 points under 80 percent success, 10 under 100, and
/// 5 more for jitter over 100 ms.
pub open spec fn stability_penalty(s: StabilityResult) -> int {
    (if some_failed(s) {
        if mostly_failed(s) {
            30int
        } else {
            10
        }
    } else {
        0
    }) + (if s.jitter_us > 100_000 {
        5int
    } else {
        0
    })
}

// ---- the whole snapshot ----

/// The resolution issues, or the one that says the outcome is missing.
pub open spec fn dns_part(dns: Option<DnsResult>) -> Seq<IssueView> {
    match dns {
        Some(d) => dns_issues(d),
        None => seq![dns_absent_issue()],
    }
}

/// The transport issues, or the one that says the outcome is missing.
pub open spec fn tcp_part(tcp: Option<TcpResult>) -> Seq<IssueView> {
    match tcp {
        Some(t) => tcp_issues(t),
        None => seq![tcp_absent_issue()],
    }
}

/// The path issues, or the one that says the outcome is missing.
pub open spec fn routing_part(routing: Option<RoutingResult>) -> Seq<IssueView> {
    match routing {
        Some(r) => routing_issues(r),
        None => seq![routing_absent_issue()],
    }
}

/// The stability issues, or the one that says the outcome is missing.
pub open spec fn stability_part(stability: Option<StabilityResult>) -> Seq<IssueView> {
    match stability {
        Some(s) => stability_issues(s),
        None => seq![stability_absent_issue()],
    }
}

/// The deduction of every rule that fired. A missing resolution or transport
/// outcome costs 50 points, as a lookup or a request that failed outright does;
/// a missing path or stability outcome costs nothing.
pub open spec fn total_penalty(
    dns: Option<DnsResult>,
    tcp: Option<TcpResult>,
    routing: Option<RoutingResult>,
    stability: Option<StabilityResult>,
) -> int {
    (match dns {
        Some(d) => dns_penalty(d),
        None => 50,
    }) + (match tcp {
        Some(t) => tcp_penalty(t),
        None => 50,
    }) + (match routing {
        Some(r) => routing_penalty(r),
        None => 0,
    }) + (match stability {
        Some(s) => stability_penalty(s),
        None => 0,
    })
}

/// The issues of a snapshot, in rule order: resolution, transport, path, stability.
/// A missing outcome gives one issue that says so.
pub open spec fn spec_issues(
    dns: Option<DnsResult>,
    tcp: Option<TcpResult>,
    routing: Option<RoutingResult>,
    stability: Option<StabilityResult>,
) -> Seq<IssueView> {
    dns_part(dns) + tcp_part(tcp) + routing_part(routing) + stability_part(stability)
}

/// The score of a snapshot: 100 less every rule's deduction. It is not clamped.
pub open spec fn spec_score(
    dns: Option<DnsResult>,
    tcp: Option<TcpResult>,
    routing: Option<RoutingResult>,
    stability: Option<StabilityResult>,
) -> int {
    100 - total_penalty(dns, tcp, routing, stability)
}

/// Some issue has the category.
pub open spec fn has_category(issues: Seq<IssueView>, c: IssueCategory) -> bool {
    exists|i: int| 0 <= i < issues.len() && issues[i].category == c
}

/// A note on the content-delivery network, when resolution found one.
pub open spec fn cdn_recommendations(dns: Option<DnsResult>) -> Seq<Seq<char>> {
    match dns {
        Some(d) => match d.using_cdn {
            Some(c) => seq![cdn_recommendation(c@)],
            None => seq![],
        },
        None => seq![],
    }
}

/// The general recommendations, each given at most once.
pub open spec fn summary_recommendations(issues: Seq<IssueView>, score: int) -> Seq<Seq<char>> {
    if issues.len() == 0 {
        seq![all_clear_recommendation()]
    } else {
        (if has_category(issues, IssueCategory::Dns) {
            seq![dns_recommendation()]
        } else {
            seq![]
        }) + (if has_category(issues, IssueCategory::Tcp) || has_category(
            issues,
            IssueCategory::Stability,
        ) {
            seq![link_recommendation()]
        } else {
            seq![]
        }) + (if score < 50 {
            seq![escalation_recommendation()]
        } else {
            seq![]
        })
    }
}

/// The recommendations of a snapshot: the CDN note, then the general ones.
pub open spec fn spec_recommendations(
    dns: Option<DnsResult>,
    tcp: Option<TcpResult>,
    routing: Option<RoutingResult>,
    stability: Option<StabilityResult>,
) -> Seq<Seq<char>> {
    cdn_recommendations(dns) + summary_recommendations(
        spec_issues(dns, tcp, routing, stability),
        spec_score(dns, tcp, routing, stability),
    )
}

/// What the analysis of a snapshot returns: its issues, its recommendations and
/// the verdict on its score.
pub open spec fn analysis_outcome(
    dns: Option<DnsResult>,
    tcp: Option<TcpResult>,
    routing: Option<RoutingResult>,
    stability: Option<StabilityResult>,
    issues: Seq<IssueView>,
    recommendations: Seq<Seq<char>>,
    status: OverallStatus,
) -> bool {
    &&& issues == spec_issues(dns, tcp, routing, stability)
    &&& recommendations == spec_recommendations(dns, tcp, routing, stability)
    &&& status == status_of(spec_score(dns, tcp, routing, stability))
}

/// The verdict for a score: 90 and above Excellent, 75 Good, 50 Acceptable,
/// 25 Poor, below that Failed.
pub fn status_for_score(score: i32) -> (r: OverallStatus)
    ensures
        r == status_of(score as int),
{
    if score >= 90 {
        OverallStatus::Excellent
    } else if score >= 75 {
        OverallStatus::Good
    } else if score >= 50 {
        OverallStatus::Acceptable
    } else if score >= 25 {
        OverallStatus::Poor
    } else {
        OverallStatus::Failed
    }
}

fn push_issue(issues: &mut Vec<DiagnosticIssue>, issue: DiagnosticIssue)
    ensures
        issue_views(final(issues)@) == issue_views(old(issues)@) + seq![issue@],
{
    let ghost start = issues@;
    issues.push(issue);
    assert(issue_views(issues@) =~= issue_views(start) + seq![issue@]);
}

fn push_text(texts_out: &mut Vec<String>, s: String)
    ensures
        texts(final(texts_out)@) == texts(old(texts_out)@) + seq![s@],
{
    let ghost start = texts_out@;
    texts_out.push(s);
    assert(texts(texts_out@) =~= texts(start) + seq![s@]);
}

fn check_dns_rules(d: &DnsResult, issues: &mut Vec<DiagnosticIssue>) -> (penalty: i32)
    ensures
        issue_views(final(issues)@) == issue_views(old(issues)@) + dns_issues(*d),
        penalty == dns_penalty(*d),
{
    if d.resolved_ips.len() == 0 {
        push_issue(issues, dns_unresolved(&d.domain));
        50
    } else if d.lookup_time_us > 200_000 {
        push_issue(issues, dns_slow(&d.domain, &d.resolved_ips[0], d.lookup_time_us));
        10
    } else {
        assert(issue_views(issues@) =~= issue_views(old(issues)@) + dns_issues(*d));
        0
    }
}

fn check_tcp_rules(t: &TcpResult, issues: &mut Vec<DiagnosticIssue>) -> (penalty: i32)
    ensures
        issue_views(final(issues)@) == issue_views(old(issues)@) + tcp_issues(*t),
        penalty == tcp_penalty(*t),
{
    let ghost start = issue_views(issues@);
    if t.http_code == 0 {
        push_issue(issues, tcp_failed());
        return 50;
    }
    let mut penalty: i32 = 0;
    if t.connect_time_us > t.dns_time_us && t.connect_time_us - t.dns_time_us > 500_000 {
        push_issue(issues, tcp_slow(t.connect_time_us - t.dns_time_us));
        penalty = penalty + 15;
    }
    assert(issue_views(issues@) =~= start + connect_issues(*t));
    let ghost after_connect = issue_views(issues@);
    if t.ssl_time_us > t.connect_time_us && t.ssl_time_us - t.connect_time_us > 500_000 {
        push_issue(issues, ssl_slow(t.ssl_time_us - t.connect_time_us));
        penalty = penalty + 10;
    }
    assert(issue_views(issues@) =~= after_connect + ssl_issues(*t));
    let ghost after_ssl = issue_views(issues@);
    if t.total_time_us > 3_000_000 {
        push_issue(issues, total_slow(t.total_time_us));
        penalty = penalty + 15;
    } else if t.total_time_us > 1_000_000 {
        penalty = penalty + 5;
    }
    assert(issue_views(issues@) =~= after_ssl + total_issues(*t));
    let ghost after_total = issue_views(issues@);
    if t.http_code >= 400 && t.http_code < 500 {
        push_issue(issues, http_client_error(t.http_code));
    } else if t.http_code >= 500 {
        push_issue(issues, http_server_error(t.http_code));
        penalty = penalty + 20;
    }
    assert(issue_views(issues@) =~= after_total + http_issues(*t));
    assert(issue_views(issues@) =~= start + tcp_issues(*t));
    penalty
}

/// Counts the hops that gave no answer.
pub fn count_silent_hops(hops: &Vec<RouteHop>) -> (r: usize)
    ensures
        r == silent_count(hops@),
        r <= hops@.len(),
{
    let mut n: usize = 0;
    let mut i: usize = 0;
    while i < hops.len()
        invariant
            0 <= i <= hops.len(),
            n == silent_count(hops@.subrange(0, i as int)),
            n <= i,
        decreases hops.len() - i,
    {
        let silent = is_silent_address(&hops[i].ip_address);
        assert(hops@.subrange(0, i + 1).drop_last() =~= hops@.subrange(0, i as int));
        if silent {
            n = n + 1;
        }
        i = i + 1;
    }
    assert(hops@.subrange(0, hops.len() as int) =~= hops@);
    n
}

/// Whether an address is the sentinel `*` of a hop that gave no answer.
pub fn is_silent_address(ip: &String) -> (r: bool)
    ensures
        r == (ip@ == "*"@),
{
    proof {
        reveal_strlit("*");
    }
    let s = ip.as_str();
    if s.unicode_len() == 1 {
        let c = s.get_char(0);
        if c == '*' {
            assert(ip@ =~= "*"@);
        }
        c == '*'
    } else {
        false
    }
}

fn check_routing_rules(r: &RoutingResult, issues: &mut Vec<DiagnosticIssue>) -> (penalty: i32)
    ensures
        issue_views(final(issues)@) == issue_views(old(issues)@) + routing_issues(*r),
        penalty == routing_penalty(*r),
{
    let ghost start = issue_views(issues@);
    let silent = count_silent_hops(&r.hops);
    let base: usize = if r.hops.len() == 0 {
        1
    } else {
        r.hops.len()
    };
    if 10 * (silent as u128) > 3 * (base as u128) {
        push_issue(issues, silent_hops(crate::text::percent_of(silent as u64, base as u64)));
    }
    assert(issue_views(issues@) =~= start + (if too_many_silent(*r) {
        seq![silent_hops_issue(rounded_percent_of_hops(*r))]
    } else {
        seq![]
    }));
    let ghost middle = issue_views(issues@);
    let mut penalty: i32 = 0;
    if r.total_hops > 20 {
        push_issue(issues, many_hops(r.total_hops));
        penalty = 5;
    }
    assert(issue_views(issues@) =~= start + routing_issues(*r));
    penalty
}

fn check_stability_rules(s: &StabilityResult, issues: &mut Vec<DiagnosticIssue>) -> (penalty: i32)
    ensures
        issue_views(final(issues)@) == issue_views(old(issues)@) + stability_issues(*s),
        penalty == stability_penalty(*s),
{
    let ghost start = issue_views(issues@);
    let mut penalty: i32 = 0;
    if s.successful_tests < s.total_tests {
        if 5 * (s.successful_tests as u64) < 4 * (s.total_tests as u64) {
            push_issue(issues, unstable(s.successful_tests, s.total_tests));
            penalty = 30;
        } else {
            push_issue(issues, packet_loss(s.successful_tests, s.total_tests));
            penalty = 10;
        }
    }
    let ghost middle = issue_views(issues@);
    if s.jitter_us > 100_000 {
        push_issue(issues, high_jitter(s.jitter_us));
        penalty = penalty + 5;
    }
    assert(issue_views(issues@) =~= start + stability_issues(*s));
    penalty
}

/// Whether some issue has the category.
pub fn any_in_category(issues: &Vec<DiagnosticIssue>, c: IssueCategory) -> (r: bool)
    ensures
        r == has_category(issue_views(issues@), c),
{
    let mut i: usize = 0;
    while i < issues.len()
        invariant
            0 <= i <= issues.len(),
            forall|j: int| 0 <= j < i ==> #[trigger] issues@[j].category != c,
        decreases issues.len() - i,
    {
        if issues[i].category == c {
            assert(issue_views(issues@)[i as int].category == c);
            return true;
        }
        i = i + 1;
    }
    assert forall|j: int| 0 <= j < issue_views(issues@).len() implies #[trigger] issue_views(
        issues@,
    )[j].category != c by {
        assert(issues@[j].category != c);
    }
    false
}

fn collect_issues(
    dns: &Option<DnsResult>,
    tcp: &Option<TcpResult>,
    routing: &Option<RoutingResult>,
    stability: &Option<StabilityResult>,
    issues: &mut Vec<DiagnosticIssue>,
) -> (penalty: i32)
    requires
        old(issues)@.len() == 0,
    ensures
        issue_views(final(issues)@) == spec_issues(*dns, *tcp, *routing, *stability),
        penalty == total_penalty(*dns, *tcp, *routing, *stability),
{
    let mut penalty: i32 = 0;
    assert(issue_views(issues@) =~= seq![]);
    if let Some(d) = dns {
        penalty = penalty + check_dns_rules(d, issues);
    } else {
        push_issue(issues, dns_absent());
        penalty = penalty + 50;
    }
    assert(issue_views(issues@) =~= dns_part(*dns));
    if let Some(t) = tcp {
        penalty = penalty + check_tcp_rules(t, issues);
    } else {
        push_issue(issues, tcp_absent());
        penalty = penalty + 50;
    }
    assert(issue_views(issues@) =~= dns_part(*dns) + tcp_part(*tcp));
    if let Some(r) = routing {
        penalty = penalty + check_routing_rules(r, issues);
    } else {
        push_issue(issues, routing_absent());
    }
    assert(issue_views(issues@) =~= dns_part(*dns) + tcp_part(*tcp) + routing_part(*routing));
    if let Some(s) = stability {
        penalty = penalty + check_stability_rules(s, issues);
    } else {
        push_issue(issues, stability_absent());
    }
    assert(issue_views(issues@) =~= spec_issues(*dns, *tcp, *routing, *stability));
    penalty
}

fn add_summary(
    issues: &Vec<DiagnosticIssue>,
    score: i32,
    recommendations: &mut Vec<String>,
)
    ensures
        texts(final(recommendations)@) == texts(old(recommendations)@) + summary_recommendations(
            issue_views(issues@),
            score as int,
        ),
{
    let ghost start = texts(recommendations@);
    if issues.len() == 0 {
        push_text(
            recommendations,
            String::from_str("The connection to the website works well; no issues were detected."),
        );
    } else {
        if any_in_category(issues, IssueCategory::Dns) {
            push_text(
                recommendations,
                String::from_str(
                    "Consider switching the DNS server to 1.1.1.1 (Cloudflare) or 8.8.8.8 (Google).",
                ),
            );
        }
        if any_in_category(issues, IssueCategory::Tcp) || any_in_category(
            issues,
            IssueCategory::Stability,
        ) {
            push_text(
                recommendations,
                String::from_str("Check the WiFi signal and consider using a LAN cable."),
            );
        }
        if score < 50 {
            push_text(
                recommendations,
                String::from_str(
                    "The connection has many problems - consider using a VPN or contacting your ISP.",
                ),
            );
        }
    }
    assert(texts(recommendations@) =~= start + summary_recommendations(
        issue_views(issues@),
        score as int,
    ));
}

/// Applies every rule to the snapshot and returns the issues found, the
/// recommendations, and the verdict on the resulting score.
pub fn analyze_results(
    dns: &Option<DnsResult>,
    tcp: &Option<TcpResult>,
    routing: &Option<RoutingResult>,
    stability: &Option<StabilityResult>,
) -> (r: (Vec<DiagnosticIssue>, Vec<String>, OverallStatus))
    ensures
        analysis_outcome(*dns, *tcp, *routing, *stability, issue_views(r.0@), texts(r.1@), r.2),
{
    let mut issues: Vec<DiagnosticIssue> = Vec::new();
    let penalty = collect_issues(dns, tcp, routing, stability, &mut issues);
    let score: i32 = 100 - penalty;
    let mut recommendations: Vec<String> = Vec::new();
    assert(texts(recommendations@) =~= seq![]);
    if let Some(d) = dns {
        if let Some(cdn) = &d.using_cdn {
            let mut text = String::from_str("Website uses CDN ");
            text.append(cdn.as_str());
            text.append(" - a good sign for performance");
            push_text(&mut recommendations, text);
        }
    }
    assert(texts(recommendations@) =~= cdn_recommendations(*dns));
    add_summary(&issues, score, &mut recommendations);
    let status = status_for_score(score);
    (issues, recommendations, status)
}

/// How many issues have the category and the severity.
pub open spec fn count_of(issues: Seq<IssueView>, c: IssueCategory, sev: IssueSeverity) -> nat
    decreases issues.len(),
{
    if issues.len() == 0 {
        0
    } else {
        count_of(issues.drop_last(), c, sev) + (if issues.last().category == c
            && issues.last().severity == sev {
            1nat
        } else {
            0
        })
    }
}

proof fn lemma_count_concat(a: Seq<IssueView>, b: Seq<IssueView>, c: IssueCategory, sev: IssueSeverity)
    ensures
        count_of(a + b, c, sev) == count_of(a, c, sev) + count_of(b, c, sev),
    decreases b.len(),
{
    if b.len() == 0 {
        assert(a + b =~= a);
    } else {
        assert((a + b).drop_last() =~= a + b.drop_last());
        lemma_count_concat(a, b.drop_last(), c, sev);
    }
}

proof fn lemma_count_none(issues: Seq<IssueView>, c: IssueCategory, sev: IssueSeverity)
    requires
        forall|i: int| 0 <= i < issues.len() ==> #[trigger] issues[i].category != c,
    ensures
        count_of(issues, c, sev) == 0,
    decreases issues.len(),
{
    if issues.len() > 0 {
        lemma_count_none(issues.drop_last(), c, sev);
    }
}

/// A resolution outcome with no address gives exactly one resolution issue,
/// an error, and costs 50 points against a resolution outcome that raises no
/// issue, whatever the other three outcomes are.
pub proof fn law_unresolved_name_costs_fifty(
    dns: DnsResult,
    clean: DnsResult,
    tcp: Option<TcpResult>,
    routing: Option<RoutingResult>,
    stability: Option<StabilityResult>,
)
    requires
        dns.resolved_ips@.len() == 0,
        dns_issues(clean).len() == 0,
    ensures
        count_of(spec_issues(Some(dns), tcp, routing, stability), IssueCategory::Dns, IssueSeverity::Error) == 1,
        count_of(spec_issues(Some(dns), tcp, routing, stability), IssueCategory::Dns, IssueSeverity::Warning) == 0,
        count_of(spec_issues(Some(dns), tcp, routing, stability), IssueCategory::Dns, IssueSeverity::Info) == 0,
        spec_score(Some(dns), tcp, routing, stability) == spec_score(Some(clean), tcp, routing, stability) - 50,
{
    let rest = tcp_part(tcp) + routing_part(routing) + stability_part(stability);
    assert forall|i: int| 0 <= i < rest.len() implies #[trigger] rest[i].category
        != IssueCategory::Dns by {
        if let Some(tv) = tcp {
            if tv.http_code != 0 {
                let t = tcp_part(tcp);
                assert(t =~= connect_issues(tv) + ssl_issues(tv) + total_issues(tv) + http_issues(tv));
            }
        }
    }
    let first = dns_part(Some(dns));
    let all = first + rest;
    assert(spec_issues(Some(dns), tcp, routing, stability) =~= all);
    assert(first.drop_last() =~= Seq::<IssueView>::empty());
    assert(count_of(first.drop_last(), IssueCategory::Dns, IssueSeverity::Error) == 0);
    assert(count_of(first.drop_last(), IssueCategory::Dns, IssueSeverity::Warning) == 0);
    assert(count_of(first.drop_last(), IssueCategory::Dns, IssueSeverity::Info) == 0);
    lemma_count_concat(first, rest, IssueCategory::Dns, IssueSeverity::Error);
    lemma_count_none(rest, IssueCategory::Dns, IssueSeverity::Error);
    lemma_count_concat(first, rest, IssueCategory::Dns, IssueSeverity::Warning);
    lemma_count_none(rest, IssueCategory::Dns, IssueSeverity::Warning);
    lemma_count_concat(first, rest, IssueCategory::Dns, IssueSeverity::Info);
    lemma_count_none(rest, IssueCategory::Dns, IssueSeverity::Info);
}

/// The verdict bands do not overlap and cover every score: 90 and above is
/// Excellent, 75 to 89 Good, 50 to 74 Acceptable, 25 to 49 Poor, below 25 Failed.
pub proof fn law_status_bands(score: int)
    ensures
        (status_of(score) == OverallStatus::Excellent) == (score >= 90),
        (status_of(score) == OverallStatus::Good) == (75 <= score < 90),
        (status_of(score) == OverallStatus::Acceptable) == (50 <= score < 75),
        (status_of(score) == OverallStatus::Poor) == (25 <= score < 50),
        (status_of(score) == OverallStatus::Failed) == (score < 25),
{
}

/// The analysis is a function of the snapshot alone: two analyses of the same
/// snapshot give the same issues, the same recommendations and the same verdict.
pub proof fn law_analysis_is_pure(
    dns: Option<DnsResult>,
    tcp: Option<TcpResult>,
    routing: Option<RoutingResult>,
    stability: Option<StabilityResult>,
    issues1: Seq<IssueView>,
    recommendations1: Seq<Seq<char>>,
    status1: OverallStatus,
    issues2: Seq<IssueView>,
    recommendations2: Seq<Seq<char>>,
    status2: OverallStatus,
)
    requires
        analysis_outcome(dns, tcp, routing, stability, issues1, recommendations1, status1),
        analysis_outcome(dns, tcp, routing, stability, issues2, recommendations2, status2),
    ensures
        issues1 == issues2,
        recommendations1 == recommendations2,
        status1 == status2,
{
}

} // verus!
