//! The bookkeeping of one diagnostic run. Resolution comes first; transport
//! timing, path tracing and stability sampling follow in parallel. The caller
//! performs each probe and hands its outcome here; each outcome fills its slot
//! once, yields the progress events to publish, and the report is assembled
//! only when all four have settled.
use vstd::prelude::*;
use crate::analysis::{analysis_outcome, analyze_results, count_silent_hops, silent_count};
use crate::issues::ms_text;
use crate::text::{
    append_decimal, append_signed, decimal, rounded_ms, rounded_percent, signed_decimal, whole_ms,
};
use crate::target::{domain_of, normalize_url, parse_domain, request_url};
use crate::types::{
    event_views, issue_views, texts, DiagnosticReport, DiagnosticStatus, DnsResult, EventView,
    ProbeOutcome, ProgressEvent, RoutingResult, StabilityResult, TcpResult,
};

verus! {

/// A progress event with the given parts.
pub open spec fn event(step: Seq<char>, status: DiagnosticStatus, message: Seq<char>) -> EventView {
    EventView { step, status, message }
}

/// The measurement that a probe outcome carries, if any.
pub open spec fn outcome_value<T>(o: ProbeOutcome<T>) -> Option<T> {
    match o {
        ProbeOutcome::Completed(v) => Some(v),
        _ => None,
    }
}

/// The events published before any probe runs: every step is pending, then
/// resolution starts.
pub open spec fn initial_events() -> Seq<EventView> {
    seq![
        event("resolution"@, DiagnosticStatus::Pending, "Waiting to start..."@),
        event("transport"@, DiagnosticStatus::Pending, "Waiting for DNS..."@),
        event("secure-channel"@, DiagnosticStatus::Pending, "Waiting for TCP..."@),
        event("http"@, DiagnosticStatus::Pending, "Waiting for SSL..."@),
        event("path"@, DiagnosticStatus::Pending, "Waiting for DNS..."@),
        event("stability"@, DiagnosticStatus::Pending, "Waiting for TCP..."@),
        event("resolution"@, DiagnosticStatus::Running, "Resolving DNS..."@),
    ]
}

/// The status of the resolution step for a completed lookup.
pub open spec fn dns_step_status(d: DnsResult) -> DiagnosticStatus {
    if d.resolved_ips@.len() == 0 {
        DiagnosticStatus::Error
    } else if d.lookup_time_us > 200_000 {
        DiagnosticStatus::Warning
    } else {
        DiagnosticStatus::Success
    }
}

/// The events published when resolution settles: its own result, then the
/// start of the three parallel probes.
pub open spec fn resolution_events(o: ProbeOutcome<DnsResult>) -> Seq<EventView> {
    seq![
        match o {
            ProbeOutcome::Completed(d) => event(
                "resolution"@,
                dns_step_status(d),
                "Found "@ + decimal(d.resolved_ips@.len()) + " IPs, lookup "@ + ms_text(
                    d.lookup_time_us as nat,
                ) + "ms"@,
            ),
            ProbeOutcome::Failed(e) => event("resolution"@, DiagnosticStatus::Error, "Error: "@ + e@),
            ProbeOutcome::TimedOut => event(
                "resolution"@,
                DiagnosticStatus::Error,
                "Timed out after 10 seconds"@,
            ),
        },
        event("transport"@, DiagnosticStatus::Running, "Checking TCP connection..."@),
        event("path"@, DiagnosticStatus::Running, "Running traceroute..."@),
        event("stability"@, DiagnosticStatus::Running, "Checking stability..."@),
    ]
}

/// The secure-channel step: an error when no handshake happened, a warning
/// when it took over 500 ms or when its measured time comes out negative.
pub open spec fn ssl_step_status(t: TcpResult) -> DiagnosticStatus {
    if t.ssl_time_us == 0 {
        DiagnosticStatus::Error
    } else if t.ssl_time_us - t.connect_time_us > 500_000 || t.ssl_time_us < t.connect_time_us {
        DiagnosticStatus::Warning
    } else {
        DiagnosticStatus::Success
    }
}

/// The HTTP step: success for 2xx and 3xx, a warning from 400 on, an error
/// otherwise.
pub open spec fn http_step_status(t: TcpResult) -> DiagnosticStatus {
    if 200 <= t.http_code < 400 {
        DiagnosticStatus::Success
    } else if t.http_code >= 400 {
        DiagnosticStatus::Warning
    } else {
        DiagnosticStatus::Error
    }
}

/// The transport step: a warning when the whole request took over 3000 ms.
pub open spec fn tcp_step_status(t: TcpResult) -> DiagnosticStatus {
    if t.total_time_us > 3_000_000 {
        DiagnosticStatus::Warning
    } else {
        DiagnosticStatus::Success
    }
}

/// The events published when the transport probe settles, for the
/// secure-channel, HTTP and transport steps, all derived from one measurement.
pub open spec fn transport_events(o: ProbeOutcome<TcpResult>) -> Seq<EventView> {
    match o {
        ProbeOutcome::Completed(t) => seq![
            event(
                "secure-channel"@,
                ssl_step_status(t),
                "SSL handshake: "@ + signed_decimal(
                    rounded_ms(t.ssl_time_us - t.connect_time_us),
                ) + "ms"@,
            ),
            event(
                "http"@,
                http_step_status(t),
                "HTTP "@ + decimal(t.http_code as nat) + ", total time: "@ + ms_text(
                    t.total_time_us as nat,
                ) + "ms"@,
            ),
            event(
                "transport"@,
                tcp_step_status(t),
                "Connect: "@ + ms_text(t.connect_time_us as nat) + "ms, TTFB: "@ + ms_text(
                    t.ttfb_us as nat,
                ) + "ms"@,
            ),
        ],
        ProbeOutcome::Failed(e) => seq![
            event("transport"@, DiagnosticStatus::Error, "Error: "@ + e@),
            event("secure-channel"@, DiagnosticStatus::Error, "Cannot check SSL"@),
            event("http"@, DiagnosticStatus::Error, "Cannot check HTTP"@),
        ],
        ProbeOutcome::TimedOut => seq![
            event("transport"@, DiagnosticStatus::Error, "Timed out after 30 seconds"@),
            event("secure-channel"@, DiagnosticStatus::Error, "Timed out"@),
            event("http"@, DiagnosticStatus::Error, "Timed out"@),
        ],
    }
}

/// The path step: a warning when more than half of the hops were silent.
pub open spec fn path_step_status(r: RoutingResult) -> DiagnosticStatus {
    let base = if r.hops@.len() == 0 {
        1
    } else {
        r.hops@.len()
    };
    if 2 * silent_count(r.hops@) > base {
        DiagnosticStatus::Warning
    } else {
        DiagnosticStatus::Success
    }
}

/// The event published when path tracing settles.
pub open spec fn path_events(o: ProbeOutcome<RoutingResult>) -> Seq<EventView> {
    seq![
        match o {
            ProbeOutcome::Completed(r) => event(
                "path"@,
                path_step_status(r),
                decimal(r.total_hops as nat) + " hops, "@ + ms_text(r.total_time_us as nat)
                    + "ms"@,
            ),
            ProbeOutcome::Failed(e) => event(
                "path"@,
                DiagnosticStatus::Warning,
                "Error: "@ + e@,
            ),
            ProbeOutcome::TimedOut => event(
                "path"@,
                DiagnosticStatus::Warning,
                "Timed out after 30 seconds"@,
            ),
        },
    ]
}

/// The stability step: success when every sample succeeded, a warning from
/// 80 percent on, an error below that or when no sample was taken.
pub open spec fn stability_step_status(s: StabilityResult) -> DiagnosticStatus {
    if s.total_tests > 0 && s.successful_tests >= s.total_tests {
        DiagnosticStatus::Success
    } else if s.total_tests > 0 && 5 * s.successful_tests >= 4 * s.total_tests {
        DiagnosticStatus::Warning
    } else {
        DiagnosticStatus::Error
    }
}

/// The success rate in whole percent; 0 when no sample was taken.
pub open spec fn success_percent(s: StabilityResult) -> nat {
    if s.total_tests == 0 {
        0
    } else {
        rounded_percent(s.successful_tests as nat, s.total_tests as nat)
    }
}

/// The event published when stability sampling settles.
pub open spec fn stability_events(o: ProbeOutcome<StabilityResult>) -> Seq<EventView> {
    seq![
        match o {
            ProbeOutcome::Completed(s) => event(
                "stability"@,
                stability_step_status(s),
                decimal(success_percent(s)) + "% success, avg "@ + ms_text(s.avg_time_us as nat)
                    + "ms, jitter "@ + ms_text(s.jitter_us as nat) + "ms"@,
            ),
            ProbeOutcome::Failed(e) => event(
                "stability"@,
                DiagnosticStatus::Warning,
                "Error: "@ + e@,
            ),
            ProbeOutcome::TimedOut => event(
                "stability"@,
                DiagnosticStatus::Warning,
                "Timed out after 30 seconds"@,
            ),
        },
    ]
}

fn make_event(step: &str, status: DiagnosticStatus, message: String) -> (r: ProgressEvent)
    ensures
        r@ == event(step@, status, message@),
{
    ProgressEvent { step: String::from_str(step), status, message }
}

fn push_event(events: &mut Vec<ProgressEvent>, e: ProgressEvent)
    ensures
        event_views(final(events)@) == event_views(old(events)@) + seq![e@],
{
    let ghost start = events@;
    events.push(e);
    assert(event_views(events@) =~= event_views(start) + seq![e@]);
}

fn error_message(e: &String) -> (r: String)
    ensures
        r@ == "Error: "@ + e@,
{
    let mut m = String::from_str("Error: ");
    m.append(e.as_str());
    m
}

/// Builds the events published before any probe runs.
pub fn start_events() -> (r: Vec<ProgressEvent>)
    ensures
        event_views(r@) == initial_events(),
{
    let mut v: Vec<ProgressEvent> = Vec::new();
    push_event(
        &mut v,
        make_event("resolution", DiagnosticStatus::Pending, String::from_str("Waiting to start...")),
    );
    push_event(
        &mut v,
        make_event("transport", DiagnosticStatus::Pending, String::from_str("Waiting for DNS...")),
    );
    push_event(
        &mut v,
        make_event("secure-channel", DiagnosticStatus::Pending, String::from_str("Waiting for TCP...")),
    );
    push_event(
        &mut v,
        make_event("http", DiagnosticStatus::Pending, String::from_str("Waiting for SSL...")),
    );
    push_event(
        &mut v,
        make_event("path", DiagnosticStatus::Pending, String::from_str("Waiting for DNS...")),
    );
    push_event(
        &mut v,
        make_event("stability", DiagnosticStatus::Pending, String::from_str("Waiting for TCP...")),
    );
    push_event(
        &mut v,
        make_event("resolution", DiagnosticStatus::Running, String::from_str("Resolving DNS...")),
    );
    assert(event_views(v@) =~= initial_events());
    v
}

/// The status of the resolution step for a completed lookup.
pub fn dns_status(d: &DnsResult) -> (r: DiagnosticStatus)
    ensures
        r == dns_step_status(*d),
{
    if d.resolved_ips.len() == 0 {
        DiagnosticStatus::Error
    } else if d.lookup_time_us > 200_000 {
        DiagnosticStatus::Warning
    } else {
        DiagnosticStatus::Success
    }
}

/// Builds the events published when resolution settles.
pub fn resolution_progress(o: &ProbeOutcome<DnsResult>) -> (r: Vec<ProgressEvent>)
    ensures
        event_views(r@) == resolution_events(*o),
{
    let mut v: Vec<ProgressEvent> = Vec::new();
    let first = match o {
        ProbeOutcome::Completed(d) => {
            let mut m = String::from_str("Found ");
            append_decimal(&mut m, d.resolved_ips.len() as u64);
            m.append(" IPs, lookup ");
            append_decimal(&mut m, whole_ms(d.lookup_time_us));
            m.append("ms");
            make_event("resolution", dns_status(d), m)
        },
        ProbeOutcome::Failed(e) => make_event("resolution", DiagnosticStatus::Error, error_message(e)),
        ProbeOutcome::TimedOut => make_event(
            "resolution",
            DiagnosticStatus::Error,
            String::from_str("Timed out after 10 seconds"),
        ),
    };
    push_event(&mut v, first);
    push_event(
        &mut v,
        make_event(
            "transport",
            DiagnosticStatus::Running,
            String::from_str("Checking TCP connection..."),
        ),
    );
    push_event(
        &mut v,
        make_event("path", DiagnosticStatus::Running, String::from_str("Running traceroute...")),
    );
    push_event(
        &mut v,
        make_event(
            "stability",
            DiagnosticStatus::Running,
            String::from_str("Checking stability..."),
        ),
    );
    assert(event_views(v@) =~= resolution_events(*o));
    v
}

/// Whole milliseconds of a signed duration in microseconds.
fn signed_ms(us: i128) -> (r: i64)
    requires
        -0x1_0000_0000_0000_0000 < us < 0x1_0000_0000_0000_0000,
    ensures
        r as int == rounded_ms(us as int),
{
    if us >= 0 {
        ((us + 500) / 1000) as i64
    } else {
        (0 - ((0 - us + 500) / 1000)) as i64
    }
}

/// Builds the events published when the transport probe settles.
pub fn transport_progress(o: &ProbeOutcome<TcpResult>) -> (r: Vec<ProgressEvent>)
    ensures
        event_views(r@) == transport_events(*o),
{
    let mut v: Vec<ProgressEvent> = Vec::new();
    match o {
        ProbeOutcome::Completed(t) => {
            let ssl_only: i128 = t.ssl_time_us as i128 - t.connect_time_us as i128;
            let ssl_status = if t.ssl_time_us == 0 {
                DiagnosticStatus::Error
            } else if ssl_only > 500_000 || ssl_only < 0 {
                DiagnosticStatus::Warning
            } else {
                DiagnosticStatus::Success
            };
            let mut m = String::from_str("SSL handshake: ");
            append_signed(&mut m, signed_ms(ssl_only));
            m.append("ms");
            push_event(&mut v, make_event("secure-channel", ssl_status, m));
            let http_status = if t.http_code >= 200 && t.http_code < 400 {
                DiagnosticStatus::Success
            } else if t.http_code >= 400 {
                DiagnosticStatus::Warning
            } else {
                DiagnosticStatus::Error
            };
            let mut m = String::from_str("HTTP ");
            append_decimal(&mut m, t.http_code as u64);
            m.append(", total time: ");
            append_decimal(&mut m, whole_ms(t.total_time_us));
            m.append("ms");
            push_event(&mut v, make_event("http", http_status, m));
            let tcp_status = if t.total_time_us > 3_000_000 {
                DiagnosticStatus::Warning
            } else {
                DiagnosticStatus::Success
            };
            let mut m = String::from_str("Connect: ");
            append_decimal(&mut m, whole_ms(t.connect_time_us));
            m.append("ms, TTFB: ");
            append_decimal(&mut m, whole_ms(t.ttfb_us));
            m.append("ms");
            push_event(&mut v, make_event("transport", tcp_status, m));
        },
        ProbeOutcome::Failed(e) => {
            push_event(&mut v, make_event("transport", DiagnosticStatus::Error, error_message(e)));
            push_event(
                &mut v,
                make_event("secure-channel", DiagnosticStatus::Error, String::from_str("Cannot check SSL")),
            );
            push_event(
                &mut v,
                make_event("http", DiagnosticStatus::Error, String::from_str("Cannot check HTTP")),
            );
        },
        ProbeOutcome::TimedOut => {
            push_event(
                &mut v,
                make_event(
                    "transport",
                    DiagnosticStatus::Error,
                    String::from_str("Timed out after 30 seconds"),
                ),
            );
            push_event(
                &mut v,
                make_event("secure-channel", DiagnosticStatus::Error, String::from_str("Timed out")),
            );
            push_event(
                &mut v,
                make_event("http", DiagnosticStatus::Error, String::from_str("Timed out")),
            );
        },
    }
    assert(event_views(v@) =~= transport_events(*o));
    v
}

/// Builds the event published when path tracing settles.
pub fn path_progress(o: &ProbeOutcome<RoutingResult>) -> (r: Vec<ProgressEvent>)
    ensures
        event_views(r@) == path_events(*o),
{
    let mut v: Vec<ProgressEvent> = Vec::new();
    let e = match o {
        ProbeOutcome::Completed(r) => {
            let silent = count_silent_hops(&r.hops);
            let base: usize = if r.hops.len() == 0 {
                1
            } else {
                r.hops.len()
            };
            let status = if 2 * (silent as u128) > base as u128 {
                DiagnosticStatus::Warning
            } else {
                DiagnosticStatus::Success
            };
            let mut m = String::new();
            append_decimal(&mut m, r.total_hops as u64);
            m.append(" hops, ");
            append_decimal(&mut m, whole_ms(r.total_time_us));
            m.append("ms");
            make_event("path", status, m)
        },
        ProbeOutcome::Failed(e) => make_event("path", DiagnosticStatus::Warning, error_message(e)),
        ProbeOutcome::TimedOut => make_event(
            "path",
            DiagnosticStatus::Warning,
            String::from_str("Timed out after 30 seconds"),
        ),
    };
    push_event(&mut v, e);
    assert(event_views(v@) =~= path_events(*o));
    v
}

/// Builds the event published when stability sampling settles.
pub fn stability_progress(o: &ProbeOutcome<StabilityResult>) -> (r: Vec<ProgressEvent>)
    ensures
        event_views(r@) == stability_events(*o),
{
    let mut v: Vec<ProgressEvent> = Vec::new();
    let e = match o {
        ProbeOutcome::Completed(s) => {
            let ok = s.successful_tests as u64;
            let all = s.total_tests as u64;
            let status = if all > 0 && ok >= all {
                DiagnosticStatus::Success
            } else if all > 0 && 5 * ok >= 4 * all {
                DiagnosticStatus::Warning
            } else {
                DiagnosticStatus::Error
            };
            let percent: u64 = if all == 0 {
                0
            } else {
                (200 * ok + all) / (2 * all)
            };
            let mut m = String::new();
            append_decimal(&mut m, percent);
            m.append("% success, avg ");
            append_decimal(&mut m, whole_ms(s.avg_time_us));
            m.append("ms, jitter ");
            append_decimal(&mut m, whole_ms(s.jitter_us));
            m.append("ms");
            make_event("stability", status, m)
        },
        ProbeOutcome::Failed(e) => make_event(
            "stability",
            DiagnosticStatus::Warning,
            error_message(e),
        ),
        ProbeOutcome::TimedOut => make_event(
            "stability",
            DiagnosticStatus::Warning,
            String::from_str("Timed out after 30 seconds"),
        ),
    };
    push_event(&mut v, e);
    assert(event_views(v@) =~= stability_events(*o));
    v
}

/// Combines the target, the time of the report and the four outcomes with
/// their analysis into one report.
pub fn assemble_report(
    target_url: String,
    timestamp: String,
    dns: Option<DnsResult>,
    tcp: Option<TcpResult>,
    routing: Option<RoutingResult>,
    stability: Option<StabilityResult>,
) -> (r: DiagnosticReport)
    ensures
        r.target_url == target_url,
        r.timestamp == timestamp,
        r.dns == dns,
        r.tcp == tcp,
        r.routing == routing,
        r.stability == stability,
        analysis_outcome(
            dns,
            tcp,
            routing,
            stability,
            issue_views(r.issues@),
            texts(r.recommendations@),
            r.overall_status,
        ),
{
    let (issues, recommendations, overall_status) = analyze_results(
        &dns,
        &tcp,
        &routing,
        &stability,
    );
    DiagnosticReport {
        target_url,
        timestamp,
        dns,
        tcp,
        routing,
        stability,
        overall_status,
        issues,
        recommendations,
    }
}

/// The state of a run: the target, and one slot per probe, each with whether
/// its probe has settled and what it measured.
pub struct RunView {
    pub target_url: Seq<char>,
    pub domain: Seq<char>,
    pub resolution: Option<Option<DnsResult>>,
    pub transport: Option<Option<TcpResult>>,
    pub path: Option<Option<RoutingResult>>,
    pub stability: Option<Option<StabilityResult>>,
}

/// One diagnostic run. Resolution settles first; the three other probes may
/// then settle in any order. Each slot is written once and never overwritten,
/// and the report is only assembled when all four have settled.
pub struct DiagnosticRun {
    target_url: String,
    domain: String,
    resolution: Option<Option<DnsResult>>,
    transport: Option<Option<TcpResult>>,
    path: Option<Option<RoutingResult>>,
    stability: Option<Option<StabilityResult>>,
}

impl View for DiagnosticRun {
    type V = RunView;

    closed spec fn view(&self) -> RunView {
        RunView {
            target_url: self.target_url@,
            domain: self.domain@,
            resolution: self.resolution,
            transport: self.transport,
            path: self.path,
            stability: self.stability,
        }
    }
}

/// The state after resolution settles with `o`; a second outcome changes nothing.
pub open spec fn with_resolution(v: RunView, o: ProbeOutcome<DnsResult>) -> RunView {
    if v.resolution is Some {
        v
    } else {
        RunView { resolution: Some(outcome_value(o)), ..v }
    }
}

/// The state after the transport probe settles with `o`; nothing changes
/// before resolution has settled or once the transport probe has.
pub open spec fn with_transport(v: RunView, o: ProbeOutcome<TcpResult>) -> RunView {
    if v.resolution is None || v.transport is Some {
        v
    } else {
        RunView { transport: Some(outcome_value(o)), ..v }
    }
}

/// The state after path tracing settles with `o`; nothing changes before
/// resolution has settled or once path tracing has.
pub open spec fn with_path(v: RunView, o: ProbeOutcome<RoutingResult>) -> RunView {
    if v.resolution is None || v.path is Some {
        v
    } else {
        RunView { path: Some(outcome_value(o)), ..v }
    }
}

/// The state after stability sampling settles with `o`; nothing changes
/// before resolution has settled or once sampling has.
pub open spec fn with_stability(v: RunView, o: ProbeOutcome<StabilityResult>) -> RunView {
    if v.resolution is None || v.stability is Some {
        v
    } else {
        RunView { stability: Some(outcome_value(o)), ..v }
    }
}

/// The three probes that follow resolution are independent: whatever order
/// their outcomes arrive in, the run ends in the same state, and once
/// resolution has settled that state has all four probes settled.
pub proof fn law_parallel_probes_settle_in_any_order(
    v: RunView,
    t: ProbeOutcome<TcpResult>,
    p: ProbeOutcome<RoutingResult>,
    s: ProbeOutcome<StabilityResult>,
)
    ensures
        with_path(with_transport(v, t), p) == with_transport(with_path(v, p), t),
        with_stability(with_transport(v, t), s) == with_transport(with_stability(v, s), t),
        with_stability(with_path(v, p), s) == with_path(with_stability(v, s), p),
        v.resolution is Some ==> {
            let done = with_stability(with_path(with_transport(v, t), p), s);
            &&& done.transport is Some
            &&& done.path is Some
            &&& done.stability is Some
        },
{
}

impl DiagnosticRun {
    /// Whether all four probes have settled.
    pub open spec fn settled(&self) -> bool {
        &&& self@.resolution is Some
        &&& self@.transport is Some
        &&& self@.path is Some
        &&& self@.stability is Some
    }

    /// Begins a run on a target, which may lack the scheme. Fails, before any
    /// probe and with the error of `parse_domain`, when no host name can be
    /// taken from it; otherwise returns the run, with no probe settled, and
    /// the events that open it.
    pub fn start(target: &str) -> (r: Result<(DiagnosticRun, Vec<ProgressEvent>), String>)
        ensures
            match domain_of(target@) {
                Ok(h) => (r matches Ok(p) && {
                    &&& p.0@.target_url == request_url(target@)
                    &&& p.0@.domain == h
                    &&& p.0@.resolution is None
                    &&& p.0@.transport is None
                    &&& p.0@.path is None
                    &&& p.0@.stability is None
                    &&& event_views(p.1@) == initial_events()
                }),
                Err(e) => (r matches Err(m) && m@ == e),
            },
    {
        let domain = match parse_domain(target) {
            Ok(d) => d,
            Err(e) => {
                return Err(e);
            },
        };
        let run = DiagnosticRun {
            target_url: normalize_url(target),
            domain,
            resolution: None,
            transport: None,
            path: None,
            stability: None,
        };
        Ok((run, start_events()))
    }

    /// The URL that the transport probe requests.
    pub fn target_url(&self) -> (r: &String)
        ensures
            r@ == self@.target_url,
    {
        &self.target_url
    }

    /// The host name that resolution, path tracing and sampling are run on.
    pub fn domain(&self) -> (r: &String)
        ensures
            r@ == self@.domain,
    {
        &self.domain
    }

    /// The address that path tracing aims at: the first resolved address, or
    /// the empty text when resolution found none or has not succeeded.
    pub fn target_address(&self) -> (r: String)
        ensures
            match self@.resolution {
                Some(Some(d)) => if d.resolved_ips@.len() > 0 {
                    r@ == d.resolved_ips@[0]@
                } else {
                    r@ == Seq::<char>::empty()
                },
                _ => r@ == Seq::<char>::empty(),
            },
    {
        match &self.resolution {
            Some(Some(d)) => {
                if d.resolved_ips.len() > 0 {
                    d.resolved_ips[0].clone()
                } else {
                    String::new()
                }
            },
            _ => String::new(),
        }
    }

    /// Records how resolution ended and returns the events to publish. Once
    /// resolution has settled, a second outcome is ignored.
    pub fn settle_resolution(&mut self, outcome: ProbeOutcome<DnsResult>) -> (r: Vec<
        ProgressEvent,
    >)
        ensures
            final(self)@ == with_resolution(old(self)@, outcome),
            event_views(r@) == (if final(self)@ == old(self)@ {
                Seq::<EventView>::empty()
            } else {
                resolution_events(outcome)
            }),
    {
        if self.resolution.is_some() {
            return Vec::new();
        }
        let events = resolution_progress(&outcome);
        self.resolution = Some(
            match outcome {
                ProbeOutcome::Completed(d) => Some(d),
                _ => None,
            },
        );
        events
    }

    /// Records how the transport probe ended and returns the events to
    /// publish. An outcome before resolution has settled, or after the
    /// transport probe has, is ignored.
    pub fn settle_transport(&mut self, outcome: ProbeOutcome<TcpResult>) -> (r: Vec<
        ProgressEvent,
    >)
        ensures
            final(self)@ == with_transport(old(self)@, outcome),
            event_views(r@) == (if final(self)@ == old(self)@ {
                Seq::<EventView>::empty()
            } else {
                transport_events(outcome)
            }),
    {
        if self.resolution.is_none() || self.transport.is_some() {
            return Vec::new();
        }
        let events = transport_progress(&outcome);
        self.transport = Some(
            match outcome {
                ProbeOutcome::Completed(t) => Some(t),
                _ => None,
            },
        );
        events
    }

    /// Records how path tracing ended and returns the events to publish. An
    /// outcome before resolution has settled, or after path tracing has, is
    /// ignored.
    pub fn settle_path(&mut self, outcome: ProbeOutcome<RoutingResult>) -> (r: Vec<
        ProgressEvent,
    >)
        ensures
            final(self)@ == with_path(old(self)@, outcome),
            event_views(r@) == (if final(self)@ == old(self)@ {
                Seq::<EventView>::empty()
            } else {
                path_events(outcome)
            }),
    {
        if self.resolution.is_none() || self.path.is_some() {
            return Vec::new();
        }
        let events = path_progress(&outcome);
        self.path = Some(
            match outcome {
                ProbeOutcome::Completed(p) => Some(p),
                _ => None,
            },
        );
        events
    }

    /// Records how stability sampling ended and returns the events to
    /// publish. An outcome before resolution has settled, or after sampling
    /// has, is ignored.
    pub fn settle_stability(&mut self, outcome: ProbeOutcome<StabilityResult>) -> (r: Vec<
        ProgressEvent,
    >)
        ensures
            final(self)@ == with_stability(old(self)@, outcome),
            event_views(r@) == (if final(self)@ == old(self)@ {
                Seq::<EventView>::empty()
            } else {
                stability_events(outcome)
            }),
    {
        if self.resolution.is_none() || self.stability.is_some() {
            return Vec::new();
        }
        let events = stability_progress(&outcome);
        self.stability = Some(
            match outcome {
                ProbeOutcome::Completed(s) => Some(s),
                _ => None,
            },
        );
        events
    }

    /// Whether all four probes have settled.
    pub fn is_settled(&self) -> (r: bool)
        ensures
            r == self.settled(),
    {
        self.resolution.is_some() && self.transport.is_some() && self.path.is_some()
            && self.stability.is_some()
    }

    /// The report of a run whose four probes have all settled, stamped with
    /// the given time; `None` while some probe has not settled.
    pub fn finish(self, timestamp: String) -> (r: Option<DiagnosticReport>)
        ensures
            !self.settled() ==> r is None,
            self.settled() ==> (r matches Some(rep) && {
                &&& rep.target_url@ == self@.target_url
                &&& rep.timestamp == timestamp
                &&& rep.dns == self@.resolution->0
                &&& rep.tcp == self@.transport->0
                &&& rep.routing == self@.path->0
                &&& rep.stability == self@.stability->0
                &&& analysis_outcome(
                    rep.dns,
                    rep.tcp,
                    rep.routing,
                    rep.stability,
                    issue_views(rep.issues@),
                    texts(rep.recommendations@),
                    rep.overall_status,
                )
            }),
    {
        match (self.resolution, self.transport, self.path, self.stability) {
            (Some(dns), Some(tcp), Some(routing), Some(stability)) => Some(
                assemble_report(self.target_url, timestamp, dns, tcp, routing, stability),
            ),
            _ => None,
        }
    }
}

} // verus!
