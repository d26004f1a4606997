//! The values that a diagnostic run produces: probe outcomes, issues and the report.
//!
//! Durations are whole microseconds, so that every threshold rule compares integers.
use vstd::prelude::*;

verus! {

/// Status of one diagnostic step, as shown to whoever watches the progress.
#[derive(Debug, Clone, Copy, PartialEq, Eq, Structural)]
pub enum DiagnosticStatus {
    Pending,
    Running,
    Success,
    Warning,
    Error,
}

/// Outcome of resolving the target's name.
#[derive(Debug, Clone)]
pub struct DnsResult {
    pub domain: String,
    pub resolved_ips: Vec<String>,
    pub lookup_time_us: u64,
    pub ttl: Option<u32>,
    pub nameservers: Option<Vec<String>>,
    pub using_cdn: Option<String>,
}

/// Timing of one HTTP(S) request. Each time is cumulative from the start of the
/// request, so a phase on its own is the difference of two of them.
#[derive(Debug, Clone, Copy, PartialEq, Eq, Structural)]
pub struct TcpResult {
    pub dns_time_us: u64,
    pub connect_time_us: u64,
    pub ssl_time_us: u64,
    pub ttfb_us: u64,
    pub total_time_us: u64,
    /// Final response status; 0 when no response came.
    pub http_code: u16,
    pub download_speed_kbps: u64,
}

/// One hop of a traced path. A hop that did not answer has the address `*`,
/// a round trip of 0 and a loss of 100 percent.
#[derive(Debug, Clone)]
pub struct RouteHop {
    pub hop_number: u32,
    pub ip_address: String,
    pub hostname: Option<String>,
    pub rtt_us: u64,
    pub packet_loss_percent: u32,
}

/// Outcome of tracing the path to the target.
#[derive(Debug, Clone)]
pub struct RoutingResult {
    pub target_ip: String,
    pub hops: Vec<RouteHop>,
    pub total_hops: u32,
    pub total_time_us: u64,
}

/// Outcome of repeated requests to the target. The times cover the successful
/// samples only; with none of them, all of them are 0.
#[derive(Debug, Clone, Copy, PartialEq, Eq, Structural)]
pub struct StabilityResult {
    pub total_tests: u32,
    pub successful_tests: u32,
    pub min_time_us: u64,
    pub avg_time_us: u64,
    pub max_time_us: u64,
    pub jitter_us: u64,
}

impl StabilityResult {
    /// The counts agree, and a run with no successful sample has no timing.
    pub open spec fn well_formed(&self) -> bool {
        &&& self.successful_tests <= self.total_tests
        &&& self.successful_tests == 0 ==> {
            &&& self.min_time_us == 0
            &&& self.avg_time_us == 0
            &&& self.max_time_us == 0
            &&& self.jitter_us == 0
        }
        &&& self.successful_tests > 0 ==> self.min_time_us <= self.avg_time_us <= self.max_time_us
    }
}

/// How serious an issue is.
#[derive(Debug, Clone, Copy, PartialEq, Eq, Structural)]
pub enum IssueSeverity {
    Info,
    Warning,
    Error,
}

/// Which part of the connection an issue is about.
#[derive(Debug, Clone, Copy, PartialEq, Eq, Structural)]
pub enum IssueCategory {
    Dns,
    Tcp,
    Ssl,
    Routing,
    Stability,
    Http,
}

/// A detected problem, with what may cause it and what may help.
#[derive(Debug, Clone)]
pub struct DiagnosticIssue {
    pub category: IssueCategory,
    pub severity: IssueSeverity,
    pub title: String,
    pub description: String,
    pub possible_causes: Vec<String>,
    pub solutions: Vec<String>,
}

/// What an issue holds, with its texts as character sequences.
pub struct IssueView {
    pub category: IssueCategory,
    pub severity: IssueSeverity,
    pub title: Seq<char>,
    pub description: Seq<char>,
    pub possible_causes: Seq<Seq<char>>,
    pub solutions: Seq<Seq<char>>,
}

/// The texts of a sequence of strings.
pub open spec fn texts(v: Seq<String>) -> Seq<Seq<char>> {
    v.map_values(|s: String| s@)
}

impl View for DiagnosticIssue {
    type V = IssueView;

    open spec fn view(&self) -> IssueView {
        IssueView {
            category: self.category,
            severity: self.severity,
            title: self.title@,
            description: self.description@,
            possible_causes: texts(self.possible_causes@),
            solutions: texts(self.solutions@),
        }
    }
}

/// The views of a sequence of issues.
pub open spec fn issue_views(v: Seq<DiagnosticIssue>) -> Seq<IssueView> {
    v.map_values(|i: DiagnosticIssue| i@)
}

/// The verdict on the whole connection.
#[derive(Debug, Clone, Copy, PartialEq, Eq, Structural)]
pub enum OverallStatus {
    Excellent,
    Good,
    Acceptable,
    Poor,
    Failed,
}

/// Everything that one run learned, with the analysis of it.
#[derive(Debug, Clone)]
pub struct DiagnosticReport {
    pub target_url: String,
    pub timestamp: String,
    pub dns: Option<DnsResult>,
    pub tcp: Option<TcpResult>,
    pub routing: Option<RoutingResult>,
    pub stability: Option<StabilityResult>,
    pub overall_status: OverallStatus,
    pub issues: Vec<DiagnosticIssue>,
    pub recommendations: Vec<String>,
}

/// One progress notification: a step moved to a status.
#[derive(Debug, Clone)]
pub struct ProgressEvent {
    pub step: String,
    pub status: DiagnosticStatus,
    pub message: String,
}

/// What a progress event holds, with its texts as character sequences.
pub struct EventView {
    pub step: Seq<char>,
    pub status: DiagnosticStatus,
    pub message: Seq<char>,
}

impl View for ProgressEvent {
    type V = EventView;

    open spec fn view(&self) -> EventView {
        EventView { step: self.step@, status: self.status, message: self.message@ }
    }
}

/// The views of a sequence of progress events.
pub open spec fn event_views(v: Seq<ProgressEvent>) -> Seq<EventView> {
    v.map_values(|e: ProgressEvent| e@)
}

/// How one probe attempt ended.
#[derive(Debug, Clone)]
pub enum ProbeOutcome<T> {
    /// The probe returned a measurement.
    Completed(T),
    /// The probe reported an error, with its text.
    Failed(String),
    /// The bounded wait elapsed first.
    TimedOut,
}

} // verus!
