//! The wording that a rendered report uses for the analysis: labels for
//! verdicts, severities, categories and log levels, and grades for timings.
use vstd::prelude::*;
use crate::dns::{lower_of, lowercase};
use crate::types::{issue_views, DiagnosticIssue, IssueCategory, IssueSeverity, OverallStatus};

verus! {

/// The label and the one-line description of a verdict.
pub open spec fn status_words(status: OverallStatus) -> (Seq<char>, Seq<char>) {
    match status {
        OverallStatus::Excellent => (
            "EXCELLENT"@,
            "No issues detected. Network connection is optimal."@,
        ),
        OverallStatus::Good => ("GOOD"@, "Minor observations only. Connection is stable."@),
        OverallStatus::Acceptable => (
            "ACCEPTABLE"@,
            "Some areas need attention but connection works."@,
        ),
        OverallStatus::Poor => (
            "POOR"@,
            "Significant issues detected. Performance is degraded."@,
        ),
        OverallStatus::Failed => ("FAILED"@, "Critical problems require immediate action."@),
    }
}

/// The label and the one-line description of a verdict.
pub fn status_summary(status: OverallStatus) -> (r: (String, String))
    ensures
        (r.0@, r.1@) == status_words(status),
{
    match status {
        OverallStatus::Excellent => (
            String::from_str("EXCELLENT"),
            String::from_str("No issues detected. Network connection is optimal."),
        ),
        OverallStatus::Good => (
            String::from_str("GOOD"),
            String::from_str("Minor observations only. Connection is stable."),
        ),
        OverallStatus::Acceptable => (
            String::from_str("ACCEPTABLE"),
            String::from_str("Some areas need attention but connection works."),
        ),
        OverallStatus::Poor => (
            String::from_str("POOR"),
            String::from_str("Significant issues detected. Performance is degraded."),
        ),
        OverallStatus::Failed => (
            String::from_str("FAILED"),
            String::from_str("Critical problems require immediate action."),
        ),
    }
}

/// How many issues have the severity, whatever their category.
pub open spec fn severity_count(issues: Seq<crate::types::IssueView>, sev: IssueSeverity) -> nat
    decreases issues.len(),
{
    if issues.len() == 0 {
        0
    } else {
        severity_count(issues.drop_last(), sev) + (if issues.last().severity == sev {
            1nat
        } else {
            0
        })
    }
}

/// The number of errors, warnings and informational issues.
pub fn severity_counts(issues: &Vec<DiagnosticIssue>) -> (r: (usize, usize, usize))
    ensures
        r.0 == severity_count(issue_views(issues@), IssueSeverity::Error),
        r.1 == severity_count(issue_views(issues@), IssueSeverity::Warning),
        r.2 == severity_count(issue_views(issues@), IssueSeverity::Info),
{
    let mut errors: usize = 0;
    let mut warnings: usize = 0;
    let mut infos: usize = 0;
    let mut i: usize = 0;
    while i < issues.len()
        invariant
            0 <= i <= issues@.len(),
            errors == severity_count(issue_views(issues@.subrange(0, i as int)), IssueSeverity::Error),
            warnings == severity_count(
                issue_views(issues@.subrange(0, i as int)),
                IssueSeverity::Warning,
            ),
            infos == severity_count(issue_views(issues@.subrange(0, i as int)), IssueSeverity::Info),
            errors + warnings + infos == i,
        decreases issues@.len() - i,
    {
        assert(issue_views(issues@.subrange(0, i + 1)).drop_last() =~= issue_views(
            issues@.subrange(0, i as int),
        ));
        assert(issue_views(issues@.subrange(0, i + 1)).last() == issues@[i as int]@);
        match issues[i].severity {
            IssueSeverity::Error => errors = errors + 1,
            IssueSeverity::Warning => warnings = warnings + 1,
            IssueSeverity::Info => infos = infos + 1,
        }
        i = i + 1;
    }
    assert(issues@.subrange(0, issues@.len() as int) =~= issues@);
    (errors, warnings, infos)
}

/// The marker of a severity.
pub open spec fn severity_words(s: IssueSeverity) -> Seq<char> {
    match s {
        IssueSeverity::Error => "[ERROR]"@,
        IssueSeverity::Warning => "[WARNING]"@,
        IssueSeverity::Info => "[INFO]"@,
    }
}

/// The marker of a severity.
pub fn severity_marker(s: IssueSeverity) -> (r: String)
    ensures
        r@ == severity_words(s),
{
    match s {
        IssueSeverity::Error => String::from_str("[ERROR]"),
        IssueSeverity::Warning => String::from_str("[WARNING]"),
        IssueSeverity::Info => String::from_str("[INFO]"),
    }
}

/// The name of a category.
pub open spec fn category_words(c: IssueCategory) -> Seq<char> {
    match c {
        IssueCategory::Dns => "DNS"@,
        IssueCategory::Tcp => "TCP"@,
        IssueCategory::Ssl => "SSL"@,
        IssueCategory::Routing => "Routing"@,
        IssueCategory::Stability => "Stability"@,
        IssueCategory::Http => "HTTP"@,
    }
}

/// The name of a category.
pub fn category_label(c: IssueCategory) -> (r: String)
    ensures
        r@ == category_words(c),
{
    match c {
        IssueCategory::Dns => String::from_str("DNS"),
        IssueCategory::Tcp => String::from_str("TCP"),
        IssueCategory::Ssl => String::from_str("SSL"),
        IssueCategory::Routing => String::from_str("Routing"),
        IssueCategory::Stability => String::from_str("Stability"),
        IssueCategory::Http => String::from_str("HTTP"),
    }
}

/// The grade of a timing against two limits: up to `good_us` Good, up to
/// `warning_us` Acceptable, beyond that Slow.
pub open spec fn grade_words(value_us: u64, good_us: u64, warning_us: u64) -> Seq<char> {
    if value_us <= good_us {
        "Good"@
    } else if value_us <= warning_us {
        "Acceptable"@
    } else {
        "Slow"@
    }
}

/// The grade of a timing against two limits.
pub fn timing_grade(value_us: u64, good_us: u64, warning_us: u64) -> (r: String)
    ensures
        r@ == grade_words(value_us, good_us, warning_us),
{
    if value_us <= good_us {
        String::from_str("Good")
    } else if value_us <= warning_us {
        String::from_str("Acceptable")
    } else {
        String::from_str("Slow")
    }
}

/// The assessment of a jitter: under 30 ms excellent, under 50 ms good,
/// under 100 ms acceptable, else poor.
pub open spec fn jitter_words(jitter_us: u64) -> Seq<char> {
    if jitter_us < 30_000 {
        "Excellent - Very stable connection"@
    } else if jitter_us < 50_000 {
        "Good - Stable connection suitable for most applications"@
    } else if jitter_us < 100_000 {
        "Acceptable - Some variation, may affect real-time applications"@
    } else {
        "Poor - High variation, may cause issues with video calls and gaming"@
    }
}

/// The assessment of a jitter.
pub fn jitter_assessment(jitter_us: u64) -> (r: String)
    ensures
        r@ == jitter_words(jitter_us),
{
    if jitter_us < 30_000 {
        String::from_str("Excellent - Very stable connection")
    } else if jitter_us < 50_000 {
        String::from_str("Good - Stable connection suitable for most applications")
    } else if jitter_us < 100_000 {
        String::from_str("Acceptable - Some variation, may affect real-time applications")
    } else {
        String::from_str("Poor - High variation, may cause issues with video calls and gaming")
    }
}

/// The level of a trace log entry. Any text that names no other level is Info.
#[derive(Debug, Clone, Copy, PartialEq, Eq, Structural)]
pub enum LogLevel {
    Success,
    Warning,
    Error,
    Debug,
    Info,
}

/// The level that a lowercase level text names.
pub open spec fn level_named(lowered: Seq<char>) -> LogLevel {
    if lowered == "success"@ {
        LogLevel::Success
    } else if lowered == "warning"@ {
        LogLevel::Warning
    } else if lowered == "error"@ {
        LogLevel::Error
    } else if lowered == "debug"@ {
        LogLevel::Debug
    } else {
        LogLevel::Info
    }
}

fn same_text(a: &str, b: &str) -> (r: bool)
    ensures
        r == (a@ == b@),
{
    let n = a.unicode_len();
    if n != b.unicode_len() {
        return false;
    }
    let mut i: usize = 0;
    while i < n
        invariant
            n == a@.len(),
            n == b@.len(),
            0 <= i <= n,
            a@.subrange(0, i as int) == b@.subrange(0, i as int),
        decreases n - i,
    {
        if a.get_char(i) != b.get_char(i) {
            return false;
        }
        assert(a@.subrange(0, i + 1) =~= a@.subrange(0, i as int).push(a@[i as int]));
        assert(b@.subrange(0, i + 1) =~= b@.subrange(0, i as int).push(b@[i as int]));
        i = i + 1;
    }
    assert(a@ =~= a@.subrange(0, n as int));
    assert(b@ =~= b@.subrange(0, n as int));
    true
}

impl LogLevel {
    /// The level that a lowercase level text names.
    pub fn from_lowercase(lowered: &str) -> (r: LogLevel)
        ensures
            r == level_named(lowered@),
    {
        if same_text(lowered, "success") {
            LogLevel::Success
        } else if same_text(lowered, "warning") {
            LogLevel::Warning
        } else if same_text(lowered, "error") {
            LogLevel::Error
        } else if same_text(lowered, "debug") {
            LogLevel::Debug
        } else {
            LogLevel::Info
        }
    }

    /// The level that a level text names, in any letter case.
    pub fn from_text(level: &str) -> (r: LogLevel)
        ensures
            r == level_named(lower_of(level@)),
    {
        let lowered = lowercase(level);
        LogLevel::from_lowercase(lowered.as_str())
    }

    /// The fixed-width marker of the level.
    pub fn marker(&self) -> (r: String)
        ensures
            r@ == match *self {
                LogLevel::Success => "[OK   ]"@,
                LogLevel::Warning => "[WARN ]"@,
                LogLevel::Error => "[ERROR]"@,
                LogLevel::Debug => "[DEBUG]"@,
                LogLevel::Info => "[INFO ]"@,
            },
    {
        match self {
            LogLevel::Success => String::from_str("[OK   ]"),
            LogLevel::Warning => String::from_str("[WARN ]"),
            LogLevel::Error => String::from_str("[ERROR]"),
            LogLevel::Debug => String::from_str("[DEBUG]"),
            LogLevel::Info => String::from_str("[INFO ]"),
        }
    }
}

/// The most trace log entries that a report shows.
pub const MAX_SHOWN_LOGS: usize = 500;

/// How many of `n` trace log entries a report shows.
pub fn shown_logs(n: usize) -> (r: usize)
    ensures
        r == if n > MAX_SHOWN_LOGS {
            MAX_SHOWN_LOGS
        } else {
            n
        },
{
    if n > MAX_SHOWN_LOGS {
        MAX_SHOWN_LOGS
    } else {
        n
    }
}

} // verus!
