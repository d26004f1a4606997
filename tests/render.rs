use netcheck::render::{
    category_label, jitter_assessment, severity_counts, severity_marker, shown_logs,
    status_summary, timing_grade, LogLevel,
};
use netcheck::analysis::analyze_results;
use netcheck::types::{IssueCategory, IssueSeverity, OverallStatus};

#[test]
fn verdict_labels() {
    let (label, text) = status_summary(OverallStatus::Poor);
    assert_eq!(label, "POOR");
    assert_eq!(text, "Significant issues detected. Performance is degraded.");
    assert_eq!(status_summary(OverallStatus::Excellent).0, "EXCELLENT");
}

#[test]
fn severity_breakdown_of_empty_snapshot() {
    let (issues, _recs, _status) = analyze_results(&None, &None, &None, &None);
    assert_eq!(severity_counts(&issues), (2, 0, 2));
}

#[test]
fn markers_and_category_names() {
    assert_eq!(severity_marker(IssueSeverity::Warning), "[WARNING]");
    assert_eq!(category_label(IssueCategory::Routing), "Routing");
    assert_eq!(category_label(IssueCategory::Http), "HTTP");
}

#[test]
fn timing_grades_are_inclusive_at_limits() {
    assert_eq!(timing_grade(100_000, 100_000, 200_000), "Good");
    assert_eq!(timing_grade(100_001, 100_000, 200_000), "Acceptable");
    assert_eq!(timing_grade(200_000, 100_000, 200_000), "Acceptable");
    assert_eq!(timing_grade(200_001, 100_000, 200_000), "Slow");
}

#[test]
fn jitter_assessment_bands() {
    assert_eq!(jitter_assessment(29_999), "Excellent - Very stable connection");
    assert_eq!(jitter_assessment(30_000), "Good - Stable connection suitable for most applications");
    assert_eq!(jitter_assessment(99_999), "Acceptable - Some variation, may affect real-time applications");
    assert_eq!(jitter_assessment(100_000), "Poor - High variation, may cause issues with video calls and gaming");
}

#[test]
fn log_levels_ignore_letter_case_and_default_to_info() {
    assert_eq!(LogLevel::from_text("SUCCESS"), LogLevel::Success);
    assert_eq!(LogLevel::from_text("Warning"), LogLevel::Warning);
    assert_eq!(LogLevel::from_text("error"), LogLevel::Error);
    assert_eq!(LogLevel::from_text("Debug"), LogLevel::Debug);
    assert_eq!(LogLevel::from_text("verbose"), LogLevel::Info);
    assert_eq!(LogLevel::from_lowercase("Error"), LogLevel::Info);
    assert_eq!(LogLevel::Success.marker(), "[OK   ]");
    assert_eq!(LogLevel::Info.marker(), "[INFO ]");
}

#[test]
fn at_most_five_hundred_logs_are_shown() {
    assert_eq!(shown_logs(3), 3);
    assert_eq!(shown_logs(500), 500);
    assert_eq!(shown_logs(501), 500);
}
