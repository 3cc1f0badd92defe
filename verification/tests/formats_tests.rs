//! Tests of format detection, the pattern analyzers and the report
//! statistics.

use camaleon::formats::{CsvAnalyzer, FileFormat, LogAnalyzer};
use camaleon::reports::summarize;

#[test]
fn test_file_format_detection() {
    assert_eq!(FileFormat::from_extension("csv"), FileFormat::Csv);
    assert_eq!(FileFormat::from_extension("log"), FileFormat::Log);
    assert_eq!(FileFormat::from_extension("txt"), FileFormat::Log);
    assert_eq!(FileFormat::from_extension("vmdk"), FileFormat::Vmdk);
    assert_eq!(FileFormat::from_extension("unknown"), FileFormat::Unknown);

    assert_eq!(FileFormat::from_path("test.csv"), FileFormat::Csv);
    assert_eq!(FileFormat::from_path("test.log"), FileFormat::Log);
    assert_eq!(FileFormat::from_path("test.vmdk"), FileFormat::Vmdk);
    assert_eq!(FileFormat::from_path("test"), FileFormat::Unknown);
}

#[test]
fn test_file_format_paths() {
    assert_eq!(FileFormat::from_path("/var/log/app.CSV"), FileFormat::Csv);
    assert_eq!(FileFormat::from_path("/var/log.d/notes"), FileFormat::Unknown);
    assert_eq!(FileFormat::from_path(".csv"), FileFormat::Unknown);
    assert_eq!(FileFormat::from_path("dir.csv/file"), FileFormat::Unknown);
}

fn row(fields: &[&str]) -> Vec<String> {
    fields.iter().map(|f| f.to_string()).collect()
}

#[test]
fn test_csv_analyzer() {
    // The parsed rows of a four-row table; the header row is not part of
    // the records.
    let rows = vec![
        row(&["1", "test1", "normal activity", "ok"]),
        row(&["2", "test2", "suspicious activity detected", "warning"]),
        row(&["3", "test3", "ransomware indicators found", "critical"]),
        row(&["4", "test4", "potential phishing attempt", "warning"]),
    ];

    let analyzer = CsvAnalyzer::new();
    let results = analyzer.analyze_rows(&rows);

    assert_eq!(results.len(), 3);

    let ransomware = results
        .iter()
        .find(|r| r.detection_type == "ransomware_indicator")
        .unwrap();
    assert_eq!(ransomware.severity, 9);
    assert!(ransomware.location.contains("row:3"));

    let phishing = results
        .iter()
        .find(|r| r.detection_type == "phishing_indicator")
        .unwrap();
    assert_eq!(phishing.severity, 7);
    assert!(phishing.location.contains("row:4"));

    let suspicious = results
        .iter()
        .find(|r| r.detection_type == "suspicious_activity")
        .unwrap();
    assert_eq!(suspicious.severity, 5);
    assert!(suspicious.location.contains("row:2"));
}

#[test]
fn test_csv_analyzer_empty() {
    let analyzer = CsvAnalyzer::new();
    let rows: Vec<Vec<String>> = Vec::new();
    assert_eq!(analyzer.analyze_rows(&rows).len(), 0);
}

#[test]
fn test_log_analyzer() {
    let lines: Vec<String> = vec![
        "2025-05-28 05:30:00 INFO: System started normally".to_string(),
        "2025-05-28 05:35:12 WARNING: Failed login attempt from 192.168.1.100".to_string(),
        "2025-05-28 05:36:45 ERROR: Multiple authentication failures, possible brute force attempt"
            .to_string(),
        "2025-05-28 05:40:22 CRITICAL: Suspicious activity detected, possible malware execution"
            .to_string(),
    ];

    let analyzer = LogAnalyzer::new();
    let results = analyzer.analyze_lines(&lines);

    assert!(results.len() >= 2);
    assert!(results
        .iter()
        .any(|r| r.detection_type == "brute_force_attempt"));
    assert!(results.iter().any(|r| r.detection_type == "auth_failure"));
    assert!(results
        .iter()
        .any(|r| r.detection_type == "malware_indicator"));
}

#[test]
fn test_log_analyzer_details() {
    let lines: Vec<String> = vec!["a backdoor was planted".to_string()];
    let analyzer = LogAnalyzer::new();
    let results = analyzer.analyze_lines(&lines);
    assert_eq!(results.len(), 1);
    let hit = &results[0];
    assert_eq!(hit.detection_type, "backdoor_indicator");
    assert_eq!(hit.location, "line:1");
    // The matched text comes from the regex, not from the argument handed
    // back whole.
    let matched = hit
        .details
        .iter()
        .find(|(k, _)| k == "matched_text")
        .map(|(_, v)| v.clone())
        .unwrap();
    assert_eq!(matched, "backdoor");
}

#[test]
fn test_report_score_exact() {
    let d = |t: &str, sev: u8| camaleon::formats::DetectionResult {
        detection_type: t.to_string(),
        severity: sev,
        location: "line:1".to_string(),
        details: Vec::new(),
        timestamp: 0,
    };
    let detections = vec![
        d("ransomware_indicator", 9),
        d("phishing_indicator", 7),
        d("noise", 2),
    ];
    let summary = summarize(&detections);
    assert_eq!(summary.high_count, 1);
    assert_eq!(summary.medium_count, 1);
    assert_eq!(summary.low_count, 1);
    // (10 + 5 + 2) / 3 rounds to 6; 100 less 6 is 94.
    assert_eq!(summary.score, 94);
    // High severity, ransomware and phishing each add two recommendations
    // to the two general ones.
    assert_eq!(summary.recommendations.len(), 8);
    // One stat per distinct type, with exact counts and averages.
    assert_eq!(summary.threat_stats.len(), 3);
    let ransomware = summary
        .threat_stats
        .iter()
        .find(|s| s.threat_type == "ransomware_indicator")
        .unwrap();
    assert_eq!(ransomware.count, 1);
    assert_eq!(ransomware.total_severity, 9);
    assert_eq!(ransomware.avg_severity, 9);
}

#[test]
fn test_report_score_empty() {
    let detections: Vec<camaleon::formats::DetectionResult> = Vec::new();
    let summary = summarize(&detections);
    assert_eq!(summary.score, 100);
    assert_eq!(summary.total_count, 0);
    // Only the two general recommendations remain.
    assert_eq!(summary.recommendations.len(), 2);
}
