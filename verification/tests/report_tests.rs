use grand_eden_launcher::json::Json;
use grand_eden_launcher::game::{debug_args_text, early_exit_report, launch_precheck};
use grand_eden_launcher::inventory::{inventory_totals, inventory_url, FileInfo};
use grand_eden_launcher::progress::{
    archive_url, download_failure, latest_revision, revision_current, revision_url, downloading_message, extracting_message,
    extraction_progress_message, known_archive_size_mb, should_report_download,
    should_report_extraction,
};

#[test]
fn known_sizes() {
    assert_eq!(known_archive_size_mb("java.zip"), 42);
    assert_eq!(known_archive_size_mb("version.zip"), 1900);
    assert_eq!(known_archive_size_mb("other.zip"), 0);
}

#[test]
fn download_reports_every_half_mebibyte() {
    assert!(should_report_download(524288, 1000, 10));
    assert!(should_report_download(524288 + 999, 1000, 10));
    assert!(!should_report_download(524288 + 1000, 1000, 10));
    assert!(!should_report_download(524288, 1000, 0));
    assert!(!should_report_download(100, 100, 1));
}

#[test]
fn extraction_reports_first_hundredths_and_last() {
    assert!(should_report_extraction(0, 5));
    assert!(!should_report_extraction(1, 5));
    assert!(should_report_extraction(4, 5));
    assert!(should_report_extraction(200, 1000));
    assert!(!should_report_extraction(201, 1000));
    assert!(should_report_extraction(999, 1000));
}

#[test]
fn messages_and_urls() {
    assert_eq!(archive_url("java.zip"), "https://github.com/supminer/ed-launcher/raw/main/java.zip");
    assert_eq!(
        revision_url("version.zip"),
        "https://api.github.com/repos/supminer/ed-launcher/commits?sha=main&path=version.zip&per_page=1"
    );
    assert_eq!(inventory_url(), "http://46.42.3.254:25566/api/inventory");
    assert_eq!(downloading_message("version.zip"), "Downloading version.zip...");
    assert_eq!(download_failure("java.zip", "HTTP 404 Not Found"), "Failed to download java.zip: HTTP 404 Not Found");
    assert_eq!(extracting_message("java.zip"), "Extracting java.zip...");
    assert_eq!(extraction_progress_message("java.zip", 99, 250), "Extracting java.zip... (100/250)");
}

#[test]
fn precheck_names_missing_file() {
    assert_eq!(launch_precheck(true, true), Ok(()));
    assert_eq!(launch_precheck(false, false), Err("Java not found. Download game files first.".to_string()));
    assert_eq!(launch_precheck(true, false), Err("Forge files not found. Download game files first.".to_string()));
}

#[test]
fn debug_text_and_exit_report() {
    let args = vec!["-Xmx1m".to_string(), "Main".to_string()];
    assert_eq!(debug_args_text(&args), "-Xmx1m Main\n");
    assert_eq!(debug_args_text(&vec![]), "\n");
    assert_eq!(
        early_exit_report("exit status: 1", "a\nb\n"),
        "Game exited immediately with status: exit status: 1. Last log lines:\nb\na"
    );
}

#[test]
fn inventory_totals_sum_sizes() {
    let files = vec![
        FileInfo { path: "mods/a.jar".to_string(), size: 10 },
        FileInfo { path: "config/b.toml".to_string(), size: 32 },
    ];
    assert_eq!(inventory_totals(&files), (42, 2));
    assert_eq!(inventory_totals(&vec![]), (0, 0));
}

#[test]
fn published_revision_and_currency() {
    let answer = Json::Array(vec![Json::Object(vec![
        ("sha".to_string(), Json::Str("abc123".to_string())),
        ("url".to_string(), Json::Str("u".to_string())),
    ])]);
    assert_eq!(latest_revision(&answer), Some("abc123".to_string()));
    assert_eq!(latest_revision(&Json::Array(vec![])), None);
    assert_eq!(latest_revision(&Json::Object(vec![("message".to_string(), Json::Str("rate limit".to_string()))])), None);
    assert!(revision_current(Some("abc123"), Some("abc123")));
    assert!(!revision_current(Some("old"), Some("abc123")));
    assert!(!revision_current(None, Some("abc123")));
    assert!(revision_current(None, None));
    assert!(revision_current(Some("old"), None));
}
