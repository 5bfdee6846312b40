use sast_readium::files::{
    import_result_from_content, render_export_data, sort_files_by_modified_desc,
    valid_new_file_name, FileMetadata,
};
use sast_readium::usage::{apply_usage_update, AIUsageStats};

fn file(name: &str, modified_at: Option<u64>) -> FileMetadata {
    FileMetadata {
        path: format!("/tmp/{}", name),
        name: name.to_string(),
        size: 1,
        modified_at,
        created_at: None,
    }
}

#[test]
fn apply_usage_update_updates_totals_and_provider_stats() {
    let mut stats = AIUsageStats::default();
    apply_usage_update(&mut stats, "openai", 100, 50, Some(10), 12345);

    assert_eq!(stats.total_tokens, 150);
    assert_eq!(stats.total_requests, 1);
    assert_eq!(stats.input_tokens, 100);
    assert_eq!(stats.output_tokens, 50);
    assert_eq!(stats.cached_tokens, 10);
    assert_eq!(stats.first_request_at, Some(12345));
    assert_eq!(stats.last_request_at, Some(12345));

    let provider_stats = stats.provider_stats_for("openai").unwrap();
    assert_eq!(provider_stats.total_tokens, 150);
    assert_eq!(provider_stats.total_requests, 1);
}

#[test]
fn apply_usage_update_accumulates_per_provider() {
    let mut stats = AIUsageStats::default();
    apply_usage_update(&mut stats, "openai", 10, 5, None, 100);
    apply_usage_update(&mut stats, "anthropic", 1, 1, None, 200);
    apply_usage_update(&mut stats, "openai", 20, 5, Some(3), 300);

    assert_eq!(stats.total_requests, 3);
    assert_eq!(stats.total_tokens, 42);
    assert_eq!(stats.cached_tokens, 3);
    assert_eq!(stats.first_request_at, Some(100), "first request time is kept");
    assert_eq!(stats.last_request_at, Some(300));

    let openai = stats.provider_stats_for("openai").unwrap();
    assert_eq!(openai.total_tokens, 40);
    assert_eq!(openai.total_requests, 2);
    let anthropic = stats.provider_stats_for("anthropic").unwrap();
    assert_eq!(anthropic.total_tokens, 2);
    assert_eq!(anthropic.total_requests, 1);
    assert!(stats.provider_stats_for("unknown").is_none());
}

#[test]
fn render_export_data_pretty_prints_valid_json() {
    let out = render_export_data("{\"a\":1}".to_string(), Some(true));
    assert_eq!(out, "{\n  \"a\": 1\n}");

    let default_on = render_export_data("{\"a\":1}".to_string(), None);
    assert_eq!(default_on, "{\n  \"a\": 1\n}");
}

#[test]
fn render_export_data_keeps_data_when_off_or_invalid() {
    let off = render_export_data("{\"a\":1}".to_string(), Some(false));
    assert_eq!(off, "{\"a\":1}");

    let invalid = render_export_data("not-json".to_string(), Some(true));
    assert_eq!(invalid, "not-json");
}

#[test]
fn import_content_rejects_invalid_json() {
    let result = import_result_from_content("invalid.json".to_string(), "not-json".to_string(), 8);
    assert!(!result.success);
    assert!(result.data.is_none());
    assert!(result.error.unwrap().contains("Invalid JSON"));
    assert_eq!(result.bytes_read, Some(8));
}

#[test]
fn import_content_accepts_valid_json() {
    let result = import_result_from_content(
        "valid.json".to_string(),
        "{\"test\":true}".to_string(),
        13,
    );
    assert!(result.success);
    assert_eq!(result.data.as_deref(), Some("{\"test\":true}"));
    assert_eq!(result.file_path.as_deref(), Some("valid.json"));
    assert!(result.error.is_none());
}

#[test]
fn listings_sort_newest_first_with_missing_times_last() {
    let files = vec![
        file("old.txt", Some(100)),
        file("untimed.txt", None),
        file("new.txt", Some(300)),
        file("mid.txt", Some(200)),
    ];
    let sorted = sort_files_by_modified_desc(files);
    let names: Vec<&str> = sorted.iter().map(|f| f.name.as_str()).collect();
    assert_eq!(names, vec!["new.txt", "mid.txt", "old.txt", "untimed.txt"]);
}

#[test]
fn rename_targets_are_validated() {
    assert!(!valid_new_file_name(""));
    assert!(!valid_new_file_name("../../etc/passwd"));
    assert!(!valid_new_file_name("a\\b"));
    assert!(valid_new_file_name("renamed.txt"));
}
