use linear_cli::cache::{
    cache_type_of_name, count_valid, format_size, parse_cache_type, total_size, CacheStatus,
    CacheType,
};
use linear_cli::templates::{
    apply_template, labels_display, IssueDraft, IssueTemplate, TemplateError,
};
use linear_cli::text::{join, starts_with};

fn status(valid: bool, size_bytes: Option<u64>) -> CacheStatus {
    CacheStatus {
        cache_type: CacheType::Users,
        valid,
        age_seconds: size_bytes.map(|_| 1),
        size_bytes,
        item_count: None,
    }
}

fn strings(items: Vec<&str>) -> Vec<String> {
    items.into_iter().map(|s| s.to_string()).collect()
}

#[test]
fn cache_types_are_named_without_regard_to_case() {
    assert_eq!(parse_cache_type("teams"), Some(CacheType::Teams));
    assert_eq!(parse_cache_type("Users"), Some(CacheType::Users));
    assert_eq!(parse_cache_type("STATUSES"), Some(CacheType::Statuses));
    assert_eq!(parse_cache_type("states"), Some(CacheType::Statuses));
    assert_eq!(parse_cache_type("Labels"), Some(CacheType::Labels));
    assert_eq!(parse_cache_type("label"), None);
    assert_eq!(parse_cache_type(""), None);
    assert_eq!(parse_cache_type(" teams"), None);
    assert_eq!(cache_type_of_name("teams"), Some(CacheType::Teams));
    assert_eq!(cache_type_of_name("Teams"), None);
}

#[test]
fn sizes_are_formatted() {
    assert_eq!(format_size(0), "0 B");
    assert_eq!(format_size(512), "512 B");
    assert_eq!(format_size(2_048), "2.0 KB");
    assert_eq!(format_size(3 * 1024 * 1024 + 512 * 1024), "3.5 MB");
}

#[test]
fn reports_are_summed_up() {
    let report = vec![
        status(true, Some(100)),
        status(false, None),
        status(false, Some(23)),
        status(true, Some(1_000)),
    ];
    assert_eq!(count_valid(&report), 2);
    assert_eq!(total_size(&report), 1_123);
    assert_eq!(count_valid(&vec![]), 0);
    assert_eq!(total_size(&vec![]), 0);
    let huge = vec![status(true, Some(u64::MAX)), status(true, Some(1)), status(true, None)];
    assert_eq!(total_size(&huge), u64::MAX);
    assert_eq!(count_valid(&huge), 3);
}

#[test]
fn prefixes_are_recognised() {
    assert!(starts_with("https://uploads.linear.app/x", "https://uploads.linear.app/"));
    assert!(starts_with("abc", ""));
    assert!(starts_with("abc", "abc"));
    assert!(!starts_with("ab", "abc"));
    assert!(!starts_with("xbc", "abc"));
    assert!(!starts_with("http://uploads.linear.app/x", "https://uploads.linear.app/"));
}

#[test]
fn lists_are_joined() {
    assert_eq!(join(&strings(vec![]), ", "), "");
    assert_eq!(join(&strings(vec!["a"]), ", "), "a");
    assert_eq!(join(&strings(vec!["a", "b", "c"]), ", "), "a, b, c");
    assert_eq!(join(&strings(vec!["", ""]), "-"), "-");
    assert_eq!(labels_display(&strings(vec![])), "-");
    assert_eq!(labels_display(&strings(vec!["bug", "ui"])), "bug, ui");
}

fn bug_template() -> IssueTemplate {
    IssueTemplate {
        name: "bug".to_string(),
        title_prefix: Some("[Bug]".to_string()),
        description: Some("Steps to reproduce".to_string()),
        default_priority: Some(2),
        default_labels: strings(vec!["bug"]),
        team: Some("ENG".to_string()),
    }
}

#[test]
fn template_fills_what_the_command_leaves_open() {
    let draft = apply_template(&bug_template(), "Crash".to_string(), None, None, None, vec![]);
    assert_eq!(
        draft,
        Ok(IssueDraft {
            title: "[Bug] Crash".to_string(),
            team: "ENG".to_string(),
            description: Some("Steps to reproduce".to_string()),
            priority: Some(2),
            labels: strings(vec!["bug"]),
        })
    );
}

#[test]
fn command_values_win_over_the_template() {
    let draft = apply_template(
        &bug_template(),
        "Crash".to_string(),
        Some("OPS".to_string()),
        Some("Mine".to_string()),
        Some(0),
        strings(vec!["ui", "p1"]),
    );
    assert_eq!(
        draft,
        Ok(IssueDraft {
            title: "[Bug] Crash".to_string(),
            team: "OPS".to_string(),
            description: Some("Mine".to_string()),
            priority: Some(0),
            labels: strings(vec!["bug", "ui", "p1"]),
        })
    );
}

#[test]
fn blank_template_changes_nothing_and_needs_a_team() {
    let blank = IssueTemplate::blank();
    assert_eq!(
        blank,
        IssueTemplate {
            name: String::new(),
            title_prefix: None,
            description: None,
            default_priority: None,
            default_labels: vec![],
            team: None,
        }
    );
    assert_eq!(
        apply_template(&blank, "T".to_string(), Some("ENG".to_string()), None, None, vec![]),
        Ok(IssueDraft {
            title: "T".to_string(),
            team: "ENG".to_string(),
            description: None,
            priority: None,
            labels: vec![],
        })
    );
    let refused = apply_template(&blank, "T".to_string(), None, None, Some(1), vec![]);
    assert_eq!(refused, Err(TemplateError::TeamRequired));
    assert_eq!(
        TemplateError::TeamRequired.message(),
        "--team is required (or use a template with a default team)"
    );
}
