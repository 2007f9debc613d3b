use linear_cli::output::OutputFormat;
use linear_cli::search::truncate_string;
use linear_cli::templates::{
    add_template, get_template, optional_text, priority_from_selection, priority_to_string,
    remove_template, IssueTemplate, TemplateError, TemplateStore,
};
use linear_cli::text::{
    char_utf8_len, concat3, count_fitting, digit_str, round_to_tenths, str_eq, tenths_to_string,
    u64_to_string,
};

fn template(name: &str, team: Option<&str>) -> IssueTemplate {
    IssueTemplate {
        name: name.to_string(),
        title_prefix: Some("[Bug]".to_string()),
        description: None,
        default_priority: Some(2),
        default_labels: vec!["bug".to_string(), "triage".to_string()],
        team: team.map(|t| t.to_string()),
    }
}

#[test]
fn templates_are_found_by_name() {
    let mut store = TemplateStore::default();
    assert_eq!(get_template(&store, "bug"), None);
    assert_eq!(add_template(&mut store, template("bug", Some("ENG"))), Ok(()));
    assert_eq!(add_template(&mut store, template("feature", None)), Ok(()));
    assert_eq!(get_template(&store, "bug"), Some(template("bug", Some("ENG"))));
    assert_eq!(get_template(&store, "feature"), Some(template("feature", None)));
    assert_eq!(get_template(&store, "Bug"), None);
}

#[test]
fn adding_a_template_twice_is_refused() {
    let mut store = TemplateStore::default();
    add_template(&mut store, template("bug", Some("ENG"))).unwrap();
    assert_eq!(
        add_template(&mut store, template("bug", Some("OPS"))),
        Err(TemplateError::AlreadyExists)
    );
    assert_eq!(store, TemplateStore { templates: vec![template("bug", Some("ENG"))] });
    assert_eq!(
        TemplateError::AlreadyExists.message(),
        "Template already exists. Delete it first or choose a different name."
    );
}

#[test]
fn removing_a_template() {
    let mut store = TemplateStore {
        templates: vec![template("a", None), template("b", None), template("c", None)],
    };
    assert_eq!(remove_template(&mut store, "b"), Ok(()));
    assert_eq!(store, TemplateStore { templates: vec![template("a", None), template("c", None)] });
    assert_eq!(remove_template(&mut store, "b"), Err(TemplateError::NotFound));
    assert_eq!(store, TemplateStore { templates: vec![template("a", None), template("c", None)] });
    assert_eq!(TemplateError::NotFound.message(), "Template not found");
}

#[test]
fn priorities_have_names() {
    assert_eq!(priority_to_string(None), "-");
    assert_eq!(priority_to_string(Some(0)), "-");
    assert_eq!(priority_to_string(Some(1)), "Urgent");
    assert_eq!(priority_to_string(Some(2)), "High");
    assert_eq!(priority_to_string(Some(3)), "Normal");
    assert_eq!(priority_to_string(Some(4)), "Low");
    assert_eq!(priority_to_string(Some(5)), "-");
    assert_eq!(priority_to_string(Some(-1)), "-");
}

#[test]
fn menu_positions_give_priorities() {
    assert_eq!(priority_from_selection(0), None);
    assert_eq!(priority_from_selection(1), Some(1));
    assert_eq!(priority_from_selection(2), Some(2));
    assert_eq!(priority_from_selection(3), Some(3));
    assert_eq!(priority_from_selection(4), Some(4));
    assert_eq!(priority_from_selection(5), None);
}

#[test]
fn empty_answers_count_as_none() {
    assert_eq!(optional_text(String::new()), None);
    assert_eq!(optional_text(" ".to_string()), Some(" ".to_string()));
    assert_eq!(optional_text("x".to_string()), Some("x".to_string()));
}

#[test]
fn strings_are_truncated_with_an_ellipsis() {
    assert_eq!(truncate_string("short", 50), "short");
    assert_eq!(truncate_string(&"x".repeat(50), 50), "x".repeat(50));
    assert_eq!(truncate_string(&"x".repeat(51), 50), format!("{}...", "x".repeat(47)));
    assert_eq!(truncate_string("abcdef", 5), "ab...");
    assert_eq!(truncate_string("abcd", 3), "...");
    assert_eq!(truncate_string("abc", 3), "abc");
    assert_eq!(truncate_string("", 0), "");
    assert_eq!(truncate_string("ab", 2), "ab");
}

#[test]
fn strings_are_truncated_by_their_bytes() {
    // Each of these letters takes two bytes.
    assert_eq!(truncate_string(&"é".repeat(25), 50), "é".repeat(25));
    assert_eq!(truncate_string(&"é".repeat(26), 50), format!("{}...", "é".repeat(23)));
    assert_eq!(truncate_string(&format!("a{}", "é".repeat(30)), 50), format!("a{}...", "é".repeat(23)));
    assert_eq!(truncate_string("€€", 5), "...");
    assert_eq!(truncate_string("€€", 6), "€€");
    assert_eq!(count_fitting("a€é", 0), 0);
    assert_eq!(count_fitting("a€é", 3), 1);
    assert_eq!(count_fitting("a€é", 4), 2);
    assert_eq!(count_fitting("a€é", 5), 2);
    assert_eq!(count_fitting("a€é", 6), 3);
    assert_eq!(count_fitting("a€é", 100), 3);
    for c in ['a', '\u{7f}', '\u{80}', 'é', '\u{7ff}', '\u{800}', '€', '\u{ffff}', '\u{10000}', '😀'] {
        assert_eq!(char_utf8_len(c), c.len_utf8());
    }
}

#[test]
fn output_is_a_table_unless_json_is_asked_for() {
    assert_eq!(OutputFormat::default(), OutputFormat::Table);
    assert!(OutputFormat::Json.is_json());
    assert!(!OutputFormat::Table.is_json());
}

#[test]
fn numbers_are_written_in_decimal() {
    assert_eq!(u64_to_string(0), "0");
    assert_eq!(u64_to_string(7), "7");
    assert_eq!(u64_to_string(10), "10");
    assert_eq!(u64_to_string(1_234_567_890), "1234567890");
    assert_eq!(u64_to_string(u64::MAX), "18446744073709551615");
    for d in 0..10u64 {
        assert_eq!(digit_str(d), d.to_string());
    }
    assert_eq!(tenths_to_string(0), "0.0");
    assert_eq!(tenths_to_string(15), "1.5");
    assert_eq!(tenths_to_string(10_240), "1024.0");
}

#[test]
fn tenths_round_half_to_even() {
    assert_eq!(round_to_tenths(1_024, 1_024), 10);
    assert_eq!(round_to_tenths(1_280, 1_024), 12);
    assert_eq!(round_to_tenths(1_281, 1_024), 13);
    assert_eq!(round_to_tenths(1_279, 1_024), 12);
    assert_eq!(round_to_tenths(1_382, 1_024), 13);
    assert_eq!(round_to_tenths(1_383, 1_024), 14);
    assert_eq!(round_to_tenths(8, 16), 5);
    assert_eq!(round_to_tenths(u64::MAX, 1 << 20), 175_921_860_444_160);
}

#[test]
fn text_helpers() {
    assert!(str_eq("a", "a"));
    assert!(!str_eq("a", "b"));
    assert!(!str_eq("a", "A"));
    assert!(str_eq("", ""));
    assert_eq!(concat3("a", "", "c"), "ac");
    assert_eq!(concat3("x", "yy", "zzz"), "xyyzzz");
}
