use metadata_filter::filters::{apply_rules, apply_rules_bounded};
use metadata_filter::rules::{
    build_rules, feature_filter_rules, remastered_filter_rules, suffix_filter_rules,
    trim_whitespace_filter_rules, Applied, FilterError, FilterRule,
};

#[test]
fn test_multiple_rulesets() {
    let rules = [
        remastered_filter_rules().unwrap(),
        trim_whitespace_filter_rules().unwrap(),
    ]
    .concat();
    let filtered = apply_rules("Here Comes The Sun (Remastered)", &rules);

    assert_eq!(filtered, "Here Comes The Sun");
}

#[test]
fn remastered_alone_keeps_trailing_space() {
    let rules = remastered_filter_rules().unwrap();
    assert_eq!(
        apply_rules("Here Comes The Sun (Remastered)", &rules),
        "Here Comes The Sun "
    );
}

#[test]
fn suffix_rules_normalize_remix() {
    let rules = suffix_filter_rules().unwrap();
    assert_eq!(apply_rules("Song Title - X Remix", &rules), "Song Title (X Remix)");
}

#[test]
fn trim_whitespace_both_ends() {
    let rules = trim_whitespace_filter_rules().unwrap();
    assert_eq!(apply_rules("   Text   ", &rules), "Text");
}

#[test]
fn feature_rules_strip_feature() {
    let rules = feature_filter_rules().unwrap();
    assert_eq!(apply_rules("Song Title (Feat. Other Artist)", &rules), "Song Title");
}

#[test]
fn apply_rules_is_idempotent() {
    let rules = [
        remastered_filter_rules().unwrap(),
        trim_whitespace_filter_rules().unwrap(),
    ]
    .concat();
    let once = apply_rules("  Mothership (Remastered)  ", &rules);
    let twice = apply_rules(&once, &rules);
    assert_eq!(once, "Mothership");
    assert_eq!(twice, once);
}

#[test]
fn no_match_leaves_text_unchanged() {
    let rules = remastered_filter_rules().unwrap();
    assert_eq!(apply_rules("Plain Title", &rules), "Plain Title");
    assert_eq!(apply_rules("", &rules), "");
}

#[test]
fn apply_rules_on_empty_list() {
    assert_eq!(apply_rules("  Anything  ", &[]), "  Anything  ");
}

#[test]
fn apply_rules_repeats_passes_until_settled() {
    // Each pass removes one leading "x-"; four passes are needed, then a
    // fifth finds nothing to do.
    let rules = build_rules(&[("^x-", "")]).unwrap();
    assert_eq!(apply_rules("x-x-x-x-end", &rules), "end");
}

#[test]
fn apply_replaces_only_first_occurrence() {
    let rule = FilterRule::new("ab", "X").unwrap();
    match rule.apply("ab-ab") {
        Applied::Changed(text) => assert_eq!(text, "X-ab"),
        Applied::Unchanged => panic!("the pattern matches"),
    }
}

#[test]
fn apply_reports_unchanged_without_match() {
    let rule = FilterRule::new("zzz", "X").unwrap();
    assert!(matches!(rule.apply("ab-ab"), Applied::Unchanged));
}

#[test]
fn apply_expands_capture_groups() {
    let rule = FilterRule::new(r"(\w+) (\w+)", "$2 $1").unwrap();
    match rule.apply("hello world") {
        Applied::Changed(text) => assert_eq!(text, "world hello"),
        Applied::Unchanged => panic!("the pattern matches"),
    }
}

#[test]
fn apply_changed_even_when_text_is_the_same() {
    let rule = FilterRule::new("a", "a").unwrap();
    match rule.apply("cat") {
        Applied::Changed(text) => assert_eq!(text, "cat"),
        Applied::Unchanged => panic!("the pattern matches"),
    }
}

#[test]
fn concatenation_order_matters() {
    let to_y = build_rules(&[("x", "y")]).unwrap();
    let to_z = build_rules(&[("x", "z")]).unwrap();
    let first_then_second = [to_y.clone(), to_z.clone()].concat();
    let second_then_first = [to_z, to_y].concat();
    assert_eq!(apply_rules("x", &first_then_second), "y");
    assert_eq!(apply_rules("x", &second_then_first), "z");
}

#[test]
fn concatenated_pass_runs_first_list_then_second() {
    let rules = [
        build_rules(&[("a", "b")]).unwrap(),
        build_rules(&[("b", "c")]).unwrap(),
    ]
    .concat();
    assert_eq!(apply_rules_bounded("a", &rules, 2), Some("c".to_string()));
}

#[test]
fn invalid_pattern_is_an_error() {
    match FilterRule::new("(abc", "") {
        Err(FilterError::InvalidPattern(pattern)) => assert_eq!(pattern, "(abc"),
        Ok(_) => panic!("an unclosed group must not compile"),
    }
}

#[test]
fn invalid_pattern_too_big_is_an_error() {
    assert!(FilterRule::new(r"\w{1000}", "").is_err());
}

#[test]
fn build_rules_reports_first_invalid_pattern() {
    match build_rules(&[("ok", ""), ("[unclosed", ""), ("(also", "")]) {
        Err(FilterError::InvalidPattern(pattern)) => assert_eq!(pattern, "[unclosed"),
        Ok(_) => panic!("an unclosed class must not compile"),
    }
}

#[test]
fn build_rules_keeps_order() {
    let rules = build_rules(&[("a", "1"), ("a", "2")]).unwrap();
    assert_eq!(rules.len(), 2);
    match rules[0].apply("a") {
        Applied::Changed(text) => assert_eq!(text, "1"),
        Applied::Unchanged => panic!("the pattern matches"),
    }
}

#[test]
fn bounded_returns_settled_text() {
    let rules = trim_whitespace_filter_rules().unwrap();
    assert_eq!(apply_rules_bounded("  Text  ", &rules, 2), Some("Text".to_string()));
}

#[test]
fn bounded_gives_up_when_passes_run_out() {
    let rules = trim_whitespace_filter_rules().unwrap();
    // The first pass trims, the second finds nothing: one pass is not enough.
    assert_eq!(apply_rules_bounded("  Text  ", &rules, 1), None);
    assert_eq!(apply_rules_bounded("Text", &rules, 0), None);
    assert_eq!(apply_rules_bounded("Text", &rules, 1), Some("Text".to_string()));
}

#[test]
fn bounded_stops_a_rule_that_never_settles() {
    let rules = build_rules(&[("a", "aa")]).unwrap();
    assert_eq!(apply_rules_bounded("a", &rules, 5), None);
}
