use xdg_shell_core::rules::{
    resolve_window_rules, window_matches, ColumnWidth, Match, Pattern, ResolvedWindowRule,
    WindowAttributes, WindowRule,
};

fn pat(s: &str) -> Option<Pattern> {
    Some(Pattern::new(s.to_string()).expect("valid pattern"))
}

fn attrs(app_id: Option<&str>, title: Option<&str>) -> WindowAttributes {
    WindowAttributes {
        app_id: app_id.map(|s| s.to_string()),
        title: title.map(|s| s.to_string()),
    }
}

fn rule(
    matches: Vec<Match>,
    excludes: Vec<Match>,
    width: Option<Vec<ColumnWidth>>,
    output: Option<&str>,
) -> WindowRule {
    WindowRule {
        matches,
        excludes,
        default_column_width: width,
        open_on_output: output.map(|s| s.to_string()),
    }
}

fn assert_resolved_eq(a: &ResolvedWindowRule, b: &ResolvedWindowRule) {
    assert_eq!(a.default_width, b.default_width);
    assert_eq!(a.open_on_output, b.open_on_output);
}

#[test]
fn empty_rule_list_resolves_to_nothing() {
    let r = resolve_window_rules(&vec![], &attrs(None, None));
    assert_eq!(r.default_width, None);
    assert_eq!(r.open_on_output, None);
}

#[test]
fn invalid_pattern_is_rejected() {
    assert!(Pattern::new("(".to_string()).is_none());
    assert!(Pattern::new("fire(fox|bird)".to_string()).is_some());
}

#[test]
fn matching_uses_the_real_pattern() {
    let m = Match { app_id: pat("ba+r"), title: None };
    assert!(window_matches(&attrs(Some("baaar"), None), &m));
    assert!(!window_matches(&attrs(Some("br"), None), &m));
    // An absent attribute fails a present criterion.
    assert!(!window_matches(&attrs(None, Some("baaar")), &m));
}

#[test]
fn empty_criteria_match_every_window() {
    let m = Match { app_id: None, title: None };
    assert!(window_matches(&attrs(None, None), &m));
}

#[test]
fn resolving_twice_gives_identical_results() {
    let rules = vec![
        rule(vec![], vec![], Some(vec![ColumnWidth::Fixed(640)]), Some("DP-1")),
        rule(
            vec![Match { app_id: pat("^org\\.example\\..*$"), title: None }],
            vec![],
            Some(vec![ColumnWidth::Proportion(500)]),
            None,
        ),
    ];
    let w = attrs(Some("org.example.app"), Some("hello"));
    let r1 = resolve_window_rules(&rules, &w);
    let r2 = resolve_window_rules(&rules, &w);
    assert_resolved_eq(&r1, &r2);
    assert_eq!(r1.default_width, Some(Some(ColumnWidth::Proportion(500))));
    assert_eq!(r1.open_on_output.as_deref(), Some("DP-1"));
}

#[test]
fn last_match_wins_per_field_not_per_rule() {
    // Rule 0 sets the width; rule 1 applies later but only sets the output,
    // so rule 0's width survives while rule 1's output wins.
    let rules = vec![
        rule(vec![], vec![], Some(vec![ColumnWidth::Fixed(800)]), Some("eDP-1")),
        rule(vec![], vec![], None, Some("HDMI-A-1")),
    ];
    let r = resolve_window_rules(&rules, &attrs(None, None));
    assert_eq!(r.default_width, Some(Some(ColumnWidth::Fixed(800))));
    assert_eq!(r.open_on_output.as_deref(), Some("HDMI-A-1"));
}

#[test]
fn excluded_rule_is_skipped_entirely() {
    let rules = vec![rule(
        vec![Match { app_id: pat("^term"), title: None }],
        vec![Match { app_id: None, title: pat("scratch") }],
        Some(vec![ColumnWidth::Fixed(400)]),
        Some("DP-2"),
    )];
    let hit = resolve_window_rules(&rules, &attrs(Some("terminal"), Some("shell")));
    assert_eq!(hit.default_width, Some(Some(ColumnWidth::Fixed(400))));
    let skipped = resolve_window_rules(&rules, &attrs(Some("terminal"), Some("scratchpad")));
    assert_eq!(skipped.default_width, None);
    assert_eq!(skipped.open_on_output, None);
}

#[test]
fn non_matching_rule_leaves_fields_unset() {
    let rules = vec![rule(
        vec![Match { app_id: pat("^exact$"), title: None }],
        vec![],
        Some(vec![ColumnWidth::Fixed(100)]),
        None,
    )];
    let r = resolve_window_rules(&rules, &attrs(Some("exactly-not"), None));
    assert_eq!(r.default_width, None);
}

#[test]
fn width_set_to_empty_overrides_earlier_width() {
    let rules = vec![
        rule(vec![], vec![], Some(vec![ColumnWidth::Fixed(640)]), None),
        rule(vec![], vec![], Some(vec![]), None),
    ];
    let r = resolve_window_rules(&rules, &attrs(None, None));
    assert_eq!(r.default_width, Some(None));
}

#[test]
fn first_preset_of_the_width_list_is_taken() {
    let rules = vec![rule(
        vec![],
        vec![],
        Some(vec![ColumnWidth::Proportion(250), ColumnWidth::Fixed(999)]),
        None,
    )];
    let r = resolve_window_rules(&rules, &attrs(None, None));
    assert_eq!(r.default_width, Some(Some(ColumnWidth::Proportion(250))));
}
