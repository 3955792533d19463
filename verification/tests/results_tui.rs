use flick_scan::lint::{FixSafety, LintDiagnostic, LintResult, RuleOrigin, Severity};
use flick_scan::results_tui::{
    detail_lines, editor_candidates, editor_goto_args, goto_target_exec, is_vscode_family_cli, parse_line_col,
    AppAction, FocusPane, IssueEntry, Key, KeyPress, ResultsApp,
};
use flick_scan::tui_common::highlight_ranges;

#[test]
fn parse_line_col_handles_common_spans() {
    assert_eq!(parse_line_col("1:1"), (1, 1));
    assert_eq!(parse_line_col("42:7"), (42, 7));
    assert_eq!(parse_line_col("10"), (10, 1));
}

#[test]
fn parse_line_col_defaults_on_garbage() {
    assert_eq!(parse_line_col(""), (1, 1));
    assert_eq!(parse_line_col("0:0"), (1, 1));
    assert_eq!(parse_line_col("abc"), (1, 1));
}

#[test]
fn vscode_family_cli_detection() {
    assert!(is_vscode_family_cli("cursor"));
    assert!(is_vscode_family_cli("code"));
    assert!(is_vscode_family_cli(
        "/Applications/Cursor.app/Contents/Resources/app/bin/cursor"
    ));
    assert!(!is_vscode_family_cli("vim"));
    assert!(!is_vscode_family_cli("/usr/bin/emacs"));
}

fn diagnostic(rule: &str, message: &str, span: &str, severity: Severity, start: u32) -> LintDiagnostic {
    LintDiagnostic {
        rule_name: rule.to_string(),
        message: message.to_string(),
        span: span.to_string(),
        severity,
        origin: RuleOrigin::BuiltIn,
        fix: None,
        byte_start: start,
        byte_end: start,
        node_kind: None,
        symbol: None,
    }
}

fn sample_results() -> Vec<LintResult> {
    vec![
        LintResult {
            file: "/proj/src/a.ts".to_string(),
            diagnostics: vec![diagnostic("no-console", "Unexpected console", "1:1", Severity::Warning, 0)],
        },
        LintResult {
            file: "/proj/src/b.ts".to_string(),
            diagnostics: vec![diagnostic("no-unused-vars", "unused x", "2:3", Severity::Error, 0)],
        },
    ]
}

/// One category per file, holding that file's diagnostics in order.
fn group_results_for_display(results: &[LintResult]) -> Vec<(String, Vec<IssueEntry>)> {
    results
        .iter()
        .map(|result| {
            (
                result.file.clone(),
                result
                    .diagnostics
                    .iter()
                    .map(|d| IssueEntry { file: result.file.clone(), diagnostic: d.clone() })
                    .collect(),
            )
        })
        .collect()
}

fn key(key: Key) -> KeyPress {
    KeyPress { key, control: false, alt: false }
}

#[test]
fn visible_issues_include_all_categories() {
    let results = vec![
        LintResult {
            file: "/proj/src/a.ts".to_string(),
            diagnostics: vec![
                diagnostic("no-console", "c", "1:1", Severity::Warning, 0),
                diagnostic("prefer-const", "p", "2:1", Severity::Warning, 1),
            ],
        },
        LintResult {
            file: "/proj/src/b.ts".to_string(),
            diagnostics: vec![diagnostic("parse-error", "syntax", "1:1", Severity::Error, 0)],
        },
    ];
    let cats = group_results_for_display(&results);
    let app = ResultsApp::new(cats);
    let visible = app.visible_issues();
    assert_eq!(visible.len(), 3);
}

#[test]
fn search_filters_issues() {
    let results = sample_results();
    let cats = group_results_for_display(&results);
    let mut app = ResultsApp::new(cats);
    app.search = "console".chars().collect();
    let visible = app.visible_issues();
    assert_eq!(visible.len(), 1);
    assert_eq!(visible[0].diagnostic.rule_name, "no-console");
}

#[test]
fn reset_clears_search_and_errors_only() {
    let results = sample_results();
    let cats = group_results_for_display(&results);
    let mut app = ResultsApp::new(cats);
    app.errors_only = true;
    app.search = "noop".chars().collect();
    app.reset_filters();
    assert!(!app.errors_only);
    assert!(app.search.is_empty());
}

#[test]
fn detail_scroll_does_not_go_negative() {
    let results = sample_results();
    let cats = group_results_for_display(&results);
    let mut app = ResultsApp::new(cats);
    app.focus = FocusPane::Detail;
    app.scroll_detail(-5);
    assert_eq!(app.detail_scroll, 0);
    app.scroll_detail(3);
    assert_eq!(app.detail_scroll, 3);
    app.scroll_detail(-1);
    assert_eq!(app.detail_scroll, 2);
}

#[test]
fn tab_cycles_through_all_panes() {
    let results = sample_results();
    let cats = group_results_for_display(&results);
    let mut app = ResultsApp::new(cats);
    assert_eq!(app.focus, FocusPane::Issues);
    app.handle_key(key(Key::Tab));
    assert_eq!(app.focus, FocusPane::Detail);
    app.handle_key(key(Key::Tab));
    assert_eq!(app.focus, FocusPane::Issues);
}

#[test]
fn open_key_works_from_either_pane_with_selection() {
    let results = sample_results();
    let cats = group_results_for_display(&results);
    let mut app = ResultsApp::new(cats);
    assert_eq!(app.focus, FocusPane::Issues);
    assert_eq!(app.handle_key(key(Key::Char('o'))), AppAction::OpenSelectedLocation);
    app.focus = FocusPane::Detail;
    assert_eq!(app.handle_key(key(Key::Char('o'))), AppAction::OpenSelectedLocation);
}

#[test]
fn errors_only_and_navigation_keep_selection_visible() {
    let cats = group_results_for_display(&sample_results());
    let mut app = ResultsApp::new(cats);
    assert_eq!(app.handle_key(key(Key::Down)), AppAction::Continue);
    assert_eq!(app.selected_issue, 1);
    app.handle_key(key(Key::Down));
    assert_eq!(app.selected_issue, 1);
    app.handle_key(key(Key::Char('e')));
    assert!(app.errors_only);
    assert_eq!(app.visible_count(), 1);
    assert_eq!(app.selected_issue, 0);
    assert_eq!(app.selected_entry().unwrap().diagnostic.rule_name, "no-unused-vars");
    app.handle_key(key(Key::End));
    assert_eq!(app.selected_issue, 0);
    assert_eq!(app.total_issues(), 2);
}

#[test]
fn search_mode_edits_the_query_and_ctrl_c_quits() {
    let cats = group_results_for_display(&sample_results());
    let mut app = ResultsApp::new(cats);
    app.handle_key(key(Key::Char('/')));
    assert!(app.search_mode);
    app.handle_key(key(Key::Char('q')));
    assert_eq!(app.search, vec!['q']);
    assert_eq!(app.visible_count(), 0);
    assert_eq!(app.handle_key(key(Key::Char('o'))), AppAction::Continue);
    assert_eq!(app.search, vec!['q', 'o']);
    app.handle_key(key(Key::Backspace));
    app.handle_key(key(Key::Backspace));
    assert!(app.search.is_empty());
    assert_eq!(app.visible_count(), 2);
    for c in ['c', 'o', 'n'] {
        app.handle_key(key(Key::Char(c)));
    }
    assert_eq!(app.search, vec!['c', 'o', 'n']);
    assert_eq!(app.visible_count(), 1);
    app.handle_key(key(Key::Enter));
    assert!(!app.search_mode);
    assert_eq!(app.handle_key(key(Key::Char('o'))), AppAction::OpenSelectedLocation);
    let ctrl_c = KeyPress { key: Key::Char('c'), control: true, alt: false };
    assert_eq!(app.handle_key(ctrl_c), AppAction::Quit);
    assert_eq!(app.handle_key(key(Key::Char('q'))), AppAction::Quit);
}

#[test]
fn error_stats_counts_every_issue_whatever_the_filters() {
    let mut app = ResultsApp::new(group_results_for_display(&sample_results()));
    app.handle_key(KeyPress { key: Key::Char('e'), control: false, alt: false });
    assert_eq!(app.error_stats(), (1, 1));
}

#[test]
fn goto_target_names_path_line_and_column() {
    assert_eq!(goto_target_exec("/proj/a.ts", "12:4"), "/proj/a.ts:12:4");
    assert_eq!(goto_target_exec("/proj/a.ts", "junk"), "/proj/a.ts:1:1");
}

#[test]
fn editor_args_reuse_window_only_for_vscode_family() {
    assert_eq!(editor_goto_args("code", "a.ts:1:2"), vec!["-r", "-g", "a.ts:1:2"]);
    assert_eq!(editor_goto_args("my-editor", "a.ts:1:2"), vec!["-g", "a.ts:1:2"]);
}

#[test]
fn editor_candidates_keep_order_without_repeats() {
    assert_eq!(
        editor_candidates(Some("  code "), vec!["/x/bin/cursor".to_string(), "code".to_string()]),
        vec!["code", "/x/bin/cursor", "cursor"]
    );
    assert_eq!(editor_candidates(Some("   "), Vec::new()), vec!["cursor", "code"]);
    assert_eq!(editor_candidates(None, Vec::new()), vec!["cursor", "code"]);
}

#[test]
fn parse_line_col_reads_back_what_it_is_given() {
    for (l, c) in [(1u32, 1u32), (7, 30), (4294967295, 2)] {
        assert_eq!(parse_line_col(&format!("{l}:{c}")), (l, c));
        assert_eq!(parse_line_col(&format!("{l}")), (l, 1));
    }
    assert_eq!(parse_line_col("x:y:z"), (1, 1));
}

#[test]
fn highlight_marks_each_match_ignoring_case() {
    assert_eq!(
        highlight_ranges("no-Console console", "CONSOLE"),
        vec![(0, 3, false), (3, 10, true), (10, 11, false), (11, 18, true)]
    );
    assert_eq!(highlight_ranges("abc", ""), vec![(0, 3, false)]);
    assert_eq!(highlight_ranges("abc", "x"), vec![(0, 3, false)]);
    assert_eq!(highlight_ranges("", "x"), vec![(0, 0, false)]);
    assert_eq!(highlight_ranges("aaa", "aa"), vec![(0, 2, true), (2, 3, false)]);
}

#[test]
fn detail_lines_name_place_category_node_and_symbol() {
    let mut d = diagnostic("no-unused-vars", "unused x", "2:3", Severity::Error, 0);
    let entry = IssueEntry { file: "src/b.ts".to_string(), diagnostic: d.clone() };
    assert_eq!(
        detail_lines(&entry, None),
        vec![
            ("File".to_string(), "src/b.ts:2:3".to_string()),
            ("Category".to_string(), "Other".to_string()),
        ]
    );
    d.node_kind = Some("Identifier".to_string());
    d.symbol = Some("x".to_string());
    let entry = IssueEntry { file: "src/b.ts".to_string(), diagnostic: d };
    assert_eq!(
        detail_lines(&entry, Some("src/b.ts")),
        vec![
            ("File".to_string(), "src/b.ts:2:3".to_string()),
            ("Category".to_string(), "src/b.ts".to_string()),
            ("Node".to_string(), "Identifier".to_string()),
            ("Symbol".to_string(), "x".to_string()),
        ]
    );
}

#[test]
fn selected_category_follows_the_selection() {
    let results = sample_results();
    let mut app = ResultsApp::new(group_results_for_display(&results));
    assert_eq!(app.selected_category(), Some("/proj/src/a.ts".to_string()));
    app.handle_key(key(Key::Char('j')));
    assert_eq!(app.selected_category(), Some("/proj/src/b.ts".to_string()));
    app.handle_key(key(Key::Char('e')));
    assert_eq!(app.selected_category(), Some("/proj/src/b.ts".to_string()));
    let empty = ResultsApp::new(Vec::new());
    assert_eq!(empty.selected_category(), None);
}

#[test]
fn fix_safety_labels() {
    assert_eq!(FixSafety::Safe.label(), "safe");
    assert_eq!(FixSafety::SemanticSafe.label(), "semantic-safe");
    assert_eq!(FixSafety::Risky.label(), "risky");
    assert_eq!(FixSafety::SuppressOnly.label(), "suppress-only");
}
