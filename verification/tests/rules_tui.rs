use flick_scan::project::ProjectInfo;
use flick_scan::results_tui::{Key, KeyPress};
use flick_scan::rule_catalog::build_rule_catalog;
use flick_scan::rules_tui::{project_labels, AppAction, FocusPane, RulesApp};

fn app_with(group: &str, search: Option<&str>) -> RulesApp {
    RulesApp::new(
        build_rule_catalog().unwrap(),
        ProjectInfo::test_all(),
        Some(group),
        search,
    )
}

fn press(key: Key) -> KeyPress {
    KeyPress { key, control: false, alt: false }
}

#[test]
fn category_navigation_resets_rule_selection() {
    let mut app = app_with("react-hooks", None);
    app.focus = FocusPane::Rules;
    app.move_rule(3);
    assert_eq!(app.selected_rule, 3);
    app.focus = FocusPane::Groups;
    app.move_group(1);
    assert_eq!(app.selected_rule, 0);
    assert_eq!(
        app.catalog.groups[app.selected_group].key,
        "react-correctness"
    );
}

#[test]
fn search_filters_rules_in_selected_group() {
    let app = app_with("react-hooks", Some("fetch"));
    let ids = app
        .visible_entries()
        .into_iter()
        .map(|entry| entry.id.as_str())
        .collect::<Vec<_>>();
    assert_eq!(ids, vec!["react/no-fetch-in-effect"]);
}

#[test]
fn unmatched_search_has_no_selected_rule() {
    let app = app_with("react-hooks", Some("definitely-missing"));
    assert!(app.visible_entries().is_empty());
    assert!(app.selected_entry().is_none());
}

#[test]
fn reset_clears_search_and_returns_to_top() {
    let mut app = app_with("server-security", Some("sql"));
    app.focus = FocusPane::Rules;
    app.selected_rule = 1;
    app.reset();
    assert_eq!(app.selected_group, 0);
    assert_eq!(app.selected_rule, 0);
    assert_eq!(app.focus, FocusPane::Groups);
    assert!(app.search.is_empty());
}

#[test]
fn rules_tui_detail_scroll_does_not_go_negative() {
    let mut app = app_with("react-hooks", None);
    app.focus = FocusPane::Details;
    app.scroll_detail(-5);
    assert_eq!(app.detail_scroll, 0);
    app.scroll_detail(3);
    assert_eq!(app.detail_scroll, 3);
    app.scroll_detail(-1);
    assert_eq!(app.detail_scroll, 2);
}

#[test]
fn rules_tui_tab_cycles_through_all_panes() {
    let mut app = app_with("react-hooks", None);
    assert_eq!(app.focus, FocusPane::Groups);
    app.handle_key(press(Key::Tab));
    assert_eq!(app.focus, FocusPane::Rules);
    app.handle_key(press(Key::Tab));
    assert_eq!(app.focus, FocusPane::Details);
    app.handle_key(press(Key::Tab));
    assert_eq!(app.focus, FocusPane::Groups);
}

#[test]
fn backtab_undoes_tab() {
    let mut app = app_with("react-hooks", None);
    app.handle_key(press(Key::Tab));
    app.handle_key(press(Key::BackTab));
    assert_eq!(app.focus, FocusPane::Groups);
}

#[test]
fn search_with_no_match_in_group_opens_first_matching_group() {
    let app = app_with("core", Some("fetch"));
    let key = app.catalog.groups[app.selected_group].key;
    assert_ne!(key, "core");
    assert!(!app.visible_entries().is_empty());
}

#[test]
fn listing_puts_errors_first_then_ids_in_order() {
    let app = app_with("server-security", None);
    let entries = app.visible_entries();
    for pair in entries.windows(2) {
        let (a, b) = (pair[0], pair[1]);
        let ra = matches!(a.default_severity, flick_scan::lint::Severity::Warning) as u8;
        let rb = matches!(b.default_severity, flick_scan::lint::Severity::Warning) as u8;
        assert!(ra < rb || (ra == rb && a.id <= b.id));
    }
}

#[test]
fn search_mode_keys_edit_query_and_quit_keys_quit() {
    let mut app = app_with("react-hooks", None);
    assert_eq!(app.handle_key(press(Key::Char('/'))), AppAction::Continue);
    assert!(app.search_mode);
    app.handle_key(press(Key::Char('q')));
    assert_eq!(app.search, vec!['q']);
    app.handle_key(press(Key::Backspace));
    assert!(app.search.is_empty());
    app.handle_key(press(Key::Enter));
    assert!(!app.search_mode);
    assert_eq!(app.handle_key(press(Key::Char('q'))), AppAction::Quit);
    let ctrl_c = KeyPress { key: Key::Char('c'), control: true, alt: false };
    assert_eq!(app.handle_key(ctrl_c), AppAction::Quit);
}

#[test]
fn end_on_groups_selects_last_group() {
    let mut app = app_with("core", None);
    app.handle_key(press(Key::End));
    assert_eq!(app.selected_group, app.catalog.groups.len() - 1);
    app.handle_key(press(Key::Home));
    assert_eq!(app.selected_group, 0);
}

#[test]
fn project_labels_name_detected_kinds_in_order() {
    assert!(project_labels(&ProjectInfo::default()).is_empty());
    let mut p = ProjectInfo::default();
    p.has_react = true;
    p.has_next = true;
    p.has_koa = true;
    p.has_expo = true;
    assert_eq!(project_labels(&p), vec!["nextjs", "server", "expo"]);
    p.has_next = false;
    p.has_react_native = true;
    assert_eq!(project_labels(&p), vec!["react", "server", "react-native", "expo"]);
}
