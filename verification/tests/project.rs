use flick_scan::project::{module_resolution_from_options, strip_json_comments, strip_trailing_commas, ProjectInfo};

#[test]
fn fingerprint_changes_with_flags() {
    let react = ProjectInfo::test_react();
    let server = ProjectInfo::test_server();
    assert_ne!(react.fingerprint(), server.fingerprint());
}

#[test]
fn fingerprint_is_stable_lowercase_hex() {
    let first = ProjectInfo::test_all().fingerprint();
    let second = ProjectInfo::test_all().fingerprint();
    assert_eq!(first, second);
    assert_eq!(first.len(), 64);
    assert!(first.chars().all(|c| c.is_ascii_digit() || ('a'..='f').contains(&c)));
}

#[test]
fn module_resolution_orders_aliases_and_drops_blanks() {
    let config = module_resolution_from_options(
        "apps/web".to_string(),
        Some("./src".to_string()),
        vec![
            ("components/*".to_string(), vec!["./components/*".to_string()]),
            ("empty/*".to_string(), vec!["  ".to_string()]),
            ("@/*".to_string(), vec!["./*".to_string(), "".to_string()]),
        ],
    );
    assert_eq!(config.config_dir, "apps/web");
    assert_eq!(config.base_url, Some("apps/web/./src".to_string()));
    assert_eq!(config.paths.len(), 2);
    assert_eq!(config.paths[0].pattern, "@/*");
    assert_eq!(config.paths[0].targets, vec!["./*".to_string()]);
    assert_eq!(config.paths[1].pattern, "components/*");
    assert_eq!(config.paths[1].targets, vec!["./components/*".to_string()]);
}

#[test]
fn module_resolution_ignores_blank_base_url() {
    let config = module_resolution_from_options("apps/web".to_string(), Some(" ".to_string()), vec![]);
    assert_eq!(config.base_url, None);
    assert!(config.paths.is_empty());
}

#[test]
fn comments_are_removed_outside_strings_keeping_newlines() {
    let text = "{\"url\": \"http://x/*y*/\", // note\n  /* a\n b */ \"n\": 1 }";
    assert_eq!(
        strip_json_comments(text),
        "{\"url\": \"http://x/*y*/\", \n  \n \"n\": 1 }"
    );
    assert_eq!(strip_json_comments("a/"), "a/");
    assert_eq!(strip_json_comments("\"\\\"//\" // c"), "\"\\\"//\" ");
}

#[test]
fn only_closing_commas_are_removed() {
    assert_eq!(strip_trailing_commas("{\"a\": [1, 2, ], \"b\": \",}\",\n}"), "{\"a\": [1, 2 ], \"b\": \",}\"\n}");
    assert_eq!(strip_trailing_commas("[1,2]"), "[1,2]");
    assert_eq!(strip_trailing_commas("[1,"), "[1,");
}
