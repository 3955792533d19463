use flick_scan::config::{apply_rule_config, config_fingerprint, detected_frameworks, parse_rule_severity, starter_rules_for_project, Config, ConfigValue};
use flick_scan::lint::{diagnostic_counts, LintDiagnostic, LintResult, RuleOrigin};
use flick_scan::lint::Severity;
use flick_scan::project::ProjectInfo;

fn has_key(rules: &[(String, String)], key: &str) -> bool {
    rules.iter().any(|(name, _)| name == key)
}

#[test]
fn default_config_has_five_rules() {
    let config = Config::default_config();
    assert!(config.detect);
    assert_eq!(config.rules.len(), 5);
    assert!(config.rules.iter().any(|(name, _)| name == "no-console"));
}

#[test]
fn parse_severity_from_bool() {
    assert!(parse_rule_severity(&ConfigValue::Bool(true)).is_some());
    assert!(parse_rule_severity(&ConfigValue::Bool(false)).is_none());
}

#[test]
fn parse_severity_from_string() {
    assert_eq!(
        parse_rule_severity(&ConfigValue::Str("error".to_string())),
        Some(Severity::Error)
    );
    assert_eq!(
        parse_rule_severity(&ConfigValue::Str("warn".to_string())),
        Some(Severity::Warning)
    );
    assert!(parse_rule_severity(&ConfigValue::Str("off".to_string())).is_none());
}

#[test]
fn parse_severity_from_number() {
    assert!(parse_rule_severity(&ConfigValue::Number).is_some());
}

#[test]
fn init_template_includes_nextjs_rules() {
    let project = ProjectInfo {
        has_react: true,
        has_next: true,
        ..ProjectInfo::default()
    };
    let rules = starter_rules_for_project(&project);
    assert!(has_key(&rules, "nextjs/no-img-element"));
    assert!(has_key(&rules, "nextjs/missing-metadata"));
    assert!(has_key(&rules, "react/server-auth-actions"));
}

#[test]
fn init_template_includes_server_rules() {
    let project = ProjectInfo {
        has_express: true,
        ..ProjectInfo::default()
    };
    let rules = starter_rules_for_project(&project);
    assert!(has_key(&rules, "server/no-sql-injection"));
    assert!(has_key(&rules, "server/require-input-validation"));
}

#[test]
fn detected_frameworks_prefers_nextjs_label_for_next_projects() {
    let project = ProjectInfo {
        has_react: true,
        has_next: true,
        has_express: true,
        ..ProjectInfo::default()
    };
    assert_eq!(detected_frameworks(&project), vec!["nextjs", "server"]);
}

fn diag(rule: &str) -> LintDiagnostic {
    LintDiagnostic {
        rule_name: rule.to_string(),
        message: format!("{} fired", rule),
        span: "1:1".to_string(),
        severity: Severity::Warning,
        origin: RuleOrigin::BuiltIn,
        fix: None,
        byte_start: 0,
        byte_end: 1,
        node_kind: None,
        symbol: None,
    }
}

#[test]
fn rule_config_drops_overrides_and_keeps() {
    let rules = vec![
        ("no-console".to_string(), ConfigValue::Str("off".to_string())),
        ("no-explicit-any".to_string(), ConfigValue::Str("error".to_string())),
    ];
    let mut parse = diag("parse-error");
    parse.origin = RuleOrigin::Engine;
    parse.severity = Severity::Error;
    let out = apply_rule_config(
        vec![
            parse,
            diag("no-console"),
            diag("no-explicit-any"),
            diag("no-unused-vars"),
            diag("react/no-array-index-key"),
        ],
        &rules,
    );
    assert_eq!(out.len(), 3);
    assert_eq!(out[0].rule_name, "parse-error");
    assert_eq!(out[1].rule_name, "no-explicit-any");
    assert_eq!(out[1].severity, Severity::Error);
    assert_eq!(out[2].rule_name, "react/no-array-index-key");
    assert_eq!(out[2].severity, Severity::Warning);
}

#[test]
fn empty_rule_config_keeps_every_diagnostic() {
    let out = apply_rule_config(vec![diag("no-unused-vars"), diag("no-eval")], &Vec::new());
    assert_eq!(out.len(), 2);
    assert_eq!(out[0].rule_name, "no-unused-vars");
    assert_eq!(out[1].rule_name, "no-eval");
}

#[test]
fn config_fingerprint_of_missing_file_is_marker_digest() {
    assert_eq!(
        config_fingerprint(None),
        "8ee57d7857f96f120adf1008973a9951d41b1f63b96b75a8bbfdec37986862eb"
    );
}

#[test]
fn config_fingerprint_hashes_utf8_text() {
    assert_eq!(
        config_fingerprint(Some("{\"detect\":true} é")),
        "d9b173ae50ae16063e3526312e6904d93c3aa116012d89277a7f7290bf912629"
    );
}

#[test]
fn diagnostic_counts_split_errors_and_warnings() {
    let mut error = diag("no-eval");
    error.severity = Severity::Error;
    let results = vec![
        LintResult { file: "a.ts".to_string(), diagnostics: vec![diag("x"), error.clone()] },
        LintResult { file: "b.ts".to_string(), diagnostics: vec![] },
        LintResult { file: "c.ts".to_string(), diagnostics: vec![error, diag("y"), diag("z")] },
    ];
    assert_eq!(diagnostic_counts(&results), Some((2, 3)));
    assert_eq!(diagnostic_counts(&Vec::new()), Some((0, 0)));
}
