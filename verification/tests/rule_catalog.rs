use flick_scan::project::ProjectInfo;
use flick_scan::lint::Severity;
use flick_scan::rule_catalog::{build_rule_catalog, rule_seeds, summary_for_rule, supported_rule_defaults, RuleScope};
use std::collections::{BTreeSet, HashMap};

#[test]
fn scope_matches_project_detection() {
    assert!(RuleScope::Universal.applies_to_project(&ProjectInfo::default()));
    assert!(RuleScope::React.applies_to_project(&ProjectInfo::test_react()));
    assert!(!RuleScope::NextJs.applies_to_project(&ProjectInfo::test_react()));
    assert!(RuleScope::ServerFramework.applies_to_project(&ProjectInfo::test_server()));
}

#[test]
fn catalog_covers_all_supported_rules() {
    let catalog = build_rule_catalog().unwrap();
    let catalog_ids = catalog
        .entries
        .iter()
        .map(|entry| entry.id.as_str())
        .collect::<BTreeSet<_>>();
    let defaults = supported_rule_defaults();
    let supported = defaults
        .iter()
        .map(|(id, _)| id.as_str())
        .collect::<BTreeSet<_>>();
    assert_eq!(catalog_ids, supported);
}

#[test]
fn representative_rules_map_to_expected_groups() {
    let catalog = build_rule_catalog().unwrap();
    let by_id = catalog
        .entries
        .iter()
        .map(|entry| (entry.id.as_str(), entry.group_key))
        .collect::<HashMap<_, _>>();
    assert_eq!(by_id.get("react/no-fetch-in-effect"), Some(&"react-hooks"));
    assert_eq!(
        by_id.get("server/no-sql-injection"),
        Some(&"server-security")
    );
    assert_eq!(by_id.get("nextjs/no-img-element"), Some(&"nextjs"));
}

#[test]
fn representative_rules_use_engine_default_severity() {
    let catalog = build_rule_catalog().unwrap();
    let by_id = catalog
        .entries
        .iter()
        .map(|entry| (entry.id.as_str(), &entry.default_severity))
        .collect::<HashMap<_, _>>();
    assert_eq!(by_id.get("no-unused-vars"), Some(&&Severity::Error));
    assert_eq!(by_id.get("no-console"), Some(&&Severity::Warning));
    assert_eq!(
        by_id.get("server/no-sql-injection"),
        Some(&&Severity::Error)
    );
}

#[test]
fn every_catalogued_rule_has_its_own_summary() {
    let fallback = "Inspect this rule in context to understand the behavior it enforces.";
    let seeds = rule_seeds();
    assert_eq!(seeds.len(), 94);
    for seed in &seeds {
        let summary = summary_for_rule(seed.id);
        assert!(!summary.is_empty());
        assert_ne!(summary, fallback);
    }
    assert_eq!(summary_for_rule("not-a-rule"), fallback);
    assert_eq!(summary_for_rule(""), fallback);
    assert_eq!(summary_for_rule("no-console"), "Flag console calls that leak debug output into runtime code.");
}
