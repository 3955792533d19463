use flick_scan::lint::LintResult;
use flick_scan::pipeline::lint_source_at_path;

fn lint_source_for_test(path: &str, source: &str) -> LintResult {
    lint_source_at_path(path, source)
}


fn explicit_any_spans(source: &str) -> Vec<String> {
    lint_source_for_test("test.ts", source)
        .diagnostics
        .into_iter()
        .filter(|diagnostic| diagnostic.rule_name == "no-explicit-any")
        .map(|diagnostic| diagnostic.span)
        .collect()
}

#[test]
fn flags_any_in_multiple_type_positions() {
    let spans = explicit_any_spans(
        "type Box = any;\nfunction wrap(value: any): any { return value as any; }\n",
    );
    assert_eq!(spans, vec!["1:12", "2:22", "2:28", "2:50"]);
}

#[test]
fn ignores_unknown_and_plain_identifiers() {
    let spans = explicit_any_spans(
        "const any = 'name only';\nfunction wrap(value: unknown): unknown { return value; }\n",
    );
    assert!(spans.is_empty());
}
