use flick_scan::lint::LintResult;
use flick_scan::project::ProjectInfo;
use flick_scan::pipeline::lint_source_with_project;

fn lint_source_for_test_with_project(path: &str, source: &str, project: &ProjectInfo) -> LintResult {
    lint_source_with_project(path, source, project)
}


fn rule_messages(rule_name: &str, source: &str) -> Vec<String> {
    lint_source_for_test_with_project("test.tsx", source, &ProjectInfo::test_react())
        .diagnostics
        .into_iter()
        .filter(|diagnostic| diagnostic.rule_name == rule_name)
        .map(|diagnostic| diagnostic.message)
        .collect()
}

#[test]
fn flags_giant_component() {
    let mut source = String::from("export function Giant() {\n");
    for _ in 0..305 {
        source.push_str("  const line = 1;\n");
    }
    source.push_str("  return <div />;\n}\n");

    let messages = rule_messages("react/no-giant-component", &source);
    assert_eq!(
        messages,
        vec!["Component `Giant` spans 308 lines; consider splitting it up"]
    );
}

#[test]
fn flags_render_in_render() {
    let messages = rule_messages(
        "react/no-render-in-render",
        "export function Page() {\n  return <section>{renderCard()}</section>;\n}\n",
    );
    assert_eq!(
        messages,
        vec!["Avoid calling `render*()` helpers directly from JSX"]
    );
}

#[test]
fn flags_nested_component() {
    let messages = rule_messages(
        "react/no-nested-component",
        "export function Outer() {\n  function Inner() {\n    return <div />;\n  }\n  return <Inner />;\n}\n",
    );
    assert_eq!(
        messages,
        vec!["Component `Inner` is defined inside component `Outer`"]
    );
}
