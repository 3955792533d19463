use flick_scan::lint::LintResult;
use flick_scan::project::ProjectInfo;
use flick_scan::pipeline::lint_source_with_project;

fn lint_source_for_test_with_project(path: &str, source: &str, project: &ProjectInfo) -> LintResult {
    lint_source_with_project(path, source, project)
}


fn rule_messages(rule_name: &str, source: &str) -> Vec<String> {
    lint_source_for_test_with_project("test.tsx", source, &ProjectInfo::test_react())
        .diagnostics
        .into_iter()
        .filter(|diagnostic| diagnostic.rule_name == rule_name)
        .map(|diagnostic| diagnostic.message)
        .collect()
}

#[test]
fn flags_array_index_key() {
    let messages = rule_messages(
        "react/no-array-index-key",
        "export function List({ items }) {\n  return items.map((item, index) => <div key={index}>{item}</div>);\n}\n",
    );
    assert_eq!(messages, vec!["Avoid using array indexes as React keys"]);
}

#[test]
fn flags_prevent_default_in_form() {
    let messages = rule_messages(
        "react/no-prevent-default",
        "export function Form() {\n  return <form onSubmit={(event) => { event.preventDefault(); }} />;\n}\n",
    );
    assert_eq!(
        messages,
        vec!["Avoid relying on `preventDefault()` in JSX event handlers when native behavior should remain intact"]
    );
}

#[test]
fn flags_conditional_render_zero() {
    let messages = rule_messages(
        "react/no-conditional-render-zero",
        "export function List({ items }) {\n  return <section>{items.length && <ul />}</section>;\n}\n",
    );
    assert_eq!(
        messages,
        vec!["`.length && <JSX>` can render `0`; compare the length explicitly instead"]
    );
}
