use flick_scan::lint::LintResult;
use flick_scan::project::ProjectInfo;
use flick_scan::pipeline::lint_source_with_project;

fn lint_source_for_test_with_project(path: &str, source: &str, project: &ProjectInfo) -> LintResult {
    lint_source_with_project(path, source, project)
}


fn rule_messages(rule_name: &str, source: &str) -> Vec<String> {
    lint_source_for_test_with_project("app/actions.ts", source, &ProjectInfo::test_all())
        .diagnostics
        .into_iter()
        .filter(|diagnostic| diagnostic.rule_name == rule_name)
        .map(|diagnostic| diagnostic.message)
        .collect()
}

#[test]
fn flags_server_action_without_auth() {
    let messages = rule_messages(
        "react/server-auth-actions",
        "\"use server\";\nexport async function saveUser(formData) { await prisma.user.create({ data: {} }); }\n",
    );
    assert_eq!(
        messages,
        vec!["Server action `saveUser` should perform an auth check before mutating data"]
    );
}

#[test]
fn flags_nonblocking_side_effect_without_after() {
    let messages = rule_messages(
        "react/server-after-nonblocking",
        "\"use server\";\nexport async function submit() { analytics.track('submitted'); }\n",
    );
    assert_eq!(
        messages,
        vec!["Wrap non-blocking side effects in `after()` inside server action `submit`"]
    );
}
