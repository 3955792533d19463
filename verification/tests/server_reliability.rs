use flick_scan::lint::LintResult;
use flick_scan::project::ProjectInfo;
use flick_scan::pipeline::lint_source_with_project;

fn lint_source_for_test_with_project(path: &str, source: &str, project: &ProjectInfo) -> LintResult {
    lint_source_with_project(path, source, project)
}


fn rule_messages(rule_name: &str, source: &str) -> Vec<String> {
    lint_source_for_test_with_project("test.ts", source, &ProjectInfo::test_server())
        .diagnostics
        .into_iter()
        .filter(|diagnostic| diagnostic.rule_name == rule_name)
        .map(|diagnostic| diagnostic.message)
        .collect()
}

#[test]
fn flags_async_route_without_try() {
    let messages = rule_messages(
        "server/no-unhandled-async-route",
        "app.get('/users', async (req, res) => { await loadUsers(); res.json({ ok: true }); });\n",
    );
    assert_eq!(
        messages,
        vec!["Async route handlers should catch and translate errors explicitly"]
    );
}

#[test]
fn flags_swallowed_error() {
    let messages = rule_messages(
        "server/no-swallowed-error",
        "try { run(); } catch (error) { console.error(error); }\n",
    );
    assert_eq!(
        messages,
        vec!["Catch blocks should handle, rethrow, or surface the error"]
    );
}

#[test]
fn flags_process_exit_in_handler() {
    let messages = rule_messages(
        "server/no-process-exit-in-handler",
        "app.get('/kill', (req, res) => { process.exit(1); });\n",
    );
    assert_eq!(
        messages,
        vec!["Avoid terminating the process from inside a request handler"]
    );
}

#[test]
fn flags_missing_error_status() {
    let messages = rule_messages(
        "server/require-error-status",
        "app.get('/users', (req, res) => { res.json({ error: 'nope' }); });\n",
    );
    assert_eq!(
        messages,
        vec!["Set an HTTP error status before returning error payloads"]
    );
}

#[test]
fn ignores_handlers_with_status_call() {
    let messages = rule_messages(
        "server/require-error-status",
        "app.get('/users', (req, res) => { res.status(400); res.json({ error: 'nope' }); });\n",
    );
    assert!(messages.is_empty());
}

#[test]
fn flags_throw_string() {
    let messages = rule_messages("server/no-throw-string", "throw 'boom';\n");
    assert_eq!(
        messages,
        vec!["Throw `Error` objects instead of string literals"]
    );
}
