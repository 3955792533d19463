use flick_scan::lint::LintResult;
use flick_scan::project::ProjectInfo;
use flick_scan::pipeline::lint_source_with_project;

fn lint_source_for_test_with_project(path: &str, source: &str, project: &ProjectInfo) -> LintResult {
    lint_source_with_project(path, source, project)
}


fn rule_messages(rule_name: &str, source: &str) -> Vec<String> {
    lint_source_for_test_with_project("test.ts", source, &ProjectInfo::test_server())
        .diagnostics
        .into_iter()
        .filter(|diagnostic| diagnostic.rule_name == rule_name)
        .map(|diagnostic| diagnostic.message)
        .collect()
}

#[test]
fn flags_n_plus_one_queries() {
    let messages = rule_messages(
        "server/no-n-plus-one",
        "for (const id of ids) { await prisma.user.findMany({ where: { id } }); }\n",
    );
    assert_eq!(
        messages,
        vec!["Avoid database or network requests inside loops"]
    );
}

#[test]
fn flags_unbounded_queries() {
    let messages = rule_messages(
        "server/no-unbounded-query",
        "prisma.user.findMany({ where: {} });\n",
    );
    assert_eq!(
        messages,
        vec!["Add a limit, take, or equivalent bound to large collection queries"]
    );
}

#[test]
fn flags_sync_fs_in_handler() {
    let messages = rule_messages(
        "server/no-sync-fs-in-handler",
        "app.get('/file', (req, res) => { fs.readFileSync('a.txt'); });\n",
    );
    assert_eq!(
        messages,
        vec!["Avoid synchronous filesystem calls inside request handlers"]
    );
}

#[test]
fn flags_blocking_crypto() {
    let messages = rule_messages(
        "server/no-blocking-crypto",
        "async function hash() { crypto.pbkdf2Sync(password, salt, 1, 64, 'sha512'); }\n",
    );
    assert_eq!(
        messages,
        vec!["Avoid blocking crypto APIs in async or request-handling code"]
    );
}

#[test]
fn flags_request_body_json_parse() {
    let messages = rule_messages("server/no-large-json-parse-sync", "JSON.parse(req.body);\n");
    assert_eq!(
        messages,
        vec!["Avoid synchronously parsing large request bodies on the hot path"]
    );
}
