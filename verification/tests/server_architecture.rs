use flick_scan::lint::LintResult;
use flick_scan::project::ProjectInfo;
use flick_scan::pipeline::lint_source_with_project;

fn lint_source_for_test_with_project(path: &str, source: &str, project: &ProjectInfo) -> LintResult {
    lint_source_with_project(path, source, project)
}


fn rule_messages(rule_name: &str, source: &str) -> Vec<String> {
    lint_source_for_test_with_project("server.ts", source, &ProjectInfo::test_server())
        .diagnostics
        .into_iter()
        .filter(|diagnostic| diagnostic.rule_name == rule_name)
        .map(|diagnostic| diagnostic.message)
        .collect()
}

#[test]
fn flags_missing_input_validation() {
    let messages = rule_messages(
        "server/require-input-validation",
        "app.post('/users', (req, res) => { save(req.body.email); res.json({ ok: true }); });\n",
    );
    assert_eq!(
        messages,
        vec!["Validate request bodies before using them in route handlers"]
    );
}

#[test]
fn flags_floating_transaction() {
    let messages = rule_messages(
        "server/no-floating-transaction",
        "async function save() { await prisma.user.create({ data: {} }); await prisma.post.update({ data: {} }); }\n",
    );
    assert_eq!(
        messages,
        vec!["Wrap multiple ORM mutations in a transaction"]
    );
}

#[test]
fn flags_business_logic_in_route() {
    let mut source = String::from("app.get('/users', (req, res) => {\n");
    for _ in 0..52 {
        source.push_str("  doWork();\n");
    }
    source.push_str("  res.json({ ok: true });\n});\n");

    let messages = rule_messages("server/no-business-logic-in-route", &source);
    assert_eq!(
        messages,
        vec![
            "Route handlers over 50 lines should move business logic into services (55 lines)"
        ]
    );
}
