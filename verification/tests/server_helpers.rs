use flick_scan::lint::LintResult;
use flick_scan::project::ProjectInfo;
use flick_scan::pipeline::lint_source_with_project;

fn lint_source_for_test_with_project(path: &str, source: &str, project: &ProjectInfo) -> LintResult {
    lint_source_with_project(path, source, project)
}


fn has_rule(rule_name: &str, source: &str) -> bool {
    lint_source_for_test_with_project("test.ts", source, &ProjectInfo::test_server())
        .diagnostics
        .into_iter()
        .any(|diagnostic| diagnostic.rule_name == rule_name)
}

#[test]
fn detects_route_handlers() {
    let source = "app.get('/users', async (req, res) => { res.redirect(req.query.url); });\n";
    assert!(has_rule("server/no-unsafe-redirect", source));
}
