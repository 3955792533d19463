use flick_scan::lint::LintResult;
use flick_scan::project::ProjectInfo;
use flick_scan::pipeline::lint_source_with_project;

fn lint_source_for_test_with_project(path: &str, source: &str, project: &ProjectInfo) -> LintResult {
    lint_source_with_project(path, source, project)
}


fn rule_messages(rule_name: &str, source: &str) -> Vec<String> {
    lint_source_for_test_with_project("test.ts", source, &ProjectInfo::test_server())
        .diagnostics
        .into_iter()
        .filter(|diagnostic| diagnostic.rule_name == rule_name)
        .map(|diagnostic| diagnostic.message)
        .collect()
}

#[test]
fn flags_sql_injection() {
    let messages = rule_messages(
        "server/no-sql-injection",
        "db.query(`SELECT * FROM users WHERE id = ${req.params.id}`);\n",
    );
    assert_eq!(
        messages,
        vec!["Avoid building SQL queries with dynamic string interpolation"]
    );
}

#[test]
fn flags_shell_injection() {
    let messages = rule_messages(
        "server/no-shell-injection",
        "exec(`git show ${req.query.ref}`);\n",
    );
    assert_eq!(
        messages,
        vec!["Avoid passing dynamic input into shell execution APIs"]
    );
}

#[test]
fn flags_path_traversal() {
    let messages = rule_messages(
        "server/no-path-traversal",
        "fs.readFile(req.params.file);\n",
    );
    assert_eq!(
        messages,
        vec!["Avoid using request data directly in filesystem paths"]
    );
}

#[test]
fn flags_unsafe_redirect_in_handler() {
    let messages = rule_messages(
        "server/no-unsafe-redirect",
        "app.get('/login', (req, res) => { res.redirect(req.query.url); });\n",
    );
    assert_eq!(
        messages,
        vec!["Avoid redirecting to request-controlled URLs"]
    );
}

#[test]
fn flags_cors_wildcard_with_credentials() {
    let messages = rule_messages(
        "server/no-cors-wildcard",
        "app.use(cors({ origin: \"*\", credentials: true }));\n",
    );
    assert_eq!(
        messages,
        vec!["Avoid `origin: \"*\"` when CORS credentials are enabled"]
    );
}

#[test]
fn flags_hardcoded_jwt_secret() {
    let messages = rule_messages(
        "server/no-hardcoded-jwt-secret",
        "jwt.sign(payload, 'super-secret-value');\n",
    );
    assert_eq!(messages, vec!["Avoid hardcoding JWT signing secrets"]);
}

#[test]
fn flags_missing_jwt_algorithms() {
    let messages = rule_messages(
        "server/no-jwt-none-algorithm",
        "jwt.verify(token, secret);\n",
    );
    assert_eq!(
        messages,
        vec!["Specify allowed JWT verification algorithms explicitly"]
    );
}

#[test]
fn allows_explicit_jwt_algorithms() {
    let messages = rule_messages(
        "server/no-jwt-none-algorithm",
        "jwt.verify(token, secret, { algorithms: ['HS256'] });\n",
    );
    assert!(messages.is_empty());
}
