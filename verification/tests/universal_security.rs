use flick_scan::lint::LintResult;
use flick_scan::pipeline::lint_source_at_path;

fn lint_source_for_test(path: &str, source: &str) -> LintResult {
    lint_source_at_path(path, source)
}


fn rule_messages(rule_name: &str, source: &str) -> Vec<String> {
    lint_source_for_test("test.ts", source)
        .diagnostics
        .into_iter()
        .filter(|diagnostic| diagnostic.rule_name == rule_name)
        .map(|diagnostic| diagnostic.message)
        .collect()
}

#[test]
fn flags_eval_calls() {
    let messages = rule_messages("no-eval", "eval(code);\n");
    assert_eq!(messages, vec!["Avoid dynamic code execution with eval"]);
}

#[test]
fn flags_function_constructor() {
    let messages = rule_messages("no-eval", "new Function('return 1');\n");
    assert_eq!(
        messages,
        vec!["Avoid dynamic code execution with the Function constructor"]
    );
}

#[test]
fn flags_string_timers() {
    let messages = rule_messages("no-eval", "setTimeout('work()', 100);\n");
    assert_eq!(
        messages,
        vec!["Avoid string-based timers that behave like eval"]
    );
}

#[test]
fn ignores_shadowed_eval() {
    let messages = rule_messages(
        "no-eval",
        "function run(eval: (x: string) => void) { eval('x'); }\n",
    );
    assert!(messages.is_empty());
}

#[test]
fn flags_hardcoded_secret_variable() {
    let messages = rule_messages(
        "no-hardcoded-secrets",
        "const apiKey = 'sk_live_super_secret';\n",
    );
    assert_eq!(
        messages,
        vec!["`apiKey` appears to contain a hardcoded secret"]
    );
}

#[test]
fn ignores_short_or_example_secret_values() {
    let messages = rule_messages(
        "no-hardcoded-secrets",
        "const token = 'short';\nconst clientSecret = 'example-secret-value';\n",
    );
    assert!(messages.is_empty());
}
