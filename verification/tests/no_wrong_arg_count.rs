use flick_scan::lint::LintResult;
use flick_scan::pipeline::lint_source_at_path;

fn lint_source_for_test(path: &str, source: &str) -> LintResult {
    lint_source_at_path(path, source)
}


fn wrong_arg_msgs(source: &str) -> Vec<String> {
    lint_source_for_test("test.js", source)
        .diagnostics
        .into_iter()
        .filter(|d| d.rule_name == "no-wrong-arg-count")
        .map(|d| d.message)
        .collect()
}

#[test]
fn flags_too_few_args() {
    let msgs = wrong_arg_msgs(
        "function add(a, b) { return a + b; }\nadd(1);\n",
    );
    assert_eq!(msgs.len(), 1);
    assert!(msgs[0].contains("at least 2"));
}

#[test]
fn flags_too_many_args() {
    let msgs = wrong_arg_msgs(
        "function add(a, b) { return a + b; }\nadd(1, 2, 3);\n",
    );
    assert_eq!(msgs.len(), 1);
    assert!(msgs[0].contains("at most 2"));
}

#[test]
fn ok_with_correct_args() {
    let msgs = wrong_arg_msgs(
        "function add(a, b) { return a + b; }\nadd(1, 2);\n",
    );
    assert!(msgs.is_empty());
}

#[test]
fn ok_with_optional_params() {
    let msgs = wrong_arg_msgs(
        "function greet(name, greeting = 'Hello') { return greeting + ' ' + name; }\ngreet('Jay');\n",
    );
    assert!(msgs.is_empty());
}

#[test]
fn ok_with_rest_params() {
    let msgs = wrong_arg_msgs(
        "function sum(...nums) { return nums.reduce((a, b) => a + b, 0); }\nsum(1, 2, 3, 4, 5);\n",
    );
    assert!(msgs.is_empty());
}

#[test]
fn ignores_unknown_functions() {
    let msgs = wrong_arg_msgs("unknownFunc(1, 2, 3);\n");
    assert!(msgs.is_empty());
}

fn wrong_arg_msgs_ts(source: &str) -> Vec<String> {
    lint_source_for_test("test.ts", source)
        .diagnostics
        .into_iter()
        .filter(|d| d.rule_name == "no-wrong-arg-count")
        .map(|d| d.message)
        .collect()
}

#[test]
fn this_parameter_takes_no_argument() {
    let src = "interface W { x: number }\nfunction f(this: W, a: number) { return a; }\n";
    assert!(wrong_arg_msgs_ts(&format!("{src}f(1);\n")).is_empty());
    assert_eq!(
        wrong_arg_msgs_ts(&format!("{src}f();\n")),
        vec!["Function `f` expects at least 1 argument(s), but was called with 0".to_string()]
    );
    assert_eq!(
        wrong_arg_msgs_ts(&format!("{src}f(1, 2);\n")),
        vec!["Function `f` expects at most 1 argument(s), but was called with 2".to_string()]
    );
    let rest = "function g(this: W, ...xs: number[]) { return xs; }\ng(1, 2, 3);\ng();\n";
    assert!(wrong_arg_msgs_ts(&format!("interface W {{ x: number }}\n{rest}")).is_empty());
}
