use flick_scan::lint::LintResult;
use flick_scan::pipeline::lint_source_at_path;

fn lint_source_for_test(path: &str, source: &str) -> LintResult {
    lint_source_at_path(path, source)
}


fn missing_return_spans(source: &str) -> Vec<String> {
    lint_source_for_test("test.ts", source)
        .diagnostics
        .into_iter()
        .filter(|d| d.rule_name == "no-missing-return")
        .map(|d| d.message)
        .collect()
}

#[test]
fn flags_missing_return_in_simple_function() {
    let msgs = missing_return_spans(
        "function foo(): number {\n  const x = 1;\n}\n",
    );
    assert_eq!(msgs.len(), 1);
    assert!(msgs[0].contains("not all code paths return"));
}

#[test]
fn flags_empty_body_with_return_type() {
    let msgs = missing_return_spans("function foo(): string {}\n");
    assert_eq!(msgs.len(), 1);
    assert!(msgs[0].contains("body is empty"));
}

#[test]
fn ok_when_all_paths_return() {
    let msgs = missing_return_spans(
        "function foo(x: boolean): number {\n  if (x) {\n    return 1;\n  } else {\n    return 2;\n  }\n}\n",
    );
    assert!(msgs.is_empty());
}

#[test]
fn flags_if_without_else() {
    let msgs = missing_return_spans(
        "function foo(x: boolean): number {\n  if (x) {\n    return 1;\n  }\n}\n",
    );
    assert_eq!(msgs.len(), 1);
}

#[test]
fn ok_for_void_return() {
    let msgs = missing_return_spans("function foo(): void {\n  console.log('hi');\n}\n");
    assert!(msgs.is_empty());
}

#[test]
fn ok_for_simple_return() {
    let msgs = missing_return_spans(
        "function foo(): number {\n  return 42;\n}\n",
    );
    assert!(msgs.is_empty());
}

#[test]
fn ignores_js_files() {
    let result = lint_source_for_test("test.js", "function foo() { const x = 1; }\n");
    let msgs: Vec<_> = result
        .diagnostics
        .into_iter()
        .filter(|d| d.rule_name == "no-missing-return")
        .collect();
    assert!(msgs.is_empty());
}

#[test]
fn ok_for_promise_void_return() {
    let msgs = missing_return_spans(
        r#"
        async function unlinkWallet(addr: string): Promise<void> {
            try {
                const r = await fetch("/api");
                if (!r.ok) { throw new Error("fail"); }
            } catch (e) {
                throw e;
            }
        }
        "#,
    );
    assert!(msgs.is_empty(), "Expected no diagnostics but got: {:?}", msgs);
}

#[test]
fn ok_for_promise_never_return() {
    let msgs = missing_return_spans(
        r#"
        async function fail(): Promise<never> {
            throw new Error("always fails");
        }
        "#,
    );
    assert!(msgs.is_empty(), "Expected no diagnostics but got: {:?}", msgs);
}

#[test]
fn ok_with_switch_fallthrough() {
    // Fall-through cases (empty consequent) should not be flagged
    let msgs = missing_return_spans(
        r#"
        function foo(x: string): number {
            switch (x) {
                case 'a':
                case 'b':
                    return 1;
                case 'c':
                    return 2;
                default:
                    return 3;
            }
        }
        "#,
    );
    assert!(msgs.is_empty(), "Expected no diagnostics but got: {:?}", msgs);
}

#[test]
fn ok_with_switch_default_throw() {
    // default with throw counts as returning
    let msgs = missing_return_spans(
        r#"
        function foo(x: string): number {
            switch (x) {
                case 'a':
                    return 1;
                default:
                    throw new Error("unknown");
            }
        }
        "#,
    );
    assert!(msgs.is_empty(), "Expected no diagnostics but got: {:?}", msgs);
}

#[test]
fn ok_with_try_catch_return() {
    let msgs = missing_return_spans(
        "function foo(): number {\n  try {\n    return 1;\n  } catch (e) {\n    return 2;\n  }\n}\n",
    );
    assert!(msgs.is_empty());
}
