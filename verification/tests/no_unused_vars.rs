use flick_scan::lint::LintResult;
use flick_scan::pipeline::lint_source_at_path;

fn lint_source_for_test(path: &str, source: &str) -> LintResult {
    lint_source_at_path(path, source)
}


fn unused_var_messages(path: &str, source: &str) -> Vec<String> {
    lint_source_for_test(path, source)
        .diagnostics
        .into_iter()
        .filter(|diagnostic| diagnostic.rule_name == "no-unused-vars")
        .map(|diagnostic| diagnostic.message)
        .collect()
}

#[test]
fn flags_unused_destructured_binding() {
    let messages = unused_var_messages(
        "test.js",
        "const { used, unused } = props;\nconsole.log(used);\n",
    );
    assert_eq!(messages, vec!["`unused` is declared but never used"]);
}

#[test]
fn flags_unused_parameter() {
    let messages =
        unused_var_messages("test.js", "function greet(name, unused) { return name; }\n");
    assert_eq!(messages, vec!["`unused` is declared but never used"]);
}

#[test]
fn ignores_underscore_prefixed_parameter() {
    let messages = unused_var_messages(
        "test.js",
        "function greet(name, _unused) { return name; }\n",
    );
    assert!(messages.is_empty());
}

#[test]
fn flags_unused_catch_binding() {
    let messages =
        unused_var_messages("test.js", "try { work(); } catch (error) { recover(); }\n");
    assert_eq!(messages, vec!["`error` is declared but never used"]);
}

#[test]
fn keeps_type_only_imports_used_in_type_positions() {
    let messages = unused_var_messages(
        "test.ts",
        "import type { Foo } from './types';\ntype Bar = Foo;\n",
    );
    assert!(messages.is_empty());
}

#[test]
fn keeps_normal_imports_used_in_generic_type_arguments() {
    let messages = unused_var_messages(
        "test.ts",
        "import { AppStore, AppStorePersist } from './types';\ncreate<AppStore>();\ncreate<AppStorePersist>();\n",
    );
    assert!(messages.is_empty());
}

#[test]
fn keeps_normal_imports_used_in_type_positions() {
    let messages = unused_var_messages(
        "test.ts",
        "import { Foo } from './types';\ntype Bar = Foo;\n",
    );
    assert!(messages.is_empty());
}

#[test]
fn ignores_exported_variable_declarations() {
    let messages =
        unused_var_messages("test.ts", "export const usePersistStore = createStore();\n");
    assert!(messages.is_empty());
}

#[test]
fn keeps_exported_local_bindings_used_via_specifiers() {
    let messages = unused_var_messages("test.ts", "const foo = 1;\nexport { foo };\n");
    assert!(messages.is_empty());
}

#[test]
fn keeps_aliased_exported_local_bindings_used_via_specifiers() {
    let messages = unused_var_messages("test.ts", "const foo = 1;\nexport { foo as bar };\n");
    assert!(messages.is_empty());
}

#[test]
fn keeps_variable_used_only_in_typeof() {
    let messages = unused_var_messages(
        "test.ts",
        "const actionTypes = { ADD: 'ADD' } as const;\ntype ActionType = typeof actionTypes;\n",
    );
    assert!(messages.is_empty());
}

#[test]
fn ignores_interface_method_signature_parameters() {
    let messages = unused_var_messages(
        "test.ts",
        "interface Response {\n  status(code: number): Response;\n  json(body: unknown): void;\n  setHeader(name: string, value: string): void;\n}\n",
    );
    assert!(messages.is_empty());
}

#[test]
fn ignores_function_type_alias_parameters() {
    let messages = unused_var_messages(
        "test.ts",
        "type NextFunction = (err?: unknown) => void;\n",
    );
    assert!(messages.is_empty());
}
