use flick_scan::lint::LintResult;
use flick_scan::pipeline::lint_source_at_path;

fn lint_source_for_test(path: &str, source: &str) -> LintResult {
    lint_source_at_path(path, source)
}


fn rule_messages(rule_name: &str, path: &str, source: &str) -> Vec<String> {
    lint_source_for_test(path, source)
        .diagnostics
        .into_iter()
        .filter(|diagnostic| diagnostic.rule_name == rule_name)
        .map(|diagnostic| diagnostic.message)
        .collect()
}

#[test]
fn flags_chained_array_iterations() {
    let messages = rule_messages(
        "no-chained-array-iterations",
        "test.ts",
        "items.map(fn).filter(Boolean);\n",
    );
    assert_eq!(
        messages,
        vec!["Collapse chained array iterations into a single pass when possible"]
    );
}

#[test]
fn flags_clone_then_sort() {
    let messages = rule_messages("prefer-tosorted", "test.ts", "[...items].sort();\n");
    assert_eq!(
        messages,
        vec!["Prefer `toSorted()` over cloning an array and calling `sort()`"]
    );
}

#[test]
fn flags_regexp_in_loop() {
    let messages = rule_messages(
        "no-regexp-in-loop",
        "test.ts",
        "for (const item of items) { new RegExp(item); }\n",
    );
    assert_eq!(
        messages,
        vec!["Move regular expression construction out of the loop"]
    );
}

#[test]
fn flags_sort_then_zero_index() {
    let messages = rule_messages(
        "prefer-math-min-max",
        "test.ts",
        "const first = values.sort()[0];\n",
    );
    assert_eq!(
        messages,
        vec!["Use `Math.min`/`Math.max` instead of sorting to read the first element"]
    );
}

#[test]
fn flags_includes_in_loop() {
    let messages = rule_messages(
        "no-array-includes-in-loop",
        "test.ts",
        "for (const item of items) { selected.includes(item); }\n",
    );
    assert_eq!(
        messages,
        vec!["Hoist repeated `includes()` lookups out of loops or use a Set"]
    );
}

#[test]
fn flags_find_in_loop() {
    let messages = rule_messages(
        "no-array-find-in-loop",
        "test.ts",
        "while (ready) { collection.find(match); }\n",
    );
    assert_eq!(
        messages,
        vec!["Hoist repeated `find()` lookups out of loops or pre-index the data"]
    );
}

#[test]
fn flags_repeated_style_assignment() {
    let messages = rule_messages(
        "no-sequential-style-assignment",
        "test.ts",
        "el.style.color = 'red';\nel.style.display = 'none';\n",
    );
    assert_eq!(
        messages,
        vec!["Group repeated `.style` mutations into a single style update"]
    );
}

#[test]
fn flags_duplicate_storage_reads() {
    let messages = rule_messages(
        "no-duplicate-storage-reads",
        "test.ts",
        "const a = localStorage.getItem('theme');\nconst b = localStorage.getItem('theme');\n",
    );
    assert_eq!(
        messages,
        vec!["Avoid duplicate storage reads within the same scope"]
    );
}

#[test]
fn flags_deep_if_nesting() {
    let messages = rule_messages(
        "no-deep-nesting",
        "test.ts",
        "if (a) { if (b) { if (c) { if (d) { work(); } } } }\n",
    );
    assert_eq!(messages, vec!["Reduce deeply nested conditionals"]);
}

#[test]
fn flags_three_sequential_awaits() {
    let messages = rule_messages(
        "prefer-promise-all",
        "test.ts",
        "async function run() {\n  const a = await fetchA();\n  const b = await fetchB();\n  const c = await fetchC();\n}\n",
    );
    assert_eq!(
        messages,
        vec!["Combine sequential independent awaits with `Promise.all()` when possible"]
    );
}
