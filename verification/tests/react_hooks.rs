use flick_scan::lint::LintResult;
use flick_scan::project::ProjectInfo;
use flick_scan::pipeline::lint_source_with_project;

fn lint_source_for_test_with_project(path: &str, source: &str, project: &ProjectInfo) -> LintResult {
    lint_source_with_project(path, source, project)
}


fn rule_messages(rule_name: &str, source: &str) -> Vec<String> {
    lint_source_for_test_with_project("test.tsx", source, &ProjectInfo::test_react())
        .diagnostics
        .into_iter()
        .filter(|diagnostic| diagnostic.rule_name == rule_name)
        .map(|diagnostic| diagnostic.message)
        .collect()
}

#[test]
fn flags_derived_state_effect() {
    let messages = rule_messages(
        "react/no-derived-state-effect",
        "import { useEffect, useState } from 'react';\nfunction Demo({ value }) {\n  const [derived, setDerived] = useState(0);\n  useEffect(() => { setDerived(value); }, [value]);\n  return derived;\n}\n",
    );
    assert_eq!(
        messages,
        vec!["Avoid deriving state from effect dependencies; derive it during render instead"]
    );
}

#[test]
fn flags_fetch_in_effect() {
    let messages = rule_messages(
        "react/no-fetch-in-effect",
        "import { useEffect } from 'react';\nfunction Demo() {\n  useEffect(() => { fetch('/api'); }, []);\n  return null;\n}\n",
    );
    assert_eq!(
        messages,
        vec!["Move data fetching out of `useEffect` when possible"]
    );
}

#[test]
fn flags_cascading_set_state() {
    let messages = rule_messages(
        "react/no-cascading-set-state",
        "import { useEffect, useState } from 'react';\nfunction Demo() {\n  const [a, setA] = useState(0);\n  const [b, setB] = useState(0);\n  const [c, setC] = useState(0);\n  useEffect(() => { setA(1); setB(2); setC(3); }, []);\n  return a + b + c;\n}\n",
    );
    assert_eq!(
        messages,
        vec!["Avoid cascading multiple state updates inside a single effect"]
    );
}

#[test]
fn flags_effect_event_handler_shape() {
    let messages = rule_messages(
        "react/no-effect-event-handler",
        "import { useEffect, useState } from 'react';\nfunction Demo({ open }) {\n  const [value, setValue] = useState(0);\n  useEffect(() => { if (open) { setValue(1); } }, [open]);\n  return value;\n}\n",
    );
    assert_eq!(
        messages,
        vec!["Avoid using `useEffect` as an event handler wrapper"]
    );
}

#[test]
fn flags_derived_use_state() {
    let messages = rule_messages(
        "react/no-derived-use-state",
        "import { useState } from 'react';\nfunction Demo({ value }) {\n  const [derived] = useState(value);\n  return derived;\n}\n",
    );
    assert_eq!(
        messages,
        vec!["Avoid initializing state directly from component props"]
    );
}

#[test]
fn flags_many_use_state_calls() {
    let messages = rule_messages(
        "react/prefer-use-reducer",
        "import { useState } from 'react';\nfunction Demo() {\n  const [a] = useState(0);\n  const [b] = useState(0);\n  const [c] = useState(0);\n  const [d] = useState(0);\n  const [e] = useState(0);\n  return a + b + c + d + e;\n}\n",
    );
    assert_eq!(
        messages,
        vec!["Consider `useReducer` when a component owns many `useState` hooks"]
    );
}

#[test]
fn flags_eager_state_init() {
    let messages = rule_messages(
        "react/lazy-state-init",
        "import { useState } from 'react';\nfunction Demo() {\n  const [value] = useState(expensive());\n  return value;\n}\n",
    );
    assert_eq!(
        messages,
        vec!["Wrap expensive `useState` initialization in a lazy initializer"]
    );
}

#[test]
fn flags_non_functional_set_state() {
    let messages = rule_messages(
        "react/functional-set-state",
        "import { useState } from 'react';\nfunction Demo() {\n  const [count, setCount] = useState(0);\n  setCount(count + 1);\n  return count;\n}\n",
    );
    assert_eq!(
        messages,
        vec!["Use functional `setState` updates when the next value depends on previous state"]
    );
}

#[test]
fn flags_unstable_deps() {
    let messages = rule_messages(
        "react/unstable-deps",
        "import { useEffect } from 'react';\nfunction Demo() {\n  useEffect(() => {}, [{}]);\n  return null;\n}\n",
    );
    assert_eq!(
        messages,
        vec!["Avoid object, array, or function literals in hook dependency arrays"]
    );
}
