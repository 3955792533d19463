use flick_scan::lint::LintResult;
use flick_scan::project::ProjectInfo;
use flick_scan::pipeline::lint_source_with_project;

fn lint_source_for_test_with_project(path: &str, source: &str, project: &ProjectInfo) -> LintResult {
    lint_source_with_project(path, source, project)
}


fn rule_messages(rule_name: &str, source: &str) -> Vec<String> {
    lint_source_for_test_with_project("test.tsx", source, &ProjectInfo::test_react())
        .diagnostics
        .into_iter()
        .filter(|diagnostic| diagnostic.rule_name == rule_name)
        .map(|diagnostic| diagnostic.message)
        .collect()
}

#[test]
fn flags_simple_usememo() {
    let messages = rule_messages(
        "react/no-usememo-simple-expr",
        "import { useMemo } from 'react';\nexport function Demo({ a, b }) { const value = useMemo(() => a + b, [a, b]); return <div>{value}</div>; }\n",
    );
    assert_eq!(
        messages,
        vec!["Avoid wrapping trivial expressions in `useMemo`"]
    );
}

#[test]
fn flags_unstable_motion_props() {
    let messages = rule_messages(
        "react/no-unstable-motion-props",
        "export function Demo() { return <motion.div animate={{ x: 10 }} />; }\n",
    );
    assert_eq!(
        messages,
        vec!["Avoid recreating motion prop objects and functions on every render"]
    );
}

#[test]
fn flags_layout_animation() {
    let messages = rule_messages(
        "react/no-layout-animation",
        "export function Demo() { return <motion.div layout />; }\n",
    );
    assert_eq!(
        messages,
        vec!["Avoid layout animations on frequently rendered React surfaces"]
    );
}

#[test]
fn flags_animate_presence_in_list() {
    let messages = rule_messages(
        "react/no-animate-presence-in-list",
        "export function Demo({ items }) { return <AnimatePresence>{items.map(item => <div key={item} />)}</AnimatePresence>; }\n",
    );
    assert_eq!(
        messages,
        vec!["Avoid wrapping list rendering directly in `AnimatePresence`"]
    );
}

#[test]
fn flags_motion_in_list() {
    let messages = rule_messages(
        "react/no-motion-in-list",
        "export function Demo({ items }) { return items.map(item => <motion.div key={item} />); }\n",
    );
    assert_eq!(
        messages,
        vec!["Avoid rendering motion components directly inside large `.map()` lists"]
    );
}

#[test]
fn flags_prop_on_memo() {
    let messages = rule_messages(
        "react/no-prop-on-memo",
        "import { memo } from 'react'; const Card = memo(function Card(props) { return <div />; }); export function Demo() { return <Card options={{ dense: true }} />; }\n",
    );
    assert_eq!(
        messages,
        vec!["Avoid passing object, array, or function literals to memoized components"]
    );
}

#[test]
fn flags_hydration_flicker() {
    let messages = rule_messages(
        "react/no-hydration-flicker",
        "import { useState } from 'react'; export function Demo() { const [theme] = useState(localStorage.getItem('theme')); return <div>{theme}</div>; }\n",
    );
    assert_eq!(
        messages,
        vec!["Avoid reading client-only storage during `useState` initialization"]
    );
}

#[test]
fn flags_transition_all() {
    let messages = rule_messages(
        "react/no-transition-all",
        "export function Demo() { return <div className=\"transition-all duration-200\" />; }\n",
    );
    assert_eq!(
        messages,
        vec!["Avoid `transition-all`; transition only the properties you need"]
    );
}

#[test]
fn flags_will_change() {
    let messages = rule_messages(
        "react/no-will-change",
        "export function Demo() { return <div style={{ willChange: 'transform' }} />; }\n",
    );
    assert_eq!(
        messages,
        vec!["Avoid broad `will-change` hints that keep the browser in a promoted state"]
    );
}

#[test]
fn flags_blur_filter() {
    let messages = rule_messages(
        "react/no-blur-filter",
        "export function Demo() { return <div className=\"backdrop-blur-lg\" />; }\n",
    );
    assert_eq!(
        messages,
        vec!["Avoid expensive blur and backdrop-blur effects on interactive UI paths"]
    );
}

#[test]
fn flags_heavy_shadow() {
    let messages = rule_messages(
        "react/no-heavy-shadow",
        "export function Demo() { return <div className=\"shadow-2xl\" />; }\n",
    );
    assert_eq!(
        messages,
        vec!["Avoid large shadow effects on frequently updated UI"]
    );
}

#[test]
fn flags_barrel_import() {
    let messages = rule_messages(
        "react/no-barrel-import",
        "import { Button } from './components/index';\n",
    );
    assert_eq!(
        messages,
        vec!["Import from the concrete module instead of a barrel `index` file"]
    );
}

#[test]
fn flags_full_lodash() {
    let messages = rule_messages("react/no-full-lodash", "import _ from 'lodash';\n");
    assert_eq!(messages, vec!["Avoid importing the full `lodash` package"]);
}

#[test]
fn flags_moment() {
    let messages = rule_messages("react/no-moment", "import moment from 'moment';\n");
    assert_eq!(
        messages,
        vec!["Avoid `moment`; prefer smaller modern date utilities"]
    );
}

#[test]
fn flags_prefer_dynamic_import() {
    let messages = rule_messages(
        "react/prefer-dynamic-import",
        "import * as motion from 'framer-motion';\n",
    );
    assert_eq!(
        messages,
        vec!["Consider dynamically importing heavy client-side dependencies"]
    );
}

#[test]
fn flags_use_lazy_motion() {
    let messages = rule_messages(
        "react/use-lazy-motion",
        "import { motion } from 'framer-motion';\n",
    );
    assert_eq!(
        messages,
        vec!["Prefer `LazyMotion` and `m` over importing `motion` directly"]
    );
}

#[test]
fn flags_undeferred_script() {
    let messages = rule_messages(
        "react/no-undeferred-script",
        "export function Demo() { return <script src=\"/main.js\" />; }\n",
    );
    assert_eq!(
        messages,
        vec!["Add `async` or `defer` to external `<script>` tags"]
    );
}
