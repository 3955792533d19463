//! `no-explicit-any`: every `any` type annotation.
use vstd::prelude::*;

use crate::engine::{reports, scan_nodes, views, DiagView, LintContext};
use crate::lint::{LintDiagnostic, Severity};
use crate::text::chars_of;

verus! {

/// Flags usage of the `any` type in TypeScript.
pub struct NoExplicitAny;

/// What the rule reports at node `i`.
pub open spec fn any_report(cx: &LintContext, i: int) -> Option<DiagView> {
    if cx.ast.is(i, "TSAnyKeyword"@) {
        Some(cx.at_node("no-explicit-any"@, "Unexpected `any` type — use `unknown` for type-safe alternative"@, i, Severity::Warning))
    } else {
        None
    }
}

pub open spec fn any_reports(cx: &LintContext) -> spec_fn(int) -> Option<DiagView> {
    |i: int| any_report(cx, i)
}

impl NoExplicitAny {
    pub fn name(&self) -> (r: &'static str)
        ensures
            r@ == "no-explicit-any"@,
    {
        "no-explicit-any"
    }

    pub fn default_severity(&self) -> (r: Severity)
        ensures
            r == Severity::Warning,
    {
        Severity::Warning
    }

    /// One warning for each `any` keyword, in node order.
    pub fn run(&self, cx: &LintContext) -> (r: Vec<LintDiagnostic>)
        requires
            cx.wf(),
        ensures
            views(r@) == reports(cx.ast.nodes@.len() as int, any_reports(cx)),
    {
        let check = |i: usize| -> (d: Option<LintDiagnostic>)
            requires
                cx.wf(),
                i < cx.ast.nodes@.len(),
            ensures
                crate::engine::opt_diag(d) == any_report(cx, i as int),
        {
            if cx.ast.is_kind(i, "TSAnyKeyword") {
                let msg = chars_of("Unexpected `any` type — use `unknown` for type-safe alternative");
                Some(cx.node_diagnostic("no-explicit-any", &msg, i, Severity::Warning))
            } else {
                None
            }
        };
        scan_nodes(cx, check, Ghost(any_reports(cx)))
    }
}

} // verus!
