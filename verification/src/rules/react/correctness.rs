//! React correctness rules: index keys, `preventDefault` in handlers, and
//! `.length && <JSX>` that can render `0`.
use vstd::prelude::*;

use crate::ast::{wf_nodes, Ast};
use crate::engine::{any_node, any_node_exec, first_where, first_where_exec, gated, opt_diag, reports, scan_nodes,
    views, DiagView, LintContext};
use crate::estree::{ident_name, ident_name_exec, member_static_name, member_static_name_exec, unparen, unparen_exec};
use crate::lint::{LintDiagnostic, Severity};
use crate::project::ProjectInfo;
use crate::rules::react::helpers::{
    attr_expression, attr_expression_exec, attr_is, attr_is_exec, file_uses_react, file_uses_react_exec, opening_name,
    opening_name_exec, span_within,
};
use crate::rules::react::performance::uses_react_cx;
use crate::rules::server::helpers::{call_method, call_method_exec, span_within_exec};
use crate::text::{chars_of, ends_with, ends_with_str, eq_str};

verus! {

/// A name that reads as an array index: `index`, `idx`, `i` or `...Index`.
pub open spec fn index_name(n: Seq<char>) -> bool {
    n == "index"@ || n == "idx"@ || n == "i"@ || ends_with(n, "Index"@)
}

/// Node `i` is `key={index}`.
pub open spec fn index_key(ast: Ast, i: int) -> bool {
    attr_is(ast, i, "key"@) && match attr_expression(ast, i) {
        Some(e) => ast.is(e, "Identifier"@) && match ident_name(ast, e) {
            Some(n) => index_name(n),
            None => false,
        },
        None => false,
    }
}

/// The handler attribute that `<form>` (`onSubmit`) and `<a>` (`onClick`) carry.
pub open spec fn handler_attribute_name(tag: Seq<char>) -> Option<Seq<char>> {
    if tag == "form"@ {
        Some("onSubmit"@)
    } else if tag == "a"@ {
        Some("onClick"@)
    } else {
        None
    }
}

/// Node `k`, within node `e`, calls `.preventDefault()`.
pub open spec fn prevent_default_within(ast: Ast, e: int, k: int) -> bool {
    ast.is(k, "CallExpression"@) && span_within(ast, e, k) && call_method(ast, k) == Some("preventDefault"@)
}

/// The attribute `<form>`/`<a>` opening element `i` reports: its first
/// handler attribute, when its handler calls `preventDefault`.
pub open spec fn prevent_default_target(ast: Ast, i: int) -> Option<int> {
    if ast.is(i, "JSXOpeningElement"@) {
        match opening_name(ast, i) {
            Some(tag) => match handler_attribute_name(tag) {
                Some(attr) => match first_where(ast.field_children(i, "attributes"@), |a: usize| attr_is(ast, a as int, attr)) {
                    Some(a) => match attr_expression(ast, a as int) {
                        Some(e) => if any_node(ast.nodes@.len() as int, |k: int| prevent_default_within(ast, e, k)) {
                            Some(a as int)
                        } else {
                            None
                        },
                        None => None,
                    },
                    None => None,
                },
                None => None,
            },
            None => None,
        }
    } else {
        None
    }
}

/// Node `i` is `x.length && <JSX>`.
pub open spec fn length_and_jsx(ast: Ast, i: int) -> bool {
    ast.is(i, "LogicalExpression"@) && ast.text(i, "operator"@) == Some("&&"@) && match (
        ast.child(i, "left"@),
        ast.child(i, "right"@),
    ) {
        (Some(l), Some(r)) => member_static_name(ast, unparen(ast, l)) == Some("length"@) && (ast.is(
            unparen(ast, r),
            "JSXElement"@,
        ) || ast.is(unparen(ast, r), "JSXFragment"@)),
        _ => false,
    }
}

/// The correctness rules, told apart by what each inspects.
#[derive(Debug, Clone, Copy, PartialEq, Eq, Structural)]
pub enum CorrectnessRule {
    ArrayIndexKey,
    PreventDefault,
    ConditionalRenderZero,
}

impl CorrectnessRule {
    pub open spec fn rule(self) -> Seq<char> {
        match self {
            CorrectnessRule::ArrayIndexKey => "react/no-array-index-key"@,
            CorrectnessRule::PreventDefault => "react/no-prevent-default"@,
            CorrectnessRule::ConditionalRenderZero => "react/no-conditional-render-zero"@,
        }
    }

    pub open spec fn message(self) -> Seq<char> {
        match self {
            CorrectnessRule::ArrayIndexKey => "Avoid using array indexes as React keys"@,
            CorrectnessRule::PreventDefault => "Avoid relying on `preventDefault()` in JSX event handlers when native behavior should remain intact"@,
            CorrectnessRule::ConditionalRenderZero => "`.length && <JSX>` can render `0`; compare the length explicitly instead"@,
        }
    }

    /// The node the rule reports at node `i`, if any.
    pub open spec fn target(self, ast: Ast, i: int) -> Option<int> {
        match self {
            CorrectnessRule::ArrayIndexKey => if index_key(ast, i) {
                Some(i)
            } else {
                None
            },
            CorrectnessRule::PreventDefault => prevent_default_target(ast, i),
            CorrectnessRule::ConditionalRenderZero => if length_and_jsx(ast, i) {
                Some(i)
            } else {
                None
            },
        }
    }

    /// What the rule reports at node `i` in a file that uses React.
    pub open spec fn report(self, cx: &LintContext, i: int) -> Option<DiagView> {
        if uses_react_cx(cx) {
            match self.target(cx.ast, i) {
                Some(t) => Some(cx.at_node(self.rule(), self.message(), t, Severity::Warning)),
                None => None,
            }
        } else {
            None
        }
    }

    pub open spec fn reports_fn(self, cx: &LintContext) -> spec_fn(int) -> Option<DiagView> {
        |i: int| self.report(cx, i)
    }

    /// The rule's name.
    pub fn name(&self) -> (r: &'static str)
        ensures
            r@ == self.rule(),
    {
        match self {
            CorrectnessRule::ArrayIndexKey => "react/no-array-index-key",
            CorrectnessRule::PreventDefault => "react/no-prevent-default",
            CorrectnessRule::ConditionalRenderZero => "react/no-conditional-render-zero",
        }
    }

    fn message_exec(&self) -> (r: &'static str)
        ensures
            r@ == self.message(),
    {
        match self {
            CorrectnessRule::ArrayIndexKey => "Avoid using array indexes as React keys",
            CorrectnessRule::PreventDefault => "Avoid relying on `preventDefault()` in JSX event handlers when native behavior should remain intact",
            CorrectnessRule::ConditionalRenderZero => "`.length && <JSX>` can render `0`; compare the length explicitly instead",
        }
    }

    fn target_exec(&self, ast: &Ast, i: usize) -> (r: Option<usize>)
        requires
            ast.wf(),
            i < ast.nodes@.len(),
        ensures
            match r {
                Some(t) => t < ast.nodes@.len() && self.target(*ast, i as int) == Some(t as int),
                None => self.target(*ast, i as int) is None,
            },
    {
        match self {
            CorrectnessRule::ArrayIndexKey => if index_key_exec(ast, i) {
                Some(i)
            } else {
                None
            },
            CorrectnessRule::PreventDefault => prevent_default_exec(ast, i),
            CorrectnessRule::ConditionalRenderZero => if length_and_jsx_exec(ast, i) {
                Some(i)
            } else {
                None
            },
        }
    }

    /// In a React project, one warning per node the rule flags, in node
    /// order, when the file uses React.
    pub fn run(&self, cx: &LintContext, project: &ProjectInfo) -> (r: Vec<LintDiagnostic>)
        requires
            cx.wf(),
        ensures
            views(r@) == gated(project.has_react, reports(cx.ast.nodes@.len() as int, self.reports_fn(cx))),
    {
        if !project.has_react {
            return Vec::new();
        }
        let uses_react = file_uses_react_exec(&cx.ast);
        let check = |i: usize| -> (d: Option<LintDiagnostic>)
            requires
                cx.wf(),
                i < cx.ast.nodes@.len(),
                uses_react == uses_react_cx(cx),
            ensures
                opt_diag(d) == self.report(cx, i as int),
        {
            if !uses_react {
                return None;
            }
            match self.target_exec(&cx.ast, i) {
                Some(t) => Some(cx.node_diagnostic(self.name(), &chars_of(self.message_exec()), t, Severity::Warning)),
                None => None,
            }
        };
        scan_nodes(cx, check, Ghost(self.reports_fn(cx)))
    }
}

fn index_key_exec(ast: &Ast, i: usize) -> (b: bool)
    requires
        ast.wf(),
        i < ast.nodes@.len(),
    ensures
        b == index_key(*ast, i as int),
{
    attr_is_exec(ast, i, "key") && match attr_expression_exec(ast, i) {
        Some(e) => ast.is_kind(e, "Identifier") && match ident_name_exec(ast, e) {
            Some(n) => eq_str(&n, "index") || eq_str(&n, "idx") || eq_str(&n, "i") || ends_with_str(&n, "Index"),
            None => false,
        },
        None => false,
    }
}

fn handler_attr_exec(ast: &Ast, i: usize, attr: &str) -> (r: Option<usize>)
    requires
        ast.wf(),
        i < ast.nodes@.len(),
    ensures
        r == first_where(ast.field_children(i as int, "attributes"@), |a: usize| attr_is(*ast, a as int, attr@)),
        r matches Some(a) ==> a < ast.nodes@.len(),
{
    let attrs = ast.children_in(i, "attributes");
    let test = |a: usize| -> (b: bool)
        requires
            wf_nodes(ast.nodes@),
            a < ast.nodes@.len(),
        ensures
            b == attr_is(*ast, a as int, attr@),
    { attr_is_exec(ast, a, attr) };
    let r = first_where_exec(&attrs, test, Ghost(|a: usize| attr_is(*ast, a as int, attr@)));
    proof {
        crate::engine::lemma_first_where_in(attrs@, |a: usize| attr_is(*ast, a as int, attr@));
    }
    r
}

fn prevent_default_exec(ast: &Ast, i: usize) -> (r: Option<usize>)
    requires
        ast.wf(),
        i < ast.nodes@.len(),
    ensures
        match r {
            Some(t) => t < ast.nodes@.len() && prevent_default_target(*ast, i as int) == Some(t as int),
            None => prevent_default_target(*ast, i as int) is None,
        },
{
    if !ast.is_kind(i, "JSXOpeningElement") {
        return None;
    }
    let tag = match opening_name_exec(ast, i) {
        Some(t) => t,
        None => {
            return None;
        },
    };
    let attr = if eq_str(&tag, "form") {
        "onSubmit"
    } else if eq_str(&tag, "a") {
        "onClick"
    } else {
        return None;
    };
    let a = match handler_attr_exec(ast, i, attr) {
        Some(a) => a,
        None => {
            return None;
        },
    };
    let e = match attr_expression_exec(ast, a) {
        Some(e) => e,
        None => {
            return None;
        },
    };
    let test = |k: usize| -> (b: bool)
        requires
            wf_nodes(ast.nodes@),
            e < ast.nodes@.len(),
            k < ast.nodes@.len(),
        ensures
            b == prevent_default_within(*ast, e as int, k as int),
    {
        ast.is_kind(k, "CallExpression") && span_within_exec(ast, e, k) && match call_method_exec(ast, k) {
            Some(m) => eq_str(&m, "preventDefault"),
            None => false,
        }
    };
    if any_node_exec(ast.nodes.len(), test, Ghost(|k: int| prevent_default_within(*ast, e as int, k))) {
        Some(a)
    } else {
        None
    }
}

fn length_and_jsx_exec(ast: &Ast, i: usize) -> (b: bool)
    requires
        ast.wf(),
        i < ast.nodes@.len(),
    ensures
        b == length_and_jsx(*ast, i as int),
{
    if !ast.is_kind(i, "LogicalExpression") {
        return false;
    }
    let and = match ast.text_of(i, "operator") {
        Some(op) => eq_str(op, "&&"),
        None => false,
    };
    and && match (ast.child_of(i, "left"), ast.child_of(i, "right")) {
        (Some(l), Some(r)) => {
            let length = match member_static_name_exec(ast, unparen_exec(ast, l)) {
                Some(m) => eq_str(&m, "length"),
                None => false,
            };
            let u = unparen_exec(ast, r);
            length && (ast.is_kind(u, "JSXElement") || ast.is_kind(u, "JSXFragment"))
        },
        _ => false,
    }
}

} // verus!
