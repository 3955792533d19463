//! React architecture rules: giant components, `render*()` helpers called
//! from JSX, and components defined inside components.
use vstd::prelude::*;

use crate::ast::{wf_nodes, Ast};
use crate::engine::{decimal, decimal_chars, gated, line_col, offset_to_line_col, opt_diag, reports, scan_nodes, views,
    DiagView, LintContext};
use crate::estree::{ident_name, ident_name_exec, nearest_ancestor, nearest_ancestor_exec, unparen, unparen_exec};
use crate::lint::{LintDiagnostic, Severity};
use crate::project::ProjectInfo;
use crate::rules::react::helpers::{component_name, file_uses_react_exec, prefixed_upper};
use crate::rules::react::performance::uses_react_cx;
use crate::text::{chars_of, concat_chars, starts_with_str};

verus! {

/// The name a component identifier node `id` gives, when it is a component name.
pub open spec fn component_id_name(ast: Ast, id: int) -> Option<Seq<char>> {
    match ident_name(ast, id) {
        Some(n) => if component_name(n) {
            Some(n)
        } else {
            None
        },
        None => None,
    }
}

/// For a component defined at node `i` (a function named with an
/// upper-case letter, or an arrow function assigned to such a name): its
/// name and the identifier node that names it.
pub open spec fn component_definition(ast: Ast, i: int) -> Option<(Seq<char>, int)> {
    if ast.is(i, "FunctionDeclaration"@) || ast.is(i, "FunctionExpression"@) {
        match ast.child(i, "id"@) {
            Some(id) => match component_id_name(ast, id) {
                Some(n) => Some((n, id)),
                None => None,
            },
            None => None,
        }
    } else if ast.is(i, "ArrowFunctionExpression"@) {
        let p = ast.nodes@[i].parent as int;
        if ast.is(p, "VariableDeclarator"@) {
            match ast.child(p, "id"@) {
                Some(id) => match component_id_name(ast, id) {
                    Some(n) => Some((n, id)),
                    None => None,
                },
                None => None,
            }
        } else {
            None
        }
    } else {
        None
    }
}

/// The number of lines that node `i` spans.
pub open spec fn node_lines(cx: &LintContext, i: int) -> nat {
    let first = line_col(cx.source@, cx.ast.nodes@[i].start as int).0;
    let last = line_col(cx.source@, cx.ast.nodes@[i].end as int).0;
    (if last >= first {
        (last - first) as nat
    } else {
        0nat
    }) + 1
}

/// The message for a component `name` of `lines` lines.
pub open spec fn giant_message(name: Seq<char>, lines: nat) -> Seq<char> {
    "Component `"@ + name + "` spans "@ + decimal(lines) + " lines; consider splitting it up"@
}

/// What `no-giant-component` reports at node `i`: components over 300 lines.
pub open spec fn giant_report(cx: &LintContext, i: int) -> Option<DiagView> {
    if uses_react_cx(cx) {
        match component_definition(cx.ast, i) {
            Some((n, id)) => if node_lines(cx, i) > 300 {
                Some(
                    cx.at_node(
                        "react/no-giant-component"@,
                        giant_message(n, node_lines(cx, i)),
                        id,
                        Severity::Warning,
                    ),
                )
            } else {
                None
            },
            None => None,
        }
    } else {
        None
    }
}

pub open spec fn giant_reports(cx: &LintContext) -> spec_fn(int) -> Option<DiagView> {
    |i: int| giant_report(cx, i)
}

/// Node `i` calls a `render*()` helper (`render` and an upper-case letter)
/// inside a JSX expression container.
pub open spec fn render_in_render(ast: Ast, i: int) -> bool {
    ast.is(i, "CallExpression"@) && match ast.child(i, "callee"@) {
        Some(c) => match ident_name(ast, unparen(ast, c)) {
            Some(n) => prefixed_upper(n, "render"@),
            None => false,
        },
        None => false,
    } && nearest_ancestor(ast, i, |q: int| ast.is(q, "JSXExpressionContainer"@)) is Some
}

/// What `no-render-in-render` reports at node `i`.
pub open spec fn render_report(cx: &LintContext, i: int) -> Option<DiagView> {
    if uses_react_cx(cx) && render_in_render(cx.ast, i) {
        Some(
            cx.at_node(
                "react/no-render-in-render"@,
                "Avoid calling `render*()` helpers directly from JSX"@,
                i,
                Severity::Warning,
            ),
        )
    } else {
        None
    }
}

pub open spec fn render_reports(cx: &LintContext) -> spec_fn(int) -> Option<DiagView> {
    |i: int| render_report(cx, i)
}

/// The message for component `inner` defined inside component `outer`.
pub open spec fn nested_message(inner: Seq<char>, outer: Seq<char>) -> Seq<char> {
    "Component `"@ + inner + "` is defined inside component `"@ + outer + "`"@
}

/// What `no-nested-component` reports at node `i`: a component defined
/// inside another, named after both.
pub open spec fn nested_report(cx: &LintContext, i: int) -> Option<DiagView> {
    let ast = cx.ast;
    if uses_react_cx(cx) {
        match (component_definition(ast, i), nearest_ancestor(ast, i, |q: int| component_definition(ast, q) is Some)) {
            (Some((n, id)), Some(q)) => match component_definition(ast, q) {
                Some((outer, _)) => Some(
                    cx.at_node("react/no-nested-component"@, nested_message(n, outer), id, Severity::Warning),
                ),
                None => None,
            },
            _ => None,
        }
    } else {
        None
    }
}

pub open spec fn nested_reports(cx: &LintContext) -> spec_fn(int) -> Option<DiagView> {
    |i: int| nested_report(cx, i)
}

fn component_id_name_exec(ast: &Ast, id: usize) -> (r: Option<Vec<char>>)
    requires
        ast.wf(),
        id < ast.nodes@.len(),
    ensures
        crate::estree::opt_seq(r) == component_id_name(*ast, id as int),
{
    match ident_name_exec(ast, id) {
        Some(n) => if n.len() > 0 && 'A' <= n[0] && n[0] <= 'Z' {
            Some(n)
        } else {
            None
        },
        None => None,
    }
}

fn component_definition_exec(ast: &Ast, i: usize) -> (r: Option<(Vec<char>, usize)>)
    requires
        ast.wf(),
        i < ast.nodes@.len(),
    ensures
        match r {
            Some((n, id)) => id < ast.nodes@.len() && component_definition(*ast, i as int) == Some(
                (n@, id as int),
            ),
            None => component_definition(*ast, i as int) is None,
        },
{
    let id = if ast.is_kind(i, "FunctionDeclaration") || ast.is_kind(i, "FunctionExpression") {
        match ast.child_of(i, "id") {
            Some(id) => id,
            None => {
                return None;
            },
        }
    } else if ast.is_kind(i, "ArrowFunctionExpression") {
        let p = ast.nodes[i].parent;
        if !ast.is_kind(p, "VariableDeclarator") {
            return None;
        }
        match ast.child_of(p, "id") {
            Some(id) => id,
            None => {
                return None;
            },
        }
    } else {
        return None;
    };
    match component_id_name_exec(ast, id) {
        Some(n) => Some((n, id)),
        None => None,
    }
}

fn node_lines_exec(cx: &LintContext, i: usize) -> (r: usize)
    requires
        cx.wf(),
        i < cx.ast.nodes@.len(),
    ensures
        r as nat == node_lines(cx, i as int),
{
    let (first, _) = offset_to_line_col(&cx.source, cx.ast.nodes[i].start);
    let (last, _) = offset_to_line_col(&cx.source, cx.ast.nodes[i].end);
    let gap: usize = if last >= first {
        last - first
    } else {
        0
    };
    gap + 1
}

fn giant_check(cx: &LintContext, i: usize) -> (d: Option<LintDiagnostic>)
    requires
        cx.wf(),
        i < cx.ast.nodes@.len(),
        uses_react_cx(cx),
    ensures
        opt_diag(d) == giant_report(cx, i as int),
{
    let (n, id) = match component_definition_exec(&cx.ast, i) {
        Some(def) => def,
        None => {
            return None;
        },
    };
    let lines = node_lines_exec(cx, i);
    if lines <= 300 {
        return None;
    }
    let msg = concat_chars(
        &concat_chars(
            &concat_chars(&concat_chars(&chars_of("Component `"), &n), &chars_of("` spans ")),
            &decimal_chars(lines),
        ),
        &chars_of(" lines; consider splitting it up"),
    );
    Some(cx.node_diagnostic("react/no-giant-component", &msg, id, Severity::Warning))
}

fn render_in_render_exec(ast: &Ast, i: usize) -> (b: bool)
    requires
        ast.wf(),
        i < ast.nodes@.len(),
    ensures
        b == render_in_render(*ast, i as int),
{
    if !ast.is_kind(i, "CallExpression") {
        return false;
    }
    let named = match ast.child_of(i, "callee") {
        Some(c) => match ident_name_exec(ast, unparen_exec(ast, c)) {
            Some(n) => {
                proof {
                    reveal_strlit("render");
                }
                starts_with_str(&n, "render") && n.len() > 6 && 'A' <= n[6] && n[6] <= 'Z'
            },
            None => false,
        },
        None => false,
    };
    if !named {
        return false;
    }
    let test = |q: usize| -> (b: bool)
        requires
            q < ast.nodes@.len(),
        ensures
            b == ast.is(q as int, "JSXExpressionContainer"@),
    { ast.is_kind(q, "JSXExpressionContainer") };
    nearest_ancestor_exec(ast, i, test, Ghost(|q: int| ast.is(q, "JSXExpressionContainer"@))).is_some()
}

fn nested_check(cx: &LintContext, i: usize) -> (d: Option<LintDiagnostic>)
    requires
        cx.wf(),
        i < cx.ast.nodes@.len(),
        uses_react_cx(cx),
    ensures
        opt_diag(d) == nested_report(cx, i as int),
{
    let ast = &cx.ast;
    let (n, id) = match component_definition_exec(ast, i) {
        Some(def) => def,
        None => {
            return None;
        },
    };
    let test = |q: usize| -> (b: bool)
        requires
            wf_nodes(ast.nodes@),
            q < ast.nodes@.len(),
        ensures
            b == (component_definition(*ast, q as int) is Some),
    { component_definition_exec(ast, q).is_some() };
    let q = match nearest_ancestor_exec(ast, i, test, Ghost(|q: int| component_definition(*ast, q) is Some)) {
        Some(q) => q,
        None => {
            return None;
        },
    };
    match component_definition_exec(ast, q) {
        Some((outer, _)) => {
            let msg = concat_chars(
                &concat_chars(
                    &concat_chars(&concat_chars(&chars_of("Component `"), &n), &chars_of("` is defined inside component `")),
                    &outer,
                ),
                &chars_of("`"),
            );
            Some(cx.node_diagnostic("react/no-nested-component", &msg, id, Severity::Warning))
        },
        None => None,
    }
}

/// Flags components that span more than 300 lines.
pub struct NoGiantComponent;

impl NoGiantComponent {
    pub fn name(&self) -> (r: &'static str)
        ensures
            r@ == "react/no-giant-component"@,
    {
        "react/no-giant-component"
    }

    /// In a React project, one warning per component over 300 lines, at its name.
    pub fn run(&self, cx: &LintContext, project: &ProjectInfo) -> (r: Vec<LintDiagnostic>)
        requires
            cx.wf(),
        ensures
            views(r@) == gated(project.has_react, reports(cx.ast.nodes@.len() as int, giant_reports(cx))),
    {
        if !project.has_react {
            return Vec::new();
        }
        let uses_react = file_uses_react_exec(&cx.ast);
        let check = |i: usize| -> (d: Option<LintDiagnostic>)
            requires
                cx.wf(),
                i < cx.ast.nodes@.len(),
                uses_react == uses_react_cx(cx),
            ensures
                opt_diag(d) == giant_report(cx, i as int),
        {
            if uses_react {
                giant_check(cx, i)
            } else {
                None
            }
        };
        scan_nodes(cx, check, Ghost(giant_reports(cx)))
    }
}

/// Flags `render*()` helpers called from JSX.
pub struct NoRenderInRender;

impl NoRenderInRender {
    pub fn name(&self) -> (r: &'static str)
        ensures
            r@ == "react/no-render-in-render"@,
    {
        "react/no-render-in-render"
    }

    /// In a React project, one warning per `render*()` call inside a JSX expression.
    pub fn run(&self, cx: &LintContext, project: &ProjectInfo) -> (r: Vec<LintDiagnostic>)
        requires
            cx.wf(),
        ensures
            views(r@) == gated(project.has_react, reports(cx.ast.nodes@.len() as int, render_reports(cx))),
    {
        if !project.has_react {
            return Vec::new();
        }
        let uses_react = file_uses_react_exec(&cx.ast);
        let check = |i: usize| -> (d: Option<LintDiagnostic>)
            requires
                cx.wf(),
                i < cx.ast.nodes@.len(),
                uses_react == uses_react_cx(cx),
            ensures
                opt_diag(d) == render_report(cx, i as int),
        {
            if uses_react && render_in_render_exec(&cx.ast, i) {
                let msg = chars_of("Avoid calling `render*()` helpers directly from JSX");
                Some(cx.node_diagnostic("react/no-render-in-render", &msg, i, Severity::Warning))
            } else {
                None
            }
        };
        scan_nodes(cx, check, Ghost(render_reports(cx)))
    }
}

/// Flags components defined inside other components.
pub struct NoNestedComponent;

impl NoNestedComponent {
    pub fn name(&self) -> (r: &'static str)
        ensures
            r@ == "react/no-nested-component"@,
    {
        "react/no-nested-component"
    }

    /// In a React project, one warning per component defined inside another.
    pub fn run(&self, cx: &LintContext, project: &ProjectInfo) -> (r: Vec<LintDiagnostic>)
        requires
            cx.wf(),
        ensures
            views(r@) == gated(project.has_react, reports(cx.ast.nodes@.len() as int, nested_reports(cx))),
    {
        if !project.has_react {
            return Vec::new();
        }
        let uses_react = file_uses_react_exec(&cx.ast);
        let check = |i: usize| -> (d: Option<LintDiagnostic>)
            requires
                cx.wf(),
                i < cx.ast.nodes@.len(),
                uses_react == uses_react_cx(cx),
            ensures
                opt_diag(d) == nested_report(cx, i as int),
        {
            if uses_react {
                nested_check(cx, i)
            } else {
                None
            }
        };
        scan_nodes(cx, check, Ghost(nested_reports(cx)))
    }
}

} // verus!
