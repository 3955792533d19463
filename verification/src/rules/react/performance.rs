//! React rendering-performance rules: trivial `useMemo`, unstable motion
//! props, list animations, literals passed to memoized components, storage
//! reads during hydration, direct `motion` imports and blocking scripts.
use vstd::prelude::*;

use crate::ast::Ast;
use crate::engine::{
    any_node, any_node_exec, first_where, first_where_exec, gated, opt_diag, reports, scan_nodes, views, DiagView,
    LintContext,
};
use crate::estree::{
    ident_name, ident_name_exec, is_ident, is_ident_exec, member_static_name, member_static_name_exec, nth_child,
    nth_child_exec, opt_seq, string_value, string_value_exec, unparen, unparen_exec,
};
use crate::frontend::ReferenceFact;
use crate::lint::{LintDiagnostic, Severity};
use crate::project::ProjectInfo;
use crate::rules::no_missing_return::{statements, statements_exec};
use crate::rules::react::helpers::{
    attr_is, attr_is_exec, callee_static_name, callee_static_name_exec, file_uses_react, file_uses_react_exec,
    hook_call, hook_call_exec, import_source, import_source_exec, is_reference, is_reference_exec, opening_name,
    opening_name_exec, span_within, unstable_attr, unstable_attr_exec,
};
use crate::text::{chars_of, eq_str, starts_with, starts_with_str};

verus! {

// ── Trivial useMemo ────────────────────────────────────────

/// The expression a one-statement function body yields.
pub open spec fn body_result(ast: Ast, b: int) -> Option<int> {
    let stmts = statements(ast, b);
    if stmts.len() == 1 {
        let s = stmts[0] as int;
        if ast.is(s, "ReturnStatement"@) {
            ast.child(s, "argument"@)
        } else if ast.is(s, "ExpressionStatement"@) {
            ast.child(s, "expression"@)
        } else {
            None
        }
    } else {
        None
    }
}

/// The expression the callback passed first to call `i` returns.
pub open spec fn callback_result(ast: Ast, i: int) -> Option<int> {
    match nth_child(ast, i, "arguments"@, 0) {
        Some(a) => if ast.is(a, "ArrowFunctionExpression"@) {
            match ast.child(a, "body"@) {
                Some(b) => if ast.flag(a, "expression"@) {
                    Some(b)
                } else {
                    body_result(ast, b)
                },
                None => None,
            }
        } else if ast.is(a, "FunctionExpression"@) {
            match ast.child(a, "body"@) {
                Some(b) => body_result(ast, b),
                None => None,
            }
        } else {
            None
        },
        None => None,
    }
}

/// Expression `e` is an identifier, literal, member access, or an
/// operator or template over such expressions.
pub open spec fn simple_expression(ast: Ast, e: int) -> bool
    decreases ast.nodes@.len() - e, 1int,
{
    let u = unparen(ast, e);
    if !(0 <= e <= u < ast.nodes@.len()) {
        false
    } else if ast.is(u, "Identifier"@) || ast.is(u, "Literal"@) {
        true
    } else if ast.is(u, "MemberExpression"@) {
        match ast.child(u, "property"@) {
            Some(p) => !ast.is(p, "PrivateIdentifier"@),
            None => false,
        }
    } else if ast.is(u, "UnaryExpression"@) {
        match ast.child(u, "argument"@) {
            Some(a) => e < a < ast.nodes@.len() && simple_expression(ast, a),
            None => false,
        }
    } else if ast.is(u, "BinaryExpression"@) || ast.is(u, "LogicalExpression"@) {
        match (ast.child(u, "left"@), ast.child(u, "right"@)) {
            (Some(l), Some(r)) => e < l < ast.nodes@.len() && e < r < ast.nodes@.len() && simple_expression(ast, l)
                && simple_expression(ast, r),
            _ => false,
        }
    } else if ast.is(u, "TemplateLiteral"@) {
        all_simple(ast, e, ast.field_children(u, "expressions"@), ast.field_children(u, "expressions"@).len() as int)
    } else {
        false
    }
}

/// The first `n` of `list` (all below node `o`'s descendants) are simple.
pub open spec fn all_simple(ast: Ast, o: int, list: Seq<usize>, n: int) -> bool
    decreases ast.nodes@.len() - o, 0int, n,
{
    if n <= 0 || n > list.len() {
        n <= 0
    } else {
        all_simple(ast, o, list, n - 1) && o < list[n - 1] < ast.nodes@.len() && simple_expression(
            ast,
            list[n - 1] as int,
        )
    }
}

pub open spec fn usememo_report(cx: &LintContext, i: int) -> Option<DiagView> {
    if file_uses_react(cx.ast) && hook_call(cx.ast, i, seq!["useMemo"@]) {
        match callback_result(cx.ast, i) {
            Some(e) => if simple_expression(cx.ast, e) {
                Some(
                    cx.at_node(
                        "react/no-usememo-simple-expr"@,
                        "Avoid wrapping trivial expressions in `useMemo`"@,
                        i,
                        Severity::Warning,
                    ),
                )
            } else {
                None
            },
            None => None,
        }
    } else {
        None
    }
}

pub open spec fn uses_react_cx(cx: &LintContext) -> bool {
    file_uses_react(cx.ast)
}

pub open spec fn usememo_reports(cx: &LintContext) -> spec_fn(int) -> Option<DiagView> {
    |i: int| usememo_report(cx, i)
}

fn body_result_exec(ast: &Ast, b: usize) -> (r: Option<usize>)
    requires
        ast.wf(),
        b < ast.nodes@.len(),
    ensures
        match r {
            Some(e) => e < ast.nodes@.len() && body_result(*ast, b as int) == Some(e as int),
            None => body_result(*ast, b as int) is None,
        },
{
    let stmts = statements_exec(ast, b);
    if stmts.len() != 1 {
        return None;
    }
    let s = stmts[0];
    if ast.is_kind(s, "ReturnStatement") {
        ast.child_of(s, "argument")
    } else if ast.is_kind(s, "ExpressionStatement") {
        ast.child_of(s, "expression")
    } else {
        None
    }
}

fn callback_result_exec(ast: &Ast, i: usize) -> (r: Option<usize>)
    requires
        ast.wf(),
        i < ast.nodes@.len(),
    ensures
        match r {
            Some(e) => e < ast.nodes@.len() && callback_result(*ast, i as int) == Some(e as int),
            None => callback_result(*ast, i as int) is None,
        },
{
    match nth_child_exec(ast, i, "arguments", 0) {
        Some(a) => if ast.is_kind(a, "ArrowFunctionExpression") {
            match ast.child_of(a, "body") {
                Some(b) => if ast.flag_of(a, "expression") {
                    Some(b)
                } else {
                    body_result_exec(ast, b)
                },
                None => None,
            }
        } else if ast.is_kind(a, "FunctionExpression") {
            match ast.child_of(a, "body") {
                Some(b) => body_result_exec(ast, b),
                None => None,
            }
        } else {
            None
        },
        None => None,
    }
}

/// A node after `e` is not before it, so `unparen` never moves backwards.
proof fn lemma_unparen_after(ast: Ast, e: int)
    requires
        ast.wf(),
        0 <= e < ast.nodes@.len(),
    ensures
        e <= unparen(ast, e) < ast.nodes@.len(),
    decreases ast.nodes@.len() - e,
{
    if ast.is(e, "ParenthesizedExpression"@) {
        if let Some(c) = ast.child(e, "expression"@) {
            if e < c < ast.nodes@.len() {
                lemma_unparen_after(ast, c);
            }
        }
    }
}

fn simple_expression_exec(ast: &Ast, e: usize) -> (b: bool)
    requires
        ast.wf(),
        e < ast.nodes@.len(),
    ensures
        b == simple_expression(*ast, e as int),
    decreases ast.nodes@.len() - e, 1int,
{
    let u = unparen_exec(ast, e);
    proof {
        lemma_unparen_after(*ast, e as int);
    }
    if ast.is_kind(u, "Identifier") || ast.is_kind(u, "Literal") {
        true
    } else if ast.is_kind(u, "MemberExpression") {
        match ast.child_of(u, "property") {
            Some(p) => !ast.is_kind(p, "PrivateIdentifier"),
            None => false,
        }
    } else if ast.is_kind(u, "UnaryExpression") {
        match ast.child_of(u, "argument") {
            Some(a) => simple_expression_exec(ast, a),
            None => false,
        }
    } else if ast.is_kind(u, "BinaryExpression") || ast.is_kind(u, "LogicalExpression") {
        match (ast.child_of(u, "left"), ast.child_of(u, "right")) {
            (Some(l), Some(r)) => simple_expression_exec(ast, l) && simple_expression_exec(ast, r),
            _ => false,
        }
    } else if ast.is_kind(u, "TemplateLiteral") {
        let list = ast.children_in(u, "expressions");
        all_simple_exec(ast, e, &list)
    } else {
        false
    }
}

fn all_simple_exec(ast: &Ast, o: usize, list: &Vec<usize>) -> (b: bool)
    requires
        ast.wf(),
        o < ast.nodes@.len(),
    ensures
        b == all_simple(*ast, o as int, list@, list@.len() as int),
    decreases ast.nodes@.len() - o, 0int, list@.len(),
{
    let mut k: usize = 0;
    while k < list.len()
        invariant
            ast.wf(),
            o < ast.nodes@.len(),
            k <= list@.len(),
            all_simple(*ast, o as int, list@, k as int),
        decreases list@.len() - k,
    {
        let x = list[k];
        if !(o < x && x < ast.nodes.len() && simple_expression_exec(ast, x)) {
            proof {
                lemma_all_simple_fails(*ast, o as int, list@, k + 1, list@.len() as int);
            }
            return false;
        }
        k = k + 1;
    }
    true
}

proof fn lemma_all_simple_fails(ast: Ast, o: int, list: Seq<usize>, n: int, m: int)
    requires
        0 < n <= m <= list.len(),
        !all_simple(ast, o, list, n),
    ensures
        !all_simple(ast, o, list, m),
    decreases m - n,
{
    if n < m {
        lemma_all_simple_fails(ast, o, list, n, m - 1);
    }
}

/// Flags `useMemo` callbacks that only compute a trivial expression.
pub struct NoUseMemoSimpleExpr;

impl NoUseMemoSimpleExpr {
    pub fn name(&self) -> (r: &'static str)
        ensures
            r@ == "react/no-usememo-simple-expr"@,
    {
        "react/no-usememo-simple-expr"
    }

    pub fn run(&self, cx: &LintContext, project: &ProjectInfo) -> (r: Vec<LintDiagnostic>)
        requires
            cx.wf(),
        ensures
            views(r@) == gated(project.has_react, reports(cx.ast.nodes@.len() as int, usememo_reports(cx))),
    {
        if !project.has_react {
            return Vec::new();
        }
        let uses_react = file_uses_react_exec(&cx.ast);
        let check = |i: usize| -> (d: Option<LintDiagnostic>)
            requires
                cx.wf(),
                i < cx.ast.nodes@.len(),
                uses_react == uses_react_cx(cx),
            ensures
                opt_diag(d) == usememo_report(cx, i as int),
        {
            let hooks = ["useMemo"];
            assert(hooks@.map_values(|n: &str| n@) =~= seq!["useMemo"@]);
            if !uses_react || !hook_call_exec(&cx.ast, i, &hooks) {
                return None;
            }
            match callback_result_exec(&cx.ast, i) {
                Some(e) => if simple_expression_exec(&cx.ast, e) {
                    let msg = chars_of("Avoid wrapping trivial expressions in `useMemo`");
                    Some(cx.node_diagnostic("react/no-usememo-simple-expr", &msg, i, Severity::Warning))
                } else {
                    None
                },
                None => None,
            }
        };
        scan_nodes(cx, check, Ghost(usememo_reports(cx)))
    }
}

// ── Motion components ──────────────────────────────────────

/// JSX opening element `o` renders a `motion.*` component.
pub open spec fn motion_opening(ast: Ast, o: int) -> bool {
    ast.is(o, "JSXOpeningElement"@) && match opening_name(ast, o) {
        Some(n) => starts_with(n, "motion."@),
        None => false,
    }
}

fn motion_opening_exec(ast: &Ast, o: usize) -> (b: bool)
    requires
        ast.wf(),
        o < ast.nodes@.len(),
    ensures
        b == motion_opening(*ast, o as int),
{
    ast.is_kind(o, "JSXOpeningElement") && match opening_name_exec(ast, o) {
        Some(n) => starts_with_str(&n, "motion."),
        None => false,
    }
}

/// The name an attribute is known by (`href` for `xlink:href`).
pub open spec fn attr_any_name(ast: Ast, a: int) -> Option<Seq<char>> {
    if ast.is(a, "JSXAttribute"@) {
        match ast.child(a, "name"@) {
            Some(n) => if ast.is(n, "JSXIdentifier"@) {
                ast.text(n, "name"@)
            } else if ast.is(n, "JSXNamespacedName"@) {
                match ast.child(n, "name"@) {
                    Some(m) => ast.text(m, "name"@),
                    None => None,
                }
            } else {
                None
            },
            None => None,
        }
    } else {
        None
    }
}

pub fn attr_any_name_exec(ast: &Ast, a: usize) -> (r: Option<Vec<char>>)
    requires
        ast.wf(),
        a < ast.nodes@.len(),
    ensures
        opt_seq(r) == attr_any_name(*ast, a as int),
{
    if !ast.is_kind(a, "JSXAttribute") {
        return None;
    }
    let t = match ast.child_of(a, "name") {
        Some(n) => if ast.is_kind(n, "JSXIdentifier") {
            ast.text_of(n, "name")
        } else if ast.is_kind(n, "JSXNamespacedName") {
            match ast.child_of(n, "name") {
                Some(m) => ast.text_of(m, "name"),
                None => None,
            }
        } else {
            None
        },
        None => None,
    };
    match t {
        Some(t) => Some(t.clone()),
        None => None,
    }
}

/// The motion props whose values should be stable.
pub open spec fn motion_props() -> Seq<Seq<char>> {
    seq![
        "animate"@,
        "initial"@,
        "exit"@,
        "transition"@,
        "variants"@,
        "whileHover"@,
        "whileTap"@,
        "whileInView"@,
    ]
}

/// Attribute `a` is a motion prop given a freshly built value.
pub open spec fn unstable_motion_attr(ast: Ast, a: usize) -> bool {
    (match attr_any_name(ast, a as int) {
        Some(n) => motion_props().contains(n),
        None => false,
    }) && unstable_attr(ast, a as int)
}

pub open spec fn unstable_motion_attr_cx(cx: &LintContext, a: usize) -> bool {
    unstable_motion_attr(cx.ast, a)
}

pub open spec fn layout_attr_cx(cx: &LintContext, a: usize) -> bool {
    attr_is(cx.ast, a as int, "layout"@)
}

pub open spec fn unstable_motion_report(cx: &LintContext, i: int) -> Option<DiagView> {
    if motion_opening(cx.ast, i) {
        match first_where(cx.ast.field_children(i, "attributes"@), |a: usize| unstable_motion_attr_cx(cx, a)) {
            Some(a) => Some(
                cx.at_node(
                    "react/no-unstable-motion-props"@,
                    "Avoid recreating motion prop objects and functions on every render"@,
                    a as int,
                    Severity::Warning,
                ),
            ),
            None => None,
        }
    } else {
        None
    }
}

pub open spec fn unstable_motion_reports(cx: &LintContext) -> spec_fn(int) -> Option<DiagView> {
    |i: int| unstable_motion_report(cx, i)
}

fn unstable_motion_attr_exec(ast: &Ast, a: usize) -> (b: bool)
    requires
        ast.wf(),
        a < ast.nodes@.len(),
    ensures
        b == unstable_motion_attr(*ast, a),
{
    let named = match attr_any_name_exec(ast, a) {
        Some(n) => {
            let props = ["animate", "initial", "exit", "transition", "variants", "whileHover", "whileTap", "whileInView"];
            let r = crate::rules::react::helpers::one_of(&n, &props);
            assert(props@.map_values(|n: &str| n@) =~= motion_props());
            r
        },
        None => false,
    };
    named && unstable_attr_exec(ast, a)
}

/// Flags motion props given object or function literals.
pub struct NoUnstableMotionProps;

impl NoUnstableMotionProps {
    pub fn name(&self) -> (r: &'static str)
        ensures
            r@ == "react/no-unstable-motion-props"@,
    {
        "react/no-unstable-motion-props"
    }

    pub fn run(&self, cx: &LintContext, project: &ProjectInfo) -> (r: Vec<LintDiagnostic>)
        requires
            cx.wf(),
        ensures
            views(r@) == gated(project.has_react, reports(cx.ast.nodes@.len() as int, unstable_motion_reports(cx))),
    {
        if !project.has_react {
            return Vec::new();
        }
        let check = |i: usize| -> (d: Option<LintDiagnostic>)
            requires
                cx.wf(),
                i < cx.ast.nodes@.len(),
            ensures
                opt_diag(d) == unstable_motion_report(cx, i as int),
        {
            if !motion_opening_exec(&cx.ast, i) {
                return None;
            }
            let attrs = cx.ast.children_in(i, "attributes");
            let test = |a: usize| -> (b: bool)
                requires
                    cx.wf(),
                    a < cx.ast.nodes@.len(),
                ensures
                    b == unstable_motion_attr_cx(cx, a),
            { unstable_motion_attr_exec(&cx.ast, a) };
            match first_where_exec(&attrs, test, Ghost(|a: usize| unstable_motion_attr_cx(cx, a))) {
                Some(a) => {
                    proof {
                        crate::engine::lemma_first_where_in(attrs@, |a: usize| unstable_motion_attr_cx(cx, a));
                    }
                    let msg = chars_of("Avoid recreating motion prop objects and functions on every render");
                    Some(cx.node_diagnostic("react/no-unstable-motion-props", &msg, a, Severity::Warning))
                },
                None => None,
            }
        };
        scan_nodes(cx, check, Ghost(unstable_motion_reports(cx)))
    }
}

pub open spec fn layout_report(cx: &LintContext, i: int) -> Option<DiagView> {
    if motion_opening(cx.ast, i) {
        match first_where(cx.ast.field_children(i, "attributes"@), |a: usize| layout_attr_cx(cx, a)) {
            Some(a) => Some(
                cx.at_node(
                    "react/no-layout-animation"@,
                    "Avoid layout animations on frequently rendered React surfaces"@,
                    a as int,
                    Severity::Warning,
                ),
            ),
            None => None,
        }
    } else {
        None
    }
}

pub open spec fn layout_reports(cx: &LintContext) -> spec_fn(int) -> Option<DiagView> {
    |i: int| layout_report(cx, i)
}

/// Flags `layout` animations on motion components.
pub struct NoLayoutAnimation;

impl NoLayoutAnimation {
    pub fn name(&self) -> (r: &'static str)
        ensures
            r@ == "react/no-layout-animation"@,
    {
        "react/no-layout-animation"
    }

    pub fn run(&self, cx: &LintContext, project: &ProjectInfo) -> (r: Vec<LintDiagnostic>)
        requires
            cx.wf(),
        ensures
            views(r@) == gated(project.has_react, reports(cx.ast.nodes@.len() as int, layout_reports(cx))),
    {
        if !project.has_react {
            return Vec::new();
        }
        let check = |i: usize| -> (d: Option<LintDiagnostic>)
            requires
                cx.wf(),
                i < cx.ast.nodes@.len(),
            ensures
                opt_diag(d) == layout_report(cx, i as int),
        {
            if !motion_opening_exec(&cx.ast, i) {
                return None;
            }
            let attrs = cx.ast.children_in(i, "attributes");
            let test = |a: usize| -> (b: bool)
                requires
                    cx.wf(),
                    a < cx.ast.nodes@.len(),
                ensures
                    b == layout_attr_cx(cx, a),
            { attr_is_exec(&cx.ast, a, "layout") };
            match first_where_exec(&attrs, test, Ghost(|a: usize| layout_attr_cx(cx, a))) {
                Some(a) => {
                    proof {
                        crate::engine::lemma_first_where_in(attrs@, |a: usize| layout_attr_cx(cx, a));
                    }
                    let msg = chars_of("Avoid layout animations on frequently rendered React surfaces");
                    Some(cx.node_diagnostic("react/no-layout-animation", &msg, a, Severity::Warning))
                },
                None => None,
            }
        };
        scan_nodes(cx, check, Ghost(layout_reports(cx)))
    }
}

// ── Lists ──────────────────────────────────────────────────

/// Node `k` is a `.map(...)` call lying within node `o`.
pub open spec fn map_call_within(ast: Ast, o: int, k: int) -> bool {
    &&& ast.is(k, "CallExpression"@)
    &&& span_within(ast, o, k)
    &&& match ast.child(k, "callee"@) {
        Some(c) => member_static_name(ast, c) == Some("map"@),
        None => false,
    }
}

pub open spec fn map_call_within_cx(cx: &LintContext, o: int, k: int) -> bool {
    map_call_within(cx.ast, o, k)
}

pub fn map_call_within_exec(ast: &Ast, o: usize, k: usize) -> (b: bool)
    requires
        ast.wf(),
        o < ast.nodes@.len(),
        k < ast.nodes@.len(),
    ensures
        b == map_call_within(*ast, o as int, k as int),
{
    ast.is_kind(k, "CallExpression") && ast.nodes[k].start >= ast.nodes[o].start && ast.nodes[k].end
        <= ast.nodes[o].end && match ast.child_of(k, "callee") {
        Some(c) => match member_static_name_exec(ast, c) {
            Some(n) => eq_str(&n, "map"),
            None => false,
        },
        None => false,
    }
}

pub open spec fn animate_presence_report(cx: &LintContext, i: int) -> Option<DiagView> {
    if cx.ast.is(i, "JSXElement"@) {
        match cx.ast.child(i, "openingElement"@) {
            Some(o) => if opening_name(cx.ast, o) == Some("AnimatePresence"@) && any_node(
                cx.ast.nodes@.len() as int,
                |k: int| map_call_within_cx(cx, i, k),
            ) {
                Some(
                    cx.at_node(
                        "react/no-animate-presence-in-list"@,
                        "Avoid wrapping list rendering directly in `AnimatePresence`"@,
                        o,
                        Severity::Warning,
                    ),
                )
            } else {
                None
            },
            None => None,
        }
    } else {
        None
    }
}

pub open spec fn animate_presence_reports(cx: &LintContext) -> spec_fn(int) -> Option<DiagView> {
    |i: int| animate_presence_report(cx, i)
}

/// Flags `AnimatePresence` wrapped around a `.map()` list.
pub struct NoAnimatePresenceInList;

impl NoAnimatePresenceInList {
    pub fn name(&self) -> (r: &'static str)
        ensures
            r@ == "react/no-animate-presence-in-list"@,
    {
        "react/no-animate-presence-in-list"
    }

    pub fn run(&self, cx: &LintContext, project: &ProjectInfo) -> (r: Vec<LintDiagnostic>)
        requires
            cx.wf(),
        ensures
            views(r@) == gated(project.has_react, reports(cx.ast.nodes@.len() as int, animate_presence_reports(cx))),
    {
        if !project.has_react {
            return Vec::new();
        }
        let check = |i: usize| -> (d: Option<LintDiagnostic>)
            requires
                cx.wf(),
                i < cx.ast.nodes@.len(),
            ensures
                opt_diag(d) == animate_presence_report(cx, i as int),
        {
            if !cx.ast.is_kind(i, "JSXElement") {
                return None;
            }
            let o = match cx.ast.child_of(i, "openingElement") {
                Some(o) => o,
                None => {
                    return None;
                },
            };
            let named = match opening_name_exec(&cx.ast, o) {
                Some(n) => eq_str(&n, "AnimatePresence"),
                None => false,
            };
            if !named {
                return None;
            }
            let test = |k: usize| -> (b: bool)
                requires
                    cx.wf(),
                    i < cx.ast.nodes@.len(),
                    k < cx.ast.nodes@.len(),
                ensures
                    b == map_call_within_cx(cx, i as int, k as int),
            { map_call_within_exec(&cx.ast, i, k) };
            if any_node_exec(cx.ast.nodes.len(), test, Ghost(|k: int| map_call_within_cx(cx, i as int, k))) {
                let msg = chars_of("Avoid wrapping list rendering directly in `AnimatePresence`");
                Some(cx.node_diagnostic("react/no-animate-presence-in-list", &msg, o, Severity::Warning))
            } else {
                None
            }
        };
        scan_nodes(cx, check, Ghost(animate_presence_reports(cx)))
    }
}

/// Node `k` is a motion component's opening element lying within node `o`.
pub open spec fn motion_within_cx(cx: &LintContext, o: int, k: int) -> bool {
    motion_opening(cx.ast, k) && span_within(cx.ast, o, k)
}

pub open spec fn motion_in_list_report(cx: &LintContext, i: int) -> Option<DiagView> {
    if cx.ast.is(i, "CallExpression"@) {
        match cx.ast.child(i, "callee"@) {
            Some(c) => if member_static_name(cx.ast, c) == Some("map"@) && any_node(
                cx.ast.nodes@.len() as int,
                |k: int| motion_within_cx(cx, i, k),
            ) {
                Some(
                    cx.at_node(
                        "react/no-motion-in-list"@,
                        "Avoid rendering motion components directly inside large `.map()` lists"@,
                        i,
                        Severity::Warning,
                    ),
                )
            } else {
                None
            },
            None => None,
        }
    } else {
        None
    }
}

pub open spec fn motion_in_list_reports(cx: &LintContext) -> spec_fn(int) -> Option<DiagView> {
    |i: int| motion_in_list_report(cx, i)
}

/// Flags motion components rendered straight out of `.map()`.
pub struct NoMotionInList;

impl NoMotionInList {
    pub fn name(&self) -> (r: &'static str)
        ensures
            r@ == "react/no-motion-in-list"@,
    {
        "react/no-motion-in-list"
    }

    pub fn run(&self, cx: &LintContext, project: &ProjectInfo) -> (r: Vec<LintDiagnostic>)
        requires
            cx.wf(),
        ensures
            views(r@) == gated(project.has_react, reports(cx.ast.nodes@.len() as int, motion_in_list_reports(cx))),
    {
        if !project.has_react {
            return Vec::new();
        }
        let check = |i: usize| -> (d: Option<LintDiagnostic>)
            requires
                cx.wf(),
                i < cx.ast.nodes@.len(),
            ensures
                opt_diag(d) == motion_in_list_report(cx, i as int),
        {
            if !cx.ast.is_kind(i, "CallExpression") {
                return None;
            }
            let is_map = match cx.ast.child_of(i, "callee") {
                Some(c) => match member_static_name_exec(&cx.ast, c) {
                    Some(n) => eq_str(&n, "map"),
                    None => false,
                },
                None => false,
            };
            if !is_map {
                return None;
            }
            let test = |k: usize| -> (b: bool)
                requires
                    cx.wf(),
                    i < cx.ast.nodes@.len(),
                    k < cx.ast.nodes@.len(),
                ensures
                    b == motion_within_cx(cx, i as int, k as int),
            {
                motion_opening_exec(&cx.ast, k) && cx.ast.nodes[k].start >= cx.ast.nodes[i].start
                    && cx.ast.nodes[k].end <= cx.ast.nodes[i].end
            };
            if any_node_exec(cx.ast.nodes.len(), test, Ghost(|k: int| motion_within_cx(cx, i as int, k))) {
                let msg = chars_of("Avoid rendering motion components directly inside large `.map()` lists");
                Some(cx.node_diagnostic("react/no-motion-in-list", &msg, i, Severity::Warning))
            } else {
                None
            }
        };
        scan_nodes(cx, check, Ghost(motion_in_list_reports(cx)))
    }
}

// ── Memoized components ────────────────────────────────────

/// Node `d` declares `name` as `memo(...)` or `React.memo(...)`.
pub open spec fn memo_decl(ast: Ast, d: int, name: Seq<char>) -> bool {
    &&& ast.is(d, "VariableDeclarator"@)
    &&& match ast.child(d, "id"@) {
        Some(id) => is_ident(ast, id, name),
        None => false,
    }
    &&& match ast.child(d, "init"@) {
        Some(init) => {
            let c = unparen(ast, init);
            ast.is(c, "CallExpression"@) && match ast.child(c, "callee"@) {
                Some(f) => callee_static_name(ast, f) == Some("memo"@) || callee_static_name(ast, f) == Some(
                    "React.memo"@,
                ),
                None => false,
            }
        },
        None => false,
    }
}

pub open spec fn memo_decl_cx(cx: &LintContext, d: int, name: Seq<char>) -> bool {
    memo_decl(cx.ast, d, name)
}

fn memo_decl_exec(ast: &Ast, d: usize, name: &Vec<char>) -> (b: bool)
    requires
        ast.wf(),
        d < ast.nodes@.len(),
    ensures
        b == memo_decl(*ast, d as int, name@),
{
    if !ast.is_kind(d, "VariableDeclarator") {
        return false;
    }
    let named = match ast.child_of(d, "id") {
        Some(id) => match ident_name_exec(ast, id) {
            Some(n) => crate::text::eq_chars(&n, name),
            None => false,
        },
        None => false,
    };
    named && match ast.child_of(d, "init") {
        Some(init) => {
            let c = unparen_exec(ast, init);
            ast.is_kind(c, "CallExpression") && match ast.child_of(c, "callee") {
                Some(f) => match callee_static_name_exec(ast, f) {
                    Some(n) => eq_str(&n, "memo") || eq_str(&n, "React.memo"),
                    None => false,
                },
                None => false,
            }
        },
        None => false,
    }
}

pub open spec fn unstable_attr_cx(cx: &LintContext, a: usize) -> bool {
    unstable_attr(cx.ast, a as int)
}

pub open spec fn prop_on_memo_report(cx: &LintContext, i: int) -> Option<DiagView> {
    if cx.ast.is(i, "JSXOpeningElement"@) {
        match cx.ast.child(i, "name"@) {
            Some(n) => if cx.ast.is(n, "JSXIdentifier"@) {
                match cx.ast.text(n, "name"@) {
                    Some(name) => if any_node(cx.ast.nodes@.len() as int, |d: int| memo_decl_cx(cx, d, name)) {
                        match first_where(cx.ast.field_children(i, "attributes"@), |a: usize| unstable_attr_cx(cx, a)) {
                            Some(a) => Some(
                                cx.at_node(
                                    "react/no-prop-on-memo"@,
                                    "Avoid passing object, array, or function literals to memoized components"@,
                                    a as int,
                                    Severity::Warning,
                                ),
                            ),
                            None => None,
                        }
                    } else {
                        None
                    },
                    None => None,
                }
            } else {
                None
            },
            None => None,
        }
    } else {
        None
    }
}

pub open spec fn prop_on_memo_reports(cx: &LintContext) -> spec_fn(int) -> Option<DiagView> {
    |i: int| prop_on_memo_report(cx, i)
}

fn prop_on_memo_check(cx: &LintContext, i: usize) -> (d: Option<LintDiagnostic>)
    requires
        cx.wf(),
        i < cx.ast.nodes@.len(),
    ensures
        opt_diag(d) == prop_on_memo_report(cx, i as int),
{
    if !cx.ast.is_kind(i, "JSXOpeningElement") {
        return None;
    }
    let n = match cx.ast.child_of(i, "name") {
        Some(n) => n,
        None => {
            return None;
        },
    };
    if !cx.ast.is_kind(n, "JSXIdentifier") {
        return None;
    }
    let name = match cx.ast.text_of(n, "name") {
        Some(t) => t.clone(),
        None => {
            return None;
        },
    };
    let test = |d: usize| -> (b: bool)
        requires
            cx.wf(),
            d < cx.ast.nodes@.len(),
        ensures
            b == memo_decl_cx(cx, d as int, name@),
    { memo_decl_exec(&cx.ast, d, &name) };
    if !any_node_exec(cx.ast.nodes.len(), test, Ghost(|d: int| memo_decl_cx(cx, d, name@))) {
        return None;
    }
    let attrs = cx.ast.children_in(i, "attributes");
    let test2 = |a: usize| -> (b: bool)
        requires
            cx.wf(),
            a < cx.ast.nodes@.len(),
        ensures
            b == unstable_attr_cx(cx, a),
    { unstable_attr_exec(&cx.ast, a) };
    match first_where_exec(&attrs, test2, Ghost(|a: usize| unstable_attr_cx(cx, a))) {
        Some(a) => {
            proof {
                crate::engine::lemma_first_where_in(attrs@, |a: usize| unstable_attr_cx(cx, a));
            }
            let msg = chars_of("Avoid passing object, array, or function literals to memoized components");
            Some(cx.node_diagnostic("react/no-prop-on-memo", &msg, a, Severity::Warning))
        },
        None => None,
    }
}

/// Flags literals passed to components wrapped in `memo`.
pub struct NoPropOnMemo;

impl NoPropOnMemo {
    pub fn name(&self) -> (r: &'static str)
        ensures
            r@ == "react/no-prop-on-memo"@,
    {
        "react/no-prop-on-memo"
    }

    pub fn run(&self, cx: &LintContext, project: &ProjectInfo) -> (r: Vec<LintDiagnostic>)
        requires
            cx.wf(),
        ensures
            views(r@) == gated(project.has_react, reports(cx.ast.nodes@.len() as int, prop_on_memo_reports(cx))),
    {
        if !project.has_react {
            return Vec::new();
        }
        let check = |i: usize| -> (d: Option<LintDiagnostic>)
            requires
                cx.wf(),
                i < cx.ast.nodes@.len(),
            ensures
                opt_diag(d) == prop_on_memo_report(cx, i as int),
        { prop_on_memo_check(cx, i) };
        scan_nodes(cx, check, Ghost(prop_on_memo_reports(cx)))
    }
}

// ── Client storage during hydration ────────────────────────

/// Node `k` reads `localStorage` or `sessionStorage`.
pub open spec fn storage_node(ast: Ast, refs: Seq<ReferenceFact>, k: int) -> bool {
    ||| (is_reference(ast, refs, k) && (ident_name(ast, k) == Some("localStorage"@) || ident_name(ast, k) == Some(
        "sessionStorage"@,
    )))
    ||| (ast.is(k, "CallExpression"@) && match ast.child(k, "callee"@) {
        Some(c) => match callee_static_name(ast, c) {
            Some(n) => starts_with(n, "localStorage"@) || starts_with(n, "sessionStorage"@) || starts_with(
                n,
                "window.localStorage"@,
            ) || starts_with(n, "window.sessionStorage"@),
            None => false,
        },
        None => false,
    })
    ||| (ast.is(k, "MemberExpression"@) && (match ast.child(k, "object"@) {
        Some(o) => is_ident(ast, o, "window"@),
        None => false,
    }) && (member_static_name(ast, k) == Some("localStorage"@) || member_static_name(ast, k) == Some(
        "sessionStorage"@,
    )))
}

pub open spec fn storage_within_cx(cx: &LintContext, refs: Seq<ReferenceFact>, a: int, k: int) -> bool {
    storage_node(cx.ast, refs, k) && span_within(cx.ast, a, k)
}

fn storage_node_exec(ast: &Ast, refs: &Vec<ReferenceFact>, k: usize) -> (b: bool)
    requires
        ast.wf(),
        k < ast.nodes@.len(),
    ensures
        b == storage_node(*ast, refs@, k as int),
{
    if is_reference_exec(ast, refs, k) {
        match ident_name_exec(ast, k) {
            Some(n) => if eq_str(&n, "localStorage") || eq_str(&n, "sessionStorage") {
                return true;
            },
            None => {},
        }
    }
    if ast.is_kind(k, "CallExpression") {
        let hit = match ast.child_of(k, "callee") {
            Some(c) => match callee_static_name_exec(ast, c) {
                Some(n) => starts_with_str(&n, "localStorage") || starts_with_str(&n, "sessionStorage")
                    || starts_with_str(&n, "window.localStorage") || starts_with_str(&n, "window.sessionStorage"),
                None => false,
            },
            None => false,
        };
        if hit {
            return true;
        }
    }
    ast.is_kind(k, "MemberExpression") && match ast.child_of(k, "object") {
        Some(o) => is_ident_exec(ast, o, "window"),
        None => false,
    } && match member_static_name_exec(ast, k) {
        Some(n) => eq_str(&n, "localStorage") || eq_str(&n, "sessionStorage"),
        None => false,
    }
}

/// The first argument of call `i` when it is an expression (not a spread).
pub open spec fn first_argument(ast: Ast, i: int) -> Option<int> {
    match nth_child(ast, i, "arguments"@, 0) {
        Some(a) => if ast.is(a, "SpreadElement"@) {
            None
        } else {
            Some(a)
        },
        None => None,
    }
}

pub open spec fn hydration_report(cx: &LintContext, refs: Seq<ReferenceFact>, i: int) -> Option<DiagView> {
    if file_uses_react(cx.ast) && cx.ast.is(i, "CallExpression"@) && match cx.ast.child(i, "callee"@) {
        Some(c) => callee_static_name(cx.ast, c) == Some("useState"@),
        None => false,
    } {
        match first_argument(cx.ast, i) {
            Some(a) => if any_node(cx.ast.nodes@.len() as int, |k: int| storage_within_cx(cx, refs, a, k)) {
                Some(
                    cx.at_node(
                        "react/no-hydration-flicker"@,
                        "Avoid reading client-only storage during `useState` initialization"@,
                        a,
                        Severity::Warning,
                    ),
                )
            } else {
                None
            },
            None => None,
        }
    } else {
        None
    }
}

pub open spec fn hydration_reports(cx: &LintContext, refs: Seq<ReferenceFact>) -> spec_fn(int) -> Option<DiagView> {
    |i: int| hydration_report(cx, refs, i)
}

/// Flags `useState` initial values read from client-only storage.
pub struct NoHydrationFlicker;

impl NoHydrationFlicker {
    pub fn name(&self) -> (r: &'static str)
        ensures
            r@ == "react/no-hydration-flicker"@,
    {
        "react/no-hydration-flicker"
    }

    pub fn run(&self, cx: &LintContext, refs: &Vec<ReferenceFact>, project: &ProjectInfo) -> (r: Vec<LintDiagnostic>)
        requires
            cx.wf(),
        ensures
            views(r@) == gated(project.has_react, reports(cx.ast.nodes@.len() as int, hydration_reports(cx, refs@))),
    {
        if !project.has_react {
            return Vec::new();
        }
        let uses_react = file_uses_react_exec(&cx.ast);
        let check = |i: usize| -> (d: Option<LintDiagnostic>)
            requires
                cx.wf(),
                i < cx.ast.nodes@.len(),
                uses_react == uses_react_cx(cx),
            ensures
                opt_diag(d) == hydration_report(cx, refs@, i as int),
        {
            if !uses_react || !cx.ast.is_kind(i, "CallExpression") {
                return None;
            }
            let named = match cx.ast.child_of(i, "callee") {
                Some(c) => match callee_static_name_exec(&cx.ast, c) {
                    Some(n) => eq_str(&n, "useState"),
                    None => false,
                },
                None => false,
            };
            if !named {
                return None;
            }
            let a = match nth_child_exec(&cx.ast, i, "arguments", 0) {
                Some(a) => if cx.ast.is_kind(a, "SpreadElement") {
                    return None;
                } else {
                    a
                },
                None => {
                    return None;
                },
            };
            let test = |k: usize| -> (b: bool)
                requires
                    cx.wf(),
                    a < cx.ast.nodes@.len(),
                    k < cx.ast.nodes@.len(),
                ensures
                    b == storage_within_cx(cx, refs@, a as int, k as int),
            {
                storage_node_exec(&cx.ast, refs, k) && cx.ast.nodes[k].start >= cx.ast.nodes[a].start
                    && cx.ast.nodes[k].end <= cx.ast.nodes[a].end
            };
            if any_node_exec(cx.ast.nodes.len(), test, Ghost(|k: int| storage_within_cx(cx, refs@, a as int, k))) {
                let msg = chars_of("Avoid reading client-only storage during `useState` initialization");
                Some(cx.node_diagnostic("react/no-hydration-flicker", &msg, a, Severity::Warning))
            } else {
                None
            }
        };
        scan_nodes(cx, check, Ghost(hydration_reports(cx, refs@)))
    }
}

// ── Imports of `motion` and blocking scripts ───────────────

/// The name an import specifier imports (`motion` in `{ motion as m }`).
pub open spec fn imported_name(ast: Ast, s: int) -> Option<Seq<char>> {
    if ast.is(s, "ImportSpecifier"@) {
        match ast.child(s, "imported"@) {
            Some(n) => match ident_name(ast, n) {
                Some(x) => Some(x),
                None => string_value(ast, n),
            },
            None => None,
        }
    } else {
        None
    }
}

pub open spec fn imports_motion_cx(cx: &LintContext, s: usize) -> bool {
    imported_name(cx.ast, s as int) == Some("motion"@)
}

fn imported_name_exec(ast: &Ast, s: usize) -> (r: Option<Vec<char>>)
    requires
        ast.wf(),
        s < ast.nodes@.len(),
    ensures
        opt_seq(r) == imported_name(*ast, s as int),
{
    if !ast.is_kind(s, "ImportSpecifier") {
        return None;
    }
    match ast.child_of(s, "imported") {
        Some(n) => match ident_name_exec(ast, n) {
            Some(x) => Some(x),
            None => string_value_exec(ast, n),
        },
        None => None,
    }
}

pub open spec fn lazy_motion_report(cx: &LintContext, i: int) -> Option<DiagView> {
    if import_source(cx.ast, i) == Some("framer-motion"@) {
        match first_where(cx.ast.field_children(i, "specifiers"@), |s: usize| imports_motion_cx(cx, s)) {
            Some(s) => Some(
                cx.at_node(
                    "react/use-lazy-motion"@,
                    "Prefer `LazyMotion` and `m` over importing `motion` directly"@,
                    s as int,
                    Severity::Warning,
                ),
            ),
            None => None,
        }
    } else {
        None
    }
}

pub open spec fn lazy_motion_reports(cx: &LintContext) -> spec_fn(int) -> Option<DiagView> {
    |i: int| lazy_motion_report(cx, i)
}

/// Flags importing `motion` from `framer-motion` directly.
pub struct UseLazyMotion;

impl UseLazyMotion {
    pub fn name(&self) -> (r: &'static str)
        ensures
            r@ == "react/use-lazy-motion"@,
    {
        "react/use-lazy-motion"
    }

    pub fn run(&self, cx: &LintContext, project: &ProjectInfo) -> (r: Vec<LintDiagnostic>)
        requires
            cx.wf(),
        ensures
            views(r@) == gated(project.has_react, reports(cx.ast.nodes@.len() as int, lazy_motion_reports(cx))),
    {
        if !project.has_react {
            return Vec::new();
        }
        let check = |i: usize| -> (d: Option<LintDiagnostic>)
            requires
                cx.wf(),
                i < cx.ast.nodes@.len(),
            ensures
                opt_diag(d) == lazy_motion_report(cx, i as int),
        {
            let from_motion = match import_source_exec(&cx.ast, i) {
                Some(s) => eq_str(&s, "framer-motion"),
                None => false,
            };
            if !from_motion {
                return None;
            }
            let specs = cx.ast.children_in(i, "specifiers");
            let test = |s: usize| -> (b: bool)
                requires
                    cx.wf(),
                    s < cx.ast.nodes@.len(),
                ensures
                    b == imports_motion_cx(cx, s),
            {
                match imported_name_exec(&cx.ast, s) {
                    Some(n) => eq_str(&n, "motion"),
                    None => false,
                }
            };
            match first_where_exec(&specs, test, Ghost(|s: usize| imports_motion_cx(cx, s))) {
                Some(s) => {
                    proof {
                        crate::engine::lemma_first_where_in(specs@, |s: usize| imports_motion_cx(cx, s));
                    }
                    let msg = chars_of("Prefer `LazyMotion` and `m` over importing `motion` directly");
                    Some(cx.node_diagnostic("react/use-lazy-motion", &msg, s, Severity::Warning))
                },
                None => None,
            }
        };
        scan_nodes(cx, check, Ghost(lazy_motion_reports(cx)))
    }
}

/// Some attribute of opening element `o` is the plain identifier `name`.
pub open spec fn has_attr(ast: Ast, o: int, name: Seq<char>) -> bool {
    exists|k: int|
        0 <= k < ast.field_children(o, "attributes"@).len() && #[trigger] attr_is(
            ast,
            ast.field_children(o, "attributes"@)[k] as int,
            name,
        )
}

pub fn has_attr_exec(ast: &Ast, o: usize, name: &str) -> (b: bool)
    requires
        ast.wf(),
        o < ast.nodes@.len(),
    ensures
        b == has_attr(*ast, o as int, name@),
{
    let attrs = ast.children_in(o, "attributes");
    let mut k: usize = 0;
    while k < attrs.len()
        invariant
            ast.wf(),
            attrs@ == ast.field_children(o as int, "attributes"@),
            forall|q: int| 0 <= q < attrs@.len() ==> #[trigger] attrs@[q] < ast.nodes@.len(),
            k <= attrs@.len(),
            forall|q: int| 0 <= q < k ==> !#[trigger] attr_is(*ast, attrs@[q] as int, name@),
        decreases attrs@.len() - k,
    {
        if attr_is_exec(ast, attrs[k], name) {
            return true;
        }
        k = k + 1;
    }
    false
}

pub open spec fn script_report(cx: &LintContext, i: int) -> Option<DiagView> {
    if cx.ast.is(i, "JSXOpeningElement"@) && opening_name(cx.ast, i) == Some("script"@) && has_attr(
        cx.ast,
        i,
        "src"@,
    ) && !has_attr(cx.ast, i, "async"@) && !has_attr(cx.ast, i, "defer"@) {
        Some(
            cx.at_node(
                "react/no-undeferred-script"@,
                "Add `async` or `defer` to external `<script>` tags"@,
                i,
                Severity::Warning,
            ),
        )
    } else {
        None
    }
}

pub open spec fn script_reports(cx: &LintContext) -> spec_fn(int) -> Option<DiagView> {
    |i: int| script_report(cx, i)
}

fn script_check(cx: &LintContext, i: usize) -> (d: Option<LintDiagnostic>)
    requires
        cx.wf(),
        i < cx.ast.nodes@.len(),
    ensures
        opt_diag(d) == script_report(cx, i as int),
{
    if !cx.ast.is_kind(i, "JSXOpeningElement") {
        return None;
    }
    let is_script = match opening_name_exec(&cx.ast, i) {
        Some(n) => eq_str(&n, "script"),
        None => false,
    };
    if is_script && has_attr_exec(&cx.ast, i, "src") && !has_attr_exec(&cx.ast, i, "async")
        && !has_attr_exec(&cx.ast, i, "defer") {
        let msg = chars_of("Add `async` or `defer` to external `<script>` tags");
        Some(cx.node_diagnostic("react/no-undeferred-script", &msg, i, Severity::Warning))
    } else {
        None
    }
}

/// Flags external `<script>` tags that block parsing.
pub struct NoUndeferredScript;

impl NoUndeferredScript {
    pub fn name(&self) -> (r: &'static str)
        ensures
            r@ == "react/no-undeferred-script"@,
    {
        "react/no-undeferred-script"
    }

    pub fn run(&self, cx: &LintContext, project: &ProjectInfo) -> (r: Vec<LintDiagnostic>)
        requires
            cx.wf(),
        ensures
            views(r@) == gated(project.has_react, reports(cx.ast.nodes@.len() as int, script_reports(cx))),
    {
        if !project.has_react {
            return Vec::new();
        }
        let check = |i: usize| -> (d: Option<LintDiagnostic>)
            requires
                cx.wf(),
                i < cx.ast.nodes@.len(),
            ensures
                opt_diag(d) == script_report(cx, i as int),
        { script_check(cx, i) };
        scan_nodes(cx, check, Ghost(script_reports(cx)))
    }
}

} // verus!
