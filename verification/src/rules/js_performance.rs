//! JavaScript performance rules: repeated array passes, sorting to clone
//! or to find a minimum, work repeated inside loops, repeated style writes
//! and storage reads, deep nesting, and sequential awaits.
use vstd::prelude::*;

use crate::ast::{Ast, Value};
use crate::engine::{opt_diag, reports, scan_nodes, views, DiagView, LintContext};
use crate::estree::{
    count_ancestors, count_ancestors_exec, function_like, function_like_exec, is_ident, member_static_name,
    member_static_name_exec, nearest_ancestor, nearest_ancestor_exec, nth_child, nth_child_exec, opt_seq,
    plain_block, plain_block_exec, string_like, string_like_exec, unparen, unparen_exec,
};
use crate::frontend::ReferenceFact;
use crate::lint::{LintDiagnostic, Severity};
use crate::rules::no_missing_return::{statements, statements_exec};
use crate::rules::react::helpers::{callee_static_name, callee_static_name_exec, one_of};
use crate::rules::universal_security::{global_ident, global_ident_exec};
use crate::text::{chars_of, eq_chars, eq_str};

verus! {

/// The array methods that walk the whole array.
pub open spec fn iteration_methods() -> Seq<Seq<char>> {
    seq!["map"@, "filter"@, "flatMap"@, "reduce"@, "some"@, "every"@, "find"@]
}

fn is_iteration_method(name: &Vec<char>) -> (b: bool)
    ensures
        b == iteration_methods().contains(name@),
{
    let methods = ["map", "filter", "flatMap", "reduce", "some", "every", "find"];
    let r = one_of(name, &methods);
    assert(methods@.map_values(|n: &str| n@) =~= iteration_methods());
    r
}

/// The static name of the method that call `i` invokes (`sort` in `a.sort()`).
pub open spec fn method_name(ast: Ast, i: int) -> Option<Seq<char>> {
    if ast.is(i, "CallExpression"@) {
        match ast.child(i, "callee"@) {
            Some(c) => member_static_name(ast, c),
            None => None,
        }
    } else {
        None
    }
}

fn method_name_exec(ast: &Ast, i: usize) -> (r: Option<Vec<char>>)
    requires
        ast.wf(),
        i < ast.nodes@.len(),
    ensures
        opt_seq(r) == method_name(*ast, i as int),
{
    if !ast.is_kind(i, "CallExpression") {
        return None;
    }
    match ast.child_of(i, "callee") {
        Some(c) => member_static_name_exec(ast, c),
        None => None,
    }
}

/// The object a method call `i` is made on.
pub open spec fn receiver(ast: Ast, i: int) -> Option<int> {
    match ast.child(i, "callee"@) {
        Some(c) => ast.child(c, "object"@),
        None => None,
    }
}

fn receiver_exec(ast: &Ast, i: usize) -> (r: Option<usize>)
    requires
        ast.wf(),
        i < ast.nodes@.len(),
    ensures
        match r {
            Some(o) => o < ast.nodes@.len() && receiver(*ast, i as int) == Some(o as int),
            None => receiver(*ast, i as int) is None,
        },
{
    match ast.child_of(i, "callee") {
        Some(c) => ast.child_of(c, "object"),
        None => None,
    }
}

/// The call expression node `e` is (through parentheses and an optional chain).
pub open spec fn as_call(ast: Ast, e: int) -> Option<int> {
    let u = unparen(ast, e);
    if ast.is(u, "CallExpression"@) {
        Some(u)
    } else if ast.is(u, "ChainExpression"@) {
        match ast.child(u, "expression"@) {
            Some(c) => if ast.is(c, "CallExpression"@) {
                Some(c)
            } else {
                None
            },
            None => None,
        }
    } else {
        None
    }
}

fn as_call_exec(ast: &Ast, e: usize) -> (r: Option<usize>)
    requires
        ast.wf(),
        e < ast.nodes@.len(),
    ensures
        match r {
            Some(c) => c < ast.nodes@.len() && as_call(*ast, e as int) == Some(c as int),
            None => as_call(*ast, e as int) is None,
        },
{
    let u = unparen_exec(ast, e);
    if ast.is_kind(u, "CallExpression") {
        Some(u)
    } else if ast.is_kind(u, "ChainExpression") {
        match ast.child_of(u, "expression") {
            Some(c) => if ast.is_kind(c, "CallExpression") {
                Some(c)
            } else {
                None
            },
            None => None,
        }
    } else {
        None
    }
}

// ── Chained iterations ─────────────────────────────────────

pub open spec fn chained_report(cx: &LintContext, i: int) -> Option<DiagView> {
    let ast = cx.ast;
    match (method_name(ast, i), receiver(ast, i)) {
        (Some(outer), Some(o)) => if iteration_methods().contains(outer) {
            match as_call(ast, o) {
                Some(inner) => match method_name(ast, inner) {
                    Some(m) => if iteration_methods().contains(m) {
                        Some(
                            cx.at_node(
                                "no-chained-array-iterations"@,
                                "Collapse chained array iterations into a single pass when possible"@,
                                i,
                                Severity::Warning,
                            ),
                        )
                    } else {
                        None
                    },
                    None => None,
                },
                None => None,
            }
        } else {
            None
        },
        _ => None,
    }
}

pub open spec fn chained_reports(cx: &LintContext) -> spec_fn(int) -> Option<DiagView> {
    |i: int| chained_report(cx, i)
}

fn chained_check(cx: &LintContext, i: usize) -> (d: Option<LintDiagnostic>)
    requires
        cx.wf(),
        i < cx.ast.nodes@.len(),
    ensures
        opt_diag(d) == chained_report(cx, i as int),
{
    let ast = &cx.ast;
    let (outer, o) = match (method_name_exec(ast, i), receiver_exec(ast, i)) {
        (Some(a), Some(b)) => (a, b),
        _ => {
            return None;
        },
    };
    if !is_iteration_method(&outer) {
        return None;
    }
    let inner = match as_call_exec(ast, o) {
        Some(c) => c,
        None => {
            return None;
        },
    };
    match method_name_exec(ast, inner) {
        Some(m) => if is_iteration_method(&m) {
            let msg = chars_of("Collapse chained array iterations into a single pass when possible");
            Some(cx.node_diagnostic("no-chained-array-iterations", &msg, i, Severity::Warning))
        } else {
            None
        },
        None => None,
    }
}

/// Flags array iterations chained on the result of another.
pub struct NoChainedArrayIterations;

impl NoChainedArrayIterations {
    pub fn name(&self) -> (r: &'static str)
        ensures
            r@ == "no-chained-array-iterations"@,
    {
        "no-chained-array-iterations"
    }

    pub fn run(&self, cx: &LintContext) -> (r: Vec<LintDiagnostic>)
        requires
            cx.wf(),
        ensures
            views(r@) == reports(cx.ast.nodes@.len() as int, chained_reports(cx)),
    {
        let check = |i: usize| -> (d: Option<LintDiagnostic>)
            requires
                cx.wf(),
                i < cx.ast.nodes@.len(),
            ensures
                opt_diag(d) == chained_report(cx, i as int),
        { chained_check(cx, i) };
        scan_nodes(cx, check, Ghost(chained_reports(cx)))
    }
}

// ── Sorting a spread copy ──────────────────────────────────

/// Array node `a` has a spread element.
pub open spec fn has_spread(ast: Ast, a: int) -> bool {
    exists|k: int|
        0 <= k < ast.field_children(a, "elements"@).len() && #[trigger] ast.is(
            ast.field_children(a, "elements"@)[k] as int,
            "SpreadElement"@,
        )
}

fn has_spread_exec(ast: &Ast, a: usize) -> (b: bool)
    requires
        ast.wf(),
        a < ast.nodes@.len(),
    ensures
        b == has_spread(*ast, a as int),
{
    let els = ast.children_in(a, "elements");
    let mut k: usize = 0;
    while k < els.len()
        invariant
            ast.wf(),
            els@ == ast.field_children(a as int, "elements"@),
            forall|q: int| 0 <= q < els@.len() ==> #[trigger] els@[q] < ast.nodes@.len(),
            k <= els@.len(),
            forall|q: int| 0 <= q < k ==> !#[trigger] ast.is(els@[q] as int, "SpreadElement"@),
        decreases els@.len() - k,
    {
        if ast.is_kind(els[k], "SpreadElement") {
            return true;
        }
        k = k + 1;
    }
    false
}

pub open spec fn tosorted_report(cx: &LintContext, i: int) -> Option<DiagView> {
    let ast = cx.ast;
    if method_name(ast, i) == Some("sort"@) {
        match receiver(ast, i) {
            Some(o) => {
                let u = unparen(ast, o);
                if ast.is(u, "ArrayExpression"@) && has_spread(ast, u) {
                    Some(
                        cx.at_node(
                            "prefer-tosorted"@,
                            "Prefer `toSorted()` over cloning an array and calling `sort()`"@,
                            i,
                            Severity::Warning,
                        ),
                    )
                } else {
                    None
                }
            },
            None => None,
        }
    } else {
        None
    }
}

pub open spec fn tosorted_reports(cx: &LintContext) -> spec_fn(int) -> Option<DiagView> {
    |i: int| tosorted_report(cx, i)
}

fn tosorted_check(cx: &LintContext, i: usize) -> (d: Option<LintDiagnostic>)
    requires
        cx.wf(),
        i < cx.ast.nodes@.len(),
    ensures
        opt_diag(d) == tosorted_report(cx, i as int),
{
    let ast = &cx.ast;
    let sort = match method_name_exec(ast, i) {
        Some(m) => eq_str(&m, "sort"),
        None => false,
    };
    if !sort {
        return None;
    }
    match receiver_exec(ast, i) {
        Some(o) => {
            let u = unparen_exec(ast, o);
            if ast.is_kind(u, "ArrayExpression") && has_spread_exec(ast, u) {
                let msg = chars_of("Prefer `toSorted()` over cloning an array and calling `sort()`");
                Some(cx.node_diagnostic("prefer-tosorted", &msg, i, Severity::Warning))
            } else {
                None
            }
        },
        None => None,
    }
}

/// Flags `[...items].sort()`.
pub struct PreferToSorted;

impl PreferToSorted {
    pub fn name(&self) -> (r: &'static str)
        ensures
            r@ == "prefer-tosorted"@,
    {
        "prefer-tosorted"
    }

    pub fn run(&self, cx: &LintContext) -> (r: Vec<LintDiagnostic>)
        requires
            cx.wf(),
        ensures
            views(r@) == reports(cx.ast.nodes@.len() as int, tosorted_reports(cx)),
    {
        let check = |i: usize| -> (d: Option<LintDiagnostic>)
            requires
                cx.wf(),
                i < cx.ast.nodes@.len(),
            ensures
                opt_diag(d) == tosorted_report(cx, i as int),
        { tosorted_check(cx, i) };
        scan_nodes(cx, check, Ghost(tosorted_reports(cx)))
    }
}

// ── Work inside loops ──────────────────────────────────────

/// Node `k` is a loop statement.
pub open spec fn is_loop(ast: Ast, k: int) -> bool {
    ||| ast.is(k, "ForStatement"@)
    ||| ast.is(k, "ForInStatement"@)
    ||| ast.is(k, "ForOfStatement"@)
    ||| ast.is(k, "WhileStatement"@)
    ||| ast.is(k, "DoWhileStatement"@)
}

pub open spec fn is_loop_cx(cx: &LintContext, k: int) -> bool {
    is_loop(cx.ast, k)
}

fn is_loop_exec(ast: &Ast, k: usize) -> (b: bool)
    requires
        k < ast.nodes@.len(),
    ensures
        b == is_loop(*ast, k as int),
{
    ast.is_kind(k, "ForStatement") || ast.is_kind(k, "ForInStatement") || ast.is_kind(k, "ForOfStatement")
        || ast.is_kind(k, "WhileStatement") || ast.is_kind(k, "DoWhileStatement")
}

/// Node `i` lies inside a loop.
pub open spec fn inside_loop(cx: &LintContext, i: int) -> bool {
    nearest_ancestor(cx.ast, i, |k: int| is_loop_cx(cx, k)) is Some
}

fn inside_loop_exec(cx: &LintContext, i: usize) -> (b: bool)
    requires
        cx.wf(),
        i < cx.ast.nodes@.len(),
    ensures
        b == inside_loop(cx, i as int),
{
    let test = |k: usize| -> (b: bool)
        requires
            k < cx.ast.nodes@.len(),
        ensures
            b == is_loop_cx(cx, k as int),
    { is_loop_exec(&cx.ast, k) };
    nearest_ancestor_exec(&cx.ast, i, test, Ghost(|k: int| is_loop_cx(cx, k))).is_some()
}

pub open spec fn regexp_report(cx: &LintContext, refs: Seq<ReferenceFact>, i: int) -> Option<DiagView> {
    if cx.ast.is(i, "NewExpression"@) {
        match cx.ast.child(i, "callee"@) {
            Some(c) => if global_ident(cx, refs, unparen(cx.ast, c), "RegExp"@) && inside_loop(cx, i) {
                Some(
                    cx.at_node(
                        "no-regexp-in-loop"@,
                        "Move regular expression construction out of the loop"@,
                        i,
                        Severity::Warning,
                    ),
                )
            } else {
                None
            },
            None => None,
        }
    } else {
        None
    }
}

pub open spec fn regexp_reports(cx: &LintContext, refs: Seq<ReferenceFact>) -> spec_fn(int) -> Option<DiagView> {
    |i: int| regexp_report(cx, refs, i)
}

fn regexp_check(cx: &LintContext, refs: &Vec<ReferenceFact>, i: usize) -> (d: Option<LintDiagnostic>)
    requires
        cx.wf(),
        i < cx.ast.nodes@.len(),
    ensures
        opt_diag(d) == regexp_report(cx, refs@, i as int),
{
    if !cx.ast.is_kind(i, "NewExpression") {
        return None;
    }
    match cx.ast.child_of(i, "callee") {
        Some(c) => {
            let u = unparen_exec(&cx.ast, c);
            if global_ident_exec(cx, refs, u, "RegExp") && inside_loop_exec(cx, i) {
                let msg = chars_of("Move regular expression construction out of the loop");
                Some(cx.node_diagnostic("no-regexp-in-loop", &msg, i, Severity::Warning))
            } else {
                None
            }
        },
        None => None,
    }
}

/// Flags `new RegExp(...)` inside loops.
pub struct NoRegexpInLoop;

impl NoRegexpInLoop {
    pub fn name(&self) -> (r: &'static str)
        ensures
            r@ == "no-regexp-in-loop"@,
    {
        "no-regexp-in-loop"
    }

    pub fn run(&self, cx: &LintContext, refs: &Vec<ReferenceFact>) -> (r: Vec<LintDiagnostic>)
        requires
            cx.wf(),
        ensures
            views(r@) == reports(cx.ast.nodes@.len() as int, regexp_reports(cx, refs@)),
    {
        let check = |i: usize| -> (d: Option<LintDiagnostic>)
            requires
                cx.wf(),
                i < cx.ast.nodes@.len(),
            ensures
                opt_diag(d) == regexp_report(cx, refs@, i as int),
        { regexp_check(cx, refs, i) };
        scan_nodes(cx, check, Ghost(regexp_reports(cx, refs@)))
    }
}

/// Which method each loop-lookup rule flags inside loops.
#[derive(Debug, Clone, Copy, PartialEq, Eq, Structural)]
pub enum LoopLookup {
    Includes,
    Find,
}

impl LoopLookup {
    pub open spec fn method(self) -> Seq<char> {
        match self {
            LoopLookup::Includes => "includes"@,
            LoopLookup::Find => "find"@,
        }
    }

    pub open spec fn rule(self) -> Seq<char> {
        match self {
            LoopLookup::Includes => "no-array-includes-in-loop"@,
            LoopLookup::Find => "no-array-find-in-loop"@,
        }
    }

    pub open spec fn message(self) -> Seq<char> {
        match self {
            LoopLookup::Includes => "Hoist repeated `includes()` lookups out of loops or use a Set"@,
            LoopLookup::Find => "Hoist repeated `find()` lookups out of loops or pre-index the data"@,
        }
    }

    pub fn name(&self) -> (r: &'static str)
        ensures
            r@ == self.rule(),
    {
        match self {
            LoopLookup::Includes => "no-array-includes-in-loop",
            LoopLookup::Find => "no-array-find-in-loop",
        }
    }

    pub open spec fn report(self, cx: &LintContext, i: int) -> Option<DiagView> {
        if method_name(cx.ast, i) == Some(self.method()) && inside_loop(cx, i) {
            Some(cx.at_node(self.rule(), self.message(), i, Severity::Warning))
        } else {
            None
        }
    }

    pub open spec fn reports_fn(self, cx: &LintContext) -> spec_fn(int) -> Option<DiagView> {
        |i: int| self.report(cx, i)
    }

    fn check(&self, cx: &LintContext, i: usize) -> (d: Option<LintDiagnostic>)
        requires
            cx.wf(),
            i < cx.ast.nodes@.len(),
        ensures
            opt_diag(d) == self.report(cx, i as int),
    {
        let (method, message) = match self {
            LoopLookup::Includes => ("includes", "Hoist repeated `includes()` lookups out of loops or use a Set"),
            LoopLookup::Find => ("find", "Hoist repeated `find()` lookups out of loops or pre-index the data"),
        };
        let named = match method_name_exec(&cx.ast, i) {
            Some(m) => eq_str(&m, method),
            None => false,
        };
        if named && inside_loop_exec(cx, i) {
            Some(cx.node_diagnostic(self.name(), &chars_of(message), i, Severity::Warning))
        } else {
            None
        }
    }

    /// One warning per lookup call made inside a loop.
    pub fn run(&self, cx: &LintContext) -> (r: Vec<LintDiagnostic>)
        requires
            cx.wf(),
        ensures
            views(r@) == reports(cx.ast.nodes@.len() as int, self.reports_fn(cx)),
    {
        let check = |i: usize| -> (d: Option<LintDiagnostic>)
            requires
                cx.wf(),
                i < cx.ast.nodes@.len(),
            ensures
                opt_diag(d) == self.report(cx, i as int),
        { self.check(cx, i) };
        scan_nodes(cx, check, Ghost(self.reports_fn(cx)))
    }
}

// ── Sorting to read the first element ──────────────────────

/// Node `e` is the number literal `0` (through parentheses).
pub open spec fn zero_literal(ast: Ast, e: int) -> bool {
    let u = unparen(ast, e);
    ast.is(u, "Literal"@) && match ast.scalar(u, "value"@) {
        Some(Value::Num(t)) => t@ == "0"@,
        _ => false,
    }
}

fn zero_literal_exec(ast: &Ast, e: usize) -> (b: bool)
    requires
        ast.wf(),
        e < ast.nodes@.len(),
    ensures
        b == zero_literal(*ast, e as int),
{
    let u = unparen_exec(ast, e);
    ast.is_kind(u, "Literal") && match ast.scalar_of(u, "value") {
        Some(Value::Num(t)) => eq_str(t, "0"),
        _ => false,
    }
}

pub open spec fn min_max_report(cx: &LintContext, i: int) -> Option<DiagView> {
    let ast = cx.ast;
    if ast.is(i, "MemberExpression"@) && ast.flag(i, "computed"@) {
        match (ast.child(i, "property"@), ast.child(i, "object"@)) {
            (Some(p), Some(o)) => if zero_literal(ast, p) {
                match as_call(ast, o) {
                    Some(c) => if method_name(ast, c) == Some("sort"@) {
                        Some(
                            cx.at_node(
                                "prefer-math-min-max"@,
                                "Use `Math.min`/`Math.max` instead of sorting to read the first element"@,
                                i,
                                Severity::Warning,
                            ),
                        )
                    } else {
                        None
                    },
                    None => None,
                }
            } else {
                None
            },
            _ => None,
        }
    } else {
        None
    }
}

pub open spec fn min_max_reports(cx: &LintContext) -> spec_fn(int) -> Option<DiagView> {
    |i: int| min_max_report(cx, i)
}

fn min_max_check(cx: &LintContext, i: usize) -> (d: Option<LintDiagnostic>)
    requires
        cx.wf(),
        i < cx.ast.nodes@.len(),
    ensures
        opt_diag(d) == min_max_report(cx, i as int),
{
    let ast = &cx.ast;
    if !(ast.is_kind(i, "MemberExpression") && ast.flag_of(i, "computed")) {
        return None;
    }
    let (p, o) = match (ast.child_of(i, "property"), ast.child_of(i, "object")) {
        (Some(p), Some(o)) => (p, o),
        _ => {
            return None;
        },
    };
    if !zero_literal_exec(ast, p) {
        return None;
    }
    match as_call_exec(ast, o) {
        Some(c) => {
            let sorted = match method_name_exec(ast, c) {
                Some(m) => eq_str(&m, "sort"),
                None => false,
            };
            if sorted {
                let msg = chars_of("Use `Math.min`/`Math.max` instead of sorting to read the first element");
                Some(cx.node_diagnostic("prefer-math-min-max", &msg, i, Severity::Warning))
            } else {
                None
            }
        },
        None => None,
    }
}

/// Flags `values.sort()[0]`.
pub struct PreferMathMinMax;

impl PreferMathMinMax {
    pub fn name(&self) -> (r: &'static str)
        ensures
            r@ == "prefer-math-min-max"@,
    {
        "prefer-math-min-max"
    }

    pub fn run(&self, cx: &LintContext) -> (r: Vec<LintDiagnostic>)
        requires
            cx.wf(),
        ensures
            views(r@) == reports(cx.ast.nodes@.len() as int, min_max_reports(cx)),
    {
        let check = |i: usize| -> (d: Option<LintDiagnostic>)
            requires
                cx.wf(),
                i < cx.ast.nodes@.len(),
            ensures
                opt_diag(d) == min_max_report(cx, i as int),
        { min_max_check(cx, i) };
        scan_nodes(cx, check, Ghost(min_max_reports(cx)))
    }
}

// ── Deep nesting ───────────────────────────────────────────

pub open spec fn is_if_cx(cx: &LintContext, k: int) -> bool {
    cx.ast.is(k, "IfStatement"@)
}

pub open spec fn nesting_report(cx: &LintContext, i: int) -> Option<DiagView> {
    if cx.ast.is(i, "IfStatement"@) && count_ancestors(cx.ast, i, |k: int| is_if_cx(cx, k)) + 1 >= 4 {
        Some(cx.at_node("no-deep-nesting"@, "Reduce deeply nested conditionals"@, i, Severity::Warning))
    } else {
        None
    }
}

pub open spec fn nesting_reports(cx: &LintContext) -> spec_fn(int) -> Option<DiagView> {
    |i: int| nesting_report(cx, i)
}

fn nesting_check(cx: &LintContext, i: usize) -> (d: Option<LintDiagnostic>)
    requires
        cx.wf(),
        i < cx.ast.nodes@.len(),
    ensures
        opt_diag(d) == nesting_report(cx, i as int),
{
    if !cx.ast.is_kind(i, "IfStatement") {
        return None;
    }
    let test = |k: usize| -> (b: bool)
        requires
            k < cx.ast.nodes@.len(),
        ensures
            b == is_if_cx(cx, k as int),
    { cx.ast.is_kind(k, "IfStatement") };
    let n = count_ancestors_exec(&cx.ast, i, test, Ghost(|k: int| is_if_cx(cx, k)));
    if n >= 3 {
        Some(cx.node_diagnostic("no-deep-nesting", &chars_of("Reduce deeply nested conditionals"), i, Severity::Warning))
    } else {
        None
    }
}

/// Flags `if` statements nested four or more deep.
pub struct NoDeepNesting;

impl NoDeepNesting {
    pub fn name(&self) -> (r: &'static str)
        ensures
            r@ == "no-deep-nesting"@,
    {
        "no-deep-nesting"
    }

    pub fn run(&self, cx: &LintContext) -> (r: Vec<LintDiagnostic>)
        requires
            cx.wf(),
        ensures
            views(r@) == reports(cx.ast.nodes@.len() as int, nesting_reports(cx)),
    {
        let check = |i: usize| -> (d: Option<LintDiagnostic>)
            requires
                cx.wf(),
                i < cx.ast.nodes@.len(),
            ensures
                opt_diag(d) == nesting_report(cx, i as int),
        { nesting_check(cx, i) };
        scan_nodes(cx, check, Ghost(nesting_reports(cx)))
    }
}

// ── Repeated style writes and storage reads ────────────────

/// What `<root>.style.<prop> = ...` assignment `i` writes to: `<root>`.
#[verifier::opaque]
pub open spec fn style_key(ast: Ast, i: int) -> Option<Seq<char>> {
    if ast.is(i, "AssignmentExpression"@) {
        match ast.child(i, "left"@) {
            Some(l) => if ast.is(l, "MemberExpression"@) && member_static_name(ast, l) is Some {
                match ast.child(l, "object"@) {
                    Some(sm) => if member_static_name(ast, sm) == Some("style"@) {
                        match ast.child(sm, "object"@) {
                            Some(root) => callee_static_name(ast, root),
                            None => None,
                        }
                    } else {
                        None
                    },
                    None => None,
                }
            } else {
                None
            },
            None => None,
        }
    } else {
        None
    }
}

fn style_key_exec(ast: &Ast, i: usize) -> (r: Option<Vec<char>>)
    requires
        ast.wf(),
        i < ast.nodes@.len(),
    ensures
        opt_seq(r) == style_key(*ast, i as int),
{
    reveal(style_key);
    if !ast.is_kind(i, "AssignmentExpression") {
        return None;
    }
    let l = match ast.child_of(i, "left") {
        Some(l) => l,
        None => {
            return None;
        },
    };
    if !(ast.is_kind(l, "MemberExpression") && member_static_name_exec(ast, l).is_some()) {
        return None;
    }
    let sm = match ast.child_of(l, "object") {
        Some(sm) => sm,
        None => {
            return None;
        },
    };
    let is_style = match member_static_name_exec(ast, sm) {
        Some(n) => eq_str(&n, "style"),
        None => false,
    };
    if !is_style {
        return None;
    }
    match ast.child_of(sm, "object") {
        Some(root) => callee_static_name_exec(ast, root),
        None => None,
    }
}

pub open spec fn block_or_program_cx(cx: &LintContext, k: int) -> bool {
    cx.ast.is(k, "Program"@) || plain_block(cx.ast, k)
}

/// The nearest enclosing block (or the program) of node `i`.
pub open spec fn block_container(cx: &LintContext, i: int) -> Option<int> {
    nearest_ancestor(cx.ast, i, |k: int| block_or_program_cx(cx, k))
}

fn block_container_exec(cx: &LintContext, i: usize) -> (r: Option<usize>)
    requires
        cx.wf(),
        i < cx.ast.nodes@.len(),
    ensures
        match r {
            Some(c) => block_container(cx, i as int) == Some(c as int),
            None => block_container(cx, i as int) is None,
        },
{
    let test = |k: usize| -> (b: bool)
        requires
            cx.wf(),
            k < cx.ast.nodes@.len(),
        ensures
            b == block_or_program_cx(cx, k as int),
    { cx.ast.is_kind(k, "Program") || plain_block_exec(&cx.ast, k) };
    nearest_ancestor_exec(&cx.ast, i, test, Ghost(|k: int| block_or_program_cx(cx, k)))
}

/// Assignment `j` writes the same element's style in the same block as `i` would.
pub open spec fn same_style_write(cx: &LintContext, j: int, key: Seq<char>, c: int) -> bool {
    style_key(cx.ast, j) == Some(key) && block_container(cx, j) == Some(c)
}

/// Some assignment before node `i` writes `key`'s style in block `c`.
pub open spec fn written_before(cx: &LintContext, i: int, key: Seq<char>, c: int) -> bool {
    exists|j: int| 0 <= j < i && #[trigger] same_style_write(cx, j, key, c)
}

/// Assignment `i` writes a style that an earlier assignment in its block wrote.
pub open spec fn style_repeated(cx: &LintContext, i: int) -> bool {
    match style_key(cx.ast, i) {
        Some(key) => match block_container(cx, i) {
            Some(c) => written_before(cx, i, key, c),
            None => false,
        },
        None => false,
    }
}

pub open spec fn style_report(cx: &LintContext, i: int) -> Option<DiagView> {
    if style_repeated(cx, i) {
        Some(
            cx.at_node(
                "no-sequential-style-assignment"@,
                "Group repeated `.style` mutations into a single style update"@,
                i,
                Severity::Warning,
            ),
        )
    } else {
        None
    }
}

pub open spec fn style_reports(cx: &LintContext) -> spec_fn(int) -> Option<DiagView> {
    |i: int| style_report(cx, i)
}

fn same_style_write_exec(cx: &LintContext, j: usize, key: &Vec<char>, c: usize) -> (b: bool)
    requires
        cx.wf(),
        j < cx.ast.nodes@.len(),
    ensures
        b == same_style_write(cx, j as int, key@, c as int),
{
    match style_key_exec(&cx.ast, j) {
        Some(k2) => eq_chars(&k2, key) && match block_container_exec(cx, j) {
            Some(c2) => c2 == c,
            None => false,
        },
        None => false,
    }
}

fn style_check(cx: &LintContext, i: usize) -> (d: Option<LintDiagnostic>)
    requires
        cx.wf(),
        i < cx.ast.nodes@.len(),
    ensures
        opt_diag(d) == style_report(cx, i as int),
{
    let (key, c) = match (style_key_exec(&cx.ast, i), block_container_exec(cx, i)) {
        (Some(k), Some(c)) => (k, c),
        _ => {
            return None;
        },
    };
    let mut j: usize = 0;
    while j < i
        invariant
            cx.wf(),
            i < cx.ast.nodes@.len(),
            j <= i,
            style_key(cx.ast, i as int) == Some(key@),
            block_container(cx, i as int) == Some(c as int),
            forall|q: int| 0 <= q < j ==> !#[trigger] same_style_write(cx, q, key@, c as int),
        decreases i - j,
    {
        if same_style_write_exec(cx, j, &key, c) {
            assert(same_style_write(cx, j as int, key@, c as int));
            assert(written_before(cx, i as int, key@, c as int));

            let msg = chars_of("Group repeated `.style` mutations into a single style update");
            return Some(cx.node_diagnostic("no-sequential-style-assignment", &msg, i, Severity::Warning));
        }
        j = j + 1;
    }
    None
}

/// Flags a second `.style` write to the same element in one block.
pub struct NoSequentialStyleAssignment;

impl NoSequentialStyleAssignment {
    pub fn name(&self) -> (r: &'static str)
        ensures
            r@ == "no-sequential-style-assignment"@,
    {
        "no-sequential-style-assignment"
    }

    pub fn run(&self, cx: &LintContext) -> (r: Vec<LintDiagnostic>)
        requires
            cx.wf(),
        ensures
            views(r@) == reports(cx.ast.nodes@.len() as int, style_reports(cx)),
    {
        let check = |i: usize| -> (d: Option<LintDiagnostic>)
            requires
                cx.wf(),
                i < cx.ast.nodes@.len(),
            ensures
                opt_diag(d) == style_report(cx, i as int),
        { style_check(cx, i) };
        scan_nodes(cx, check, Ghost(style_reports(cx)))
    }
}

/// The storage object call `i` reads with `getItem`: `localStorage` or `sessionStorage`.
pub open spec fn storage_object(ast: Ast, i: int) -> Option<Seq<char>> {
    if ast.is(i, "CallExpression"@) {
        match ast.child(i, "callee"@) {
            Some(c) => if ast.is(c, "MemberExpression"@) && member_static_name(ast, c) == Some("getItem"@) {
                match ast.child(c, "object"@) {
                    Some(o) => match callee_static_name(ast, o) {
                        Some(obj) => if obj == "localStorage"@ || obj == "sessionStorage"@ {
                            Some(obj)
                        } else {
                            None
                        },
                        None => None,
                    },
                    None => None,
                }
            } else {
                None
            },
            None => None,
        }
    } else {
        None
    }
}

/// What storage read `i` reads: `localStorage:<key>` for `localStorage.getItem('<key>')`.
#[verifier::opaque]
pub open spec fn storage_key(ast: Ast, i: int) -> Option<Seq<char>> {
    match storage_object(ast, i) {
        Some(obj) => match nth_child(ast, i, "arguments"@, 0) {
            Some(a) => match string_like(ast, a) {
                Some(key) => Some(obj + ":"@ + key),
                None => None,
            },
            None => None,
        },
        None => None,
    }
}

fn storage_object_exec(ast: &Ast, i: usize) -> (r: Option<Vec<char>>)
    requires
        ast.wf(),
        i < ast.nodes@.len(),
    ensures
        opt_seq(r) == storage_object(*ast, i as int),
{
    if !ast.is_kind(i, "CallExpression") {
        return None;
    }
    let c = match ast.child_of(i, "callee") {
        Some(c) => c,
        None => {
            return None;
        },
    };
    let get_item = match member_static_name_exec(ast, c) {
        Some(n) => eq_str(&n, "getItem"),
        None => false,
    };
    if !(ast.is_kind(c, "MemberExpression") && get_item) {
        return None;
    }
    match ast.child_of(c, "object") {
        Some(o) => match callee_static_name_exec(ast, o) {
            Some(n) => if eq_str(&n, "localStorage") || eq_str(&n, "sessionStorage") {
                Some(n)
            } else {
                None
            },
            None => None,
        },
        None => None,
    }
}

fn storage_key_exec(ast: &Ast, i: usize) -> (r: Option<Vec<char>>)
    requires
        ast.wf(),
        i < ast.nodes@.len(),
    ensures
        opt_seq(r) == storage_key(*ast, i as int),
{
    reveal(storage_key);
    let obj = match storage_object_exec(ast, i) {
        Some(o) => o,
        None => {
            return None;
        },
    };
    match nth_child_exec(ast, i, "arguments", 0) {
        Some(a) => match string_like_exec(ast, a) {
            Some(key) => {
                let mut out = obj.clone();
                out.push(':');
                out.append(&mut key.clone());
                proof {
                    reveal_strlit(":");
                    assert(out@ =~= obj@ + ":"@ + key@);
                }
                Some(out)
            },
            None => None,
        },
        None => None,
    }
}

pub open spec fn scope_container_cx(cx: &LintContext, k: int) -> bool {
    cx.ast.is(k, "Program"@) || function_like(cx.ast, k) || plain_block(cx.ast, k)
}

/// The nearest enclosing function, block or program of node `i`.
pub open spec fn scope_container(cx: &LintContext, i: int) -> Option<int> {
    nearest_ancestor(cx.ast, i, |k: int| scope_container_cx(cx, k))
}

fn scope_container_exec(cx: &LintContext, i: usize) -> (r: Option<usize>)
    requires
        cx.wf(),
        i < cx.ast.nodes@.len(),
    ensures
        match r {
            Some(c) => scope_container(cx, i as int) == Some(c as int),
            None => scope_container(cx, i as int) is None,
        },
{
    let test = |k: usize| -> (b: bool)
        requires
            cx.wf(),
            k < cx.ast.nodes@.len(),
        ensures
            b == scope_container_cx(cx, k as int),
    { cx.ast.is_kind(k, "Program") || function_like_exec(&cx.ast, k) || plain_block_exec(&cx.ast, k) };
    nearest_ancestor_exec(&cx.ast, i, test, Ghost(|k: int| scope_container_cx(cx, k)))
}

pub open spec fn same_storage_read(cx: &LintContext, j: int, key: Seq<char>, c: int) -> bool {
    storage_key(cx.ast, j) == Some(key) && scope_container(cx, j) == Some(c)
}

/// Some call before node `i` reads storage key `key` in scope `c`.
pub open spec fn read_before(cx: &LintContext, i: int, key: Seq<char>, c: int) -> bool {
    exists|j: int| 0 <= j < i && #[trigger] same_storage_read(cx, j, key, c)
}

/// Call `i` reads a storage key that an earlier call in its scope read.
pub open spec fn storage_repeated(cx: &LintContext, i: int) -> bool {
    match storage_key(cx.ast, i) {
        Some(key) => match scope_container(cx, i) {
            Some(c) => read_before(cx, i, key, c),
            None => false,
        },
        None => false,
    }
}

pub open spec fn storage_report(cx: &LintContext, i: int) -> Option<DiagView> {
    if storage_repeated(cx, i) {
        Some(
            cx.at_node(
                "no-duplicate-storage-reads"@,
                "Avoid duplicate storage reads within the same scope"@,
                i,
                Severity::Warning,
            ),
        )
    } else {
        None
    }
}

pub open spec fn storage_reports(cx: &LintContext) -> spec_fn(int) -> Option<DiagView> {
    |i: int| storage_report(cx, i)
}

fn same_storage_read_exec(cx: &LintContext, j: usize, key: &Vec<char>, c: usize) -> (b: bool)
    requires
        cx.wf(),
        j < cx.ast.nodes@.len(),
    ensures
        b == same_storage_read(cx, j as int, key@, c as int),
{
    match storage_key_exec(&cx.ast, j) {
        Some(k2) => eq_chars(&k2, key) && match scope_container_exec(cx, j) {
            Some(c2) => c2 == c,
            None => false,
        },
        None => false,
    }
}

fn storage_check(cx: &LintContext, i: usize) -> (d: Option<LintDiagnostic>)
    requires
        cx.wf(),
        i < cx.ast.nodes@.len(),
    ensures
        opt_diag(d) == storage_report(cx, i as int),
{
    let (key, c) = match (storage_key_exec(&cx.ast, i), scope_container_exec(cx, i)) {
        (Some(k), Some(c)) => (k, c),
        _ => {
            return None;
        },
    };
    let mut j: usize = 0;
    while j < i
        invariant
            cx.wf(),
            i < cx.ast.nodes@.len(),
            j <= i,
            storage_key(cx.ast, i as int) == Some(key@),
            scope_container(cx, i as int) == Some(c as int),
            forall|q: int| 0 <= q < j ==> !#[trigger] same_storage_read(cx, q, key@, c as int),
        decreases i - j,
    {
        if same_storage_read_exec(cx, j, &key, c) {
            assert(same_storage_read(cx, j as int, key@, c as int));
            assert(read_before(cx, i as int, key@, c as int));
            let msg = chars_of("Avoid duplicate storage reads within the same scope");
            return Some(cx.node_diagnostic("no-duplicate-storage-reads", &msg, i, Severity::Warning));
        }
        j = j + 1;
    }
    None
}

/// Flags a second read of the same storage key in one scope.
pub struct NoDuplicateStorageReads;

impl NoDuplicateStorageReads {
    pub fn name(&self) -> (r: &'static str)
        ensures
            r@ == "no-duplicate-storage-reads"@,
    {
        "no-duplicate-storage-reads"
    }

    pub fn run(&self, cx: &LintContext) -> (r: Vec<LintDiagnostic>)
        requires
            cx.wf(),
        ensures
            views(r@) == reports(cx.ast.nodes@.len() as int, storage_reports(cx)),
    {
        let check = |i: usize| -> (d: Option<LintDiagnostic>)
            requires
                cx.wf(),
                i < cx.ast.nodes@.len(),
            ensures
                opt_diag(d) == storage_report(cx, i as int),
        { storage_check(cx, i) };
        scan_nodes(cx, check, Ghost(storage_reports(cx)))
    }
}

// ── Sequential awaits ──────────────────────────────────────

/// Statement `s` awaits: `await x;` or a single declaration `const a = await x;`.
pub open spec fn await_statement(ast: Ast, s: int) -> bool {
    ||| (ast.is(s, "ExpressionStatement"@) && match ast.child(s, "expression"@) {
        Some(e) => ast.is(unparen(ast, e), "AwaitExpression"@),
        None => false,
    })
    ||| (ast.is(s, "VariableDeclaration"@) && ast.field_children(s, "declarations"@).len() == 1 && match ast.child(
        ast.field_children(s, "declarations"@)[0] as int,
        "init"@,
    ) {
        Some(init) => ast.is(unparen(ast, init), "AwaitExpression"@),
        None => false,
    })
}

fn await_statement_exec(ast: &Ast, s: usize) -> (b: bool)
    requires
        ast.wf(),
        s < ast.nodes@.len(),
    ensures
        b == await_statement(*ast, s as int),
{
    if ast.is_kind(s, "ExpressionStatement") {
        let hit = match ast.child_of(s, "expression") {
            Some(e) => ast.is_kind(unparen_exec(ast, e), "AwaitExpression"),
            None => false,
        };
        if hit {
            return true;
        }
    }
    if !ast.is_kind(s, "VariableDeclaration") {
        return false;
    }
    let decls = ast.children_in(s, "declarations");
    if decls.len() != 1 {
        return false;
    }
    match ast.child_of(decls[0], "init") {
        Some(init) => ast.is_kind(unparen_exec(ast, init), "AwaitExpression"),
        None => false,
    }
}

/// Position `p` of `stmts` ends a run of at least three awaiting statements.
pub open spec fn streak_end(ast: Ast, stmts: Seq<usize>, p: int) -> bool {
    &&& 2 <= p < stmts.len()
    &&& await_statement(ast, stmts[p] as int)
    &&& await_statement(ast, stmts[p - 1] as int)
    &&& await_statement(ast, stmts[p - 2] as int)
    &&& (p + 1 == stmts.len() || !await_statement(ast, stmts[p + 1] as int))
}

/// The diagnostics for the runs ending among the first `n` positions of `stmts`.
pub open spec fn streak_diags(cx: &LintContext, stmts: Seq<usize>, n: int) -> Seq<DiagView>
    decreases n,
{
    if n <= 0 {
        Seq::empty()
    } else {
        let before = streak_diags(cx, stmts, n - 1);
        if streak_end(cx.ast, stmts, n - 1) {
            before.push(
                cx.at_node(
                    "prefer-promise-all"@,
                    "Combine sequential independent awaits with `Promise.all()` when possible"@,
                    stmts[n - 1] as int,
                    Severity::Warning,
                ),
            )
        } else {
            before
        }
    }
}

/// What the rule reports for block `b`.
pub open spec fn block_await_diags(cx: &LintContext, b: int) -> Seq<DiagView> {
    if cx.ast.is(b, "BlockStatement"@) {
        let stmts = statements(cx.ast, b);
        streak_diags(cx, stmts, stmts.len() as int)
    } else {
        Seq::empty()
    }
}

/// What the rule reports for the first `n` nodes.
pub open spec fn promise_all_reports(cx: &LintContext, n: int) -> Seq<DiagView>
    decreases n,
{
    if n <= 0 {
        Seq::empty()
    } else {
        promise_all_reports(cx, n - 1) + block_await_diags(cx, n - 1)
    }
}

fn block_await_check(cx: &LintContext, b: usize) -> (r: Vec<LintDiagnostic>)
    requires
        cx.wf(),
        b < cx.ast.nodes@.len(),
    ensures
        views(r@) == block_await_diags(cx, b as int),
{
    let mut out: Vec<LintDiagnostic> = Vec::new();
    if !cx.ast.is_kind(b, "BlockStatement") {
        return out;
    }
    let stmts = statements_exec(&cx.ast, b);
    let mut flags: Vec<bool> = Vec::new();
    let mut k: usize = 0;
    while k < stmts.len()
        invariant
            cx.wf(),
            forall|q: int| 0 <= q < stmts@.len() ==> #[trigger] stmts@[q] < cx.ast.nodes@.len(),
            k <= stmts@.len(),
            flags@.len() == k,
            forall|q: int| 0 <= q < k ==> flags@[q] == await_statement(cx.ast, #[trigger] stmts@[q] as int),
        decreases stmts@.len() - k,
    {
        let f = await_statement_exec(&cx.ast, stmts[k]);
        flags.push(f);
        k = k + 1;
    }
    let mut p: usize = 0;
    while p < stmts.len()
        invariant
            cx.wf(),
            forall|q: int| 0 <= q < stmts@.len() ==> #[trigger] stmts@[q] < cx.ast.nodes@.len(),
            flags@.len() == stmts@.len(),
            forall|q: int| 0 <= q < stmts@.len() ==> flags@[q] == await_statement(cx.ast, #[trigger] stmts@[q] as int),
            p <= stmts@.len(),
            views(out@) == streak_diags(cx, stmts@, p as int),
        decreases stmts@.len() - p,
    {
        let end = p >= 2 && flags[p] && flags[p - 1] && flags[p - 2] && (p + 1 == stmts.len() || !flags[p + 1]);
        proof {
            if p >= 2 {
                assert(flags@[p - 1] == await_statement(cx.ast, stmts@[p - 1] as int));
                assert(flags@[p - 2] == await_statement(cx.ast, stmts@[p - 2] as int));
            }
            if p + 1 < stmts@.len() {
                assert(flags@[p + 1] == await_statement(cx.ast, stmts@[p + 1] as int));
            }
            assert(flags@[p as int] == await_statement(cx.ast, stmts@[p as int] as int));
            assert(end == streak_end(cx.ast, stmts@, p as int));
        }
        if end {
            let msg = chars_of("Combine sequential independent awaits with `Promise.all()` when possible");
            let d = cx.node_diagnostic("prefer-promise-all", &msg, stmts[p], Severity::Warning);
            proof {
                crate::engine::lemma_views_push(out@, d);
            }
            out.push(d);
        }
        p = p + 1;
    }
    out
}

/// Flags three or more consecutive awaits that could run together.
pub struct PreferPromiseAll;

impl PreferPromiseAll {
    pub fn name(&self) -> (r: &'static str)
        ensures
            r@ == "prefer-promise-all"@,
    {
        "prefer-promise-all"
    }

    /// For each block in node order, one warning at the last statement of
    /// every run of three or more awaiting statements.
    pub fn run(&self, cx: &LintContext) -> (r: Vec<LintDiagnostic>)
        requires
            cx.wf(),
        ensures
            views(r@) == promise_all_reports(cx, cx.ast.nodes@.len() as int),
    {
        let mut out: Vec<LintDiagnostic> = Vec::new();
        let mut i: usize = 0;
        while i < cx.ast.nodes.len()
            invariant
                cx.wf(),
                i <= cx.ast.nodes@.len(),
                views(out@) == promise_all_reports(cx, i as int),
            decreases cx.ast.nodes@.len() - i,
        {
            let mut part = block_await_check(cx, i);
            proof {
                crate::engine::lemma_views_append(out@, part@);
            }
            out.append(&mut part);
            i = i + 1;
        }
        out
    }
}

} // verus!
