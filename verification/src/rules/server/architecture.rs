//! Server architecture rules: unvalidated request bodies, ORM writes outside
//! transactions, and route handlers that grow too long.
use vstd::prelude::*;

use crate::ast::{wf_nodes, Ast};
use crate::engine::{
    any_node, any_node_exec, count_nodes, count_nodes_exec, decimal, decimal_chars, filter_reports,
    filter_reports_exec, gated, line_col, lemma_views_push, offset_to_line_col, opt_diag, reports_all,
    scan_nodes_all, views, DiagView, LintContext,
};
use crate::estree::{member_static_name, member_static_name_exec, nearest_ancestor};
use crate::lint::{LintDiagnostic, Severity};
use crate::project::ProjectInfo;
use crate::rules::react::helpers::{callee_static_name, callee_static_name_exec, span_within};
use crate::rules::server::helpers::{
    bodied_function, call_method, callee_name, callee_name_exec, enclosing_function_exec, is_orm_mutate_call,
    is_route_registration, orm_mutate_methods, route_registration, span_of, span_within_exec,
};
use crate::text::{chars_of, concat_chars, ends_with, ends_with_str, eq_str};

verus! {

/// The body of handler argument `a`, a function written in place.
pub open spec fn handler_body(ast: Ast, a: usize) -> Option<int> {
    if ast.is(a as int, "ArrowFunctionExpression"@) || ast.is(a as int, "FunctionExpression"@) {
        ast.child(a as int, "body"@)
    } else {
        None
    }
}

fn handler_body_exec(ast: &Ast, a: usize) -> (r: Option<usize>)
    requires
        ast.wf(),
        a < ast.nodes@.len(),
    ensures
        match r {
            Some(b) => b < ast.nodes@.len() && handler_body(*ast, a) == Some(b as int),
            None => handler_body(*ast, a) is None,
        },
{
    if ast.is_kind(a, "ArrowFunctionExpression") || ast.is_kind(a, "FunctionExpression") {
        ast.child_of(a, "body")
    } else {
        None
    }
}

// ── Input validation ───────────────────────────────────────

/// Member expression `k` is `#field` access on a private name.
pub open spec fn private_field(ast: Ast, k: int) -> bool {
    !ast.flag(k, "computed"@) && match ast.child(k, "property"@) {
        Some(p) => ast.is(p, "PrivateIdentifier"@),
        None => false,
    }
}

/// Node `k`, within node `b`, reads the request body: `req.body`,
/// `request["body"]`, or a member of `req.body`.
pub open spec fn body_read(ast: Ast, b: int, k: int) -> bool {
    &&& ast.is(k, "MemberExpression"@)
    &&& span_within(ast, b, k)
    &&& !private_field(ast, k)
    &&& match ast.child(k, "object"@) {
        Some(o) => match callee_static_name(ast, o) {
            Some(n) => n == "req.body"@ || n == "request.body"@ || ((n == "req"@ || n == "request"@)
                && member_static_name(ast, k) == Some("body"@)),
            None => false,
        },
        None => false,
    }
}

/// A name that validates: `*.parse`, `*.safeParse`, `*.validate`,
/// `validate`, `z.parse` or `Joi.attempt`.
pub open spec fn validation_name(n: Seq<char>) -> bool {
    ||| ends_with(n, ".parse"@)
    ||| ends_with(n, ".safeParse"@)
    ||| ends_with(n, ".validate"@)
    ||| n == "validate"@
    ||| n == "z.parse"@
    ||| n == "Joi.attempt"@
}

/// Node `k`, within node `b`, is a validation call.
pub open spec fn validation_call(ast: Ast, b: int, k: int) -> bool {
    ast.is(k, "CallExpression"@) && span_within(ast, b, k) && match callee_name(ast, k) {
        Some(n) => validation_name(n),
        None => false,
    }
}

/// What `require-input-validation` reports for handler argument `a`.
pub open spec fn input_validation_arg(cx: &LintContext, a: usize) -> Option<DiagView> {
    let ast = cx.ast;
    match handler_body(ast, a) {
        Some(b) => if any_node(ast.nodes@.len() as int, |k: int| body_read(ast, b, k)) && !any_node(
            ast.nodes@.len() as int,
            |k: int| validation_call(ast, b, k),
        ) {
            Some(
                cx.at_node(
                    "server/require-input-validation"@,
                    "Validate request bodies before using them in route handlers"@,
                    a as int,
                    Severity::Warning,
                ),
            )
        } else {
            None
        },
        None => None,
    }
}

/// What `require-input-validation` reports at node `i`: one warning per
/// handler of route registration `i` that reads the body without validating.
pub open spec fn input_validation_reports(cx: &LintContext) -> spec_fn(int) -> Seq<DiagView> {
    |i: int|
        if route_registration(cx.ast, i) {
            filter_reports(cx.ast.field_children(i, "arguments"@), |a: usize| input_validation_arg(cx, a))
        } else {
            Seq::empty()
        }
}

fn body_read_exec(ast: &Ast, b: usize, k: usize) -> (r: bool)
    requires
        ast.wf(),
        b < ast.nodes@.len(),
        k < ast.nodes@.len(),
    ensures
        r == body_read(*ast, b as int, k as int),
{
    if !ast.is_kind(k, "MemberExpression") || !span_within_exec(ast, b, k) {
        return false;
    }
    let private = !ast.flag_of(k, "computed") && match ast.child_of(k, "property") {
        Some(p) => ast.is_kind(p, "PrivateIdentifier"),
        None => false,
    };
    if private {
        return false;
    }
    match ast.child_of(k, "object") {
        Some(o) => match callee_static_name_exec(ast, o) {
            Some(n) => eq_str(&n, "req.body") || eq_str(&n, "request.body") || ((eq_str(&n, "req") || eq_str(
                &n,
                "request",
            )) && match member_static_name_exec(ast, k) {
                Some(p) => eq_str(&p, "body"),
                None => false,
            }),
            None => false,
        },
        None => false,
    }
}

fn validation_call_exec(ast: &Ast, b: usize, k: usize) -> (r: bool)
    requires
        ast.wf(),
        b < ast.nodes@.len(),
        k < ast.nodes@.len(),
    ensures
        r == validation_call(*ast, b as int, k as int),
{
    ast.is_kind(k, "CallExpression") && span_within_exec(ast, b, k) && match callee_name_exec(ast, k) {
        Some(n) => ends_with_str(&n, ".parse") || ends_with_str(&n, ".safeParse") || ends_with_str(&n, ".validate")
            || eq_str(&n, "validate") || eq_str(&n, "z.parse") || eq_str(&n, "Joi.attempt"),
        None => false,
    }
}

fn input_validation_arg_exec(cx: &LintContext, a: usize) -> (d: Option<LintDiagnostic>)
    requires
        cx.wf(),
        a < cx.ast.nodes@.len(),
    ensures
        opt_diag(d) == input_validation_arg(cx, a),
{
    let ast = &cx.ast;
    let b = match handler_body_exec(ast, a) {
        Some(b) => b,
        None => {
            return None;
        },
    };
    let reads = |k: usize| -> (r: bool)
        requires
            wf_nodes(ast.nodes@),
            b < ast.nodes@.len(),
            k < ast.nodes@.len(),
        ensures
            r == body_read(*ast, b as int, k as int),
    { body_read_exec(ast, b, k) };
    if !any_node_exec(ast.nodes.len(), reads, Ghost(|k: int| body_read(*ast, b as int, k))) {
        return None;
    }
    let validates = |k: usize| -> (r: bool)
        requires
            wf_nodes(ast.nodes@),
            b < ast.nodes@.len(),
            k < ast.nodes@.len(),
        ensures
            r == validation_call(*ast, b as int, k as int),
    { validation_call_exec(ast, b, k) };
    if any_node_exec(ast.nodes.len(), validates, Ghost(|k: int| validation_call(*ast, b as int, k))) {
        return None;
    }
    let msg = chars_of("Validate request bodies before using them in route handlers");
    Some(cx.node_diagnostic("server/require-input-validation", &msg, a, Severity::Warning))
}

fn input_validation_check(cx: &LintContext, i: usize) -> (r: Vec<LintDiagnostic>)
    requires
        cx.wf(),
        i < cx.ast.nodes@.len(),
    ensures
        views(r@) == (input_validation_reports(cx))(i as int),
{
    if !is_route_registration(&cx.ast, i) {
        return Vec::new();
    }
    let args = cx.ast.children_in(i, "arguments");
    let check = |a: usize| -> (d: Option<LintDiagnostic>)
        requires
            cx.wf(),
            a < cx.ast.nodes@.len(),
        ensures
            opt_diag(d) == input_validation_arg(cx, a),
    { input_validation_arg_exec(cx, a) };
    filter_reports_exec(&args, check, Ghost(|a: usize| input_validation_arg(cx, a)))
}

/// Flags route handlers that read the request body without validating it.
pub struct RequireInputValidation;

impl RequireInputValidation {
    pub fn name(&self) -> (r: &'static str)
        ensures
            r@ == "server/require-input-validation"@,
    {
        "server/require-input-validation"
    }

    /// In a server project, one warning per handler that reads the request
    /// body and calls no validator, registration by registration.
    pub fn run(&self, cx: &LintContext, project: &ProjectInfo) -> (r: Vec<LintDiagnostic>)
        requires
            cx.wf(),
        ensures
            views(r@) == gated(project.server(), reports_all(cx.ast.nodes@.len() as int, input_validation_reports(cx))),
    {
        if !project.has_server_framework() {
            return Vec::new();
        }
        let check = |i: usize| -> (r: Vec<LintDiagnostic>)
            requires
                cx.wf(),
                i < cx.ast.nodes@.len(),
            ensures
                views(r@) == (input_validation_reports(cx))(i as int),
        { input_validation_check(cx, i) };
        scan_nodes_all(cx, check, Ghost(input_validation_reports(cx)))
    }
}

// ── ORM writes outside a transaction ───────────────────────

/// Call `k` writes through an ORM.
pub open spec fn orm_mutation(ast: Ast, k: int) -> bool {
    ast.is(k, "CallExpression"@) && match call_method(ast, k) {
        Some(m) => orm_mutate_methods().contains(m),
        None => false,
    }
}

/// Node `k` is an ORM write within node `f`.
pub open spec fn mutation_within(ast: Ast, f: int, k: int) -> bool {
    orm_mutation(ast, k) && span_within(ast, f, k)
}

/// A name that opens a transaction: `*.transaction`, `*.$transaction` or `transaction`.
pub open spec fn transaction_name(n: Seq<char>) -> bool {
    ends_with(n, ".transaction"@) || ends_with(n, ".$transaction"@) || n == "transaction"@
}

/// Node `k`, within node `f`, opens a transaction.
pub open spec fn transaction_within(ast: Ast, f: int, k: int) -> bool {
    ast.is(k, "CallExpression"@) && span_within(ast, f, k) && match callee_name(ast, k) {
        Some(n) => transaction_name(n),
        None => false,
    }
}

/// The functions already flagged (by span) and what was reported, after
/// node `i` given the state before it: an ORM write is reported when its
/// function is not flagged yet, holds two or more writes and no transaction.
pub open spec fn floating_step(cx: &LintContext, i: int, state: (Seq<(u32, u32)>, Seq<DiagView>)) -> (
    Seq<(u32, u32)>,
    Seq<DiagView>,
) {
    let ast = cx.ast;
    let n = ast.nodes@.len() as int;
    if orm_mutation(ast, i) {
        match nearest_ancestor(ast, i, |q: int| bodied_function(ast, q)) {
            Some(f) => {
                let sp = span_of(ast, f);
                if state.0.contains(sp) || count_nodes(n, |k: int| mutation_within(ast, f, k)) < 2 || any_node(
                    n,
                    |k: int| transaction_within(ast, f, k),
                ) {
                    state
                } else {
                    (
                        state.0.push(sp),
                        state.1.push(
                            cx.at_node(
                                "server/no-floating-transaction"@,
                                "Wrap multiple ORM mutations in a transaction"@,
                                i,
                                Severity::Warning,
                            ),
                        ),
                    )
                }
            },
            None => state,
        }
    } else {
        state
    }
}

/// The state after the first `m` nodes.
pub open spec fn floating_scan(cx: &LintContext, m: int) -> (Seq<(u32, u32)>, Seq<DiagView>)
    decreases m,
{
    if m <= 0 {
        (Seq::empty(), Seq::empty())
    } else {
        floating_step(cx, m - 1, floating_scan(cx, m - 1))
    }
}

fn contains_span(spans: &Vec<(u32, u32)>, sp: (u32, u32)) -> (b: bool)
    ensures
        b == spans@.contains(sp),
{
    let mut k: usize = 0;
    while k < spans.len()
        invariant
            k <= spans@.len(),
            forall|q: int| 0 <= q < k ==> spans@[q] != sp,
        decreases spans@.len() - k,
    {
        if spans[k].0 == sp.0 && spans[k].1 == sp.1 {
            assert(spans@[k as int] == sp);
            return true;
        }
        k = k + 1;
    }
    false
}

fn transaction_within_exec(ast: &Ast, f: usize, k: usize) -> (r: bool)
    requires
        ast.wf(),
        f < ast.nodes@.len(),
        k < ast.nodes@.len(),
    ensures
        r == transaction_within(*ast, f as int, k as int),
{
    ast.is_kind(k, "CallExpression") && span_within_exec(ast, f, k) && match callee_name_exec(ast, k) {
        Some(n) => ends_with_str(&n, ".transaction") || ends_with_str(&n, ".$transaction") || eq_str(
            &n,
            "transaction",
        ),
        None => false,
    }
}

fn floating_step_exec(cx: &LintContext, i: usize, spans: &mut Vec<(u32, u32)>, out: &mut Vec<LintDiagnostic>)
    requires
        cx.wf(),
        i < cx.ast.nodes@.len(),
    ensures
        (final(spans)@, views(final(out)@)) == floating_step(cx, i as int, (old(spans)@, views(old(out)@))),
{
    let ast = &cx.ast;
    if !(ast.is_kind(i, "CallExpression") && is_orm_mutate_call(ast, i)) {
        return;
    }
    let f = match enclosing_function_exec(ast, i) {
        Some(f) => f,
        None => {
            return;
        },
    };
    let sp = (ast.nodes[f].start, ast.nodes[f].end);
    if contains_span(spans, sp) {
        return;
    }
    let mutates = |k: usize| -> (r: bool)
        requires
            wf_nodes(ast.nodes@),
            f < ast.nodes@.len(),
            k < ast.nodes@.len(),
        ensures
            r == mutation_within(*ast, f as int, k as int),
    { ast.is_kind(k, "CallExpression") && is_orm_mutate_call(ast, k) && span_within_exec(ast, f, k) };
    let count = count_nodes_exec(ast.nodes.len(), mutates, Ghost(|k: int| mutation_within(*ast, f as int, k)));
    if count < 2 {
        return;
    }
    let opens = |k: usize| -> (r: bool)
        requires
            wf_nodes(ast.nodes@),
            f < ast.nodes@.len(),
            k < ast.nodes@.len(),
        ensures
            r == transaction_within(*ast, f as int, k as int),
    { transaction_within_exec(ast, f, k) };
    if any_node_exec(ast.nodes.len(), opens, Ghost(|k: int| transaction_within(*ast, f as int, k))) {
        return;
    }
    spans.push(sp);
    let msg = chars_of("Wrap multiple ORM mutations in a transaction");
    let d = cx.node_diagnostic("server/no-floating-transaction", &msg, i, Severity::Warning);
    proof {
        lemma_views_push(out@, d);
    }
    out.push(d);
}

/// Flags functions with several ORM writes and no transaction.
pub struct NoFloatingTransaction;

impl NoFloatingTransaction {
    pub fn name(&self) -> (r: &'static str)
        ensures
            r@ == "server/no-floating-transaction"@,
    {
        "server/no-floating-transaction"
    }

    /// In a server project, one warning per function with two or more ORM
    /// writes and no transaction, at its first write.
    pub fn run(&self, cx: &LintContext, project: &ProjectInfo) -> (r: Vec<LintDiagnostic>)
        requires
            cx.wf(),
        ensures
            views(r@) == gated(project.server(), floating_scan(cx, cx.ast.nodes@.len() as int).1),
    {
        if !project.has_server_framework() {
            return Vec::new();
        }
        let mut spans: Vec<(u32, u32)> = Vec::new();
        let mut out: Vec<LintDiagnostic> = Vec::new();
        let n = cx.ast.nodes.len();
        let mut i: usize = 0;
        while i < n
            invariant
                cx.wf(),
                n == cx.ast.nodes@.len(),
                i <= n,
                (spans@, views(out@)) == floating_scan(cx, i as int),
            decreases n - i,
        {
            floating_step_exec(cx, i, &mut spans, &mut out);
            i = i + 1;
        }
        out
    }
}

// ── Long route handlers ────────────────────────────────────

/// The number of lines that node `b` spans.
pub open spec fn line_span(cx: &LintContext, b: int) -> nat {
    let first = line_col(cx.source@, cx.ast.nodes@[b].start as int).0;
    let last = line_col(cx.source@, cx.ast.nodes@[b].end as int).0;
    (if last >= first {
        (last - first) as nat
    } else {
        0nat
    }) + 1
}

/// The message for a handler body of `lines` lines.
pub open spec fn long_route_message(lines: nat) -> Seq<char> {
    "Route handlers over 50 lines should move business logic into services ("@ + decimal(lines) + " lines)"@
}

/// What `no-business-logic-in-route` reports for handler argument `a`.
pub open spec fn long_route_arg(cx: &LintContext, a: usize) -> Option<DiagView> {
    match handler_body(cx.ast, a) {
        Some(b) => if line_span(cx, b) > 50 {
            Some(
                cx.at_node(
                    "server/no-business-logic-in-route"@,
                    long_route_message(line_span(cx, b)),
                    a as int,
                    Severity::Warning,
                ),
            )
        } else {
            None
        },
        None => None,
    }
}

/// What `no-business-logic-in-route` reports at node `i`: one warning per
/// handler of route registration `i` whose body spans more than 50 lines.
pub open spec fn long_route_reports(cx: &LintContext) -> spec_fn(int) -> Seq<DiagView> {
    |i: int|
        if route_registration(cx.ast, i) {
            filter_reports(cx.ast.field_children(i, "arguments"@), |a: usize| long_route_arg(cx, a))
        } else {
            Seq::empty()
        }
}

fn long_route_arg_exec(cx: &LintContext, a: usize) -> (d: Option<LintDiagnostic>)
    requires
        cx.wf(),
        a < cx.ast.nodes@.len(),
    ensures
        opt_diag(d) == long_route_arg(cx, a),
{
    let b = match handler_body_exec(&cx.ast, a) {
        Some(b) => b,
        None => {
            return None;
        },
    };
    let (first, _) = offset_to_line_col(&cx.source, cx.ast.nodes[b].start);
    let (last, _) = offset_to_line_col(&cx.source, cx.ast.nodes[b].end);
    let gap: usize = if last >= first {
        last - first
    } else {
        0
    };
    let lines = gap + 1;
    assert(lines as nat == line_span(cx, b as int));
    if lines <= 50 {
        return None;
    }
    let msg = concat_chars(
        &concat_chars(
            &chars_of("Route handlers over 50 lines should move business logic into services ("),
            &decimal_chars(lines),
        ),
        &chars_of(" lines)"),
    );
    Some(cx.node_diagnostic("server/no-business-logic-in-route", &msg, a, Severity::Warning))
}

fn long_route_check(cx: &LintContext, i: usize) -> (r: Vec<LintDiagnostic>)
    requires
        cx.wf(),
        i < cx.ast.nodes@.len(),
    ensures
        views(r@) == (long_route_reports(cx))(i as int),
{
    if !is_route_registration(&cx.ast, i) {
        return Vec::new();
    }
    let args = cx.ast.children_in(i, "arguments");
    let check = |a: usize| -> (d: Option<LintDiagnostic>)
        requires
            cx.wf(),
            a < cx.ast.nodes@.len(),
        ensures
            opt_diag(d) == long_route_arg(cx, a),
    { long_route_arg_exec(cx, a) };
    filter_reports_exec(&args, check, Ghost(|a: usize| long_route_arg(cx, a)))
}

/// Flags route handlers whose body spans more than 50 lines.
pub struct NoBusinessLogicInRoute;

impl NoBusinessLogicInRoute {
    pub fn name(&self) -> (r: &'static str)
        ensures
            r@ == "server/no-business-logic-in-route"@,
    {
        "server/no-business-logic-in-route"
    }

    /// In a server project, one warning per handler whose body spans more
    /// than 50 lines, naming the count, registration by registration.
    pub fn run(&self, cx: &LintContext, project: &ProjectInfo) -> (r: Vec<LintDiagnostic>)
        requires
            cx.wf(),
        ensures
            views(r@) == gated(project.server(), reports_all(cx.ast.nodes@.len() as int, long_route_reports(cx))),
    {
        if !project.has_server_framework() {
            return Vec::new();
        }
        let check = |i: usize| -> (r: Vec<LintDiagnostic>)
            requires
                cx.wf(),
                i < cx.ast.nodes@.len(),
            ensures
                views(r@) == (long_route_reports(cx))(i as int),
        { long_route_check(cx, i) };
        scan_nodes_all(cx, check, Ghost(long_route_reports(cx)))
    }
}

} // verus!
