//! Server reliability rules: unhandled async handlers, swallowed errors,
//! `process.exit` in handlers, error payloads without a status, thrown strings.
use vstd::prelude::*;

use crate::ast::{wf_nodes, Ast};
use crate::engine::{
    any_node, any_node_exec, filter_reports, filter_reports_exec, gated, opt_diag, reports, reports_all, scan_nodes,
    scan_nodes_all, views, DiagView, LintContext,
};
use crate::estree::{ident_name, ident_name_exec, member_static_name, member_static_name_exec, string_value,
    string_value_exec, unparen, unparen_exec};
use crate::lint::{LintDiagnostic, Severity};
use crate::project::ProjectInfo;
use crate::rules::react::helpers::span_within;
use crate::rules::server::helpers::{
    argument, argument_exec, call_method, call_method_exec, callee_name, callee_name_exec, enclosing_route_handler,
    enclosing_route_handler_exec, has_property, has_property_exec, is_route_registration, route_registration,
    span_within_exec,
};
use crate::text::{chars_of, eq_str};

verus! {

// ── Unhandled async route handlers ─────────────────────────

/// The body of argument `a` when it is an `async` function.
pub open spec fn async_handler_body(ast: Ast, a: usize) -> Option<int> {
    if (ast.is(a as int, "ArrowFunctionExpression"@) || ast.is(a as int, "FunctionExpression"@)) && ast.flag(
        a as int,
        "async"@,
    ) {
        ast.child(a as int, "body"@)
    } else {
        None
    }
}

/// A `try` statement lies within node `b`.
pub open spec fn has_try(ast: Ast, b: int) -> bool {
    any_node(ast.nodes@.len() as int, |k: int| ast.is(k, "TryStatement"@) && span_within(ast, b, k))
}

/// What `no-unhandled-async-route` reports for handler argument `a`.
pub open spec fn unhandled_async_arg(cx: &LintContext, a: usize) -> Option<DiagView> {
    match async_handler_body(cx.ast, a) {
        Some(b) => if has_try(cx.ast, b) {
            None
        } else {
            Some(
                cx.at_node(
                    "server/no-unhandled-async-route"@,
                    "Async route handlers should catch and translate errors explicitly"@,
                    a as int,
                    Severity::Warning,
                ),
            )
        },
        None => None,
    }
}

/// What `no-unhandled-async-route` reports at node `i`: one warning per
/// `async` handler without a `try` that route registration `i` registers.
pub open spec fn unhandled_async_reports(cx: &LintContext) -> spec_fn(int) -> Seq<DiagView> {
    |i: int|
        if route_registration(cx.ast, i) {
            filter_reports(cx.ast.field_children(i, "arguments"@), |a: usize| unhandled_async_arg(cx, a))
        } else {
            Seq::empty()
        }
}

fn has_try_exec(ast: &Ast, b: usize) -> (r: bool)
    requires
        b < ast.nodes@.len(),
    ensures
        r == has_try(*ast, b as int),
{
    let test = |k: usize| -> (r: bool)
        requires
            b < ast.nodes@.len(),
            k < ast.nodes@.len(),
        ensures
            r == (ast.is(k as int, "TryStatement"@) && span_within(*ast, b as int, k as int)),
    { ast.is_kind(k, "TryStatement") && span_within_exec(ast, b, k) };
    any_node_exec(ast.nodes.len(), test, Ghost(|k: int| ast.is(k, "TryStatement"@) && span_within(*ast, b as int, k)))
}

fn unhandled_async_arg_exec(cx: &LintContext, a: usize) -> (d: Option<LintDiagnostic>)
    requires
        cx.wf(),
        a < cx.ast.nodes@.len(),
    ensures
        opt_diag(d) == unhandled_async_arg(cx, a),
{
    let ast = &cx.ast;
    let is_async = (ast.is_kind(a, "ArrowFunctionExpression") || ast.is_kind(a, "FunctionExpression"))
        && ast.flag_of(a, "async");
    if !is_async {
        return None;
    }
    match ast.child_of(a, "body") {
        Some(b) => if has_try_exec(ast, b) {
            None
        } else {
            let msg = chars_of("Async route handlers should catch and translate errors explicitly");
            Some(cx.node_diagnostic("server/no-unhandled-async-route", &msg, a, Severity::Warning))
        },
        None => None,
    }
}

fn unhandled_async_check(cx: &LintContext, i: usize) -> (r: Vec<LintDiagnostic>)
    requires
        cx.wf(),
        i < cx.ast.nodes@.len(),
    ensures
        views(r@) == (unhandled_async_reports(cx))(i as int),
{
    if !is_route_registration(&cx.ast, i) {
        return Vec::new();
    }
    let args = cx.ast.children_in(i, "arguments");
    let check = |a: usize| -> (d: Option<LintDiagnostic>)
        requires
            cx.wf(),
            a < cx.ast.nodes@.len(),
        ensures
            opt_diag(d) == unhandled_async_arg(cx, a),
    { unhandled_async_arg_exec(cx, a) };
    filter_reports_exec(&args, check, Ghost(|a: usize| unhandled_async_arg(cx, a)))
}

/// Flags `async` route handlers that do not catch their errors.
pub struct NoUnhandledAsyncRoute;

impl NoUnhandledAsyncRoute {
    pub fn name(&self) -> (r: &'static str)
        ensures
            r@ == "server/no-unhandled-async-route"@,
    {
        "server/no-unhandled-async-route"
    }

    /// In a server project, one warning per `async` handler without a `try`,
    /// registration by registration.
    pub fn run(&self, cx: &LintContext, project: &ProjectInfo) -> (r: Vec<LintDiagnostic>)
        requires
            cx.wf(),
        ensures
            views(r@) == gated(project.server(), reports_all(cx.ast.nodes@.len() as int, unhandled_async_reports(cx))),
    {
        if !project.has_server_framework() {
            return Vec::new();
        }
        let check = |i: usize| -> (r: Vec<LintDiagnostic>)
            requires
                cx.wf(),
                i < cx.ast.nodes@.len(),
            ensures
                views(r@) == (unhandled_async_reports(cx))(i as int),
        { unhandled_async_check(cx, i) };
        scan_nodes_all(cx, check, Ghost(unhandled_async_reports(cx)))
    }
}

// ── Swallowed errors ───────────────────────────────────────

/// `console.log`, `console.error` or `console.warn`.
pub open spec fn console_call_name(n: Seq<char>) -> bool {
    n == "console.log"@ || n == "console.error"@ || n == "console.warn"@
}

/// Statement `s` only logs to the console.
#[verifier::opaque]
pub open spec fn console_only_statement(ast: Ast, s: int) -> bool {
    ast.is(s, "ExpressionStatement"@) && match ast.child(s, "expression"@) {
        Some(e) => {
            let u = unparen(ast, e);
            ast.is(u, "CallExpression"@) && match callee_name(ast, u) {
                Some(n) => console_call_name(n),
                None => false,
            }
        },
        None => false,
    }
}

/// Every statement of block `b` (if it has any) only logs to the console.
pub open spec fn only_logs(ast: Ast, b: int) -> bool {
    forall|k: int|
        0 <= k < ast.field_children(b, "body"@).len() ==> #[trigger] console_only_statement(
            ast,
            ast.field_children(b, "body"@)[k] as int,
        )
}

/// Node `i` is a `catch` clause whose block is empty or only logs.
pub open spec fn swallowed_catch(ast: Ast, i: int) -> bool {
    ast.is(i, "CatchClause"@) && match ast.child(i, "body"@) {
        Some(b) => only_logs(ast, b),
        None => false,
    }
}

/// What `no-swallowed-error` reports at node `i`.
pub open spec fn swallowed_report(cx: &LintContext, i: int) -> Option<DiagView> {
    if swallowed_catch(cx.ast, i) {
        Some(
            cx.at_node(
                "server/no-swallowed-error"@,
                "Catch blocks should handle, rethrow, or surface the error"@,
                i,
                Severity::Warning,
            ),
        )
    } else {
        None
    }
}

pub open spec fn swallowed_reports(cx: &LintContext) -> spec_fn(int) -> Option<DiagView> {
    |i: int| swallowed_report(cx, i)
}

fn console_only_statement_exec(ast: &Ast, s: usize) -> (b: bool)
    requires
        ast.wf(),
        s < ast.nodes@.len(),
    ensures
        b == console_only_statement(*ast, s as int),
{
    reveal(console_only_statement);
    if !ast.is_kind(s, "ExpressionStatement") {
        return false;
    }
    match ast.child_of(s, "expression") {
        Some(e) => {
            let u = unparen_exec(ast, e);
            ast.is_kind(u, "CallExpression") && match callee_name_exec(ast, u) {
                Some(n) => eq_str(&n, "console.log") || eq_str(&n, "console.error") || eq_str(&n, "console.warn"),
                None => false,
            }
        },
        None => false,
    }
}

fn swallowed_catch_exec(ast: &Ast, i: usize) -> (b: bool)
    requires
        ast.wf(),
        i < ast.nodes@.len(),
    ensures
        b == swallowed_catch(*ast, i as int),
{
    if !ast.is_kind(i, "CatchClause") {
        return false;
    }
    let b = match ast.child_of(i, "body") {
        Some(b) => b,
        None => {
            return false;
        },
    };
    let ss = ast.children_in(b, "body");
    let mut k: usize = 0;
    while k < ss.len()
        invariant
            ast.wf(),
            i < ast.nodes@.len(),
            ast.is(i as int, "CatchClause"@),
            ast.child(i as int, "body"@) == Some(b as int),
            ss@ == ast.field_children(b as int, "body"@),
            forall|q: int| 0 <= q < ss@.len() ==> #[trigger] ss@[q] < ast.nodes@.len(),
            k <= ss@.len(),
            forall|q: int| 0 <= q < k ==> #[trigger] console_only_statement(*ast, ss@[q] as int),
        decreases ss@.len() - k,
    {
        if !console_only_statement_exec(ast, ss[k]) {
            assert(!console_only_statement(*ast, ast.field_children(b as int, "body"@)[k as int] as int));
            assert(!only_logs(*ast, b as int));
            return false;
        }
        k = k + 1;
    }
    true
}

/// Flags `catch` blocks that drop the error or only log it.
pub struct NoSwallowedError;

impl NoSwallowedError {
    pub fn name(&self) -> (r: &'static str)
        ensures
            r@ == "server/no-swallowed-error"@,
    {
        "server/no-swallowed-error"
    }

    /// In a server project, one warning per `catch` clause that is empty or only logs.
    pub fn run(&self, cx: &LintContext, project: &ProjectInfo) -> (r: Vec<LintDiagnostic>)
        requires
            cx.wf(),
        ensures
            views(r@) == gated(project.server(), reports(cx.ast.nodes@.len() as int, swallowed_reports(cx))),
    {
        if !project.has_server_framework() {
            return Vec::new();
        }
        let check = |i: usize| -> (d: Option<LintDiagnostic>)
            requires
                cx.wf(),
                i < cx.ast.nodes@.len(),
            ensures
                opt_diag(d) == swallowed_report(cx, i as int),
        {
            if swallowed_catch_exec(&cx.ast, i) {
                let msg = chars_of("Catch blocks should handle, rethrow, or surface the error");
                Some(cx.node_diagnostic("server/no-swallowed-error", &msg, i, Severity::Warning))
            } else {
                None
            }
        };
        scan_nodes(cx, check, Ghost(swallowed_reports(cx)))
    }
}

// ── process.exit in handlers ───────────────────────────────

/// What `no-process-exit-in-handler` reports at node `i`.
pub open spec fn process_exit_report(cx: &LintContext, i: int) -> Option<DiagView> {
    if cx.ast.is(i, "CallExpression"@) && enclosing_route_handler(cx.ast, i) is Some && callee_name(cx.ast, i)
        == Some("process.exit"@) {
        Some(
            cx.at_node(
                "server/no-process-exit-in-handler"@,
                "Avoid terminating the process from inside a request handler"@,
                i,
                Severity::Warning,
            ),
        )
    } else {
        None
    }
}

pub open spec fn process_exit_reports(cx: &LintContext) -> spec_fn(int) -> Option<DiagView> {
    |i: int| process_exit_report(cx, i)
}

/// Flags `process.exit` calls inside route handlers.
pub struct NoProcessExitInHandler;

impl NoProcessExitInHandler {
    pub fn name(&self) -> (r: &'static str)
        ensures
            r@ == "server/no-process-exit-in-handler"@,
    {
        "server/no-process-exit-in-handler"
    }

    /// In a server project, one warning per `process.exit(...)` inside a route handler.
    pub fn run(&self, cx: &LintContext, project: &ProjectInfo) -> (r: Vec<LintDiagnostic>)
        requires
            cx.wf(),
        ensures
            views(r@) == gated(project.server(), reports(cx.ast.nodes@.len() as int, process_exit_reports(cx))),
    {
        if !project.has_server_framework() {
            return Vec::new();
        }
        let check = |i: usize| -> (d: Option<LintDiagnostic>)
            requires
                cx.wf(),
                i < cx.ast.nodes@.len(),
            ensures
                opt_diag(d) == process_exit_report(cx, i as int),
        {
            let ast = &cx.ast;
            if !ast.is_kind(i, "CallExpression") || enclosing_route_handler_exec(ast, i).is_none() {
                return None;
            }
            let named = match callee_name_exec(ast, i) {
                Some(n) => eq_str(&n, "process.exit"),
                None => false,
            };
            if named {
                let msg = chars_of("Avoid terminating the process from inside a request handler");
                Some(cx.node_diagnostic("server/no-process-exit-in-handler", &msg, i, Severity::Warning))
            } else {
                None
            }
        };
        scan_nodes(cx, check, Ghost(process_exit_reports(cx)))
    }
}

// ── Error payloads without a status ────────────────────────

/// The identifier at the root of member expression `m`'s object chain:
/// `res` for `res.status(400).json`.
pub open spec fn member_root(ast: Ast, m: int) -> Option<Seq<char>>
    decreases ast.nodes@.len() - m,
{
    if !(0 <= m < ast.nodes@.len()) {
        None
    } else {
        match ast.child(m, "object"@) {
            Some(o) => {
                let u = unparen(ast, o);
                if !(m < u < ast.nodes@.len()) {
                    None
                } else if ast.is(u, "Identifier"@) {
                    ident_name(ast, u)
                } else if ast.is(u, "MemberExpression"@) {
                    member_root(ast, u)
                } else {
                    None
                }
            },
            None => None,
        }
    }
}

/// Call `i` is `res.json(...)`, `reply.send(...)` or the like.
pub open spec fn response_call(ast: Ast, i: int) -> bool {
    match ast.child(i, "callee"@) {
        Some(c) => match member_static_name(ast, c) {
            Some(m) => (m == "json"@ || m == "send"@) && match member_root(ast, c) {
                Some(r) => r == "res"@ || r == "reply"@,
                None => false,
            },
            None => false,
        },
        None => false,
    }
}

/// A call that sets a status (`status`, `sendStatus`, `code`) lies within node `f`.
pub open spec fn has_status_call(ast: Ast, f: int) -> bool {
    any_node(
        ast.nodes@.len() as int,
        |k: int|
            ast.is(k, "CallExpression"@) && span_within(ast, f, k) && match call_method(ast, k) {
                Some(m) => m == "status"@ || m == "sendStatus"@ || m == "code"@,
                None => false,
            },
    )
}

/// What `require-error-status` reports at node `i`.
pub open spec fn error_status_report(cx: &LintContext, i: int) -> Option<DiagView> {
    let ast = cx.ast;
    if ast.is(i, "CallExpression"@) && response_call(ast, i) {
        match (enclosing_route_handler(ast, i), argument(ast, i, 0)) {
            (Some(f), Some(a)) => if ast.is(a, "ObjectExpression"@) && (has_property(ast, a, "error"@) || has_property(
                ast,
                a,
                "message"@,
            )) && !has_status_call(ast, f) {
                Some(
                    cx.at_node(
                        "server/require-error-status"@,
                        "Set an HTTP error status before returning error payloads"@,
                        i,
                        Severity::Warning,
                    ),
                )
            } else {
                None
            },
            _ => None,
        }
    } else {
        None
    }
}

pub open spec fn error_status_reports(cx: &LintContext) -> spec_fn(int) -> Option<DiagView> {
    |i: int| error_status_report(cx, i)
}

fn member_root_exec(ast: &Ast, m: usize) -> (r: Option<Vec<char>>)
    requires
        ast.wf(),
        m < ast.nodes@.len(),
    ensures
        crate::estree::opt_seq(r) == member_root(*ast, m as int),
    decreases ast.nodes@.len() - m,
{
    match ast.child_of(m, "object") {
        Some(o) => {
            let u = unparen_exec(ast, o);
            if !(m < u && u < ast.nodes.len()) {
                None
            } else if ast.is_kind(u, "Identifier") {
                ident_name_exec(ast, u)
            } else if ast.is_kind(u, "MemberExpression") {
                member_root_exec(ast, u)
            } else {
                None
            }
        },
        None => None,
    }
}

fn response_call_exec(ast: &Ast, i: usize) -> (b: bool)
    requires
        ast.wf(),
        i < ast.nodes@.len(),
    ensures
        b == response_call(*ast, i as int),
{
    let c = match ast.child_of(i, "callee") {
        Some(c) => c,
        None => {
            return false;
        },
    };
    let method = match member_static_name_exec(ast, c) {
        Some(m) => eq_str(&m, "json") || eq_str(&m, "send"),
        None => false,
    };
    method && match member_root_exec(ast, c) {
        Some(r) => eq_str(&r, "res") || eq_str(&r, "reply"),
        None => false,
    }
}

fn has_status_call_exec(ast: &Ast, f: usize) -> (b: bool)
    requires
        ast.wf(),
        f < ast.nodes@.len(),
    ensures
        b == has_status_call(*ast, f as int),
{
    let test = |k: usize| -> (b: bool)
        requires
            wf_nodes(ast.nodes@),
            f < ast.nodes@.len(),
            k < ast.nodes@.len(),
        ensures
            b == (ast.is(k as int, "CallExpression"@) && span_within(*ast, f as int, k as int) && match call_method(
                *ast,
                k as int,
            ) {
                Some(m) => m == "status"@ || m == "sendStatus"@ || m == "code"@,
                None => false,
            }),
    {
        ast.is_kind(k, "CallExpression") && span_within_exec(ast, f, k) && match call_method_exec(ast, k) {
            Some(m) => eq_str(&m, "status") || eq_str(&m, "sendStatus") || eq_str(&m, "code"),
            None => false,
        }
    };
    any_node_exec(
        ast.nodes.len(),
        test,
        Ghost(
            |k: int|
                ast.is(k, "CallExpression"@) && span_within(*ast, f as int, k) && match call_method(*ast, k) {
                    Some(m) => m == "status"@ || m == "sendStatus"@ || m == "code"@,
                    None => false,
                },
        ),
    )
}

fn error_status_check(cx: &LintContext, i: usize) -> (d: Option<LintDiagnostic>)
    requires
        cx.wf(),
        i < cx.ast.nodes@.len(),
    ensures
        opt_diag(d) == error_status_report(cx, i as int),
{
    let ast = &cx.ast;
    if !ast.is_kind(i, "CallExpression") || !response_call_exec(ast, i) {
        return None;
    }
    let f = match enclosing_route_handler_exec(ast, i) {
        Some(f) => f,
        None => {
            return None;
        },
    };
    let a = match argument_exec(ast, i, 0) {
        Some(a) => a,
        None => {
            return None;
        },
    };
    if ast.is_kind(a, "ObjectExpression") && (has_property_exec(ast, a, "error") || has_property_exec(
        ast,
        a,
        "message",
    )) && !has_status_call_exec(ast, f) {
        let msg = chars_of("Set an HTTP error status before returning error payloads");
        Some(cx.node_diagnostic("server/require-error-status", &msg, i, Severity::Warning))
    } else {
        None
    }
}

/// Flags error payloads sent from a handler that never sets a status.
pub struct RequireErrorStatus;

impl RequireErrorStatus {
    pub fn name(&self) -> (r: &'static str)
        ensures
            r@ == "server/require-error-status"@,
    {
        "server/require-error-status"
    }

    /// In a server project, one warning per `res.json`/`res.send` of an
    /// `{ error }` or `{ message }` object in a handler with no status call.
    pub fn run(&self, cx: &LintContext, project: &ProjectInfo) -> (r: Vec<LintDiagnostic>)
        requires
            cx.wf(),
        ensures
            views(r@) == gated(project.server(), reports(cx.ast.nodes@.len() as int, error_status_reports(cx))),
    {
        if !project.has_server_framework() {
            return Vec::new();
        }
        let check = |i: usize| -> (d: Option<LintDiagnostic>)
            requires
                cx.wf(),
                i < cx.ast.nodes@.len(),
            ensures
                opt_diag(d) == error_status_report(cx, i as int),
        { error_status_check(cx, i) };
        scan_nodes(cx, check, Ghost(error_status_reports(cx)))
    }
}

// ── Thrown strings ─────────────────────────────────────────

/// Node `i` throws a string literal or a template literal without substitutions.
pub open spec fn string_throw(ast: Ast, i: int) -> bool {
    ast.is(i, "ThrowStatement"@) && match ast.child(i, "argument"@) {
        Some(a) => {
            let u = unparen(ast, a);
            string_value(ast, u) is Some || (ast.is(u, "TemplateLiteral"@) && ast.field_children(
                u,
                "expressions"@,
            ).len() == 0)
        },
        None => false,
    }
}

/// What `no-throw-string` reports at node `i`.
pub open spec fn throw_string_report(cx: &LintContext, i: int) -> Option<DiagView> {
    if string_throw(cx.ast, i) {
        Some(
            cx.at_node(
                "server/no-throw-string"@,
                "Throw `Error` objects instead of string literals"@,
                i,
                Severity::Warning,
            ),
        )
    } else {
        None
    }
}

pub open spec fn throw_string_reports(cx: &LintContext) -> spec_fn(int) -> Option<DiagView> {
    |i: int| throw_string_report(cx, i)
}

fn string_throw_exec(ast: &Ast, i: usize) -> (b: bool)
    requires
        ast.wf(),
        i < ast.nodes@.len(),
    ensures
        b == string_throw(*ast, i as int),
{
    if !ast.is_kind(i, "ThrowStatement") {
        return false;
    }
    match ast.child_of(i, "argument") {
        Some(a) => {
            let u = unparen_exec(ast, a);
            string_value_exec(ast, u).is_some() || (ast.is_kind(u, "TemplateLiteral") && ast.children_in(
                u,
                "expressions",
            ).len() == 0)
        },
        None => false,
    }
}

/// Flags `throw 'message'`.
pub struct NoThrowString;

impl NoThrowString {
    pub fn name(&self) -> (r: &'static str)
        ensures
            r@ == "server/no-throw-string"@,
    {
        "server/no-throw-string"
    }

    /// In a server project, one warning per `throw` of a string.
    pub fn run(&self, cx: &LintContext, project: &ProjectInfo) -> (r: Vec<LintDiagnostic>)
        requires
            cx.wf(),
        ensures
            views(r@) == gated(project.server(), reports(cx.ast.nodes@.len() as int, throw_string_reports(cx))),
    {
        if !project.has_server_framework() {
            return Vec::new();
        }
        let check = |i: usize| -> (d: Option<LintDiagnostic>)
            requires
                cx.wf(),
                i < cx.ast.nodes@.len(),
            ensures
                opt_diag(d) == throw_string_report(cx, i as int),
        {
            if string_throw_exec(&cx.ast, i) {
                let msg = chars_of("Throw `Error` objects instead of string literals");
                Some(cx.node_diagnostic("server/no-throw-string", &msg, i, Severity::Warning))
            } else {
                None
            }
        };
        scan_nodes(cx, check, Ghost(throw_string_reports(cx)))
    }
}

} // verus!
