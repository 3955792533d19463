//! Server performance rules: requests in loops, unbounded queries, blocking
//! filesystem and crypto calls, and parsing request bodies synchronously.
use vstd::prelude::*;

use crate::ast::Ast;
use crate::engine::{gated, opt_diag, reports, scan_nodes, views, DiagView, LintContext};
use crate::estree::{nearest_ancestor, unparen, unparen_exec};
use crate::lint::{LintDiagnostic, Severity};
use crate::project::ProjectInfo;
use crate::rules::react::helpers::{callee_static_name, callee_static_name_exec, one_of};
use crate::rules::server::helpers::{
    argument, argument_exec, async_function, call_method, call_method_exec, callee_name, callee_name_exec,
    enclosing_route_handler, enclosing_route_handler_exec, has_property, has_property_exec, is_async_context,
    is_inside_loop, is_orm_query_call, loop_node, orm_query_methods,
};
use crate::text::{chars_of, eq_str, starts_with, starts_with_str};

verus! {

// ── Requests inside loops ──────────────────────────────────

/// The request functions treated like database reads.
pub open spec fn fetch_names() -> Seq<Seq<char>> {
    seq!["fetch"@, "axios"@, "axios.get"@, "axios.post"@, "ky"@, "ky.get"@, "ky.post"@]
}

/// Call `i` reads through an ORM or makes a network request.
pub open spec fn query_or_fetch(ast: Ast, i: int) -> bool {
    (match call_method(ast, i) {
        Some(m) => orm_query_methods().contains(m),
        None => false,
    }) || (match callee_name(ast, i) {
        Some(n) => fetch_names().contains(n),
        None => false,
    })
}

/// What `no-n-plus-one` reports at node `i`.
pub open spec fn n_plus_one_report(cx: &LintContext, i: int) -> Option<DiagView> {
    let ast = cx.ast;
    if ast.is(i, "CallExpression"@) && nearest_ancestor(ast, i, |q: int| loop_node(ast, q)) is Some
        && query_or_fetch(ast, i) {
        Some(
            cx.at_node(
                "server/no-n-plus-one"@,
                "Avoid database or network requests inside loops"@,
                i,
                Severity::Warning,
            ),
        )
    } else {
        None
    }
}

pub open spec fn n_plus_one_reports(cx: &LintContext) -> spec_fn(int) -> Option<DiagView> {
    |i: int| n_plus_one_report(cx, i)
}

fn query_or_fetch_exec(ast: &Ast, i: usize) -> (b: bool)
    requires
        ast.wf(),
        i < ast.nodes@.len(),
    ensures
        b == query_or_fetch(*ast, i as int),
{
    if is_orm_query_call(ast, i) {
        return true;
    }
    let names = ["fetch", "axios", "axios.get", "axios.post", "ky", "ky.get", "ky.post"];
    assert(names@.map_values(|s: &str| s@) =~= fetch_names());
    match callee_name_exec(ast, i) {
        Some(n) => one_of(&n, &names),
        None => false,
    }
}

/// Flags ORM reads and network requests made inside loops.
pub struct NoNPlusOne;

impl NoNPlusOne {
    pub fn name(&self) -> (r: &'static str)
        ensures
            r@ == "server/no-n-plus-one"@,
    {
        "server/no-n-plus-one"
    }

    /// In a server project, one warning per ORM read or request inside a loop.
    pub fn run(&self, cx: &LintContext, project: &ProjectInfo) -> (r: Vec<LintDiagnostic>)
        requires
            cx.wf(),
        ensures
            views(r@) == gated(project.server(), reports(cx.ast.nodes@.len() as int, n_plus_one_reports(cx))),
    {
        if !project.has_server_framework() {
            return Vec::new();
        }
        let check = |i: usize| -> (d: Option<LintDiagnostic>)
            requires
                cx.wf(),
                i < cx.ast.nodes@.len(),
            ensures
                opt_diag(d) == n_plus_one_report(cx, i as int),
        {
            let ast = &cx.ast;
            if ast.is_kind(i, "CallExpression") && is_inside_loop(ast, i) && query_or_fetch_exec(ast, i) {
                let msg = chars_of("Avoid database or network requests inside loops");
                Some(cx.node_diagnostic("server/no-n-plus-one", &msg, i, Severity::Warning))
            } else {
                None
            }
        };
        scan_nodes(cx, check, Ghost(n_plus_one_reports(cx)))
    }
}

// ── Unbounded queries ──────────────────────────────────────

/// Call `i` bounds its query: its first argument is an object with `take`,
/// `limit`, `first` or `last`.
pub open spec fn has_query_limit(ast: Ast, i: int) -> bool {
    match argument(ast, i, 0) {
        Some(a) => {
            let o = unparen(ast, a);
            ast.is(o, "ObjectExpression"@) && (has_property(ast, o, "take"@) || has_property(ast, o, "limit"@)
                || has_property(ast, o, "first"@) || has_property(ast, o, "last"@))
        },
        None => false,
    }
}

/// What `no-unbounded-query` reports at node `i`.
pub open spec fn unbounded_report(cx: &LintContext, i: int) -> Option<DiagView> {
    let ast = cx.ast;
    if ast.is(i, "CallExpression"@) && match call_method(ast, i) {
        Some(m) => m == "findMany"@ || m == "find"@ || m == "findAll"@,
        None => false,
    } && !has_query_limit(ast, i) {
        Some(
            cx.at_node(
                "server/no-unbounded-query"@,
                "Add a limit, take, or equivalent bound to large collection queries"@,
                i,
                Severity::Warning,
            ),
        )
    } else {
        None
    }
}

pub open spec fn unbounded_reports(cx: &LintContext) -> spec_fn(int) -> Option<DiagView> {
    |i: int| unbounded_report(cx, i)
}

fn has_query_limit_exec(ast: &Ast, i: usize) -> (b: bool)
    requires
        ast.wf(),
        i < ast.nodes@.len(),
    ensures
        b == has_query_limit(*ast, i as int),
{
    match argument_exec(ast, i, 0) {
        Some(a) => {
            let o = unparen_exec(ast, a);
            ast.is_kind(o, "ObjectExpression") && (has_property_exec(ast, o, "take") || has_property_exec(
                ast,
                o,
                "limit",
            ) || has_property_exec(ast, o, "first") || has_property_exec(ast, o, "last"))
        },
        None => false,
    }
}

/// Flags collection queries without a bound.
pub struct NoUnboundedQuery;

impl NoUnboundedQuery {
    pub fn name(&self) -> (r: &'static str)
        ensures
            r@ == "server/no-unbounded-query"@,
    {
        "server/no-unbounded-query"
    }

    /// In a server project, one warning per `findMany`/`find`/`findAll` call without a bound.
    pub fn run(&self, cx: &LintContext, project: &ProjectInfo) -> (r: Vec<LintDiagnostic>)
        requires
            cx.wf(),
        ensures
            views(r@) == gated(project.server(), reports(cx.ast.nodes@.len() as int, unbounded_reports(cx))),
    {
        if !project.has_server_framework() {
            return Vec::new();
        }
        let check = |i: usize| -> (d: Option<LintDiagnostic>)
            requires
                cx.wf(),
                i < cx.ast.nodes@.len(),
            ensures
                opt_diag(d) == unbounded_report(cx, i as int),
        {
            let ast = &cx.ast;
            if !ast.is_kind(i, "CallExpression") {
                return None;
            }
            let collection = match call_method_exec(ast, i) {
                Some(m) => eq_str(&m, "findMany") || eq_str(&m, "find") || eq_str(&m, "findAll"),
                None => false,
            };
            if collection && !has_query_limit_exec(ast, i) {
                let msg = chars_of("Add a limit, take, or equivalent bound to large collection queries");
                Some(cx.node_diagnostic("server/no-unbounded-query", &msg, i, Severity::Warning))
            } else {
                None
            }
        };
        scan_nodes(cx, check, Ghost(unbounded_reports(cx)))
    }
}

// ── Synchronous filesystem calls in handlers ───────────────

/// The synchronous filesystem calls.
pub open spec fn sync_fs_names() -> Seq<Seq<char>> {
    seq![
        "readFileSync"@,
        "writeFileSync"@,
        "statSync"@,
        "openSync"@,
        "readdirSync"@,
        "fs.readFileSync"@,
        "fs.writeFileSync"@,
        "fs.statSync"@,
        "fs.openSync"@,
        "fs.readdirSync"@,
    ]
}

/// What `no-sync-fs-in-handler` reports at node `i`.
pub open spec fn sync_fs_report(cx: &LintContext, i: int) -> Option<DiagView> {
    let ast = cx.ast;
    if ast.is(i, "CallExpression"@) && enclosing_route_handler(ast, i) is Some && match callee_name(ast, i) {
        Some(n) => sync_fs_names().contains(n),
        None => false,
    } {
        Some(
            cx.at_node(
                "server/no-sync-fs-in-handler"@,
                "Avoid synchronous filesystem calls inside request handlers"@,
                i,
                Severity::Warning,
            ),
        )
    } else {
        None
    }
}

pub open spec fn sync_fs_reports(cx: &LintContext) -> spec_fn(int) -> Option<DiagView> {
    |i: int| sync_fs_report(cx, i)
}

/// Flags synchronous filesystem calls inside route handlers.
pub struct NoSyncFsInHandler;

impl NoSyncFsInHandler {
    pub fn name(&self) -> (r: &'static str)
        ensures
            r@ == "server/no-sync-fs-in-handler"@,
    {
        "server/no-sync-fs-in-handler"
    }

    /// In a server project, one warning per synchronous filesystem call inside a route handler.
    pub fn run(&self, cx: &LintContext, project: &ProjectInfo) -> (r: Vec<LintDiagnostic>)
        requires
            cx.wf(),
        ensures
            views(r@) == gated(project.server(), reports(cx.ast.nodes@.len() as int, sync_fs_reports(cx))),
    {
        if !project.has_server_framework() {
            return Vec::new();
        }
        let check = |i: usize| -> (d: Option<LintDiagnostic>)
            requires
                cx.wf(),
                i < cx.ast.nodes@.len(),
            ensures
                opt_diag(d) == sync_fs_report(cx, i as int),
        {
            let ast = &cx.ast;
            if !ast.is_kind(i, "CallExpression") || enclosing_route_handler_exec(ast, i).is_none() {
                return None;
            }
            let names = [
                "readFileSync",
                "writeFileSync",
                "statSync",
                "openSync",
                "readdirSync",
                "fs.readFileSync",
                "fs.writeFileSync",
                "fs.statSync",
                "fs.openSync",
                "fs.readdirSync",
            ];
            assert(names@.map_values(|s: &str| s@) =~= sync_fs_names());
            let sync = match callee_name_exec(ast, i) {
                Some(n) => one_of(&n, &names),
                None => false,
            };
            if sync {
                let msg = chars_of("Avoid synchronous filesystem calls inside request handlers");
                Some(cx.node_diagnostic("server/no-sync-fs-in-handler", &msg, i, Severity::Warning))
            } else {
                None
            }
        };
        scan_nodes(cx, check, Ghost(sync_fs_reports(cx)))
    }
}

// ── Blocking crypto ────────────────────────────────────────

/// The blocking crypto calls.
pub open spec fn blocking_crypto_names() -> Seq<Seq<char>> {
    seq![
        "pbkdf2Sync"@,
        "scryptSync"@,
        "crypto.pbkdf2Sync"@,
        "crypto.scryptSync"@,
        "bcrypt.hashSync"@,
        "bcrypt.compareSync"@,
    ]
}

/// What `no-blocking-crypto` reports at node `i`.
pub open spec fn blocking_crypto_report(cx: &LintContext, i: int) -> Option<DiagView> {
    let ast = cx.ast;
    if ast.is(i, "CallExpression"@) && match callee_name(ast, i) {
        Some(n) => blocking_crypto_names().contains(n),
        None => false,
    } && (nearest_ancestor(ast, i, |q: int| async_function(ast, q)) is Some || enclosing_route_handler(ast, i) is Some) {
        Some(
            cx.at_node(
                "server/no-blocking-crypto"@,
                "Avoid blocking crypto APIs in async or request-handling code"@,
                i,
                Severity::Warning,
            ),
        )
    } else {
        None
    }
}

pub open spec fn blocking_crypto_reports(cx: &LintContext) -> spec_fn(int) -> Option<DiagView> {
    |i: int| blocking_crypto_report(cx, i)
}

/// Flags blocking crypto calls in `async` functions and route handlers.
pub struct NoBlockingCrypto;

impl NoBlockingCrypto {
    pub fn name(&self) -> (r: &'static str)
        ensures
            r@ == "server/no-blocking-crypto"@,
    {
        "server/no-blocking-crypto"
    }

    /// In a server project, one warning per blocking crypto call inside an
    /// `async` function or a route handler.
    pub fn run(&self, cx: &LintContext, project: &ProjectInfo) -> (r: Vec<LintDiagnostic>)
        requires
            cx.wf(),
        ensures
            views(r@) == gated(project.server(), reports(cx.ast.nodes@.len() as int, blocking_crypto_reports(cx))),
    {
        if !project.has_server_framework() {
            return Vec::new();
        }
        let check = |i: usize| -> (d: Option<LintDiagnostic>)
            requires
                cx.wf(),
                i < cx.ast.nodes@.len(),
            ensures
                opt_diag(d) == blocking_crypto_report(cx, i as int),
        {
            let ast = &cx.ast;
            if !ast.is_kind(i, "CallExpression") {
                return None;
            }
            let names = [
                "pbkdf2Sync",
                "scryptSync",
                "crypto.pbkdf2Sync",
                "crypto.scryptSync",
                "bcrypt.hashSync",
                "bcrypt.compareSync",
            ];
            assert(names@.map_values(|s: &str| s@) =~= blocking_crypto_names());
            let blocking = match callee_name_exec(ast, i) {
                Some(n) => one_of(&n, &names),
                None => false,
            };
            if blocking && (is_async_context(ast, i) || enclosing_route_handler_exec(ast, i).is_some()) {
                let msg = chars_of("Avoid blocking crypto APIs in async or request-handling code");
                Some(cx.node_diagnostic("server/no-blocking-crypto", &msg, i, Severity::Warning))
            } else {
                None
            }
        };
        scan_nodes(cx, check, Ghost(blocking_crypto_reports(cx)))
    }
}

// ── Synchronous JSON parsing of request bodies ─────────────

/// Expression `e` reads the request body: `req.body`, `request.body` or a field under them.
pub open spec fn request_body(ast: Ast, e: int) -> bool {
    match callee_static_name(ast, e) {
        Some(n) => n == "req.body"@ || n == "request.body"@ || starts_with(n, "req.body."@) || starts_with(
            n,
            "request.body."@,
        ),
        None => false,
    }
}

/// What `no-large-json-parse-sync` reports at node `i`: the request body
/// passed to `JSON.parse`.
pub open spec fn json_parse_report(cx: &LintContext, i: int) -> Option<DiagView> {
    let ast = cx.ast;
    if ast.is(i, "CallExpression"@) && callee_name(ast, i) == Some("JSON.parse"@) {
        match argument(ast, i, 0) {
            Some(a) => if request_body(ast, a) {
                Some(
                    cx.at_node(
                        "server/no-large-json-parse-sync"@,
                        "Avoid synchronously parsing large request bodies on the hot path"@,
                        a,
                        Severity::Warning,
                    ),
                )
            } else {
                None
            },
            None => None,
        }
    } else {
        None
    }
}

pub open spec fn json_parse_reports(cx: &LintContext) -> spec_fn(int) -> Option<DiagView> {
    |i: int| json_parse_report(cx, i)
}

fn request_body_exec(ast: &Ast, e: usize) -> (b: bool)
    requires
        ast.wf(),
        e < ast.nodes@.len(),
    ensures
        b == request_body(*ast, e as int),
{
    match callee_static_name_exec(ast, e) {
        Some(n) => eq_str(&n, "req.body") || eq_str(&n, "request.body") || starts_with_str(&n, "req.body.")
            || starts_with_str(&n, "request.body."),
        None => false,
    }
}

/// Flags `JSON.parse` of the request body.
pub struct NoLargeJsonParseSync;

impl NoLargeJsonParseSync {
    pub fn name(&self) -> (r: &'static str)
        ensures
            r@ == "server/no-large-json-parse-sync"@,
    {
        "server/no-large-json-parse-sync"
    }

    /// In a server project, one warning per `JSON.parse` of the request body.
    pub fn run(&self, cx: &LintContext, project: &ProjectInfo) -> (r: Vec<LintDiagnostic>)
        requires
            cx.wf(),
        ensures
            views(r@) == gated(project.server(), reports(cx.ast.nodes@.len() as int, json_parse_reports(cx))),
    {
        if !project.has_server_framework() {
            return Vec::new();
        }
        let check = |i: usize| -> (d: Option<LintDiagnostic>)
            requires
                cx.wf(),
                i < cx.ast.nodes@.len(),
            ensures
                opt_diag(d) == json_parse_report(cx, i as int),
        {
            let ast = &cx.ast;
            if !ast.is_kind(i, "CallExpression") {
                return None;
            }
            let parse = match callee_name_exec(ast, i) {
                Some(n) => eq_str(&n, "JSON.parse"),
                None => false,
            };
            if !parse {
                return None;
            }
            match argument_exec(ast, i, 0) {
                Some(a) => if request_body_exec(ast, a) {
                    let msg = chars_of("Avoid synchronously parsing large request bodies on the hot path");
                    Some(cx.node_diagnostic("server/no-large-json-parse-sync", &msg, a, Severity::Warning))
                } else {
                    None
                },
                None => None,
            }
        };
        scan_nodes(cx, check, Ghost(json_parse_reports(cx)))
    }
}

} // verus!
