//! Server security rules: injection through SQL, shells and paths, open
//! redirects, permissive CORS, hardcoded JWT secrets and unpinned JWT algorithms.
use vstd::prelude::*;

use crate::ast::{Ast, Value};
use crate::engine::{first_where, first_where_exec, gated, opt_diag, reports, scan_nodes, views, DiagView, LintContext};
use crate::engine::utf8_bytes;
use crate::engine::utf8_shorter_than;
use crate::estree::{string_like, string_like_exec, string_value, string_value_exec, unparen, unparen_exec};
use crate::lint::{LintDiagnostic, Severity};
use crate::project::ProjectInfo;
use crate::rules::react::helpers::{callee_static_name, callee_static_name_exec, one_of};
use crate::rules::server::helpers::{
    argument, argument_exec, call_method, call_method_exec, callee_name, callee_name_exec, enclosing_route_handler,
    enclosing_route_handler_exec, expression_argument, has_property, has_property_exec, object_property,
    object_property_exec,
};
use crate::text::{
    chars_of, contains, contains_str, ends_with, ends_with_str, eq_str, lower, lower_chars, starts_with,
    starts_with_str, trim, trim_chars,
};

verus! {

// ── Request data and dynamic strings ───────────────────────

/// The exact names of request fields the client controls.
pub open spec fn request_fields() -> Seq<Seq<char>> {
    seq!["req.params"@, "req.query"@, "req.body"@, "request.params"@, "request.query"@, "request.body"@]
}

/// A static name that reads request data: a request field or something under one.
pub open spec fn request_data_name(n: Seq<char>) -> bool {
    request_fields().contains(n) || exists|k: int|
        0 <= k < request_fields().len() && #[trigger] starts_with(n, request_fields()[k] + "."@)
}

/// The static name of expression `u` reads request data.
#[verifier::opaque]
pub open spec fn request_name_at(ast: Ast, u: int) -> bool {
    match callee_static_name(ast, u) {
        Some(n) => request_data_name(n),
        None => false,
    }
}

/// Expression `e` reads request data, directly or inside a template,
/// a binary expression, a call's callee or a call's arguments.
pub open spec fn request_data(ast: Ast, e: int) -> bool
    decreases 2 * (ast.nodes@.len() - e) + 1, 0int,
{
    let u = unparen(ast, e);
    if !(0 <= e <= u < ast.nodes@.len()) {
        false
    } else if request_name_at(ast, u) {
        true
    } else if ast.is(u, "TemplateLiteral"@) {
        any_request_data(ast, u, ast.field_children(u, "expressions"@), 0)
    } else if ast.is(u, "BinaryExpression"@) {
        (match ast.child(u, "left"@) {
            Some(l) => u < l < ast.nodes@.len() && request_data(ast, l),
            None => false,
        }) || (match ast.child(u, "right"@) {
            Some(r) => u < r < ast.nodes@.len() && request_data(ast, r),
            None => false,
        })
    } else if ast.is(u, "CallExpression"@) {
        (match ast.child(u, "callee"@) {
            Some(c) => u < c < ast.nodes@.len() && request_data(ast, c),
            None => false,
        }) || any_request_data(ast, u, ast.field_children(u, "arguments"@), 0)
    } else {
        false
    }
}

/// Some expression (no spread) among the children `list[k..]` of node `p` reads request data.
pub open spec fn any_request_data(ast: Ast, p: int, list: Seq<usize>, k: int) -> bool
    decreases 2 * (ast.nodes@.len() - p), list.len() - k,
{
    if !(0 <= k < list.len()) {
        false
    } else {
        let c = list[k] as int;
        (p < c < ast.nodes@.len() && !ast.is(c, "SpreadElement"@) && request_data(ast, c)) || any_request_data(
            ast,
            p,
            list,
            k + 1,
        )
    }
}

/// Expression `e` is, or concatenates, a string or template literal.
pub open spec fn has_string_literal(ast: Ast, e: int) -> bool
    decreases ast.nodes@.len() - e,
{
    let u = unparen(ast, e);
    if !(0 <= e <= u < ast.nodes@.len()) {
        false
    } else if string_value(ast, u) is Some || ast.is(u, "TemplateLiteral"@) {
        true
    } else if ast.is(u, "BinaryExpression"@) {
        (match ast.child(u, "left"@) {
            Some(l) => u < l < ast.nodes@.len() && has_string_literal(ast, l),
            None => false,
        }) || (match ast.child(u, "right"@) {
            Some(r) => u < r < ast.nodes@.len() && has_string_literal(ast, r),
            None => false,
        })
    } else {
        false
    }
}

/// Binary expression `b` is a `+` with a literal string or request data on either side.
pub open spec fn dynamic_concat(ast: Ast, b: int) -> bool {
    ast.text(b, "operator"@) == Some("+"@) && match (ast.child(b, "left"@), ast.child(b, "right"@)) {
        (Some(l), Some(r)) => has_string_literal(ast, l) || has_string_literal(ast, r) || request_data(ast, l)
            || request_data(ast, r),
        _ => false,
    }
}

/// Expression `e` builds a string dynamically: a template with
/// substitutions or such a concatenation.
pub open spec fn dynamic_string(ast: Ast, e: int) -> bool {
    let u = unparen(ast, e);
    (ast.is(u, "TemplateLiteral"@) && ast.field_children(u, "expressions"@).len() > 0) || (ast.is(
        u,
        "BinaryExpression"@,
    ) && dynamic_concat(ast, u))
}

fn request_data_name_exec(n: &Vec<char>) -> (b: bool)
    ensures
        b == request_data_name(n@),
{
    let fields = ["req.params", "req.query", "req.body", "request.params", "request.query", "request.body"];
    assert(fields@.map_values(|s: &str| s@) =~= request_fields());
    if one_of(n, &fields) {
        return true;
    }
    let prefixes = ["req.params.", "req.query.", "req.body.", "request.params.", "request.query.", "request.body."];
    proof {
        reveal_strlit("req.params.");
        reveal_strlit("req.query.");
        reveal_strlit("req.body.");
        reveal_strlit("request.params.");
        reveal_strlit("request.query.");
        reveal_strlit("request.body.");
        reveal_strlit("req.params");
        reveal_strlit("req.query");
        reveal_strlit("req.body");
        reveal_strlit("request.params");
        reveal_strlit("request.query");
        reveal_strlit("request.body");
        reveal_strlit(".");
    }
    let mut k: usize = 0;
    while k < 6
        invariant
            k <= 6,
            prefixes@.len() == 6,
            forall|q: int| 0 <= q < 6 ==> #[trigger] prefixes@[q]@ == request_fields()[q] + "."@,
            forall|q: int| 0 <= q < k ==> !starts_with(n@, #[trigger] request_fields()[q] + "."@),
        decreases 6 - k,
    {
        if starts_with_str(n, prefixes[k]) {
            assert(starts_with(n@, request_fields()[k as int] + "."@));
            return true;
        }
        k = k + 1;
    }
    false
}

fn request_data_exec(ast: &Ast, e: usize) -> (b: bool)
    requires
        ast.wf(),
        e < ast.nodes@.len(),
    ensures
        b == request_data(*ast, e as int),
    decreases 2 * (ast.nodes@.len() - e) + 1, 0int,
{
    let u = unparen_exec(ast, e);
    if !(e <= u) {
        return false;
    }
    let named = match callee_static_name_exec(ast, u) {
        Some(n) => request_data_name_exec(&n),
        None => false,
    };
    assert(named == request_name_at(*ast, u as int)) by {
        reveal(request_name_at);
    }
    if named {
        return true;
    }
    if ast.is_kind(u, "TemplateLiteral") {
        let list = ast.children_in(u, "expressions");
        any_request_data_exec(ast, u, &list, 0)
    } else if ast.is_kind(u, "BinaryExpression") {
        (match ast.child_of(u, "left") {
            Some(l) => request_data_exec(ast, l),
            None => false,
        }) || (match ast.child_of(u, "right") {
            Some(r) => request_data_exec(ast, r),
            None => false,
        })
    } else if ast.is_kind(u, "CallExpression") {
        (match ast.child_of(u, "callee") {
            Some(c) => request_data_exec(ast, c),
            None => false,
        }) || {
            let list = ast.children_in(u, "arguments");
            any_request_data_exec(ast, u, &list, 0)
        }
    } else {
        false
    }
}

fn any_request_data_exec(ast: &Ast, p: usize, list: &Vec<usize>, k: usize) -> (b: bool)
    requires
        ast.wf(),
        p < ast.nodes@.len(),
        k <= list@.len(),
    ensures
        b == any_request_data(*ast, p as int, list@, k as int),
    decreases 2 * (ast.nodes@.len() - p), list@.len() - k,
{
    if k >= list.len() {
        return false;
    }
    let c = list[k];
    let here = p < c && c < ast.nodes.len() && !ast.is_kind(c, "SpreadElement") && request_data_exec(ast, c);
    here || any_request_data_exec(ast, p, list, k + 1)
}

fn has_string_literal_exec(ast: &Ast, e: usize) -> (b: bool)
    requires
        ast.wf(),
        e < ast.nodes@.len(),
    ensures
        b == has_string_literal(*ast, e as int),
    decreases ast.nodes@.len() - e,
{
    let u = unparen_exec(ast, e);
    if !(e <= u) {
        return false;
    }
    if string_value_exec(ast, u).is_some() || ast.is_kind(u, "TemplateLiteral") {
        true
    } else if ast.is_kind(u, "BinaryExpression") {
        (match ast.child_of(u, "left") {
            Some(l) => has_string_literal_exec(ast, l),
            None => false,
        }) || (match ast.child_of(u, "right") {
            Some(r) => has_string_literal_exec(ast, r),
            None => false,
        })
    } else {
        false
    }
}

fn dynamic_string_exec(ast: &Ast, e: usize) -> (b: bool)
    requires
        ast.wf(),
        e < ast.nodes@.len(),
    ensures
        b == dynamic_string(*ast, e as int),
{
    let u = unparen_exec(ast, e);
    let template = ast.is_kind(u, "TemplateLiteral") && ast.children_in(u, "expressions").len() > 0;
    template || (ast.is_kind(u, "BinaryExpression") && dynamic_concat_exec(ast, u))
}

fn dynamic_concat_exec(ast: &Ast, b: usize) -> (r: bool)
    requires
        ast.wf(),
        b < ast.nodes@.len(),
    ensures
        r == dynamic_concat(*ast, b as int),
{
    let plus = match ast.text_of(b, "operator") {
        Some(op) => eq_str(op, "+"),
        None => false,
    };
    plus && match (ast.child_of(b, "left"), ast.child_of(b, "right")) {
        (Some(l), Some(r)) => has_string_literal_exec(ast, l) || has_string_literal_exec(ast, r) || request_data_exec(
            ast,
            l,
        ) || request_data_exec(ast, r),
        _ => false,
    }
}

// ── SQL injection ──────────────────────────────────────────

/// What `no-sql-injection` reports at node `i`: the dynamic query of a `.query(...)` call.
pub open spec fn sql_report(cx: &LintContext, i: int) -> Option<DiagView> {
    let ast = cx.ast;
    if ast.is(i, "CallExpression"@) && call_method(ast, i) == Some("query"@) {
        match argument(ast, i, 0) {
            Some(a) => if dynamic_string(ast, a) {
                Some(
                    cx.at_node(
                        "server/no-sql-injection"@,
                        "Avoid building SQL queries with dynamic string interpolation"@,
                        a,
                        Severity::Error,
                    ),
                )
            } else {
                None
            },
            None => None,
        }
    } else {
        None
    }
}

pub open spec fn sql_reports(cx: &LintContext) -> spec_fn(int) -> Option<DiagView> {
    |i: int| sql_report(cx, i)
}

/// Flags `.query(...)` calls whose query is built dynamically.
pub struct NoSqlInjection;

impl NoSqlInjection {
    pub fn name(&self) -> (r: &'static str)
        ensures
            r@ == "server/no-sql-injection"@,
    {
        "server/no-sql-injection"
    }

    /// In a server project, one error per `.query(...)` call whose first
    /// argument is a template with substitutions or a dynamic concatenation.
    pub fn run(&self, cx: &LintContext, project: &ProjectInfo) -> (r: Vec<LintDiagnostic>)
        requires
            cx.wf(),
        ensures
            views(r@) == gated(project.server(), reports(cx.ast.nodes@.len() as int, sql_reports(cx))),
    {
        if !project.has_server_framework() {
            return Vec::new();
        }
        let check = |i: usize| -> (d: Option<LintDiagnostic>)
            requires
                cx.wf(),
                i < cx.ast.nodes@.len(),
            ensures
                opt_diag(d) == sql_report(cx, i as int),
        {
            let ast = &cx.ast;
            if !ast.is_kind(i, "CallExpression") {
                return None;
            }
            let query = match call_method_exec(ast, i) {
                Some(m) => eq_str(&m, "query"),
                None => false,
            };
            if !query {
                return None;
            }
            match argument_exec(ast, i, 0) {
                Some(a) => if dynamic_string_exec(ast, a) {
                    let msg = chars_of("Avoid building SQL queries with dynamic string interpolation");
                    Some(cx.node_diagnostic("server/no-sql-injection", &msg, a, Severity::Error))
                } else {
                    None
                },
                None => None,
            }
        };
        scan_nodes(cx, check, Ghost(sql_reports(cx)))
    }
}

// ── Shell injection ────────────────────────────────────────

/// The shell execution APIs.
pub open spec fn shell_names() -> Seq<Seq<char>> {
    seq![
        "exec"@,
        "spawn"@,
        "execSync"@,
        "spawnSync"@,
        "child_process.exec"@,
        "child_process.spawn"@,
        "child_process.execSync"@,
        "child_process.spawnSync"@,
    ]
}

/// The first two elements of `s` (all of them when it has fewer).
pub open spec fn first_two(s: Seq<usize>) -> Seq<usize> {
    if s.len() < 2 {
        s
    } else {
        s.take(2)
    }
}

/// Node `i` calls a shell execution API.
pub open spec fn shell_call(ast: Ast, i: int) -> bool {
    ast.is(i, "CallExpression"@) && match callee_name(ast, i) {
        Some(n) => shell_names().contains(n),
        None => false,
    }
}

fn shell_call_exec(ast: &Ast, i: usize) -> (b: bool)
    requires
        ast.wf(),
        i < ast.nodes@.len(),
    ensures
        b == shell_call(*ast, i as int),
{
    if !ast.is_kind(i, "CallExpression") {
        return false;
    }
    let names = [
        "exec",
        "spawn",
        "execSync",
        "spawnSync",
        "child_process.exec",
        "child_process.spawn",
        "child_process.execSync",
        "child_process.spawnSync",
    ];
    assert(names@.map_values(|s: &str| s@) =~= shell_names());
    match callee_name_exec(ast, i) {
        Some(n) => one_of(&n, &names),
        None => false,
    }
}

/// Argument `a` is an expression built as a dynamic string.
pub open spec fn dynamic_argument(ast: Ast, a: usize) -> bool {
    expression_argument(ast, a as int) && dynamic_string(ast, a as int)
}

/// What `no-shell-injection` reports at node `i`: the first of the first two
/// arguments of a shell call that is built dynamically.
pub open spec fn shell_report(cx: &LintContext, i: int) -> Option<DiagView> {
    let ast = cx.ast;
    if shell_call(ast, i) {
        match first_where(first_two(ast.field_children(i, "arguments"@)), |a: usize| dynamic_argument(ast, a)) {
            Some(a) => Some(
                cx.at_node(
                    "server/no-shell-injection"@,
                    "Avoid passing dynamic input into shell execution APIs"@,
                    a as int,
                    Severity::Error,
                ),
            ),
            None => None,
        }
    } else {
        None
    }
}

pub open spec fn shell_reports(cx: &LintContext) -> spec_fn(int) -> Option<DiagView> {
    |i: int| shell_report(cx, i)
}

fn shell_check(cx: &LintContext, i: usize) -> (d: Option<LintDiagnostic>)
    requires
        cx.wf(),
        i < cx.ast.nodes@.len(),
    ensures
        opt_diag(d) == shell_report(cx, i as int),
{
    if !shell_call_exec(&cx.ast, i) {
        return None;
    }
    match dynamic_shell_argument(cx, i) {
        Some(a) => {
            let msg = chars_of("Avoid passing dynamic input into shell execution APIs");
            Some(cx.node_diagnostic("server/no-shell-injection", &msg, a, Severity::Error))
        },
        None => None,
    }
}

fn first_two_exec(args: &Vec<usize>) -> (r: Vec<usize>)
    ensures
        r@ == first_two(args@),
{
    let mut firsts: Vec<usize> = Vec::new();
    let mut k: usize = 0;
    while k < args.len() && k < 2
        invariant
            k <= args@.len(),
            k <= 2,
            firsts@ == args@.take(k as int),
        decreases args@.len() - k,
    {
        firsts.push(args[k]);
        assert(args@.take(k + 1) =~= args@.take(k as int).push(args@[k as int]));
        k = k + 1;
    }
    assert(firsts@ =~= first_two(args@));
    firsts
}

fn dynamic_shell_argument(cx: &LintContext, i: usize) -> (r: Option<usize>)
    requires
        cx.wf(),
        i < cx.ast.nodes@.len(),
    ensures
        r == first_where(first_two(cx.ast.field_children(i as int, "arguments"@)), |a: usize| dynamic_argument(cx.ast, a)),
        r matches Some(a) ==> a < cx.ast.nodes@.len(),
{
    let args = cx.ast.children_in(i, "arguments");
    let firsts = first_two_exec(&args);
    assert(forall|q: int| 0 <= q < firsts@.len() ==> #[trigger] firsts@[q] < cx.ast.nodes@.len()) by {
        assert forall|q: int| 0 <= q < firsts@.len() implies #[trigger] firsts@[q] < cx.ast.nodes@.len() by {
            assert(firsts@[q] == args@[q]);
        }
    }
    let test = |a: usize| -> (b: bool)
        requires
            cx.wf(),
            a < cx.ast.nodes@.len(),
        ensures
            b == dynamic_argument(cx.ast, a),
    { !cx.ast.is_kind(a, "SpreadElement") && dynamic_string_exec(&cx.ast, a) };
    let found = first_where_exec(&firsts, test, Ghost(|a: usize| dynamic_argument(cx.ast, a)));
    proof {
        crate::engine::lemma_first_where_in(firsts@, |a: usize| dynamic_argument(cx.ast, a));
    }
    found
}

/// Flags shell execution with dynamically built commands.
pub struct NoShellInjection;

impl NoShellInjection {
    pub fn name(&self) -> (r: &'static str)
        ensures
            r@ == "server/no-shell-injection"@,
    {
        "server/no-shell-injection"
    }

    /// In a server project, one error per shell call with a dynamic command.
    pub fn run(&self, cx: &LintContext, project: &ProjectInfo) -> (r: Vec<LintDiagnostic>)
        requires
            cx.wf(),
        ensures
            views(r@) == gated(project.server(), reports(cx.ast.nodes@.len() as int, shell_reports(cx))),
    {
        if !project.has_server_framework() {
            return Vec::new();
        }
        let check = |i: usize| -> (d: Option<LintDiagnostic>)
            requires
                cx.wf(),
                i < cx.ast.nodes@.len(),
            ensures
                opt_diag(d) == shell_report(cx, i as int),
        { shell_check(cx, i) };
        scan_nodes(cx, check, Ghost(shell_reports(cx)))
    }
}

// ── Path traversal ─────────────────────────────────────────

/// The filesystem APIs that take a path first.
pub open spec fn path_fs_names() -> Seq<Seq<char>> {
    seq![
        "fs.readFile"@,
        "fs.readFileSync"@,
        "fs.open"@,
        "fs.openSync"@,
        "fs.createReadStream"@,
        "fs.stat"@,
        "fs.statSync"@,
        "fs.access"@,
        "fs.accessSync"@,
        "fs.promises.readFile"@,
        "fs.promises.open"@,
        "fs.promises.stat"@,
        "fs.promises.access"@,
    ]
}

/// What `no-path-traversal` reports at node `i`: the path argument of a
/// filesystem call that reads request data.
pub open spec fn path_report(cx: &LintContext, i: int) -> Option<DiagView> {
    let ast = cx.ast;
    if ast.is(i, "CallExpression"@) && match callee_name(ast, i) {
        Some(n) => path_fs_names().contains(n),
        None => false,
    } {
        match argument(ast, i, 0) {
            Some(a) => if request_data(ast, a) {
                Some(
                    cx.at_node(
                        "server/no-path-traversal"@,
                        "Avoid using request data directly in filesystem paths"@,
                        a,
                        Severity::Error,
                    ),
                )
            } else {
                None
            },
            None => None,
        }
    } else {
        None
    }
}

pub open spec fn path_reports(cx: &LintContext) -> spec_fn(int) -> Option<DiagView> {
    |i: int| path_report(cx, i)
}

fn path_check(cx: &LintContext, i: usize) -> (d: Option<LintDiagnostic>)
    requires
        cx.wf(),
        i < cx.ast.nodes@.len(),
    ensures
        opt_diag(d) == path_report(cx, i as int),
{
    let ast = &cx.ast;
    if !ast.is_kind(i, "CallExpression") {
        return None;
    }
    let names = [
        "fs.readFile",
        "fs.readFileSync",
        "fs.open",
        "fs.openSync",
        "fs.createReadStream",
        "fs.stat",
        "fs.statSync",
        "fs.access",
        "fs.accessSync",
        "fs.promises.readFile",
        "fs.promises.open",
        "fs.promises.stat",
        "fs.promises.access",
    ];
    assert(names@.map_values(|s: &str| s@) =~= path_fs_names());
    let sensitive = match callee_name_exec(ast, i) {
        Some(n) => one_of(&n, &names),
        None => false,
    };
    if !sensitive {
        return None;
    }
    match argument_exec(ast, i, 0) {
        Some(a) => if request_data_exec(ast, a) {
            let msg = chars_of("Avoid using request data directly in filesystem paths");
            Some(cx.node_diagnostic("server/no-path-traversal", &msg, a, Severity::Error))
        } else {
            None
        },
        None => None,
    }
}

/// Flags filesystem calls whose path comes from the request.
pub struct NoPathTraversal;

impl NoPathTraversal {
    pub fn name(&self) -> (r: &'static str)
        ensures
            r@ == "server/no-path-traversal"@,
    {
        "server/no-path-traversal"
    }

    /// In a server project, one error per filesystem call whose path reads request data.
    pub fn run(&self, cx: &LintContext, project: &ProjectInfo) -> (r: Vec<LintDiagnostic>)
        requires
            cx.wf(),
        ensures
            views(r@) == gated(project.server(), reports(cx.ast.nodes@.len() as int, path_reports(cx))),
    {
        if !project.has_server_framework() {
            return Vec::new();
        }
        let check = |i: usize| -> (d: Option<LintDiagnostic>)
            requires
                cx.wf(),
                i < cx.ast.nodes@.len(),
            ensures
                opt_diag(d) == path_report(cx, i as int),
        { path_check(cx, i) };
        scan_nodes(cx, check, Ghost(path_reports(cx)))
    }
}

// ── Unsafe redirects ───────────────────────────────────────

/// `res.<...>.redirect` or `reply.<...>.redirect`.
pub open spec fn redirect_name(n: Seq<char>) -> bool {
    ends_with(n, ".redirect"@) && (starts_with(n, "res."@) || starts_with(n, "reply."@))
}

/// What `no-unsafe-redirect` reports at node `i`: the target of a redirect
/// inside a route handler that reads request data.
pub open spec fn redirect_report(cx: &LintContext, i: int) -> Option<DiagView> {
    let ast = cx.ast;
    if ast.is(i, "CallExpression"@) && match callee_name(ast, i) {
        Some(n) => redirect_name(n),
        None => false,
    } && enclosing_route_handler(ast, i) is Some {
        match argument(ast, i, 0) {
            Some(a) => if request_data(ast, a) {
                Some(
                    cx.at_node(
                        "server/no-unsafe-redirect"@,
                        "Avoid redirecting to request-controlled URLs"@,
                        a,
                        Severity::Error,
                    ),
                )
            } else {
                None
            },
            None => None,
        }
    } else {
        None
    }
}

pub open spec fn redirect_reports(cx: &LintContext) -> spec_fn(int) -> Option<DiagView> {
    |i: int| redirect_report(cx, i)
}

fn redirect_check(cx: &LintContext, i: usize) -> (d: Option<LintDiagnostic>)
    requires
        cx.wf(),
        i < cx.ast.nodes@.len(),
    ensures
        opt_diag(d) == redirect_report(cx, i as int),
{
    let ast = &cx.ast;
    if !ast.is_kind(i, "CallExpression") {
        return None;
    }
    let redirect = match callee_name_exec(ast, i) {
        Some(n) => ends_with_str(&n, ".redirect") && (starts_with_str(&n, "res.") || starts_with_str(&n, "reply.")),
        None => false,
    };
    if !redirect || enclosing_route_handler_exec(ast, i).is_none() {
        return None;
    }
    match argument_exec(ast, i, 0) {
        Some(a) => if request_data_exec(ast, a) {
            let msg = chars_of("Avoid redirecting to request-controlled URLs");
            Some(cx.node_diagnostic("server/no-unsafe-redirect", &msg, a, Severity::Error))
        } else {
            None
        },
        None => None,
    }
}

/// Flags redirects inside handlers to URLs taken from the request.
pub struct NoUnsafeRedirect;

impl NoUnsafeRedirect {
    pub fn name(&self) -> (r: &'static str)
        ensures
            r@ == "server/no-unsafe-redirect"@,
    {
        "server/no-unsafe-redirect"
    }

    /// In a server project, one error per redirect inside a route handler
    /// whose target reads request data.
    pub fn run(&self, cx: &LintContext, project: &ProjectInfo) -> (r: Vec<LintDiagnostic>)
        requires
            cx.wf(),
        ensures
            views(r@) == gated(project.server(), reports(cx.ast.nodes@.len() as int, redirect_reports(cx))),
    {
        if !project.has_server_framework() {
            return Vec::new();
        }
        let check = |i: usize| -> (d: Option<LintDiagnostic>)
            requires
                cx.wf(),
                i < cx.ast.nodes@.len(),
            ensures
                opt_diag(d) == redirect_report(cx, i as int),
        { redirect_check(cx, i) };
        scan_nodes(cx, check, Ghost(redirect_reports(cx)))
    }
}

// ── CORS wildcards ─────────────────────────────────────────

/// `cors` or anything ending in `.cors`.
pub open spec fn cors_name(n: Seq<char>) -> bool {
    n == "cors"@ || ends_with(n, ".cors"@)
}

/// Expression `e` is the string literal `value` (through parentheses).
pub open spec fn string_literal_is(ast: Ast, e: int, value: Seq<char>) -> bool {
    string_value(ast, unparen(ast, e)) == Some(value)
}

/// Expression `e` is the literal `true` (through parentheses).
pub open spec fn true_literal(ast: Ast, e: int) -> bool {
    let u = unparen(ast, e);
    ast.is(u, "Literal"@) && ast.scalar(u, "value"@) == Some(Value::Bool(true))
}

/// What `no-cors-wildcard` reports at node `i`: the options object of a
/// `cors(...)` call with `origin: "*"` and `credentials: true`.
pub open spec fn cors_report(cx: &LintContext, i: int) -> Option<DiagView> {
    let ast = cx.ast;
    if ast.is(i, "CallExpression"@) && match callee_name(ast, i) {
        Some(n) => cors_name(n),
        None => false,
    } {
        match argument(ast, i, 0) {
            Some(o) => if ast.is(o, "ObjectExpression"@) {
                match (object_property(ast, o, "origin"@), object_property(ast, o, "credentials"@)) {
                    (Some(origin), Some(credentials)) => if string_literal_is(ast, origin, "*"@) && true_literal(
                        ast,
                        credentials,
                    ) {
                        Some(
                            cx.at_node(
                                "server/no-cors-wildcard"@,
                                "Avoid `origin: \"*\"` when CORS credentials are enabled"@,
                                o,
                                Severity::Error,
                            ),
                        )
                    } else {
                        None
                    },
                    _ => None,
                }
            } else {
                None
            },
            None => None,
        }
    } else {
        None
    }
}

pub open spec fn cors_reports(cx: &LintContext) -> spec_fn(int) -> Option<DiagView> {
    |i: int| cors_report(cx, i)
}

fn true_literal_exec(ast: &Ast, e: usize) -> (b: bool)
    requires
        ast.wf(),
        e < ast.nodes@.len(),
    ensures
        b == true_literal(*ast, e as int),
{
    let u = unparen_exec(ast, e);
    ast.is_kind(u, "Literal") && match ast.scalar_of(u, "value") {
        Some(Value::Bool(v)) => *v,
        _ => false,
    }
}

fn cors_check(cx: &LintContext, i: usize) -> (d: Option<LintDiagnostic>)
    requires
        cx.wf(),
        i < cx.ast.nodes@.len(),
    ensures
        opt_diag(d) == cors_report(cx, i as int),
{
    let ast = &cx.ast;
    if !ast.is_kind(i, "CallExpression") {
        return None;
    }
    let cors = match callee_name_exec(ast, i) {
        Some(n) => eq_str(&n, "cors") || ends_with_str(&n, ".cors"),
        None => false,
    };
    if !cors {
        return None;
    }
    let o = match argument_exec(ast, i, 0) {
        Some(o) => o,
        None => {
            return None;
        },
    };
    if !ast.is_kind(o, "ObjectExpression") {
        return None;
    }
    match (object_property_exec(ast, o, "origin"), object_property_exec(ast, o, "credentials")) {
        (Some(origin), Some(credentials)) => {
            let wildcard = match string_value_exec(ast, unparen_exec(ast, origin)) {
                Some(v) => eq_str(&v, "*"),
                None => false,
            };
            if wildcard && true_literal_exec(ast, credentials) {
                let msg = chars_of("Avoid `origin: \"*\"` when CORS credentials are enabled");
                Some(cx.node_diagnostic("server/no-cors-wildcard", &msg, o, Severity::Error))
            } else {
                None
            }
        },
        _ => None,
    }
}

/// Flags CORS setups that allow any origin together with credentials.
pub struct NoCorsWildcard;

impl NoCorsWildcard {
    pub fn name(&self) -> (r: &'static str)
        ensures
            r@ == "server/no-cors-wildcard"@,
    {
        "server/no-cors-wildcard"
    }

    /// In a server project, one error per `cors({ origin: "*", credentials: true })`.
    pub fn run(&self, cx: &LintContext, project: &ProjectInfo) -> (r: Vec<LintDiagnostic>)
        requires
            cx.wf(),
        ensures
            views(r@) == gated(project.server(), reports(cx.ast.nodes@.len() as int, cors_reports(cx))),
    {
        if !project.has_server_framework() {
            return Vec::new();
        }
        let check = |i: usize| -> (d: Option<LintDiagnostic>)
            requires
                cx.wf(),
                i < cx.ast.nodes@.len(),
            ensures
                opt_diag(d) == cors_report(cx, i as int),
        { cors_check(cx, i) };
        scan_nodes(cx, check, Ghost(cors_reports(cx)))
    }
}

// ── Hardcoded JWT secrets ──────────────────────────────────

/// The trimmed secret takes at least 8 bytes and does not mention "example"
/// (in any ASCII case).
pub open spec fn jwt_secret_value(value: Seq<char>) -> bool {
    let t = trim(value);
    utf8_bytes(t) >= 8 && !contains(lower(t), "example"@)
}

/// What `no-hardcoded-jwt-secret` reports at node `i`: the literal secret
/// passed to `jwt.sign`.
pub open spec fn jwt_secret_report(cx: &LintContext, i: int) -> Option<DiagView> {
    let ast = cx.ast;
    if ast.is(i, "CallExpression"@) && (callee_name(ast, i) == Some("jwt.sign"@) || callee_name(ast, i) == Some(
        "jsonwebtoken.sign"@,
    )) {
        match argument(ast, i, 1) {
            Some(s) => match string_like(ast, unparen(ast, s)) {
                Some(v) => if jwt_secret_value(v) {
                    Some(
                        cx.at_node(
                            "server/no-hardcoded-jwt-secret"@,
                            "Avoid hardcoding JWT signing secrets"@,
                            s,
                            Severity::Error,
                        ),
                    )
                } else {
                    None
                },
                None => None,
            },
            None => None,
        }
    } else {
        None
    }
}

pub open spec fn jwt_secret_reports(cx: &LintContext) -> spec_fn(int) -> Option<DiagView> {
    |i: int| jwt_secret_report(cx, i)
}

fn jwt_secret_value_exec(value: &Vec<char>) -> (b: bool)
    ensures
        b == jwt_secret_value(value@),
{
    let t = trim_chars(value);
    if utf8_shorter_than(&t, 8) {
        return false;
    }
    !contains_str(&lower_chars(&t), "example")
}

fn jwt_secret_check(cx: &LintContext, i: usize) -> (d: Option<LintDiagnostic>)
    requires
        cx.wf(),
        i < cx.ast.nodes@.len(),
    ensures
        opt_diag(d) == jwt_secret_report(cx, i as int),
{
    let ast = &cx.ast;
    if !ast.is_kind(i, "CallExpression") {
        return None;
    }
    let sign = match callee_name_exec(ast, i) {
        Some(n) => eq_str(&n, "jwt.sign") || eq_str(&n, "jsonwebtoken.sign"),
        None => false,
    };
    if !sign {
        return None;
    }
    let s = match argument_exec(ast, i, 1) {
        Some(s) => s,
        None => {
            return None;
        },
    };
    match string_like_exec(ast, unparen_exec(ast, s)) {
        Some(v) => if jwt_secret_value_exec(&v) {
            let msg = chars_of("Avoid hardcoding JWT signing secrets");
            Some(cx.node_diagnostic("server/no-hardcoded-jwt-secret", &msg, s, Severity::Error))
        } else {
            None
        },
        None => None,
    }
}

/// Flags JWT signing with a literal secret.
pub struct NoHardcodedJwtSecret;

impl NoHardcodedJwtSecret {
    pub fn name(&self) -> (r: &'static str)
        ensures
            r@ == "server/no-hardcoded-jwt-secret"@,
    {
        "server/no-hardcoded-jwt-secret"
    }

    /// In a server project, one error per `jwt.sign` with a literal secret of
    /// at least 8 bytes that is not an example.
    pub fn run(&self, cx: &LintContext, project: &ProjectInfo) -> (r: Vec<LintDiagnostic>)
        requires
            cx.wf(),
        ensures
            views(r@) == gated(project.server(), reports(cx.ast.nodes@.len() as int, jwt_secret_reports(cx))),
    {
        if !project.has_server_framework() {
            return Vec::new();
        }
        let check = |i: usize| -> (d: Option<LintDiagnostic>)
            requires
                cx.wf(),
                i < cx.ast.nodes@.len(),
            ensures
                opt_diag(d) == jwt_secret_report(cx, i as int),
        { jwt_secret_check(cx, i) };
        scan_nodes(cx, check, Ghost(jwt_secret_reports(cx)))
    }
}

// ── JWT verification without algorithms ────────────────────

/// Argument `a`, at position `k`, pins the algorithms: an options object
/// with `algorithms`, or a callback after the third argument.
pub open spec fn algorithms_argument(ast: Ast, a: int, k: int) -> bool {
    expression_argument(ast, a) && {
        let u = unparen(ast, a);
        if ast.is(u, "ObjectExpression"@) {
            object_property(ast, u, "algorithms"@) is Some
        } else if ast.is(u, "ArrowFunctionExpression"@) || ast.is(u, "FunctionExpression"@) {
            k > 2
        } else {
            false
        }
    }
}

/// Call `i` names its verification algorithms.
pub open spec fn has_algorithms(ast: Ast, i: int) -> bool {
    exists|k: int|
        0 <= k < ast.field_children(i, "arguments"@).len() && #[trigger] algorithms_argument(
            ast,
            ast.field_children(i, "arguments"@)[k] as int,
            k,
        )
}

/// What `no-jwt-none-algorithm` reports at node `i`.
pub open spec fn jwt_none_report(cx: &LintContext, i: int) -> Option<DiagView> {
    let ast = cx.ast;
    if ast.is(i, "CallExpression"@) && (callee_name(ast, i) == Some("jwt.verify"@) || callee_name(ast, i) == Some(
        "jsonwebtoken.verify"@,
    )) && !has_algorithms(ast, i) {
        Some(
            cx.at_node(
                "server/no-jwt-none-algorithm"@,
                "Specify allowed JWT verification algorithms explicitly"@,
                i,
                Severity::Warning,
            ),
        )
    } else {
        None
    }
}

pub open spec fn jwt_none_reports(cx: &LintContext) -> spec_fn(int) -> Option<DiagView> {
    |i: int| jwt_none_report(cx, i)
}

fn algorithms_argument_exec(ast: &Ast, a: usize, k: usize) -> (b: bool)
    requires
        ast.wf(),
        a < ast.nodes@.len(),
    ensures
        b == algorithms_argument(*ast, a as int, k as int),
{
    if ast.is_kind(a, "SpreadElement") {
        return false;
    }
    let u = unparen_exec(ast, a);
    if ast.is_kind(u, "ObjectExpression") {
        object_property_exec(ast, u, "algorithms").is_some()
    } else if ast.is_kind(u, "ArrowFunctionExpression") || ast.is_kind(u, "FunctionExpression") {
        k > 2
    } else {
        false
    }
}

fn has_algorithms_exec(ast: &Ast, i: usize) -> (b: bool)
    requires
        ast.wf(),
        i < ast.nodes@.len(),
    ensures
        b == has_algorithms(*ast, i as int),
{
    let args = ast.children_in(i, "arguments");
    let mut k: usize = 0;
    while k < args.len()
        invariant
            ast.wf(),
            args@ == ast.field_children(i as int, "arguments"@),
            forall|q: int| 0 <= q < args@.len() ==> #[trigger] args@[q] < ast.nodes@.len(),
            k <= args@.len(),
            forall|q: int| 0 <= q < k ==> !#[trigger] algorithms_argument(*ast, args@[q] as int, q),
        decreases args@.len() - k,
    {
        if algorithms_argument_exec(ast, args[k], k) {
            assert(algorithms_argument(*ast, args@[k as int] as int, k as int));
            return true;
        }
        k = k + 1;
    }
    false
}

/// Flags JWT verification that does not pin its algorithms.
pub struct NoJwtNoneAlgorithm;

impl NoJwtNoneAlgorithm {
    pub fn name(&self) -> (r: &'static str)
        ensures
            r@ == "server/no-jwt-none-algorithm"@,
    {
        "server/no-jwt-none-algorithm"
    }

    /// In a server project, one warning per `jwt.verify` that names no algorithms.
    pub fn run(&self, cx: &LintContext, project: &ProjectInfo) -> (r: Vec<LintDiagnostic>)
        requires
            cx.wf(),
        ensures
            views(r@) == gated(project.server(), reports(cx.ast.nodes@.len() as int, jwt_none_reports(cx))),
    {
        if !project.has_server_framework() {
            return Vec::new();
        }
        let check = |i: usize| -> (d: Option<LintDiagnostic>)
            requires
                cx.wf(),
                i < cx.ast.nodes@.len(),
            ensures
                opt_diag(d) == jwt_none_report(cx, i as int),
        {
            let ast = &cx.ast;
            if !ast.is_kind(i, "CallExpression") {
                return None;
            }
            let verify = match callee_name_exec(ast, i) {
                Some(n) => eq_str(&n, "jwt.verify") || eq_str(&n, "jsonwebtoken.verify"),
                None => false,
            };
            if verify && !has_algorithms_exec(ast, i) {
                let msg = chars_of("Specify allowed JWT verification algorithms explicitly");
                Some(cx.node_diagnostic("server/no-jwt-none-algorithm", &msg, i, Severity::Warning))
            } else {
                None
            }
        };
        scan_nodes(cx, check, Ghost(jwt_none_reports(cx)))
    }
}

} // verus!
