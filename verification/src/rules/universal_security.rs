//! `no-eval` and `no-hardcoded-secrets`: dynamic code execution through
//! unshadowed globals, and string secrets assigned to secret-looking names.
use vstd::prelude::*;

use crate::engine::{opt_diag, reports, scan_nodes, utf8_bytes, utf8_shorter_than, views, DiagView, LintContext};
use crate::estree::{
    is_ident, is_ident_exec, member_static_name, member_static_name_exec, nth_child, nth_child_exec,
    string_like, string_like_exec, unparen, unparen_exec, ident_name, ident_name_exec, opt_seq,
};
use crate::frontend::ReferenceFact;
use crate::lint::{LintDiagnostic, Severity};
use crate::text::{chars_of, contains, contains_str, lower, lower_chars, starts_with, starts_with_str, trim, trim_chars};

verus! {

/// Rejects `eval`, the `Function` constructor and string timers.
pub struct NoEval;

/// Flags string secrets assigned to secret-looking variables.
pub struct NoHardcodedSecrets;

/// Some identifier reference spanning `start..end` resolves to a declared symbol.
pub open spec fn resolves(refs: Seq<ReferenceFact>, start: u32, end: u32) -> bool {
    exists|k: int| 0 <= k < refs.len() && #[trigger] refs[k].start == start && refs[k].end == end && refs[k].resolved
}

/// Node `i` is the identifier `name` and refers to the global of that name.
pub open spec fn global_ident(cx: &LintContext, refs: Seq<ReferenceFact>, i: int, name: Seq<char>) -> bool {
    &&& is_ident(cx.ast, i, name)
    &&& !resolves(refs, cx.ast.nodes@[i].start, cx.ast.nodes@[i].end)
}

pub open spec fn eval_message() -> Seq<char> {
    "Avoid dynamic code execution with eval"@
}

/// What `no-eval` reports for the string timer call `i` with callee `c`.
pub open spec fn timer_report(cx: &LintContext, refs: Seq<ReferenceFact>, i: int, c: int) -> Option<DiagView> {
    let u = unparen(cx.ast, c);
    if global_ident(cx, refs, u, "setTimeout"@) || global_ident(cx, refs, u, "setInterval"@) {
        match nth_child(cx.ast, i, "arguments"@, 0) {
            Some(a) => if string_like(cx.ast, a) is Some {
                Some(cx.at_node("no-eval"@, "Avoid string-based timers that behave like eval"@, a, Severity::Error))
            } else {
                None
            },
            None => None,
        }
    } else {
        None
    }
}

/// What `no-eval` reports at node `i`.
pub open spec fn eval_report(cx: &LintContext, refs: Seq<ReferenceFact>, i: int) -> Option<DiagView> {
    let ast = cx.ast;
    if ast.is(i, "CallExpression"@) {
        match ast.child(i, "callee"@) {
            Some(c) => if global_ident(cx, refs, unparen(ast, c), "eval"@) {
                Some(cx.at_node("no-eval"@, eval_message(), i, Severity::Error))
            } else if ast.is(c, "MemberExpression"@) && (match ast.child(c, "object"@) {
                Some(o) => is_ident(ast, o, "window"@),
                None => false,
            }) && member_static_name(ast, c) == Some("eval"@) {
                Some(cx.at_node("no-eval"@, eval_message(), i, Severity::Error))
            } else {
                timer_report(cx, refs, i, c)
            },
            None => None,
        }
    } else if ast.is(i, "NewExpression"@) {
        match ast.child(i, "callee"@) {
            Some(c) => if global_ident(cx, refs, unparen(ast, c), "Function"@) {
                Some(
                    cx.at_node(
                        "no-eval"@,
                        "Avoid dynamic code execution with the Function constructor"@,
                        i,
                        Severity::Error,
                    ),
                )
            } else {
                None
            },
            None => None,
        }
    } else {
        None
    }
}

pub open spec fn eval_reports(cx: &LintContext, refs: Seq<ReferenceFact>) -> spec_fn(int) -> Option<DiagView> {
    |i: int| eval_report(cx, refs, i)
}

/// `resolves` in code.
pub fn resolves_exec(refs: &Vec<ReferenceFact>, start: u32, end: u32) -> (b: bool)
    ensures
        b == resolves(refs@, start, end),
{
    let mut k: usize = 0;
    while k < refs.len()
        invariant
            k <= refs@.len(),
            forall|m: int| 0 <= m < k ==> !(#[trigger] refs@[m].start == start && refs@[m].end == end && refs@[m].resolved),
        decreases refs@.len() - k,
    {
        let f = refs[k];
        if f.start == start && f.end == end && f.resolved {
            return true;
        }
        k = k + 1;
    }
    false
}

/// `global_ident` in code.
pub fn global_ident_exec(cx: &LintContext, refs: &Vec<ReferenceFact>, i: usize, name: &str) -> (b: bool)
    requires
        i < cx.ast.nodes@.len(),
    ensures
        b == global_ident(cx, refs@, i as int, name@),
{
    is_ident_exec(&cx.ast, i, name) && !resolves_exec(refs, cx.ast.nodes[i].start, cx.ast.nodes[i].end)
}

fn timer_check(cx: &LintContext, refs: &Vec<ReferenceFact>, i: usize, c: usize) -> (d: Option<LintDiagnostic>)
    requires
        cx.wf(),
        i < cx.ast.nodes@.len(),
        c < cx.ast.nodes@.len(),
    ensures
        opt_diag(d) == timer_report(cx, refs@, i as int, c as int),
{
    let u = unparen_exec(&cx.ast, c);
    if global_ident_exec(cx, refs, u, "setTimeout") || global_ident_exec(cx, refs, u, "setInterval") {
        match nth_child_exec(&cx.ast, i, "arguments", 0) {
            Some(a) => if string_like_exec(&cx.ast, a).is_some() {
                let msg = chars_of("Avoid string-based timers that behave like eval");
                Some(cx.node_diagnostic("no-eval", &msg, a, Severity::Error))
            } else {
                None
            },
            None => None,
        }
    } else {
        None
    }
}

fn eval_check(cx: &LintContext, refs: &Vec<ReferenceFact>, i: usize) -> (d: Option<LintDiagnostic>)
    requires
        cx.wf(),
        i < cx.ast.nodes@.len(),
    ensures
        opt_diag(d) == eval_report(cx, refs@, i as int),
{
    let ast = &cx.ast;
    if ast.is_kind(i, "CallExpression") {
        match ast.child_of(i, "callee") {
            Some(c) => {
                let u = unparen_exec(ast, c);
                if global_ident_exec(cx, refs, u, "eval") {
                    return Some(cx.node_diagnostic("no-eval", &chars_of("Avoid dynamic code execution with eval"), i, Severity::Error));
                }
                if ast.is_kind(c, "MemberExpression") {
                    let window = match ast.child_of(c, "object") {
                        Some(o) => is_ident_exec(ast, o, "window"),
                        None => false,
                    };
                    if window {
                        let named_eval = match member_static_name_exec(ast, c) {
                            Some(n) => crate::text::eq_str(&n, "eval"),
                            None => false,
                        };
                        if named_eval {
                            return Some(cx.node_diagnostic("no-eval", &chars_of("Avoid dynamic code execution with eval"), i, Severity::Error));
                        }
                    }
                }
                timer_check(cx, refs, i, c)
            },
            None => None,
        }
    } else if ast.is_kind(i, "NewExpression") {
        match ast.child_of(i, "callee") {
            Some(c) => {
                let u = unparen_exec(ast, c);
                if global_ident_exec(cx, refs, u, "Function") {
                    let msg = chars_of("Avoid dynamic code execution with the Function constructor");
                    Some(cx.node_diagnostic("no-eval", &msg, i, Severity::Error))
                } else {
                    None
                }
            },
            None => None,
        }
    } else {
        None
    }
}

impl NoEval {
    pub fn name(&self) -> (r: &'static str)
        ensures
            r@ == "no-eval"@,
    {
        "no-eval"
    }

    pub fn default_severity(&self) -> (r: Severity)
        ensures
            r == Severity::Error,
    {
        Severity::Error
    }

    /// One error per `eval` call, `new Function`, or string timer, in node order;
    /// `refs` tells which identifier references resolve to declarations.
    pub fn run(&self, cx: &LintContext, refs: &Vec<ReferenceFact>) -> (r: Vec<LintDiagnostic>)
        requires
            cx.wf(),
        ensures
            views(r@) == reports(cx.ast.nodes@.len() as int, eval_reports(cx, refs@)),
    {
        let check = |i: usize| -> (d: Option<LintDiagnostic>)
            requires
                cx.wf(),
                i < cx.ast.nodes@.len(),
            ensures
                opt_diag(d) == eval_report(cx, refs@, i as int),
        { eval_check(cx, refs, i) };
        scan_nodes(cx, check, Ghost(eval_reports(cx, refs@)))
    }
}

/// The secret-looking name fragments.
pub open spec fn secret_fragments() -> Seq<Seq<char>> {
    seq![
        "secret"@,
        "token"@,
        "password"@,
        "passwd"@,
        "api_key"@,
        "apikey"@,
        "client_secret"@,
        "private_key"@,
        "jwt"@,
    ]
}

/// The ASCII-lowercased name contains a secret-looking fragment.
pub open spec fn looks_like_secret_name(name: Seq<char>) -> bool {
    exists|k: int| 0 <= k < secret_fragments().len() && contains(lower(name), #[trigger] secret_fragments()[k])
}

/// The trimmed value takes at least 8 bytes and is no URL, example or localhost value.
pub open spec fn looks_like_secret_value(value: Seq<char>) -> bool {
    let t = trim(value);
    let l = lower(t);
    &&& utf8_bytes(t) >= 8
    &&& !starts_with(l, "http://"@)
    &&& !starts_with(l, "https://"@)
    &&& !contains(l, "example"@)
    &&& !contains(l, "localhost"@)
}

/// What `no-hardcoded-secrets` reports at node `i`.
pub open spec fn secret_report(cx: &LintContext, i: int) -> Option<DiagView> {
    let ast = cx.ast;
    if ast.is(i, "VariableDeclarator"@) {
        match (ast.child(i, "id"@), ast.child(i, "init"@)) {
            (Some(id), Some(init)) => match (ident_name(ast, id), string_like(ast, unparen(ast, init))) {
                (Some(name), Some(value)) => if looks_like_secret_name(name) && looks_like_secret_value(value) {
                    Some(
                        cx.at_node(
                            "no-hardcoded-secrets"@,
                            "`"@ + name + "` appears to contain a hardcoded secret"@,
                            i,
                            Severity::Warning,
                        ),
                    )
                } else {
                    None
                },
                _ => None,
            },
            _ => None,
        }
    } else {
        None
    }
}

pub open spec fn secret_reports(cx: &LintContext) -> spec_fn(int) -> Option<DiagView> {
    |i: int| secret_report(cx, i)
}

/// `looks_like_secret_name` in code.
pub fn looks_like_secret_name_exec(name: &Vec<char>) -> (b: bool)
    ensures
        b == looks_like_secret_name(name@),
{
    let l = lower_chars(name);
    let frags = [
        "secret",
        "token",
        "password",
        "passwd",
        "api_key",
        "apikey",
        "client_secret",
        "private_key",
        "jwt",
    ];
    let mut k: usize = 0;
    while k < 9
        invariant
            k <= 9,
            l@ == lower(name@),
            frags@.map_values(|f: &str| f@) == secret_fragments(),
            forall|m: int| 0 <= m < k ==> !contains(lower(name@), #[trigger] secret_fragments()[m]),
        decreases 9 - k,
    {
        proof {
            assert(frags@.map_values(|f: &str| f@)[k as int] == frags@[k as int]@);
        }
        if contains_str(&l, frags[k]) {
            return true;
        }
        k = k + 1;
    }
    false
}

/// `looks_like_secret_value` in code.
pub fn looks_like_secret_value_exec(value: &Vec<char>) -> (b: bool)
    ensures
        b == looks_like_secret_value(value@),
{
    let t = trim_chars(value);
    if utf8_shorter_than(&t, 8) {
        return false;
    }
    let l = lower_chars(&t);
    !(starts_with_str(&l, "http://") || starts_with_str(&l, "https://") || contains_str(&l, "example")
        || contains_str(&l, "localhost"))
}

fn secret_check(cx: &LintContext, i: usize) -> (d: Option<LintDiagnostic>)
    requires
        cx.wf(),
        i < cx.ast.nodes@.len(),
    ensures
        opt_diag(d) == secret_report(cx, i as int),
{
    let ast = &cx.ast;
    if !ast.is_kind(i, "VariableDeclarator") {
        return None;
    }
    let (id, init) = match (ast.child_of(i, "id"), ast.child_of(i, "init")) {
        (Some(a), Some(b)) => (a, b),
        _ => {
            return None;
        },
    };
    let name = match ident_name_exec(ast, id) {
        Some(n) => n,
        None => {
            return None;
        },
    };
    let value = match string_like_exec(ast, unparen_exec(ast, init)) {
        Some(v) => v,
        None => {
            return None;
        },
    };
    if looks_like_secret_name_exec(&name) && looks_like_secret_value_exec(&value) {
        let mut msg = chars_of("`");
        msg.append(&mut name.clone());
        msg.append(&mut chars_of("` appears to contain a hardcoded secret"));
        proof {
            assert(msg@ =~= "`"@ + name@ + "` appears to contain a hardcoded secret"@);
        }
        Some(cx.node_diagnostic("no-hardcoded-secrets", &msg, i, Severity::Warning))
    } else {
        None
    }
}

impl NoHardcodedSecrets {
    pub fn name(&self) -> (r: &'static str)
        ensures
            r@ == "no-hardcoded-secrets"@,
    {
        "no-hardcoded-secrets"
    }

    pub fn default_severity(&self) -> (r: Severity)
        ensures
            r == Severity::Warning,
    {
        Severity::Warning
    }

    /// One warning per variable whose secret-looking name is bound to a secret-looking string.
    pub fn run(&self, cx: &LintContext) -> (r: Vec<LintDiagnostic>)
        requires
            cx.wf(),
        ensures
            views(r@) == reports(cx.ast.nodes@.len() as int, secret_reports(cx)),
    {
        let check = |i: usize| -> (d: Option<LintDiagnostic>)
            requires
                cx.wf(),
                i < cx.ast.nodes@.len(),
            ensures
                opt_diag(d) == secret_report(cx, i as int),
        { secret_check(cx, i) };
        scan_nodes(cx, check, Ghost(secret_reports(cx)))
    }
}

} // verus!
