//! `no-missing-return`: TypeScript functions with a value return type
//! whose body does not end in a return on every path.
use vstd::prelude::*;

use crate::ast::Ast;
use crate::engine::{diag_with_context, opt_diag, reports, scan_nodes, views, DiagView, LintContext};
use crate::estree::{ident_name, ident_name_exec, is_ident, is_ident_exec, opt_seq};
use crate::lint::{LintDiagnostic, Severity};
use crate::rules::no_wrong_arg_count::{is_function, is_function_exec};
use crate::text::chars_of;

verus! {

/// Detects functions with an explicit return type annotation that do not
/// return a value on every code path.  Only TypeScript files are checked.
pub struct NoMissingReturn;

/// Type node `t` is `void`, `never`, `undefined`, or a `Promise` of one of them.
pub open spec fn void_or_never(ast: Ast, t: int) -> bool
    decreases ast.nodes@.len() - t,
{
    if !(0 <= t < ast.nodes@.len()) {
        false
    } else if ast.is(t, "TSVoidKeyword"@) || ast.is(t, "TSNeverKeyword"@) || ast.is(t, "TSUndefinedKeyword"@) {
        true
    } else if ast.is(t, "TSTypeReference"@) {
        match (ast.child(t, "typeName"@), ast.child(t, "typeArguments"@)) {
            (Some(n), Some(a)) => if is_ident(ast, n, "Promise"@) {
                let ps = ast.field_children(a, "params"@);
                ps.len() == 1 && t < ps[0] < ast.nodes@.len() && void_or_never(ast, ps[0] as int)
            } else {
                false
            },
            _ => false,
        }
    } else {
        false
    }
}

/// Statement `s` is a directive prologue entry such as `"use strict"`.
pub open spec fn is_directive(ast: Ast, s: usize) -> bool {
    ast.is(s as int, "ExpressionStatement"@) && ast.text(s as int, "directive"@) is Some
}

/// The statements of a block or function body (directives aside).
pub open spec fn statements(ast: Ast, b: int) -> Seq<usize> {
    ast.field_children(b, "body"@).filter(|s: usize| !is_directive(ast, s))
}

/// The list `l`, owned by node `o`, is non-empty and its last statement always returns.
pub open spec fn last_returns(ast: Ast, o: int, l: Seq<usize>) -> bool
    decreases ast.nodes@.len() - o, 0int,
{
    l.len() > 0 && o < l.last() < ast.nodes@.len() && always_returns(ast, l.last() as int)
}

/// Statement `s` returns or throws on every path through it.
pub open spec fn always_returns(ast: Ast, s: int) -> bool
    decreases ast.nodes@.len() - s, 1int,
{
    if !(0 <= s < ast.nodes@.len()) {
        false
    } else if ast.is(s, "ReturnStatement"@) || ast.is(s, "ThrowStatement"@) {
        true
    } else if ast.is(s, "IfStatement"@) {
        match (ast.child(s, "consequent"@), ast.child(s, "alternate"@)) {
            (Some(c), Some(a)) => s < c < ast.nodes@.len() && s < a < ast.nodes@.len() && always_returns(ast, c)
                && always_returns(ast, a),
            _ => false,
        }
    } else if ast.is(s, "BlockStatement"@) {
        last_returns(ast, s, ast.field_children(s, "body"@))
    } else if ast.is(s, "SwitchStatement"@) {
        let cases = ast.field_children(s, "cases"@);
        &&& cases.len() > 0
        &&& exists|k: int| 0 <= k < cases.len() && ast.child(#[trigger] cases[k] as int, "test"@) is None
        &&& forall|k: int|
            0 <= k < cases.len() ==> {
                let cons = ast.field_children(#[trigger] cases[k] as int, "consequent"@);
                cons.len() == 0 || (s < cases[k] && last_returns(ast, s, cons))
            }
    } else if ast.is(s, "TryStatement"@) {
        let try_returns = match ast.child(s, "block"@) {
            Some(b) => s < b && last_returns(ast, s, ast.field_children(b, "body"@)),
            None => false,
        };
        let catch_returns = match ast.child(s, "handler"@) {
            Some(h) => match ast.child(h, "body"@) {
                Some(b) => s < b && last_returns(ast, s, ast.field_children(b, "body"@)),
                None => false,
            },
            None => true,
        };
        let finally_returns = match ast.child(s, "finalizer"@) {
            Some(f) => s < f && last_returns(ast, s, ast.field_children(f, "body"@)),
            None => false,
        };
        finally_returns || (try_returns && catch_returns)
    } else {
        false
    }
}

/// ` `name`` for a named function, else nothing.
pub open spec fn name_suffix(ast: Ast, f: int) -> Seq<char> {
    match fn_name(ast, f) {
        Some(n) => " `"@ + n + "`"@,
        None => Seq::empty(),
    }
}

/// The name of function `f`, if it has one.
pub open spec fn fn_name(ast: Ast, f: int) -> Option<Seq<char>> {
    match ast.child(f, "id"@) {
        Some(id) => ident_name(ast, id),
        None => None,
    }
}

/// The complaint about function `f` with body `body`, if its statements do
/// not end in a return on every path.
pub open spec fn missing_message(ast: Ast, f: int, body: int) -> Option<Seq<char>> {
    let stmts = statements(ast, body);
    if stmts.len() == 0 {
        Some("Function"@ + name_suffix(ast, f) + " has return type annotation but body is empty"@)
    } else if !always_returns(ast, stmts.last() as int) {
        Some("Function"@ + name_suffix(ast, f) + " has return type annotation but not all code paths return a value"@)
    } else {
        None
    }
}

/// The return type annotation `rt` names no value (`void`, `never`, ...).
pub open spec fn returns_nothing(ast: Ast, rt: int) -> bool {
    match ast.child(rt, "typeAnnotation"@) {
        Some(t) => void_or_never(ast, t),
        None => false,
    }
}

/// What the rule reports at node `f`.
pub open spec fn missing_return_report(cx: &LintContext, f: int) -> Option<DiagView> {
    let ast = cx.ast;
    if !cx.typescript || !is_function(ast, f) {
        None
    } else {
        match (ast.child(f, "returnType"@), ast.child(f, "body"@)) {
            (Some(rt), Some(body)) => if returns_nothing(ast, rt) {
                None
            } else {
                match missing_message(ast, f, body) {
                    Some(m) => Some(
                        diag_with_context(
                            cx.source@,
                            "no-missing-return"@,
                            m,
                            ast.nodes@[f].start,
                            ast.nodes@[f].end,
                            Severity::Error,
                            "Function"@,
                            fn_name(ast, f),
                        ),
                    ),
                    None => None,
                }
            },
            _ => None,
        }
    }
}

pub open spec fn missing_return_reports(cx: &LintContext) -> spec_fn(int) -> Option<DiagView> {
    |i: int| missing_return_report(cx, i)
}

fn void_or_never_exec(ast: &Ast, t: usize) -> (b: bool)
    requires
        ast.wf(),
        t < ast.nodes@.len(),
    ensures
        b == void_or_never(*ast, t as int),
    decreases ast.nodes@.len() - t,
{
    if ast.is_kind(t, "TSVoidKeyword") || ast.is_kind(t, "TSNeverKeyword") || ast.is_kind(t, "TSUndefinedKeyword") {
        return true;
    }
    if !ast.is_kind(t, "TSTypeReference") {
        return false;
    }
    match (ast.child_of(t, "typeName"), ast.child_of(t, "typeArguments")) {
        (Some(n), Some(a)) => {
            if !is_ident_exec(ast, n, "Promise") {
                return false;
            }
            let ps = ast.children_in(a, "params");
            ps.len() == 1 && t < ps[0] && ps[0] < ast.nodes.len() && void_or_never_exec(ast, ps[0])
        },
        _ => false,
    }
}

fn is_directive_exec(ast: &Ast, s: usize) -> (b: bool)
    requires
        s < ast.nodes@.len(),
    ensures
        b == is_directive(*ast, s),
{
    ast.is_kind(s, "ExpressionStatement") && ast.text_of(s, "directive").is_some()
}

/// `statements` in code.
pub fn statements_exec(ast: &Ast, b: usize) -> (r: Vec<usize>)
    requires
        ast.wf(),
        b < ast.nodes@.len(),
    ensures
        r@ == statements(*ast, b as int),
        forall|k: int| 0 <= k < r@.len() ==> b < #[trigger] r@[k] < ast.nodes@.len(),
{
    let all = ast.children_in(b, "body");
    let ghost pred = |s: usize| !is_directive(*ast, s);
    let mut out: Vec<usize> = Vec::new();
    let mut j: usize = 0;
    while j < all.len()
        invariant
            ast.wf(),
            b < ast.nodes@.len(),
            j <= all@.len(),
            all@ == ast.field_children(b as int, "body"@),
            forall|k: int| 0 <= k < all@.len() ==> b < #[trigger] all@[k] < ast.nodes@.len(),
            pred == (|s: usize| !is_directive(*ast, s)),
            out@ == all@.take(j as int).filter(pred),
            forall|k: int| 0 <= k < out@.len() ==> b < #[trigger] out@[k] < ast.nodes@.len(),
        decreases all@.len() - j,
    {
        let s = all[j];
        if !is_directive_exec(ast, s) {
            out.push(s);
        }
        proof {
            reveal_with_fuel(Seq::<_>::filter, 1);
            assert(all@.take(j + 1).drop_last() =~= all@.take(j as int));
        }
        j = j + 1;
    }
    assert(all@.take(j as int) =~= all@);
    out
}

fn last_returns_exec(ast: &Ast, o: usize, l: &Vec<usize>) -> (b: bool)
    requires
        ast.wf(),
        o < ast.nodes@.len(),
        forall|k: int| 0 <= k < l@.len() ==> #[trigger] l@[k] < ast.nodes@.len(),
    ensures
        b == last_returns(*ast, o as int, l@),
    decreases ast.nodes@.len() - o, 0int,
{
    if l.len() == 0 {
        return false;
    }
    let last = l[l.len() - 1];
    o < last && last < ast.nodes.len() && always_returns_exec(ast, last)
}

fn always_returns_exec(ast: &Ast, s: usize) -> (b: bool)
    requires
        ast.wf(),
        s < ast.nodes@.len(),
    ensures
        b == always_returns(*ast, s as int),
    decreases ast.nodes@.len() - s, 1int,
{
    if ast.is_kind(s, "ReturnStatement") || ast.is_kind(s, "ThrowStatement") {
        true
    } else if ast.is_kind(s, "IfStatement") {
        match (ast.child_of(s, "consequent"), ast.child_of(s, "alternate")) {
            (Some(c), Some(a)) => always_returns_exec(ast, c) && always_returns_exec(ast, a),
            _ => false,
        }
    } else if ast.is_kind(s, "BlockStatement") {
        let body = ast.children_in(s, "body");
        last_returns_exec(ast, s, &body)
    } else if ast.is_kind(s, "SwitchStatement") {
        let cases = ast.children_in(s, "cases");
        if cases.len() == 0 {
            return false;
        }
        let mut has_default = false;
        let mut all_ok = true;
        let mut k: usize = 0;
        while k < cases.len()
            invariant
                ast.wf(),
                s < ast.nodes@.len(),
                k <= cases@.len(),
                cases@ == ast.field_children(s as int, "cases"@),
                forall|m: int| 0 <= m < cases@.len() ==> s < #[trigger] cases@[m] < ast.nodes@.len(),
                has_default == exists|m: int| 0 <= m < k && ast.child(#[trigger] cases@[m] as int, "test"@) is None,
                all_ok == forall|m: int|
                    0 <= m < k ==> {
                        let cons = ast.field_children(#[trigger] cases@[m] as int, "consequent"@);
                        cons.len() == 0 || (s < cases@[m] && last_returns(*ast, s as int, cons))
                    },
            decreases cases@.len() - k,
        {
            let c = cases[k];
            if ast.child_of(c, "test").is_none() {
                has_default = true;
            }
            let cons = ast.children_in(c, "consequent");
            let ok = cons.len() == 0 || last_returns_exec(ast, s, &cons);
            if !ok {
                all_ok = false;
            }
            proof {
                if ast.child(c as int, "test"@) is None {
                    assert(exists|m: int| 0 <= m < k + 1 && ast.child(#[trigger] cases@[m] as int, "test"@) is None);
                }
                assert(cases@[k as int] == c);
            }
            k = k + 1;
        }
        has_default && all_ok
    } else if ast.is_kind(s, "TryStatement") {
        let try_returns = match ast.child_of(s, "block") {
            Some(b) => last_returns_exec(ast, s, &ast.children_in(b, "body")),
            None => false,
        };
        let catch_returns = match ast.child_of(s, "handler") {
            Some(h) => match ast.child_of(h, "body") {
                Some(b) => s < b && last_returns_exec(ast, s, &ast.children_in(b, "body")),
                None => false,
            },
            None => true,
        };
        let finally_returns = match ast.child_of(s, "finalizer") {
            Some(f) => last_returns_exec(ast, s, &ast.children_in(f, "body")),
            None => false,
        };
        finally_returns || (try_returns && catch_returns)
    } else {
        false
    }
}

fn fn_name_exec(ast: &Ast, f: usize) -> (r: Option<Vec<char>>)
    requires
        ast.wf(),
        f < ast.nodes@.len(),
    ensures
        opt_seq(r) == fn_name(*ast, f as int),
{
    match ast.child_of(f, "id") {
        Some(id) => ident_name_exec(ast, id),
        None => None,
    }
}

fn returns_nothing_exec(ast: &Ast, rt: usize) -> (b: bool)
    requires
        ast.wf(),
        rt < ast.nodes@.len(),
    ensures
        b == returns_nothing(*ast, rt as int),
{
    match ast.child_of(rt, "typeAnnotation") {
        Some(t) => void_or_never_exec(ast, t),
        None => false,
    }
}

fn missing_message_exec(ast: &Ast, f: usize, body: usize) -> (r: Option<Vec<char>>)
    requires
        ast.wf(),
        f < ast.nodes@.len(),
        body < ast.nodes@.len(),
    ensures
        opt_seq(r) == missing_message(*ast, f as int, body as int),
{
    let stmts = statements_exec(ast, body);
    let mut msg = chars_of("Function");
    match fn_name_exec(ast, f) {
        Some(n) => {
            msg.append(&mut chars_of(" `"));
            msg.append(&mut n.clone());
            msg.append(&mut chars_of("`"));
        },
        None => {},
    }
    let ghost head = msg@;
    assert(head =~= "Function"@ + name_suffix(*ast, f as int));
    if stmts.len() == 0 {
        msg.append(&mut chars_of(" has return type annotation but body is empty"));
    } else if !always_returns_exec(ast, stmts[stmts.len() - 1]) {
        msg.append(&mut chars_of(" has return type annotation but not all code paths return a value"));
    } else {
        return None;
    }
    Some(msg)
}

fn missing_return_check(cx: &LintContext, f: usize) -> (d: Option<LintDiagnostic>)
    requires
        cx.wf(),
        f < cx.ast.nodes@.len(),
    ensures
        opt_diag(d) == missing_return_report(cx, f as int),
{
    let ast = &cx.ast;
    if !cx.typescript || !is_function_exec(ast, f) {
        return None;
    }
    let (rt, body) = match (ast.child_of(f, "returnType"), ast.child_of(f, "body")) {
        (Some(rt), Some(body)) => (rt, body),
        _ => {
            return None;
        },
    };
    if returns_nothing_exec(ast, rt) {
        return None;
    }
    match missing_message_exec(ast, f, body) {
        Some(msg) => Some(cx.node_diagnostic_with_context("no-missing-return", &msg, f, Severity::Error, "Function", fn_name_exec(ast, f))),
        None => None,
    }
}

impl NoMissingReturn {
    pub fn name(&self) -> (r: &'static str)
        ensures
            r@ == "no-missing-return"@,
    {
        "no-missing-return"
    }

    /// In a TypeScript file, one error per function whose value return
    /// type is not met on every path, in node order.
    pub fn run(&self, cx: &LintContext) -> (r: Vec<LintDiagnostic>)
        requires
            cx.wf(),
        ensures
            views(r@) == reports(cx.ast.nodes@.len() as int, missing_return_reports(cx)),
    {
        let check = |i: usize| -> (d: Option<LintDiagnostic>)
            requires
                cx.wf(),
                i < cx.ast.nodes@.len(),
            ensures
                opt_diag(d) == missing_return_report(cx, i as int),
        { missing_return_check(cx, i) };
        scan_nodes(cx, check, Ghost(missing_return_reports(cx)))
    }
}

} // verus!
