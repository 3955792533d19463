//! `no-wrong-arg-count`: calls of a function declared in the same file
//! with fewer arguments than it requires, or more than it takes.
use vstd::prelude::*;

use crate::ast::Ast;
use crate::engine::{
    decimal, decimal_chars, diag_with_context, opt_diag, reports, scan_nodes, views, DiagView, LintContext,
};
use crate::estree::{ident_name, ident_name_exec, is_ident, is_ident_exec};
use crate::lint::{LintDiagnostic, Severity};
use crate::text::{chars_of, eq_chars};

verus! {

/// Detects call expressions whose argument count does not fit the
/// same-file declaration of the called function.
pub struct NoWrongArgCount;

/// Node `f` is a function (declaration, expression, or declared signature).
pub open spec fn is_function(ast: Ast, f: int) -> bool {
    ||| ast.is(f, "FunctionDeclaration"@)
    ||| ast.is(f, "FunctionExpression"@)
    ||| ast.is(f, "TSDeclareFunction"@)
    ||| ast.is(f, "TSEmptyBodyFunctionExpression"@)
}

/// Node `f` is a function whose name is `name`.
pub open spec fn named_fn(ast: Ast, f: int, name: Seq<char>) -> bool {
    is_function(ast, f) && match ast.child(f, "id"@) {
        Some(id) => is_ident(ast, id, name),
        None => false,
    }
}

/// The last function named `name` among the first `n` nodes: the
/// declaration a later one of the same name replaces.
pub open spec fn last_named_fn(ast: Ast, name: Seq<char>, n: int) -> Option<int>
    decreases n,
{
    if n <= 0 {
        None
    } else if named_fn(ast, n - 1, name) {
        Some(n - 1)
    } else {
        last_named_fn(ast, name, n - 1)
    }
}

/// The parameter list of function `f` ends in a rest element.
pub open spec fn has_rest(ast: Ast, f: int) -> bool {
    let ps = ast.field_children(f, "params"@);
    ps.len() > 0 && ast.is(ps.last() as int, "RestElement"@)
}

/// Whether the parameter list of `f` starts with TypeScript's `this`
/// parameter, which the ESTree text lists as an identifier named `this`
/// (no ordinary parameter can bear that name). It takes no argument.
pub open spec fn has_this_param(ast: Ast, f: int) -> bool {
    let ps = ast.field_children(f, "params"@);
    ps.len() > 0 && is_ident(ast, ps[0] as int, "this"@)
}

/// How many leading entries of the parameter list take no argument.
pub open spec fn leading_skip(ast: Ast, f: int) -> int {
    if has_this_param(ast, f) { 1int } else { 0int }
}

/// The number of parameters of `f` besides `this` and a rest element.
pub open spec fn total_params(ast: Ast, f: int) -> int {
    ast.field_children(f, "params"@).len() - leading_skip(ast, f) - if has_rest(ast, f) { 1int } else { 0int }
}

/// A parameter is optional when it has a default or is marked optional.
pub open spec fn param_optional(ast: Ast, p: int) -> bool {
    ||| ast.is(p, "AssignmentPattern"@)
    ||| ast.flag(p, "optional"@)
    ||| (ast.is(p, "TSParameterProperty"@) && match ast.child(p, "parameter"@) {
        Some(q) => ast.is(q, "AssignmentPattern"@) || ast.flag(q, "optional"@),
        None => false,
    })
}

/// The number of required parameters among the first `k` of `f` after `this`.
pub open spec fn required_among(ast: Ast, f: int, k: int) -> int
    decreases k,
{
    if k <= 0 {
        0
    } else {
        required_among(ast, f, k - 1) + if param_optional(
            ast,
            ast.field_children(f, "params"@)[leading_skip(ast, f) + k - 1] as int,
        ) {
            0int
        } else {
            1int
        }
    }
}

/// The number of required parameters of `f`.
pub open spec fn required_params(ast: Ast, f: int) -> int {
    required_among(ast, f, total_params(ast, f))
}

pub open spec fn too_few_message(name: Seq<char>, required: nat, args: nat) -> Seq<char> {
    "Function `"@ + name + "` expects at least "@ + decimal(required) + " argument(s), but was called with "@
        + decimal(args)
}

pub open spec fn too_many_message(name: Seq<char>, total: nat, args: nat) -> Seq<char> {
    "Function `"@ + name + "` expects at most "@ + decimal(total) + " argument(s), but was called with "@
        + decimal(args)
}

/// What the rule reports at node `i`.
pub open spec fn arg_count_report(cx: &LintContext, i: int) -> Option<DiagView> {
    let ast = cx.ast;
    if ast.is(i, "CallExpression"@) {
        match ast.child(i, "callee"@) {
            Some(c) => match ident_name(ast, c) {
                Some(name) => match last_named_fn(ast, name, ast.nodes@.len() as int) {
                    Some(f) => {
                        let args = ast.field_children(i, "arguments"@).len();
                        let required = required_params(ast, f);
                        let total = total_params(ast, f);
                        let node = ast.nodes@[i];
                        if args < required {
                            Some(
                                diag_with_context(
                                    cx.source@,
                                    "no-wrong-arg-count"@,
                                    too_few_message(name, required as nat, args),
                                    node.start,
                                    node.end,
                                    Severity::Error,
                                    "CallExpression"@,
                                    Some(name),
                                ),
                            )
                        } else if !has_rest(ast, f) && args > total {
                            Some(
                                diag_with_context(
                                    cx.source@,
                                    "no-wrong-arg-count"@,
                                    too_many_message(name, total as nat, args),
                                    node.start,
                                    node.end,
                                    Severity::Error,
                                    "CallExpression"@,
                                    Some(name),
                                ),
                            )
                        } else {
                            None
                        }
                    },
                    None => None,
                },
                None => None,
            },
            None => None,
        }
    } else {
        None
    }
}

pub open spec fn arg_count_reports(cx: &LintContext) -> spec_fn(int) -> Option<DiagView> {
    |i: int| arg_count_report(cx, i)
}

pub fn is_function_exec(ast: &Ast, f: usize) -> (b: bool)
    requires
        f < ast.nodes@.len(),
    ensures
        b == is_function(*ast, f as int),
{
    ast.is_kind(f, "FunctionDeclaration") || ast.is_kind(f, "FunctionExpression") || ast.is_kind(
        f,
        "TSDeclareFunction",
    ) || ast.is_kind(f, "TSEmptyBodyFunctionExpression")
}

/// `last_named_fn` over the whole tree, in code.
fn last_named_fn_exec(ast: &Ast, name: &Vec<char>) -> (r: Option<usize>)
    requires
        ast.wf(),
    ensures
        match r {
            Some(f) => f < ast.nodes@.len() && last_named_fn(*ast, name@, ast.nodes@.len() as int) == Some(
                f as int,
            ),
            None => last_named_fn(*ast, name@, ast.nodes@.len() as int) is None,
        },
{
    let mut n = ast.nodes.len();
    while n > 0
        invariant
            ast.wf(),
            n <= ast.nodes@.len(),
            last_named_fn(*ast, name@, ast.nodes@.len() as int) == last_named_fn(*ast, name@, n as int),
        decreases n,
    {
        let f = n - 1;
        let hit = is_function_exec(ast, f) && match ast.child_of(f, "id") {
            Some(id) => match ident_name_exec(ast, id) {
                Some(t) => eq_chars(&t, name),
                None => false,
            },
            None => false,
        };
        if hit {
            return Some(f);
        }
        n = f;
    }
    None
}

fn param_optional_exec(ast: &Ast, p: usize) -> (b: bool)
    requires
        ast.wf(),
        p < ast.nodes@.len(),
    ensures
        b == param_optional(*ast, p as int),
{
    ast.is_kind(p, "AssignmentPattern") || ast.flag_of(p, "optional") || (ast.is_kind(p, "TSParameterProperty")
        && match ast.child_of(p, "parameter") {
        Some(q) => ast.is_kind(q, "AssignmentPattern") || ast.flag_of(q, "optional"),
        None => false,
    })
}

/// The parameter counts of function `f`: (required, total, has rest).
fn signature(ast: &Ast, f: usize) -> (r: (usize, usize, bool))
    requires
        ast.wf(),
        f < ast.nodes@.len(),
    ensures
        r.0 as int == required_params(*ast, f as int),
        r.1 as int == total_params(*ast, f as int),
        r.2 == has_rest(*ast, f as int),
{
    let ps = ast.children_in(f, "params");
    let rest = ps.len() > 0 && ast.is_kind(ps[ps.len() - 1], "RestElement");
    let skip: usize = if ps.len() > 0 && is_ident_exec(ast, ps[0], "this") {
        1
    } else {
        0
    };
    proof {
        if skip == 1 && rest {
            assert(ps@.len() >= 2) by {
                if ps@.len() == 1 {
                    assert(ast.is(ps@[0] as int, "Identifier"@));
                    reveal_strlit("Identifier");
                    reveal_strlit("RestElement");
                    assert("Identifier"@[0] != "RestElement"@[0]);
                    assert(ast.is(ps@[ps@.len() - 1] as int, "RestElement"@));
                }
            }
        }
    }
    let total = ps.len() - skip - if rest {
        1
    } else {
        0
    };
    let mut required: usize = 0;
    let mut k: usize = 0;
    while k < total
        invariant
            ast.wf(),
            f < ast.nodes@.len(),
            ps@ == ast.field_children(f as int, "params"@),
            forall|m: int| 0 <= m < ps@.len() ==> #[trigger] ps@[m] < ast.nodes@.len(),
            skip as int == leading_skip(*ast, f as int),
            skip + total <= ps@.len(),
            k <= total,
            required <= k,
            required as int == required_among(*ast, f as int, k as int),
        decreases total - k,
    {
        if !param_optional_exec(ast, ps[skip + k]) {
            required = required + 1;
        }
        k = k + 1;
    }
    (required, total, rest)
}

fn arg_count_check(cx: &LintContext, i: usize) -> (d: Option<LintDiagnostic>)
    requires
        cx.wf(),
        i < cx.ast.nodes@.len(),
    ensures
        opt_diag(d) == arg_count_report(cx, i as int),
{
    let ast = &cx.ast;
    if !ast.is_kind(i, "CallExpression") {
        return None;
    }
    let c = match ast.child_of(i, "callee") {
        Some(c) => c,
        None => {
            return None;
        },
    };
    let name = match ident_name_exec(ast, c) {
        Some(n) => n,
        None => {
            return None;
        },
    };
    let f = match last_named_fn_exec(ast, &name) {
        Some(f) => f,
        None => {
            return None;
        },
    };
    let args = ast.children_in(i, "arguments").len();
    let (required, total, rest) = signature(ast, f);
    if args < required {
        let mut msg = chars_of("Function `");
        msg.append(&mut name.clone());
        msg.append(&mut chars_of("` expects at least "));
        msg.append(&mut decimal_chars(required));
        msg.append(&mut chars_of(" argument(s), but was called with "));
        msg.append(&mut decimal_chars(args));
        proof {
            assert(msg@ =~= too_few_message(name@, required as nat, args as nat));
        }
        Some(cx.node_diagnostic_with_context("no-wrong-arg-count", &msg, i, Severity::Error, "CallExpression", Some(name)))
    } else if !rest && args > total {
        let mut msg = chars_of("Function `");
        msg.append(&mut name.clone());
        msg.append(&mut chars_of("` expects at most "));
        msg.append(&mut decimal_chars(total));
        msg.append(&mut chars_of(" argument(s), but was called with "));
        msg.append(&mut decimal_chars(args));
        proof {
            assert(msg@ =~= too_many_message(name@, total as nat, args as nat));
        }
        Some(cx.node_diagnostic_with_context("no-wrong-arg-count", &msg, i, Severity::Error, "CallExpression", Some(name)))
    } else {
        None
    }
}

impl NoWrongArgCount {
    pub fn name(&self) -> (r: &'static str)
        ensures
            r@ == "no-wrong-arg-count"@,
    {
        "no-wrong-arg-count"
    }

    /// One error per call whose argument count misses the callee's
    /// same-file declaration, in node order.
    pub fn run(&self, cx: &LintContext) -> (r: Vec<LintDiagnostic>)
        requires
            cx.wf(),
        ensures
            views(r@) == reports(cx.ast.nodes@.len() as int, arg_count_reports(cx)),
    {
        let check = |i: usize| -> (d: Option<LintDiagnostic>)
            requires
                cx.wf(),
                i < cx.ast.nodes@.len(),
            ensures
                opt_diag(d) == arg_count_report(cx, i as int),
        { arg_count_check(cx, i) };
        scan_nodes(cx, check, Ghost(arg_count_reports(cx)))
    }
}

} // verus!
