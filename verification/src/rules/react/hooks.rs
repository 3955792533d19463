//! React hook rules: effects that derive state, fetch, cascade updates or
//! wrap event handlers; state initialized from props or eagerly; many
//! `useState` hooks; non-functional updates; unstable dependencies.
use vstd::prelude::*;

use crate::ast::{wf_nodes, Ast};
use crate::engine::{any_node, any_node_exec, count_nodes, count_nodes_exec, gated, opt_diag, reports, scan_nodes,
    views, DiagView, LintContext};
use crate::estree::{ident_name, ident_name_exec, nearest_ancestor, nearest_ancestor_exec, nth_child, nth_child_exec,
    unparen, unparen_exec};
use crate::frontend::ReferenceFact;
use crate::lint::{LintDiagnostic, Severity};
use crate::project::ProjectInfo;
use crate::rules::no_missing_return::{statements, statements_exec};
use crate::rules::react::helpers::{
    callee_static_name, callee_static_name_exec, component_name, dependency_hooks, file_uses_react,
    file_uses_react_exec, hook_call, hook_call_exec, is_reference, is_reference_exec, one_of, prefixed_upper,
    span_within,
};
use crate::rules::server::helpers::{argument, argument_exec, callee_name, callee_name_exec, span_within_exec};
use crate::text::{chars_of, eq_str, lower_char, lower_char_exec, starts_with, starts_with_str};

verus! {

// ── Reading hook calls ─────────────────────────────────────

/// The effect hooks.
pub open spec fn effect_hooks() -> Seq<Seq<char>> {
    seq!["useEffect"@, "useLayoutEffect"@]
}

/// The first argument of call `i`, when it is a function written in place.
pub open spec fn effect_callback(ast: Ast, i: int) -> Option<int> {
    match nth_child(ast, i, "arguments"@, 0) {
        Some(a) => if ast.is(a, "ArrowFunctionExpression"@) || ast.is(a, "FunctionExpression"@) {
            Some(a)
        } else {
            None
        },
        None => None,
    }
}

/// The second argument of call `i`, when it is an array literal.
pub open spec fn dependency_array(ast: Ast, i: int) -> Option<int> {
    match nth_child(ast, i, "arguments"@, 1) {
        Some(d) => if ast.is(d, "ArrayExpression"@) {
            Some(d)
        } else {
            None
        },
        None => None,
    }
}

/// For an effect call `i` with a callback and a dependency array: the
/// callback, its body and the array.
#[verifier::opaque]
pub open spec fn effect_parts(ast: Ast, i: int) -> Option<(int, int, int)> {
    if hook_call(ast, i, effect_hooks()) {
        match (effect_callback(ast, i), dependency_array(ast, i)) {
            (Some(cb), Some(d)) => match ast.child(cb, "body"@) {
                Some(b) => Some((cb, b, d)),
                None => None,
            },
            _ => None,
        }
    } else {
        None
    }
}

/// Callback `cb` has an expression body, `() => expr`: one statement, the expression.
pub open spec fn expression_body(ast: Ast, cb: int) -> bool {
    ast.is(cb, "ArrowFunctionExpression"@) && ast.flag(cb, "expression"@)
}

/// The expression of the only statement of callback `cb`'s body `b`, when
/// that statement is an expression statement.
pub open spec fn sole_expression(ast: Ast, cb: int, b: int) -> Option<int> {
    if expression_body(ast, cb) {
        Some(b)
    } else {
        let ss = statements(ast, b);
        if ss.len() == 1 && ast.is(ss[0] as int, "ExpressionStatement"@) {
            ast.child(ss[0] as int, "expression"@)
        } else {
            None
        }
    }
}

/// The name of the state setter call `i` calls: `setX(...)`.
#[verifier::opaque]
pub open spec fn setter_name(ast: Ast, i: int) -> Option<Seq<char>> {
    if ast.is(i, "CallExpression"@) {
        match ast.child(i, "callee"@) {
            Some(c) => match ident_name(ast, unparen(ast, c)) {
                Some(n) => if prefixed_upper(n, "set"@) {
                    Some(n)
                } else {
                    None
                },
                None => None,
            },
            None => None,
        }
    } else {
        None
    }
}

/// The setter call that is the whole body of callback `cb`.
pub open spec fn sole_setter_call(ast: Ast, cb: int, b: int) -> Option<int> {
    match sole_expression(ast, cb, b) {
        Some(e) => {
            let u = unparen(ast, e);
            if setter_name(ast, u) is Some {
                Some(u)
            } else {
                None
            }
        },
        None => None,
    }
}

/// Node `k` is an identifier reference within node `s`.
pub open spec fn ref_within(ast: Ast, refs: Seq<ReferenceFact>, s: int, k: int) -> bool {
    is_reference(ast, refs, k) && span_within(ast, s, k)
}

/// Some identifier reference within node `s` is named `name`.
pub open spec fn refs_name_within(ast: Ast, refs: Seq<ReferenceFact>, s: int, name: Seq<char>) -> bool {
    any_node(ast.nodes@.len() as int, |k: int| ref_within(ast, refs, s, k) && ident_name(ast, k) == Some(name))
}

/// The name a dependency-array element stands for: `a` or `a.b.c`.
#[verifier::opaque]
pub open spec fn dependency_element_name(ast: Ast, e: int) -> Option<Seq<char>> {
    if ast.is(e, "Identifier"@) || ast.is(e, "MemberExpression"@) {
        callee_static_name(ast, e)
    } else {
        None
    }
}

/// Dependency array `d` names `name`.
pub open spec fn deps_have_name(ast: Ast, d: int, name: Seq<char>) -> bool {
    exists|k: int|
        0 <= k < ast.field_children(d, "elements"@).len() && #[trigger] dependency_element_name(
            ast,
            ast.field_children(d, "elements"@)[k] as int,
        ) == Some(name)
}

/// Some element of dependency array `d` names something.
pub open spec fn deps_named(ast: Ast, d: int) -> bool {
    exists|k: int|
        0 <= k < ast.field_children(d, "elements"@).len() && #[trigger] dependency_element_name(
            ast,
            ast.field_children(d, "elements"@)[k] as int,
        ) is Some
}

fn effect_parts_exec(ast: &Ast, i: usize) -> (r: Option<(usize, usize, usize)>)
    requires
        ast.wf(),
        i < ast.nodes@.len(),
    ensures
        match r {
            Some((cb, b, d)) => cb < ast.nodes@.len() && b < ast.nodes@.len() && d < ast.nodes@.len() && effect_parts(
                *ast,
                i as int,
            ) == Some((cb as int, b as int, d as int)),
            None => effect_parts(*ast, i as int) is None,
        },
{
    reveal(effect_parts);
    let hooks = ["useEffect", "useLayoutEffect"];
    assert(hooks@.map_values(|n: &str| n@) =~= effect_hooks());
    if !hook_call_exec(ast, i, &hooks) {
        return None;
    }
    let cb = match nth_child_exec(ast, i, "arguments", 0) {
        Some(a) => if ast.is_kind(a, "ArrowFunctionExpression") || ast.is_kind(a, "FunctionExpression") {
            a
        } else {
            return None;
        },
        None => {
            return None;
        },
    };
    let d = match nth_child_exec(ast, i, "arguments", 1) {
        Some(d) => if ast.is_kind(d, "ArrayExpression") {
            d
        } else {
            return None;
        },
        None => {
            return None;
        },
    };
    match ast.child_of(cb, "body") {
        Some(b) => Some((cb, b, d)),
        None => None,
    }
}

fn expression_body_exec(ast: &Ast, cb: usize) -> (b: bool)
    requires
        cb < ast.nodes@.len(),
    ensures
        b == expression_body(*ast, cb as int),
{
    ast.is_kind(cb, "ArrowFunctionExpression") && ast.flag_of(cb, "expression")
}

fn setter_name_exec(ast: &Ast, i: usize) -> (r: Option<Vec<char>>)
    requires
        ast.wf(),
        i < ast.nodes@.len(),
    ensures
        crate::estree::opt_seq(r) == setter_name(*ast, i as int),
        r matches Some(n) ==> n@.len() > 3,
{
    reveal(setter_name);
    if !ast.is_kind(i, "CallExpression") {
        return None;
    }
    match ast.child_of(i, "callee") {
        Some(c) => match ident_name_exec(ast, unparen_exec(ast, c)) {
            Some(n) => {
                proof {
                    reveal_strlit("set");
                }
                if starts_with_str(&n, "set") && n.len() > 3 && 'A' <= n[3] && n[3] <= 'Z' {
                    Some(n)
                } else {
                    None
                }
            },
            None => None,
        },
        None => None,
    }
}

fn sole_setter_call_exec(ast: &Ast, cb: usize, b: usize) -> (r: Option<usize>)
    requires
        ast.wf(),
        cb < ast.nodes@.len(),
        b < ast.nodes@.len(),
    ensures
        match r {
            Some(s) => s < ast.nodes@.len() && sole_setter_call(*ast, cb as int, b as int) == Some(s as int),
            None => sole_setter_call(*ast, cb as int, b as int) is None,
        },
{
    let e = if expression_body_exec(ast, cb) {
        b
    } else {
        let ss = statements_exec(ast, b);
        if ss.len() == 1 && ast.is_kind(ss[0], "ExpressionStatement") {
            match ast.child_of(ss[0], "expression") {
                Some(e) => e,
                None => {
                    return None;
                },
            }
        } else {
            return None;
        }
    };
    let u = unparen_exec(ast, e);
    if setter_name_exec(ast, u).is_some() {
        Some(u)
    } else {
        None
    }
}

fn ref_within_exec(ast: &Ast, refs: &Vec<ReferenceFact>, s: usize, k: usize) -> (b: bool)
    requires
        s < ast.nodes@.len(),
        k < ast.nodes@.len(),
    ensures
        b == ref_within(*ast, refs@, s as int, k as int),
{
    is_reference_exec(ast, refs, k) && span_within_exec(ast, s, k)
}

fn refs_name_within_exec(ast: &Ast, refs: &Vec<ReferenceFact>, s: usize, name: &Vec<char>) -> (b: bool)
    requires
        ast.wf(),
        s < ast.nodes@.len(),
    ensures
        b == refs_name_within(*ast, refs@, s as int, name@),
{
    let test = |k: usize| -> (b: bool)
        requires
            wf_nodes(ast.nodes@),
            s < ast.nodes@.len(),
            k < ast.nodes@.len(),
        ensures
            b == (ref_within(*ast, refs@, s as int, k as int) && ident_name(*ast, k as int) == Some(name@)),
    {
        ref_within_exec(ast, refs, s, k) && match ident_name_exec(ast, k) {
            Some(n) => crate::text::eq_chars(&n, name),
            None => false,
        }
    };
    any_node_exec(
        ast.nodes.len(),
        test,
        Ghost(|k: int| ref_within(*ast, refs@, s as int, k) && ident_name(*ast, k) == Some(name@)),
    )
}

fn dependency_element_name_exec(ast: &Ast, e: usize) -> (r: Option<Vec<char>>)
    requires
        ast.wf(),
        e < ast.nodes@.len(),
    ensures
        crate::estree::opt_seq(r) == dependency_element_name(*ast, e as int),
{
    reveal(dependency_element_name);
    if ast.is_kind(e, "Identifier") || ast.is_kind(e, "MemberExpression") {
        callee_static_name_exec(ast, e)
    } else {
        None
    }
}

fn deps_have_name_exec(ast: &Ast, d: usize, name: &Vec<char>) -> (b: bool)
    requires
        ast.wf(),
        d < ast.nodes@.len(),
    ensures
        b == deps_have_name(*ast, d as int, name@),
{
    let es = ast.children_in(d, "elements");
    let mut k: usize = 0;
    while k < es.len()
        invariant
            ast.wf(),
            es@ == ast.field_children(d as int, "elements"@),
            forall|q: int| 0 <= q < es@.len() ==> #[trigger] es@[q] < ast.nodes@.len(),
            k <= es@.len(),
            forall|q: int| 0 <= q < k ==> #[trigger] dependency_element_name(*ast, es@[q] as int) != Some(name@),
        decreases es@.len() - k,
    {
        let hit = match dependency_element_name_exec(ast, es[k]) {
            Some(n) => crate::text::eq_chars(&n, name),
            None => false,
        };
        if hit {
            assert(dependency_element_name(*ast, es@[k as int] as int) == Some(name@));
            return true;
        }
        k = k + 1;
    }
    false
}

fn deps_named_exec(ast: &Ast, d: usize) -> (b: bool)
    requires
        ast.wf(),
        d < ast.nodes@.len(),
    ensures
        b == deps_named(*ast, d as int),
{
    let es = ast.children_in(d, "elements");
    let mut k: usize = 0;
    while k < es.len()
        invariant
            ast.wf(),
            es@ == ast.field_children(d as int, "elements"@),
            forall|q: int| 0 <= q < es@.len() ==> #[trigger] es@[q] < ast.nodes@.len(),
            k <= es@.len(),
            forall|q: int| 0 <= q < k ==> #[trigger] dependency_element_name(*ast, es@[q] as int) is None,
        decreases es@.len() - k,
    {
        if dependency_element_name_exec(ast, es[k]).is_some() {
            assert(dependency_element_name(*ast, es@[k as int] as int) is Some);
            return true;
        }
        k = k + 1;
    }
    false
}

// ── Component functions and their parameters ───────────────

/// Node `f` is a function declared or named with an upper-case letter.
pub open spec fn named_component(ast: Ast, f: int) -> bool {
    (ast.is(f, "FunctionDeclaration"@) || ast.is(f, "FunctionExpression"@)) && match ast.child(f, "id"@) {
        Some(id) => match ident_name(ast, id) {
            Some(n) => component_name(n),
            None => false,
        },
        None => false,
    }
}

/// Node `f` is an arrow function assigned to a name with an upper-case letter.
pub open spec fn declared_component(ast: Ast, f: int) -> bool {
    ast.is(f, "ArrowFunctionExpression"@) && {
        let p = ast.nodes@[f].parent as int;
        ast.is(p, "VariableDeclarator"@) && match ast.child(p, "id"@) {
            Some(id) => match ident_name(ast, id) {
                Some(n) => component_name(n),
                None => false,
            },
            None => false,
        }
    }
}

/// Node `f` is a component: a function named with an upper-case letter, or
/// an arrow function assigned to such a name.
#[verifier::opaque]
pub open spec fn component_function(ast: Ast, f: int) -> bool {
    named_component(ast, f) || declared_component(ast, f)
}

/// Binding pattern `p` binds `name`.
pub open spec fn pattern_binds(ast: Ast, p: int, name: Seq<char>) -> bool
    decreases 2 * (ast.nodes@.len() - p) + 1, 0int,
{
    if !(0 <= p < ast.nodes@.len()) {
        false
    } else if ast.is(p, "Identifier"@) {
        ident_name(ast, p) == Some(name)
    } else if ast.is(p, "ObjectPattern"@) {
        any_pattern_binds(ast, p, ast.field_children(p, "properties"@), 0, name)
    } else if ast.is(p, "ArrayPattern"@) {
        any_pattern_binds(ast, p, ast.field_children(p, "elements"@), 0, name)
    } else {
        let key = if ast.is(p, "AssignmentPattern"@) {
            "left"@
        } else if ast.is(p, "RestElement"@) {
            "argument"@
        } else if ast.is(p, "TSParameterProperty"@) {
            "parameter"@
        } else if ast.is(p, "Property"@) {
            "value"@
        } else {
            Seq::empty()
        };
        key.len() > 0 && match ast.child(p, key) {
            Some(c) => p < c < ast.nodes@.len() && pattern_binds(ast, c, name),
            None => false,
        }
    }
}

/// Some pattern among the children `list[k..]` of node `p` binds `name`.
pub open spec fn any_pattern_binds(ast: Ast, p: int, list: Seq<usize>, k: int, name: Seq<char>) -> bool
    decreases 2 * (ast.nodes@.len() - p), list.len() - k,
{
    if !(0 <= k < list.len()) {
        false
    } else {
        (p < list[k] < ast.nodes@.len() && pattern_binds(ast, list[k] as int, name)) || any_pattern_binds(
            ast,
            p,
            list,
            k + 1,
            name,
        )
    }
}

/// Component `f`'s parameters bind `name`, or `name` is `props`.
pub open spec fn component_binds(ast: Ast, f: int, name: Seq<char>) -> bool {
    name == "props"@ || any_pattern_binds(ast, f, ast.field_children(f, "params"@), 0, name)
}

fn component_name_exec(ast: &Ast, id: usize) -> (b: bool)
    requires
        ast.wf(),
        id < ast.nodes@.len(),
    ensures
        b == match ident_name(*ast, id as int) {
            Some(n) => component_name(n),
            None => false,
        },
{
    match ident_name_exec(ast, id) {
        Some(n) => n.len() > 0 && 'A' <= n[0] && n[0] <= 'Z',
        None => false,
    }
}

fn named_component_exec(ast: &Ast, f: usize) -> (b: bool)
    requires
        ast.wf(),
        f < ast.nodes@.len(),
    ensures
        b == named_component(*ast, f as int),
{
    (ast.is_kind(f, "FunctionDeclaration") || ast.is_kind(f, "FunctionExpression")) && match ast.child_of(f, "id") {
        Some(id) => component_name_exec(ast, id),
        None => false,
    }
}

fn declared_component_exec(ast: &Ast, f: usize) -> (b: bool)
    requires
        ast.wf(),
        f < ast.nodes@.len(),
    ensures
        b == declared_component(*ast, f as int),
{
    if !ast.is_kind(f, "ArrowFunctionExpression") {
        return false;
    }
    let p = ast.nodes[f].parent;
    ast.is_kind(p, "VariableDeclarator") && match ast.child_of(p, "id") {
        Some(id) => component_name_exec(ast, id),
        None => false,
    }
}

fn component_function_exec(ast: &Ast, f: usize) -> (b: bool)
    requires
        ast.wf(),
        f < ast.nodes@.len(),
    ensures
        b == component_function(*ast, f as int),
{
    reveal(component_function);
    named_component_exec(ast, f) || declared_component_exec(ast, f)
}

fn pattern_binds_exec(ast: &Ast, p: usize, name: &Vec<char>) -> (b: bool)
    requires
        ast.wf(),
        p < ast.nodes@.len(),
    ensures
        b == pattern_binds(*ast, p as int, name@),
    decreases 2 * (ast.nodes@.len() - p) + 1, 0int,
{
    if ast.is_kind(p, "Identifier") {
        return match ident_name_exec(ast, p) {
            Some(n) => crate::text::eq_chars(&n, name),
            None => false,
        };
    }
    if ast.is_kind(p, "ObjectPattern") {
        let list = ast.children_in(p, "properties");
        return any_pattern_binds_exec(ast, p, &list, 0, name);
    }
    if ast.is_kind(p, "ArrayPattern") {
        let list = ast.children_in(p, "elements");
        return any_pattern_binds_exec(ast, p, &list, 0, name);
    }
    let key = if ast.is_kind(p, "AssignmentPattern") {
        "left"
    } else if ast.is_kind(p, "RestElement") {
        "argument"
    } else if ast.is_kind(p, "TSParameterProperty") {
        "parameter"
    } else if ast.is_kind(p, "Property") {
        "value"
    } else {
        return false;
    };
    proof {
        reveal_strlit("left");
        reveal_strlit("argument");
        reveal_strlit("parameter");
        reveal_strlit("value");
    }
    match ast.child_of(p, key) {
        Some(c) => pattern_binds_exec(ast, c, name),
        None => false,
    }
}

fn any_pattern_binds_exec(ast: &Ast, p: usize, list: &Vec<usize>, k: usize, name: &Vec<char>) -> (b: bool)
    requires
        ast.wf(),
        p < ast.nodes@.len(),
        k <= list@.len(),
    ensures
        b == any_pattern_binds(*ast, p as int, list@, k as int, name@),
    decreases 2 * (ast.nodes@.len() - p), list@.len() - k,
{
    if k >= list.len() {
        return false;
    }
    let c = list[k];
    let here = p < c && c < ast.nodes.len() && pattern_binds_exec(ast, c, name);
    here || any_pattern_binds_exec(ast, p, list, k + 1, name)
}

fn component_binds_exec(ast: &Ast, f: usize, name: &Vec<char>) -> (b: bool)
    requires
        ast.wf(),
        f < ast.nodes@.len(),
    ensures
        b == component_binds(*ast, f as int, name@),
{
    if eq_str(name, "props") {
        return true;
    }
    let params = ast.children_in(f, "params");
    any_pattern_binds_exec(ast, f, &params, 0, name)
}

// ── The rules ──────────────────────────────────────────────

/// The fetch-like calls an effect should not make.
pub open spec fn effect_fetch_names() -> Seq<Seq<char>> {
    seq!["fetch"@, "axios"@, "axios.get"@, "axios.post"@, "axios.request"@, "ky"@, "ky.get"@]
}

/// The state a setter sets: `count` for `setCount`.
pub open spec fn state_name(setter: Seq<char>) -> Seq<char> {
    seq![lower_char(setter[3])] + setter.subrange(4, setter.len() as int)
}

/// Some identifier reference lies within node `a`.
pub open spec fn refs_within(ast: Ast, refs: Seq<ReferenceFact>, a: int) -> bool {
    any_node(ast.nodes@.len() as int, |k: int| ref_within(ast, refs, a, k))
}

/// Every identifier reference within node `a` is named in dependency array `d`.
pub open spec fn refs_all_deps(ast: Ast, refs: Seq<ReferenceFact>, a: int, d: int) -> bool {
    forall|k: int|
        0 <= k < ast.nodes@.len() && #[trigger] ref_within(ast, refs, a, k) ==> match ident_name(ast, k) {
            Some(x) => deps_have_name(ast, d, x),
            None => true,
        }
}

/// Effect call `i` only sets state from its dependencies: its body is one
/// setter call whose argument reads nothing but named dependencies.
pub open spec fn derived_state_effect(ast: Ast, refs: Seq<ReferenceFact>, i: int) -> bool {
    match effect_parts(ast, i) {
        Some((cb, b, d)) => match sole_setter_call(ast, cb, b) {
            Some(s) => deps_named(ast, d) && match argument(ast, s, 0) {
                Some(a) => refs_within(ast, refs, a) && refs_all_deps(ast, refs, a, d),
                None => false,
            },
            None => false,
        },
        None => false,
    }
}

/// Node `k`, within node `b`, calls a fetch-like function.
pub open spec fn fetch_within(ast: Ast, b: int, k: int) -> bool {
    ast.is(k, "CallExpression"@) && span_within(ast, b, k) && match callee_name(ast, k) {
        Some(n) => effect_fetch_names().contains(n),
        None => false,
    }
}

/// Node `k` is a setter call within node `b`.
pub open spec fn setter_within(ast: Ast, b: int, k: int) -> bool {
    span_within(ast, b, k) && setter_name(ast, k) is Some
}

/// Node `k`, within node `c`, calls a setter or an `on...` handler.
pub open spec fn handler_call_within(ast: Ast, c: int, k: int) -> bool {
    ast.is(k, "CallExpression"@) && span_within(ast, c, k) && (setter_name(ast, k) is Some || match callee_name(
        ast,
        k,
    ) {
        Some(n) => starts_with(n, "on"@),
        None => false,
    })
}

/// The only statement of callback `cb`'s block body `b`, when it is an `if`.
pub open spec fn sole_if(ast: Ast, cb: int, b: int) -> Option<int> {
    let ss = statements(ast, b);
    if !expression_body(ast, cb) && ss.len() == 1 && ast.is(ss[0] as int, "IfStatement"@) {
        Some(ss[0] as int)
    } else {
        None
    }
}

/// `if` statement `s` tests a reference named `dn` and its branch calls a
/// setter or a handler.
pub open spec fn handler_if(ast: Ast, refs: Seq<ReferenceFact>, s: int, dn: Seq<char>) -> bool {
    match (ast.child(s, "test"@), ast.child(s, "consequent"@)) {
        (Some(t), Some(c)) => refs_name_within(ast, refs, t, dn) && any_node(
            ast.nodes@.len() as int,
            |k: int| handler_call_within(ast, c, k),
        ),
        _ => false,
    }
}

/// Effect call `i` wraps an event: one dependency, and a body that is one
/// `if` testing it whose branch calls a setter or a handler.
pub open spec fn effect_event_handler(ast: Ast, refs: Seq<ReferenceFact>, i: int) -> bool {
    match effect_parts(ast, i) {
        Some((cb, b, d)) => {
            let es = ast.field_children(d, "elements"@);
            es.len() == 1 && match (sole_if(ast, cb, b), dependency_element_name(ast, es[0] as int)) {
                (Some(s), Some(dn)) => handler_if(ast, refs, s, dn),
                _ => false,
            }
        },
        None => false,
    }
}

/// Argument `a` reads a parameter of component `f`: a parameter itself, or
/// a member of one.
pub open spec fn reads_param(ast: Ast, f: int, a: int) -> bool {
    if ast.is(a, "Identifier"@) {
        match ident_name(ast, a) {
            Some(n) => component_binds(ast, f, n),
            None => false,
        }
    } else if ast.is(a, "MemberExpression"@) && !crate::rules::server::architecture::private_field(ast, a) {
        match ast.child(a, "object"@) {
            Some(o) => match callee_static_name(ast, o) {
                Some(n) => component_binds(ast, f, n),
                None => false,
            },
            None => false,
        }
    } else {
        false
    }
}

/// Node `k`, within node `f`, calls `useState`.
pub open spec fn use_state_within(ast: Ast, f: int, k: int) -> bool {
    span_within(ast, f, k) && ast.is(k, "CallExpression"@) && callee_name(ast, k) == Some("useState"@)
}

/// Array element `e` is a literal that is new on every render.
pub open spec fn unstable_element(ast: Ast, e: int) -> bool {
    ||| ast.is(e, "ArrayExpression"@)
    ||| ast.is(e, "ObjectExpression"@)
    ||| ast.is(e, "ArrowFunctionExpression"@)
    ||| ast.is(e, "FunctionExpression"@)
    ||| ast.is(e, "NewExpression"@)
}

/// Effect call `i` fetches: a fetch-like call lies within its callback's body.
pub open spec fn fetch_in_effect(ast: Ast, i: int) -> bool {
    match effect_parts(ast, i) {
        Some((cb, b, d)) => any_node(ast.nodes@.len() as int, |k: int| fetch_within(ast, b, k)),
        None => false,
    }
}

/// Effect call `i` calls three or more setters in its callback's body.
pub open spec fn cascading_set_state(ast: Ast, i: int) -> bool {
    match effect_parts(ast, i) {
        Some((cb, b, d)) => count_nodes(ast.nodes@.len() as int, |k: int| setter_within(ast, b, k)) >= 3,
        None => false,
    }
}

/// Node `i` is `useState(...)` inside a component, initialized from a parameter.
pub open spec fn derived_use_state(ast: Ast, i: int) -> bool {
    ast.is(i, "CallExpression"@) && callee_name(ast, i) == Some("useState"@) && match (
        nearest_ancestor(ast, i, |f: int| component_function(ast, f)),
        argument(ast, i, 0),
    ) {
        (Some(f), Some(a)) => reads_param(ast, f, a),
        _ => false,
    }
}

/// Node `i` is a component that calls `useState` five or more times.
pub open spec fn prefer_use_reducer(ast: Ast, i: int) -> bool {
    component_function(ast, i) && count_nodes(ast.nodes@.len() as int, |k: int| use_state_within(ast, i, k)) >= 5
}

/// Node `i` is `useState(f(...))`: an initial value computed by a call.
pub open spec fn lazy_state_init(ast: Ast, i: int) -> bool {
    ast.is(i, "CallExpression"@) && callee_name(ast, i) == Some("useState"@) && match argument(ast, i, 0) {
        Some(a) => ast.is(a, "CallExpression"@),
        None => false,
    }
}

/// Node `i` is `setX(...)` with a value (no updater function) that reads `x`.
pub open spec fn functional_set_state(ast: Ast, refs: Seq<ReferenceFact>, i: int) -> bool {
    match (setter_name(ast, i), argument(ast, i, 0)) {
        (Some(s), Some(a)) => !(ast.is(a, "ArrowFunctionExpression"@) || ast.is(a, "FunctionExpression"@))
            && refs_name_within(ast, refs, a, state_name(s)),
        _ => false,
    }
}

/// Some element of array `d` is a literal that is new on every render.
pub open spec fn unstable_array(ast: Ast, d: int) -> bool {
    exists|k: int|
        0 <= k < ast.field_children(d, "elements"@).len() && #[trigger] unstable_element(
            ast,
            ast.field_children(d, "elements"@)[k] as int,
        )
}

/// Node `i` is a dependency hook call whose dependency array holds a literal.
pub open spec fn unstable_deps(ast: Ast, i: int) -> bool {
    hook_call(ast, i, dependency_hooks()) && match dependency_array(ast, i) {
        Some(d) => unstable_array(ast, d),
        None => false,
    }
}

/// The hook rules, told apart by what each inspects.
#[derive(Debug, Clone, Copy, PartialEq, Eq, Structural)]
pub enum HookRule {
    DerivedStateEffect,
    FetchInEffect,
    CascadingSetState,
    EffectEventHandler,
    DerivedUseState,
    PreferUseReducer,
    LazyStateInit,
    FunctionalSetState,
    UnstableDeps,
}

impl HookRule {
    pub open spec fn rule(self) -> Seq<char> {
        match self {
            HookRule::DerivedStateEffect => "react/no-derived-state-effect"@,
            HookRule::FetchInEffect => "react/no-fetch-in-effect"@,
            HookRule::CascadingSetState => "react/no-cascading-set-state"@,
            HookRule::EffectEventHandler => "react/no-effect-event-handler"@,
            HookRule::DerivedUseState => "react/no-derived-use-state"@,
            HookRule::PreferUseReducer => "react/prefer-use-reducer"@,
            HookRule::LazyStateInit => "react/lazy-state-init"@,
            HookRule::FunctionalSetState => "react/functional-set-state"@,
            HookRule::UnstableDeps => "react/unstable-deps"@,
        }
    }

    pub open spec fn message(self) -> Seq<char> {
        match self {
            HookRule::DerivedStateEffect => "Avoid deriving state from effect dependencies; derive it during render instead"@,
            HookRule::FetchInEffect => "Move data fetching out of `useEffect` when possible"@,
            HookRule::CascadingSetState => "Avoid cascading multiple state updates inside a single effect"@,
            HookRule::EffectEventHandler => "Avoid using `useEffect` as an event handler wrapper"@,
            HookRule::DerivedUseState => "Avoid initializing state directly from component props"@,
            HookRule::PreferUseReducer => "Consider `useReducer` when a component owns many `useState` hooks"@,
            HookRule::LazyStateInit => "Wrap expensive `useState` initialization in a lazy initializer"@,
            HookRule::FunctionalSetState => "Use functional `setState` updates when the next value depends on previous state"@,
            HookRule::UnstableDeps => "Avoid object, array, or function literals in hook dependency arrays"@,
        }
    }

    /// The rule flags node `i`.
    pub open spec fn flags(self, ast: Ast, refs: Seq<ReferenceFact>, i: int) -> bool {
        match self {
            HookRule::DerivedStateEffect => derived_state_effect(ast, refs, i),
            HookRule::FetchInEffect => fetch_in_effect(ast, i),
            HookRule::CascadingSetState => cascading_set_state(ast, i),
            HookRule::EffectEventHandler => effect_event_handler(ast, refs, i),
            HookRule::DerivedUseState => derived_use_state(ast, i),
            HookRule::PreferUseReducer => prefer_use_reducer(ast, i),
            HookRule::LazyStateInit => lazy_state_init(ast, i),
            HookRule::FunctionalSetState => functional_set_state(ast, refs, i),
            HookRule::UnstableDeps => unstable_deps(ast, i),
        }
    }

    /// What the rule reports at node `i`: a warning there when the file uses
    /// React and the rule flags the node.
    pub open spec fn report(self, cx: &LintContext, refs: Seq<ReferenceFact>, i: int) -> Option<DiagView> {
        if crate::rules::react::performance::uses_react_cx(cx) && self.flags(cx.ast, refs, i) {
            Some(cx.at_node(self.rule(), self.message(), i, Severity::Warning))
        } else {
            None
        }
    }

    pub open spec fn reports_fn(self, cx: &LintContext, refs: Seq<ReferenceFact>) -> spec_fn(int) -> Option<
        DiagView,
    > {
        |i: int| self.report(cx, refs, i)
    }

    /// The rule's name.
    pub fn name(&self) -> (r: &'static str)
        ensures
            r@ == self.rule(),
    {
        match self {
            HookRule::DerivedStateEffect => "react/no-derived-state-effect",
            HookRule::FetchInEffect => "react/no-fetch-in-effect",
            HookRule::CascadingSetState => "react/no-cascading-set-state",
            HookRule::EffectEventHandler => "react/no-effect-event-handler",
            HookRule::DerivedUseState => "react/no-derived-use-state",
            HookRule::PreferUseReducer => "react/prefer-use-reducer",
            HookRule::LazyStateInit => "react/lazy-state-init",
            HookRule::FunctionalSetState => "react/functional-set-state",
            HookRule::UnstableDeps => "react/unstable-deps",
        }
    }

    fn message_exec(&self) -> (r: &'static str)
        ensures
            r@ == self.message(),
    {
        match self {
            HookRule::DerivedStateEffect => "Avoid deriving state from effect dependencies; derive it during render instead",
            HookRule::FetchInEffect => "Move data fetching out of `useEffect` when possible",
            HookRule::CascadingSetState => "Avoid cascading multiple state updates inside a single effect",
            HookRule::EffectEventHandler => "Avoid using `useEffect` as an event handler wrapper",
            HookRule::DerivedUseState => "Avoid initializing state directly from component props",
            HookRule::PreferUseReducer => "Consider `useReducer` when a component owns many `useState` hooks",
            HookRule::LazyStateInit => "Wrap expensive `useState` initialization in a lazy initializer",
            HookRule::FunctionalSetState => "Use functional `setState` updates when the next value depends on previous state",
            HookRule::UnstableDeps => "Avoid object, array, or function literals in hook dependency arrays",
        }
    }

    fn flags_exec(&self, ast: &Ast, refs: &Vec<ReferenceFact>, i: usize) -> (b: bool)
        requires
            ast.wf(),
            i < ast.nodes@.len(),
        ensures
            b == self.flags(*ast, refs@, i as int),
    {
        match self {
            HookRule::DerivedStateEffect => derived_state_effect_exec(ast, refs, i),
            HookRule::FetchInEffect => fetch_in_effect_exec(ast, i),
            HookRule::CascadingSetState => cascading_exec(ast, i),
            HookRule::EffectEventHandler => effect_event_handler_exec(ast, refs, i),
            HookRule::DerivedUseState => derived_use_state_exec(ast, i),
            HookRule::PreferUseReducer => prefer_reducer_exec(ast, i),
            HookRule::LazyStateInit => lazy_state_exec(ast, i),
            HookRule::FunctionalSetState => functional_set_state_exec(ast, refs, i),
            HookRule::UnstableDeps => unstable_deps_exec(ast, i),
        }
    }

    /// In a React project, one warning per node the rule flags, in node order,
    /// when the file uses React.
    pub fn run(&self, cx: &LintContext, refs: &Vec<ReferenceFact>, project: &ProjectInfo) -> (r: Vec<LintDiagnostic>)
        requires
            cx.wf(),
        ensures
            views(r@) == gated(project.has_react, reports(cx.ast.nodes@.len() as int, self.reports_fn(cx, refs@))),
    {
        if !project.has_react {
            return Vec::new();
        }
        let uses_react = file_uses_react_exec(&cx.ast);
        let check = |i: usize| -> (d: Option<LintDiagnostic>)
            requires
                cx.wf(),
                i < cx.ast.nodes@.len(),
                uses_react == crate::rules::react::performance::uses_react_cx(cx),
            ensures
                opt_diag(d) == self.report(cx, refs@, i as int),
        {
            if uses_react && self.flags_exec(&cx.ast, refs, i) {
                Some(cx.node_diagnostic(self.name(), &chars_of(self.message_exec()), i, Severity::Warning))
            } else {
                None
            }
        };
        scan_nodes(cx, check, Ghost(self.reports_fn(cx, refs@)))
    }
}

fn derived_state_effect_exec(ast: &Ast, refs: &Vec<ReferenceFact>, i: usize) -> (b: bool)
    requires
        ast.wf(),
        i < ast.nodes@.len(),
    ensures
        b == derived_state_effect(*ast, refs@, i as int),
{
    let (cb, body, d) = match effect_parts_exec(ast, i) {
        Some(parts) => parts,
        None => {
            return false;
        },
    };
    let s = match sole_setter_call_exec(ast, cb, body) {
        Some(s) => s,
        None => {
            return false;
        },
    };
    if !deps_named_exec(ast, d) {
        return false;
    }
    let a = match argument_exec(ast, s, 0) {
        Some(a) => a,
        None => {
            return false;
        },
    };
    refs_within_exec(ast, refs, a) && refs_all_deps_exec(ast, refs, a, d)
}

fn refs_within_exec(ast: &Ast, refs: &Vec<ReferenceFact>, a: usize) -> (b: bool)
    requires
        ast.wf(),
        a < ast.nodes@.len(),
    ensures
        b == refs_within(*ast, refs@, a as int),
{
    let test = |k: usize| -> (r: bool)
        requires
            a < ast.nodes@.len(),
            k < ast.nodes@.len(),
        ensures
            r == ref_within(*ast, refs@, a as int, k as int),
    { ref_within_exec(ast, refs, a, k) };
    any_node_exec(ast.nodes.len(), test, Ghost(|k: int| ref_within(*ast, refs@, a as int, k)))
}

fn refs_all_deps_exec(ast: &Ast, refs: &Vec<ReferenceFact>, a: usize, d: usize) -> (b: bool)
    requires
        ast.wf(),
        a < ast.nodes@.len(),
        d < ast.nodes@.len(),
    ensures
        b == refs_all_deps(*ast, refs@, a as int, d as int),
{
    let mut k: usize = 0;
    while k < ast.nodes.len()
        invariant
            ast.wf(),
            a < ast.nodes@.len(),
            d < ast.nodes@.len(),
            k <= ast.nodes@.len(),
            forall|q: int|
                0 <= q < k && #[trigger] ref_within(*ast, refs@, a as int, q) ==> match ident_name(*ast, q) {
                    Some(x) => deps_have_name(*ast, d as int, x),
                    None => true,
                },
        decreases ast.nodes@.len() - k,
    {
        if ref_within_exec(ast, refs, a, k) {
            match ident_name_exec(ast, k) {
                Some(x) => {
                    if !deps_have_name_exec(ast, d, &x) {
                        assert(ref_within(*ast, refs@, a as int, k as int));
                        return false;
                    }
                },
                None => {},
            }
        }
        k = k + 1;
    }
    true
}

fn fetch_in_effect_exec(ast: &Ast, i: usize) -> (b: bool)
    requires
        ast.wf(),
        i < ast.nodes@.len(),
    ensures
        b == fetch_in_effect(*ast, i as int),
{
    let body = match effect_parts_exec(ast, i) {
        Some((_, body, _)) => body,
        None => {
            return false;
        },
    };
    let test = |k: usize| -> (r: bool)
        requires
            wf_nodes(ast.nodes@),
            body < ast.nodes@.len(),
            k < ast.nodes@.len(),
        ensures
            r == fetch_within(*ast, body as int, k as int),
    {
        let names = ["fetch", "axios", "axios.get", "axios.post", "axios.request", "ky", "ky.get"];
        assert(names@.map_values(|n: &str| n@) =~= effect_fetch_names());
        ast.is_kind(k, "CallExpression") && span_within_exec(ast, body, k) && match callee_name_exec(ast, k) {
            Some(n) => one_of(&n, &names),
            None => false,
        }
    };
    any_node_exec(ast.nodes.len(), test, Ghost(|k: int| fetch_within(*ast, body as int, k)))
}

fn cascading_exec(ast: &Ast, i: usize) -> (b: bool)
    requires
        ast.wf(),
        i < ast.nodes@.len(),
    ensures
        b == cascading_set_state(*ast, i as int),
{
    let body = match effect_parts_exec(ast, i) {
        Some((_, body, _)) => body,
        None => {
            return false;
        },
    };
    let test = |k: usize| -> (r: bool)
        requires
            wf_nodes(ast.nodes@),
            body < ast.nodes@.len(),
            k < ast.nodes@.len(),
        ensures
            r == setter_within(*ast, body as int, k as int),
    { span_within_exec(ast, body, k) && setter_name_exec(ast, k).is_some() };
    count_nodes_exec(ast.nodes.len(), test, Ghost(|k: int| setter_within(*ast, body as int, k))) >= 3
}

fn sole_if_exec(ast: &Ast, cb: usize, b: usize) -> (r: Option<usize>)
    requires
        ast.wf(),
        cb < ast.nodes@.len(),
        b < ast.nodes@.len(),
    ensures
        match r {
            Some(s) => s < ast.nodes@.len() && sole_if(*ast, cb as int, b as int) == Some(s as int),
            None => sole_if(*ast, cb as int, b as int) is None,
        },
{
    if expression_body_exec(ast, cb) {
        return None;
    }
    let ss = statements_exec(ast, b);
    if ss.len() == 1 && ast.is_kind(ss[0], "IfStatement") {
        Some(ss[0])
    } else {
        None
    }
}

fn handler_if_exec(ast: &Ast, refs: &Vec<ReferenceFact>, s: usize, dn: &Vec<char>) -> (b: bool)
    requires
        ast.wf(),
        s < ast.nodes@.len(),
    ensures
        b == handler_if(*ast, refs@, s as int, dn@),
{
    match (ast.child_of(s, "test"), ast.child_of(s, "consequent")) {
        (Some(t), Some(c)) => {
            if !refs_name_within_exec(ast, refs, t, dn) {
                return false;
            }
            let test = |k: usize| -> (r: bool)
                requires
                    wf_nodes(ast.nodes@),
                    c < ast.nodes@.len(),
                    k < ast.nodes@.len(),
                ensures
                    r == handler_call_within(*ast, c as int, k as int),
            {
                ast.is_kind(k, "CallExpression") && span_within_exec(ast, c, k) && (setter_name_exec(ast, k).is_some()
                    || match callee_name_exec(ast, k) {
                    Some(n) => starts_with_str(&n, "on"),
                    None => false,
                })
            };
            any_node_exec(ast.nodes.len(), test, Ghost(|k: int| handler_call_within(*ast, c as int, k)))
        },
        _ => false,
    }
}

fn effect_event_handler_exec(ast: &Ast, refs: &Vec<ReferenceFact>, i: usize) -> (b: bool)
    requires
        ast.wf(),
        i < ast.nodes@.len(),
    ensures
        b == effect_event_handler(*ast, refs@, i as int),
{
    let (cb, body, d) = match effect_parts_exec(ast, i) {
        Some(parts) => parts,
        None => {
            return false;
        },
    };
    let es = ast.children_in(d, "elements");
    if es.len() != 1 {
        return false;
    }
    match (sole_if_exec(ast, cb, body), dependency_element_name_exec(ast, es[0])) {
        (Some(s), Some(dn)) => handler_if_exec(ast, refs, s, &dn),
        _ => false,
    }
}

fn reads_param_exec(ast: &Ast, f: usize, a: usize) -> (b: bool)
    requires
        ast.wf(),
        f < ast.nodes@.len(),
        a < ast.nodes@.len(),
    ensures
        b == reads_param(*ast, f as int, a as int),
{
    if ast.is_kind(a, "Identifier") {
        return match ident_name_exec(ast, a) {
            Some(n) => component_binds_exec(ast, f, &n),
            None => false,
        };
    }
    if !ast.is_kind(a, "MemberExpression") {
        return false;
    }
    let private = !ast.flag_of(a, "computed") && match ast.child_of(a, "property") {
        Some(p) => ast.is_kind(p, "PrivateIdentifier"),
        None => false,
    };
    if private {
        return false;
    }
    match ast.child_of(a, "object") {
        Some(o) => match callee_static_name_exec(ast, o) {
            Some(n) => component_binds_exec(ast, f, &n),
            None => false,
        },
        None => false,
    }
}

fn is_use_state_call(ast: &Ast, i: usize) -> (b: bool)
    requires
        ast.wf(),
        i < ast.nodes@.len(),
    ensures
        b == (ast.is(i as int, "CallExpression"@) && callee_name(*ast, i as int) == Some("useState"@)),
{
    ast.is_kind(i, "CallExpression") && match callee_name_exec(ast, i) {
        Some(n) => eq_str(&n, "useState"),
        None => false,
    }
}

fn derived_use_state_exec(ast: &Ast, i: usize) -> (b: bool)
    requires
        ast.wf(),
        i < ast.nodes@.len(),
    ensures
        b == derived_use_state(*ast, i as int),
{
    if !is_use_state_call(ast, i) {
        return false;
    }
    let test = |f: usize| -> (r: bool)
        requires
            wf_nodes(ast.nodes@),
            f < ast.nodes@.len(),
        ensures
            r == component_function(*ast, f as int),
    { component_function_exec(ast, f) };
    let f = nearest_ancestor_exec(ast, i, test, Ghost(|f: int| component_function(*ast, f)));
    match (f, argument_exec(ast, i, 0)) {
        (Some(f), Some(a)) => reads_param_exec(ast, f, a),
        _ => false,
    }
}

fn prefer_reducer_exec(ast: &Ast, i: usize) -> (b: bool)
    requires
        ast.wf(),
        i < ast.nodes@.len(),
    ensures
        b == prefer_use_reducer(*ast, i as int),
{
    if !component_function_exec(ast, i) {
        return false;
    }
    let test = |k: usize| -> (r: bool)
        requires
            wf_nodes(ast.nodes@),
            i < ast.nodes@.len(),
            k < ast.nodes@.len(),
        ensures
            r == use_state_within(*ast, i as int, k as int),
    { span_within_exec(ast, i, k) && is_use_state_call(ast, k) };
    count_nodes_exec(ast.nodes.len(), test, Ghost(|k: int| use_state_within(*ast, i as int, k))) >= 5
}

fn lazy_state_exec(ast: &Ast, i: usize) -> (b: bool)
    requires
        ast.wf(),
        i < ast.nodes@.len(),
    ensures
        b == lazy_state_init(*ast, i as int),
{
    is_use_state_call(ast, i) && match argument_exec(ast, i, 0) {
        Some(a) => ast.is_kind(a, "CallExpression"),
        None => false,
    }
}

fn functional_set_state_exec(ast: &Ast, refs: &Vec<ReferenceFact>, i: usize) -> (b: bool)
    requires
        ast.wf(),
        i < ast.nodes@.len(),
    ensures
        b == functional_set_state(*ast, refs@, i as int),
{
    match (setter_name_exec(ast, i), argument_exec(ast, i, 0)) {
        (Some(s), Some(a)) => {
            if ast.is_kind(a, "ArrowFunctionExpression") || ast.is_kind(a, "FunctionExpression") {
                return false;
            }
            let mut state: Vec<char> = Vec::new();
            state.push(lower_char_exec(s[3]));
            let mut k: usize = 4;
            while k < s.len()
                invariant
                    4 <= k <= s@.len(),
                    state@ == seq![lower_char(s@[3])] + s@.subrange(4, k as int),
                decreases s@.len() - k,
            {
                state.push(s[k]);
                assert(s@.subrange(4, k + 1) =~= s@.subrange(4, k as int).push(s@[k as int]));
                k = k + 1;
            }
            assert(state@ =~= state_name(s@));
            refs_name_within_exec(ast, refs, a, &state)
        },
        _ => false,
    }
}

fn unstable_deps_exec(ast: &Ast, i: usize) -> (b: bool)
    requires
        ast.wf(),
        i < ast.nodes@.len(),
    ensures
        b == unstable_deps(*ast, i as int),
{
    let hooks = ["useEffect", "useLayoutEffect", "useMemo", "useCallback"];
    assert(hooks@.map_values(|n: &str| n@) =~= dependency_hooks());
    if !hook_call_exec(ast, i, &hooks) {
        return false;
    }
    let d = match nth_child_exec(ast, i, "arguments", 1) {
        Some(d) => if ast.is_kind(d, "ArrayExpression") {
            d
        } else {
            return false;
        },
        None => {
            return false;
        },
    };
    unstable_array_exec(ast, d)
}

fn unstable_array_exec(ast: &Ast, d: usize) -> (b: bool)
    requires
        ast.wf(),
        d < ast.nodes@.len(),
    ensures
        b == unstable_array(*ast, d as int),
{
    let es = ast.children_in(d, "elements");
    let mut k: usize = 0;
    while k < es.len()
        invariant
            ast.wf(),
            es@ == ast.field_children(d as int, "elements"@),
            forall|q: int| 0 <= q < es@.len() ==> #[trigger] es@[q] < ast.nodes@.len(),
            k <= es@.len(),
            forall|q: int| 0 <= q < k ==> !#[trigger] unstable_element(*ast, es@[q] as int),
        decreases es@.len() - k,
    {
        let e = es[k];
        if ast.is_kind(e, "ArrayExpression") || ast.is_kind(e, "ObjectExpression") || ast.is_kind(
            e,
            "ArrowFunctionExpression",
        ) || ast.is_kind(e, "FunctionExpression") || ast.is_kind(e, "NewExpression") {
            assert(unstable_element(*ast, es@[k as int] as int));
            return true;
        }
        k = k + 1;
    }
    false
}

} // verus!
