//! Readings of ESTree nodes that many rules share: parentheses, names,
//! string values and member properties.
use vstd::prelude::*;

use crate::ast::{Ast, Value};
use crate::text::{eq_str, chars_of};

verus! {

/// The expression inside any number of parentheses around node `i`.
pub open spec fn unparen(ast: Ast, i: int) -> int
    decreases ast.nodes@.len() - i,
{
    if ast.wf() && 0 <= i < ast.nodes@.len() && ast.is(i, "ParenthesizedExpression"@) {
        match ast.child(i, "expression"@) {
            Some(c) => if i < c < ast.nodes@.len() { unparen(ast, c) } else { i },
            None => i,
        }
    } else {
        i
    }
}

/// Node `i` is an identifier (reference or binding) named `name`.
pub open spec fn is_ident(ast: Ast, i: int, name: Seq<char>) -> bool {
    &&& ast.is(i, "Identifier"@)
    &&& ast.text(i, "name"@) == Some(name)
}

/// The name of identifier node `i`.
pub open spec fn ident_name(ast: Ast, i: int) -> Option<Seq<char>> {
    if ast.is(i, "Identifier"@) {
        ast.text(i, "name"@)
    } else {
        None
    }
}

/// The value of string literal node `i`.
pub open spec fn string_value(ast: Ast, i: int) -> Option<Seq<char>> {
    if ast.is(i, "Literal"@) {
        ast.text(i, "value"@)
    } else {
        None
    }
}

/// The cooked text of the only quasi of a template literal without substitutions.
pub open spec fn single_quasi(ast: Ast, i: int) -> Option<Seq<char>> {
    if ast.is(i, "TemplateLiteral"@) && ast.field_children(i, "expressions"@).len() == 0
        && ast.field_children(i, "quasis"@).len() == 1 {
        let q = ast.field_children(i, "quasis"@)[0] as int;
        match ast.child(q, "value"@) {
            Some(v) => ast.text(v, "cooked"@),
            None => None,
        }
    } else {
        None
    }
}

/// Node `i` is a string literal or a template literal without
/// substitutions; its text.
pub open spec fn string_like(ast: Ast, i: int) -> Option<Seq<char>> {
    match string_value(ast, i) {
        Some(v) => Some(v),
        None => single_quasi(ast, i),
    }
}

/// `unparen` in code.
pub fn unparen_exec(ast: &Ast, i: usize) -> (r: usize)
    requires
        ast.wf(),
        i < ast.nodes@.len(),
    ensures
        r as int == unparen(*ast, i as int),
        r < ast.nodes@.len(),
    decreases ast.nodes@.len() - i,
{
    if ast.is_kind(i, "ParenthesizedExpression") {
        match ast.child_of(i, "expression") {
            Some(c) => unparen_exec(ast, c),
            None => i,
        }
    } else {
        i
    }
}

/// The text an optional character vector holds.
pub open spec fn opt_seq(o: Option<Vec<char>>) -> Option<Seq<char>> {
    match o {
        Some(v) => Some(v@),
        None => None,
    }
}

/// `ident_name` in code.
pub fn ident_name_exec(ast: &Ast, i: usize) -> (r: Option<Vec<char>>)
    requires
        i < ast.nodes@.len(),
    ensures
        opt_seq(r) == ident_name(*ast, i as int),
{
    if ast.is_kind(i, "Identifier") {
        match ast.text_of(i, "name") {
            Some(t) => Some(t.clone()),
            None => None,
        }
    } else {
        None
    }
}

/// `is_ident` in code.
pub fn is_ident_exec(ast: &Ast, i: usize, name: &str) -> (b: bool)
    requires
        i < ast.nodes@.len(),
    ensures
        b == is_ident(*ast, i as int, name@),
{
    match ident_name_exec(ast, i) {
        Some(t) => eq_str(&t, name),
        None => false,
    }
}

/// `string_value` in code.
pub fn string_value_exec(ast: &Ast, i: usize) -> (r: Option<Vec<char>>)
    requires
        i < ast.nodes@.len(),
    ensures
        opt_seq(r) == string_value(*ast, i as int),
{
    if ast.is_kind(i, "Literal") {
        match ast.text_of(i, "value") {
            Some(t) => Some(t.clone()),
            None => None,
        }
    } else {
        None
    }
}

/// `single_quasi` in code.
pub fn single_quasi_exec(ast: &Ast, i: usize) -> (r: Option<Vec<char>>)
    requires
        ast.wf(),
        i < ast.nodes@.len(),
    ensures
        opt_seq(r) == single_quasi(*ast, i as int),
{
    if !ast.is_kind(i, "TemplateLiteral") {
        return None;
    }
    let exprs = ast.children_in(i, "expressions");
    let quasis = ast.children_in(i, "quasis");
    if exprs.len() != 0 || quasis.len() != 1 {
        return None;
    }
    let q = quasis[0];
    match ast.child_of(q, "value") {
        Some(v) => match ast.text_of(v, "cooked") {
            Some(t) => Some(t.clone()),
            None => None,
        },
        None => None,
    }
}

/// `string_like` in code.
pub fn string_like_exec(ast: &Ast, i: usize) -> (r: Option<Vec<char>>)
    requires
        ast.wf(),
        i < ast.nodes@.len(),
    ensures
        opt_seq(r) == string_like(*ast, i as int),
{
    match string_value_exec(ast, i) {
        Some(v) => Some(v),
        None => single_quasi_exec(ast, i),
    }
}

/// The static property name of member expression `m`: the identifier of
/// `a.b`, or the string (or substitution-free template) of `a["b"]`.
pub open spec fn member_static_name(ast: Ast, m: int) -> Option<Seq<char>> {
    if ast.is(m, "MemberExpression"@) {
        match ast.child(m, "property"@) {
            Some(p) => if ast.flag(m, "computed"@) {
                string_like(ast, p)
            } else {
                ident_name(ast, p)
            },
            None => None,
        }
    } else {
        None
    }
}

/// `member_static_name` in code.
pub fn member_static_name_exec(ast: &Ast, m: usize) -> (r: Option<Vec<char>>)
    requires
        ast.wf(),
        m < ast.nodes@.len(),
    ensures
        opt_seq(r) == member_static_name(*ast, m as int),
{
    if !ast.is_kind(m, "MemberExpression") {
        return None;
    }
    match ast.child_of(m, "property") {
        Some(p) => if ast.flag_of(m, "computed") {
            string_like_exec(ast, p)
        } else {
            ident_name_exec(ast, p)
        },
        None => None,
    }
}

/// The `k`-th child of node `i` in field `key`, if there is one.
pub open spec fn nth_child(ast: Ast, i: int, key: Seq<char>, k: int) -> Option<int> {
    let cs = ast.field_children(i, key);
    if 0 <= k < cs.len() {
        Some(cs[k] as int)
    } else {
        None
    }
}

/// `nth_child` in code.
pub fn nth_child_exec(ast: &Ast, i: usize, key: &str, k: usize) -> (r: Option<usize>)
    requires
        ast.wf(),
        i < ast.nodes@.len(),
    ensures
        r matches Some(c) ==> i < c < ast.nodes@.len(),
        match r {
            Some(c) => nth_child(*ast, i as int, key@, k as int) == Some(c as int),
            None => nth_child(*ast, i as int, key@, k as int) is None,
        },
{
    let cs = ast.children_in(i, key);
    if k < cs.len() {
        Some(cs[k])
    } else {
        None
    }
}

/// The nearest proper ancestor of node `i` that satisfies `p`.
pub open spec fn nearest_ancestor(ast: Ast, i: int, p: spec_fn(int) -> bool) -> Option<int>
    decreases i,
{
    if i <= 0 || i >= ast.nodes@.len() {
        None
    } else {
        let q = ast.nodes@[i].parent as int;
        if q >= i {
            None
        } else if p(q) {
            Some(q)
        } else {
            nearest_ancestor(ast, q, p)
        }
    }
}

/// The number of proper ancestors of node `i` that satisfy `p`.
pub open spec fn count_ancestors(ast: Ast, i: int, p: spec_fn(int) -> bool) -> nat
    decreases i,
{
    if i <= 0 || i >= ast.nodes@.len() {
        0
    } else {
        let q = ast.nodes@[i].parent as int;
        if q >= i {
            0
        } else {
            count_ancestors(ast, q, p) + if p(q) { 1nat } else { 0nat }
        }
    }
}

/// `nearest_ancestor` in code.
pub(crate) fn nearest_ancestor_exec<F: Fn(usize) -> bool>(ast: &Ast, i: usize, test: F, Ghost(p): Ghost<spec_fn(int) -> bool>) -> (r: Option<usize>)
    requires
        ast.wf(),
        i < ast.nodes@.len(),
        forall|k: usize| k < ast.nodes@.len() ==> #[trigger] test.requires((k,)),
        forall|k: usize, b: bool| k < ast.nodes@.len() && #[trigger] test.ensures((k,), b) ==> b == p(k as int),
    ensures
        match r {
            Some(q) => q < ast.nodes@.len() && nearest_ancestor(*ast, i as int, p) == Some(q as int),
            None => nearest_ancestor(*ast, i as int, p) is None,
        },
{
    let mut cur = i;
    while cur > 0
        invariant
            ast.wf(),
            cur < ast.nodes@.len(),
            forall|k: usize| k < ast.nodes@.len() ==> #[trigger] test.requires((k,)),
            forall|k: usize, b: bool| k < ast.nodes@.len() && #[trigger] test.ensures((k,), b) ==> b == p(k as int),
            nearest_ancestor(*ast, i as int, p) == nearest_ancestor(*ast, cur as int, p),
        decreases cur,
    {
        let q = ast.nodes[cur].parent;
        if test(q) {
            return Some(q);
        }
        cur = q;
    }
    None
}

/// `count_ancestors` in code.
pub(crate) fn count_ancestors_exec<F: Fn(usize) -> bool>(ast: &Ast, i: usize, test: F, Ghost(p): Ghost<spec_fn(int) -> bool>) -> (r: usize)
    requires
        ast.wf(),
        i < ast.nodes@.len(),
        forall|k: usize| k < ast.nodes@.len() ==> #[trigger] test.requires((k,)),
        forall|k: usize, b: bool| k < ast.nodes@.len() && #[trigger] test.ensures((k,), b) ==> b == p(k as int),
    ensures
        r as nat == count_ancestors(*ast, i as int, p),
{
    let mut cur = i;
    let mut n: usize = 0;
    while cur > 0
        invariant
            ast.wf(),
            cur < ast.nodes@.len(),
            n <= i - cur,
            forall|k: usize| k < ast.nodes@.len() ==> #[trigger] test.requires((k,)),
            forall|k: usize, b: bool| k < ast.nodes@.len() && #[trigger] test.ensures((k,), b) ==> b == p(k as int),
            count_ancestors(*ast, i as int, p) == n + count_ancestors(*ast, cur as int, p),
        decreases cur,
    {
        let q = ast.nodes[cur].parent;
        if test(q) {
            n = n + 1;
        }
        cur = q;
    }
    n
}

/// Node `b` is a block statement that is no function's body.
pub open spec fn plain_block(ast: Ast, b: int) -> bool {
    &&& ast.is(b, "BlockStatement"@)
    &&& !(ast.nodes@[b].key@ == "body"@ && function_like(ast, ast.nodes@[b].parent as int))
}

/// Node `f` is a function of any form.
pub open spec fn function_like(ast: Ast, f: int) -> bool {
    ||| ast.is(f, "FunctionDeclaration"@)
    ||| ast.is(f, "FunctionExpression"@)
    ||| ast.is(f, "TSDeclareFunction"@)
    ||| ast.is(f, "TSEmptyBodyFunctionExpression"@)
    ||| ast.is(f, "ArrowFunctionExpression"@)
}

/// `function_like` in code.
pub fn function_like_exec(ast: &Ast, f: usize) -> (b: bool)
    requires
        f < ast.nodes@.len(),
    ensures
        b == function_like(*ast, f as int),
{
    ast.is_kind(f, "FunctionDeclaration") || ast.is_kind(f, "FunctionExpression") || ast.is_kind(
        f,
        "TSDeclareFunction",
    ) || ast.is_kind(f, "TSEmptyBodyFunctionExpression") || ast.is_kind(f, "ArrowFunctionExpression")
}

/// `plain_block` in code.
pub fn plain_block_exec(ast: &Ast, b: usize) -> (r: bool)
    requires
        ast.wf(),
        b < ast.nodes@.len(),
    ensures
        r == plain_block(*ast, b as int),
{
    if !ast.is_kind(b, "BlockStatement") {
        return false;
    }
    let p = ast.nodes[b].parent;
    !(eq_str(&ast.nodes[b].key, "body") && function_like_exec(ast, p))
}

} // verus!
