//! What the server rules share: static names, route registrations and the
//! handlers they register, ORM calls, and the functions and loops around a node.
use vstd::prelude::*;

use crate::ast::{wf_nodes, Ast};
use crate::engine::{first_where, first_where_exec};
use crate::estree::{
    member_static_name, member_static_name_exec, nearest_ancestor, nearest_ancestor_exec, opt_seq, unparen,
    unparen_exec,
};
use crate::rules::react::helpers::{callee_static_name, callee_static_name_exec, one_of, span_within};
use crate::rules::react::styles::{key_name, key_name_exec};
use crate::text::{chars_of, concat_chars, ends_with, ends_with_str, eq_str};

verus! {

/// The methods that register a route.
pub open spec fn route_methods() -> Seq<Seq<char>> {
    seq!["get"@, "post"@, "put"@, "patch"@, "delete"@, "all"@, "use"@]
}

/// The ORM methods that read.
pub open spec fn orm_query_methods() -> Seq<Seq<char>> {
    seq!["find"@, "findOne"@, "findFirst"@, "findMany"@, "findUnique"@, "first"@, "count"@]
}

/// The ORM methods that write.
pub open spec fn orm_mutate_methods() -> Seq<Seq<char>> {
    seq!["create"@, "createMany"@, "update"@, "updateMany"@, "delete"@, "deleteMany"@, "insert"@, "upsert"@]
}

/// A name that routes are registered on: `app`, `router`, `route`, `server`,
/// `fastify`, or anything ending in `.router`, `.routes` or `.route`.
pub open spec fn route_object(name: Seq<char>) -> bool {
    ||| name == "app"@
    ||| name == "router"@
    ||| name == "route"@
    ||| name == "server"@
    ||| name == "fastify"@
    ||| ends_with(name, ".router"@)
    ||| ends_with(name, ".routes"@)
    ||| ends_with(name, ".route"@)
}

/// Argument `a` is a function written in place.
pub open spec fn handler_argument(ast: Ast, a: usize) -> bool {
    ast.is(a as int, "ArrowFunctionExpression"@) || ast.is(a as int, "FunctionExpression"@)
}

/// The property name of call `i`'s callee when that callee is a member expression.
pub open spec fn call_method(ast: Ast, i: int) -> Option<Seq<char>> {
    match ast.child(i, "callee"@) {
        Some(c) => member_static_name(ast, c),
        None => None,
    }
}

/// The dotted static name of call `i`'s callee.
pub open spec fn callee_name(ast: Ast, i: int) -> Option<Seq<char>> {
    match ast.child(i, "callee"@) {
        Some(c) => callee_static_name(ast, c),
        None => None,
    }
}

/// Callee `c` is a route method of a route object, as in `app.get`.
#[verifier::opaque]
pub open spec fn route_callee(ast: Ast, c: int) -> bool {
    match member_static_name(ast, c) {
        Some(m) => route_methods().contains(m) && match ast.child(c, "object"@) {
            Some(o) => match callee_static_name(ast, o) {
                Some(n) => route_object(n),
                None => false,
            },
            None => false,
        },
        None => false,
    }
}

/// Node `i` is a call such as `app.get('/path', (req, res) => ...)`: a route
/// method called on a route object with a function among its arguments.
pub open spec fn route_registration(ast: Ast, i: int) -> bool {
    &&& ast.is(i, "CallExpression"@)
    &&& match ast.child(i, "callee"@) {
        Some(c) => route_callee(ast, c),
        None => false,
    }
    &&& first_where(ast.field_children(i, "arguments"@), |a: usize| handler_argument(ast, a)) is Some
}

/// Node `f` is a function with a body.
pub open spec fn bodied_function(ast: Ast, f: int) -> bool {
    ||| ast.is(f, "FunctionDeclaration"@)
    ||| ast.is(f, "FunctionExpression"@)
    ||| ast.is(f, "ArrowFunctionExpression"@)
}

/// Node `f` is a function registered as a route handler: an argument of a
/// route registration.
pub open spec fn route_handler(ast: Ast, f: int) -> bool {
    &&& bodied_function(ast, f)
    &&& ast.nodes@[f].key@ == "arguments"@
    &&& route_registration(ast, ast.nodes@[f].parent as int)
}

/// The route handler around node `i`, if any.
pub open spec fn enclosing_route_handler(ast: Ast, i: int) -> Option<int> {
    nearest_ancestor(ast, i, |f: int| route_handler(ast, f))
}

/// Node `q` is a loop statement.
pub open spec fn loop_node(ast: Ast, q: int) -> bool {
    ||| ast.is(q, "ForStatement"@)
    ||| ast.is(q, "ForInStatement"@)
    ||| ast.is(q, "ForOfStatement"@)
    ||| ast.is(q, "WhileStatement"@)
    ||| ast.is(q, "DoWhileStatement"@)
}

/// Node `f` is an `async` function.
pub open spec fn async_function(ast: Ast, f: int) -> bool {
    crate::estree::function_like(ast, f) && ast.flag(f, "async"@)
}

/// The byte span of node `i`.
pub open spec fn span_of(ast: Ast, i: int) -> (u32, u32) {
    (ast.nodes@[i].start, ast.nodes@[i].end)
}

/// `inner` lies within `outer`.
pub open spec fn within(outer: (u32, u32), inner: (u32, u32)) -> bool {
    inner.0 >= outer.0 && inner.1 <= outer.1
}

/// Property `p` of an object literal is named `name`.
pub open spec fn property_named(ast: Ast, p: usize, name: Seq<char>) -> bool {
    ast.is(p as int, "Property"@) && match ast.child(p as int, "key"@) {
        Some(k) => key_name(ast, k, ast.flag(p as int, "computed"@)) == Some(name),
        None => false,
    }
}

/// The value of the first property of object literal `o` named `name`.
pub open spec fn object_property(ast: Ast, o: int, name: Seq<char>) -> Option<int> {
    match first_where(ast.field_children(o, "properties"@), |p: usize| property_named(ast, p, name)) {
        Some(p) => ast.child(p as int, "value"@),
        None => None,
    }
}

/// Object literal `o` has a property named `name`.
pub open spec fn has_property(ast: Ast, o: int, name: Seq<char>) -> bool {
    first_where(ast.field_children(o, "properties"@), |p: usize| property_named(ast, p, name)) is Some
}

/// Argument `a` is an expression rather than a spread.
pub open spec fn expression_argument(ast: Ast, a: int) -> bool {
    0 <= a < ast.nodes@.len() && !ast.is(a, "SpreadElement"@)
}

/// The `k`-th argument of call `i`, unless it is a spread.
pub open spec fn argument(ast: Ast, i: int, k: int) -> Option<int> {
    let args = ast.field_children(i, "arguments"@);
    if 0 <= k < args.len() && expression_argument(ast, args[k] as int) {
        Some(args[k] as int)
    } else {
        None
    }
}

/// The dotted static name of an expression: `req`, `req.body.id`.
pub fn expression_static_name(ast: &Ast, e: usize) -> (r: Option<Vec<char>>)
    requires
        ast.wf(),
        e < ast.nodes@.len(),
    ensures
        opt_seq(r) == callee_static_name(*ast, e as int),
{
    callee_static_name_exec(ast, e)
}

/// The dotted name of member expression `m`: its object's static name, a
/// dot, and its static property name.
pub fn member_expression_name(ast: &Ast, m: usize) -> (r: Option<Vec<char>>)
    requires
        ast.wf(),
        m < ast.nodes@.len(),
    ensures
        opt_seq(r) == match ast.child(m as int, "object"@) {
            Some(o) => match (callee_static_name(*ast, o), member_static_name(*ast, m as int)) {
                (Some(a), Some(b)) => Some(a + "."@ + b),
                _ => None,
            },
            None => None,
        },
{
    let o = match ast.child_of(m, "object") {
        Some(o) => o,
        None => {
            return None;
        },
    };
    match (callee_static_name_exec(ast, o), member_static_name_exec(ast, m)) {
        (Some(a), Some(b)) => Some(concat_chars(&concat_chars(&a, &chars_of(".")), &b)),
        _ => None,
    }
}

fn route_object_exec(name: &Vec<char>) -> (b: bool)
    ensures
        b == route_object(name@),
{
    eq_str(name, "app") || eq_str(name, "router") || eq_str(name, "route") || eq_str(name, "server") || eq_str(
        name,
        "fastify",
    ) || ends_with_str(name, ".router") || ends_with_str(name, ".routes") || ends_with_str(name, ".route")
}

fn handler_argument_exec(ast: &Ast, a: usize) -> (b: bool)
    requires
        a < ast.nodes@.len(),
    ensures
        b == handler_argument(*ast, a),
{
    ast.is_kind(a, "ArrowFunctionExpression") || ast.is_kind(a, "FunctionExpression")
}

/// The property name of call `i`'s callee, when that callee is a member expression.
pub fn call_method_exec(ast: &Ast, i: usize) -> (r: Option<Vec<char>>)
    requires
        ast.wf(),
        i < ast.nodes@.len(),
    ensures
        opt_seq(r) == call_method(*ast, i as int),
{
    match ast.child_of(i, "callee") {
        Some(c) => member_static_name_exec(ast, c),
        None => None,
    }
}

/// The dotted static name of call `i`'s callee.
pub fn callee_name_exec(ast: &Ast, i: usize) -> (r: Option<Vec<char>>)
    requires
        ast.wf(),
        i < ast.nodes@.len(),
    ensures
        opt_seq(r) == callee_name(*ast, i as int),
{
    match ast.child_of(i, "callee") {
        Some(c) => callee_static_name_exec(ast, c),
        None => None,
    }
}

fn route_callee_exec(ast: &Ast, c: usize) -> (b: bool)
    requires
        ast.wf(),
        c < ast.nodes@.len(),
    ensures
        b == route_callee(*ast, c as int),
{
    reveal(route_callee);
    let method = match member_static_name_exec(ast, c) {
        Some(m) => m,
        None => {
            return false;
        },
    };
    let methods = ["get", "post", "put", "patch", "delete", "all", "use"];
    assert(methods@.map_values(|n: &str| n@) =~= route_methods());
    if !one_of(&method, &methods) {
        return false;
    }
    match ast.child_of(c, "object") {
        Some(o) => match callee_static_name_exec(ast, o) {
            Some(n) => route_object_exec(&n),
            None => false,
        },
        None => false,
    }
}

/// Whether node `i` registers a route handler.
pub fn is_route_registration(ast: &Ast, i: usize) -> (b: bool)
    requires
        ast.wf(),
        i < ast.nodes@.len(),
    ensures
        b == route_registration(*ast, i as int),
{
    if !ast.is_kind(i, "CallExpression") {
        return false;
    }
    let c = match ast.child_of(i, "callee") {
        Some(c) => c,
        None => {
            return false;
        },
    };
    if !route_callee_exec(ast, c) {
        return false;
    }
    has_handler_argument(ast, i)
}

fn has_handler_argument(ast: &Ast, i: usize) -> (b: bool)
    requires
        ast.wf(),
        i < ast.nodes@.len(),
    ensures
        b == (first_where(ast.field_children(i as int, "arguments"@), |a: usize| handler_argument(*ast, a)) is Some),
{
    let args = ast.children_in(i, "arguments");
    let test = |a: usize| -> (b: bool)
        requires
            a < ast.nodes@.len(),
        ensures
            b == handler_argument(*ast, a),
    { handler_argument_exec(ast, a) };
    first_where_exec(&args, test, Ghost(|a: usize| handler_argument(*ast, a))).is_some()
}

fn bodied_function_exec(ast: &Ast, f: usize) -> (b: bool)
    requires
        f < ast.nodes@.len(),
    ensures
        b == bodied_function(*ast, f as int),
{
    ast.is_kind(f, "FunctionDeclaration") || ast.is_kind(f, "FunctionExpression") || ast.is_kind(
        f,
        "ArrowFunctionExpression",
    )
}

fn route_handler_exec(ast: &Ast, f: usize) -> (b: bool)
    requires
        ast.wf(),
        f < ast.nodes@.len(),
    ensures
        b == route_handler(*ast, f as int),
{
    bodied_function_exec(ast, f) && eq_str(&ast.nodes[f].key, "arguments") && is_route_registration(
        ast,
        ast.nodes[f].parent,
    )
}

/// The route handler around node `i`, if any.
pub fn enclosing_route_handler_exec(ast: &Ast, i: usize) -> (r: Option<usize>)
    requires
        ast.wf(),
        i < ast.nodes@.len(),
    ensures
        match r {
            Some(f) => f < ast.nodes@.len() && enclosing_route_handler(*ast, i as int) == Some(f as int),
            None => enclosing_route_handler(*ast, i as int) is None,
        },
{
    let test = |f: usize| -> (b: bool)
        requires
            wf_nodes(ast.nodes@),
            f < ast.nodes@.len(),
        ensures
            b == route_handler(*ast, f as int),
    { route_handler_exec(ast, f) };
    nearest_ancestor_exec(ast, i, test, Ghost(|f: int| route_handler(*ast, f)))
}

/// Whether node `i` lies inside a route handler.
pub fn is_inside_route_handler(ast: &Ast, i: usize) -> (b: bool)
    requires
        ast.wf(),
        i < ast.nodes@.len(),
    ensures
        b == (enclosing_route_handler(*ast, i as int) is Some),
{
    enclosing_route_handler_exec(ast, i).is_some()
}

/// The span of the route handler around node `i`, if any.
pub fn enclosing_route_handler_span(ast: &Ast, i: usize) -> (r: Option<(u32, u32)>)
    requires
        ast.wf(),
        i < ast.nodes@.len(),
    ensures
        r == match enclosing_route_handler(*ast, i as int) {
            Some(f) => Some(span_of(*ast, f)),
            None => None,
        },
{
    match enclosing_route_handler_exec(ast, i) {
        Some(f) => Some((ast.nodes[f].start, ast.nodes[f].end)),
        None => None,
    }
}

/// Whether call `i` reads through an ORM (`find`, `findMany`, `count`, ...).
pub fn is_orm_query_call(ast: &Ast, i: usize) -> (b: bool)
    requires
        ast.wf(),
        i < ast.nodes@.len(),
    ensures
        b == match call_method(*ast, i as int) {
            Some(m) => orm_query_methods().contains(m),
            None => false,
        },
{
    let names = ["find", "findOne", "findFirst", "findMany", "findUnique", "first", "count"];
    assert(names@.map_values(|n: &str| n@) =~= orm_query_methods());
    match call_method_exec(ast, i) {
        Some(m) => one_of(&m, &names),
        None => false,
    }
}

/// Whether call `i` writes through an ORM (`create`, `update`, `delete`, ...).
pub fn is_orm_mutate_call(ast: &Ast, i: usize) -> (b: bool)
    requires
        ast.wf(),
        i < ast.nodes@.len(),
    ensures
        b == match call_method(*ast, i as int) {
            Some(m) => orm_mutate_methods().contains(m),
            None => false,
        },
{
    let names = ["create", "createMany", "update", "updateMany", "delete", "deleteMany", "insert", "upsert"];
    assert(names@.map_values(|n: &str| n@) =~= orm_mutate_methods());
    match call_method_exec(ast, i) {
        Some(m) => one_of(&m, &names),
        None => false,
    }
}

/// Whether node `i` lies inside a loop.
pub fn is_inside_loop(ast: &Ast, i: usize) -> (b: bool)
    requires
        ast.wf(),
        i < ast.nodes@.len(),
    ensures
        b == (nearest_ancestor(*ast, i as int, |q: int| loop_node(*ast, q)) is Some),
{
    let test = |q: usize| -> (b: bool)
        requires
            q < ast.nodes@.len(),
        ensures
            b == loop_node(*ast, q as int),
    {
        ast.is_kind(q, "ForStatement") || ast.is_kind(q, "ForInStatement") || ast.is_kind(q, "ForOfStatement")
            || ast.is_kind(q, "WhileStatement") || ast.is_kind(q, "DoWhileStatement")
    };
    nearest_ancestor_exec(ast, i, test, Ghost(|q: int| loop_node(*ast, q))).is_some()
}

/// The function around node `i`, if any.
pub fn enclosing_function_exec(ast: &Ast, i: usize) -> (r: Option<usize>)
    requires
        ast.wf(),
        i < ast.nodes@.len(),
    ensures
        match r {
            Some(f) => f < ast.nodes@.len() && nearest_ancestor(*ast, i as int, |q: int| bodied_function(*ast, q))
                == Some(f as int),
            None => nearest_ancestor(*ast, i as int, |q: int| bodied_function(*ast, q)) is None,
        },
{
    let test = |q: usize| -> (b: bool)
        requires
            q < ast.nodes@.len(),
        ensures
            b == bodied_function(*ast, q as int),
    { bodied_function_exec(ast, q) };
    nearest_ancestor_exec(ast, i, test, Ghost(|q: int| bodied_function(*ast, q)))
}

/// The span of the function around node `i`, if any.
pub fn enclosing_function_span(ast: &Ast, i: usize) -> (r: Option<(u32, u32)>)
    requires
        ast.wf(),
        i < ast.nodes@.len(),
    ensures
        r == match nearest_ancestor(*ast, i as int, |q: int| bodied_function(*ast, q)) {
            Some(f) => Some(span_of(*ast, f)),
            None => None,
        },
{
    match enclosing_function_exec(ast, i) {
        Some(f) => Some((ast.nodes[f].start, ast.nodes[f].end)),
        None => None,
    }
}

/// Whether node `i` lies inside an `async` function.
pub fn is_async_context(ast: &Ast, i: usize) -> (b: bool)
    requires
        ast.wf(),
        i < ast.nodes@.len(),
    ensures
        b == (nearest_ancestor(*ast, i as int, |q: int| async_function(*ast, q)) is Some),
{
    let test = |q: usize| -> (b: bool)
        requires
            q < ast.nodes@.len(),
        ensures
            b == async_function(*ast, q as int),
    { crate::estree::function_like_exec(ast, q) && ast.flag_of(q, "async") };
    nearest_ancestor_exec(ast, i, test, Ghost(|q: int| async_function(*ast, q))).is_some()
}

/// Whether node `inner` lies within node `outer`.
pub fn span_within_exec(ast: &Ast, outer: usize, inner: usize) -> (b: bool)
    requires
        outer < ast.nodes@.len(),
        inner < ast.nodes@.len(),
    ensures
        b == span_within(*ast, outer as int, inner as int),
{
    ast.nodes[inner].start >= ast.nodes[outer].start && ast.nodes[inner].end <= ast.nodes[outer].end
}

/// Whether the span `inner` lies within the span `outer`.
pub fn span_contains(outer: (u32, u32), inner: (u32, u32)) -> (b: bool)
    ensures
        b == within(outer, inner),
{
    inner.0 >= outer.0 && inner.1 <= outer.1
}

fn property_named_exec(ast: &Ast, p: usize, name: &str) -> (b: bool)
    requires
        ast.wf(),
        p < ast.nodes@.len(),
    ensures
        b == property_named(*ast, p, name@),
{
    ast.is_kind(p, "Property") && match ast.child_of(p, "key") {
        Some(k) => match key_name_exec(ast, k, ast.flag_of(p, "computed")) {
            Some(n) => eq_str(&n, name),
            None => false,
        },
        None => false,
    }
}

fn first_property_exec(ast: &Ast, o: usize, name: &str) -> (r: Option<usize>)
    requires
        ast.wf(),
        o < ast.nodes@.len(),
    ensures
        r == first_where(ast.field_children(o as int, "properties"@), |p: usize| property_named(*ast, p, name@)),
        r matches Some(p) ==> p < ast.nodes@.len(),
{
    let props = ast.children_in(o, "properties");
    let test = |p: usize| -> (b: bool)
        requires
            wf_nodes(ast.nodes@),
            p < ast.nodes@.len(),
        ensures
            b == property_named(*ast, p, name@),
    { property_named_exec(ast, p, name) };
    let r = first_where_exec(&props, test, Ghost(|p: usize| property_named(*ast, p, name@)));
    proof {
        crate::engine::lemma_first_where_in(props@, |p: usize| property_named(*ast, p, name@));
    }
    r
}

/// The value of the first property of object literal `o` named `name`.
pub fn object_property_exec(ast: &Ast, o: usize, name: &str) -> (r: Option<usize>)
    requires
        ast.wf(),
        o < ast.nodes@.len(),
    ensures
        match r {
            Some(v) => v < ast.nodes@.len() && object_property(*ast, o as int, name@) == Some(v as int),
            None => object_property(*ast, o as int, name@) is None,
        },
{
    match first_property_exec(ast, o, name) {
        Some(p) => ast.child_of(p, "value"),
        None => None,
    }
}

/// Whether object literal `o` has a property named `name`.
pub fn has_property_exec(ast: &Ast, o: usize, name: &str) -> (b: bool)
    requires
        ast.wf(),
        o < ast.nodes@.len(),
    ensures
        b == has_property(*ast, o as int, name@),
{
    first_property_exec(ast, o, name).is_some()
}

/// The `k`-th argument of call `i`, unless it is a spread.
pub fn argument_exec(ast: &Ast, i: usize, k: usize) -> (r: Option<usize>)
    requires
        ast.wf(),
        i < ast.nodes@.len(),
    ensures
        match r {
            Some(a) => i < a < ast.nodes@.len() && argument(*ast, i as int, k as int) == Some(a as int),
            None => argument(*ast, i as int, k as int) is None,
        },
{
    let args = ast.children_in(i, "arguments");
    if k < args.len() && !ast.is_kind(args[k], "SpreadElement") {
        Some(args[k])
    } else {
        None
    }
}

} // verus!
