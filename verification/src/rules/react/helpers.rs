//! Readings shared by the React rules: hook calls, static callee names,
//! JSX element and attribute names, and whether a file uses React.
use vstd::prelude::*;

use crate::ast::Ast;
use crate::engine::LintContext;
use crate::estree::{
    ident_name, ident_name_exec, is_ident, is_ident_exec, member_static_name, member_static_name_exec, opt_seq,
    string_like, string_like_exec, string_value, string_value_exec, unparen, unparen_exec,
};
use crate::frontend::ReferenceFact;
use crate::text::{chars_of, eq_chars, eq_str, starts_with};

verus! {

/// An ASCII upper-case letter.
pub open spec fn ascii_upper(c: char) -> bool {
    'A' <= c && c <= 'Z'
}

/// Component names start with an ASCII upper-case letter.
pub open spec fn component_name(name: Seq<char>) -> bool {
    name.len() > 0 && ascii_upper(name[0])
}

/// `prefix` followed by an ASCII upper-case letter.
pub open spec fn prefixed_upper(name: Seq<char>, prefix: Seq<char>) -> bool {
    starts_with(name, prefix) && name.len() > prefix.len() && ascii_upper(name[prefix.len() as int])
}

/// Whether `name` names a React component.
pub fn is_component_name(name: &str) -> (b: bool)
    ensures
        b == component_name(name@),
{
    let cs = chars_of(name);
    cs.len() > 0 && 'A' <= cs[0] && cs[0] <= 'Z'
}

/// Whether `name` names a custom hook: `use` then an upper-case letter.
pub fn is_custom_hook_name(name: &str) -> (b: bool)
    ensures
        b == prefixed_upper(name@, "use"@),
{
    let cs = chars_of(name);
    proof {
        reveal_strlit("use");
    }
    let p = crate::text::starts_with_str(&cs, "use");
    p && cs.len() > 3 && 'A' <= cs[3] && cs[3] <= 'Z'
}

/// Whether `name` names a state setter: `set` then an upper-case letter.
pub fn is_setter_identifier(name: &str) -> (b: bool)
    ensures
        b == prefixed_upper(name@, "set"@),
{
    let cs = chars_of(name);
    proof {
        reveal_strlit("set");
    }
    let p = crate::text::starts_with_str(&cs, "set");
    p && cs.len() > 3 && 'A' <= cs[3] && cs[3] <= 'Z'
}

/// `inner` lies within `outer`.
pub open spec fn span_within(ast: Ast, outer: int, inner: int) -> bool {
    ast.nodes@[inner].start >= ast.nodes@[outer].start && ast.nodes@[inner].end <= ast.nodes@[outer].end
}

/// The dotted static name of a callee: `f`, `a.b`, `React.useState`.
pub open spec fn callee_static_name(ast: Ast, e: int) -> Option<Seq<char>>
    decreases ast.nodes@.len() - e,
{
    let u = unparen(ast, e);
    if !(0 <= e && 0 <= u < ast.nodes@.len()) {
        None
    } else if ast.is(u, "Identifier"@) {
        ident_name(ast, u)
    } else if ast.is(u, "MemberExpression"@) {
        match ast.child(u, "object"@) {
            Some(o) => if e < o < ast.nodes@.len() {
                match (callee_static_name(ast, o), member_static_name(ast, u)) {
                    (Some(a), Some(b)) => Some(a + "."@ + b),
                    _ => None,
                }
            } else {
                None
            },
            None => None,
        }
    } else {
        None
    }
}

/// `callee_static_name` in code.
pub fn callee_static_name_exec(ast: &Ast, e: usize) -> (r: Option<Vec<char>>)
    requires
        ast.wf(),
        e < ast.nodes@.len(),
    ensures
        opt_seq(r) == callee_static_name(*ast, e as int),
    decreases ast.nodes@.len() - e,
{
    let u = unparen_exec(ast, e);
    if ast.is_kind(u, "Identifier") {
        ident_name_exec(ast, u)
    } else if ast.is_kind(u, "MemberExpression") {
        match ast.child_of(u, "object") {
            Some(o) => if e < o {
                match (callee_static_name_exec(ast, o), member_static_name_exec(ast, u)) {
                    (Some(a), Some(b)) => Some(dotted(&a, &b)),
                    _ => None,
                }
            } else {
                None
            },
            None => None,
        }
    } else {
        None
    }
}

/// Node `i` is a call of one of the hooks `names`, directly or as `React.<hook>`.
pub open spec fn hook_call(ast: Ast, i: int, names: Seq<Seq<char>>) -> bool {
    ast.is(i, "CallExpression"@) && match ast.child(i, "callee"@) {
        Some(c) => {
            let u = unparen(ast, c);
            if ast.is(u, "Identifier"@) {
                match ident_name(ast, u) {
                    Some(n) => names.contains(n),
                    None => false,
                }
            } else {
                &&& ast.is(u, "MemberExpression"@)
                &&& match ast.child(u, "object"@) {
                    Some(o) => is_ident(ast, o, "React"@),
                    None => false,
                }
                &&& match member_static_name(ast, u) {
                    Some(n) => names.contains(n),
                    None => false,
                }
            }
        },
        None => false,
    }
}

/// `names.contains(s)` in code.
pub fn one_of(s: &Vec<char>, names: &[&str]) -> (b: bool)
    ensures
        b == names@.map_values(|n: &str| n@).contains(s@),
{
    let ghost m = names@.map_values(|n: &str| n@);
    let mut k: usize = 0;
    while k < names.len()
        invariant
            k <= names@.len(),
            m == names@.map_values(|n: &str| n@),
            forall|q: int| 0 <= q < k ==> m[q] != s@,
        decreases names@.len() - k,
    {
        if eq_str(s, names[k]) {
            assert(m[k as int] == s@);
            return true;
        }
        k = k + 1;
    }
    false
}

/// `hook_call` in code, for a list of hook names.
pub fn hook_call_exec(ast: &Ast, i: usize, names: &[&str]) -> (b: bool)
    requires
        ast.wf(),
        i < ast.nodes@.len(),
    ensures
        b == hook_call(*ast, i as int, names@.map_values(|n: &str| n@)),
{
    if !ast.is_kind(i, "CallExpression") {
        return false;
    }
    match ast.child_of(i, "callee") {
        Some(c) => {
            let u = unparen_exec(ast, c);
            if ast.is_kind(u, "Identifier") {
                match ident_name_exec(ast, u) {
                    Some(n) => one_of(&n, names),
                    None => false,
                }
            } else {
                ast.is_kind(u, "MemberExpression") && match ast.child_of(u, "object") {
                    Some(o) => is_ident_exec(ast, o, "React"),
                    None => false,
                } && match member_static_name_exec(ast, u) {
                    Some(n) => one_of(&n, names),
                    None => false,
                }
            }
        },
        None => false,
    }
}

/// The hooks whose dependency arrays the rules read.
pub open spec fn dependency_hooks() -> Seq<Seq<char>> {
    seq!["useEffect"@, "useLayoutEffect"@, "useMemo"@, "useCallback"@]
}

/// The module names that mean a file imports React.
pub open spec fn react_sources() -> Seq<Seq<char>> {
    seq!["react"@, "react/jsx-runtime"@, "react/jsx-dev-runtime"@, "next"@, "next/react"@]
}

/// The source module of import declaration `i`.
pub open spec fn import_source(ast: Ast, i: int) -> Option<Seq<char>> {
    if ast.is(i, "ImportDeclaration"@) {
        match ast.child(i, "source"@) {
            Some(s) => string_value(ast, s),
            None => None,
        }
    } else {
        None
    }
}

/// `import_source` in code.
pub fn import_source_exec(ast: &Ast, i: usize) -> (r: Option<Vec<char>>)
    requires
        ast.wf(),
        i < ast.nodes@.len(),
    ensures
        opt_seq(r) == import_source(*ast, i as int),
{
    if !ast.is_kind(i, "ImportDeclaration") {
        return None;
    }
    match ast.child_of(i, "source") {
        Some(s) => string_value_exec(ast, s),
        None => None,
    }
}

/// Node `i` imports React (or Next.js).
pub open spec fn react_import_at(ast: Ast, i: int) -> bool {
    match import_source(ast, i) {
        Some(s) => react_sources().contains(s),
        None => false,
    }
}

/// Node `i` calls a React hook.
pub open spec fn react_call_at(ast: Ast, i: int) -> bool {
    ast.is(i, "CallExpression"@) && (hook_call(ast, i, dependency_hooks()) || match ast.child(i, "callee"@) {
        Some(c) => callee_static_name(ast, c) == Some("useState"@) || callee_static_name(ast, c) == Some(
            "useReducer"@,
        ),
        None => false,
    })
}

/// Node `i` shows that the file uses React.
pub open spec fn uses_react_at(ast: Ast, i: int) -> bool {
    ||| ast.is(i, "JSXElement"@)
    ||| ast.is(i, "JSXFragment"@)
    ||| react_import_at(ast, i)
    ||| react_call_at(ast, i)
}

/// Some node of the file shows that it uses React.
pub open spec fn file_uses_react(ast: Ast) -> bool {
    exists|i: int| 0 <= i < ast.nodes@.len() && #[trigger] uses_react_at(ast, i)
}

fn react_import_at_exec(ast: &Ast, i: usize) -> (b: bool)
    requires
        ast.wf(),
        i < ast.nodes@.len(),
    ensures
        b == react_import_at(*ast, i as int),
{
    match import_source_exec(ast, i) {
        Some(s) => {
            let sources = ["react", "react/jsx-runtime", "react/jsx-dev-runtime", "next", "next/react"];
            let r = one_of(&s, &sources);
            assert(sources@.map_values(|n: &str| n@) =~= react_sources());
            r
        },
        None => false,
    }
}

fn react_call_at_exec(ast: &Ast, i: usize) -> (b: bool)
    requires
        ast.wf(),
        i < ast.nodes@.len(),
    ensures
        b == react_call_at(*ast, i as int),
{
    if !ast.is_kind(i, "CallExpression") {
        return false;
    }
    let hooks = ["useEffect", "useLayoutEffect", "useMemo", "useCallback"];
    let h = hook_call_exec(ast, i, &hooks);
    assert(hooks@.map_values(|n: &str| n@) =~= dependency_hooks());
    if h {
        return true;
    }
    match ast.child_of(i, "callee") {
        Some(c) => match callee_static_name_exec(ast, c) {
            Some(n) => eq_str(&n, "useState") || eq_str(&n, "useReducer"),
            None => false,
        },
        None => false,
    }
}

fn uses_react_at_exec(ast: &Ast, i: usize) -> (b: bool)
    requires
        ast.wf(),
        i < ast.nodes@.len(),
    ensures
        b == uses_react_at(*ast, i as int),
{
    ast.is_kind(i, "JSXElement") || ast.is_kind(i, "JSXFragment") || react_import_at_exec(ast, i)
        || react_call_at_exec(ast, i)
}

/// `file_uses_react` in code.
pub fn file_uses_react_exec(ast: &Ast) -> (b: bool)
    requires
        ast.wf(),
    ensures
        b == file_uses_react(*ast),
{
    let mut i: usize = 0;
    while i < ast.nodes.len()
        invariant
            ast.wf(),
            i <= ast.nodes@.len(),
            forall|k: int| 0 <= k < i ==> !#[trigger] uses_react_at(*ast, k),
        decreases ast.nodes@.len() - i,
    {
        if uses_react_at_exec(ast, i) {
            return true;
        }
        i = i + 1;
    }
    false
}

/// The text of a namespaced JSX name: `svg:rect`.
pub open spec fn namespaced_name(ast: Ast, n: int) -> Option<Seq<char>> {
    match (ast.child(n, "namespace"@), ast.child(n, "name"@)) {
        (Some(a), Some(b)) => match (ast.text(a, "name"@), ast.text(b, "name"@)) {
            (Some(x), Some(y)) => Some(x + ":"@ + y),
            _ => None,
        },
        _ => None,
    }
}

fn namespaced_name_exec(ast: &Ast, n: usize) -> (r: Option<Vec<char>>)
    requires
        ast.wf(),
        n < ast.nodes@.len(),
    ensures
        opt_seq(r) == namespaced_name(*ast, n as int),
{
    match (ast.child_of(n, "namespace"), ast.child_of(n, "name")) {
        (Some(a), Some(b)) => match (ast.text_of(a, "name"), ast.text_of(b, "name")) {
            (Some(x), Some(y)) => {
                let mut out = x.clone();
                out.push(':');
                out.append(&mut y.clone());
                proof {
                    reveal_strlit(":");
                    assert(out@ =~= x@ + ":"@ + y@);
                }
                Some(out)
            },
            _ => None,
        },
        _ => None,
    }
}

/// Joins `x` and `y` with a dot.
fn dotted(x: &Vec<char>, y: &Vec<char>) -> (r: Vec<char>)
    ensures
        r@ == x@ + "."@ + y@,
{
    let mut out = x.clone();
    out.push('.');
    out.append(&mut y.clone());
    proof {
        reveal_strlit(".");
        assert(out@ =~= x@ + "."@ + y@);
    }
    out
}

/// The text of a JSX element name: `div`, `motion.div`, `svg:rect`.
pub open spec fn jsx_name(ast: Ast, n: int) -> Option<Seq<char>>
    decreases ast.nodes@.len() - n,
{
    if !(0 <= n < ast.nodes@.len()) {
        None
    } else if ast.is(n, "JSXIdentifier"@) {
        ast.text(n, "name"@)
    } else if ast.is(n, "JSXNamespacedName"@) {
        namespaced_name(ast, n)
    } else if ast.is(n, "JSXMemberExpression"@) {
        match (ast.child(n, "object"@), ast.child(n, "property"@)) {
            (Some(o), Some(p)) => if n < o < ast.nodes@.len() {
                match (jsx_name(ast, o), ast.text(p, "name"@)) {
                    (Some(x), Some(y)) => Some(x + "."@ + y),
                    _ => None,
                }
            } else {
                None
            },
            _ => None,
        }
    } else {
        None
    }
}

/// `jsx_name` in code.
pub fn jsx_name_exec(ast: &Ast, n: usize) -> (r: Option<Vec<char>>)
    requires
        ast.wf(),
        n < ast.nodes@.len(),
    ensures
        opt_seq(r) == jsx_name(*ast, n as int),
    decreases ast.nodes@.len() - n,
{
    if ast.is_kind(n, "JSXIdentifier") {
        match ast.text_of(n, "name") {
            Some(t) => Some(t.clone()),
            None => None,
        }
    } else if ast.is_kind(n, "JSXNamespacedName") {
        namespaced_name_exec(ast, n)
    } else if ast.is_kind(n, "JSXMemberExpression") {
        match (ast.child_of(n, "object"), ast.child_of(n, "property")) {
            (Some(o), Some(p)) => match (jsx_name_exec(ast, o), ast.text_of(p, "name")) {
                (Some(x), Some(y)) => Some(dotted(&x, y)),
                _ => None,
            },
            _ => None,
        }
    } else {
        None
    }
}

/// The name of the element that JSX opening element `o` opens.
pub open spec fn opening_name(ast: Ast, o: int) -> Option<Seq<char>> {
    match ast.child(o, "name"@) {
        Some(n) => jsx_name(ast, n),
        None => None,
    }
}

/// `opening_name` in code.
pub fn opening_name_exec(ast: &Ast, o: usize) -> (r: Option<Vec<char>>)
    requires
        ast.wf(),
        o < ast.nodes@.len(),
    ensures
        opt_seq(r) == opening_name(*ast, o as int),
{
    match ast.child_of(o, "name") {
        Some(n) => jsx_name_exec(ast, n),
        None => None,
    }
}

/// The name of attribute `a` when it is a plain identifier (`layout`, not `xlink:href`).
pub open spec fn attr_ident(ast: Ast, a: int) -> Option<Seq<char>> {
    if ast.is(a, "JSXAttribute"@) {
        match ast.child(a, "name"@) {
            Some(n) => if ast.is(n, "JSXIdentifier"@) {
                ast.text(n, "name"@)
            } else {
                None
            },
            None => None,
        }
    } else {
        None
    }
}

/// `attr_ident` in code.
pub fn attr_ident_exec(ast: &Ast, a: usize) -> (r: Option<Vec<char>>)
    requires
        ast.wf(),
        a < ast.nodes@.len(),
    ensures
        opt_seq(r) == attr_ident(*ast, a as int),
{
    if !ast.is_kind(a, "JSXAttribute") {
        return None;
    }
    match ast.child_of(a, "name") {
        Some(n) => if ast.is_kind(n, "JSXIdentifier") {
            match ast.text_of(n, "name") {
                Some(t) => Some(t.clone()),
                None => None,
            }
        } else {
            None
        },
        None => None,
    }
}

/// Attribute `a` is the plain identifier `name`.
pub open spec fn attr_is(ast: Ast, a: int, name: Seq<char>) -> bool {
    attr_ident(ast, a) == Some(name)
}

/// `attr_is` in code.
pub fn attr_is_exec(ast: &Ast, a: usize, name: &str) -> (b: bool)
    requires
        ast.wf(),
        a < ast.nodes@.len(),
    ensures
        b == attr_is(*ast, a as int, name@),
{
    match attr_ident_exec(ast, a) {
        Some(t) => eq_str(&t, name),
        None => false,
    }
}

/// The expression inside attribute `a`'s `{...}` value, if it holds one.
pub open spec fn attr_expression(ast: Ast, a: int) -> Option<int> {
    match ast.child(a, "value"@) {
        Some(v) => if ast.is(v, "JSXExpressionContainer"@) {
            match ast.child(v, "expression"@) {
                Some(e) => if ast.is(e, "JSXEmptyExpression"@) {
                    None
                } else {
                    Some(e)
                },
                None => None,
            }
        } else {
            None
        },
        None => None,
    }
}

/// `attr_expression` in code.
pub fn attr_expression_exec(ast: &Ast, a: usize) -> (r: Option<usize>)
    requires
        ast.wf(),
        a < ast.nodes@.len(),
    ensures
        match r {
            Some(e) => e < ast.nodes@.len() && attr_expression(*ast, a as int) == Some(e as int),
            None => attr_expression(*ast, a as int) is None,
        },
{
    match ast.child_of(a, "value") {
        Some(v) => if ast.is_kind(v, "JSXExpressionContainer") {
            match ast.child_of(v, "expression") {
                Some(e) => if ast.is_kind(e, "JSXEmptyExpression") {
                    None
                } else {
                    Some(e)
                },
                None => None,
            }
        } else {
            None
        },
        None => None,
    }
}

/// Expression `e` builds a new object, array or function each time it runs.
pub open spec fn unstable_expression(ast: Ast, e: int) -> bool {
    let u = unparen(ast, e);
    ||| ast.is(u, "ObjectExpression"@)
    ||| ast.is(u, "ArrayExpression"@)
    ||| ast.is(u, "ArrowFunctionExpression"@)
    ||| ast.is(u, "FunctionExpression"@)
}

/// `unstable_expression` in code.
pub fn unstable_expression_exec(ast: &Ast, e: usize) -> (b: bool)
    requires
        ast.wf(),
        e < ast.nodes@.len(),
    ensures
        b == unstable_expression(*ast, e as int),
{
    let u = unparen_exec(ast, e);
    ast.is_kind(u, "ObjectExpression") || ast.is_kind(u, "ArrayExpression") || ast.is_kind(
        u,
        "ArrowFunctionExpression",
    ) || ast.is_kind(u, "FunctionExpression")
}

/// Attribute `a` passes a freshly built object, array or function.
pub open spec fn unstable_attr(ast: Ast, a: int) -> bool {
    match attr_expression(ast, a) {
        Some(e) => unstable_expression(ast, e),
        None => false,
    }
}

/// `unstable_attr` in code.
pub fn unstable_attr_exec(ast: &Ast, a: usize) -> (b: bool)
    requires
        ast.wf(),
        a < ast.nodes@.len(),
    ensures
        b == unstable_attr(*ast, a as int),
{
    match attr_expression_exec(ast, a) {
        Some(e) => unstable_expression_exec(ast, e),
        None => false,
    }
}

/// Identifier node `i` is a reference (not a binding or a property name),
/// as the semantic analysis records it.
pub open spec fn is_reference(ast: Ast, refs: Seq<ReferenceFact>, i: int) -> bool {
    &&& ast.is(i, "Identifier"@)
    &&& exists|k: int|
        #![trigger refs[k]]
        0 <= k < refs.len() && refs[k].start == ast.nodes@[i].start && refs[k].end == ast.nodes@[i].end
}

/// `is_reference` in code.
pub fn is_reference_exec(ast: &Ast, refs: &Vec<ReferenceFact>, i: usize) -> (b: bool)
    requires
        i < ast.nodes@.len(),
    ensures
        b == is_reference(*ast, refs@, i as int),
{
    if !ast.is_kind(i, "Identifier") {
        return false;
    }
    let (s, e) = (ast.nodes[i].start, ast.nodes[i].end);
    let mut k: usize = 0;
    while k < refs.len()
        invariant
            k <= refs@.len(),
            i < ast.nodes@.len(),
            ast.is(i as int, "Identifier"@),
            s == ast.nodes@[i as int].start,
            e == ast.nodes@[i as int].end,
            forall|q: int| #![trigger refs@[q]] 0 <= q < k ==> !(refs@[q].start == s && refs@[q].end == e),
        decreases refs@.len() - k,
    {
        if refs[k].start == s && refs[k].end == e {
            assert(refs@[k as int].start == ast.nodes@[i as int].start);
            return true;
        }
        k = k + 1;
    }
    false
}

} // verus!
