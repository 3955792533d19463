//! `nextjs/no-search-params-without-suspense`: a component that reads the
//! URL's search parameters, directly or through the hooks it calls, must be
//! rendered inside `<Suspense>`.
use vstd::prelude::*;

use crate::ast::{wf_nodes, Ast};
use crate::engine::{gated, lemma_views_append, opt_diag, reports, scan_nodes, views, DiagView, LintContext};
use crate::project::ProjectInfo;
use crate::estree::{
    ident_name, ident_name_exec, nearest_ancestor, nearest_ancestor_exec, opt_seq, unparen, unparen_exec,
};
use crate::lint::{LintDiagnostic, Severity};
use crate::rules::react::helpers::{
    callee_static_name, callee_static_name_exec, component_name, is_component_name, is_custom_hook_name,
    opening_name, opening_name_exec, prefixed_upper,
};
use crate::text::{chars_of, eq_chars, eq_str, string_of};

verus! {

pub open spec fn search_rule() -> Seq<char> {
    "nextjs/no-search-params-without-suspense"@
}

pub open spec fn search_message() -> Seq<char> {
    "Wrap `useSearchParams()` consumers in `<Suspense>`"@
}

// ── Symbols ────────────────────────────────────────────────

/// Names the rule follows: custom hooks and components.
pub open spec fn symbol_name(n: Seq<char>) -> bool {
    prefixed_upper(n, "use"@) || component_name(n)
}

/// A function declaration or expression.
pub open spec fn is_function(ast: Ast, i: int) -> bool {
    ast.is(i, "FunctionDeclaration"@) || ast.is(i, "FunctionExpression"@)
}

/// The name node `d` defines as a symbol: a function with a body named
/// like a hook or component, or a variable of that name initialised with
/// a function or arrow function.
pub open spec fn defined_name(ast: Ast, d: int) -> Option<Seq<char>> {
    if is_function(ast, d) && ast.child(d, "body"@) is Some {
        match ast.child(d, "id"@) {
            Some(id) => match ident_name(ast, id) {
                Some(n) => if symbol_name(n) {
                    Some(n)
                } else {
                    None
                },
                None => None,
            },
            None => None,
        }
    } else if ast.is(d, "VariableDeclarator"@) {
        match (ast.child(d, "id"@), ast.child(d, "init"@)) {
            (Some(id), Some(init)) => {
                let u = unparen(ast, init);
                if ast.is(u, "ArrowFunctionExpression"@) || ast.is(u, "FunctionExpression"@) {
                    match ident_name(ast, id) {
                        Some(n) => if symbol_name(n) {
                            Some(n)
                        } else {
                            None
                        },
                        None => None,
                    }
                } else {
                    None
                }
            },
            _ => None,
        }
    } else {
        None
    }
}

/// The names the first `n` nodes define, each once, in order of first definition.
pub open spec fn symbol_list(ast: Ast, n: int) -> Seq<Seq<char>>
    decreases n,
{
    if n <= 0 {
        Seq::empty()
    } else {
        let l = symbol_list(ast, n - 1);
        match defined_name(ast, n - 1) {
            Some(s) => if l.contains(s) {
                l
            } else {
                l.push(s)
            },
            None => l,
        }
    }
}

/// The symbols of the file, in order of first definition.
pub open spec fn symbols(ast: Ast) -> Seq<Seq<char>> {
    symbol_list(ast, ast.nodes@.len() as int)
}

/// `s` is a symbol of the file.
#[verifier::opaque]
pub open spec fn defined(ast: Ast, s: Seq<char>) -> bool {
    symbols(ast).contains(s)
}

/// Hooks are named `use` then an upper-case letter; the other symbols are components.
pub open spec fn is_hook(s: Seq<char>) -> bool {
    prefixed_upper(s, "use"@)
}

/// The symbol a variable declarator binds, when it is one.
pub open spec fn declarator_symbol(ast: Ast, p: int) -> Option<Seq<char>> {
    if ast.is(p, "VariableDeclarator"@) {
        match ast.child(p, "id"@) {
            Some(id) => match ident_name(ast, id) {
                Some(n) => if defined(ast, n) {
                    Some(n)
                } else {
                    None
                },
                None => None,
            },
            None => None,
        }
    } else {
        None
    }
}

/// The symbol whose body node `a` is: a function named after a symbol, or
/// a function or arrow function bound to a symbol's variable.
pub open spec fn ancestor_symbol(ast: Ast, a: int) -> Option<Seq<char>> {
    if is_function(ast, a) {
        let own = match ast.child(a, "id"@) {
            Some(id) => ident_name(ast, id),
            None => None,
        };
        match own {
            Some(n) => if defined(ast, n) {
                Some(n)
            } else {
                declarator_symbol(ast, ast.nodes@[a].parent as int)
            },
            None => declarator_symbol(ast, ast.nodes@[a].parent as int),
        }
    } else if ast.is(a, "ArrowFunctionExpression"@) {
        declarator_symbol(ast, ast.nodes@[a].parent as int)
    } else {
        None
    }
}

/// The symbol whose body holds node `x`: that of its nearest ancestor that
/// is one.
#[verifier::opaque]
pub open spec fn owner(ast: Ast, x: int) -> Option<Seq<char>> {
    match nearest_ancestor(ast, x, |a: int| ancestor_symbol(ast, a) is Some) {
        Some(a) => ancestor_symbol(ast, a),
        None => None,
    }
}

// ── Calls and renders ──────────────────────────────────────

/// Node `c` is a call of `useSearchParams`.
#[verifier::opaque]
pub open spec fn direct_call(ast: Ast, c: int) -> bool {
    ast.is(c, "CallExpression"@) && match ast.child(c, "callee"@) {
        Some(e) => callee_static_name(ast, e) == Some("useSearchParams"@),
        None => false,
    }
}

/// The symbol node `c` calls by its plain name, when it is another call.
#[verifier::opaque]
pub open spec fn call_target(ast: Ast, c: int) -> Option<Seq<char>> {
    if ast.is(c, "CallExpression"@) && !direct_call(ast, c) {
        match ast.child(c, "callee"@) {
            Some(e) => match ident_name(ast, unparen(ast, e)) {
                Some(t) => if defined(ast, t) {
                    Some(t)
                } else {
                    None
                },
                None => None,
            },
            None => None,
        }
    } else {
        None
    }
}

/// Symbol `s` calls `useSearchParams` itself.
pub open spec fn has_direct(ast: Ast, s: Seq<char>) -> bool {
    exists|c: int| 0 <= c < ast.nodes@.len() && #[trigger] direct_call(ast, c) && owner(ast, c) == Some(s)
}

/// Symbol `s` reaches `useSearchParams` through at most `fuel` symbols:
/// itself, or one it calls.
pub open spec fn reaches(ast: Ast, s: Seq<char>, fuel: nat) -> bool
    decreases fuel,
{
    fuel > 0 && (has_direct(ast, s) || exists|c: int|
        0 <= c < ast.nodes@.len() && owner(ast, c) == Some(s) && #[trigger] call_target(ast, c) is Some
            && reaches(ast, call_target(ast, c)->Some_0, (fuel - 1) as nat))
}

/// Symbol `s` reads the search parameters, directly or through the hooks
/// and components it calls.
pub open spec fn needs_suspense(ast: Ast, s: Seq<char>) -> bool {
    reaches(ast, s, ast.nodes@.len())
}

/// The component that JSX opening element `o` is rendered by.
pub open spec fn render_owner(ast: Ast, o: int) -> Option<Seq<char>> {
    if ast.is(o, "JSXOpeningElement"@) {
        match owner(ast, o) {
            Some(s) => if !is_hook(s) {
                Some(s)
            } else {
                None
            },
            None => None,
        }
    } else {
        None
    }
}

/// The symbol that JSX opening element `o` renders, when a component
/// renders it.
#[verifier::opaque]
pub open spec fn render_target(ast: Ast, o: int) -> Option<Seq<char>> {
    if render_owner(ast, o) is Some {
        match opening_name(ast, o) {
            Some(t) => if defined(ast, t) {
                Some(t)
            } else {
                None
            },
            None => None,
        }
    } else {
        None
    }
}

/// Node `a` is a `<Suspense>` element.
pub open spec fn suspense_element(ast: Ast, a: int) -> bool {
    ast.is(a, "JSXElement"@) && match ast.child(a, "openingElement"@) {
        Some(q) => opening_name(ast, q) == Some("Suspense"@),
        None => false,
    }
}

/// Node `o` sits inside a `<Suspense>` element.
pub open spec fn wrapped(ast: Ast, o: int) -> bool {
    nearest_ancestor(ast, o, |a: int| suspense_element(ast, a)) is Some
}

/// Some component renders symbol `s`.
pub open spec fn rendered(ast: Ast, s: Seq<char>) -> bool {
    exists|o: int| 0 <= o < ast.nodes@.len() && #[trigger] render_target(ast, o) == Some(s)
}


// ── Tables in code ─────────────────────────────────────────

/// The texts of a list of names.
pub open spec fn name_views(v: Seq<Vec<char>>) -> Seq<Seq<char>> {
    v.map_values(|x: Vec<char>| x@)
}

/// No name occurs twice.
pub open spec fn distinct_names(l: Seq<Seq<char>>) -> bool {
    forall|i: int, j: int| 0 <= i < j < l.len() ==> #[trigger] l[i] != #[trigger] l[j]
}

proof fn lemma_symbol_list_distinct(ast: Ast, n: int)
    ensures
        distinct_names(symbol_list(ast, n)),
    decreases n,
{
    if n > 0 {
        lemma_symbol_list_distinct(ast, n - 1);
        let l = symbol_list(ast, n - 1);
        if let Some(s) = defined_name(ast, n - 1) {
            if !l.contains(s) {
                assert forall|i: int, j: int| 0 <= i < j < l.push(s).len() implies #[trigger] l.push(s)[i]
                    != #[trigger] l.push(s)[j] by {
                    if j == l.len() {
                        assert(l[i] == l.push(s)[i]);
                    }
                }
            }
        }
    }
}

fn find_name(names: &Vec<Vec<char>>, n: &Vec<char>) -> (r: Option<usize>)
    ensures
        match r {
            Some(k) => k < names@.len() && names@[k as int]@ == n@,
            None => !name_views(names@).contains(n@),
        },
{
    let mut k: usize = 0;
    while k < names.len()
        invariant
            k <= names@.len(),
            forall|m: int| 0 <= m < k ==> names@[m]@ != n@,
        decreases names@.len() - k,
    {
        if eq_chars(&names[k], n) {
            return Some(k);
        }
        k = k + 1;
    }
    proof {
        if name_views(names@).contains(n@) {
            let m = choose|m: int| 0 <= m < name_views(names@).len() && name_views(names@)[m] == n@;
            assert(names@[m]@ == n@);
        }
    }
    None
}

fn symbol_name_exec(n: &Vec<char>) -> (b: bool)
    ensures
        b == symbol_name(n@),
{
    let t = string_of(n);
    is_custom_hook_name(t.as_str()) || is_component_name(t.as_str())
}

#[verifier::rlimit(30)]
fn defined_name_exec(ast: &Ast, d: usize) -> (r: Option<Vec<char>>)
    requires
        ast.wf(),
        d < ast.nodes@.len(),
    ensures
        opt_seq(r) == defined_name(*ast, d as int),
{
    if (ast.is_kind(d, "FunctionDeclaration") || ast.is_kind(d, "FunctionExpression")) && ast.child_of(
        d,
        "body",
    ).is_some() {
        match ast.child_of(d, "id") {
            Some(id) => match ident_name_exec(ast, id) {
                Some(n) => if symbol_name_exec(&n) {
                    Some(n)
                } else {
                    None
                },
                None => None,
            },
            None => None,
        }
    } else if ast.is_kind(d, "VariableDeclarator") {
        match (ast.child_of(d, "id"), ast.child_of(d, "init")) {
            (Some(id), Some(init)) => {
                let u = unparen_exec(ast, init);
                if ast.is_kind(u, "ArrowFunctionExpression") || ast.is_kind(u, "FunctionExpression") {
                    match ident_name_exec(ast, id) {
                        Some(n) => if symbol_name_exec(&n) {
                            Some(n)
                        } else {
                            None
                        },
                        None => None,
                    }
                } else {
                    None
                }
            },
            _ => None,
        }
    } else {
        None
    }
}

/// The file's symbols, in order of first definition.
fn symbols_exec(ast: &Ast) -> (r: Vec<Vec<char>>)
    requires
        ast.wf(),
    ensures
        name_views(r@) == symbols(*ast),
        distinct_names(symbols(*ast)),
{
    let mut names: Vec<Vec<char>> = Vec::new();
    let mut d: usize = 0;
    assert(name_views(names@) =~= symbol_list(*ast, 0));
    while d < ast.nodes.len()
        invariant
            ast.wf(),
            d <= ast.nodes@.len(),
            name_views(names@) == symbol_list(*ast, d as int),
        decreases ast.nodes@.len() - d,
    {
        match defined_name_exec(ast, d) {
            Some(n) => {
                if find_name(&names, &n).is_none() {
                    let ghost before = names@;
                    names.push(n);
                    assert(name_views(names@) =~= name_views(before).push(n@));
                } else {
                    proof {
                        let k = choose|k: int| 0 <= k < names@.len() && names@[k]@ == n@;
                        assert(name_views(names@)[k] == n@);
                    }
                }
            },
            None => {},
        }
        d = d + 1;
    }
    proof {
        lemma_symbol_list_distinct(*ast, ast.nodes@.len() as int);
    }
    names
}

/// `names` are the file's symbols.
pub open spec fn names_ok(ast: &Ast, names: &Vec<Vec<char>>) -> bool {
    name_views(names@) == symbols(*ast)
}

/// The index in `names` of a name, given the names are the file's symbols.
fn index_of(names: &Vec<Vec<char>>, n: &Vec<char>, Ghost(ast): Ghost<Ast>) -> (r: Option<usize>)
    requires
        name_views(names@) == symbols(ast),
    ensures
        match r {
            Some(k) => k < names@.len() && names@[k as int]@ == n@ && defined(ast, n@),
            None => !defined(ast, n@),
        },
{
    let r = find_name(names, n);
    proof {
        reveal(defined);
        if let Some(k) = r {
            assert(name_views(names@)[k as int] == n@);
        }
    }
    r
}

fn declarator_symbol_exec(ast: &Ast, names: &Vec<Vec<char>>, p: usize) -> (r: Option<usize>)
    requires
        ast.wf(),
        p < ast.nodes@.len(),
        name_views(names@) == symbols(*ast),
    ensures
        match r {
            Some(k) => k < names@.len() && declarator_symbol(*ast, p as int) == Some(names@[k as int]@),
            None => declarator_symbol(*ast, p as int) is None,
        },
{
    if !ast.is_kind(p, "VariableDeclarator") {
        return None;
    }
    match ast.child_of(p, "id") {
        Some(id) => match ident_name_exec(ast, id) {
            Some(n) => index_of(names, &n, Ghost(*ast)),
            None => None,
        },
        None => None,
    }
}

fn ancestor_symbol_exec(ast: &Ast, names: &Vec<Vec<char>>, a: usize) -> (r: Option<usize>)
    requires
        ast.wf(),
        a < ast.nodes@.len(),
        name_views(names@) == symbols(*ast),
    ensures
        match r {
            Some(k) => k < names@.len() && ancestor_symbol(*ast, a as int) == Some(names@[k as int]@),
            None => ancestor_symbol(*ast, a as int) is None,
        },
{
    let parent = ast.nodes[a].parent;
    if ast.is_kind(a, "FunctionDeclaration") || ast.is_kind(a, "FunctionExpression") {
        let own = match ast.child_of(a, "id") {
            Some(id) => ident_name_exec(ast, id),
            None => None,
        };
        match own {
            Some(n) => match index_of(names, &n, Ghost(*ast)) {
                Some(k) => Some(k),
                None => declarator_symbol_exec(ast, names, parent),
            },
            None => declarator_symbol_exec(ast, names, parent),
        }
    } else if ast.is_kind(a, "ArrowFunctionExpression") {
        declarator_symbol_exec(ast, names, parent)
    } else {
        None
    }
}

/// The index of the symbol whose body holds node `x`.
fn owner_exec(ast: &Ast, names: &Vec<Vec<char>>, x: usize) -> (r: Option<usize>)
    requires
        ast.wf(),
        x < ast.nodes@.len(),
        name_views(names@) == symbols(*ast),
    ensures
        match r {
            Some(k) => k < names@.len() && owner(*ast, x as int) == Some(names@[k as int]@),
            None => owner(*ast, x as int) is None,
        },
{
    reveal(owner);
    let test = |a: usize| -> (b: bool)
        requires
            wf_nodes(ast.nodes@),
            a < ast.nodes@.len(),
            names_ok(ast, names),
        ensures
            b == (ancestor_symbol(*ast, a as int) is Some),
    { ancestor_symbol_exec(ast, names, a).is_some() };
    match nearest_ancestor_exec(ast, x, test, Ghost(|a: int| ancestor_symbol(*ast, a) is Some)) {
        Some(a) => ancestor_symbol_exec(ast, names, a),
        None => None,
    }
}

proof fn lemma_owner_defined(ast: Ast, x: int)
    ensures
        owner(ast, x) matches Some(s) ==> defined(ast, s),
{
    reveal(owner);
}

fn direct_call_exec(ast: &Ast, c: usize) -> (b: bool)
    requires
        ast.wf(),
        c < ast.nodes@.len(),
    ensures
        b == direct_call(*ast, c as int),
{
    reveal(direct_call);
    if !ast.is_kind(c, "CallExpression") {
        return false;
    }
    match ast.child_of(c, "callee") {
        Some(e) => match callee_static_name_exec(ast, e) {
            Some(n) => eq_str(&n, "useSearchParams"),
            None => false,
        },
        None => false,
    }
}

fn call_target_exec(ast: &Ast, names: &Vec<Vec<char>>, c: usize) -> (r: Option<usize>)
    requires
        ast.wf(),
        c < ast.nodes@.len(),
        names_ok(ast, names),
    ensures
        match r {
            Some(k) => k < names@.len() && call_target(*ast, c as int) == Some(names@[k as int]@),
            None => call_target(*ast, c as int) is None,
        },
{
    reveal(call_target);
    if !ast.is_kind(c, "CallExpression") || direct_call_exec(ast, c) {
        return None;
    }
    match ast.child_of(c, "callee") {
        Some(e) => match ident_name_exec(ast, unparen_exec(ast, e)) {
            Some(t) => index_of(names, &t, Ghost(*ast)),
            None => None,
        },
        None => None,
    }
}

fn is_hook_exec(n: &Vec<char>) -> (b: bool)
    ensures
        b == is_hook(n@),
{
    is_custom_hook_name(string_of(n).as_str())
}

fn render_target_exec(ast: &Ast, names: &Vec<Vec<char>>, o: usize, own: Option<usize>) -> (r: Option<usize>)
    requires
        ast.wf(),
        o < ast.nodes@.len(),
        names_ok(ast, names),
        match own {
            Some(k) => k < names@.len() && owner(*ast, o as int) == Some(names@[k as int]@),
            None => owner(*ast, o as int) is None,
        },
    ensures
        match r {
            Some(k) => k < names@.len() && render_target(*ast, o as int) == Some(names@[k as int]@),
            None => render_target(*ast, o as int) is None,
        },
{
    reveal(render_target);
    if !ast.is_kind(o, "JSXOpeningElement") {
        return None;
    }
    match own {
        Some(k) => {
            if is_hook_exec(&names[k]) {
                return None;
            }
        },
        None => {
            return None;
        },
    }
    match opening_name_exec(ast, o) {
        Some(t) => index_of(names, &t, Ghost(*ast)),
        None => None,
    }
}

fn suspense_element_exec(ast: &Ast, a: usize) -> (b: bool)
    requires
        wf_nodes(ast.nodes@),
        a < ast.nodes@.len(),
    ensures
        b == suspense_element(*ast, a as int),
{
    if !ast.is_kind(a, "JSXElement") {
        return false;
    }
    match ast.child_of(a, "openingElement") {
        Some(q) => match opening_name_exec(ast, q) {
            Some(n) => eq_str(&n, "Suspense"),
            None => false,
        },
        None => false,
    }
}

fn wrapped_exec(ast: &Ast, o: usize) -> (b: bool)
    requires
        ast.wf(),
        o < ast.nodes@.len(),
    ensures
        b == wrapped(*ast, o as int),
{
    let test = |a: usize| -> (b: bool)
        requires
            wf_nodes(ast.nodes@),
            a < ast.nodes@.len(),
        ensures
            b == suspense_element(*ast, a as int),
    { suspense_element_exec(ast, a) };
    nearest_ancestor_exec(ast, o, test, Ghost(|a: int| suspense_element(*ast, a))).is_some()
}

/// What the rule reads of each node: the symbol it belongs to, whether it
/// calls `useSearchParams`, the symbol it calls, the symbol it renders.
struct NodeFacts {
    owners: Vec<Option<usize>>,
    directs: Vec<bool>,
    targets: Vec<Option<usize>>,
    renders: Vec<Option<usize>>,
}

/// `names` index the symbol named `s`.
pub open spec fn index_is(names: Seq<Vec<char>>, r: Option<usize>, s: Option<Seq<char>>) -> bool {
    match r {
        Some(k) => k < names.len() && s == Some(names[k as int]@),
        None => s is None,
    }
}

spec fn facts_ok(ast: &Ast, names: &Vec<Vec<char>>, f: &NodeFacts) -> bool {
    &&& f.owners@.len() == ast.nodes@.len()
    &&& f.directs@.len() == ast.nodes@.len()
    &&& f.targets@.len() == ast.nodes@.len()
    &&& f.renders@.len() == ast.nodes@.len()
    &&& forall|x: int| 0 <= x < ast.nodes@.len() ==> index_is(names@, #[trigger] f.owners@[x], owner(*ast, x))
    &&& forall|x: int| 0 <= x < ast.nodes@.len() ==> #[trigger] f.directs@[x] == direct_call(*ast, x)
    &&& forall|x: int| 0 <= x < ast.nodes@.len() ==> index_is(names@, #[trigger] f.targets@[x], call_target(*ast, x))
    &&& forall|x: int| 0 <= x < ast.nodes@.len() ==> index_is(names@, #[trigger] f.renders@[x], render_target(*ast, x))
}

fn owners_table(ast: &Ast, names: &Vec<Vec<char>>) -> (r: Vec<Option<usize>>)
    requires
        ast.wf(),
        names_ok(ast, names),
    ensures
        r@.len() == ast.nodes@.len(),
        forall|y: int| 0 <= y < ast.nodes@.len() ==> index_is(names@, #[trigger] r@[y], owner(*ast, y)),
{
    let mut r: Vec<Option<usize>> = Vec::new();
    let mut x: usize = 0;
    while x < ast.nodes.len()
        invariant
            ast.wf(),
            names_ok(ast, names),
            x <= ast.nodes@.len(),
            r@.len() == x,
            forall|y: int| 0 <= y < x ==> index_is(names@, #[trigger] r@[y], owner(*ast, y)),
        decreases ast.nodes@.len() - x,
    {
        r.push(owner_exec(ast, names, x));
        x = x + 1;
    }
    r
}

fn targets_table(ast: &Ast, names: &Vec<Vec<char>>) -> (r: Vec<Option<usize>>)
    requires
        ast.wf(),
        names_ok(ast, names),
    ensures
        r@.len() == ast.nodes@.len(),
        forall|y: int| 0 <= y < ast.nodes@.len() ==> index_is(names@, #[trigger] r@[y], call_target(*ast, y)),
{
    let mut r: Vec<Option<usize>> = Vec::new();
    let mut x: usize = 0;
    while x < ast.nodes.len()
        invariant
            ast.wf(),
            names_ok(ast, names),
            x <= ast.nodes@.len(),
            r@.len() == x,
            forall|y: int| 0 <= y < x ==> index_is(names@, #[trigger] r@[y], call_target(*ast, y)),
        decreases ast.nodes@.len() - x,
    {
        r.push(call_target_exec(ast, names, x));
        x = x + 1;
    }
    r
}

fn renders_table(ast: &Ast, names: &Vec<Vec<char>>, owners: &Vec<Option<usize>>) -> (r: Vec<Option<usize>>)
    requires
        ast.wf(),
        names_ok(ast, names),
        owners@.len() == ast.nodes@.len(),
        forall|y: int| 0 <= y < ast.nodes@.len() ==> index_is(names@, #[trigger] owners@[y], owner(*ast, y)),
    ensures
        r@.len() == ast.nodes@.len(),
        forall|y: int| 0 <= y < ast.nodes@.len() ==> index_is(names@, #[trigger] r@[y], render_target(*ast, y)),
{
    let mut r: Vec<Option<usize>> = Vec::new();
    let mut x: usize = 0;
    while x < ast.nodes.len()
        invariant
            ast.wf(),
            names_ok(ast, names),
            owners@.len() == ast.nodes@.len(),
            forall|y: int| 0 <= y < ast.nodes@.len() ==> index_is(names@, #[trigger] owners@[y], owner(*ast, y)),
            x <= ast.nodes@.len(),
            r@.len() == x,
            forall|y: int| 0 <= y < x ==> index_is(names@, #[trigger] r@[y], render_target(*ast, y)),
        decreases ast.nodes@.len() - x,
    {
        assert(index_is(names@, owners@[x as int], owner(*ast, x as int)));
        r.push(render_target_exec(ast, names, x, owners[x]));
        x = x + 1;
    }
    r
}

fn directs_table(ast: &Ast) -> (r: Vec<bool>)
    requires
        ast.wf(),
    ensures
        r@.len() == ast.nodes@.len(),
        forall|y: int| 0 <= y < ast.nodes@.len() ==> #[trigger] r@[y] == direct_call(*ast, y),
{
    let mut r: Vec<bool> = Vec::new();
    let mut x: usize = 0;
    while x < ast.nodes.len()
        invariant
            ast.wf(),
            x <= ast.nodes@.len(),
            r@.len() == x,
            forall|y: int| 0 <= y < x ==> #[trigger] r@[y] == direct_call(*ast, y),
        decreases ast.nodes@.len() - x,
    {
        r.push(direct_call_exec(ast, x));
        x = x + 1;
    }
    r
}

fn node_facts(ast: &Ast, names: &Vec<Vec<char>>) -> (f: NodeFacts)
    requires
        ast.wf(),
        names_ok(ast, names),
    ensures
        facts_ok(ast, names, &f),
{
    let owners = owners_table(ast, names);
    let renders = renders_table(ast, names, &owners);
    NodeFacts { owners, directs: directs_table(ast), targets: targets_table(ast, names), renders }
}

// ── What each symbol needs ─────────────────────────────────

proof fn lemma_reaches_defined(ast: Ast, s: Seq<char>, fuel: nat)
    ensures
        reaches(ast, s, fuel) ==> defined(ast, s),
{
    if reaches(ast, s, fuel) {
        if has_direct(ast, s) {
            let c = choose|c: int| 0 <= c < ast.nodes@.len() && #[trigger] direct_call(ast, c) && owner(ast, c) == Some(s);
            lemma_owner_defined(ast, c);
        } else {
            let c = choose|c: int|
                0 <= c < ast.nodes@.len() && owner(ast, c) == Some(s) && #[trigger] call_target(ast, c) is Some
                    && reaches(ast, call_target(ast, c)->Some_0, (fuel - 1) as nat);
            lemma_owner_defined(ast, c);
        }
    }
}

proof fn lemma_reaches_stable(ast: Ast, k: nat, m: nat)
    requires
        k <= m,
        forall|s: Seq<char>| #[trigger] reaches(ast, s, k + 1) == reaches(ast, s, k),
    ensures
        forall|s: Seq<char>| #[trigger] reaches(ast, s, m) == reaches(ast, s, k),
    decreases m - k,
{
    if m > k + 1 {
        lemma_reaches_stable(ast, k, (m - 1) as nat);
        lemma_reaches_stable(ast, k, (m - 2) as nat);
        assert forall|s: Seq<char>| #[trigger] reaches(ast, s, m) == reaches(ast, s, (m - 1) as nat) by {
            assert forall|c: int| 0 <= c < ast.nodes@.len() && owner(ast, c) == Some(s) && #[trigger] call_target(ast, c) is Some
                implies reaches(ast, call_target(ast, c)->Some_0, (m - 1) as nat) == reaches(
                ast,
                call_target(ast, c)->Some_0,
                (m - 2) as nat,
            ) by {
                assert(reaches(ast, call_target(ast, c)->Some_0, (m - 1) as nat) == reaches(ast, call_target(ast, c)->Some_0, k));
                assert(reaches(ast, call_target(ast, c)->Some_0, (m - 2) as nat) == reaches(ast, call_target(ast, c)->Some_0, k));
            }
        }
    }
}

/// Distinct symbols have distinct indexes.
proof fn lemma_index_unique(ast: Ast, names: Seq<Vec<char>>, i: int, j: int)
    requires
        name_views(names) == symbols(ast),
        distinct_names(symbols(ast)),
        0 <= i < names.len(),
        0 <= j < names.len(),
        names[i]@ == names[j]@,
    ensures
        i == j,
{
    assert(name_views(names)[i] == names[i]@);
    assert(name_views(names)[j] == names[j]@);
}

/// Each defined name has an index.
proof fn lemma_defined_indexed(ast: Ast, names: Seq<Vec<char>>, s: Seq<char>)
    requires
        name_views(names) == symbols(ast),
        defined(ast, s),
    ensures
        exists|i: int| 0 <= i < names.len() && #[trigger] names[i]@ == s,
{
    reveal(defined);
    let i = choose|i: int| 0 <= i < symbols(ast).len() && symbols(ast)[i] == s;
    assert(name_views(names)[i] == names[i]@);
}

spec fn per_symbol_ok(ast: &Ast, names: &Vec<Vec<char>>, f: &NodeFacts) -> bool {
    &&& ast.wf()
    &&& names_ok(ast, names)
    &&& distinct_names(symbols(*ast))
    &&& facts_ok(ast, names, f)
}

fn falses(m: usize) -> (r: Vec<bool>)
    ensures
        r@.len() == m,
        forall|i: int| 0 <= i < m ==> !#[trigger] r@[i],
{
    let mut r: Vec<bool> = Vec::new();
    while r.len() < m
        invariant
            r@.len() <= m,
            forall|i: int| 0 <= i < r@.len() ==> !#[trigger] r@[i],
        decreases m - r@.len(),
    {
        r.push(false);
    }
    r
}

/// For each symbol, whether it calls `useSearchParams` itself.
fn direct_symbols(ast: &Ast, names: &Vec<Vec<char>>, f: &NodeFacts) -> (r: Vec<bool>)
    requires
        per_symbol_ok(ast, names, f),
    ensures
        r@.len() == names@.len(),
        forall|i: int| 0 <= i < names@.len() ==> #[trigger] r@[i] == has_direct(*ast, names@[i]@),
{
    let mut r = falses(names.len());
    let mut c: usize = 0;
    while c < ast.nodes.len()
        invariant
            per_symbol_ok(ast, names, f),
            c <= ast.nodes@.len(),
            r@.len() == names@.len(),
            forall|i: int| 0 <= i < names@.len() ==> #[trigger] r@[i] == exists|d: int|
                0 <= d < c && #[trigger] direct_call(*ast, d) && owner(*ast, d) == Some(names@[i]@),
        decreases ast.nodes@.len() - c,
    {
        assert(f.directs@[c as int] == direct_call(*ast, c as int));
        assert(index_is(names@, f.owners@[c as int], owner(*ast, c as int)));
        let ghost before = r@;
        if f.directs[c] {
            match f.owners[c] {
                Some(k) => {
                    r.set(k, true);
                },
                None => {},
            }
        }
        proof {
            assert forall|i: int| 0 <= i < names@.len() implies #[trigger] r@[i] == exists|d: int|
                0 <= d < c + 1 && #[trigger] direct_call(*ast, d) && owner(*ast, d) == Some(names@[i]@) by {
                if direct_call(*ast, c as int) && owner(*ast, c as int) == Some(names@[i]@) {
                    let k = f.owners@[c as int]->Some_0;
                    lemma_index_unique(*ast, names@, i, k as int);
                } else {
                    if let Some(k) = f.owners@[c as int] {
                        if f.directs@[c as int] && k == i {
                            assert(owner(*ast, c as int) == Some(names@[i]@));
                        }
                    }
                }
            }
        }
        c = c + 1;
    }
    r
}

/// For each symbol, whether some component renders it.
fn rendered_symbols(ast: &Ast, names: &Vec<Vec<char>>, f: &NodeFacts) -> (r: Vec<bool>)
    requires
        per_symbol_ok(ast, names, f),
    ensures
        r@.len() == names@.len(),
        forall|i: int| 0 <= i < names@.len() ==> #[trigger] r@[i] == rendered(*ast, names@[i]@),
{
    let mut r = falses(names.len());
    let mut o: usize = 0;
    while o < ast.nodes.len()
        invariant
            per_symbol_ok(ast, names, f),
            o <= ast.nodes@.len(),
            r@.len() == names@.len(),
            forall|i: int| 0 <= i < names@.len() ==> #[trigger] r@[i] == exists|d: int|
                0 <= d < o && #[trigger] render_target(*ast, d) == Some(names@[i]@),
        decreases ast.nodes@.len() - o,
    {
        assert(index_is(names@, f.renders@[o as int], render_target(*ast, o as int)));
        match f.renders[o] {
            Some(k) => {
                r.set(k, true);
            },
            None => {},
        }
        proof {
            assert forall|i: int| 0 <= i < names@.len() implies #[trigger] r@[i] == exists|d: int|
                0 <= d < o + 1 && #[trigger] render_target(*ast, d) == Some(names@[i]@) by {
                if render_target(*ast, o as int) == Some(names@[i]@) {
                    let k = f.renders@[o as int]->Some_0;
                    lemma_index_unique(*ast, names@, i, k as int);
                }
            }
        }
        o = o + 1;
    }
    r
}

/// One step of the search: symbols that call `useSearchParams` or a
/// symbol already found.
fn reach_step(ast: &Ast, names: &Vec<Vec<char>>, f: &NodeFacts, direct: &Vec<bool>, r: &Vec<bool>, Ghost(k): Ghost<nat>) -> (next: Vec<bool>)
    requires
        per_symbol_ok(ast, names, f),
        direct@.len() == names@.len(),
        forall|i: int| 0 <= i < names@.len() ==> #[trigger] direct@[i] == has_direct(*ast, names@[i]@),
        r@.len() == names@.len(),
        forall|i: int| 0 <= i < names@.len() ==> #[trigger] r@[i] == reaches(*ast, names@[i]@, k),
    ensures
        next@.len() == names@.len(),
        forall|i: int| 0 <= i < names@.len() ==> #[trigger] next@[i] == reaches(*ast, names@[i]@, k + 1),
{
    let mut next: Vec<bool> = Vec::new();
    let mut i: usize = 0;
    while i < direct.len()
        invariant
            next@.len() == i,
            i <= direct@.len(),
            forall|j: int| 0 <= j < i ==> #[trigger] next@[j] == direct@[j],
        decreases direct@.len() - i,
    {
        next.push(direct[i]);
        i = i + 1;
    }
    let mut c: usize = 0;
    while c < ast.nodes.len()
        invariant
            per_symbol_ok(ast, names, f),
            direct@.len() == names@.len(),
            forall|i: int| 0 <= i < names@.len() ==> #[trigger] direct@[i] == has_direct(*ast, names@[i]@),
            r@.len() == names@.len(),
            forall|i: int| 0 <= i < names@.len() ==> #[trigger] r@[i] == reaches(*ast, names@[i]@, k),
            c <= ast.nodes@.len(),
            next@.len() == names@.len(),
            forall|i: int| 0 <= i < names@.len() ==> #[trigger] next@[i] == (has_direct(*ast, names@[i]@) || exists|d: int|
                0 <= d < c && owner(*ast, d) == Some(names@[i]@) && #[trigger] call_target(*ast, d) is Some
                    && reaches(*ast, call_target(*ast, d)->Some_0, k)),
        decreases ast.nodes@.len() - c,
    {
        assert(index_is(names@, f.owners@[c as int], owner(*ast, c as int)));
        assert(index_is(names@, f.targets@[c as int], call_target(*ast, c as int)));
        let ghost before = next@;
        match (f.owners[c], f.targets[c]) {
            (Some(i), Some(j)) => {
                if r[j] {
                    next.set(i, true);
                }
            },
            _ => {},
        }
        proof {
            assert forall|i: int| 0 <= i < names@.len() implies #[trigger] next@[i] == (has_direct(*ast, names@[i]@) || exists|d: int|
                0 <= d < c + 1 && owner(*ast, d) == Some(names@[i]@) && #[trigger] call_target(*ast, d) is Some
                    && reaches(*ast, call_target(*ast, d)->Some_0, k)) by {
                if owner(*ast, c as int) == Some(names@[i]@) && call_target(*ast, c as int) is Some
                    && reaches(*ast, call_target(*ast, c as int)->Some_0, k) {
                    let oi = f.owners@[c as int]->Some_0;
                    let tj = f.targets@[c as int]->Some_0;
                    lemma_index_unique(*ast, names@, i, oi as int);
                    assert(r@[tj as int] == reaches(*ast, names@[tj as int]@, k));
                } else {
                    if let (Some(oi), Some(tj)) = (f.owners@[c as int], f.targets@[c as int]) {
                        if oi == i && r@[tj as int] {
                            assert(owner(*ast, c as int) == Some(names@[i]@));
                            assert(r@[tj as int] == reaches(*ast, names@[tj as int]@, k));
                        }
                    }
                }
            }
        }
        c = c + 1;
    }
    next
}

/// For each symbol, whether it reads the search parameters, directly or
/// through what it calls.
fn needs_table(ast: &Ast, names: &Vec<Vec<char>>, f: &NodeFacts) -> (r: Vec<bool>)
    requires
        per_symbol_ok(ast, names, f),
    ensures
        r@.len() == names@.len(),
        forall|i: int| 0 <= i < names@.len() ==> #[trigger] r@[i] == needs_suspense(*ast, names@[i]@),
{
    let direct = direct_symbols(ast, names, f);
    let mut r = falses(names.len());
    let mut k: usize = 0;
    let n = ast.nodes.len();
    while k < n
        invariant
            per_symbol_ok(ast, names, f),
            n == ast.nodes@.len(),
            k <= n,
            direct@.len() == names@.len(),
            forall|i: int| 0 <= i < names@.len() ==> #[trigger] direct@[i] == has_direct(*ast, names@[i]@),
            r@.len() == names@.len(),
            forall|i: int| 0 <= i < names@.len() ==> #[trigger] r@[i] == reaches(*ast, names@[i]@, k as nat),
        decreases n - k,
    {
        let next = reach_step(ast, names, f, &direct, &r, Ghost(k as nat));
        let mut same = true;
        let mut i: usize = 0;
        while i < r.len()
            invariant
                i <= r@.len(),
                r@.len() == next@.len(),
                same == forall|j: int| 0 <= j < i ==> #[trigger] r@[j] == next@[j],
            decreases r@.len() - i,
        {
            if r[i] != next[i] {
                same = false;
            }
            i = i + 1;
        }
        if same {
            proof {
                assert forall|s: Seq<char>| #[trigger] reaches(*ast, s, (k + 1) as nat) == reaches(*ast, s, k as nat) by {
                    lemma_reaches_defined(*ast, s, k as nat);
                    lemma_reaches_defined(*ast, s, (k + 1) as nat);
                    if defined(*ast, s) {
                        lemma_defined_indexed(*ast, names@, s);
                        let j = choose|j: int| 0 <= j < names@.len() && #[trigger] names@[j]@ == s;
                        assert(r@[j] == next@[j]);
                    }
                }
                lemma_reaches_stable(*ast, k as nat, n as nat);
            }
            return r;
        }
        r = next;
        k = k + 1;
    }
    r
}

// ── The rule ───────────────────────────────────────────────

/// The rule's warning at node `i`.
pub open spec fn warning_at(cx: &LintContext, i: int) -> DiagView {
    cx.at_node(search_rule(), search_message(), i, Severity::Warning)
}

/// A `useSearchParams()` call outside every symbol.
pub open spec fn top_reports(cx: &LintContext) -> spec_fn(int) -> Option<DiagView> {
    |c: int| if direct_call(cx.ast, c) && owner(cx.ast, c) is None {
        Some(warning_at(cx, c))
    } else {
        None
    }
}

/// Where component `s` renders, outside `<Suspense>`, a symbol that reads
/// the search parameters.
pub open spec fn render_reports(cx: &LintContext, s: Seq<char>) -> spec_fn(int) -> Option<DiagView> {
    |o: int| if owner(cx.ast, o) == Some(s) && render_target(cx.ast, o) is Some && !wrapped(cx.ast, o)
        && needs_suspense(cx.ast, render_target(cx.ast, o)->Some_0) {
        Some(warning_at(cx, o))
    } else {
        None
    }
}

/// The `useSearchParams()` calls of symbol `s`.
pub open spec fn direct_reports(cx: &LintContext, s: Seq<char>) -> spec_fn(int) -> Option<DiagView> {
    |c: int| if direct_call(cx.ast, c) && owner(cx.ast, c) == Some(s) {
        Some(warning_at(cx, c))
    } else {
        None
    }
}

/// The calls of symbol `s` to symbols that read the search parameters.
pub open spec fn call_reports(cx: &LintContext, s: Seq<char>) -> spec_fn(int) -> Option<DiagView> {
    |c: int| if owner(cx.ast, c) == Some(s) && call_target(cx.ast, c) is Some && needs_suspense(
        cx.ast,
        call_target(cx.ast, c)->Some_0,
    ) {
        Some(warning_at(cx, c))
    } else {
        None
    }
}

/// A component that nothing in the file renders and that reads the search
/// parameters: warnings at its own reads, then at its calls that read them.
pub open spec fn consumer_views(cx: &LintContext, s: Seq<char>) -> Seq<DiagView> {
    let n = cx.ast.nodes@.len() as int;
    if !is_hook(s) && !rendered(cx.ast, s) && needs_suspense(cx.ast, s) {
        reports(n, direct_reports(cx, s)) + reports(n, call_reports(cx, s))
    } else {
        Seq::empty()
    }
}

/// The render warnings of each symbol of `l`, symbol by symbol.
pub open spec fn each_render(cx: &LintContext, l: Seq<Seq<char>>) -> Seq<DiagView>
    decreases l.len(),
{
    if l.len() == 0 {
        Seq::empty()
    } else {
        each_render(cx, l.drop_last()) + reports(cx.ast.nodes@.len() as int, render_reports(cx, l.last()))
    }
}

/// The consumer warnings of each symbol of `l`, symbol by symbol.
pub open spec fn each_consumer(cx: &LintContext, l: Seq<Seq<char>>) -> Seq<DiagView>
    decreases l.len(),
{
    if l.len() == 0 {
        Seq::empty()
    } else {
        each_consumer(cx, l.drop_last()) + consumer_views(cx, l.last())
    }
}

/// What the rule reports in a file: reads outside every symbol, then
/// unwrapped renders of reading symbols, then the reads of reading
/// components that nothing renders.
pub open spec fn search_views(cx: &LintContext) -> Seq<DiagView> {
    reports(cx.ast.nodes@.len() as int, top_reports(cx)) + each_render(cx, symbols(cx.ast)) + each_consumer(
        cx,
        symbols(cx.ast),
    )
}

spec fn run_ok(cx: &LintContext, names: &Vec<Vec<char>>, f: &NodeFacts, needs: &Vec<bool>) -> bool {
    &&& cx.wf()
    &&& per_symbol_ok(&cx.ast, names, f)
    &&& needs@.len() == names@.len()
    &&& forall|i: int| 0 <= i < names@.len() ==> #[trigger] needs@[i] == needs_suspense(cx.ast, names@[i]@)
}

fn warning(cx: &LintContext, i: usize) -> (d: LintDiagnostic)
    requires
        cx.wf(),
        i < cx.ast.nodes@.len(),
    ensures
        d@ == warning_at(cx, i as int),
{
    cx.node_diagnostic(
        "nextjs/no-search-params-without-suspense",
        &chars_of("Wrap `useSearchParams()` consumers in `<Suspense>`"),
        i,
        Severity::Warning,
    )
}

fn top_check(cx: &LintContext, names: &Vec<Vec<char>>, f: &NodeFacts, c: usize) -> (r: Option<LintDiagnostic>)
    requires
        cx.wf(),
        per_symbol_ok(&cx.ast, names, f),
        c < cx.ast.nodes@.len(),
    ensures
        opt_diag(r) == (top_reports(cx))(c as int),
{
    assert(index_is(names@, f.owners@[c as int], owner(cx.ast, c as int)));
    if f.directs[c] && f.owners[c].is_none() {
        Some(warning(cx, c))
    } else {
        None
    }
}

fn render_check(cx: &LintContext, names: &Vec<Vec<char>>, f: &NodeFacts, needs: &Vec<bool>, i: usize, o: usize) -> (r: Option<
    LintDiagnostic,
>)
    requires
        run_ok(cx, names, f, needs),
        i < names@.len(),
        o < cx.ast.nodes@.len(),
    ensures
        opt_diag(r) == (render_reports(cx, names@[i as int]@))(o as int),
{
    assert(index_is(names@, f.owners@[o as int], owner(cx.ast, o as int)));
    assert(index_is(names@, f.renders@[o as int], render_target(cx.ast, o as int)));
    match (f.owners[o], f.renders[o]) {
        (Some(k), Some(j)) => {
            proof {
                if owner(cx.ast, o as int) == Some(names@[i as int]@) {
                    lemma_index_unique(cx.ast, names@, i as int, k as int);
                }
                assert(needs@[j as int] == needs_suspense(cx.ast, names@[j as int]@));
            }
            if k == i && needs[j] && !wrapped_exec(&cx.ast, o) {
                Some(warning(cx, o))
            } else {
                None
            }
        },
        _ => None,
    }
}

fn direct_check(cx: &LintContext, names: &Vec<Vec<char>>, f: &NodeFacts, i: usize, c: usize) -> (r: Option<LintDiagnostic>)
    requires
        cx.wf(),
        per_symbol_ok(&cx.ast, names, f),
        i < names@.len(),
        c < cx.ast.nodes@.len(),
    ensures
        opt_diag(r) == (direct_reports(cx, names@[i as int]@))(c as int),
{
    assert(index_is(names@, f.owners@[c as int], owner(cx.ast, c as int)));
    match f.owners[c] {
        Some(k) => {
            proof {
                if owner(cx.ast, c as int) == Some(names@[i as int]@) {
                    lemma_index_unique(cx.ast, names@, i as int, k as int);
                }
            }
            if k == i && f.directs[c] {
                Some(warning(cx, c))
            } else {
                None
            }
        },
        None => None,
    }
}

fn call_check(cx: &LintContext, names: &Vec<Vec<char>>, f: &NodeFacts, needs: &Vec<bool>, i: usize, c: usize) -> (r: Option<
    LintDiagnostic,
>)
    requires
        run_ok(cx, names, f, needs),
        i < names@.len(),
        c < cx.ast.nodes@.len(),
    ensures
        opt_diag(r) == (call_reports(cx, names@[i as int]@))(c as int),
{
    assert(index_is(names@, f.owners@[c as int], owner(cx.ast, c as int)));
    assert(index_is(names@, f.targets@[c as int], call_target(cx.ast, c as int)));
    match (f.owners[c], f.targets[c]) {
        (Some(k), Some(j)) => {
            proof {
                if owner(cx.ast, c as int) == Some(names@[i as int]@) {
                    lemma_index_unique(cx.ast, names@, i as int, k as int);
                }
                assert(needs@[j as int] == needs_suspense(cx.ast, names@[j as int]@));
            }
            if k == i && needs[j] {
                Some(warning(cx, c))
            } else {
                None
            }
        },
        _ => None,
    }
}

fn render_part(cx: &LintContext, names: &Vec<Vec<char>>, f: &NodeFacts, needs: &Vec<bool>, i: usize) -> (r: Vec<LintDiagnostic>)
    requires
        run_ok(cx, names, f, needs),
        i < names@.len(),
    ensures
        views(r@) == reports(cx.ast.nodes@.len() as int, render_reports(cx, names@[i as int]@)),
{
    let check = |o: usize| -> (d: Option<LintDiagnostic>)
        requires
            run_ok(cx, names, f, needs),
            i < names@.len(),
            o < cx.ast.nodes@.len(),
        ensures
            opt_diag(d) == (render_reports(cx, names@[i as int]@))(o as int),
    { render_check(cx, names, f, needs, i, o) };
    scan_nodes(cx, check, Ghost(render_reports(cx, names@[i as int]@)))
}

fn consumer_part(
    cx: &LintContext,
    names: &Vec<Vec<char>>,
    f: &NodeFacts,
    needs: &Vec<bool>,
    rendered: &Vec<bool>,
    i: usize,
) -> (r: Vec<LintDiagnostic>)
    requires
        run_ok(cx, names, f, needs),
        i < names@.len(),
        rendered@.len() == names@.len(),
        forall|j: int| 0 <= j < names@.len() ==> #[trigger] rendered@[j] == crate::rules::react::search_params::rendered(cx.ast, names@[j]@),
    ensures
        views(r@) == consumer_views(cx, names@[i as int]@),
{
    if is_hook_exec(&names[i]) || rendered[i] || !needs[i] {
        return Vec::new();
    }
    let direct = |c: usize| -> (d: Option<LintDiagnostic>)
        requires
            cx.wf(),
            per_symbol_ok(&cx.ast, names, f),
            i < names@.len(),
            c < cx.ast.nodes@.len(),
        ensures
            opt_diag(d) == (direct_reports(cx, names@[i as int]@))(c as int),
    { direct_check(cx, names, f, i, c) };
    let mut out = scan_nodes(cx, direct, Ghost(direct_reports(cx, names@[i as int]@)));
    let calls = |c: usize| -> (d: Option<LintDiagnostic>)
        requires
            run_ok(cx, names, f, needs),
            i < names@.len(),
            c < cx.ast.nodes@.len(),
        ensures
            opt_diag(d) == (call_reports(cx, names@[i as int]@))(c as int),
    { call_check(cx, names, f, needs, i, c) };
    let mut second = scan_nodes(cx, calls, Ghost(call_reports(cx, names@[i as int]@)));
    proof {
        lemma_views_append(out@, second@);
    }
    out.append(&mut second);
    out
}

/// Runs `nextjs/no-search-params-without-suspense` on one file of a
/// Next.js project.
pub fn run_search_params(cx: &LintContext, project: &ProjectInfo) -> (r: Vec<LintDiagnostic>)
    requires
        cx.wf(),
    ensures
        views(r@) == gated(project.has_next, search_views(cx)),
{
    if !project.has_next {
        return Vec::new();
    }
    let ast = &cx.ast;
    let names = symbols_exec(ast);
    let f = node_facts(ast, &names);
    let needs = needs_table(ast, &names, &f);
    let rendered = rendered_symbols(ast, &names, &f);
    let top = |c: usize| -> (d: Option<LintDiagnostic>)
        requires
            cx.wf(),
            per_symbol_ok(&cx.ast, &names, &f),
            c < cx.ast.nodes@.len(),
        ensures
            opt_diag(d) == (top_reports(cx))(c as int),
    { top_check(cx, &names, &f, c) };
    let mut out = scan_nodes(cx, top, Ghost(top_reports(cx)));
    let ghost tops = views(out@);
    let ghost all = name_views(names@);
    let mut i: usize = 0;
    while i < names.len()
        invariant
            run_ok(cx, &names, &f, &needs),
            all == name_views(names@),
            all == symbols(cx.ast),
            i <= names@.len(),
            views(out@) == tops + each_render(cx, all.take(i as int)),
        decreases names@.len() - i,
    {
        let mut part = render_part(cx, &names, &f, &needs, i);
        proof {
            lemma_views_append(out@, part@);
            assert(all.take(i + 1).drop_last() =~= all.take(i as int));
            assert(all.take(i + 1).last() == names@[i as int]@);
        }
        out.append(&mut part);
        i = i + 1;
    }
    assert(all.take(i as int) =~= all);
    let ghost renders = views(out@);
    let mut i: usize = 0;
    while i < names.len()
        invariant
            run_ok(cx, &names, &f, &needs),
            rendered@.len() == names@.len(),
            forall|j: int| 0 <= j < names@.len() ==> #[trigger] rendered@[j] == crate::rules::react::search_params::rendered(cx.ast, names@[j]@),
            all == name_views(names@),
            i <= names@.len(),
            views(out@) == renders + each_consumer(cx, all.take(i as int)),
        decreases names@.len() - i,
    {
        let mut part = consumer_part(cx, &names, &f, &needs, &rendered, i);
        proof {
            lemma_views_append(out@, part@);
            assert(all.take(i + 1).drop_last() =~= all.take(i as int));
            assert(all.take(i + 1).last() == names@[i as int]@);
        }
        out.append(&mut part);
        i = i + 1;
    }
    assert(all.take(i as int) =~= all);
    out
}

} // verus!
