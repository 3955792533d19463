//! Next.js rules: raw `<img>`, `<a>` and `<head>`, legacy `next/head` and
//! `next/document` imports, scripts in `<head>`, pages without metadata,
//! GET handlers with side effects, and async client components.
use vstd::prelude::*;

use crate::ast::{wf_nodes, Ast};
use crate::engine::{any_node, any_node_exec, first_where, first_where_exec, filter_reports, filter_reports_exec,
    gated, opt_diag, reports, reports_all, scan_nodes, scan_nodes_all, views, DiagView, LintContext};
use crate::estree::{ident_name, ident_name_exec, nearest_ancestor, nearest_ancestor_exec, single_quasi,
    single_quasi_exec, string_value, string_value_exec, unparen, unparen_exec};
use crate::lint::{LintDiagnostic, Severity};
use crate::policy_ir::{file_name, file_name_exec};
use crate::project::ProjectInfo;
use crate::rules::react::helpers::{
    attr_is, attr_is_exec, component_name, import_source, import_source_exec, opening_name, opening_name_exec,
    span_within,
};
use crate::rules::react::server_components::{
    action_view, declarator_action, file_has_directive, file_has_directive_exec, function_action,
};
use crate::rules::server::architecture::orm_mutation;
use crate::rules::server::helpers::{callee_name, callee_name_exec, is_orm_mutate_call, span_within_exec};
use crate::text::{chars_of, eq_str, starts_with, starts_with_str};

verus! {

// ── File names ─────────────────────────────────────────────

/// The file name of `path` starts with `prefix`.
pub open spec fn file_name_starts(path: Seq<char>, prefix: Seq<char>) -> bool {
    match file_name(path) {
        Some(n) => starts_with(n, prefix),
        None => false,
    }
}

/// The file is an app-router page or layout: `page` or `layout` with a
/// `.js`, `.jsx`, `.ts` or `.tsx` extension.
pub open spec fn metadata_file(path: Seq<char>) -> bool {
    match file_name(path) {
        Some(n) => seq![
            "page.js"@,
            "page.jsx"@,
            "page.ts"@,
            "page.tsx"@,
            "layout.js"@,
            "layout.jsx"@,
            "layout.ts"@,
            "layout.tsx"@,
        ].contains(n),
        None => false,
    }
}

fn file_name_starts_exec(path: &Vec<char>, prefix: &str) -> (b: bool)
    ensures
        b == file_name_starts(path@, prefix@),
{
    match file_name_exec(path) {
        Some(n) => starts_with_str(&n, prefix),
        None => false,
    }
}

fn metadata_file_exec(path: &Vec<char>) -> (b: bool)
    ensures
        b == metadata_file(path@),
{
    let names = ["page.js", "page.jsx", "page.ts", "page.tsx", "layout.js", "layout.jsx", "layout.ts", "layout.tsx"];
    assert(names@.map_values(|s: &str| s@) =~= seq![
        "page.js"@,
        "page.jsx"@,
        "page.ts"@,
        "page.tsx"@,
        "layout.js"@,
        "layout.jsx"@,
        "layout.ts"@,
        "layout.tsx"@,
    ]);
    match file_name_exec(path) {
        Some(n) => crate::rules::react::helpers::one_of(&n, &names),
        None => false,
    }
}

// ── Per-element and per-import rules ───────────────────────

/// The static string of attribute `a`'s value: `"..."`, `{"..."}` or a
/// template without substitutions.
pub open spec fn attribute_static_string(ast: Ast, a: int) -> Option<Seq<char>> {
    match ast.child(a, "value"@) {
        Some(v) => if ast.is(v, "JSXExpressionContainer"@) {
            match ast.child(v, "expression"@) {
                Some(e) => if string_value(ast, e) is Some {
                    string_value(ast, e)
                } else {
                    single_quasi(ast, e)
                },
                None => None,
            }
        } else {
            string_value(ast, v)
        },
        None => None,
    }
}

/// An href inside the app: starting with one `/`, and not `/` or `/_next`.
pub open spec fn internal_href(href: Seq<char>) -> bool {
    starts_with(href, "/"@) && !starts_with(href, "//"@) && href != "/"@ && href != "/_next"@ && href
        != "/_next/"@
}

/// Opening element `i` is an `<a>` with an internal static href and no
/// `target` or `download`.
pub open spec fn internal_anchor(ast: Ast, i: int) -> bool {
    let attrs = ast.field_children(i, "attributes"@);
    ast.is(i, "JSXOpeningElement"@) && opening_name(ast, i) == Some("a"@) && match first_where(
        attrs,
        |a: usize| attr_is(ast, a as int, "href"@),
    ) {
        Some(h) => match attribute_static_string(ast, h as int) {
            Some(href) => internal_href(href) && first_where(
                attrs,
                |a: usize| attr_is(ast, a as int, "target"@) || attr_is(ast, a as int, "download"@),
            ) is None,
            None => false,
        },
        None => false,
    }
}

/// Opening element `i` is a `<script>` inside a `<head>` element.
pub open spec fn script_in_head(ast: Ast, i: int) -> bool {
    ast.is(i, "JSXOpeningElement"@) && opening_name(ast, i) == Some("script"@) && nearest_ancestor(
        ast,
        i,
        |q: int| head_element(ast, q),
    ) is Some
}

/// Node `q` is a `<head>` element.
pub open spec fn head_element(ast: Ast, q: int) -> bool {
    ast.is(q, "JSXElement"@) && match ast.child(q, "openingElement"@) {
        Some(o) => opening_name(ast, o) == Some("head"@),
        None => false,
    }
}

/// Node `f` is an `async` function named as a component, or an `async`
/// arrow function assigned to such a name.
pub open spec fn async_component(ast: Ast, f: int) -> bool {
    if ast.is(f, "ArrowFunctionExpression"@) {
        ast.flag(f, "async"@) && {
            let p = ast.nodes@[f].parent as int;
            ast.is(p, "VariableDeclarator"@) && match ast.child(p, "id"@) {
                Some(id) => ast.is(id, "Identifier"@) && match ident_name(ast, id) {
                    Some(n) => component_name(n),
                    None => false,
                },
                None => false,
            }
        }
    } else {
        crate::estree::function_like(ast, f) && ast.flag(f, "async"@) && match ast.child(f, "id"@) {
            Some(id) => match ident_name(ast, id) {
                Some(n) => component_name(n),
                None => false,
            },
            None => false,
        }
    }
}

/// The file is a client component file (`"use client"`).
pub open spec fn client_file(cx: &LintContext) -> bool {
    file_has_directive(cx.ast, "use client"@)
}

/// The Next.js rules that look at one node at a time.
#[derive(Debug, Clone, Copy, PartialEq, Eq, Structural)]
pub enum NextRule {
    ImgElement,
    PreferNextLink,
    HeadElement,
    HeadImport,
    DocumentImport,
    ScriptInHead,
    AsyncClientComponent,
}

impl NextRule {
    pub open spec fn rule(self) -> Seq<char> {
        match self {
            NextRule::ImgElement => "nextjs/no-img-element"@,
            NextRule::PreferNextLink => "nextjs/prefer-next-link"@,
            NextRule::HeadElement => "nextjs/no-head-element"@,
            NextRule::HeadImport => "nextjs/no-head-import"@,
            NextRule::DocumentImport => "nextjs/no-document-import"@,
            NextRule::ScriptInHead => "nextjs/no-script-in-head"@,
            NextRule::AsyncClientComponent => "nextjs/no-async-client-component"@,
        }
    }

    pub open spec fn message(self) -> Seq<char> {
        match self {
            NextRule::ImgElement => "Prefer `next/image` over raw `<img>` elements in Next.js apps"@,
            NextRule::PreferNextLink => "Use `next/link` for internal navigation instead of raw anchors"@,
            NextRule::HeadElement => "Avoid raw `<head>` elements in Next.js components"@,
            NextRule::HeadImport => "Avoid `next/head` in modern Next.js app-router code"@,
            NextRule::DocumentImport => "Only custom `_document` files should import `next/document`"@,
            NextRule::ScriptInHead => "Avoid placing `<script>` tags directly inside `<head>` in Next.js"@,
            NextRule::AsyncClientComponent => "Client components should not be async functions"@,
        }
    }

    /// The rule flags node `i` of the file at `path`.
    pub open spec fn flags(self, ast: Ast, path: Seq<char>, i: int) -> bool {
        match self {
            NextRule::ImgElement => ast.is(i, "JSXOpeningElement"@) && opening_name(ast, i) == Some("img"@),
            NextRule::PreferNextLink => internal_anchor(ast, i),
            NextRule::HeadElement => ast.is(i, "JSXOpeningElement"@) && opening_name(ast, i) == Some("head"@),
            NextRule::HeadImport => import_source(ast, i) == Some("next/head"@),
            NextRule::DocumentImport => import_source(ast, i) == Some("next/document"@) && !file_name_starts(
                path,
                "_document."@,
            ),
            NextRule::ScriptInHead => script_in_head(ast, i),
            NextRule::AsyncClientComponent => file_has_directive(ast, "use client"@) && async_component(ast, i),
        }
    }

    /// What the rule reports at node `i`.
    pub open spec fn report(self, cx: &LintContext, i: int) -> Option<DiagView> {
        if self.flags(cx.ast, cx.path@, i) {
            Some(cx.at_node(self.rule(), self.message(), i, Severity::Warning))
        } else {
            None
        }
    }

    pub open spec fn reports_fn(self, cx: &LintContext) -> spec_fn(int) -> Option<DiagView> {
        |i: int| self.report(cx, i)
    }

    /// The rule's name.
    pub fn name(&self) -> (r: &'static str)
        ensures
            r@ == self.rule(),
    {
        match self {
            NextRule::ImgElement => "nextjs/no-img-element",
            NextRule::PreferNextLink => "nextjs/prefer-next-link",
            NextRule::HeadElement => "nextjs/no-head-element",
            NextRule::HeadImport => "nextjs/no-head-import",
            NextRule::DocumentImport => "nextjs/no-document-import",
            NextRule::ScriptInHead => "nextjs/no-script-in-head",
            NextRule::AsyncClientComponent => "nextjs/no-async-client-component",
        }
    }

    fn message_exec(&self) -> (r: &'static str)
        ensures
            r@ == self.message(),
    {
        match self {
            NextRule::ImgElement => "Prefer `next/image` over raw `<img>` elements in Next.js apps",
            NextRule::PreferNextLink => "Use `next/link` for internal navigation instead of raw anchors",
            NextRule::HeadElement => "Avoid raw `<head>` elements in Next.js components",
            NextRule::HeadImport => "Avoid `next/head` in modern Next.js app-router code",
            NextRule::DocumentImport => "Only custom `_document` files should import `next/document`",
            NextRule::ScriptInHead => "Avoid placing `<script>` tags directly inside `<head>` in Next.js",
            NextRule::AsyncClientComponent => "Client components should not be async functions",
        }
    }

    fn flags_exec(&self, cx: &LintContext, client: bool, i: usize) -> (b: bool)
        requires
            cx.wf(),
            i < cx.ast.nodes@.len(),
            client == client_file(cx),
        ensures
            b == self.flags(cx.ast, cx.path@, i as int),
    {
        let ast = &cx.ast;
        match self {
            NextRule::ImgElement => ast.is_kind(i, "JSXOpeningElement") && opening_is(ast, i, "img"),
            NextRule::PreferNextLink => internal_anchor_exec(ast, i),
            NextRule::HeadElement => ast.is_kind(i, "JSXOpeningElement") && opening_is(ast, i, "head"),
            NextRule::HeadImport => match import_source_exec(ast, i) {
                Some(s) => eq_str(&s, "next/head"),
                None => false,
            },
            NextRule::DocumentImport => match import_source_exec(ast, i) {
                Some(s) => eq_str(&s, "next/document") && !file_name_starts_exec(&cx.path, "_document."),
                None => false,
            },
            NextRule::ScriptInHead => script_in_head_exec(ast, i),
            NextRule::AsyncClientComponent => client && async_component_exec(ast, i),
        }
    }

    /// In a Next.js project, one warning per node the rule flags, in node order.
    pub fn run(&self, cx: &LintContext, project: &ProjectInfo) -> (r: Vec<LintDiagnostic>)
        requires
            cx.wf(),
        ensures
            views(r@) == gated(project.has_next, reports(cx.ast.nodes@.len() as int, self.reports_fn(cx))),
    {
        if !project.has_next {
            return Vec::new();
        }
        let client = file_has_directive_exec(&cx.ast, "use client");
        let check = |i: usize| -> (d: Option<LintDiagnostic>)
            requires
                cx.wf(),
                i < cx.ast.nodes@.len(),
                client == client_file(cx),
            ensures
                opt_diag(d) == self.report(cx, i as int),
        {
            if self.flags_exec(cx, client, i) {
                Some(cx.node_diagnostic(self.name(), &chars_of(self.message_exec()), i, Severity::Warning))
            } else {
                None
            }
        };
        scan_nodes(cx, check, Ghost(self.reports_fn(cx)))
    }
}

fn opening_is(ast: &Ast, i: usize, name: &str) -> (b: bool)
    requires
        ast.wf(),
        i < ast.nodes@.len(),
    ensures
        b == (opening_name(*ast, i as int) == Some(name@)),
{
    match opening_name_exec(ast, i) {
        Some(n) => eq_str(&n, name),
        None => false,
    }
}

fn attribute_static_string_exec(ast: &Ast, a: usize) -> (r: Option<Vec<char>>)
    requires
        ast.wf(),
        a < ast.nodes@.len(),
    ensures
        crate::estree::opt_seq(r) == attribute_static_string(*ast, a as int),
{
    match ast.child_of(a, "value") {
        Some(v) => if ast.is_kind(v, "JSXExpressionContainer") {
            match ast.child_of(v, "expression") {
                Some(e) => match string_value_exec(ast, e) {
                    Some(s) => Some(s),
                    None => single_quasi_exec(ast, e),
                },
                None => None,
            }
        } else {
            string_value_exec(ast, v)
        },
        None => None,
    }
}

fn first_attr_exec(ast: &Ast, i: usize, name: &str) -> (r: Option<usize>)
    requires
        ast.wf(),
        i < ast.nodes@.len(),
    ensures
        r == first_where(ast.field_children(i as int, "attributes"@), |a: usize| attr_is(*ast, a as int, name@)),
        r matches Some(a) ==> a < ast.nodes@.len(),
{
    let attrs = ast.children_in(i, "attributes");
    let test = |a: usize| -> (b: bool)
        requires
            wf_nodes(ast.nodes@),
            a < ast.nodes@.len(),
        ensures
            b == attr_is(*ast, a as int, name@),
    { attr_is_exec(ast, a, name) };
    let r = first_where_exec(&attrs, test, Ghost(|a: usize| attr_is(*ast, a as int, name@)));
    proof {
        crate::engine::lemma_first_where_in(attrs@, |a: usize| attr_is(*ast, a as int, name@));
    }
    r
}

fn internal_anchor_exec(ast: &Ast, i: usize) -> (b: bool)
    requires
        ast.wf(),
        i < ast.nodes@.len(),
    ensures
        b == internal_anchor(*ast, i as int),
{
    if !ast.is_kind(i, "JSXOpeningElement") || !opening_is(ast, i, "a") {
        return false;
    }
    let h = match first_attr_exec(ast, i, "href") {
        Some(h) => h,
        None => {
            return false;
        },
    };
    let href = match attribute_static_string_exec(ast, h) {
        Some(s) => s,
        None => {
            return false;
        },
    };
    let internal = starts_with_str(&href, "/") && !starts_with_str(&href, "//") && !eq_str(&href, "/") && !eq_str(
        &href,
        "/_next",
    ) && !eq_str(&href, "/_next/");
    if !internal {
        return false;
    }
    let attrs = ast.children_in(i, "attributes");
    let test = |a: usize| -> (b: bool)
        requires
            wf_nodes(ast.nodes@),
            a < ast.nodes@.len(),
        ensures
            b == (attr_is(*ast, a as int, "target"@) || attr_is(*ast, a as int, "download"@)),
    { attr_is_exec(ast, a, "target") || attr_is_exec(ast, a, "download") };
    first_where_exec(
        &attrs,
        test,
        Ghost(|a: usize| attr_is(*ast, a as int, "target"@) || attr_is(*ast, a as int, "download"@)),
    ).is_none()
}

fn script_in_head_exec(ast: &Ast, i: usize) -> (b: bool)
    requires
        ast.wf(),
        i < ast.nodes@.len(),
    ensures
        b == script_in_head(*ast, i as int),
{
    if !ast.is_kind(i, "JSXOpeningElement") || !opening_is(ast, i, "script") {
        return false;
    }
    let test = |q: usize| -> (b: bool)
        requires
            wf_nodes(ast.nodes@),
            q < ast.nodes@.len(),
        ensures
            b == head_element(*ast, q as int),
    {
        ast.is_kind(q, "JSXElement") && match ast.child_of(q, "openingElement") {
            Some(o) => opening_is(ast, o, "head"),
            None => false,
        }
    };
    nearest_ancestor_exec(ast, i, test, Ghost(|q: int| head_element(*ast, q))).is_some()
}

fn component_named(ast: &Ast, id: usize) -> (b: bool)
    requires
        ast.wf(),
        id < ast.nodes@.len(),
    ensures
        b == match ident_name(*ast, id as int) {
            Some(n) => component_name(n),
            None => false,
        },
{
    match ident_name_exec(ast, id) {
        Some(n) => n.len() > 0 && 'A' <= n[0] && n[0] <= 'Z',
        None => false,
    }
}

fn async_component_exec(ast: &Ast, f: usize) -> (b: bool)
    requires
        ast.wf(),
        f < ast.nodes@.len(),
    ensures
        b == async_component(*ast, f as int),
{
    if ast.is_kind(f, "ArrowFunctionExpression") {
        if !ast.flag_of(f, "async") {
            return false;
        }
        let p = ast.nodes[f].parent;
        ast.is_kind(p, "VariableDeclarator") && match ast.child_of(p, "id") {
            Some(id) => ast.is_kind(id, "Identifier") && component_named(ast, id),
            None => false,
        }
    } else {
        crate::estree::function_like_exec(ast, f) && ast.flag_of(f, "async") && match ast.child_of(f, "id") {
            Some(id) => component_named(ast, id),
            None => false,
        }
    }
}

// ── Pages without metadata ─────────────────────────────────

/// The name an export specifier exports.
pub open spec fn exported_name(ast: Ast, s: int) -> Option<Seq<char>> {
    match ast.child(s, "exported"@) {
        Some(e) => if ast.is(e, "Identifier"@) {
            ident_name(ast, e)
        } else {
            string_value(ast, e)
        },
        None => None,
    }
}

/// The identifier a binding pattern binds directly (through a default value).
pub open spec fn binding_name(ast: Ast, p: int) -> Option<Seq<char>> {
    crate::rules::react::server_components::param_name(ast, p)
}

/// Declaration `d` (a variable, function or class declaration) declares `name`.
pub open spec fn declares(ast: Ast, d: int, name: Seq<char>) -> bool {
    if ast.is(d, "VariableDeclaration"@) {
        exists|k: int|
            0 <= k < ast.field_children(d, "declarations"@).len() && #[trigger] declarator_binds(
                ast,
                ast.field_children(d, "declarations"@)[k] as int,
                name,
            )
    } else if ast.is(d, "FunctionDeclaration"@) || ast.is(d, "ClassDeclaration"@) {
        match ast.child(d, "id"@) {
            Some(id) => ident_name(ast, id) == Some(name),
            None => false,
        }
    } else {
        false
    }
}

/// Declarator `v` binds `name`.
#[verifier::opaque]
pub open spec fn declarator_binds(ast: Ast, v: int, name: Seq<char>) -> bool {
    match ast.child(v, "id"@) {
        Some(id) => binding_name(ast, id) == Some(name),
        None => false,
    }
}

/// Node `i` exports `name`: a named export by specifier or declaration, or
/// a default export of a function or class with that name (any other
/// default export exports `default`).
pub open spec fn exports_at(ast: Ast, i: int, name: Seq<char>) -> bool {
    if ast.is(i, "ExportNamedDeclaration"@) {
        (exists|k: int|
            0 <= k < ast.field_children(i, "specifiers"@).len() && #[trigger] exported_name(
                ast,
                ast.field_children(i, "specifiers"@)[k] as int,
            ) == Some(name)) || match ast.child(i, "declaration"@) {
            Some(d) => declares(ast, d, name),
            None => false,
        }
    } else if ast.is(i, "ExportDefaultDeclaration"@) {
        match ast.child(i, "declaration"@) {
            Some(d) => if ast.is(d, "FunctionDeclaration"@) || ast.is(d, "ClassDeclaration"@) {
                match ast.child(d, "id"@) {
                    Some(id) => ident_name(ast, id) == Some(name),
                    None => false,
                }
            } else {
                name == "default"@
            },
            None => name == "default"@,
        }
    } else {
        false
    }
}

/// The file exports `name`.
pub open spec fn exports_name(ast: Ast, name: Seq<char>) -> bool {
    any_node(ast.nodes@.len() as int, |i: int| exports_at(ast, i, name))
}

/// What `missing-metadata` reports for the file: in a Next.js project, one
/// warning on the program of a page or layout that exports neither
/// `metadata` nor `generateMetadata`.
pub open spec fn metadata_views(cx: &LintContext, project: ProjectInfo) -> Seq<DiagView> {
    if project.has_next && metadata_file(cx.path@) && !exports_name(cx.ast, "metadata"@) && !exports_name(
        cx.ast,
        "generateMetadata"@,
    ) && cx.ast.is(0, "Program"@) {
        seq![
            cx.at_node(
                "nextjs/missing-metadata"@,
                "App-router pages and layouts should export `metadata` or `generateMetadata`"@,
                0,
                Severity::Warning,
            ),
        ]
    } else {
        Seq::empty()
    }
}

fn declarator_binds_exec(ast: &Ast, v: usize, name: &str) -> (b: bool)
    requires
        ast.wf(),
        v < ast.nodes@.len(),
    ensures
        b == declarator_binds(*ast, v as int, name@),
{
    reveal(declarator_binds);
    match ast.child_of(v, "id") {
        Some(id) => match crate::rules::react::server_components::param_name_exec(ast, id) {
            Some(n) => eq_str(&n, name),
            None => false,
        },
        None => false,
    }
}

fn declares_exec(ast: &Ast, d: usize, name: &str) -> (b: bool)
    requires
        ast.wf(),
        d < ast.nodes@.len(),
    ensures
        b == declares(*ast, d as int, name@),
{
    if ast.is_kind(d, "VariableDeclaration") {
        let vs = ast.children_in(d, "declarations");
        let mut k: usize = 0;
        while k < vs.len()
            invariant
                ast.wf(),
                d < ast.nodes@.len(),
                ast.is(d as int, "VariableDeclaration"@),
                vs@ == ast.field_children(d as int, "declarations"@),
                forall|q: int| 0 <= q < vs@.len() ==> #[trigger] vs@[q] < ast.nodes@.len(),
                k <= vs@.len(),
                forall|q: int| 0 <= q < k ==> !#[trigger] declarator_binds(*ast, vs@[q] as int, name@),
            decreases vs@.len() - k,
        {
            if declarator_binds_exec(ast, vs[k], name) {
                assert(declarator_binds(*ast, vs@[k as int] as int, name@));
                return true;
            }
            k = k + 1;
        }
        false
    } else if ast.is_kind(d, "FunctionDeclaration") || ast.is_kind(d, "ClassDeclaration") {
        match ast.child_of(d, "id") {
            Some(id) => match ident_name_exec(ast, id) {
                Some(n) => eq_str(&n, name),
                None => false,
            },
            None => false,
        }
    } else {
        false
    }
}

fn exported_name_exec(ast: &Ast, s: usize) -> (r: Option<Vec<char>>)
    requires
        ast.wf(),
        s < ast.nodes@.len(),
    ensures
        crate::estree::opt_seq(r) == exported_name(*ast, s as int),
{
    match ast.child_of(s, "exported") {
        Some(e) => if ast.is_kind(e, "Identifier") {
            ident_name_exec(ast, e)
        } else {
            string_value_exec(ast, e)
        },
        None => None,
    }
}

fn named_export_exec(ast: &Ast, i: usize, name: &str) -> (b: bool)
    requires
        ast.wf(),
        i < ast.nodes@.len(),
        ast.is(i as int, "ExportNamedDeclaration"@),
    ensures
        b == exports_at(*ast, i as int, name@),
{
    let specs = ast.children_in(i, "specifiers");
    let mut k: usize = 0;
    while k < specs.len()
        invariant
            ast.wf(),
            i < ast.nodes@.len(),
            specs@ == ast.field_children(i as int, "specifiers"@),
            forall|q: int| 0 <= q < specs@.len() ==> #[trigger] specs@[q] < ast.nodes@.len(),
            ast.is(i as int, "ExportNamedDeclaration"@),
            k <= specs@.len(),
            forall|q: int| 0 <= q < k ==> #[trigger] exported_name(*ast, specs@[q] as int) != Some(name@),
        decreases specs@.len() - k,
    {
        let hit = match exported_name_exec(ast, specs[k]) {
            Some(n) => eq_str(&n, name),
            None => false,
        };
        if hit {
            assert(exported_name(*ast, specs@[k as int] as int) == Some(name@));
            return true;
        }
        k = k + 1;
    }
    match ast.child_of(i, "declaration") {
        Some(d) => declares_exec(ast, d, name),
        None => false,
    }
}

fn exports_at_exec(ast: &Ast, i: usize, name: &str) -> (b: bool)
    requires
        ast.wf(),
        i < ast.nodes@.len(),
    ensures
        b == exports_at(*ast, i as int, name@),
{
    if ast.is_kind(i, "ExportNamedDeclaration") {
        named_export_exec(ast, i, name)
    } else if ast.is_kind(i, "ExportDefaultDeclaration") {
        match ast.child_of(i, "declaration") {
            Some(d) => if ast.is_kind(d, "FunctionDeclaration") || ast.is_kind(d, "ClassDeclaration") {
                match ast.child_of(d, "id") {
                    Some(id) => match ident_name_exec(ast, id) {
                        Some(n) => eq_str(&n, name),
                        None => false,
                    },
                    None => false,
                }
            } else {
                eq_str(&chars_of(name), "default")
            },
            None => eq_str(&chars_of(name), "default"),
        }
    } else {
        false
    }
}

/// Whether the file exports `name`.
pub fn exports_name_exec(ast: &Ast, name: &str) -> (b: bool)
    requires
        ast.wf(),
    ensures
        b == exports_name(*ast, name@),
{
    let test = |i: usize| -> (b: bool)
        requires
            wf_nodes(ast.nodes@),
            i < ast.nodes@.len(),
        ensures
            b == exports_at(*ast, i as int, name@),
    { exports_at_exec(ast, i, name) };
    any_node_exec(ast.nodes.len(), test, Ghost(|i: int| exports_at(*ast, i, name@)))
}

/// Runs `missing-metadata`.
pub fn run_missing_metadata(cx: &LintContext, project: &ProjectInfo) -> (r: Vec<LintDiagnostic>)
    requires
        cx.wf(),
    ensures
        views(r@) == metadata_views(cx, *project),
{
    let mut out: Vec<LintDiagnostic> = Vec::new();
    if !project.has_next || !metadata_file_exec(&cx.path) || exports_name_exec(&cx.ast, "metadata")
        || exports_name_exec(&cx.ast, "generateMetadata") {
        return out;
    }
    if cx.ast.nodes.len() == 0 || !cx.ast.is_kind(0, "Program") {
        return out;
    }
    let msg = chars_of("App-router pages and layouts should export `metadata` or `generateMetadata`");
    let d = cx.node_diagnostic("nextjs/missing-metadata", &msg, 0, Severity::Warning);
    out.push(d);
    proof {
        assert(views(out@) =~= seq![d@]);
    }
    out
}

// ── GET handlers with side effects ─────────────────────────

/// Node `k`, within node `b`, has a side effect: an ORM write, a
/// revalidation, a redirect or `notFound()`.
pub open spec fn get_side_effect_within(ast: Ast, b: int, k: int) -> bool {
    ast.is(k, "CallExpression"@) && span_within(ast, b, k) && (orm_mutation(ast, k) || match callee_name(ast, k) {
        Some(n) => n == "revalidatePath"@ || n == "revalidateTag"@ || n == "redirect"@ || n == "notFound"@,
        None => false,
    })
}

/// What `no-side-effect-in-get-handler` reports for an exported function:
/// a warning at its name when it is `GET` and its body has a side effect.
pub open spec fn get_report(cx: &LintContext, action: Option<(Seq<char>, int, int, int)>) -> Option<DiagView> {
    match action {
        Some((name, id, f, b)) => if name == "GET"@ && any_node(
            cx.ast.nodes@.len() as int,
            |k: int| get_side_effect_within(cx.ast, b, k),
        ) {
            Some(
                cx.at_node(
                    "nextjs/no-side-effect-in-get-handler"@,
                    "GET route handlers should avoid mutations and other server side effects"@,
                    id,
                    Severity::Warning,
                ),
            )
        } else {
            None
        },
        None => None,
    }
}

/// What `no-side-effect-in-get-handler` reports at node `i`, export by export.
pub open spec fn get_reports(cx: &LintContext) -> spec_fn(int) -> Seq<DiagView> {
    |i: int|
        {
            let ast = cx.ast;
            if ast.is(i, "ExportNamedDeclaration"@) {
                match ast.child(i, "declaration"@) {
                    Some(d) => if ast.is(d, "FunctionDeclaration"@) {
                        match get_report(cx, function_action(ast, d)) {
                            Some(r) => seq![r],
                            None => Seq::empty(),
                        }
                    } else if ast.is(d, "VariableDeclaration"@) {
                        filter_reports(
                            ast.field_children(d, "declarations"@),
                            |v: usize| get_report(cx, declarator_action(ast, v as int)),
                        )
                    } else {
                        Seq::empty()
                    },
                    None => Seq::empty(),
                }
            } else {
                Seq::empty()
            }
        }
}

fn get_report_exec(cx: &LintContext, action: Option<(Vec<char>, usize, usize, usize)>) -> (d: Option<LintDiagnostic>)
    requires
        cx.wf(),
        action matches Some((n, id, f, b)) ==> id < cx.ast.nodes@.len() && f < cx.ast.nodes@.len() && b
            < cx.ast.nodes@.len(),
    ensures
        opt_diag(d) == get_report(cx, action_view(action)),
{
    let (name, id, b) = match action {
        Some((name, id, _, b)) => (name, id, b),
        None => {
            return None;
        },
    };
    if !eq_str(&name, "GET") {
        return None;
    }
    let ast = &cx.ast;
    let test = |k: usize| -> (r: bool)
        requires
            wf_nodes(ast.nodes@),
            b < ast.nodes@.len(),
            k < ast.nodes@.len(),
        ensures
            r == get_side_effect_within(*ast, b as int, k as int),
    {
        ast.is_kind(k, "CallExpression") && span_within_exec(ast, b, k) && (is_orm_mutate_call(ast, k)
            || match callee_name_exec(ast, k) {
            Some(n) => eq_str(&n, "revalidatePath") || eq_str(&n, "revalidateTag") || eq_str(&n, "redirect")
                || eq_str(&n, "notFound"),
            None => false,
        })
    };
    if any_node_exec(ast.nodes.len(), test, Ghost(|k: int| get_side_effect_within(*ast, b as int, k))) {
        let msg = chars_of("GET route handlers should avoid mutations and other server side effects");
        Some(cx.node_diagnostic("nextjs/no-side-effect-in-get-handler", &msg, id, Severity::Warning))
    } else {
        None
    }
}

fn get_check(cx: &LintContext, i: usize) -> (r: Vec<LintDiagnostic>)
    requires
        cx.wf(),
        i < cx.ast.nodes@.len(),
    ensures
        views(r@) == (get_reports(cx))(i as int),
{
    let ast = &cx.ast;
    if !ast.is_kind(i, "ExportNamedDeclaration") {
        return Vec::new();
    }
    let d = match ast.child_of(i, "declaration") {
        Some(d) => d,
        None => {
            return Vec::new();
        },
    };
    if ast.is_kind(d, "FunctionDeclaration") {
        let mut out: Vec<LintDiagnostic> = Vec::new();
        match get_report_exec(cx, crate::rules::react::server_components::function_action_exec(ast, d)) {
            Some(diag) => {
                out.push(diag);
                proof {
                    assert(views(out@) =~= seq![diag@]);
                }
            },
            None => {},
        }
        out
    } else if ast.is_kind(d, "VariableDeclaration") {
        let declarations = ast.children_in(d, "declarations");
        let check = |v: usize| -> (r: Option<LintDiagnostic>)
            requires
                cx.wf(),
                v < cx.ast.nodes@.len(),
            ensures
                opt_diag(r) == get_report(cx, declarator_action(cx.ast, v as int)),
        { get_report_exec(cx, crate::rules::react::server_components::declarator_action_exec(&cx.ast, v)) };
        filter_reports_exec(&declarations, check, Ghost(|v: usize| get_report(cx, declarator_action(cx.ast, v as int))))
    } else {
        Vec::new()
    }
}

/// Runs `no-side-effect-in-get-handler`: in a Next.js project, for a
/// `route.*` file, one warning per exported `GET` with a side effect.
pub fn run_get_side_effects(cx: &LintContext, project: &ProjectInfo) -> (r: Vec<LintDiagnostic>)
    requires
        cx.wf(),
    ensures
        views(r@) == gated(
            project.has_next && file_name_starts(cx.path@, "route."@),
            reports_all(cx.ast.nodes@.len() as int, get_reports(cx)),
        ),
{
    if !project.has_next || !file_name_starts_exec(&cx.path, "route.") {
        return Vec::new();
    }
    let check = |i: usize| -> (r: Vec<LintDiagnostic>)
        requires
            cx.wf(),
            i < cx.ast.nodes@.len(),
        ensures
            views(r@) == (get_reports(cx))(i as int),
    { get_check(cx, i) };
    scan_nodes_all(cx, check, Ghost(get_reports(cx)))
}

} // verus!
