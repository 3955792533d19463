//! Rules for `"use server"` files in Next.js: server actions without an auth
//! check, and non-blocking side effects outside `after()`.
use vstd::prelude::*;

use crate::ast::{wf_nodes, Ast};
use crate::engine::{any_node, any_node_exec, filter_reports, filter_reports_exec, gated, opt_diag, reports_all,
    scan_nodes_all, views, DiagView, LintContext};
use crate::estree::{ident_name, ident_name_exec, unparen, unparen_exec};
use crate::lint::{LintDiagnostic, Severity};
use crate::project::ProjectInfo;
use crate::rules::react::helpers::{one_of, span_within};
use crate::rules::server::architecture::orm_mutation;
use crate::rules::server::helpers::{callee_name, callee_name_exec, is_orm_mutate_call, span_within_exec};
use crate::text::{chars_of, concat_chars, eq_str};

verus! {

/// The program (node 0) starts with the directive `directive`.
pub open spec fn file_has_directive(ast: Ast, directive: Seq<char>) -> bool {
    ast.nodes@.len() > 0 && ast.is(0, "Program"@) && exists|k: int|
        0 <= k < ast.field_children(0, "body"@).len() && #[trigger] ast.text(
            ast.field_children(0, "body"@)[k] as int,
            "directive"@,
        ) == Some(directive)
}

/// Whether the program starts with the directive `directive`.
pub fn file_has_directive_exec(ast: &Ast, directive: &str) -> (b: bool)
    requires
        ast.wf(),
    ensures
        b == file_has_directive(*ast, directive@),
{
    if ast.nodes.len() == 0 || !ast.is_kind(0, "Program") {
        return false;
    }
    let body = ast.children_in(0, "body");
    let mut k: usize = 0;
    while k < body.len()
        invariant
            ast.wf(),
            ast.nodes@.len() > 0,
            ast.is(0, "Program"@),
            body@ == ast.field_children(0, "body"@),
            forall|q: int| 0 <= q < body@.len() ==> #[trigger] body@[q] < ast.nodes@.len(),
            k <= body@.len(),
            forall|q: int| 0 <= q < k ==> #[trigger] ast.text(body@[q] as int, "directive"@) != Some(directive@),
        decreases body@.len() - k,
    {
        let hit = match ast.text_of(body[k], "directive") {
            Some(t) => eq_str(t, directive),
            None => false,
        };
        if hit {
            assert(ast.text(body@[k as int] as int, "directive"@) == Some(directive@));
            return true;
        }
        k = k + 1;
    }
    false
}

/// The names of action inputs: `formData`, `input`, `data`, `payload`.
pub open spec fn action_param_names() -> Seq<Seq<char>> {
    seq!["formData"@, "input"@, "data"@, "payload"@]
}

/// The identifier a parameter binds directly (through a default value).
pub open spec fn param_name(ast: Ast, p: int) -> Option<Seq<char>>
    decreases ast.nodes@.len() - p,
{
    if !(0 <= p < ast.nodes@.len()) {
        None
    } else if ast.is(p, "Identifier"@) {
        ident_name(ast, p)
    } else if ast.is(p, "AssignmentPattern"@) {
        match ast.child(p, "left"@) {
            Some(l) => if p < l < ast.nodes@.len() {
                param_name(ast, l)
            } else {
                None
            },
            None => None,
        }
    } else {
        None
    }
}

/// Parameter `p` names an action input.
pub open spec fn action_param(ast: Ast, p: int) -> bool {
    match param_name(ast, p) {
        Some(n) => action_param_names().contains(n),
        None => false,
    }
}

/// Function `f` takes an action input.
pub open spec fn has_action_params(ast: Ast, f: int) -> bool {
    exists|k: int|
        0 <= k < ast.field_children(f, "params"@).len() && #[trigger] action_param(
            ast,
            ast.field_children(f, "params"@)[k] as int,
        )
}

/// The exported function a declarator `v` defines: its name, the identifier
/// naming it, the function and its body.
pub open spec fn declarator_action(ast: Ast, v: int) -> Option<(Seq<char>, int, int, int)> {
    match (ast.child(v, "id"@), ast.child(v, "init"@)) {
        (Some(id), Some(init)) => {
            let f = unparen(ast, init);
            if ast.is(id, "Identifier"@) && (ast.is(f, "ArrowFunctionExpression"@) || ast.is(f, "FunctionExpression"@)) {
                match (ident_name(ast, id), ast.child(f, "body"@)) {
                    (Some(n), Some(b)) => Some((n, id, f, b)),
                    _ => None,
                }
            } else {
                None
            }
        },
        _ => None,
    }
}

/// The exported function declaration `d` defines: its name, the identifier
/// naming it, the function and its body.
pub open spec fn function_action(ast: Ast, d: int) -> Option<(Seq<char>, int, int, int)> {
    if ast.is(d, "FunctionDeclaration"@) {
        match ast.child(d, "id"@) {
            Some(id) => match (ident_name(ast, id), ast.child(d, "body"@)) {
                (Some(n), Some(b)) => Some((n, id, d, b)),
                _ => None,
            },
            None => None,
        }
    } else {
        None
    }
}

/// The calls that check authentication.
pub open spec fn auth_names() -> Seq<Seq<char>> {
    seq![
        "auth"@,
        "auth.requireUser"@,
        "requireAuth"@,
        "requireUser"@,
        "getServerSession"@,
        "assertUser"@,
        "verifySession"@,
    ]
}

/// The calls with non-blocking side effects.
pub open spec fn side_effect_names() -> Seq<Seq<char>> {
    seq![
        "analytics.track"@,
        "analytics.identify"@,
        "posthog.capture"@,
        "captureException"@,
        "sentry.captureException"@,
        "logEvent"@,
        "console.log"@,
    ]
}

/// Node `k`, within node `b`, calls one of `names`.
pub open spec fn named_call_within(ast: Ast, b: int, k: int, names: Seq<Seq<char>>) -> bool {
    ast.is(k, "CallExpression"@) && span_within(ast, b, k) && match callee_name(ast, k) {
        Some(n) => names.contains(n),
        None => false,
    }
}

/// Node `k`, within node `b`, mutates: an ORM write, a revalidation or a redirect.
pub open spec fn mutation_call_within(ast: Ast, b: int, k: int) -> bool {
    ast.is(k, "CallExpression"@) && span_within(ast, b, k) && (orm_mutation(ast, k) || match callee_name(ast, k) {
        Some(n) => n == "revalidatePath"@ || n == "revalidateTag"@ || n == "redirect"@,
        None => false,
    })
}

/// The two server-action rules.
#[derive(Debug, Clone, Copy, PartialEq, Eq, Structural)]
pub enum ServerActionRule {
    AuthActions,
    AfterNonblocking,
}

impl ServerActionRule {
    pub open spec fn rule(self) -> Seq<char> {
        match self {
            ServerActionRule::AuthActions => "react/server-auth-actions"@,
            ServerActionRule::AfterNonblocking => "react/server-after-nonblocking"@,
        }
    }

    pub open spec fn message(self, name: Seq<char>) -> Seq<char> {
        match self {
            ServerActionRule::AuthActions => "Server action `"@ + name
                + "` should perform an auth check before mutating data"@,
            ServerActionRule::AfterNonblocking => "Wrap non-blocking side effects in `after()` inside server action `"@
                + name + "`"@,
        }
    }

    /// The rule flags an exported function `f` with body `b`: a mutation
    /// (or action inputs) without an auth check, or a non-blocking side
    /// effect without `after()`.
    pub open spec fn flags(self, ast: Ast, f: int, b: int) -> bool {
        let n = ast.nodes@.len() as int;
        match self {
            ServerActionRule::AuthActions => !any_node(n, |k: int| named_call_within(ast, b, k, auth_names()))
                && (any_node(n, |k: int| mutation_call_within(ast, b, k)) || has_action_params(ast, f)),
            ServerActionRule::AfterNonblocking => any_node(
                n,
                |k: int| named_call_within(ast, b, k, side_effect_names()),
            ) && !any_node(n, |k: int| named_call_within(ast, b, k, seq!["after"@])),
        }
    }

    /// What the rule reports for an exported function.
    pub open spec fn action_report(self, cx: &LintContext, action: Option<(Seq<char>, int, int, int)>) -> Option<
        DiagView,
    > {
        match action {
            Some((name, id, f, b)) => if self.flags(cx.ast, f, b) {
                Some(cx.at_node(self.rule(), self.message(name), id, Severity::Warning))
            } else {
                None
            },
            None => None,
        }
    }

    /// What the rule reports at node `i`: for an exported function
    /// declaration, at most one warning; for an exported variable
    /// declaration, one per flagged declarator, in order.
    pub open spec fn export_reports(self, cx: &LintContext) -> spec_fn(int) -> Seq<DiagView> {
        |i: int|
            {
                let ast = cx.ast;
                if ast.is(i, "ExportNamedDeclaration"@) {
                    match ast.child(i, "declaration"@) {
                        Some(d) => if ast.is(d, "FunctionDeclaration"@) {
                            match self.action_report(cx, function_action(ast, d)) {
                                Some(r) => seq![r],
                                None => Seq::empty(),
                            }
                        } else if ast.is(d, "VariableDeclaration"@) {
                            filter_reports(
                                ast.field_children(d, "declarations"@),
                                |v: usize| self.action_report(cx, declarator_action(ast, v as int)),
                            )
                        } else {
                            Seq::empty()
                        },
                        None => Seq::empty(),
                    }
                } else {
                    Seq::empty()
                }
            }
    }

    /// The rule's name.
    pub fn name(&self) -> (r: &'static str)
        ensures
            r@ == self.rule(),
    {
        match self {
            ServerActionRule::AuthActions => "react/server-auth-actions",
            ServerActionRule::AfterNonblocking => "react/server-after-nonblocking",
        }
    }

    fn message_exec(&self, name: &Vec<char>) -> (r: Vec<char>)
        ensures
            r@ == self.message(name@),
    {
        match self {
            ServerActionRule::AuthActions => concat_chars(
                &concat_chars(&chars_of("Server action `"), name),
                &chars_of("` should perform an auth check before mutating data"),
            ),
            ServerActionRule::AfterNonblocking => concat_chars(
                &concat_chars(&chars_of("Wrap non-blocking side effects in `after()` inside server action `"), name),
                &chars_of("`"),
            ),
        }
    }

    fn flags_exec(&self, ast: &Ast, f: usize, b: usize) -> (r: bool)
        requires
            ast.wf(),
            f < ast.nodes@.len(),
            b < ast.nodes@.len(),
        ensures
            r == self.flags(*ast, f as int, b as int),
    {
        match self {
            ServerActionRule::AuthActions => {
                let auth = ["auth", "auth.requireUser", "requireAuth", "requireUser", "getServerSession", "assertUser", "verifySession"];
                assert(auth@.map_values(|s: &str| s@) =~= auth_names());
                !named_call_exec(ast, b, &auth, Ghost(auth_names())) && (mutation_call_exec(ast, b)
                    || has_action_params_exec(ast, f))
            },
            ServerActionRule::AfterNonblocking => {
                let effects = [
                    "analytics.track",
                    "analytics.identify",
                    "posthog.capture",
                    "captureException",
                    "sentry.captureException",
                    "logEvent",
                    "console.log",
                ];
                assert(effects@.map_values(|s: &str| s@) =~= side_effect_names());
                let after = ["after"];
                let ghost after_names: Seq<Seq<char>> = seq!["after"@];
                assert(after@.map_values(|s: &str| s@) =~= after_names);
                named_call_exec(ast, b, &effects, Ghost(side_effect_names())) && !named_call_exec(
                    ast,
                    b,
                    &after,
                    Ghost(after_names),
                )
            },
        }
    }

    fn action_report_exec(&self, cx: &LintContext, action: Option<(Vec<char>, usize, usize, usize)>) -> (d: Option<
        LintDiagnostic,
    >)
        requires
            cx.wf(),
            action matches Some((n, id, f, b)) ==> id < cx.ast.nodes@.len() && f < cx.ast.nodes@.len() && b
                < cx.ast.nodes@.len(),
        ensures
            opt_diag(d) == self.action_report(cx, action_view(action)),
    {
        match action {
            Some((name, id, f, b)) => if self.flags_exec(&cx.ast, f, b) {
                Some(cx.node_diagnostic(self.name(), &self.message_exec(&name), id, Severity::Warning))
            } else {
                None
            },
            None => None,
        }
    }

    fn export_check(&self, cx: &LintContext, i: usize) -> (r: Vec<LintDiagnostic>)
        requires
            cx.wf(),
            i < cx.ast.nodes@.len(),
        ensures
            views(r@) == (self.export_reports(cx))(i as int),
    {
        let ast = &cx.ast;
        if !ast.is_kind(i, "ExportNamedDeclaration") {
            return Vec::new();
        }
        let d = match ast.child_of(i, "declaration") {
            Some(d) => d,
            None => {
                return Vec::new();
            },
        };
        if ast.is_kind(d, "FunctionDeclaration") {
            let mut out: Vec<LintDiagnostic> = Vec::new();
            match self.action_report_exec(cx, function_action_exec(ast, d)) {
                Some(diag) => {
                    out.push(diag);
                    proof {
                        assert(views(out@) =~= seq![diag@]);
                    }
                },
                None => {},
            }
            out
        } else if ast.is_kind(d, "VariableDeclaration") {
            let declarations = ast.children_in(d, "declarations");
            let check = |v: usize| -> (r: Option<LintDiagnostic>)
                requires
                    cx.wf(),
                    v < cx.ast.nodes@.len(),
                ensures
                    opt_diag(r) == self.action_report(cx, declarator_action(cx.ast, v as int)),
            { self.action_report_exec(cx, declarator_action_exec(&cx.ast, v)) };
            filter_reports_exec(
                &declarations,
                check,
                Ghost(|v: usize| self.action_report(cx, declarator_action(cx.ast, v as int))),
            )
        } else {
            Vec::new()
        }
    }

    /// In a Next.js project, for a `"use server"` file, the rule's warnings
    /// for each exported function, export by export.
    pub fn run(&self, cx: &LintContext, project: &ProjectInfo) -> (r: Vec<LintDiagnostic>)
        requires
            cx.wf(),
        ensures
            views(r@) == gated(
                project.has_next && file_has_directive(cx.ast, "use server"@),
                reports_all(cx.ast.nodes@.len() as int, self.export_reports(cx)),
            ),
    {
        if !project.has_next || !file_has_directive_exec(&cx.ast, "use server") {
            return Vec::new();
        }
        let check = |i: usize| -> (r: Vec<LintDiagnostic>)
            requires
                cx.wf(),
                i < cx.ast.nodes@.len(),
            ensures
                views(r@) == (self.export_reports(cx))(i as int),
        { self.export_check(cx, i) };
        scan_nodes_all(cx, check, Ghost(self.export_reports(cx)))
    }
}

/// The view of an exported function found in code.
pub open spec fn action_view(a: Option<(Vec<char>, usize, usize, usize)>) -> Option<(Seq<char>, int, int, int)> {
    match a {
        Some((n, id, f, b)) => Some((n@, id as int, f as int, b as int)),
        None => None,
    }
}

pub(crate) fn param_name_exec(ast: &Ast, p: usize) -> (r: Option<Vec<char>>)
    requires
        ast.wf(),
        p < ast.nodes@.len(),
    ensures
        crate::estree::opt_seq(r) == param_name(*ast, p as int),
    decreases ast.nodes@.len() - p,
{
    if ast.is_kind(p, "Identifier") {
        ident_name_exec(ast, p)
    } else if ast.is_kind(p, "AssignmentPattern") {
        match ast.child_of(p, "left") {
            Some(l) => param_name_exec(ast, l),
            None => None,
        }
    } else {
        None
    }
}

fn has_action_params_exec(ast: &Ast, f: usize) -> (b: bool)
    requires
        ast.wf(),
        f < ast.nodes@.len(),
    ensures
        b == has_action_params(*ast, f as int),
{
    let names = ["formData", "input", "data", "payload"];
    assert(names@.map_values(|s: &str| s@) =~= action_param_names());
    let params = ast.children_in(f, "params");
    let mut k: usize = 0;
    while k < params.len()
        invariant
            ast.wf(),
            names@.map_values(|s: &str| s@) == action_param_names(),
            params@ == ast.field_children(f as int, "params"@),
            forall|q: int| 0 <= q < params@.len() ==> #[trigger] params@[q] < ast.nodes@.len(),
            k <= params@.len(),
            forall|q: int| 0 <= q < k ==> !#[trigger] action_param(*ast, params@[q] as int),
        decreases params@.len() - k,
    {
        let hit = match param_name_exec(ast, params[k]) {
            Some(n) => one_of(&n, &names),
            None => false,
        };
        if hit {
            assert(action_param(*ast, params@[k as int] as int));
            return true;
        }
        k = k + 1;
    }
    false
}

pub(crate) fn declarator_action_exec(ast: &Ast, v: usize) -> (r: Option<(Vec<char>, usize, usize, usize)>)
    requires
        ast.wf(),
        v < ast.nodes@.len(),
    ensures
        action_view(r) == declarator_action(*ast, v as int),
        r matches Some((n, id, f, b)) ==> id < ast.nodes@.len() && f < ast.nodes@.len() && b < ast.nodes@.len(),
{
    match (ast.child_of(v, "id"), ast.child_of(v, "init")) {
        (Some(id), Some(init)) => {
            let f = unparen_exec(ast, init);
            if ast.is_kind(id, "Identifier") && (ast.is_kind(f, "ArrowFunctionExpression") || ast.is_kind(
                f,
                "FunctionExpression",
            )) {
                match (ident_name_exec(ast, id), ast.child_of(f, "body")) {
                    (Some(n), Some(b)) => Some((n, id, f, b)),
                    _ => None,
                }
            } else {
                None
            }
        },
        _ => None,
    }
}

pub(crate) fn function_action_exec(ast: &Ast, d: usize) -> (r: Option<(Vec<char>, usize, usize, usize)>)
    requires
        ast.wf(),
        d < ast.nodes@.len(),
    ensures
        action_view(r) == function_action(*ast, d as int),
        r matches Some((n, id, f, b)) ==> id < ast.nodes@.len() && f < ast.nodes@.len() && b < ast.nodes@.len(),
{
    if !ast.is_kind(d, "FunctionDeclaration") {
        return None;
    }
    match ast.child_of(d, "id") {
        Some(id) => match (ident_name_exec(ast, id), ast.child_of(d, "body")) {
            (Some(n), Some(b)) => Some((n, id, d, b)),
            _ => None,
        },
        None => None,
    }
}

fn named_call_exec(ast: &Ast, b: usize, names: &[&str], Ghost(set): Ghost<Seq<Seq<char>>>) -> (r: bool)
    requires
        ast.wf(),
        b < ast.nodes@.len(),
        names@.map_values(|s: &str| s@) == set,
    ensures
        r == any_node(ast.nodes@.len() as int, |k: int| named_call_within(*ast, b as int, k, set)),
{
    let test = |k: usize| -> (r: bool)
        requires
            wf_nodes(ast.nodes@),
            b < ast.nodes@.len(),
            k < ast.nodes@.len(),
        ensures
            r == named_call_within(*ast, b as int, k as int, names@.map_values(|s: &str| s@)),
    {
        ast.is_kind(k, "CallExpression") && span_within_exec(ast, b, k) && match callee_name_exec(ast, k) {
            Some(n) => one_of(&n, names),
            None => false,
        }
    };
    any_node_exec(ast.nodes.len(), test, Ghost(|k: int| named_call_within(*ast, b as int, k, set)))
}

fn mutation_call_exec(ast: &Ast, b: usize) -> (r: bool)
    requires
        ast.wf(),
        b < ast.nodes@.len(),
    ensures
        r == any_node(ast.nodes@.len() as int, |k: int| mutation_call_within(*ast, b as int, k)),
{
    let test = |k: usize| -> (r: bool)
        requires
            wf_nodes(ast.nodes@),
            b < ast.nodes@.len(),
            k < ast.nodes@.len(),
        ensures
            r == mutation_call_within(*ast, b as int, k as int),
    {
        ast.is_kind(k, "CallExpression") && span_within_exec(ast, b, k) && (is_orm_mutate_call(ast, k)
            || match callee_name_exec(ast, k) {
            Some(n) => eq_str(&n, "revalidatePath") || eq_str(&n, "revalidateTag") || eq_str(&n, "redirect"),
            None => false,
        })
    };
    any_node_exec(ast.nodes.len(), test, Ghost(|k: int| mutation_call_within(*ast, b as int, k)))
}

} // verus!
