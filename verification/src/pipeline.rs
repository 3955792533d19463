//! Linting one source text: the parser's and the semantic checker's own
//! errors, then every rule that applies to the project.
use vstd::prelude::*;

use crate::ast::{nodes_view, read_ast, tree_of, Ast};
use crate::engine::{diag, make_diagnostic, views, DiagView, LintContext};
use crate::frontend::{
    estree_of, estree_text, is_typescript_path, parse_errors_of, parser_errors, semantic_errors,
    semantic_errors_of, typescript_path,
};
use crate::lint::{LintDiagnostic, LintResult, RuleOrigin, Severity};
use crate::project::ProjectInfo;
use crate::engine::{lemma_views_append, reports};
use crate::frontend::{
    lineages_of, reference_facts, references_of, symbol_facts, symbol_lineages, symbols_of, ReferenceFact,
    SymbolFact, SymbolView,
};
use crate::rules::no_explicit_any::{any_reports, NoExplicitAny};
use crate::rules::no_missing_return::{missing_return_reports, NoMissingReturn};
use crate::rules::no_unused_vars::{unused_reports, NoUnusedVars};
use crate::rules::no_wrong_arg_count::{arg_count_reports, NoWrongArgCount};
use crate::rules::universal_security::{eval_reports, secret_reports, NoEval, NoHardcodedSecrets};
use crate::rules::react::performance::{
    animate_presence_reports, hydration_reports, layout_reports, lazy_motion_reports, motion_in_list_reports,
    prop_on_memo_reports, script_reports, unstable_motion_reports, usememo_reports, NoAnimatePresenceInList,
    NoHydrationFlicker, NoLayoutAnimation, NoMotionInList, NoPropOnMemo, NoUndeferredScript, NoUnstableMotionProps,
    NoUseMemoSimpleExpr, UseLazyMotion,
};
use crate::rules::react::styles::{ImportCheck, StyleCheck};
use crate::rules::react::hooks::HookRule;
use crate::rules::react::correctness::CorrectnessRule;
use crate::rules::react::architecture::{
    giant_reports, nested_reports, render_reports, NoGiantComponent, NoNestedComponent, NoRenderInRender,
};
use crate::rules::react::server_components::{file_has_directive, ServerActionRule};
use crate::rules::react::search_params::{run_search_params, search_views};
use crate::rules::react::nextjs::{
    file_name_starts, get_reports, metadata_views, run_get_side_effects, run_missing_metadata, NextRule,
};
use crate::engine::gated;
use crate::rules::react::react_native::{native_project, NativeRule};
use crate::rules::js_performance::{
    chained_reports, min_max_reports, nesting_reports, promise_all_reports, regexp_reports, storage_reports,
    style_reports, tosorted_reports, LoopLookup, NoChainedArrayIterations, NoDeepNesting, NoDuplicateStorageReads,
    NoRegexpInLoop, NoSequentialStyleAssignment, PreferMathMinMax, PreferPromiseAll, PreferToSorted,
};
use crate::rules::server::architecture::{
    floating_scan, input_validation_reports, long_route_reports, NoBusinessLogicInRoute, NoFloatingTransaction,
    RequireInputValidation,
};
use crate::rules::server::performance::{
    blocking_crypto_reports, json_parse_reports, n_plus_one_reports, sync_fs_reports, unbounded_reports,
    NoBlockingCrypto, NoLargeJsonParseSync, NoNPlusOne, NoSyncFsInHandler, NoUnboundedQuery,
};
use crate::rules::server::reliability::{
    error_status_reports, process_exit_reports, swallowed_reports, throw_string_reports, unhandled_async_reports,
    NoProcessExitInHandler, NoSwallowedError, NoThrowString, NoUnhandledAsyncRoute, RequireErrorStatus,
};
use crate::rules::server::security::{
    cors_reports, jwt_none_reports, jwt_secret_reports, path_reports, redirect_reports, shell_reports, sql_reports,
    NoCorsWildcard, NoHardcodedJwtSecret, NoJwtNoneAlgorithm, NoPathTraversal, NoShellInjection, NoSqlInjection,
    NoUnsafeRedirect,
};
use crate::engine::reports_all;
use crate::text::{chars_of, owned};

verus! {

/// The offset an engine error points at: its first label's, else 0.
pub open spec fn error_offset(offsets: Seq<u32>) -> u32 {
    if offsets.len() > 0 {
        offsets[0]
    } else {
        0
    }
}

/// The diagnostics of rule `rule` for a list of engine errors.
pub open spec fn engine_views(
    source: Seq<char>,
    errors: Seq<(Seq<u32>, Seq<char>)>,
    rule: Seq<char>,
) -> Seq<DiagView> {
    errors.map_values(
        |e: (Seq<u32>, Seq<char>)|
            diag(
                source,
                rule,
                e.1,
                error_offset(e.0),
                error_offset(e.0),
                Severity::Error,
                RuleOrigin::Engine,
            ),
    )
}

/// One error diagnostic of rule `rule` per engine error, at its first label.
pub fn engine_diagnostics(source: &Vec<char>, errors: &Vec<(Vec<u32>, String)>, rule: &str) -> (r: Vec<
    LintDiagnostic,
>)
    requires
        source@.len() < usize::MAX,
    ensures
        views(r@) == engine_views(
            source@,
            errors@.map_values(|e: (Vec<u32>, String)| (e.0@, e.1@)),
            rule@,
        ),
{
    let rule_chars = chars_of(rule);
    let mut out: Vec<LintDiagnostic> = Vec::new();
    let mut k: usize = 0;
    while k < errors.len()
        invariant
            k <= errors@.len(),
            source@.len() < usize::MAX,
            rule_chars@ == rule@,
            views(out@) == engine_views(
                source@,
                errors@.map_values(|e: (Vec<u32>, String)| (e.0@, e.1@)).take(k as int),
                rule@,
            ),
        decreases errors@.len() - k,
    {
        let offsets = &errors[k].0;
        let offset: u32 = if offsets.len() > 0 {
            offsets[0]
        } else {
            0
        };
        let message = chars_of(errors[k].1.as_str());
        let d = make_diagnostic(source, &rule_chars, &message, offset, offset, Severity::Error, RuleOrigin::Engine);
        proof {
            crate::engine::lemma_views_push(out@, d);
            let all = errors@.map_values(|e: (Vec<u32>, String)| (e.0@, e.1@));
            assert(all.take(k + 1) =~= all.take(k as int).push(all[k as int]));
            assert(engine_views(source@, all.take(k + 1), rule@) =~= engine_views(source@, all.take(k as int), rule@).push(
                d@,
            ));
        }
        out.push(d);
        k = k + 1;
    }
    proof {
        let all = errors@.map_values(|e: (Vec<u32>, String)| (e.0@, e.1@));
        assert(all.take(k as int) =~= all);
    }
    out
}

/// The context the rules read for `source` at `path`, given the ESTree
/// text of its program.
pub fn context_from_estree(path: &str, source: &str, estree: &str) -> (cx: LintContext)
    ensures
        cx.wf(),
        source@.len() < usize::MAX ==> cx.source@ == source@,
        source@.len() < usize::MAX ==> nodes_view(cx.ast.nodes@) == tree_of(estree@),
        source@.len() == usize::MAX ==> cx.source@.len() == 0 && cx.ast.nodes@.len() == 0,
        cx.path@ == path@,
        cx.typescript == typescript_path(path@),
{
    let chars = chars_of(source);
    // A text too large for positions to be counted yields nothing to lint.
    if chars.len() == usize::MAX {
        return LintContext { source: Vec::new(), path: chars_of(path), ast: Ast::empty(), typescript: is_typescript_path(path) };
    }
    let ast = read_ast(estree);
    LintContext { source: chars, path: chars_of(path), ast, typescript: is_typescript_path(path) }
}

/// The context the rules read for `source` at `path`.
pub fn build_context(path: &str, source: &str) -> (cx: LintContext)
    ensures
        cx.wf(),
        source@.len() < usize::MAX ==> cx.source@ == source@,
        source@.len() < usize::MAX ==> nodes_view(cx.ast.nodes@) == tree_of(estree_of(path@, source@)),
        cx.path@ == path@,
        cx.typescript == typescript_path(path@),
{
    let text = estree_text(path, source);
    context_from_estree(path, source, text.as_str())
}

/// What the semantic analysis tells the rules about a program.
pub struct SemanticFacts {
    pub symbols: Vec<SymbolFact>,
    /// For each symbol, the kinds of its declaring node and of that node's ancestors.
    pub lineages: Vec<Vec<String>>,
    pub references: Vec<ReferenceFact>,
}

/// The plain values of [`SemanticFacts`].
pub struct FactsView {
    pub symbols: Seq<SymbolView>,
    pub lineages: Seq<Seq<Seq<char>>>,
    pub references: Seq<(u32, u32, bool)>,
}

impl View for SemanticFacts {
    type V = FactsView;

    open spec fn view(&self) -> FactsView {
        FactsView {
            symbols: self.symbols@.map_values(|f: SymbolFact| f@),
            lineages: self.lineages@.map_values(|l: Vec<String>| l@.map_values(|s: String| s@)),
            references: self.references@.map_values(|f: ReferenceFact| (f.start, f.end, f.resolved)),
        }
    }
}

/// What the built-in rules report, rule by rule.
pub open spec fn builtin_views(cx: &LintContext, facts: &SemanticFacts) -> Seq<DiagView> {
    let n = cx.ast.nodes@.len() as int;
    reports(n, any_reports(cx)) + unused_reports(cx, facts@.symbols, facts@.lineages, facts@.symbols.len() as int)
        + reports(n, missing_return_reports(cx)) + reports(n, arg_count_reports(cx)) + reports(
        n,
        eval_reports(cx, facts.references@),
    ) + reports(n, secret_reports(cx)) + js_performance_views(cx, facts)
}

/// What the JavaScript performance rules report, rule by rule.
pub open spec fn js_performance_views(cx: &LintContext, facts: &SemanticFacts) -> Seq<DiagView> {
    let n = cx.ast.nodes@.len() as int;
    reports(n, chained_reports(cx)) + reports(n, tosorted_reports(cx)) + reports(n, regexp_reports(cx, facts.references@))
        + reports(n, min_max_reports(cx)) + reports(n, LoopLookup::Includes.reports_fn(cx)) + reports(
        n,
        style_reports(cx),
    ) + reports(n, LoopLookup::Find.reports_fn(cx)) + reports(n, storage_reports(cx)) + reports(n, nesting_reports(cx))
        + promise_all_reports(cx, n)
}

/// Runs the JavaScript performance rules.
pub fn run_js_performance(cx: &LintContext, facts: &SemanticFacts) -> (r: Vec<LintDiagnostic>)
    requires
        cx.wf(),
    ensures
        views(r@) == js_performance_views(cx, facts),
{
    let mut out: Vec<LintDiagnostic> = Vec::new();
    let mut part = NoChainedArrayIterations.run(cx);
    proof { lemma_views_append(out@, part@); }
    out.append(&mut part);
    let mut part = PreferToSorted.run(cx);
    proof { lemma_views_append(out@, part@); }
    out.append(&mut part);
    let mut part = NoRegexpInLoop.run(cx, &facts.references);
    proof { lemma_views_append(out@, part@); }
    out.append(&mut part);
    let mut part = PreferMathMinMax.run(cx);
    proof { lemma_views_append(out@, part@); }
    out.append(&mut part);
    let mut part = LoopLookup::Includes.run(cx);
    proof { lemma_views_append(out@, part@); }
    out.append(&mut part);
    let mut part = NoSequentialStyleAssignment.run(cx);
    proof { lemma_views_append(out@, part@); }
    out.append(&mut part);
    let mut part = LoopLookup::Find.run(cx);
    proof { lemma_views_append(out@, part@); }
    out.append(&mut part);
    let mut part = NoDuplicateStorageReads.run(cx);
    proof { lemma_views_append(out@, part@); }
    out.append(&mut part);
    let mut part = NoDeepNesting.run(cx);
    proof { lemma_views_append(out@, part@); }
    out.append(&mut part);
    let mut part = PreferPromiseAll.run(cx);
    proof { lemma_views_append(out@, part@); }
    out.append(&mut part);
    assert(views(out@) =~= js_performance_views(cx, facts));
    out
}

/// What the React performance rules report, rule by rule.
pub open spec fn react_performance_views(cx: &LintContext, facts: &SemanticFacts) -> Seq<DiagView> {
    let n = cx.ast.nodes@.len() as int;
    reports(n, usememo_reports(cx)) + reports(n, unstable_motion_reports(cx)) + reports(n, layout_reports(cx))
        + reports(n, animate_presence_reports(cx)) + reports(n, motion_in_list_reports(cx)) + reports(
        n,
        prop_on_memo_reports(cx),
    ) + reports(n, hydration_reports(cx, facts.references@)) + reports(n, StyleCheck::TransitionAll.reports_fn(cx))
        + reports(n, StyleCheck::WillChange.reports_fn(cx)) + reports(n, StyleCheck::BlurFilter.reports_fn(cx))
        + reports(n, StyleCheck::HeavyShadow.reports_fn(cx)) + reports(n, ImportCheck::Barrel.reports_fn(cx))
        + reports(n, ImportCheck::FullLodash.reports_fn(cx)) + reports(n, ImportCheck::Moment.reports_fn(cx))
        + reports(n, ImportCheck::Heavy.reports_fn(cx)) + reports(n, lazy_motion_reports(cx)) + reports(
        n,
        script_reports(cx),
    )
}

/// What the hook rules report, rule by rule.
pub open spec fn hooks_views(cx: &LintContext, facts: &SemanticFacts) -> Seq<DiagView> {
    let n = cx.ast.nodes@.len() as int;
    let refs = facts.references@;
    reports(n, HookRule::DerivedStateEffect.reports_fn(cx, refs)) + reports(n, HookRule::FetchInEffect.reports_fn(cx, refs))
        + reports(n, HookRule::CascadingSetState.reports_fn(cx, refs)) + reports(
        n,
        HookRule::EffectEventHandler.reports_fn(cx, refs),
    ) + reports(n, HookRule::DerivedUseState.reports_fn(cx, refs)) + reports(
        n,
        HookRule::PreferUseReducer.reports_fn(cx, refs),
    ) + reports(n, HookRule::LazyStateInit.reports_fn(cx, refs)) + reports(
        n,
        HookRule::FunctionalSetState.reports_fn(cx, refs),
    ) + reports(n, HookRule::UnstableDeps.reports_fn(cx, refs))
}

/// What the React rules report, group by group: hooks, correctness,
/// architecture, then performance.
pub open spec fn react_views(cx: &LintContext, facts: &SemanticFacts) -> Seq<DiagView> {
    let n = cx.ast.nodes@.len() as int;
    hooks_views(cx, facts) + reports(n, CorrectnessRule::ArrayIndexKey.reports_fn(cx)) + reports(
        n,
        CorrectnessRule::PreventDefault.reports_fn(cx),
    ) + reports(n, CorrectnessRule::ConditionalRenderZero.reports_fn(cx)) + reports(n, giant_reports(cx)) + reports(
        n,
        render_reports(cx),
    ) + reports(n, nested_reports(cx)) + react_performance_views(cx, facts)
}

/// What the Next.js rules report, rule by rule.
pub open spec fn next_views(cx: &LintContext, project: ProjectInfo) -> Seq<DiagView> {
    let n = cx.ast.nodes@.len() as int;
    gated(
        project.has_next,
        reports(n, NextRule::ImgElement.reports_fn(cx)) + reports(n, NextRule::PreferNextLink.reports_fn(cx))
            + reports(n, NextRule::HeadElement.reports_fn(cx)) + reports(n, NextRule::HeadImport.reports_fn(cx))
            + reports(n, NextRule::DocumentImport.reports_fn(cx)) + reports(n, NextRule::ScriptInHead.reports_fn(cx)),
    ) + gated(project.has_next, search_views(cx)) + metadata_views(cx, project) + gated(
        project.has_next && file_name_starts(cx.path@, "route."@),
        reports_all(n, get_reports(cx)),
    ) + gated(project.has_next, reports(n, NextRule::AsyncClientComponent.reports_fn(cx)))
}

/// Runs the Next.js rules.
pub fn run_next(cx: &LintContext, project: &ProjectInfo) -> (r: Vec<LintDiagnostic>)
    requires
        cx.wf(),
    ensures
        views(r@) == next_views(cx, *project),
{
    let mut out = NextRule::ImgElement.run(cx, project);
    let mut part = NextRule::PreferNextLink.run(cx, project);
    proof { lemma_views_append(out@, part@); }
    out.append(&mut part);
    let mut part = NextRule::HeadElement.run(cx, project);
    proof { lemma_views_append(out@, part@); }
    out.append(&mut part);
    let mut part = NextRule::HeadImport.run(cx, project);
    proof { lemma_views_append(out@, part@); }
    out.append(&mut part);
    let mut part = NextRule::DocumentImport.run(cx, project);
    proof { lemma_views_append(out@, part@); }
    out.append(&mut part);
    let mut part = NextRule::ScriptInHead.run(cx, project);
    proof { lemma_views_append(out@, part@); }
    out.append(&mut part);
    let mut part = run_search_params(cx, project);
    proof { lemma_views_append(out@, part@); }
    out.append(&mut part);
    let mut part = run_missing_metadata(cx, project);
    proof { lemma_views_append(out@, part@); }
    out.append(&mut part);
    let mut part = run_get_side_effects(cx, project);
    proof { lemma_views_append(out@, part@); }
    out.append(&mut part);
    let mut part = NextRule::AsyncClientComponent.run(cx, project);
    proof { lemma_views_append(out@, part@); }
    out.append(&mut part);
    out
}

/// What the server-action rules report in a Next.js project's `"use server"` file.
pub open spec fn action_views(cx: &LintContext, project: ProjectInfo) -> Seq<DiagView> {
    let n = cx.ast.nodes@.len() as int;
    gated(
        project.has_next && file_has_directive(cx.ast, "use server"@),
        reports_all(n, ServerActionRule::AuthActions.export_reports(cx)) + reports_all(
            n,
            ServerActionRule::AfterNonblocking.export_reports(cx),
        ),
    )
}

/// Runs the server-action rules.
pub fn run_actions(cx: &LintContext, project: &ProjectInfo) -> (r: Vec<LintDiagnostic>)
    requires
        cx.wf(),
    ensures
        views(r@) == action_views(cx, *project),
{
    let mut out = ServerActionRule::AuthActions.run(cx, project);
    let mut part = ServerActionRule::AfterNonblocking.run(cx, project);
    proof { lemma_views_append(out@, part@); }
    out.append(&mut part);
    out
}

/// Runs the hook rules.
pub fn run_hooks(cx: &LintContext, facts: &SemanticFacts, project: &ProjectInfo) -> (r: Vec<LintDiagnostic>)
    requires
        cx.wf(),
    ensures
        views(r@) == gated(project.has_react, hooks_views(cx, facts)),
{
    if !project.has_react {
        return Vec::new();
    }
    let rules = [
        HookRule::DerivedStateEffect,
        HookRule::FetchInEffect,
        HookRule::CascadingSetState,
        HookRule::EffectEventHandler,
        HookRule::DerivedUseState,
        HookRule::PreferUseReducer,
        HookRule::LazyStateInit,
        HookRule::FunctionalSetState,
        HookRule::UnstableDeps,
    ];
    let mut out: Vec<LintDiagnostic> = Vec::new();
    let mut k: usize = 0;
    while k < 9
        invariant
            cx.wf(),
            project.has_react,
            k <= 9,
            rules@ == seq![
                HookRule::DerivedStateEffect,
                HookRule::FetchInEffect,
                HookRule::CascadingSetState,
                HookRule::EffectEventHandler,
                HookRule::DerivedUseState,
                HookRule::PreferUseReducer,
                HookRule::LazyStateInit,
                HookRule::FunctionalSetState,
                HookRule::UnstableDeps,
            ],
            views(out@) == hooks_prefix(cx, facts.references@, rules@, k as int),
        decreases 9 - k,
    {
        let mut part = rules[k].run(cx, &facts.references, project);
        proof {
            lemma_views_append(out@, part@);
        }
        out.append(&mut part);
        k = k + 1;
    }
    proof {
        reveal_with_fuel(hooks_prefix, 10);
        assert(hooks_prefix(cx, facts.references@, rules@, 9) =~= hooks_views(cx, facts));
    }
    out
}

/// What the first `k` of `rules` report, rule by rule.
pub open spec fn hooks_prefix(cx: &LintContext, refs: Seq<ReferenceFact>, rules: Seq<HookRule>, k: int) -> Seq<
    DiagView,
>
    decreases k,
{
    if k <= 0 {
        Seq::empty()
    } else {
        hooks_prefix(cx, refs, rules, k - 1) + reports(cx.ast.nodes@.len() as int, rules[k - 1].reports_fn(cx, refs))
    }
}

/// Runs the React rules, group by group.
pub fn run_react(cx: &LintContext, facts: &SemanticFacts, project: &ProjectInfo) -> (r: Vec<LintDiagnostic>)
    requires
        cx.wf(),
    ensures
        views(r@) == gated(project.has_react, react_views(cx, facts)),
{
    let mut out = run_hooks(cx, facts, project);
    let mut part = CorrectnessRule::ArrayIndexKey.run(cx, project);
    proof { lemma_views_append(out@, part@); }
    out.append(&mut part);
    let mut part = CorrectnessRule::PreventDefault.run(cx, project);
    proof { lemma_views_append(out@, part@); }
    out.append(&mut part);
    let mut part = CorrectnessRule::ConditionalRenderZero.run(cx, project);
    proof { lemma_views_append(out@, part@); }
    out.append(&mut part);
    let mut part = NoGiantComponent.run(cx, project);
    proof { lemma_views_append(out@, part@); }
    out.append(&mut part);
    let mut part = NoRenderInRender.run(cx, project);
    proof { lemma_views_append(out@, part@); }
    out.append(&mut part);
    let mut part = NoNestedComponent.run(cx, project);
    proof { lemma_views_append(out@, part@); }
    out.append(&mut part);
    let mut part = run_react_performance(cx, facts, project);
    proof { lemma_views_append(out@, part@); }
    out.append(&mut part);
    out
}

/// What every rule that applies to `project` reports for the context, rule by rule.
pub open spec fn rule_views(cx: &LintContext, facts: &SemanticFacts, project: ProjectInfo) -> Seq<DiagView> {
    builtin_views(cx, facts) + gated(project.has_react, react_views(cx, facts)) + next_views(cx, project)
        + action_views(cx, project) + gated(
        native_project(project),
        native_views(cx),
    ) + gated(project.server(), server_views(cx))
}

/// What the server rules report, rule by rule: security, reliability,
/// performance, then architecture.
pub open spec fn server_views(cx: &LintContext) -> Seq<DiagView> {
    let n = cx.ast.nodes@.len() as int;
    reports(n, sql_reports(cx)) + reports(n, shell_reports(cx)) + reports(n, path_reports(cx)) + reports(
        n,
        redirect_reports(cx),
    ) + reports(n, cors_reports(cx)) + reports(n, jwt_secret_reports(cx)) + reports(n, jwt_none_reports(cx))
        + reports_all(n, unhandled_async_reports(cx)) + reports(n, swallowed_reports(cx)) + reports(
        n,
        process_exit_reports(cx),
    ) + reports(n, error_status_reports(cx)) + reports(n, throw_string_reports(cx)) + reports(
        n,
        n_plus_one_reports(cx),
    ) + reports(n, unbounded_reports(cx)) + reports(n, sync_fs_reports(cx)) + reports(n, blocking_crypto_reports(cx))
        + reports(n, json_parse_reports(cx)) + reports_all(n, input_validation_reports(cx)) + floating_scan(
        cx,
        n,
    ).1 + reports_all(n, long_route_reports(cx))
}

/// Runs the server rules.
pub fn run_server(cx: &LintContext, project: &ProjectInfo) -> (r: Vec<LintDiagnostic>)
    requires
        cx.wf(),
    ensures
        views(r@) == gated(project.server(), server_views(cx)),
{
    if !project.has_server_framework() {
        return Vec::new();
    }
    let mut out: Vec<LintDiagnostic> = Vec::new();
    let mut part = NoSqlInjection.run(cx, project);
    proof { lemma_views_append(out@, part@); }
    out.append(&mut part);
    let mut part = NoShellInjection.run(cx, project);
    proof { lemma_views_append(out@, part@); }
    out.append(&mut part);
    let mut part = NoPathTraversal.run(cx, project);
    proof { lemma_views_append(out@, part@); }
    out.append(&mut part);
    let mut part = NoUnsafeRedirect.run(cx, project);
    proof { lemma_views_append(out@, part@); }
    out.append(&mut part);
    let mut part = NoCorsWildcard.run(cx, project);
    proof { lemma_views_append(out@, part@); }
    out.append(&mut part);
    let mut part = NoHardcodedJwtSecret.run(cx, project);
    proof { lemma_views_append(out@, part@); }
    out.append(&mut part);
    let mut part = NoJwtNoneAlgorithm.run(cx, project);
    proof { lemma_views_append(out@, part@); }
    out.append(&mut part);
    let mut part = NoUnhandledAsyncRoute.run(cx, project);
    proof { lemma_views_append(out@, part@); }
    out.append(&mut part);
    let mut part = NoSwallowedError.run(cx, project);
    proof { lemma_views_append(out@, part@); }
    out.append(&mut part);
    let mut part = NoProcessExitInHandler.run(cx, project);
    proof { lemma_views_append(out@, part@); }
    out.append(&mut part);
    let mut part = RequireErrorStatus.run(cx, project);
    proof { lemma_views_append(out@, part@); }
    out.append(&mut part);
    let mut part = NoThrowString.run(cx, project);
    proof { lemma_views_append(out@, part@); }
    out.append(&mut part);
    let mut part = NoNPlusOne.run(cx, project);
    proof { lemma_views_append(out@, part@); }
    out.append(&mut part);
    let mut part = NoUnboundedQuery.run(cx, project);
    proof { lemma_views_append(out@, part@); }
    out.append(&mut part);
    let mut part = NoSyncFsInHandler.run(cx, project);
    proof { lemma_views_append(out@, part@); }
    out.append(&mut part);
    let mut part = NoBlockingCrypto.run(cx, project);
    proof { lemma_views_append(out@, part@); }
    out.append(&mut part);
    let mut part = NoLargeJsonParseSync.run(cx, project);
    proof { lemma_views_append(out@, part@); }
    out.append(&mut part);
    let mut part = RequireInputValidation.run(cx, project);
    proof { lemma_views_append(out@, part@); }
    out.append(&mut part);
    let mut part = NoFloatingTransaction.run(cx, project);
    proof { lemma_views_append(out@, part@); }
    out.append(&mut part);
    let mut part = NoBusinessLogicInRoute.run(cx, project);
    proof { lemma_views_append(out@, part@); }
    out.append(&mut part);
    assert(views(out@) =~= server_views(cx));
    out
}

/// What the React Native rules report, rule by rule.
pub open spec fn native_views(cx: &LintContext) -> Seq<DiagView> {
    let n = cx.ast.nodes@.len() as int;
    reports(n, NativeRule::InlineStyles.reports_fn(cx)) + reports(n, NativeRule::InlineCallbacks.reports_fn(cx))
        + reports(n, NativeRule::AnonymousListRender.reports_fn(cx)) + reports(
        n,
        NativeRule::ScrollViewList.reports_fn(cx),
    ) + reports(n, NativeRule::RawText.reports_fn(cx)) + reports(n, NativeRule::Alert.reports_fn(cx)) + reports(
        n,
        NativeRule::ImageUriLiteral.reports_fn(cx),
    ) + reports(n, NativeRule::KeyExtractor.reports_fn(cx))
}

/// Runs the React Native rules.
pub fn run_native(cx: &LintContext, project: &ProjectInfo) -> (r: Vec<LintDiagnostic>)
    requires
        cx.wf(),
    ensures
        views(r@) == gated(native_project(*project), native_views(cx)),
{
    if !(project.has_react_native || project.has_expo) {
        return Vec::new();
    }
    let rules = [
        NativeRule::InlineStyles,
        NativeRule::InlineCallbacks,
        NativeRule::AnonymousListRender,
        NativeRule::ScrollViewList,
        NativeRule::RawText,
        NativeRule::Alert,
        NativeRule::ImageUriLiteral,
        NativeRule::KeyExtractor,
    ];
    let mut out: Vec<LintDiagnostic> = Vec::new();
    let mut k: usize = 0;
    while k < 8
        invariant
            cx.wf(),
            native_project(*project),
            k <= 8,
            rules@ == seq![
                NativeRule::InlineStyles,
                NativeRule::InlineCallbacks,
                NativeRule::AnonymousListRender,
                NativeRule::ScrollViewList,
                NativeRule::RawText,
                NativeRule::Alert,
                NativeRule::ImageUriLiteral,
                NativeRule::KeyExtractor,
            ],
            views(out@) == native_prefix(cx, rules@, k as int),
        decreases 8 - k,
    {
        let mut part = rules[k].run(cx, project);
        proof {
            lemma_views_append(out@, part@);
        }
        out.append(&mut part);
        k = k + 1;
    }
    proof {
        reveal_with_fuel(native_prefix, 9);
        assert(native_prefix(cx, rules@, 8) =~= native_views(cx));
    }
    out
}

/// What the first `k` of `rules` report, rule by rule.
pub open spec fn native_prefix(cx: &LintContext, rules: Seq<NativeRule>, k: int) -> Seq<DiagView>
    decreases k,
{
    if k <= 0 {
        Seq::empty()
    } else {
        native_prefix(cx, rules, k - 1) + reports(cx.ast.nodes@.len() as int, rules[k - 1].reports_fn(cx))
    }
}

/// Runs the React performance rules.
pub fn run_react_performance(cx: &LintContext, facts: &SemanticFacts, project: &ProjectInfo) -> (r: Vec<
    LintDiagnostic,
>)
    requires
        cx.wf(),
    ensures
        views(r@) == gated(project.has_react, react_performance_views(cx, facts)),
{
    if !project.has_react {
        return Vec::new();
    }
    let mut out: Vec<LintDiagnostic> = Vec::new();
    let mut part = NoUseMemoSimpleExpr.run(cx, project);
    proof { lemma_views_append(out@, part@); }
    out.append(&mut part);
    let mut part = NoUnstableMotionProps.run(cx, project);
    proof { lemma_views_append(out@, part@); }
    out.append(&mut part);
    let mut part = NoLayoutAnimation.run(cx, project);
    proof { lemma_views_append(out@, part@); }
    out.append(&mut part);
    let mut part = NoAnimatePresenceInList.run(cx, project);
    proof { lemma_views_append(out@, part@); }
    out.append(&mut part);
    let mut part = NoMotionInList.run(cx, project);
    proof { lemma_views_append(out@, part@); }
    out.append(&mut part);
    let mut part = NoPropOnMemo.run(cx, project);
    proof { lemma_views_append(out@, part@); }
    out.append(&mut part);
    let mut part = NoHydrationFlicker.run(cx, &facts.references, project);
    proof { lemma_views_append(out@, part@); }
    out.append(&mut part);
    let checks = [StyleCheck::TransitionAll, StyleCheck::WillChange, StyleCheck::BlurFilter, StyleCheck::HeavyShadow];
    let mut part = checks[0].run(cx, project);
    proof { lemma_views_append(out@, part@); }
    out.append(&mut part);
    let mut part = checks[1].run(cx, project);
    proof { lemma_views_append(out@, part@); }
    out.append(&mut part);
    let mut part = checks[2].run(cx, project);
    proof { lemma_views_append(out@, part@); }
    out.append(&mut part);
    let mut part = checks[3].run(cx, project);
    proof { lemma_views_append(out@, part@); }
    out.append(&mut part);
    let imports = [ImportCheck::Barrel, ImportCheck::FullLodash, ImportCheck::Moment, ImportCheck::Heavy];
    let mut part = imports[0].run(cx, project);
    proof { lemma_views_append(out@, part@); }
    out.append(&mut part);
    let mut part = imports[1].run(cx, project);
    proof { lemma_views_append(out@, part@); }
    out.append(&mut part);
    let mut part = imports[2].run(cx, project);
    proof { lemma_views_append(out@, part@); }
    out.append(&mut part);
    let mut part = imports[3].run(cx, project);
    proof { lemma_views_append(out@, part@); }
    out.append(&mut part);
    let mut part = UseLazyMotion.run(cx, project);
    proof { lemma_views_append(out@, part@); }
    out.append(&mut part);
    let mut part = NoUndeferredScript.run(cx, project);
    proof { lemma_views_append(out@, part@); }
    out.append(&mut part);
    assert(views(out@) =~= react_performance_views(cx, facts));
    out
}

/// Runs every rule that applies to `project`.
pub fn run_rules(cx: &LintContext, facts: &SemanticFacts, project: &ProjectInfo) -> (r: Vec<LintDiagnostic>)
    requires
        cx.wf(),
    ensures
        views(r@) == rule_views(cx, facts, *project),
{
    let mut out: Vec<LintDiagnostic> = Vec::new();
    let mut part = NoExplicitAny.run(cx);
    proof { lemma_views_append(out@, part@); }
    out.append(&mut part);
    let mut part = NoUnusedVars.run(cx, &facts.symbols, &facts.lineages);
    proof { lemma_views_append(out@, part@); }
    out.append(&mut part);
    let mut part = NoMissingReturn.run(cx);
    proof { lemma_views_append(out@, part@); }
    out.append(&mut part);
    let mut part = NoWrongArgCount.run(cx);
    proof { lemma_views_append(out@, part@); }
    out.append(&mut part);
    let mut part = NoEval.run(cx, &facts.references);
    proof { lemma_views_append(out@, part@); }
    out.append(&mut part);
    let mut part = NoHardcodedSecrets.run(cx);
    proof { lemma_views_append(out@, part@); }
    out.append(&mut part);
    let mut part = run_js_performance(cx, facts);
    proof { lemma_views_append(out@, part@); }
    out.append(&mut part);
    assert(views(out@) =~= builtin_views(cx, facts));
    let mut part = run_react(cx, facts, project);
    proof { lemma_views_append(out@, part@); }
    out.append(&mut part);
    let mut part = run_next(cx, project);
    proof { lemma_views_append(out@, part@); }
    out.append(&mut part);
    let mut part = run_actions(cx, project);
    proof { lemma_views_append(out@, part@); }
    out.append(&mut part);
    let mut part = run_native(cx, project);
    proof { lemma_views_append(out@, part@); }
    out.append(&mut part);
    let mut part = run_server(cx, project);
    proof { lemma_views_append(out@, part@); }
    out.append(&mut part);
    out
}

/// Lints `source` as the file at `path` in a project described by `project`:
/// the parser's errors, then the semantic checker's, then the rules'.
pub fn lint_source_with_project(path: &str, source: &str, project: &ProjectInfo) -> (r: LintResult)
    ensures
        r.file@ == path@,
        exists|cx: LintContext, facts: SemanticFacts|
            cx.wf() && (source@.len() < usize::MAX ==> cx.source@ == source@ && nodes_view(cx.ast.nodes@) == tree_of(estree_of(path@, source@))) && cx.path@ == path@
                && cx.typescript == typescript_path(path@) && facts@.symbols == symbols_of(path@, source@)
                && facts@.lineages == lineages_of(path@, source@) && facts@.references == references_of(
                path@,
                source@,
            ) && views(r.diagnostics@) == engine_views(cx.source@, parse_errors_of(path@, source@), "parse-error"@)
                + engine_views(cx.source@, semantic_errors_of(path@, source@), "semantic-error"@) + rule_views(
                &cx,
                &facts,
                *project,
            ),
{
    let cx = build_context(path, source);
    let facts = SemanticFacts {
        symbols: symbol_facts(path, source),
        lineages: symbol_lineages(path, source),
        references: reference_facts(path, source),
    };
    let parse = parser_errors(path, source);
    let semantic = semantic_errors(path, source);
    let mut diagnostics = engine_diagnostics(&cx.source, &parse, "parse-error");
    let mut second = engine_diagnostics(&cx.source, &semantic, "semantic-error");
    let mut third = run_rules(&cx, &facts, project);
    let ghost a = diagnostics@;
    let ghost b = second@;
    let ghost c = third@;
    diagnostics.append(&mut second);
    diagnostics.append(&mut third);
    proof {
        assert(diagnostics@ =~= a + b + c);
        lemma_views_append(a + b, c);
        lemma_views_append(a, b);
    }
    LintResult { file: owned(path), diagnostics }
}

/// Lints `source` as the file at `path` with no project framework detected.
pub fn lint_source_at_path(path: &str, source: &str) -> (r: LintResult)
    ensures
        r.file@ == path@,
        exists|cx: LintContext, facts: SemanticFacts|
            cx.wf() && (source@.len() < usize::MAX ==> cx.source@ == source@ && nodes_view(cx.ast.nodes@) == tree_of(estree_of(path@, source@))) && cx.path@ == path@
                && cx.typescript == typescript_path(path@) && facts@.symbols == symbols_of(path@, source@)
                && facts@.lineages == lineages_of(path@, source@) && facts@.references == references_of(
                path@,
                source@,
            ) && views(r.diagnostics@) == engine_views(cx.source@, parse_errors_of(path@, source@), "parse-error"@)
                + engine_views(cx.source@, semantic_errors_of(path@, source@), "semantic-error"@) + rule_views(
                &cx,
                &facts,
                ProjectInfo::no_frameworks(),
            ),
{
    let project = ProjectInfo::none();
    lint_source_with_project(path, source, &project)
}

} // verus!
