//! The browsable catalog of built-in rules: groups, scopes, default
//! severities and one-line summaries.
use vstd::prelude::*;

use crate::lint::Severity;
use crate::project::ProjectInfo;
use crate::text::{chars_of, eq_chars, owned};

verus! {

/// Which projects a rule is meant for.
#[derive(Debug, Clone, Copy, PartialEq, Eq, Structural)]
pub enum RuleScope {
    Universal,
    React,
    NextJs,
    ReactNativeOrExpo,
    ServerFramework,
}

impl RuleScope {
    pub open spec fn label_text(self) -> Seq<char> {
        match self {
            RuleScope::Universal => "Universal"@,
            RuleScope::React => "React projects"@,
            RuleScope::NextJs => "Next.js projects"@,
            RuleScope::ReactNativeOrExpo => "React Native / Expo"@,
            RuleScope::ServerFramework => "Server framework projects"@,
        }
    }

    pub open spec fn applies(self, project: ProjectInfo) -> bool {
        match self {
            RuleScope::Universal => true,
            RuleScope::React => project.has_react,
            RuleScope::NextJs => project.has_next,
            RuleScope::ReactNativeOrExpo => project.has_react_native || project.has_expo,
            RuleScope::ServerFramework => project.server(),
        }
    }

    /// Human-readable name of the scope.
    pub fn label(self) -> (r: &'static str)
        ensures
            r@ == self.label_text(),
    {
        match self {
            RuleScope::Universal => "Universal",
            RuleScope::React => "React projects",
            RuleScope::NextJs => "Next.js projects",
            RuleScope::ReactNativeOrExpo => "React Native / Expo",
            RuleScope::ServerFramework => "Server framework projects",
        }
    }

    /// Whether rules of this scope apply to a project.
    pub fn applies_to_project(self, project: &ProjectInfo) -> (b: bool)
        ensures
            b == self.applies(*project),
    {
        match self {
            RuleScope::Universal => true,
            RuleScope::React => project.has_react,
            RuleScope::NextJs => project.has_next,
            RuleScope::ReactNativeOrExpo => project.has_react_native || project.has_expo,
            RuleScope::ServerFramework => project.has_server_framework(),
        }
    }
}

/// A named group of rules.
#[derive(Debug, Clone, Copy)]
pub struct RuleGroup {
    pub key: &'static str,
    pub title: &'static str,
}

/// One rule in the catalog.
#[derive(Debug, Clone)]
pub struct RuleCatalogEntry {
    pub id: String,
    pub group_key: &'static str,
    pub scope: RuleScope,
    pub default_severity: Severity,
    pub summary: String,
}

/// The config text of a severity.
pub open spec fn severity_text(s: Severity) -> Seq<char> {
    match s {
        Severity::Error => "error"@,
        Severity::Warning => "warn"@,
    }
}

impl RuleCatalogEntry {
    /// `"<id>": "<severity>"`, ready to paste into `flint.json`.
    pub fn config_snippet(&self) -> (r: String)
        ensures
            r@ == seq!['"'] + self.id@ + seq!['"', ':', ' ', '"'] + severity_text(
                self.default_severity,
            ) + seq!['"'],
    {
        let severity = match self.default_severity {
            Severity::Error => "error",
            Severity::Warning => "warn",
        };
        quoted_pair(self.id.as_str(), severity)
    }

    /// `"<id>": "off"`, ready to paste into `flint.json`.
    pub fn disable_snippet(&self) -> (r: String)
        ensures
            r@ == seq!['"'] + self.id@ + seq!['"', ':', ' ', '"'] + "off"@ + seq!['"'],
    {
        quoted_pair(self.id.as_str(), "off")
    }
}

/// `"<key>": "<value>"`.
fn quoted_pair(key: &str, value: &str) -> (r: String)
    ensures
        r@ == seq!['"'] + key@ + seq!['"', ':', ' ', '"'] + value@ + seq!['"'],
{
    let mut out: Vec<char> = Vec::new();
    out.push('"');
    let mut k = chars_of(key);
    out.append(&mut k);
    out.push('"');
    out.push(':');
    out.push(' ');
    out.push('"');
    let mut v = chars_of(value);
    out.append(&mut v);
    out.push('"');
    let r = crate::text::string_of(&out);
    assert(r@ =~= seq!['"'] + key@ + seq!['"', ':', ' ', '"'] + value@ + seq!['"']);
    r
}

/// Groups and entries of the catalog.
#[derive(Debug, Clone)]
pub struct RuleCatalog {
    pub groups: Vec<RuleGroup>,
    pub entries: Vec<RuleCatalogEntry>,
}

impl RuleCatalog {
    /// Position of the group with `key`, if any.
    pub fn group_index(&self, key: &str) -> (r: Option<usize>)
        ensures
            r matches Some(i) ==> (i < self.groups@.len() && self.groups@[i as int].key@ == key@
                && forall|k: int| 0 <= k < i ==> self.groups@[k].key@ != key@),
            r is None ==> forall|k: int| 0 <= k < self.groups@.len() ==> self.groups@[k].key@ != key@,
    {
        let target = chars_of(key);
        let mut i: usize = 0;
        while i < self.groups.len()
            invariant
                i <= self.groups@.len(),
                target@ == key@,
                forall|k: int| 0 <= k < i ==> self.groups@[k].key@ != key@,
            decreases self.groups@.len() - i,
        {
            let g = chars_of(self.groups[i].key);
            if eq_chars(&g, &target) {
                return Some(i);
            }
            i = i + 1;
        }
        None
    }
}

/// A rule id with its group and scope.
#[derive(Debug, Clone, Copy)]
pub struct RuleSeed {
    pub id: &'static str,
    pub group_key: &'static str,
    pub scope: RuleScope,
}

/// The view of a seed: id, group key and scope.
pub open spec fn seed_view(s: RuleSeed) -> (Seq<char>, Seq<char>, RuleScope) {
    (s.id@, s.group_key@, s.scope)
}

/// Seeds of one group, in the order listed.
pub open spec fn group_seeds(ids: Seq<Seq<char>>, key: Seq<char>, scope: RuleScope) -> Seq<
    (Seq<char>, Seq<char>, RuleScope),
> {
    ids.map_values(|id: Seq<char>| (id, key, scope))
}

/// The rule groups, in display order.
pub open spec fn groups_spec() -> Seq<(Seq<char>, Seq<char>)> {
    seq![
        ("core"@, "Core JS/TS"@),
        ("dead-code"@, "Dead Code"@),
        ("universal-security"@, "Universal Security"@),
        ("js-performance"@, "JS Performance"@),
        ("react-hooks"@, "React Hooks"@),
        ("react-correctness"@, "React Correctness"@),
        ("react-architecture"@, "React Architecture"@),
        ("react-performance"@, "React Performance"@),
        ("nextjs"@, "Next.js"@),
        ("server-components"@, "Server Components"@),
        ("react-native"@, "React Native"@),
        ("server-security"@, "Server Security"@),
        ("server-reliability"@, "Server Reliability"@),
        ("server-performance"@, "Server Performance"@),
        ("server-architecture"@, "Server Architecture"@),
    ]
}

/// The rule groups, in display order.
pub fn groups() -> (r: Vec<RuleGroup>)
    ensures
        r@.map_values(|g: RuleGroup| (g.key@, g.title@)) == groups_spec(),
{
    let table: [(&'static str, &'static str); 15] = [
        ("core", "Core JS/TS"),
        ("dead-code", "Dead Code"),
        ("universal-security", "Universal Security"),
        ("js-performance", "JS Performance"),
        ("react-hooks", "React Hooks"),
        ("react-correctness", "React Correctness"),
        ("react-architecture", "React Architecture"),
        ("react-performance", "React Performance"),
        ("nextjs", "Next.js"),
        ("server-components", "Server Components"),
        ("react-native", "React Native"),
        ("server-security", "Server Security"),
        ("server-reliability", "Server Reliability"),
        ("server-performance", "Server Performance"),
        ("server-architecture", "Server Architecture"),
    ];
    let mut r: Vec<RuleGroup> = Vec::new();
    let mut i: usize = 0;
    assert(table@.map_values(|p: (&str, &str)| (p.0@, p.1@)) =~= groups_spec());
    while i < table.len()
        invariant
            i <= table@.len(),
            table@.map_values(|p: (&str, &str)| (p.0@, p.1@)) == groups_spec(),
            r@.map_values(|g: RuleGroup| (g.key@, g.title@)) == groups_spec().take(i as int),
        decreases table@.len() - i,
    {
        let (key, title) = table[i];
        let ghost prev = r@;
        r.push(RuleGroup { key, title });
        assert(groups_spec()[i as int] == (key@, title@));
        assert(r@.map_values(|g: RuleGroup| (g.key@, g.title@)) =~= prev.map_values(
            |g: RuleGroup| (g.key@, g.title@),
        ).push((key@, title@)));
        assert(groups_spec().take(i + 1) =~= groups_spec().take(i as int).push(groups_spec()[i as int]));
        i = i + 1;
    }
    assert(groups_spec().take(i as int) =~= groups_spec());
    r
}

/// Every catalogued rule with its group and scope, in catalog order.
pub open spec fn seeds_spec() -> Seq<(Seq<char>, Seq<char>, RuleScope)> {
    group_seeds(seq!["no-explicit-any"@, "no-console"@, "no-empty-catch"@, "prefer-const"@, "no-unused-vars"@, "unreachable-code"@, "no-missing-return"@], "core"@, RuleScope::Universal)
        + group_seeds(seq!["unused-export"@, "unused-file"@, "unused-dependency"@], "dead-code"@, RuleScope::Universal)
        + group_seeds(seq!["no-eval"@, "no-hardcoded-secrets"@], "universal-security"@, RuleScope::Universal)
        + group_seeds(seq!["no-chained-array-iterations"@, "prefer-tosorted"@, "no-regexp-in-loop"@, "prefer-math-min-max"@, "no-array-includes-in-loop"@, "no-sequential-style-assignment"@, "no-array-find-in-loop"@, "no-duplicate-storage-reads"@, "no-deep-nesting"@, "prefer-promise-all"@], "js-performance"@, RuleScope::Universal)
        + group_seeds(seq!["react/no-derived-state-effect"@, "react/no-fetch-in-effect"@, "react/no-cascading-set-state"@, "react/no-effect-event-handler"@, "react/no-derived-use-state"@, "react/prefer-use-reducer"@, "react/lazy-state-init"@, "react/functional-set-state"@, "react/unstable-deps"@], "react-hooks"@, RuleScope::React)
        + group_seeds(seq!["react/no-array-index-key"@, "react/no-prevent-default"@, "react/no-conditional-render-zero"@], "react-correctness"@, RuleScope::React)
        + group_seeds(seq!["react/no-giant-component"@, "react/no-render-in-render"@, "react/no-nested-component"@], "react-architecture"@, RuleScope::React)
        + group_seeds(seq!["react/no-usememo-simple-expr"@, "react/no-unstable-motion-props"@, "react/no-layout-animation"@, "react/no-animate-presence-in-list"@, "react/no-motion-in-list"@, "react/no-prop-on-memo"@, "react/no-hydration-flicker"@, "react/no-transition-all"@, "react/no-will-change"@, "react/no-blur-filter"@, "react/no-heavy-shadow"@, "react/no-barrel-import"@, "react/no-full-lodash"@, "react/no-moment"@, "react/prefer-dynamic-import"@, "react/use-lazy-motion"@, "react/no-undeferred-script"@], "react-performance"@, RuleScope::React)
        + group_seeds(seq!["nextjs/no-img-element"@, "nextjs/prefer-next-link"@, "nextjs/no-head-element"@, "nextjs/no-head-import"@, "nextjs/no-document-import"@, "nextjs/no-script-in-head"@, "nextjs/no-search-params-without-suspense"@, "nextjs/missing-metadata"@, "nextjs/no-side-effect-in-get-handler"@, "nextjs/no-async-client-component"@], "nextjs"@, RuleScope::NextJs)
        + group_seeds(seq!["react/server-auth-actions"@, "react/server-after-nonblocking"@], "server-components"@, RuleScope::NextJs)
        + group_seeds(seq!["react-native/no-inline-styles"@, "react-native/no-inline-callbacks"@, "react-native/no-anonymous-list-render"@, "react-native/no-scrollview-list"@, "react-native/no-raw-text"@, "react-native/no-alert"@, "react-native/no-image-uri-literal"@, "react-native/require-key-extractor"@], "react-native"@, RuleScope::ReactNativeOrExpo)
        + group_seeds(seq!["server/no-sql-injection"@, "server/no-shell-injection"@, "server/no-path-traversal"@, "server/no-unsafe-redirect"@, "server/no-cors-wildcard"@, "server/no-hardcoded-jwt-secret"@, "server/no-jwt-none-algorithm"@], "server-security"@, RuleScope::ServerFramework)
        + group_seeds(seq!["server/no-unhandled-async-route"@, "server/no-swallowed-error"@, "server/no-process-exit-in-handler"@, "server/require-error-status"@, "server/no-throw-string"@], "server-reliability"@, RuleScope::ServerFramework)
        + group_seeds(seq!["server/no-n-plus-one"@, "server/no-unbounded-query"@, "server/no-sync-fs-in-handler"@, "server/no-blocking-crypto"@, "server/no-large-json-parse-sync"@], "server-performance"@, RuleScope::ServerFramework)
        + group_seeds(seq!["server/require-input-validation"@, "server/no-floating-transaction"@, "server/no-business-logic-in-route"@], "server-architecture"@, RuleScope::ServerFramework)
}

/// Appends one group's seeds.
pub fn extend_group(
    seeds: &mut Vec<RuleSeed>,
    group_key: &'static str,
    scope: RuleScope,
    ids: &[&'static str],
)
    ensures
        final(seeds)@.map_values(|s: RuleSeed| seed_view(s)) == old(seeds)@.map_values(
            |s: RuleSeed| seed_view(s),
        ) + group_seeds(ids@.map_values(|s: &str| s@), group_key@, scope),
{
    let ghost start = seeds@.map_values(|s: RuleSeed| seed_view(s));
    let mut i: usize = 0;
    while i < ids.len()
        invariant
            i <= ids@.len(),
            seeds@.map_values(|s: RuleSeed| seed_view(s)) == start + group_seeds(
                ids@.map_values(|s: &str| s@),
                group_key@,
                scope,
            ).take(i as int),
        decreases ids@.len() - i,
    {
        let ghost prev = seeds@;
        let ghost gs = group_seeds(ids@.map_values(|s: &str| s@), group_key@, scope);
        seeds.push(RuleSeed { id: ids[i], group_key, scope });
        assert(seeds@.map_values(|s: RuleSeed| seed_view(s)) =~= prev.map_values(
            |s: RuleSeed| seed_view(s),
        ).push((ids@[i as int]@, group_key@, scope)));
        assert(gs[i as int] == (ids@[i as int]@, group_key@, scope));
        assert(gs.take(i + 1) =~= gs.take(i as int).push(gs[i as int]));
        assert(seeds@.map_values(|s: RuleSeed| seed_view(s)) =~= start + group_seeds(
            ids@.map_values(|s: &str| s@),
            group_key@,
            scope,
        ).take(i + 1));
        i = i + 1;
    }
    assert(group_seeds(ids@.map_values(|s: &str| s@), group_key@, scope).take(i as int)
        =~= group_seeds(ids@.map_values(|s: &str| s@), group_key@, scope));
}

/// Every catalogued rule with its group and scope, in catalog order.
#[verifier::rlimit(50)]
pub fn rule_seeds() -> (r: Vec<RuleSeed>)
    ensures
        r@.map_values(|s: RuleSeed| seed_view(s)) == seeds_spec(),
{
    let mut seeds: Vec<RuleSeed> = Vec::new();
    let ghost mut acc: Seq<(Seq<char>, Seq<char>, RuleScope)> = Seq::empty();
    assert(seeds@.map_values(|s: RuleSeed| seed_view(s)) =~= acc);
    let ids: [&'static str; 7] = ["no-explicit-any", "no-console", "no-empty-catch", "prefer-const", "no-unused-vars", "unreachable-code", "no-missing-return"];
    assert(ids@.map_values(|s: &str| s@) =~= seq!["no-explicit-any"@, "no-console"@, "no-empty-catch"@, "prefer-const"@, "no-unused-vars"@, "unreachable-code"@, "no-missing-return"@]);
    extend_group(&mut seeds, "core", RuleScope::Universal, &ids);
    proof { acc = acc + group_seeds(seq!["no-explicit-any"@, "no-console"@, "no-empty-catch"@, "prefer-const"@, "no-unused-vars"@, "unreachable-code"@, "no-missing-return"@], "core"@, RuleScope::Universal); }
    assert(seeds@.map_values(|s: RuleSeed| seed_view(s)) =~= acc);
    let ids: [&'static str; 3] = ["unused-export", "unused-file", "unused-dependency"];
    assert(ids@.map_values(|s: &str| s@) =~= seq!["unused-export"@, "unused-file"@, "unused-dependency"@]);
    extend_group(&mut seeds, "dead-code", RuleScope::Universal, &ids);
    proof { acc = acc + group_seeds(seq!["unused-export"@, "unused-file"@, "unused-dependency"@], "dead-code"@, RuleScope::Universal); }
    assert(seeds@.map_values(|s: RuleSeed| seed_view(s)) =~= acc);
    let ids: [&'static str; 2] = ["no-eval", "no-hardcoded-secrets"];
    assert(ids@.map_values(|s: &str| s@) =~= seq!["no-eval"@, "no-hardcoded-secrets"@]);
    extend_group(&mut seeds, "universal-security", RuleScope::Universal, &ids);
    proof { acc = acc + group_seeds(seq!["no-eval"@, "no-hardcoded-secrets"@], "universal-security"@, RuleScope::Universal); }
    assert(seeds@.map_values(|s: RuleSeed| seed_view(s)) =~= acc);
    let ids: [&'static str; 10] = ["no-chained-array-iterations", "prefer-tosorted", "no-regexp-in-loop", "prefer-math-min-max", "no-array-includes-in-loop", "no-sequential-style-assignment", "no-array-find-in-loop", "no-duplicate-storage-reads", "no-deep-nesting", "prefer-promise-all"];
    assert(ids@.map_values(|s: &str| s@) =~= seq!["no-chained-array-iterations"@, "prefer-tosorted"@, "no-regexp-in-loop"@, "prefer-math-min-max"@, "no-array-includes-in-loop"@, "no-sequential-style-assignment"@, "no-array-find-in-loop"@, "no-duplicate-storage-reads"@, "no-deep-nesting"@, "prefer-promise-all"@]);
    extend_group(&mut seeds, "js-performance", RuleScope::Universal, &ids);
    proof { acc = acc + group_seeds(seq!["no-chained-array-iterations"@, "prefer-tosorted"@, "no-regexp-in-loop"@, "prefer-math-min-max"@, "no-array-includes-in-loop"@, "no-sequential-style-assignment"@, "no-array-find-in-loop"@, "no-duplicate-storage-reads"@, "no-deep-nesting"@, "prefer-promise-all"@], "js-performance"@, RuleScope::Universal); }
    assert(seeds@.map_values(|s: RuleSeed| seed_view(s)) =~= acc);
    let ids: [&'static str; 9] = ["react/no-derived-state-effect", "react/no-fetch-in-effect", "react/no-cascading-set-state", "react/no-effect-event-handler", "react/no-derived-use-state", "react/prefer-use-reducer", "react/lazy-state-init", "react/functional-set-state", "react/unstable-deps"];
    assert(ids@.map_values(|s: &str| s@) =~= seq!["react/no-derived-state-effect"@, "react/no-fetch-in-effect"@, "react/no-cascading-set-state"@, "react/no-effect-event-handler"@, "react/no-derived-use-state"@, "react/prefer-use-reducer"@, "react/lazy-state-init"@, "react/functional-set-state"@, "react/unstable-deps"@]);
    extend_group(&mut seeds, "react-hooks", RuleScope::React, &ids);
    proof { acc = acc + group_seeds(seq!["react/no-derived-state-effect"@, "react/no-fetch-in-effect"@, "react/no-cascading-set-state"@, "react/no-effect-event-handler"@, "react/no-derived-use-state"@, "react/prefer-use-reducer"@, "react/lazy-state-init"@, "react/functional-set-state"@, "react/unstable-deps"@], "react-hooks"@, RuleScope::React); }
    assert(seeds@.map_values(|s: RuleSeed| seed_view(s)) =~= acc);
    let ids: [&'static str; 3] = ["react/no-array-index-key", "react/no-prevent-default", "react/no-conditional-render-zero"];
    assert(ids@.map_values(|s: &str| s@) =~= seq!["react/no-array-index-key"@, "react/no-prevent-default"@, "react/no-conditional-render-zero"@]);
    extend_group(&mut seeds, "react-correctness", RuleScope::React, &ids);
    proof { acc = acc + group_seeds(seq!["react/no-array-index-key"@, "react/no-prevent-default"@, "react/no-conditional-render-zero"@], "react-correctness"@, RuleScope::React); }
    assert(seeds@.map_values(|s: RuleSeed| seed_view(s)) =~= acc);
    let ids: [&'static str; 3] = ["react/no-giant-component", "react/no-render-in-render", "react/no-nested-component"];
    assert(ids@.map_values(|s: &str| s@) =~= seq!["react/no-giant-component"@, "react/no-render-in-render"@, "react/no-nested-component"@]);
    extend_group(&mut seeds, "react-architecture", RuleScope::React, &ids);
    proof { acc = acc + group_seeds(seq!["react/no-giant-component"@, "react/no-render-in-render"@, "react/no-nested-component"@], "react-architecture"@, RuleScope::React); }
    assert(seeds@.map_values(|s: RuleSeed| seed_view(s)) =~= acc);
    let ids: [&'static str; 17] = ["react/no-usememo-simple-expr", "react/no-unstable-motion-props", "react/no-layout-animation", "react/no-animate-presence-in-list", "react/no-motion-in-list", "react/no-prop-on-memo", "react/no-hydration-flicker", "react/no-transition-all", "react/no-will-change", "react/no-blur-filter", "react/no-heavy-shadow", "react/no-barrel-import", "react/no-full-lodash", "react/no-moment", "react/prefer-dynamic-import", "react/use-lazy-motion", "react/no-undeferred-script"];
    assert(ids@.map_values(|s: &str| s@) =~= seq!["react/no-usememo-simple-expr"@, "react/no-unstable-motion-props"@, "react/no-layout-animation"@, "react/no-animate-presence-in-list"@, "react/no-motion-in-list"@, "react/no-prop-on-memo"@, "react/no-hydration-flicker"@, "react/no-transition-all"@, "react/no-will-change"@, "react/no-blur-filter"@, "react/no-heavy-shadow"@, "react/no-barrel-import"@, "react/no-full-lodash"@, "react/no-moment"@, "react/prefer-dynamic-import"@, "react/use-lazy-motion"@, "react/no-undeferred-script"@]);
    extend_group(&mut seeds, "react-performance", RuleScope::React, &ids);
    proof { acc = acc + group_seeds(seq!["react/no-usememo-simple-expr"@, "react/no-unstable-motion-props"@, "react/no-layout-animation"@, "react/no-animate-presence-in-list"@, "react/no-motion-in-list"@, "react/no-prop-on-memo"@, "react/no-hydration-flicker"@, "react/no-transition-all"@, "react/no-will-change"@, "react/no-blur-filter"@, "react/no-heavy-shadow"@, "react/no-barrel-import"@, "react/no-full-lodash"@, "react/no-moment"@, "react/prefer-dynamic-import"@, "react/use-lazy-motion"@, "react/no-undeferred-script"@], "react-performance"@, RuleScope::React); }
    assert(seeds@.map_values(|s: RuleSeed| seed_view(s)) =~= acc);
    let ids: [&'static str; 10] = ["nextjs/no-img-element", "nextjs/prefer-next-link", "nextjs/no-head-element", "nextjs/no-head-import", "nextjs/no-document-import", "nextjs/no-script-in-head", "nextjs/no-search-params-without-suspense", "nextjs/missing-metadata", "nextjs/no-side-effect-in-get-handler", "nextjs/no-async-client-component"];
    assert(ids@.map_values(|s: &str| s@) =~= seq!["nextjs/no-img-element"@, "nextjs/prefer-next-link"@, "nextjs/no-head-element"@, "nextjs/no-head-import"@, "nextjs/no-document-import"@, "nextjs/no-script-in-head"@, "nextjs/no-search-params-without-suspense"@, "nextjs/missing-metadata"@, "nextjs/no-side-effect-in-get-handler"@, "nextjs/no-async-client-component"@]);
    extend_group(&mut seeds, "nextjs", RuleScope::NextJs, &ids);
    proof { acc = acc + group_seeds(seq!["nextjs/no-img-element"@, "nextjs/prefer-next-link"@, "nextjs/no-head-element"@, "nextjs/no-head-import"@, "nextjs/no-document-import"@, "nextjs/no-script-in-head"@, "nextjs/no-search-params-without-suspense"@, "nextjs/missing-metadata"@, "nextjs/no-side-effect-in-get-handler"@, "nextjs/no-async-client-component"@], "nextjs"@, RuleScope::NextJs); }
    assert(seeds@.map_values(|s: RuleSeed| seed_view(s)) =~= acc);
    let ids: [&'static str; 2] = ["react/server-auth-actions", "react/server-after-nonblocking"];
    assert(ids@.map_values(|s: &str| s@) =~= seq!["react/server-auth-actions"@, "react/server-after-nonblocking"@]);
    extend_group(&mut seeds, "server-components", RuleScope::NextJs, &ids);
    proof { acc = acc + group_seeds(seq!["react/server-auth-actions"@, "react/server-after-nonblocking"@], "server-components"@, RuleScope::NextJs); }
    assert(seeds@.map_values(|s: RuleSeed| seed_view(s)) =~= acc);
    let ids: [&'static str; 8] = ["react-native/no-inline-styles", "react-native/no-inline-callbacks", "react-native/no-anonymous-list-render", "react-native/no-scrollview-list", "react-native/no-raw-text", "react-native/no-alert", "react-native/no-image-uri-literal", "react-native/require-key-extractor"];
    assert(ids@.map_values(|s: &str| s@) =~= seq!["react-native/no-inline-styles"@, "react-native/no-inline-callbacks"@, "react-native/no-anonymous-list-render"@, "react-native/no-scrollview-list"@, "react-native/no-raw-text"@, "react-native/no-alert"@, "react-native/no-image-uri-literal"@, "react-native/require-key-extractor"@]);
    extend_group(&mut seeds, "react-native", RuleScope::ReactNativeOrExpo, &ids);
    proof { acc = acc + group_seeds(seq!["react-native/no-inline-styles"@, "react-native/no-inline-callbacks"@, "react-native/no-anonymous-list-render"@, "react-native/no-scrollview-list"@, "react-native/no-raw-text"@, "react-native/no-alert"@, "react-native/no-image-uri-literal"@, "react-native/require-key-extractor"@], "react-native"@, RuleScope::ReactNativeOrExpo); }
    assert(seeds@.map_values(|s: RuleSeed| seed_view(s)) =~= acc);
    let ids: [&'static str; 7] = ["server/no-sql-injection", "server/no-shell-injection", "server/no-path-traversal", "server/no-unsafe-redirect", "server/no-cors-wildcard", "server/no-hardcoded-jwt-secret", "server/no-jwt-none-algorithm"];
    assert(ids@.map_values(|s: &str| s@) =~= seq!["server/no-sql-injection"@, "server/no-shell-injection"@, "server/no-path-traversal"@, "server/no-unsafe-redirect"@, "server/no-cors-wildcard"@, "server/no-hardcoded-jwt-secret"@, "server/no-jwt-none-algorithm"@]);
    extend_group(&mut seeds, "server-security", RuleScope::ServerFramework, &ids);
    proof { acc = acc + group_seeds(seq!["server/no-sql-injection"@, "server/no-shell-injection"@, "server/no-path-traversal"@, "server/no-unsafe-redirect"@, "server/no-cors-wildcard"@, "server/no-hardcoded-jwt-secret"@, "server/no-jwt-none-algorithm"@], "server-security"@, RuleScope::ServerFramework); }
    assert(seeds@.map_values(|s: RuleSeed| seed_view(s)) =~= acc);
    let ids: [&'static str; 5] = ["server/no-unhandled-async-route", "server/no-swallowed-error", "server/no-process-exit-in-handler", "server/require-error-status", "server/no-throw-string"];
    assert(ids@.map_values(|s: &str| s@) =~= seq!["server/no-unhandled-async-route"@, "server/no-swallowed-error"@, "server/no-process-exit-in-handler"@, "server/require-error-status"@, "server/no-throw-string"@]);
    extend_group(&mut seeds, "server-reliability", RuleScope::ServerFramework, &ids);
    proof { acc = acc + group_seeds(seq!["server/no-unhandled-async-route"@, "server/no-swallowed-error"@, "server/no-process-exit-in-handler"@, "server/require-error-status"@, "server/no-throw-string"@], "server-reliability"@, RuleScope::ServerFramework); }
    assert(seeds@.map_values(|s: RuleSeed| seed_view(s)) =~= acc);
    let ids: [&'static str; 5] = ["server/no-n-plus-one", "server/no-unbounded-query", "server/no-sync-fs-in-handler", "server/no-blocking-crypto", "server/no-large-json-parse-sync"];
    assert(ids@.map_values(|s: &str| s@) =~= seq!["server/no-n-plus-one"@, "server/no-unbounded-query"@, "server/no-sync-fs-in-handler"@, "server/no-blocking-crypto"@, "server/no-large-json-parse-sync"@]);
    extend_group(&mut seeds, "server-performance", RuleScope::ServerFramework, &ids);
    proof { acc = acc + group_seeds(seq!["server/no-n-plus-one"@, "server/no-unbounded-query"@, "server/no-sync-fs-in-handler"@, "server/no-blocking-crypto"@, "server/no-large-json-parse-sync"@], "server-performance"@, RuleScope::ServerFramework); }
    assert(seeds@.map_values(|s: RuleSeed| seed_view(s)) =~= acc);
    let ids: [&'static str; 3] = ["server/require-input-validation", "server/no-floating-transaction", "server/no-business-logic-in-route"];
    assert(ids@.map_values(|s: &str| s@) =~= seq!["server/require-input-validation"@, "server/no-floating-transaction"@, "server/no-business-logic-in-route"@]);
    extend_group(&mut seeds, "server-architecture", RuleScope::ServerFramework, &ids);
    proof { acc = acc + group_seeds(seq!["server/require-input-validation"@, "server/no-floating-transaction"@, "server/no-business-logic-in-route"@], "server-architecture"@, RuleScope::ServerFramework); }
    assert(seeds@.map_values(|s: RuleSeed| seed_view(s)) =~= acc);
    assert(acc =~= seeds_spec());
    seeds
}

/// Default severity of each supported rule.
pub open spec fn defaults_spec() -> Seq<(Seq<char>, Severity)> {
    seq![
        ("no-explicit-any"@, Severity::Warning),
        ("no-console"@, Severity::Warning),
        ("no-empty-catch"@, Severity::Error),
        ("prefer-const"@, Severity::Warning),
        ("no-unused-vars"@, Severity::Error),
        ("unreachable-code"@, Severity::Error),
        ("no-missing-return"@, Severity::Error),
        ("unused-export"@, Severity::Warning),
        ("unused-file"@, Severity::Warning),
        ("unused-dependency"@, Severity::Warning),
        ("no-eval"@, Severity::Error),
        ("no-hardcoded-secrets"@, Severity::Warning),
        ("no-chained-array-iterations"@, Severity::Warning),
        ("prefer-tosorted"@, Severity::Warning),
        ("no-regexp-in-loop"@, Severity::Warning),
        ("prefer-math-min-max"@, Severity::Warning),
        ("no-array-includes-in-loop"@, Severity::Warning),
        ("no-sequential-style-assignment"@, Severity::Warning),
        ("no-array-find-in-loop"@, Severity::Warning),
        ("no-duplicate-storage-reads"@, Severity::Warning),
        ("no-deep-nesting"@, Severity::Warning),
        ("prefer-promise-all"@, Severity::Warning),
        ("react/no-derived-state-effect"@, Severity::Warning),
        ("react/no-fetch-in-effect"@, Severity::Warning),
        ("react/no-cascading-set-state"@, Severity::Warning),
        ("react/no-effect-event-handler"@, Severity::Warning),
        ("react/no-derived-use-state"@, Severity::Warning),
        ("react/prefer-use-reducer"@, Severity::Warning),
        ("react/lazy-state-init"@, Severity::Warning),
        ("react/functional-set-state"@, Severity::Warning),
        ("react/unstable-deps"@, Severity::Warning),
        ("react/no-array-index-key"@, Severity::Warning),
        ("react/no-prevent-default"@, Severity::Warning),
        ("react/no-conditional-render-zero"@, Severity::Warning),
        ("react/no-giant-component"@, Severity::Warning),
        ("react/no-render-in-render"@, Severity::Warning),
        ("react/no-nested-component"@, Severity::Warning),
        ("react/no-usememo-simple-expr"@, Severity::Warning),
        ("react/no-unstable-motion-props"@, Severity::Warning),
        ("react/no-layout-animation"@, Severity::Warning),
        ("react/no-animate-presence-in-list"@, Severity::Warning),
        ("react/no-motion-in-list"@, Severity::Warning),
        ("react/no-prop-on-memo"@, Severity::Warning),
        ("react/no-hydration-flicker"@, Severity::Warning),
        ("react/no-transition-all"@, Severity::Warning),
        ("react/no-will-change"@, Severity::Warning),
        ("react/no-blur-filter"@, Severity::Warning),
        ("react/no-heavy-shadow"@, Severity::Warning),
        ("react/no-barrel-import"@, Severity::Warning),
        ("react/no-full-lodash"@, Severity::Warning),
        ("react/no-moment"@, Severity::Warning),
        ("react/prefer-dynamic-import"@, Severity::Warning),
        ("react/use-lazy-motion"@, Severity::Warning),
        ("react/no-undeferred-script"@, Severity::Warning),
        ("nextjs/no-img-element"@, Severity::Warning),
        ("nextjs/prefer-next-link"@, Severity::Warning),
        ("nextjs/no-head-element"@, Severity::Warning),
        ("nextjs/no-head-import"@, Severity::Warning),
        ("nextjs/no-document-import"@, Severity::Warning),
        ("nextjs/no-script-in-head"@, Severity::Warning),
        ("nextjs/no-search-params-without-suspense"@, Severity::Warning),
        ("nextjs/missing-metadata"@, Severity::Warning),
        ("nextjs/no-side-effect-in-get-handler"@, Severity::Warning),
        ("nextjs/no-async-client-component"@, Severity::Warning),
        ("react/server-auth-actions"@, Severity::Warning),
        ("react/server-after-nonblocking"@, Severity::Warning),
        ("react-native/no-inline-styles"@, Severity::Warning),
        ("react-native/no-inline-callbacks"@, Severity::Warning),
        ("react-native/no-anonymous-list-render"@, Severity::Warning),
        ("react-native/no-scrollview-list"@, Severity::Warning),
        ("react-native/no-raw-text"@, Severity::Warning),
        ("react-native/no-alert"@, Severity::Warning),
        ("react-native/no-image-uri-literal"@, Severity::Warning),
        ("react-native/require-key-extractor"@, Severity::Warning),
        ("server/no-sql-injection"@, Severity::Error),
        ("server/no-shell-injection"@, Severity::Error),
        ("server/no-path-traversal"@, Severity::Error),
        ("server/no-unsafe-redirect"@, Severity::Error),
        ("server/no-cors-wildcard"@, Severity::Error),
        ("server/no-hardcoded-jwt-secret"@, Severity::Error),
        ("server/no-jwt-none-algorithm"@, Severity::Warning),
        ("server/no-unhandled-async-route"@, Severity::Warning),
        ("server/no-swallowed-error"@, Severity::Warning),
        ("server/no-process-exit-in-handler"@, Severity::Warning),
        ("server/require-error-status"@, Severity::Warning),
        ("server/no-throw-string"@, Severity::Warning),
        ("server/no-n-plus-one"@, Severity::Warning),
        ("server/no-unbounded-query"@, Severity::Warning),
        ("server/no-sync-fs-in-handler"@, Severity::Warning),
        ("server/no-blocking-crypto"@, Severity::Warning),
        ("server/no-large-json-parse-sync"@, Severity::Warning),
        ("server/require-input-validation"@, Severity::Warning),
        ("server/no-floating-transaction"@, Severity::Warning),
        ("server/no-business-logic-in-route"@, Severity::Warning),
    ]
}

/// Default severity of each supported rule, as the rule engine declares it.
pub fn supported_rule_defaults() -> (r: Vec<(String, Severity)>)
    ensures
        r@.map_values(|p: (String, Severity)| (p.0@, p.1)) == defaults_spec(),
{
    let table: [(&'static str, Severity); 94] = [
        ("no-explicit-any", Severity::Warning),
        ("no-console", Severity::Warning),
        ("no-empty-catch", Severity::Error),
        ("prefer-const", Severity::Warning),
        ("no-unused-vars", Severity::Error),
        ("unreachable-code", Severity::Error),
        ("no-missing-return", Severity::Error),
        ("unused-export", Severity::Warning),
        ("unused-file", Severity::Warning),
        ("unused-dependency", Severity::Warning),
        ("no-eval", Severity::Error),
        ("no-hardcoded-secrets", Severity::Warning),
        ("no-chained-array-iterations", Severity::Warning),
        ("prefer-tosorted", Severity::Warning),
        ("no-regexp-in-loop", Severity::Warning),
        ("prefer-math-min-max", Severity::Warning),
        ("no-array-includes-in-loop", Severity::Warning),
        ("no-sequential-style-assignment", Severity::Warning),
        ("no-array-find-in-loop", Severity::Warning),
        ("no-duplicate-storage-reads", Severity::Warning),
        ("no-deep-nesting", Severity::Warning),
        ("prefer-promise-all", Severity::Warning),
        ("react/no-derived-state-effect", Severity::Warning),
        ("react/no-fetch-in-effect", Severity::Warning),
        ("react/no-cascading-set-state", Severity::Warning),
        ("react/no-effect-event-handler", Severity::Warning),
        ("react/no-derived-use-state", Severity::Warning),
        ("react/prefer-use-reducer", Severity::Warning),
        ("react/lazy-state-init", Severity::Warning),
        ("react/functional-set-state", Severity::Warning),
        ("react/unstable-deps", Severity::Warning),
        ("react/no-array-index-key", Severity::Warning),
        ("react/no-prevent-default", Severity::Warning),
        ("react/no-conditional-render-zero", Severity::Warning),
        ("react/no-giant-component", Severity::Warning),
        ("react/no-render-in-render", Severity::Warning),
        ("react/no-nested-component", Severity::Warning),
        ("react/no-usememo-simple-expr", Severity::Warning),
        ("react/no-unstable-motion-props", Severity::Warning),
        ("react/no-layout-animation", Severity::Warning),
        ("react/no-animate-presence-in-list", Severity::Warning),
        ("react/no-motion-in-list", Severity::Warning),
        ("react/no-prop-on-memo", Severity::Warning),
        ("react/no-hydration-flicker", Severity::Warning),
        ("react/no-transition-all", Severity::Warning),
        ("react/no-will-change", Severity::Warning),
        ("react/no-blur-filter", Severity::Warning),
        ("react/no-heavy-shadow", Severity::Warning),
        ("react/no-barrel-import", Severity::Warning),
        ("react/no-full-lodash", Severity::Warning),
        ("react/no-moment", Severity::Warning),
        ("react/prefer-dynamic-import", Severity::Warning),
        ("react/use-lazy-motion", Severity::Warning),
        ("react/no-undeferred-script", Severity::Warning),
        ("nextjs/no-img-element", Severity::Warning),
        ("nextjs/prefer-next-link", Severity::Warning),
        ("nextjs/no-head-element", Severity::Warning),
        ("nextjs/no-head-import", Severity::Warning),
        ("nextjs/no-document-import", Severity::Warning),
        ("nextjs/no-script-in-head", Severity::Warning),
        ("nextjs/no-search-params-without-suspense", Severity::Warning),
        ("nextjs/missing-metadata", Severity::Warning),
        ("nextjs/no-side-effect-in-get-handler", Severity::Warning),
        ("nextjs/no-async-client-component", Severity::Warning),
        ("react/server-auth-actions", Severity::Warning),
        ("react/server-after-nonblocking", Severity::Warning),
        ("react-native/no-inline-styles", Severity::Warning),
        ("react-native/no-inline-callbacks", Severity::Warning),
        ("react-native/no-anonymous-list-render", Severity::Warning),
        ("react-native/no-scrollview-list", Severity::Warning),
        ("react-native/no-raw-text", Severity::Warning),
        ("react-native/no-alert", Severity::Warning),
        ("react-native/no-image-uri-literal", Severity::Warning),
        ("react-native/require-key-extractor", Severity::Warning),
        ("server/no-sql-injection", Severity::Error),
        ("server/no-shell-injection", Severity::Error),
        ("server/no-path-traversal", Severity::Error),
        ("server/no-unsafe-redirect", Severity::Error),
        ("server/no-cors-wildcard", Severity::Error),
        ("server/no-hardcoded-jwt-secret", Severity::Error),
        ("server/no-jwt-none-algorithm", Severity::Warning),
        ("server/no-unhandled-async-route", Severity::Warning),
        ("server/no-swallowed-error", Severity::Warning),
        ("server/no-process-exit-in-handler", Severity::Warning),
        ("server/require-error-status", Severity::Warning),
        ("server/no-throw-string", Severity::Warning),
        ("server/no-n-plus-one", Severity::Warning),
        ("server/no-unbounded-query", Severity::Warning),
        ("server/no-sync-fs-in-handler", Severity::Warning),
        ("server/no-blocking-crypto", Severity::Warning),
        ("server/no-large-json-parse-sync", Severity::Warning),
        ("server/require-input-validation", Severity::Warning),
        ("server/no-floating-transaction", Severity::Warning),
        ("server/no-business-logic-in-route", Severity::Warning),
    ];
    assert(table@.map_values(|p: (&str, Severity)| (p.0@, p.1)) =~= defaults_spec());
    let mut r: Vec<(String, Severity)> = Vec::new();
    let mut i: usize = 0;
    while i < table.len()
        invariant
            i <= table@.len(),
            table@.map_values(|p: (&str, Severity)| (p.0@, p.1)) == defaults_spec(),
            r@.map_values(|p: (String, Severity)| (p.0@, p.1)) == defaults_spec().take(i as int),
        decreases table@.len() - i,
    {
        let (id, sev) = table[i];
        let ghost prev = r@;
        let item = owned(id);
        r.push((item, sev));
        assert(defaults_spec()[i as int] == (id@, sev));
        assert(r@.map_values(|p: (String, Severity)| (p.0@, p.1)) =~= prev.map_values(
            |p: (String, Severity)| (p.0@, p.1),
        ).push((id@, sev)));
        assert(defaults_spec().take(i + 1) =~= defaults_spec().take(i as int).push(defaults_spec()[i as int]));
        i = i + 1;
    }
    assert(defaults_spec().take(i as int) =~= defaults_spec());
    r
}

/// Summary text of each rule.
pub open spec fn summaries_spec() -> Seq<(Seq<char>, Seq<char>)> {
    seq![
        ("no-explicit-any"@, "Avoid TypeScript `any` in favor of safer types."@),
        ("no-console"@, "Flag console calls that leak debug output into runtime code."@),
        ("no-empty-catch"@, "Catch blocks should handle, log, or rethrow errors."@),
        ("prefer-const"@, "Use `const` when a binding is never reassigned."@),
        ("no-unused-vars"@, "Surface declared bindings that are never used."@),
        ("unreachable-code"@, "Flag statements that can never execute after control flow exits."@),
        ("no-missing-return"@, "Require consistent returns from functions that should produce a value."@),
        ("unused-export"@, "Show exports that are never imported anywhere else in the project."@),
        ("unused-file"@, "Show files that are never imported by any other file."@),
        ("unused-dependency"@, "Show package.json dependencies that are never imported."@),
        ("no-eval"@, "Block dynamic code execution APIs such as `eval` and string timers."@),
        ("no-hardcoded-secrets"@, "Catch literal secrets committed directly in source."@),
        ("no-chained-array-iterations"@, "Prefer collapsing chained array passes into a single traversal."@),
        ("prefer-tosorted"@, "Prefer `toSorted()` over clone-then-sort patterns."@),
        ("no-regexp-in-loop"@, "Move regular expression construction out of hot loops."@),
        ("prefer-math-min-max"@, "Use `Math.min` or `Math.max` instead of sorting to pick extremes."@),
        ("no-array-includes-in-loop"@, "Avoid repeated `includes()` lookups inside loops."@),
        ("no-sequential-style-assignment"@, "Batch style writes instead of mutating many properties one by one."@),
        ("no-array-find-in-loop"@, "Avoid `find()` scans inside loops when indexing or caching is cheaper."@),
        ("no-duplicate-storage-reads"@, "Reuse repeated storage reads instead of fetching the same key multiple times."@),
        ("no-deep-nesting"@, "Flag deeply nested control flow that is hard to scan and optimize."@),
        ("prefer-promise-all"@, "Run independent async work concurrently with `Promise.all`."@),
        ("react/no-derived-state-effect"@, "Derive render state directly instead of syncing it through effects."@),
        ("react/no-fetch-in-effect"@, "Move fetches out of `useEffect` when a better data flow exists."@),
        ("react/no-cascading-set-state"@, "Avoid stacking many state updates inside a single effect."@),
        ("react/no-effect-event-handler"@, "Do not use `useEffect` as an event-handler wrapper."@),
        ("react/no-derived-use-state"@, "Avoid initializing state directly from props when it can be derived."@),
        ("react/prefer-use-reducer"@, "Prefer `useReducer` once state transitions become coordinated or complex."@),
        ("react/lazy-state-init"@, "Use lazy initializers for expensive `useState` defaults."@),
        ("react/functional-set-state"@, "Use functional updates when the next state depends on the previous value."@),
        ("react/unstable-deps"@, "Keep hook dependency arrays stable and explicit."@),
        ("react/no-array-index-key"@, "Avoid array indexes as React keys on dynamic lists."@),
        ("react/no-prevent-default"@, "Be deliberate about canceling native browser behavior in JSX handlers."@),
        ("react/no-conditional-render-zero"@, "Avoid `.length && <JSX>` patterns that can render `0`."@),
        ("react/no-giant-component"@, "Surface oversized components that need decomposition."@),
        ("react/no-render-in-render"@, "Avoid calling `render*()` helpers inline from JSX trees."@),
        ("react/no-nested-component"@, "Keep component definitions at module scope, not inside renders."@),
        ("react/no-usememo-simple-expr"@, "Skip `useMemo` around trivial expressions that do not need caching."@),
        ("react/no-unstable-motion-props"@, "Keep motion prop objects stable across renders."@),
        ("react/no-layout-animation"@, "Avoid layout animations on hot React surfaces."@),
        ("react/no-animate-presence-in-list"@, "Do not wrap list rendering directly in `AnimatePresence`."@),
        ("react/no-motion-in-list"@, "Keep motion-heavy elements out of large list renders."@),
        ("react/no-prop-on-memo"@, "Avoid recreating props that defeat memoized components."@),
        ("react/no-hydration-flicker"@, "Flag patterns that cause visible client/server hydration flicker."@),
        ("react/no-transition-all"@, "Avoid broad `transition: all` rules on interactive UI."@),
        ("react/no-will-change"@, "Use `will-change` sparingly on React surfaces."@),
        ("react/no-blur-filter"@, "Flag heavy blur filters that are expensive to render."@),
        ("react/no-heavy-shadow"@, "Flag expensive shadow styles that hurt paint performance."@),
        ("react/no-barrel-import"@, "Avoid barrel imports on hot paths when they inflate bundles."@),
        ("react/no-full-lodash"@, "Avoid importing the full Lodash bundle."@),
        ("react/no-moment"@, "Avoid Moment.js where lighter date utilities are enough."@),
        ("react/prefer-dynamic-import"@, "Load heavy dependencies lazily with dynamic imports."@),
        ("react/use-lazy-motion"@, "Use `LazyMotion` when shipping Framer Motion to the client."@),
        ("react/no-undeferred-script"@, "Defer non-critical scripts so they do not block rendering."@),
        ("nextjs/no-img-element"@, "Prefer `next/image` over raw `<img>` in Next.js apps."@),
        ("nextjs/prefer-next-link"@, "Use `next/link` for internal navigation."@),
        ("nextjs/no-head-element"@, "Avoid raw `<head>` usage in Next.js components."@),
        ("nextjs/no-head-import"@, "Avoid `next/head` in modern App Router code."@),
        ("nextjs/no-document-import"@, "Restrict `next/document` imports to custom document files."@),
        ("nextjs/no-script-in-head"@, "Avoid placing `<script>` tags directly inside `<head>`."@),
        ("nextjs/no-search-params-without-suspense"@, "Wrap `useSearchParams()` consumers in `Suspense`."@),
        ("nextjs/missing-metadata"@, "Require route metadata on pages that should declare it."@),
        ("nextjs/no-side-effect-in-get-handler"@, "Keep GET handlers free of mutations and side effects."@),
        ("nextjs/no-async-client-component"@, "Client components should not be declared `async`."@),
        ("react/server-auth-actions"@, "Require auth checks before mutating inside server actions."@),
        ("react/server-after-nonblocking"@, "Wrap non-blocking side effects in `after()` inside server actions."@),
        ("react-native/no-inline-styles"@, "Avoid inline style objects on React Native surfaces."@),
        ("react-native/no-inline-callbacks"@, "Avoid recreating inline callbacks on native components."@),
        ("react-native/no-anonymous-list-render"@, "Keep `renderItem` stable instead of recreating it inline."@),
        ("react-native/no-scrollview-list"@, "Prefer virtualized lists over mapping large collections in `ScrollView`."@),
        ("react-native/no-raw-text"@, "Wrap text in `Text` instead of rendering raw strings directly."@),
        ("react-native/no-alert"@, "Avoid platform alerts as a default UX escape hatch."@),
        ("react-native/no-image-uri-literal"@, "Avoid hardcoded remote image URIs in JSX."@),
        ("react-native/require-key-extractor"@, "Provide `keyExtractor` for virtualized React Native lists."@),
        ("server/no-sql-injection"@, "Avoid building SQL with request-controlled interpolation."@),
        ("server/no-shell-injection"@, "Do not pass dynamic input to shell execution APIs."@),
        ("server/no-path-traversal"@, "Avoid feeding request data directly into filesystem paths."@),
        ("server/no-unsafe-redirect"@, "Do not redirect to request-controlled destinations."@),
        ("server/no-cors-wildcard"@, "Do not combine wildcard CORS origins with credentials."@),
        ("server/no-hardcoded-jwt-secret"@, "Avoid shipping hardcoded JWT signing secrets."@),
        ("server/no-jwt-none-algorithm"@, "Reject insecure JWT `none` algorithm usage."@),
        ("server/no-unhandled-async-route"@, "Async route handlers should catch and translate failures."@),
        ("server/no-swallowed-error"@, "Catch blocks must surface, handle, or rethrow server errors."@),
        ("server/no-process-exit-in-handler"@, "Never terminate the process from inside a request handler."@),
        ("server/require-error-status"@, "Set an HTTP error status before returning error payloads."@),
        ("server/no-throw-string"@, "Throw `Error` objects instead of raw strings."@),
        ("server/no-n-plus-one"@, "Avoid database or network requests inside loops."@),
        ("server/no-unbounded-query"@, "Bound large collection queries with limits or pagination."@),
        ("server/no-sync-fs-in-handler"@, "Avoid sync filesystem work in request handlers."@),
        ("server/no-blocking-crypto"@, "Avoid blocking crypto work in server request paths."@),
        ("server/no-large-json-parse-sync"@, "Avoid large synchronous JSON parsing in hot handlers."@),
        ("server/require-input-validation"@, "Validate request bodies before using them in handlers."@),
        ("server/no-floating-transaction"@, "Wrap coordinated ORM mutations in an explicit transaction."@),
        ("server/no-business-logic-in-route"@, "Push oversized route logic into services or helpers."@),
    ]
}

/// The summary paired with `id` in `table`, if any (the first such pair).
pub open spec fn lookup(table: Seq<(Seq<char>, Seq<char>)>, id: Seq<char>) -> Option<Seq<char>>
    decreases table.len(),
{
    if table.len() == 0 {
        None
    } else if table[0].0 == id {
        Some(table[0].1)
    } else {
        lookup(table.drop_first(), id)
    }
}

/// The summary of a rule; unknown rules get a generic hint.
pub open spec fn summary_text(id: Seq<char>) -> Seq<char> {
    match lookup(summaries_spec(), id) {
        Some(t) => t,
        None => fallback_text(),
    }
}

pub open spec fn fallback_text() -> Seq<char> {
    "Inspect this rule in context to understand the behavior it enforces."@
}

/// The generic hint for rules without a summary.
pub fn fallback_summary(rule_id: &str) -> (r: &'static str)
    ensures
        r@ == fallback_text(),
{
    "Inspect this rule in context to understand the behavior it enforces."
}

/// One-line summary of a rule.
pub fn summary_for_rule(rule_id: &str) -> (r: String)
    ensures
        r@ == summary_text(rule_id@),
{
    let table: [(&'static str, &'static str); 94] = [
        ("no-explicit-any", "Avoid TypeScript `any` in favor of safer types."),
        ("no-console", "Flag console calls that leak debug output into runtime code."),
        ("no-empty-catch", "Catch blocks should handle, log, or rethrow errors."),
        ("prefer-const", "Use `const` when a binding is never reassigned."),
        ("no-unused-vars", "Surface declared bindings that are never used."),
        ("unreachable-code", "Flag statements that can never execute after control flow exits."),
        ("no-missing-return", "Require consistent returns from functions that should produce a value."),
        ("unused-export", "Show exports that are never imported anywhere else in the project."),
        ("unused-file", "Show files that are never imported by any other file."),
        ("unused-dependency", "Show package.json dependencies that are never imported."),
        ("no-eval", "Block dynamic code execution APIs such as `eval` and string timers."),
        ("no-hardcoded-secrets", "Catch literal secrets committed directly in source."),
        ("no-chained-array-iterations", "Prefer collapsing chained array passes into a single traversal."),
        ("prefer-tosorted", "Prefer `toSorted()` over clone-then-sort patterns."),
        ("no-regexp-in-loop", "Move regular expression construction out of hot loops."),
        ("prefer-math-min-max", "Use `Math.min` or `Math.max` instead of sorting to pick extremes."),
        ("no-array-includes-in-loop", "Avoid repeated `includes()` lookups inside loops."),
        ("no-sequential-style-assignment", "Batch style writes instead of mutating many properties one by one."),
        ("no-array-find-in-loop", "Avoid `find()` scans inside loops when indexing or caching is cheaper."),
        ("no-duplicate-storage-reads", "Reuse repeated storage reads instead of fetching the same key multiple times."),
        ("no-deep-nesting", "Flag deeply nested control flow that is hard to scan and optimize."),
        ("prefer-promise-all", "Run independent async work concurrently with `Promise.all`."),
        ("react/no-derived-state-effect", "Derive render state directly instead of syncing it through effects."),
        ("react/no-fetch-in-effect", "Move fetches out of `useEffect` when a better data flow exists."),
        ("react/no-cascading-set-state", "Avoid stacking many state updates inside a single effect."),
        ("react/no-effect-event-handler", "Do not use `useEffect` as an event-handler wrapper."),
        ("react/no-derived-use-state", "Avoid initializing state directly from props when it can be derived."),
        ("react/prefer-use-reducer", "Prefer `useReducer` once state transitions become coordinated or complex."),
        ("react/lazy-state-init", "Use lazy initializers for expensive `useState` defaults."),
        ("react/functional-set-state", "Use functional updates when the next state depends on the previous value."),
        ("react/unstable-deps", "Keep hook dependency arrays stable and explicit."),
        ("react/no-array-index-key", "Avoid array indexes as React keys on dynamic lists."),
        ("react/no-prevent-default", "Be deliberate about canceling native browser behavior in JSX handlers."),
        ("react/no-conditional-render-zero", "Avoid `.length && <JSX>` patterns that can render `0`."),
        ("react/no-giant-component", "Surface oversized components that need decomposition."),
        ("react/no-render-in-render", "Avoid calling `render*()` helpers inline from JSX trees."),
        ("react/no-nested-component", "Keep component definitions at module scope, not inside renders."),
        ("react/no-usememo-simple-expr", "Skip `useMemo` around trivial expressions that do not need caching."),
        ("react/no-unstable-motion-props", "Keep motion prop objects stable across renders."),
        ("react/no-layout-animation", "Avoid layout animations on hot React surfaces."),
        ("react/no-animate-presence-in-list", "Do not wrap list rendering directly in `AnimatePresence`."),
        ("react/no-motion-in-list", "Keep motion-heavy elements out of large list renders."),
        ("react/no-prop-on-memo", "Avoid recreating props that defeat memoized components."),
        ("react/no-hydration-flicker", "Flag patterns that cause visible client/server hydration flicker."),
        ("react/no-transition-all", "Avoid broad `transition: all` rules on interactive UI."),
        ("react/no-will-change", "Use `will-change` sparingly on React surfaces."),
        ("react/no-blur-filter", "Flag heavy blur filters that are expensive to render."),
        ("react/no-heavy-shadow", "Flag expensive shadow styles that hurt paint performance."),
        ("react/no-barrel-import", "Avoid barrel imports on hot paths when they inflate bundles."),
        ("react/no-full-lodash", "Avoid importing the full Lodash bundle."),
        ("react/no-moment", "Avoid Moment.js where lighter date utilities are enough."),
        ("react/prefer-dynamic-import", "Load heavy dependencies lazily with dynamic imports."),
        ("react/use-lazy-motion", "Use `LazyMotion` when shipping Framer Motion to the client."),
        ("react/no-undeferred-script", "Defer non-critical scripts so they do not block rendering."),
        ("nextjs/no-img-element", "Prefer `next/image` over raw `<img>` in Next.js apps."),
        ("nextjs/prefer-next-link", "Use `next/link` for internal navigation."),
        ("nextjs/no-head-element", "Avoid raw `<head>` usage in Next.js components."),
        ("nextjs/no-head-import", "Avoid `next/head` in modern App Router code."),
        ("nextjs/no-document-import", "Restrict `next/document` imports to custom document files."),
        ("nextjs/no-script-in-head", "Avoid placing `<script>` tags directly inside `<head>`."),
        ("nextjs/no-search-params-without-suspense", "Wrap `useSearchParams()` consumers in `Suspense`."),
        ("nextjs/missing-metadata", "Require route metadata on pages that should declare it."),
        ("nextjs/no-side-effect-in-get-handler", "Keep GET handlers free of mutations and side effects."),
        ("nextjs/no-async-client-component", "Client components should not be declared `async`."),
        ("react/server-auth-actions", "Require auth checks before mutating inside server actions."),
        ("react/server-after-nonblocking", "Wrap non-blocking side effects in `after()` inside server actions."),
        ("react-native/no-inline-styles", "Avoid inline style objects on React Native surfaces."),
        ("react-native/no-inline-callbacks", "Avoid recreating inline callbacks on native components."),
        ("react-native/no-anonymous-list-render", "Keep `renderItem` stable instead of recreating it inline."),
        ("react-native/no-scrollview-list", "Prefer virtualized lists over mapping large collections in `ScrollView`."),
        ("react-native/no-raw-text", "Wrap text in `Text` instead of rendering raw strings directly."),
        ("react-native/no-alert", "Avoid platform alerts as a default UX escape hatch."),
        ("react-native/no-image-uri-literal", "Avoid hardcoded remote image URIs in JSX."),
        ("react-native/require-key-extractor", "Provide `keyExtractor` for virtualized React Native lists."),
        ("server/no-sql-injection", "Avoid building SQL with request-controlled interpolation."),
        ("server/no-shell-injection", "Do not pass dynamic input to shell execution APIs."),
        ("server/no-path-traversal", "Avoid feeding request data directly into filesystem paths."),
        ("server/no-unsafe-redirect", "Do not redirect to request-controlled destinations."),
        ("server/no-cors-wildcard", "Do not combine wildcard CORS origins with credentials."),
        ("server/no-hardcoded-jwt-secret", "Avoid shipping hardcoded JWT signing secrets."),
        ("server/no-jwt-none-algorithm", "Reject insecure JWT `none` algorithm usage."),
        ("server/no-unhandled-async-route", "Async route handlers should catch and translate failures."),
        ("server/no-swallowed-error", "Catch blocks must surface, handle, or rethrow server errors."),
        ("server/no-process-exit-in-handler", "Never terminate the process from inside a request handler."),
        ("server/require-error-status", "Set an HTTP error status before returning error payloads."),
        ("server/no-throw-string", "Throw `Error` objects instead of raw strings."),
        ("server/no-n-plus-one", "Avoid database or network requests inside loops."),
        ("server/no-unbounded-query", "Bound large collection queries with limits or pagination."),
        ("server/no-sync-fs-in-handler", "Avoid sync filesystem work in request handlers."),
        ("server/no-blocking-crypto", "Avoid blocking crypto work in server request paths."),
        ("server/no-large-json-parse-sync", "Avoid large synchronous JSON parsing in hot handlers."),
        ("server/require-input-validation", "Validate request bodies before using them in handlers."),
        ("server/no-floating-transaction", "Wrap coordinated ORM mutations in an explicit transaction."),
        ("server/no-business-logic-in-route", "Push oversized route logic into services or helpers."),
    ];
    assert(table@.map_values(|p: (&str, &str)| (p.0@, p.1@)) =~= summaries_spec());
    let id = chars_of(rule_id);
    let mut i: usize = 0;
    assert(summaries_spec().skip(0) =~= summaries_spec());
    while i < table.len()
        invariant
            i <= table@.len(),
            id@ == rule_id@,
            table@.map_values(|p: (&str, &str)| (p.0@, p.1@)) == summaries_spec(),
            lookup(summaries_spec(), rule_id@) == lookup(summaries_spec().skip(i as int), rule_id@),
        decreases table@.len() - i,
    {
        let (key, text) = table[i];
        assert(summaries_spec().skip(i as int)[0] == (key@, text@));
        assert(summaries_spec().skip(i as int).drop_first() =~= summaries_spec().skip(i + 1));
        let k = chars_of(key);
        if eq_chars(&k, &id) {
            return owned(text);
        }
        i = i + 1;
    }
    assert(summaries_spec().skip(i as int).len() == 0);
    owned(fallback_summary(rule_id))
}
/// Why the catalog could not be assembled.
#[derive(Debug, Clone)]
pub enum CatalogError {
    /// Rules known to the engine but not catalogued, and catalogued rules the engine lacks.
    OutOfSync { missing: Vec<String>, extra: Vec<String> },
    /// A seed names a group that does not exist.
    UnknownGroup(String),
    /// A seed's rule has no (remaining) default severity.
    MissingSeverity(String),
}

/// Whether `id` is among the first components of `s`.
pub open spec fn has_id<T>(s: Seq<(Seq<char>, T)>, id: Seq<char>) -> bool {
    exists|i: int| 0 <= i < s.len() && #[trigger] s[i].0 == id
}

/// Whether some seed has rule id `id`.
pub open spec fn seeded(id: Seq<char>) -> bool {
    exists|i: int| 0 <= i < seeds_spec().len() && #[trigger] seeds_spec()[i].0 == id
}

/// The engine's rules and the catalogued rules are the same set.
pub open spec fn in_sync() -> bool {
    &&& forall|i: int| 0 <= i < defaults_spec().len() ==> seeded(#[trigger] defaults_spec()[i].0)
    &&& forall|i: int|
        0 <= i < seeds_spec().len() ==> has_id(defaults_spec(), #[trigger] seeds_spec()[i].0)
}

/// Whether a group with key `key` exists.
pub open spec fn known_group(key: Seq<char>) -> bool {
    has_id(groups_spec(), key)
}

/// Seed `i` is well placed: its group exists and its id was not seeded before.
pub open spec fn seed_ok(i: int) -> bool {
    &&& known_group(seeds_spec()[i].1)
    &&& forall|k: int| 0 <= k < i ==> #[trigger] seeds_spec()[k].0 != seeds_spec()[i].0
}

/// The severity the engine declares for `id` (the last declaration wins).
pub open spec fn severity_for(table: Seq<(Seq<char>, Severity)>, id: Seq<char>) -> Option<Severity>
    decreases table.len(),
{
    if table.len() == 0 {
        None
    } else if table.last().0 == id {
        Some(table.last().1)
    } else {
        severity_for(table.drop_last(), id)
    }
}

/// Whether `e` is the catalog entry for seed `i`.
pub open spec fn entry_for_seed(e: RuleCatalogEntry, i: int) -> bool {
    let s = seeds_spec()[i];
    &&& e.id@ == s.0
    &&& e.group_key@ == s.1
    &&& e.scope == s.2
    &&& Some(e.default_severity) == severity_for(defaults_spec(), s.0)
    &&& e.summary@ == summary_text(s.0)
}

fn id_in_seeds(seeds: &Vec<RuleSeed>, id: &Vec<char>, upto: usize) -> (b: bool)
    requires
        upto <= seeds@.len(),
    ensures
        b == (exists|k: int| 0 <= k < upto && #[trigger] seeds@[k].id@ == id@),
{
    let mut i: usize = 0;
    while i < upto
        invariant
            i <= upto <= seeds@.len(),
            forall|k: int| 0 <= k < i ==> #[trigger] seeds@[k].id@ != id@,
        decreases upto - i,
    {
        let s = chars_of(seeds[i].id);
        if eq_chars(&s, id) {
            return true;
        }
        i = i + 1;
    }
    false
}

fn id_in_defaults(defaults: &Vec<(String, Severity)>, id: &Vec<char>) -> (r: Option<Severity>)
    ensures
        r == severity_for(defaults@.map_values(|p: (String, Severity)| (p.0@, p.1)), id@),
{
    let ghost table = defaults@.map_values(|p: (String, Severity)| (p.0@, p.1));
    let mut i: usize = defaults.len();
    assert(table.take(i as int) =~= table);
    while i > 0
        invariant
            i <= defaults@.len(),
            table == defaults@.map_values(|p: (String, Severity)| (p.0@, p.1)),
            severity_for(table, id@) == severity_for(table.take(i as int), id@),
        decreases i,
    {
        assert(table.take(i as int).drop_last() =~= table.take(i - 1));
        let d = chars_of(defaults[i - 1].0.as_str());
        if eq_chars(&d, id) {
            return Some(defaults[i - 1].1);
        }
        i = i - 1;
    }
    None
}

fn group_known(groups: &Vec<RuleGroup>, key: &str) -> (b: bool)
    requires
        groups@.map_values(|g: RuleGroup| (g.key@, g.title@)) == groups_spec(),
    ensures
        b == known_group(key@),
{
    let k = chars_of(key);
    let mut i: usize = 0;
    while i < groups.len()
        invariant
            i <= groups@.len(),
            k@ == key@,
            groups@.map_values(|g: RuleGroup| (g.key@, g.title@)) == groups_spec(),
            forall|j: int| 0 <= j < i ==> #[trigger] groups_spec()[j].0 != key@,
        decreases groups@.len() - i,
    {
        assert(groups_spec()[i as int].0 == groups@[i as int].key@);
        let g = chars_of(groups[i].key);
        if eq_chars(&g, &k) {
            return true;
        }
        i = i + 1;
    }
    false
}

/// Assembles the catalog: every rule the engine supports, grouped, with its
/// default severity and summary.  Fails when the engine's rules and the
/// catalogued rules differ, when a group is unknown, or when a rule is
/// catalogued twice.
#[verifier::rlimit(50)]
pub fn build_rule_catalog() -> (r: Result<RuleCatalog, CatalogError>)
    ensures
        r is Ok <==> (in_sync() && forall|i: int| 0 <= i < seeds_spec().len() ==> seed_ok(i)),
        r matches Ok(c) ==> {
            &&& c.groups@.map_values(|g: RuleGroup| (g.key@, g.title@)) == groups_spec()
            &&& c.entries@.len() == seeds_spec().len()
            &&& forall|i: int| 0 <= i < c.entries@.len() ==> entry_for_seed(#[trigger] c.entries@[i], i)
        },
{
    let defaults = supported_rule_defaults();
    let seeds = rule_seeds();
    let groups = groups();
    let ghost dview = defaults@.map_values(|p: (String, Severity)| (p.0@, p.1));
    let ghost sview = seeds@.map_values(|s: RuleSeed| seed_view(s));
    assert(dview == defaults_spec());
    assert(sview == seeds_spec());
    let mut missing: Vec<String> = Vec::new();
    let mut i: usize = 0;
    while i < defaults.len()
        invariant
            i <= defaults@.len(),
            dview == defaults@.map_values(|p: (String, Severity)| (p.0@, p.1)),
            sview == seeds@.map_values(|s: RuleSeed| seed_view(s)),
            dview == defaults_spec(),
            sview == seeds_spec(),
            (missing@.len() == 0) == (forall|k: int| 0 <= k < i ==> seeded(#[trigger] defaults_spec()[k].0)),
        decreases defaults@.len() - i,
    {
        let id = chars_of(defaults[i].0.as_str());
        assert(defaults_spec()[i as int].0 == id@);
        if !id_in_seeds(&seeds, &id, seeds.len()) {
            assert(!seeded(id@)) by {
                if seeded(id@) {
                    let w = choose|w: int| 0 <= w < seeds_spec().len() && #[trigger] seeds_spec()[w].0 == id@;
                    assert(seeds@[w].id@ == sview[w].0);
                }
            }
            missing.push(defaults[i].0.clone());
        } else {
            assert(seeded(id@)) by {
                let w = choose|w: int| 0 <= w < seeds@.len() && #[trigger] seeds@[w].id@ == id@;
                assert(sview[w].0 == id@);
            }
        }
        i = i + 1;
    }
    let mut extra: Vec<String> = Vec::new();
    let mut j: usize = 0;
    while j < seeds.len()
        invariant
            j <= seeds@.len(),
            dview == defaults@.map_values(|p: (String, Severity)| (p.0@, p.1)),
            sview == seeds@.map_values(|s: RuleSeed| seed_view(s)),
            dview == defaults_spec(),
            sview == seeds_spec(),
            (extra@.len() == 0) == (forall|k: int| 0 <= k < j ==> has_id(defaults_spec(), #[trigger] seeds_spec()[k].0)),
        decreases seeds@.len() - j,
    {
        let id = chars_of(seeds[j].id);
        assert(seeds_spec()[j as int].0 == id@);
        match id_in_defaults(&defaults, &id) {
            None => {
                proof { lemma_severity_for_none(dview, id@); }
                extra.push(owned(seeds[j].id));
            },
            Some(_) => {
                proof { lemma_severity_for_some(dview, id@); }
            },
        }
        j = j + 1;
    }
    if missing.len() > 0 || extra.len() > 0 {
        return Err(CatalogError::OutOfSync { missing, extra });
    }
    let mut entries: Vec<RuleCatalogEntry> = Vec::new();
    let mut k: usize = 0;
    while k < seeds.len()
        invariant
            k <= seeds@.len(),
            in_sync(),
            dview == defaults@.map_values(|p: (String, Severity)| (p.0@, p.1)),
            sview == seeds@.map_values(|s: RuleSeed| seed_view(s)),
            dview == defaults_spec(),
            sview == seeds_spec(),
            groups@.map_values(|g: RuleGroup| (g.key@, g.title@)) == groups_spec(),
            entries@.len() == k,
            forall|t: int| 0 <= t < k ==> seed_ok(t),
            forall|t: int| 0 <= t < k ==> entry_for_seed(#[trigger] entries@[t], t),
        decreases seeds@.len() - k,
    {
        let seed = seeds[k];
        assert(sview[k as int] == seed_view(seed));
        assert(seeds_spec()[k as int] == (seed.id@, seed.group_key@, seed.scope));
        if !group_known(&groups, seed.group_key) {
            assert(!seed_ok(k as int));
            return Err(CatalogError::UnknownGroup(owned(seed.group_key)));
        }
        let id = chars_of(seed.id);
        if id_in_seeds(&seeds, &id, k) {
            proof {
                let w = choose|w: int| 0 <= w < k && #[trigger] seeds@[w].id@ == id@;
                assert(sview[w].0 == id@);
                assert(seeds_spec()[w].0 == seeds_spec()[k as int].0);
                assert(!seed_ok(k as int));
            }
            return Err(CatalogError::MissingSeverity(owned(seed.id)));
        }
        assert forall|t: int| 0 <= t < k implies #[trigger] seeds_spec()[t].0 != seeds_spec()[k as int].0 by {
            assert(sview[t].0 == seeds@[t].id@);
        }
        let severity = match id_in_defaults(&defaults, &id) {
            Some(s) => s,
            None => {
                proof {
                    assert(has_id(defaults_spec(), seeds_spec()[k as int].0));
                    lemma_severity_for_none(dview, id@);
                }
                return Err(CatalogError::MissingSeverity(owned(seed.id)));
            },
        };
        entries.push(RuleCatalogEntry {
            id: owned(seed.id),
            group_key: seed.group_key,
            scope: seed.scope,
            default_severity: severity,
            summary: summary_for_rule(seed.id),
        });
        k = k + 1;
    }
    Ok(RuleCatalog { groups, entries })
}

proof fn lemma_severity_for_none(table: Seq<(Seq<char>, Severity)>, id: Seq<char>)
    requires
        severity_for(table, id) is None,
    ensures
        !has_id(table, id),
    decreases table.len(),
{
    if table.len() > 0 {
        lemma_severity_for_none(table.drop_last(), id);
        assert forall|i: int| 0 <= i < table.len() implies #[trigger] table[i].0 != id by {
            if i < table.len() - 1 {
                assert(table.drop_last()[i] == table[i]);
            }
        }
    }
}

proof fn lemma_severity_for_some(table: Seq<(Seq<char>, Severity)>, id: Seq<char>)
    requires
        severity_for(table, id) is Some,
    ensures
        has_id(table, id),
    decreases table.len(),
{
    if table.len() > 0 {
        if table.last().0 == id {
            assert(table[table.len() - 1].0 == id);
        } else {
            lemma_severity_for_some(table.drop_last(), id);
            let w = choose|w: int| 0 <= w < table.drop_last().len() && #[trigger] table.drop_last()[w].0 == id;
            assert(table[w].0 == id);
        }
    }
}

} // verus!
