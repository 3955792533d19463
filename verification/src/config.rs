//! Command-line shapes, the `flint.json` configuration, and the decisions
//! made from them: rule severities, ignored paths, starter rules.
use vstd::prelude::*;

use crate::cache::{hash_bytes, sha256_hex};
use crate::engine::{lemma_views_push, views, DiagView};
use crate::lint::{LintDiagnostic, RuleOrigin, Severity};
use crate::project::ProjectInfo;
use crate::text::{chars_of, contains, contains_str, eq_chars, eq_str, lower, lower_chars, owned};

verus! {

/// Parsed command line.
#[derive(Debug, Clone)]
pub struct Cli {
    pub command: Command,
    /// Show timing information.
    pub timing: bool,
}

/// Subcommands.
#[derive(Debug, Clone)]
pub enum Command {
    /// Lint JavaScript and TypeScript files.
    Check(CheckArgs),
    /// Initialize flint config in current directory.
    Init,
    /// Browse Flint's built-in rules in a terminal UI.
    Rules(RulesArgs),
}

/// Arguments of `check`.
#[derive(Debug, Clone)]
pub struct CheckArgs {
    pub path: String,
    pub cache_path: String,
    pub ignore: Vec<String>,
    pub no_cache: bool,
    pub format: OutputFormat,
}

/// Output formats of `check`.
#[derive(Debug, Clone, Copy, PartialEq, Eq, Structural)]
pub enum OutputFormat {
    Pretty,
    Json,
    Compact,
    AgentJson,
}

/// Arguments of `rules`.
#[derive(Debug, Clone)]
pub struct RulesArgs {
    pub group: Option<String>,
    pub search: Option<String>,
}

/// The shape of a rule's value in `flint.json`.
#[derive(Debug, Clone)]
pub enum ConfigValue {
    Null,
    Bool(bool),
    Number,
    Str(String),
    Array,
    Object,
}

/// File selection settings.
#[derive(Debug, Clone)]
pub struct FilesConfig {
    pub exclude: Vec<String>,
}

/// The effective configuration.
#[derive(Debug, Clone)]
pub struct Config {
    pub detect: bool,
    pub rules: Vec<(String, ConfigValue)>,
    pub files: FilesConfig,
}

/// Case-insensitive (ASCII) equality.
pub open spec fn eq_ignore_case(a: Seq<char>, b: Seq<char>) -> bool {
    lower(a) == lower(b)
}

/// The severity a rule value selects, `None` when it switches the rule off.
pub open spec fn severity_of(value: ConfigValue) -> Option<Severity> {
    match value {
        ConfigValue::Bool(b) => if b {
            Some(Severity::Warning)
        } else {
            None
        },
        ConfigValue::Str(s) => if eq_ignore_case(s@, "off"@) {
            None
        } else if eq_ignore_case(s@, "error"@) {
            Some(Severity::Error)
        } else {
            Some(Severity::Warning)
        },
        ConfigValue::Number => Some(Severity::Warning),
        ConfigValue::Array => Some(Severity::Warning),
        ConfigValue::Null => None,
        ConfigValue::Object => None,
    }
}

fn eq_ignore_case_exec(a: &Vec<char>, b: &str) -> (r: bool)
    ensures
        r == eq_ignore_case(a@, b@),
{
    let la = lower_chars(a);
    let bc = chars_of(b);
    let lb = lower_chars(&bc);
    eq_chars(&la, &lb)
}

/// Severity selected by a rule's config value: `false`, `"off"`, `null` and
/// objects disable it; `"error"` selects errors; `true`, numbers, arrays and
/// any other string enable it as a warning.
pub fn parse_rule_severity(value: &ConfigValue) -> (r: Option<Severity>)
    ensures
        r == severity_of(*value),
{
    match value {
        ConfigValue::Bool(b) => if *b {
            Some(Severity::Warning)
        } else {
            None
        },
        ConfigValue::Str(s) => {
            let c = chars_of(s.as_str());
            if eq_ignore_case_exec(&c, "off") {
                None
            } else if eq_ignore_case_exec(&c, "warn") {
                proof {
                    reveal_strlit("warn");
                    reveal_strlit("error");
                    assert(lower("warn"@).len() != lower("error"@).len());
                }
                Some(Severity::Warning)
            } else if eq_ignore_case_exec(&c, "error") {
                Some(Severity::Error)
            } else {
                Some(Severity::Warning)
            }
        },
        ConfigValue::Number => Some(Severity::Warning),
        ConfigValue::Array => Some(Severity::Warning),
        ConfigValue::Null => None,
        ConfigValue::Object => None,
    }
}

/// The first config entry for `name`, if any.
pub open spec fn rule_value(rules: Seq<(String, ConfigValue)>, name: Seq<char>) -> Option<
    ConfigValue,
>
    decreases rules.len(),
{
    if rules.len() == 0 {
        None
    } else if rules[0].0@ == name {
        Some(rules[0].1)
    } else {
        rule_value(rules.drop_first(), name)
    }
}

/// The severity a config sets for `name`, if it enables the rule.
pub open spec fn configured_severity(rules: Seq<(String, ConfigValue)>, name: Seq<char>) -> Option<
    Severity,
> {
    match rule_value(rules, name) {
        None => None,
        Some(v) => severity_of(v),
    }
}

/// Severity override a config sets for a rule.
pub fn get_severity_override(rule_name: &str, rules: &Vec<(String, ConfigValue)>) -> (r: Option<
    Severity,
>)
    ensures
        r == configured_severity(rules@, rule_name@),
{
    let target = owned(rule_name);
    let mut i: usize = 0;
    assert(rules@.skip(0) =~= rules@);
    while i < rules.len()
        invariant
            i <= rules@.len(),
            target@ == rule_name@,
            rule_value(rules@, rule_name@) == rule_value(rules@.skip(i as int), rule_name@),
        decreases rules@.len() - i,
    {
        assert(rules@.skip(i as int).drop_first() =~= rules@.skip(i + 1));
        if rules[i].0 == target {
            return parse_rule_severity(&rules[i].1);
        }
        i = i + 1;
    }
    None
}

/// The core rules, which a config that names any rule runs only when it
/// names them.
pub open spec fn core_rule(name: Seq<char>) -> bool {
    ||| name == "no-explicit-any"@
    ||| name == "no-console"@
    ||| name == "no-empty-catch"@
    ||| name == "prefer-const"@
    ||| name == "no-unused-vars"@
    ||| name == "unreachable-code"@
    ||| name == "no-missing-return"@
    ||| name == "no-wrong-arg-count"@
    ||| name == "no-unsafe-optional-access"@
}

/// What a config does to one diagnostic: the parser's and the semantic
/// checker's are kept; one of a rule the config switches off is dropped, one
/// of a rule it enables takes the configured severity; one of a core rule
/// the config does not name is dropped when the config names any rule; the
/// rest are kept.
pub open spec fn configured_view(d: DiagView, rules: Seq<(String, ConfigValue)>) -> Option<DiagView> {
    if d.origin == RuleOrigin::Engine {
        Some(d)
    } else {
        match rule_value(rules, d.rule_name) {
            None => if rules.len() > 0 && core_rule(d.rule_name) {
                None
            } else {
                Some(d)
            },
            Some(v) => match severity_of(v) {
                Some(s) => Some(DiagView { severity: s, ..d }),
                None => None,
            },
        }
    }
}

/// What a config does to the diagnostics of a run, in order.
pub open spec fn configured_views(ds: Seq<DiagView>, rules: Seq<(String, ConfigValue)>) -> Seq<DiagView>
    decreases ds.len(),
{
    if ds.len() == 0 {
        Seq::empty()
    } else {
        let before = configured_views(ds.drop_last(), rules);
        match configured_view(ds.last(), rules) {
            Some(d) => before.push(d),
            None => before,
        }
    }
}

fn core_rule_exec(name: &str) -> (b: bool)
    ensures
        b == core_rule(name@),
{
    let n = chars_of(name);
    eq_str(&n, "no-explicit-any") || eq_str(&n, "no-console") || eq_str(&n, "no-empty-catch")
        || eq_str(&n, "prefer-const") || eq_str(&n, "no-unused-vars") || eq_str(
        &n,
        "unreachable-code",
    ) || eq_str(&n, "no-missing-return") || eq_str(&n, "no-wrong-arg-count") || eq_str(
        &n,
        "no-unsafe-optional-access",
    )
}

/// The text whose digest stands for the built-in configuration.
pub open spec fn default_config_marker() -> Seq<u8> {
    vstd::utf8::encode_utf8("__default_detect_v1__"@)
}

/// The fingerprint of the configuration a run uses: the SHA-256 of the
/// `flint.json` text when there is one, else of a fixed marker that stands
/// for the built-in configuration.
pub fn config_fingerprint(raw: Option<&str>) -> (r: String)
    ensures
        r@ == sha256_hex(
            match raw {
                Some(t) => vstd::utf8::encode_utf8(t@),
                None => default_config_marker(),
            },
        ),
        r@.len() == 64,
        forall|i: int| 0 <= i < r@.len() ==> crate::cache::lower_hex(#[trigger] r@[i]),
{
    match raw {
        Some(t) => hash_bytes(t.as_bytes()),
        None => hash_bytes("__default_detect_v1__".as_bytes()),
    }
}

/// Applies the rule settings of a config to the diagnostics of a run.
pub fn apply_rule_config(diagnostics: Vec<LintDiagnostic>, rules: &Vec<(String, ConfigValue)>) -> (r: Vec<
    LintDiagnostic,
>)
    ensures
        views(r@) == configured_views(views(diagnostics@), rules@),
{
    let ghost input = diagnostics@;
    let mut rest = diagnostics;
    let mut reversed: Vec<LintDiagnostic> = Vec::new();
    while rest.len() > 0
        invariant
            rest@.len() + reversed@.len() == input.len(),
            rest@ == input.take(rest@.len() as int),
            forall|k: int| 0 <= k < reversed@.len() ==> #[trigger] reversed@[k] == input[input.len() - 1 - k],
        decreases rest@.len(),
    {
        let d = rest.pop().unwrap();
        reversed.push(d);
        assert(rest@ =~= input.take(rest@.len() as int));
    }
    let mut out: Vec<LintDiagnostic> = Vec::new();
    while reversed.len() > 0
        invariant
            reversed@.len() <= input.len(),
            forall|k: int| 0 <= k < reversed@.len() ==> #[trigger] reversed@[k] == input[input.len() - 1 - k],
            views(out@) == configured_views(views(input.take(input.len() - reversed@.len())), rules@),
        decreases reversed@.len(),
    {
        let ghost done = input.len() - reversed@.len();
        let mut d = reversed.pop().unwrap();
        assert(d == input[done]);
        proof {
            let t = views(input.take(done + 1));
            assert(t.drop_last() =~= views(input.take(done)));
            assert(t.last() == d@);
        }
        if d.origin == RuleOrigin::Engine {
            proof {
                lemma_views_push(out@, d);
            }
            out.push(d);
        } else {
            match get_severity_override(d.rule_name.as_str(), rules) {
                Some(s) => {
                    d.severity = s;
                    proof {
                        lemma_views_push(out@, d);
                    }
                    out.push(d);
                },
                None => {
                    let named = configured_off(d.rule_name.as_str(), rules);
                    if named || (rules.len() > 0 && core_rule_exec(d.rule_name.as_str())) {
                    } else {
                        proof {
                            lemma_views_push(out@, d);
                        }
                        out.push(d);
                    }
                },
            }
        }
    }
    assert(input.take(input.len() as int) =~= input);
    out
}

/// Whether a config names `rule_name` at all.
fn configured_off(rule_name: &str, rules: &Vec<(String, ConfigValue)>) -> (b: bool)
    ensures
        b == (rule_value(rules@, rule_name@) is Some),
{
    let target = owned(rule_name);
    let mut i: usize = 0;
    assert(rules@.skip(0) =~= rules@);
    while i < rules.len()
        invariant
            i <= rules@.len(),
            target@ == rule_name@,
            rule_value(rules@, rule_name@) == rule_value(rules@.skip(i as int), rule_name@),
        decreases rules@.len() - i,
    {
        assert(rules@.skip(i as int).drop_first() =~= rules@.skip(i + 1));
        if rules[i].0 == target {
            return true;
        }
        i = i + 1;
    }
    false
}

/// Directory names skipped by default.
pub fn default_excludes() -> (r: Vec<String>)
    ensures
        r@.map_values(|s: String| s@) == seq!["node_modules"@, "dist"@, "build"@, ".git"@],
{
    let mut r: Vec<String> = Vec::new();
    r.push(owned("node_modules"));
    r.push(owned("dist"));
    r.push(owned("build"));
    r.push(owned(".git"));
    assert(r@.map_values(|s: String| s@) =~= seq!["node_modules"@, "dist"@, "build"@, ".git"@]);
    r
}

/// Framework detection is on unless the config turns it off.
pub fn default_detect() -> (b: bool)
    ensures
        b,
{
    true
}

/// The rules enabled when no `flint.json` exists, with their severities.
pub fn default_rules() -> (r: Vec<(String, ConfigValue)>)
    ensures
        r@.len() == 5,
        r@[0].0@ == "no-explicit-any"@ && r@[0].1 == ConfigValue::Str(r@[0].1->Str_0) && r@[0].1->Str_0@ == "warn"@,
        r@[1].0@ == "no-unused-vars"@ && r@[1].1 is Str && r@[1].1->Str_0@ == "error"@,
        r@[2].0@ == "no-console"@ && r@[2].1 is Str && r@[2].1->Str_0@ == "warn"@,
        r@[3].0@ == "prefer-const"@ && r@[3].1 is Str && r@[3].1->Str_0@ == "warn"@,
        r@[4].0@ == "no-empty-catch"@ && r@[4].1 is Str && r@[4].1->Str_0@ == "error"@,
{
    let mut r: Vec<(String, ConfigValue)> = Vec::new();
    r.push((owned("no-explicit-any"), ConfigValue::Str(owned("warn"))));
    r.push((owned("no-unused-vars"), ConfigValue::Str(owned("error"))));
    r.push((owned("no-console"), ConfigValue::Str(owned("warn"))));
    r.push((owned("prefer-const"), ConfigValue::Str(owned("warn"))));
    r.push((owned("no-empty-catch"), ConfigValue::Str(owned("error"))));
    r
}

impl FilesConfig {
    /// The default file selection: the default excludes.
    pub fn default_files() -> (r: FilesConfig)
        ensures
            r.exclude@.map_values(|s: String| s@) == seq![
                "node_modules"@,
                "dist"@,
                "build"@,
                ".git"@,
            ],
    {
        FilesConfig { exclude: default_excludes() }
    }
}

impl Config {
    /// The configuration used when no `flint.json` exists.
    pub fn default_config() -> (r: Config)
        ensures
            r.detect,
            r.rules@.len() == 5,
    {
        Config { detect: default_detect(), rules: default_rules(), files: FilesConfig::default_files() }
    }
}

/// Whether a path falls under one of the ignore patterns.  A path component
/// equal to a pattern is itself a piece of the path text, so the test on the
/// text alone decides.
pub fn is_ignored_path(path: &str, patterns: &Vec<String>) -> (b: bool)
    ensures
        b == (exists|i: int| 0 <= i < patterns@.len() && contains(path@, #[trigger] patterns@[i]@)),
{
    let p = chars_of(path);
    let mut i: usize = 0;
    while i < patterns.len()
        invariant
            i <= patterns@.len(),
            p@ == path@,
            forall|k: int| 0 <= k < i ==> !contains(path@, #[trigger] patterns@[k]@),
        decreases patterns@.len() - i,
    {
        if contains_str(&p, patterns[i].as_str()) {
            return true;
        }
        i = i + 1;
    }
    false
}

/// The extensions of files the linter reads.
pub open spec fn lintable_extension(e: Seq<char>) -> bool {
    e == "js"@ || e == "jsx"@ || e == "mjs"@ || e == "cjs"@ || e == "ts"@ || e == "tsx"@ || e
        == "mts"@ || e == "cts"@
}

/// Whether a file at `path` is JavaScript or TypeScript by its extension.
pub fn is_lintable_path(path: &str) -> (b: bool)
    ensures
        b == (match crate::policy_ir::path_extension(path@) {
            Some(e) => lintable_extension(e),
            None => false,
        }),
        b == (match crate::policy_ir::path_extension(path@) {
            Some(e) => e == "js"@ || e == "jsx"@ || e == "mjs"@ || e == "cjs"@ || e == "ts"@ || e == "tsx"@ || e
                == "mts"@ || e == "cts"@,
            None => false,
        }),
{
    let p = chars_of(path);
    match crate::policy_ir::extension_exec(&p) {
        None => false,
        Some(e) => {
            crate::text::eq_str(&e, "js") || crate::text::eq_str(&e, "jsx") || crate::text::eq_str(
                &e,
                "mjs",
            ) || crate::text::eq_str(&e, "cjs") || crate::text::eq_str(&e, "ts")
                || crate::text::eq_str(&e, "tsx") || crate::text::eq_str(&e, "mts")
                || crate::text::eq_str(&e, "cts")
        },
    }
}

/// Rule ids and severities of the starter config, by project kind.
pub open spec fn core_starter() -> Seq<(Seq<char>, Seq<char>)> {
    seq![
        ("no-explicit-any"@, "warn"@),
        ("no-unused-vars"@, "error"@),
        ("no-console"@, "warn"@),
        ("prefer-const"@, "warn"@),
        ("no-empty-catch"@, "error"@),
        ("unreachable-code"@, "error"@),
        ("no-missing-return"@, "error"@),
        ("no-wrong-arg-count"@, "error"@),
        ("no-unsafe-optional-access"@, "error"@),
        ("no-eval"@, "error"@),
        ("no-hardcoded-secrets"@, "warn"@),
    ]
}

pub open spec fn react_starter() -> Seq<(Seq<char>, Seq<char>)> {
    seq![
        ("react/no-fetch-in-effect"@, "warn"@),
        ("react/functional-set-state"@, "warn"@),
        ("react/no-array-index-key"@, "warn"@),
        ("react/no-usememo-simple-expr"@, "warn"@),
        ("react/no-hydration-flicker"@, "warn"@),
    ]
}

pub open spec fn next_starter() -> Seq<(Seq<char>, Seq<char>)> {
    seq![
        ("nextjs/no-img-element"@, "warn"@),
        ("nextjs/prefer-next-link"@, "warn"@),
        ("nextjs/missing-metadata"@, "warn"@),
        ("nextjs/no-async-client-component"@, "warn"@),
        ("react/server-auth-actions"@, "warn"@),
    ]
}

pub open spec fn server_starter() -> Seq<(Seq<char>, Seq<char>)> {
    seq![
        ("server/no-sql-injection"@, "error"@),
        ("server/no-shell-injection"@, "error"@),
        ("server/require-input-validation"@, "warn"@),
        ("server/no-unhandled-async-route"@, "warn"@),
        ("server/no-n-plus-one"@, "warn"@),
    ]
}

pub open spec fn native_starter() -> Seq<(Seq<char>, Seq<char>)> {
    seq![
        ("react-native/no-inline-styles"@, "warn"@),
        ("react-native/no-anonymous-list-render"@, "warn"@),
        ("react-native/require-key-extractor"@, "warn"@),
    ]
}

/// The starter rules of a project, in the order the config lists them.
pub open spec fn starter_rules(project: ProjectInfo) -> Seq<(Seq<char>, Seq<char>)> {
    core_starter() + (if project.has_react {
        react_starter()
    } else {
        Seq::empty()
    }) + (if project.has_next {
        next_starter()
    } else {
        Seq::empty()
    }) + (if project.server() {
        server_starter()
    } else {
        Seq::empty()
    }) + (if project.has_react_native || project.has_expo {
        native_starter()
    } else {
        Seq::empty()
    })
}

/// The view of a list of (rule, severity) string pairs.
pub open spec fn pairs_view(v: Seq<(String, String)>) -> Seq<(Seq<char>, Seq<char>)> {
    v.map_values(|p: (String, String)| (p.0@, p.1@))
}

fn push_pair(out: &mut Vec<(String, String)>, rule: &str, severity: &str)
    ensures
        pairs_view(final(out)@) == pairs_view(old(out)@).push((rule@, severity@)),
{
    out.push((owned(rule), owned(severity)));
    assert(pairs_view(out@) =~= pairs_view(old(out)@).push((rule@, severity@)));
}

/// The rules `flint init` writes for a project, with their severities.
pub fn starter_rules_for_project(project: &ProjectInfo) -> (r: Vec<(String, String)>)
    ensures
        pairs_view(r@) == starter_rules(*project),
{
    let mut rules: Vec<(String, String)> = Vec::new();
    push_pair(&mut rules, "no-explicit-any", "warn");
    push_pair(&mut rules, "no-unused-vars", "error");
    push_pair(&mut rules, "no-console", "warn");
    push_pair(&mut rules, "prefer-const", "warn");
    push_pair(&mut rules, "no-empty-catch", "error");
    push_pair(&mut rules, "unreachable-code", "error");
    push_pair(&mut rules, "no-missing-return", "error");
    push_pair(&mut rules, "no-wrong-arg-count", "error");
    push_pair(&mut rules, "no-unsafe-optional-access", "error");
    push_pair(&mut rules, "no-eval", "error");
    push_pair(&mut rules, "no-hardcoded-secrets", "warn");
    assert(pairs_view(rules@) =~= core_starter());
    let ghost after_core = pairs_view(rules@);
    if project.has_react {
        push_pair(&mut rules, "react/no-fetch-in-effect", "warn");
        push_pair(&mut rules, "react/functional-set-state", "warn");
        push_pair(&mut rules, "react/no-array-index-key", "warn");
        push_pair(&mut rules, "react/no-usememo-simple-expr", "warn");
        push_pair(&mut rules, "react/no-hydration-flicker", "warn");
        assert(pairs_view(rules@) =~= after_core + react_starter());
    } else {
        assert(pairs_view(rules@) =~= after_core + Seq::empty());
    }
    let ghost after_react = pairs_view(rules@);
    if project.has_next {
        push_pair(&mut rules, "nextjs/no-img-element", "warn");
        push_pair(&mut rules, "nextjs/prefer-next-link", "warn");
        push_pair(&mut rules, "nextjs/missing-metadata", "warn");
        push_pair(&mut rules, "nextjs/no-async-client-component", "warn");
        push_pair(&mut rules, "react/server-auth-actions", "warn");
        assert(pairs_view(rules@) =~= after_react + next_starter());
    } else {
        assert(pairs_view(rules@) =~= after_react + Seq::empty());
    }
    let ghost after_next = pairs_view(rules@);
    if project.has_server_framework() {
        push_pair(&mut rules, "server/no-sql-injection", "error");
        push_pair(&mut rules, "server/no-shell-injection", "error");
        push_pair(&mut rules, "server/require-input-validation", "warn");
        push_pair(&mut rules, "server/no-unhandled-async-route", "warn");
        push_pair(&mut rules, "server/no-n-plus-one", "warn");
        assert(pairs_view(rules@) =~= after_next + server_starter());
    } else {
        assert(pairs_view(rules@) =~= after_next + Seq::empty());
    }
    let ghost after_server = pairs_view(rules@);
    if project.has_react_native || project.has_expo {
        push_pair(&mut rules, "react-native/no-inline-styles", "warn");
        push_pair(&mut rules, "react-native/no-anonymous-list-render", "warn");
        push_pair(&mut rules, "react-native/require-key-extractor", "warn");
        assert(pairs_view(rules@) =~= after_server + native_starter());
    } else {
        assert(pairs_view(rules@) =~= after_server + Seq::empty());
    }
    rules
}

/// Framework labels reported by `flint init`: Next.js shadows plain React.
pub open spec fn frameworks(project: ProjectInfo) -> Seq<Seq<char>> {
    (if project.has_next {
        seq!["nextjs"@]
    } else if project.has_react {
        seq!["react"@]
    } else {
        Seq::empty()
    }) + (if project.server() {
        seq!["server"@]
    } else {
        Seq::empty()
    }) + (if project.has_react_native {
        seq!["react-native"@]
    } else {
        Seq::empty()
    }) + (if project.has_expo {
        seq!["expo"@]
    } else {
        Seq::empty()
    })
}

/// Framework labels of a project, in report order.
pub fn detected_frameworks(project: &ProjectInfo) -> (r: Vec<&'static str>)
    ensures
        r@.map_values(|s: &str| s@) == frameworks(*project),
{
    let mut frameworks: Vec<&'static str> = Vec::new();
    if project.has_next {
        frameworks.push("nextjs");
    } else if project.has_react {
        frameworks.push("react");
    }
    let ghost a = frameworks@.map_values(|s: &str| s@);
    if project.has_server_framework() {
        frameworks.push("server");
    }
    let ghost b = frameworks@.map_values(|s: &str| s@);
    if project.has_react_native {
        frameworks.push("react-native");
    }
    let ghost c = frameworks@.map_values(|s: &str| s@);
    if project.has_expo {
        frameworks.push("expo");
    }
    assert(frameworks@.map_values(|s: &str| s@) =~= crate::config::frameworks(*project));
    frameworks
}

} // verus!
