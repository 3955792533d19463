//! React rules that read import sources, class names, inline styles and
//! `<script>` tags.
use vstd::prelude::*;

use crate::ast::{Ast, Value};
use crate::engine::{gated, opt_diag, reports, scan_nodes, views, DiagView, LintContext};
use crate::estree::{opt_seq, string_like, string_like_exec, string_value, string_value_exec, unparen, unparen_exec};
use crate::lint::{LintDiagnostic, Severity};
use crate::project::ProjectInfo;
use crate::rules::react::helpers::{
    attr_expression, attr_expression_exec, attr_is, attr_is_exec, import_source, import_source_exec,
    opening_name, opening_name_exec,
};
use crate::text::{chars_of, contains, contains_str, ends_with, ends_with_str, eq_str};

verus! {

// ── Import sources ─────────────────────────────────────────

/// Which import sources each import rule flags.
#[derive(Debug, Clone, Copy, PartialEq, Eq, Structural)]
pub enum ImportCheck {
    /// A barrel `index` module.
    Barrel,
    /// The whole `lodash` package.
    FullLodash,
    /// `moment`.
    Moment,
    /// A heavy client-side package better loaded on demand.
    Heavy,
}

/// The import sources the `Heavy` check flags.
pub open spec fn heavy_imports() -> Seq<Seq<char>> {
    seq!["framer-motion"@, "lodash"@, "moment"@, "chart.js"@, "monaco-editor"@, "three"@, "d3"@]
}

impl ImportCheck {
    pub open spec fn flags(self, source: Seq<char>) -> bool {
        match self {
            ImportCheck::Barrel => {
                ||| ends_with(source, "/index"@)
                ||| ends_with(source, "/index.ts"@)
                ||| ends_with(source, "/index.tsx"@)
                ||| ends_with(source, "/index.js"@)
                ||| ends_with(source, "/index.jsx"@)
            },
            ImportCheck::FullLodash => source == "lodash"@,
            ImportCheck::Moment => source == "moment"@,
            ImportCheck::Heavy => heavy_imports().contains(source),
        }
    }

    pub open spec fn rule(self) -> Seq<char> {
        match self {
            ImportCheck::Barrel => "react/no-barrel-import"@,
            ImportCheck::FullLodash => "react/no-full-lodash"@,
            ImportCheck::Moment => "react/no-moment"@,
            ImportCheck::Heavy => "react/prefer-dynamic-import"@,
        }
    }

    pub open spec fn message(self) -> Seq<char> {
        match self {
            ImportCheck::Barrel => "Import from the concrete module instead of a barrel `index` file"@,
            ImportCheck::FullLodash => "Avoid importing the full `lodash` package"@,
            ImportCheck::Moment => "Avoid `moment`; prefer smaller modern date utilities"@,
            ImportCheck::Heavy => "Consider dynamically importing heavy client-side dependencies"@,
        }
    }

    /// The rule's name.
    pub fn name(&self) -> (r: &'static str)
        ensures
            r@ == self.rule(),
    {
        match self {
            ImportCheck::Barrel => "react/no-barrel-import",
            ImportCheck::FullLodash => "react/no-full-lodash",
            ImportCheck::Moment => "react/no-moment",
            ImportCheck::Heavy => "react/prefer-dynamic-import",
        }
    }

    fn message_exec(&self) -> (r: &'static str)
        ensures
            r@ == self.message(),
    {
        match self {
            ImportCheck::Barrel => "Import from the concrete module instead of a barrel `index` file",
            ImportCheck::FullLodash => "Avoid importing the full `lodash` package",
            ImportCheck::Moment => "Avoid `moment`; prefer smaller modern date utilities",
            ImportCheck::Heavy => "Consider dynamically importing heavy client-side dependencies",
        }
    }

    fn flags_exec(&self, source: &Vec<char>) -> (b: bool)
        ensures
            b == self.flags(source@),
    {
        match self {
            ImportCheck::Barrel => ends_with_str(source, "/index") || ends_with_str(source, "/index.ts")
                || ends_with_str(source, "/index.tsx") || ends_with_str(source, "/index.js") || ends_with_str(
                source,
                "/index.jsx",
            ),
            ImportCheck::FullLodash => eq_str(source, "lodash"),
            ImportCheck::Moment => eq_str(source, "moment"),
            ImportCheck::Heavy => {
                let heavy = ["framer-motion", "lodash", "moment", "chart.js", "monaco-editor", "three", "d3"];
                let r = crate::rules::react::helpers::one_of(source, &heavy);
                assert(heavy@.map_values(|n: &str| n@) =~= heavy_imports());
                r
            },
        }
    }

    /// What the check reports at node `i`.
    pub open spec fn report(self, cx: &LintContext, i: int) -> Option<DiagView> {
        match import_source(cx.ast, i) {
            Some(s) => if self.flags(s) {
                Some(cx.at_node(self.rule(), self.message(), i, Severity::Warning))
            } else {
                None
            },
            None => None,
        }
    }

    pub open spec fn reports_fn(self, cx: &LintContext) -> spec_fn(int) -> Option<DiagView> {
        |i: int| self.report(cx, i)
    }

    /// In a React project, one warning per import whose source the check flags.
    pub fn run(&self, cx: &LintContext, project: &ProjectInfo) -> (r: Vec<LintDiagnostic>)
        requires
            cx.wf(),
        ensures
            views(r@) == gated(project.has_react, reports(cx.ast.nodes@.len() as int, self.reports_fn(cx))),
    {
        if !project.has_react {
            return Vec::new();
        }
        let check = |i: usize| -> (d: Option<LintDiagnostic>)
            requires
                cx.wf(),
                i < cx.ast.nodes@.len(),
            ensures
                opt_diag(d) == self.report(cx, i as int),
        {
            match import_source_exec(&cx.ast, i) {
                Some(s) => if self.flags_exec(&s) {
                    Some(cx.node_diagnostic(self.name(), &chars_of(self.message_exec()), i, Severity::Warning))
                } else {
                    None
                },
                None => None,
            }
        };
        scan_nodes(cx, check, Ghost(self.reports_fn(cx)))
    }
}

// ── Class names and inline styles ──────────────────────────

/// The static name of object property key `k` (`computed` tells whether it
/// was written in brackets).
pub open spec fn key_name(ast: Ast, k: int, computed: bool) -> Option<Seq<char>> {
    if ast.is(k, "Identifier"@) && !computed {
        ast.text(k, "name"@)
    } else if ast.is(k, "Literal"@) {
        match ast.scalar(k, "value"@) {
            Some(Value::Str(s)) => Some(s@),
            Some(Value::Num(n)) => Some(n@),
            Some(Value::Null) => if ast.scalar(k, "regex"@) is None && ast.scalar(k, "bigint"@) is None {
                Some("null"@)
            } else {
                None
            },
            _ => None,
        }
    } else if ast.is(k, "TemplateLiteral"@) {
        string_like(ast, k)
    } else {
        None
    }
}

/// `key_name` in code.
pub fn key_name_exec(ast: &Ast, k: usize, computed: bool) -> (r: Option<Vec<char>>)
    requires
        ast.wf(),
        k < ast.nodes@.len(),
    ensures
        opt_seq(r) == key_name(*ast, k as int, computed),
{
    if ast.is_kind(k, "Identifier") && !computed {
        match ast.text_of(k, "name") {
            Some(t) => Some(t.clone()),
            None => None,
        }
    } else if ast.is_kind(k, "Literal") {
        match ast.scalar_of(k, "value") {
            Some(Value::Str(s)) => Some(s.clone()),
            Some(Value::Num(n)) => Some(n.clone()),
            Some(Value::Null) => if ast.scalar_of(k, "regex").is_none() && ast.scalar_of(k, "bigint").is_none() {
                let r = chars_of("null");
                Some(r)
            } else {
                None
            },
            _ => None,
        }
    } else if ast.is_kind(k, "TemplateLiteral") {
        string_like_exec(ast, k)
    } else {
        None
    }
}

/// What style property `p` contributes: nothing (`Some(None)`), a
/// `key:value` text, or a failure (`None`) when a named property's value
/// is not a string.
pub open spec fn style_step(ast: Ast, p: int) -> Option<Option<Seq<char>>> {
    if !ast.is(p, "Property"@) {
        Some(None)
    } else {
        match ast.child(p, "key"@) {
            None => Some(None),
            Some(k) => match key_name(ast, k, ast.flag(p, "computed"@)) {
                None => Some(None),
                Some(name) => match ast.child(p, "value"@) {
                    None => None,
                    Some(v) => match string_like(ast, unparen(ast, v)) {
                        None => None,
                        Some(text) => Some(Some(name + ":"@ + text)),
                    },
                },
            },
        }
    }
}

/// The `key:value` texts of the first `n` properties of a style object;
/// `None` once a named property's value is not a string.
pub open spec fn style_parts(ast: Ast, props: Seq<usize>, n: int) -> Option<Seq<Seq<char>>>
    decreases n,
{
    if n <= 0 {
        Some(Seq::empty())
    } else {
        match style_parts(ast, props, n - 1) {
            None => None,
            Some(parts) => match style_step(ast, props[n - 1] as int) {
                None => None,
                Some(None) => Some(parts),
                Some(Some(part)) => Some(parts.push(part)),
            },
        }
    }
}

/// A failure among the first `n` properties is a failure among the first `m >= n`.
proof fn lemma_style_failure_stays(ast: Ast, props: Seq<usize>, n: int, m: int)
    requires
        0 <= n <= m,
        style_parts(ast, props, n) is None,
    ensures
        style_parts(ast, props, m) is None,
    decreases m - n,
{
    if n < m {
        lemma_style_failure_stays(ast, props, n, m - 1);
    }
}

fn style_step_exec(ast: &Ast, p: usize) -> (r: Option<Option<Vec<char>>>)
    requires
        ast.wf(),
        p < ast.nodes@.len(),
    ensures
        match r {
            None => style_step(*ast, p as int) is None,
            Some(None) => style_step(*ast, p as int) == Some(None::<Seq<char>>),
            Some(Some(v)) => style_step(*ast, p as int) == Some(Some(v@)),
        },
{
    if !ast.is_kind(p, "Property") {
        return Some(None);
    }
    match ast.child_of(p, "key") {
        None => Some(None),
        Some(k) => match key_name_exec(ast, k, ast.flag_of(p, "computed")) {
            None => Some(None),
            Some(name) => match ast.child_of(p, "value") {
                None => None,
                Some(v) => match string_like_exec(ast, unparen_exec(ast, v)) {
                    None => None,
                    Some(text) => {
                        let mut part = name.clone();
                        part.push(':');
                        part.append(&mut text.clone());
                        proof {
                            reveal_strlit(":");
                            assert(part@ =~= name@ + ":"@ + text@);
                        }
                        Some(Some(part))
                    },
                },
            },
        },
    }
}

/// `parts` joined with `;`.
pub open spec fn join_semicolons(parts: Seq<Seq<char>>) -> Seq<char>
    decreases parts.len(),
{
    if parts.len() == 0 {
        Seq::empty()
    } else if parts.len() == 1 {
        parts[0]
    } else {
        join_semicolons(parts.drop_last()) + ";"@ + parts.last()
    }
}

/// The style text of attribute `a`: the static string of `className` or
/// `class`, or the `key:value;...` of a `style` object of strings.
pub open spec fn style_value(ast: Ast, a: int) -> Option<Seq<char>> {
    if attr_is(ast, a, "className"@) || attr_is(ast, a, "class"@) {
        match ast.child(a, "value"@) {
            Some(v) => if ast.is(v, "Literal"@) {
                string_value(ast, v)
            } else {
                match attr_expression(ast, a) {
                    Some(e) => string_like(ast, unparen(ast, e)),
                    None => None,
                }
            },
            None => None,
        }
    } else if attr_is(ast, a, "style"@) {
        match attr_expression(ast, a) {
            Some(e) => {
                let o = unparen(ast, e);
                if ast.is(o, "ObjectExpression"@) {
                    let props = ast.field_children(o, "properties"@);
                    match style_parts(ast, props, props.len() as int) {
                        Some(parts) => if parts.len() > 0 {
                            Some(join_semicolons(parts))
                        } else {
                            None
                        },
                        None => None,
                    }
                } else {
                    None
                }
            },
            None => None,
        }
    } else {
        None
    }
}

fn style_parts_exec(ast: &Ast, props: &Vec<usize>) -> (r: Option<Vec<Vec<char>>>)
    requires
        ast.wf(),
        forall|k: int| 0 <= k < props@.len() ==> #[trigger] props@[k] < ast.nodes@.len(),
    ensures
        match r {
            Some(parts) => style_parts(*ast, props@, props@.len() as int) == Some(
                parts@.map_values(|v: Vec<char>| v@),
            ),
            None => style_parts(*ast, props@, props@.len() as int) is None,
        },
{
    let mut parts: Vec<Vec<char>> = Vec::new();
    let mut n: usize = 0;
    while n < props.len()
        invariant
            ast.wf(),
            n <= props@.len(),
            forall|k: int| 0 <= k < props@.len() ==> #[trigger] props@[k] < ast.nodes@.len(),
            style_parts(*ast, props@, n as int) == Some(parts@.map_values(|v: Vec<char>| v@)),
        decreases props@.len() - n,
    {
        match style_step_exec(ast, props[n]) {
            None => {
                proof {
                    lemma_style_failure_stays(*ast, props@, n + 1, props@.len() as int);
                }
                return None;
            },
            Some(None) => {},
            Some(Some(part)) => {
                let ghost before = parts@;
                let ghost pv = part@;
                parts.push(part);
                assert(parts@.map_values(|v: Vec<char>| v@) =~= before.map_values(|v: Vec<char>| v@).push(pv));
            },
        }
        n = n + 1;
    }
    Some(parts)
}

fn join_semicolons_exec(parts: &Vec<Vec<char>>) -> (r: Vec<char>)
    ensures
        r@ == join_semicolons(parts@.map_values(|v: Vec<char>| v@)),
{
    let ghost all = parts@.map_values(|v: Vec<char>| v@);
    let mut out: Vec<char> = Vec::new();
    let mut k: usize = 0;
    while k < parts.len()
        invariant
            k <= parts@.len(),
            all == parts@.map_values(|v: Vec<char>| v@),
            out@ == join_semicolons(all.take(k as int)),
        decreases parts@.len() - k,
    {
        let ghost before = out@;
        if k > 0 {
            out.push(';');
        }
        out.append(&mut parts[k].clone());
        proof {
            reveal_strlit(";");
            assert(all.take(k + 1).drop_last() =~= all.take(k as int));
            if k > 0 {
                assert(out@ =~= before + ";"@ + all[k as int]);
            } else {
                assert(all.take(1).len() == 1);
                assert(out@ =~= all.take(1)[0]);
            }
        }
        k = k + 1;
    }
    assert(all.take(k as int) =~= all);
    out
}

/// `style_value` in code.
pub fn style_value_exec(ast: &Ast, a: usize) -> (r: Option<Vec<char>>)
    requires
        ast.wf(),
        a < ast.nodes@.len(),
    ensures
        opt_seq(r) == style_value(*ast, a as int),
{
    if attr_is_exec(ast, a, "className") || attr_is_exec(ast, a, "class") {
        match ast.child_of(a, "value") {
            Some(v) => if ast.is_kind(v, "Literal") {
                string_value_exec(ast, v)
            } else {
                match attr_expression_exec(ast, a) {
                    Some(e) => string_like_exec(ast, unparen_exec(ast, e)),
                    None => None,
                }
            },
            None => None,
        }
    } else if attr_is_exec(ast, a, "style") {
        match attr_expression_exec(ast, a) {
            Some(e) => {
                let o = unparen_exec(ast, e);
                if ast.is_kind(o, "ObjectExpression") {
                    let props = ast.children_in(o, "properties");
                    match style_parts_exec(ast, &props) {
                        Some(parts) => if parts.len() > 0 {
                            Some(join_semicolons_exec(&parts))
                        } else {
                            None
                        },
                        None => None,
                    }
                } else {
                    None
                }
            },
            None => None,
        }
    } else {
        None
    }
}

/// Which style texts each style rule flags.
#[derive(Debug, Clone, Copy, PartialEq, Eq, Structural)]
pub enum StyleCheck {
    TransitionAll,
    WillChange,
    BlurFilter,
    HeavyShadow,
}

impl StyleCheck {
    pub open spec fn flags(self, v: Seq<char>) -> bool {
        match self {
            StyleCheck::TransitionAll => contains(v, "transition-all"@) || contains(v, "transition: all"@),
            StyleCheck::WillChange => contains(v, "will-change"@) || contains(v, "willChange"@),
            StyleCheck::BlurFilter => contains(v, "blur("@) || contains(v, "blur-"@) || contains(v, "backdrop-blur"@),
            StyleCheck::HeavyShadow => {
                ||| contains(v, "shadow-2xl"@)
                ||| contains(v, "shadow-["@)
                ||| contains(v, "box-shadow"@)
                ||| contains(v, "boxShadow"@)
            },
        }
    }

    pub open spec fn rule(self) -> Seq<char> {
        match self {
            StyleCheck::TransitionAll => "react/no-transition-all"@,
            StyleCheck::WillChange => "react/no-will-change"@,
            StyleCheck::BlurFilter => "react/no-blur-filter"@,
            StyleCheck::HeavyShadow => "react/no-heavy-shadow"@,
        }
    }

    pub open spec fn message(self) -> Seq<char> {
        match self {
            StyleCheck::TransitionAll => "Avoid `transition-all`; transition only the properties you need"@,
            StyleCheck::WillChange => "Avoid broad `will-change` hints that keep the browser in a promoted state"@,
            StyleCheck::BlurFilter => "Avoid expensive blur and backdrop-blur effects on interactive UI paths"@,
            StyleCheck::HeavyShadow => "Avoid large shadow effects on frequently updated UI"@,
        }
    }

    /// The rule's name.
    pub fn name(&self) -> (r: &'static str)
        ensures
            r@ == self.rule(),
    {
        match self {
            StyleCheck::TransitionAll => "react/no-transition-all",
            StyleCheck::WillChange => "react/no-will-change",
            StyleCheck::BlurFilter => "react/no-blur-filter",
            StyleCheck::HeavyShadow => "react/no-heavy-shadow",
        }
    }

    fn message_exec(&self) -> (r: &'static str)
        ensures
            r@ == self.message(),
    {
        match self {
            StyleCheck::TransitionAll => "Avoid `transition-all`; transition only the properties you need",
            StyleCheck::WillChange => "Avoid broad `will-change` hints that keep the browser in a promoted state",
            StyleCheck::BlurFilter => "Avoid expensive blur and backdrop-blur effects on interactive UI paths",
            StyleCheck::HeavyShadow => "Avoid large shadow effects on frequently updated UI",
        }
    }

    fn flags_exec(&self, v: &Vec<char>) -> (b: bool)
        ensures
            b == self.flags(v@),
    {
        match self {
            StyleCheck::TransitionAll => contains_str(v, "transition-all") || contains_str(v, "transition: all"),
            StyleCheck::WillChange => contains_str(v, "will-change") || contains_str(v, "willChange"),
            StyleCheck::BlurFilter => contains_str(v, "blur(") || contains_str(v, "blur-") || contains_str(
                v,
                "backdrop-blur",
            ),
            StyleCheck::HeavyShadow => contains_str(v, "shadow-2xl") || contains_str(v, "shadow-[")
                || contains_str(v, "box-shadow") || contains_str(v, "boxShadow"),
        }
    }

    /// What the check reports at node `i`.
    pub open spec fn report(self, cx: &LintContext, i: int) -> Option<DiagView> {
        if cx.ast.is(i, "JSXAttribute"@) {
            match style_value(cx.ast, i) {
                Some(v) => if self.flags(v) {
                    Some(cx.at_node(self.rule(), self.message(), i, Severity::Warning))
                } else {
                    None
                },
                None => None,
            }
        } else {
            None
        }
    }

    pub open spec fn reports_fn(self, cx: &LintContext) -> spec_fn(int) -> Option<DiagView> {
        |i: int| self.report(cx, i)
    }

    /// In a React project, one warning per JSX attribute whose style text the check flags.
    pub fn run(&self, cx: &LintContext, project: &ProjectInfo) -> (r: Vec<LintDiagnostic>)
        requires
            cx.wf(),
        ensures
            views(r@) == gated(project.has_react, reports(cx.ast.nodes@.len() as int, self.reports_fn(cx))),
    {
        if !project.has_react {
            return Vec::new();
        }
        let check = |i: usize| -> (d: Option<LintDiagnostic>)
            requires
                cx.wf(),
                i < cx.ast.nodes@.len(),
            ensures
                opt_diag(d) == self.report(cx, i as int),
        {
            if !cx.ast.is_kind(i, "JSXAttribute") {
                return None;
            }
            match style_value_exec(&cx.ast, i) {
                Some(v) => if self.flags_exec(&v) {
                    Some(cx.node_diagnostic(self.name(), &chars_of(self.message_exec()), i, Severity::Warning))
                } else {
                    None
                },
                None => None,
            }
        };
        scan_nodes(cx, check, Ghost(self.reports_fn(cx)))
    }
}

} // verus!
