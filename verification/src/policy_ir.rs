//! The compiled form of config-driven policy rules, and the path scoping
//! that decides which files a policy rule applies to.
use vstd::prelude::*;

use crate::lint::Severity;
use crate::text::{
    chars_of, concat_chars, eq_chars, eq_str, find_last, last_index, lower, lower_chars,
    replace_char, replace_char_exec, subrange_of, trim_start_char, trim_start_char_exec,
};

verus! {

/// One policy rule after compilation from the config.
#[derive(Debug, Clone)]
pub struct CompiledPolicyRule {
    pub id: String,
    pub source_text: String,
    pub severity: Severity,
    pub message: String,
    pub rule: RuleIR,
}

/// The category-tagged body of a policy rule.
#[derive(Debug, Clone)]
pub enum RuleIR {
    Ast(AstRule),
    Import(ImportRule),
    Naming(NamingRule),
    File(FileRule),
    Comment(CommentRule),
    Semantic(SemanticRule),
}

/// Which files a policy rule applies to.
#[derive(Debug, Clone)]
pub struct RuleScope {
    pub include_paths: Vec<String>,
    pub exclude_paths: Vec<String>,
    pub extensions: Vec<String>,
}

#[derive(Debug, Clone)]
pub enum AstRule {
    MaxFunctionParams { scope: RuleScope, max: usize },
    ForbiddenSyntax { scope: RuleScope, syntax: ForbiddenSyntaxKind },
}

#[derive(Debug, Clone, Copy, PartialEq, Eq, Structural)]
pub enum ForbiddenSyntaxKind {
    TryCatch,
    Switch,
    DefaultExport,
    NestedTernary,
    Debugger,
}

#[derive(Debug, Clone)]
pub enum ImportRule {
    BannedModulePattern { scope: RuleScope, pattern: String, match_kind: StringMatchKind },
    NoSideEffectImport { scope: RuleScope },
}

#[derive(Debug, Clone, Copy, PartialEq, Eq, Structural)]
pub enum StringMatchKind {
    Exact,
    Prefix,
    Suffix,
    Contains,
    Glob,
}

#[derive(Debug, Clone)]
pub enum NamingRule {
    Affix { scope: RuleScope, selector: NameSelector, affix: String, match_kind: AffixMatchKind },
    Case { scope: RuleScope, selector: NameSelector, style: CaseStyle },
}

#[derive(Debug, Clone, Copy, PartialEq, Eq, Structural)]
pub enum NameSelector {
    Function,
    Variable,
    Class,
}

#[derive(Debug, Clone, Copy, PartialEq, Eq, Structural)]
pub enum AffixMatchKind {
    Prefix,
    Suffix,
}

#[derive(Debug, Clone, Copy, PartialEq, Eq, Structural)]
pub enum CaseStyle {
    CamelCase,
    PascalCase,
    SnakeCase,
    KebabCase,
    UpperSnakeCase,
}

#[derive(Debug, Clone)]
pub enum FileRule {
    MaxLines { scope: RuleScope, max: usize },
    PathPattern { scope: RuleScope, pattern: String, expectation: PathPatternExpectation },
}

#[derive(Debug, Clone, Copy, PartialEq, Eq, Structural)]
pub enum PathPatternExpectation {
    MustMatch,
    MustNotMatch,
}

#[derive(Debug, Clone)]
pub enum CommentRule {
    NoComments { scope: RuleScope },
    ForbidPattern { scope: RuleScope, pattern: String },
}

#[derive(Debug, Clone)]
pub enum SemanticRule {
    BannedUsage { scope: RuleScope, target: String, require_call: bool, require_unshadowed_root: bool },
    NoUnusedBindings { scope: RuleScope },
}

// ── Slugs and scopes ───────────────────────────────────────

impl AstRule {
    pub open spec fn slug(self) -> Seq<char> {
        match self {
            AstRule::MaxFunctionParams { .. } => "ast/max-function-params"@,
            AstRule::ForbiddenSyntax { .. } => "ast/forbidden-syntax"@,
        }
    }

    pub open spec fn scope_of(self) -> RuleScope {
        match self {
            AstRule::MaxFunctionParams { scope, .. } => scope,
            AstRule::ForbiddenSyntax { scope, .. } => scope,
        }
    }

    pub fn kind_slug(&self) -> (r: &'static str)
        ensures
            r@ == self.slug(),
    {
        match self {
            AstRule::MaxFunctionParams { .. } => "ast/max-function-params",
            AstRule::ForbiddenSyntax { .. } => "ast/forbidden-syntax",
        }
    }

    pub fn scope(&self) -> (r: &RuleScope)
        ensures
            *r == self.scope_of(),
    {
        match self {
            AstRule::MaxFunctionParams { scope, .. } => scope,
            AstRule::ForbiddenSyntax { scope, .. } => scope,
        }
    }
}

impl ImportRule {
    pub open spec fn slug(self) -> Seq<char> {
        match self {
            ImportRule::BannedModulePattern { .. } => "import/banned-module-pattern"@,
            ImportRule::NoSideEffectImport { .. } => "import/no-side-effect-import"@,
        }
    }

    pub open spec fn scope_of(self) -> RuleScope {
        match self {
            ImportRule::BannedModulePattern { scope, .. } => scope,
            ImportRule::NoSideEffectImport { scope } => scope,
        }
    }

    pub fn kind_slug(&self) -> (r: &'static str)
        ensures
            r@ == self.slug(),
    {
        match self {
            ImportRule::BannedModulePattern { .. } => "import/banned-module-pattern",
            ImportRule::NoSideEffectImport { .. } => "import/no-side-effect-import",
        }
    }

    pub fn scope(&self) -> (r: &RuleScope)
        ensures
            *r == self.scope_of(),
    {
        match self {
            ImportRule::BannedModulePattern { scope, .. } => scope,
            ImportRule::NoSideEffectImport { scope } => scope,
        }
    }
}

impl NamingRule {
    pub open spec fn slug(self) -> Seq<char> {
        match self {
            NamingRule::Affix { .. } => "naming/affix"@,
            NamingRule::Case { .. } => "naming/case"@,
        }
    }

    pub open spec fn scope_of(self) -> RuleScope {
        match self {
            NamingRule::Affix { scope, .. } => scope,
            NamingRule::Case { scope, .. } => scope,
        }
    }

    pub fn kind_slug(&self) -> (r: &'static str)
        ensures
            r@ == self.slug(),
    {
        match self {
            NamingRule::Affix { .. } => "naming/affix",
            NamingRule::Case { .. } => "naming/case",
        }
    }

    pub fn scope(&self) -> (r: &RuleScope)
        ensures
            *r == self.scope_of(),
    {
        match self {
            NamingRule::Affix { scope, .. } => scope,
            NamingRule::Case { scope, .. } => scope,
        }
    }
}

impl FileRule {
    pub open spec fn slug(self) -> Seq<char> {
        match self {
            FileRule::MaxLines { .. } => "file/max-lines"@,
            FileRule::PathPattern { .. } => "file/path-pattern"@,
        }
    }

    pub open spec fn scope_of(self) -> RuleScope {
        match self {
            FileRule::MaxLines { scope, .. } => scope,
            FileRule::PathPattern { scope, .. } => scope,
        }
    }

    pub fn kind_slug(&self) -> (r: &'static str)
        ensures
            r@ == self.slug(),
    {
        match self {
            FileRule::MaxLines { .. } => "file/max-lines",
            FileRule::PathPattern { .. } => "file/path-pattern",
        }
    }

    pub fn scope(&self) -> (r: &RuleScope)
        ensures
            *r == self.scope_of(),
    {
        match self {
            FileRule::MaxLines { scope, .. } => scope,
            FileRule::PathPattern { scope, .. } => scope,
        }
    }
}

impl CommentRule {
    pub open spec fn slug(self) -> Seq<char> {
        match self {
            CommentRule::NoComments { .. } => "comment/no-comments"@,
            CommentRule::ForbidPattern { .. } => "comment/forbid-pattern"@,
        }
    }

    pub open spec fn scope_of(self) -> RuleScope {
        match self {
            CommentRule::NoComments { scope } => scope,
            CommentRule::ForbidPattern { scope, .. } => scope,
        }
    }

    pub fn kind_slug(&self) -> (r: &'static str)
        ensures
            r@ == self.slug(),
    {
        match self {
            CommentRule::NoComments { .. } => "comment/no-comments",
            CommentRule::ForbidPattern { .. } => "comment/forbid-pattern",
        }
    }

    pub fn scope(&self) -> (r: &RuleScope)
        ensures
            *r == self.scope_of(),
    {
        match self {
            CommentRule::NoComments { scope } => scope,
            CommentRule::ForbidPattern { scope, .. } => scope,
        }
    }
}

impl SemanticRule {
    pub open spec fn slug(self) -> Seq<char> {
        match self {
            SemanticRule::BannedUsage { .. } => "semantic/banned-usage"@,
            SemanticRule::NoUnusedBindings { .. } => "semantic/no-unused-bindings"@,
        }
    }

    pub open spec fn scope_of(self) -> RuleScope {
        match self {
            SemanticRule::BannedUsage { scope, .. } => scope,
            SemanticRule::NoUnusedBindings { scope } => scope,
        }
    }

    pub fn kind_slug(&self) -> (r: &'static str)
        ensures
            r@ == self.slug(),
    {
        match self {
            SemanticRule::BannedUsage { .. } => "semantic/banned-usage",
            SemanticRule::NoUnusedBindings { .. } => "semantic/no-unused-bindings",
        }
    }

    pub fn scope(&self) -> (r: &RuleScope)
        ensures
            *r == self.scope_of(),
    {
        match self {
            SemanticRule::BannedUsage { scope, .. } => scope,
            SemanticRule::NoUnusedBindings { scope } => scope,
        }
    }
}

impl RuleIR {
    pub open spec fn slug(self) -> Seq<char> {
        match self {
            RuleIR::Ast(rule) => rule.slug(),
            RuleIR::Import(rule) => rule.slug(),
            RuleIR::Naming(rule) => rule.slug(),
            RuleIR::File(rule) => rule.slug(),
            RuleIR::Comment(rule) => rule.slug(),
            RuleIR::Semantic(rule) => rule.slug(),
        }
    }

    pub open spec fn scope_of(self) -> RuleScope {
        match self {
            RuleIR::Ast(rule) => rule.scope_of(),
            RuleIR::Import(rule) => rule.scope_of(),
            RuleIR::Naming(rule) => rule.scope_of(),
            RuleIR::File(rule) => rule.scope_of(),
            RuleIR::Comment(rule) => rule.scope_of(),
            RuleIR::Semantic(rule) => rule.scope_of(),
        }
    }

    /// The `category/kind` slug of the rule.
    pub fn kind_slug(&self) -> (r: &'static str)
        ensures
            r@ == self.slug(),
    {
        match self {
            RuleIR::Ast(rule) => rule.kind_slug(),
            RuleIR::Import(rule) => rule.kind_slug(),
            RuleIR::Naming(rule) => rule.kind_slug(),
            RuleIR::File(rule) => rule.kind_slug(),
            RuleIR::Comment(rule) => rule.kind_slug(),
            RuleIR::Semantic(rule) => rule.kind_slug(),
        }
    }

    /// The file scope of the rule.
    pub fn scope(&self) -> (r: &RuleScope)
        ensures
            *r == self.scope_of(),
    {
        match self {
            RuleIR::Ast(rule) => rule.scope(),
            RuleIR::Import(rule) => rule.scope(),
            RuleIR::Naming(rule) => rule.scope(),
            RuleIR::File(rule) => rule.scope(),
            RuleIR::Comment(rule) => rule.scope(),
            RuleIR::Semantic(rule) => rule.scope(),
        }
    }
}

// ── Glob matching ──────────────────────────────────────────

/// Whether `v[j..]` matches the glob `p[i..]`, where `*` matches any run of
/// characters (slashes included) and `?` exactly one character.
pub open spec fn glob_at(p: Seq<char>, v: Seq<char>, i: int, j: int) -> bool
    recommends
        0 <= i <= p.len(),
        0 <= j <= v.len(),
    decreases p.len() - i, v.len() - j,
{
    if i < 0 || j < 0 || i > p.len() || j > v.len() {
        false
    } else if i == p.len() {
        j == v.len()
    } else if p[i] == '*' {
        glob_at(p, v, i + 1, j) || (j < v.len() && glob_at(p, v, i, j + 1))
    } else if p[i] == '?' {
        j < v.len() && glob_at(p, v, i + 1, j + 1)
    } else {
        j < v.len() && p[i] == v[j] && glob_at(p, v, i + 1, j + 1)
    }
}

/// Whether the whole of `v` matches the glob `p`.
pub open spec fn glob(p: Seq<char>, v: Seq<char>) -> bool {
    glob_at(p, v, 0, 0)
}

/// Glob matching by dynamic programming over suffixes of the pattern.
pub fn glob_match(pattern: &Vec<char>, value: &Vec<char>) -> (b: bool)
    requires
        value.len() < usize::MAX,
    ensures
        b == glob(pattern@, value@),
{
    let m = pattern.len();
    let n = value.len();
    // next[j] == glob_at(p, v, i + 1, j) for the row below the current one
    let mut next: Vec<bool> = Vec::new();
    let mut j: usize = 0;
    while j <= n
        invariant
            n == value.len(),
            n < usize::MAX,
            m == pattern.len(),
            j <= n + 1,
            next@.len() == j,
            forall|k: int| 0 <= k < j ==> next@[k] == glob_at(pattern@, value@, m as int, k),
        decreases n + 1 - j,
    {
        next.push(j == n);
        j = j + 1;
    }
    let mut i: usize = m;
    while i > 0
        invariant
            n == value.len(),
            n < usize::MAX,
            m == pattern.len(),
            i <= m,
            next@.len() == n + 1,
            forall|k: int| 0 <= k <= n ==> next@[k] == glob_at(pattern@, value@, i as int, k),
        decreases i,
    {
        let pi = i - 1;
        let c = pattern[pi];
        let mut cur: Vec<bool> = Vec::new();
        let mut jj: usize = 0;
        while jj <= n
            invariant
                n == value.len(),
                n < usize::MAX,
                m == pattern.len(),
                pi < m,
                c == pattern@[pi as int],
                jj <= n + 1,
                cur@.len() == jj,
                next@.len() == n + 1,
                forall|k: int| 0 <= k <= n ==> next@[k] == glob_at(pattern@, value@, pi + 1, k),
            decreases n + 1 - jj,
        {
            cur.push(false);
            jj = jj + 1;
        }
        let mut k: usize = n + 1;
        while k > 0
            invariant
                n == value.len(),
                n < usize::MAX,
                m == pattern.len(),
                pi < m,
                c == pattern@[pi as int],
                k <= n + 1,
                cur@.len() == n + 1,
                next@.len() == n + 1,
                forall|t: int| 0 <= t <= n ==> next@[t] == glob_at(pattern@, value@, pi + 1, t),
                forall|t: int| k <= t <= n ==> cur@[t] == glob_at(pattern@, value@, pi as int, t),
            decreases k,
        {
            let jv = k - 1;
            let val = if c == '*' {
                next[jv] || (jv < n && cur[jv + 1])
            } else if c == '?' {
                jv < n && next[jv + 1]
            } else {
                jv < n && c == value[jv] && next[jv + 1]
            };
            cur.set(jv, val);
            k = k - 1;
        }
        next = cur;
        i = i - 1;
    }
    next[0]
}

// ── Path scoping ───────────────────────────────────────────

/// The last normal component of a `/`-separated path, as `Path::file_name` gives it.
pub open spec fn file_name(p: Seq<char>) -> Option<Seq<char>>
    decreases p.len(),
{
    match last_index(p, '/') {
        None => {
            if p.len() == 0 || p == "."@ || p == ".."@ {
                None
            } else {
                Some(p)
            }
        },
        Some(k) => {
            let seg = p.subrange(k + 1, p.len() as int);
            if seg.len() == 0 || seg == "."@ {
                if 0 <= k < p.len() {
                    file_name(p.subrange(0, k))
                } else {
                    None
                }
            } else if seg == ".."@ {
                None
            } else {
                Some(seg)
            }
        },
    }
}

/// The extension of a file name, as `Path::extension` gives it.
pub open spec fn extension_of_name(f: Seq<char>) -> Option<Seq<char>> {
    match last_index(f, '.') {
        None => None,
        Some(i) => if i <= 0 {
            None
        } else {
            Some(f.subrange(i + 1, f.len() as int))
        },
    }
}

/// The extension of a path.
pub open spec fn path_extension(p: Seq<char>) -> Option<Seq<char>> {
    match file_name(p) {
        None => None,
        Some(f) => extension_of_name(f),
    }
}

/// A path with backslashes turned into forward slashes.
pub open spec fn normalize(p: Seq<char>) -> Seq<char> {
    replace_char(p, '\\', '/')
}

/// Whether one include/exclude pattern matches a normalized path: either as
/// written or anywhere below the root (`**/` prepended).
pub open spec fn pattern_matches(pattern: Seq<char>, path: Seq<char>) -> bool {
    let np = normalize(pattern);
    glob(np, path) || glob("**/"@ + trim_start_char(np, '/'), path)
}

/// Whether any of `patterns` matches `path`.
pub open spec fn any_pattern(patterns: Seq<String>, path: Seq<char>) -> bool {
    exists|i: int| 0 <= i < patterns.len() && pattern_matches(#[trigger] patterns[i]@, path)
}

/// Whether an extension filter entry accepts extension `e`
/// (a leading dot is optional, case is ignored).
pub open spec fn extension_accepts(candidate: Seq<char>, e: Seq<char>) -> bool {
    lower(trim_start_char(candidate, '.')) == lower(e)
}

impl RuleScope {
    /// Whether a file at `path` is covered by this scope.
    pub open spec fn covers(self, path: Seq<char>) -> bool {
        let np = normalize(path);
        &&& (self.include_paths@.len() == 0 || any_pattern(self.include_paths@, np))
        &&& !any_pattern(self.exclude_paths@, np)
        &&& (self.extensions@.len() == 0 || match path_extension(path) {
            None => false,
            Some(e) => exists|i: int|
                0 <= i < self.extensions@.len() && extension_accepts(
                    #[trigger] self.extensions@[i]@,
                    e,
                ),
        })
    }

    /// Whether this scope applies to the file at `file_path`.
    #[verifier::loop_isolation(false)]
    pub fn matches_path(&self, file_path: &str) -> (b: bool)
        requires
            file_path@.len() + 3 < usize::MAX,
        ensures
            b == self.covers(file_path@),
    {
        let path = chars_of(file_path);
        let np = normalize_path(&path);
        let includes_match = self.include_paths.len() == 0 || any_matches(&self.include_paths, &np);
        if !includes_match {
            return false;
        }
        if any_matches(&self.exclude_paths, &np) {
            return false;
        }
        if self.extensions.len() == 0 {
            return true;
        }
        match extension_exec(&path) {
            None => false,
            Some(e) => {
                let le = lower_chars(&e);
                let mut i: usize = 0;
                while i < self.extensions.len()
                    invariant
                        i <= self.extensions@.len(),
                        le@ == lower(e@),
                        path_extension(path@) == Some(e@),
                        forall|k: int|
                            0 <= k < i ==> !extension_accepts(#[trigger] self.extensions@[k]@, e@),
                    decreases self.extensions@.len() - i,
                {
                    let cand = chars_of(self.extensions[i].as_str());
                    let t = trim_start_char_exec(&cand, '.');
                    let lt = lower_chars(&t);
                    if eq_chars(&lt, &le) {
                        assert(extension_accepts(self.extensions@[i as int]@, e@));
                        return true;
                    }
                    i = i + 1;
                }
                false
            },
        }
    }
}

/// Backslashes turned into forward slashes.
pub fn normalize_path(path: &Vec<char>) -> (r: Vec<char>)
    ensures
        r@ == normalize(path@),
{
    replace_char_exec(path, '\\', '/')
}

/// Whether one pattern matches a normalized path.
pub fn path_pattern_matches(pattern: &str, normalized_path: &Vec<char>) -> (b: bool)
    requires
        normalized_path@.len() + 3 < usize::MAX,
    ensures
        b == pattern_matches(pattern@, normalized_path@),
{
    let p = chars_of(pattern);
    let np = normalize_path(&p);
    if glob_match(&np, normalized_path) {
        return true;
    }
    let trimmed = trim_start_char_exec(&np, '/');
    let prefix = chars_of("**/");
    let full = concat_chars(&prefix, &trimmed);
    glob_match(&full, normalized_path)
}

fn any_matches(patterns: &Vec<String>, path: &Vec<char>) -> (b: bool)
    requires
        path@.len() + 3 < usize::MAX,
    ensures
        b == any_pattern(patterns@, path@),
{
    let mut i: usize = 0;
    while i < patterns.len()
        invariant
            path@.len() + 3 < usize::MAX,
            i <= patterns@.len(),
            forall|k: int| 0 <= k < i ==> !pattern_matches(#[trigger] patterns@[k]@, path@),
        decreases patterns@.len() - i,
    {
        if path_pattern_matches(patterns[i].as_str(), path) {
            return true;
        }
        i = i + 1;
    }
    false
}

proof fn lemma_file_name_skip(q: Seq<char>, k: int)
    requires
        last_index(q, '/') == Some(k),
        0 <= k < q.len(),
        q.subrange(k + 1, q.len() as int).len() == 0 || q.subrange(k + 1, q.len() as int) == "."@,
    ensures
        file_name(q) == file_name(q.subrange(0, k)),
{
}

proof fn lemma_file_name_seg(q: Seq<char>, k: int)
    requires
        last_index(q, '/') == Some(k),
        0 <= k < q.len(),
        q.subrange(k + 1, q.len() as int).len() != 0,
        q.subrange(k + 1, q.len() as int) != "."@,
    ensures
        file_name(q) == (if q.subrange(k + 1, q.len() as int) == ".."@ {
            None
        } else {
            Some(q.subrange(k + 1, q.len() as int))
        }),
{
}

/// The last normal component of a path.
pub fn file_name_exec(p: &Vec<char>) -> (r: Option<Vec<char>>)
    ensures
        r matches Some(f) ==> file_name(p@) == Some(f@),
        r is None ==> file_name(p@) is None,
{
    let mut end: usize = p.len();
    assert(p@.subrange(0, end as int) =~= p@);
    loop
        invariant
            end <= p.len(),
            file_name(p@) == file_name(p@.subrange(0, end as int)),
        decreases end,
    {
        let cur = subrange_of(p, 0, end);
        match find_last(&cur, '/') {
            None => {
                if cur.len() == 0 || eq_str(&cur, ".") || eq_str(&cur, "..") {
                    return None;
                }
                return Some(cur);
            },
            Some(k) => {
                let seg = subrange_of(&cur, k + 1, cur.len());
                if seg.len() == 0 || eq_str(&seg, ".") {
                    proof {
                        lemma_file_name_skip(cur@, k as int);
                    }
                    assert(cur@.subrange(0, k as int) =~= p@.subrange(0, k as int));
                    end = k;
                } else {
                    proof {
                        lemma_file_name_seg(cur@, k as int);
                    }
                    if eq_str(&seg, "..") {
                        return None;
                    } else {
                        return Some(seg);
                    }
                }
            },
        }
    }
}

/// The extension of the file a path names.
pub fn extension_exec(p: &Vec<char>) -> (r: Option<Vec<char>>)
    ensures
        r matches Some(e) ==> path_extension(p@) == Some(e@),
        r is None ==> path_extension(p@) is None,
{
    match file_name_exec(p) {
        None => None,
        Some(f) => match find_last(&f, '.') {
            None => None,
            Some(i) => {
                assert(i < f@.len());
                if i == 0 {
                    None
                } else {
                    Some(subrange_of(&f, i + 1, f.len()))
                }
            },
        },
    }
}

} // verus!
