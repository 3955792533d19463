//! What kind of project is being linted, module-path aliases from
//! `tsconfig.json`/`jsconfig.json`, and the JSON-with-comments cleanup that
//! lets those configs be read as plain JSON.
use vstd::prelude::*;

use crate::cache::{hash_bytes, sha256_hex};
use crate::text::{
    lemma_lex_le_total, lemma_lex_le_trans, lex_le, lex_le_exec, trim, trim_chars, chars_of, ends_with, eq_chars, find_first, first_index, is_space, is_space_exec, owned,
    starts_with, starts_with_chars, string_of, subrange_of,
};

verus! {

/// `true` or `false`.
pub open spec fn bool_text(b: bool) -> Seq<char> {
    if b {
        "true"@
    } else {
        "false"@
    }
}

/// Each character of `t` taken as one byte.
pub open spec fn ascii_bytes(t: Seq<char>) -> Seq<u8> {
    t.map_values(|c: char| c as u8)
}

fn append_text(text: &mut Vec<char>, s: &str)
    ensures
        final(text)@ == old(text)@ + s@,
{
    let mut piece = chars_of(s);
    text.append(&mut piece);
}

fn append_flag(text: &mut Vec<char>, b: bool)
    ensures
        final(text)@ == old(text)@ + bool_text(b),
{
    if b {
        append_text(text, "true");
    } else {
        append_text(text, "false");
    }
}

fn char_bytes(t: &Vec<char>) -> (r: Vec<u8>)
    ensures
        r@ == ascii_bytes(t@),
{
    let mut out: Vec<u8> = Vec::new();
    let mut k: usize = 0;
    while k < t.len()
        invariant
            k <= t@.len(),
            out@ == ascii_bytes(t@.take(k as int)),
        decreases t@.len() - k,
    {
        out.push(t[k] as u8);
        assert(ascii_bytes(t@.take(k + 1)) =~= ascii_bytes(t@.take(k as int)).push(t@[k as int] as u8));
        k = k + 1;
    }
    assert(t@.take(t@.len() as int) =~= t@);
    out
}

/// Frameworks detected from a project's `package.json` dependencies.
#[derive(Debug, Clone, Copy, PartialEq, Eq, Structural)]
pub struct ProjectInfo {
    pub has_react: bool,
    pub has_next: bool,
    pub has_expo: bool,
    pub has_react_native: bool,
    pub has_express: bool,
    pub has_fastify: bool,
    pub has_hono: bool,
    pub has_koa: bool,
}

/// A `paths` entry of a TypeScript/JavaScript config.
#[derive(Debug, Clone)]
pub struct PathAlias {
    pub pattern: String,
    pub targets: Vec<String>,
}

/// How non-relative imports resolve in the nearest tsconfig/jsconfig.
#[derive(Debug, Clone)]
pub struct ModuleResolutionConfig {
    pub config_dir: String,
    pub base_url: Option<String>,
    pub paths: Vec<PathAlias>,
}

/// Whether `name` is among the dependency names.
pub open spec fn has_dep(names: Seq<String>, name: Seq<char>) -> bool {
    exists|i: int| 0 <= i < names.len() && #[trigger] names[i]@ == name
}

impl ProjectInfo {
    pub open spec fn no_frameworks() -> ProjectInfo {
        ProjectInfo {
            has_react: false,
            has_next: false,
            has_expo: false,
            has_react_native: false,
            has_express: false,
            has_fastify: false,
            has_hono: false,
            has_koa: false,
        }
    }

    /// The project a dependency list describes: Next.js, Expo and React Native
    /// imply React.
    pub open spec fn described_by(names: Seq<String>) -> ProjectInfo {
        let next = has_dep(names, "next"@);
        let expo = has_dep(names, "expo"@);
        let native = has_dep(names, "react-native"@);
        ProjectInfo {
            has_react: has_dep(names, "react"@) || has_dep(names, "react-dom"@) || next || expo
                || native,
            has_next: next,
            has_expo: expo,
            has_react_native: native,
            has_express: has_dep(names, "express"@),
            has_fastify: has_dep(names, "fastify"@),
            has_hono: has_dep(names, "hono"@),
            has_koa: has_dep(names, "koa"@),
        }
    }

    pub open spec fn server(self) -> bool {
        self.has_express || self.has_fastify || self.has_hono || self.has_koa
    }

    /// A project with no framework detected.
    pub fn none() -> (r: ProjectInfo)
        ensures
            r == ProjectInfo::no_frameworks(),
    {
        ProjectInfo {
            has_react: false,
            has_next: false,
            has_expo: false,
            has_react_native: false,
            has_express: false,
            has_fastify: false,
            has_hono: false,
            has_koa: false,
        }
    }

    /// Detection from the names under `dependencies` and `devDependencies`.
    pub fn from_dependencies(names: &Vec<String>) -> (r: ProjectInfo)
        ensures
            r == ProjectInfo::described_by(names@),
    {
        let next = dependency_present(names, "next");
        let expo = dependency_present(names, "expo");
        let native = dependency_present(names, "react-native");
        let react = dependency_present(names, "react") || dependency_present(names, "react-dom");
        ProjectInfo {
            has_react: react || next || expo || native,
            has_next: next,
            has_expo: expo,
            has_react_native: native,
            has_express: dependency_present(names, "express"),
            has_fastify: dependency_present(names, "fastify"),
            has_hono: dependency_present(names, "hono"),
            has_koa: dependency_present(names, "koa"),
        }
    }

    /// Whether any server framework (Express, Fastify, Hono, Koa) is present.
    pub fn has_server_framework(&self) -> (b: bool)
        ensures
            b == self.server(),
    {
        self.has_express || self.has_fastify || self.has_hono || self.has_koa
    }

    /// The text the fingerprint hashes: every flag, by name, in a fixed order.
    pub open spec fn fingerprint_text(self) -> Seq<char> {
        "has_express="@ + bool_text(self.has_express) + ";has_expo="@ + bool_text(self.has_expo) + ";has_fastify="@
            + bool_text(self.has_fastify) + ";has_hono="@ + bool_text(self.has_hono) + ";has_koa="@ + bool_text(
            self.has_koa,
        ) + ";has_next="@ + bool_text(self.has_next) + ";has_react="@ + bool_text(self.has_react)
            + ";has_react_native="@ + bool_text(self.has_react_native)
    }

    /// The SHA-256 (lowercase hex) of the fingerprint text, whose characters
    /// are all ASCII and so are their own bytes.
    pub fn fingerprint(&self) -> (r: String)
        ensures
            r@ == sha256_hex(ascii_bytes(self.fingerprint_text())),
            r@.len() == 64,
            forall|i: int| 0 <= i < r@.len() ==> crate::cache::lower_hex(#[trigger] r@[i]),
    {
        let mut text = chars_of("has_express=");
        append_flag(&mut text, self.has_express);
        append_text(&mut text, ";has_expo=");
        append_flag(&mut text, self.has_expo);
        append_text(&mut text, ";has_fastify=");
        append_flag(&mut text, self.has_fastify);
        append_text(&mut text, ";has_hono=");
        append_flag(&mut text, self.has_hono);
        append_text(&mut text, ";has_koa=");
        append_flag(&mut text, self.has_koa);
        append_text(&mut text, ";has_next=");
        append_flag(&mut text, self.has_next);
        append_text(&mut text, ";has_react=");
        append_flag(&mut text, self.has_react);
        append_text(&mut text, ";has_react_native=");
        append_flag(&mut text, self.has_react_native);
        assert(text@ =~= self.fingerprint_text());
        let bytes = char_bytes(&text);
        hash_bytes(bytes.as_slice())
    }

    /// A React-only project.
    pub fn test_react() -> (r: ProjectInfo)
        ensures
            r == (ProjectInfo { has_react: true, ..ProjectInfo::no_frameworks() }),
    {
        ProjectInfo { has_react: true, ..ProjectInfo::none() }
    }

    /// An Express-only project.
    pub fn test_server() -> (r: ProjectInfo)
        ensures
            r == (ProjectInfo { has_express: true, ..ProjectInfo::no_frameworks() }),
    {
        ProjectInfo { has_express: true, ..ProjectInfo::none() }
    }

    /// A project with every framework.
    pub fn test_all() -> (r: ProjectInfo)
        ensures
            r.has_react && r.has_next && r.has_expo && r.has_react_native && r.has_express
                && r.has_fastify && r.has_hono && r.has_koa,
    {
        ProjectInfo {
            has_react: true,
            has_next: true,
            has_expo: true,
            has_react_native: true,
            has_express: true,
            has_fastify: true,
            has_hono: true,
            has_koa: true,
        }
    }
}

impl Default for ProjectInfo {
    fn default() -> (r: ProjectInfo)
        ensures
            r == ProjectInfo::no_frameworks(),
    {
        ProjectInfo::none()
    }
}

fn dependency_present(names: &Vec<String>, name: &str) -> (b: bool)
    ensures
        b == has_dep(names@, name@),
{
    let target = owned(name);
    let mut i: usize = 0;
    while i < names.len()
        invariant
            i <= names@.len(),
            target@ == name@,
            forall|k: int| 0 <= k < i ==> #[trigger] names@[k]@ != name@,
        decreases names@.len() - i,
    {
        if names[i] == target {
            return true;
        }
        i = i + 1;
    }
    false
}

// ── Module resolution ──────────────────────────────────────

/// `Path::join` on `/`-separated paths: an absolute `rel` replaces `base`.
pub open spec fn path_join(base: Seq<char>, rel: Seq<char>) -> Seq<char> {
    if rel.len() > 0 && rel[0] == '/' {
        rel
    } else if base.len() == 0 {
        rel
    } else if base.last() == '/' {
        base + rel
    } else {
        base + seq!['/'] + rel
    }
}

/// What a `paths` pattern captures of an import source: the text matched by
/// its `*`, or the empty text when the pattern has no `*` and equals the source.
pub open spec fn pattern_capture(pattern: Seq<char>, source: Seq<char>) -> Option<Seq<char>> {
    match first_index(pattern, '*') {
        None => if pattern == source {
            Some(Seq::empty())
        } else {
            None
        },
        Some(k) => {
            let prefix = pattern.subrange(0, k);
            let suffix = pattern.subrange(k + 1, pattern.len() as int);
            if starts_with(source, prefix) && ends_with(
                source.subrange(prefix.len() as int, source.len() as int),
                suffix,
            ) {
                Some(source.subrange(prefix.len() as int, source.len() - suffix.len()))
            } else {
                None
            }
        },
    }
}

/// A target with its first `*` replaced by the captured text.
pub open spec fn expand_target(target: Seq<char>, capture: Seq<char>) -> Seq<char> {
    match first_index(target, '*') {
        None => target,
        Some(k) => target.subrange(0, k) + capture + target.subrange(k + 1, target.len() as int),
    }
}

/// Candidates contributed by one alias.
pub open spec fn alias_candidates(base: Seq<char>, alias: PathAlias, source: Seq<char>) -> Seq<
    Seq<char>,
> {
    match pattern_capture(alias.pattern@, source) {
        None => Seq::empty(),
        Some(cap) => Seq::new(
            alias.targets@.len(),
            |t: int| path_join(base, expand_target(alias.targets@[t]@, cap)),
        ),
    }
}

/// Candidates of the first `n` aliases, in order.
pub open spec fn aliases_candidates(
    base: Seq<char>,
    aliases: Seq<PathAlias>,
    n: int,
    source: Seq<char>,
) -> Seq<Seq<char>>
    decreases n,
{
    if n <= 0 {
        Seq::empty()
    } else {
        aliases_candidates(base, aliases, n - 1, source) + alias_candidates(
            base,
            aliases[n - 1],
            source,
        )
    }
}

impl ModuleResolutionConfig {
    /// The directory `paths` targets are relative to.
    pub open spec fn base_dir(self) -> Seq<char> {
        match self.base_url {
            Some(b) => b@,
            None => self.config_dir@,
        }
    }

    /// Candidates from the `paths` aliases alone.
    pub open spec fn path_candidates(self, source: Seq<char>) -> Seq<Seq<char>> {
        aliases_candidates(self.base_dir(), self.paths@, self.paths@.len() as int, source)
    }

    /// Candidates for a non-relative import: the alias expansions, or the
    /// source below `baseUrl` when no alias matches.
    pub open spec fn candidates(self, source: Seq<char>) -> Seq<Seq<char>> {
        let from_paths = self.path_candidates(source);
        if from_paths.len() == 0 {
            match self.base_url {
                Some(b) => seq![path_join(b@, source)],
                None => Seq::empty(),
            }
        } else {
            from_paths
        }
    }

    /// Files a non-relative import source may resolve to, in order.
    pub fn resolve_non_relative(&self, source: &str) -> (r: Vec<String>)
        ensures
            r@.map_values(|s: String| s@) == self.candidates(source@),
    {
        let mut candidates = self.resolve_paths(source);
        if candidates.len() == 0 {
            match &self.base_url {
                Some(base_url) => {
                    let b = chars_of(base_url.as_str());
                    let s = chars_of(source);
                    let joined = join_paths(&b, &s);
                    candidates.push(string_of(&joined));
                    assert(candidates@.map_values(|s: String| s@) =~= seq![
                        path_join(base_url@, source@),
                    ]);
                },
                None => {},
            }
        }
        candidates
    }

    /// Files the `paths` aliases map an import source to.
    pub fn resolve_paths(&self, source: &str) -> (r: Vec<String>)
        ensures
            r@.map_values(|s: String| s@) == self.path_candidates(source@),
    {
        let mut candidates: Vec<String> = Vec::new();
        let base = match &self.base_url {
            Some(b) => chars_of(b.as_str()),
            None => chars_of(self.config_dir.as_str()),
        };
        let src = chars_of(source);
        let mut i: usize = 0;
        while i < self.paths.len()
            invariant
                i <= self.paths@.len(),
                base@ == self.base_dir(),
                src@ == source@,
                candidates@.map_values(|s: String| s@) == aliases_candidates(
                    self.base_dir(),
                    self.paths@,
                    i as int,
                    source@,
                ),
            decreases self.paths@.len() - i,
        {
            let alias = &self.paths[i];
            let pat = chars_of(alias.pattern.as_str());
            match match_path_pattern(&pat, &src) {
                None => {
                    assert(candidates@.map_values(|s: String| s@) =~= aliases_candidates(
                        self.base_dir(),
                        self.paths@,
                        i + 1,
                        source@,
                    ));
                },
                Some(capture) => {
                    let ghost before = candidates@.map_values(|s: String| s@);
                    let mut t: usize = 0;
                    while t < alias.targets.len()
                        invariant
                            t <= alias.targets@.len(),
                            base@ == self.base_dir(),
                            pattern_capture(alias.pattern@, source@) == Some(capture@),
                            candidates@.map_values(|s: String| s@) == before + Seq::new(
                                t as nat,
                                |k: int|
                                    path_join(
                                        self.base_dir(),
                                        expand_target(alias.targets@[k]@, capture@),
                                    ),
                            ),
                        decreases alias.targets@.len() - t,
                    {
                        let target = chars_of(alias.targets[t].as_str());
                        let expanded = expand_target_exec(&target, &capture);
                        let joined = join_paths(&base, &expanded);
                        let ghost prev = candidates@;
                        let item = string_of(&joined);
                        candidates.push(item);
                        assert(candidates@.map_values(|s: String| s@) =~= prev.map_values(
                            |s: String| s@,
                        ).push(item@));
                        t = t + 1;
                        assert(candidates@.map_values(|s: String| s@) =~= before + Seq::new(
                            t as nat,
                            |k: int|
                                path_join(
                                    self.base_dir(),
                                    expand_target(alias.targets@[k]@, capture@),
                                ),
                        ));
                    }
                    assert(candidates@.map_values(|s: String| s@) =~= aliases_candidates(
                        self.base_dir(),
                        self.paths@,
                        i + 1,
                        source@,
                    ));
                },
            }
            i = i + 1;
        }
        candidates
    }
}

/// `Path::join` on `/`-separated paths.
pub fn join_paths(base: &Vec<char>, rel: &Vec<char>) -> (r: Vec<char>)
    ensures
        r@ == path_join(base@, rel@),
{
    if rel.len() > 0 && rel[0] == '/' {
        return rel.clone();
    }
    if base.len() == 0 {
        return rel.clone();
    }
    let mut r = base.clone();
    assert(r@ =~= base@);
    if base[base.len() - 1] != '/' {
        r.push('/');
    }
    let ghost mid = r@;
    let mut i: usize = 0;
    while i < rel.len()
        invariant
            i <= rel.len(),
            r@ == mid + rel@.subrange(0, i as int),
        decreases rel.len() - i,
    {
        r.push(rel[i]);
        i = i + 1;
        assert(r@ =~= mid + rel@.subrange(0, i as int));
    }
    assert(rel@.subrange(0, i as int) =~= rel@);
    assert(base@.last() != '/' ==> mid =~= base@ + seq!['/']);
    r
}

/// What a `paths` pattern captures of an import source.
pub fn match_path_pattern(pattern: &Vec<char>, source: &Vec<char>) -> (r: Option<Vec<char>>)
    ensures
        r matches Some(c) ==> pattern_capture(pattern@, source@) == Some(c@),
        r is None ==> pattern_capture(pattern@, source@) is None,
{
    match find_first(pattern, '*') {
        None => {
            if eq_chars(pattern, source) {
                Some(Vec::new())
            } else {
                None
            }
        },
        Some(k) => {
            assert(k < pattern.len());
            let prefix = subrange_of(pattern, 0, k);
            let suffix = subrange_of(pattern, k + 1, pattern.len());
            if !starts_with_chars(source, &prefix) {
                return None;
            }
            let rest = subrange_of(source, prefix.len(), source.len());
            if suffix.len() > rest.len() {
                return None;
            }
            let tail = subrange_of(&rest, rest.len() - suffix.len(), rest.len());
            if !eq_chars(&tail, &suffix) {
                return None;
            }
            Some(subrange_of(source, prefix.len(), source.len() - suffix.len()))
        },
    }
}

fn expand_target_exec(target: &Vec<char>, capture: &Vec<char>) -> (r: Vec<char>)
    ensures
        r@ == expand_target(target@, capture@),
{
    match find_first(target, '*') {
        None => target.clone(),
        Some(k) => {
            assert(k < target.len());
            let a = subrange_of(target, 0, k);
            let b = subrange_of(target, k + 1, target.len());
            let ab = crate::text::concat_chars(&a, capture);
            crate::text::concat_chars(&ab, &b)
        },
    }
}

// ── Building a module-resolution config ────────────────────

/// A `paths` entry as plain text: its pattern and its targets.
pub open spec fn alias_pair(a: PathAlias) -> (Seq<char>, Seq<Seq<char>>) {
    (a.pattern@, a.targets@.map_values(|t: String| t@))
}

/// A `paths` entry as read from the config file.
pub open spec fn entry_pair(e: (String, Vec<String>)) -> (Seq<char>, Seq<Seq<char>>) {
    (e.0@, e.1@.map_values(|t: String| t@))
}

/// Text with something other than whitespace in it.
pub open spec fn non_blank(s: Seq<char>) -> bool {
    trim(s).len() > 0
}

/// The targets that are not blank, in order.
pub open spec fn kept_targets(ts: Seq<Seq<char>>) -> Seq<Seq<char>>
    decreases ts.len(),
{
    if ts.len() == 0 {
        Seq::empty()
    } else {
        let before = kept_targets(ts.drop_last());
        if non_blank(ts.last()) {
            before.push(ts.last())
        } else {
            before
        }
    }
}

/// The entries with their blank targets dropped, and without the entries
/// left with no target, in order.
pub open spec fn kept_aliases(es: Seq<(Seq<char>, Seq<Seq<char>>)>) -> Seq<(Seq<char>, Seq<Seq<char>>)>
    decreases es.len(),
{
    if es.len() == 0 {
        Seq::empty()
    } else {
        let before = kept_aliases(es.drop_last());
        let kept = kept_targets(es.last().1);
        if kept.len() > 0 {
            before.push((es.last().0, kept))
        } else {
            before
        }
    }
}

/// Entries in ascending order of their patterns.
pub open spec fn sorted_by_pattern(s: Seq<(Seq<char>, Seq<Seq<char>>)>) -> bool {
    forall|i: int, j: int| 0 <= i < j < s.len() ==> lex_le(#[trigger] s[i].0, #[trigger] s[j].0)
}

proof fn lemma_insert_sorted(s: Seq<(Seq<char>, Seq<Seq<char>>)>, k: int, x: (Seq<char>, Seq<Seq<char>>))
    requires
        0 <= k <= s.len(),
        sorted_by_pattern(s),
        forall|m: int| 0 <= m < k ==> lex_le(#[trigger] s[m].0, x.0),
        k < s.len() ==> !lex_le(s[k].0, x.0),
    ensures
        sorted_by_pattern(s.insert(k, x)),
{
    let t = s.insert(k, x);
    if k < s.len() {
        lemma_lex_le_total(s[k].0, x.0);
    }
    assert forall|i: int, j: int| 0 <= i < j < t.len() implies lex_le(#[trigger] t[i].0, #[trigger] t[j].0) by {
        if i < k && j == k {
        } else if i == k && j > k {
            if j - 1 > k {
                lemma_lex_le_trans(x.0, s[k].0, s[j - 1].0);
            }
        } else if i < k && j > k {
            assert(lex_le(s[i].0, s[j - 1].0));
        } else if j < k {
            assert(lex_le(s[i].0, s[j].0));
        } else {
            assert(lex_le(s[i - 1].0, s[j - 1].0));
        }
    }
}

fn non_blank_exec(s: &String) -> (b: bool)
    ensures
        b == non_blank(s@),
{
    let c = chars_of(s.as_str());
    trim_chars(&c).len() > 0
}

fn kept_targets_exec(targets: &Vec<String>) -> (r: Vec<String>)
    ensures
        r@.map_values(|t: String| t@) == kept_targets(targets@.map_values(|t: String| t@)),
{
    let ghost all = targets@.map_values(|t: String| t@);
    let mut out: Vec<String> = Vec::new();
    let mut i: usize = 0;
    while i < targets.len()
        invariant
            i <= targets.len(),
            all == targets@.map_values(|t: String| t@),
            out@.map_values(|t: String| t@) == kept_targets(all.take(i as int)),
        decreases targets.len() - i,
    {
        assert(all.take(i + 1).drop_last() =~= all.take(i as int));
        assert(all.take(i + 1).last() == targets@[i as int]@);
        if non_blank_exec(&targets[i]) {
            out.push(targets[i].clone());
            assert(out@.map_values(|t: String| t@) =~= kept_targets(all.take(i as int)).push(
                targets@[i as int]@,
            ));
        }
        i = i + 1;
    }
    assert(all.take(i as int) =~= all);
    out
}

/// The module-resolution settings of a `tsconfig.json`/`jsconfig.json` in
/// `config_dir`, from its `compilerOptions`: a blank `baseUrl` is ignored and
/// a present one is taken below `config_dir`; blank targets are dropped, an
/// alias left with none is dropped, and the aliases are ordered by pattern.
pub fn module_resolution_from_options(
    config_dir: String,
    base_url: Option<String>,
    paths: Vec<(String, Vec<String>)>,
) -> (r: ModuleResolutionConfig)
    ensures
        r.config_dir@ == config_dir@,
        match base_url {
            Some(b) => if non_blank(b@) {
                r.base_url matches Some(u) && u@ == path_join(config_dir@, b@)
            } else {
                r.base_url is None
            },
            None => r.base_url is None,
        },
        sorted_by_pattern(r.paths@.map_values(|a: PathAlias| alias_pair(a))),
        r.paths@.map_values(|a: PathAlias| alias_pair(a)).to_multiset() == kept_aliases(
            paths@.map_values(|e: (String, Vec<String>)| entry_pair(e)),
        ).to_multiset(),
{
    let resolved_base = match &base_url {
        Some(b) => {
            if non_blank_exec(b) {
                let d = chars_of(config_dir.as_str());
                let v = chars_of(b.as_str());
                Some(string_of(&join_paths(&d, &v)))
            } else {
                None
            }
        },
        None => None,
    };
    let ghost input = paths@.map_values(|e: (String, Vec<String>)| entry_pair(e));
    let mut kept: Vec<PathAlias> = Vec::new();
    let mut i: usize = 0;
    while i < paths.len()
        invariant
            i <= paths.len(),
            input == paths@.map_values(|e: (String, Vec<String>)| entry_pair(e)),
            kept@.map_values(|a: PathAlias| alias_pair(a)) == kept_aliases(input.take(i as int)),
        decreases paths.len() - i,
    {
        assert(input.take(i + 1).drop_last() =~= input.take(i as int));
        assert(input.take(i + 1).last() == entry_pair(paths@[i as int]));
        let targets = kept_targets_exec(&paths[i].1);
        if targets.len() > 0 {
            let alias = PathAlias { pattern: paths[i].0.clone(), targets };
            kept.push(alias);
            assert(kept@.map_values(|a: PathAlias| alias_pair(a)) =~= kept_aliases(
                input.take(i as int),
            ).push(alias_pair(alias)));
        } else {
            assert(targets@.map_values(|t: String| t@).len() == 0);
        }
        i = i + 1;
    }
    assert(input.take(i as int) =~= input);
    let ghost all = kept@.map_values(|a: PathAlias| alias_pair(a));
    let mut sorted: Vec<PathAlias> = Vec::new();
    proof {
        broadcast use vstd::seq_lib::group_to_multiset_ensures;
        assert(all.skip(all.len() as int) =~= Seq::<(Seq<char>, Seq<Seq<char>>)>::empty());
        assert(sorted@.map_values(|a: PathAlias| alias_pair(a)) =~= Seq::<(Seq<char>, Seq<Seq<char>>)>::empty());
        assert(Seq::<(Seq<char>, Seq<Seq<char>>)>::empty().to_multiset().len() == 0);
    }
    assert(all.take(all.len() as int) =~= all);
    while kept.len() > 0
        invariant
            kept@.len() <= all.len(),
            kept@.map_values(|a: PathAlias| alias_pair(a)) == all.take(kept@.len() as int),
            sorted_by_pattern(sorted@.map_values(|a: PathAlias| alias_pair(a))),
            sorted@.map_values(|a: PathAlias| alias_pair(a)).to_multiset() == all.skip(
                kept@.len() as int,
            ).to_multiset(),
        decreases kept@.len(),
    {
        let ghost before = sorted@.map_values(|a: PathAlias| alias_pair(a));
        let ghost n = kept@.len() as int;
        let x = kept.pop().unwrap();
        proof {
            assert(all.take(n)[n - 1] == alias_pair(x));
            assert(kept@.map_values(|a: PathAlias| alias_pair(a)) =~= all.take(n - 1));
        }
        let xp = chars_of(x.pattern.as_str());
        let mut k: usize = 0;
        while k < sorted.len() && lex_le_exec(&chars_of(sorted[k].pattern.as_str()), &xp)
            invariant
                k <= sorted.len(),
                before == sorted@.map_values(|a: PathAlias| alias_pair(a)),
                xp@ == x.pattern@,
                forall|m: int| 0 <= m < k ==> lex_le(#[trigger] before[m].0, x.pattern@),
            decreases sorted.len() - k,
        {
            k = k + 1;
        }
        proof {
            lemma_insert_sorted(before, k as int, alias_pair(x));
            vstd::seq_lib::to_multiset_insert(before, k as int, alias_pair(x));
            let rest = all.skip(n);
            assert(all.skip(n - 1) =~= seq![alias_pair(x)] + rest);
            vstd::seq_lib::lemma_seq_union_to_multiset_commutative(rest, seq![alias_pair(x)]);
            vstd::seq_lib::to_multiset_build(rest, alias_pair(x));
            assert(rest.push(alias_pair(x)) =~= rest + seq![alias_pair(x)]);
            assert(before.insert(k as int, alias_pair(x)).to_multiset() == before.to_multiset().insert(alias_pair(x)));
            assert(before.to_multiset() == rest.to_multiset());
            assert(rest.push(alias_pair(x)).to_multiset() == rest.to_multiset().insert(alias_pair(x)));
            assert((rest + seq![alias_pair(x)]).to_multiset() == (seq![alias_pair(x)] + rest).to_multiset());
            assert(before.insert(k as int, alias_pair(x)).to_multiset() == all.skip(n - 1).to_multiset());
        }
        sorted.insert(k, x);
        assert(sorted@.map_values(|a: PathAlias| alias_pair(a)) =~= before.insert(k as int, alias_pair(x)));
        assert(kept@.len() == n - 1);
    }
    assert(all.skip(0) =~= all);
    ModuleResolutionConfig { config_dir, base_url: resolved_base, paths: sorted }
}

// ── JSON with comments ─────────────────────────────────────

/// Where a left-to-right scan of JSON-with-comments text stands.
#[derive(Debug, Clone, Copy, PartialEq, Eq, Structural)]
pub struct CommentScan {
    pub in_string: bool,
    pub escaped: bool,
    pub line_comment: bool,
    pub block_comment: bool,
}

/// The output of removing `//` and `/* */` comments from `s[i..]`, starting
/// in scan state `st`: comment text is dropped (newlines inside comments
/// are kept), text inside string literals is kept verbatim.
pub open spec fn strip_comments_from(s: Seq<char>, i: int, st: CommentScan) -> Seq<char>
    decreases s.len() - i,
{
    if i < 0 || i >= s.len() {
        Seq::empty()
    } else {
        let ch = s[i];
        let next_is = |c: char| i + 1 < s.len() && s[i + 1] == c;
        if st.line_comment {
            if ch == '\n' {
                seq!['\n'] + strip_comments_from(s, i + 1, CommentScan { line_comment: false, ..st })
            } else {
                strip_comments_from(s, i + 1, st)
            }
        } else if st.block_comment {
            if ch == '*' && next_is('/') {
                strip_comments_from(s, i + 2, CommentScan { block_comment: false, ..st })
            } else if ch == '\n' {
                seq!['\n'] + strip_comments_from(s, i + 1, st)
            } else {
                strip_comments_from(s, i + 1, st)
            }
        } else if st.in_string {
            let nst = if st.escaped {
                CommentScan { escaped: false, ..st }
            } else if ch == '\\' {
                CommentScan { escaped: true, ..st }
            } else if ch == '"' {
                CommentScan { in_string: false, ..st }
            } else {
                st
            };
            seq![ch] + strip_comments_from(s, i + 1, nst)
        } else if ch == '"' {
            seq![ch] + strip_comments_from(s, i + 1, CommentScan { in_string: true, ..st })
        } else if ch == '/' && next_is('/') {
            strip_comments_from(s, i + 2, CommentScan { line_comment: true, ..st })
        } else if ch == '/' && next_is('*') {
            strip_comments_from(s, i + 2, CommentScan { block_comment: true, ..st })
        } else {
            seq![ch] + strip_comments_from(s, i + 1, st)
        }
    }
}

pub open spec fn scan_start() -> CommentScan {
    CommentScan { in_string: false, escaped: false, line_comment: false, block_comment: false }
}

/// `s` without its comments.
pub open spec fn without_comments(s: Seq<char>) -> Seq<char> {
    strip_comments_from(s, 0, scan_start())
}

/// Reading `s[j]` in scan state `st`: the state for the next character,
/// and whether that next character is the second of a two-character
/// comment marker (`//`, `/*` or `*/`), already accounted for.
pub open spec fn comment_step(s: Seq<char>, j: int, st: CommentScan, second: bool) -> (CommentScan, bool) {
    let ch = s[j];
    let next_is = |c: char| j + 1 < s.len() && s[j + 1] == c;
    if second {
        (st, false)
    } else if st.line_comment {
        if ch == '\n' {
            (CommentScan { line_comment: false, ..st }, false)
        } else {
            (st, false)
        }
    } else if st.block_comment {
        if ch == '*' && next_is('/') {
            (CommentScan { block_comment: false, ..st }, true)
        } else {
            (st, false)
        }
    } else if st.in_string {
        if st.escaped {
            (CommentScan { escaped: false, ..st }, false)
        } else if ch == '\\' {
            (CommentScan { escaped: true, ..st }, false)
        } else if ch == '"' {
            (CommentScan { in_string: false, ..st }, false)
        } else {
            (st, false)
        }
    } else if ch == '"' {
        (CommentScan { in_string: true, ..st }, false)
    } else if ch == '/' && next_is('/') {
        (CommentScan { line_comment: true, ..st }, true)
    } else if ch == '/' && next_is('*') {
        (CommentScan { block_comment: true, ..st }, true)
    } else {
        (st, false)
    }
}

/// The scan state in which `s[i]` is read, and whether `s[i]` is the second
/// character of a comment marker.
pub open spec fn comment_state(s: Seq<char>, i: int) -> (CommentScan, bool)
    decreases i,
{
    if i <= 0 || i > s.len() {
        (scan_start(), false)
    } else {
        let (st, second) = comment_state(s, i - 1);
        comment_step(s, i - 1, st, second)
    }
}

/// Whether `s[i]` belongs to a comment: a comment marker, or a character
/// between a `//` and the end of its line, or between `/*` and `*/`,
/// outside string literals.
pub open spec fn in_comment(s: Seq<char>, i: int) -> bool {
    let (st, second) = comment_state(s, i);
    ||| second
    ||| st.line_comment
    ||| st.block_comment
    ||| (!st.in_string && s[i] == '/' && i + 1 < s.len() && (s[i + 1] == '/' || s[i + 1] == '*'))
}

/// The first `n` characters of `s` with the characters of comments left
/// out, except the newlines inside them.
pub open spec fn without_comment_chars(s: Seq<char>, n: int) -> Seq<char>
    decreases n,
{
    if n <= 0 || n > s.len() {
        Seq::empty()
    } else if in_comment(s, n - 1) && s[n - 1] != '\n' {
        without_comment_chars(s, n - 1)
    } else {
        without_comment_chars(s, n - 1).push(s[n - 1])
    }
}

/// Removes `//` line comments and `/* */` block comments outside string
/// literals, keeping the newlines they contained.
pub fn strip_json_comments(source: &str) -> (r: String)
    ensures
        r@ == without_comments(source@),
{
    let s = chars_of(source);
    let mut out: Vec<char> = Vec::new();
    let mut st = CommentScan {
        in_string: false,
        escaped: false,
        line_comment: false,
        block_comment: false,
    };
    let mut i: usize = 0;
    while i < s.len()
        invariant
            s@ == source@,
            i <= s.len() + 1,
            out@ + strip_comments_from(s@, i as int, st) == without_comments(s@),
        decreases s.len() + 1 - i,
    {
        let ch = s[i];
        let next_slash = i + 1 < s.len() && s[i + 1] == '/';
        let next_star = i + 1 < s.len() && s[i + 1] == '*';
        let ghost old_out = out@;
        let ghost old_st = st;
        let ghost old_i = i;
        if st.line_comment {
            if ch == '\n' {
                st.line_comment = false;
                out.push('\n');
            }
            i = i + 1;
        } else if st.block_comment {
            if ch == '*' && next_slash {
                st.block_comment = false;
                i = i + 2;
            } else {
                if ch == '\n' {
                    out.push('\n');
                }
                i = i + 1;
            }
        } else if st.in_string {
            out.push(ch);
            if st.escaped {
                st.escaped = false;
            } else if ch == '\\' {
                st.escaped = true;
            } else if ch == '"' {
                st.in_string = false;
            }
            i = i + 1;
        } else if ch == '"' {
            st.in_string = true;
            out.push(ch);
            i = i + 1;
        } else if ch == '/' && next_slash {
            st.line_comment = true;
            i = i + 2;
        } else if ch == '/' && next_star {
            st.block_comment = true;
            i = i + 2;
        } else {
            out.push(ch);
            i = i + 1;
        }
        assert(out@ + strip_comments_from(s@, i as int, st) =~= old_out + strip_comments_from(
            s@,
            old_i as int,
            old_st,
        ));
    }
    assert(strip_comments_from(s@, i as int, st) =~= Seq::<char>::empty());
    assert(out@ =~= without_comments(s@));
    string_of(&out)
}

/// Index of the first non-whitespace character at or after `j` (or the length).
pub open spec fn next_non_space(s: Seq<char>, j: int) -> int
    decreases s.len() - j,
{
    if j < 0 || j >= s.len() {
        s.len() as int
    } else if is_space(s[j]) {
        next_non_space(s, j + 1)
    } else {
        j
    }
}

/// The output of dropping trailing commas from `s[i..]`: a comma outside a
/// string whose next non-whitespace character is `}` or `]` is removed.
pub open spec fn strip_commas_from(s: Seq<char>, i: int, in_string: bool, escaped: bool) -> Seq<
    char,
>
    decreases s.len() - i,
{
    if i < 0 || i >= s.len() {
        Seq::empty()
    } else {
        let ch = s[i];
        if in_string {
            let (ns, ne) = if escaped {
                (true, false)
            } else if ch == '\\' {
                (true, true)
            } else if ch == '"' {
                (false, false)
            } else {
                (true, false)
            };
            seq![ch] + strip_commas_from(s, i + 1, ns, ne)
        } else if ch == '"' {
            seq![ch] + strip_commas_from(s, i + 1, true, escaped)
        } else if ch == ',' && next_non_space(s, i + 1) < s.len() && (s[next_non_space(s, i + 1)]
            == '}' || s[next_non_space(s, i + 1)] == ']') {
            strip_commas_from(s, i + 1, in_string, escaped)
        } else {
            seq![ch] + strip_commas_from(s, i + 1, in_string, escaped)
        }
    }
}

/// Whether the text before index `i` leaves the reader inside a string
/// literal, and whether the last character read there was an escaping backslash.
pub open spec fn string_state(s: Seq<char>, i: int) -> (bool, bool)
    decreases i,
{
    if i <= 0 || i > s.len() {
        (false, false)
    } else {
        let (in_string, escaped) = string_state(s, i - 1);
        let ch = s[i - 1];
        if in_string {
            if escaped {
                (true, false)
            } else if ch == '\\' {
                (true, true)
            } else if ch == '"' {
                (false, false)
            } else {
                (true, false)
            }
        } else if ch == '"' {
            (true, escaped)
        } else {
            (in_string, escaped)
        }
    }
}

/// Whether `s[i]` is a trailing comma: a comma outside string literals
/// whose next non-whitespace character closes an object or an array.
pub open spec fn is_trailing_comma(s: Seq<char>, i: int) -> bool {
    &&& 0 <= i < s.len()
    &&& !string_state(s, i).0
    &&& s[i] == ','
    &&& next_non_space(s, i + 1) < s.len()
    &&& (s[next_non_space(s, i + 1)] == '}' || s[next_non_space(s, i + 1)] == ']')
}

/// The first `n` characters of `s`, trailing commas left out.
pub open spec fn without_marked_commas(s: Seq<char>, n: int) -> Seq<char>
    decreases n,
{
    if n <= 0 || n > s.len() {
        Seq::empty()
    } else if is_trailing_comma(s, n - 1) {
        without_marked_commas(s, n - 1)
    } else {
        without_marked_commas(s, n - 1).push(s[n - 1])
    }
}

/// `s` without trailing commas.
pub open spec fn without_trailing_commas(s: Seq<char>) -> Seq<char> {
    strip_commas_from(s, 0, false, false)
}

/// Removes commas that directly precede (up to whitespace) a closing `}` or `]`,
/// outside string literals.
pub fn strip_trailing_commas(source: &str) -> (r: String)
    ensures
        r@ == without_trailing_commas(source@),
{
    let chars = chars_of(source);
    let mut out: Vec<char> = Vec::new();
    let mut index: usize = 0;
    let mut in_string = false;
    let mut escaped = false;
    while index < chars.len()
        invariant
            chars@ == source@,
            index <= chars.len(),
            out@ + strip_commas_from(chars@, index as int, in_string, escaped)
                == without_trailing_commas(chars@),
        decreases chars.len() - index,
    {
        let ch = chars[index];
        let ghost old_out = out@;
        let ghost old_state = (in_string, escaped);
        if in_string {
            out.push(ch);
            if escaped {
                escaped = false;
            } else if ch == '\\' {
                escaped = true;
            } else if ch == '"' {
                in_string = false;
            }
            index = index + 1;
            assert(out@ + strip_commas_from(chars@, index as int, in_string, escaped) =~= old_out
                + strip_commas_from(chars@, index - 1, old_state.0, old_state.1));
            continue;
        }
        if ch == '"' {
            in_string = true;
            out.push(ch);
            index = index + 1;
            assert(out@ + strip_commas_from(chars@, index as int, in_string, escaped) =~= old_out
                + strip_commas_from(chars@, index - 1, old_state.0, old_state.1));
            continue;
        }
        if ch == ',' {
            let mut lookahead = index + 1;
            while lookahead < chars.len() && is_space_exec(chars[lookahead])
                invariant
                    index < lookahead <= chars.len(),
                    next_non_space(chars@, index + 1) == next_non_space(chars@, lookahead as int),
                decreases chars.len() - lookahead,
            {
                lookahead = lookahead + 1;
            }
            if lookahead < chars.len() && (chars[lookahead] == '}' || chars[lookahead] == ']') {
                index = index + 1;
                continue;
            }
        }
        out.push(ch);
        index = index + 1;
        assert(out@ + strip_commas_from(chars@, index as int, in_string, escaped) =~= old_out
            + strip_commas_from(chars@, index - 1, old_state.0, old_state.1));
    }
    assert(strip_commas_from(chars@, index as int, in_string, escaped) =~= Seq::<char>::empty());
    assert(out@ =~= without_trailing_commas(chars@));
    string_of(&out)
}

} // verus!
