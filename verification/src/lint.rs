//! The diagnostics the linter reports, and where they point in the source.
use vstd::prelude::*;

verus! {

/// How serious a diagnostic is.
#[derive(Debug, Clone, Copy, PartialEq, Eq, Structural)]
pub enum Severity {
    Error,
    Warning,
}

impl Severity {
    /// Errors rank before warnings.
    pub open spec fn rank(self) -> nat {
        match self {
            Severity::Error => 0,
            Severity::Warning => 1,
        }
    }
}

/// Where a diagnostic came from.
#[derive(Debug, Clone, Copy, PartialEq, Eq, Structural)]
pub enum RuleOrigin {
    BuiltIn,
    Config,
    Engine,
}

/// How safe it is to apply a fix automatically.
#[derive(Debug, Clone, Copy, PartialEq, Eq, Structural)]
pub enum FixSafety {
    Safe,
    SemanticSafe,
    Risky,
    SuppressOnly,
}

impl Default for FixSafety {
    fn default() -> (r: FixSafety)
        ensures
            r == FixSafety::Safe,
    {
        FixSafety::Safe
    }
}

impl FixSafety {
    /// The name a fix's safety is shown by.
    pub open spec fn label_spec(self) -> Seq<char> {
        match self {
            FixSafety::Safe => "safe"@,
            FixSafety::SemanticSafe => "semantic-safe"@,
            FixSafety::Risky => "risky"@,
            FixSafety::SuppressOnly => "suppress-only"@,
        }
    }

    /// The name a fix's safety is shown by.
    pub fn label(&self) -> (r: &'static str)
        ensures
            r@ == self.label_spec(),
    {
        match self {
            FixSafety::Safe => "safe",
            FixSafety::SemanticSafe => "semantic-safe",
            FixSafety::Risky => "risky",
            FixSafety::SuppressOnly => "suppress-only",
        }
    }
}

/// A suggested source edit.
#[derive(Debug, Clone)]
pub struct Fix {
    /// Start of the byte range the fix replaces.
    pub range_start: usize,
    /// End of the byte range the fix replaces.
    pub range_end: usize,
    pub replacement: String,
    pub description: Option<String>,
    pub safety: FixSafety,
}

/// One finding in one file.
#[derive(Debug, Clone)]
pub struct LintDiagnostic {
    pub rule_name: String,
    pub message: String,
    /// `line:col`, both counted from 1.
    pub span: String,
    pub severity: Severity,
    pub origin: RuleOrigin,
    pub fix: Option<Fix>,
    pub byte_start: u32,
    pub byte_end: u32,
    pub node_kind: Option<String>,
    pub symbol: Option<String>,
}

/// All findings for one file.
#[derive(Debug, Clone)]
pub struct LintResult {
    pub file: String,
    pub diagnostics: Vec<LintDiagnostic>,
}


/// How many diagnostics of severity `sev` a file's findings hold.
pub open spec fn count_in(ds: Seq<LintDiagnostic>, sev: Severity) -> nat
    decreases ds.len(),
{
    if ds.len() == 0 {
        0
    } else {
        count_in(ds.drop_last(), sev) + if ds.last().severity == sev {
            1nat
        } else {
            0nat
        }
    }
}

/// How many diagnostics of severity `sev` all the results hold.
pub open spec fn count_all(rs: Seq<LintResult>, sev: Severity) -> nat
    decreases rs.len(),
{
    if rs.len() == 0 {
        0
    } else {
        count_all(rs.drop_last(), sev) + count_in(rs.last().diagnostics@, sev)
    }
}

/// How many errors and how many warnings the results hold, when both
/// counts fit in a `usize`.
pub fn diagnostic_counts(results: &Vec<LintResult>) -> (r: Option<(usize, usize)>)
    ensures
        match r {
            Some((e, w)) => e == count_all(results@, Severity::Error) && w == count_all(results@, Severity::Warning),
            None => count_all(results@, Severity::Error) > usize::MAX || count_all(results@, Severity::Warning)
                > usize::MAX,
        },
{
    let mut errors: usize = 0;
    let mut warnings: usize = 0;
    let mut i: usize = 0;
    while i < results.len()
        invariant
            i <= results@.len(),
            errors == count_all(results@.take(i as int), Severity::Error),
            warnings == count_all(results@.take(i as int), Severity::Warning),
        decreases results@.len() - i,
    {
        let ds = &results[i].diagnostics;
        let ghost e0 = errors as nat;
        let ghost w0 = warnings as nat;
        let mut k: usize = 0;
        while k < ds.len()
            invariant
                i < results@.len(),
                *ds == results@[i as int].diagnostics,
                k <= ds@.len(),
                e0 == count_all(results@.take(i as int), Severity::Error),
                w0 == count_all(results@.take(i as int), Severity::Warning),
                errors == e0 + count_in(ds@.take(k as int), Severity::Error),
                warnings == w0 + count_in(ds@.take(k as int), Severity::Warning),
            decreases ds@.len() - k,
        {
            assert(ds@.take(k + 1).drop_last() =~= ds@.take(k as int));
            match ds[k].severity {
                Severity::Error => {
                    if errors == usize::MAX {
                        proof {
                            lemma_count_all_prefix(results@, i as int, Severity::Error);
                            lemma_count_in_prefix(ds@, k as int + 1, Severity::Error);
                            let t = results@.take(i + 1);
                            assert(t.drop_last() =~= results@.take(i as int));
                            assert(t.last() == results@[i as int]);
                            assert(ds@.take(k + 1).last() == ds@[k as int]);
                            assert(count_in(ds@.take(k + 1), Severity::Error) == count_in(ds@.take(k as int), Severity::Error) + 1);
                            assert(count_all(t, Severity::Error) == count_all(results@.take(i as int), Severity::Error) + count_in(ds@, Severity::Error));
                        }
                        return None;
                    }
                    errors = errors + 1;
                },
                Severity::Warning => {
                    if warnings == usize::MAX {
                        proof {
                            lemma_count_all_prefix(results@, i as int, Severity::Warning);
                            lemma_count_in_prefix(ds@, k as int + 1, Severity::Warning);
                            let t = results@.take(i + 1);
                            assert(t.drop_last() =~= results@.take(i as int));
                            assert(t.last() == results@[i as int]);
                            assert(ds@.take(k + 1).last() == ds@[k as int]);
                            assert(count_in(ds@.take(k + 1), Severity::Warning) == count_in(ds@.take(k as int), Severity::Warning) + 1);
                            assert(count_all(t, Severity::Warning) == count_all(results@.take(i as int), Severity::Warning) + count_in(ds@, Severity::Warning));
                        }
                        return None;
                    }
                    warnings = warnings + 1;
                },
            }
            k = k + 1;
        }
        proof {
            assert(ds@.take(ds@.len() as int) =~= ds@);
            let t = results@.take(i + 1);
            assert(t.drop_last() =~= results@.take(i as int));
            assert(t.last() == results@[i as int]);
        }
        i = i + 1;
    }
    assert(results@.take(i as int) =~= results@);
    Some((errors, warnings))
}

proof fn lemma_count_in_prefix(ds: Seq<LintDiagnostic>, k: int, sev: Severity)
    requires
        0 <= k <= ds.len(),
    ensures
        count_in(ds.take(k), sev) <= count_in(ds, sev),
    decreases ds.len() - k,
{
    if k < ds.len() {
        lemma_count_in_prefix(ds, k + 1, sev);
        assert(ds.take(k + 1).drop_last() =~= ds.take(k));
    } else {
        assert(ds.take(k) =~= ds);
    }
}

proof fn lemma_count_all_prefix(rs: Seq<LintResult>, k: int, sev: Severity)
    requires
        0 <= k < rs.len(),
    ensures
        count_all(rs.take(k + 1), sev) <= count_all(rs, sev),
    decreases rs.len() - k,
{
    if k + 1 < rs.len() {
        lemma_count_all_prefix(rs, k + 1, sev);
        assert(rs.take(k + 2).drop_last() =~= rs.take(k + 1));
    } else {
        assert(rs.take(k + 1) =~= rs);
    }
}

} // verus!
