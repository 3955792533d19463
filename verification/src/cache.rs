//! The lint cache: per-file fingerprints and results, and rolling timing
//! samples used to predict how long cache operations take.
use vstd::prelude::*;
use vstd::relations::{sorted_by, total_ordering};

use crate::lint::{LintDiagnostic, LintResult};
use sha2::Digest;
use crate::text::owned;

verus! {

/// The lowercase hexadecimal SHA-256 digest of `bytes`.
pub uninterp spec fn sha256_hex(bytes: Seq<u8>) -> Seq<char>;

/// A lowercase hexadecimal digit.
pub open spec fn lower_hex(c: char) -> bool {
    ('0' <= c && c <= '9') || ('a' <= c && c <= 'f')
}

/// Hashes `bytes` with sha2's `Sha256` and prints the digest with `{:x}`:
/// generic-array writes two lowercase hex digits per byte of the 32-byte
/// digest, so the text has 64 characters.  Which digest comes out is not
/// stated beyond its name.
#[verifier::external_body]
pub fn hash_bytes(bytes: &[u8]) -> (r: String)
    ensures
        r@ == sha256_hex(bytes@),
        r@.len() == 64,
        forall|i: int| 0 <= i < r@.len() ==> lower_hex(#[trigger] r@[i]),
{
    let mut hasher = <sha2::Sha256 as Digest>::new();
    hasher.update(bytes);
    format!("{:x}", hasher.finalize())
}

/// Version of the cache file layout.
pub const CACHE_SCHEMA_VERSION: u32 = 4;

/// Version of the lint logic whose results the cache holds.
pub const CACHE_LOGIC_VERSION: u32 = 1;

/// How many timing samples each series keeps.
pub const MAX_TIMING_SAMPLES: usize = 8;

/// Size and modification time of a file.
#[derive(Debug, Clone, Copy, PartialEq, Eq, Structural)]
pub struct FileFingerprint {
    pub size: u64,
    pub modified_ns: Option<u128>,
}

impl FileFingerprint {
    /// Whether two fingerprints describe the same file state.
    pub fn matches(&self, other: &Self) -> (b: bool)
        ensures
            b == (self.size == other.size && self.modified_ns == other.modified_ns),
    {
        self.size == other.size && match (self.modified_ns, other.modified_ns) {
            (None, None) => true,
            (Some(a), Some(b)) => a == b,
            _ => false,
        }
    }
}

/// The most recent non-zero samples of one timing series, oldest first.
#[derive(Debug, Clone)]
pub struct RollingSamples {
    pub values: Vec<u64>,
}

/// The order on samples.
pub open spec fn sample_leq() -> spec_fn(u64, u64) -> bool {
    |a: u64, b: u64| a <= b
}

/// The samples after observing `value`: zeros are ignored, and only the
/// newest `MAX_TIMING_SAMPLES` are kept.
pub open spec fn observed(values: Seq<u64>, value: u64) -> Seq<u64> {
    if value == 0 {
        values
    } else if values.push(value).len() > MAX_TIMING_SAMPLES {
        values.push(value).drop_first()
    } else {
        values.push(value)
    }
}

/// The median of a sample series: the element at index `len / 2` of the
/// sorted samples.
pub open spec fn median_of(values: Seq<u64>) -> Option<u64> {
    if values.len() == 0 {
        None
    } else {
        Some(values.sort_by(sample_leq())[(values.len() / 2) as int])
    }
}

proof fn lemma_sample_leq_total()
    ensures
        total_ordering(sample_leq()),
{
}

impl RollingSamples {
    /// An empty series.
    pub fn new() -> (r: RollingSamples)
        ensures
            r.values@ == Seq::<u64>::empty(),
    {
        RollingSamples { values: Vec::new() }
    }

    /// Records one sample.
    pub fn observe(&mut self, value: u64)
        ensures
            final(self).values@ == observed(old(self).values@, value),
    {
        if value == 0 {
            return;
        }
        self.values.push(value);
        if self.values.len() > MAX_TIMING_SAMPLES {
            self.values.remove(0);
            assert(self.values@ =~= old(self).values@.push(value).drop_first());
        }
    }

    /// The median sample, if any.
    pub fn median(&self) -> (r: Option<u64>)
        ensures
            r == median_of(self.values@),
    {
        if self.values.len() == 0 {
            return None;
        }
        let sorted = sort_samples(&self.values);
        proof {
            lemma_sample_leq_total();
            self.values@.lemma_sort_by_ensures(sample_leq());
            vstd::seq_lib::lemma_sorted_unique(sorted@, self.values@.sort_by(sample_leq()), sample_leq());
        }
        Some(sorted[sorted.len() / 2])
    }

    /// Number of samples held.
    pub fn count(&self) -> (r: usize)
        ensures
            r == self.values@.len(),
    {
        self.values.len()
    }
}

/// The samples in ascending order.
fn sort_samples(values: &Vec<u64>) -> (r: Vec<u64>)
    ensures
        sorted_by(r@, sample_leq()),
        r@.to_multiset() == values@.to_multiset(),
        r@.len() == values@.len(),
{
    broadcast use vstd::seq_lib::group_to_multiset_ensures;

    let mut out: Vec<u64> = Vec::new();
    let mut i: usize = 0;
    while i < values.len()
        invariant
            i <= values@.len(),
            sorted_by(out@, sample_leq()),
            out@.to_multiset() == values@.take(i as int).to_multiset(),
            out@.len() == i,
        decreases values@.len() - i,
    {
        let v = values[i];
        let mut p: usize = 0;
        while p < out.len() && out[p] <= v
            invariant
                p <= out@.len(),
                forall|k: int| 0 <= k < p ==> out@[k] <= v,
            decreases out@.len() - p,
        {
            p = p + 1;
        }
        let ghost before = out@;
        out.insert(p, v);
        proof {
            assert(out@ =~= before.subrange(0, p as int) + seq![v] + before.subrange(
                p as int,
                before.len() as int,
            ));
            lemma_insert_multiset(before, p as int, v);
            assert(values@.take(i + 1) =~= values@.take(i as int).push(v));
            vstd::seq_lib::to_multiset_build(values@.take(i as int), v);
            broadcast use vstd::multiset::group_multiset_axioms;
            assert(values@.take(i as int).push(v).to_multiset() =~= values@.take(
                i as int,
            ).to_multiset().insert(v));
            assert forall|a: int, b: int| 0 <= a < b < out@.len() implies #[trigger] (sample_leq())(
                out@[a],
                out@[b],
            ) by {
                if b < p {
                    assert((sample_leq())(before[a], before[b]));
                } else if b == p {
                } else if a < p {
                    assert(before[a] <= v);
                    if p < before.len() {
                        assert(v < before[p as int]);
                        if b - 1 > p {
                            assert((sample_leq())(before[p as int], before[b - 1]));
                        }
                    }
                } else if a == p {
                    assert(v < before[p as int]);
                    if b - 1 > p {
                        assert((sample_leq())(before[p as int], before[b - 1]));
                    }
                } else {
                    assert((sample_leq())(before[a - 1], before[b - 1]));
                }
            }
        }
        i = i + 1;
    }
    assert(values@.take(i as int) =~= values@);
    out
}

proof fn lemma_insert_multiset(before: Seq<u64>, p: int, v: u64)
    requires
        0 <= p <= before.len(),
    ensures
        (before.subrange(0, p) + seq![v] + before.subrange(p, before.len() as int)).to_multiset()
            == before.to_multiset().insert(v),
{
    broadcast use vstd::seq_lib::group_to_multiset_ensures;
    broadcast use vstd::multiset::group_multiset_axioms;

    let a = before.subrange(0, p);
    let b = before.subrange(p, before.len() as int);
    assert(a + seq![v] =~= a.push(v));
    vstd::seq_lib::lemma_multiset_commutative(a + seq![v], b);
    vstd::seq_lib::lemma_multiset_commutative(a, b);
    assert(a + b =~= before);
    assert(a.push(v).to_multiset() == a.to_multiset().insert(v));
    assert(a.to_multiset().insert(v).add(b.to_multiset()) =~= a.to_multiset().add(
        b.to_multiset(),
    ).insert(v));
}

/// Rolling timing samples of the cache's phases.
#[derive(Debug, Clone)]
pub struct CacheTimings {
    pub load_ns: RollingSamples,
    pub save_ns: RollingSamples,
    pub stat_per_file_ns: RollingSamples,
    pub hash_per_byte_ns: RollingSamples,
    pub lint_per_byte_ns: RollingSamples,
}

/// `rate * units`, capped at `u64::MAX`; zero when either is zero.
pub open spec fn scaled(rate: u64, units: u64) -> u64 {
    if rate == 0 || units == 0 {
        0
    } else if rate * units > u64::MAX {
        u64::MAX
    } else {
        (rate * units) as u64
    }
}

/// The cost of `units` at `rate` per unit, saturating at `u64::MAX`.
pub fn scale_cost(rate: u64, units: u64) -> (r: u64)
    ensures
        r == scaled(rate, units),
{
    if rate == 0 || units == 0 {
        return 0;
    }
    match rate.checked_mul(units) {
        Some(total) => total,
        None => u64::MAX,
    }
}

/// A prediction scaled from a per-unit median.
pub open spec fn predicted(values: Seq<u64>, units: u64) -> Option<u64> {
    match median_of(values) {
        None => None,
        Some(rate) => Some(scaled(rate, units)),
    }
}

impl CacheTimings {
    /// No samples in any series.
    pub fn new() -> (r: CacheTimings)
        ensures
            r.load_ns.values@.len() == 0,
            r.save_ns.values@.len() == 0,
            r.stat_per_file_ns.values@.len() == 0,
            r.hash_per_byte_ns.values@.len() == 0,
            r.lint_per_byte_ns.values@.len() == 0,
    {
        CacheTimings {
            load_ns: RollingSamples::new(),
            save_ns: RollingSamples::new(),
            stat_per_file_ns: RollingSamples::new(),
            hash_per_byte_ns: RollingSamples::new(),
            lint_per_byte_ns: RollingSamples::new(),
        }
    }

    pub open spec fn ready(self) -> bool {
        self.load_ns.values@.len() >= 3 && self.stat_per_file_ns.values@.len() >= 3
            && self.lint_per_byte_ns.values@.len() >= 3
    }

    /// Whether enough samples exist to predict a run's cost.
    pub fn ready_for_prediction(&self) -> (b: bool)
        ensures
            b == self.ready(),
    {
        self.load_ns.count() >= 3 && self.stat_per_file_ns.count() >= 3
            && self.lint_per_byte_ns.count() >= 3
    }

    /// Records how long loading the cache took.
    pub fn record_load(&mut self, duration_ns: u64)
        ensures
            final(self).load_ns.values@ == observed(old(self).load_ns.values@, duration_ns),
            final(self).save_ns == old(self).save_ns,
            final(self).stat_per_file_ns == old(self).stat_per_file_ns,
            final(self).hash_per_byte_ns == old(self).hash_per_byte_ns,
            final(self).lint_per_byte_ns == old(self).lint_per_byte_ns,
    {
        self.load_ns.observe(duration_ns);
    }

    /// Records how long saving the cache took.
    pub fn record_save(&mut self, duration_ns: u64)
        ensures
            final(self).save_ns.values@ == observed(old(self).save_ns.values@, duration_ns),
            final(self).load_ns == old(self).load_ns,
            final(self).stat_per_file_ns == old(self).stat_per_file_ns,
            final(self).hash_per_byte_ns == old(self).hash_per_byte_ns,
            final(self).lint_per_byte_ns == old(self).lint_per_byte_ns,
    {
        self.save_ns.observe(duration_ns);
    }

    /// Records the cost of checking `files` file fingerprints, per file.
    pub fn record_stat(&mut self, duration_ns: u64, files: usize)
        ensures
            final(self).stat_per_file_ns.values@ == (if files == 0 {
                old(self).stat_per_file_ns.values@
            } else {
                observed(old(self).stat_per_file_ns.values@, (duration_ns / files as u64) as u64)
            }),
            final(self).load_ns == old(self).load_ns,
            final(self).save_ns == old(self).save_ns,
            final(self).hash_per_byte_ns == old(self).hash_per_byte_ns,
            final(self).lint_per_byte_ns == old(self).lint_per_byte_ns,
    {
        if files == 0 {
            return;
        }
        let per_file = duration_ns / (files as u64);
        self.stat_per_file_ns.observe(per_file);
    }

    /// Records the cost of hashing `bytes` bytes, per byte.
    pub fn record_hash(&mut self, duration_ns: u64, bytes: u64)
        ensures
            final(self).hash_per_byte_ns.values@ == (if bytes == 0 {
                old(self).hash_per_byte_ns.values@
            } else {
                observed(old(self).hash_per_byte_ns.values@, duration_ns / bytes)
            }),
            final(self).load_ns == old(self).load_ns,
            final(self).save_ns == old(self).save_ns,
            final(self).stat_per_file_ns == old(self).stat_per_file_ns,
            final(self).lint_per_byte_ns == old(self).lint_per_byte_ns,
    {
        if bytes == 0 {
            return;
        }
        self.hash_per_byte_ns.observe(duration_ns / bytes);
    }

    /// Records the cost of linting `bytes` bytes, per byte.
    pub fn record_lint(&mut self, duration_ns: u64, bytes: u64)
        ensures
            final(self).lint_per_byte_ns.values@ == (if bytes == 0 {
                old(self).lint_per_byte_ns.values@
            } else {
                observed(old(self).lint_per_byte_ns.values@, duration_ns / bytes)
            }),
            final(self).load_ns == old(self).load_ns,
            final(self).save_ns == old(self).save_ns,
            final(self).stat_per_file_ns == old(self).stat_per_file_ns,
            final(self).hash_per_byte_ns == old(self).hash_per_byte_ns,
    {
        if bytes == 0 {
            return;
        }
        self.lint_per_byte_ns.observe(duration_ns / bytes);
    }

    /// Predicted time to load the cache.
    pub fn predict_load(&self) -> (r: Option<u64>)
        ensures
            r == median_of(self.load_ns.values@),
    {
        self.load_ns.median()
    }

    /// Predicted time to save the cache.
    pub fn predict_save(&self) -> (r: Option<u64>)
        ensures
            r == median_of(self.save_ns.values@),
    {
        self.save_ns.median()
    }

    /// Predicted time to check `files` fingerprints.
    pub fn predict_stat(&self, files: usize) -> (r: Option<u64>)
        ensures
            r == predicted(self.stat_per_file_ns.values@, files as u64),
    {
        match self.stat_per_file_ns.median() {
            None => None,
            Some(rate) => Some(scale_cost(rate, files as u64)),
        }
    }

    /// Predicted time to hash `bytes` bytes.
    pub fn predict_hash(&self, bytes: u64) -> (r: Option<u64>)
        ensures
            r == predicted(self.hash_per_byte_ns.values@, bytes),
    {
        match self.hash_per_byte_ns.median() {
            None => None,
            Some(rate) => Some(scale_cost(rate, bytes)),
        }
    }

    /// Predicted time to lint `bytes` bytes.
    pub fn predict_lint(&self, bytes: u64) -> (r: Option<u64>)
        ensures
            r == predicted(self.lint_per_byte_ns.values@, bytes),
    {
        match self.lint_per_byte_ns.median() {
            None => None,
            Some(rate) => Some(scale_cost(rate, bytes)),
        }
    }
}

/// Versions and settings a cache was written under.
#[derive(Debug, Clone)]
pub struct CacheHeader {
    pub schema_version: u32,
    pub logic_version: u32,
    pub config_fingerprint: String,
    pub timings: CacheTimings,
}

impl CacheHeader {
    /// A header for the current versions and the given config fingerprint.
    pub fn new(config_fingerprint: &str) -> (r: CacheHeader)
        ensures
            r.schema_version == CACHE_SCHEMA_VERSION,
            r.logic_version == CACHE_LOGIC_VERSION,
            r.config_fingerprint@ == config_fingerprint@,
            r.timings.load_ns.values@.len() == 0,
            r.timings.save_ns.values@.len() == 0,
            r.timings.stat_per_file_ns.values@.len() == 0,
            r.timings.hash_per_byte_ns.values@.len() == 0,
            r.timings.lint_per_byte_ns.values@.len() == 0,
    {
        CacheHeader {
            schema_version: CACHE_SCHEMA_VERSION,
            logic_version: CACHE_LOGIC_VERSION,
            config_fingerprint: owned(config_fingerprint),
            timings: CacheTimings::new(),
        }
    }

    pub open spec fn valid_for(self, config_fingerprint: Seq<char>) -> bool {
        self.schema_version == CACHE_SCHEMA_VERSION && self.logic_version == CACHE_LOGIC_VERSION
            && self.config_fingerprint@ == config_fingerprint
    }

    /// Whether a cache with this header can be reused under `config_fingerprint`.
    pub fn matches(&self, config_fingerprint: &str) -> (b: bool)
        ensures
            b == self.valid_for(config_fingerprint@),
    {
        self.schema_version == CACHE_SCHEMA_VERSION && self.logic_version == CACHE_LOGIC_VERSION
            && self.config_fingerprint == owned(config_fingerprint)
    }
}

/// What the cache remembers about one file.
#[derive(Debug, Clone)]
pub struct CacheEntry {
    pub fingerprint: FileFingerprint,
    pub hash: String,
    pub result: LintResult,
}

/// Whether two optional strings hold the same text.
pub open spec fn same_opt_text(a: Option<String>, b: Option<String>) -> bool {
    match (a, b) {
        (None, None) => true,
        (Some(x), Some(y)) => x@ == y@,
        _ => false,
    }
}

/// Whether two diagnostics are the same finding (fixes compared by presence
/// and content).
pub open spec fn same_diagnostic(a: LintDiagnostic, b: LintDiagnostic) -> bool {
    &&& a.rule_name@ == b.rule_name@
    &&& a.message@ == b.message@
    &&& a.span@ == b.span@
    &&& a.severity == b.severity
    &&& a.origin == b.origin
    &&& a.byte_start == b.byte_start
    &&& a.byte_end == b.byte_end
    &&& same_opt_text(a.node_kind, b.node_kind)
    &&& same_opt_text(a.symbol, b.symbol)
    &&& match (a.fix, b.fix) {
        (None, None) => true,
        (Some(x), Some(y)) => x.range_start == y.range_start && x.range_end == y.range_end
            && x.replacement@ == y.replacement@ && same_opt_text(x.description, y.description)
            && x.safety == y.safety,
        _ => false,
    }
}

/// Whether two cache entries hold the same fingerprint, hash and result.
pub open spec fn same_entry(a: CacheEntry, b: CacheEntry) -> bool {
    &&& a.fingerprint == b.fingerprint
    &&& a.hash@ == b.hash@
    &&& a.result.file@ == b.result.file@
    &&& a.result.diagnostics@.len() == b.result.diagnostics@.len()
    &&& forall|i: int|
        0 <= i < a.result.diagnostics@.len() ==> same_diagnostic(
            #[trigger] a.result.diagnostics@[i],
            b.result.diagnostics@[i],
        )
}

fn same_opt_text_exec(a: &Option<String>, b: &Option<String>) -> (r: bool)
    ensures
        r == same_opt_text(*a, *b),
{
    match (a, b) {
        (None, None) => true,
        (Some(x), Some(y)) => *x == *y,
        _ => false,
    }
}

fn same_diagnostic_exec(a: &LintDiagnostic, b: &LintDiagnostic) -> (r: bool)
    ensures
        r == same_diagnostic(*a, *b),
{
    let fixes = match (&a.fix, &b.fix) {
        (None, None) => true,
        (Some(x), Some(y)) => x.range_start == y.range_start && x.range_end == y.range_end
            && x.replacement == y.replacement && same_opt_text_exec(&x.description, &y.description)
            && x.safety == y.safety,
        _ => false,
    };
    a.rule_name == b.rule_name && a.message == b.message && a.span == b.span && a.severity
        == b.severity && a.origin == b.origin && a.byte_start == b.byte_start && a.byte_end
        == b.byte_end && same_opt_text_exec(&a.node_kind, &b.node_kind) && same_opt_text_exec(
        &a.symbol,
        &b.symbol,
    ) && fixes
}

fn same_entry_exec(a: &CacheEntry, b: &CacheEntry) -> (r: bool)
    ensures
        r == same_entry(*a, *b),
{
    if !a.fingerprint.matches(&b.fingerprint) || a.hash != b.hash || a.result.file
        != b.result.file || a.result.diagnostics.len() != b.result.diagnostics.len() {
        return false;
    }
    let mut i: usize = 0;
    while i < a.result.diagnostics.len()
        invariant
            i <= a.result.diagnostics@.len(),
            a.result.diagnostics@.len() == b.result.diagnostics@.len(),
            forall|k: int|
                0 <= k < i ==> same_diagnostic(
                    #[trigger] a.result.diagnostics@[k],
                    b.result.diagnostics@[k],
                ),
        decreases a.result.diagnostics@.len() - i,
    {
        if !same_diagnostic_exec(&a.result.diagnostics[i], &b.result.diagnostics[i]) {
            return false;
        }
        i = i + 1;
    }
    true
}

/// How loading the cache went.
#[derive(Debug, Clone, Copy, PartialEq, Eq, Structural)]
pub enum CacheLoadStatus {
    Missing,
    Loaded,
    Invalidated,
}

/// The lint cache: a header and one entry per file path (paths are distinct).
#[derive(Debug, Clone)]
pub struct Cache {
    pub header: CacheHeader,
    pub entries: Vec<(String, CacheEntry)>,
}

/// The paths of a list of entries.
pub open spec fn entry_paths(entries: Seq<(String, CacheEntry)>) -> Seq<Seq<char>> {
    entries.map_values(|e: (String, CacheEntry)| e.0@)
}

/// No path occurs twice.
pub open spec fn distinct_paths(entries: Seq<(String, CacheEntry)>) -> bool {
    forall|i: int, j: int|
        0 <= i < j < entries.len() ==> #[trigger] entries[i].0@ != #[trigger] entries[j].0@
}

/// The index of the entry for `path`, if any.
pub open spec fn entry_index(entries: Seq<(String, CacheEntry)>, path: Seq<char>) -> Option<int> {
    if exists|i: int| 0 <= i < entries.len() && #[trigger] entries[i].0@ == path {
        Some(choose|i: int| 0 <= i < entries.len() && #[trigger] entries[i].0@ == path)
    } else {
        None
    }
}

impl Cache {
    pub open spec fn wf(self) -> bool {
        distinct_paths(self.entries@)
    }

    /// An empty cache for a config fingerprint.
    pub fn new(config_fingerprint: &str) -> (r: Cache)
        ensures
            r.wf(),
            r.entries@.len() == 0,
            r.header.valid_for(config_fingerprint@),
            r.header.timings.load_ns.values@.len() == 0,
            r.header.timings.save_ns.values@.len() == 0,
            r.header.timings.stat_per_file_ns.values@.len() == 0,
            r.header.timings.hash_per_byte_ns.values@.len() == 0,
            r.header.timings.lint_per_byte_ns.values@.len() == 0,
    {
        Cache { header: CacheHeader::new(config_fingerprint), entries: Vec::new() }
    }

    fn find(&self, path: &str) -> (r: Option<usize>)
        requires
            self.wf(),
        ensures
            r matches Some(i) ==> (i < self.entries@.len() && self.entries@[i as int].0@ == path@),
            r is None ==> entry_index(self.entries@, path@) is None,
    {
        let target = owned(path);
        let mut i: usize = 0;
        while i < self.entries.len()
            invariant
                i <= self.entries@.len(),
                target@ == path@,
                forall|k: int| 0 <= k < i ==> #[trigger] self.entries@[k].0@ != path@,
            decreases self.entries@.len() - i,
        {
            if self.entries[i].0 == target {
                return Some(i);
            }
            i = i + 1;
        }
        None
    }

    /// The entry for `path`, if cached.
    pub fn get(&self, path: &str) -> (r: Option<&CacheEntry>)
        requires
            self.wf(),
        ensures
            r matches Some(e) ==> exists|i: int|
                0 <= i < self.entries@.len() && #[trigger] self.entries@[i].0@ == path@ && *e
                    == self.entries@[i].1,
            r is None ==> forall|i: int|
                0 <= i < self.entries@.len() ==> #[trigger] self.entries@[i].0@ != path@,
    {
        match self.find(path) {
            Some(i) => Some(&self.entries[i].1),
            None => None,
        }
    }

    /// Records the config fingerprint the cache now belongs to.
    pub fn update_fingerprint(&mut self, config_fingerprint: &str)
        ensures
            final(self).header.config_fingerprint@ == config_fingerprint@,
            final(self).header.schema_version == old(self).header.schema_version,
            final(self).header.logic_version == old(self).header.logic_version,
            final(self).header.timings == old(self).header.timings,
            final(self).entries == old(self).entries,
    {
        let fp = owned(config_fingerprint);
        if self.header.config_fingerprint != fp {
            self.header.config_fingerprint = fp;
        }
    }

    /// Stores the entry for `path`; reports whether it differs from what was
    /// stored before (a new path counts as a change).
    pub fn upsert(
        &mut self,
        path: String,
        fingerprint: FileFingerprint,
        hash: String,
        result: LintResult,
    ) -> (changed: bool)
        requires
            old(self).wf(),
        ensures
            final(self).wf(),
            final(self).header == old(self).header,
            exists|i: int|
                0 <= i < final(self).entries@.len() && #[trigger] final(self).entries@[i].0@ == path@
                    && final(self).entries@[i].1 == (CacheEntry { fingerprint, hash, result }),
            forall|q: Seq<char>|
                q != path@ ==> (entry_index(old(self).entries@, q) is Some <==> entry_index(
                    final(self).entries@,
                    q,
                ) is Some),
            forall|i: int|
                0 <= i < old(self).entries@.len() && #[trigger] old(self).entries@[i].0@ != path@
                    ==> final(self).entries@[i] == old(self).entries@[i],
            forall|j: int|
                0 <= j < final(self).entries@.len() && #[trigger] final(self).entries@[j].0@ != path@
                    ==> j < old(self).entries@.len(),
            changed == (match entry_index(old(self).entries@, path@) {
                None => true,
                Some(i) => !same_entry(
                    old(self).entries@[i].1,
                    CacheEntry { fingerprint, hash, result },
                ),
            }),
    {
        let next = CacheEntry { fingerprint, hash, result };
        match self.find(path.as_str()) {
            Some(i) => {
                let changed = !same_entry_exec(&self.entries[i].1, &next);
                proof {
                    let w = entry_index(old(self).entries@, path@)->Some_0;
                    assert(old(self).entries@[i as int].0@ == path@);
                    assert(w == i);
                }
                let ghost before = self.entries@;
                self.entries.set(i, (path, next));
                proof {
                    assert forall|q: Seq<char>| q != path@ implies (entry_index(before, q) is Some
                        <==> entry_index(self.entries@, q) is Some) by {
                        if entry_index(before, q) is Some {
                            let k = choose|k: int| 0 <= k < before.len() && #[trigger] before[k].0@ == q;
                            assert(self.entries@[k].0@ == q);
                        }
                        if entry_index(self.entries@, q) is Some {
                            let k = choose|k: int|
                                0 <= k < self.entries@.len() && #[trigger] self.entries@[k].0@ == q;
                            assert(before[k].0@ == q);
                        }
                    }
                    assert(self.entries@[i as int].0@ == path@);
                }
                changed
            },
            None => {
                let ghost before = self.entries@;
                self.entries.push((path, next));
                proof {
                    assert forall|q: Seq<char>| q != path@ implies (entry_index(before, q) is Some
                        <==> entry_index(self.entries@, q) is Some) by {
                        if entry_index(before, q) is Some {
                            let k = choose|k: int| 0 <= k < before.len() && #[trigger] before[k].0@ == q;
                            assert(self.entries@[k].0@ == q);
                        }
                        if entry_index(self.entries@, q) is Some {
                            let k = choose|k: int|
                                0 <= k < self.entries@.len() && #[trigger] self.entries@[k].0@ == q;
                            assert(before[k].0@ == q);
                        }
                    }
                    assert(self.entries@[before.len() as int].0@ == path@);
                }
                true
            },
        }
    }

    /// Keeps only the entries whose path is live; reports whether any was removed.
    pub fn prune_to(&mut self, live_paths: &Vec<String>) -> (changed: bool)
        requires
            old(self).wf(),
        ensures
            final(self).wf(),
            final(self).header == old(self).header,
            final(self).entries@ == old(self).entries@.filter(live_filter(live_paths@)),
            changed == (final(self).entries@.len() != old(self).entries@.len()),
    {
        let ghost pred = live_filter(live_paths@);
        let mut kept: Vec<(String, CacheEntry)> = Vec::new();
        let before = self.entries.len();
        let mut old_entries: Vec<(String, CacheEntry)> = Vec::new();
        std::mem::swap(&mut old_entries, &mut self.entries);
        let ghost src = old_entries@;
        assert(src == old(self).entries@);
        let mut i: usize = 0;
        let n = old_entries.len();
        assert(src.skip(0) =~= src);
        while old_entries.len() > 0
            invariant
                i <= src.len(),
                src.len() == n,
                old_entries@ == src.skip(i as int),
                distinct_paths(src),
                pred == live_filter(live_paths@),
                kept@ == src.take(i as int).filter(pred),
            decreases old_entries@.len(),
        {
            assert(src.skip(i as int).len() > 0);
            assert(i < n);
            let e = old_entries.remove(0);
            assert(e == src[i as int]);
            assert(old_entries@ =~= src.skip(i + 1));
            let live = is_live(live_paths, e.0.as_str());
            assert(live == live_path(live_paths@, src[i as int].0@));
            let ghost prev = kept@;
            if live {
                kept.push(e);
            }
            proof {
                reveal_with_fuel(Seq::<_>::filter, 1);
                assert(src.take(i + 1).drop_last() =~= src.take(i as int));
                assert(src.take(i + 1).last() == src[i as int]);
                assert(pred(src[i as int]) == live);
                assert(kept@ =~= src.take(i + 1).filter(pred));
            }
            i = i + 1;
        }
        assert(src.take(i as int) =~= src);
        proof {
            lemma_filter_distinct(src, pred);
        }
        self.entries = kept;
        before != self.entries.len()
    }
}

/// Keeps an entry whose path is live.
pub open spec fn live_filter(live: Seq<String>) -> spec_fn((String, CacheEntry)) -> bool {
    |e: (String, CacheEntry)| live_path(live, e.0@)
}

/// What was found where the cache file should be.
#[derive(Debug, Clone)]
pub enum StoredCache {
    /// No cache file exists.
    Missing,
    /// The file exists but does not hold a cache.
    Unreadable,
    /// The file holds this cache.
    Parsed(Cache),
}

/// Whether no later entry of `s` shares the path of entry `i`.
pub open spec fn is_last_for_path(s: Seq<(String, CacheEntry)>, i: int) -> bool {
    forall|j: int| i < j < s.len() ==> #[trigger] s[j].0@ != s[i].0@
}

/// The first `n` entries of `s`, each kept only where it is the last entry
/// for its path (a later entry for the same path replaces it).
pub open spec fn last_per_path(s: Seq<(String, CacheEntry)>, n: int) -> Seq<(String, CacheEntry)>
    decreases n,
{
    if n <= 0 || n > s.len() {
        Seq::empty()
    } else if is_last_for_path(s, n - 1) {
        last_per_path(s, n - 1).push(s[n - 1])
    } else {
        last_per_path(s, n - 1)
    }
}

/// Entry `e` has the path of an entry among the first `n` of `s` that is
/// the last for its path.
pub open spec fn from_last_entry(s: Seq<(String, CacheEntry)>, n: int, e: (String, CacheEntry)) -> bool {
    exists|i: int| 0 <= i < n && is_last_for_path(s, i) && e.0@ == #[trigger] s[i].0@
}

/// What `last_per_path` keeps are entries that are last for their path, so
/// no two share a path.
pub proof fn lemma_last_per_path(s: Seq<(String, CacheEntry)>, n: int)
    requires
        0 <= n <= s.len(),
    ensures
        distinct_paths(last_per_path(s, n)),
        forall|k: int| 0 <= k < last_per_path(s, n).len() ==> from_last_entry(s, n, #[trigger] last_per_path(s, n)[k]),
    decreases n,
{
    if n > 0 {
        lemma_last_per_path(s, n - 1);
        let prev = last_per_path(s, n - 1);
        assert forall|k: int| 0 <= k < prev.len() implies from_last_entry(s, n, #[trigger] prev[k]) by {
            assert(from_last_entry(s, n - 1, prev[k]));
            let i = choose|i: int| 0 <= i < n - 1 && is_last_for_path(s, i) && prev[k].0@ == #[trigger] s[i].0@;
            assert(0 <= i < n && is_last_for_path(s, i) && prev[k].0@ == s[i].0@);
        }
        if is_last_for_path(s, n - 1) {
            let cur = prev.push(s[n - 1]);
            assert(last_per_path(s, n) == cur);
            assert forall|k: int| 0 <= k < cur.len() implies from_last_entry(s, n, #[trigger] cur[k]) by {
                if k < prev.len() {
                    assert(cur[k] == prev[k]);
                } else {
                    assert(cur[k] == s[n - 1]);
                    assert(is_last_for_path(s, n - 1) && cur[k].0@ == s[n - 1].0@);
                }
            }
            assert forall|a: int, c: int| 0 <= a < c < cur.len() implies #[trigger] cur[a].0@ != #[trigger] cur[c].0@ by {
                if c < prev.len() {
                    assert(cur[a] == prev[a] && cur[c] == prev[c]);
                } else {
                    assert(cur[a] == prev[a]);
                    assert(from_last_entry(s, n - 1, prev[a]));
                    let i = choose|i: int| 0 <= i < n - 1 && is_last_for_path(s, i) && prev[a].0@ == #[trigger] s[i].0@;
                    assert(s[n - 1].0@ != s[i].0@);
                }
            }
        }
    }
}

/// Keeps, for each path, only its last entry, in the order of those entries.
fn keep_last_per_path(entries: Vec<(String, CacheEntry)>) -> (r: Vec<(String, CacheEntry)>)
    ensures
        r@ == last_per_path(entries@, entries@.len() as int),
        distinct_paths(r@),
{
    let ghost src = entries@;
    let mut rest = entries;
    let mut out: Vec<(String, CacheEntry)> = Vec::new();
    let ghost mut i: int = 0;
    assert(src.skip(0) =~= src);
    while rest.len() > 0
        invariant
            0 <= i <= src.len(),
            rest@ == src.skip(i),
            out@ == last_per_path(src, i),
        decreases rest@.len(),
    {
        let mut last = true;
        let mut k: usize = 1;
        while k < rest.len() && last
            invariant
                1 <= k <= rest@.len(),
                rest@ == src.skip(i),
                i < src.len(),
                last ==> forall|j: int| 1 <= j < k ==> #[trigger] rest@[j].0@ != rest@[0].0@,
                !last ==> exists|j: int| 1 <= j < rest@.len() && #[trigger] rest@[j].0@ == rest@[0].0@,
            decreases rest@.len() - k,
        {
            if rest[k].0 == rest[0].0 {
                last = false;
            }
            k = k + 1;
        }
        proof {
            if last {
                assert forall|j: int| i < j < src.len() implies #[trigger] src[j].0@ != src[i].0@ by {
                    assert(src[j] == rest@[j - i]);
                    assert(src[i] == rest@[0]);
                }
            } else {
                let j = choose|j: int| 1 <= j < rest@.len() && #[trigger] rest@[j].0@ == rest@[0].0@;
                assert(src[i + j] == rest@[j]);
                assert(src[i] == rest@[0]);
                assert(!is_last_for_path(src, i));
            }
        }
        let e = rest.remove(0);
        assert(e == src[i]);
        if last {
            out.push(e);
        }
        proof {
            i = i + 1;
            assert(rest@ =~= src.skip(i));
        }
    }
    assert(i == src.len());
    proof {
        lemma_last_per_path(src, i);
    }
    out
}

impl Cache {
    /// Whether this is the empty cache `new` makes for `config_fingerprint`:
    /// no entries, a header for the current versions and that fingerprint,
    /// and no timing samples.
    pub open spec fn is_fresh_for(self, config_fingerprint: Seq<char>) -> bool {
        &&& self.entries@.len() == 0
        &&& self.header.valid_for(config_fingerprint)
        &&& self.header.timings.load_ns.values@.len() == 0
        &&& self.header.timings.save_ns.values@.len() == 0
        &&& self.header.timings.stat_per_file_ns.values@.len() == 0
        &&& self.header.timings.hash_per_byte_ns.values@.len() == 0
        &&& self.header.timings.lint_per_byte_ns.values@.len() == 0
    }

    /// The cache to use given what was stored: a stored cache is reused only
    /// when its header matches the current versions and config fingerprint;
    /// where it holds several entries for one path, the last one stands.
    /// Otherwise a fresh cache is made.
    pub fn from_stored(stored: StoredCache, config_fingerprint: &str) -> (r: (Cache, CacheLoadStatus))
        ensures
            match stored {
                StoredCache::Missing => r.1 == CacheLoadStatus::Missing && r.0.is_fresh_for(config_fingerprint@),
                StoredCache::Unreadable => r.1 == CacheLoadStatus::Invalidated && r.0.is_fresh_for(
                    config_fingerprint@,
                ),
                StoredCache::Parsed(c) => if c.header.valid_for(config_fingerprint@) {
                    &&& r.1 == CacheLoadStatus::Loaded
                    &&& r.0.header == c.header
                    &&& r.0.entries@ == last_per_path(c.entries@, c.entries@.len() as int)
                } else {
                    r.1 == CacheLoadStatus::Invalidated && r.0.is_fresh_for(config_fingerprint@)
                },
            },
            r.0.wf(),
    {
        match stored {
            StoredCache::Missing => (Cache::new(config_fingerprint), CacheLoadStatus::Missing),
            StoredCache::Unreadable => (Cache::new(config_fingerprint), CacheLoadStatus::Invalidated),
            StoredCache::Parsed(cache) => {
                if cache.header.matches(config_fingerprint) {
                    let Cache { header, entries } = cache;
                    (Cache { header, entries: keep_last_per_path(entries) }, CacheLoadStatus::Loaded)
                } else {
                    (Cache::new(config_fingerprint), CacheLoadStatus::Invalidated)
                }
            },
        }
    }
}

impl Default for Cache {
    fn default() -> (r: Cache)
        ensures
            r.wf(),
            r.entries@.len() == 0,
            r.header.config_fingerprint@ == Seq::<char>::empty(),
    {
        proof {
            reveal_strlit("");
        }
        Cache::new("")
    }
}

/// Whether a path is among the live paths.
pub open spec fn live_path(live: Seq<String>, path: Seq<char>) -> bool {
    exists|i: int| 0 <= i < live.len() && #[trigger] live[i]@ == path
}

fn is_live(live_paths: &Vec<String>, path: &str) -> (b: bool)
    ensures
        b == live_path(live_paths@, path@),
{
    let target = owned(path);
    let mut i: usize = 0;
    while i < live_paths.len()
        invariant
            i <= live_paths@.len(),
            target@ == path@,
            forall|k: int| 0 <= k < i ==> #[trigger] live_paths@[k]@ != path@,
        decreases live_paths@.len() - i,
    {
        if live_paths[i] == target {
            return true;
        }
        i = i + 1;
    }
    false
}

proof fn lemma_filter_members(s: Seq<(String, CacheEntry)>, pred: spec_fn((String, CacheEntry)) -> bool)
    ensures
        forall|i: int|
            0 <= i < s.filter(pred).len() ==> exists|k: int|
                0 <= k < s.len() && s[k] == #[trigger] s.filter(pred)[i],
    decreases s.len(),
{
    reveal_with_fuel(Seq::<_>::filter, 1);
    if s.len() > 0 {
        lemma_filter_members(s.drop_last(), pred);
        let f = s.drop_last().filter(pred);
        assert forall|i: int| 0 <= i < s.filter(pred).len() implies exists|k: int|
            0 <= k < s.len() && s[k] == #[trigger] s.filter(pred)[i] by {
            if i < f.len() {
                assert(s.filter(pred)[i] == f[i]);
                let k = choose|k: int| 0 <= k < s.drop_last().len() && s.drop_last()[k] == #[trigger] f[i];
                assert(s[k] == s.drop_last()[k]);
            } else {
                assert(s[s.len() - 1] == s.filter(pred)[i]);
            }
        }
    }
}

proof fn lemma_filter_distinct(s: Seq<(String, CacheEntry)>, pred: spec_fn((String, CacheEntry)) -> bool)
    requires
        distinct_paths(s),
    ensures
        distinct_paths(s.filter(pred)),
    decreases s.len(),
{
    reveal_with_fuel(Seq::<_>::filter, 1);
    if s.len() > 0 {
        lemma_filter_distinct(s.drop_last(), pred);
        lemma_filter_members(s.drop_last(), pred);
        let f = s.drop_last().filter(pred);
        if pred(s.last()) {
            assert forall|i: int, j: int| 0 <= i < j < s.filter(pred).len() implies #[trigger] s.filter(
                pred,
            )[i].0@ != #[trigger] s.filter(pred)[j].0@ by {
                assert(s.filter(pred)[i] == f[i]);
                if j == f.len() {
                    let k = choose|k: int| 0 <= k < s.drop_last().len() && s.drop_last()[k] == #[trigger] f[i];
                    assert(s[k] == f[i]);
                    assert(s.filter(pred)[j] == s[s.len() - 1]);
                } else {
                    assert(s.filter(pred)[j] == f[j]);
                }
            }
        }
    }
}

} // verus!
