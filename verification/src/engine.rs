//! What every rule shares: the context a rule reads (source, tree, file
//! kind), the `line:col` position of a byte offset, and the construction
//! of diagnostics.
use vstd::prelude::*;

use crate::ast::Ast;
use crate::lint::{LintDiagnostic, RuleOrigin, Severity};
use crate::text::{chars_of, string_of};

verus! {

/// The number of bytes UTF-8 spends on a character.
pub open spec fn utf8_len(c: char) -> nat {
    if (c as u32) < 0x80 {
        1
    } else if (c as u32) < 0x800 {
        2
    } else if (c as u32) < 0x10000 {
        3
    } else {
        4
    }
}

/// Line and column (from 1) just after the characters `p`: a newline starts
/// a new line, any other character moves one column on.
pub open spec fn line_col_after(p: Seq<char>) -> (nat, nat)
    decreases p.len(),
{
    if p.len() == 0 {
        (1, 1)
    } else {
        let (l, c) = line_col_after(p.drop_last());
        if p.last() == '\n' {
            (l + 1, 1)
        } else {
            (l, c + 1)
        }
    }
}

/// Index of the first character at or after `i` whose first byte is not
/// before `offset`, where the character at `i` starts at byte `b`.
pub open spec fn first_at_or_after(s: Seq<char>, offset: int, i: int, b: int) -> int
    decreases s.len() - i,
{
    if i < 0 || i >= s.len() || b >= offset {
        i
    } else {
        first_at_or_after(s, offset, i + 1, b + utf8_len(s[i]))
    }
}

/// Line and column of byte `offset` of the UTF-8 text `s`: the position
/// just after the characters that start before it.
pub open spec fn line_col(s: Seq<char>, offset: int) -> (nat, nat) {
    line_col_after(s.take(first_at_or_after(s, offset, 0, 0)))
}

/// The decimal digit for `d < 10`.
pub open spec fn digit(d: nat) -> char {
    if d == 0 { '0' }
    else if d == 1 { '1' }
    else if d == 2 { '2' }
    else if d == 3 { '3' }
    else if d == 4 { '4' }
    else if d == 5 { '5' }
    else if d == 6 { '6' }
    else if d == 7 { '7' }
    else if d == 8 { '8' }
    else { '9' }
}

/// The decimal numeral of `n`.
pub open spec fn decimal(n: nat) -> Seq<char>
    decreases n,
{
    if n < 10 {
        seq![digit(n)]
    } else {
        decimal(n / 10).push(digit(n % 10))
    }
}

/// `line:col`.
pub open spec fn position_text(lc: (nat, nat)) -> Seq<char> {
    decimal(lc.0) + seq![':'] + decimal(lc.1)
}

/// The plain values of a diagnostic (its fix aside).
pub struct DiagView {
    pub rule_name: Seq<char>,
    pub message: Seq<char>,
    pub span: Seq<char>,
    pub severity: Severity,
    pub origin: RuleOrigin,
    pub byte_start: u32,
    pub byte_end: u32,
    pub node_kind: Option<Seq<char>>,
    pub symbol: Option<Seq<char>>,
    pub has_fix: bool,
}

pub open spec fn opt_view(o: Option<String>) -> Option<Seq<char>> {
    match o {
        Some(s) => Some(s@),
        None => None,
    }
}

impl View for LintDiagnostic {
    type V = DiagView;

    open spec fn view(&self) -> DiagView {
        DiagView {
            rule_name: self.rule_name@,
            message: self.message@,
            span: self.span@,
            severity: self.severity,
            origin: self.origin,
            byte_start: self.byte_start,
            byte_end: self.byte_end,
            node_kind: opt_view(self.node_kind),
            symbol: opt_view(self.symbol),
            has_fix: self.fix is Some,
        }
    }
}

/// The diagnostic a rule reports for the byte span `start..end` of `source`.
pub open spec fn diag(
    source: Seq<char>,
    rule: Seq<char>,
    message: Seq<char>,
    start: u32,
    end: u32,
    severity: Severity,
    origin: RuleOrigin,
) -> DiagView {
    DiagView {
        rule_name: rule,
        message,
        span: position_text(line_col(source, start as int)),
        severity,
        origin,
        byte_start: start,
        byte_end: end,
        node_kind: None,
        symbol: None,
        has_fix: false,
    }
}

/// A built-in rule's diagnostic that also names the node kind and the symbol involved.
pub open spec fn diag_with_context(
    source: Seq<char>,
    rule: Seq<char>,
    message: Seq<char>,
    start: u32,
    end: u32,
    severity: Severity,
    node_kind: Seq<char>,
    symbol: Option<Seq<char>>,
) -> DiagView {
    DiagView {
        node_kind: Some(node_kind),
        symbol,
        ..diag(source, rule, message, start, end, severity, RuleOrigin::BuiltIn)
    }
}

/// What a rule reads: the file's text, its tree, and its kind.
pub struct LintContext {
    pub source: Vec<char>,
    pub path: Vec<char>,
    pub ast: Ast,
    /// The file is TypeScript.
    pub typescript: bool,
}

impl LintContext {
    pub open spec fn wf(&self) -> bool {
        &&& self.ast.wf()
        &&& self.source@.len() < usize::MAX
    }

    /// The diagnostic of rule `rule` for `start..end`, reported by a built-in rule.
    pub open spec fn builtin(
        &self,
        rule: Seq<char>,
        message: Seq<char>,
        start: u32,
        end: u32,
        severity: Severity,
    ) -> DiagView {
        diag(self.source@, rule, message, start, end, severity, RuleOrigin::BuiltIn)
    }

    /// The diagnostic of rule `rule` for node `i`.
    pub open spec fn at_node(&self, rule: Seq<char>, message: Seq<char>, i: int, severity: Severity) -> DiagView {
        self.builtin(rule, message, self.ast.nodes@[i].start, self.ast.nodes@[i].end, severity)
    }

    /// A built-in rule's diagnostic for `start..end`.
    pub fn diagnostic(
        &self,
        rule: &str,
        message: &Vec<char>,
        start: u32,
        end: u32,
        severity: Severity,
    ) -> (r: LintDiagnostic)
        requires
            self.wf(),
        ensures
            r@ == self.builtin(rule@, message@, start, end, severity),
    {
        make_diagnostic(&self.source, &chars_of(rule), message, start, end, severity, RuleOrigin::BuiltIn)
    }

    /// A built-in rule's diagnostic for node `i` naming the node kind and a symbol.
    pub fn node_diagnostic_with_context(
        &self,
        rule: &str,
        message: &Vec<char>,
        i: usize,
        severity: Severity,
        node_kind: &str,
        symbol: Option<Vec<char>>,
    ) -> (r: LintDiagnostic)
        requires
            self.wf(),
            i < self.ast.nodes@.len(),
        ensures
            r@ == diag_with_context(
                self.source@,
                rule@,
                message@,
                self.ast.nodes@[i as int].start,
                self.ast.nodes@[i as int].end,
                severity,
                node_kind@,
                crate::estree::opt_seq(symbol),
            ),
    {
        let mut d = self.node_diagnostic(rule, message, i, severity);
        d.node_kind = Some(crate::text::owned(node_kind));
        d.symbol = match symbol {
            Some(s) => Some(string_of(&s)),
            None => None,
        };
        d
    }

    /// A built-in rule's diagnostic for node `i`.
    pub fn node_diagnostic(&self, rule: &str, message: &Vec<char>, i: usize, severity: Severity) -> (r: LintDiagnostic)
        requires
            self.wf(),
            i < self.ast.nodes@.len(),
        ensures
            r@ == self.at_node(rule@, message@, i as int, severity),
    {
        let n = &self.ast.nodes[i];
        self.diagnostic(rule, message, n.start, n.end, severity)
    }
}

/// The UTF-8 width of `c`.
pub fn utf8_width(c: char) -> (r: u8)
    ensures
        r as nat == utf8_len(c),
{
    if (c as u32) < 0x80 {
        1
    } else if (c as u32) < 0x800 {
        2
    } else if (c as u32) < 0x10000 {
        3
    } else {
        4
    }
}

proof fn lemma_line_col_bound(p: Seq<char>)
    ensures
        1 <= line_col_after(p).0 <= p.len() + 1,
        1 <= line_col_after(p).1 <= p.len() + 1,
    decreases p.len(),
{
    if p.len() > 0 {
        lemma_line_col_bound(p.drop_last());
    }
}

/// Line and column (from 1) of byte `offset` of the text whose characters are `s`.
pub fn offset_to_line_col(s: &Vec<char>, offset: u32) -> (r: (usize, usize))
    requires
        s@.len() < usize::MAX,
    ensures
        (r.0 as nat, r.1 as nat) == line_col(s@, offset as int),
        1 <= r.0 <= s@.len() + 1,
{
    let mut line: usize = 1;
    let mut col: usize = 1;
    let mut i: usize = 0;
    let mut b: u64 = 0;
    while i < s.len() && b < offset as u64
        invariant
            i <= s@.len(),
            s@.len() < usize::MAX,
            b <= 4 * i,
            first_at_or_after(s@, offset as int, i as int, b as int) == first_at_or_after(
                s@,
                offset as int,
                0,
                0,
            ),
            (line as nat, col as nat) == line_col_after(s@.take(i as int)),
        decreases s@.len() - i,
    {
        proof {
            lemma_line_col_bound(s@.take(i as int));
            assert(s@.take(i + 1).drop_last() =~= s@.take(i as int));
        }
        if s[i] == '\n' {
            line = line + 1;
            col = 1;
        } else {
            col = col + 1;
        }
        b = b + utf8_width(s[i]) as u64;
        i = i + 1;
    }
    assert(first_at_or_after(s@, offset as int, i as int, b as int) == i);
    proof {
        lemma_line_col_bound(s@.take(i as int));
    }
    (line, col)
}

/// The decimal numeral of `n`.
pub fn decimal_chars(n: usize) -> (r: Vec<char>)
    ensures
        r@ == decimal(n as nat),
    decreases n,
{
    let d = digit_char(n % 10);
    if n < 10 {
        let mut v: Vec<char> = Vec::new();
        v.push(d);
        assert(v@ =~= seq![digit(n as nat)]);
        v
    } else {
        let mut v = decimal_chars(n / 10);
        v.push(d);
        v
    }
}

fn digit_char(d: usize) -> (c: char)
    requires
        d < 10,
    ensures
        c == digit(d as nat),
{
    if d == 0 { '0' }
    else if d == 1 { '1' }
    else if d == 2 { '2' }
    else if d == 3 { '3' }
    else if d == 4 { '4' }
    else if d == 5 { '5' }
    else if d == 6 { '6' }
    else if d == 7 { '7' }
    else if d == 8 { '8' }
    else { '9' }
}

/// `line:col` of byte `offset` of `source`.
pub fn position_of(source: &Vec<char>, offset: u32) -> (r: Vec<char>)
    requires
        source@.len() < usize::MAX,
    ensures
        r@ == position_text(line_col(source@, offset as int)),
{
    let (line, col) = offset_to_line_col(source, offset);
    let mut out = decimal_chars(line);
    out.push(':');
    let tail = decimal_chars(col);
    let mut k: usize = 0;
    let ghost head = out@;
    while k < tail.len()
        invariant
            k <= tail@.len(),
            out@ == head + tail@.take(k as int),
        decreases tail@.len() - k,
    {
        out.push(tail[k]);
        k = k + 1;
        assert(out@ =~= head + tail@.take(k as int));
    }
    assert(tail@.take(k as int) =~= tail@);
    assert(out@ =~= decimal(line as nat) + seq![':'] + decimal(col as nat));
    out
}

/// A diagnostic of rule `rule` for `start..end` of `source`.
pub fn make_diagnostic(
    source: &Vec<char>,
    rule: &Vec<char>,
    message: &Vec<char>,
    start: u32,
    end: u32,
    severity: Severity,
    origin: RuleOrigin,
) -> (r: LintDiagnostic)
    requires
        source@.len() < usize::MAX,
    ensures
        r@ == diag(source@, rule@, message@, start, end, severity, origin),
{
    let span = position_of(source, start);
    LintDiagnostic {
        rule_name: string_of(rule),
        message: string_of(message),
        span: string_of(&span),
        severity,
        origin,
        fix: None,
        byte_start: start,
        byte_end: end,
        node_kind: None,
        symbol: None,
    }
}

/// The views of a list of diagnostics.
pub open spec fn views(v: Seq<LintDiagnostic>) -> Seq<DiagView> {
    v.map_values(|d: LintDiagnostic| d@)
}

/// The view of an optional diagnostic.
pub open spec fn opt_diag(o: Option<LintDiagnostic>) -> Option<DiagView> {
    match o {
        Some(d) => Some(d@),
        None => None,
    }
}

/// For each node index below `n`, in order, the diagnostic `f` reports there, if any.
pub open spec fn reports(n: int, f: spec_fn(int) -> Option<DiagView>) -> Seq<DiagView>
    decreases n,
{
    if n <= 0 {
        Seq::empty()
    } else {
        let before = reports(n - 1, f);
        match f(n - 1) {
            Some(d) => before.push(d),
            None => before,
        }
    }
}

pub proof fn lemma_views_append(a: Seq<LintDiagnostic>, b: Seq<LintDiagnostic>)
    ensures
        views(a + b) == views(a) + views(b),
{
    assert(views(a + b) =~= views(a) + views(b));
}

pub proof fn lemma_views_push(v: Seq<LintDiagnostic>, d: LintDiagnostic)
    ensures
        views(v.push(d)) == views(v).push(d@),
{
    assert(views(v.push(d)) =~= views(v).push(d@));
}

/// Runs a per-node check over every node of the tree, in order, keeping
/// what it reports.
pub(crate) fn scan_nodes<F: Fn(usize) -> Option<LintDiagnostic>>(
    cx: &LintContext,
    check: F,
    Ghost(spec_check): Ghost<spec_fn(int) -> Option<DiagView>>,
) -> (r: Vec<LintDiagnostic>)
    requires
        forall|i: usize| i < cx.ast.nodes@.len() ==> #[trigger] check.requires((i,)),
        forall|i: usize, d: Option<LintDiagnostic>|
            i < cx.ast.nodes@.len() && #[trigger] check.ensures((i,), d) ==> opt_diag(d) == spec_check(i as int),
    ensures
        views(r@) == reports(cx.ast.nodes@.len() as int, spec_check),
{
    let mut out: Vec<LintDiagnostic> = Vec::new();
    let n = cx.ast.nodes.len();
    let mut i: usize = 0;
    while i < n
        invariant
            n == cx.ast.nodes@.len(),
            i <= n,
            forall|i: usize| i < cx.ast.nodes@.len() ==> #[trigger] check.requires((i,)),
            forall|i: usize, d: Option<LintDiagnostic>|
                i < cx.ast.nodes@.len() && #[trigger] check.ensures((i,), d) ==> opt_diag(d) == spec_check(i as int),
            views(out@) == reports(i as int, spec_check),
        decreases n - i,
    {
        let found = check(i);
        match found {
            Some(d) => {
                proof {
                    lemma_views_push(out@, d);
                }
                out.push(d);
            },
            None => {},
        }
        i = i + 1;
    }
    out
}

/// The number of bytes UTF-8 spends on `s`.
pub open spec fn utf8_bytes(s: Seq<char>) -> nat
    decreases s.len(),
{
    if s.len() == 0 {
        0
    } else {
        utf8_bytes(s.drop_last()) + utf8_len(s.last())
    }
}

/// Whether `s` takes fewer than `n` bytes in UTF-8.
pub fn utf8_shorter_than(s: &Vec<char>, n: u64) -> (b: bool)
    ensures
        b == (utf8_bytes(s@) < n),
{
    if n == 0 {
        return false;
    }
    let mut total: u64 = 0;
    let mut i: usize = 0;
    assert(s@.take(0) =~= Seq::<char>::empty());
    while i < s.len()
        invariant
            i <= s@.len(),
            total == utf8_bytes(s@.take(i as int)),
            total < n,
        decreases s@.len() - i,
    {
        proof {
            assert(s@.take(i + 1).drop_last() =~= s@.take(i as int));
        }
        let w = utf8_width(s[i]) as u64;
        if w >= n - total {
            proof {
                lemma_utf8_bytes_prefix(s@, i + 1);
            }
            return false;
        }
        total = total + w;
        i = i + 1;
    }
    assert(s@.take(i as int) =~= s@);
    true
}

/// A prefix never takes more bytes than the whole.
pub proof fn lemma_utf8_bytes_prefix(s: Seq<char>, k: int)
    requires
        0 <= k <= s.len(),
    ensures
        utf8_bytes(s.take(k)) <= utf8_bytes(s),
    decreases s.len() - k,
{
    if k < s.len() {
        lemma_utf8_bytes_prefix(s, k + 1);
        assert(s.take(k + 1).drop_last() =~= s.take(k));
    } else {
        assert(s.take(k) =~= s);
    }
}

/// The first element of `s` that satisfies `p`.
pub open spec fn first_where(s: Seq<usize>, p: spec_fn(usize) -> bool) -> Option<usize>
    decreases s.len(),
{
    if s.len() == 0 {
        None
    } else if p(s[0]) {
        Some(s[0])
    } else {
        first_where(s.drop_first(), p)
    }
}

pub proof fn lemma_first_where_in(s: Seq<usize>, p: spec_fn(usize) -> bool)
    ensures
        first_where(s, p) matches Some(x) ==> s.contains(x) && p(x),
    decreases s.len(),
{
    if s.len() > 0 && !p(s[0]) {
        lemma_first_where_in(s.drop_first(), p);
        if let Some(x) = first_where(s.drop_first(), p) {
            let k = choose|k: int| 0 <= k < s.drop_first().len() && s.drop_first()[k] == x;
            assert(s[k + 1] == x);
        }
    }
}

/// The first element of `s` that `test` accepts.
pub(crate) fn first_where_exec<F: Fn(usize) -> bool>(s: &Vec<usize>, test: F, Ghost(p): Ghost<spec_fn(usize) -> bool>) -> (r: Option<usize>)
    requires
        forall|k: int| 0 <= k < s@.len() ==> #[trigger] test.requires((s@[k],)),
        forall|x: usize, b: bool| s@.contains(x) && #[trigger] test.ensures((x,), b) ==> b == p(x),
    ensures
        r == first_where(s@, p),
{
    let mut k: usize = 0;
    assert(s@.skip(0) =~= s@);
    while k < s.len()
        invariant
            k <= s@.len(),
            forall|q: int| 0 <= q < s@.len() ==> #[trigger] test.requires((s@[q],)),
            forall|x: usize, b: bool| s@.contains(x) && #[trigger] test.ensures((x,), b) ==> b == p(x),
            first_where(s@, p) == first_where(s@.skip(k as int), p),
        decreases s@.len() - k,
    {
        let x = s[k];
        assert(s@.skip(k as int)[0] == x);
        assert(s@.contains(x));
        if test(x) {
            return Some(x);
        }
        assert(s@.skip(k as int).drop_first() =~= s@.skip(k + 1));
        k = k + 1;
    }
    None
}

/// For each node index below `n`, in order, everything `f` reports there.
pub open spec fn reports_all(n: int, f: spec_fn(int) -> Seq<DiagView>) -> Seq<DiagView>
    decreases n,
{
    if n <= 0 {
        Seq::empty()
    } else {
        reports_all(n - 1, f) + f(n - 1)
    }
}

/// Runs a per-node check that may report several diagnostics over every
/// node of the tree, in order, keeping what it reports.
pub(crate) fn scan_nodes_all<F: Fn(usize) -> Vec<LintDiagnostic>>(
    cx: &LintContext,
    check: F,
    Ghost(spec_check): Ghost<spec_fn(int) -> Seq<DiagView>>,
) -> (r: Vec<LintDiagnostic>)
    requires
        forall|i: usize| i < cx.ast.nodes@.len() ==> #[trigger] check.requires((i,)),
        forall|i: usize, d: Vec<LintDiagnostic>|
            i < cx.ast.nodes@.len() && #[trigger] check.ensures((i,), d) ==> views(d@) == spec_check(i as int),
    ensures
        views(r@) == reports_all(cx.ast.nodes@.len() as int, spec_check),
{
    let mut out: Vec<LintDiagnostic> = Vec::new();
    let n = cx.ast.nodes.len();
    let mut i: usize = 0;
    while i < n
        invariant
            n == cx.ast.nodes@.len(),
            i <= n,
            forall|i: usize| i < cx.ast.nodes@.len() ==> #[trigger] check.requires((i,)),
            forall|i: usize, d: Vec<LintDiagnostic>|
                i < cx.ast.nodes@.len() && #[trigger] check.ensures((i,), d) ==> views(d@) == spec_check(i as int),
            views(out@) == reports_all(i as int, spec_check),
        decreases n - i,
    {
        let mut found = check(i);
        proof {
            lemma_views_append(out@, found@);
        }
        out.append(&mut found);
        i = i + 1;
    }
    out
}

/// For each element of `s`, in order, the diagnostic `f` reports for it, if any.
pub open spec fn filter_reports(s: Seq<usize>, f: spec_fn(usize) -> Option<DiagView>) -> Seq<DiagView>
    decreases s.len(),
{
    if s.len() == 0 {
        Seq::empty()
    } else {
        let before = filter_reports(s.drop_last(), f);
        match f(s.last()) {
            Some(d) => before.push(d),
            None => before,
        }
    }
}

/// Runs `check` on each element of `s`, in order, keeping what it reports.
pub(crate) fn filter_reports_exec<F: Fn(usize) -> Option<LintDiagnostic>>(
    s: &Vec<usize>,
    check: F,
    Ghost(f): Ghost<spec_fn(usize) -> Option<DiagView>>,
) -> (r: Vec<LintDiagnostic>)
    requires
        forall|k: int| 0 <= k < s@.len() ==> #[trigger] check.requires((s@[k],)),
        forall|x: usize, d: Option<LintDiagnostic>| s@.contains(x) && #[trigger] check.ensures((x,), d) ==> opt_diag(d) == f(x),
    ensures
        views(r@) == filter_reports(s@, f),
{
    let mut out: Vec<LintDiagnostic> = Vec::new();
    let mut k: usize = 0;
    assert(s@.take(0) =~= Seq::<usize>::empty());
    while k < s.len()
        invariant
            k <= s@.len(),
            forall|q: int| 0 <= q < s@.len() ==> #[trigger] check.requires((s@[q],)),
            forall|x: usize, d: Option<LintDiagnostic>| s@.contains(x) && #[trigger] check.ensures((x,), d) ==> opt_diag(d) == f(x),
            views(out@) == filter_reports(s@.take(k as int), f),
        decreases s@.len() - k,
    {
        let x = s[k];
        assert(s@.contains(x));
        assert(s@.take(k + 1).drop_last() =~= s@.take(k as int));
        assert(s@.take(k + 1).last() == x);
        match check(x) {
            Some(d) => {
                proof {
                    lemma_views_push(out@, d);
                }
                out.push(d);
            },
            None => {},
        }
        k = k + 1;
    }
    assert(s@.take(s@.len() as int) =~= s@);
    out
}

/// The number of nodes below `n` that satisfy `p`.
pub open spec fn count_nodes(n: int, p: spec_fn(int) -> bool) -> nat
    decreases n,
{
    if n <= 0 {
        0
    } else {
        count_nodes(n - 1, p) + if p(n - 1) { 1nat } else { 0nat }
    }
}

/// How many nodes of the tree pass `test`.
pub(crate) fn count_nodes_exec<F: Fn(usize) -> bool>(n: usize, test: F, Ghost(p): Ghost<spec_fn(int) -> bool>) -> (r: usize)
    requires
        forall|k: usize| k < n ==> #[trigger] test.requires((k,)),
        forall|k: usize, b: bool| k < n && #[trigger] test.ensures((k,), b) ==> b == p(k as int),
    ensures
        r as nat == count_nodes(n as int, p),
{
    let mut k: usize = 0;
    let mut c: usize = 0;
    while k < n
        invariant
            k <= n,
            c <= k,
            c as nat == count_nodes(k as int, p),
            forall|k: usize| k < n ==> #[trigger] test.requires((k,)),
            forall|k: usize, b: bool| k < n && #[trigger] test.ensures((k,), b) ==> b == p(k as int),
        decreases n - k,
    {
        if test(k) {
            c = c + 1;
        }
        k = k + 1;
    }
    c
}

/// Some node satisfies `p`.
pub open spec fn any_node(n: int, p: spec_fn(int) -> bool) -> bool {
    exists|k: int| 0 <= k < n && #[trigger] p(k)
}

/// Whether some node of the tree passes `test`.
pub(crate) fn any_node_exec<F: Fn(usize) -> bool>(n: usize, test: F, Ghost(p): Ghost<spec_fn(int) -> bool>) -> (b: bool)
    requires
        forall|k: usize| k < n ==> #[trigger] test.requires((k,)),
        forall|k: usize, b: bool| k < n && #[trigger] test.ensures((k,), b) ==> b == p(k as int),
    ensures
        b == any_node(n as int, p),
{
    let mut k: usize = 0;
    while k < n
        invariant
            k <= n,
            forall|k: usize| k < n ==> #[trigger] test.requires((k,)),
            forall|k: usize, b: bool| k < n && #[trigger] test.ensures((k,), b) ==> b == p(k as int),
            forall|q: int| 0 <= q < k ==> !#[trigger] p(q),
        decreases n - k,
    {
        if test(k) {
            assert(p(k as int));
            return true;
        }
        k = k + 1;
    }
    false
}

/// What a rule restricted to some projects reports: nothing when it is off.
pub open spec fn gated(on: bool, s: Seq<DiagView>) -> Seq<DiagView> {
    if on {
        s
    } else {
        Seq::empty()
    }
}

} // verus!
