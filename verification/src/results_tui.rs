//! Decisions behind the interactive results browser: reading a `line:col`
//! span, recognising VS Code-style editor launchers, and the browser's
//! state: which issues are visible, which is selected, what a key does.
use vstd::prelude::*;

use crate::policy_ir::{file_name, file_name_exec};
use crate::lint::{LintDiagnostic, Severity};
use crate::engine::{decimal_chars, position_text};
use crate::text::{
    owned, string_of, chars_of, contains, contains_chars, contains_str, eq_str, find_first, first_index, lower, lower_chars, subrange_of, trim,
    trim_chars,
};

verus! {

/// Whether every character is an ASCII digit.
pub open spec fn all_digits(s: Seq<char>) -> bool {
    forall|i: int| 0 <= i < s.len() ==> '0' <= #[trigger] s[i] && s[i] <= '9'
}

/// The decimal value of a digit string.
pub open spec fn decimal(s: Seq<char>) -> nat
    decreases s.len(),
{
    if s.len() == 0 {
        0
    } else {
        decimal(s.drop_last()) * 10 + ((s.last() as u32) - ('0' as u32)) as nat
    }
}

/// `str::parse::<u32>`: an optional `+`, then at least one digit, and a value
/// that fits in 32 bits.
pub open spec fn parse_u32(s: Seq<char>) -> Option<u32> {
    let digits = if s.len() > 0 && s[0] == '+' {
        s.drop_first()
    } else {
        s
    };
    if digits.len() > 0 && all_digits(digits) && decimal(digits) <= u32::MAX {
        Some(decimal(digits) as u32)
    } else {
        None
    }
}

/// A parsed positive number, or 1.
pub open spec fn positive_or_one(s: Seq<char>) -> u32 {
    match parse_u32(s) {
        Some(n) => if n > 0 {
            n
        } else {
            1
        },
        None => 1,
    }
}

/// The line and column of a `line:col` span; missing, unparsable or zero
/// parts read as 1.
pub open spec fn line_col(span: Seq<char>) -> (u32, u32) {
    match first_index(span, ':') {
        None => (positive_or_one(span), 1),
        Some(k) => {
            let rest = span.subrange(k + 1, span.len() as int);
            let col_text = match first_index(rest, ':') {
                None => rest,
                Some(m) => rest.subrange(0, m),
            };
            (positive_or_one(span.subrange(0, k)), positive_or_one(col_text))
        },
    }
}

fn parse_u32_exec(s: &Vec<char>) -> (r: Option<u32>)
    ensures
        r == parse_u32(s@),
{
    let start: usize = if s.len() > 0 && s[0] == '+' {
        1
    } else {
        0
    };
    let digits = subrange_of(s, start, s.len());
    assert(start == 1 ==> digits@ =~= s@.drop_first());
    assert(start == 0 ==> digits@ =~= s@);
    if digits.len() == 0 {
        return None;
    }
    let mut value: u64 = 0;
    let mut i: usize = 0;
    while i < digits.len()
        invariant
            i <= digits@.len(),
            digits@ == (if s@.len() > 0 && s@[0] == '+' {
                s@.drop_first()
            } else {
                s@
            }),
            all_digits(digits@.subrange(0, i as int)),
            value == decimal(digits@.subrange(0, i as int)),
            value <= u32::MAX,
        decreases digits@.len() - i,
    {
        let c = digits[i];
        assert(digits@.subrange(0, i + 1).drop_last() =~= digits@.subrange(0, i as int));
        if c < '0' || c > '9' {
            proof {
                assert(!all_digits(digits@)) by {
                    assert(!('0' <= digits@[i as int] && digits@[i as int] <= '9'));
                }
            }
            return None;
        }
        let d: u64 = (c as u32 - '0' as u32) as u64;
        let next: u64 = value * 10 + d;
        assert(digits@.subrange(0, i + 1).last() == c);
        assert(decimal(digits@.subrange(0, i + 1)) == next);
        if next > u32::MAX as u64 {
            proof {
                lemma_decimal_prefix_grows(digits@, i + 1);
            }
            return None;
        }
        value = next;
        i = i + 1;
        assert(all_digits(digits@.subrange(0, i as int)));
    }
    assert(digits@.subrange(0, i as int) =~= digits@);
    Some(value as u32)
}

proof fn lemma_decimal_prefix_grows(s: Seq<char>, n: int)
    requires
        0 < n <= s.len(),
    ensures
        all_digits(s) ==> decimal(s.subrange(0, n)) <= decimal(s),
    decreases s.len() - n,
{
    if n < s.len() && all_digits(s) {
        lemma_decimal_prefix_grows(s, n + 1);
        assert(s.subrange(0, n + 1).drop_last() =~= s.subrange(0, n));
        assert(all_digits(s.subrange(0, n + 1)));
    } else if n == s.len() {
        assert(s.subrange(0, n) =~= s);
    }
}

fn positive_or_one_exec(s: &Vec<char>) -> (r: u32)
    ensures
        r == positive_or_one(s@),
{
    match parse_u32_exec(s) {
        Some(n) => if n > 0 {
            n
        } else {
            1
        },
        None => 1,
    }
}

/// Reads the line and column of a `line:col` span.
pub fn parse_line_col(span: &str) -> (r: (u32, u32))
    ensures
        r == line_col(span@),
{
    let s = chars_of(span);
    match find_first(&s, ':') {
        None => (positive_or_one_exec(&s), 1),
        Some(k) => {
            let first = subrange_of(&s, 0, k);
            let rest = subrange_of(&s, k + 1, s.len());
            let col_text = match find_first(&rest, ':') {
                None => rest,
                Some(m) => subrange_of(&rest, 0, m),
            };
            (positive_or_one_exec(&first), positive_or_one_exec(&col_text))
        },
    }
}

/// Whether a program is a VS Code-family editor CLI (Cursor, VS Code, VS Code Insiders).
pub open spec fn vscode_family(program: Seq<char>) -> bool {
    let low = lower(program);
    let base = match file_name(program) {
        Some(f) => lower(f),
        None => Seq::empty(),
    };
    ||| base == "cursor"@
    ||| base == "code"@
    ||| base == "code-insiders"@
    ||| contains(low, "visual studio code"@)
    ||| contains(low, "/resources/app/bin/cursor"@)
    ||| contains(low, "/resources/app/bin/code"@)
}

/// Whether `program` is a VS Code-family editor CLI, which accepts `-r -g path:line:col`.
pub fn is_vscode_family_cli(program: &str) -> (b: bool)
    ensures
        b == vscode_family(program@),
{
    let p = chars_of(program);
    let low = lower_chars(&p);
    let base = match file_name_exec(&p) {
        Some(f) => lower_chars(&f),
        None => Vec::new(),
    };
    assert(file_name(program@) is None ==> base@ =~= Seq::<char>::empty());
    eq_str(&base, "cursor") || eq_str(&base, "code") || eq_str(&base, "code-insiders")
        || contains_str(&low, "visual studio code") || contains_str(&low, "/resources/app/bin/cursor")
        || contains_str(&low, "/resources/app/bin/code")
}

/// `path:line:col` for the location a span names.
pub open spec fn goto_target(path: Seq<char>, span: Seq<char>) -> Seq<char> {
    let lc = line_col(span);
    path + seq![':'] + position_text((lc.0 as nat, lc.1 as nat))
}

/// The location an editor is asked to open for a diagnostic at `span` in `path`.
pub fn goto_target_exec(path: &str, span: &str) -> (r: String)
    ensures
        r@ == goto_target(path@, span@),
{
    let (line, col) = parse_line_col(span);
    let mut out = chars_of(path);
    out.push(':');
    let mut l = decimal_chars(line as usize);
    out.append(&mut l);
    out.push(':');
    let mut c = decimal_chars(col as usize);
    out.append(&mut c);
    let r = string_of(&out);
    assert(r@ =~= goto_target(path@, span@));
    r
}

/// The arguments that ask an editor to open a location: VS Code-family
/// launchers also reuse the running window (`-r`); others get `-g` alone.
pub open spec fn goto_args(program: Seq<char>, target: Seq<char>) -> Seq<Seq<char>> {
    if vscode_family(program) {
        seq!["-r"@, "-g"@, target]
    } else {
        seq!["-g"@, target]
    }
}

/// The arguments to launch `program` with so that it opens `target`.
pub fn editor_goto_args(program: &str, target: &str) -> (r: Vec<String>)
    ensures
        r@.map_values(|s: String| s@) == goto_args(program@, target@),
{
    let mut r: Vec<String> = Vec::new();
    if is_vscode_family_cli(program) {
        r.push(owned("-r"));
    }
    r.push(owned("-g"));
    r.push(owned(target));
    proof {
        reveal_strlit("-r");
        reveal_strlit("-g");
    }
    assert(r@.map_values(|s: String| s@) =~= goto_args(program@, target@));
    r
}

/// `list` with `s` appended unless it is already there.
pub open spec fn push_new(list: Seq<Seq<char>>, s: Seq<char>) -> Seq<Seq<char>> {
    if list.contains(s) {
        list
    } else {
        list.push(s)
    }
}

/// `list` with each of `more` appended in turn unless already there.
pub open spec fn push_all_new(list: Seq<Seq<char>>, more: Seq<Seq<char>>) -> Seq<Seq<char>>
    decreases more.len(),
{
    if more.len() == 0 {
        list
    } else {
        push_new(push_all_new(list, more.drop_last()), more.last())
    }
}

/// The editor launchers to try, in order and without repeats: the
/// configured one (trimmed, when not blank), the bundled ones found on
/// disk, then `cursor` and `code` from the search path.
pub open spec fn editor_candidate_list(configured: Option<Seq<char>>, bundled: Seq<Seq<char>>) -> Seq<Seq<char>> {
    let first = match configured {
        Some(c) => if trim(c).len() > 0 {
            seq![trim(c)]
        } else {
            Seq::empty()
        },
        None => Seq::empty(),
    };
    push_all_new(push_all_new(first, bundled), seq!["cursor"@, "code"@])
}

fn push_new_exec(list: &mut Vec<String>, s: String)
    ensures
        final(list)@.map_values(|t: String| t@) == push_new(old(list)@.map_values(|t: String| t@), s@),
{
    let ghost before = list@.map_values(|t: String| t@);
    let mut i: usize = 0;
    while i < list.len()
        invariant
            i <= list@.len(),
            before == list@.map_values(|t: String| t@),
            forall|k: int| 0 <= k < i ==> before[k] != s@,
        decreases list@.len() - i,
    {
        if list[i] == s {
            assert(before[i as int] == s@);
            return;
        }
        i = i + 1;
    }
    list.push(s);
    assert(list@.map_values(|t: String| t@) =~= before.push(s@));
}

fn push_all_new_exec(list: &mut Vec<String>, more: Vec<String>)
    ensures
        final(list)@.map_values(|t: String| t@) == push_all_new(
            old(list)@.map_values(|t: String| t@),
            more@.map_values(|t: String| t@),
        ),
{
    let ghost start = list@.map_values(|t: String| t@);
    let ghost all = more@.map_values(|t: String| t@);
    let mut i: usize = 0;
    while i < more.len()
        invariant
            i <= more@.len(),
            all == more@.map_values(|t: String| t@),
            list@.map_values(|t: String| t@) == push_all_new(start, all.take(i as int)),
        decreases more@.len() - i,
    {
        assert(all.take(i + 1).drop_last() =~= all.take(i as int));
        assert(all.take(i + 1).last() == more@[i as int]@);
        push_new_exec(list, more[i].clone());
        i = i + 1;
    }
    assert(all.take(i as int) =~= all);
}

/// The editor launchers to try for opening a location.
pub fn editor_candidates(configured: Option<&str>, bundled: Vec<String>) -> (r: Vec<String>)
    ensures
        r@.map_values(|s: String| s@) == editor_candidate_list(
            match configured {
                Some(c) => Some(c@),
                None => None,
            },
            bundled@.map_values(|s: String| s@),
        ),
{
    let mut list: Vec<String> = Vec::new();
    match configured {
        Some(c) => {
            let t = trim_chars(&chars_of(c));
            if t.len() > 0 {
                list.push(string_of(&t));
            }
        },
        None => {},
    }
    assert(list@.map_values(|s: String| s@) =~= match configured {
        Some(c) => if trim(c@).len() > 0 {
            seq![trim(c@)]
        } else {
            Seq::empty()
        },
        None => Seq::<Seq<char>>::empty(),
    });
    push_all_new_exec(&mut list, bundled);
    let mut tail: Vec<String> = Vec::new();
    tail.push(owned("cursor"));
    tail.push(owned("code"));
    assert(tail@.map_values(|s: String| s@) =~= seq!["cursor"@, "code"@]);
    push_all_new_exec(&mut list, tail);
    list
}

/// `current + delta` clamped into `0..len`; 0 for an empty list.
pub open spec fn shifted(current: int, len: int, delta: int) -> int {
    if len == 0 {
        0
    } else if current + delta < 0 {
        0
    } else if current + delta > len - 1 {
        len - 1
    } else {
        current + delta
    }
}

/// Moves a selection by `delta` within a list of `len` items.
pub fn shift_index(current: usize, len: usize, delta: isize) -> (r: usize)
    requires
        current <= isize::MAX,
        len <= isize::MAX,
        isize::MIN <= current + delta <= isize::MAX,
    ensures
        r == shifted(current as int, len as int, delta as int),
{
    if len == 0 {
        return 0;
    }
    let next: isize = current as isize + delta;
    let hi: isize = len as isize - 1;
    if next < 0 {
        0
    } else if next > hi {
        hi as usize
    } else {
        next as usize
    }
}

// ── The results browser ────────────────────────────────────

/// Which pane has the focus.
#[derive(Debug, Clone, Copy, PartialEq, Eq, Structural)]
pub enum FocusPane {
    Issues,
    Detail,
}

/// What the caller should do after a key.
#[derive(Debug, Clone, Copy, PartialEq, Eq, Structural)]
pub enum AppAction {
    Continue,
    Quit,
    OpenSelectedLocation,
}

/// The keys the browser tells apart.
#[derive(Debug, Clone, Copy, PartialEq, Eq, Structural)]
pub enum Key {
    Char(char),
    Tab,
    BackTab,
    Left,
    Right,
    Up,
    Down,
    Home,
    End,
    Esc,
    Enter,
    Backspace,
    Other,
}

/// A key with the modifiers the browser reads.
#[derive(Debug, Clone, Copy, PartialEq, Eq, Structural)]
pub struct KeyPress {
    pub key: Key,
    pub control: bool,
    pub alt: bool,
}

/// One diagnostic and the file it was found in.
#[derive(Debug, Clone)]
pub struct IssueEntry {
    pub file: String,
    pub diagnostic: LintDiagnostic,
}

/// The browser's state: the issues grouped by category, the selection,
/// the focused pane, the search and the errors-only filter.
pub struct ResultsApp {
    pub categories: Vec<(String, Vec<IssueEntry>)>,
    pub selected_issue: usize,
    pub focus: FocusPane,
    pub search: Vec<char>,
    pub search_mode: bool,
    pub errors_only: bool,
    pub detail_scroll: u16,
}

/// The entries of all categories, category by category.
pub open spec fn flat(cats: Seq<(String, Vec<IssueEntry>)>) -> Seq<IssueEntry>
    decreases cats.len(),
{
    if cats.len() == 0 {
        Seq::empty()
    } else {
        flat(cats.drop_last()) + cats.last().1@
    }
}

/// The search text as it is matched: trimmed and lower-cased (ASCII).
pub open spec fn search_query(search: Seq<char>) -> Seq<char> {
    lower(trim(search))
}

/// Entry `e` passes the filters: an error when only errors are shown, and
/// its path, message or rule containing the query (any entry for an empty query).
pub open spec fn entry_shown(e: IssueEntry, errors_only: bool, query: Seq<char>) -> bool {
    &&& !errors_only || e.diagnostic.severity == Severity::Error
    &&& query.len() == 0 || contains(lower(e.file@), query) || contains(lower(e.diagnostic.message@), query)
        || contains(lower(e.diagnostic.rule_name@), query)
}

/// The entries of `s` that pass the filters, in order.
pub open spec fn shown(s: Seq<IssueEntry>, errors_only: bool, query: Seq<char>) -> Seq<IssueEntry>
    decreases s.len(),
{
    if s.len() == 0 {
        Seq::empty()
    } else {
        let before = shown(s.drop_last(), errors_only, query);
        if entry_shown(s.last(), errors_only, query) {
            before.push(s.last())
        } else {
            before
        }
    }
}


/// The category key of each visible issue, in list order.
pub open spec fn keys_shown(cats: Seq<(String, Vec<IssueEntry>)>, errors_only: bool, query: Seq<char>) -> Seq<
    Seq<char>,
>
    decreases cats.len(),
{
    if cats.len() == 0 {
        Seq::empty()
    } else {
        keys_shown(cats.drop_last(), errors_only, query) + Seq::new(
            shown(cats.last().1@, errors_only, query).len(),
            |i: int| cats.last().0@,
        )
    }
}

/// Filtering a concatenation filters each part.
proof fn lemma_shown_concat(a: Seq<IssueEntry>, b: Seq<IssueEntry>, errors_only: bool, query: Seq<char>)
    ensures
        shown(a + b, errors_only, query) == shown(a, errors_only, query) + shown(b, errors_only, query),
    decreases b.len(),
{
    if b.len() == 0 {
        assert(a + b =~= a);
        assert(shown(a, errors_only, query) + shown(b, errors_only, query) =~= shown(a, errors_only, query));
    } else {
        lemma_shown_concat(a, b.drop_last(), errors_only, query);
        assert((a + b).drop_last() =~= a + b.drop_last());
        assert((a + b).last() == b.last());
        let sa = shown(a, errors_only, query);
        let sb = shown(b.drop_last(), errors_only, query);
        if entry_shown(b.last(), errors_only, query) {
            assert((sa + sb).push(b.last()) =~= sa + sb.push(b.last()));
        }
    }
}


/// The keys of the first `j` categories begin the keys of all of them.
proof fn lemma_keys_prefix(cats: Seq<(String, Vec<IssueEntry>)>, j: int, errors_only: bool, query: Seq<char>)
    requires
        0 <= j <= cats.len(),
    ensures
        keys_shown(cats.take(j), errors_only, query).len() <= keys_shown(cats, errors_only, query).len(),
        forall|i: int|
            0 <= i < keys_shown(cats.take(j), errors_only, query).len() ==> #[trigger] keys_shown(cats, errors_only, query)[i]
                == keys_shown(cats.take(j), errors_only, query)[i],
    decreases cats.len() - j,
{
    if j == cats.len() {
        assert(cats.take(j) =~= cats);
    } else {
        lemma_keys_prefix(cats, j + 1, errors_only, query);
        assert(cats.take(j + 1).drop_last() =~= cats.take(j));
    }
}

/// There is one category key for each visible issue.
proof fn lemma_keys_len(cats: Seq<(String, Vec<IssueEntry>)>, errors_only: bool, query: Seq<char>)
    ensures
        keys_shown(cats, errors_only, query).len() == shown(flat(cats), errors_only, query).len(),
    decreases cats.len(),
{
    if cats.len() > 0 {
        lemma_keys_len(cats.drop_last(), errors_only, query);
        lemma_shown_concat(flat(cats.drop_last()), cats.last().1@, errors_only, query);
    }
}

/// The labelled lines of the detail pane for an issue in `category` (or
/// "Other"): its place, its category, and its node kind and symbol where
/// the diagnostic names them.
pub open spec fn detail_spec(e: IssueEntry, category: Option<Seq<char>>) -> Seq<(Seq<char>, Seq<char>)> {
    seq![
        ("File"@, e.file@ + seq![':'] + e.diagnostic.span@),
        ("Category"@, match category {
            Some(c) => c,
            None => "Other"@,
        }),
    ] + match e.diagnostic.node_kind {
        Some(k) => seq![("Node"@, k@)],
        None => Seq::empty(),
    } + match e.diagnostic.symbol {
        Some(y) => seq![("Symbol"@, y@)],
        None => Seq::empty(),
    }
}

/// The labelled lines of the detail pane for `entry`.
pub fn detail_lines(entry: &IssueEntry, category: Option<&str>) -> (r: Vec<(String, String)>)
    ensures
        r@.map_values(|p: (String, String)| (p.0@, p.1@)) == detail_spec(
            *entry,
            match category {
                Some(c) => Some(c@),
                None => None,
            },
        ),
{
    let mut place = chars_of(entry.file.as_str());
    place.push(':');
    let span = chars_of(entry.diagnostic.span.as_str());
    let mut k: usize = 0;
    let ghost head = place@;
    while k < span.len()
        invariant
            k <= span@.len(),
            place@ == head + span@.take(k as int),
        decreases span@.len() - k,
    {
        place.push(span[k]);
        assert(span@.take(k + 1) =~= span@.take(k as int).push(span@[k as int]));
        k = k + 1;
    }
    assert(span@.take(k as int) =~= span@);
    let mut r: Vec<(String, String)> = Vec::new();
    r.push((owned("File"), string_of(&place)));
    let cat = match category {
        Some(c) => owned(c),
        None => owned("Other"),
    };
    r.push((owned("Category"), cat));
    let ghost two = r@.map_values(|p: (String, String)| (p.0@, p.1@));
    assert(place@ == entry.file@ + seq![':'] + entry.diagnostic.span@);
    assert(two =~= seq![
        ("File"@, entry.file@ + seq![':'] + entry.diagnostic.span@),
        ("Category"@, match category {
            Some(c) => c@,
            None => "Other"@,
        }),
    ]);
    match &entry.diagnostic.node_kind {
        Some(kind) => {
            r.push((owned("Node"), kind.clone()));
        },
        None => {},
    }
    let ghost three = r@.map_values(|p: (String, String)| (p.0@, p.1@));
    assert(three =~= two + match entry.diagnostic.node_kind {
        Some(k) => seq![("Node"@, k@)],
        None => Seq::<(Seq<char>, Seq<char>)>::empty(),
    });
    match &entry.diagnostic.symbol {
        Some(sym) => {
            r.push((owned("Symbol"), sym.clone()));
        },
        None => {},
    }
    assert(r@.map_values(|p: (String, String)| (p.0@, p.1@)) =~= three + match entry.diagnostic.symbol {
        Some(y) => seq![("Symbol"@, y@)],
        None => Seq::<(Seq<char>, Seq<char>)>::empty(),
    });
    r
}

/// `shown` keeps at most the entries it is given.
pub proof fn lemma_shown_len(s: Seq<IssueEntry>, errors_only: bool, query: Seq<char>)
    ensures
        shown(s, errors_only, query).len() <= s.len(),
    decreases s.len(),
{
    if s.len() > 0 {
        lemma_shown_len(s.drop_last(), errors_only, query);
    }
}

/// The browser's state as values.
pub struct AppView {
    pub categories: Seq<(String, Vec<IssueEntry>)>,
    pub selected_issue: usize,
    pub focus: FocusPane,
    pub search: Seq<char>,
    pub search_mode: bool,
    pub errors_only: bool,
    pub detail_scroll: u16,
}

impl View for ResultsApp {
    type V = AppView;

    open spec fn view(&self) -> AppView {
        AppView {
            categories: self.categories@,
            selected_issue: self.selected_issue,
            focus: self.focus,
            search: self.search@,
            search_mode: self.search_mode,
            errors_only: self.errors_only,
            detail_scroll: self.detail_scroll,
        }
    }
}

impl AppView {
    /// The category key of each visible issue, in list order.
    pub open spec fn visible_keys(self) -> Seq<Seq<char>> {
        keys_shown(self.categories, self.errors_only, search_query(self.search))
    }
    /// The issues the list shows, in order.
    pub open spec fn visible(self) -> Seq<IssueEntry> {
        shown(flat(self.categories), self.errors_only, search_query(self.search))
    }

    /// The selection pulled back into the visible list (0 when it is empty).
    pub open spec fn normalized(self) -> AppView {
        let n = self.visible().len();
        AppView {
            selected_issue: if self.categories.len() == 0 || n == 0 {
                0
            } else if self.selected_issue >= n {
                (n - 1) as usize
            } else {
                self.selected_issue
            },
            ..self
        }
    }

    /// The selection moved by `delta` within the visible list, with the
    /// detail scrolled back to the top; selection 0 for an empty list.
    pub open spec fn moved(self, delta: int) -> AppView {
        let n = self.visible().len();
        if n == 0 {
            AppView { selected_issue: 0, ..self }
        } else {
            AppView { selected_issue: shifted(self.selected_issue as int, n as int, delta) as usize, detail_scroll: 0, ..self }
        }
    }

    /// The detail scrolled by `delta`, never above the top (as the 16-bit
    /// scroll offset it is stored in).
    pub open spec fn scrolled(self, delta: int) -> AppView {
        let next = self.detail_scroll + delta;
        AppView { detail_scroll: (if next < 0 { 0 } else { next }) as u16, ..self }
    }

    /// Home: the top of the focused pane.
    pub open spec fn at_start(self) -> AppView {
        match self.focus {
            FocusPane::Issues => AppView { selected_issue: 0, ..self }.normalized(),
            FocusPane::Detail => AppView { detail_scroll: 0, ..self }.normalized(),
        }
    }

    /// End: the last visible issue, or the detail scrolled 100 lines further
    /// (saturating).
    pub open spec fn at_end(self) -> AppView {
        match self.focus {
            FocusPane::Issues => {
                let n = self.visible().len();
                if n > 0 {
                    AppView { selected_issue: (n - 1) as usize, ..self }.normalized()
                } else {
                    self.normalized()
                }
            },
            FocusPane::Detail => {
                let next = self.detail_scroll + 100;
                AppView { detail_scroll: (if next > u16::MAX { u16::MAX as int } else { next }) as u16, ..self }.normalized()
            },
        }
    }

    /// Every filter cleared, the list focused and at its top.
    pub open spec fn reset(self) -> AppView {
        AppView {
            selected_issue: 0,
            focus: FocusPane::Issues,
            search: Seq::empty(),
            search_mode: false,
            errors_only: false,
            detail_scroll: 0,
            ..self
        }.normalized()
    }

    /// A new search text, with the list back at its top.
    pub open spec fn searched(self, search: Seq<char>) -> AppView {
        AppView { search, selected_issue: 0, detail_scroll: 0, ..self }.normalized()
    }

    /// What a key does while the search is being typed.
    pub open spec fn search_key(self, k: KeyPress) -> AppView {
        match k.key {
            Key::Esc | Key::Enter => AppView { search_mode: false, ..self },
            Key::Backspace => self.searched(
                if self.search.len() > 0 {
                    self.search.drop_last()
                } else {
                    self.search
                },
            ),
            Key::Char(c) => if !k.control && !k.alt {
                self.searched(self.search.push(c))
            } else {
                self
            },
            _ => self,
        }
    }

    /// What a key does: Ctrl-C and `q` quit; in search mode keys edit the
    /// search; Tab switches panes; arrows (or `hjkl`) focus, move or
    /// scroll; Home/End jump; `/` starts a search; `g` resets; `e` toggles
    /// errors-only; `o` opens the selected issue when there is one.
    pub open spec fn key_step(self, k: KeyPress) -> (AppView, AppAction) {
        if k.key == Key::Char('c') && k.control {
            (self, AppAction::Quit)
        } else if self.search_mode {
            (self.search_key(k), AppAction::Continue)
        } else {
            match k.key {
                Key::Char('q') => (self, AppAction::Quit),
                Key::Tab | Key::BackTab => (
                    AppView {
                        focus: match self.focus {
                            FocusPane::Issues => FocusPane::Detail,
                            FocusPane::Detail => FocusPane::Issues,
                        },
                        ..self
                    },
                    AppAction::Continue,
                ),
                Key::Left | Key::Char('h') => (AppView { focus: FocusPane::Issues, ..self }, AppAction::Continue),
                Key::Right | Key::Char('l') => (AppView { focus: FocusPane::Detail, ..self }, AppAction::Continue),
                Key::Up | Key::Char('k') => (
                    match self.focus {
                        FocusPane::Issues => self.moved(-1),
                        FocusPane::Detail => self.scrolled(-1),
                    },
                    AppAction::Continue,
                ),
                Key::Down | Key::Char('j') => (
                    match self.focus {
                        FocusPane::Issues => self.moved(1),
                        FocusPane::Detail => self.scrolled(1),
                    },
                    AppAction::Continue,
                ),
                Key::Home => (self.at_start(), AppAction::Continue),
                Key::End => (self.at_end(), AppAction::Continue),
                Key::Char('/') => (AppView { search_mode: true, ..self }, AppAction::Continue),
                Key::Char('g') => (self.reset(), AppAction::Continue),
                Key::Char('e') => (
                    AppView { errors_only: !self.errors_only, selected_issue: 0, detail_scroll: 0, ..self }.normalized(),
                    AppAction::Continue,
                ),
                Key::Char('o') | Key::Char('O') => (
                    self,
                    if self.selected_issue < self.visible().len() {
                        AppAction::OpenSelectedLocation
                    } else {
                        AppAction::Continue
                    },
                ),
                _ => (self, AppAction::Continue),
            }
        }
    }
}

fn entry_shown_exec(e: &IssueEntry, errors_only: bool, query: &Vec<char>) -> (b: bool)
    ensures
        b == entry_shown(*e, errors_only, query@),
{
    if errors_only && e.diagnostic.severity != Severity::Error {
        return false;
    }
    if query.len() == 0 {
        return true;
    }
    contains_chars(&lower_chars(&chars_of(e.file.as_str())), query) || contains_chars(
        &lower_chars(&chars_of(e.diagnostic.message.as_str())),
        query,
    ) || contains_chars(&lower_chars(&chars_of(e.diagnostic.rule_name.as_str())), query)
}

impl ResultsApp {

    /// How many of `entries` pass the filters.
    fn shown_count(entries: &Vec<IssueEntry>, errors_only: bool, query: &Vec<char>) -> (r: usize)
        ensures
            r == shown(entries@, errors_only, query@).len(),
    {
        let mut n: usize = 0;
        let mut k: usize = 0;
        while k < entries.len()
            invariant
                k <= entries@.len(),
                n == shown(entries@.take(k as int), errors_only, query@).len(),
                n <= k,
            decreases entries@.len() - k,
        {
            proof {
                let s = entries@.take(k + 1);
                assert(s.drop_last() =~= entries@.take(k as int));
            }
            if entry_shown_exec(&entries[k], errors_only, query) {
                n = n + 1;
            }
            k = k + 1;
        }
        assert(entries@.take(k as int) =~= entries@);
        n
    }

    /// The category key of the selected issue, if an issue is selected.
    pub fn selected_category(&self) -> (r: Option<String>)
        ensures
            self@.visible_keys().len() == self@.visible().len(),
            match r {
                Some(k) => self.selected_issue < self@.visible_keys().len() && k@
                    == self@.visible_keys()[self.selected_issue as int],
                None => self.selected_issue >= self@.visible_keys().len(),
            },
    {
        proof {
            lemma_keys_len(self@.categories, self.errors_only, search_query(self.search@));
        }
        let query = lower_chars(&trim_chars(&self.search));
        let sel = self.selected_issue;
        let mut before: usize = 0;
        let mut c: usize = 0;
        while c < self.categories.len()
            invariant
                c <= self.categories@.len(),
                query@ == search_query(self.search@),
                sel == self.selected_issue,
                before == keys_shown(self.categories@.take(c as int), self.errors_only, query@).len(),
                before <= sel,
                self@.visible_keys().len() == self@.visible().len(),
            decreases self.categories@.len() - c,
        {
            let cnt = Self::shown_count(&self.categories[c].1, self.errors_only, &query);
            let ghost t = self.categories@.take(c + 1);
            proof {
                assert(t.drop_last() =~= self.categories@.take(c as int));
                assert(t.last() == self.categories@[c as int]);
            }
            let ghost ks = keys_shown(t, self.errors_only, query@);
            if sel - before < cnt {
                proof {
                    lemma_keys_prefix(self.categories@, c as int + 1, self.errors_only, query@);
                    assert(ks[sel as int] == self.categories@[c as int].0@);
                    assert(self@.visible_keys()[sel as int] == ks[sel as int]);
                }
                return Some(self.categories[c].0.clone());
            }
            proof {
                assert(ks.len() == before + cnt);
            }
            before = before + cnt;
            c = c + 1;
        }
        proof {
            assert(self.categories@.take(c as int) =~= self.categories@);
        }
        None
    }
    /// A browser over `categories`, focused on the list, with no search.
    pub fn new(categories: Vec<(String, Vec<IssueEntry>)>) -> (r: ResultsApp)
        ensures
            r@ == (AppView {
                categories: categories@,
                selected_issue: 0,
                focus: FocusPane::Issues,
                search: Seq::empty(),
                search_mode: false,
                errors_only: false,
                detail_scroll: 0,
            }).normalized(),
    {
        let mut app = ResultsApp {
            categories,
            selected_issue: 0,
            focus: FocusPane::Issues,
            search: Vec::new(),
            search_mode: false,
            errors_only: false,
            detail_scroll: 0,
        };
        app.normalize_selection();
        app
    }

    /// The issues the list shows, in order.
    pub fn visible_issues(&self) -> (r: Vec<&IssueEntry>)
        ensures
            r@.map_values(|e: &IssueEntry| *e) == self@.visible(),
    {
        let query = lower_chars(&trim_chars(&self.search));
        let mut out: Vec<&IssueEntry> = Vec::new();
        let mut c: usize = 0;
        while c < self.categories.len()
            invariant
                c <= self.categories@.len(),
                query@ == search_query(self.search@),
                out@.map_values(|e: &IssueEntry| *e) == shown(
                    flat(self.categories@.take(c as int)),
                    self.errors_only,
                    query@,
                ),
            decreases self.categories@.len() - c,
        {
            let entries = &self.categories[c].1;
            let ghost before = flat(self.categories@.take(c as int));
            let mut k: usize = 0;
            while k < entries.len()
                invariant
                    c < self.categories@.len(),
                    *entries == self.categories@[c as int].1,
                    k <= entries@.len(),
                    before == flat(self.categories@.take(c as int)),
                    out@.map_values(|e: &IssueEntry| *e) == shown(before + entries@.take(k as int), self.errors_only, query@),
                decreases entries@.len() - k,
            {
                let e = &entries[k];
                proof {
                    let s = before + entries@.take(k + 1);
                    assert(s.drop_last() =~= before + entries@.take(k as int));
                    assert(s.last() == entries@[k as int]);
                }
                if entry_shown_exec(e, self.errors_only, &query) {
                    let ghost old_out = out@;
                    out.push(e);
                    proof {
                        assert(out@.map_values(|e: &IssueEntry| *e) =~= old_out.map_values(|e: &IssueEntry| *e).push(*e));
                    }
                }
                k = k + 1;
            }
            proof {
                assert(entries@.take(entries@.len() as int) =~= entries@);
                let t = self.categories@.take(c + 1);
                assert(t.drop_last() =~= self.categories@.take(c as int));
                assert(t.last() == self.categories@[c as int]);
            }
            c = c + 1;
        }
        proof {
            assert(self.categories@.take(self.categories@.len() as int) =~= self.categories@);
        }
        out
    }

    /// How many issues the list shows.
    pub fn visible_count(&self) -> (r: usize)
        ensures
            r == self@.visible().len(),
    {
        let v = self.visible_issues();
        proof {
            assert(v@.map_values(|e: &IssueEntry| *e).len() == v@.len());
        }
        v.len()
    }

    /// The selected issue, if the selection points at a visible one.
    pub fn selected_entry(&self) -> (r: Option<&IssueEntry>)
        ensures
            match r {
                Some(e) => self.selected_issue < self@.visible().len() && *e == self@.visible()[self.selected_issue as int],
                None => self.selected_issue >= self@.visible().len(),
            },
    {
        let v = self.visible_issues();
        if self.selected_issue < v.len() {
            proof {
                assert(v@.map_values(|e: &IssueEntry| *e)[self.selected_issue as int] == *v@[self.selected_issue as int]);
            }
            Some(v[self.selected_issue])
        } else {
            proof {
                assert(v@.map_values(|e: &IssueEntry| *e).len() == v@.len());
            }
            None
        }
    }

    /// Pulls the selection back into the visible list.
    pub fn normalize_selection(&mut self)
        ensures
            final(self)@ == old(self)@.normalized(),
    {
        if self.categories.len() == 0 {
            self.selected_issue = 0;
            return;
        }
        let n = self.visible_count();
        if n == 0 {
            self.selected_issue = 0;
        } else if self.selected_issue >= n {
            self.selected_issue = n - 1;
        }
    }

    /// Moves the selection by `delta` within the visible list.
    pub fn move_issue(&mut self, delta: isize)
        ensures
            final(self)@ == old(self)@.moved(delta as int),
    {
        let n = self.visible_count();
        if n == 0 {
            self.selected_issue = 0;
            return;
        }
        let next: i128 = self.selected_issue as i128 + delta as i128;
        self.selected_issue = if next < 0 {
            0
        } else if next > (n - 1) as i128 {
            n - 1
        } else {
            next as usize
        };
        self.detail_scroll = 0;
    }

    /// Scrolls the detail pane by `delta` lines, never above the top.
    pub fn scroll_detail(&mut self, delta: isize)
        ensures
            final(self)@ == old(self)@.scrolled(delta as int),
    {
        let next: i128 = self.detail_scroll as i128 + delta as i128;
        let clamped: i128 = if next < 0 {
            0
        } else {
            next
        };
        self.detail_scroll = clamped as u16;
    }

    fn jump_to_start(&mut self)
        ensures
            final(self)@ == old(self)@.at_start(),
    {
        match self.focus {
            FocusPane::Issues => self.selected_issue = 0,
            FocusPane::Detail => self.detail_scroll = 0,
        }
        self.normalize_selection();
    }

    fn jump_to_end(&mut self)
        ensures
            final(self)@ == old(self)@.at_end(),
    {
        match self.focus {
            FocusPane::Issues => {
                let n = self.visible_count();
                if n > 0 {
                    self.selected_issue = n - 1;
                }
            },
            FocusPane::Detail => {
                self.detail_scroll = self.detail_scroll.saturating_add(100);
            },
        }
        self.normalize_selection();
    }

    /// Clears the search and the errors-only filter and goes back to the
    /// top of the list.
    pub fn reset_filters(&mut self)
        ensures
            final(self)@ == old(self)@.reset(),
    {
        self.selected_issue = 0;
        self.focus = FocusPane::Issues;
        self.search = Vec::new();
        self.search_mode = false;
        self.errors_only = false;
        self.detail_scroll = 0;
        self.normalize_selection();
    }

    fn handle_search_key(&mut self, key: KeyPress)
        ensures
            final(self)@ == old(self)@.search_key(key),
    {
        match key.key {
            Key::Esc | Key::Enter => self.search_mode = false,
            Key::Backspace => {
                self.search.pop();
                self.selected_issue = 0;
                self.detail_scroll = 0;
                self.normalize_selection();
            },
            Key::Char(ch) => {
                if !key.control && !key.alt {
                    self.search.push(ch);
                    self.selected_issue = 0;
                    self.detail_scroll = 0;
                    self.normalize_selection();
                }
            },
            _ => {},
        }
    }

    /// Applies a key and says what the caller should do next.
    pub fn handle_key(&mut self, key: KeyPress) -> (r: AppAction)
        ensures
            (final(self)@, r) == old(self)@.key_step(key),
    {
        if key.key == Key::Char('c') && key.control {
            return AppAction::Quit;
        }
        if self.search_mode {
            self.handle_search_key(key);
            return AppAction::Continue;
        }
        match key.key {
            Key::Char('q') => AppAction::Quit,
            Key::Tab | Key::BackTab => {
                self.focus = match self.focus {
                    FocusPane::Issues => FocusPane::Detail,
                    FocusPane::Detail => FocusPane::Issues,
                };
                AppAction::Continue
            },
            Key::Left | Key::Char('h') => {
                self.focus = FocusPane::Issues;
                AppAction::Continue
            },
            Key::Right | Key::Char('l') => {
                self.focus = FocusPane::Detail;
                AppAction::Continue
            },
            Key::Up | Key::Char('k') => {
                match self.focus {
                    FocusPane::Issues => self.move_issue(-1),
                    FocusPane::Detail => self.scroll_detail(-1),
                }
                AppAction::Continue
            },
            Key::Down | Key::Char('j') => {
                match self.focus {
                    FocusPane::Issues => self.move_issue(1),
                    FocusPane::Detail => self.scroll_detail(1),
                }
                AppAction::Continue
            },
            Key::Home => {
                self.jump_to_start();
                AppAction::Continue
            },
            Key::End => {
                self.jump_to_end();
                AppAction::Continue
            },
            Key::Char('/') => {
                self.search_mode = true;
                AppAction::Continue
            },
            Key::Char('g') => {
                self.reset_filters();
                AppAction::Continue
            },
            Key::Char('e') => {
                self.errors_only = !self.errors_only;
                self.selected_issue = 0;
                self.detail_scroll = 0;
                self.normalize_selection();
                AppAction::Continue
            },
            Key::Char('o') | Key::Char('O') => {
                if self.selected_entry().is_some() {
                    AppAction::OpenSelectedLocation
                } else {
                    AppAction::Continue
                }
            },
            _ => AppAction::Continue,
        }
    }

    /// How many errors and how many warnings there are in all, whatever
    /// the filters.
    pub fn error_stats(&self) -> (r: (usize, usize))
        requires
            flat(self.categories@).len() <= usize::MAX,
        ensures
            r.0 == severity_count(flat(self.categories@), Severity::Error),
            r.1 == severity_count(flat(self.categories@), Severity::Warning),
    {
        let mut errors: usize = 0;
        let mut warnings: usize = 0;
        let mut c: usize = 0;
        while c < self.categories.len()
            invariant
                c <= self.categories@.len(),
                flat(self.categories@).len() <= usize::MAX,
                errors == severity_count(flat(self.categories@.take(c as int)), Severity::Error),
                warnings == severity_count(flat(self.categories@.take(c as int)), Severity::Warning),
            decreases self.categories@.len() - c,
        {
            let entries = &self.categories[c].1;
            let ghost before = flat(self.categories@.take(c as int));
            proof {
                let t = self.categories@.take(c + 1);
                assert(t.drop_last() =~= self.categories@.take(c as int));
                assert(t.last() == self.categories@[c as int]);
                lemma_flat_prefix_len(self.categories@, c as int + 1);
                assert(before + entries@.take(0) =~= before);
            }
            let mut k: usize = 0;
            while k < entries.len()
                invariant
                    c < self.categories@.len(),
                    *entries == self.categories@[c as int].1,
                    k <= entries@.len(),
                    before == flat(self.categories@.take(c as int)),
                    (before + entries@).len() <= usize::MAX,
                    errors == severity_count(before + entries@.take(k as int), Severity::Error),
                    warnings == severity_count(before + entries@.take(k as int), Severity::Warning),
                decreases entries@.len() - k,
            {
                proof {
                    let s0 = before + entries@.take(k + 1);
                    assert(s0.drop_last() =~= before + entries@.take(k as int));
                    assert(s0.last() == entries@[k as int]);
                    lemma_severity_counts_sum(s0);
                }
                match entries[k].diagnostic.severity {
                    Severity::Error => errors = errors + 1,
                    Severity::Warning => warnings = warnings + 1,
                }
                k = k + 1;
            }
            proof {
                assert(entries@.take(entries@.len() as int) =~= entries@);
            }
            c = c + 1;
        }
        proof {
            assert(self.categories@.take(self.categories@.len() as int) =~= self.categories@);
        }
        (errors, warnings)
    }

    /// How many issues there are in all, whatever the filters.
    pub fn total_issues(&self) -> (r: usize)
        requires
            flat(self.categories@).len() <= usize::MAX,
        ensures
            r == flat(self.categories@).len(),
    {
        let mut total: usize = 0;
        let mut c: usize = 0;
        while c < self.categories.len()
            invariant
                c <= self.categories@.len(),
                flat(self.categories@).len() <= usize::MAX,
                total == flat(self.categories@.take(c as int)).len(),
            decreases self.categories@.len() - c,
        {
            proof {
                let t = self.categories@.take(c + 1);
                assert(t.drop_last() =~= self.categories@.take(c as int));
                lemma_flat_prefix_len(self.categories@, c as int + 1);
            }
            total = total + self.categories[c].1.len();
            c = c + 1;
        }
        proof {
            assert(self.categories@.take(self.categories@.len() as int) =~= self.categories@);
        }
        total
    }
}

/// How many of the entries have severity `sev`.
pub open spec fn severity_count(s: Seq<IssueEntry>, sev: Severity) -> nat
    decreases s.len(),
{
    if s.len() == 0 {
        0
    } else {
        severity_count(s.drop_last(), sev) + if s.last().diagnostic.severity == sev {
            1nat
        } else {
            0nat
        }
    }
}

/// Every entry is an error or a warning.
pub proof fn lemma_severity_counts_sum(s: Seq<IssueEntry>)
    ensures
        severity_count(s, Severity::Error) + severity_count(s, Severity::Warning) == s.len(),
    decreases s.len(),
{
    if s.len() > 0 {
        lemma_severity_counts_sum(s.drop_last());
    }
}

/// A prefix of the categories holds no more entries than all of them.
pub proof fn lemma_flat_prefix_len(cats: Seq<(String, Vec<IssueEntry>)>, k: int)
    requires
        0 <= k <= cats.len(),
    ensures
        flat(cats.take(k)).len() <= flat(cats).len(),
    decreases cats.len() - k,
{
    if k < cats.len() {
        lemma_flat_prefix_len(cats, k + 1);
        let t = cats.take(k + 1);
        assert(t.drop_last() =~= cats.take(k));
    } else {
        assert(cats.take(k) =~= cats);
    }
}

} // verus!
