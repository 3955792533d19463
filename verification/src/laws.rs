//! Properties that hold across the library's functions.
use vstd::prelude::*;

use crate::cache::{
    distinct_paths, live_filter, live_path, median_of, observed, sample_leq, CacheEntry, MAX_TIMING_SAMPLES,
};
use crate::engine::{decimal, digit, position_text};
use crate::project::{
    comment_state, comment_step, in_comment, is_trailing_comma, scan_start, without_comment_chars, string_state, strip_commas_from, strip_comments_from, without_comments,
    without_marked_commas, without_trailing_commas, CommentScan,
};
use crate::results_tui::{all_digits, line_col, parse_u32, positive_or_one, AppView, FocusPane, Key, KeyPress};
use crate::config::{configured_severity, configured_views, rule_value, severity_of, ConfigValue};
use crate::engine::DiagView;
use crate::lint::RuleOrigin;
use crate::rule_catalog::{
    fallback_text, has_id, lookup, seeded, seeds_spec, summaries_spec, summary_text, RuleCatalog, RuleCatalogEntry, RuleScope,
};
use crate::rules_tui::{is_listing, opening_view, RulesView};
use crate::engine::LintContext;
use crate::ast::Ast;
use crate::frontend::SymbolView;
use crate::rules::react::search_params::{
    direct_call, direct_reports, needs_suspense, owner, render_reports, warning_at, wrapped,
};
use crate::project::ProjectInfo;
use crate::text::first_index;

verus! {

// ── Positions ──────────────────────────────────────────────

proof fn lemma_digit(d: nat)
    requires
        d < 10,
    ensures
        '0' <= digit(d) <= '9',
        (digit(d) as u32) - ('0' as u32) == d,
{
}

proof fn lemma_decimal(n: nat)
    ensures
        decimal(n).len() > 0,
        all_digits(decimal(n)),
        crate::results_tui::decimal(decimal(n)) == n,
    decreases n,
{
    if n < 10 {
        lemma_digit(n);
        assert(decimal(n).drop_last() =~= Seq::<char>::empty());
        assert(crate::results_tui::decimal(Seq::<char>::empty()) == 0);
        assert(crate::results_tui::decimal(decimal(n)) == crate::results_tui::decimal(decimal(n).drop_last()) * 10
            + ((decimal(n).last() as u32) - ('0' as u32)) as nat);
    } else {
        lemma_decimal(n / 10);
        lemma_digit(n % 10);
        let s = decimal(n);
        assert(s.drop_last() =~= decimal(n / 10));
        assert(s.last() == digit(n % 10));
        assert(crate::results_tui::decimal(s) == crate::results_tui::decimal(s.drop_last()) * 10 + ((s.last() as u32)
            - ('0' as u32)) as nat);
        assert((n / 10) * 10 + n % 10 == n) by (nonlinear_arith);
        assert(forall|i: int| 0 <= i < s.len() ==> '0' <= #[trigger] s[i] && s[i] <= '9') by {
            assert forall|i: int| 0 <= i < s.len() implies '0' <= #[trigger] s[i] && s[i] <= '9' by {
                if i < s.len() - 1 {
                    assert(s[i] == decimal(n / 10)[i]);
                }
            }
        }
    }
}

/// A numeral parses back to its number.
proof fn lemma_parse_decimal(n: nat)
    requires
        1 <= n <= u32::MAX,
    ensures
        positive_or_one(decimal(n)) == n,
{
    lemma_decimal(n);
    let s = decimal(n);
    assert(s[0] != '+');
    assert(parse_u32(s) == Some(n as u32));
}

/// A numeral holds no `:`.
proof fn lemma_no_colon(n: nat)
    ensures
        first_index(decimal(n), ':') is None,
{
    lemma_decimal(n);
    let s = decimal(n);
    assert(!(exists|i: int| 0 <= i < s.len() && s[i] == ':')) by {
        assert forall|i: int| 0 <= i < s.len() implies s[i] != ':' by {
            assert('0' <= s[i] && s[i] <= '9');
        }
    }
}

/// The `line:col` text a diagnostic carries reads back, through the
/// results browser's span parser, as the same line and column.
pub proof fn law_position_round_trip(line: nat, col: nat)
    requires
        1 <= line <= u32::MAX,
        1 <= col <= u32::MAX,
    ensures
        line_col(position_text((line, col))) == (line as u32, col as u32),
{
    let a = decimal(line);
    let b = decimal(col);
    let span = position_text((line, col));
    lemma_no_colon(line);
    lemma_no_colon(col);
    lemma_decimal(line);
    assert(span =~= a + seq![':'] + b);
    assert(span[a.len() as int] == ':');
    assert(forall|i: int| 0 <= i < a.len() ==> span[i] == a[i]);
    let k = first_index(span, ':')->Some_0;
    assert(first_index(span, ':') is Some);
    assert(k == a.len()) by {
        if k < a.len() {
            assert(span[k] == a[k]);
        } else if k > a.len() {
        }
    }
    let rest = span.subrange(k + 1, span.len() as int);
    assert(rest =~= b);
    assert(span.subrange(0, k) =~= a);
    lemma_parse_decimal(line);
    lemma_parse_decimal(col);
}

/// `parse_line_col` reads a bare line number as that line at column 1, and
/// whatever the span holds, it never yields a line or column below 1.
pub proof fn law_line_col_defaults(line: nat, span: Seq<char>)
    requires
        1 <= line <= u32::MAX,
    ensures
        line_col(decimal(line)) == (line as u32, 1u32),
        line_col(span).0 >= 1,
        line_col(span).1 >= 1,
{
    lemma_no_colon(line);
    lemma_parse_decimal(line);
}

// ── The cache ──────────────────────────────────────────────

/// A read after a write: once `upsert` has stored `entry` for `path`, an
/// entry that `get` finds for `path` is that entry.
pub proof fn law_lookup_after_upsert(
    entries: Seq<(String, CacheEntry)>,
    path: Seq<char>,
    entry: CacheEntry,
    found: CacheEntry,
)
    requires
        distinct_paths(entries),
        exists|i: int| 0 <= i < entries.len() && #[trigger] entries[i].0@ == path && entries[i].1 == entry,
        exists|i: int| 0 <= i < entries.len() && #[trigger] entries[i].0@ == path && entries[i].1 == found,
    ensures
        found == entry,
{
    let w = choose|i: int| 0 <= i < entries.len() && #[trigger] entries[i].0@ == path && entries[i].1 == entry;
    let c = choose|i: int| 0 <= i < entries.len() && #[trigger] entries[i].0@ == path && entries[i].1 == found;
    if c != w {
        if c < w {
            assert(entries[c].0@ != entries[w].0@);
        } else {
            assert(entries[w].0@ != entries[c].0@);
        }
    }
}

/// Pruning keeps exactly the entries whose paths are live: every kept
/// entry was there before and has a live path, and every entry with a live
/// path is kept.
pub proof fn law_prune_keeps_live(entries: Seq<(String, CacheEntry)>, live: Seq<String>)
    ensures
        forall|k: int|
            0 <= k < entries.filter(live_filter(live)).len() ==> entries.contains(
                #[trigger] entries.filter(live_filter(live))[k],
            ) && live_path(live, entries.filter(live_filter(live))[k].0@),
        forall|j: int|
            0 <= j < entries.len() && live_path(live, #[trigger] entries[j].0@) ==> entries.filter(
                live_filter(live),
            ).contains(entries[j]),
{
    let pred = live_filter(live);
    let kept = entries.filter(pred);
    #[allow(deprecated)]
    entries.filter_lemma(pred);
    assert forall|k: int| 0 <= k < kept.len() implies entries.contains(#[trigger] kept[k]) && live_path(
        live,
        kept[k].0@,
    ) by {
        assert(kept.contains(kept[k]));
        entries.lemma_filter_contains_rev(pred, kept[k]);
        assert(pred(kept[k]));
    }
    assert forall|j: int| 0 <= j < entries.len() && live_path(live, #[trigger] entries[j].0@) implies kept.contains(
        entries[j],
    ) by {
        assert(pred(entries[j]));
        entries.lemma_filter_contains(pred, j);
    }
}

/// Filtering by a predicate a second time keeps everything.
proof fn lemma_filter_twice<A>(s: Seq<A>, pred: spec_fn(A) -> bool)
    ensures
        s.filter(pred).filter(pred) == s.filter(pred),
    decreases s.len(),
{
    if s.len() == 0 {
        reveal_with_fuel(Seq::filter, 2);
        assert(s.filter(pred) =~= s);
    } else {
        let front = s.drop_last();
        lemma_filter_twice(front, pred);
        assert(front.push(s.last()) =~= s);
        front.lemma_filter_push(s.last(), pred);
        if pred(s.last()) {
            front.filter(pred).lemma_filter_push(s.last(), pred);
        }
    }
}

/// Pruning twice to the same live paths changes nothing the second time:
/// the entries that the first prune kept are all kept again, so the second
/// prune reports no change.
pub proof fn law_prune_twice(entries: Seq<(String, CacheEntry)>, live: Seq<String>)
    ensures
        entries.filter(live_filter(live)).filter(live_filter(live)) == entries.filter(live_filter(live)),
        entries.filter(live_filter(live)).filter(live_filter(live)).len() == entries.filter(
            live_filter(live),
        ).len(),
{
    lemma_filter_twice(entries, live_filter(live));
}

// ── Timing samples ─────────────────────────────────────────

/// Observing a sample never lets a series grow past its limit.
pub proof fn law_samples_bounded(values: Seq<u64>, value: u64)
    requires
        values.len() <= MAX_TIMING_SAMPLES,
    ensures
        observed(values, value).len() <= MAX_TIMING_SAMPLES,
{
}

/// The median of a series is one of its samples.
pub proof fn law_median_is_a_sample(values: Seq<u64>)
    ensures
        median_of(values) matches Some(m) ==> values.contains(m),
{
    if values.len() > 0 {
        let sorted = values.sort_by(sample_leq());
        values.lemma_sort_by_ensures(sample_leq());
        let idx = (values.len() / 2) as int;
        let m = sorted[idx];
        sorted.to_multiset_ensures();
        values.to_multiset_ensures();
        assert(sorted.len() == values.len());
        assert(sorted[idx] == m);
        assert(sorted.contains(m));
        assert(values.to_multiset().count(m) > 0);
    }
}

/// Samples strictly below `m`.
pub open spec fn below(m: u64) -> spec_fn(u64) -> bool {
    |x: u64| x < m
}

/// Samples at or below `m`.
pub open spec fn at_or_below(m: u64) -> spec_fn(u64) -> bool {
    |x: u64| x <= m
}

/// Filtering a sequence whose elements all pass keeps all of them; one
/// whose elements all fail keeps none.
proof fn lemma_filter_all_or_none(s: Seq<u64>, p: spec_fn(u64) -> bool)
    ensures
        (forall|k: int| 0 <= k < s.len() ==> #[trigger] p(s[k])) ==> s.filter(p).len() == s.len(),
        (forall|k: int| 0 <= k < s.len() ==> !#[trigger] p(s[k])) ==> s.filter(p).len() == 0,
    decreases s.len(),
{
    reveal_with_fuel(Seq::filter, 1);
    if s.len() > 0 {
        lemma_filter_all_or_none(s.drop_last(), p);
        if forall|k: int| 0 <= k < s.len() ==> #[trigger] p(s[k]) {
            assert(p(s[s.len() - 1]));
            assert forall|k: int| 0 <= k < s.drop_last().len() implies #[trigger] p(s.drop_last()[k]) by {
                assert(p(s[k]));
            }
        }
        if forall|k: int| 0 <= k < s.len() ==> !#[trigger] p(s[k]) {
            assert(!p(s[s.len() - 1]));
            assert forall|k: int| 0 <= k < s.drop_last().len() implies !#[trigger] p(s.drop_last()[k]) by {
                assert(!p(s[k]));
            }
        }
    }
}

/// Removing one element lowers the count of passing elements by one
/// exactly when that element passes.
proof fn lemma_filter_len_remove(t: Seq<u64>, i: int, p: spec_fn(u64) -> bool)
    requires
        0 <= i < t.len(),
    ensures
        t.filter(p).len() == t.remove(i).filter(p).len() + if p(t[i]) { 1int } else { 0int },
{
    let a = t.take(i);
    let b = t.skip(i + 1);
    let x = seq![t[i]];
    assert(t =~= a + x + b);
    assert(t.remove(i) =~= a + b);
    Seq::filter_distributes_over_add(a + x, b, p);
    Seq::filter_distributes_over_add(a, x, p);
    Seq::filter_distributes_over_add(a, b, p);
    reveal_with_fuel(Seq::filter, 2);
    assert(x.drop_last() =~= Seq::<u64>::empty());
}

/// Two sequences holding the same samples, in any order, have as many
/// samples that pass a test.
proof fn lemma_filter_len_perm(s: Seq<u64>, t: Seq<u64>, p: spec_fn(u64) -> bool)
    requires
        s.to_multiset() =~= t.to_multiset(),
    ensures
        s.filter(p).len() == t.filter(p).len(),
    decreases s.len(),
{
    s.to_multiset_ensures();
    t.to_multiset_ensures();
    if s.len() == 0 {
        lemma_filter_all_or_none(s, p);
        lemma_filter_all_or_none(t, p);
    } else {
        let x = s.last();
        let rest = s.drop_last();
        assert(rest.push(x) =~= s);
        rest.to_multiset_ensures();
        assert(s.to_multiset().count(x) > 0) by {
            assert(s.contains(x)) by {
                assert(s[s.len() - 1] == x);
            }
        }
        assert(t.contains(x));
        let i = choose|i: int| 0 <= i < t.len() && t[i] == x;
        let u = t.remove(i);
        assert(u.to_multiset() =~= rest.to_multiset()) by {
            broadcast use vstd::multiset::group_multiset_axioms;
            assert(u.to_multiset() =~= t.to_multiset().remove(x));
            assert(rest.to_multiset().insert(x).remove(x) =~= rest.to_multiset());
        }
        lemma_filter_len_perm(rest, u, p);
        lemma_filter_len_remove(t, i, p);
        rest.lemma_filter_push(x, p);
    }
}

/// The median splits the samples: at most half of them lie below it, and
/// more than half lie at or below it.
pub proof fn law_median_splits_samples(values: Seq<u64>)
    ensures
        median_of(values) matches Some(m) ==> {
            &&& 2 * values.filter(below(m)).len() <= values.len()
            &&& 2 * values.filter(at_or_below(m)).len() > values.len()
        },
{
    if values.len() > 0 {
        let sorted = values.sort_by(sample_leq());
        values.lemma_sort_by_ensures(sample_leq());
        let h = (values.len() / 2) as int;
        let m = sorted[h];
        values.to_multiset_ensures();
        sorted.to_multiset_ensures();
        assert(sorted.len() == values.len());
        lemma_filter_len_perm(values, sorted, below(m));
        lemma_filter_len_perm(values, sorted, at_or_below(m));
        // Below the median: only among the first h sorted samples.
        let front = sorted.take(h);
        let back = sorted.skip(h);
        assert(sorted =~= front + back);
        Seq::filter_distributes_over_add(front, back, below(m));
        assert forall|k: int| 0 <= k < back.len() implies !#[trigger] below(m)(back[k]) by {
            if k > 0 {
                assert(sample_leq()(sorted[h], sorted[h + k]));
            }
        }
        lemma_filter_all_or_none(back, below(m));
        front.lemma_filter_len(below(m));
        // At or below the median: at least the first h + 1 sorted samples.
        let low = sorted.take(h + 1);
        let high = sorted.skip(h + 1);
        assert(sorted =~= low + high);
        Seq::filter_distributes_over_add(low, high, at_or_below(m));
        assert forall|k: int| 0 <= k < low.len() implies #[trigger] at_or_below(m)(low[k]) by {
            if k < h {
                assert(sample_leq()(sorted[k], sorted[h]));
            }
        }
        lemma_filter_all_or_none(low, at_or_below(m));
    }
}

// ── JSON with comments ─────────────────────────────────────

proof fn lemma_no_slash(s: Seq<char>, i: int, st: CommentScan)
    requires
        0 <= i <= s.len(),
        !st.line_comment,
        !st.block_comment,
        forall|k: int| 0 <= k < s.len() ==> s[k] != '/',
    ensures
        strip_comments_from(s, i, st) == s.subrange(i, s.len() as int),
    decreases s.len() - i,
{
    if i < s.len() {
        let ch = s[i];
        let nst = if st.in_string {
            if st.escaped {
                CommentScan { escaped: false, ..st }
            } else if ch == '\\' {
                CommentScan { escaped: true, ..st }
            } else if ch == '"' {
                CommentScan { in_string: false, ..st }
            } else {
                st
            }
        } else if ch == '"' {
            CommentScan { in_string: true, ..st }
        } else {
            st
        };
        lemma_no_slash(s, i + 1, nst);
        assert(s.subrange(i, s.len() as int) =~= seq![ch] + s.subrange(i + 1, s.len() as int));
    } else {
        assert(s.subrange(i, s.len() as int) =~= Seq::<char>::empty());
    }
}

/// Text without `/` has no comments: removing comments leaves it unchanged.
pub proof fn law_comment_free_text_unchanged(s: Seq<char>)
    requires
        forall|k: int| 0 <= k < s.len() ==> s[k] != '/',
    ensures
        without_comments(s) == s,
{
    lemma_no_slash(s, 0, scan_start());
    assert(s.subrange(0, s.len() as int) =~= s);
}

proof fn lemma_no_comma(s: Seq<char>, i: int, in_string: bool, escaped: bool)
    requires
        0 <= i <= s.len(),
        forall|k: int| 0 <= k < s.len() ==> s[k] != ',',
    ensures
        strip_commas_from(s, i, in_string, escaped) == s.subrange(i, s.len() as int),
    decreases s.len() - i,
{
    if i < s.len() {
        let ch = s[i];
        if in_string {
            let (ns, ne) = if escaped {
                (true, false)
            } else if ch == '\\' {
                (true, true)
            } else if ch == '"' {
                (false, false)
            } else {
                (true, false)
            };
            lemma_no_comma(s, i + 1, ns, ne);
        } else if ch == '"' {
            lemma_no_comma(s, i + 1, true, escaped);
        } else {
            lemma_no_comma(s, i + 1, in_string, escaped);
        }
        assert(s.subrange(i, s.len() as int) =~= seq![ch] + s.subrange(i + 1, s.len() as int));
    } else {
        assert(s.subrange(i, s.len() as int) =~= Seq::<char>::empty());
    }
}

/// Text without `,` has no trailing commas: removing them leaves it unchanged.
pub proof fn law_comma_free_text_unchanged(s: Seq<char>)
    requires
        forall|k: int| 0 <= k < s.len() ==> s[k] != ',',
    ensures
        without_trailing_commas(s) == s,
{
    lemma_no_comma(s, 0, false, false);
    assert(s.subrange(0, s.len() as int) =~= s);
}

// ── The results browser ────────────────────────────────────

/// The selection points at a visible issue, or is 0 when none is visible.
pub open spec fn selection_valid(v: AppView) -> bool {
    v.selected_issue < v.visible().len() || (v.visible().len() == 0 && v.selected_issue == 0)
}

proof fn lemma_normalized_valid(v: AppView)
    ensures
        selection_valid(v.normalized()),
{
    if v.categories.len() == 0 {
        assert(crate::results_tui::flat(v.categories) =~= Seq::empty());
    }
}

/// After any key the selection still points at a visible issue (or is 0
/// when none is visible), so the detail pane and "open" always have a
/// target when there are issues to show.
pub proof fn law_key_keeps_selection_valid(v: AppView, k: KeyPress)
    requires
        selection_valid(v),
    ensures
        selection_valid(v.key_step(k).0),
{
    lemma_normalized_valid(AppView { selected_issue: 0, detail_scroll: 0, ..v });
    lemma_normalized_valid(AppView { selected_issue: 0, ..v });
    lemma_normalized_valid(AppView { detail_scroll: 0, ..v });
    lemma_normalized_valid(v);
    lemma_normalized_valid(AppView { selected_issue: 0, focus: FocusPane::Issues, search: Seq::empty(), search_mode: false, errors_only: false, detail_scroll: 0, ..v });
    lemma_normalized_valid(AppView { errors_only: !v.errors_only, selected_issue: 0, detail_scroll: 0, ..v });
    if v.visible().len() > 0 {
        lemma_normalized_valid(AppView { selected_issue: (v.visible().len() - 1) as usize, ..v });
    }
    let next = v.detail_scroll + 100;
    lemma_normalized_valid(AppView { detail_scroll: (if next > u16::MAX { u16::MAX as int } else { next }) as u16, ..v });
    lemma_normalized_valid(v.searched(if v.search.len() > 0 { v.search.drop_last() } else { v.search }));
    if let Key::Char(c) = k.key {
        lemma_normalized_valid(AppView { search: v.search.push(c), selected_issue: 0, detail_scroll: 0, ..v });
    }
    if v.search.len() > 0 {
        lemma_normalized_valid(AppView { search: v.search.drop_last(), selected_issue: 0, detail_scroll: 0, ..v });
    } else {
        lemma_normalized_valid(AppView { search: v.search, selected_issue: 0, detail_scroll: 0, ..v });
    }
}

/// A new browser starts with a valid selection.
pub proof fn law_new_selection_valid(v: AppView)
    ensures
        selection_valid(v.normalized()),
{
    lemma_normalized_valid(v);
}

/// Outside search mode, two Tabs bring the focus back where it was and
/// change nothing else.
pub proof fn law_tab_twice_restores(v: AppView)
    requires
        !v.search_mode,
    ensures
        v.key_step(KeyPress { key: Key::Tab, control: false, alt: false }).0.key_step(
            KeyPress { key: Key::Tab, control: false, alt: false },
        ).0 == v,
{
}

/// Scrolling the detail never goes above its top: scrolling up by more
/// than the offset leaves it at 0.
pub proof fn law_scroll_never_negative(v: AppView, delta: int)
    requires
        v.detail_scroll + delta < 0,
    ensures
        v.scrolled(delta).detail_scroll == 0,
{
}

/// Resetting clears the search and the errors-only filter and focuses the list.
pub proof fn law_reset_clears_filters(v: AppView)
    ensures
        v.reset().search.len() == 0,
        !v.reset().errors_only,
        !v.reset().search_mode,
        v.reset().focus == FocusPane::Issues,
        v.reset().detail_scroll == 0,
{
}


// ── The rule browser ───────────────────────────────────────

proof fn lemma_rules_normalized_valid(v: RulesView)
    ensures
        v.normalized().selection_valid(),
{
}

/// After any key the rule browser still points at an existing group and
/// at one of the rules it lists (or at rule 0 when it lists none).
pub proof fn law_rules_key_keeps_selection_valid(v: RulesView, k: KeyPress)
    requires
        v.selection_valid(),
    ensures
        v.key_step(k).0.selection_valid(),
{
    let groups_len = v.groups.len() as int;
    lemma_rules_normalized_valid(RulesView { selected_group: 0, selected_rule: 0, ..v });
    lemma_rules_normalized_valid(RulesView { selected_rule: 0, ..v });
    lemma_rules_normalized_valid(RulesView { detail_scroll: 0, ..v });
    lemma_rules_normalized_valid(v);
    lemma_rules_normalized_valid(RulesView { selected_group: 0, selected_rule: 0, focus: crate::rules_tui::FocusPane::Groups, search: Seq::empty(), search_mode: false, detail_scroll: 0, ..v });
    if groups_len > 0 {
        lemma_rules_normalized_valid(RulesView { selected_group: (groups_len - 1) as usize, selected_rule: 0, ..v });
    }
    if v.visible_len() > 0 {
        lemma_rules_normalized_valid(RulesView { selected_rule: (v.visible_len() - 1) as usize, ..v });
    }
    let next = v.detail_scroll + 100;
    lemma_rules_normalized_valid(RulesView { detail_scroll: (if next > u16::MAX { u16::MAX as int } else { next }) as u16, ..v });
    let up = crate::results_tui::shifted(v.selected_group as int, groups_len, -1);
    let down = crate::results_tui::shifted(v.selected_group as int, groups_len, 1);
    lemma_rules_normalized_valid(RulesView { selected_group: up as usize, selected_rule: 0, detail_scroll: 0, ..v });
    lemma_rules_normalized_valid(RulesView { selected_group: down as usize, selected_rule: 0, detail_scroll: 0, ..v });
    if let Key::Char(c) = k.key {
        lemma_rules_normalized_valid(RulesView { search: v.search.push(c), selected_rule: 0, detail_scroll: 0, ..v });
    }
    if v.search.len() > 0 {
        lemma_rules_normalized_valid(RulesView { search: v.search.drop_last(), selected_rule: 0, detail_scroll: 0, ..v });
    } else {
        lemma_rules_normalized_valid(RulesView { search: v.search, selected_rule: 0, detail_scroll: 0, ..v });
    }
}

/// The rule browser opens with a valid selection.
pub proof fn law_rules_opening_selection_valid(
    catalog: RuleCatalog,
    project: ProjectInfo,
    group: Option<Seq<char>>,
    search: Seq<char>,
)
    ensures
        opening_view(catalog, project, group, search).selection_valid(),
{
}

/// Outside search mode, three Tabs visit the three panes and bring the
/// focus back where it was, changing nothing else.
pub proof fn law_rules_tab_cycles_panes(v: RulesView)
    requires
        !v.search_mode,
    ensures
        v.key_step(KeyPress { key: Key::Tab, control: false, alt: false }).0.focus != v.focus,
        v.key_step(KeyPress { key: Key::Tab, control: false, alt: false }).0.key_step(
            KeyPress { key: Key::Tab, control: false, alt: false },
        ).0.focus != v.focus,
        v.key_step(KeyPress { key: Key::Tab, control: false, alt: false }).0.key_step(
            KeyPress { key: Key::Tab, control: false, alt: false },
        ).0.key_step(KeyPress { key: Key::Tab, control: false, alt: false }).0 == v,
{
}

/// Outside search mode, Shift-Tab undoes Tab.
pub proof fn law_rules_backtab_undoes_tab(v: RulesView)
    requires
        !v.search_mode,
    ensures
        v.key_step(KeyPress { key: Key::Tab, control: false, alt: false }).0.key_step(
            KeyPress { key: Key::BackTab, control: false, alt: false },
        ).0 == v,
{
}

/// Resetting the rule browser clears the search and returns to the first
/// rule of the first group, with the groups focused.
pub proof fn law_rules_reset_returns_to_top(v: RulesView)
    ensures
        v.reset().search.len() == 0,
        !v.reset().search_mode,
        v.reset().focus == crate::rules_tui::FocusPane::Groups,
        v.reset().selected_group == 0,
        v.reset().selected_rule == 0,
        v.reset().detail_scroll == 0,
{
}

/// Scrolling the rule details never goes above the top.
pub proof fn law_rules_scroll_never_negative(v: RulesView, delta: int)
    requires
        v.detail_scroll + delta < 0,
    ensures
        v.scrolled(delta).detail_scroll == 0,
{
}

/// A group lists every error rule before every warning rule.
pub proof fn law_listing_errors_first(l: Seq<RuleCatalogEntry>, m: Seq<RuleCatalogEntry>, i: int, j: int)
    requires
        is_listing(l, m),
        0 <= i < j < l.len(),
    ensures
        l[i].default_severity.rank() <= l[j].default_severity.rank(),
{
    assert(crate::rules_tui::entry_le(l[i], l[j]));
}


// ── Rule configuration ─────────────────────────────────────

/// A rule that the config switches off reports nothing, and every finding
/// of a rule the config enables carries the configured severity (the
/// parser's and semantic checker's findings are never touched).
pub proof fn law_configured_rules_obey_config(ds: Seq<DiagView>, rules: Seq<(String, ConfigValue)>, name: Seq<char>)
    ensures
        (rule_value(rules, name) matches Some(v) && severity_of(v) is None) ==> forall|i: int|
            0 <= i < configured_views(ds, rules).len() && (#[trigger] configured_views(ds, rules)[i]).rule_name
                == name ==> configured_views(ds, rules)[i].origin == RuleOrigin::Engine,
        configured_severity(rules, name) is Some ==> forall|i: int|
            0 <= i < configured_views(ds, rules).len() && (#[trigger] configured_views(ds, rules)[i]).rule_name
                == name && configured_views(ds, rules)[i].origin != RuleOrigin::Engine
                ==> Some(configured_views(ds, rules)[i].severity) == configured_severity(rules, name),
    decreases ds.len(),
{
    if ds.len() > 0 {
        law_configured_rules_obey_config(ds.drop_last(), rules, name);
    }
}


// ── Search parameters and Suspense ─────────────────────────

/// A render inside `<Suspense>` is never flagged.
pub proof fn law_suspense_silences_render(cx: &LintContext, s: Seq<char>, o: int)
    requires
        wrapped(cx.ast, o),
    ensures
        (render_reports(cx, s))(o) is None,
{
}

/// A component that calls `useSearchParams()` itself and that nothing in
/// the file renders needs `<Suspense>`, and each of its calls is flagged.
pub proof fn law_unrendered_reader_is_flagged(cx: &LintContext, s: Seq<char>, c: int)
    requires
        0 <= c < cx.ast.nodes@.len(),
        direct_call(cx.ast, c),
        owner(cx.ast, c) == Some(s),
    ensures
        needs_suspense(cx.ast, s),
        (direct_reports(cx, s))(c) == Some(warning_at(cx, c)),
{
}


proof fn lemma_commas_step(s: Seq<char>, i: int)
    requires
        0 <= i <= s.len(),
    ensures
        without_marked_commas(s, i) + strip_commas_from(s, i, string_state(s, i).0, string_state(s, i).1)
            == without_marked_commas(s, s.len() as int),
    decreases s.len() - i,
{
    if i == s.len() {
        assert(without_marked_commas(s, i) + Seq::<char>::empty() =~= without_marked_commas(s, i));
    } else {
        lemma_commas_step(s, i + 1);
        let st = string_state(s, i);
        let rest = strip_commas_from(s, i + 1, string_state(s, i + 1).0, string_state(s, i + 1).1);
        if is_trailing_comma(s, i) {
            assert(strip_commas_from(s, i, st.0, st.1) == rest);
        } else {
            assert(strip_commas_from(s, i, st.0, st.1) == seq![s[i]] + rest);
            assert(without_marked_commas(s, i) + (seq![s[i]] + rest) =~= without_marked_commas(s, i).push(s[i]) + rest);
        }
    }
}

/// Dropping trailing commas removes exactly the commas outside string
/// literals that are followed, up to whitespace, by `}` or `]`, and keeps
/// every other character in order.
pub proof fn law_trailing_commas_exactly_removed(s: Seq<char>)
    ensures
        without_trailing_commas(s) == without_marked_commas(s, s.len() as int),
{
    lemma_commas_step(s, 0);
    assert(without_marked_commas(s, 0) + without_trailing_commas(s) =~= without_trailing_commas(s));
}

proof fn lemma_comments_step(s: Seq<char>, i: int)
    requires
        0 <= i <= s.len(),
        !comment_state(s, i).1,
    ensures
        without_comment_chars(s, i) + strip_comments_from(s, i, comment_state(s, i).0) == without_comment_chars(
            s,
            s.len() as int,
        ),
    decreases s.len() - i,
{
    if i == s.len() {
        assert(without_comment_chars(s, i) + Seq::<char>::empty() =~= without_comment_chars(s, i));
    } else {
        let st = comment_state(s, i).0;
        let nx = comment_state(s, i + 1);
        assert(nx == comment_step(s, i, st, false));
        if nx.1 {
            // A two-character marker: both characters leave the output.
            assert(i + 1 < s.len());
            let after = comment_state(s, i + 2);
            assert(after == comment_step(s, i + 1, nx.0, true));
            assert(!after.1);
            lemma_comments_step(s, i + 2);
            assert(in_comment(s, i));
            assert(in_comment(s, i + 1));
            assert(s[i] != '\n');
            assert(s[i + 1] != '\n');
            assert(without_comment_chars(s, i + 1) == without_comment_chars(s, i));
            assert(without_comment_chars(s, i + 2) == without_comment_chars(s, i + 1));
            assert(strip_comments_from(s, i, st) == strip_comments_from(s, i + 2, after.0));
        } else {
            lemma_comments_step(s, i + 1);
            let rest = strip_comments_from(s, i + 1, nx.0);
            if in_comment(s, i) && s[i] != '\n' {
                assert(strip_comments_from(s, i, st) == rest);
            } else {
                assert(strip_comments_from(s, i, st) == seq![s[i]] + rest);
                assert(without_comment_chars(s, i) + (seq![s[i]] + rest) =~= without_comment_chars(s, i).push(s[i])
                    + rest);
            }
        }
    }
}

/// Removing comments leaves out exactly the characters of comments outside
/// string literals, except the newlines inside them, and keeps every other
/// character in order.
pub proof fn law_comments_exactly_removed(s: Seq<char>)
    ensures
        without_comments(s) == without_comment_chars(s, s.len() as int),
{
    lemma_comments_step(s, 0);
    assert(without_comment_chars(s, 0) + without_comments(s) =~= without_comments(s));
}

// ── Rule summaries ─────────────────────────────────────────

/// Whether the first `n` summaries of `t` are non-empty and do not begin
/// with the generic hint's first letter.
spec fn texts_real(t: Seq<(Seq<char>, Seq<char>)>, n: nat) -> bool
    decreases n,
{
    if n == 0 {
        true
    } else {
        let e = t[n - 1].1;
        e.len() > 0 && e[0] != 'I' && texts_real(t, (n - 1) as nat)
    }
}

proof fn lemma_texts_real(t: Seq<(Seq<char>, Seq<char>)>, n: nat)
    requires
        texts_real(t, n),
    ensures
        forall|i: int| 0 <= i < n ==> #[trigger] t[i].1.len() > 0 && t[i].1[0] != 'I',
    decreases n,
{
    if n > 0 {
        lemma_texts_real(t, (n - 1) as nat);
    }
}

/// Each summary in the table is a non-empty text that does not begin as the
/// generic hint does.
proof fn lemma_summary_texts_real()
    ensures
        forall|i: int|
            0 <= i < summaries_spec().len() ==> #[trigger] summaries_spec()[i].1.len() > 0
                && summaries_spec()[i].1[0] != 'I',
{
    reveal_strlit("Avoid TypeScript `any` in favor of safer types.");
    reveal_strlit("Flag console calls that leak debug output into runtime code.");
    reveal_strlit("Catch blocks should handle, log, or rethrow errors.");
    reveal_strlit("Use `const` when a binding is never reassigned.");
    reveal_strlit("Surface declared bindings that are never used.");
    reveal_strlit("Flag statements that can never execute after control flow exits.");
    reveal_strlit("Require consistent returns from functions that should produce a value.");
    reveal_strlit("Show exports that are never imported anywhere else in the project.");
    reveal_strlit("Show files that are never imported by any other file.");
    reveal_strlit("Show package.json dependencies that are never imported.");
    reveal_strlit("Block dynamic code execution APIs such as `eval` and string timers.");
    reveal_strlit("Catch literal secrets committed directly in source.");
    reveal_strlit("Prefer collapsing chained array passes into a single traversal.");
    reveal_strlit("Prefer `toSorted()` over clone-then-sort patterns.");
    reveal_strlit("Move regular expression construction out of hot loops.");
    reveal_strlit("Use `Math.min` or `Math.max` instead of sorting to pick extremes.");
    reveal_strlit("Avoid repeated `includes()` lookups inside loops.");
    reveal_strlit("Batch style writes instead of mutating many properties one by one.");
    reveal_strlit("Avoid `find()` scans inside loops when indexing or caching is cheaper.");
    reveal_strlit("Reuse repeated storage reads instead of fetching the same key multiple times.");
    reveal_strlit("Flag deeply nested control flow that is hard to scan and optimize.");
    reveal_strlit("Run independent async work concurrently with `Promise.all`.");
    reveal_strlit("Derive render state directly instead of syncing it through effects.");
    reveal_strlit("Move fetches out of `useEffect` when a better data flow exists.");
    reveal_strlit("Avoid stacking many state updates inside a single effect.");
    reveal_strlit("Do not use `useEffect` as an event-handler wrapper.");
    reveal_strlit("Avoid initializing state directly from props when it can be derived.");
    reveal_strlit("Prefer `useReducer` once state transitions become coordinated or complex.");
    reveal_strlit("Use lazy initializers for expensive `useState` defaults.");
    reveal_strlit("Use functional updates when the next state depends on the previous value.");
    reveal_strlit("Keep hook dependency arrays stable and explicit.");
    reveal_strlit("Avoid array indexes as React keys on dynamic lists.");
    reveal_strlit("Be deliberate about canceling native browser behavior in JSX handlers.");
    reveal_strlit("Avoid `.length && <JSX>` patterns that can render `0`.");
    reveal_strlit("Surface oversized components that need decomposition.");
    reveal_strlit("Avoid calling `render*()` helpers inline from JSX trees.");
    reveal_strlit("Keep component definitions at module scope, not inside renders.");
    reveal_strlit("Skip `useMemo` around trivial expressions that do not need caching.");
    reveal_strlit("Keep motion prop objects stable across renders.");
    reveal_strlit("Avoid layout animations on hot React surfaces.");
    reveal_strlit("Do not wrap list rendering directly in `AnimatePresence`.");
    reveal_strlit("Keep motion-heavy elements out of large list renders.");
    reveal_strlit("Avoid recreating props that defeat memoized components.");
    reveal_strlit("Flag patterns that cause visible client/server hydration flicker.");
    reveal_strlit("Avoid broad `transition: all` rules on interactive UI.");
    reveal_strlit("Use `will-change` sparingly on React surfaces.");
    reveal_strlit("Flag heavy blur filters that are expensive to render.");
    reveal_strlit("Flag expensive shadow styles that hurt paint performance.");
    reveal_strlit("Avoid barrel imports on hot paths when they inflate bundles.");
    reveal_strlit("Avoid importing the full Lodash bundle.");
    reveal_strlit("Avoid Moment.js where lighter date utilities are enough.");
    reveal_strlit("Load heavy dependencies lazily with dynamic imports.");
    reveal_strlit("Use `LazyMotion` when shipping Framer Motion to the client.");
    reveal_strlit("Defer non-critical scripts so they do not block rendering.");
    reveal_strlit("Prefer `next/image` over raw `<img>` in Next.js apps.");
    reveal_strlit("Use `next/link` for internal navigation.");
    reveal_strlit("Avoid raw `<head>` usage in Next.js components.");
    reveal_strlit("Avoid `next/head` in modern App Router code.");
    reveal_strlit("Restrict `next/document` imports to custom document files.");
    reveal_strlit("Avoid placing `<script>` tags directly inside `<head>`.");
    reveal_strlit("Wrap `useSearchParams()` consumers in `Suspense`.");
    reveal_strlit("Require route metadata on pages that should declare it.");
    reveal_strlit("Keep GET handlers free of mutations and side effects.");
    reveal_strlit("Client components should not be declared `async`.");
    reveal_strlit("Require auth checks before mutating inside server actions.");
    reveal_strlit("Wrap non-blocking side effects in `after()` inside server actions.");
    reveal_strlit("Avoid inline style objects on React Native surfaces.");
    reveal_strlit("Avoid recreating inline callbacks on native components.");
    reveal_strlit("Keep `renderItem` stable instead of recreating it inline.");
    reveal_strlit("Prefer virtualized lists over mapping large collections in `ScrollView`.");
    reveal_strlit("Wrap text in `Text` instead of rendering raw strings directly.");
    reveal_strlit("Avoid platform alerts as a default UX escape hatch.");
    reveal_strlit("Avoid hardcoded remote image URIs in JSX.");
    reveal_strlit("Provide `keyExtractor` for virtualized React Native lists.");
    reveal_strlit("Avoid building SQL with request-controlled interpolation.");
    reveal_strlit("Do not pass dynamic input to shell execution APIs.");
    reveal_strlit("Avoid feeding request data directly into filesystem paths.");
    reveal_strlit("Do not redirect to request-controlled destinations.");
    reveal_strlit("Do not combine wildcard CORS origins with credentials.");
    reveal_strlit("Avoid shipping hardcoded JWT signing secrets.");
    reveal_strlit("Reject insecure JWT `none` algorithm usage.");
    reveal_strlit("Async route handlers should catch and translate failures.");
    reveal_strlit("Catch blocks must surface, handle, or rethrow server errors.");
    reveal_strlit("Never terminate the process from inside a request handler.");
    reveal_strlit("Set an HTTP error status before returning error payloads.");
    reveal_strlit("Throw `Error` objects instead of raw strings.");
    reveal_strlit("Avoid database or network requests inside loops.");
    reveal_strlit("Bound large collection queries with limits or pagination.");
    reveal_strlit("Avoid sync filesystem work in request handlers.");
    reveal_strlit("Avoid blocking crypto work in server request paths.");
    reveal_strlit("Avoid large synchronous JSON parsing in hot handlers.");
    reveal_strlit("Validate request bodies before using them in handlers.");
    reveal_strlit("Wrap coordinated ORM mutations in an explicit transaction.");
    reveal_strlit("Push oversized route logic into services or helpers.");
    reveal_with_fuel(texts_real, 95);
    assert(texts_real(summaries_spec(), 94));
    lemma_texts_real(summaries_spec(), 94);
}

/// The summary table and the catalog list the same rule ids, in the same order.
proof fn lemma_summary_keys()
    ensures
        summaries_spec().len() == seeds_spec().len(),
        forall|i: int| 0 <= i < seeds_spec().len() ==> #[trigger] summaries_spec()[i].0 == seeds_spec()[i].0,
{
    let a = summaries_spec().map_values(|p: (Seq<char>, Seq<char>)| p.0);
    let b = seeds_spec().map_values(|s: (Seq<char>, Seq<char>, RuleScope)| s.0);
    assert(a =~= b);
    assert forall|i: int| 0 <= i < seeds_spec().len() implies #[trigger] summaries_spec()[i].0 == seeds_spec()[i].0 by {
        assert(a[i] == b[i]);
    }
}

/// What `lookup` finds is the text of an entry with that id, and it finds
/// something exactly when some entry has that id.
proof fn lemma_lookup(t: Seq<(Seq<char>, Seq<char>)>, id: Seq<char>)
    ensures
        lookup(t, id) is Some <==> has_id(t, id),
        lookup(t, id) matches Some(x) ==> exists|i: int| 0 <= i < t.len() && #[trigger] t[i].0 == id && t[i].1 == x,
    decreases t.len(),
{
    if t.len() > 0 {
        let rest = t.drop_first();
        lemma_lookup(rest, id);
        if t[0].0 != id {
            if has_id(t, id) {
                let i = choose|i: int| 0 <= i < t.len() && #[trigger] t[i].0 == id;
                assert(rest[i - 1].0 == id);
            }
            if has_id(rest, id) {
                let j = choose|j: int| 0 <= j < rest.len() && #[trigger] rest[j].0 == id;
                assert(t[j + 1].0 == id);
            }
            if lookup(t, id) is Some {
                let x = lookup(t, id)->Some_0;
                let j = choose|j: int| 0 <= j < rest.len() && #[trigger] rest[j].0 == id && rest[j].1 == x;
                assert(t[j + 1].0 == id && t[j + 1].1 == x);
            }
        } else {
            assert(t[0].0 == id);
        }
    }
}

/// Every catalogued rule has a summary of its own, non-empty and distinct
/// from the generic hint; every other id gets the generic hint.
pub proof fn law_catalogued_rules_have_summaries(id: Seq<char>)
    ensures
        seeded(id) ==> summary_text(id).len() > 0 && summary_text(id) != fallback_text(),
        !seeded(id) ==> summary_text(id) == fallback_text(),
{
    lemma_summary_keys();
    lemma_summary_texts_real();
    lemma_lookup(summaries_spec(), id);
    reveal_strlit("Inspect this rule in context to understand the behavior it enforces.");
    if seeded(id) {
        let i = choose|i: int| 0 <= i < seeds_spec().len() && #[trigger] seeds_spec()[i].0 == id;
        assert(summaries_spec()[i].0 == id);
        let x = lookup(summaries_spec(), id)->Some_0;
        let j = choose|j: int|
            0 <= j < summaries_spec().len() && #[trigger] summaries_spec()[j].0 == id && summaries_spec()[j].1 == x;
        assert(summaries_spec()[j].1.len() > 0);
        assert(x[0] != fallback_text()[0]);
    } else {
        if has_id(summaries_spec(), id) {
            let j = choose|j: int| 0 <= j < summaries_spec().len() && #[trigger] summaries_spec()[j].0 == id;
            assert(seeds_spec()[j].0 == id);
        }
    }
}

// ── Rules ──────────────────────────────────────────────────

/// `no-wrong-arg-count`: a parameter after `this` and before a rest element
/// that has a default (`b = 1`) or the optional mark (`b?: T`) is not
/// required, and a plain identifier parameter without the mark is: each
/// such parameter adds nothing, or one, to the required count.
pub proof fn law_optional_params_not_required(ast: Ast, f: int, k: int)
    requires
        0 <= k < crate::rules::no_wrong_arg_count::total_params(ast, f),
    ensures
        ({
            let p = ast.field_children(f, "params"@)[crate::rules::no_wrong_arg_count::leading_skip(ast, f) + k] as int;
            &&& (ast.is(p, "AssignmentPattern"@) || ast.flag(p, "optional"@)) ==> crate::rules::no_wrong_arg_count::required_among(
                ast,
                f,
                k + 1,
            ) == crate::rules::no_wrong_arg_count::required_among(ast, f, k)
            &&& (ast.is(p, "Identifier"@) && !ast.flag(p, "optional"@)) ==> crate::rules::no_wrong_arg_count::required_among(
                ast,
                f,
                k + 1,
            ) == crate::rules::no_wrong_arg_count::required_among(ast, f, k) + 1
        }),
{
    reveal_strlit("Identifier");
    reveal_strlit("AssignmentPattern");
    reveal_strlit("TSParameterProperty");
    let p = ast.field_children(f, "params"@)[crate::rules::no_wrong_arg_count::leading_skip(ast, f) + k] as int;
    if ast.is(p, "Identifier"@) {
        assert(ast.nodes@[p].kind@ == "Identifier"@);
        assert("Identifier"@[0] != "AssignmentPattern"@[0]);
        assert("Identifier"@[0] != "TSParameterProperty"@[0]);
        assert(!ast.is(p, "AssignmentPattern"@));
        assert(!ast.is(p, "TSParameterProperty"@));
    }
}

/// `no-missing-return`: a `switch` counts as returning on every path only
/// when one of its cases is a `default` (has no test); without one, a value
/// matching no case falls through.
pub proof fn law_switch_without_default_may_fall_through(ast: Ast, s: int)
    requires
        ast.is(s, "SwitchStatement"@),
        crate::rules::no_missing_return::always_returns(ast, s),
    ensures
        exists|k: int|
            0 <= k < ast.field_children(s, "cases"@).len() && ast.child(
                #[trigger] ast.field_children(s, "cases"@)[k] as int,
                "test"@,
            ) is None,
{
    reveal_strlit("SwitchStatement");
    reveal_strlit("ReturnStatement");
    reveal_strlit("ThrowStatement");
    reveal_strlit("IfStatement");
    reveal_strlit("BlockStatement");
    assert(ast.nodes@[s].kind@ == "SwitchStatement"@);
    assert("SwitchStatement"@[0] != "ReturnStatement"@[0]);
    assert("SwitchStatement"@[0] != "ThrowStatement"@[0]);
    assert("SwitchStatement"@[0] != "IfStatement"@[0]);
    assert("SwitchStatement"@[0] != "BlockStatement"@[0]);
    assert(!ast.is(s, "ReturnStatement"@));
    assert(!ast.is(s, "ThrowStatement"@));
    assert(!ast.is(s, "IfStatement"@));
    assert(!ast.is(s, "BlockStatement"@));
}

/// `no-unused-vars`: a variable, catch binding or import, declared by a
/// variable declarator, a catch clause or an import specifier (named,
/// default or namespace), that nothing reads or uses as a type, whose name
/// does not start with `_` and that is not exported, is reported as
/// declared but never used.
pub proof fn law_unused_bindings_reported(cx: &LintContext, sym: SymbolView, lin: Seq<Seq<char>>)
    requires
        sym.is_variable || sym.is_catch_variable || sym.is_import,
        forall|k: int| 0 <= k < sym.references.len() ==> !(#[trigger] sym.references[k]).0 && !sym.references[k].1,
        !(sym.name.len() > 0 && sym.name[0] == '_'),
        forall|m: int|
            1 <= m < lin.len() ==> lin[m] != "ExportDeclaration"@ && lin[m] != "ExportNamedDeclaration"@ && lin[m]
                != "ExportFromDeclaration"@ && lin[m] != "ExportDefaultDeclaration"@,
        lin.len() > 0,
        lin[0] == "VariableDeclarator"@ || lin[0] == "CatchParameter"@ || lin[0] == "ImportSpecifier"@ || lin[0]
            == "ImportDefaultSpecifier"@ || lin[0] == "ImportNamespaceSpecifier"@,
    ensures
        crate::rules::no_unused_vars::unused_report(cx, sym, lin) == Some(
            cx.builtin(
                "no-unused-vars"@,
                "`"@ + sym.name + "` is declared but never used"@,
                sym.start,
                sym.end,
                crate::lint::Severity::Error,
            ),
        ),
{
    assert(!crate::rules::no_unused_vars::used(sym));
    assert(!crate::rules::no_unused_vars::exported(lin));
    assert(crate::rules::no_unused_vars::supported_from(lin, 0));
}

/// File discovery lints exactly the files whose extension is one of `js`,
/// `jsx`, `mjs`, `cjs`, `ts`, `tsx`, `mts` and `cts`.
pub proof fn law_lintable_extensions(e: Seq<char>)
    ensures
        crate::config::lintable_extension(e) <==> (e == "js"@ || e == "jsx"@ || e == "mjs"@ || e == "cjs"@ || e
            == "ts"@ || e == "tsx"@ || e == "mts"@ || e == "cts"@),
{
}

/// `react/no-fetch-in-effect`: an effect whose callback body holds a call
/// of `fetch`, `axios`, `axios.get`, `axios.post`, `axios.request`, `ky`
/// or `ky.get` is reported.
#[verifier::spinoff_prover]
pub proof fn law_fetch_calls_in_effects_flagged(ast: Ast, i: int, cb: int, b: int, d: int, k: int, n: Seq<char>)
    requires
        crate::rules::react::hooks::effect_parts(ast, i) == Some((cb, b, d)),
        0 <= k < ast.nodes@.len(),
        ast.is(k, "CallExpression"@),
        crate::rules::react::helpers::span_within(ast, b, k),
        crate::rules::server::helpers::callee_name(ast, k) == Some(n),
        n == "fetch"@ || n == "axios"@ || n == "axios.get"@ || n == "axios.post"@ || n == "axios.request"@ || n
            == "ky"@ || n == "ky.get"@,
    ensures
        crate::rules::react::hooks::fetch_in_effect(ast, i),
{
    lemma_fetch_name_listed(n);
    assert(crate::rules::react::hooks::fetch_within(ast, b, k));
    let p = |j: int| crate::rules::react::hooks::fetch_within(ast, b, j);
    assert(p(k));
    assert(crate::engine::any_node(ast.nodes@.len() as int, p));
}

proof fn lemma_fetch_name_listed(n: Seq<char>)
    requires
        n == "fetch"@ || n == "axios"@ || n == "axios.get"@ || n == "axios.post"@ || n == "axios.request"@ || n
            == "ky"@ || n == "ky.get"@,
    ensures
        crate::rules::react::hooks::effect_fetch_names().contains(n),
{
    let names = crate::rules::react::hooks::effect_fetch_names();
    let idx: int = if n == "fetch"@ {
        0
    } else if n == "axios"@ {
        1
    } else if n == "axios.get"@ {
        2
    } else if n == "axios.post"@ {
        3
    } else if n == "axios.request"@ {
        4
    } else if n == "ky"@ {
        5
    } else {
        6
    };
    assert(names[idx] == n);
}

} // verus!
