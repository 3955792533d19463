//! Decisions behind the interactive rule browser: which rules a group
//! lists under the current search, in which order, which one is selected,
//! and what a key does.
use vstd::prelude::*;

use crate::lint::Severity;
use crate::project::ProjectInfo;
use crate::results_tui::{search_query, shift_index, shifted, Key, KeyPress};
use crate::rule_catalog::{RuleCatalog, RuleCatalogEntry, RuleGroup};
use crate::text::{
    chars_of, contains, contains_chars, eq_chars, lemma_lex_le_total, lemma_lex_le_trans, lex_le,
    lex_le_exec, lower, lower_chars, trim_chars,
};
use crate::tui_common::severity_rank;

verus! {

/// Which pane has the focus.
#[derive(Debug, Clone, Copy, PartialEq, Eq, Structural)]
pub enum FocusPane {
    Groups,
    Rules,
    Details,
}

/// What the caller should do after a key.
#[derive(Debug, Clone, Copy, PartialEq, Eq, Structural)]
pub enum AppAction {
    Continue,
    Quit,
}

/// A catalog entry passes the search: every entry for an empty query, else
/// one whose id or summary contains it (ASCII case ignored).
pub open spec fn entry_matches(e: RuleCatalogEntry, query: Seq<char>) -> bool {
    query.len() == 0 || contains(lower(e.id@), query) || contains(lower(e.summary@), query)
}

/// The entries of group `key` that pass the search, in catalog order.
pub open spec fn group_matches(entries: Seq<RuleCatalogEntry>, key: Seq<char>, query: Seq<char>) -> Seq<
    RuleCatalogEntry,
>
    decreases entries.len(),
{
    if entries.len() == 0 {
        Seq::empty()
    } else {
        let before = group_matches(entries.drop_last(), key, query);
        let e = entries.last();
        if e.group_key@ == key && entry_matches(e, query) {
            before.push(e)
        } else {
            before
        }
    }
}

/// The listing order: errors before warnings, then by id.
pub open spec fn entry_le(a: RuleCatalogEntry, b: RuleCatalogEntry) -> bool {
    a.default_severity.rank() < b.default_severity.rank() || (a.default_severity.rank()
        == b.default_severity.rank() && lex_le(a.id@, b.id@))
}

/// Entries in listing order.
pub open spec fn listed_in_order(s: Seq<RuleCatalogEntry>) -> bool {
    forall|i: int, j: int| 0 <= i < j < s.len() ==> entry_le(#[trigger] s[i], #[trigger] s[j])
}

/// `v` lists the entries of `m`: the same entries, in listing order.
pub open spec fn is_listing(v: Seq<RuleCatalogEntry>, m: Seq<RuleCatalogEntry>) -> bool {
    &&& listed_in_order(v)
    &&& v.to_multiset() == m.to_multiset()
}

proof fn lemma_entry_le_total(a: RuleCatalogEntry, b: RuleCatalogEntry)
    ensures
        entry_le(a, b) || entry_le(b, a),
{
    lemma_lex_le_total(a.id@, b.id@);
}

proof fn lemma_entry_le_trans(a: RuleCatalogEntry, b: RuleCatalogEntry, c: RuleCatalogEntry)
    requires
        entry_le(a, b),
        entry_le(b, c),
    ensures
        entry_le(a, c),
{
    if a.default_severity.rank() == b.default_severity.rank() && b.default_severity.rank()
        == c.default_severity.rank() {
        lemma_lex_le_trans(a.id@, b.id@, c.id@);
    }
}

proof fn lemma_insert_in_order(s: Seq<RuleCatalogEntry>, k: int, x: RuleCatalogEntry)
    requires
        0 <= k <= s.len(),
        listed_in_order(s),
        forall|m: int| 0 <= m < k ==> entry_le(#[trigger] s[m], x),
        k < s.len() ==> !entry_le(s[k], x),
    ensures
        listed_in_order(s.insert(k, x)),
{
    let t = s.insert(k, x);
    if k < s.len() {
        lemma_entry_le_total(s[k], x);
    }
    assert forall|i: int, j: int| 0 <= i < j < t.len() implies entry_le(#[trigger] t[i], #[trigger] t[j]) by {
        if i < k && j == k {
        } else if i == k && j > k {
            if j - 1 > k {
                lemma_entry_le_trans(x, s[k], s[j - 1]);
            }
        } else if i < k && j > k {
            assert(entry_le(s[i], s[j - 1]));
        } else if j < k {
            assert(entry_le(s[i], s[j]));
        } else {
            assert(entry_le(s[i - 1], s[j - 1]));
        }
    }
}

fn entry_matches_exec(e: &RuleCatalogEntry, query: &Vec<char>) -> (b: bool)
    ensures
        b == entry_matches(*e, query@),
{
    query.len() == 0 || contains_chars(&lower_chars(&chars_of(e.id.as_str())), query)
        || contains_chars(&lower_chars(&chars_of(e.summary.as_str())), query)
}

fn entry_le_exec(a: &RuleCatalogEntry, b: &RuleCatalogEntry) -> (r: bool)
    ensures
        r == entry_le(*a, *b),
{
    let ra = severity_rank(&a.default_severity);
    let rb = severity_rank(&b.default_severity);
    ra < rb || (ra == rb && lex_le_exec(&chars_of(a.id.as_str()), &chars_of(b.id.as_str())))
}

/// The entries of `entries` in group `key` that pass `query`, in listing order.
fn listing<'a>(entries: &'a Vec<RuleCatalogEntry>, key: &str, query: &Vec<char>) -> (r: Vec<
    &'a RuleCatalogEntry,
>)
    ensures
        is_listing(r@.map_values(|e: &RuleCatalogEntry| *e), group_matches(entries@, key@, query@)),
{
    let target = chars_of(key);
    let mut matching: Vec<&RuleCatalogEntry> = Vec::new();
    let mut i: usize = 0;
    while i < entries.len()
        invariant
            i <= entries@.len(),
            target@ == key@,
            matching@.map_values(|e: &RuleCatalogEntry| *e) == group_matches(
                entries@.take(i as int),
                key@,
                query@,
            ),
        decreases entries@.len() - i,
    {
        let e = &entries[i];
        proof {
            let t = entries@.take(i + 1);
            assert(t.drop_last() =~= entries@.take(i as int));
            assert(t.last() == entries@[i as int]);
        }
        if eq_chars(&chars_of(e.group_key), &target) && entry_matches_exec(e, query) {
            let ghost before = matching@;
            matching.push(e);
            assert(matching@.map_values(|e: &RuleCatalogEntry| *e) =~= before.map_values(
                |e: &RuleCatalogEntry| *e,
            ).push(*e));
        }
        i = i + 1;
    }
    assert(entries@.take(i as int) =~= entries@);
    let ghost all = matching@.map_values(|e: &RuleCatalogEntry| *e);
    let mut out: Vec<&RuleCatalogEntry> = Vec::new();
    proof {
        broadcast use vstd::seq_lib::group_to_multiset_ensures;

        assert(all.skip(all.len() as int) =~= Seq::<RuleCatalogEntry>::empty());
        assert(out@.map_values(|e: &RuleCatalogEntry| *e) =~= Seq::<RuleCatalogEntry>::empty());
        assert(all.take(all.len() as int) =~= all);
    }
    while matching.len() > 0
        invariant
            matching@.len() <= all.len(),
            matching@.map_values(|e: &RuleCatalogEntry| *e) == all.take(matching@.len() as int),
            listed_in_order(out@.map_values(|e: &RuleCatalogEntry| *e)),
            out@.map_values(|e: &RuleCatalogEntry| *e).to_multiset() == all.skip(
                matching@.len() as int,
            ).to_multiset(),
        decreases matching@.len(),
    {
        let ghost before = out@.map_values(|e: &RuleCatalogEntry| *e);
        let ghost n = matching@.len() as int;
        let x = matching.pop().unwrap();
        proof {
            assert(all.take(n)[n - 1] == *x);
            assert(matching@.map_values(|e: &RuleCatalogEntry| *e) =~= all.take(n - 1));
        }
        let mut k: usize = 0;
        while k < out.len() && entry_le_exec(out[k], x)
            invariant
                k <= out@.len(),
                before == out@.map_values(|e: &RuleCatalogEntry| *e),
                forall|m: int| 0 <= m < k ==> entry_le(#[trigger] before[m], *x),
            decreases out@.len() - k,
        {
            k = k + 1;
        }
        proof {
            lemma_insert_in_order(before, k as int, *x);
            vstd::seq_lib::to_multiset_insert(before, k as int, *x);
            let rest = all.skip(n);
            assert(all.skip(n - 1) =~= seq![*x] + rest);
            vstd::seq_lib::lemma_seq_union_to_multiset_commutative(rest, seq![*x]);
            vstd::seq_lib::to_multiset_build(rest, *x);
            assert(rest.push(*x) =~= rest + seq![*x]);
        }
        out.insert(k, x);
        assert(out@.map_values(|e: &RuleCatalogEntry| *e) =~= before.insert(k as int, *x));
    }
    assert(all.skip(0) =~= all);
    out
}


// ── The rule browser ───────────────────────────────────────

/// The browser's state: the catalog and project it shows, the selected
/// group and rule, the focused pane, the search and the detail scroll.
pub struct RulesApp {
    pub catalog: RuleCatalog,
    pub project: ProjectInfo,
    pub selected_group: usize,
    pub selected_rule: usize,
    pub focus: FocusPane,
    pub search: Vec<char>,
    pub search_mode: bool,
    pub detail_scroll: u16,
}

/// The browser's state as values.
pub struct RulesView {
    pub groups: Seq<RuleGroup>,
    pub entries: Seq<RuleCatalogEntry>,
    pub project: ProjectInfo,
    pub selected_group: usize,
    pub selected_rule: usize,
    pub focus: FocusPane,
    pub search: Seq<char>,
    pub search_mode: bool,
    pub detail_scroll: u16,
}

impl View for RulesApp {
    type V = RulesView;

    open spec fn view(&self) -> RulesView {
        RulesView {
            groups: self.catalog.groups@,
            entries: self.catalog.entries@,
            project: self.project,
            selected_group: self.selected_group,
            selected_rule: self.selected_rule,
            focus: self.focus,
            search: self.search@,
            search_mode: self.search_mode,
            detail_scroll: self.detail_scroll,
        }
    }
}

impl RulesView {
    /// The entries group `g` lists under the current search (none for a
    /// group that does not exist), in catalog order.
    pub open spec fn matches(self, g: int) -> Seq<RuleCatalogEntry> {
        if 0 <= g < self.groups.len() {
            group_matches(self.entries, self.groups[g].key@, search_query(self.search))
        } else {
            Seq::empty()
        }
    }

    /// How many rules group `g` lists.
    pub open spec fn count(self, g: int) -> nat {
        self.matches(g).len()
    }

    /// How many rules the selected group lists.
    pub open spec fn visible_len(self) -> nat {
        self.count(self.selected_group as int)
    }

    /// The selection pulled back into the groups and the listed rules.
    pub open spec fn normalized(self) -> RulesView {
        if self.groups.len() == 0 {
            RulesView { selected_group: 0, selected_rule: 0, ..self }
        } else {
            let g = if self.selected_group >= self.groups.len() {
                (self.groups.len() - 1) as usize
            } else {
                self.selected_group
            };
            let n = self.count(g as int);
            RulesView {
                selected_group: g,
                selected_rule: if n == 0 {
                    0
                } else if self.selected_rule >= n {
                    (n - 1) as usize
                } else {
                    self.selected_rule
                },
                ..self
            }
        }
    }

    /// The selection points at a group and at one of its listed rules.
    pub open spec fn selection_valid(self) -> bool {
        &&& (self.groups.len() == 0 ==> self.selected_group == 0)
        &&& (self.groups.len() > 0 ==> self.selected_group < self.groups.len())
        &&& (self.visible_len() == 0 ==> self.selected_rule == 0)
        &&& (self.visible_len() > 0 ==> self.selected_rule < self.visible_len())
    }

    /// The first group that lists a rule under the current search.
    pub open spec fn first_with_matches(self) -> Option<usize> {
        if exists|g: int| 0 <= g < self.groups.len() && self.count(g) > 0 {
            let g = choose|g: int|
                0 <= g < self.groups.len() && self.count(g) > 0 && forall|h: int|
                    0 <= h < g ==> self.count(h) == 0;
            Some(g as usize)
        } else {
            None
        }
    }

    /// The selected group moved by `delta`; on a change, the first rule of
    /// the new group with the detail at its top.
    pub open spec fn group_moved(self, delta: int) -> RulesView {
        let next = shifted(self.selected_group as int, self.groups.len() as int, delta);
        if next != self.selected_group {
            RulesView { selected_group: next as usize, selected_rule: 0, detail_scroll: 0, ..self }.normalized()
        } else {
            self
        }
    }

    /// The selected rule moved by `delta` within the listed rules, with the
    /// detail at its top; rule 0 when nothing is listed.
    pub open spec fn rule_moved(self, delta: int) -> RulesView {
        let n = self.visible_len();
        if n == 0 {
            RulesView { selected_rule: 0, ..self }
        } else {
            RulesView { selected_rule: shifted(self.selected_rule as int, n as int, delta) as usize, detail_scroll: 0, ..self }
        }
    }

    /// The detail scrolled by `delta`, never above the top.
    pub open spec fn scrolled(self, delta: int) -> RulesView {
        let next = self.detail_scroll + delta;
        RulesView { detail_scroll: (if next < 0 { 0 } else { next }) as u16, ..self }
    }

    /// Home: the top of the focused pane.
    pub open spec fn at_start(self) -> RulesView {
        match self.focus {
            FocusPane::Groups => RulesView { selected_group: 0, selected_rule: 0, ..self }.normalized(),
            FocusPane::Rules => RulesView { selected_rule: 0, ..self }.normalized(),
            FocusPane::Details => RulesView { detail_scroll: 0, ..self }.normalized(),
        }
    }

    /// End: the last group, the last listed rule, or the detail scrolled
    /// 100 lines further (saturating).
    pub open spec fn at_end(self) -> RulesView {
        match self.focus {
            FocusPane::Groups => if self.groups.len() > 0 {
                RulesView { selected_group: (self.groups.len() - 1) as usize, selected_rule: 0, ..self }.normalized()
            } else {
                self.normalized()
            },
            FocusPane::Rules => {
                let n = self.visible_len();
                if n > 0 {
                    RulesView { selected_rule: (n - 1) as usize, ..self }.normalized()
                } else {
                    self.normalized()
                }
            },
            FocusPane::Details => {
                let next = self.detail_scroll + 100;
                RulesView { detail_scroll: (if next > u16::MAX { u16::MAX as int } else { next }) as u16, ..self }.normalized()
            },
        }
    }

    /// The first group, focused, with no search.
    pub open spec fn reset(self) -> RulesView {
        RulesView {
            selected_group: 0,
            selected_rule: 0,
            focus: FocusPane::Groups,
            search: Seq::empty(),
            search_mode: false,
            detail_scroll: 0,
            ..self
        }.normalized()
    }

    /// A new search text, with the first listed rule selected.
    pub open spec fn searched(self, search: Seq<char>) -> RulesView {
        RulesView { search, selected_rule: 0, detail_scroll: 0, ..self }.normalized()
    }

    /// What a key does while the search is being typed.
    pub open spec fn search_key(self, k: KeyPress) -> RulesView {
        match k.key {
            Key::Esc | Key::Enter => RulesView { search_mode: false, ..self },
            Key::Backspace => self.searched(
                if self.search.len() > 0 {
                    self.search.drop_last()
                } else {
                    self.search
                },
            ),
            Key::Char(c) => if !k.control && !k.alt {
                self.searched(self.search.push(c))
            } else {
                self
            },
            _ => self,
        }
    }

    /// The focus after Tab.
    pub open spec fn next_focus(f: FocusPane) -> FocusPane {
        match f {
            FocusPane::Groups => FocusPane::Rules,
            FocusPane::Rules => FocusPane::Details,
            FocusPane::Details => FocusPane::Groups,
        }
    }

    /// The focus after Shift-Tab.
    pub open spec fn prev_focus(f: FocusPane) -> FocusPane {
        match f {
            FocusPane::Groups => FocusPane::Details,
            FocusPane::Rules => FocusPane::Groups,
            FocusPane::Details => FocusPane::Rules,
        }
    }

    /// What a key does: Ctrl-C and `q` quit; in search mode keys edit the
    /// search; Tab and Shift-Tab cycle the panes; left (`h`) focuses the
    /// groups and right (`l`) moves from them to the rules; up and down
    /// (`k`, `j`) move in the focused pane; Home/End jump; `/` starts a
    /// search; `g` resets.
    pub open spec fn key_step(self, k: KeyPress) -> (RulesView, AppAction) {
        if k.key == Key::Char('c') && k.control {
            (self, AppAction::Quit)
        } else if self.search_mode {
            (self.search_key(k), AppAction::Continue)
        } else {
            match k.key {
                Key::Char('q') => (self, AppAction::Quit),
                Key::Tab => (RulesView { focus: Self::next_focus(self.focus), ..self }, AppAction::Continue),
                Key::BackTab => (RulesView { focus: Self::prev_focus(self.focus), ..self }, AppAction::Continue),
                Key::Left | Key::Char('h') => (RulesView { focus: FocusPane::Groups, ..self }, AppAction::Continue),
                Key::Right | Key::Char('l') => (
                    if self.focus == FocusPane::Groups {
                        RulesView { focus: FocusPane::Rules, ..self }
                    } else {
                        self
                    },
                    AppAction::Continue,
                ),
                Key::Up | Key::Char('k') => (
                    match self.focus {
                        FocusPane::Groups => self.group_moved(-1),
                        FocusPane::Rules => self.rule_moved(-1),
                        FocusPane::Details => self.scrolled(-1),
                    },
                    AppAction::Continue,
                ),
                Key::Down | Key::Char('j') => (
                    match self.focus {
                        FocusPane::Groups => self.group_moved(1),
                        FocusPane::Rules => self.rule_moved(1),
                        FocusPane::Details => self.scrolled(1),
                    },
                    AppAction::Continue,
                ),
                Key::Home => (self.at_start(), AppAction::Continue),
                Key::End => (self.at_end(), AppAction::Continue),
                Key::Char('/') => (RulesView { search_mode: true, ..self }, AppAction::Continue),
                Key::Char('g') => (self.reset(), AppAction::Continue),
                _ => (self, AppAction::Continue),
            }
        }
    }
}

/// The first group whose key is `key`.
pub open spec fn group_position(groups: Seq<RuleGroup>, key: Seq<char>) -> Option<usize> {
    if exists|i: int| 0 <= i < groups.len() && groups[i].key@ == key {
        let i = choose|i: int|
            0 <= i < groups.len() && groups[i].key@ == key && forall|h: int| 0 <= h < i ==> groups[h].key@ != key;
        Some(i as usize)
    } else {
        None
    }
}

/// The state a browser opens in: the requested group (else the first),
/// the requested search, and, when that search lists nothing in the group,
/// the first group where it lists something.
pub open spec fn opening_view(
    catalog: RuleCatalog,
    project: ProjectInfo,
    group: Option<Seq<char>>,
    search: Seq<char>,
) -> RulesView {
    let g = match group {
        Some(k) => match group_position(catalog.groups@, k) {
            Some(i) => i,
            None => 0,
        },
        None => 0,
    };
    let base = RulesView {
        groups: catalog.groups@,
        entries: catalog.entries@,
        project,
        selected_group: g,
        selected_rule: 0,
        focus: FocusPane::Groups,
        search,
        search_mode: false,
        detail_scroll: 0,
    };
    let moved = if search.len() > 0 && base.visible_len() == 0 {
        match base.first_with_matches() {
            Some(h) => RulesView { selected_group: h, ..base },
            None => base,
        }
    } else {
        base
    };
    moved.normalized()
}

impl RulesApp {
    /// A browser over `catalog` for `project`, opened on `initial_group`
    /// with `initial_search` applied.
    pub fn new(
        catalog: RuleCatalog,
        project: ProjectInfo,
        initial_group: Option<&str>,
        initial_search: Option<&str>,
    ) -> (r: RulesApp)
        ensures
            r@ == opening_view(
                catalog,
                project,
                match initial_group {
                    Some(k) => Some(k@),
                    None => None,
                },
                match initial_search {
                    Some(t) => t@,
                    None => Seq::empty(),
                },
            ),
    {
        let selected_group = match initial_group {
            Some(k) => match catalog.group_index(k) {
                Some(i) => {
                    proof {
                        let c = choose|j: int|
                            0 <= j < catalog.groups@.len() && catalog.groups@[j].key@ == k@ && forall|h: int|
                                0 <= h < j ==> catalog.groups@[h].key@ != k@;
                        assert(0 <= i < catalog.groups@.len() && catalog.groups@[i as int].key@ == k@);
                        if c < i {
                            assert(catalog.groups@[c].key@ != k@);
                        } else if c > i {
                            assert(catalog.groups@[i as int].key@ != k@);
                        }
                    }
                    i
                },
                None => 0,
            },
            None => 0,
        };
        let search = match initial_search {
            Some(t) => chars_of(t),
            None => Vec::new(),
        };
        let mut app = RulesApp {
            catalog,
            project,
            selected_group,
            selected_rule: 0,
            focus: FocusPane::Groups,
            search,
            search_mode: false,
            detail_scroll: 0,
        };
        if app.search.len() > 0 && app.visible_count() == 0 {
            match app.first_group_with_matches() {
                Some(index) => app.selected_group = index,
                None => {},
            }
        }
        app.normalize_selection();
        app
    }

    /// The rules group `index` lists under the current search, errors
    /// first, then by id.
    pub fn entries_for_group(&self, index: usize) -> (r: Vec<&RuleCatalogEntry>)
        ensures
            is_listing(r@.map_values(|e: &RuleCatalogEntry| *e), self@.matches(index as int)),
    {
        if index >= self.catalog.groups.len() {
            let r: Vec<&RuleCatalogEntry> = Vec::new();
            proof {
                broadcast use vstd::seq_lib::group_to_multiset_ensures;

                assert(r@.map_values(|e: &RuleCatalogEntry| *e) =~= Seq::<RuleCatalogEntry>::empty());
            }
            return r;
        }
        let query = lower_chars(&trim_chars(&self.search));
        listing(&self.catalog.entries, self.catalog.groups[index].key, &query)
    }

    /// How many rules group `index` lists.
    pub fn group_count(&self, index: usize) -> (r: usize)
        ensures
            r == self@.count(index as int),
    {
        let v = self.entries_for_group(index);
        proof {
            let m = v@.map_values(|e: &RuleCatalogEntry| *e);
            assert(m.len() == v@.len());
            vstd::seq_lib::to_multiset_len(m);
            vstd::seq_lib::to_multiset_len(self@.matches(index as int));
        }
        v.len()
    }

    /// The rules the selected group lists.
    pub fn visible_entries(&self) -> (r: Vec<&RuleCatalogEntry>)
        ensures
            is_listing(r@.map_values(|e: &RuleCatalogEntry| *e), self@.matches(self.selected_group as int)),
    {
        self.entries_for_group(self.selected_group)
    }

    /// How many rules the selected group lists.
    pub fn visible_count(&self) -> (r: usize)
        ensures
            r == self@.visible_len(),
    {
        self.group_count(self.selected_group)
    }

    /// The selected rule, if the selection points at a listed one.
    pub fn selected_entry(&self) -> (r: Option<&RuleCatalogEntry>)
        ensures
            match r {
                Some(e) => self.selected_rule < self@.visible_len() && exists|v: Seq<RuleCatalogEntry>|
                    is_listing(v, self@.matches(self.selected_group as int)) && v[self.selected_rule as int] == *e,
                None => self.selected_rule >= self@.visible_len(),
            },
    {
        let v = self.visible_entries();
        let ghost m = v@.map_values(|e: &RuleCatalogEntry| *e);
        proof {
            assert(m.len() == v@.len());
            vstd::seq_lib::to_multiset_len(m);
            vstd::seq_lib::to_multiset_len(self@.matches(self.selected_group as int));
        }
        if self.selected_rule < v.len() {
            proof {
                assert(m[self.selected_rule as int] == *v@[self.selected_rule as int]);
                assert(is_listing(m, self@.matches(self.selected_group as int)));
            }
            Some(v[self.selected_rule])
        } else {
            None
        }
    }

    /// The first group that lists a rule under the current search.
    pub fn first_group_with_matches(&self) -> (r: Option<usize>)
        ensures
            r == self@.first_with_matches(),
    {
        let mut g: usize = 0;
        while g < self.catalog.groups.len()
            invariant
                g <= self@.groups.len(),
                forall|h: int| 0 <= h < g ==> self@.count(h) == 0,
            decreases self@.groups.len() - g,
        {
            if self.group_count(g) > 0 {
                proof {
                    let v = self@;
                    let c = choose|j: int|
                        0 <= j < v.groups.len() && v.count(j) > 0 && forall|h: int| 0 <= h < j ==> v.count(h) == 0;
                    assert(0 <= g < v.groups.len() && v.count(g as int) > 0);
                    if c < g {
                        assert(v.count(c) == 0);
                    } else if c > g {
                        assert(v.count(g as int) == 0);
                    }
                }
                return Some(g);
            }
            g = g + 1;
        }
        None
    }

    /// Pulls the selection back into the groups and the listed rules.
    #[verifier::rlimit(40)]
    pub fn normalize_selection(&mut self)
        ensures
            final(self)@ == old(self)@.normalized(),
    {
        if self.catalog.groups.len() == 0 {
            self.selected_group = 0;
            self.selected_rule = 0;
            return;
        }
        if self.selected_group >= self.catalog.groups.len() {
            self.selected_group = self.catalog.groups.len() - 1;
        }
        let n = self.visible_count();
        if n == 0 {
            self.selected_rule = 0;
        } else if self.selected_rule >= n {
            self.selected_rule = n - 1;
        }
    }

    /// Moves the group selection by `delta`; on a change, selects the
    /// first rule of the new group.
    pub fn move_group(&mut self, delta: isize)
        ensures
            final(self)@ == old(self)@.group_moved(delta as int),
    {
        let len = self.catalog.groups.len();
        let next: usize = if len == 0 {
            0
        } else {
            let target: i128 = self.selected_group as i128 + delta as i128;
            if target < 0 {
                0
            } else if target > (len - 1) as i128 {
                len - 1
            } else {
                target as usize
            }
        };
        if next != self.selected_group {
            self.selected_group = next;
            self.selected_rule = 0;
            self.detail_scroll = 0;
            self.normalize_selection();
        }
    }

    /// Moves the rule selection by `delta` within the listed rules.
    pub fn move_rule(&mut self, delta: isize)
        ensures
            final(self)@ == old(self)@.rule_moved(delta as int),
    {
        let n = self.visible_count();
        if n == 0 {
            self.selected_rule = 0;
            return;
        }
        let target: i128 = self.selected_rule as i128 + delta as i128;
        self.selected_rule = if target < 0 {
            0
        } else if target > (n - 1) as i128 {
            n - 1
        } else {
            target as usize
        };
        self.detail_scroll = 0;
    }

    /// Scrolls the detail pane by `delta` lines, never above the top.
    pub fn scroll_detail(&mut self, delta: isize)
        ensures
            final(self)@ == old(self)@.scrolled(delta as int),
    {
        let next: i128 = self.detail_scroll as i128 + delta as i128;
        let clamped: i128 = if next < 0 {
            0
        } else {
            next
        };
        self.detail_scroll = clamped as u16;
    }

    fn jump_to_start(&mut self)
        ensures
            final(self)@ == old(self)@.at_start(),
    {
        match self.focus {
            FocusPane::Groups => {
                self.selected_group = 0;
                self.selected_rule = 0;
            },
            FocusPane::Rules => self.selected_rule = 0,
            FocusPane::Details => self.detail_scroll = 0,
        }
        self.normalize_selection();
    }

    fn jump_to_end(&mut self)
        ensures
            final(self)@ == old(self)@.at_end(),
    {
        match self.focus {
            FocusPane::Groups => {
                if self.catalog.groups.len() > 0 {
                    self.selected_group = self.catalog.groups.len() - 1;
                    self.selected_rule = 0;
                }
            },
            FocusPane::Rules => {
                let n = self.visible_count();
                if n > 0 {
                    self.selected_rule = n - 1;
                }
            },
            FocusPane::Details => {
                self.detail_scroll = self.detail_scroll.saturating_add(100);
            },
        }
        self.normalize_selection();
    }

    /// Back to the first group, focused, with no search.
    pub fn reset(&mut self)
        ensures
            final(self)@ == old(self)@.reset(),
    {
        self.selected_group = 0;
        self.selected_rule = 0;
        self.focus = FocusPane::Groups;
        self.search = Vec::new();
        self.search_mode = false;
        self.detail_scroll = 0;
        self.normalize_selection();
    }

    fn handle_search_key(&mut self, key: KeyPress)
        ensures
            final(self)@ == old(self)@.search_key(key),
    {
        match key.key {
            Key::Esc | Key::Enter => self.search_mode = false,
            Key::Backspace => {
                self.search.pop();
                self.selected_rule = 0;
                self.detail_scroll = 0;
                self.normalize_selection();
            },
            Key::Char(ch) => {
                if !key.control && !key.alt {
                    self.search.push(ch);
                    self.selected_rule = 0;
                    self.detail_scroll = 0;
                    self.normalize_selection();
                }
            },
            _ => {},
        }
    }

    /// Applies a key and says what the caller should do next.
    pub fn handle_key(&mut self, key: KeyPress) -> (r: AppAction)
        ensures
            (final(self)@, r) == old(self)@.key_step(key),
    {
        if key.key == Key::Char('c') && key.control {
            return AppAction::Quit;
        }
        if self.search_mode {
            self.handle_search_key(key);
            return AppAction::Continue;
        }
        match key.key {
            Key::Char('q') => AppAction::Quit,
            Key::Tab => {
                self.focus = match self.focus {
                    FocusPane::Groups => FocusPane::Rules,
                    FocusPane::Rules => FocusPane::Details,
                    FocusPane::Details => FocusPane::Groups,
                };
                AppAction::Continue
            },
            Key::BackTab => {
                self.focus = match self.focus {
                    FocusPane::Groups => FocusPane::Details,
                    FocusPane::Rules => FocusPane::Groups,
                    FocusPane::Details => FocusPane::Rules,
                };
                AppAction::Continue
            },
            Key::Left | Key::Char('h') => {
                self.focus = FocusPane::Groups;
                AppAction::Continue
            },
            Key::Right | Key::Char('l') => {
                if self.focus == FocusPane::Groups {
                    self.focus = FocusPane::Rules;
                }
                AppAction::Continue
            },
            Key::Up | Key::Char('k') => {
                match self.focus {
                    FocusPane::Groups => self.move_group(-1),
                    FocusPane::Rules => self.move_rule(-1),
                    FocusPane::Details => self.scroll_detail(-1),
                }
                AppAction::Continue
            },
            Key::Down | Key::Char('j') => {
                match self.focus {
                    FocusPane::Groups => self.move_group(1),
                    FocusPane::Rules => self.move_rule(1),
                    FocusPane::Details => self.scroll_detail(1),
                }
                AppAction::Continue
            },
            Key::Home => {
                self.jump_to_start();
                AppAction::Continue
            },
            Key::End => {
                self.jump_to_end();
                AppAction::Continue
            },
            Key::Char('/') => {
                self.search_mode = true;
                AppAction::Continue
            },
            Key::Char('g') => {
                self.reset();
                AppAction::Continue
            },
            _ => AppAction::Continue,
        }
    }
}

/// The kinds of project detected, as the browser's header names them: the
/// web framework (Next.js over plain React), a server framework, React
/// Native and Expo, in that order.
pub open spec fn project_labels_spec(p: ProjectInfo) -> Seq<Seq<char>> {
    (if p.has_next {
        seq!["nextjs"@]
    } else if p.has_react {
        seq!["react"@]
    } else {
        Seq::empty()
    }) + (if p.server() {
        seq!["server"@]
    } else {
        Seq::empty()
    }) + (if p.has_react_native {
        seq!["react-native"@]
    } else {
        Seq::empty()
    }) + (if p.has_expo {
        seq!["expo"@]
    } else {
        Seq::empty()
    })
}

/// The kinds of project detected, as the browser's header names them.
pub fn project_labels(project: &ProjectInfo) -> (r: Vec<&'static str>)
    ensures
        r@.map_values(|s: &str| s@) == project_labels_spec(*project),
{
    let mut labels: Vec<&'static str> = Vec::new();
    if project.has_next {
        labels.push("nextjs");
    } else if project.has_react {
        labels.push("react");
    }
    let ghost a = labels@.map_values(|s: &str| s@);
    if project.has_server_framework() {
        labels.push("server");
    }
    let ghost b = labels@.map_values(|s: &str| s@);
    assert(b =~= a + (if project.server() { seq!["server"@] } else { Seq::<Seq<char>>::empty() }));
    if project.has_react_native {
        labels.push("react-native");
    }
    let ghost c = labels@.map_values(|s: &str| s@);
    assert(c =~= b + (if project.has_react_native { seq!["react-native"@] } else { Seq::<Seq<char>>::empty() }));
    if project.has_expo {
        labels.push("expo");
    }
    assert(labels@.map_values(|s: &str| s@) =~= c + (if project.has_expo { seq!["expo"@] } else { Seq::<Seq<char>>::empty() }));
    proof {
        assert(a =~= (if project.has_next {
            seq!["nextjs"@]
        } else if project.has_react {
            seq!["react"@]
        } else {
            Seq::<Seq<char>>::empty()
        }));
    }
    labels
}

} // verus!
