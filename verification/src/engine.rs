//! The filter/selection engine: owns the query, the filtered view and the
//! selection, and keeps them consistent under every operation.
//!
//! The selection is a position within the filtered view. An empty filtered
//! view has the sentinel selection 0 ("none"); a snapshot reports it as
//! `None`. When the view becomes non-empty again, the sentinel resolves to
//! row 0.
use vstd::prelude::*;
use crate::catalog::{Entry, EntryView, entry_haystack, views_of, default_catalog, default_cheats,
    haystack_of};
use crate::filter::{matching_indices, lemma_matching_indices_increasing,
    lemma_matching_indices_pop_len};
use crate::text::{lower_seq, lower_chars, chars_of, copy_chars, seq_contains};

verus! {

/// The mathematical state of the engine.
#[verifier::ext_equal]
pub struct EngineState {
    pub catalog: Seq<EntryView>,
    pub query: Seq<char>,
    pub filtered: Seq<usize>,
    pub selected: usize,
    pub show_help: bool,
}

/// Engine state invariant: the filtered view is exactly the matching indices
/// of the current query, and the selection is within bounds, with the
/// sentinel 0 when the view is empty.
pub open spec fn state_wf(s: EngineState) -> bool {
    &&& s.filtered == matching_indices(s.catalog, s.query)
    &&& if s.filtered.len() == 0 {
        s.selected == 0
    } else {
        (s.selected as int) < s.filtered.len()
    }
}

/// Selection re-clamp: an empty view gets the sentinel 0; a selection past
/// the end of a non-empty view is clamped to its last row; anything else is
/// kept.
pub open spec fn clamp_sel(sel: usize, len: nat) -> usize {
    if len == 0 {
        0
    } else if sel >= len {
        (len - 1) as usize
    } else {
        sel
    }
}

/// The state after replacing the query by `q`, recomputing the filtered view
/// in full, and re-clamping the selection.
pub open spec fn refiltered(s: EngineState, q: Seq<char>) -> EngineState {
    let f = matching_indices(s.catalog, q);
    EngineState { query: q, filtered: f, selected: clamp_sel(s.selected, f.len()), ..s }
}

/// The state after appending one character to the query.
pub open spec fn pushed(s: EngineState, c: char) -> EngineState {
    refiltered(s, s.query.push(c))
}

/// The state after removing the last query character; a no-op on an empty
/// query.
pub open spec fn popped(s: EngineState) -> EngineState {
    if s.query.len() == 0 {
        s
    } else {
        refiltered(s, s.query.drop_last())
    }
}

/// The state after clearing the query.
pub open spec fn cleared(s: EngineState) -> EngineState {
    refiltered(s, Seq::empty())
}

/// The state after moving the selection by `delta`, saturating at both ends
/// of the filtered view; a no-op on an empty view.
pub open spec fn moved(s: EngineState, delta: int) -> EngineState {
    if s.filtered.len() == 0 {
        s
    } else {
        let t = s.selected + delta;
        let ns = if t < 0 {
            0
        } else if t >= s.filtered.len() {
            s.filtered.len() - 1
        } else {
            t
        };
        EngineState { selected: ns as usize, ..s }
    }
}

/// The state after jumping to the first row; a no-op on an empty view.
pub open spec fn first_selected(s: EngineState) -> EngineState {
    if s.filtered.len() == 0 {
        s
    } else {
        EngineState { selected: 0, ..s }
    }
}

/// The state after jumping to the last row; a no-op on an empty view.
pub open spec fn last_selected(s: EngineState) -> EngineState {
    if s.filtered.len() == 0 {
        s
    } else {
        EngineState { selected: (s.filtered.len() - 1) as usize, ..s }
    }
}

/// The engine's startup state for an initial query `q`: the fixed catalog,
/// one full filter computation, selection 0, help hidden.
pub open spec fn initial_state(q: Seq<char>) -> EngineState {
    refiltered(
        EngineState {
            catalog: default_catalog(),
            query: q,
            filtered: Seq::empty(),
            selected: 0,
            show_help: false,
        },
        q,
    )
}

/// The initial query text: the supplied value, or empty.
pub open spec fn initial_query_view(q: Option<String>) -> Seq<char> {
    match q {
        Some(s) => s@,
        None => Seq::empty(),
    }
}

/// One row of a rendering snapshot: a catalog index and a copy of its entry.
pub struct Row {
    pub index: usize,
    pub entry: Entry,
}

/// Everything a renderer needs for one frame, and nothing more: the visible
/// rows in order, the selection (or `None`), the query text, the help flag,
/// and the catalog size.
pub struct Snapshot {
    pub rows: Vec<Row>,
    pub selected: Option<usize>,
    pub query: Vec<char>,
    pub help_visible: bool,
    pub total: usize,
}

/// The filter/selection engine: the fixed catalog, a cache of its lowercased
/// haystacks, the live query, the filtered view and the selection.
pub struct App {
    pub catalog: Vec<Entry>,
    pub haystacks: Vec<Vec<char>>,
    pub query: Vec<char>,
    pub filtered: Vec<usize>,
    pub selected: usize,
    pub show_help: bool,
}

impl View for App {
    type V = EngineState;

    open spec fn view(&self) -> EngineState {
        EngineState {
            catalog: views_of(self.catalog@),
            query: self.query@,
            filtered: self.filtered@,
            selected: self.selected,
            show_help: self.show_help,
        }
    }
}

impl App {
    /// The haystack cache mirrors the catalog, entry for entry.
    pub open spec fn catalog_wf(self) -> bool {
        &&& self.haystacks@.len() == self.catalog@.len()
        &&& forall|i: int|
            0 <= i < self.catalog@.len() ==> self.haystacks@[i]@ == entry_haystack(
                self.catalog@[i]@,
            )
    }

    /// Full well-formedness: the haystack cache is coherent and the engine
    /// state satisfies its invariant.
    pub open spec fn wf(self) -> bool {
        &&& self.catalog_wf()
        &&& state_wf(self@)
    }

    /// Recomputes the filtered view in full from the current query and
    /// re-clamps the selection.
    pub fn apply_filter(&mut self)
        requires
            old(self).catalog_wf(),
        ensures
            final(self).wf(),
            final(self)@ == refiltered(old(self)@, old(self)@.query),
    {
        let lq = lower_chars(&self.query);
        let n = self.catalog.len();
        let mut f: Vec<usize> = Vec::new();
        let mut i: usize = 0;
        while i < n
            invariant
                *self == *old(self),
                old(self).catalog_wf(),
                i <= n,
                n == self.catalog@.len(),
                lq@ == lower_seq(self.query@),
                f@ == matching_indices(views_of(self.catalog@).take(i as int), self.query@),
            decreases n - i,
        {
            let is_match = if self.query.len() == 0 {
                true
            } else {
                seq_contains(&self.haystacks[i], &lq)
            };
            proof {
                assert(views_of(self.catalog@).take(i + 1).drop_last() =~= views_of(
                    self.catalog@,
                ).take(i as int));
                assert(views_of(self.catalog@).take(i + 1).last() == self.catalog@[i as int]@);
            }
            if is_match {
                f.push(i);
            }
            proof {
                assert(f@ =~= matching_indices(
                    views_of(self.catalog@).take(i + 1),
                    self.query@,
                ));
            }
            i = i + 1;
        }
        proof {
            assert(views_of(self.catalog@).take(n as int) =~= views_of(self.catalog@));
        }
        self.filtered = f;
        let len = self.filtered.len();
        if self.selected >= len {
            self.selected = if len == 0 {
                0
            } else {
                len - 1
            };
        }
        proof {
            assert(self@ =~= refiltered(old(self)@, old(self)@.query));
        }
    }

    /// Builds the engine: the fixed catalog, its haystack cache, the optional
    /// initial query, and one immediate filter computation.
    pub fn new(initial_query: Option<String>) -> (app: App)
        ensures
            app.wf(),
            app@ == initial_state(initial_query_view(initial_query)),
    {
        let cheats = default_cheats();
        let mut haystacks: Vec<Vec<char>> = Vec::new();
        let mut i: usize = 0;
        while i < cheats.len()
            invariant
                i <= cheats@.len(),
                haystacks@.len() == i,
                forall|k: int| 0 <= k < i ==> haystacks@[k]@ == entry_haystack(cheats@[k]@),
            decreases cheats@.len() - i,
        {
            let h = haystack_of(&cheats[i]);
            haystacks.push(h);
            i = i + 1;
        }
        let query: Vec<char> = match &initial_query {
            Some(s) => chars_of(s.as_str()),
            None => Vec::new(),
        };
        let mut app = App {
            catalog: cheats,
            haystacks: haystacks,
            query: query,
            filtered: Vec::new(),
            selected: 0,
            show_help: false,
        };
        app.apply_filter();
        proof {
            assert(app@ =~= initial_state(initial_query_view(initial_query)));
        }
        app
    }

    /// Replaces the query entirely; any text is accepted.
    pub fn set_query(&mut self, new_text: &str)
        requires
            old(self).catalog_wf(),
        ensures
            final(self).wf(),
            final(self)@ == refiltered(old(self)@, new_text@),
    {
        self.query = chars_of(new_text);
        self.apply_filter();
        proof {
            assert(self@ =~= refiltered(old(self)@, new_text@));
        }
    }

    /// Appends one character to the query.
    pub fn push_char(&mut self, c: char)
        requires
            old(self).catalog_wf(),
        ensures
            final(self).wf(),
            final(self)@ == pushed(old(self)@, c),
    {
        self.query.push(c);
        self.apply_filter();
        proof {
            assert(self@ =~= pushed(old(self)@, c));
        }
    }

    /// Removes the last query character; a no-op (not an error) when the
    /// query is already empty.
    pub fn pop_char(&mut self)
        requires
            old(self).wf(),
        ensures
            final(self).wf(),
            final(self)@ == popped(old(self)@),
    {
        if self.query.len() > 0 {
            self.query.pop();
            self.apply_filter();
            proof {
                assert(old(self)@.query.take(old(self)@.query.len() - 1) =~= old(
                    self,
                )@.query.drop_last());
                assert(self@ =~= popped(old(self)@));
            }
        }
    }

    /// Sets the query to empty.
    pub fn clear_query(&mut self)
        requires
            old(self).catalog_wf(),
        ensures
            final(self).wf(),
            final(self)@ == cleared(old(self)@),
    {
        self.query = Vec::new();
        self.apply_filter();
        proof {
            assert(self@ =~= cleared(old(self)@));
        }
    }

    /// Moves the selection by `delta` rows, saturating at the first and last
    /// row of the filtered view; a no-op when the view is empty.
    pub fn move_selection(&mut self, delta: i32)
        requires
            old(self).wf(),
        ensures
            final(self).wf(),
            final(self)@ == moved(old(self)@, delta as int),
    {
        let len = self.filtered.len();
        if len == 0 {
            return;
        }
        if delta >= 0 {
            let d = delta as usize;
            let room = len - 1 - self.selected;
            if d <= room {
                self.selected = self.selected + d;
            } else {
                self.selected = len - 1;
            }
        } else {
            // `-delta` cannot represent the magnitude of i32::MIN, so that
            // one value is written out as a literal.
            let d: usize = if delta == i32::MIN {
                2147483648
            } else {
                (-delta) as usize
            };
            if d <= self.selected {
                self.selected = self.selected - d;
            } else {
                self.selected = 0;
            }
        }
        proof {
            assert(self@ =~= moved(old(self)@, delta as int));
        }
    }

    /// Jumps to the first row; a no-op when the view is empty.
    pub fn select_first(&mut self)
        requires
            old(self).wf(),
        ensures
            final(self).wf(),
            final(self)@ == first_selected(old(self)@),
    {
        if self.filtered.len() > 0 {
            self.selected = 0;
        }
        proof {
            assert(self@ =~= first_selected(old(self)@));
        }
    }

    /// Jumps to the last row; a no-op when the view is empty.
    pub fn select_last(&mut self)
        requires
            old(self).wf(),
        ensures
            final(self).wf(),
            final(self)@ == last_selected(old(self)@),
    {
        if self.filtered.len() > 0 {
            self.selected = self.filtered.len() - 1;
        }
        proof {
            assert(self@ =~= last_selected(old(self)@));
        }
    }

    /// Flips the help flag; filtering and selection are untouched.
    pub fn toggle_help(&mut self)
        requires
            old(self).wf(),
        ensures
            final(self).wf(),
            final(self)@ == (EngineState { show_help: !old(self)@.show_help, ..old(self)@ }),
    {
        self.show_help = !self.show_help;
        proof {
            assert(self@ =~= (EngineState { show_help: !old(self)@.show_help, ..old(self)@ }));
        }
    }

    /// The number of catalog entries.
    pub fn catalog_len(&self) -> (n: usize)
        ensures
            n == self@.catalog.len(),
    {
        self.catalog.len()
    }

    /// Read access to one catalog entry; total on valid indices.
    pub fn entry_at(&self, i: usize) -> (e: &Entry)
        requires
            (i as int) < self@.catalog.len(),
        ensures
            e@ == self@.catalog[i as int],
    {
        &self.catalog[i]
    }

    /// A read-only snapshot of the current view state, in row order: exactly
    /// the filtered entries, the selection (`None` when the view is empty),
    /// the query text, the help flag, and the catalog size.
    pub fn current_view(&self) -> (snap: Snapshot)
        requires
            self.wf(),
        ensures
            snap.rows@.len() == self@.filtered.len(),
            forall|k: int|
                0 <= k < snap.rows@.len() ==> snap.rows@[k].index == self@.filtered[k]
                    && snap.rows@[k].entry@ == self@.catalog[self@.filtered[k] as int],
            snap.selected == (if self@.filtered.len() == 0 {
                Option::<usize>::None
            } else {
                Option::Some(self@.selected)
            }),
            snap.query@ == self@.query,
            snap.help_visible == self@.show_help,
            snap.total == self@.catalog.len(),
    {
        let total = self.catalog.len();
        proof {
            lemma_matching_indices_increasing(self@.catalog, self@.query);
        }
        let mut rows: Vec<Row> = Vec::new();
        let mut k: usize = 0;
        while k < self.filtered.len()
            invariant
                self.wf(),
                k <= self@.filtered.len(),
                rows@.len() == k,
                forall|j: int|
                    0 <= j < self@.filtered.len() ==> (self@.filtered[j] as int)
                        < self@.catalog.len(),
                forall|j: int|
                    0 <= j < k ==> rows@[j].index == self@.filtered[j] && rows@[j].entry@
                        == self@.catalog[self@.filtered[j] as int],
            decreases self@.filtered.len() - k,
        {
            let idx = self.filtered[k];
            let row = Row { index: idx, entry: self.catalog[idx].duplicate() };
            rows.push(row);
            k = k + 1;
        }
        let selected: Option<usize> = if self.filtered.len() == 0 {
            None
        } else {
            Some(self.selected)
        };
        Snapshot {
            rows: rows,
            selected: selected,
            query: copy_chars(&self.query),
            help_visible: self.show_help,
            total: total,
        }
    }
}

/// Filter correctness for the engine's own view: an index is in the filtered
/// view iff it is a valid catalog index and the query is empty or its
/// lowercased text occurs in that entry's lowercased haystack.
pub proof fn lemma_filter_correct(s: EngineState, idx: usize)
    requires
        state_wf(s),
        s.catalog.len() <= usize::MAX,
    ensures
        s.filtered.contains(idx) <==> ((idx as int) < s.catalog.len() && crate::filter::query_matches(
            s.query,
            s.catalog[idx as int],
        )),
{
    crate::filter::lemma_matching_indices_membership(s.catalog, s.query, idx);
}

/// Order preservation for the engine's own view: the filtered view is a
/// strictly increasing sequence of valid catalog indices — filtering never
/// reorders.
pub proof fn lemma_filter_ordered(s: EngineState)
    requires
        state_wf(s),
        s.catalog.len() <= usize::MAX,
    ensures
        forall|j: int|
            0 <= j < s.filtered.len() ==> (s.filtered[j] as int) < s.catalog.len(),
        forall|a: int, b: int|
            0 <= a < b < s.filtered.len() ==> (s.filtered[a] as int) < (s.filtered[b] as int),
{
    lemma_matching_indices_increasing(s.catalog, s.query);
}

/// Selection bound invariant: in every well-formed engine state, either the
/// filtered view is empty and the selection is the "none" sentinel, or the
/// selection lies strictly within the filtered view.
pub proof fn lemma_selection_bound(s: EngineState)
    requires
        state_wf(s),
    ensures
        s.filtered.len() == 0 ==> s.selected == 0,
        s.filtered.len() > 0 ==> (s.selected as int) < s.filtered.len(),
{
}

/// Redundant operations are no-ops: popping a character of an empty query
/// leaves the whole state unchanged, and moving the selection against a
/// bound leaves it in place.
pub proof fn lemma_redundant_ops_noop(s: EngineState)
    requires
        state_wf(s),
    ensures
        s.query.len() == 0 ==> popped(s) == s,
        s.selected == 0 ==> moved(s, -1) == s,
        s.filtered.len() > 0 && (s.selected as int) == s.filtered.len() - 1 ==> moved(s, 1) == s,
{
    if s.selected == 0 {
        assert(moved(s, -1) =~= s);
    }
    if s.filtered.len() > 0 && (s.selected as int) == s.filtered.len() - 1 {
        assert(moved(s, 1) =~= s);
    }
}

/// The state after `n` consecutive pops.
pub open spec fn popped_n(s: EngineState, n: nat) -> EngineState
    decreases n,
{
    if n == 0 {
        s
    } else {
        popped_n(popped(s), (n - 1) as nat)
    }
}

/// One pop preserves the invariant and moves nothing but the query: the view
/// can only widen, so the clamped selection is in fact unchanged.
pub proof fn lemma_popped_preserves(s: EngineState)
    requires
        state_wf(s),
    ensures
        state_wf(popped(s)),
        popped(s).catalog == s.catalog,
        popped(s).show_help == s.show_help,
        popped(s).selected == s.selected,
        popped(s).query == (if s.query.len() == 0 {
            s.query
        } else {
            s.query.drop_last()
        }),
{
    if s.query.len() > 0 {
        lemma_matching_indices_pop_len(s.catalog, s.query);
    }
}

/// Clear equivalence: clearing the query yields exactly the state reached by
/// popping one character at a time until the query is empty.
pub proof fn lemma_clear_equiv(s: EngineState)
    requires
        state_wf(s),
    ensures
        cleared(s) == popped_n(s, s.query.len()),
    decreases s.query.len(),
{
    if s.query.len() == 0 {
        assert(s.query =~= Seq::<char>::empty());
        assert(cleared(s) =~= s);
    } else {
        lemma_popped_preserves(s);
        lemma_clear_equiv(popped(s));
        assert(cleared(popped(s)) =~= cleared(s));
    }
}

} // verus!
