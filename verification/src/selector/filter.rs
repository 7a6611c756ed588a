use vstd::prelude::*;

use fuzzy_matcher::FuzzyMatcher;

use crate::monitor::config::SELECTOR_PAGE_SCROLL_SIZE;
use crate::ui::numbers::push_char;

verus! {

/// The score the skim matcher (version 2, default settings) gives `choice`
/// for `pattern`, or `None` where the pattern does not match.
pub uninterp spec fn skim_score(choice: Seq<char>, pattern: Seq<char>) -> Option<i64>;

/// Calls `FuzzyMatcher::fuzzy_match` of a default `SkimMatcherV2`. Its
/// settings are fixed and its caches only hold scratch space, so the score
/// is a function of the two texts, named `skim_score`.
#[verifier::external_body]
fn skim_fuzzy_match(choice: &str, pattern: &str) -> (r: Option<i64>)
    ensures
        r == skim_score(choice@, pattern@),
{
    fuzzy_matcher::skim::SkimMatcherV2::default().fuzzy_match(choice, pattern)
}

/// Item `a` is listed before item `b`: it scores higher, or as high with a
/// lower index.
pub open spec fn ranks_before(items: Seq<String>, query: Seq<char>, a: usize, b: usize) -> bool {
    let sa = skim_score(items[a as int]@, query)->0;
    let sb = skim_score(items[b as int]@, query)->0;
    sa > sb || (sa == sb && a < b)
}

/// The list an item filter shows: every index for an empty query; else
/// exactly the items the query matches, best score first, ties in index
/// order.
pub open spec fn is_ranking(r: Seq<usize>, items: Seq<String>, query: Seq<char>) -> bool {
    if query.len() == 0 {
        r == Seq::new(items.len(), |i: int| i as usize)
    } else {
        &&& forall|i: int|
            0 <= i < r.len() ==> (#[trigger] r[i]) < items.len() && skim_score(items[r[i] as int]@, query) is Some
        &&& forall|k: int|
            0 <= k < items.len() && (#[trigger] skim_score(items[k]@, query)) is Some ==> r.contains(
                k as usize,
            )
        &&& forall|i: int, j: int|
            0 <= i < j < r.len() ==> ranks_before(items, query, #[trigger] r[i], #[trigger] r[j])
    }
}

/// The indexes `0..n`.
fn all_indexes(n: usize) -> (v: Vec<usize>)
    ensures
        v@ == Seq::new(n as nat, |i: int| i as usize),
{
    let mut v: Vec<usize> = Vec::new();
    let mut i: usize = 0;
    while i < n
        invariant
            i <= n,
            v@ == Seq::new(i as nat, |j: int| j as usize),
        decreases n - i,
    {
        v.push(i);
        assert(v@ =~= Seq::new((i + 1) as nat, |j: int| j as usize));
        i = i + 1;
    }
    v
}

/// The indexes of the items that match `query`, best match first.
pub fn filtered_indexes_by_query(items: &[String], query: &str) -> (r: Vec<usize>)
    ensures
        is_ranking(r@, items@, query@),
{
    if query.unicode_len() == 0 {
        return all_indexes(items.len());
    }
    let ghost q = query@;
    let ghost its = items@;
    let mut ranked: Vec<usize> = Vec::new();
    let mut scores: Vec<i64> = Vec::new();
    let mut k: usize = 0;
    while k < items.len()
        invariant
            k <= its.len(),
            its == items@,
            q == query@,
            q.len() > 0,
            ranked@.len() == scores@.len(),
            forall|i: int|
                0 <= i < ranked@.len() ==> (#[trigger] ranked@[i]) < k && skim_score(its[ranked@[i] as int]@, q)
                    == Some(scores@[i]),
            forall|m: int|
                0 <= m < k && (#[trigger] skim_score(its[m]@, q)) is Some ==> ranked@.contains(m as usize),
            forall|i: int, j: int|
                0 <= i < j < ranked@.len() ==> (#[trigger] scores@[i] > #[trigger] scores@[j] || (scores@[i]
                    == scores@[j] && ranked@[i] < ranked@[j])),
        decreases its.len() - k,
    {
        let score = skim_fuzzy_match(items[k].as_str(), query);
        match score {
            Some(s) => {
                let mut pos: usize = 0;
                while pos < scores.len() && scores[pos] >= s
                    invariant
                        pos <= scores@.len(),
                        forall|p: int| 0 <= p < pos ==> #[trigger] scores@[p] >= s,
                    decreases scores@.len() - pos,
                {
                    pos = pos + 1;
                }
                let ghost old_ranked = ranked@;
                let ghost old_scores = scores@;
                ranked.insert(pos, k);
                scores.insert(pos, s);
                proof {
                    assert forall|i: int|
                        0 <= i < ranked@.len() implies (#[trigger] ranked@[i]) < k + 1 && skim_score(
                        its[ranked@[i] as int]@,
                        q,
                    ) == Some(scores@[i]) by {
                        if i < pos {
                            assert(ranked@[i] == old_ranked[i]);
                        } else if i > pos {
                            assert(ranked@[i] == old_ranked[i - 1]);
                            assert(scores@[i] == old_scores[i - 1]);
                        }
                    }
                    assert forall|m: int|
                        0 <= m < k + 1 && (#[trigger] skim_score(its[m]@, q)) is Some implies ranked@.contains(
                        m as usize,
                    ) by {
                        if m < k {
                            assert(old_ranked.contains(m as usize));
                            let w = choose|w: int| 0 <= w < old_ranked.len() && old_ranked[w] == m as usize;
                            if w < pos {
                                assert(ranked@[w] == m as usize);
                            } else {
                                assert(ranked@[w + 1] == m as usize);
                            }
                        } else {
                            assert(ranked@[pos as int] == k);
                        }
                    }
                    assert forall|i: int, j: int|
                        0 <= i < j < ranked@.len() implies (#[trigger] scores@[i] > #[trigger] scores@[j] || (
                        scores@[i] == scores@[j] && ranked@[i] < ranked@[j])) by {
                        if j < pos {
                            assert(scores@[i] == old_scores[i] && scores@[j] == old_scores[j]);
                        } else if j == pos {
                            assert(scores@[i] == old_scores[i]);
                            assert(old_scores[i] >= s);
                            assert(ranked@[i] == old_ranked[i]);
                        } else if i < pos {
                            assert(scores@[i] == old_scores[i] && scores@[j] == old_scores[j - 1]);
                            assert(ranked@[i] == old_ranked[i] && ranked@[j] == old_ranked[j - 1]);
                            if i < j - 1 {
                                assert(old_scores[i] > old_scores[j - 1] || (old_scores[i] == old_scores[j
                                    - 1] && old_ranked[i] < old_ranked[j - 1]));
                            }
                        } else if i == pos {
                            assert(scores@[j] == old_scores[j - 1]);
                            assert(old_scores[pos as int] < s);
                            if j - 1 > pos {
                                assert(old_scores[pos as int] > old_scores[j - 1] || old_scores[pos as int]
                                    == old_scores[j - 1]);
                            }
                        } else {
                            assert(scores@[i] == old_scores[i - 1] && scores@[j] == old_scores[j - 1]);
                            assert(ranked@[i] == old_ranked[i - 1] && ranked@[j] == old_ranked[j - 1]);
                            assert(old_scores[i - 1] > old_scores[j - 1] || (old_scores[i - 1]
                                == old_scores[j - 1] && old_ranked[i - 1] < old_ranked[j - 1]));
                        }
                    }
                }
            },
            None => {},
        }
        k = k + 1;
    }
    proof {
        assert forall|i: int, j: int|
            0 <= i < j < ranked@.len() implies ranks_before(its, q, #[trigger] ranked@[i], #[trigger] ranked@[j]) by {
            assert(scores@[i] > scores@[j] || (scores@[i] == scores@[j] && ranked@[i] < ranked@[j]));
        }
        assert forall|i: int|
            0 <= i < ranked@.len() implies (#[trigger] ranked@[i]) < its.len() && skim_score(
            its[ranked@[i] as int]@,
            q,
        ) is Some by {}
    }
    ranked
}

/// The item behind entry `selected_index` of a filtered list.
pub fn selected_item_index(filtered_indexes: &[usize], selected_index: usize) -> (r: Option<usize>)
    ensures
        r == (if selected_index < filtered_indexes@.len() {
            Some(filtered_indexes@[selected_index as int])
        } else {
            None
        }),
{
    if selected_index < filtered_indexes.len() {
        Some(filtered_indexes[selected_index])
    } else {
        None
    }
}

/// The contents of an item filter.
pub struct FilterView {
    pub indexes: Seq<usize>,
    pub selected: nat,
    pub query: Seq<char>,
    pub page_scroll_size: i32,
}

/// Whether moving the selection by `delta` stays within the integer range
/// the move computes in.
pub open spec fn can_move_by(v: FilterView, delta: int) -> bool {
    v.indexes.len() == 0 || delta == 0 || (v.indexes.len() - 1 <= i32::MAX && v.selected <= i32::MAX
        && i32::MIN <= v.selected + delta <= i32::MAX)
}

/// The selection moved by `delta` and clamped to the list; an empty list
/// or no movement leaves it.
pub open spec fn moved_by(v: FilterView, delta: int) -> FilterView {
    if v.indexes.len() == 0 || delta == 0 {
        v
    } else {
        let target = v.selected + delta;
        let last = v.indexes.len() - 1;
        FilterView {
            selected: (if target < 0 { 0 } else if target > last { last } else { target }) as nat,
            ..v
        }
    }
}

/// The query with its last character removed, if it has one.
pub open spec fn without_last(query: Seq<char>) -> Seq<char> {
    if query.len() > 0 { query.drop_last() } else { query }
}

/// A search over a list: the query, the matching items best first, the
/// selected entry and the number of entries one page moves.
pub struct FilterState {
    indexes: Vec<usize>,
    selected_index: usize,
    query: String,
    page_scroll_size: i32,
}

impl View for FilterState {
    type V = FilterView;

    closed spec fn view(&self) -> FilterView {
        FilterView {
            indexes: self.indexes@,
            selected: self.selected_index as nat,
            query: self.query@,
            page_scroll_size: self.page_scroll_size,
        }
    }
}

impl FilterState {
    /// A filter over `item_count` items with an empty query: every item,
    /// the first selected.
    pub fn new(item_count: usize, page_scroll_size: i32) -> (f: Self)
        ensures
            f@ == (FilterView {
                indexes: Seq::new(item_count as nat, |i: int| i as usize),
                selected: 0,
                query: Seq::empty(),
                page_scroll_size,
            }),
    {
        FilterState {
            indexes: all_indexes(item_count),
            selected_index: 0,
            query: String::new(),
            page_scroll_size,
        }
    }

    /// A filter that pages by the configured page size.
    pub fn with_default_page(item_count: usize) -> (f: Self)
        ensures
            f@ == (FilterView {
                indexes: Seq::new(item_count as nat, |i: int| i as usize),
                selected: 0,
                query: Seq::empty(),
                page_scroll_size: SELECTOR_PAGE_SCROLL_SIZE,
            }),
    {
        Self::new(item_count, SELECTOR_PAGE_SCROLL_SIZE)
    }

    /// Matches the query against `items` anew and selects the first entry.
    pub fn refresh(&mut self, items: &[String])
        ensures
            is_ranking(final(self)@.indexes, items@, old(self)@.query),
            final(self)@.selected == 0,
            final(self)@.query == old(self)@.query,
            final(self)@.page_scroll_size == old(self)@.page_scroll_size,
    {
        self.indexes = filtered_indexes_by_query(items, self.query.as_str());
        self.selected_index = 0;
    }

    pub fn has_query(&self) -> (b: bool)
        ensures
            b == (self@.query.len() > 0),
    {
        self.query.as_str().unicode_len() > 0
    }

    pub fn move_selection_by(&mut self, delta: i32)
        requires
            can_move_by(old(self)@, delta as int),
        ensures
            final(self)@ == moved_by(old(self)@, delta as int),
    {
        let len = self.indexes.len();
        if len == 0 || delta == 0 {
            return;
        }
        let max_index = (len - 1) as i32;
        let target = self.selected_index as i32 + delta;
        let clamped = if target < 0 { 0 } else if target > max_index { max_index } else { target };
        self.selected_index = clamped as usize;
    }

    pub fn move_up(&mut self)
        requires
            can_move_by(old(self)@, -1),
        ensures
            final(self)@ == moved_by(old(self)@, -1),
    {
        self.move_selection_by(-1);
    }

    pub fn move_down(&mut self)
        requires
            can_move_by(old(self)@, 1),
        ensures
            final(self)@ == moved_by(old(self)@, 1),
    {
        self.move_selection_by(1);
    }

    /// Moves the selection up by one page.
    pub fn page_up(&mut self)
        requires
            old(self)@.page_scroll_size != i32::MIN,
            can_move_by(old(self)@, -old(self)@.page_scroll_size),
        ensures
            final(self)@ == moved_by(old(self)@, -old(self)@.page_scroll_size),
    {
        let delta = -self.page_scroll_size;
        self.move_selection_by(delta);
    }

    /// Moves the selection down by one page.
    pub fn page_down(&mut self)
        requires
            can_move_by(old(self)@, old(self)@.page_scroll_size as int),
        ensures
            final(self)@ == moved_by(old(self)@, old(self)@.page_scroll_size as int),
    {
        let delta = self.page_scroll_size;
        self.move_selection_by(delta);
    }

    pub fn select_first(&mut self)
        ensures
            final(self)@ == (FilterView { selected: 0, ..old(self)@ }),
    {
        self.selected_index = 0;
    }

    /// Selects the last entry, where there is one.
    pub fn select_last(&mut self)
        ensures
            final(self)@ == (if old(self)@.indexes.len() > 0 {
                FilterView { selected: (old(self)@.indexes.len() - 1) as nat, ..old(self)@ }
            } else {
                old(self)@
            }),
    {
        if self.indexes.len() > 0 {
            self.selected_index = self.indexes.len() - 1;
        }
    }

    pub fn home(&mut self)
        ensures
            final(self)@ == (FilterView { selected: 0, ..old(self)@ }),
    {
        self.select_first();
    }

    pub fn end(&mut self)
        ensures
            final(self)@ == (if old(self)@.indexes.len() > 0 {
                FilterView { selected: (old(self)@.indexes.len() - 1) as nat, ..old(self)@ }
            } else {
                old(self)@
            }),
    {
        self.select_last();
    }

    pub fn add_char(&mut self, c: char)
        ensures
            final(self)@ == (FilterView { query: old(self)@.query.push(c), ..old(self)@ }),
    {
        push_char(&mut self.query, c);
    }

    /// Removes the last character of the query, if any.
    pub fn remove_char(&mut self)
        ensures
            final(self)@ == (FilterView { query: without_last(old(self)@.query), ..old(self)@ }),
    {
        let len = self.query.as_str().unicode_len();
        if len > 0 {
            let kept = String::from_str(self.query.as_str().substring_char(0, len - 1));
            self.query = kept;
            assert(self.query@ =~= without_last(old(self)@.query));
        }
    }

    pub fn clear_search(&mut self)
        ensures
            final(self)@ == (FilterView { query: Seq::empty(), ..old(self)@ }),
    {
        self.query = String::new();
    }

    pub fn search_query(&self) -> (s: &str)
        ensures
            s@ == self@.query,
    {
        self.query.as_str()
    }

    pub fn indexes(&self) -> (s: &[usize])
        ensures
            s@ == self@.indexes,
    {
        self.indexes.as_slice()
    }

    pub fn selected_index(&self) -> (i: usize)
        ensures
            i == self@.selected,
    {
        self.selected_index
    }

    pub fn page_scroll_size(&self) -> (p: i32)
        ensures
            p == self@.page_scroll_size,
    {
        self.page_scroll_size
    }

    /// The item behind the selected entry.
    pub fn selected_item_index(&self) -> (r: Option<usize>)
        ensures
            r == (if self@.selected < self@.indexes.len() {
                Some(self@.indexes[self@.selected as int])
            } else {
                None
            }),
    {
        selected_item_index(self.indexes.as_slice(), self.selected_index)
    }
}

/// A selection inside a non-empty list stays inside it, whatever it is
/// moved by.
pub proof fn law_selection_stays_in_list(v: FilterView, delta: int)
    requires
        v.indexes.len() > 0,
        v.selected < v.indexes.len(),
    ensures
        moved_by(v, delta).selected < v.indexes.len(),
        moved_by(v, delta).indexes == v.indexes,
        moved_by(v, delta).query == v.query,
{
}

/// A ranking lists no item twice.
pub proof fn law_ranking_has_no_repeats(r: Seq<usize>, items: Seq<String>, query: Seq<char>, i: int, j: int)
    requires
        is_ranking(r, items, query),
        items.len() <= usize::MAX,
        0 <= i < j < r.len(),
    ensures
        r[i] != r[j],
{
    if query.len() == 0 {
        assert(r[i] == i as usize && r[j] == j as usize);
    } else {
        assert(ranks_before(items, query, r[i], r[j]));
    }
}

} // verus!
