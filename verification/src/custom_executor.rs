use vstd::prelude::*;

use crate::item_pointer::{HeapPointer, IndexPointer, INVALID_OFFSET_NUMBER};
use crate::tid_bitmap::TidBitmap;

verus! {

/// A candidate of the graph search: the heap tuple and the index tuple that
/// points at it.
pub type SearchResult = (HeapPointer, IndexPointer);

/// A filter on heap tuples made from the bitmap that other indexes produced.
///
/// Without a bitmap (`None`) there is no filter, and every tuple is allowed.
pub struct BitmapFilter {
    tbm: Option<TidBitmap>,
}

impl BitmapFilter {
    /// The bitmap the filter was made from.
    pub closed spec fn bitmap(self) -> Option<TidBitmap> {
        self.tbm
    }

    /// The filter lets `hp` through: there is no bitmap, or `hp` is a member of it.
    pub open spec fn allows(self, hp: HeapPointer) -> bool {
        match self.bitmap() {
            None => true,
            Some(tbm) => tbm.members().contains(hp),
        }
    }

    /// A filter over the given bitmap.
    pub fn new(tbm: Option<TidBitmap>) -> (filter: BitmapFilter)
        ensures
            filter.bitmap() == tbm,
    {
        BitmapFilter { tbm }
    }

    /// Whether the heap tuple `heap_pointer` passes the filter.
    pub fn contains(&self, heap_pointer: &HeapPointer) -> (allowed: bool)
        ensures
            allowed == self.allows(*heap_pointer),
            self.bitmap() is None ==> allowed,
            self.bitmap() matches Some(tbm) ==> (allowed <==> tbm.members().contains(*heap_pointer)),
    {
        match &self.tbm {
            None => true,
            Some(tbm) => tbm.is_member(heap_pointer),
        }
    }
}

/// An optional filter admits `hp`: there is none, or it allows `hp`.
pub open spec fn admits(filter: Option<BitmapFilter>, hp: HeapPointer) -> bool {
    match filter {
        None => true,
        Some(f) => f.allows(hp),
    }
}

/// A candidate is returned when the filter admits its heap tuple and the
/// tuple is not deleted (its offset is valid).
pub open spec fn passes(filter: Option<BitmapFilter>, r: SearchResult) -> bool {
    admits(filter, r.0) && r.0.offset != INVALID_OFFSET_NUMBER
}

/// `passes` as a predicate on candidates.
pub open spec fn passes_pred(filter: Option<BitmapFilter>) -> spec_fn(SearchResult) -> bool {
    |r: SearchResult| passes(filter, r)
}

/// A candidate whose heap tuple the filter does not admit.
pub open spec fn rejected_pred(filter: Option<BitmapFilter>) -> spec_fn(SearchResult) -> bool {
    |r: SearchResult| !admits(filter, r.0)
}

/// A candidate whose heap tuple the filter admits.
pub open spec fn admits_pred(filter: Option<BitmapFilter>) -> spec_fn(SearchResult) -> bool {
    |r: SearchResult| admits(filter, r.0)
}

/// A candidate whose tuple is not deleted.
pub open spec fn live_pred() -> spec_fn(SearchResult) -> bool {
    |r: SearchResult| r.0.offset != INVALID_OFFSET_NUMBER
}

/// The candidates of `s` that are returned, in the order of `s`.
pub open spec fn filtered_results(filter: Option<BitmapFilter>, s: Seq<SearchResult>) -> Seq<
    SearchResult,
> {
    s.filter(passes_pred(filter))
}

/// How many candidates of `s` the filter does not admit.
pub open spec fn rejected_count(filter: Option<BitmapFilter>, s: Seq<SearchResult>) -> nat {
    s.filter(rejected_pred(filter)).len()
}

/// What one step of a filtered scan did with the candidate it was given.
#[derive(Clone, Copy, Debug, PartialEq, Eq, Structural)]
pub enum ScanStep {
    /// The candidate passed the filter and is returned.
    Return(HeapPointer, IndexPointer),
    /// The candidate was filtered out or deleted; the search goes on.
    Skip,
    /// The search has no more candidates.
    Exhausted,
}

/// The filtering half of a vector-search iterator: it takes the candidates
/// of the graph search one by one, drops those that the bitmap does not
/// admit or that are deleted, and counts what it checked and filtered out.
pub struct BitmapFilteredTSVResponseIterator {
    search_list_size: usize,
    bitmap_filter: Option<BitmapFilter>,
    filtered_count: usize,
    total_checked: usize,
    checked: Ghost<Seq<SearchResult>>,
}

impl BitmapFilteredTSVResponseIterator {
    /// The counters agree with the candidates checked so far.
    #[verifier::type_invariant]
    spec fn counters_match(self) -> bool {
        &&& self.total_checked == self.checked@.len()
        &&& self.filtered_count == rejected_count(self.bitmap_filter, self.checked@)
    }

    /// The filter of this iterator.
    pub closed spec fn filter(self) -> Option<BitmapFilter> {
        self.bitmap_filter
    }

    /// Every candidate checked so far, in order.
    pub closed spec fn checked_results(self) -> Seq<SearchResult> {
        self.checked@
    }

    /// The search list size the graph search runs with.
    pub closed spec fn list_size(self) -> usize {
        self.search_list_size
    }

    /// An iterator that has checked nothing yet.
    pub fn new(search_list_size: usize, bitmap_filter: Option<BitmapFilter>) -> (it: Self)
        ensures
            it.filter() == bitmap_filter,
            it.list_size() == search_list_size,
            it.checked_results() == Seq::<SearchResult>::empty(),
    {
        proof {
            reveal(Seq::filter);
        }
        BitmapFilteredTSVResponseIterator {
            search_list_size,
            bitmap_filter,
            filtered_count: 0,
            total_checked: 0,
            checked: Ghost(Seq::empty()),
        }
    }

    /// Takes the next candidate of the graph search (`None` when the search
    /// has none left) and says whether it is returned, skipped, or whether
    /// the search is over.
    pub fn next_filtered(&mut self, candidate: Option<SearchResult>) -> (step: ScanStep)
        requires
            candidate is Some ==> old(self).checked_results().len() < usize::MAX,
        ensures
            final(self).filter() == old(self).filter(),
            final(self).list_size() == old(self).list_size(),
            candidate is None ==> step is Exhausted && final(self).checked_results() == old(
                self,
            ).checked_results(),
            candidate matches Some(c) ==> {
                &&& final(self).checked_results() == old(self).checked_results().push(c)
                &&& step == if passes(old(self).filter(), c) {
                    ScanStep::Return(c.0, c.1)
                } else {
                    ScanStep::Skip
                }
            },
    {
        match candidate {
            None => ScanStep::Exhausted,
            Some(c) => {
                let mut current = BitmapFilteredTSVResponseIterator::new(0, None);
                std::mem::swap(self, &mut current);
                proof {
                    use_type_invariant(&current);
                }
                let BitmapFilteredTSVResponseIterator {
                    search_list_size,
                    bitmap_filter,
                    filtered_count,
                    total_checked,
                    checked,
                } = current;
                proof {
                    checked@.lemma_filter_len(rejected_pred(bitmap_filter));
                    checked@.lemma_filter_push(c, rejected_pred(bitmap_filter));
                }
                let (heap_pointer, index_pointer) = c;
                let admitted = match &bitmap_filter {
                    None => true,
                    Some(filter) => filter.contains(&heap_pointer),
                };
                let filtered_count = if admitted {
                    filtered_count
                } else {
                    filtered_count + 1
                };
                *self = BitmapFilteredTSVResponseIterator {
                    search_list_size,
                    bitmap_filter,
                    filtered_count,
                    total_checked: total_checked + 1,
                    checked: Ghost(checked@.push(c)),
                };
                if !admitted {
                    ScanStep::Skip
                } else if heap_pointer.offset == INVALID_OFFSET_NUMBER {
                    ScanStep::Skip
                } else {
                    ScanStep::Return(heap_pointer, index_pointer)
                }
            },
        }
    }

    /// How many candidates the filter dropped, and how many were checked.
    pub fn get_filter_stats(&self) -> (stats: (usize, usize))
        ensures
            stats.0 == rejected_count(self.filter(), self.checked_results()),
            stats.1 == self.checked_results().len(),
            stats.0 <= stats.1,
    {
        proof {
            use_type_invariant(self);
            self.checked@.lemma_filter_len(rejected_pred(self.bitmap_filter));
        }
        (self.filtered_count, self.total_checked)
    }

    /// The search list size the graph search runs with.
    pub fn search_list_size(&self) -> (size: usize)
        ensures
            size == self.list_size(),
    {
        self.search_list_size
    }
}

/// The state of a bitmap-filtered vector scan: the query that is still to be
/// searched, the bitmap filter that is still to be handed to the iterator,
/// the iterator once it is set up, and the scan's statistics.
pub struct BitmapFilteredVectorScanState<Q> {
    query: Option<Q>,
    bitmap_filter: Option<BitmapFilter>,
    iterator: Option<BitmapFilteredTSVResponseIterator>,
    search_list_size: usize,
    tuples_returned: i64,
    tuples_filtered: i64,
}

impl<Q> BitmapFilteredVectorScanState<Q> {
    /// The statistics count the tuples returned and the candidates the bitmap
    /// filtered out, of those the iterator has checked.
    #[verifier::type_invariant]
    spec fn stats_match(self) -> bool {
        &&& self.tuples_returned == self.returned().len()
        &&& self.tuples_filtered == self.filtered_out()
    }

    /// The query, while the iterator has not taken it.
    pub closed spec fn pending_query(self) -> Option<Q> {
        self.query
    }

    /// The bitmap filter, while the iterator has not taken it.
    pub closed spec fn pending_filter(self) -> Option<BitmapFilter> {
        self.bitmap_filter
    }

    /// The iterator, once it is set up.
    pub closed spec fn scan_iterator(self) -> Option<BitmapFilteredTSVResponseIterator> {
        self.iterator
    }

    /// The search list size of the scan.
    pub closed spec fn list_size(self) -> usize {
        self.search_list_size
    }

    /// Every candidate the scan has checked, in order.
    pub open spec fn consumed(self) -> Seq<SearchResult> {
        match self.scan_iterator() {
            Some(it) => it.checked_results(),
            None => Seq::empty(),
        }
    }

    /// Every tuple the scan has returned, in order.
    pub open spec fn returned(self) -> Seq<SearchResult> {
        match self.scan_iterator() {
            Some(it) => filtered_results(it.filter(), it.checked_results()),
            None => Seq::empty(),
        }
    }

    /// How many of the candidates checked the bitmap filtered out.
    pub open spec fn filtered_out(self) -> nat {
        match self.scan_iterator() {
            Some(it) => rejected_count(it.filter(), it.checked_results()),
            None => 0,
        }
    }

    /// A scan of `query` that has not started yet.
    pub fn new(query: Q, search_list_size: usize, bitmap_filter: Option<BitmapFilter>) -> (state:
        Self)
        ensures
            state.pending_query() == Some(query),
            state.pending_filter() == bitmap_filter,
            state.scan_iterator() is None,
            state.list_size() == search_list_size,
    {
        BitmapFilteredVectorScanState {
            query: Some(query),
            bitmap_filter,
            iterator: None,
            search_list_size,
            tuples_returned: 0,
            tuples_filtered: 0,
        }
    }

    /// Sets up the iterator, once: it takes the query, which is returned for
    /// the graph search to start from, and the bitmap filter. Where the
    /// iterator is already set up, or there is no query, nothing changes and
    /// `None` is returned.
    pub fn initialize_iterator(&mut self) -> (query: Option<Q>)
        ensures
            old(self).scan_iterator() is Some ==> query is None && *final(self) == *old(self),
            old(self).scan_iterator() is None ==> match old(self).pending_query() {
                None => query is None && *final(self) == *old(self),
                Some(q) => {
                    &&& query == Some(q)
                    &&& final(self).pending_query() is None
                    &&& final(self).pending_filter() is None
                    &&& final(self).list_size() == old(self).list_size()
                    &&& final(self).scan_iterator() matches Some(it) && it.filter() == old(
                        self,
                    ).pending_filter() && it.list_size() == old(self).list_size()
                        && it.checked_results() == Seq::<SearchResult>::empty()
                },
            },
    {
        let mut current = BitmapFilteredVectorScanState {
            query: None,
            bitmap_filter: None,
            iterator: None,
            search_list_size: 0,
            tuples_returned: 0,
            tuples_filtered: 0,
        };
        std::mem::swap(self, &mut current);
        proof {
            use_type_invariant(&current);
        }
        let BitmapFilteredVectorScanState {
            query,
            bitmap_filter,
            iterator,
            search_list_size,
            tuples_returned,
            tuples_filtered,
        } = current;
        if iterator.is_some() || query.is_none() {
            *self = BitmapFilteredVectorScanState {
                query,
                bitmap_filter,
                iterator,
                search_list_size,
                tuples_returned,
                tuples_filtered,
            };
            return None;
        }
        let it = BitmapFilteredTSVResponseIterator::new(search_list_size, bitmap_filter);
        proof {
            reveal(Seq::filter);
        }
        *self = BitmapFilteredVectorScanState {
            query: None,
            bitmap_filter: None,
            iterator: Some(it),
            search_list_size,
            tuples_returned,
            tuples_filtered,
        };
        query
    }

    /// Hands the scan the next candidate of the graph search (`None` when the
    /// search has none left) and says what became of it. Without an
    /// iterator the scan is exhausted.
    pub fn next_tuple(&mut self, candidate: Option<SearchResult>) -> (step: ScanStep)
        requires
            candidate is Some ==> old(self).consumed().len() < usize::MAX,
            candidate is Some ==> old(self).consumed().len() < i64::MAX,
        ensures
            final(self).pending_query() == old(self).pending_query(),
            final(self).pending_filter() == old(self).pending_filter(),
            final(self).list_size() == old(self).list_size(),
            old(self).scan_iterator() is None ==> step is Exhausted && *final(self) == *old(self),
            old(self).scan_iterator() matches Some(it) ==> {
                &&& final(self).scan_iterator() matches Some(it2) && it2.filter() == it.filter()
                    && it2.list_size() == it.list_size()
                &&& candidate is None ==> step is Exhausted && final(self).consumed() == old(
                    self,
                ).consumed()
                &&& candidate matches Some(c) ==> {
                    &&& final(self).consumed() == old(self).consumed().push(c)
                    &&& step == if passes(it.filter(), c) {
                        ScanStep::Return(c.0, c.1)
                    } else {
                        ScanStep::Skip
                    }
                }
            },
    {
        let mut current = BitmapFilteredVectorScanState {
            query: None,
            bitmap_filter: None,
            iterator: None,
            search_list_size: 0,
            tuples_returned: 0,
            tuples_filtered: 0,
        };
        std::mem::swap(self, &mut current);
        proof {
            use_type_invariant(&current);
        }
        let BitmapFilteredVectorScanState {
            query,
            bitmap_filter,
            iterator,
            search_list_size,
            tuples_returned,
            tuples_filtered,
        } = current;
        match iterator {
            None => {
                *self = BitmapFilteredVectorScanState {
                    query,
                    bitmap_filter,
                    iterator: None,
                    search_list_size,
                    tuples_returned,
                    tuples_filtered,
                };
                ScanStep::Exhausted
            },
            Some(mut it) => {
                let ghost before = it.checked_results();
                let ghost filter = it.filter();
                proof {
                    before.lemma_filter_len(passes_pred(filter));
                    before.lemma_filter_len(rejected_pred(filter));
                    if let Some(c) = candidate {
                        before.lemma_filter_push(c, passes_pred(filter));
                        before.lemma_filter_push(c, rejected_pred(filter));
                    }
                }
                let (filtered_before, _) = it.get_filter_stats();
                let step = it.next_filtered(candidate);
                let (filtered_after, _) = it.get_filter_stats();
                let tuples_returned = match step {
                    ScanStep::Return(_, _) => tuples_returned + 1,
                    _ => tuples_returned,
                };
                let tuples_filtered = if filtered_after > filtered_before {
                    tuples_filtered + 1
                } else {
                    tuples_filtered
                };
                *self = BitmapFilteredVectorScanState {
                    query,
                    bitmap_filter,
                    iterator: Some(it),
                    search_list_size,
                    tuples_returned,
                    tuples_filtered,
                };
                step
            },
        }
    }

    /// How many tuples the scan returned, and how many candidates the bitmap
    /// filtered out.
    pub fn get_stats(&self) -> (stats: (i64, i64))
        ensures
            stats.0 == self.returned().len(),
            stats.1 == self.filtered_out(),
    {
        proof {
            use_type_invariant(self);
        }
        (self.tuples_returned, self.tuples_filtered)
    }

    /// How many candidates the scan has checked.
    pub fn candidates_checked(&self) -> (n: usize)
        ensures
            n == self.consumed().len(),
    {
        match &self.iterator {
            None => 0,
            Some(it) => {
                let (_, checked) = it.get_filter_stats();
                checked
            },
        }
    }

    /// The search list size of the scan.
    pub fn search_list_size(&self) -> (size: usize)
        ensures
            size == self.list_size(),
    {
        self.search_list_size
    }
}

/// Runs a bitmap-filtered vector scan of `query` over `candidates`, the
/// candidates the graph search yields for it, and collects what it returns:
/// the candidates that the filter admits and that are not deleted, in order.
pub fn execute_bitmap_filtered_vector_search<Q>(
    query: Q,
    search_list_size: usize,
    bitmap_filter: Option<BitmapFilter>,
    candidates: &Vec<SearchResult>,
) -> (results: Vec<SearchResult>)
    requires
        candidates.len() < i64::MAX,
    ensures
        results@ == filtered_results(bitmap_filter, candidates@),
{
    let ghost filter = bitmap_filter;
    let mut state = BitmapFilteredVectorScanState::new(query, search_list_size, bitmap_filter);
    let _query = state.initialize_iterator();
    let mut results: Vec<SearchResult> = Vec::new();
    let mut i: usize = 0;
    while i < candidates.len()
        invariant
            i <= candidates.len(),
            candidates.len() < i64::MAX,
            state.scan_iterator() matches Some(it) && it.filter() == filter,
            state.consumed() == candidates@.take(i as int),
            results@ == filtered_results(filter, candidates@.take(i as int)),
        decreases candidates.len() - i,
    {
        let c = candidates[i];
        proof {
            assert(candidates@.take(i as int).push(c) == candidates@.take(i + 1));
            candidates@.take(i as int).lemma_filter_push(c, passes_pred(filter));
        }
        match state.next_tuple(Some(c)) {
            ScanStep::Return(heap_pointer, index_pointer) => {
                results.push((heap_pointer, index_pointer));
            },
            _ => {},
        }
        i = i + 1;
    }
    let last = state.next_tuple(None);
    assert(last is Exhausted);
    assert(candidates@.take(candidates.len() as int) == candidates@);
    results
}

/// A filter without a bitmap lets every heap tuple through.
pub proof fn lemma_no_bitmap_allows_all(filter: BitmapFilter)
    requires
        filter.bitmap() is None,
    ensures
        forall|hp: HeapPointer| #[trigger] filter.allows(hp),
{
}

/// Every tuple a filtered search returns is one of the search's candidates,
/// its heap tuple is admitted by the filter (a member of the bitmap, where
/// there is one) and it is not deleted.
pub proof fn lemma_results_pass_filter(filter: Option<BitmapFilter>, candidates: Seq<SearchResult>)
    ensures
        forall|i: int|
            0 <= i < filtered_results(filter, candidates).len() ==> {
                let r = #[trigger] filtered_results(filter, candidates)[i];
                &&& candidates.contains(r)
                &&& admits(filter, r.0)
                &&& r.0.offset != INVALID_OFFSET_NUMBER
            },
{
    let results = filtered_results(filter, candidates);
    assert forall|i: int| 0 <= i < results.len() implies {
        let r = #[trigger] results[i];
        &&& candidates.contains(r)
        &&& admits(filter, r.0)
        &&& r.0.offset != INVALID_OFFSET_NUMBER
    } by {
        candidates.lemma_filter_pred(passes_pred(filter), i);
        assert(results.contains(results[i]));
        candidates.lemma_filter_contains_rev(passes_pred(filter), results[i]);
    }
}

/// Every candidate whose heap tuple the filter admits and that is not
/// deleted is returned.
pub proof fn lemma_passing_candidates_returned(
    filter: Option<BitmapFilter>,
    candidates: Seq<SearchResult>,
)
    ensures
        forall|i: int|
            0 <= i < candidates.len() && admits(filter, candidates[i].0)
                && candidates[i].0.offset != INVALID_OFFSET_NUMBER ==> filtered_results(
                filter,
                candidates,
            ).contains(#[trigger] candidates[i]),
{
    assert forall|i: int|
        0 <= i < candidates.len() && admits(filter, candidates[i].0)
            && candidates[i].0.offset != INVALID_OFFSET_NUMBER implies filtered_results(
        filter,
        candidates,
    ).contains(#[trigger] candidates[i]) by {
        candidates.lemma_filter_contains(passes_pred(filter), i);
    }
}

/// A candidate is either filtered out by the bitmap, returned, or neither
/// (a deleted tuple), never both: the filtered count and the number of
/// results add up to at most the number of candidates checked.
pub proof fn lemma_filter_stats_bounded(filter: Option<BitmapFilter>, checked: Seq<SearchResult>)
    ensures
        rejected_count(filter, checked) + filtered_results(filter, checked).len() <= checked.len(),
    decreases checked.len(),
{
    if checked.len() > 0 {
        let rest = checked.drop_last();
        let last = checked.last();
        lemma_filter_stats_bounded(filter, rest);
        assert(rest.push(last) == checked);
        rest.lemma_filter_push(last, rejected_pred(filter));
        rest.lemma_filter_push(last, passes_pred(filter));
    } else {
        reveal(Seq::filter);
    }
}

/// The statistics only grow as the scan goes on: over a longer run of
/// candidates (`s` a prefix of `t`), no fewer candidates are filtered out
/// and no fewer are returned.
pub proof fn lemma_stats_monotone(
    filter: Option<BitmapFilter>,
    s: Seq<SearchResult>,
    t: Seq<SearchResult>,
)
    requires
        s.len() <= t.len(),
        s == t.take(s.len() as int),
    ensures
        rejected_count(filter, s) <= rejected_count(filter, t),
        filtered_results(filter, s).len() <= filtered_results(filter, t).len(),
    decreases t.len(),
{
    if s.len() < t.len() {
        let rest = t.drop_last();
        assert(s == rest.take(s.len() as int));
        lemma_stats_monotone(filter, s, rest);
        assert(rest.push(t.last()) == t);
        rest.lemma_filter_push(t.last(), rejected_pred(filter));
        rest.lemma_filter_push(t.last(), passes_pred(filter));
    } else {
        assert(s == t);
    }
}

/// Filtering by a narrower filter (one that admits no heap tuple the other
/// does not) gives the results of the wider filter, filtered further by the
/// narrower one: it only removes results, never adds or reorders them.
pub proof fn lemma_narrower_filter(
    narrow: Option<BitmapFilter>,
    wide: Option<BitmapFilter>,
    candidates: Seq<SearchResult>,
)
    requires
        forall|hp: HeapPointer| #[trigger] admits(narrow, hp) ==> admits(wide, hp),
    ensures
        filtered_results(narrow, candidates) == filtered_results(wide, candidates).filter(
            admits_pred(narrow),
        ),
    decreases candidates.len(),
{
    if candidates.len() == 0 {
        reveal(Seq::filter);
    } else {
        let rest = candidates.drop_last();
        let c = candidates.last();
        lemma_narrower_filter(narrow, wide, rest);
        assert(rest.push(c) == candidates);
        rest.lemma_filter_push(c, passes_pred(narrow));
        rest.lemma_filter_push(c, passes_pred(wide));
        filtered_results(wide, rest).lemma_filter_push(c, admits_pred(narrow));
    }
}

/// Searching with a filter gives the results of the search without one,
/// filtered by the bitmap afterwards.
pub proof fn lemma_filter_equals_post_filter(
    filter: Option<BitmapFilter>,
    candidates: Seq<SearchResult>,
)
    ensures
        filtered_results(filter, candidates) == filtered_results(None, candidates).filter(
            admits_pred(filter),
        ),
{
    lemma_narrower_filter(filter, None, candidates);
}

/// A smaller bitmap (whose members are all members of the other) only
/// removes results: its results are those of the larger bitmap, filtered by
/// it, in the same order.
pub proof fn lemma_bitmap_monotone(
    smaller: BitmapFilter,
    larger: BitmapFilter,
    candidates: Seq<SearchResult>,
)
    requires
        smaller.bitmap() matches Some(s) && larger.bitmap() matches Some(l) && s.members().subset_of(
            l.members(),
        ),
    ensures
        filtered_results(Some(smaller), candidates) == filtered_results(
            Some(larger),
            candidates,
        ).filter(admits_pred(Some(smaller))),
{
    lemma_narrower_filter(Some(smaller), Some(larger), candidates);
}

/// Without a filter, the search returns every candidate that is not deleted,
/// and filters nothing out.
pub proof fn lemma_no_filter_skips_only_deleted(candidates: Seq<SearchResult>)
    ensures
        filtered_results(None, candidates) == candidates.filter(live_pred()),
        rejected_count(None, candidates) == 0,
{
    assert(passes_pred(None) =~= live_pred());
    let rejected = candidates.filter(rejected_pred(None));
    if rejected.len() > 0 {
        candidates.lemma_filter_pred(rejected_pred(None), 0);
    }
}

/// A filter without a bitmap gives the same results and statistics as no
/// filter at all: the search falls back to the plain vector search.
pub proof fn lemma_null_bitmap_is_no_filter(filter: BitmapFilter, candidates: Seq<SearchResult>)
    requires
        filter.bitmap() is None,
    ensures
        filtered_results(Some(filter), candidates) == filtered_results(None, candidates),
        rejected_count(Some(filter), candidates) == rejected_count(None, candidates),
{
    assert(passes_pred(Some(filter)) =~= passes_pred(None));
    assert(rejected_pred(Some(filter)) =~= rejected_pred(None));
}

/// A filter made from a bitmap lets a heap tuple through exactly when the
/// bitmap holds that very tuple (same block number and offset); a filter
/// without a bitmap lets every tuple through.
pub proof fn lemma_filter_is_bitmap_membership(filter: BitmapFilter, hp: HeapPointer)
    ensures
        filter.bitmap() is None ==> filter.allows(hp),
        filter.bitmap() matches Some(tbm) ==> (filter.allows(hp) <==> tbm.members().contains(hp)),
{
}

/// Every candidate whose heap tuple the bitmap holds, and that is not
/// deleted, is among the results of the search filtered by that bitmap.
pub proof fn lemma_bitmap_members_returned(
    filter: BitmapFilter,
    candidates: Seq<SearchResult>,
    i: int,
)
    requires
        0 <= i < candidates.len(),
        filter.bitmap() matches Some(tbm) && tbm.members().contains(candidates[i].0),
        candidates[i].0.offset != 0,
    ensures
        filtered_results(Some(filter), candidates).contains(candidates[i]),
{
    candidates.lemma_filter_contains(passes_pred(Some(filter)), i);
}

/// Each candidate checked raises the filtered count by exactly one when the
/// bitmap does not hold its heap tuple, whatever its block and offset, and
/// leaves it unchanged otherwise; with no candidate checked the count is 0.
pub proof fn lemma_rejected_count_step(
    filter: BitmapFilter,
    checked: Seq<SearchResult>,
    c: SearchResult,
)
    ensures
        rejected_count(Some(filter), Seq::<SearchResult>::empty()) == 0,
        rejected_count(Some(filter), checked.push(c)) == rejected_count(Some(filter), checked)
            + match filter.bitmap() {
            None => 0int,
            Some(tbm) => if tbm.members().contains(c.0) {
                0int
            } else {
                1int
            },
        },
{
    reveal(Seq::filter);
    checked.lemma_filter_push(c, rejected_pred(Some(filter)));
}

/// The planner side of the bitmap-filtered vector scan.
pub struct BitmapFilteredVectorScanHook;

impl BitmapFilteredVectorScanHook {
    /// Whether a query can be planned as a bitmap-filtered vector scan. No
    /// query is yet: the answer is always `false`.
    pub fn can_optimize_query() -> (optimizable: bool)
        ensures
            !optimizable,
    {
        false
    }
}

} // verus!
