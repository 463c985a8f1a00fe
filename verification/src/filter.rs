//! The filter evaluator: selects, in order, the events of a snapshot
//! that the level filter accepts and that no target pattern excludes.

use vstd::prelude::*;

use crate::event::{views_of, CollectedEvent, EventView};
use crate::matcher::{
    any_glob_matches, compile_matcher, globset_is_match, globset_patterns, MatcherError,
};
use crate::state::{level_accepts, pattern_views, LevelFilter, LogsState};

verus! {

/// Whether some pattern in the list matches the target, so that the
/// event carrying it is excluded from display.
pub open spec fn target_excluded(patterns: Seq<Seq<char>>, target: Seq<char>) -> bool {
    any_glob_matches(patterns, target)
}

/// Whether one event is kept: its level is enabled and its target
/// matches no exclude pattern.
pub open spec fn keeps(filter: LevelFilter, patterns: Seq<Seq<char>>, event: EventView) -> bool {
    level_accepts(filter, event.level) && !target_excluded(patterns, event.target)
}

/// The filtered view of a snapshot: the events that are kept, in the
/// snapshot's order.
pub open spec fn spec_filtered(
    events: Seq<EventView>,
    filter: LevelFilter,
    patterns: Seq<Seq<char>>,
) -> Seq<EventView> {
    events.filter(|e: EventView| keeps(filter, patterns, e))
}

/// Applies the level filter and an already-compiled target matcher to a
/// snapshot, keeping the snapshot's order.
pub fn filter_with_matcher(
    events: &Vec<CollectedEvent>,
    filter: &LevelFilter,
    matcher: &globset::GlobSet,
) -> (r: Vec<CollectedEvent>)
    ensures
        views_of(r@) == spec_filtered(views_of(events@), *filter, globset_patterns(*matcher)),
{
    let ghost pred = |e: EventView| keeps(*filter, globset_patterns(*matcher), e);
    let mut out: Vec<CollectedEvent> = Vec::new();
    let mut i: usize = 0;
    proof {
        reveal(Seq::filter);
        assert(views_of(events@).subrange(0, 0) =~= Seq::<EventView>::empty());
    }
    while i < events.len()
        invariant
            i <= events.len(),
            views_of(events@).len() == events@.len(),
            views_of(out@) =~= views_of(events@).subrange(0, i as int).filter(pred),
            pred == (|e: EventView| keeps(*filter, globset_patterns(*matcher), e)),
        decreases events.len() - i,
    {
        let event = &events[i];
        let keep = filter.get(event.level) && !globset_is_match(matcher, event.target.as_str());
        proof {
            reveal(Seq::filter);
            let all = views_of(events@);
            assert(all[i as int] == events@[i as int]@);
            assert(all.subrange(0, (i + 1) as int).drop_last() =~= all.subrange(0, i as int));
            assert(all.subrange(0, (i + 1) as int).last() == all[i as int]);
            assert(keep == pred(all[i as int]));
        }
        if keep {
            let copy = event.duplicate();
            out.push(copy);
            proof {
                assert(views_of(out@) =~= views_of(events@).subrange(0, (i + 1) as int).filter(
                    pred,
                ));
            }
        } else {
            proof {
                assert(views_of(out@) =~= views_of(events@).subrange(0, (i + 1) as int).filter(
                    pred,
                ));
            }
        }
        i = i + 1;
    }
    proof {
        assert(views_of(events@).subrange(0, events@.len() as int) =~= views_of(events@));
    }
    out
}

/// Compiles the state's target patterns and filters the snapshot with
/// them and with the state's level filter.
///
/// Succeeds, with the kept events in the snapshot's order, exactly when
/// every exclude pattern is a well-formed glob and the list compiles
/// into a set; a malformed pattern is reported (by index of the first
/// one) rather than filtered with, and is reported if and only if one
/// exists.
pub fn filter_events(events: &Vec<CollectedEvent>, state: &LogsState) -> (r: Result<
    Vec<CollectedEvent>,
    MatcherError,
>)
    ensures
        r is Ok <==> ((forall|i: int|
            0 <= i < state.target_filter.targets@.len() ==> crate::matcher::glob_pattern_ok(
                #[trigger] state.target_filter.targets@[i]@,
            )) && crate::matcher::globset_builds(pattern_views(state.target_filter.targets@))),
        r matches Err(MatcherError::BuildFailed) ==> !crate::matcher::globset_builds(
            pattern_views(state.target_filter.targets@),
        ),
        r is Ok ==> views_of(r->Ok_0@) == spec_filtered(
            views_of(events@),
            state.level_filter,
            pattern_views(state.target_filter.targets@),
        ),
        r matches Err(MatcherError::InvalidPattern(i)) ==> 0 <= i
            < state.target_filter.targets@.len() && !crate::matcher::glob_pattern_ok(
            state.target_filter.targets@[i as int]@,
        ) && (forall|j: int|
            0 <= j < i ==> crate::matcher::glob_pattern_ok(
                #[trigger] state.target_filter.targets@[j]@,
            )),
        (exists|i: int|
            0 <= i < state.target_filter.targets@.len() && !crate::matcher::glob_pattern_ok(
                #[trigger] state.target_filter.targets@[i]@,
            )) <==> r matches Err(MatcherError::InvalidPattern(_)),
{
    match compile_matcher(&state.target_filter.targets) {
        Ok(matcher) => Ok(filter_with_matcher(events, &state.level_filter, &matcher)),
        Err(e) => Err(e),
    }
}

/// Every element of a filtered sequence satisfies the filter predicate.
proof fn lemma_filter_elem_pred<A>(s: Seq<A>, pred: spec_fn(A) -> bool, i: int)
    requires
        0 <= i < s.filter(pred).len(),
    ensures
        pred(s.filter(pred)[i]),
{
    s.lemma_filter_pred(pred, i);
}

/// Every element of a filtered sequence occurs in the source sequence.
proof fn lemma_filter_elem_source<A>(s: Seq<A>, pred: spec_fn(A) -> bool, i: int)
    requires
        0 <= i < s.filter(pred).len(),
    ensures
        exists|k: int| 0 <= k < s.len() && s[k] == s.filter(pred)[i],
    decreases s.len(),
{
    reveal(Seq::filter);
    let f = s.filter(pred);
    let d = s.drop_last();
    let fd = d.filter(pred);
    if pred(s.last()) && i == fd.len() {
        assert(s[s.len() - 1] == f[i]);
    } else {
        assert(0 <= i < fd.len());
        lemma_filter_elem_source(d, pred, i);
        let k = choose|k: int| 0 <= k < d.len() && d[k] == fd[i];
        assert(s[k] == f[i]);
    }
}

/// Two elements of a filtered sequence occur in the source sequence in
/// the same relative order.
proof fn lemma_filter_keeps_order<A>(s: Seq<A>, pred: spec_fn(A) -> bool, i: int, j: int)
    requires
        0 <= i < j < s.filter(pred).len(),
    ensures
        exists|k: int, l: int|
            0 <= k < l < s.len() && s[k] == s.filter(pred)[i] && s[l] == s.filter(pred)[j],
    decreases s.len(),
{
    reveal(Seq::filter);
    let f = s.filter(pred);
    let d = s.drop_last();
    let fd = d.filter(pred);
    if pred(s.last()) && j == fd.len() {
        lemma_filter_elem_source(d, pred, i);
        let k = choose|k: int| 0 <= k < d.len() && d[k] == fd[i];
        assert(f[i] == fd[i]);
        assert(s[k] == f[i]);
        assert(s[s.len() - 1] == f[j]);
        assert(0 <= k < s.len() - 1 < s.len());
    } else {
        assert(0 <= i < j < fd.len());
        lemma_filter_keeps_order(d, pred, i, j);
        let (k, l) = choose|k: int, l: int|
            0 <= k < l < d.len() && d[k] == fd[i] && d[l] == fd[j];
        assert(s[k] == f[i] && s[l] == f[j]);
    }
}

/// Filtering a sequence whose elements all satisfy the predicate keeps
/// the sequence unchanged.
proof fn lemma_filter_all_kept<A>(s: Seq<A>, pred: spec_fn(A) -> bool)
    requires
        forall|i: int| 0 <= i < s.len() ==> pred(#[trigger] s[i]),
    ensures
        s.filter(pred) == s,
    decreases s.len(),
{
    reveal(Seq::filter);
    if s.len() > 0 {
        let d = s.drop_last();
        lemma_filter_all_kept(d, pred);
        assert(s[s.len() - 1] == s.last());
        assert(s.filter(pred) =~= s);
    }
}

/// An event appears in the filtered output only if the level filter
/// accepts its level.
pub proof fn lemma_filtered_level_accepted(
    events: Seq<EventView>,
    filter: LevelFilter,
    patterns: Seq<Seq<char>>,
    i: int,
)
    requires
        0 <= i < spec_filtered(events, filter, patterns).len(),
    ensures
        level_accepts(filter, spec_filtered(events, filter, patterns)[i].level),
{
    lemma_filter_elem_pred(events, |e: EventView| keeps(filter, patterns, e), i);
}

/// An event whose target matches some exclude pattern never appears in
/// the filtered output, whatever the level filter says.
pub proof fn lemma_filtered_target_not_excluded(
    events: Seq<EventView>,
    filter: LevelFilter,
    patterns: Seq<Seq<char>>,
    i: int,
)
    requires
        0 <= i < spec_filtered(events, filter, patterns).len(),
    ensures
        !target_excluded(patterns, spec_filtered(events, filter, patterns)[i].target),
{
    lemma_filter_elem_pred(events, |e: EventView| keeps(filter, patterns, e), i);
}

/// Filtering never reorders: two events of the filtered output occur in
/// the snapshot at positions in the same relative order.
pub proof fn lemma_filtered_keeps_order(
    events: Seq<EventView>,
    filter: LevelFilter,
    patterns: Seq<Seq<char>>,
    i: int,
    j: int,
)
    requires
        0 <= i < j < spec_filtered(events, filter, patterns).len(),
    ensures
        exists|k: int, l: int|
            0 <= k < l < events.len() && events[k] == spec_filtered(events, filter, patterns)[i]
                && events[l] == spec_filtered(events, filter, patterns)[j],
{
    lemma_filter_keeps_order(events, |e: EventView| keeps(filter, patterns, e), i, j);
}

/// Filtering is idempotent: re-filtering an already-filtered sequence
/// with the same filters yields the same sequence.
pub proof fn lemma_filtering_idempotent(
    events: Seq<EventView>,
    filter: LevelFilter,
    patterns: Seq<Seq<char>>,
)
    ensures
        spec_filtered(spec_filtered(events, filter, patterns), filter, patterns) == spec_filtered(
            events,
            filter,
            patterns,
        ),
{
    let pred = |e: EventView| keeps(filter, patterns, e);
    let f = events.filter(pred);
    assert forall|i: int| 0 <= i < f.len() implies pred(#[trigger] f[i]) by {
        lemma_filter_elem_pred(events, pred, i);
    }
    lemma_filter_all_kept(f, pred);
}

/// An empty snapshot filters to an empty output, whatever the filters.
pub proof fn lemma_empty_snapshot(filter: LevelFilter, patterns: Seq<Seq<char>>)
    ensures
        spec_filtered(Seq::<EventView>::empty(), filter, patterns) == Seq::<EventView>::empty(),
{
    reveal(Seq::filter);
}

} // verus!
