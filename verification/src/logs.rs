//! The log panel's core: holds the event collector and, given one
//! widget's filter state, computes what a frame displays.  Drawing the
//! table is left to the host UI layer, which calls into this type.

use vstd::prelude::*;

use crate::collector::EventCollector;
use crate::event::{views_of, CollectedEvent, EventView};
use crate::filter::{filter_events, spec_filtered};
use crate::matcher::MatcherError;
use crate::state::{pattern_views, LogsState};

verus! {

/// The verified core of the log table widget: an event collector plus
/// the per-frame filtering over it.
pub struct Logs {
    collector: EventCollector,
}

impl View for Logs {
    type V = Seq<EventView>;

    closed spec fn view(&self) -> Seq<EventView> {
        self.collector@
    }
}

impl Logs {
    /// A panel over the given collector.
    pub fn new(collector: EventCollector) -> (r: Self)
        ensures
            r@ == collector@,
    {
        Logs { collector }
    }

    /// A snapshot of every collected event, in collection order.
    pub fn snapshot(&self) -> (r: Vec<CollectedEvent>)
        ensures
            views_of(r@) == self@,
    {
        self.collector.events()
    }

    /// Appends one event to the collector.
    pub fn collect(&mut self, event: CollectedEvent)
        ensures
            final(self)@ == old(self)@.push(event@),
    {
        self.collector.collect(event);
    }

    /// The clear action: empties the collector, so that the next
    /// snapshot yields no events, whatever filters the widget holds.
    pub fn clear(&mut self)
        ensures
            final(self)@ == Seq::<EventView>::empty(),
    {
        self.collector.clear();
    }

    /// The events one frame displays under the given filter state: the
    /// collected events whose level is enabled and whose target no
    /// exclude pattern matches, in collection order.  The collector is
    /// untouched.
    ///
    /// Succeeds exactly when every exclude pattern is a well-formed
    /// glob and the list compiles into a set; the first malformed
    /// pattern is reported by index, if and only if one exists.
    pub fn filtered(&self, state: &LogsState) -> (r: Result<Vec<CollectedEvent>, MatcherError>)
        ensures
            r is Ok <==> ((forall|i: int|
                0 <= i < state.target_filter.targets@.len() ==> crate::matcher::glob_pattern_ok(
                    #[trigger] state.target_filter.targets@[i]@,
                )) && crate::matcher::globset_builds(pattern_views(state.target_filter.targets@))),
            r is Ok ==> views_of(r->Ok_0@) == spec_filtered(
                self@,
                state.level_filter,
                pattern_views(state.target_filter.targets@),
            ),
            r matches Err(MatcherError::InvalidPattern(i)) ==> 0 <= i
                < state.target_filter.targets@.len() && !crate::matcher::glob_pattern_ok(
                state.target_filter.targets@[i as int]@,
            ) && (forall|j: int|
                0 <= j < i ==> crate::matcher::glob_pattern_ok(
                    #[trigger] state.target_filter.targets@[j]@,
                )),
            (exists|i: int|
                0 <= i < state.target_filter.targets@.len() && !crate::matcher::glob_pattern_ok(
                    #[trigger] state.target_filter.targets@[i]@,
                )) <==> r matches Err(MatcherError::InvalidPattern(_)),
            r matches Err(MatcherError::BuildFailed) ==> !crate::matcher::globset_builds(
                pattern_views(state.target_filter.targets@),
            ),
    {
        let events = self.collector.events();
        filter_events(&events, state)
    }
}

} // verus!
