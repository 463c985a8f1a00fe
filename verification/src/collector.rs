//! The event source: an append-only buffer of collected events that the
//! panel snapshots each frame and that only its clear action empties.

use vstd::prelude::*;

use crate::event::{views_of, CollectedEvent, EventView};

verus! {

/// Append-only buffer of collected log events.  Filtering never touches
/// it; only `clear` empties it.
pub struct EventCollector {
    events: Vec<CollectedEvent>,
}

impl View for EventCollector {
    type V = Seq<EventView>;

    closed spec fn view(&self) -> Seq<EventView> {
        views_of(self.events@)
    }
}

impl EventCollector {
    /// An empty buffer.
    pub fn new() -> (r: Self)
        ensures
            r@ == Seq::<EventView>::empty(),
    {
        let r = EventCollector { events: Vec::new() };
        proof {
            assert(r@ =~= Seq::<EventView>::empty());
        }
        r
    }

    /// Appends one event; the events already collected keep their
    /// place.
    pub fn collect(&mut self, event: CollectedEvent)
        ensures
            final(self)@ == old(self)@.push(event@),
    {
        self.events.push(event);
        proof {
            assert(self@ =~= old(self)@.push(event@));
        }
    }

    /// How many events the buffer holds.
    pub fn len(&self) -> (r: usize)
        ensures
            r == self@.len(),
    {
        self.events.len()
    }

    /// A point-in-time snapshot of every collected event, in collection
    /// order.  The buffer itself is untouched.
    pub fn events(&self) -> (r: Vec<CollectedEvent>)
        ensures
            views_of(r@) == self@,
    {
        let mut out: Vec<CollectedEvent> = Vec::new();
        let mut i: usize = 0;
        while i < self.events.len()
            invariant
                i <= self.events.len(),
                out@.len() == i,
                forall|k: int| 0 <= k < i ==> (#[trigger] out@[k])@ == self.events@[k]@,
            decreases self.events.len() - i,
        {
            out.push(self.events[i].duplicate());
            i = i + 1;
        }
        proof {
            assert forall|k: int| 0 <= k < out@.len() implies views_of(out@)[k] == views_of(
                self.events@,
            )[k] by {
                assert(views_of(out@)[k] == out@[k]@);
                assert(views_of(self.events@)[k] == self.events@[k]@);
            }
            assert(views_of(out@) =~= views_of(self.events@));
        }
        out
    }

    /// Empties the buffer: a snapshot taken afterwards yields no
    /// events, whatever filters a widget holds.
    pub fn clear(&mut self)
        ensures
            final(self)@ == Seq::<EventView>::empty(),
    {
        self.events.clear();
        proof {
            assert(self@ =~= Seq::<EventView>::empty());
        }
    }
}

impl Default for EventCollector {
    /// An empty buffer.
    fn default() -> (r: Self)
        ensures
            r@ == Seq::<EventView>::empty(),
    {
        EventCollector::new()
    }
}

} // verus!
