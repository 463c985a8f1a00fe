//! The log record that the panel displays: a severity level, an origin
//! target, a timestamp and an ordered list of named string fields.

use vstd::prelude::*;

verus! {

/// Severity of a collected log event, from least to most severe.
#[derive(Clone, Copy, Debug, PartialEq, Eq, Structural, Hash)]
pub enum Level {
    Trace,
    Debug,
    Info,
    Warn,
    Error,
}

/// Mathematical model of one collected event: every string is a `Seq<char>`.
#[verifier::ext_equal]
pub ghost struct EventView {
    /// Timestamp in milliseconds since an epoch chosen by the collector.
    pub time: u64,
    pub level: Level,
    pub target: Seq<char>,
    /// Field names and values, in insertion order.
    pub fields: Seq<(Seq<char>, Seq<char>)>,
}

/// One immutable log record, as handed over by the event collector.
pub struct CollectedEvent {
    /// Timestamp in milliseconds since an epoch chosen by the collector.
    pub time: u64,
    pub level: Level,
    /// Hierarchical origin tag, e.g. `db.conn`.
    pub target: String,
    /// Field names and values, in insertion order.
    pub fields: Vec<(String, String)>,
}

impl View for CollectedEvent {
    type V = EventView;

    open spec fn view(&self) -> EventView {
        EventView {
            time: self.time,
            level: self.level,
            target: self.target@,
            fields: self.fields@.map_values(|f: (String, String)| (f.0@, f.1@)),
        }
    }
}

/// The models of a sequence of events.
pub open spec fn views_of(events: Seq<CollectedEvent>) -> Seq<EventView> {
    events.map_values(|e: CollectedEvent| e@)
}

/// The value of the first field with the given name, or the empty string
/// when no field carries it.
pub open spec fn spec_lookup(fields: Seq<(Seq<char>, Seq<char>)>, name: Seq<char>) -> Seq<char>
    decreases fields.len(),
{
    if fields.len() == 0 {
        Seq::empty()
    } else if fields[0].0 == name {
        fields[0].1
    } else {
        spec_lookup(fields.drop_first(), name)
    }
}

impl CollectedEvent {
    /// Builds an event from its parts.
    pub fn new(time: u64, level: Level, target: String, fields: Vec<(String, String)>) -> (r: Self)
        ensures
            r@ == (EventView {
                time,
                level,
                target: target@,
                fields: fields@.map_values(|f: (String, String)| (f.0@, f.1@)),
            }),
    {
        CollectedEvent { time, level, target, fields }
    }

    /// A copy of this event that models identically.
    pub fn duplicate(&self) -> (r: Self)
        ensures
            r@ == self@,
    {
        let mut fields: Vec<(String, String)> = Vec::new();
        let mut i: usize = 0;
        while i < self.fields.len()
            invariant
                i <= self.fields.len(),
                fields@.len() == i,
                forall|j: int|
                    0 <= j < i ==> (#[trigger] fields@[j]).0@ == self.fields@[j].0@
                        && fields@[j].1@ == self.fields@[j].1@,
            decreases self.fields.len() - i,
        {
            let name = self.fields[i].0.clone();
            let value = self.fields[i].1.clone();
            fields.push((name, value));
            i = i + 1;
        }
        let r = CollectedEvent {
            time: self.time,
            level: self.level,
            target: self.target.clone(),
            fields,
        };
        proof {
            assert forall|j: int|
                0 <= j < r@.fields.len() implies r@.fields[j] == self@.fields[j] by {
                assert(r@.fields[j] == (fields@[j].0@, fields@[j].1@));
                assert(self@.fields[j] == (self.fields@[j].0@, self.fields@[j].1@));
            }
            assert(r@.fields =~= self@.fields);
            assert(r@ =~= self@);
        }
        r
    }
}

} // verus!
