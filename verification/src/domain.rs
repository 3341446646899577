//! The shapes of the data that the store holds: time spans, event bodies,
//! event instances and the timeline that indexes instances by start time.

use std::collections::BTreeMap;
use vstd::prelude::*;
use vstd::std_specs::cmp::OrdSpec;
use vstd::std_specs::iter::IteratorSpec;

use crate::time::{TimeDelta, TimePoint};

verus! {

/// Identifies an event body in a repository.
pub type EventBodyId = u128;

/// Identifies an event instance in a repository.
pub type EventInstanceId = u128;

/// A set of continuous points in time at which an event is occurring. An
/// interval is half-open: its start belongs to it, its end does not.
#[derive(Clone, Copy, Debug, PartialEq, Eq, Structural)]
pub enum TimeSpan {
    Instant(TimePoint),
    Interval { start: TimePoint, duration: TimeDelta },
}

impl TimeSpan {
    /// The earliest point of the span, in nanoseconds since the epoch.
    pub open spec fn earliest_spec(self) -> int {
        match self {
            TimeSpan::Instant(time) => time@,
            TimeSpan::Interval { start, .. } => start@,
        }
    }

    /// The end of the span, in nanoseconds since the epoch. For an interval
    /// this is the first point after it.
    pub open spec fn latest_spec(self) -> int {
        match self {
            TimeSpan::Instant(time) => time@,
            TimeSpan::Interval { start, duration } => start@ + duration@,
        }
    }

    /// Whether the end of the span can be held as a `TimePoint`.
    pub open spec fn end_representable(self) -> bool {
        i128::MIN <= self.latest_spec() <= i128::MAX
    }

    /// A span is valid when it does not run backwards and its end can be held.
    pub open spec fn valid(self) -> bool {
        self.earliest_spec() <= self.latest_spec() && self.end_representable()
    }

    /// Whether the point `t` (in nanoseconds since the epoch) lies within the
    /// span.
    pub open spec fn contains_spec(self, t: int) -> bool {
        match self {
            TimeSpan::Instant(time) => t == time@,
            TimeSpan::Interval { start, duration } => start@ <= t < start@ + duration@,
        }
    }

    /// Returns the earliest point of the time span.
    pub fn earliest(&self) -> (t: TimePoint)
        ensures
            t@ == self.earliest_spec(),
    {
        match self {
            TimeSpan::Instant(time) => *time,
            TimeSpan::Interval { start, .. } => *start,
        }
    }

    /// Returns the latest point of the time span. Since an interval is
    /// half-open, this point is not itself part of one.
    pub fn latest(&self) -> (t: TimePoint)
        requires
            self.end_representable(),
        ensures
            t@ == self.latest_spec(),
    {
        match self {
            TimeSpan::Instant(time) => *time,
            TimeSpan::Interval { start, duration } => TimePoint {
                nanos: start.nanos + duration.nanos,
            },
        }
    }

    /// Tells whether the span is valid.
    pub fn is_valid(&self) -> (b: bool)
        ensures
            b == self.valid(),
    {
        match self {
            TimeSpan::Instant(_) => true,
            TimeSpan::Interval { start, duration } => {
                !duration.is_negative() && start.checked_add(duration).is_some()
            },
        }
    }

    /// Tells whether the point `t` lies within the span.
    pub fn contains(&self, t: &TimePoint) -> (b: bool)
        ensures
            b == self.contains_spec(t@),
    {
        match self {
            TimeSpan::Instant(time) => t.nanos == time.nanos,
            TimeSpan::Interval { start, duration } => {
                if t.nanos < start.nanos || duration.nanos <= 0 {
                    false
                } else {
                    match start.nanos.checked_add(duration.nanos) {
                        Some(end) => t.nanos < end,
                        None => true,
                    }
                }
            },
        }
    }
}

/// What an event is about, apart from when it happens.
#[derive(Clone, Debug, PartialEq, Eq)]
pub struct EventBody {
    pub summary: String,
    pub description: String,
}

/// A single occurrence of an event. `body` refers to the event body without
/// owning it: the store does not check that such a body exists.
#[derive(Clone, Copy, Debug, PartialEq, Eq, Structural)]
pub struct EventInstance {
    pub time_span: TimeSpan,
    pub body: EventBodyId,
}

/// Holds the identifiers of event instances, allowing lookup by time. A point
/// in time maps to at most one instance: recording a second instance at the
/// same point replaces the first in the index.
#[derive(Debug)]
pub struct Timeline {
    pub events: BTreeMap<i128, EventInstanceId>,
}

impl View for Timeline {
    type V = Map<i128, EventInstanceId>;

    open spec fn view(&self) -> Map<i128, EventInstanceId> {
        self.events@
    }
}

/// Whether `listing` holds exactly the entries of `index` whose time lies in
/// the half-open range from `from` to `to`, in ascending order of time.
pub open spec fn is_range_listing(
    listing: Seq<(TimePoint, EventInstanceId)>,
    index: Map<i128, EventInstanceId>,
    from: i128,
    to: i128,
) -> bool {
    &&& forall|i: int, j: int|
        0 <= i < j < listing.len() ==> (#[trigger] listing[i]).0.nanos < (#[trigger] listing[j]).0.nanos
    &&& forall|i: int|
        0 <= i < listing.len() ==> {
            let entry = #[trigger] listing[i];
            from <= entry.0.nanos < to && index.contains_pair(entry.0.nanos, entry.1)
        }
    &&& forall|k: i128|
        from <= k < to && #[trigger] index.contains_key(k) ==> exists|i: int|
            0 <= i < listing.len() && (#[trigger] listing[i]).0.nanos == k
}

/// Whether `walk` goes through the entries of `index` in ascending order of
/// time, each once.
spec fn walks_through(walk: Seq<(&i128, &EventInstanceId)>, index: Map<i128, EventInstanceId>) -> bool {
    &&& forall|i: int, j: int|
        0 <= i < j < walk.len() ==> *(#[trigger] walk[i]).0 < *(#[trigger] walk[j]).0
    &&& forall|i: int|
        0 <= i < walk.len() ==> index.contains_pair(*(#[trigger] walk[i]).0, *walk[i].1)
    &&& forall|k: i128| #[trigger]
        index.contains_key(k) ==> exists|i: int| 0 <= i < walk.len() && *(#[trigger] walk[i]).0 == k
}

/// Those of the first `n` entries of `walk` whose time lies in the range from
/// `from` to `to`, in the order of the walk.
spec fn listing_of(walk: Seq<(&i128, &EventInstanceId)>, n: int, from: i128, to: i128) -> Seq<
    (TimePoint, EventInstanceId),
>
    decreases n,
{
    if n <= 0 {
        Seq::empty()
    } else {
        let rest = listing_of(walk, n - 1, from, to);
        let (time, instance) = walk[n - 1];
        if from <= *time < to {
            rest.push((TimePoint { nanos: *time }, *instance))
        } else {
            rest
        }
    }
}

/// Whether `listing` has an entry at the time `time`.
spec fn lists_time(listing: Seq<(TimePoint, EventInstanceId)>, time: i128) -> bool {
    exists|j: int| 0 <= j < listing.len() && (#[trigger] listing[j]).0.nanos == time
}

/// What is listed of the first `n` entries of a walk through an index: those
/// in range, in ascending order of time, each as the index has it, and none
/// later than entry `n - 1`.
proof fn lemma_listing_of(
    walk: Seq<(&i128, &EventInstanceId)>,
    index: Map<i128, EventInstanceId>,
    n: int,
    from: i128,
    to: i128,
)
    requires
        walks_through(walk, index),
        0 <= n <= walk.len(),
    ensures
        ({
            let listing = listing_of(walk, n, from, to);
            &&& forall|i: int, j: int|
                0 <= i < j < listing.len() ==> (#[trigger] listing[i]).0.nanos < (
                #[trigger] listing[j]).0.nanos
            &&& forall|j: int|
                0 <= j < listing.len() ==> {
                    let entry = #[trigger] listing[j];
                    &&& from <= entry.0.nanos < to
                    &&& index.contains_pair(entry.0.nanos, entry.1)
                    &&& n > 0
                    &&& entry.0.nanos <= *walk[n - 1].0
                }
            &&& forall|i: int|
                0 <= i < n && from <= *(#[trigger] walk[i]).0 < to ==> lists_time(
                    listing,
                    *walk[i].0,
                )
        }),
    decreases n,
{
    if n > 0 {
        lemma_listing_of(walk, index, n - 1, from, to);
        let rest = listing_of(walk, n - 1, from, to);
        let listing = listing_of(walk, n, from, to);
        let taken = from <= *walk[n - 1].0 < to;
        assert forall|j: int| 0 <= j < rest.len() implies (#[trigger] rest[j]).0.nanos < *walk[n
            - 1].0 by {
            assert(*walk[n - 2].0 < *walk[n - 1].0);
        }
        assert forall|i: int| 0 <= i < n && from <= *(#[trigger] walk[i]).0 < to implies lists_time(
            listing,
            *walk[i].0,
        ) by {
            if i < n - 1 {
                assert(lists_time(rest, *walk[i].0));
                let j = choose|j: int| 0 <= j < rest.len() && (#[trigger] rest[j]).0.nanos == *walk[i].0;
                assert(listing[j] == rest[j]);
            } else {
                assert(listing[listing.len() - 1].0.nanos == *walk[i].0);
            }
        }
    }
}

/// All that is listed of a walk through an index is the listing of the range.
proof fn lemma_walk_listed(
    walk: Seq<(&i128, &EventInstanceId)>,
    index: Map<i128, EventInstanceId>,
    from: i128,
    to: i128,
)
    requires
        walks_through(walk, index),
    ensures
        is_range_listing(listing_of(walk, walk.len() as int, from, to), index, from, to),
{
    let listing = listing_of(walk, walk.len() as int, from, to);
    lemma_listing_of(walk, index, walk.len() as int, from, to);
    assert forall|k: i128| from <= k < to && #[trigger] index.contains_key(k) implies exists|i: int|
        0 <= i < listing.len() && (#[trigger] listing[i]).0.nanos == k by {
        let w = choose|w: int| 0 <= w < walk.len() && *(#[trigger] walk[w]).0 == k;
        assert(lists_time(listing, *walk[w].0));
    }
}

impl Default for Timeline {
    /// An index without entries.
    fn default() -> (timeline: Timeline)
        ensures
            timeline@ == Map::<i128, EventInstanceId>::empty(),
    {
        Timeline::new()
    }
}

impl Timeline {
    /// An index without entries.
    pub fn new() -> (timeline: Timeline)
        ensures
            timeline@ == Map::<i128, EventInstanceId>::empty(),
    {
        Timeline { events: BTreeMap::new() }
    }

    /// Makes `time` map to `instance`, replacing what it mapped to before.
    pub fn record(&mut self, time: TimePoint, instance: EventInstanceId)
        ensures
            final(self)@ == old(self)@.insert(time.nanos, instance),
    {
        let _ = self.events.insert(time.nanos, instance);
    }

    /// The entries whose time is at or after `from` and before `to`, in
    /// ascending order of time.
    pub fn range(&self, from: TimePoint, to: TimePoint) -> (listing: Vec<(TimePoint, EventInstanceId)>)
        ensures
            is_range_listing(listing@, self@, from.nanos, to.nanos),
    {
        let mut listing: Vec<(TimePoint, EventInstanceId)> = Vec::new();
        let walk = self.events.iter();
        let ghost all = walk.remaining();
        proof {
            let times = all.map_values(|kv: (&i128, &EventInstanceId)| *kv.0);
            assert forall|i: int, j: int| 0 <= i < j < all.len() implies *(#[trigger] all[i]).0 < *(
            #[trigger] all[j]).0 by {
                assert(times[i] == *all[i].0);
                assert(times[j] == *all[j].0);
                assert(times[i].cmp_spec(&times[j]) is Less);
            }
            assert(walks_through(all, self@));
        }
        for entry in it: walk
            invariant
                it.seq() == all,
                listing@ == listing_of(all, it.index(), from.nanos, to.nanos),
        {
            let (time, instance) = entry;
            if from.nanos <= *time && *time < to.nanos {
                listing.push((TimePoint { nanos: *time }, *instance));
            }
        }
        proof {
            lemma_walk_listed(all, self@, from.nanos, to.nanos);
        }
        listing
    }
}

} // verus!
