//! What holds of the store and of the timeline whatever they contain.

use vstd::prelude::*;

use crate::domain::{is_range_listing, EventBody, EventInstance, EventInstanceId, TimeSpan};
use crate::parse::grammar::LexedTimeSpan;
use crate::parse::time_span_from;
use crate::repository::{Home, RepoModel, RepoRetrievalError};
use crate::slot::Blob;
use crate::time::TimePoint;

verus! {

/// An entity is out with at most one holder: while an event body is out,
/// retrieving its identifier again, as either kind, fails with
/// `AlreadyRetrieved` and leaves the repository as it is.
pub proof fn lemma_body_retrieval_is_exclusive(repo: RepoModel, id: u128)
    requires
        repo.get_event_body(id).1 is Ok,
    ensures
        ({
            let lent = repo.get_event_body(id).0;
            &&& lent.vacant_at(id)
            &&& lent.get_event_body(id) == (lent, Err::<EventBody, _>(RepoRetrievalError::AlreadyRetrieved))
            &&& lent.get_event_instance(id) == (
                lent,
                Err::<EventInstance, _>(RepoRetrievalError::AlreadyRetrieved),
            )
        }),
{
    let lent = repo.get_event_body(id).0;
    assert(lent.blobs.insert(id, None) =~= lent.blobs);
}

/// An entity is out with at most one holder: while an event instance is out,
/// retrieving its identifier again, as either kind, fails with
/// `AlreadyRetrieved` and leaves the repository as it is.
pub proof fn lemma_instance_retrieval_is_exclusive(repo: RepoModel, id: u128)
    requires
        repo.get_event_instance(id).1 is Ok,
    ensures
        ({
            let lent = repo.get_event_instance(id).0;
            &&& lent.vacant_at(id)
            &&& lent.get_event_body(id) == (lent, Err::<EventBody, _>(RepoRetrievalError::AlreadyRetrieved))
            &&& lent.get_event_instance(id) == (
                lent,
                Err::<EventInstance, _>(RepoRetrievalError::AlreadyRetrieved),
            )
        }),
{
    let lent = repo.get_event_instance(id).0;
    assert(lent.blobs.insert(id, None) =~= lent.blobs);
}

/// The timeline is out with at most one holder: while it is out, retrieving
/// it again yields nothing and leaves the repository as it is. Once it is
/// returned, it is retrieved as it was returned.
pub proof fn lemma_timeline_retrieval_is_exclusive(
    repo: RepoModel,
    changed: Map<i128, EventInstanceId>,
)
    ensures
        ({
            let lent = repo.get_timeline().0;
            &&& lent.get_timeline() == (lent, None::<Map<i128, EventInstanceId>>)
            &&& lent.awaits(Home::Timeline)
            &&& lent.with_timeline(Some(changed)).get_timeline().1 == Some(changed)
        }),
{
}

/// A newly added entity is out from the start: until it is returned,
/// retrieving its identifier fails with `AlreadyRetrieved`.
pub proof fn lemma_added_entity_is_out(repo: RepoModel, id: u128)
    ensures
        repo.add(id).vacant_at(id),
        repo.add(id).get_event_body(id).1 == Err::<EventBody, _>(RepoRetrievalError::AlreadyRetrieved),
        repo.add(id).get_event_instance(id).1 == Err::<EventInstance, _>(
            RepoRetrievalError::AlreadyRetrieved,
        ),
{
}

/// A failed retrieval leaves the repository as it is.
pub proof fn lemma_failed_retrieval_changes_nothing(repo: RepoModel, id: u128)
    ensures
        repo.get_event_body(id).1 is Err ==> repo.get_event_body(id).0 == repo,
        repo.get_event_instance(id).1 is Err ==> repo.get_event_instance(id).0 == repo,
{
    if repo.blobs.contains_key(id) {
        assert(repo.blobs.insert(id, repo.blobs[id]) =~= repo.blobs);
    }
}

/// What is returned after a change is what the next retrieval yields: an
/// event body that was retrieved, changed to `changed` and returned comes out
/// as `changed`.
pub proof fn lemma_body_round_trip(repo: RepoModel, id: u128, changed: EventBody)
    requires
        repo.get_event_body(id).1 is Ok,
    ensures
        repo.get_event_body(id).0.give_back(id, Blob::EventBody(changed)).get_event_body(id).1
            == Ok::<_, RepoRetrievalError>(changed),
{
}

/// What is returned after a change is what the next retrieval yields: an
/// event instance that was retrieved, changed to `changed` and returned comes
/// out as `changed`.
pub proof fn lemma_instance_round_trip(repo: RepoModel, id: u128, changed: EventInstance)
    requires
        repo.get_event_instance(id).1 is Ok,
    ensures
        repo.get_event_instance(id).0.give_back(
            id,
            Blob::EventInstance(changed),
        ).get_event_instance(id).1 == Ok::<_, RepoRetrievalError>(changed),
{
}

/// Retrieving an event instance as an event body fails with `MismatchedType`
/// and leaves the repository as it is; retrieving it as an instance afterwards
/// yields the instance unchanged.
pub proof fn lemma_instance_is_no_body(repo: RepoModel, id: u128, instance: EventInstance)
    requires
        repo.blobs.contains_key(id),
        repo.blobs[id] == Some(Blob::EventInstance(instance)),
    ensures
        repo.get_event_body(id) == (repo, Err::<EventBody, _>(RepoRetrievalError::MismatchedType)),
        repo.get_event_body(id).0.get_event_instance(id).1 == Ok::<_, RepoRetrievalError>(instance),
{
    assert(repo.blobs.insert(id, repo.blobs[id]) =~= repo.blobs);
}

/// Retrieving an event body as an event instance fails with `MismatchedType`
/// and leaves the repository as it is; retrieving it as a body afterwards
/// yields the body unchanged.
pub proof fn lemma_body_is_no_instance(repo: RepoModel, id: u128, body: EventBody)
    requires
        repo.blobs.contains_key(id),
        repo.blobs[id] == Some(Blob::EventBody(body)),
    ensures
        repo.get_event_instance(id) == (
            repo,
            Err::<EventInstance, _>(RepoRetrievalError::MismatchedType),
        ),
        repo.get_event_instance(id).0.get_event_body(id).1 == Ok::<_, RepoRetrievalError>(body),
{
    assert(repo.blobs.insert(id, repo.blobs[id]) =~= repo.blobs);
}

/// An identifier that the repository has not added is not found, and a new
/// repository has added none.
pub proof fn lemma_unknown_id_is_not_found(repo: RepoModel, id: u128)
    requires
        !repo.blobs.contains_key(id),
    ensures
        repo.get_event_body(id) == (repo, Err::<EventBody, _>(RepoRetrievalError::IdNotFound)),
        repo.get_event_instance(id) == (
            repo,
            Err::<EventInstance, _>(RepoRetrievalError::IdNotFound),
        ),
        !RepoModel::fresh().blobs.contains_key(id),
{
}

/// Slots do not affect each other: what is added, retrieved or returned
/// under one identifier leaves every other identifier as it is.
pub proof fn lemma_slots_are_independent(
    repo: RepoModel,
    id: u128,
    occupant: Option<Blob>,
    other: u128,
)
    requires
        other != id,
    ensures
        repo.with_slot(id, occupant).knows(other) == repo.knows(other),
        repo.knows(other) ==> repo.with_slot(id, occupant).blobs[other] == repo.blobs[other],
        repo.with_slot(id, occupant).get_event_body(other).1 == repo.get_event_body(other).1,
        repo.with_slot(id, occupant).get_event_instance(other).1 == repo.get_event_instance(other).1,
        repo.get_event_body(id).0.get_event_body(other).1 == repo.get_event_body(other).1,
        repo.get_event_instance(id).0.get_event_instance(other).1 == repo.get_event_instance(
            other,
        ).1,
        repo.with_slot(id, occupant).timeline == repo.timeline,
{
}

/// Two listings of the same range of the same index agree at every position
/// that both have.
proof fn lemma_listings_agree_at(
    a: Seq<(TimePoint, EventInstanceId)>,
    b: Seq<(TimePoint, EventInstanceId)>,
    index: Map<i128, EventInstanceId>,
    from: i128,
    to: i128,
    at: int,
)
    requires
        is_range_listing(a, index, from, to),
        is_range_listing(b, index, from, to),
        0 <= at < a.len(),
        at < b.len(),
    ensures
        a[at] == b[at],
    decreases at,
{
    let ka = a[at].0.nanos;
    let kb = b[at].0.nanos;
    if ka < kb {
        assert(index.contains_key(ka));
        let j = choose|j: int| 0 <= j < b.len() && (#[trigger] b[j]).0.nanos == ka;
        if j < at {
            lemma_listings_agree_at(a, b, index, from, to, j);
            assert(a[j].0.nanos < a[at].0.nanos);
        } else if j > at {
            assert(b[at].0.nanos < b[j].0.nanos);
        }
        assert(false);
    } else if kb < ka {
        assert(index.contains_key(kb));
        let j = choose|j: int| 0 <= j < a.len() && (#[trigger] a[j]).0.nanos == kb;
        if j < at {
            lemma_listings_agree_at(a, b, index, from, to, j);
            assert(b[j].0.nanos < b[at].0.nanos);
        } else if j > at {
            assert(a[at].0.nanos < a[j].0.nanos);
        }
        assert(false);
    }
    assert(index.contains_pair(ka, a[at].1));
    assert(index.contains_pair(kb, b[at].1));
}

/// No listing of a range is longer than another of the same range.
proof fn lemma_listing_is_no_longer(
    a: Seq<(TimePoint, EventInstanceId)>,
    b: Seq<(TimePoint, EventInstanceId)>,
    index: Map<i128, EventInstanceId>,
    from: i128,
    to: i128,
)
    requires
        is_range_listing(a, index, from, to),
        is_range_listing(b, index, from, to),
    ensures
        a.len() <= b.len(),
{
    if a.len() > b.len() {
        let at = b.len() as int;
        let k = a[at].0.nanos;
        assert(index.contains_key(k));
        let j = choose|j: int| 0 <= j < b.len() && (#[trigger] b[j]).0.nanos == k;
        lemma_listings_agree_at(a, b, index, from, to, j);
        assert(a[j].0.nanos < a[at].0.nanos);
        assert(false);
    }
}

/// A range of an index has one listing only: what `Timeline::range` returns
/// is determined by the index and the bounds.
pub proof fn lemma_range_listing_is_unique(
    a: Seq<(TimePoint, EventInstanceId)>,
    b: Seq<(TimePoint, EventInstanceId)>,
    index: Map<i128, EventInstanceId>,
    from: i128,
    to: i128,
)
    requires
        is_range_listing(a, index, from, to),
        is_range_listing(b, index, from, to),
    ensures
        a == b,
{
    lemma_listing_is_no_longer(a, b, index, from, to);
    lemma_listing_is_no_longer(b, a, index, from, to);
    assert forall|i: int| 0 <= i < a.len() implies a[i] == b[i] by {
        lemma_listings_agree_at(a, b, index, from, to, i);
    }
    assert(a =~= b);
}

/// A range lists its entries in ascending order of time, each once.
pub proof fn lemma_range_ascends(
    listing: Seq<(TimePoint, EventInstanceId)>,
    index: Map<i128, EventInstanceId>,
    from: i128,
    to: i128,
    i: int,
    j: int,
)
    requires
        is_range_listing(listing, index, from, to),
        0 <= i < j < listing.len(),
    ensures
        listing[i].0@ < listing[j].0@,
{
}

/// With instances recorded at three points in time `t1 < t2 < t3` and at no
/// others, the range from `t1` to `t3` lists the first two, in this order: the
/// upper bound is left out.
pub proof fn lemma_range_of_three(
    listing: Seq<(TimePoint, EventInstanceId)>,
    t1: TimePoint,
    t2: TimePoint,
    t3: TimePoint,
    id1: EventInstanceId,
    id2: EventInstanceId,
    id3: EventInstanceId,
)
    requires
        t1@ < t2@ < t3@,
        is_range_listing(
            listing,
            Map::<i128, EventInstanceId>::empty().insert(t1.nanos, id1).insert(t2.nanos, id2).insert(
                t3.nanos,
                id3,
            ),
            t1.nanos,
            t3.nanos,
        ),
    ensures
        listing == seq![(t1, id1), (t2, id2)],
{
    let index = Map::<i128, EventInstanceId>::empty().insert(t1.nanos, id1).insert(
        t2.nanos,
        id2,
    ).insert(t3.nanos, id3);
    let expected = seq![(t1, id1), (t2, id2)];
    assert(expected[0] == (t1, id1));
    assert(expected[1] == (t2, id2));
    assert(is_range_listing(expected, index, t1.nanos, t3.nanos));
    lemma_range_listing_is_unique(listing, expected, index, t1.nanos, t3.nanos);
}

/// A range whose upper bound is not above its lower bound lists nothing; so
/// does the range from a point in time to itself.
pub proof fn lemma_empty_range(
    listing: Seq<(TimePoint, EventInstanceId)>,
    index: Map<i128, EventInstanceId>,
    from: i128,
    to: i128,
)
    requires
        to <= from,
        is_range_listing(listing, index, from, to),
    ensures
        listing.len() == 0,
{
    if listing.len() > 0 {
        assert(from <= listing[0].0.nanos < to);
    }
}

/// Two instances recorded at the same point in time collide: a range that
/// covers the point lists the instance recorded last there, and no range lists
/// the other at that point.
pub proof fn lemma_collision_keeps_the_latest(
    listing: Seq<(TimePoint, EventInstanceId)>,
    index: Map<i128, EventInstanceId>,
    time: TimePoint,
    first: EventInstanceId,
    second: EventInstanceId,
    from: i128,
    to: i128,
)
    requires
        is_range_listing(
            listing,
            index.insert(time.nanos, first).insert(time.nanos, second),
            from,
            to,
        ),
    ensures
        forall|i: int|
            0 <= i < listing.len() && (#[trigger] listing[i]).0 == time ==> listing[i].1 == second,
        from <= time.nanos < to ==> listing.contains((time, second)),
{
    let recorded = index.insert(time.nanos, first).insert(time.nanos, second);
    assert forall|i: int| 0 <= i < listing.len() && (#[trigger] listing[i]).0 == time implies listing[i].1
        == second by {
        assert(recorded.contains_pair(listing[i].0.nanos, listing[i].1));
    }
    if from <= time.nanos < to {
        assert(recorded.contains_key(time.nanos));
        let i = choose|i: int| 0 <= i < listing.len() && (#[trigger] listing[i]).0.nanos == time.nanos;
        assert(recorded.contains_pair(listing[i].0.nanos, listing[i].1));
        assert(listing[i] == (time, second));
    }
}

/// What the timeline holds has no bearing on the entities: an instance that
/// the timeline no longer lists is retrieved by its identifier as before.
pub proof fn lemma_timeline_leaves_entities_alone(
    repo: RepoModel,
    timeline: Option<Map<i128, EventInstanceId>>,
    id: u128,
)
    ensures
        repo.with_timeline(timeline).get_event_instance(id).1 == repo.get_event_instance(id).1,
        repo.with_timeline(timeline).get_event_body(id).1 == repo.get_event_body(id).1,
        repo.with_timeline(timeline).blobs == repo.blobs,
{
}

/// An interval ends at its start plus its duration, and that end is not part
/// of it. A valid span does not end before it starts.
pub proof fn lemma_interval_is_half_open(span: TimeSpan)
    ensures
        span matches TimeSpan::Interval { start, duration } ==> {
            &&& span.latest_spec() == start@ + duration@
            &&& !span.contains_spec(span.latest_spec())
            &&& duration@ > 0 ==> span.contains_spec(span.earliest_spec())
        },
        span.valid() ==> span.earliest_spec() <= span.latest_spec(),
{
}

/// Whatever points in time the ends of a written time span mean, the span
/// that is put together from them is valid: it does not end before it starts.
pub proof fn lemma_assembled_span_is_valid(
    lexed: LexedTimeSpan,
    start: Option<TimePoint>,
    end: Option<TimePoint>,
)
    ensures
        time_span_from(lexed, start, end) matches Some(span) ==> span.valid()
            && span.earliest_spec() <= span.latest_spec(),
{
}

/// After an event was added and both its entities were returned, its body is
/// retrieved under the body's identifier and its instance under the
/// instance's, and the timeline maps the start of the event to the instance.
pub proof fn lemma_added_event_is_found(
    repo: RepoModel,
    body_id: u128,
    instance_id: u128,
    body: EventBody,
    instance: EventInstance,
)
    requires
        repo.timeline is Some,
        body_id != instance_id,
    ensures
        ({
            let settled = repo.add_event(
                body_id,
                instance_id,
                instance.time_span.earliest_spec() as i128,
            ).give_back(body_id, Blob::EventBody(body)).give_back(
                instance_id,
                Blob::EventInstance(instance),
            );
            &&& settled.get_event_body(body_id).1 == Ok::<_, RepoRetrievalError>(body)
            &&& settled.get_event_instance(instance_id).1 == Ok::<_, RepoRetrievalError>(instance)
            &&& settled.timeline matches Some(index) && index.contains_pair(
                instance.time_span.earliest_spec() as i128,
                instance_id,
            )
        }),
{
}

} // verus!
