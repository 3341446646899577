//! An in-memory store for calendar events.
//!
//! Entities live in slots. A caller retrieves an entity from its slot, holds
//! it exclusively through a [`repository::RepoRef`], and returns it when done.
//! A timeline indexes event instances by the point in time at which they
//! start.

use vstd::prelude::*;

pub mod domain;
pub mod laws;
pub mod parse;
pub mod repository;
pub mod slot;
pub mod time;

pub use domain::{EventBody, EventBodyId, EventInstance, EventInstanceId, TimeSpan, Timeline};
pub use repository::memory_repo::MemoryRepo;
pub use repository::{Home, RepoModel, RepoRef, RepoRefView, RepoRetrievalError, Repository};
pub use time::{TimeDelta, TimePoint};

verus! {

/// A newly added event: the identifiers of its instance and of its body, and
/// both entities, which are still out so that the caller may complete them
/// before returning them.
#[derive(Debug)]
pub struct AddedEvent {
    pub instance_id: EventInstanceId,
    pub body_id: EventBodyId,
    pub instance: RepoRef<EventInstance>,
    pub body: RepoRef<EventBody>,
}

impl RepoModel {
    /// The repository after an event was added under the identifiers
    /// `body_id` and `instance_id`: both slots exist with their entities out,
    /// and the timeline, which is in place, maps `start` to the instance.
    pub open spec fn add_event(
        self,
        body_id: EventBodyId,
        instance_id: EventInstanceId,
        start: i128,
    ) -> RepoModel {
        self.add(body_id).add(instance_id).with_timeline(
            Some(self.timeline->0.insert(start, instance_id)),
        )
    }
}

/// Adds an event that takes place at `time_span`: stores its body, then an
/// instance that refers to the body, both under identifiers that were not
/// known before, and records the instance in the timeline at the earliest
/// point of `time_span`. The time span must be valid, and the timeline must
/// be in place.
pub fn add_event<R: Repository>(
    repo: &mut R,
    time_span: TimeSpan,
    title: String,
    description: String,
) -> (added: AddedEvent)
    requires
        time_span.valid(),
        old(repo).model().timeline is Some,
    ensures
        !old(repo).model().knows(added.body_id),
        !old(repo).model().knows(added.instance_id),
        added.body_id != added.instance_id,
        added.body@.data == (EventBody { summary: title, description }),
        added.body@.home == Home::Blob(added.body_id),
        added.instance@.data == (EventInstance { time_span, body: added.body_id }),
        added.instance@.home == Home::Blob(added.instance_id),
        final(repo).model() == old(repo).model().add_event(
            added.body_id,
            added.instance_id,
            time_span.earliest_spec() as i128,
        ),
{
    let (body_id, body) = repo.add_event_body(EventBody { summary: title, description });
    let (instance_id, instance) = repo.add_event_instance(EventInstance { time_span, body: body_id });
    match repo.get_timeline() {
        Some(timeline) => {
            let mut timeline = timeline;
            timeline.deref_mut().record(time_span.earliest(), instance_id);
            repo.return_timeline(timeline);
        },
        None => {},
    }
    AddedEvent { instance_id, body_id, instance, body }
}

} // verus!
