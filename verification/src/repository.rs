//! The interface of a repository of events, and its mathematical model.
//!
//! A repository lends its entities out. Retrieving an entity empties its slot
//! and yields a [`RepoRef`] that owns the entity until it is returned; while
//! it is out, retrieving it again fails.

use vstd::prelude::*;

use crate::domain::{EventBody, EventBodyId, EventInstance, EventInstanceId, Timeline};
use crate::slot::{checkout_body_spec, checkout_instance_spec, Blob, SlotError};

pub mod memory_repo;

verus! {

/// Why an entity could not be retrieved from a repository.
#[derive(Clone, Copy, Debug, PartialEq, Eq, Structural)]
pub enum RepoRetrievalError {
    /// The item associated with the ID has already been retrieved. Either use
    /// the existing retrieval or release it back to the repo before retrieving
    /// it again.
    AlreadyRetrieved,
    /// The item associated with the ID could not be found.
    IdNotFound,
    /// The item associated with the ID is of a different type than expected.
    MismatchedType,
}

/// The slot that a retrieved entity came from and goes back to.
#[derive(Clone, Copy, Debug, PartialEq, Eq, Structural)]
pub enum Home {
    /// The slot of the timeline.
    Timeline,
    /// The slot of the entity with this identifier.
    Blob(u128),
}

/// An entity that is out of its slot. The holder has it to itself, may read
/// and change it, and returns it to the repository when done. Its view is the
/// entity it holds together with the slot that it belongs to.
#[derive(Debug)]
pub struct RepoRef<T> {
    data: T,
    home: Home,
}

/// What a `RepoRef` stands for: the entity that is out, and its slot.
pub struct RepoRefView<T> {
    pub data: T,
    pub home: Home,
}

impl<T> View for RepoRef<T> {
    type V = RepoRefView<T>;

    closed spec fn view(&self) -> RepoRefView<T> {
        RepoRefView { data: self.data, home: self.home }
    }
}

impl<T> RepoRef<T> {
    /// Takes `data` as the entity that is out of the slot `home`.
    pub(crate) fn lend(data: T, home: Home) -> (r: RepoRef<T>)
        ensures
            r@ == (RepoRefView { data, home }),
    {
        RepoRef { data, home }
    }

    /// Gives up the entity and the slot it belongs to.
    pub(crate) fn into_parts(self) -> (parts: (T, Home))
        ensures
            parts.0 == self@.data,
            parts.1 == self@.home,
    {
        (self.data, self.home)
    }

    /// The slot that the entity belongs to.
    pub fn home_slot(&self) -> (home: Home)
        ensures
            home == self@.home,
    {
        self.home
    }

    /// Read access to the entity.
    pub fn deref(&self) -> (data: &T)
        ensures
            *data == self@.data,
    {
        &self.data
    }

    /// Write access to the entity. The slot it belongs to stays the same.
    pub fn deref_mut(&mut self) -> (data: &mut T)
        ensures
            *data == old(self)@.data,
            final(self)@ == (RepoRefView { data: *final(data), home: old(self)@.home }),
    {
        &mut self.data
    }
}

/// The error that a repository reports for a failed checkout from a slot.
pub open spec fn retrieval_error(e: SlotError) -> RepoRetrievalError {
    match e {
        SlotError::AlreadyCheckedOut => RepoRetrievalError::AlreadyRetrieved,
        SlotError::WrongType => RepoRetrievalError::MismatchedType,
    }
}

/// What a repository holds: the timeline, unless it is out, and for each
/// known identifier the entity that lies in its slot, unless that is out.
pub struct RepoModel {
    pub timeline: Option<Map<i128, EventInstanceId>>,
    pub blobs: Map<u128, Option<Blob>>,
}

impl RepoModel {
    /// A repository without entities, whose timeline is empty and in place.
    pub open spec fn fresh() -> RepoModel {
        RepoModel { timeline: Some(Map::empty()), blobs: Map::empty() }
    }

    /// The repository with the slot of `id` holding `occupant`.
    pub open spec fn with_slot(self, id: u128, occupant: Option<Blob>) -> RepoModel {
        RepoModel { timeline: self.timeline, blobs: self.blobs.insert(id, occupant) }
    }

    /// The repository with `timeline` in the timeline's slot.
    pub open spec fn with_timeline(self, timeline: Option<Map<i128, EventInstanceId>>) -> RepoModel {
        RepoModel { timeline, blobs: self.blobs }
    }

    /// Whether an entity was added under `id`.
    pub open spec fn knows(self, id: u128) -> bool {
        self.blobs.contains_key(id)
    }

    /// Whether `id` is known and its entity is out.
    pub open spec fn vacant_at(self, id: u128) -> bool {
        self.knows(id) && self.blobs[id] is None
    }

    /// Whether an entity that belongs to `home` can be returned: the slot
    /// exists and is vacant.
    pub open spec fn awaits(self, home: Home) -> bool {
        match home {
            Home::Timeline => self.timeline is None,
            Home::Blob(id) => self.vacant_at(id),
        }
    }

    /// Retrieving the timeline: the repository afterwards, and the timeline
    /// unless it is out already.
    pub open spec fn get_timeline(self) -> (RepoModel, Option<Map<i128, EventInstanceId>>) {
        (self.with_timeline(None), self.timeline)
    }

    /// Retrieving the event body `id`: the repository afterwards, and the
    /// outcome. Only a successful retrieval changes the repository.
    pub open spec fn get_event_body(self, id: EventBodyId) -> (
        RepoModel,
        Result<EventBody, RepoRetrievalError>,
    ) {
        if !self.knows(id) {
            (self, Err(RepoRetrievalError::IdNotFound))
        } else {
            let (occupant, outcome) = checkout_body_spec(self.blobs[id]);
            (
                self.with_slot(id, occupant),
                match outcome {
                    Ok(body) => Ok(body),
                    Err(e) => Err(retrieval_error(e)),
                },
            )
        }
    }

    /// Retrieving the event instance `id`: the repository afterwards, and the
    /// outcome. Only a successful retrieval changes the repository.
    pub open spec fn get_event_instance(self, id: EventInstanceId) -> (
        RepoModel,
        Result<EventInstance, RepoRetrievalError>,
    ) {
        if !self.knows(id) {
            (self, Err(RepoRetrievalError::IdNotFound))
        } else {
            let (occupant, outcome) = checkout_instance_spec(self.blobs[id]);
            (
                self.with_slot(id, occupant),
                match outcome {
                    Ok(instance) => Ok(instance),
                    Err(e) => Err(retrieval_error(e)),
                },
            )
        }
    }

    /// Adding an entity under `id`: its slot exists and the entity is out,
    /// with whoever added it.
    pub open spec fn add(self, id: u128) -> RepoModel {
        self.with_slot(id, None)
    }

    /// Returning `blob` to the slot of `id`.
    pub open spec fn give_back(self, id: u128, blob: Blob) -> RepoModel {
        self.with_slot(id, Some(blob))
    }
}

/// A backing store that lends out event data and takes it back.
pub trait Repository {
    /// What the repository holds.
    spec fn model(&self) -> RepoModel;

    /// Retrieves the timeline, unless it is out already.
    fn get_timeline(&mut self) -> (r: Option<RepoRef<Timeline>>)
        ensures
            final(self).model() == old(self).model().get_timeline().0,
            match old(self).model().get_timeline().1 {
                Some(index) => {
                    &&& r matches Some(handle)
                    &&& handle@.data@ == index
                    &&& handle@.home == Home::Timeline
                },
                None => r is None,
            },
    ;

    /// Retrieves the data of an event instance given its ID.
    fn get_event_instance(&mut self, id: EventInstanceId) -> (r: Result<
        RepoRef<EventInstance>,
        RepoRetrievalError,
    >)
        ensures
            final(self).model() == old(self).model().get_event_instance(id).0,
            match old(self).model().get_event_instance(id).1 {
                Ok(instance) => {
                    &&& r matches Ok(handle)
                    &&& handle@.data == instance
                    &&& handle@.home == Home::Blob(id)
                },
                Err(e) => r matches Err(reported) && reported == e,
            },
    ;

    /// Adds a new event instance to the repository under an identifier that
    /// was not known before. Returns the identifier and the instance, which
    /// is out from the start.
    fn add_event_instance(&mut self, instance: EventInstance) -> (r: (
        EventInstanceId,
        RepoRef<EventInstance>,
    ))
        ensures
            !old(self).model().knows(r.0),
            final(self).model() == old(self).model().add(r.0),
            r.1@.data == instance,
            r.1@.home == Home::Blob(r.0),
    ;

    /// Retrieves the data of an event body given its ID.
    fn get_event_body(&mut self, id: EventBodyId) -> (r: Result<
        RepoRef<EventBody>,
        RepoRetrievalError,
    >)
        ensures
            final(self).model() == old(self).model().get_event_body(id).0,
            match old(self).model().get_event_body(id).1 {
                Ok(body) => {
                    &&& r matches Ok(handle)
                    &&& handle@.data == body
                    &&& handle@.home == Home::Blob(id)
                },
                Err(e) => r matches Err(reported) && reported == e,
            },
    ;

    /// Adds a new event body to the repository under an identifier that was
    /// not known before. Returns the identifier and the body, which is out
    /// from the start.
    fn add_event_body(&mut self, body: EventBody) -> (r: (EventBodyId, RepoRef<EventBody>))
        ensures
            !old(self).model().knows(r.0),
            final(self).model() == old(self).model().add(r.0),
            r.1@.data == body,
            r.1@.home == Home::Blob(r.0),
    ;

    /// Tells whether an entity that belongs to `home` can be returned now.
    fn awaits(&self, home: Home) -> (b: bool)
        ensures
            b == self.model().awaits(home),
    ;

    /// Returns the timeline to its slot, which must be vacant.
    fn return_timeline(&mut self, timeline: RepoRef<Timeline>)
        requires
            old(self).model().timeline is None,
        ensures
            final(self).model() == old(self).model().with_timeline(Some(timeline@.data@)),
    ;

    /// Returns an event instance to its slot, which must exist and be vacant.
    fn return_event_instance(&mut self, instance: RepoRef<EventInstance>)
        requires
            instance@.home matches Home::Blob(id) && old(self).model().vacant_at(id),
        ensures
            instance@.home matches Home::Blob(id) && final(self).model() == old(
                self,
            ).model().give_back(id, Blob::EventInstance(instance@.data)),
    ;

    /// Returns an event body to its slot, which must exist and be vacant.
    fn return_event_body(&mut self, body: RepoRef<EventBody>)
        requires
            body@.home matches Home::Blob(id) && old(self).model().vacant_at(id),
        ensures
            body@.home matches Home::Blob(id) && final(self).model() == old(
                self,
            ).model().give_back(id, Blob::EventBody(body@.data)),
    ;
}

} // verus!
