//! A repository that keeps everything in memory.

use std::collections::HashMap;
use vstd::prelude::*;
use vstd::std_specs::iter::IteratorSpec;

use crate::domain::{EventBody, EventBodyId, EventInstance, EventInstanceId, Timeline};
use crate::repository::{Home, RepoModel, RepoRef, RepoRetrievalError, Repository};
use crate::slot::{Blob, Slot, SlotError};

verus! {

/// An in-memory repository: one slot for the timeline, and one slot per
/// identifier for event bodies and event instances.
#[derive(Debug)]
pub struct MemoryRepo {
    timeline: Slot<Timeline>,
    blobs: HashMap<u128, Slot<Blob>>,
}

/// Mints an identifier with `uuid::Uuid::new_v4`, taken as its 128 bits. The
/// identifier is random: nothing is claimed of it.
#[verifier::external_body]
fn mint_id() -> u128 {
    uuid::Uuid::new_v4().as_u128()
}

impl MemoryRepo {
    /// What the slots of the entities hold.
    pub closed spec fn blob_slots(&self) -> Map<u128, Option<Blob>> {
        Map::new(|id: u128| self.blobs@.contains_key(id), |id: u128| self.blobs@[id]@)
    }

    /// What the slot of the timeline holds.
    pub closed spec fn timeline_slot(&self) -> Option<Map<i128, EventInstanceId>> {
        match self.timeline@ {
            Some(timeline) => Some(timeline@),
            None => None,
        }
    }

    /// A repository without entities, whose timeline is empty and in place.
    pub fn new() -> (repo: MemoryRepo)
        ensures
            repo.model() == RepoModel::fresh(),
    {
        let repo = MemoryRepo { timeline: Slot::fill(Timeline::new()), blobs: HashMap::new() };
        assert(repo.blob_slots() =~= Map::empty());
        repo
    }

    /// The identifiers under which entities were added, each once, in no
    /// particular order.
    pub fn ids(&self) -> (ids: Vec<u128>)
        ensures
            ids@.no_duplicates(),
            ids@.to_set() == self.model().blobs.dom(),
    {
        let mut ids: Vec<u128> = Vec::new();
        let keys = self.blobs.keys();
        let ghost all = keys.remaining();
        for id in it: keys
            invariant
                it.seq() == all,
                ids@.len() == it.index(),
                forall|i: int| 0 <= i < ids@.len() ==> ids@[i] == *it.seq()[i],
        {
            ids.push(*id);
        }
        assert(ids@ =~= all.unref());
        assert(self.blobs@.dom() =~= self.model().blobs.dom());
        ids
    }

    /// Looks at the timeline without retrieving it; `None` while it is out.
    pub fn inspect_timeline(&self) -> (r: Option<&Timeline>)
        ensures
            match self.model().timeline {
                Some(index) => r matches Some(timeline) && timeline@ == index,
                None => r is None,
            },
    {
        self.timeline.peek()
    }

    /// Looks at the entity `id` without retrieving it: `None` where `id` is
    /// unknown, `Some(None)` while the entity is out.
    pub fn inspect(&self, id: u128) -> (r: Option<Option<&Blob>>)
        ensures
            r is Some == self.model().blobs.contains_key(id),
            r matches Some(found) ==> match self.model().blobs[id] {
                Some(blob) => found matches Some(seen) && *seen == blob,
                None => found is None,
            },
    {
        match self.blobs.get(&id) {
            Some(slot) => Some(slot.peek()),
            None => None,
        }
    }

    /// Creates the slot of `id`, vacant.
    fn open_slot(&mut self, id: u128)
        requires
            !old(self).model().knows(id),
        ensures
            final(self).model() == old(self).model().add(id),
    {
        let _ = self.blobs.insert(id, Slot::vacant());
        assert(self.blob_slots() =~= old(self).blob_slots().insert(id, None));
    }

    /// Puts `blob` into the slot of `id`, which must exist and be vacant.
    fn settle(&mut self, id: u128, blob: Blob)
        requires
            old(self).model().vacant_at(id),
        ensures
            final(self).model() == old(self).model().give_back(id, blob),
    {
        let _ = self.blobs.insert(id, Slot::fill(blob));
        assert(self.blob_slots() =~= old(self).blob_slots().insert(id, Some(blob)));
    }

    /// Adds `body` under the identifier `id`, unless `id` is known already:
    /// then nothing changes and `body` comes back. The body is out from the
    /// start.
    pub fn add_event_body_with_id(&mut self, id: EventBodyId, body: EventBody) -> (r: Result<
        RepoRef<EventBody>,
        EventBody,
    >)
        ensures
            match r {
                Ok(handle) => {
                    &&& !old(self).model().knows(id)
                    &&& final(self).model() == old(self).model().add(id)
                    &&& handle@.data == body
                    &&& handle@.home == Home::Blob(id)
                },
                Err(given) => {
                    &&& old(self).model().knows(id)
                    &&& final(self).model() == old(self).model()
                    &&& given == body
                },
            },
    {
        if self.blobs.contains_key(&id) {
            Err(body)
        } else {
            self.open_slot(id);
            Ok(RepoRef::lend(body, Home::Blob(id)))
        }
    }

    /// Adds `instance` under the identifier `id`, unless `id` is known
    /// already: then nothing changes and `instance` comes back. The instance
    /// is out from the start.
    pub fn add_event_instance_with_id(&mut self, id: EventInstanceId, instance: EventInstance) -> (r:
        Result<RepoRef<EventInstance>, EventInstance>)
        ensures
            match r {
                Ok(handle) => {
                    &&& !old(self).model().knows(id)
                    &&& final(self).model() == old(self).model().add(id)
                    &&& handle@.data == instance
                    &&& handle@.home == Home::Blob(id)
                },
                Err(given) => {
                    &&& old(self).model().knows(id)
                    &&& final(self).model() == old(self).model()
                    &&& given == instance
                },
            },
    {
        if self.blobs.contains_key(&id) {
            Err(instance)
        } else {
            self.open_slot(id);
            Ok(RepoRef::lend(instance, Home::Blob(id)))
        }
    }

    /// The first identifier from `first` on that is not known yet, counting on
    /// from the greatest identifier to zero.
    pub fn first_unknown_from(&self, first: u128) -> (id: u128)
        ensures
            !self.model().knows(id),
            forall|known: u128|
                steps_from(first, known) < steps_from(first, id) ==> self.model().knows(known),
    {
        let size: usize = self.blobs.len();
        let mut candidate = first;
        let mut tries: usize = 0;
        let ghost mut tried: Set<u128> = Set::empty();
        while self.blobs.contains_key(&candidate)
            invariant
                tried.finite(),
                tried.len() == tries,
                tried.subset_of(self.blobs@.dom()),
                self.blobs@.dom().len() == size,
                steps_from(first, candidate) == tries,
                forall|id: u128| tried.contains(id) <==> steps_from(first, id) < tries,
            decreases self.blobs@.dom().len() - tries,
        {
            proof {
                tried = tried.insert(candidate);
                vstd::set_lib::lemma_len_subset(tried, self.blobs@.dom());
            }
            tries = tries + 1;
            candidate = if candidate == u128::MAX {
                0
            } else {
                candidate + 1
            };
        }
        candidate
    }

    /// An identifier that is not known yet: a newly minted one or, should
    /// that be known already, the first unknown one from it on.
    fn fresh_id(&self) -> (id: u128)
        ensures
            !self.model().knows(id),
    {
        self.first_unknown_from(mint_id())
    }
}

/// How many steps lead from the identifier `first` to `id`, counting on from
/// the greatest identifier to zero.
pub open spec fn steps_from(first: u128, id: u128) -> int {
    if id >= first {
        id - first
    } else {
        id + u128::MAX + 1 - first
    }
}

impl Default for MemoryRepo {
    /// A repository without entities, whose timeline is empty and in place.
    fn default() -> (repo: MemoryRepo)
        ensures
            repo.model() == RepoModel::fresh(),
    {
        MemoryRepo::new()
    }
}

impl Repository for MemoryRepo {
    closed spec fn model(&self) -> RepoModel {
        RepoModel { timeline: self.timeline_slot(), blobs: self.blob_slots() }
    }

    fn get_timeline(&mut self) -> (r: Option<RepoRef<Timeline>>) {
        match self.timeline.checkout() {
            Ok(timeline) => Some(RepoRef::lend(timeline, Home::Timeline)),
            Err(_) => None,
        }
    }

    fn get_event_instance(&mut self, id: EventInstanceId) -> (r: Result<
        RepoRef<EventInstance>,
        RepoRetrievalError,
    >) {
        match self.blobs.remove(&id) {
            None => {
                assert(self.blob_slots() =~= old(self).blob_slots());
                Err(RepoRetrievalError::IdNotFound)
            },
            Some(slot) => {
                let mut slot = slot;
                let outcome = slot.checkout_instance();
                let _ = self.blobs.insert(id, slot);
                assert(self.blob_slots() =~= old(self).blob_slots().insert(id, slot@));
                match outcome {
                    Ok(instance) => Ok(RepoRef::lend(instance, Home::Blob(id))),
                    Err(SlotError::AlreadyCheckedOut) => Err(RepoRetrievalError::AlreadyRetrieved),
                    Err(SlotError::WrongType) => Err(RepoRetrievalError::MismatchedType),
                }
            },
        }
    }

    fn add_event_instance(&mut self, instance: EventInstance) -> (r: (
        EventInstanceId,
        RepoRef<EventInstance>,
    )) {
        let id = self.fresh_id();
        self.open_slot(id);
        (id, RepoRef::lend(instance, Home::Blob(id)))
    }

    fn get_event_body(&mut self, id: EventBodyId) -> (r: Result<
        RepoRef<EventBody>,
        RepoRetrievalError,
    >) {
        match self.blobs.remove(&id) {
            None => {
                assert(self.blob_slots() =~= old(self).blob_slots());
                Err(RepoRetrievalError::IdNotFound)
            },
            Some(slot) => {
                let mut slot = slot;
                let outcome = slot.checkout_body();
                let _ = self.blobs.insert(id, slot);
                assert(self.blob_slots() =~= old(self).blob_slots().insert(id, slot@));
                match outcome {
                    Ok(body) => Ok(RepoRef::lend(body, Home::Blob(id))),
                    Err(SlotError::AlreadyCheckedOut) => Err(RepoRetrievalError::AlreadyRetrieved),
                    Err(SlotError::WrongType) => Err(RepoRetrievalError::MismatchedType),
                }
            },
        }
    }

    fn add_event_body(&mut self, body: EventBody) -> (r: (EventBodyId, RepoRef<EventBody>)) {
        let id = self.fresh_id();
        self.open_slot(id);
        (id, RepoRef::lend(body, Home::Blob(id)))
    }

    fn awaits(&self, home: Home) -> (b: bool) {
        match home {
            Home::Timeline => self.timeline.is_vacant(),
            Home::Blob(id) => match self.blobs.get(&id) {
                Some(slot) => slot.is_vacant(),
                None => false,
            },
        }
    }

    fn return_timeline(&mut self, timeline: RepoRef<Timeline>) {
        let (data, _) = timeline.into_parts();
        self.timeline.give_back(data);
    }

    fn return_event_instance(&mut self, instance: RepoRef<EventInstance>) {
        let (data, home) = instance.into_parts();
        match home {
            Home::Blob(id) => self.settle(id, Blob::EventInstance(data)),
            Home::Timeline => {},
        }
    }

    fn return_event_body(&mut self, body: RepoRef<EventBody>) {
        let (data, home) = body.into_parts();
        match home {
            Home::Blob(id) => self.settle(id, Blob::EventBody(data)),
            Home::Timeline => {},
        }
    }
}

} // verus!
