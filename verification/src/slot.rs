//! Storage cells with exclusive checkout.
//!
//! A slot holds at most one value. Checking the value out leaves the slot
//! vacant until the value is put back, so a second checkout in between fails
//! at once instead of waiting.
//!
//! A slot is plain data without a lock of its own: whoever changes it holds
//! it by `&mut`, which is exclusive already. A store that is to be shared
//! between threads goes behind one lock as a whole.

use vstd::prelude::*;

use crate::domain::{EventBody, EventInstance};

verus! {

/// Why a checkout from a slot failed.
#[derive(Clone, Copy, Debug, PartialEq, Eq, Structural)]
pub enum SlotError {
    /// The slot holds no value: it is checked out, or was never filled.
    AlreadyCheckedOut,
    /// The slot holds a value of another kind than the one asked for.
    WrongType,
}

/// An entity as it lies in a slot of the store, tagged with its kind.
#[derive(Clone, Debug, PartialEq, Eq)]
pub enum Blob {
    EventInstance(EventInstance),
    EventBody(EventBody),
}

/// A cell that holds a value or is vacant. Its view is what it holds.
#[derive(Debug)]
pub struct Slot<S> {
    occupant: Option<S>,
}

impl<S> View for Slot<S> {
    type V = Option<S>;

    closed spec fn view(&self) -> Option<S> {
        self.occupant
    }
}

/// What checking an event body out of a slot that holds `occupant` leaves in
/// the slot, and what it returns. A value of the wrong kind stays where it is.
pub open spec fn checkout_body_spec(occupant: Option<Blob>) -> (
    Option<Blob>,
    Result<EventBody, SlotError>,
) {
    match occupant {
        None => (None, Err(SlotError::AlreadyCheckedOut)),
        Some(Blob::EventBody(body)) => (None, Ok(body)),
        Some(other) => (Some(other), Err(SlotError::WrongType)),
    }
}

/// What checking an event instance out of a slot that holds `occupant` leaves
/// in the slot, and what it returns. A value of the wrong kind stays where it
/// is.
pub open spec fn checkout_instance_spec(occupant: Option<Blob>) -> (
    Option<Blob>,
    Result<EventInstance, SlotError>,
) {
    match occupant {
        None => (None, Err(SlotError::AlreadyCheckedOut)),
        Some(Blob::EventInstance(instance)) => (None, Ok(instance)),
        Some(other) => (Some(other), Err(SlotError::WrongType)),
    }
}

impl<S> Slot<S> {
    /// A slot seeded with `value`.
    pub fn fill(value: S) -> (slot: Slot<S>)
        ensures
            slot@ == Some(value),
    {
        Slot { occupant: Some(value) }
    }

    /// A slot whose value is out from the start.
    pub fn vacant() -> (slot: Slot<S>)
        ensures
            slot@ is None,
    {
        Slot { occupant: None }
    }

    /// Tells whether the slot holds no value.
    pub fn is_vacant(&self) -> (b: bool)
        ensures
            b == (self@ is None),
    {
        self.occupant.is_none()
    }

    /// Looks at the value without taking it; `None` while it is out.
    pub fn peek(&self) -> (r: Option<&S>)
        ensures
            r is Some == self@ is Some,
            r matches Some(value) ==> self@ == Some(*value),
    {
        self.occupant.as_ref()
    }

    /// Takes the value out, leaving the slot vacant. Fails on a vacant slot.
    pub fn checkout(&mut self) -> (r: Result<S, SlotError>)
        ensures
            final(self)@ is None,
            match old(self)@ {
                Some(value) => r == Ok::<S, SlotError>(value),
                None => r == Err::<S, SlotError>(SlotError::AlreadyCheckedOut),
            },
    {
        match self.occupant.take() {
            Some(value) => Ok(value),
            None => Err(SlotError::AlreadyCheckedOut),
        }
    }

    /// Puts a value back into the vacant slot.
    pub fn give_back(&mut self, value: S)
        requires
            old(self)@ is None,
        ensures
            final(self)@ == Some(value),
    {
        self.occupant = Some(value);
    }
}

impl Slot<Blob> {
    /// Takes the event body out of the slot. Fails on a vacant slot, and on
    /// one that holds something else, which then stays in the slot.
    pub fn checkout_body(&mut self) -> (r: Result<EventBody, SlotError>)
        ensures
            (final(self)@, r) == checkout_body_spec(old(self)@),
    {
        match self.occupant.take() {
            None => Err(SlotError::AlreadyCheckedOut),
            Some(Blob::EventBody(body)) => Ok(body),
            Some(other) => {
                self.occupant = Some(other);
                Err(SlotError::WrongType)
            },
        }
    }

    /// Takes the event instance out of the slot. Fails on a vacant slot, and
    /// on one that holds something else, which then stays in the slot.
    pub fn checkout_instance(&mut self) -> (r: Result<EventInstance, SlotError>)
        ensures
            (final(self)@, r) == checkout_instance_spec(old(self)@),
    {
        match self.occupant.take() {
            None => Err(SlotError::AlreadyCheckedOut),
            Some(Blob::EventInstance(instance)) => Ok(instance),
            Some(other) => {
                self.occupant = Some(other);
                Err(SlotError::WrongType)
            },
        }
    }
}

} // verus!
