use std::sync::{Arc, Mutex};
use vstd::prelude::*;

verus! {

#[verifier::external_type_specification]
#[verifier::external_body]
#[verifier::reject_recursive_types(T)]
pub struct ExMutex<T: ?Sized>(Mutex<T>);

/// What one non-blocking look at a cell showed.
pub enum CellRead<T> {
    /// The guard was held by the writer: nothing was read.
    Busy,
    /// The cell was free and has not been written.
    Empty,
    /// The cell was free and holds this value.
    Ready(T),
}

/// A slot that a background worker writes once and the poller reads
/// without ever waiting.
#[verifier::reject_recursive_types(T)]
pub struct ResultCell<T> {
    slot: Arc<Mutex<Option<T>>>,
}

/// `std::sync::Mutex::new`: a free mutex around the given value. Nothing is
/// claimed of the mutex, which is opaque here.
#[verifier::external_body]
fn mutex_new<T>(value: Option<T>) -> Mutex<Option<T>> {
    Mutex::new(value)
}

/// `std::sync::Mutex::try_lock`: `None` when the guard could not be had at
/// once, else a copy of what the mutex holds. What comes back depends on the
/// other owners of the mutex, so nothing is claimed of it.
#[verifier::external_body]
fn mutex_try_get<T: Clone>(slot: &Mutex<Option<T>>) -> Option<Option<T>> {
    match slot.try_lock() {
        Ok(guard) => Some(guard.clone()),
        Err(_) => None,
    }
}

/// `std::sync::Mutex::lock`, then a store: waits for the guard and puts the
/// value in. `false` when the mutex was poisoned and nothing was stored.
#[verifier::external_body]
fn mutex_put<T>(slot: &Mutex<Option<T>>, value: T) -> bool {
    match slot.lock() {
        Ok(mut guard) => {
            *guard = Some(value);
            true
        },
        Err(_) => false,
    }
}

/// `Arc::clone`: a second pointer to the same allocation.
#[verifier::external_body]
fn arc_share<T>(a: &Arc<T>) -> (r: Arc<T>)
    ensures
        r == *a,
{
    Arc::clone(a)
}

impl<T: Clone> ResultCell<T> {
    /// An empty cell.
    pub fn new() -> Self {
        ResultCell { slot: Arc::new(mutex_new(None)) }
    }

    /// A second owner of the same cell, for the worker that will write it.
    pub fn share(&self) -> (other: Self)
        ensures
            other == *self,
    {
        ResultCell { slot: arc_share(&self.slot) }
    }

    /// The mutex that guards the cell, for a worker that wants to hold the
    /// guard over several steps.
    pub fn slot(&self) -> (slot: Arc<Mutex<Option<T>>>)
        ensures
            slot == self.slot_spec(),
    {
        arc_share(&self.slot)
    }

    /// The mutex that guards the cell.
    pub closed spec fn slot_spec(&self) -> Arc<Mutex<Option<T>>> {
        self.slot
    }

    /// Stores `value`, waiting for the guard if need be. Only workers call
    /// this; the poller never does.
    pub fn write(&self, value: T) -> bool {
        mutex_put(&*self.slot, value)
    }

    /// Looks at the cell without waiting; [`CellRead::from_look`] reads what came back.
    pub fn try_read(&self) -> CellRead<T> {
        CellRead::from_look(mutex_try_get(&*self.slot))
    }
}

impl<T> CellRead<T> {
    /// What a look at a cell showed, where `look` is `None` if the guard
    /// could not be had at once and else what the cell held: a guard that
    /// was held is `Busy`, a free cell that holds nothing is `Empty`, and a
    /// free cell that holds a value is `Ready` with that value.
    pub fn from_look(look: Option<Option<T>>) -> (read: Self)
        ensures
            match look {
                None => read is Busy,
                Some(None) => read is Empty,
                Some(Some(value)) => read == CellRead::Ready(value),
            },
    {
        match look {
            None => CellRead::Busy,
            Some(None) => CellRead::Empty,
            Some(Some(value)) => CellRead::Ready(value),
        }
    }
}

} // verus!
