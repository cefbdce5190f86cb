//! The memory that the two sides of a channel share.
use crate::calls::{Call, Cells, Exchanged, Offered, Pass, Slot, StateWord, WakerSlot};
use crate::model::Memory;
use crate::word::{word, zero_is_initial};
use std::sync::Arc;
use std::task::Waker;
use vstd::prelude::*;

verus! {

/// The memory that the two sides share.
#[verifier::reject_recursive_types(T)]
pub struct OneShotInner<T> {
    cells: Cells<T>,
}

/// The records of dropping what a channel holds.
#[verifier::reject_recursive_types(T)]
pub struct Released<T> {
    pub value: Exchanged<T>,
    pub o_waker: Offered,
    pub tx_waker: Offered,
}

impl<T> Released<T> {
    /// The three slots of this memory were emptied.
    pub open spec fn empties(self, memory: OneShotInner<T>) -> bool {
        &&& self.value.of() == memory.value_slot()
        &&& self.value.put() is None
        &&& self.o_waker.of() == memory.rx_slot()
        &&& self.o_waker.put() is None
        &&& self.tx_waker.of() == memory.tx_slot()
        &&& self.tx_waker.put() is None
    }
}

/// The waker that a slot's content stands for.
pub open spec fn waker_in(held: Option<Arc<Waker>>) -> Option<Waker> {
    match held {
        Some(waker) => Some(*waker),
        None => None,
    }
}

impl<T> OneShotInner<T> {
    /// The word and the slots.
    pub closed spec fn cells(&self) -> Cells<T> {
        self.cells
    }

    /// The word of flags.
    pub open spec fn state_word(&self) -> StateWord {
        self.cells().state_word()
    }

    /// The slot of the item.
    pub open spec fn value_slot(&self) -> Slot<T> {
        self.cells().value_slot()
    }

    /// The slot of the receiver's waker.
    pub open spec fn rx_slot(&self) -> WakerSlot {
        self.cells().rx_slot()
    }

    /// The slot of the sender's waker.
    pub open spec fn tx_slot(&self) -> WakerSlot {
        self.cells().tx_slot()
    }

    /// What the memory was to begin with.
    pub open spec fn first(&self) -> Memory<T, Waker> {
        Memory {
            word: word(self.state_word().first()),
            value: self.value_slot().first(),
            rx_waker: waker_in(self.rx_slot().first()),
            tx_waker: waker_in(self.tx_slot().first()),
            live: true,
            rx_wakes: Seq::empty(),
            tx_wakes: Seq::empty(),
        }
    }

    /// The memory of a new channel, and the passes for its sender and its receiver.
    pub(crate) fn new() -> (r: (Self, Pass<T>, Pass<T>))
        ensures
            r.0.first() == Memory::<T, Waker>::initial(),
            r.1.of() == Some(r.0.cells()),
            r.1.log() == Seq::<Call<T>>::empty(),
            r.2.of() == Some(r.0.cells()),
            r.2.log() == Seq::<Call<T>>::empty(),
    {
        proof {
            zero_is_initial();
        }
        let (cells, tx, rx) = Cells::new();
        (OneShotInner { cells }, tx, rx)
    }

    pub(crate) fn state(&self) -> (r: &StateWord)
        ensures
            *r == self.state_word(),
    {
        self.cells.word()
    }

    pub(crate) fn value(&self) -> (r: &Slot<T>)
        ensures
            *r == self.value_slot(),
    {
        self.cells.value()
    }

    pub(crate) fn o_waker(&self) -> (r: &WakerSlot)
        ensures
            *r == self.rx_slot(),
    {
        self.cells.o_waker()
    }

    pub(crate) fn tx_waker(&self) -> (r: &WakerSlot)
        ensures
            *r == self.tx_slot(),
    {
        self.cells.tx_waker()
    }

    /// The calls of dropping what the channel holds, in whose slot for the item this was found:
    /// each slot is emptied.
    pub open spec fn releasing_calls(&self, found: Option<T>) -> Seq<Call<T>> {
        seq![
            Call::Value { of: self.value_slot(), put: None, found },
            Call::Offer { of: self.rx_slot(), put: None },
            Call::Offer { of: self.tx_slot(), put: None },
        ]
    }

    /// Drops what the channel holds.
    pub(crate) fn release(&self, pass: &mut Pass<T>) -> (r: Released<T>)
        requires
            old(pass).of() == Some(self.cells()),
        ensures
            r.empties(*self),
            final(pass).of() == old(pass).of(),
            final(pass).log() == old(pass).log() + self.releasing_calls(r.value.found()),
    {
        let (_value, value) = self.cells.value().replace(pass, None);
        let o_waker = self.cells.o_waker().replace(pass, None);
        let tx_waker = self.cells.tx_waker().replace(pass, None);
        Released { value, o_waker, tx_waker }
    }
}

} // verus!
