//! What is done with the waker in a slot, and the records of the calls that it takes.
use crate::calls::{
    clone_waker, wake, will_wake, Call, Cloned, Compared, Offered, Pass, Peeked, WakerSlot, Woken,
};
use std::sync::Arc;
use std::task::Waker;
use vstd::prelude::*;

verus! {

/// The records of putting a waker into a slot.
pub struct WakerPut {
    pub cloned: Cloned,
    pub offered: Offered,
}

impl WakerPut {
    /// Into this slot was put a clone of this waker.
    pub open spec fn puts(self, slot: WakerSlot, waker: Waker) -> bool {
        &&& self.cloned.of() == waker
        &&& self.offered.of() == slot
        &&& self.offered.put() == Some(Arc::new(self.cloned.copy()))
    }
}

/// Puts a clone of `waker` into the slot.
pub(crate) fn put_waker<T>(slot: &WakerSlot, pass: &mut Pass<T>, waker: &Waker) -> (r: WakerPut)
    requires
        old(pass).covers(*slot),
    ensures
        r.puts(*slot, *waker),
        final(pass).adds(*old(pass), (Call::Offer { of: *slot, put: r.offered.put() })),
{
    let (copy, cloned) = clone_waker(waker);
    let offered = slot.replace(pass, Some(Arc::new(copy)));
    WakerPut { cloned, offered }
}

/// The records of waking the waker in a slot.
pub struct WakerWoken {
    pub peeked: Peeked,
    pub woken: Option<Woken>,
}

impl WakerWoken {
    /// The waker that this slot held was woken, if it held one.
    pub open spec fn wakes(self, slot: WakerSlot) -> bool {
        &&& self.peeked.of() == slot
        &&& match self.peeked.found() {
            Some(waker) => self.woken matches Some(woken) && woken.of() == *waker,
            None => self.woken is None,
        }
    }
}

/// The calls of waking the waker in a slot that was found to hold this: a look, and the waking of
/// what was seen, if anything.
pub open spec fn waking_calls<T>(slot: WakerSlot, found: Option<Arc<Waker>>) -> Seq<Call<T>> {
    match found {
        Some(waker) => seq![Call::Peek { of: slot, found }, Call::Wake { waker: *waker }],
        None => seq![Call::Peek { of: slot, found }],
    }
}

/// Wakes the waker in the slot. Where it holds none, there is nothing to wake.
pub(crate) fn wake_slot<T>(slot: &WakerSlot, pass: &mut Pass<T>) -> (r: WakerWoken)
    requires
        old(pass).covers(*slot),
    ensures
        r.wakes(*slot),
        final(pass).of() == old(pass).of(),
        final(pass).log() == old(pass).log() + waking_calls(*slot, r.peeked.found()),
{
    let (found, peeked) = slot.peek(pass);
    let woken = match found {
        Some(waker) => Some(wake(&waker, pass)),
        None => None,
    };
    WakerWoken { peeked, woken }
}

/// The records of comparing the waker in a slot with another.
pub struct WakerCompared {
    pub peeked: Peeked,
    pub compared: Option<Compared>,
}

impl WakerCompared {
    /// `same` is what was found of the waker that this slot held, and of `other`: an empty slot
    /// holds none that wakes the same task.
    pub open spec fn tells(self, slot: WakerSlot, other: Waker, same: bool) -> bool {
        &&& self.peeked.of() == slot
        &&& match self.peeked.found() {
            Some(waker) => self.compared matches Some(compared) && compared.one() == *waker
                && compared.other() == other && compared.same() == same,
            None => self.compared is None && !same,
        }
    }
}

/// Whether the waker in the slot wakes the same task as `other`, as far as wakers can tell.
pub(crate) fn compare_slot<T>(slot: &WakerSlot, pass: &mut Pass<T>, other: &Waker) -> (r: (
    bool,
    WakerCompared,
))
    requires
        old(pass).covers(*slot),
    ensures
        r.1.tells(*slot, *other, r.0),
        final(pass).adds(*old(pass), (Call::Peek { of: *slot, found: r.1.peeked.found() })),
{
    let (found, peeked) = slot.peek(pass);
    match found {
        Some(waker) => {
            let (same, compared) = will_wake(&waker, other);
            (same, WakerCompared { peeked, compared: Some(compared) })
        },
        None => (false, WakerCompared { peeked, compared: None }),
    }
}

} // verus!
