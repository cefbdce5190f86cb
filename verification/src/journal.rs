//! The records that the two handles keep of what they did to the shared memory.
//!
//! A journal grows by one entry at a time, and only by one that the program calls for next. An
//! operation on the memory is entered in exchange for the record of the calls that it took:
//! where those were made, with what, and what came back. The journal holds the pass that the
//! calls are made with, and accounts for all of them: no call is made that is not entered.
use crate::account::{
    all_calls, is_clone, is_comparison, lemma_rx_pays, lemma_tx_pays, rx_pays, rx_takes_calls,
    tx_pays, tx_takes_calls,
};
use crate::calls::{Call, Exchanged, Offered, Pass, Peeked, Updated};
use crate::memory::{OneShotInner, Released};
use crate::program::{
    lemma_rx_push, lemma_tx_push, rx_at, rx_follows, tx_at, tx_follows, Action, Event, RxAt,
    RxCall, RxEvent, TxAt, TxCall, TxEvent,
};
use crate::wakers::{waking_calls, WakerCompared, WakerPut, WakerWoken};
use crate::word::word;
use std::task::Waker;
use vstd::prelude::*;

verus! {

/// What an attempt to change the word found.
pub open spec fn updated(r: Result<u8, u8>) -> Event {
    match r {
        Ok(s) => Event::Updated(Ok(word(s))),
        Err(s) => Event::Updated(Err(word(s))),
    }
}

/// The call of this record, on the memory of a channel of such items.
pub open spec fn update_calls<T>(did: Updated) -> Seq<Call<T>> {
    seq![
        Call::Update {
            of: did.of(),
            seq_cst: did.seq_cst(),
            change: did.change(),
            result: did.result(),
        },
    ]
}

/// The call of this record.
pub open spec fn value_calls<T>(did: Exchanged<T>) -> Seq<Call<T>> {
    seq![Call::Value { of: did.of(), put: did.put(), found: did.found() }]
}

/// The call of this record, on the memory of a channel of such items.
pub open spec fn offer_calls<T>(did: Offered) -> Seq<Call<T>> {
    seq![Call::Offer { of: did.of(), put: did.put() }]
}

/// The call of this record, on the memory of a channel of such items.
pub open spec fn peek_calls<T>(did: Peeked) -> Seq<Call<T>> {
    seq![Call::Peek { of: did.of(), found: did.found() }]
}

/// The journal of a sender.
#[verifier::reject_recursive_types(T)]
pub struct TxJournal<T> {
    memory: Ghost<OneShotInner<T>>,
    log: Ghost<Seq<TxEvent<T, Waker>>>,
    pass: Pass<T>,
    paid: Ghost<Seq<Seq<Call<T>>>>,
}

impl<T> TxJournal<T> {
    /// The memory that the journal is about.
    pub closed spec fn memory(self) -> OneShotInner<T> {
        self.memory@
    }

    /// The entries.
    pub closed spec fn log(self) -> Seq<TxEvent<T, Waker>> {
        self.log@
    }

    /// The pass with which calls on the memory are made.
    pub closed spec fn pass(self) -> Pass<T> {
        self.pass
    }

    /// The calls that were entered, step by step.
    pub closed spec fn paid(self) -> Seq<Seq<Call<T>>> {
        self.paid@
    }

    /// All the calls that were made on the memory by this side of its channel.
    pub open spec fn calls(self) -> Seq<Call<T>> {
        self.pass().log()
    }

    /// These calls were made and not entered yet, and no others.
    pub open spec fn owes(self, calls: Seq<Call<T>>) -> bool {
        &&& self.pass().of() == Some(self.memory().cells())
        &&& tx_pays(self.memory(), self.log(), self.paid())
        &&& self.calls() == all_calls(self.paid()) + calls
    }

    /// All the calls that were made are those of the entries.
    pub open spec fn accounted(self) -> bool {
        self.owes(Seq::empty())
    }

    /// Where the entries lead.
    pub open spec fn at(self) -> TxAt<T, Waker> {
        tx_at(self.log())
    }

    /// This is `before` with one more entry, which the program allows.
    pub open spec fn adds(self, before: TxJournal<T>, e: TxEvent<T, Waker>) -> bool {
        &&& self.memory() == before.memory()
        &&& self.pass() == before.pass()
        &&& self.accounted()
        &&& self.log() == before.log().push(e)
        &&& tx_follows(self.log())
        &&& self.at() == before.at().next(e)
    }

    /// The empty journal about this memory, with the pass for it.
    pub(crate) fn new(memory: &OneShotInner<T>, pass: Pass<T>) -> (r: Self)
        requires
            pass.of() == Some(memory.cells()),
            pass.log() == Seq::<Call<T>>::empty(),
        ensures
            r.memory() == *memory,
            r.log() == Seq::<TxEvent<T, Waker>>::empty(),
            r.accounted(),
    {
        assert(all_calls(Seq::<Seq<Call<T>>>::empty()) =~= Seq::empty());
        TxJournal {
            memory: Ghost(*memory),
            log: Ghost(Seq::empty()),
            pass,
            paid: Ghost(Seq::empty()),
        }
    }

    /// The pass, to make calls with.
    pub(crate) fn hand(&mut self) -> (r: &mut Pass<T>)
        ensures
            *r == old(self).pass(),
            final(self).pass() == *final(r),
            final(self).memory() == old(self).memory(),
            final(self).log() == old(self).log(),
            final(self).paid() == old(self).paid(),
    {
        &mut self.pass
    }

    fn add(&mut self, Ghost(e): Ghost<TxEvent<T, Waker>>, Ghost(calls): Ghost<Seq<Call<T>>>)
        requires
            old(self).owes(calls),
            tx_takes_calls(old(self).memory(), old(self).at(), e, calls),
            tx_follows(old(self).log()),
            old(self).at().allows(e),
        ensures
            final(self).adds(*old(self), e),
    {
        proof {
            lemma_tx_push(self.log@, e);
            lemma_tx_pays(self.memory@, self.log@, self.paid@, e, calls);
            assert(all_calls(self.paid@.push(calls)) + Seq::<Call<T>>::empty() =~= all_calls(
                self.paid@.push(calls),
            ));
        }
        self.log = Ghost(self.log@.push(e));
        self.paid = Ghost(self.paid@.push(calls));
    }

    /// Enters a call of the handle.
    pub(crate) fn call(&mut self, Ghost(c): Ghost<TxCall<T, Waker>>)
        requires
            old(self).owes(Seq::empty()),
            tx_follows(old(self).log()),
            old(self).at() is Idle,
        ensures
            final(self).adds(*old(self), TxEvent::Call(c)),
    {
        self.add(Ghost(TxEvent::Call(c)), Ghost(Seq::empty()));
    }

    /// Enters an attempt to change the word.
    pub(crate) fn update(&mut self, did: Updated)
        requires
            old(self).owes(update_calls(did)),
            tx_follows(old(self).log()),
            did.of() == old(self).memory().state_word(),
            !did.seq_cst(),
            old(self).at().action() == Action::<T, Waker>::Update(did.change()),
            old(self).at().action().finds(updated(did.result())),
        ensures
            final(self).adds(*old(self), TxEvent::Memory(updated(did.result()))),
    {
        self.add(Ghost(TxEvent::Memory(updated(did.result()))), Ghost(update_calls(did)));
    }

    /// Enters the putting of the item.
    pub(crate) fn put_value(&mut self, did: Exchanged<T>)
        requires
            old(self).owes(value_calls(did)),
            tx_follows(old(self).log()),
            did.of() == old(self).memory().value_slot(),
            did.put() is Some,
            old(self).at().action() == Action::<T, Waker>::PutValue(did.put()->0),
        ensures
            final(self).adds(*old(self), TxEvent::Memory(Event::Done)),
    {
        self.add(Ghost(TxEvent::Memory(Event::Done)), Ghost(value_calls(did)));
    }

    /// Enters the putting of a waker.
    pub(crate) fn put_tx_waker(&mut self, Ghost(waker): Ghost<Waker>, did: WakerPut)
        requires
            old(self).owes(offer_calls(did.offered)),
            tx_follows(old(self).log()),
            did.puts(old(self).memory().tx_slot(), waker),
            old(self).at().action() == Action::<T, Waker>::PutTxWaker(waker),
        ensures
            final(self).adds(*old(self), TxEvent::Memory(Event::Done)),
    {
        assert(is_clone(waker, *did.offered.put()->0));
        self.add(Ghost(TxEvent::Memory(Event::Done)), Ghost(offer_calls(did.offered)));
    }

    /// Enters a comparison of wakers, which came out as `same`.
    pub(crate) fn compare_tx(
        &mut self,
        Ghost(waker): Ghost<Waker>,
        Ghost(same): Ghost<bool>,
        did: WakerCompared,
    )
        requires
            old(self).owes(peek_calls(did.peeked)),
            tx_follows(old(self).log()),
            did.tells(old(self).memory().tx_slot(), waker, same),
            old(self).at().action() == Action::<T, Waker>::CompareTx(waker),
        ensures
            final(self).adds(*old(self), TxEvent::Memory(Event::Same(same))),
    {
        proof {
            if let Some(held) = did.peeked.found() {
                assert(is_comparison(*held, waker, same));
            }
        }
        self.add(Ghost(TxEvent::Memory(Event::Same(same))), Ghost(peek_calls(did.peeked)));
    }

    /// Enters the waking of the receiver.
    pub(crate) fn wake_rx(&mut self, did: WakerWoken)
        requires
            old(self).owes(waking_calls(did.peeked.of(), did.peeked.found())),
            tx_follows(old(self).log()),
            did.wakes(old(self).memory().rx_slot()),
            old(self).at().action() is WakeRx,
        ensures
            final(self).adds(*old(self), TxEvent::Memory(Event::Done)),
    {
        self.add(
            Ghost(TxEvent::Memory(Event::Done)),
            Ghost(waking_calls(did.peeked.of(), did.peeked.found())),
        );
    }

    /// Enters the release of the channel.
    pub(crate) fn release(&mut self, did: Released<T>)
        requires
            old(self).owes(old(self).memory().releasing_calls(did.value.found())),
            tx_follows(old(self).log()),
            did.empties(old(self).memory()),
            old(self).at().action() is Release,
        ensures
            final(self).adds(*old(self), TxEvent::Memory(Event::Done)),
    {
        self.add(
            Ghost(TxEvent::Memory(Event::Done)),
            Ghost(old(self).memory().releasing_calls(did.value.found())),
        );
    }
}

/// The journal of a receiver.
#[verifier::reject_recursive_types(T)]
pub struct RxJournal<T> {
    memory: Ghost<OneShotInner<T>>,
    log: Ghost<Seq<RxEvent<T, Waker>>>,
    pass: Pass<T>,
    paid: Ghost<Seq<Seq<Call<T>>>>,
}

impl<T> RxJournal<T> {
    /// The memory that the journal is about.
    pub closed spec fn memory(self) -> OneShotInner<T> {
        self.memory@
    }

    /// The entries.
    pub closed spec fn log(self) -> Seq<RxEvent<T, Waker>> {
        self.log@
    }

    /// The pass with which calls on the memory are made.
    pub closed spec fn pass(self) -> Pass<T> {
        self.pass
    }

    /// The calls that were entered, step by step.
    pub closed spec fn paid(self) -> Seq<Seq<Call<T>>> {
        self.paid@
    }

    /// All the calls that were made on the memory by this side of its channel.
    pub open spec fn calls(self) -> Seq<Call<T>> {
        self.pass().log()
    }

    /// These calls were made and not entered yet, and no others.
    pub open spec fn owes(self, calls: Seq<Call<T>>) -> bool {
        &&& self.pass().of() == Some(self.memory().cells())
        &&& rx_pays(self.memory(), self.log(), self.paid())
        &&& self.calls() == all_calls(self.paid()) + calls
    }

    /// All the calls that were made are those of the entries.
    pub open spec fn accounted(self) -> bool {
        self.owes(Seq::empty())
    }

    /// Where the entries lead.
    pub open spec fn at(self) -> RxAt<T, Waker> {
        rx_at(self.log())
    }

    /// This is `before` with one more entry, which the program allows.
    pub open spec fn adds(self, before: RxJournal<T>, e: RxEvent<T, Waker>) -> bool {
        &&& self.memory() == before.memory()
        &&& self.pass() == before.pass()
        &&& self.accounted()
        &&& self.log() == before.log().push(e)
        &&& rx_follows(self.log())
        &&& self.at() == before.at().next(e)
    }

    /// The empty journal about this memory, with the pass for it.
    pub(crate) fn new(memory: &OneShotInner<T>, pass: Pass<T>) -> (r: Self)
        requires
            pass.of() == Some(memory.cells()),
            pass.log() == Seq::<Call<T>>::empty(),
        ensures
            r.memory() == *memory,
            r.log() == Seq::<RxEvent<T, Waker>>::empty(),
            r.accounted(),
    {
        assert(all_calls(Seq::<Seq<Call<T>>>::empty()) =~= Seq::empty());
        RxJournal {
            memory: Ghost(*memory),
            log: Ghost(Seq::empty()),
            pass,
            paid: Ghost(Seq::empty()),
        }
    }

    /// The pass, to make calls with.
    pub(crate) fn hand(&mut self) -> (r: &mut Pass<T>)
        ensures
            *r == old(self).pass(),
            final(self).pass() == *final(r),
            final(self).memory() == old(self).memory(),
            final(self).log() == old(self).log(),
            final(self).paid() == old(self).paid(),
    {
        &mut self.pass
    }

    fn add(&mut self, Ghost(e): Ghost<RxEvent<T, Waker>>, Ghost(calls): Ghost<Seq<Call<T>>>)
        requires
            old(self).owes(calls),
            rx_takes_calls(old(self).memory(), old(self).at(), e, calls),
            rx_follows(old(self).log()),
            old(self).at().allows(e),
        ensures
            final(self).adds(*old(self), e),
    {
        proof {
            lemma_rx_push(self.log@, e);
            lemma_rx_pays(self.memory@, self.log@, self.paid@, e, calls);
            assert(all_calls(self.paid@.push(calls)) + Seq::<Call<T>>::empty() =~= all_calls(
                self.paid@.push(calls),
            ));
        }
        self.log = Ghost(self.log@.push(e));
        self.paid = Ghost(self.paid@.push(calls));
    }

    /// Enters a call of the handle.
    pub(crate) fn call(&mut self, Ghost(c): Ghost<RxCall<Waker>>)
        requires
            old(self).owes(Seq::empty()),
            rx_follows(old(self).log()),
            old(self).at().allows(RxEvent::Call(c)),
        ensures
            final(self).adds(*old(self), RxEvent::Call(c)),
    {
        self.add(Ghost(RxEvent::Call(c)), Ghost(Seq::empty()));
    }

    /// Enters an attempt to change the word.
    pub(crate) fn update(&mut self, did: Updated)
        requires
            old(self).owes(update_calls(did)),
            rx_follows(old(self).log()),
            did.of() == old(self).memory().state_word(),
            did.seq_cst() == old(self).at().seq_cst(),
            old(self).at().action() == Action::<T, Waker>::Update(did.change()),
            old(self).at().action().finds(updated(did.result())),
        ensures
            final(self).adds(*old(self), RxEvent::Memory(updated(did.result()))),
    {
        self.add(Ghost(RxEvent::Memory(updated(did.result()))), Ghost(update_calls(did)));
    }

    /// Enters the taking of the item.
    pub(crate) fn take_value(&mut self, did: Exchanged<T>)
        requires
            old(self).owes(value_calls(did)),
            rx_follows(old(self).log()),
            did.of() == old(self).memory().value_slot(),
            did.put() is None,
            old(self).at() is Take,
        ensures
            final(self).adds(*old(self), RxEvent::Taken(did.found())),
    {
        self.add(Ghost(RxEvent::Taken(did.found())), Ghost(value_calls(did)));
    }

    /// Enters the putting of a waker.
    pub(crate) fn put_rx_waker(&mut self, Ghost(waker): Ghost<Waker>, did: WakerPut)
        requires
            old(self).owes(offer_calls(did.offered)),
            rx_follows(old(self).log()),
            did.puts(old(self).memory().rx_slot(), waker),
            old(self).at().action() == Action::<T, Waker>::PutRxWaker(waker),
        ensures
            final(self).adds(*old(self), RxEvent::Memory(Event::Done)),
    {
        assert(is_clone(waker, *did.offered.put()->0));
        self.add(Ghost(RxEvent::Memory(Event::Done)), Ghost(offer_calls(did.offered)));
    }

    /// Enters a comparison of wakers, which came out as `same`.
    pub(crate) fn compare_rx(
        &mut self,
        Ghost(waker): Ghost<Waker>,
        Ghost(same): Ghost<bool>,
        did: WakerCompared,
    )
        requires
            old(self).owes(peek_calls(did.peeked)),
            rx_follows(old(self).log()),
            did.tells(old(self).memory().rx_slot(), waker, same),
            old(self).at().action() == Action::<T, Waker>::CompareRx(waker),
        ensures
            final(self).adds(*old(self), RxEvent::Memory(Event::Same(same))),
    {
        proof {
            if let Some(held) = did.peeked.found() {
                assert(is_comparison(*held, waker, same));
            }
        }
        self.add(Ghost(RxEvent::Memory(Event::Same(same))), Ghost(peek_calls(did.peeked)));
    }

    /// Enters the waking of the sender.
    pub(crate) fn wake_tx(&mut self, did: WakerWoken)
        requires
            old(self).owes(waking_calls(did.peeked.of(), did.peeked.found())),
            rx_follows(old(self).log()),
            did.wakes(old(self).memory().tx_slot()),
            old(self).at().action() is WakeTx,
        ensures
            final(self).adds(*old(self), RxEvent::Memory(Event::Done)),
    {
        self.add(
            Ghost(RxEvent::Memory(Event::Done)),
            Ghost(waking_calls(did.peeked.of(), did.peeked.found())),
        );
    }

    /// Enters the release of the channel.
    pub(crate) fn release(&mut self, did: Released<T>)
        requires
            old(self).owes(old(self).memory().releasing_calls(did.value.found())),
            rx_follows(old(self).log()),
            did.empties(old(self).memory()),
            old(self).at().action() is Release,
        ensures
            final(self).adds(*old(self), RxEvent::Memory(Event::Done)),
    {
        self.add(
            Ghost(RxEvent::Memory(Event::Done)),
            Ghost(old(self).memory().releasing_calls(did.value.found())),
        );
    }
}

} // verus!
