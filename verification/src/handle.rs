//! The handles through which the two sides of a channel operate on the memory that they share.
//!
//! Nothing can be stated of memory that another thread changes. What a handle does to it can:
//! each operation here makes the calls that the program asks for next, and is entered into the
//! handle's journal in exchange for their records. That the memory answers as [`crate::model`]
//! has it is what the standard library's atomics and locks are for.
use crate::calls::{fetch_update, Pass, Updated};
use crate::journal::{updated, RxJournal, TxJournal};
use crate::memory::OneShotInner;
use crate::model::Memory;
use crate::program::{
    rx_at, rx_follows, tx_at, tx_follows, Action, Event, RxAt, RxCall, RxEvent, TxAt, TxCall,
    TxEvent,
};
use crate::wakers::{compare_slot, put_waker, wake_slot};
use crate::word::{word, Change, Word};
use std::sync::atomic::Ordering;
use std::sync::Arc;
use std::task::Waker;
use vstd::prelude::*;

verus! {

/// The sender of a channel.
///
/// It keeps a record of its calls and of what they did and found in the shared memory. A handle
/// that goes out of scope tells the receiver nothing: [`TxOneshot::close`] does.
#[verifier::reject_recursive_types(T)]
pub struct TxOneshot<T> {
    inner: Arc<OneShotInner<T>>,
    journal: TxJournal<T>,
}

/// The receiver of a channel.
///
/// It keeps a record of its calls and of what they did and found in the shared memory. A handle
/// that goes out of scope tells the sender nothing: [`RxOneshot::close`] does.
#[must_use]
#[verifier::reject_recursive_types(T)]
pub struct RxOneshot<T> {
    inner: Option<Arc<OneShotInner<T>>>,
    journal: RxJournal<T>,
    armed: bool,
}

/// Makes a channel.
pub fn oneshot<T>() -> (r: (TxOneshot<T>, RxOneshot<T>))
    ensures
        r.0.record() == Seq::<TxEvent<T, Waker>>::empty(),
        r.0.wf(),
        r.1.record() == Seq::<RxEvent<T, Waker>>::empty(),
        r.1.wf(),
        r.1.channel() == Some(r.0.channel()),
        r.1.origin() == *r.0.channel(),
        r.0.channel().first() == Memory::<T, Waker>::initial(),
{
    let (memory, tx_pass, rx_pass) = OneShotInner::new();
    let inner = Arc::new(memory);
    let tx = TxOneshot { inner: inner.clone(), journal: TxJournal::new(&inner, tx_pass) };
    let journal = RxJournal::new(&inner, rx_pass);
    let rx = RxOneshot { inner: Some(inner), journal, armed: false };
    (tx, rx)
}

impl<T> TxOneshot<T> {
    /// What the sender did.
    pub closed spec fn record(&self) -> Seq<TxEvent<T, Waker>> {
        self.journal.log()
    }

    /// Where the sender stands after what it did.
    pub open spec fn at(&self) -> TxAt<T, Waker> {
        tx_at(self.record())
    }

    /// The shared memory of the channel.
    pub closed spec fn channel(&self) -> Arc<OneShotInner<T>> {
        self.inner
    }

    /// The record is one of what was done to the memory of this channel, and accounts for all
    /// of it.
    pub closed spec fn tied(&self) -> bool {
        self.journal.memory() == *self.inner && self.journal.accounted()
    }

    /// The sender followed its program, on the memory of its channel.
    pub open spec fn sound(&self) -> bool {
        tx_follows(self.record()) && self.tied()
    }

    /// The sender followed its program and is ready for a call.
    pub open spec fn wf(&self) -> bool {
        self.sound() && self.at() is Idle
    }

    /// The sender took the step `e` after it was `before`.
    pub(crate) open spec fn took(&self, before: TxOneshot<T>, e: TxEvent<T, Waker>) -> bool {
        &&& self.channel() == before.channel()
        &&& self.record() == before.record().push(e)
        &&& self.sound()
        &&& self.at() == before.at().next(e)
    }

    /// Takes up the call `c`.
    pub(crate) fn begin(&mut self, Ghost(c): Ghost<TxCall<T, Waker>>)
        requires
            old(self).wf(),
        ensures
            final(self).took(*old(self), TxEvent::Call(c)),
    {
        self.journal.call(Ghost(c));
    }

    /// Changes the word, if the change applies to it.
    pub(crate) fn update(&mut self, change: Change) -> (r: Result<u8, u8>)
        requires
            old(self).sound(),
            old(self).at().action() == Action::<T, Waker>::Update(change),
        ensures
            r matches Ok(s) ==> change.target(word(s)) is Some,
            r matches Err(s) ==> change.target(word(s)) is None,
            final(self).took(*old(self), TxEvent::Memory(updated(r))),
    {
        let (r, did) = fetch_update(
            self.inner.state(),
            self.journal.hand(),
            Ordering::Acquire,
            change,
        );
        self.journal.update(did);
        r
    }

    pub(crate) fn put_value(&mut self, item: T)
        requires
            old(self).sound(),
            old(self).at().action() == Action::<T, Waker>::PutValue(item),
        ensures
            final(self).took(*old(self), TxEvent::Memory(Event::Done)),
    {
        let (_old, did) = self.inner.value().replace(self.journal.hand(), Some(item));
        self.journal.put_value(did);
    }

    pub(crate) fn put_tx_waker(&mut self, waker: &Waker)
        requires
            old(self).sound(),
            old(self).at().action() == Action::<T, Waker>::PutTxWaker(*waker),
        ensures
            final(self).took(*old(self), TxEvent::Memory(Event::Done)),
    {
        let did = put_waker(self.inner.tx_waker(), self.journal.hand(), waker);
        self.journal.put_tx_waker(Ghost(*waker), did);
    }

    pub(crate) fn compare_tx(&mut self, waker: &Waker) -> (r: bool)
        requires
            old(self).sound(),
            old(self).at().action() == Action::<T, Waker>::CompareTx(*waker),
        ensures
            final(self).took(*old(self), TxEvent::Memory(Event::Same(r))),
    {
        let (r, did) = compare_slot(self.inner.tx_waker(), self.journal.hand(), waker);
        self.journal.compare_tx(Ghost(*waker), Ghost(r), did);
        r
    }

    pub(crate) fn wake_rx(&mut self)
        requires
            old(self).sound(),
            old(self).at().action() is WakeRx,
        ensures
            final(self).took(*old(self), TxEvent::Memory(Event::Done)),
    {
        let did = wake_slot(self.inner.o_waker(), self.journal.hand());
        self.journal.wake_rx(did);
    }

    pub(crate) fn release(&mut self)
        requires
            old(self).sound(),
            old(self).at().action() is Release,
        ensures
            final(self).took(*old(self), TxEvent::Memory(Event::Done)),
    {
        let did = self.inner.release(self.journal.hand());
        self.journal.release(did);
    }

    /// Looks at the shared word outside the program, which it leaves as it is. Which word is
    /// there is up to the other side.
    pub(crate) fn glance(&self) -> (r: (u8, Updated))
        ensures
            looked(r.1, *self.channel(), false),
            r.0 == r.1.found(),
    {
        let mut pass = Pass::<T>::onlooker();
        let (r, did) = fetch_update(
            self.inner.state(),
            &mut pass,
            Ordering::Acquire,
            Change::Look,
        );
        (found(r), did)
    }

    /// What is left of the handle when it is finished: its journal.
    pub(crate) fn into_journal(self) -> (r: TxJournal<T>)
        ensures
            r.log() == self.record(),
            self.tied() ==> r.memory() == *self.channel() && r.accounted(),
    {
        self.journal
    }
}

/// The word that an attempt to change it found.
pub(crate) fn found(r: Result<u8, u8>) -> (s: u8)
    ensures
        s == (match r {
            Ok(s) => s,
            Err(s) => s,
        }),
{
    match r {
        Ok(s) => s,
        Err(s) => s,
    }
}

/// `did` is the record of a look at the word of this memory, in the order that all threads agree
/// on (`seq_cst`) or not.
pub open spec fn looked<T>(did: Updated, memory: OneShotInner<T>, seq_cst: bool) -> bool {
    &&& did.of() == memory.state_word()
    &&& did.seq_cst() == seq_cst
    &&& did.change() is Look
}

/// A look was made at the word of the channel itself, in the order that it says, and changed
/// nothing.
pub proof fn looks_are_at_the_word<T>(
    did: Updated,
    memory: OneShotInner<T>,
    seq_cst: bool,
    w: Word,
)
    requires
        looked(did, memory, seq_cst),
    ensures
        did.of() == memory.state_word(),
        did.seq_cst() == seq_cst,
        did.change().target(w) is None,
{
}

impl<T> RxOneshot<T> {
    /// What the receiver did.
    pub closed spec fn record(&self) -> Seq<RxEvent<T, Waker>> {
        self.journal.log()
    }

    /// Where the receiver stands after what it did.
    pub open spec fn at(&self) -> RxAt<T, Waker> {
        rx_at(self.record())
    }

    /// The shared memory of the channel, as long as the handle is bound to it.
    pub closed spec fn channel(&self) -> Option<Arc<OneShotInner<T>>> {
        self.inner
    }

    /// The handle is still bound to its channel.
    pub open spec fn attached(&self) -> bool {
        self.channel() is Some
    }

    /// The shared memory of the channel, also after the handle has let go of it.
    pub closed spec fn origin(&self) -> OneShotInner<T> {
        self.journal.memory()
    }

    /// The record is one of what was done to the memory of this channel.
    pub open spec fn tied(&self) -> bool {
        self.channel() matches Some(channel) ==> self.origin() == *channel
    }

    /// The record accounts for all that was done to the memory of this channel.
    pub closed spec fn accounted(&self) -> bool {
        self.journal.accounted()
    }

    /// The handle remembers that a call has left a waker to be woken.
    pub closed spec fn armed(&self) -> bool {
        self.armed
    }

    /// The receiver followed its program, on the memory of its channel.
    pub open spec fn sound(&self) -> bool {
        rx_follows(self.record()) && self.tied() && self.accounted()
    }

    /// The receiver followed its program, and is ready for a call or has let go of its channel
    /// and is done.
    pub open spec fn wf(&self) -> bool {
        &&& self.sound()
        &&& if self.attached() {
            self.at() is Idle && self.armed() == (self.at()->Idle_pending is Some)
        } else {
            self.at() is Done
        }
    }

    /// The receiver took the step `e` after it was `before`.
    pub(crate) open spec fn took(&self, before: RxOneshot<T>, e: RxEvent<T, Waker>) -> bool {
        &&& self.channel() == before.channel()
        &&& self.origin() == before.origin()
        &&& self.armed() == before.armed()
        &&& self.record() == before.record().push(e)
        &&& self.sound()
        &&& self.at() == before.at().next(e)
    }

    /// Whether a call has left a waker to be woken.
    pub(crate) fn is_armed(&self) -> (r: bool)
        ensures
            r == self.armed(),
    {
        self.armed
    }

    /// Remembers that a waker was left to be woken.
    pub(crate) fn arm(&mut self)
        requires
            old(self).sound(),
        ensures
            final(self).armed(),
            final(self).origin() == old(self).origin(),
            final(self).channel() == old(self).channel(),
            final(self).sound(),
            final(self).record() == old(self).record(),
    {
        self.armed = true;
    }

    /// Whether the handle is still bound to its channel.
    pub(crate) fn is_attached(&self) -> (r: bool)
        ensures
            r == self.attached(),
    {
        self.inner.is_some()
    }

    /// Takes up the call `c`.
    pub(crate) fn begin(&mut self, Ghost(c): Ghost<RxCall<Waker>>)
        requires
            old(self).sound(),
            old(self).at().allows(RxEvent::Call(c)),
        ensures
            final(self).took(*old(self), RxEvent::Call(c)),
    {
        self.journal.call(Ghost(c));
    }

    /// The shared memory of a handle that holds `inner`.
    fn memory(inner: &Option<Arc<OneShotInner<T>>>) -> (r: &OneShotInner<T>)
        requires
            inner is Some,
        ensures
            *r == *inner->0,
    {
        match inner {
            Some(inner) => inner,
            None => vstd::pervasive::unreached(),
        }
    }

    /// Changes the word, if the change applies to it.
    pub(crate) fn update(&mut self, order: Ordering, change: Change) -> (r: Result<u8, u8>)
        requires
            old(self).attached(),
            old(self).sound(),
            order is Acquire || order is SeqCst,
            old(self).at().seq_cst() == (order is SeqCst),
            old(self).at().action() == Action::<T, Waker>::Update(change),
        ensures
            r matches Ok(s) ==> change.target(word(s)) is Some,
            r matches Err(s) ==> change.target(word(s)) is None,
            final(self).took(*old(self), RxEvent::Memory(updated(r))),
    {
        let (r, did) = fetch_update(
            Self::memory(&self.inner).state(),
            self.journal.hand(),
            order,
            change,
        );
        self.journal.update(did);
        r
    }

    pub(crate) fn take_value(&mut self) -> (item: Option<T>)
        requires
            old(self).attached(),
            old(self).sound(),
            old(self).at() is Take,
        ensures
            final(self).took(*old(self), RxEvent::Taken(item)),
    {
        let (item, did) = Self::memory(&self.inner).value().replace(self.journal.hand(), None);
        self.journal.take_value(did);
        item
    }

    pub(crate) fn put_rx_waker(&mut self, waker: &Waker)
        requires
            old(self).attached(),
            old(self).sound(),
            old(self).at().action() == Action::<T, Waker>::PutRxWaker(*waker),
        ensures
            final(self).took(*old(self), RxEvent::Memory(Event::Done)),
    {
        let did = put_waker(Self::memory(&self.inner).o_waker(), self.journal.hand(), waker);
        self.journal.put_rx_waker(Ghost(*waker), did);
    }

    pub(crate) fn compare_rx(&mut self, waker: &Waker) -> (r: bool)
        requires
            old(self).attached(),
            old(self).sound(),
            old(self).at().action() == Action::<T, Waker>::CompareRx(*waker),
        ensures
            final(self).took(*old(self), RxEvent::Memory(Event::Same(r))),
    {
        let (r, did) = compare_slot(
            Self::memory(&self.inner).o_waker(),
            self.journal.hand(),
            waker,
        );
        self.journal.compare_rx(Ghost(*waker), Ghost(r), did);
        r
    }

    pub(crate) fn wake_tx(&mut self)
        requires
            old(self).attached(),
            old(self).sound(),
            old(self).at().action() is WakeTx,
        ensures
            final(self).took(*old(self), RxEvent::Memory(Event::Done)),
    {
        let did = wake_slot(Self::memory(&self.inner).tx_waker(), self.journal.hand());
        self.journal.wake_tx(did);
    }

    pub(crate) fn release(&mut self)
        requires
            old(self).attached(),
            old(self).sound(),
            old(self).at().action() is Release,
        ensures
            final(self).took(*old(self), RxEvent::Memory(Event::Done)),
    {
        let did = Self::memory(&self.inner).release(self.journal.hand());
        self.journal.release(did);
    }

    /// Lets go of the channel.
    pub(crate) fn detach(&mut self)
        requires
            old(self).sound(),
        ensures
            !final(self).attached(),
            final(self).origin() == old(self).origin(),
            final(self).sound(),
            final(self).record() == old(self).record(),
    {
        self.inner = None;
    }

    /// Looks at the shared word outside the program, which it leaves as it is. Which word is
    /// there is up to the other side.
    pub(crate) fn glance(&self) -> (r: Option<(u8, Updated)>)
        ensures
            r is Some <==> self.attached(),
            r matches Some((s, did)) ==> looked(did, *self.channel()->0, true) && s == did.found(),
    {
        match &self.inner {
            Some(inner) => {
                let mut pass = Pass::<T>::onlooker();
                let (r, did) = fetch_update(
                    inner.state(),
                    &mut pass,
                    Ordering::SeqCst,
                    Change::Look,
                );
                Some((found(r), did))
            },
            None => None,
        }
    }

    /// What is left of the handle when it is finished: its journal.
    pub(crate) fn into_journal(self) -> (r: RxJournal<T>)
        ensures
            r.log() == self.record(),
            r.memory() == self.origin(),
            self.accounted() ==> r.accounted(),
    {
        self.journal
    }
}

} // verus!
