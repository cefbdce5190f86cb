//! Sending and receiving: what the two handles of a channel do.
//!
//! The other side may change the shared memory at any time, so what a call finds there is not
//! for its contract to say. It says what the call does with each thing that it may find: the
//! record of the handle grows by the call and by nothing but steps that the program in
//! [`crate::program`] allows, and the result is the one that belongs to where the handle then
//! stands. [`crate::laws`] says what follows for the channel as a whole.
use crate::calls::Updated;
use crate::error::{RecvError, TryRecvError};
use crate::handle::{found, looked, RxOneshot, TxOneshot};
use crate::journal::{RxJournal, TxJournal};
use crate::program::{
    end_with, rx_answers, rx_continues, tx_answers, tx_continues, RxAt, RxCall, RxEnd, Seen, TxAt,
    TxCall,
};
use crate::word::{
    has_item, has_rx_waker, has_tx_waker, is_closed, is_finished, rx_waiting, tx_waiting, word,
    Change,
};
use std::sync::atomic::Ordering;
use std::task::Waker;
use vstd::prelude::*;

verus! {

/// The answer of a call that does not wait.
#[derive(Debug)]
pub enum Polled<R> {
    /// The result.
    Ready(R),
    /// There is none yet. The waker of the call will be woken when there is.
    Pending,
}

impl<T> TxOneshot<T> {
    /// Tells the receiver that the sender is finished, and wakes it where it waits. Returns
    /// whether the channel is the sender's to release.
    fn _notify_rx(&mut self, exist: bool) -> (release: bool)
        requires
            old(self).sound(),
            old(self).at() == (TxAt::<T, Waker>::Notify { exist }),
        ensures
            final(self).sound(),
            final(self).channel() == old(self).channel(),
            tx_continues(old(self).record(), final(self).record()),
            release ==> final(self).at() is Release,
            !release ==> final(self).at() is Done || final(self).at() is Lost,
    {
        match self.update(Change::Notify { exist }) {
            Ok(s) => {
                if !rx_waiting(s) {
                    return false;
                }
                self.wake_rx();
                self.update(Change::Finish { exist, tx_waker: has_tx_waker(s) }).is_err()
            },
            Err(s) => is_closed(s),
        }
    }

    /// Sends the item, without waiting. The journal of the handle is returned for the sake of
    /// proofs.
    pub fn send(self, item: T) -> (journal: TxJournal<T>)
        requires
            self.wf(),
        ensures
            journal.memory() == *self.channel(),
            journal.accounted(),
            tx_answers(self.record(), TxCall::Send(item), journal.log()),
            journal.at() is Done || journal.at() is Lost,
    {
        let mut tx = self;
        tx.begin(Ghost(TxCall::Send(item)));
        tx.put_value(item);
        if tx._notify_rx(true) {
            tx.release();
        }
        tx.into_journal()
    }

    /// Leaves without an item. The journal of the handle is returned for the sake of proofs.
    pub fn close(self) -> (journal: TxJournal<T>)
        requires
            self.wf(),
        ensures
            journal.memory() == *self.channel(),
            journal.accounted(),
            tx_answers(self.record(), TxCall::Close, journal.log()),
            journal.at() is Done || journal.at() is Lost,
    {
        let mut tx = self;
        tx.begin(Ghost(TxCall::Close));
        if tx._notify_rx(false) {
            tx.release();
        }
        tx.into_journal()
    }

    /// Whether the receiver has left: whether the word that was found says so.
    pub fn is_disconnected(&self) -> (r: bool)
        ensures
            exists|did: Updated| #[trigger]
                looked(did, *self.channel(), false) && r == word(did.found()).close,
    {
        self.see_disconnected().0
    }

    /// The same, with the record of the look, for the sake of proofs.
    pub fn see_disconnected(&self) -> (r: (bool, Updated))
        ensures
            looked(r.1, *self.channel(), false),
            r.0 == word(r.1.found()).close,
    {
        let (s, did) = self.glance();
        (is_closed(s), did)
    }

    /// Asks whether the receiver has left, or given up waiting, and else has `waker` woken when
    /// it does. Only the waker of the latest call is woken.
    pub fn poll_closed(&mut self, waker: &Waker) -> (r: Polled<()>)
        requires
            old(self).wf(),
        ensures
            final(self).wf(),
            final(self).channel() == old(self).channel(),
            tx_answers(old(self).record(), TxCall::PollClosed(*waker), final(self).record()),
            final(self).at() == (TxAt::<T, Waker>::Idle {
                seen: match r {
                    Polled::Ready(_) => Seen::Closed,
                    Polled::Pending => Seen::Waiting(*waker),
                },
            }),
    {
        self.begin(Ghost(TxCall::PollClosed(*waker)));
        let s: u8 = found(self.update(Change::Look));
        if is_closed(s) {
            return Polled::Ready(());
        }
        if has_tx_waker(s) {
            if self.compare_tx(waker) {
                return Polled::Pending;
            }
            // The slot is the sender's again only if the receiver, which may read it, has not
            // left.
            if self.update(Change::Retract).is_err() {
                return Polled::Ready(());
            }
        }
        self.put_tx_waker(waker);
        if is_closed(found(self.update(Change::Announce))) {
            // The receiver left before it saw the flag, and will not wake the sender.
            Polled::Ready(())
        } else {
            Polled::Pending
        }
    }
}

impl<T> RxOneshot<T> {
    /// Takes the item, if there is one, and leaves, after the word `s` said that the sender is
    /// finished.
    fn _consume_value(&mut self, s: u8) -> (item: Option<T>)
        requires
            old(self).sound(),
            old(self).attached(),
            old(self).at() == RxAt::<T, Waker>::consuming(word(s)),
        ensures
            final(self).wf(),
            final(self).origin() == old(self).origin(),
            !final(self).attached(),
            rx_continues(old(self).record(), final(self).record()),
            final(self).at() == (RxAt::<T, Waker>::Done { end: end_with(item) }),
    {
        let item = if has_item(s) {
            self.take_value()
        } else {
            None
        };
        if is_closed(s) || self.update(Ordering::Acquire, Change::Settle).is_err() {
            // The sender left first.
            self.release();
        }
        self.detach();
        item
    }

    /// Wakes the sender, after the receiver left, and lets go of the channel.
    fn _wake_tx(&mut self)
        requires
            old(self).sound(),
            old(self).attached(),
            old(self).at() is WakeTx,
        ensures
            final(self).wf(),
            final(self).origin() == old(self).origin(),
            !final(self).attached(),
            rx_continues(old(self).record(), final(self).record()),
            final(self).at() == (RxAt::<T, Waker>::Done { end: old(self).at()->WakeTx_end }),
    {
        self.wake_tx();
        if is_finished(found(self.update(Ordering::Acquire, Change::EndWaking))) {
            // The sender finished meanwhile.
            self.release();
        }
        self.detach();
    }

    /// Leaves. The journal of the handle is returned for the sake of proofs.
    pub fn close(self) -> (journal: RxJournal<T>)
        requires
            self.wf(),
        ensures
            journal.memory() == self.origin(),
            journal.accounted(),
            !self.attached() ==> journal.log() == self.record(),
            self.attached() ==> rx_answers(self.record(), RxCall::Close, journal.log())
                && journal.at() == (RxAt::<T, Waker>::Done { end: RxEnd::Dropped }),
    {
        let mut rx = self;
        if rx.is_attached() {
            rx.begin(Ghost(RxCall::Close));
            if let Ok(s) = rx.update(Ordering::Acquire, Change::Leave) {
                if is_closed(s) {
                    // The sender left first.
                    rx.release();
                } else if tx_waiting(s) {
                    rx._wake_tx();
                }
            }
        }
        rx.into_journal()
    }

    /// Whether no item is there: whether the word that was found says so, or the handle is done.
    pub fn is_empty(&self) -> (r: bool)
        ensures
            !self.attached() ==> r,
            self.attached() ==> exists|did: Updated| #[trigger]
                looked(did, *self.channel()->0, true) && r == !word(did.found()).exist,
    {
        self.see_empty().0
    }

    /// The same, with the record of the look, for the sake of proofs.
    pub fn see_empty(&self) -> (r: (bool, Option<Updated>))
        ensures
            !self.attached() ==> r.0 && r.1 is None,
            self.attached() ==> (r.1 matches Some(did) && looked(did, *self.channel()->0, true)
                && r.0 == !word(did.found()).exist),
    {
        match self.glance() {
            Some((s, did)) => (!has_item(s), Some(did)),
            None => (true, None),
        }
    }

    /// Receives the item if the sender is finished.
    pub fn try_recv(&mut self) -> (r: Result<T, TryRecvError>)
        requires
            old(self).wf(),
        ensures
            final(self).wf(),
            final(self).origin() == old(self).origin(),
            !old(self).attached() ==> r == Err::<T, TryRecvError>(TryRecvError::Disconnected)
                && *final(self) == *old(self),
            old(self).attached() ==> {
                &&& rx_answers(old(self).record(), RxCall::TryRecv, final(self).record())
                &&& match r {
                    Ok(item) => final(self).at() == (RxAt::<T, Waker>::Done {
                        end: RxEnd::Received(item),
                    }),
                    Err(TryRecvError::Disconnected) => final(self).at() == (RxAt::<
                        T,
                        Waker,
                    >::Done { end: RxEnd::Disconnected }),
                    Err(TryRecvError::Empty) => final(self).at() == old(self).at()
                        && final(self).channel() == old(self).channel(),
                }
            },
    {
        if !self.is_attached() {
            return Err(TryRecvError::Disconnected);
        }
        self.attempt(false)
    }

    /// Receives the item if the sender is finished, on a handle that is bound to its channel: in
    /// a wait that is about to park (`parked`), or outside of one.
    pub(crate) fn attempt(&mut self, parked: bool) -> (r: Result<T, TryRecvError>)
        requires
            old(self).wf(),
            old(self).attached(),
        ensures
            final(self).wf(),
            final(self).origin() == old(self).origin(),
            rx_answers(
                old(self).record(),
                if parked {
                    RxCall::Recheck
                } else {
                    RxCall::TryRecv
                },
                final(self).record(),
            ),
            match r {
                Ok(item) => final(self).at() == (RxAt::<T, Waker>::Done {
                    end: RxEnd::Received(item),
                }),
                Err(TryRecvError::Disconnected) => final(self).at() == (RxAt::<T, Waker>::Done {
                    end: RxEnd::Disconnected,
                }),
                Err(TryRecvError::Empty) => final(self).at() == old(self).at()
                    && final(self).channel() == old(self).channel(),
            },
    {
        self.begin(
            Ghost(
                if parked {
                    RxCall::Recheck
                } else {
                    RxCall::TryRecv
                },
            ),
        );
        let order = if parked {
            Ordering::SeqCst
        } else {
            Ordering::Acquire
        };
        let s: u8 = found(self.update(order, Change::Look));
        if !is_finished(s) {
            return Err(TryRecvError::Empty);
        }
        match self._consume_value(s) {
            Some(item) => Ok(item),
            None => Err(TryRecvError::Disconnected),
        }
    }

    /// Offers `waker` to be woken when the sender is finished. The sender may turn out to be
    /// finished already: then the item is received.
    pub(crate) fn set_waker(&mut self, waker: &Waker) -> (r: Polled<Result<T, RecvError>>)
        requires
            old(self).sound(),
            old(self).attached(),
            old(self).at() == (RxAt::<T, Waker>::Store { waker: *waker }),
        ensures
            final(self).wf(),
            final(self).origin() == old(self).origin(),
            rx_continues(old(self).record(), final(self).record()),
            final(self).answers_poll(*old(self), *waker, r),
    {
        self.put_rx_waker(waker);
        match self.update(Ordering::Acquire, Change::Register) {
            Ok(_) => {
                self.arm();
                Polled::Pending
            },
            Err(s) => self.finish(s),
        }
    }

    /// Receives the item, if there is one, after the word `s` said that the sender is finished.
    fn finish(&mut self, s: u8) -> (r: Polled<Result<T, RecvError>>)
        requires
            old(self).sound(),
            old(self).attached(),
            old(self).at() == RxAt::<T, Waker>::consuming(word(s)),
        ensures
            final(self).wf(),
            final(self).origin() == old(self).origin(),
            rx_continues(old(self).record(), final(self).record()),
            r matches Polled::Ready(result) && final(self).at() == (RxAt::<T, Waker>::Done {
                end: received(result),
            }),
    {
        match self._consume_value(s) {
            Some(item) => Polled::Ready(Ok(item)),
            None => Polled::Ready(Err(RecvError)),
        }
    }

    /// Whether `r` is the answer to a poll with `waker` that led from `before` to this handle.
    pub open spec fn answers_poll(
        &self,
        before: RxOneshot<T>,
        waker: Waker,
        r: Polled<Result<T, RecvError>>,
    ) -> bool {
        match r {
            Polled::Ready(result) => self.at() == (RxAt::<T, Waker>::Done {
                end: received(result),
            }),
            Polled::Pending => self.at() == (RxAt::<T, Waker>::Idle { pending: Some(waker) })
                && self.channel() == before.channel(),
        }
    }

    /// Receives the item if the sender is finished, and else has `waker` woken when it is.
    pub fn poll(&mut self, waker: &Waker) -> (r: Polled<Result<T, RecvError>>)
        requires
            old(self).wf(),
        ensures
            final(self).wf(),
            final(self).origin() == old(self).origin(),
            !old(self).attached() ==> r == Polled::Ready(Err::<T, RecvError>(RecvError))
                && *final(self) == *old(self),
            old(self).attached() ==> rx_answers(
                old(self).record(),
                RxCall::Poll(*waker),
                final(self).record(),
            )
                && final(self).answers_poll(*old(self), *waker, r),
    {
        if !self.is_attached() {
            return Polled::Ready(Err(RecvError));
        }
        self.begin(Ghost(RxCall::Poll(*waker)));
        let s: u8 = found(self.update(Ordering::SeqCst, Change::Look));
        if is_finished(s) {
            return self.finish(s);
        }
        if has_rx_waker(s) {
            if self.compare_rx(waker) {
                self.arm();
                return Polled::Pending;
            }
            if let Err(s) = self.update(Ordering::Acquire, Change::Cancel { abandon: false }) {
                return self.finish(s);
            }
        }
        self.set_waker(waker)
    }

    /// Offers `waker`, in place of one that a poll has left.
    pub(crate) fn register(&mut self, waker: &Waker) -> (r: Polled<Result<T, RecvError>>)
        requires
            old(self).wf(),
            old(self).attached(),
        ensures
            final(self).wf(),
            final(self).origin() == old(self).origin(),
            rx_answers(old(self).record(), RxCall::Register(*waker), final(self).record()),
            final(self).answers_poll(*old(self), *waker, r),
    {
        let armed: bool = self.is_armed();
        self.begin(Ghost(RxCall::Register(*waker)));
        if armed {
            if let Err(s) = self.update(Ordering::Acquire, Change::Cancel { abandon: false }) {
                return self.finish(s);
            }
        }
        self.set_waker(waker)
    }

    /// Gives up waiting, on a handle that has offered a waker: takes the waker back and leaves,
    /// which makes the result `Err(true)`. The sender may turn out to be finished already: then
    /// the item is received, or the result is `Err(false)` if there is none.
    pub(crate) fn give_up(&mut self) -> (r: Result<T, bool>)
        requires
            old(self).wf(),
            old(self).at() is Idle,
            old(self).at()->Idle_pending is Some,
        ensures
            final(self).wf(),
            final(self).origin() == old(self).origin(),
            rx_answers(old(self).record(), RxCall::GiveUp, final(self).record()),
            final(self).at() == (RxAt::<T, Waker>::Done { end: waited(r) }),
    {
        self.begin(Ghost(RxCall::GiveUp));
        match self.update(Ordering::Acquire, Change::Cancel { abandon: true }) {
            Ok(s) => {
                if tx_waiting(s) {
                    self._wake_tx();
                } else {
                    self.detach();
                }
                Err(true)
            },
            Err(s) => match self._consume_value(s) {
                Some(item) => Ok(item),
                None => Err(false),
            },
        }
    }
}

/// The end of a receiver whose call returned `r`.
pub open spec fn received<T>(r: Result<T, RecvError>) -> RxEnd<T> {
    match r {
        Ok(item) => RxEnd::Received(item),
        Err(_) => RxEnd::Disconnected,
    }
}

/// The end of a receiver whose wait returned `r`.
pub open spec fn waited<T>(r: Result<T, bool>) -> RxEnd<T> {
    match r {
        Ok(item) => RxEnd::Received(item),
        Err(true) => RxEnd::Timeout,
        Err(false) => RxEnd::Disconnected,
    }
}

} // verus!
