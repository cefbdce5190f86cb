//! What each side of a channel does, step by step: the program that a handle follows, from one
//! operation on the shared memory to the next.
use crate::word::{Change, Word};
use vstd::prelude::*;

verus! {

/// One operation on the memory that the two sides share. `T` stands for items, `W` for wakers.
pub enum Action<T, W> {
    /// None: the handle waits for its next call, or is done.
    Rest,
    /// Read the word, and change it if the change applies to it.
    Update(Change),
    /// Put the item into its slot.
    PutValue(T),
    /// Take the item out of its slot.
    TakeValue,
    /// Put a waker into the receiver's slot.
    PutRxWaker(W),
    /// Put a waker into the sender's slot.
    PutTxWaker(W),
    /// Ask whether the waker in the receiver's slot wakes the same task as this one.
    CompareRx(W),
    /// Ask whether the waker in the sender's slot wakes the same task as this one.
    CompareTx(W),
    /// Wake the waker in the receiver's slot.
    WakeRx,
    /// Wake the waker in the sender's slot.
    WakeTx,
    /// Drop what the channel holds, for both sides.
    Release,
}

/// What an operation on the shared memory found.
pub enum Event {
    /// The word that was there, and whether the change was made (`Ok`) or did not apply.
    Updated(Result<Word, Word>),
    /// Whether the two wakers were found to wake the same task.
    Same(bool),
    /// Nothing to tell.
    Done,
}

impl Event {
    /// The word that was there.
    pub open spec fn found(self) -> Word {
        match self->Updated_0 {
            Ok(w) => w,
            Err(w) => w,
        }
    }
}

impl<T, W> Action<T, W> {
    /// Whether the operation can have found this.
    pub open spec fn finds(self, e: Event) -> bool {
        match self {
            Action::Rest | Action::TakeValue => false,
            Action::Update(c) => match e {
                Event::Updated(Ok(w)) => c.target(w) is Some,
                Event::Updated(Err(w)) => c.target(w) is None,
                _ => false,
            },
            Action::CompareRx(_) | Action::CompareTx(_) => e is Same,
            Action::PutValue(_) | Action::PutRxWaker(_) | Action::PutTxWaker(_) | Action::WakeRx
            | Action::WakeTx | Action::Release => e is Done,
        }
    }
}

/// What the sender last learned about the receiver.
pub enum Seen<W> {
    /// Nothing.
    Nothing,
    /// That it has left.
    Closed,
    /// That it was there, and that this waker will be woken when it leaves.
    Waiting(W),
}

/// A call of the sender's handle.
pub enum TxCall<T, W> {
    /// Send the item.
    Send(T),
    /// Leave without an item.
    Close,
    /// Ask whether the receiver has left, and else have this waker woken when it does.
    PollClosed(W),
}

/// Where the sender stands.
pub enum TxAt<T, W> {
    /// Between calls.
    Idle { seen: Seen<W> },
    /// Sending: to put the item into its slot.
    Put { item: T },
    /// To tell the receiver that the sender is finished, with an item or without.
    Notify { exist: bool },
    /// To wake the receiver, to whom a word was left that tells this.
    Wake { exist: bool, tx_waker: bool },
    /// To leave, unless the receiver has left since that word was left to it.
    Finish { exist: bool, tx_waker: bool },
    /// To release the channel.
    Release,
    /// Finished for good.
    Done,
    /// The word was one that this channel does not know.
    Lost,
    /// To look whether the receiver has left.
    Check { waker: W, seen: Seen<W> },
    /// To compare the waker with the one that is registered.
    Compare { waker: W },
    /// To take the registered waker back.
    Retract { waker: W },
    /// To put the waker into its slot.
    Store { waker: W },
    /// To raise the flag of the waker.
    Announce { waker: W },
}

/// A step of the sender: a call, or an operation on the shared memory and what it found.
pub enum TxEvent<T, W> {
    Call(TxCall<T, W>),
    Memory(Event),
}

impl<T, W> TxAt<T, W> {
    /// Where the sender begins.
    pub open spec fn initial() -> TxAt<T, W> {
        TxAt::Idle { seen: Seen::Nothing }
    }

    /// The operation that comes next.
    pub open spec fn action(self) -> Action<T, W> {
        match self {
            TxAt::Idle { .. } | TxAt::Done | TxAt::Lost => Action::Rest,
            TxAt::Put { item } => Action::PutValue(item),
            TxAt::Notify { exist } => Action::Update(Change::Notify { exist }),
            TxAt::Wake { .. } => Action::WakeRx,
            TxAt::Finish { exist, tx_waker } => Action::Update(
                Change::Finish { exist, tx_waker },
            ),
            TxAt::Release => Action::Release,
            TxAt::Check { .. } => Action::Update(Change::Look),
            TxAt::Compare { waker } => Action::CompareTx(waker),
            TxAt::Retract { .. } => Action::Update(Change::Retract),
            TxAt::Store { waker } => Action::PutTxWaker(waker),
            TxAt::Announce { .. } => Action::Update(Change::Announce),
        }
    }

    /// Where a call leads, made between calls.
    pub open spec fn called(self, c: TxCall<T, W>) -> TxAt<T, W> {
        match c {
            TxCall::Send(item) => TxAt::Put { item },
            TxCall::Close => TxAt::Notify { exist: false },
            TxCall::PollClosed(waker) => TxAt::Check { waker, seen: self->Idle_seen },
        }
    }

    /// Where the sender stands after its next operation found `e`.
    pub open spec fn after(self, e: Event) -> TxAt<T, W> {
        match self {
            TxAt::Put { .. } => TxAt::Notify { exist: true },
            TxAt::Notify { exist } => match e->Updated_0 {
                Ok(w) => if w.rx_waits() {
                    TxAt::Wake { exist, tx_waker: w.tx_waker }
                } else {
                    // Either the sender left first, or the receiver is about to wake it:
                    // the receiver is to release the channel.
                    TxAt::Done
                },
                Err(w) => if w.close {
                    TxAt::Release
                } else {
                    TxAt::Lost
                },
            },
            TxAt::Wake { exist, tx_waker } => TxAt::Finish { exist, tx_waker },
            TxAt::Finish { .. } => if e->Updated_0 is Ok {
                TxAt::Done
            } else {
                TxAt::Release
            },
            TxAt::Release => TxAt::Done,
            TxAt::Check { waker, .. } => if e.found().close {
                TxAt::Idle { seen: Seen::Closed }
            } else if e.found().tx_waker {
                TxAt::Compare { waker }
            } else {
                TxAt::Store { waker }
            },
            TxAt::Compare { waker } => if e->Same_0 {
                TxAt::Idle { seen: Seen::Waiting(waker) }
            } else {
                TxAt::Retract { waker }
            },
            TxAt::Retract { waker } => if e->Updated_0 is Ok {
                TxAt::Store { waker }
            } else {
                TxAt::Idle { seen: Seen::Closed }
            },
            TxAt::Store { waker } => TxAt::Announce { waker },
            TxAt::Announce { waker } => if e.found().close {
                TxAt::Idle { seen: Seen::Closed }
            } else {
                TxAt::Idle { seen: Seen::Waiting(waker) }
            },
            TxAt::Idle { .. } | TxAt::Done | TxAt::Lost => self,
        }
    }

    /// Whether the sender can take this step.
    pub open spec fn allows(self, e: TxEvent<T, W>) -> bool {
        match e {
            TxEvent::Call(_) => self is Idle,
            TxEvent::Memory(found) => self.action().finds(found),
        }
    }

    /// Where the sender stands after this step.
    pub open spec fn next(self, e: TxEvent<T, W>) -> TxAt<T, W> {
        match e {
            TxEvent::Call(c) => self.called(c),
            TxEvent::Memory(found) => self.after(found),
        }
    }
}

/// Where a sender stands that took the steps of `log`.
pub open spec fn tx_at<T, W>(log: Seq<TxEvent<T, W>>) -> TxAt<T, W>
    decreases log.len(),
{
    if log.len() == 0 {
        TxAt::initial()
    } else {
        tx_at(log.drop_last()).next(log.last())
    }
}

/// Whether a sender can have taken the steps of `log`: each is one that its program allows.
pub open spec fn tx_follows<T, W>(log: Seq<TxEvent<T, W>>) -> bool
    decreases log.len(),
{
    log.len() > 0 ==> tx_follows(log.drop_last()) && tx_at(log.drop_last()).allows(log.last())
}

/// Whether `later` continues `earlier` by operations on the shared memory alone.
pub open spec fn tx_continues<T, W>(
    earlier: Seq<TxEvent<T, W>>,
    later: Seq<TxEvent<T, W>>,
) -> bool {
    &&& earlier.len() <= later.len()
    &&& forall|i: int| 0 <= i < earlier.len() ==> #[trigger] later[i] == earlier[i]
    &&& forall|i: int| earlier.len() <= i < later.len() ==> !(#[trigger] later[i] is Call)
}

/// Whether `later` continues `earlier` by the call `c`, and by nothing but what belongs to it.
pub open spec fn tx_answers<T, W>(
    earlier: Seq<TxEvent<T, W>>,
    c: TxCall<T, W>,
    later: Seq<TxEvent<T, W>>,
) -> bool {
    tx_follows(later) && tx_continues(earlier.push(TxEvent::Call(c)), later)
}

/// One more step.
pub proof fn lemma_tx_push<T, W>(log: Seq<TxEvent<T, W>>, e: TxEvent<T, W>)
    ensures
        tx_at(log.push(e)) == tx_at(log).next(e),
        tx_follows(log.push(e)) == (tx_follows(log) && tx_at(log).allows(e)),
{
    assert(log.push(e).drop_last() =~= log);
}

/// What became of the receiver in the end.
pub enum RxEnd<T> {
    /// It received this item.
    Received(T),
    /// The sender left without an item.
    Disconnected,
    /// It gave up waiting.
    Timeout,
    /// It left without waiting.
    Dropped,
}

/// A call of the receiver's handle.
pub enum RxCall<W> {
    /// Receive if the sender is finished.
    TryRecv,
    /// The same, in a wait that has offered its waker.
    Recheck,
    /// Receive if the sender is finished, and else have this waker woken when it is.
    Poll(W),
    /// The part of a wait that offers this waker, in place of one that a poll has left.
    Register(W),
    /// The part of a wait that gives up after the waker was offered.
    GiveUp,
    /// Leave.
    Close,
}

/// Where the receiver stands.
pub enum RxAt<T, W> {
    /// Between calls. `pending` is the waker that the last call left to be woken.
    Idle { pending: Option<W> },
    /// To look whether the sender is finished.
    Try { pending: Option<W>, parked: bool },
    /// The same, on behalf of a waker.
    Poll { waker: W, pending: Option<W> },
    /// To compare the waker with the one that is registered.
    Compare { waker: W },
    /// To take the registered waker back.
    Cancel { waker: W },
    /// To put the waker into its slot.
    Store { waker: W },
    /// To raise the flag of the waker.
    Register { waker: W },
    /// To take the registered waker back and leave.
    GiveUp,
    /// To leave.
    Leave { pending: Option<W> },
    /// To take the item, after the word `found`.
    Take { found: Word },
    /// To leave after the item, if any, was taken.
    Settle { item: Option<T> },
    /// To wake the sender.
    WakeTx { end: RxEnd<T> },
    /// To end the waking of the sender.
    EndWaking { end: RxEnd<T> },
    /// To release the channel.
    Release { end: RxEnd<T> },
    /// Finished for good.
    Done { end: RxEnd<T> },
}

/// A step of the receiver: a call, an operation on the shared memory and what it found, or the
/// taking of the item.
pub enum RxEvent<T, W> {
    Call(RxCall<W>),
    Memory(Event),
    Taken(Option<T>),
}

/// The end of a receiver that took this out of the slot of the item.
pub open spec fn end_with<T>(item: Option<T>) -> RxEnd<T> {
    match item {
        Some(x) => RxEnd::Received(x),
        None => RxEnd::Disconnected,
    }
}

impl<T, W> RxAt<T, W> {
    /// Where the receiver begins.
    pub open spec fn initial() -> RxAt<T, W> {
        RxAt::Idle { pending: None }
    }

    /// Where the receiver stands that learned from the word `w` that the sender is finished.
    pub open spec fn consuming(w: Word) -> RxAt<T, W> {
        if w.exist {
            RxAt::Take { found: w }
        } else {
            Self::settling(None, w)
        }
    }

    /// Where the receiver stands that is finished but for leaving, having seen the word `w`.
    pub open spec fn settling(item: Option<T>, w: Word) -> RxAt<T, W> {
        if w.close {
            RxAt::Release { end: end_with(item) }
        } else {
            RxAt::Settle { item }
        }
    }

    /// The operation that comes next.
    pub open spec fn action(self) -> Action<T, W> {
        match self {
            RxAt::Idle { .. } | RxAt::Done { .. } => Action::Rest,
            RxAt::Try { .. } | RxAt::Poll { .. } => Action::Update(Change::Look),
            RxAt::Compare { waker } => Action::CompareRx(waker),
            RxAt::Cancel { .. } => Action::Update(Change::Cancel { abandon: false }),
            RxAt::Store { waker } => Action::PutRxWaker(waker),
            RxAt::Register { .. } => Action::Update(Change::Register),
            RxAt::GiveUp => Action::Update(Change::Cancel { abandon: true }),
            RxAt::Leave { .. } => Action::Update(Change::Leave),
            RxAt::Take { .. } => Action::TakeValue,
            RxAt::Settle { .. } => Action::Update(Change::Settle),
            RxAt::WakeTx { .. } => Action::WakeTx,
            RxAt::EndWaking { .. } => Action::Update(Change::EndWaking),
            RxAt::Release { .. } => Action::Release,
        }
    }

    /// Where a call leads, made between calls.
    pub open spec fn called(self, c: RxCall<W>) -> RxAt<T, W> {
        match c {
            RxCall::TryRecv => RxAt::Try { pending: self->Idle_pending, parked: false },
            RxCall::Recheck => RxAt::Try { pending: self->Idle_pending, parked: true },
            RxCall::Poll(waker) => RxAt::Poll { waker, pending: self->Idle_pending },
            RxCall::Register(waker) => if self->Idle_pending is Some {
                RxAt::Cancel { waker }
            } else {
                RxAt::Store { waker }
            },
            RxCall::GiveUp => RxAt::GiveUp,
            RxCall::Close => RxAt::Leave { pending: self->Idle_pending },
        }
    }

    /// Where the receiver stands after its next operation found `e`.
    pub open spec fn after(self, e: Event) -> RxAt<T, W> {
        match self {
            RxAt::Try { pending, .. } => if e.found().lock {
                Self::consuming(e.found())
            } else {
                RxAt::Idle { pending }
            },
            RxAt::Poll { waker, .. } => if e.found().lock {
                Self::consuming(e.found())
            } else if e.found().rx_waker {
                RxAt::Compare { waker }
            } else {
                RxAt::Store { waker }
            },
            RxAt::Compare { waker } => if e->Same_0 {
                RxAt::Idle { pending: Some(waker) }
            } else {
                RxAt::Cancel { waker }
            },
            RxAt::Cancel { waker } => match e->Updated_0 {
                Ok(_) => RxAt::Store { waker },
                Err(w) => Self::consuming(w),
            },
            RxAt::Store { waker } => RxAt::Register { waker },
            RxAt::Register { waker } => match e->Updated_0 {
                Ok(_) => RxAt::Idle { pending: Some(waker) },
                Err(w) => Self::consuming(w),
            },
            RxAt::GiveUp => match e->Updated_0 {
                Ok(w) => if w.tx_waits() {
                    RxAt::WakeTx { end: RxEnd::Timeout }
                } else {
                    RxAt::Done { end: RxEnd::Timeout }
                },
                Err(w) => Self::consuming(w),
            },
            RxAt::Leave { .. } => {
                let w = e->Updated_0->Ok_0;
                if w.close {
                    RxAt::Release { end: RxEnd::Dropped }
                } else if w.tx_waits() {
                    RxAt::WakeTx { end: RxEnd::Dropped }
                } else {
                    RxAt::Done { end: RxEnd::Dropped }
                }
            },
            RxAt::Settle { item } => if e->Updated_0 is Ok {
                RxAt::Done { end: end_with(item) }
            } else {
                RxAt::Release { end: end_with(item) }
            },
            RxAt::WakeTx { end } => RxAt::EndWaking { end },
            RxAt::EndWaking { end } => if e.found().lock {
                RxAt::Release { end }
            } else {
                RxAt::Done { end }
            },
            RxAt::Release { end } => RxAt::Done { end },
            RxAt::Idle { .. } | RxAt::Take { .. } | RxAt::Done { .. } => self,
        }
    }

    /// Whether the next operation reads the word in the order that all threads agree on: a poll
    /// does, and a wait that is about to park.
    pub open spec fn seq_cst(self) -> bool {
        match self {
            RxAt::Poll { .. } => true,
            RxAt::Try { parked, .. } => parked,
            _ => false,
        }
    }

    /// Whether the receiver can take this step. A wait is given up only where a waker waits to
    /// be woken.
    pub open spec fn allows(self, e: RxEvent<T, W>) -> bool {
        match e {
            RxEvent::Call(RxCall::GiveUp) => self is Idle && self->Idle_pending is Some,
            RxEvent::Call(_) => self is Idle,
            RxEvent::Memory(found) => self.action().finds(found),
            RxEvent::Taken(_) => self is Take,
        }
    }

    /// Where the receiver stands after this step.
    pub open spec fn next(self, e: RxEvent<T, W>) -> RxAt<T, W> {
        match e {
            RxEvent::Call(c) => self.called(c),
            RxEvent::Memory(found) => self.after(found),
            RxEvent::Taken(item) => Self::settling(item, self->Take_found),
        }
    }
}

/// Where a receiver stands that took the steps of `log`.
pub open spec fn rx_at<T, W>(log: Seq<RxEvent<T, W>>) -> RxAt<T, W>
    decreases log.len(),
{
    if log.len() == 0 {
        RxAt::initial()
    } else {
        rx_at(log.drop_last()).next(log.last())
    }
}

/// Whether a receiver can have taken the steps of `log`: each is one that its program allows.
pub open spec fn rx_follows<T, W>(log: Seq<RxEvent<T, W>>) -> bool
    decreases log.len(),
{
    log.len() > 0 ==> rx_follows(log.drop_last()) && rx_at(log.drop_last()).allows(log.last())
}

/// Whether `later` continues `earlier` by operations on the shared memory alone.
pub open spec fn rx_continues<T, W>(
    earlier: Seq<RxEvent<T, W>>,
    later: Seq<RxEvent<T, W>>,
) -> bool {
    &&& earlier.len() <= later.len()
    &&& forall|i: int| 0 <= i < earlier.len() ==> #[trigger] later[i] == earlier[i]
    &&& forall|i: int| earlier.len() <= i < later.len() ==> !(#[trigger] later[i] is Call)
}

/// Whether `later` continues `earlier` by the call `c`, and by nothing but what belongs to it.
pub open spec fn rx_answers<T, W>(
    earlier: Seq<RxEvent<T, W>>,
    c: RxCall<W>,
    later: Seq<RxEvent<T, W>>,
) -> bool {
    rx_follows(later) && rx_continues(earlier.push(RxEvent::Call(c)), later)
}

/// One more step.
pub proof fn lemma_rx_push<T, W>(log: Seq<RxEvent<T, W>>, e: RxEvent<T, W>)
    ensures
        rx_at(log.push(e)) == rx_at(log).next(e),
        rx_follows(log.push(e)) == (rx_follows(log) && rx_at(log).allows(e)),
{
    assert(log.push(e).drop_last() =~= log);
}

} // verus!
