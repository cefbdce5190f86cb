//! A channel as a whole: the shared memory, the sender and the receiver, and the steps that
//! the two take in any order.
use crate::program::{Action, Event, RxAt, RxEnd, RxEvent, Seen, TxAt, TxCall, TxEvent};
use crate::word::Word;
use vstd::prelude::*;

verus! {

/// The memory that the two sides share. `W` stands for wakers, which are told apart by the
/// task that they wake.
pub struct Memory<T, W> {
    pub word: Word,
    /// The slot of the item.
    pub value: Option<T>,
    /// The slot of the receiver's waker.
    pub rx_waker: Option<W>,
    /// The slot of the sender's waker.
    pub tx_waker: Option<W>,
    /// Whether the channel has not been released.
    pub live: bool,
    /// The wakers of the receiver that were woken, in order.
    pub rx_wakes: Seq<W>,
    /// The wakers of the sender that were woken, in order.
    pub tx_wakes: Seq<W>,
}

impl<T, W> Memory<T, W> {
    /// The memory of a new channel.
    pub open spec fn initial() -> Memory<T, W> {
        Memory {
            word: Word::initial(),
            value: None,
            rx_waker: None,
            tx_waker: None,
            live: true,
            rx_wakes: Seq::empty(),
            tx_wakes: Seq::empty(),
        }
    }

    /// What the operation `a` on this memory finds, and the memory that it leaves behind. A
    /// comparison of wakers may come out another way.
    pub open spec fn response(self, a: Action<T, W>) -> (Event, Memory<T, W>) {
        match a {
            Action::Rest | Action::TakeValue => (Event::Done, self),
            Action::Update(c) => match c.target(self.word) {
                Some(word) => (Event::Updated(Ok(self.word)), Memory { word, ..self }),
                None => (Event::Updated(Err(self.word)), self),
            },
            Action::PutValue(item) => (Event::Done, Memory { value: Some(item), ..self }),
            Action::PutRxWaker(w) => (Event::Done, Memory { rx_waker: Some(w), ..self }),
            Action::PutTxWaker(w) => (Event::Done, Memory { tx_waker: Some(w), ..self }),
            Action::CompareRx(_) | Action::CompareTx(_) => (Event::Same(false), self),
            Action::WakeRx => match self.rx_waker {
                Some(w) => (Event::Done, Memory { rx_wakes: self.rx_wakes.push(w), ..self }),
                None => (Event::Done, self),
            },
            Action::WakeTx => match self.tx_waker {
                Some(w) => (Event::Done, Memory { tx_wakes: self.tx_wakes.push(w), ..self }),
                None => (Event::Done, self),
            },
            Action::Release => (
                Event::Done,
                Memory { value: None, rx_waker: None, tx_waker: None, live: false, ..self },
            ),
        }
    }

    /// Whether the operation `a` on this memory finds `e` and leaves `after` behind. Two wakers
    /// for one task may fail to be recognised as such.
    pub open spec fn performs(self, a: Action<T, W>, e: Event, after: Memory<T, W>) -> bool {
        match a {
            Action::Rest | Action::TakeValue => false,
            Action::CompareRx(w) => {
                &&& e is Same
                &&& e->Same_0 ==> self.rx_waker == Some(w)
                &&& after == self
            },
            Action::CompareTx(w) => {
                &&& e is Same
                &&& e->Same_0 ==> self.tx_waker == Some(w)
                &&& after == self
            },
            _ => (e, after) == self.response(a),
        }
    }
}

/// A channel: its memory, where its two sides stand, and the item that was sent, if any.
pub struct Channel<T, W> {
    pub memory: Memory<T, W>,
    pub tx: TxAt<T, W>,
    pub rx: RxAt<T, W>,
    pub sent: Option<T>,
}

/// A step of a channel, taken by one of its sides.
pub enum Step<T, W> {
    /// A step of the sender.
    Tx(TxEvent<T, W>),
    /// A step of the receiver.
    Rx(RxEvent<T, W>),
}

impl<T, W> Channel<T, W> {
    /// A new channel.
    pub open spec fn initial() -> Channel<T, W> {
        Channel {
            memory: Memory::initial(),
            tx: TxAt::initial(),
            rx: RxAt::initial(),
            sent: None,
        }
    }

    /// Whether the step leads from this channel to `after`.
    pub open spec fn takes(self, step: Step<T, W>, after: Channel<T, W>) -> bool {
        match step {
            Step::Tx(e) => {
                &&& self.tx.allows(e)
                &&& after.tx == self.tx.next(e)
                &&& after.rx == self.rx
                &&& after.sent == match e {
                    TxEvent::Call(TxCall::Send(item)) => Some(item),
                    _ => self.sent,
                }
                &&& match e {
                    TxEvent::Call(_) => after.memory == self.memory,
                    TxEvent::Memory(found) => self.memory.performs(
                        self.tx.action(),
                        found,
                        after.memory,
                    ),
                }
            },
            Step::Rx(e) => {
                &&& self.rx.allows(e)
                &&& after.rx == self.rx.next(e)
                &&& after.tx == self.tx
                &&& after.sent == self.sent
                &&& match e {
                    RxEvent::Call(_) => after.memory == self.memory,
                    RxEvent::Memory(found) => self.memory.performs(
                        self.rx.action(),
                        found,
                        after.memory,
                    ),
                    RxEvent::Taken(item) => item == self.memory.value && after.memory == (Memory {
                        value: None,
                        ..self.memory
                    }),
                }
            },
        }
    }
}

/// Whether `channels` are the stages of one channel from its beginning on, each reached from
/// the one before by a step of `steps`.
pub open spec fn is_history<T, W>(channels: Seq<Channel<T, W>>, steps: Seq<Step<T, W>>) -> bool {
    &&& channels.len() == steps.len() + 1
    &&& channels[0] == Channel::<T, W>::initial()
    &&& forall|i: int|
        0 <= i < steps.len() ==> (#[trigger] channels[i]).takes(steps[i], channels[i + 1])
}

/// Whether some order of steps leads from a new channel to this one.
pub open spec fn reachable<T, W>(c: Channel<T, W>) -> bool {
    exists|channels: Seq<Channel<T, W>>, steps: Seq<Step<T, W>>|
        #[trigger] is_history(channels, steps) && c == channels.last()
}

/// The sender has not told the receiver yet that it is finished.
pub open spec fn tx_open<T, W>(tx: TxAt<T, W>) -> bool {
    !(tx is Wake || tx is Finish || tx is Release || tx is Done || tx is Lost)
}

/// The receiver has neither left nor learned that the sender is finished.
pub open spec fn rx_here<T, W>(rx: RxAt<T, W>) -> bool {
    !(rx is Take || rx is Settle || rx is WakeTx || rx is EndWaking || rx is Release || rx is Done)
}

/// The receiver has left and is busy waking the sender.
pub open spec fn rx_leaving<T, W>(rx: RxAt<T, W>) -> bool {
    rx is WakeTx || rx is EndWaking
}

/// The waker that the receiver counts on to be woken, where its place in the program tells.
pub open spec fn rx_pending<T, W>(rx: RxAt<T, W>) -> Option<W> {
    match rx {
        RxAt::Idle { pending } => pending,
        RxAt::Try { pending, .. } => pending,
        RxAt::Poll { pending, .. } => pending,
        RxAt::Leave { pending } => pending,
        _ => None,
    }
}

/// The receiver's waker is registered.
pub open spec fn rx_armed<T, W>(rx: RxAt<T, W>) -> bool {
    rx_pending(rx) is Some || rx is Compare || rx is Cancel || rx is GiveUp
}

/// What the sender last learned about the receiver, where its place in the program tells.
pub open spec fn tx_seen<T, W>(tx: TxAt<T, W>) -> Seen<W> {
    match tx {
        TxAt::Idle { seen } => seen,
        TxAt::Check { seen, .. } => seen,
        _ => Seen::Nothing,
    }
}

/// The sender's waker is registered, and the sender counts on it to be woken.
pub open spec fn tx_armed<T, W>(tx: TxAt<T, W>) -> bool {
    tx_seen(tx) is Waiting || tx is Compare
}

/// The end that the receiver is coming to, or has come to.
pub open spec fn rx_end<T, W>(rx: RxAt<T, W>) -> Option<RxEnd<T>> {
    match rx {
        RxAt::WakeTx { end } => Some(end),
        RxAt::EndWaking { end } => Some(end),
        RxAt::Release { end } => Some(end),
        RxAt::Done { end } => Some(end),
        _ => None,
    }
}

impl<T, W> Channel<T, W> {
    /// How the flags, and whether the channel is released, follow from where the sides stand.
    pub open spec fn flags_agree(self) -> bool {
        let w = self.memory.word;
        let rx = self.rx;
        &&& w.stray == 0
        &&& match self.tx {
            TxAt::Wake { exist, tx_waker } | TxAt::Finish { exist, tx_waker } => {
                &&& self.memory.live
                &&& exist == (self.sent is Some)
                &&& w == Word { close: rx is Done, ..Word::notified(exist, tx_waker) }
                &&& rx_here(rx) || rx is Take || rx is Settle || rx is Done
                &&& rx_here(rx) ==> rx_armed(rx)
                &&& rx is Done ==> !(rx_end(rx)->0 is Timeout)
            },
            TxAt::Release => self.memory.live && rx is Done,
            TxAt::Done => {
                &&& self.memory.live <==> !(rx is Done)
                &&& self.memory.live ==> w.lock && w.close && w.rx_waking == rx_leaving(rx)
                &&& rx_here(rx) || rx is Take || rx is Settle ==> w.exist == (self.sent is Some)
                &&& rx_here(rx) ==> !w.rx_waker
            },
            TxAt::Lost => false,
            _ => {
                &&& self.memory.live
                &&& !w.lock && !w.exist
                &&& rx_here(rx) || rx_leaving(rx) || rx is Done
                &&& w.close == !rx_here(rx)
                &&& w.rx_waking == rx_leaving(rx)
                &&& rx_here(rx) ==> w.rx_waker == rx_armed(rx)
                &&& !rx_here(rx) ==> rx_end(rx)->0 is Timeout || rx_end(rx)->0 is Dropped
            },
        }
    }

    /// Where the item is, and what the receiver's end says of it.
    pub open spec fn items_agree(self) -> bool {
        let m = self.memory;
        &&& match self.tx {
            TxAt::Put { item } => self.sent == Some(item) && m.value is None,
            TxAt::Notify { exist } => exist == (self.sent is Some) && m.value == self.sent,
            TxAt::Wake { .. } | TxAt::Finish { .. } | TxAt::Done => {
                &&& rx_here(self.rx) || self.rx is Take ==> m.value == self.sent
            },
            TxAt::Release => true,
            _ => self.sent is None && m.value is None,
        }
        &&& match self.rx {
            RxAt::Take { found } => {
                &&& found.lock && found.exist && self.sent is Some
                &&& found.close ==> m.word.close
            },
            RxAt::WakeTx { end } | RxAt::EndWaking { end } => end is Timeout || end is Dropped,
            RxAt::Settle { item } => item == self.sent && m.value is None,
            RxAt::Release { end } | RxAt::Done { end } => match end {
                RxEnd::Received(x) => self.sent == Some(x) && m.value is None && !tx_open(self.tx),
                RxEnd::Disconnected => self.sent is None && !tx_open(self.tx),
                _ => true,
            },
            _ => true,
        }
        &&& !m.live ==> m.value is None && m.rx_waker is None && m.tx_waker is None
    }

    /// What the receiver's slot holds and which of its wakers were woken.
    pub open spec fn rx_wakers_agree(self) -> bool {
        let m = self.memory;
        &&& m.live && rx_armed(self.rx) ==> m.rx_waker is Some
        &&& m.live && rx_pending(self.rx) is Some ==> m.rx_waker == rx_pending(self.rx)
        &&& m.live && self.rx is Register ==> m.rx_waker == Some(self.rx->Register_waker)
        &&& self.tx is Wake ==> m.rx_waker is Some
        &&& tx_open(self.tx) || self.tx is Wake ==> m.rx_wakes.len() == 0
        &&& !(tx_open(self.tx) || self.tx is Wake) && rx_armed(self.rx) ==> m.rx_wakes.len() == 1
            && m.rx_waker == Some(m.rx_wakes[0])
        &&& m.rx_wakes.len() <= 1
    }

    /// What the sender's slot holds and which of its wakers were woken.
    pub open spec fn tx_wakers_agree(self) -> bool {
        let m = self.memory;
        &&& tx_armed(self.tx) || self.tx is Retract ==> m.word.tx_waker && m.tx_waker is Some
        &&& tx_seen(self.tx) is Waiting ==> m.tx_waker == Some(tx_seen(self.tx)->Waiting_0)
        &&& tx_seen(self.tx) is Closed ==> m.word.close
        &&& (self.tx is Idle || self.tx is Check) && tx_seen(self.tx) is Nothing
            ==> !m.word.tx_waker
        &&& self.tx is Store || self.tx is Announce ==> !m.word.tx_waker
        &&& self.tx is Announce ==> m.tx_waker == Some(self.tx->Announce_waker)
        &&& tx_open(self.tx) && m.word.tx_waker ==> m.tx_waker is Some
        &&& rx_leaving(self.rx) ==> m.tx_waker is Some && !(self.tx is Store || self.tx is Announce)
        &&& !(self.rx is EndWaking || self.rx is Release || self.rx is Done) ==> m.tx_wakes.len()
            == 0
        &&& tx_armed(self.tx) && (self.rx is EndWaking || self.rx is Done) ==> m.tx_wakes.len() == 1
            && m.tx_waker == Some(m.tx_wakes[0])
        &&& m.tx_wakes.len() <= 1
    }

    /// What holds of a channel at every stage.
    pub open spec fn inv(self) -> bool {
        &&& self.flags_agree()
        &&& self.items_agree()
        &&& self.rx_wakers_agree()
        &&& self.tx_wakers_agree()
    }
}

proof fn lemma_tx_keeps_inv<T, W>(c: Channel<T, W>, e: TxEvent<T, W>, after: Channel<T, W>)
    requires
        c.inv(),
        c.takes(Step::Tx(e), after),
    ensures
        after.inv(),
{
}

proof fn lemma_rx_keeps_inv<T, W>(c: Channel<T, W>, e: RxEvent<T, W>, after: Channel<T, W>)
    requires
        c.inv(),
        c.takes(Step::Rx(e), after),
    ensures
        after.inv(),
{
}

pub proof fn lemma_step_keeps_inv<T, W>(c: Channel<T, W>, step: Step<T, W>, after: Channel<T, W>)
    requires
        c.inv(),
        c.takes(step, after),
    ensures
        after.inv(),
{
    match step {
        Step::Tx(e) => lemma_tx_keeps_inv(c, e, after),
        Step::Rx(e) => lemma_rx_keeps_inv(c, e, after),
    }
}

} // verus!
