//! Waiting for the item: by blocking a thread, or next to a timer.
//!
//! Parking and yielding a thread, and polling a timer, are left to the caller. What is here
//! decides when to do so, and what the wait comes to.
use crate::backoff::{rounds_of, Backoff, BackoffConfig, Snooze};
use crate::error::{RecvError, RecvTimeoutError, TryRecvError};
use crate::handle::RxOneshot;
use crate::oneshot::{received, waited, Polled};
use crate::program::{rx_answers, RxAt, RxCall, RxEnd, RxEvent};
use std::task::Waker;
use vstd::prelude::*;

verus! {

/// What a thread that waits for the item is to do next.
#[derive(Debug)]
pub enum RecvStep<T> {
    /// Nothing: the wait is over, with the item, or with whether the time was up.
    Done(Result<T, bool>),
    /// Take another step.
    Again,
    /// Yield the time slice, then take another step.
    Yield,
    /// Park until the waker is woken, then take another step; or, where the time is up, call
    /// [`BlockingRecv::expire`].
    Park,
}

/// A wait of a thread for the item: it spins and yields for a while, then offers a waker and
/// parks.
#[verifier::reject_recursive_types(T)]
pub struct BlockingRecv<T> {
    rx: RxOneshot<T>,
    backoff: Backoff,
    parking: bool,
}

impl<T> BlockingRecv<T> {
    /// The receiver on whose behalf the thread waits.
    pub closed spec fn receiver(self) -> RxOneshot<T> {
        self.rx
    }

    /// How far the spinning has come.
    pub closed spec fn progress(self) -> Backoff {
        self.backoff
    }

    /// Whether a waker was offered, so that the thread parks.
    pub closed spec fn parks(self) -> bool {
        self.parking
    }

    /// The wait is under way or over. Its limits keep the number of spins of a step in range.
    pub open spec fn wf(self) -> bool {
        &&& self.receiver().wf()
        &&& self.receiver().attached() && self.parks()
            ==> self.receiver().at()->Idle_pending is Some
        &&& spins_in_range(self.progress().limits())
    }

    /// The next step of the wait, in which the item is received if the sender is finished.
    /// `waker` is to unpark the thread.
    pub fn step(&mut self, waker: &Waker) -> (r: RecvStep<T>)
        requires
            old(self).wf(),
        ensures
            final(self).wf(),
            final(self).receiver().origin() == old(self).receiver().origin(),
            final(self).progress().limits() == old(self).progress().limits(),
            !old(self).receiver().attached() ==> r == RecvStep::<T>::Done(Err(false))
                && *final(self) == *old(self),
            old(self).receiver().attached() && !(r is Done) ==> {
                &&& final(self).receiver().channel() == old(self).receiver().channel()
                &&& final(self).parks() == (old(self).parks() || old(self).progress().completed())
                &&& r is Park <==> final(self).parks()
                &&& r is Again ==> old(self).progress().taken() < old(
                    self,
                ).progress().limits().spin_limit
                &&& r is Yield ==> old(self).progress().taken() >= old(
                    self,
                ).progress().limits().spin_limit
                &&& r is Park ==> final(self).progress() == old(self).progress()
                &&& !(r is Park) ==> final(self).progress().taken() == old(self).progress().taken()
                    + 1
                &&& r is Again ==> final(self).progress().hints() == old(self).progress().hints()
                    + rounds_of(old(self).progress().taken())
                &&& r is Park && !old(self).parks() ==> final(self).receiver().at() == (RxAt::<
                    T,
                    Waker,
                >::Idle { pending: Some(*waker) })
                &&& !(r is Park) || old(self).parks() ==> final(self).receiver().at() == old(
                    self,
                ).receiver().at()
            },
            old(self).receiver().attached() ==> match r {
                RecvStep::Done(result) => {
                    &&& final(self).receiver().at() == (RxAt::<T, Waker>::Done {
                        end: waited(result),
                    })
                    &&& result != Err::<T, bool>(true)
                    &&& if old(self).parks() {
                        rechecks(old(self).receiver().record(), final(self).receiver().record())
                    } else {
                        ||| tries(old(self).receiver().record(), final(self).receiver().record())
                        ||| old(self).progress().completed() && registers(
                            old(self).receiver().record(),
                            *waker,
                            final(self).receiver().record(),
                        )
                        ||| old(self).progress().completed() && registers_and_rechecks(
                            old(self).receiver().record(),
                            *waker,
                            final(self).receiver().record(),
                        )
                    }
                },
                RecvStep::Again | RecvStep::Yield => tries(
                    old(self).receiver().record(),
                    final(self).receiver().record(),
                ),
                RecvStep::Park => if old(self).parks() {
                    rechecks(old(self).receiver().record(), final(self).receiver().record())
                } else {
                    registers_and_rechecks(
                        old(self).receiver().record(),
                        *waker,
                        final(self).receiver().record(),
                    )
                },
            },
    {
        if !self.rx.is_attached() {
            return RecvStep::Done(Err(false));
        }
        if self.parking {
            return match self.rx.attempt(true) {
                Ok(item) => RecvStep::Done(Ok(item)),
                Err(TryRecvError::Disconnected) => RecvStep::Done(Err(false)),
                Err(TryRecvError::Empty) => RecvStep::Park,
            };
        }
        match self.rx.attempt(false) {
            Ok(item) => {
                return RecvStep::Done(Ok(item));
            },
            Err(TryRecvError::Disconnected) => {
                return RecvStep::Done(Err(false));
            },
            Err(TryRecvError::Empty) => {},
        }
        match self.backoff.snooze() {
            Snooze::Spun => {
                return RecvStep::Again;
            },
            Snooze::Yield => {
                return RecvStep::Yield;
            },
            Snooze::Completed => {},
        }
        let ghost tried = self.rx.record();
        assert(tries(old(self).rx.record(), tried));
        match self.rx.register(waker) {
            Polled::Ready(Ok(item)) => {
                return RecvStep::Done(Ok(item));
            },
            Polled::Ready(Err(_)) => {
                return RecvStep::Done(Err(false));
            },
            Polled::Pending => {},
        }
        let ghost registered = self.rx.record();
        assert(registers(old(self).rx.record(), *waker, registered));
        self.parking = true;
        match self.rx.attempt(true) {
            Ok(item) => RecvStep::Done(Ok(item)),
            Err(TryRecvError::Disconnected) => RecvStep::Done(Err(false)),
            Err(TryRecvError::Empty) => RecvStep::Park,
        }
    }

    /// Gives up a wait whose time is up: `Err(true)` unless the sender turns out to be finished.
    pub fn expire(&mut self) -> (r: Result<T, bool>)
        requires
            old(self).wf(),
            old(self).receiver().attached(),
            old(self).parks(),
        ensures
            final(self).wf(),
            final(self).receiver().origin() == old(self).receiver().origin(),
            rx_answers(
                old(self).receiver().record(),
                RxCall::GiveUp,
                final(self).receiver().record(),
            ),
            final(self).receiver().at() == (RxAt::<T, Waker>::Done { end: waited(r) }),
    {
        self.rx.give_up()
    }
}

/// No step of a backoff with these limits spins too long to be counted.
pub open spec fn spins_in_range(limits: BackoffConfig) -> bool {
    limits.limit <= 32 || limits.spin_limit <= 32
}

/// The receiver's record grew by one attempt to receive.
pub open spec fn tries<T>(
    earlier: Seq<RxEvent<T, Waker>>,
    later: Seq<RxEvent<T, Waker>>,
) -> bool {
    rx_answers(earlier, RxCall::TryRecv, later)
}

/// The receiver's record grew by one attempt to receive in a wait that is about to park.
pub open spec fn rechecks<T>(
    earlier: Seq<RxEvent<T, Waker>>,
    later: Seq<RxEvent<T, Waker>>,
) -> bool {
    rx_answers(earlier, RxCall::Recheck, later)
}

/// The receiver's record grew by an attempt to receive and the offer of a waker.
pub open spec fn registers<T>(
    earlier: Seq<RxEvent<T, Waker>>,
    waker: Waker,
    later: Seq<RxEvent<T, Waker>>,
) -> bool {
    exists|tried: Seq<RxEvent<T, Waker>>|
        #[trigger] tries(earlier, tried) && rx_answers(tried, RxCall::Register(waker), later)
}

/// The receiver's record grew by an attempt to receive, the offer of a waker and another
/// attempt.
pub open spec fn registers_and_rechecks<T>(
    earlier: Seq<RxEvent<T, Waker>>,
    waker: Waker,
    later: Seq<RxEvent<T, Waker>>,
) -> bool {
    exists|registered: Seq<RxEvent<T, Waker>>|
        #[trigger] registers(earlier, waker, registered) && rechecks(registered, later)
}

impl<T> RxOneshot<T> {
    /// Begins to wait for the item, for as long as it takes. A waker that a poll has left is
    /// taken back before the thread parks. The result of the wait is to be read with
    /// [`recv_result`].
    pub fn recv(self, config: BackoffConfig) -> (r: BlockingRecv<T>)
        requires
            self.wf(),
            spins_in_range(config),
        ensures
            r.wf(),
            r.receiver() == self,
            r.progress().taken() == 0,
            r.progress().limits() == config,
            !r.parks(),
    {
        BlockingRecv { rx: self, backoff: Backoff::from(config), parking: false }
    }

    /// Begins to wait for the item, for a limited time that the caller measures. A waker that a
    /// poll has left is taken back before the thread parks. The result of the wait is to be read
    /// with [`recv_timeout_result`].
    pub fn recv_timeout(self, config: BackoffConfig) -> (r: BlockingRecv<T>)
        requires
            self.wf(),
            spins_in_range(config),
        ensures
            r.wf(),
            r.receiver() == self,
            r.progress().taken() == 0,
            r.progress().limits() == config,
            !r.parks(),
    {
        BlockingRecv { rx: self, backoff: Backoff::from(config), parking: false }
    }

    /// Waits for the item next to the timer `sleep`.
    pub fn recv_async_with_timer<F>(self, sleep: F) -> (r: OneshotTimeoutFuture<T, F>)
        ensures
            r.rx == self,
            r.sleep == sleep,
    {
        OneshotTimeoutFuture { rx: self, sleep }
    }
}

/// What a wait without a limit comes to.
pub fn recv_result<T>(r: Result<T, bool>) -> (result: Result<T, RecvError>)
    ensures
        result == match r {
            Ok(item) => Ok::<T, RecvError>(item),
            Err(_) => Err(RecvError),
        },
{
    match r {
        Ok(item) => Ok(item),
        Err(_) => Err(RecvError),
    }
}

/// What a wait for a limited time comes to.
pub fn recv_timeout_result<T>(r: Result<T, bool>) -> (result: Result<T, RecvTimeoutError>)
    ensures
        result == match r {
            Ok(item) => Ok::<T, RecvTimeoutError>(item),
            Err(true) => Err(RecvTimeoutError::Timeout),
            Err(false) => Err(RecvTimeoutError::Disconnected),
        },
{
    match r {
        Ok(item) => Ok(item),
        Err(true) => Err(RecvTimeoutError::Timeout),
        Err(false) => Err(RecvTimeoutError::Disconnected),
    }
}

/// A wait for the item next to a timer.
#[verifier::reject_recursive_types(T)]
pub struct OneshotTimeoutFuture<T, F> {
    pub rx: RxOneshot<T>,
    pub sleep: F,
}

impl<T, F> OneshotTimeoutFuture<T, F> {
    /// The first half of a poll: receives the item if the sender is finished. Only where it is
    /// not is the timer to be polled, and its answer given to [`timer_polled`].
    pub fn poll_rx(&mut self, waker: &Waker) -> (r: Polled<Result<T, RecvTimeoutError>>)
        requires
            old(self).rx.wf(),
        ensures
            final(self).rx.wf(),
            final(self).rx.origin() == old(self).rx.origin(),
            final(self).sleep == old(self).sleep,
            !old(self).rx.attached() ==> r == Polled::Ready(
                Err::<T, RecvTimeoutError>(RecvTimeoutError::Disconnected),
            ) && final(self).rx == old(self).rx,
            old(self).rx.attached() ==> {
                &&& rx_answers(old(self).rx.record(), RxCall::Poll(*waker), final(self).rx.record())
                &&& r != Polled::Ready(Err::<T, RecvTimeoutError>(RecvTimeoutError::Timeout))
                &&& final(self).rx.answers_poll(
                    old(self).rx,
                    *waker,
                    match r {
                        Polled::Ready(Ok(item)) => Polled::Ready(Ok(item)),
                        Polled::Ready(Err(_)) => Polled::Ready(Err(RecvError)),
                        Polled::Pending => Polled::Pending,
                    },
                )
            },
    {
        match self.rx.poll(waker) {
            Polled::Ready(Ok(item)) => Polled::Ready(Ok(item)),
            Polled::Ready(Err(_)) => Polled::Ready(Err(RecvTimeoutError::Disconnected)),
            Polled::Pending => Polled::Pending,
        }
    }
}

/// The second half of a poll next to a timer: what it answers where the sender is not finished
/// and the timer was polled.
pub fn timer_polled<T>(elapsed: bool) -> (r: Polled<Result<T, RecvTimeoutError>>)
    ensures
        r == (if elapsed {
            Polled::Ready(Err::<T, RecvTimeoutError>(RecvTimeoutError::Timeout))
        } else {
            Polled::Pending
        }),
{
    if elapsed {
        Polled::Ready(Err(RecvTimeoutError::Timeout))
    } else {
        Polled::Pending
    }
}

/// The result of a wait tells its end, and each end has its own result: the item with what was
/// received, `Err(true)` where the time was up, and `Err(false)` where there was no item.
pub proof fn results_tell_the_ends<T>(r: Result<T, bool>, polled: Result<T, RecvError>, item: T)
    ensures
        waited(r) == RxEnd::Received(item) <==> r == Ok::<T, bool>(item),
        waited(r) is Timeout <==> r == Err::<T, bool>(true),
        waited(r) is Disconnected <==> r == Err::<T, bool>(false),
        received(polled) == RxEnd::Received(item) <==> polled == Ok::<T, RecvError>(item),
        received(polled) is Disconnected <==> polled is Err,
        !(received(polled) is Timeout),
{
}

/// A poll is answered with an item exactly where the receiver is done with that item, with an
/// error where it is done without one, and with nothing yet where the waker of the poll is left
/// to be woken.
pub proof fn polls_are_answered_truly<T>(
    rx: RxOneshot<T>,
    before: RxOneshot<T>,
    waker: Waker,
    r: Polled<Result<T, RecvError>>,
    item: T,
)
    requires
        rx.answers_poll(before, waker, r),
    ensures
        r == Polled::Ready(Ok::<T, RecvError>(item)) <==> rx.at() == (RxAt::<T, Waker>::Done {
            end: RxEnd::Received(item),
        }),
        r is Ready && r->Ready_0 is Err <==> rx.at() == (RxAt::<T, Waker>::Done {
            end: RxEnd::Disconnected,
        }),
        r is Pending ==> rx.at() == (RxAt::<T, Waker>::Idle { pending: Some(waker) }),
        r is Pending <==> rx.at() is Idle,
{
}

} // verus!
