//! What holds of every channel, in whatever order its two sides take their steps.
use crate::model::{
    is_history, lemma_step_keeps_inv, reachable, rx_end, rx_here, tx_open, Channel, Memory, Step,
};
use crate::program::{
    end_with, lemma_rx_push, lemma_tx_push, rx_answers, rx_at, rx_continues, rx_follows,
    tx_answers, tx_at, tx_continues, tx_follows, Action, RxAt, RxCall, RxEnd, RxEvent, Seen, TxAt,
    TxCall, TxEvent,
};
use crate::word::Word;
use vstd::prelude::*;

verus! {

proof fn lemma_history_inv<T, W>(channels: Seq<Channel<T, W>>, steps: Seq<Step<T, W>>, i: int)
    requires
        is_history(channels, steps),
        0 <= i < channels.len(),
    ensures
        channels[i].inv(),
    decreases i,
{
    if i > 0 {
        lemma_history_inv(channels, steps, i - 1);
        assert(channels[i - 1].takes(steps[i - 1], channels[i - 1 + 1]));
        lemma_step_keeps_inv(channels[i - 1], steps[i - 1], channels[i]);
    }
}

/// The invariant holds of every channel.
pub proof fn every_channel_keeps_the_invariant<T, W>(c: Channel<T, W>)
    requires
        reachable(c),
    ensures
        c.inv(),
{
    let (channels, steps) = choose|channels: Seq<Channel<T, W>>, steps: Seq<Step<T, W>>|
        #[trigger] is_history(channels, steps) && c == channels.last();
    lemma_history_inv(channels, steps, channels.len() - 1);
}

/// The sender never finds a word that it does not know.
pub proof fn every_word_is_known<T, W>(c: Channel<T, W>)
    requires
        reachable(c),
    ensures
        !(c.tx is Lost),
        c.memory.word.stray == 0,
{
    every_channel_keeps_the_invariant(c);
}

/// An item that is received is the one that was sent.
pub proof fn received_item_was_sent<T, W>(c: Channel<T, W>, item: T)
    requires
        reachable(c),
        rx_end(c.rx) == Some(RxEnd::Received(item)),
    ensures
        c.sent == Some(item),
{
    every_channel_keeps_the_invariant(c);
}

/// The receiver is told that there is no item only where the sender left without one.
pub proof fn disconnected_means_no_item<T, W>(c: Channel<T, W>)
    requires
        reachable(c),
        rx_end(c.rx) == Some(RxEnd::<T>::Disconnected),
    ensures
        c.sent is None,
        !tx_open(c.tx),
{
    every_channel_keeps_the_invariant(c);
}

/// The receiver is in a call that ends its wait if the sender is finished.
pub open spec fn is_receiving<T, W>(rx: RxAt<T, W>) -> bool {
    rx is Try || rx is Poll || rx is Cancel || rx is Register || rx is GiveUp
}

/// The receiver is bound to end with what `sent` says.
pub open spec fn bound_to_end<T, W>(rx: RxAt<T, W>, sent: Option<T>) -> bool {
    match rx {
        RxAt::Take { .. } => true,
        RxAt::Settle { .. } => true,
        RxAt::Release { end } => end == end_with(sent),
        RxAt::Done { end } => end == end_with(sent),
        _ => is_receiving(rx),
    }
}

pub(crate) proof fn lemma_bound_to_end<T, W>(
    c: Channel<T, W>,
    step: Step<T, W>,
    after: Channel<T, W>,
)
    requires
        c.inv(),
        c.takes(step, after),
        !tx_open(c.tx),
        bound_to_end(c.rx, c.sent),
    ensures
        !tx_open(after.tx),
        after.sent == c.sent,
        bound_to_end(after.rx, after.sent),
{
}

/// What was sent is received: once the sender has told that it is finished, an attempt to
/// receive does not come back empty-handed, nor does a wait run out of time. It ends with the
/// item that was sent, or with the news that there is none.
pub proof fn finished_sender_is_noticed<T, W>(
    channels: Seq<Channel<T, W>>,
    steps: Seq<Step<T, W>>,
    i: int,
    j: int,
)
    requires
        is_history(channels, steps),
        0 <= i <= j < channels.len(),
        !tx_open(channels[i].tx),
        is_receiving(channels[i].rx),
    ensures
        !(channels[j].rx is Idle),
        channels[j].rx matches RxAt::Done { end } ==> end == end_with(channels[i].sent),
{
    lemma_finished_sender(channels, steps, i, j);
}

proof fn lemma_finished_sender<T, W>(
    channels: Seq<Channel<T, W>>,
    steps: Seq<Step<T, W>>,
    i: int,
    j: int,
)
    requires
        is_history(channels, steps),
        0 <= i <= j < channels.len(),
        !tx_open(channels[i].tx),
        is_receiving(channels[i].rx),
    ensures
        !tx_open(channels[j].tx),
        channels[j].sent == channels[i].sent,
        bound_to_end(channels[j].rx, channels[j].sent),
    decreases j,
{
    if i < j {
        lemma_finished_sender(channels, steps, i, j - 1);
        lemma_history_inv(channels, steps, j - 1);
        assert(channels[j - 1].takes(steps[j - 1], channels[j - 1 + 1]));
        lemma_bound_to_end(channels[j - 1], steps[j - 1], channels[j]);
    }
}

/// A side that is done stays so, and the receiver keeps its end.
pub proof fn done_is_for_good<T, W>(
    channels: Seq<Channel<T, W>>,
    steps: Seq<Step<T, W>>,
    i: int,
    j: int,
)
    requires
        is_history(channels, steps),
        0 <= i <= j < channels.len(),
    ensures
        channels[i].tx is Done ==> channels[j].tx is Done,
        channels[i].rx is Done ==> channels[j].rx == channels[i].rx,
    decreases j,
{
    if i < j {
        done_is_for_good(channels, steps, i, j - 1);
        assert(channels[j - 1].takes(steps[j - 1], channels[j - 1 + 1]));
    }
}

/// The receiver is past taking the item.
spec fn has_taken<T, W>(rx: RxAt<T, W>) -> bool {
    rx is Settle || rx is Release || rx is Done
}

proof fn lemma_has_taken<T, W>(
    channels: Seq<Channel<T, W>>,
    steps: Seq<Step<T, W>>,
    i: int,
    j: int,
)
    requires
        is_history(channels, steps),
        0 <= i <= j < channels.len(),
        has_taken(channels[i].rx),
    ensures
        has_taken(channels[j].rx),
    decreases j,
{
    if i < j {
        lemma_has_taken(channels, steps, i, j - 1);
        assert(channels[j - 1].takes(steps[j - 1], channels[j - 1 + 1]));
    }
}

/// The item is taken out of the channel no more than once.
pub proof fn item_is_taken_once<T, W>(
    channels: Seq<Channel<T, W>>,
    steps: Seq<Step<T, W>>,
    i: int,
    j: int,
)
    requires
        is_history(channels, steps),
        0 <= i < j < steps.len(),
        steps[i] is Rx,
        steps[i]->Rx_0 is Taken,
    ensures
        !(steps[j] is Rx && steps[j]->Rx_0 is Taken),
{
    assert(channels[i].takes(steps[i], channels[i + 1]));
    lemma_has_taken(channels, steps, i + 1, j);
    assert(channels[j].takes(steps[j], channels[j + 1]));
}

/// The channel is released by the time both sides are done and no sooner: nothing leaks, and
/// no side operates on a released channel.
pub proof fn released_when_both_are_done<T, W>(c: Channel<T, W>)
    requires
        reachable(c),
    ensures
        !c.memory.live <==> c.tx is Done && c.rx is Done,
        !c.memory.live ==> c.memory.value is None && c.memory.rx_waker is None
            && c.memory.tx_waker is None,
        !(c.tx.action() is Rest && c.rx.action() is Rest) ==> c.memory.live,
{
    every_channel_keeps_the_invariant(c);
}

/// Exactly one side releases the channel, as its last step: when it does, the other one is done.
pub proof fn one_side_releases<T, W>(c: Channel<T, W>)
    requires
        reachable(c),
    ensures
        c.tx is Release ==> c.rx is Done && c.memory.live,
        c.rx is Release ==> c.tx is Done && c.memory.live,
{
    every_channel_keeps_the_invariant(c);
}

/// When both sides are done, an item that was sent was either received or dropped with the
/// channel, which it was only if the receiver had given up or left.
pub proof fn item_is_received_or_dropped<T, W>(c: Channel<T, W>, item: T)
    requires
        reachable(c),
        c.tx is Done,
        c.rx is Done,
        c.sent == Some(item),
    ensures
        c.memory.value is None,
        rx_end(c.rx) == Some(RxEnd::Received(item)) || rx_end(c.rx) == Some(RxEnd::<T>::Timeout)
            || rx_end(c.rx) == Some(RxEnd::<T>::Dropped),
{
    every_channel_keeps_the_invariant(c);
}

/// Both operations touch the slot of the item.
pub open spec fn contend_for_value<T, W>(a: Action<T, W>, b: Action<T, W>) -> bool {
    let touches = |x: Action<T, W>| x is PutValue || x is TakeValue || x is Release;
    touches(a) && touches(b)
}

/// Both operations touch the receiver's waker, and one of them changes it.
pub open spec fn contend_for_rx_waker<T, W>(a: Action<T, W>, b: Action<T, W>) -> bool {
    let writes = |x: Action<T, W>| x is PutRxWaker || x is Release;
    let touches = |x: Action<T, W>| writes(x) || x is WakeRx || x is CompareRx;
    touches(a) && touches(b) && (writes(a) || writes(b))
}

/// Both operations touch the sender's waker, and one of them changes it.
pub open spec fn contend_for_tx_waker<T, W>(a: Action<T, W>, b: Action<T, W>) -> bool {
    let writes = |x: Action<T, W>| x is PutTxWaker || x is Release;
    let touches = |x: Action<T, W>| writes(x) || x is WakeTx || x is CompareTx;
    touches(a) && touches(b) && (writes(a) || writes(b))
}

/// The two sides are never about to operate on one slot in each other's way, so neither waits
/// for the lock of a slot: two that only read a waker hold it at the same time.
pub proof fn slots_are_not_contended<T, W>(c: Channel<T, W>)
    requires
        reachable(c),
    ensures
        !contend_for_value(c.tx.action(), c.rx.action()),
        !contend_for_rx_waker(c.tx.action(), c.rx.action()),
        !contend_for_tx_waker(c.tx.action(), c.rx.action()),
{
    every_channel_keeps_the_invariant(c);
}

/// A waker is put into its slot only while the flag that offers it to the other side is down.
pub proof fn offered_wakers_stay<T, W>(c: Channel<T, W>)
    requires
        reachable(c),
    ensures
        c.rx is Store ==> !c.memory.word.rx_waker,
        c.tx is Store ==> !c.memory.word.tx_waker,
{
    every_channel_keeps_the_invariant(c);
}

/// A slot whose waker is to be read or woken holds one.
pub proof fn awaited_wakers_are_there<T, W>(c: Channel<T, W>)
    requires
        reachable(c),
    ensures
        c.tx is Wake || c.rx is Compare ==> c.memory.rx_waker is Some,
        c.rx is WakeTx || c.tx is Compare ==> c.memory.tx_waker is Some,
{
    every_channel_keeps_the_invariant(c);
}

/// A receiver that waits is woken: if its last call told it to wait for `waker`, and the sender
/// is done, then `waker` was woken, and no other one.
pub proof fn waiting_receiver_is_woken<T, W>(c: Channel<T, W>, waker: W)
    requires
        reachable(c),
        c.rx == (RxAt::<T, W>::Idle { pending: Some(waker) }),
        c.tx is Done,
    ensures
        c.memory.rx_wakes == seq![waker],
{
    every_channel_keeps_the_invariant(c);
    assert(c.memory.rx_wakes =~= seq![waker]);
}

/// A sender that waits for the receiver to leave is woken: if its last call told it to wait
/// for `waker`, and the receiver is done, then `waker` was woken, and no other one.
pub proof fn waiting_sender_is_woken<T, W>(c: Channel<T, W>, waker: W)
    requires
        reachable(c),
        c.tx == (TxAt::<T, W>::Idle { seen: Seen::Waiting(waker) }),
        c.rx is Done,
    ensures
        c.memory.tx_wakes == seq![waker],
{
    every_channel_keeps_the_invariant(c);
    assert(c.memory.tx_wakes =~= seq![waker]);
}

/// No side is woken for nothing, nor twice: the receiver only by a sender that is finished, the
/// sender only by a receiver that has left.
pub proof fn wakes_have_a_cause<T, W>(c: Channel<T, W>)
    requires
        reachable(c),
    ensures
        c.memory.rx_wakes.len() <= 1,
        c.memory.rx_wakes.len() == 1 ==> !tx_open(c.tx),
        c.memory.tx_wakes.len() <= 1,
        c.memory.tx_wakes.len() == 1 ==> !rx_here(c.rx),
{
    every_channel_keeps_the_invariant(c);
}

/// As long as the sender is not finished, the word is closed exactly if the receiver has left.
pub proof fn closed_means_left<T, W>(c: Channel<T, W>)
    requires
        reachable(c),
        tx_open(c.tx),
    ensures
        c.memory.word.close <==> !rx_here(c.rx),
{
    every_channel_keeps_the_invariant(c);
}

/// What the sender was told about the receiver is true: that it has left, or that it was there.
pub proof fn seen_closed_means_left<T, W>(c: Channel<T, W>)
    requires
        reachable(c),
        c.tx == (TxAt::<T, W>::Idle { seen: Seen::Closed }),
    ensures
        !rx_here(c.rx),
{
    every_channel_keeps_the_invariant(c);
}

/// As long as the receiver has neither left nor learned that the sender is finished, the word
/// says that an item is there exactly if the sender is finished and has sent one.
pub proof fn exist_means_sent<T, W>(c: Channel<T, W>)
    requires
        reachable(c),
        rx_here(c.rx),
    ensures
        c.memory.word.exist <==> !tx_open(c.tx) && c.sent is Some,
        c.memory.word.exist ==> c.memory.value == c.sent,
{
    every_channel_keeps_the_invariant(c);
}

/// A wait that runs out of time does so in one step, before the sender is finished: the item is
/// either received or not there in time.
pub proof fn timeout_comes_before_the_item<T, W>(
    c: Channel<T, W>,
    e: RxEvent<T, W>,
    after: Channel<T, W>,
)
    requires
        reachable(c),
        c.rx is GiveUp,
        c.takes(Step::Rx(e), after),
    ensures
        rx_end(after.rx) == Some(RxEnd::<T>::Timeout) <==> tx_open(c.tx),
{
    every_channel_keeps_the_invariant(c);
}

/// Where the receiver finds that it cannot offer its waker, or take it back, the sender is
/// finished.
pub proof fn refused_receiver_finds_the_sender_finished<T, W>(c: Channel<T, W>)
    requires
        reachable(c),
    ensures
        !(c.rx is Try || c.rx is Poll) ==> (c.rx.action() matches Action::Update(change)
            ==> change.target(c.memory.word) is None ==> c.memory.word.lock),
        c.rx matches RxAt::Take { found } ==> found.lock,
{
    every_channel_keeps_the_invariant(c);
}

/// Where the sender, after waking the receiver, finds the word changed, the receiver has left.
pub proof fn refused_sender_finds_the_receiver_gone<T, W>(c: Channel<T, W>)
    requires
        reachable(c),
    ensures
        c.tx matches TxAt::Finish { exist, tx_waker } ==> c.memory.word != Word::notified(
            exist,
            tx_waker,
        ) ==> c.memory.word.close && c.rx is Done,
        c.tx is Retract && c.memory.word.close ==> !rx_here(c.rx),
{
    every_channel_keeps_the_invariant(c);
}

/// As long as the sender is not finished, no call of the receiver comes to an end but one that
/// gives up or leaves: an attempt comes back empty-handed, and a wait goes on, whether or not a
/// poll has left a waker before it.
pub proof fn no_end_before_the_sender_is_finished<T, W>(
    c: Channel<T, W>,
    e: RxEvent<T, W>,
    after: Channel<T, W>,
)
    requires
        reachable(c),
        tx_open(c.tx),
        rx_here(c.rx),
        !(c.rx is GiveUp || c.rx is Leave),
        c.takes(Step::Rx(e), after),
    ensures
        rx_here(after.rx),
{
    every_channel_keeps_the_invariant(c);
}

/// As long as the receiver has neither left nor learned of it, the word tells whether the sender
/// is finished.
pub proof fn lock_means_finished<T, W>(c: Channel<T, W>)
    requires
        reachable(c),
        rx_here(c.rx),
    ensures
        c.memory.word.lock <==> !tx_open(c.tx),
{
    every_channel_keeps_the_invariant(c);
}

/// A sender that asks whether the receiver has left is told so, if it has by the time that the
/// word is read; and it is not told so before.
pub proof fn left_receiver_is_noticed<T, W>(
    c: Channel<T, W>,
    e: TxEvent<T, W>,
    after: Channel<T, W>,
)
    requires
        reachable(c),
        c.tx is Check || c.tx is Retract || c.tx is Announce,
        c.takes(Step::Tx(e), after),
    ensures
        after.tx == (TxAt::<T, W>::Idle { seen: Seen::Closed }) <==> !rx_here(c.rx),
        !(c.tx is Announce) && rx_here(c.rx) ==> !(after.tx is Idle),
{
    every_channel_keeps_the_invariant(c);
}

/// What a waiting side counts on is there: as long as the channel is not released, the slot of a
/// side that was told to wait for a waker holds that waker, and the flag that offers it is up
/// until the other side is finished.
pub proof fn awaited_wakers_stay<T, W>(c: Channel<T, W>, waker: W)
    requires
        reachable(c),
    ensures
        c.tx == (TxAt::<T, W>::Idle { seen: Seen::Waiting(waker) }) ==> c.memory.tx_waker == Some(
            waker,
        ) && c.memory.word.tx_waker && c.memory.live,
        c.rx == (RxAt::<T, W>::Idle { pending: Some(waker) }) ==> c.memory.rx_waker == Some(waker)
            && c.memory.live && (tx_open(c.tx) ==> c.memory.word.rx_waker),
{
    every_channel_keeps_the_invariant(c);
}

/// The item stays where the sender put it: once the sender has told that it is finished, the slot
/// holds the item until the receiver takes it, leaves or gives up.
pub proof fn sent_item_stays<T, W>(c: Channel<T, W>, item: T)
    requires
        reachable(c),
        c.sent == Some(item),
        !tx_open(c.tx),
        rx_here(c.rx) || c.rx is Take,
    ensures
        c.memory.value == Some(item),
        rx_here(c.rx) ==> c.memory.word.exist,
{
    every_channel_keeps_the_invariant(c);
}

/// A channel carries one item: the one that is sent first stays the one that was sent.
pub proof fn one_item_is_sent<T, W>(
    channels: Seq<Channel<T, W>>,
    steps: Seq<Step<T, W>>,
    i: int,
    j: int,
)
    requires
        is_history(channels, steps),
        0 <= i <= j < channels.len(),
        channels[i].sent is Some,
    ensures
        channels[j].sent == channels[i].sent,
    decreases j,
{
    if i < j {
        one_item_is_sent(channels, steps, i, j - 1);
        lemma_history_inv(channels, steps, j - 1);
        assert(channels[j - 1].takes(steps[j - 1], channels[j - 1 + 1]));
    }
}

/// A receiver that left, or gave up, before the sender was finished is not woken.
pub proof fn left_receiver_is_not_woken<T, W>(
    channels: Seq<Channel<T, W>>,
    steps: Seq<Step<T, W>>,
    i: int,
    j: int,
)
    requires
        is_history(channels, steps),
        0 <= i <= j < channels.len(),
        tx_open(channels[i].tx),
        !rx_here(channels[i].rx),
    ensures
        channels[j].memory.rx_wakes.len() == 0,
        !rx_here(channels[j].rx),
        !(channels[j].tx is Wake || channels[j].tx is Finish),
    decreases j,
{
    lemma_history_inv(channels, steps, i);
    if i < j {
        left_receiver_is_not_woken(channels, steps, i, j - 1);
        lemma_history_inv(channels, steps, j - 1);
        assert(channels[j - 1].takes(steps[j - 1], channels[j - 1 + 1]));
    }
}

/// A sender that is not told of by a leaving receiver is not woken: its waker is woken only where
/// the receiver left while the sender was not finished and had offered a waker.
pub proof fn sender_is_woken_for_a_reason<T, W>(
    c: Channel<T, W>,
    e: RxEvent<T, W>,
    after: Channel<T, W>,
)
    requires
        reachable(c),
        c.rx is GiveUp || c.rx is Leave,
        c.takes(Step::Rx(e), after),
    ensures
        after.rx is WakeTx <==> tx_open(c.tx) && c.memory.word.tx_waker,
{
    every_channel_keeps_the_invariant(c);
}

/// The calls that receive do, from their first operation on; so does the offer of a waker, once
/// it is to be announced. (What that means is said by [`finished_sender_is_noticed`].)
pub proof fn receiving_calls_receive<T, W>(rx: RxAt<T, W>, waker: W)
    requires
        rx is Idle,
    ensures
        is_receiving(rx.called(RxCall::TryRecv)),
        is_receiving(rx.called(RxCall::Recheck)),
        is_receiving(rx.called(RxCall::Poll(waker))),
        is_receiving(rx.called(RxCall::GiveUp)),
        is_receiving(RxAt::<T, W>::Register { waker }),
        rx->Idle_pending is Some ==> is_receiving(rx.called(RxCall::Register(waker))),
        rx->Idle_pending is None ==> rx.called(RxCall::Register(waker)) == (RxAt::<T, W>::Store {
            waker,
        }),
{
}

/// The receiver reads the word in the order that all threads agree on exactly where it is about
/// to wait: in a poll, and in a wait that has offered its waker.
pub proof fn waits_read_in_order<T, W>(rx: RxAt<T, W>, waker: W)
    requires
        rx is Idle,
    ensures
        rx.called(RxCall::Poll(waker)).seq_cst(),
        rx.called(RxCall::Recheck).seq_cst(),
        !rx.called(RxCall::TryRecv).seq_cst(),
        !rx.called(RxCall::Register(waker)).seq_cst(),
        !rx.called(RxCall::Close).seq_cst(),
{
}

/// The flags that tell of an end stay up: that the sender is finished, that an item is there,
/// and that one side has left.
pub proof fn final_flags_stay_up<T, W>(c: Channel<T, W>, step: Step<T, W>, after: Channel<T, W>)
    requires
        reachable(c),
        c.takes(step, after),
    ensures
        c.memory.word.lock ==> after.memory.word.lock,
        c.memory.word.exist ==> after.memory.word.exist,
        c.memory.word.close ==> after.memory.word.close,
{
    every_channel_keeps_the_invariant(c);
}

/// Each flag and each slot has an owner. Only the sender tells that it is finished and that an
/// item is there, and offers its own waker or takes it back; only the receiver offers its own
/// waker, and marks that it is waking the sender. No side puts a waker into the other's slot.
pub proof fn flags_and_slots_have_owners<T, W>(
    c: Channel<T, W>,
    step: Step<T, W>,
    after: Channel<T, W>,
)
    requires
        c.takes(step, after),
    ensures
        step is Rx ==> {
            &&& after.memory.word.lock == c.memory.word.lock
            &&& after.memory.word.exist == c.memory.word.exist
            &&& after.memory.word.tx_waker == c.memory.word.tx_waker
            &&& !(c.rx is Release) ==> after.memory.tx_waker == c.memory.tx_waker
        },
        step is Tx ==> {
            &&& after.memory.word.rx_waking == c.memory.word.rx_waking
            &&& after.memory.word.rx_waker ==> c.memory.word.rx_waker
            &&& !(c.tx is Release) ==> after.memory.rx_waker == c.memory.rx_waker
        },
{
}

/// The steps of the sender among `steps`.
pub open spec fn tx_record<T, W>(steps: Seq<Step<T, W>>) -> Seq<TxEvent<T, W>>
    decreases steps.len(),
{
    if steps.len() == 0 {
        Seq::empty()
    } else {
        let rest = tx_record(steps.drop_last());
        match steps.last() {
            Step::Tx(e) => rest.push(e),
            Step::Rx(_) => rest,
        }
    }
}

/// The steps of the receiver among `steps`.
pub open spec fn rx_record<T, W>(steps: Seq<Step<T, W>>) -> Seq<RxEvent<T, W>>
    decreases steps.len(),
{
    if steps.len() == 0 {
        Seq::empty()
    } else {
        let rest = rx_record(steps.drop_last());
        match steps.last() {
            Step::Rx(e) => rest.push(e),
            _ => rest,
        }
    }
}

/// In every history, the steps of each side are such a record as its handle keeps, and the side
/// stands where its record says.
pub proof fn records_tell_where_the_sides_stand<T, W>(
    channels: Seq<Channel<T, W>>,
    steps: Seq<Step<T, W>>,
)
    requires
        is_history(channels, steps),
    ensures
        tx_follows(tx_record(steps)),
        channels.last().tx == tx_at(tx_record(steps)),
        rx_follows(rx_record(steps)),
        channels.last().rx == rx_at(rx_record(steps)),
    decreases steps.len(),
{
    if steps.len() > 0 {
        let n = steps.len() - 1;
        let channels0 = channels.drop_last();
        let steps0 = steps.drop_last();
        assert forall|i: int| 0 <= i < steps0.len() implies (#[trigger] channels0[i]).takes(
            steps0[i],
            channels0[i + 1],
        ) by {
            assert(channels[i].takes(steps[i], channels[i + 1]));
        }
        records_tell_where_the_sides_stand(channels0, steps0);
        assert(channels[n].takes(steps[n], channels[n + 1]));
        match steps.last() {
            Step::Tx(e) => lemma_tx_push(tx_record(steps0), e),
            Step::Rx(e) => lemma_rx_push(rx_record(steps0), e),
        }
    }
}

/// The item of a channel is the one that its sender's record tells of.
proof fn lemma_record_tells_the_item<T, W>(channels: Seq<Channel<T, W>>, steps: Seq<Step<T, W>>)
    requires
        is_history(channels, steps),
    ensures
        channels.last().sent matches Some(item) ==> tx_record(steps).contains(
            TxEvent::Call(TxCall::Send(item)),
        ),
    decreases steps.len(),
{
    if steps.len() > 0 {
        let n = steps.len() - 1;
        let channels0 = channels.drop_last();
        let steps0 = steps.drop_last();
        assert forall|i: int| 0 <= i < steps0.len() implies (#[trigger] channels0[i]).takes(
            steps0[i],
            channels0[i + 1],
        ) by {
            assert(channels[i].takes(steps[i], channels[i + 1]));
        }
        lemma_record_tells_the_item(channels0, steps0);
        assert(channels[n].takes(steps[n], channels[n + 1]));
        let before = tx_record(steps0);
        let record = tx_record(steps);
        assert forall|e: TxEvent<T, W>| before.contains(e) implies record.contains(e) by {
            let i = before.index_of(e);
            assert(record[i] == e);
        }
        if steps.last() is Tx {
            assert(record[record.len() - 1] == steps.last()->Tx_0);
        }
    }
}

/// A receiver whose record ends with the receipt of an item has it from a sender whose record
/// tells that it was called to send that very item.
pub proof fn records_agree_on_the_item<T, W>(
    channels: Seq<Channel<T, W>>,
    steps: Seq<Step<T, W>>,
    item: T,
)
    requires
        is_history(channels, steps),
        rx_at(rx_record(steps)) == (RxAt::<T, W>::Done { end: RxEnd::Received(item) }),
    ensures
        tx_record(steps).contains(TxEvent::Call(TxCall::Send(item))),
{
    records_tell_where_the_sides_stand(channels, steps);
    assert(reachable(channels.last()));
    received_item_was_sent(channels.last(), item);
    lemma_record_tells_the_item(channels, steps);
}

/// A sender whose record tells that it was called to send an item has sent that one.
proof fn lemma_item_of_the_record<T, W>(
    channels: Seq<Channel<T, W>>,
    steps: Seq<Step<T, W>>,
    item: T,
)
    requires
        is_history(channels, steps),
        tx_record(steps).contains(TxEvent::Call(TxCall::Send(item))),
    ensures
        channels.last().sent == Some(item),
    decreases steps.len(),
{
    let send = TxEvent::<T, W>::Call(TxCall::Send(item));
    if steps.len() > 0 {
        let n = steps.len() - 1;
        let channels0 = channels.drop_last();
        let steps0 = steps.drop_last();
        assert forall|i: int| 0 <= i < steps0.len() implies (#[trigger] channels0[i]).takes(
            steps0[i],
            channels0[i + 1],
        ) by {
            assert(channels[i].takes(steps[i], channels[i + 1]));
        }
        lemma_history_inv(channels, steps, n);
        assert(channels[n].takes(steps[n], channels[n + 1]));
        let k = tx_record(steps).index_of(send);
        if k < tx_record(steps0).len() {
            assert(tx_record(steps0)[k] == send);
            lemma_item_of_the_record(channels0, steps0, item);
        }
    }
}

/// What was called to be sent is received: where the sender's record tells that it was called to
/// send an item, and it has told that it is finished, an attempt to receive ends with that very
/// item.
pub proof fn recorded_item_is_received<T, W>(
    channels: Seq<Channel<T, W>>,
    steps: Seq<Step<T, W>>,
    item: T,
    i: int,
    j: int,
)
    requires
        is_history(channels, steps),
        0 <= i <= j < channels.len(),
        tx_record(steps.take(i)).contains(TxEvent::Call(TxCall::Send(item))),
        !tx_open(channels[i].tx),
        is_receiving(channels[i].rx),
    ensures
        !(channels[j].rx is Idle),
        channels[j].rx matches RxAt::Done { end } ==> end == RxEnd::Received(item),
{
    let channels0 = channels.take(i + 1);
    let steps0 = steps.take(i);
    assert forall|k: int| 0 <= k < steps0.len() implies (#[trigger] channels0[k]).takes(
        steps0[k],
        channels0[k + 1],
    ) by {
        assert(channels[k].takes(steps[k], channels[k + 1]));
    }
    lemma_item_of_the_record(channels0, steps0, item);
    finished_sender_is_noticed(channels, steps, i, j);
}

/// The number of operations that the sender has at most before it is between calls or done.
pub open spec fn tx_remaining<T, W>(at: TxAt<T, W>) -> nat {
    match at {
        TxAt::Idle { .. } | TxAt::Done | TxAt::Lost => 0,
        TxAt::Release | TxAt::Announce { .. } => 1,
        TxAt::Finish { .. } | TxAt::Store { .. } => 2,
        TxAt::Wake { .. } | TxAt::Retract { .. } => 3,
        TxAt::Notify { .. } | TxAt::Compare { .. } => 4,
        TxAt::Put { .. } | TxAt::Check { .. } => 5,
    }
}

/// The number of operations that the receiver has at most before it is between calls or done.
pub open spec fn rx_remaining<T, W>(at: RxAt<T, W>) -> nat {
    match at {
        RxAt::Idle { .. } | RxAt::Done { .. } => 0,
        RxAt::Release { .. } => 1,
        RxAt::Settle { .. } | RxAt::EndWaking { .. } => 2,
        RxAt::Take { .. } | RxAt::WakeTx { .. } => 3,
        RxAt::Try { .. } | RxAt::Register { .. } | RxAt::GiveUp | RxAt::Leave { .. } => 4,
        RxAt::Store { .. } => 5,
        RxAt::Cancel { .. } => 6,
        RxAt::Compare { .. } => 7,
        RxAt::Poll { .. } => 8,
    }
}

proof fn lemma_tx_remaining<T, W>(earlier: Seq<TxEvent<T, W>>, later: Seq<TxEvent<T, W>>)
    requires
        tx_follows(later),
        tx_continues(earlier, later),
    ensures
        later.len() - earlier.len() + tx_remaining(tx_at(later)) <= tx_remaining(tx_at(earlier)),
    decreases later.len(),
{
    if later.len() == earlier.len() {
        assert(later =~= earlier);
    } else {
        let before = later.drop_last();
        assert(later.last() == later[later.len() - 1]);
        assert forall|i: int| 0 <= i < earlier.len() implies #[trigger] before[i] == earlier[i] by {
            assert(later[i] == earlier[i]);
        }
        assert forall|i: int| earlier.len() <= i < before.len() implies !(
        #[trigger] before[i] is Call) by {
            assert(!(later[i] is Call));
        }
        lemma_tx_remaining(earlier, before);
    }
}

proof fn lemma_rx_remaining<T, W>(earlier: Seq<RxEvent<T, W>>, later: Seq<RxEvent<T, W>>)
    requires
        rx_follows(later),
        rx_continues(earlier, later),
    ensures
        later.len() - earlier.len() + rx_remaining(rx_at(later)) <= rx_remaining(rx_at(earlier)),
    decreases later.len(),
{
    if later.len() == earlier.len() {
        assert(later =~= earlier);
    } else {
        let before = later.drop_last();
        assert(later.last() == later[later.len() - 1]);
        assert forall|i: int| 0 <= i < earlier.len() implies #[trigger] before[i] == earlier[i] by {
            assert(later[i] == earlier[i]);
        }
        assert forall|i: int| earlier.len() <= i < before.len() implies !(
        #[trigger] before[i] is Call) by {
            assert(!(later[i] is Call));
        }
        lemma_rx_remaining(earlier, before);
    }
}

/// No call of the sender waits for the receiver: it is answered after five operations on the
/// shared memory at most.
pub proof fn sender_does_not_wait<T, W>(
    earlier: Seq<TxEvent<T, W>>,
    c: TxCall<T, W>,
    later: Seq<TxEvent<T, W>>,
)
    requires
        tx_answers(earlier, c, later),
    ensures
        later.len() <= earlier.len() + 1 + 5,
{
    lemma_tx_push(earlier, TxEvent::Call(c));
    lemma_tx_remaining(earlier.push(TxEvent::Call(c)), later);
}

/// No call of the receiver waits for the sender: it is answered after eight operations on the
/// shared memory at most.
pub proof fn receiver_does_not_wait<T, W>(
    earlier: Seq<RxEvent<T, W>>,
    c: RxCall<W>,
    later: Seq<RxEvent<T, W>>,
)
    requires
        rx_answers(earlier, c, later),
    ensures
        later.len() <= earlier.len() + 1 + 8,
{
    lemma_rx_push(earlier, RxEvent::Call(c));
    lemma_rx_remaining(earlier.push(RxEvent::Call(c)), later);
}

/// A side that is in a call can always take its next step.
pub proof fn sides_are_never_stuck<T, W>(c: Channel<T, W>)
    ensures
        !(c.tx.action() is Rest) ==> exists|e: TxEvent<T, W>, after: Channel<T, W>|
            e is Memory && #[trigger] c.takes(Step::Tx(e), after),
        !(c.rx.action() is Rest) ==> exists|e: RxEvent<T, W>, after: Channel<T, W>|
            !(e is Call) && #[trigger] c.takes(Step::Rx(e), after),
{
    let (e, memory) = c.memory.response(c.tx.action());
    if !(c.tx.action() is Rest) {
        let step = TxEvent::Memory(e);
        assert(c.takes(Step::Tx(step), Channel { memory, tx: c.tx.next(step), ..c }));
    }
    let (e, memory) = c.memory.response(c.rx.action());
    if c.rx is Take {
        let step = RxEvent::Taken(c.memory.value);
        let memory = Memory { value: None, ..c.memory };
        assert(c.takes(Step::Rx(step), Channel { memory, rx: c.rx.next(step), ..c }));
    } else if !(c.rx.action() is Rest) {
        let step = RxEvent::Memory(e);
        assert(c.takes(Step::Rx(step), Channel { memory, rx: c.rx.next(step), ..c }));
    }
}

/// A step from a channel that some history leads to is led to by a longer one.
pub proof fn histories_go_on<T, W>(c: Channel<T, W>, step: Step<T, W>, after: Channel<T, W>)
    requires
        reachable(c),
        c.takes(step, after),
    ensures
        reachable(after),
{
    let (channels, steps) = choose|channels: Seq<Channel<T, W>>, steps: Seq<Step<T, W>>|
        #[trigger] is_history(channels, steps) && c == channels.last();
    let channels1 = channels.push(after);
    let steps1 = steps.push(step);
    assert forall|i: int| 0 <= i < steps1.len() implies (#[trigger] channels1[i]).takes(
        steps1[i],
        channels1[i + 1],
    ) by {
        if i < steps.len() {
            assert(channels[i].takes(steps[i], channels[i + 1]));
        }
    }
    assert(is_history(channels1, steps1));
    assert(channels1.last() == after);
}

/// A new channel is one that some history leads to.
pub proof fn histories_begin<T, W>()
    ensures
        reachable(Channel::<T, W>::initial()),
{
    let channels = seq![Channel::<T, W>::initial()];
    assert(is_history(channels, Seq::<Step<T, W>>::empty()));
    assert(channels.last() == Channel::<T, W>::initial());
}

/// Every item can be sent and received.
pub proof fn every_item_can_get_through<T, W>(item: T)
    ensures
        exists|c: Channel<T, W>|
            #[trigger] reachable(c) && c.tx is Done && c.rx == (RxAt::<T, W>::Done {
                end: RxEnd::Received(item),
            }),
{
    histories_begin::<T, W>();
    let c0 = Channel::<T, W>::initial();
    let send = TxEvent::<T, W>::Call(TxCall::Send(item));
    let c1 = Channel { tx: c0.tx.next(send), sent: Some(item), ..c0 };
    histories_go_on(c0, Step::Tx(send), c1);
    let c2 = lemma_tx_response(c1);
    let c3 = lemma_tx_response(c2);
    let call = RxEvent::<T, W>::Call(RxCall::TryRecv);
    let c4 = Channel { rx: c3.rx.next(call), ..c3 };
    histories_go_on(c3, Step::Rx(call), c4);
    let c5 = lemma_rx_response(c4);
    let taken = RxEvent::<T, W>::Taken(c5.memory.value);
    let c6 = Channel {
        memory: Memory { value: None, ..c5.memory },
        rx: c5.rx.next(taken),
        ..c5
    };
    histories_go_on(c5, Step::Rx(taken), c6);
    let c7 = lemma_rx_response(c6);
    assert(reachable(c7) && c7.tx is Done && c7.rx == (RxAt::<T, W>::Done {
        end: RxEnd::Received(item),
    }));
}

/// The sender's next operation, done.
proof fn lemma_tx_response<T, W>(c: Channel<T, W>) -> (after: Channel<T, W>)
    requires
        reachable(c),
        !(c.tx.action() is Rest),
    ensures
        reachable(after),
        after == ({
            let (e, memory) = c.memory.response(c.tx.action());
            Channel { memory, tx: c.tx.after(e), ..c }
        }),
{
    let (e, memory) = c.memory.response(c.tx.action());
    let after = Channel { memory, tx: c.tx.after(e), ..c };
    histories_go_on(c, Step::Tx(TxEvent::Memory(e)), after);
    after
}

/// The receiver's next operation, done.
proof fn lemma_rx_response<T, W>(c: Channel<T, W>) -> (after: Channel<T, W>)
    requires
        reachable(c),
        !(c.rx.action() is Rest),
        !(c.rx is Take),
    ensures
        reachable(after),
        after == ({
            let (e, memory) = c.memory.response(c.rx.action());
            Channel { memory, rx: c.rx.after(e), ..c }
        }),
{
    let (e, memory) = c.memory.response(c.rx.action());
    let after = Channel { memory, rx: c.rx.after(e), ..c };
    histories_go_on(c, Step::Rx(RxEvent::Memory(e)), after);
    after
}

} // verus!
