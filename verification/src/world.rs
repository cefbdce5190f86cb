//! Many channels side by side: what is done on one of them is seen on no other.
use crate::laws::{
    bound_to_end, every_channel_keeps_the_invariant, histories_begin, histories_go_on,
    is_receiving, lemma_bound_to_end,
};
use crate::model::{reachable, tx_open, Channel, Memory, Step};
use crate::program::{end_with, RxAt, RxCall, RxEvent};
use vstd::prelude::*;

verus! {

/// A step in a world of channels.
pub enum WorldStep<T, W> {
    /// A channel is made.
    Open,
    /// A side of the channel of this number takes a step.
    Of(int, Step<T, W>),
}

/// Whether the step leads from the channels `before` to the channels `after`. A new channel comes
/// last; a step on one channel leaves the others as they are.
pub open spec fn world_takes<T, W>(
    before: Seq<Channel<T, W>>,
    step: WorldStep<T, W>,
    after: Seq<Channel<T, W>>,
) -> bool {
    match step {
        WorldStep::Open => after == before.push(Channel::initial()),
        WorldStep::Of(i, step) => {
            &&& 0 <= i < before.len()
            &&& after.len() == before.len()
            &&& before[i].takes(step, after[i])
            &&& forall|k: int| 0 <= k < before.len() && k != i ==> #[trigger] after[k] == before[k]
        },
    }
}

/// Whether `worlds` are the stages of a world that begins without channels, each reached from the
/// one before by a step of `steps`.
pub open spec fn is_world<T, W>(
    worlds: Seq<Seq<Channel<T, W>>>,
    steps: Seq<WorldStep<T, W>>,
) -> bool {
    &&& worlds.len() == steps.len() + 1
    &&& worlds[0].len() == 0
    &&& forall|i: int|
        0 <= i < steps.len() ==> world_takes(#[trigger] worlds[i], steps[i], worlds[i + 1])
}

/// Each channel of a world is one that steps of its own two sides lead to, so that every law of a
/// channel holds of it, whatever is done on the others.
pub proof fn channels_do_not_interfere<T, W>(
    worlds: Seq<Seq<Channel<T, W>>>,
    steps: Seq<WorldStep<T, W>>,
    n: int,
    k: int,
)
    requires
        is_world(worlds, steps),
        0 <= n < worlds.len(),
        0 <= k < worlds[n].len(),
    ensures
        reachable(worlds[n][k]),
    decreases n,
{
    if n > 0 {
        assert(world_takes(worlds[n - 1], steps[n - 1], worlds[n - 1 + 1]));
        match steps[n - 1] {
            WorldStep::Open => {
                if k < worlds[n - 1].len() {
                    channels_do_not_interfere(worlds, steps, n - 1, k);
                } else {
                    histories_begin::<T, W>();
                }
            },
            WorldStep::Of(i, step) => {
                channels_do_not_interfere(worlds, steps, n - 1, k);
                if k == i {
                    histories_go_on(worlds[n - 1][k], step, worlds[n][k]);
                }
            },
        }
    }
}

/// Each receiver gets the item of its own channel: once the sender of a channel has told that it
/// is finished, an attempt to receive on that channel ends with what was sent there, whatever was
/// sent on the others.
pub proof fn receivers_get_their_own_items<T, W>(
    worlds: Seq<Seq<Channel<T, W>>>,
    steps: Seq<WorldStep<T, W>>,
    i: int,
    j: int,
    k: int,
)
    requires
        is_world(worlds, steps),
        0 <= i <= j < worlds.len(),
        0 <= k < worlds[i].len(),
        !tx_open(worlds[i][k].tx),
        is_receiving(worlds[i][k].rx),
    ensures
        k < worlds[j].len(),
        worlds[j][k].sent == worlds[i][k].sent,
        !(worlds[j][k].rx is Idle),
        worlds[j][k].rx matches RxAt::Done { end } ==> end == end_with(worlds[i][k].sent),
{
    lemma_own_items(worlds, steps, i, j, k);
}

proof fn lemma_own_items<T, W>(
    worlds: Seq<Seq<Channel<T, W>>>,
    steps: Seq<WorldStep<T, W>>,
    i: int,
    j: int,
    k: int,
)
    requires
        is_world(worlds, steps),
        0 <= i <= j < worlds.len(),
        0 <= k < worlds[i].len(),
        !tx_open(worlds[i][k].tx),
        is_receiving(worlds[i][k].rx),
    ensures
        k < worlds[j].len(),
        !tx_open(worlds[j][k].tx),
        worlds[j][k].sent == worlds[i][k].sent,
        bound_to_end(worlds[j][k].rx, worlds[j][k].sent),
    decreases j,
{
    if i < j {
        lemma_own_items(worlds, steps, i, j - 1, k);
        channels_do_not_interfere(worlds, steps, j - 1, k);
        every_channel_keeps_the_invariant(worlds[j - 1][k]);
        assert(world_takes(worlds[j - 1], steps[j - 1], worlds[j - 1 + 1]));
        if let WorldStep::Of(n, step) = steps[j - 1] {
            if n == k {
                lemma_bound_to_end(worlds[j - 1][k], step, worlds[j][k]);
            }
        }
    }
}

/// On a new channel no side has left, no item is there, and an attempt to receive comes back
/// empty-handed.
pub proof fn new_channels_are_empty<T, W>(e: RxEvent<T, W>, after: Channel<T, W>)
    requires
        ({
            let c = Channel::<T, W>::initial();
            let called = Channel { rx: c.rx.called(RxCall::TryRecv), ..c };
            called.takes(Step::Rx(e), after)
        }),
    ensures
        !Memory::<T, W>::initial().word.close,
        !Memory::<T, W>::initial().word.exist,
        !Memory::<T, W>::initial().word.lock,
        after == Channel::<T, W>::initial(),
{
}

} // verus!
