//! Which calls on the shared memory each step of a handle takes, in all.
//!
//! A handle accounts for every call that was made with its pass: the calls of the log are those
//! that its steps take, step by step, and no others.
use crate::calls::{Call, Cloned, Compared, WakerSlot};
use crate::journal::{updated, RxJournal, TxJournal};
use crate::memory::OneShotInner;
use crate::model::Memory;
use crate::program::{rx_at, tx_at, Action, Event, RxAt, RxEvent, TxAt, TxEvent};
use crate::wakers::{waking_calls, WakerCompared, WakerPut, WakerWoken};
use crate::word::{word, Word};
use std::sync::Arc;
use std::task::Waker;
use vstd::prelude::*;

verus! {

/// The calls of all steps, one after the other.
pub open spec fn all_calls<C>(paid: Seq<Seq<C>>) -> Seq<C>
    decreases paid.len(),
{
    if paid.len() == 0 {
        Seq::empty()
    } else {
        all_calls(paid.drop_last()) + paid.last()
    }
}

/// The waker `copy` was cloned from `of`.
pub open spec fn is_clone(of: Waker, copy: Waker) -> bool {
    exists|did: Cloned| #[trigger] did.of() == of && did.copy() == copy
}

/// The two wakers were compared, with this answer.
pub open spec fn is_comparison(one: Waker, other: Waker, same: bool) -> bool {
    exists|did: Compared| #[trigger]
        did.one() == one && did.other() == other && did.same() == same
}

/// The operation `a` on the memory `m`, which found `e`, takes these calls.
pub open spec fn takes_calls<T>(
    m: OneShotInner<T>,
    a: Action<T, Waker>,
    seq_cst: bool,
    e: Event,
    calls: Seq<Call<T>>,
) -> bool {
    match a {
        Action::Rest | Action::TakeValue => false,
        Action::Update(change) => calls.len() == 1 && (calls[0] matches Call::Update {
            of,
            seq_cst: order,
            change: made,
            result,
        } && of == m.state_word() && order == seq_cst && made == change && e == updated(result)),
        Action::PutValue(item) => calls.len() == 1 && (calls[0] matches Call::Value {
            of,
            put,
            ..
        } && of == m.value_slot() && put == Some(item)) && e is Done,
        Action::PutRxWaker(waker) => calls.len() == 1 && (calls[0] matches Call::Offer { of, put }
            && of == m.rx_slot() && put is Some && is_clone(waker, *put->0)) && e is Done,
        Action::PutTxWaker(waker) => calls.len() == 1 && (calls[0] matches Call::Offer { of, put }
            && of == m.tx_slot() && put is Some && is_clone(waker, *put->0)) && e is Done,
        Action::CompareRx(waker) => calls.len() == 1 && (calls[0] matches Call::Peek { of, found }
            && of == m.rx_slot() && e is Same && match found {
            Some(held) => is_comparison(*held, waker, e->Same_0),
            None => !e->Same_0,
        }),
        Action::CompareTx(waker) => calls.len() == 1 && (calls[0] matches Call::Peek { of, found }
            && of == m.tx_slot() && e is Same && match found {
            Some(held) => is_comparison(*held, waker, e->Same_0),
            None => !e->Same_0,
        }),
        Action::WakeRx => calls.len() > 0 && (calls[0] matches Call::Peek { found, .. } && calls
            == waking_calls::<T>(m.rx_slot(), found)) && e is Done,
        Action::WakeTx => calls.len() > 0 && (calls[0] matches Call::Peek { found, .. } && calls
            == waking_calls::<T>(m.tx_slot(), found)) && e is Done,
        Action::Release => calls.len() > 0 && (calls[0] matches Call::Value { found, .. } && calls
            == m.releasing_calls(found)) && e is Done,
    }
}

/// A sender that stands at `at` takes these calls for the step `e`.
pub open spec fn tx_takes_calls<T>(
    m: OneShotInner<T>,
    at: TxAt<T, Waker>,
    e: TxEvent<T, Waker>,
    calls: Seq<Call<T>>,
) -> bool {
    match e {
        TxEvent::Call(_) => calls.len() == 0,
        TxEvent::Memory(found) => takes_calls(m, at.action(), false, found, calls),
    }
}

/// A receiver that stands at `at` takes these calls for the step `e`.
pub open spec fn rx_takes_calls<T>(
    m: OneShotInner<T>,
    at: RxAt<T, Waker>,
    e: RxEvent<T, Waker>,
    calls: Seq<Call<T>>,
) -> bool {
    match e {
        RxEvent::Call(_) => calls.len() == 0,
        RxEvent::Memory(found) => takes_calls(m, at.action(), at.seq_cst(), found, calls),
        RxEvent::Taken(item) => calls =~= seq![
            Call::Value { of: m.value_slot(), put: None, found: item },
        ],
    }
}

/// A sender that took the steps of `log` took these calls for them, step by step.
pub open spec fn tx_pays<T>(
    m: OneShotInner<T>,
    log: Seq<TxEvent<T, Waker>>,
    paid: Seq<Seq<Call<T>>>,
) -> bool {
    &&& paid.len() == log.len()
    &&& forall|i: int|
        0 <= i < log.len() ==> tx_takes_calls(m, tx_at(log.take(i)), log[i], #[trigger] paid[i])
}

/// A receiver that took the steps of `log` took these calls for them, step by step.
pub open spec fn rx_pays<T>(
    m: OneShotInner<T>,
    log: Seq<RxEvent<T, Waker>>,
    paid: Seq<Seq<Call<T>>>,
) -> bool {
    &&& paid.len() == log.len()
    &&& forall|i: int|
        0 <= i < log.len() ==> rx_takes_calls(m, rx_at(log.take(i)), log[i], #[trigger] paid[i])
}

/// One more step, and its calls.
pub proof fn lemma_tx_pays<T>(
    m: OneShotInner<T>,
    log: Seq<TxEvent<T, Waker>>,
    paid: Seq<Seq<Call<T>>>,
    e: TxEvent<T, Waker>,
    calls: Seq<Call<T>>,
)
    requires
        tx_pays(m, log, paid),
        tx_takes_calls(m, tx_at(log), e, calls),
    ensures
        tx_pays(m, log.push(e), paid.push(calls)),
        all_calls(paid.push(calls)) == all_calls(paid) + calls,
{
    let log1 = log.push(e);
    let paid1 = paid.push(calls);
    assert(paid1.drop_last() =~= paid);
    assert forall|i: int| 0 <= i < log1.len() implies tx_takes_calls(
        m,
        tx_at(log1.take(i)),
        log1[i],
        #[trigger] paid1[i],
    ) by {
        if i < log.len() {
            assert(log1.take(i) =~= log.take(i));
            assert(tx_takes_calls(m, tx_at(log.take(i)), log[i], paid[i]));
        } else {
            assert(log1.take(i) =~= log);
        }
    }
}

/// One more step, and its calls.
pub proof fn lemma_rx_pays<T>(
    m: OneShotInner<T>,
    log: Seq<RxEvent<T, Waker>>,
    paid: Seq<Seq<Call<T>>>,
    e: RxEvent<T, Waker>,
    calls: Seq<Call<T>>,
)
    requires
        rx_pays(m, log, paid),
        rx_takes_calls(m, rx_at(log), e, calls),
    ensures
        rx_pays(m, log.push(e), paid.push(calls)),
        all_calls(paid.push(calls)) == all_calls(paid) + calls,
{
    let log1 = log.push(e);
    let paid1 = paid.push(calls);
    assert(paid1.drop_last() =~= paid);
    assert forall|i: int| 0 <= i < log1.len() implies rx_takes_calls(
        m,
        rx_at(log1.take(i)),
        log1[i],
        #[trigger] paid1[i],
    ) by {
        if i < log.len() {
            assert(log1.take(i) =~= log.take(i));
            assert(rx_takes_calls(m, rx_at(log.take(i)), log[i], paid[i]));
        } else {
            assert(log1.take(i) =~= log);
        }
    }
}

/// What the word and the slots of a memory hold, and the wakers that were woken.
#[verifier::reject_recursive_types(T)]
pub struct Contents<T> {
    pub word: Word,
    pub value: Option<T>,
    pub rx_waker: Option<Arc<Waker>>,
    pub tx_waker: Option<Arc<Waker>>,
    pub woken: Seq<Waker>,
}

impl<T> Contents<T> {
    /// The call, made on the memory `m` that holds this, returns what it does. An attempt to
    /// change the word finds it and succeeds if the change applies; a slot gives what it holds.
    pub open spec fn answers(self, m: OneShotInner<T>, call: Call<T>) -> bool {
        match call {
            Call::Update { change, result, .. } => match result {
                Ok(s) => word(s) == self.word && change.target(self.word) is Some,
                Err(s) => word(s) == self.word && change.target(self.word) is None,
            },
            Call::Value { found, .. } => found == self.value,
            Call::Peek { of, found } => found == (if of == m.rx_slot() {
                self.rx_waker
            } else {
                self.tx_waker
            }),
            Call::Offer { .. } | Call::Wake { .. } => true,
        }
    }

    /// What the memory `m` holds after the call.
    pub open spec fn after(self, m: OneShotInner<T>, call: Call<T>) -> Contents<T> {
        match call {
            Call::Update { change, .. } => match change.target(self.word) {
                Some(word) => Contents { word, ..self },
                None => self,
            },
            Call::Value { put, .. } => Contents { value: put, ..self },
            Call::Offer { of, put } => if of == m.rx_slot() {
                Contents { rx_waker: put, ..self }
            } else {
                Contents { tx_waker: put, ..self }
            },
            Call::Peek { .. } => self,
            Call::Wake { waker } => Contents { woken: self.woken.push(waker), ..self },
        }
    }

    /// The calls, made one after the other, return what they do.
    pub open spec fn answers_all(self, m: OneShotInner<T>, calls: Seq<Call<T>>) -> bool
        decreases calls.len(),
    {
        calls.len() > 0 ==> self.answers_all(m, calls.drop_last()) && self.after_all(
            m,
            calls.drop_last(),
        ).answers(m, calls.last())
    }

    /// What the memory `m` holds after the calls.
    pub open spec fn after_all(self, m: OneShotInner<T>, calls: Seq<Call<T>>) -> Contents<T>
        decreases calls.len(),
    {
        if calls.len() == 0 {
            self
        } else {
            self.after_all(m, calls.drop_last()).after(m, calls.last())
        }
    }

    /// The model's memory that stands for this, where `task` tells the task of each waker.
    pub open spec fn stands_for<W>(self, task: spec_fn(Waker) -> W, memory: Memory<T, W>) -> bool {
        &&& memory.word == self.word
        &&& memory.value == self.value
        &&& memory.rx_waker == task_in(task, self.rx_waker)
        &&& memory.tx_waker == task_in(task, self.tx_waker)
    }
}

/// The task of the waker in a slot.
pub open spec fn task_in<W>(task: spec_fn(Waker) -> W, held: Option<Arc<Waker>>) -> Option<W> {
    match held {
        Some(waker) => Some(task(*waker)),
        None => None,
    }
}

/// The operation `a`, with tasks in place of wakers.
pub open spec fn of_tasks<T, W>(task: spec_fn(Waker) -> W, a: Action<T, Waker>) -> Action<T, W> {
    match a {
        Action::Rest => Action::Rest,
        Action::Update(change) => Action::Update(change),
        Action::PutValue(item) => Action::PutValue(item),
        Action::TakeValue => Action::TakeValue,
        Action::PutRxWaker(waker) => Action::PutRxWaker(task(waker)),
        Action::PutTxWaker(waker) => Action::PutTxWaker(task(waker)),
        Action::CompareRx(waker) => Action::CompareRx(task(waker)),
        Action::CompareTx(waker) => Action::CompareTx(task(waker)),
        Action::WakeRx => Action::WakeRx,
        Action::WakeTx => Action::WakeTx,
        Action::Release => Action::Release,
    }
}

/// `task` tells the task of each waker: a clone has that of the waker that it was cloned from,
/// and two wakers that were found to wake the same task do.
pub open spec fn tells_tasks<W>(task: spec_fn(Waker) -> W) -> bool {
    &&& forall|of: Waker, copy: Waker| #[trigger] is_clone(of, copy) ==> task(of) == task(copy)
    &&& forall|one: Waker, other: Waker| #[trigger]
        is_comparison(one, other, true) ==> task(one) == task(other)
}

proof fn lemma_one_call<T>(m: OneShotInner<T>, s: Contents<T>, calls: Seq<Call<T>>)
    requires
        calls.len() == 1,
        s.answers_all(m, calls),
    ensures
        s.answers(m, calls[0]),
        s.after_all(m, calls) == s.after(m, calls[0]),
{
    reveal_with_fuel(Contents::answers_all, 2);
    reveal_with_fuel(Contents::after_all, 2);
}

proof fn lemma_two_calls<T>(m: OneShotInner<T>, s: Contents<T>, calls: Seq<Call<T>>)
    requires
        calls.len() == 2,
        s.answers_all(m, calls),
    ensures
        s.answers(m, calls[0]),
        s.after_all(m, calls) == s.after(m, calls[0]).after(m, calls[1]),
{
    reveal_with_fuel(Contents::answers_all, 3);
    reveal_with_fuel(Contents::after_all, 3);
}

proof fn lemma_three_calls<T>(m: OneShotInner<T>, s: Contents<T>, calls: Seq<Call<T>>)
    requires
        calls.len() == 3,
        s.answers_all(m, calls),
    ensures
        s.after_all(m, calls) == s.after(m, calls[0]).after(m, calls[1]).after(m, calls[2]),
{
    reveal_with_fuel(Contents::answers_all, 4);
    reveal_with_fuel(Contents::after_all, 4);
}

/// The calls that an operation takes do to the memory what the model says, and nothing else:
/// they find what the operation finds, leave in the word and in each slot what it leaves there,
/// and wake the waker in a slot exactly where the operation is to wake it.
pub proof fn calls_do_what_the_model_says<T, W>(
    m: OneShotInner<T>,
    s: Contents<T>,
    a: Action<T, Waker>,
    seq_cst: bool,
    e: Event,
    calls: Seq<Call<T>>,
    task: spec_fn(Waker) -> W,
    memory: Memory<T, W>,
    after: Memory<T, W>,
)
    requires
        m.rx_slot() != m.tx_slot(),
        tells_tasks(task),
        takes_calls(m, a, seq_cst, e, calls),
        s.answers_all(m, calls),
        s.stands_for(task, memory),
        memory.performs(of_tasks(task, a), e, after),
    ensures
        s.after_all(m, calls).stands_for(task, after),
        s.after_all(m, calls).woken == s.woken + match a {
            Action::WakeRx => wakers_of(s.rx_waker),
            Action::WakeTx => wakers_of(s.tx_waker),
            _ => Seq::empty(),
        },
{
    if calls.len() == 1 {
        lemma_one_call(m, s, calls);
    } else if calls.len() == 2 {
        lemma_two_calls(m, s, calls);
    } else {
        lemma_three_calls(m, s, calls);
    }
}

/// The waker that a slot holds, if any.
pub open spec fn wakers_of(held: Option<Arc<Waker>>) -> Seq<Waker> {
    match held {
        Some(waker) => seq![*waker],
        None => Seq::empty(),
    }
}

/// The calls of an operation find what the model allows it to find: some step of the model's
/// memory answers them.
pub proof fn calls_find_what_the_model_says<T, W>(
    m: OneShotInner<T>,
    s: Contents<T>,
    a: Action<T, Waker>,
    seq_cst: bool,
    e: Event,
    calls: Seq<Call<T>>,
    task: spec_fn(Waker) -> W,
    memory: Memory<T, W>,
) -> (after: Memory<T, W>)
    requires
        m.rx_slot() != m.tx_slot(),
        tells_tasks(task),
        takes_calls(m, a, seq_cst, e, calls),
        s.answers_all(m, calls),
        s.stands_for(task, memory),
    ensures
        memory.performs(of_tasks(task, a), e, after),
{
    if calls.len() == 1 {
        lemma_one_call(m, s, calls);
    } else if calls.len() == 2 {
        lemma_two_calls(m, s, calls);
    } else {
        lemma_three_calls(m, s, calls);
    }
    memory.response(of_tasks(task, a)).1
}

/// The calls of taking the item hand out what its slot held, leave the slot empty, and touch
/// nothing else.
pub proof fn taking_the_item_takes_nothing_else<T>(
    m: OneShotInner<T>,
    s: Contents<T>,
    at: RxAt<T, Waker>,
    item: Option<T>,
    calls: Seq<Call<T>>,
)
    requires
        rx_takes_calls(m, at, RxEvent::Taken(item), calls),
        s.answers_all(m, calls),
    ensures
        item == s.value,
        s.after_all(m, calls) == (Contents { value: None, ..s }),
{
    lemma_one_call(m, s, calls);
}

/// A journal of a sender that accounts for its calls does: they are the calls of its entries, one
/// entry after the other, and those of each entry do to the memory what the model says of the
/// operation that the program called for, and nothing else.
pub proof fn senders_do_what_the_model_says<T, W>(
    journal: TxJournal<T>,
    i: int,
    e: Event,
    s: Contents<T>,
    task: spec_fn(Waker) -> W,
    memory: Memory<T, W>,
    after: Memory<T, W>,
)
    requires
        journal.accounted(),
        journal.memory().rx_slot() != journal.memory().tx_slot(),
        tells_tasks(task),
        0 <= i < journal.log().len(),
        journal.log()[i] == TxEvent::<T, Waker>::Memory(e),
        s.answers_all(journal.memory(), journal.paid()[i]),
        s.stands_for(task, memory),
        memory.performs(of_tasks(task, tx_at(journal.log().take(i)).action()), e, after),
    ensures
        journal.calls() == all_calls(journal.paid()),
        journal.paid().len() == journal.log().len(),
        s.after_all(journal.memory(), journal.paid()[i]).stands_for(task, after),
        s.after_all(journal.memory(), journal.paid()[i]).woken == s.woken + match tx_at(
            journal.log().take(i),
        ).action() {
            Action::WakeRx => wakers_of(s.rx_waker),
            _ => Seq::empty(),
        },
{
    let a = tx_at(journal.log().take(i)).action();
    assert(tx_takes_calls(
        journal.memory(),
        tx_at(journal.log().take(i)),
        journal.log()[i],
        journal.paid()[i],
    ));
    calls_do_what_the_model_says(
        journal.memory(),
        s,
        a,
        false,
        e,
        journal.paid()[i],
        task,
        memory,
        after,
    );
}

/// A journal of a receiver that accounts for its calls does, in the same way.
pub proof fn receivers_do_what_the_model_says<T, W>(
    journal: RxJournal<T>,
    i: int,
    e: Event,
    s: Contents<T>,
    task: spec_fn(Waker) -> W,
    memory: Memory<T, W>,
    after: Memory<T, W>,
)
    requires
        journal.accounted(),
        journal.memory().rx_slot() != journal.memory().tx_slot(),
        tells_tasks(task),
        0 <= i < journal.log().len(),
        journal.log()[i] == RxEvent::<T, Waker>::Memory(e),
        s.answers_all(journal.memory(), journal.paid()[i]),
        s.stands_for(task, memory),
        memory.performs(of_tasks(task, rx_at(journal.log().take(i)).action()), e, after),
    ensures
        journal.calls() == all_calls(journal.paid()),
        journal.paid().len() == journal.log().len(),
        s.after_all(journal.memory(), journal.paid()[i]).stands_for(task, after),
        s.after_all(journal.memory(), journal.paid()[i]).woken == s.woken + match rx_at(
            journal.log().take(i),
        ).action() {
            Action::WakeTx => wakers_of(s.tx_waker),
            _ => Seq::empty(),
        },
{
    let at = rx_at(journal.log().take(i));
    assert(rx_takes_calls(journal.memory(), at, journal.log()[i], journal.paid()[i]));
    calls_do_what_the_model_says(
        journal.memory(),
        s,
        at.action(),
        at.seq_cst(),
        e,
        journal.paid()[i],
        task,
        memory,
        after,
    );
}

/// A journal of a receiver that accounts for its calls took the item with one call, which handed
/// out what the slot held, left the slot empty, and touched nothing else.
pub proof fn receivers_take_what_is_there<T>(
    journal: RxJournal<T>,
    i: int,
    item: Option<T>,
    s: Contents<T>,
)
    requires
        journal.accounted(),
        0 <= i < journal.log().len(),
        journal.log()[i] == RxEvent::<T, Waker>::Taken(item),
        s.answers_all(journal.memory(), journal.paid()[i]),
    ensures
        item == s.value,
        s.after_all(journal.memory(), journal.paid()[i]) == (Contents { value: None, ..s }),
{
    let at = rx_at(journal.log().take(i));
    assert(rx_takes_calls(journal.memory(), at, journal.log()[i], journal.paid()[i]));
    taking_the_item_takes_nothing_else(journal.memory(), s, at, item, journal.paid()[i]);
}

/// Each attempt to change the word that a journal accounts for was made on the word of its
/// memory, with the change that the program called for, and read in the order that it called for;
/// and what was found is what came back.
pub proof fn attempts_are_those_called_for<T>(
    tx: TxJournal<T>,
    rx: RxJournal<T>,
    i: int,
    k: int,
)
    requires
        tx.accounted(),
        rx.accounted(),
    ensures
        0 <= i < tx.log().len() && 0 <= k < tx.paid()[i].len() ==> (
        tx.paid()[i][k] matches Call::Update { of, seq_cst, change, result } ==> of
            == tx.memory().state_word() && !seq_cst && tx_at(tx.log().take(i)).action()
            == Action::<T, Waker>::Update(change) && tx.log()[i] == TxEvent::<T, Waker>::Memory(
            match result {
                Ok(s) => Event::Updated(Ok(word(s))),
                Err(s) => Event::Updated(Err(word(s))),
            },
        )),
        0 <= i < rx.log().len() && 0 <= k < rx.paid()[i].len() ==> (
        rx.paid()[i][k] matches Call::Update { of, seq_cst, change, result } ==> of
            == rx.memory().state_word() && seq_cst == rx_at(rx.log().take(i)).seq_cst() && rx_at(
            rx.log().take(i),
        ).action() == Action::<T, Waker>::Update(change) && rx.log()[i]
            == RxEvent::<T, Waker>::Memory(
            match result {
                Ok(s) => Event::Updated(Ok(word(s))),
                Err(s) => Event::Updated(Err(word(s))),
            },
        )),
{
    if 0 <= i < tx.log().len() {
        assert(tx_takes_calls(tx.memory(), tx_at(tx.log().take(i)), tx.log()[i], tx.paid()[i]));
    }
    if 0 <= i < rx.log().len() {
        assert(rx_takes_calls(rx.memory(), rx_at(rx.log().take(i)), rx.log()[i], rx.paid()[i]));
    }
}

/// What counts as a clone or a comparison is there as the record of a call.
pub proof fn clones_and_comparisons_were_made(one: Waker, other: Waker, same: bool)
    ensures
        is_clone(one, other) ==> exists|did: Cloned| #[trigger] did.of() == one && did.copy()
            == other,
        is_comparison(one, other, same) ==> exists|did: Compared| #[trigger]
            did.one() == one && did.other() == other && did.same() == same,
{
}

/// The records of putting, waking and comparing wakers tell what they should: a clone of the
/// waker was put into the slot, the waker that was seen there was woken, and the answer is that
/// of a comparison with the waker that was seen.
pub proof fn waker_records_tell_the_truth(
    slot: WakerSlot,
    waker: Waker,
    put: WakerPut,
    woken: WakerWoken,
    compared: WakerCompared,
    same: bool,
)
    requires
        put.puts(slot, waker),
        woken.wakes(slot),
        compared.tells(slot, waker, same),
    ensures
        put.offered.of() == slot,
        put.offered.put() matches Some(held) && is_clone(waker, *held),
        woken.peeked.of() == slot,
        woken.peeked.found() matches Some(held) ==> woken.woken is Some && woken.woken->0.of()
            == *held,
        woken.peeked.found() is None ==> woken.woken is None,
        compared.peeked.of() == slot,
        same ==> compared.peeked.found() is Some,
        compared.peeked.found() matches Some(held) ==> is_comparison(*held, waker, same),
{
    assert(put.cloned.of() == waker);
    if let Some(did) = compared.compared {
        assert(did.one() == did.one());
    }
}

/// A handle that is called makes no calls for that: its journals enter none.
pub proof fn being_called_makes_no_calls<T>(tx: TxJournal<T>, rx: RxJournal<T>, i: int)
    requires
        tx.accounted(),
        rx.accounted(),
    ensures
        0 <= i < tx.log().len() && tx.log()[i] is Call ==> tx.paid()[i].len() == 0,
        0 <= i < rx.log().len() && rx.log()[i] is Call ==> rx.paid()[i].len() == 0,
{
    if 0 <= i < tx.log().len() {
        assert(tx_takes_calls(tx.memory(), tx_at(tx.log().take(i)), tx.log()[i], tx.paid()[i]));
    }
    if 0 <= i < rx.log().len() {
        assert(rx_takes_calls(rx.memory(), rx_at(rx.log().take(i)), rx.log()[i], rx.paid()[i]));
    }
}

/// No call is lost in the account: the calls of one step are all the calls of that step, and
/// those of more steps are the calls of the first and then those of the others.
pub proof fn all_calls_are_all<C>(one: Seq<C>, paid: Seq<Seq<C>>, more: Seq<Seq<C>>)
    ensures
        all_calls(seq![one]) == one,
        all_calls(paid + more) == all_calls(paid) + all_calls(more),
    decreases more.len(),
{
    assert(seq![one].drop_last() =~= Seq::empty());
    reveal_with_fuel(all_calls, 2);
    assert(all_calls(seq![one]) =~= one);
    if more.len() == 0 {
        assert(paid + more =~= paid);
        assert(all_calls(paid) + all_calls(more) =~= all_calls(paid));
    } else {
        all_calls_are_all(one, paid, more.drop_last());
        assert((paid + more).drop_last() =~= paid + more.drop_last());
        assert(all_calls(paid + more) =~= all_calls(paid) + all_calls(more));
    }
}

/// A call of a handle takes no calls on the memory by itself.
pub proof fn being_called_touches_nothing<T>(
    m: OneShotInner<T>,
    s: Contents<T>,
    tx: TxAt<T, Waker>,
    rx: RxAt<T, Waker>,
    tx_call: TxEvent<T, Waker>,
    rx_call: RxEvent<T, Waker>,
    tx_calls: Seq<Call<T>>,
    rx_calls: Seq<Call<T>>,
)
    requires
        tx_call is Call,
        rx_call is Call,
        tx_takes_calls(m, tx, tx_call, tx_calls),
        rx_takes_calls(m, rx, rx_call, rx_calls),
    ensures
        s.after_all(m, tx_calls) == s,
        s.after_all(m, rx_calls) == s,
{
}

/// Until a sender releases the channel, it puts into the slot of the item nothing but the item
/// that it was called to send, into the slot of its own waker nothing but clones of wakers that
/// it was called with, and into the receiver's slot nothing at all: what it has put there stays
/// until the receiver takes it, or the sender is called again.
pub proof fn sender_keeps_what_it_put<T>(
    m: OneShotInner<T>,
    log: Seq<TxEvent<T, Waker>>,
    paid: Seq<Seq<Call<T>>>,
    i: int,
    k: int,
)
    requires
        m.rx_slot() != m.tx_slot(),
        tx_pays(m, log, paid),
        0 <= i < paid.len(),
        0 <= k < paid[i].len(),
        !(tx_at(log.take(i)) is Release),
    ensures
        paid[i][k] matches Call::Value { put, .. } ==> (tx_at(log.take(i)) matches TxAt::Put {
            item,
        } && put == Some(item)),
        paid[i][k] matches Call::Offer { of, put } ==> (tx_at(log.take(i)) matches TxAt::Store {
            waker,
        } && of == m.tx_slot() && put is Some && is_clone(waker, *put->0)),
        paid[i][k] matches Call::Wake { .. } ==> tx_at(log.take(i)) is Wake,
{
}

/// Until a receiver releases the channel, it puts nothing into the slot of the item, and takes
/// what is there in one step of its program alone; into its own waker's slot it puts nothing but
/// clones of wakers that it was called with, and into the sender's nothing at all.
pub proof fn receiver_keeps_what_it_put<T>(
    m: OneShotInner<T>,
    log: Seq<RxEvent<T, Waker>>,
    paid: Seq<Seq<Call<T>>>,
    i: int,
    k: int,
)
    requires
        m.rx_slot() != m.tx_slot(),
        rx_pays(m, log, paid),
        0 <= i < paid.len(),
        0 <= k < paid[i].len(),
        !(rx_at(log.take(i)) is Release),
    ensures
        paid[i][k] matches Call::Value { put, found, .. } ==> put is None && log[i]
            == RxEvent::<T, Waker>::Taken(found),
        paid[i][k] matches Call::Offer { of, put } ==> (rx_at(log.take(i)) matches RxAt::Store {
            waker,
        } && of == m.rx_slot() && put is Some && is_clone(waker, *put->0)),
        paid[i][k] matches Call::Wake { .. } ==> rx_at(log.take(i)) is WakeTx,
{
}

} // verus!
