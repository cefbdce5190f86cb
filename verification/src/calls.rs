//! The calls into the standard library that threads share memory by, each with a record of
//! itself.
//!
//! What such a call returns is up to the threads that share the memory, so nothing is claimed of
//! it. What the call was handed is not, and its record tells: where it was made, with what, and
//! what came back. The fields of a record are private, and nothing but the call makes one: who
//! holds a record has made the call.
//!
//! A call on the memory of a channel takes a [`Pass`] for that memory. There are two of them, one
//! for each side, made together with the memory and never again; and each call made with a pass
//! is added to its log. So the two logs tell of all the calls on the memory of a channel.
//! In the same way a guarded number is written with a [`Permit`] alone, which only the thread has
//! that raised the flag.
use crate::word::{word, Change};
use std::sync::atomic::{AtomicBool, AtomicU32, AtomicU8, Ordering};
use std::sync::{Arc, Mutex, RwLock};
use std::task::Waker;
use vstd::prelude::*;

verus! {

/// `std::task::Waker`, a handle by which a task is woken. Nothing is known of its inside.
#[verifier::external_type_specification]
#[verifier::external_body]
pub struct ExWaker(Waker);

/// `std::sync::Mutex`, a value that one thread at a time has access to.
#[verifier::external_type_specification]
#[verifier::external_body]
#[verifier::reject_recursive_types(T)]
pub struct ExMutex<T: ?Sized>(Mutex<T>);

/// `std::sync::RwLock`, a value that one thread at a time changes, or any number of them read.
#[verifier::external_type_specification]
#[verifier::external_body]
#[verifier::reject_recursive_types(T)]
pub struct ExRwLock<T: ?Sized>(RwLock<T>);

/// A place for one value, which one thread at a time has access to.
#[verifier::reject_recursive_types(T)]
pub struct Slot<T> {
    held: Mutex<Option<T>>,
    first: Ghost<Option<T>>,
}

/// The record of an exchange of what a slot holds.
#[verifier::reject_recursive_types(T)]
pub struct Exchanged<T> {
    of: Ghost<Slot<T>>,
    put: Ghost<Option<T>>,
    found: Ghost<Option<T>>,
}

impl<T> Exchanged<T> {
    /// The slot.
    pub closed spec fn of(self) -> Slot<T> {
        self.of@
    }

    /// What was put into the slot.
    pub closed spec fn put(self) -> Option<T> {
        self.put@
    }

    /// What was found there, and handed to the caller.
    pub closed spec fn found(self) -> Option<T> {
        self.found@
    }
}

/// The memory of a channel: a word of flags, a slot for the item, and one for the waker of each
/// side.
#[verifier::reject_recursive_types(T)]
pub struct Cells<T> {
    word: StateWord,
    value: Slot<T>,
    o_waker: WakerSlot,
    tx_waker: WakerSlot,
}

/// A call on the memory of a channel, or the waking of a waker that was found there.
#[allow(inconsistent_fields)]
#[verifier::reject_recursive_types(T)]
pub enum Call<T> {
    /// An attempt to change the word.
    Update { of: StateWord, seq_cst: bool, change: Change, result: Result<u8, u8> },
    /// An exchange of what the slot of the item holds.
    Value { of: Slot<T>, put: Option<T>, found: Option<T> },
    /// An exchange of what the slot of a waker holds.
    Offer { of: WakerSlot, put: Option<Arc<Waker>> },
    /// A look at what the slot of a waker holds.
    Peek { of: WakerSlot, found: Option<Arc<Waker>> },
    /// The waking of a waker.
    Wake { waker: Waker },
}

/// What one side of a channel needs to make calls on its memory, and the log of those it made.
/// It is there for the sake of proofs.
#[verifier::reject_recursive_types(T)]
pub struct Pass<T> {
    of: Ghost<Option<Cells<T>>>,
    log: Ghost<Seq<Call<T>>>,
}

impl<T> Pass<T> {
    /// The memory that the pass is for. One without may look at words, and no more.
    pub closed spec fn of(self) -> Option<Cells<T>> {
        self.of@
    }

    /// The calls that were made with it.
    pub closed spec fn log(self) -> Seq<Call<T>> {
        self.log@
    }

    /// The pass is for the slot of a waker.
    pub open spec fn covers(self, slot: WakerSlot) -> bool {
        self.of() matches Some(cells) && (slot == cells.rx_slot() || slot == cells.tx_slot())
    }

    /// One more call was made with the pass after it was `before`, and no other.
    pub open spec fn adds(self, before: Pass<T>, call: Call<T>) -> bool {
        self.of() == before.of() && self.log() == before.log().push(call)
    }

    /// A pass for no memory, to look at a word with.
    pub(crate) fn onlooker() -> (r: Self)
        ensures
            r.of() is None,
    {
        Pass { of: Ghost(None), log: Ghost(Seq::empty()) }
    }
}

impl<T> Cells<T> {
    /// The word of flags.
    pub closed spec fn state_word(&self) -> StateWord {
        self.word
    }

    /// The slot of the item.
    pub closed spec fn value_slot(&self) -> Slot<T> {
        self.value
    }

    /// The slot of the receiver's waker.
    pub closed spec fn rx_slot(&self) -> WakerSlot {
        self.o_waker
    }

    /// The slot of the sender's waker.
    pub closed spec fn tx_slot(&self) -> WakerSlot {
        self.tx_waker
    }

    /// A memory in which nothing is, and the two passes for it.
    pub(crate) fn new() -> (r: (Self, Pass<T>, Pass<T>))
        ensures
            r.0.state_word().first() == 0,
            r.0.value_slot().first() is None,
            r.0.rx_slot().first() is None,
            r.0.tx_slot().first() is None,
            r.1.of() == Some(r.0),
            r.1.log() == Seq::<Call<T>>::empty(),
            r.2.of() == Some(r.0),
            r.2.log() == Seq::<Call<T>>::empty(),
    {
        let cells = Cells {
            word: StateWord::new(0),
            value: Slot::new(None),
            o_waker: WakerSlot::new(None),
            tx_waker: WakerSlot::new(None),
        };
        let tx = Pass { of: Ghost(Some(cells)), log: Ghost(Seq::empty()) };
        let rx = Pass { of: Ghost(Some(cells)), log: Ghost(Seq::empty()) };
        (cells, tx, rx)
    }

    pub(crate) fn word(&self) -> (r: &StateWord)
        ensures
            *r == self.state_word(),
    {
        &self.word
    }

    pub(crate) fn value(&self) -> (r: &Slot<T>)
        ensures
            *r == self.value_slot(),
    {
        &self.value
    }

    pub(crate) fn o_waker(&self) -> (r: &WakerSlot)
        ensures
            *r == self.rx_slot(),
    {
        &self.o_waker
    }

    pub(crate) fn tx_waker(&self) -> (r: &WakerSlot)
        ensures
            *r == self.tx_slot(),
    {
        &self.tx_waker
    }
}

impl<T> Slot<T> {
    /// What the slot held to begin with.
    pub closed spec fn first(&self) -> Option<T> {
        self.first@
    }

    /// `Mutex::new` around `value`, which the slot thus holds to begin with.
    #[verifier::external_body]
    pub(crate) fn new(value: Option<T>) -> (r: Self)
        ensures
            r.first() == value,
    {
        Slot { first: Ghost(value), held: Mutex::new(value) }
    }

    /// Puts `value` into the slot and returns what was there, under the lock of `Mutex::lock`.
    /// Which value was there depends on the threads that share the slot; that it is the one
    /// returned, and that `value` is the one put, is what the record says. The lock is held for
    /// the exchange alone, in which nothing else runs, so a thread never asks for it twice. A
    /// lock that a panicking thread held is taken like any other.
    #[verifier::external_body]
    pub(crate) fn replace(&self, pass: &mut Pass<T>, value: Option<T>) -> (r: (
        Option<T>,
        Exchanged<T>,
    ))
        requires
            old(pass).of() matches Some(cells) && *self == cells.value_slot(),
        ensures
            r.1.of() == *self,
            r.1.put() == value,
            r.1.found() == r.0,
            final(pass).adds(*old(pass), (Call::Value { of: *self, put: value, found: r.0 })),
    {
        let put = Ghost(value);
        let found = match self.held.lock() {
            Ok(mut held) => core::mem::replace(&mut *held, value),
            Err(poisoned) => core::mem::replace(&mut *poisoned.into_inner(), value),
        };
        let did = Exchanged { of: Ghost(*self), put, found: Ghost(found) };
        pass.log = Ghost(pass.log@.push(Call::Value { of: *self, put: put@, found }));
        (found, did)
    }
}

/// A place for the waker of one side, which both sides may read at once.
pub struct WakerSlot {
    held: RwLock<Option<Arc<Waker>>>,
    first: Ghost<Option<Arc<Waker>>>,
}

/// The record of an exchange of what a waker's slot holds.
pub struct Offered {
    of: Ghost<WakerSlot>,
    put: Ghost<Option<Arc<Waker>>>,
}

impl Offered {
    /// The slot.
    pub closed spec fn of(self) -> WakerSlot {
        self.of@
    }

    /// What was put into the slot.
    pub closed spec fn put(self) -> Option<Arc<Waker>> {
        self.put@
    }
}

/// The record of a look at what a waker's slot holds.
pub struct Peeked {
    of: Ghost<WakerSlot>,
    found: Ghost<Option<Arc<Waker>>>,
}

impl Peeked {
    /// The slot.
    pub closed spec fn of(self) -> WakerSlot {
        self.of@
    }

    /// What the caller was handed another reference to.
    pub closed spec fn found(self) -> Option<Arc<Waker>> {
        self.found@
    }
}

impl WakerSlot {
    /// What the slot held to begin with.
    pub closed spec fn first(&self) -> Option<Arc<Waker>> {
        self.first@
    }

    /// `RwLock::new` around `waker`, which the slot thus holds to begin with.
    #[verifier::external_body]
    pub(crate) fn new(waker: Option<Arc<Waker>>) -> (r: Self)
        ensures
            r.first() == waker,
    {
        WakerSlot { first: Ghost(waker), held: RwLock::new(waker) }
    }

    /// Puts `waker` into the slot, under the lock of `RwLock::write`. What was there is dropped
    /// once the lock is let go: in the exchange nothing else runs, so a thread never asks for
    /// the lock twice. A lock that a panicking thread held is taken like any other.
    #[verifier::external_body]
    pub(crate) fn replace<T>(&self, pass: &mut Pass<T>, waker: Option<Arc<Waker>>) -> (r: Offered)
        requires
            old(pass).covers(*self),
        ensures
            r.of() == *self,
            r.put() == waker,
            final(pass).adds(*old(pass), (Call::Offer { of: *self, put: waker })),
    {
        pass.log = Ghost(pass.log@.push(Call::Offer { of: *self, put: waker }));
        let did = Offered { of: Ghost(*self), put: Ghost(waker) };
        let _old = match self.held.write() {
            Ok(mut held) => core::mem::replace(&mut *held, waker),
            Err(poisoned) => core::mem::replace(&mut *poisoned.into_inner(), waker),
        };
        did
    }

    /// Returns what the slot holds, and leaves it there, under the lock of `RwLock::read`, which
    /// other readers may hold at the same time. What it holds depends on the threads that share
    /// the slot; that it is what the caller is handed another reference to is what the record
    /// says. The lock is held for the copying of that reference alone, in which nothing else
    /// runs.
    #[verifier::external_body]
    pub(crate) fn peek<T>(&self, pass: &mut Pass<T>) -> (r: (Option<Arc<Waker>>, Peeked))
        requires
            old(pass).covers(*self),
        ensures
            r.1.of() == *self,
            r.1.found() == r.0,
            final(pass).adds(*old(pass), (Call::Peek { of: *self, found: r.0 })),
    {
        let found = match self.held.read() {
            Ok(held) => held.clone(),
            Err(poisoned) => poisoned.into_inner().clone(),
        };
        let did = Peeked { of: Ghost(*self), found: Ghost(found) };
        pass.log = Ghost(pass.log@.push(Call::Peek { of: *self, found }));
        (found, did)
    }
}

/// The word of flags of a channel.
pub struct StateWord {
    atomic: AtomicU8,
    first: Ghost<u8>,
}

impl StateWord {
    /// What the word was to begin with.
    pub closed spec fn first(&self) -> u8 {
        self.first@
    }

    /// `AtomicU8::new` of `word`, which the word thus is to begin with.
    #[verifier::external_body]
    pub(crate) fn new(word: u8) -> (r: Self)
        ensures
            r.first() == word,
    {
        StateWord { atomic: AtomicU8::new(word), first: Ghost(word) }
    }
}

/// The record of an attempt to change a word.
pub struct Updated {
    of: Ghost<StateWord>,
    seq_cst: Ghost<bool>,
    change: Ghost<Change>,
    result: Ghost<Result<u8, u8>>,
}

impl Updated {
    /// The word.
    pub closed spec fn of(self) -> StateWord {
        self.of@
    }

    /// Whether it was read in the order that all threads agree on, rather than only after what
    /// the other side did before it wrote.
    pub closed spec fn seq_cst(self) -> bool {
        self.seq_cst@
    }

    /// The change.
    pub closed spec fn change(self) -> Change {
        self.change@
    }

    /// What came back: the word that was there, and whether the change was made (`Ok`) or did
    /// not apply.
    pub closed spec fn result(self) -> Result<u8, u8> {
        self.result@
    }

    /// The word that was there.
    pub open spec fn found(self) -> u8 {
        match self.result() {
            Ok(s) => s,
            Err(s) => s,
        }
    }
}

/// `AtomicU8::fetch_update`: reads the word in the given order, asks `change` what to put in its
/// place, and does so in one step, in acquire-release order, starting over where another thread
/// changed the word meanwhile. `Ok` holds the word that was replaced, so the change applied to
/// it; `Err` holds one that the change did not apply to. Which word is found is up to the other
/// threads. The two orders that are asked for are among those that it takes without a panic.
#[verifier::external_body]
pub(crate) fn fetch_update<T>(
    state: &StateWord,
    pass: &mut Pass<T>,
    order: Ordering,
    change: Change,
) -> (r: (Result<u8, u8>, Updated))
    requires
        order is Acquire || order is SeqCst,
        change is Look || (old(pass).of() matches Some(cells) && *state == cells.state_word()),
    ensures
        r.0 matches Ok(s) ==> change.target(word(s)) is Some,
        r.0 matches Err(s) ==> change.target(word(s)) is None,
        r.1.of() == *state,
        r.1.seq_cst() == (order is SeqCst),
        r.1.change() == change,
        r.1.result() == r.0,
        final(pass).adds(
            *old(pass),
            (Call::Update { of: *state, seq_cst: order is SeqCst, change, result: r.0 }),
        ),
{
    let result = state.atomic.fetch_update(Ordering::AcqRel, order, |s| change.apply(s));
    let did = Updated {
        of: Ghost(*state),
        seq_cst: Ghost(order is SeqCst),
        change: Ghost(change),
        result: Ghost(result),
    };
    let seq_cst = Ghost(order is SeqCst);
    pass.log =
    Ghost(pass.log@.push(Call::Update { of: *state, seq_cst: seq_cst@, change, result }));
    (result, did)
}

/// A number that threads share. It may be guarded by a flag: then only who raised the flag may
/// write it.
pub struct NumberCell {
    atomic: AtomicU32,
    first: Ghost<u32>,
    guard: Ghost<Option<FlagCell>>,
}

impl NumberCell {
    /// What the number was to begin with.
    pub closed spec fn first(&self) -> u32 {
        self.first@
    }

    /// The flag that guards the number, if any.
    pub closed spec fn guard(&self) -> Option<FlagCell> {
        self.guard@
    }

    /// `AtomicU32::new` of `n`, which the number thus is to begin with.
    #[verifier::external_body]
    pub(crate) fn new(n: u32, guard: Option<&FlagCell>) -> (r: Self)
        ensures
            r.first() == n,
            r.guard() == match guard {
                Some(flag) => Some(*flag),
                None => None,
            },
    {
        let guard = Ghost(
            match guard {
                Some(flag) => Some(*flag),
                None => None,
            },
        );
        NumberCell { atomic: AtomicU32::new(n), first: Ghost(n), guard }
    }
}

/// What is needed to write a shared number, and the log of what was written with it. It is there
/// for the sake of proofs.
pub struct Permit {
    of: Ghost<Option<NumberCell>>,
    raiser: Ghost<Option<FlagCell>>,
    log: Ghost<Seq<u32>>,
}

impl Permit {
    /// The number that may be written with it, if any.
    pub closed spec fn of(self) -> Option<NumberCell> {
        self.of@
    }

    /// The flag that was raised to get it, if any.
    pub closed spec fn raiser(self) -> Option<FlagCell> {
        self.raiser@
    }

    /// What was written with it.
    pub closed spec fn log(self) -> Seq<u32> {
        self.log@
    }

    /// A permit to read, and no more.
    pub(crate) fn none() -> (r: Self)
        ensures
            r.of() is None,
            r.raiser() is None,
            r.log() == Seq::<u32>::empty(),
    {
        Permit { of: Ghost(None), raiser: Ghost(None), log: Ghost(Seq::empty()) }
    }

    /// A permit to write a number that no flag guards.
    pub(crate) fn open(number: &NumberCell) -> (r: Self)
        requires
            number.guard() is None,
        ensures
            r.of() == Some(*number),
            r.raiser() is None,
            r.log() == Seq::<u32>::empty(),
    {
        Permit { of: Ghost(Some(*number)), raiser: Ghost(None), log: Ghost(Seq::empty()) }
    }

    /// The permit of the thread that raised the flag that guards a number. The record of the
    /// raising is used up for it.
    pub(crate) fn claimed(raised: Raised, number: &NumberCell) -> (r: Self)
        requires
            raised.result() is Ok,
            number.guard() == Some(raised.of()),
        ensures
            r.of() == Some(*number),
            r.raiser() == Some(raised.of()),
            r.log() == Seq::<u32>::empty(),
    {
        let raiser = Ghost(Some(raised.of@));
        Permit { of: Ghost(Some(*number)), raiser, log: Ghost(Seq::empty()) }
    }
}

/// What is done to a shared number.
#[derive(Debug, Clone, Copy)]
pub enum Access {
    /// It is read.
    Read,
    /// This is written in its place.
    Write(u32),
}

impl Access {
    /// The log of what was written, after this.
    pub open spec fn logged(self, log: Seq<u32>) -> Seq<u32> {
        match self {
            Access::Read => log,
            Access::Write(n) => log.push(n),
        }
    }

    /// The number to put in place of the one that is there, if any.
    pub fn next(self, _found: u32) -> (r: Option<u32>)
        ensures
            r == match self {
                Access::Read => None::<u32>,
                Access::Write(n) => Some(n),
            },
    {
        match self {
            Access::Read => None,
            Access::Write(n) => Some(n),
        }
    }
}

/// The record of an access to a shared number.
pub struct Accessed {
    of: Ghost<NumberCell>,
    access: Ghost<Access>,
    release: Ghost<bool>,
    found: Ghost<u32>,
}

impl Accessed {
    /// The number.
    pub closed spec fn of(self) -> NumberCell {
        self.of@
    }

    /// What was done.
    pub closed spec fn access(self) -> Access {
        self.access@
    }

    /// Whether it was done in the order in which threads that then read the number see what was
    /// done before, rather than in none.
    pub closed spec fn release(self) -> bool {
        self.release@
    }

    /// The number that was there.
    pub closed spec fn found(self) -> u32 {
        self.found@
    }
}

/// `AtomicU32::fetch_update`, which reads the number without asking for an order, and puts what
/// `access` says in its place, if anything, in the given order. `Ok` holds the number that was
/// replaced, `Err` one that was left. Which number is found is up to the other threads.
#[verifier::external_body]
pub(crate) fn access_number(
    number: &NumberCell,
    permit: &mut Permit,
    order: Ordering,
    access: Access,
) -> (r: (Result<u32, u32>, Accessed))
    requires
        order is Relaxed || order is Release,
        access is Read || old(permit).of() == Some(*number),
    ensures
        r.0 is Ok <==> access is Write,
        r.0 matches Ok(n) ==> r.1.found() == n,
        r.0 matches Err(n) ==> r.1.found() == n,
        r.1.of() == *number,
        r.1.access() == access,
        r.1.release() == (order is Release),
        final(permit).of() == old(permit).of(),
        final(permit).raiser() == old(permit).raiser(),
        final(permit).log() == (match access {
            Access::Read => old(permit).log(),
            Access::Write(n) => old(permit).log().push(n),
        }),
{
    let result = number.atomic.fetch_update(order, Ordering::Relaxed, |n| access.next(n));
    let found = Ghost(
        match result {
            Ok(n) => n,
            Err(n) => n,
        },
    );
    let release = Ghost(order is Release);
    permit.log = Ghost(access.logged(permit.log@));
    (result, Accessed { of: Ghost(*number), access: Ghost(access), release, found })
}

/// A flag that threads share.
pub struct FlagCell {
    atomic: AtomicBool,
    first: Ghost<bool>,
}

impl FlagCell {
    /// Whether the flag was up to begin with.
    pub closed spec fn first(&self) -> bool {
        self.first@
    }

    /// `AtomicBool::new` of `up`, which the flag thus is to begin with.
    #[verifier::external_body]
    pub(crate) fn new(up: bool) -> (r: Self)
        ensures
            r.first() == up,
    {
        FlagCell { atomic: AtomicBool::new(up), first: Ghost(up) }
    }
}

/// What to put in place of a flag that is there, to raise it: nothing if it is up.
pub fn raised(up: bool) -> (r: Option<bool>)
    ensures
        r == if up {
            None::<bool>
        } else {
            Some(true)
        },
{
    if up {
        None
    } else {
        Some(true)
    }
}

/// The record of an attempt to raise a flag.
pub struct Raised {
    of: Ghost<FlagCell>,
    result: Ghost<Result<bool, bool>>,
}

impl Raised {
    /// The flag.
    pub closed spec fn of(self) -> FlagCell {
        self.of@
    }

    /// What came back: the flag as it was, and whether it was raised (`Ok`) or was up before.
    pub closed spec fn result(self) -> Result<bool, bool> {
        self.result@
    }
}

/// `AtomicBool::fetch_update`, which turns the flag from down to up in one step, without asking
/// for an order. `Ok` says that it was down, `Err` that it was up. Which it is, is up to the
/// other threads.
#[verifier::external_body]
pub(crate) fn raise_flag(flag: &FlagCell) -> (r: (Result<bool, bool>, Raised))
    ensures
        r.0 matches Ok(up) ==> !up,
        r.0 matches Err(up) ==> up,
        r.1.of() == *flag,
        r.1.result() == r.0,
{
    let result = flag.atomic.fetch_update(Ordering::Relaxed, Ordering::Relaxed, |up| raised(up));
    (result, Raised { of: Ghost(*flag), result: Ghost(result) })
}

/// The record of a wake.
pub struct Woken {
    of: Ghost<Waker>,
}

impl Woken {
    /// The waker that was woken.
    pub closed spec fn of(self) -> Waker {
        self.of@
    }
}

/// `Waker::wake_by_ref` wakes the task. What that does is up to the task's executor, so nothing
/// is claimed but that it was called on `waker`, which was found by the look before.
#[verifier::external_body]
pub(crate) fn wake<T>(waker: &Waker, pass: &mut Pass<T>) -> (r: Woken)
    requires
        old(pass).of() is Some,
        old(pass).log().len() > 0,
        old(pass).log().last() matches Call::Peek { found: Some(found), .. } && *found == *waker,
    ensures
        r.of() == *waker,
        final(pass).adds(*old(pass), (Call::Wake { waker: *waker })),
{
    waker.wake_by_ref();
    pass.log = Ghost(pass.log@.push(Call::Wake { waker: *waker }));
    Woken { of: Ghost(*waker) }
}

/// The record of a comparison of two wakers.
pub struct Compared {
    one: Ghost<Waker>,
    other: Ghost<Waker>,
    same: Ghost<bool>,
}

impl Compared {
    /// The waker that was asked.
    pub closed spec fn one(self) -> Waker {
        self.one@
    }

    /// The waker that it was compared with.
    pub closed spec fn other(self) -> Waker {
        self.other@
    }

    /// Whether they were found to wake the same task.
    pub closed spec fn same(self) -> bool {
        self.same@
    }
}

/// `Waker::will_wake` says whether two wakers wake the same task, as far as it can tell: it may
/// answer `false` for two that do. The answer rests on addresses, so nothing is claimed of it
/// but that it is the one returned for these two.
#[verifier::external_body]
pub(crate) fn will_wake(one: &Waker, other: &Waker) -> (r: (bool, Compared))
    ensures
        r.1.one() == *one,
        r.1.other() == *other,
        r.1.same() == r.0,
{
    let same = one.will_wake(other);
    (same, Compared { one: Ghost(*one), other: Ghost(*other), same: Ghost(same) })
}

/// The record of the cloning of a waker.
pub struct Cloned {
    of: Ghost<Waker>,
    copy: Ghost<Waker>,
}

impl Cloned {
    /// The waker that was cloned.
    pub closed spec fn of(self) -> Waker {
        self.of@
    }

    /// The clone.
    pub closed spec fn copy(self) -> Waker {
        self.copy@
    }
}

/// `Waker::clone` makes another waker for the same task. A waker's inside is not known, so
/// nothing is claimed but that the clone returned is one of `waker`.
#[verifier::external_body]
pub(crate) fn clone_waker(waker: &Waker) -> (r: (Waker, Cloned))
    ensures
        r.1.of() == *waker,
        r.1.copy() == r.0,
{
    let copy = waker.clone();
    let did = Cloned { of: Ghost(*waker), copy: Ghost(copy) };
    (copy, did)
}

/// The count of the spin hints that were issued for a wait. It is there for the sake of proofs.
pub struct Hints {
    count: Ghost<nat>,
}

impl Hints {
    /// How many hints were issued.
    pub closed spec fn count(self) -> nat {
        self.count@
    }

    /// None yet.
    pub(crate) fn new() -> (r: Self)
        ensures
            r.count() == 0,
    {
        Hints { count: Ghost(0) }
    }
}

/// `core::hint::spin_loop` tells the processor that the caller spins. It returns nothing and
/// leaves every value as it is, so nothing is claimed but that it was called once more.
#[verifier::external_body]
pub(crate) fn spin_loop(hints: &mut Hints)
    ensures
        final(hints).count() == old(hints).count() + 1,
{
    core::hint::spin_loop();
    hints.count = Ghost(hints.count@ + 1);
}

/// A record of an attempt to change a word tells the word that came back, whether as success or
/// not.
pub proof fn attempts_tell_the_word(did: Updated, s: u8)
    ensures
        did.result() == Ok::<u8, u8>(s) ==> did.found() == s,
        did.result() == Err::<u8, u8>(s) ==> did.found() == s,
{
}

} // verus!
