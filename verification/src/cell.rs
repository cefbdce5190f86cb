//! Numbers and flags that threads share, and what one thread can know of them.
//!
//! Another thread may change a shared value at any time, so nothing can be said of what it is.
//! What can be said is what one visit found there and left behind. A [`Visit`] tells that, and
//! is made of the records of the calls that it took.
use crate::calls::{
    access_number, raise_flag, Access, Accessed, FlagCell, NumberCell, Permit, Raised,
};
use std::sync::atomic::Ordering;
use vstd::prelude::*;

verus! {

/// A number that threads share, without agreeing on an order of their visits.
pub struct SharedNumber {
    cell: NumberCell,
}

/// One visit of a thread to a shared number. It is there for the sake of proofs.
pub struct Visit {
    pub read: Option<Accessed>,
    pub written: Option<Accessed>,
}

impl Visit {
    /// It was this number that was visited.
    pub open spec fn of(self, number: SharedNumber) -> bool {
        &&& self.read matches Some(did) ==> did.of() == number.number() && did.access() is Read
        &&& self.written matches Some(did) ==> did.of() == number.number() && did.access() is Write
    }

    /// What was found, if the visit looked.
    pub open spec fn found(self) -> Option<u32> {
        match self.read {
            Some(did) => Some(did.found()),
            None => None,
        }
    }

    /// Whether the visit wrote so that threads that then read the number see what was done
    /// before.
    pub open spec fn publishes(self) -> bool {
        self.written matches Some(did) && did.release()
    }

    /// What was left behind, if the visit wrote.
    pub open spec fn left(self) -> Option<u32> {
        match self.written {
            Some(did) => Some(did.access()->Write_0),
            None => None,
        }
    }
}

/// A visit tells of the calls that it took: it found what the call that read returned, left what
/// the call that wrote was handed, and visited the number that both were made on.
pub proof fn visits_tell_their_calls(visit: Visit, number: SharedNumber, n: u32)
    ensures
        visit.read matches Some(did) ==> visit.found() == Some(did.found()),
        visit.read is None ==> visit.found() is None,
        visit.written matches Some(did) ==> did.access() == Access::Write(n) ==> visit.left()
            == Some(n),
        visit.written is None ==> visit.left() is None,
        visit.of(number) && visit.read is Some ==> visit.read->0.of() == number.number()
            && visit.read->0.access() is Read,
        visit.of(number) && visit.written is Some ==> visit.written->0.of() == number.number()
            && visit.written->0.access() is Write,
        visit.publishes() <==> visit.written is Some && visit.written->0.release(),
{
}

impl SharedNumber {
    /// The number itself.
    pub closed spec fn number(self) -> NumberCell {
        self.cell
    }

    /// What the number was to begin with.
    pub closed spec fn first(self) -> u32 {
        self.cell.first()
    }

    pub fn new(n: u32) -> (r: Self)
        ensures
            r.first() == n,
            r.guard() is None,
    {
        SharedNumber { cell: NumberCell::new(n, None) }
    }

    /// The flag that guards the number, if any.
    pub closed spec fn guard(self) -> Option<FlagCell> {
        self.cell.guard()
    }

    /// A number that is to be written once, by who raises the flag.
    pub fn guarded(n: u32, flag: &SharedFlag) -> (r: Self)
        ensures
            r.first() == n,
            r.guard() == Some(flag.flag()),
    {
        SharedNumber { cell: NumberCell::new(n, Some(&flag.cell)) }
    }

    /// Reads the number.
    pub fn read(&self) -> (r: (u32, Visit))
        ensures
            r.1.of(*self),
            r.1.found() == Some(r.0),
            r.1.left() is None,
    {
        let mut permit = Permit::none();
        let (found, did) = access_number(
            &self.cell,
            &mut permit,
            Ordering::Relaxed,
            Access::Read,
        );
        let n: u32 = match found {
            Ok(n) => n,
            Err(n) => n,
        };
        (n, Visit { read: Some(did), written: None })
    }

    /// Writes `n`, in the visit that read the number before.
    pub fn write(&self, visit: Visit, n: u32) -> (r: Visit)
        requires
            self.guard() is None,
            visit.of(*self),
            visit.left() is None,
        ensures
            r.of(*self),
            r.found() == visit.found(),
            r.left() == Some(n),
            !r.publishes(),
    {
        let mut permit = Permit::open(&self.cell);
        let (_found, did) = access_number(
            &self.cell,
            &mut permit,
            Ordering::Relaxed,
            Access::Write(n),
        );
        Visit { read: visit.read, written: Some(did) }
    }

    /// Writes `n` without looking, for threads that then read it to see what was done before.
    pub fn publish(&self, n: u32) -> (r: Visit)
        requires
            self.guard() is None,
        ensures
            r.of(*self),
            r.found() is None,
            r.left() == Some(n),
            r.publishes(),
    {
        let mut permit = Permit::open(&self.cell);
        let (_found, did) = access_number(
            &self.cell,
            &mut permit,
            Ordering::Release,
            Access::Write(n),
        );
        Visit { read: None, written: Some(did) }
    }

    /// Uses up the claim of the thread that raised the flag that guards the number: writes `n`,
    /// if there is one, as [`SharedNumber::publish`] does, and writes nothing else.
    pub fn settle(&self, claim: Claim, n: Option<u32>) -> (r: (Option<Visit>, Settled))
        requires
            self.guard() == Some(claim.flag()),
            claim.won(),
        ensures
            r.1.of(*self),
            r.1.wrote() == (match n {
                Some(n) => seq![n],
                None => Seq::empty(),
            }),
            n is None ==> r.0 is None,
            n matches Some(n) ==> (r.0 matches Some(visit) && visit.of(*self) && visit.found()
                is None && visit.left() == Some(n) && visit.publishes()),
    {
        let mut permit = Permit::claimed(claim.raised, &self.cell);
        let visit = match n {
            Some(n) => {
                let (_found, did) = access_number(
                    &self.cell,
                    &mut permit,
                    Ordering::Release,
                    Access::Write(n),
                );
                Some(Visit { read: None, written: Some(did) })
            },
            None => None,
        };
        (visit, Settled { permit })
    }
}

/// What is left of a claim that was used up: its permit, which tells all that was written.
pub struct Settled {
    pub permit: Permit,
}

impl Settled {
    /// It was this guarded number that the claim was for.
    pub open spec fn of(self, number: SharedNumber) -> bool {
        &&& self.permit.of() == Some(number.number())
        &&& number.guard() is Some
        &&& self.permit.raiser() == number.guard()
    }

    /// What was written, in order.
    pub open spec fn wrote(self) -> Seq<u32> {
        self.permit.log()
    }
}

/// A flag that threads share, and that one of them raises.
pub struct SharedFlag {
    cell: FlagCell,
}

/// A shared flag as its threads find it, one after the other.
pub struct FlagState {
    pub up: bool,
}

impl FlagState {
    /// What an attempt to turn the flag from down to up returns: the flag as it was, as success
    /// if it was down.
    pub open spec fn answers(self) -> Result<bool, bool> {
        if self.up {
            Err(true)
        } else {
            Ok(false)
        }
    }

    /// The flag after such an attempt.
    pub open spec fn raised(self) -> FlagState {
        FlagState { up: true }
    }

    /// The flag after `n` attempts.
    pub open spec fn after(self, n: nat) -> FlagState {
        if n == 0 {
            self
        } else {
            self.raised()
        }
    }
}

/// However many attempts are made to raise a flag that is down, the first one gives a claim and
/// no other does.
pub proof fn one_claim_per_flag(flag: FlagState, n: nat)
    requires
        !flag.up,
    ensures
        flag.after(n + 1) == flag.after(n).raised(),
        flag.after(n).answers() is Ok <==> n == 0,
{
}

/// What the thread has that raised a flag.
pub struct Claim {
    raised: Raised,
}

impl Claim {
    /// The flag that was raised.
    pub closed spec fn flag(self) -> FlagCell {
        self.raised.of()
    }

    /// It was raised by who holds this.
    pub closed spec fn won(self) -> bool {
        self.raised.result() is Ok
    }

    /// It was this flag that was raised.
    pub open spec fn of(self, flag: SharedFlag) -> bool {
        self.flag() == flag.flag() && self.won()
    }
}

impl SharedFlag {
    /// Whether the flag was up to begin with.
    pub closed spec fn first(self) -> bool {
        self.cell.first()
    }

    /// A flag that is down.
    pub fn new() -> (r: Self)
        ensures
            !r.first(),
    {
        SharedFlag { cell: FlagCell::new(false) }
    }

    /// What a thread has of its attempt to turn the flag from down to up, which came out as
    /// `attempt`: the claim exactly if it was this attempt that turned it.
    pub(crate) fn outcome(&self, attempt: Result<bool, bool>, raised: Raised) -> (r: Option<Claim>)
        requires
            raised.of() == self.flag(),
            raised.result() == attempt,
        ensures
            r is Some <==> attempt is Ok,
            r matches Some(claim) ==> claim.of(*self),
    {
        match attempt {
            Ok(_) => Some(Claim { raised }),
            Err(_) => None,
        }
    }

    /// The flag itself.
    pub closed spec fn flag(&self) -> FlagCell {
        self.cell
    }

    /// Raises the flag, if it is down, and returns the claim exactly if it was this attempt that
    /// turned it. Whether it was, the other threads decide.
    pub fn raise(&self) -> (r: Option<Claim>)
        ensures
            exists|did: Raised|
                #[trigger] did.of() == self.flag() && (r is Some <==> did.result() is Ok),
            r matches Some(claim) ==> claim.of(*self),
    {
        let (attempt, raised) = raise_flag(&self.cell);
        self.outcome(attempt, raised)
    }
}

} // verus!
