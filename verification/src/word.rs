//! The word of flags that the two sides of a channel share, and the changes they make to it.
use vstd::prelude::*;

verus! {

/// Raised once by the sender, when it sends or is closed. Never lowered.
pub const LOCK_FLAG: u8 = 0x1;

/// Raised by the receiver while its waker waits to be woken.
pub const WAKER_SET_FLAG: u8 = 0x2;

/// Raised by whichever side leaves first. Never lowered.
pub const CLOSE_FLAG: u8 = 0x4;

/// Raised together with `LOCK_FLAG` if an item was sent.
pub const EXIST_FLAG: u8 = 0x8;

/// Raised by the sender while its waker waits to be woken by a leaving receiver.
pub const TX_WAKER_FLAG: u8 = 0x10;

/// Raised by the receiver together with `CLOSE_FLAG` while it wakes the sender: meanwhile the
/// sender must not release the channel.
pub const RX_WAKING_FLAG: u8 = 0x20;

/// What a word of flags says: which flags are raised, and the bits that no flag uses.
pub struct Word {
    pub lock: bool,
    pub rx_waker: bool,
    pub close: bool,
    pub exist: bool,
    pub tx_waker: bool,
    pub rx_waking: bool,
    pub stray: u8,
}

/// What the word `s` says.
pub open spec fn word(s: u8) -> Word {
    Word {
        lock: s & LOCK_FLAG != 0,
        rx_waker: s & WAKER_SET_FLAG != 0,
        close: s & CLOSE_FLAG != 0,
        exist: s & EXIST_FLAG != 0,
        tx_waker: s & TX_WAKER_FLAG != 0,
        rx_waking: s & RX_WAKING_FLAG != 0,
        stray: s & 0xc0,
    }
}

/// Two words that say the same are the same.
pub proof fn words_are_told_apart(a: u8, b: u8)
    requires
        word(a) == word(b),
    ensures
        a == b,
{
    assert((a & 0x1 != 0) == (b & 0x1 != 0) && (a & 0x2 != 0) == (b & 0x2 != 0) && (a & 0x4 != 0)
        == (b & 0x4 != 0) && (a & 0x8 != 0) == (b & 0x8 != 0) && (a & 0x10 != 0) == (b & 0x10
        != 0) && (a & 0x20 != 0) == (b & 0x20 != 0) && a & 0xc0 == b & 0xc0 ==> a == b)
        by (bit_vector);
}

/// A word is the sum of its flags and of the bits that no flag uses.
pub proof fn words_are_sums_of_flags(s: u8)
    ensures
        word(s).lock <==> s % 2 == 1,
        word(s).rx_waker <==> s / 2 % 2 == 1,
        word(s).close <==> s / 4 % 2 == 1,
        word(s).exist <==> s / 8 % 2 == 1,
        word(s).tx_waker <==> s / 16 % 2 == 1,
        word(s).rx_waking <==> s / 32 % 2 == 1,
        word(s).stray == s / 64 * 64,
{
    assert((s & 0x1 != 0) == (s % 2 == 1) && (s & 0x2 != 0) == (s / 2 % 2 == 1) && (s & 0x4 != 0)
        == (s / 4 % 2 == 1) && (s & 0x8 != 0) == (s / 8 % 2 == 1) && (s & 0x10 != 0) == (s / 16 % 2
        == 1) && (s & 0x20 != 0) == (s / 32 % 2 == 1) && s & 0xc0 == s / 64 * 64) by (bit_vector);
}

impl Word {
    /// The word of a new channel.
    pub open spec fn initial() -> Word {
        Word {
            lock: false,
            rx_waker: false,
            close: false,
            exist: false,
            tx_waker: false,
            rx_waking: false,
            stray: 0,
        }
    }

    /// Neither side has done anything, but that the sender may wait for the receiver to leave.
    pub open spec fn untouched(self) -> bool {
        self == Word { tx_waker: self.tx_waker, ..Word::initial() }
    }

    /// The receiver waits to be woken, and nothing else is going on, but that the sender may
    /// wait for the receiver to leave.
    pub open spec fn rx_waits(self) -> bool {
        self == Word { rx_waker: true, tx_waker: self.tx_waker, ..Word::initial() }
    }

    /// The word that a finished sender leaves for a receiver that waits to be woken.
    pub open spec fn notified(exist: bool, tx_waker: bool) -> Word {
        Word { lock: true, rx_waker: true, exist, tx_waker, ..Word::initial() }
    }

    /// The sender has neither sent nor left, and waits to be told that the receiver left.
    pub open spec fn tx_waits(self) -> bool {
        !self.lock && !self.close && self.tx_waker
    }
}

/// Raising or lowering one flag changes what the word says of that flag, and nothing else.
proof fn lemma_flags(s: u8)
    ensures
        word(s | LOCK_FLAG) == (Word { lock: true, ..word(s) }),
        word(s | WAKER_SET_FLAG) == (Word { rx_waker: true, ..word(s) }),
        word(s | CLOSE_FLAG) == (Word { close: true, ..word(s) }),
        word(s | EXIST_FLAG) == (Word { exist: true, ..word(s) }),
        word(s | TX_WAKER_FLAG) == (Word { tx_waker: true, ..word(s) }),
        word(s | RX_WAKING_FLAG) == (Word { rx_waking: true, ..word(s) }),
        word(s & !WAKER_SET_FLAG) == (Word { rx_waker: false, ..word(s) }),
        word(s & !TX_WAKER_FLAG) == (Word { tx_waker: false, ..word(s) }),
        word(s & !RX_WAKING_FLAG) == (Word { rx_waking: false, ..word(s) }),
{
    lemma_raise(s, LOCK_FLAG);
    lemma_raise(s, WAKER_SET_FLAG);
    lemma_raise(s, CLOSE_FLAG);
    lemma_raise(s, EXIST_FLAG);
    lemma_raise(s, TX_WAKER_FLAG);
    lemma_raise(s, RX_WAKING_FLAG);
    lemma_lower(s, WAKER_SET_FLAG);
    lemma_lower(s, TX_WAKER_FLAG);
    lemma_lower(s, RX_WAKING_FLAG);
}

proof fn lemma_raise(s: u8, f: u8)
    requires
        f == 0x1 || f == 0x2 || f == 0x4 || f == 0x8 || f == 0x10 || f == 0x20,
    ensures
        ((s | f) & 0x1 != 0) == (f == 0x1 || s & 0x1 != 0),
        ((s | f) & 0x2 != 0) == (f == 0x2 || s & 0x2 != 0),
        ((s | f) & 0x4 != 0) == (f == 0x4 || s & 0x4 != 0),
        ((s | f) & 0x8 != 0) == (f == 0x8 || s & 0x8 != 0),
        ((s | f) & 0x10 != 0) == (f == 0x10 || s & 0x10 != 0),
        ((s | f) & 0x20 != 0) == (f == 0x20 || s & 0x20 != 0),
        (s | f) & 0xc0 == s & 0xc0,
{
    assert(((s | f) & 0x1 != 0) == (f == 0x1 || s & 0x1 != 0) && ((s | f) & 0x2 != 0) == (f == 0x2
        || s & 0x2 != 0) && ((s | f) & 0x4 != 0) == (f == 0x4 || s & 0x4 != 0) && ((s | f) & 0x8
        != 0) == (f == 0x8 || s & 0x8 != 0) && ((s | f) & 0x10 != 0) == (f == 0x10 || s & 0x10
        != 0) && ((s | f) & 0x20 != 0) == (f == 0x20 || s & 0x20 != 0) && (s | f) & 0xc0 == s
        & 0xc0) by (bit_vector)
        requires
            f == 0x1 || f == 0x2 || f == 0x4 || f == 0x8 || f == 0x10 || f == 0x20,
    ;
}

proof fn lemma_lower(s: u8, f: u8)
    requires
        f == 0x1 || f == 0x2 || f == 0x4 || f == 0x8 || f == 0x10 || f == 0x20,
    ensures
        ((s & !f) & 0x1 != 0) == (f != 0x1 && s & 0x1 != 0),
        ((s & !f) & 0x2 != 0) == (f != 0x2 && s & 0x2 != 0),
        ((s & !f) & 0x4 != 0) == (f != 0x4 && s & 0x4 != 0),
        ((s & !f) & 0x8 != 0) == (f != 0x8 && s & 0x8 != 0),
        ((s & !f) & 0x10 != 0) == (f != 0x10 && s & 0x10 != 0),
        ((s & !f) & 0x20 != 0) == (f != 0x20 && s & 0x20 != 0),
        (s & !f) & 0xc0 == s & 0xc0,
{
    assert(((s & !f) & 0x1 != 0) == (f != 0x1 && s & 0x1 != 0) && ((s & !f) & 0x2 != 0) == (f
        != 0x2 && s & 0x2 != 0) && ((s & !f) & 0x4 != 0) == (f != 0x4 && s & 0x4 != 0) && ((s
        & !f) & 0x8 != 0) == (f != 0x8 && s & 0x8 != 0) && ((s & !f) & 0x10 != 0) == (f != 0x10
        && s & 0x10 != 0) && ((s & !f) & 0x20 != 0) == (f != 0x20 && s & 0x20 != 0) && (s & !f)
        & 0xc0 == s & 0xc0) by (bit_vector)
        requires
            f == 0x1 || f == 0x2 || f == 0x4 || f == 0x8 || f == 0x10 || f == 0x20,
    ;
}

/// What the two comparisons with everything but `TX_WAKER_FLAG` say.
proof fn lemma_comparisons(s: u8)
    ensures
        (s & !TX_WAKER_FLAG == 0) == word(s).untouched(),
        (s & !TX_WAKER_FLAG == WAKER_SET_FLAG) == word(s).rx_waits(),
        word(0) == Word::initial(),
{
    assert((s & !0x10u8 == 0) == (s & 0x1 == 0 && s & 0x2 == 0 && s & 0x4 == 0 && s & 0x8 == 0 && s
        & 0x20 == 0 && s & 0xc0 == 0)) by (bit_vector);
    assert((s & !0x10u8 == 0x2) == (s & 0x1 == 0 && s & 0x2 != 0 && s & 0x4 == 0 && s & 0x8 == 0
        && s & 0x20 == 0 && s & 0xc0 == 0)) by (bit_vector);
    assert(0u8 & 0x1 == 0 && 0u8 & 0x2 == 0 && 0u8 & 0x4 == 0 && 0u8 & 0x8 == 0 && 0u8 & 0x10 == 0
        && 0u8 & 0x20 == 0 && 0u8 & 0xc0 == 0) by (bit_vector);
}

/// The word of a new channel is 0.
pub proof fn zero_is_initial()
    ensures
        word(0) == Word::initial(),
{
    lemma_comparisons(0);
}

/// A change of the shared word that depends on what it says, and is made in one step.
#[derive(Debug, Clone, Copy)]
pub enum Change {
    /// The sender sends (`exist`) or leaves.
    Notify { exist: bool },
    /// The sender leaves after it woke the receiver, unless the word is another than the one
    /// that it left: that it is finished, whether with an item, and whether it had offered its
    /// own waker.
    Finish { exist: bool, tx_waker: bool },
    /// The sender takes its waker back.
    Retract,
    /// The sender offers its waker.
    Announce,
    /// None: a look at the word.
    Look,
    /// The receiver offers its waker.
    Register,
    /// The receiver takes its waker back, and leaves if it gives up (`abandon`).
    Cancel { abandon: bool },
    /// The receiver leaves after it took the item, if the sender has not left yet.
    Settle,
    /// The receiver leaves.
    Leave,
    /// The receiver is done with waking the sender.
    EndWaking,
}

impl Change {
    /// The word that the change makes of `w`, or none where it leaves `w` as it is.
    pub open spec fn target(self, w: Word) -> Option<Word> {
        match self {
            Change::Notify { exist } => if w.close {
                if w.rx_waking {
                    Some(Word { lock: true, ..w })
                } else {
                    None
                }
            } else if w.untouched() {
                Some(Word { lock: true, close: true, exist, ..w })
            } else if w.rx_waits() {
                Some(Word { lock: true, exist, ..w })
            } else {
                None
            },
            Change::Finish { exist, tx_waker } => if w == Word::notified(exist, tx_waker) {
                Some(Word { rx_waker: false, close: true, ..w })
            } else {
                None
            },
            Change::Retract => if w.close {
                None
            } else {
                Some(Word { tx_waker: false, ..w })
            },
            Change::Announce => Some(Word { tx_waker: true, ..w }),
            Change::Look => None,
            Change::Register => if w.untouched() {
                Some(Word { rx_waker: true, ..w })
            } else {
                None
            },
            Change::Cancel { abandon } => if w.rx_waits() {
                Some(
                    Word {
                        rx_waker: false,
                        close: abandon,
                        rx_waking: abandon && w.tx_waits(),
                        ..w
                    },
                )
            } else {
                None
            },
            Change::Settle => if w.close {
                None
            } else {
                Some(Word { close: true, ..w })
            },
            Change::Leave => Some(
                Word { close: true, rx_waking: w.rx_waking || w.tx_waits(), ..w },
            ),
            Change::EndWaking => Some(Word { rx_waking: false, ..w }),
        }
    }

    /// The word to put in place of `s`, if the change applies to it.
    pub fn apply(self, s: u8) -> (r: Option<u8>)
        ensures
            r is Some <==> self.target(word(s)) is Some,
            r matches Some(t) ==> self.target(word(s)) == Some(word(t)),
    {
        proof {
            lemma_flags(s);
            lemma_comparisons(s);
        }
        match self {
            Change::Notify { exist } => {
                if s & CLOSE_FLAG != 0 {
                    return if s & RX_WAKING_FLAG != 0 {
                        Some(s | LOCK_FLAG)
                    } else {
                        None
                    };
                }
                let rest: u8 = s & !TX_WAKER_FLAG;
                let mut t: u8 = s | LOCK_FLAG;
                proof {
                    lemma_flags(t);
                }
                if rest == 0 {
                    t = t | CLOSE_FLAG;
                } else if rest != WAKER_SET_FLAG {
                    return None;
                }
                proof {
                    lemma_flags(t);
                }
                if exist {
                    t = t | EXIST_FLAG;
                }
                Some(t)
            },
            Change::Finish { exist, tx_waker } => {
                let left: u8 = notified(exist, tx_waker);
                if s != left {
                    proof {
                        if word(s) == word(left) {
                            words_are_told_apart(s, left);
                        }
                    }
                    return None;
                }
                proof {
                    lemma_flags(s & !WAKER_SET_FLAG);
                }
                Some((s & !WAKER_SET_FLAG) | CLOSE_FLAG)
            },
            Change::Retract => if s & CLOSE_FLAG != 0 {
                None
            } else {
                Some(s & !TX_WAKER_FLAG)
            },
            Change::Announce => Some(s | TX_WAKER_FLAG),
            Change::Look => None,
            Change::EndWaking => Some(s & !RX_WAKING_FLAG),
            Change::Register => if s & !TX_WAKER_FLAG == 0 {
                Some(s | WAKER_SET_FLAG)
            } else {
                None
            },
            Change::Cancel { abandon } => {
                if s & !TX_WAKER_FLAG != WAKER_SET_FLAG {
                    return None;
                }
                let mut t: u8 = s & !WAKER_SET_FLAG;
                proof {
                    lemma_flags(t);
                }
                if abandon {
                    t = t | CLOSE_FLAG;
                    proof {
                        lemma_flags(t);
                    }
                    if tx_waiting(s) {
                        t = t | RX_WAKING_FLAG;
                    }
                }
                Some(t)
            },
            Change::Settle => if s & CLOSE_FLAG != 0 {
                None
            } else {
                Some(s | CLOSE_FLAG)
            },
            Change::Leave => {
                let mut t: u8 = s | CLOSE_FLAG;
                proof {
                    lemma_flags(t);
                }
                if tx_waiting(s) {
                    t = t | RX_WAKING_FLAG;
                }
                Some(t)
            },
        }
    }
}

/// To which words each change applies. The sender's ends apply while the receiver is there and
/// waits or has done nothing, or while it is busy waking the sender; taking a waker back, and
/// leaving after the item, while no side has left; offering the receiver's waker while nothing
/// was done, and taking it back while it waits; a sender's last change to the very word that it
/// left; the others to every word, and a look to none.
pub proof fn changes_apply_where_they_should(w: Word, exist: bool, tx_waker: bool, abandon: bool)
    ensures
        (Change::Notify { exist }).target(w) is Some <==> (w.close && w.rx_waking) || (!w.lock
            && !w.close && !w.exist && !w.rx_waking && w.stray == 0),
        (Change::Finish { exist, tx_waker }).target(w) is Some <==> w.lock && w.rx_waker && !w.close
            && w.exist == exist && w.tx_waker == tx_waker && !w.rx_waking && w.stray == 0,
        Change::Retract.target(w) is Some <==> !w.close,
        Change::Settle.target(w) is Some <==> !w.close,
        Change::Register.target(w) is Some <==> !w.lock && !w.rx_waker && !w.close && !w.exist
            && !w.rx_waking && w.stray == 0,
        (Change::Cancel { abandon }).target(w) is Some <==> !w.lock && w.rx_waker && !w.close
            && !w.exist && !w.rx_waking && w.stray == 0,
        Change::Announce.target(w) is Some,
        Change::Leave.target(w) is Some,
        Change::EndWaking.target(w) is Some,
        Change::Look.target(w) is None,
{
}

/// What each change leaves behind, flag by flag. No change touches a flag beside its own.
pub proof fn changes_touch_their_own_flags(
    w: Word,
    change: Change,
    t: Word,
    exist: bool,
    tx_waker: bool,
    abandon: bool,
)
    requires
        change.target(w) == Some(t),
    ensures
        t.stray == w.stray,
        t.lock <==> w.lock || change is Notify,
        change == (Change::Notify { exist }) ==> (t.exist <==> w.exist || (exist && !w.close)),
        !(change is Notify) ==> t.exist == w.exist,
        change is Register ==> t.rx_waker,
        change is Cancel || change is Finish ==> !t.rx_waker,
        !(change is Register || change is Cancel || change is Finish) ==> t.rx_waker == w.rx_waker,
        change is Announce ==> t.tx_waker,
        change is Retract ==> !t.tx_waker,
        !(change is Announce || change is Retract) ==> t.tx_waker == w.tx_waker,
        change is Finish || change is Settle || change is Leave ==> t.close,
        change == (Change::Cancel { abandon }) ==> t.close == abandon,
        change is Notify ==> (t.close <==> w.close || !w.rx_waker),
        change is Retract || change is Announce || change is Register || change is EndWaking
            ==> t.close == w.close,
        change is EndWaking ==> !t.rx_waking,
        change is Leave ==> (t.rx_waking <==> w.rx_waking || (w.tx_waker && !w.lock && !w.close)),
        change == (Change::Cancel { abandon }) ==> (t.rx_waking <==> abandon && w.tx_waker),
        !(change is EndWaking || change is Leave || change is Cancel) ==> t.rx_waking
            == w.rx_waking,
{
}

/// Whether the sender is finished.
pub fn is_finished(s: u8) -> (r: bool)
    ensures
        r == word(s).lock,
        r == (s % 2 == 1),
{
    proof {
        words_are_sums_of_flags(s);
    }
    s & LOCK_FLAG != 0
}

/// Whether one side has left.
pub fn is_closed(s: u8) -> (r: bool)
    ensures
        r == word(s).close,
        r == (s / 4 % 2 == 1),
{
    proof {
        words_are_sums_of_flags(s);
    }
    s & CLOSE_FLAG != 0
}

/// Whether an item was sent.
pub fn has_item(s: u8) -> (r: bool)
    ensures
        r == word(s).exist,
        r == (s / 8 % 2 == 1),
{
    proof {
        words_are_sums_of_flags(s);
    }
    s & EXIST_FLAG != 0
}

/// Whether the receiver's waker waits to be woken.
pub fn has_rx_waker(s: u8) -> (r: bool)
    ensures
        r == word(s).rx_waker,
        r == (s / 2 % 2 == 1),
{
    proof {
        words_are_sums_of_flags(s);
    }
    s & WAKER_SET_FLAG != 0
}

/// Whether the sender's waker waits to be woken.
pub fn has_tx_waker(s: u8) -> (r: bool)
    ensures
        r == word(s).tx_waker,
        r == (s / 16 % 2 == 1),
{
    proof {
        words_are_sums_of_flags(s);
    }
    s & TX_WAKER_FLAG != 0
}

/// Whether the sender has neither sent nor left, and waits to be told that the receiver left.
pub fn tx_waiting(s: u8) -> (r: bool)
    ensures
        r == word(s).tx_waits(),
        r == (s % 2 == 0 && s / 4 % 2 == 0 && s / 16 % 2 == 1),
{
    proof {
        words_are_sums_of_flags(s);
    }
    assert((s & (0x1u8 | 0x4u8) == 0) == (s & 0x1 == 0 && s & 0x4 == 0)) by (bit_vector);
    s & (LOCK_FLAG | CLOSE_FLAG) == 0 && s & TX_WAKER_FLAG != 0
}

/// Whether the receiver waits to be woken, and nothing else is going on, but that the sender
/// may wait for the receiver to leave.
pub fn rx_waiting(s: u8) -> (r: bool)
    ensures
        r == word(s).rx_waits(),
        r == (s == 2 || s == 18),
{
    assert((s & !0x10u8 == 0x2) == (s == 2 || s == 18)) by (bit_vector);
    proof {
        lemma_comparisons(s);
    }
    s & !TX_WAKER_FLAG == WAKER_SET_FLAG
}

/// The word that a finished sender leaves for a receiver that waits to be woken.
pub fn notified(exist: bool, tx_waker: bool) -> (r: u8)
    ensures
        word(r) == Word::notified(exist, tx_waker),
{
    proof {
        lemma_comparisons(0);
        lemma_flags(0);
    }
    let mut left: u8 = 0u8 | LOCK_FLAG;
    proof {
        lemma_flags(left);
    }
    left = left | WAKER_SET_FLAG;
    proof {
        lemma_flags(left);
    }
    if exist {
        left = left | EXIST_FLAG;
    }
    proof {
        lemma_flags(left);
    }
    if tx_waker {
        left = left | TX_WAKER_FLAG;
    }
    left
}

} // verus!
