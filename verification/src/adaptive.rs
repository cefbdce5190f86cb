//! Whether to spin before parking, learned from how often spinning paid off.
use crate::cell::{SharedNumber, Visit};
use vstd::prelude::*;

verus! {

/// What a spin that paid off adds to the score.
pub const HIT_SCORE: u32 = 32;

/// The score to begin with.
pub const INIT_SCORE: u32 = 64;

/// The largest score.
pub const MAX_SCORE: u32 = 256;

/// While spinning is stopped, each attempt of this number spins anyway.
pub const PROBE_INTERVAL: u32 = 32;

/// What one number records of the spins so far: the score in its high half, and in its low
/// half the attempts since spinning stopped.
pub struct SpinState {
    pub score: nat,
    pub count: nat,
}

/// The record that the number `v` stands for.
pub open spec fn spin_state(v: u32) -> SpinState {
    SpinState { score: (v / 0x1_0000) as nat, count: (v % 0x1_0000) as nat }
}

impl SpinState {
    /// The record of a new [`AdaptiveSpin`].
    pub open spec fn initial() -> SpinState {
        SpinState { score: INIT_SCORE as nat, count: 0 }
    }

    /// The count of attempts, one further. It starts over where its half of the number ends.
    pub open spec fn next_count(self) -> nat {
        (self.count + 1) % 0x1_0000
    }

    /// Whether an attempt spins: always while the score lasts, else at every
    /// `PROBE_INTERVAL`-th attempt.
    pub open spec fn spins(self) -> bool {
        self.score > 0 || self.next_count() % (PROBE_INTERVAL as nat) == 0
    }

    /// After an attempt, which is counted while spinning is stopped.
    pub open spec fn attempted(self) -> SpinState {
        if self.score > 0 {
            self
        } else {
            SpinState { score: 0, count: self.next_count() }
        }
    }

    /// After a spin that paid off.
    pub open spec fn hit(self) -> SpinState {
        if self.score >= MAX_SCORE {
            self
        } else if self.score + HIT_SCORE >= MAX_SCORE {
            SpinState { score: MAX_SCORE as nat, count: 0 }
        } else {
            SpinState { score: self.score + HIT_SCORE as nat, count: 0 }
        }
    }

    /// After a spin in vain.
    pub open spec fn missed(self) -> SpinState {
        if self.score > 0 {
            SpinState { score: (self.score - 1) as nat, count: 0 }
        } else {
            self
        }
    }

    /// After `n` attempts.
    pub open spec fn attempted_times(self, n: nat) -> SpinState
        decreases n,
    {
        if n == 0 {
            self
        } else {
            self.attempted_times((n - 1) as nat).attempted()
        }
    }

    /// After `n` spins in vain.
    pub open spec fn missed_times(self, n: nat) -> SpinState
        decreases n,
    {
        if n == 0 {
            self
        } else {
            self.missed_times((n - 1) as nat).missed()
        }
    }

    /// After one round for each number of `misses`: a spin that paid off, followed by that
    /// many in vain.
    pub open spec fn after_rounds(self, misses: Seq<nat>) -> SpinState
        decreases misses.len(),
    {
        if misses.len() == 0 {
            self
        } else {
            self.after_rounds(misses.drop_last()).hit().missed_times(misses.last())
        }
    }
}

/// Adapts the spin before parking to whether spinning pays off.
///
/// Spinning pays off when the other side runs at the same time and answers within the spin. It
/// is pure delay where the other side cannot progress until this one yields. A hit adds
/// `HIT_SCORE` to a score, a miss takes 1 from it, and spinning stops at 0. While it is
/// stopped, every `PROBE_INTERVAL`-th attempt spins anyway, so that spinning resumes once it
/// pays off again.
///
/// Threads share the record without agreeing on an order: each call reads it and writes it
/// back, and what was read is up to them. [`attempt`], [`reward`] and [`penalty`] say what
/// follows from each number that can be read.
pub struct AdaptiveSpin(SharedNumber);

/// Whether an attempt spins that finds the number `v`, and the number to put in its place.
pub fn attempt(v: u32) -> (r: (bool, Option<u32>))
    ensures
        r.0 == spin_state(v).spins(),
        r.1 is Some <==> spin_state(v).score == 0,
        r.1 matches Some(n) ==> spin_state(n) == spin_state(v).attempted(),
        v >= 0x1_0000 ==> r.0 && r.1 is None,
        v < 0x1_0000 ==> r.1 == Some(((v + 1) % 0x1_0000) as u32) && r.0 == ((v + 1) % 0x1_0000 % 32
            == 0),
{
    assert((v >> 16) == v / 0x1_0000) by (bit_vector);
    if v >> 16 > 0 {
        return (true, None);
    }
    let next: u32 = v + 1;
    assert(next & 0xffff == next % 0x1_0000) by (bit_vector);
    let count: u32 = next & 0xffff;
    (count % PROBE_INTERVAL == 0, Some(count))
}

/// The number to put in place of `v` after a hit, if it changes.
pub fn reward(v: u32) -> (r: Option<u32>)
    ensures
        r is Some <==> spin_state(v).score < MAX_SCORE,
        r matches Some(n) ==> spin_state(n) == spin_state(v).hit(),
        v / 0x1_0000 >= 256 ==> r is None,
        224 <= v / 0x1_0000 < 256 ==> r == Some(0x100_0000u32),
        v / 0x1_0000 < 224 ==> r == Some(((v / 0x1_0000 + 32) * 0x1_0000) as u32),
{
    assert((v >> 16) == v / 0x1_0000) by (bit_vector);
    let score: u32 = v >> 16;
    if score < MAX_SCORE {
        let sum: u32 = score + HIT_SCORE;
        let capped: u32 = if sum < MAX_SCORE { sum } else { MAX_SCORE };
        assert(capped << 16 == capped * 0x1_0000) by (bit_vector)
            requires
                capped <= 256,
        ;
        Some(capped << 16)
    } else {
        None
    }
}

/// The number to put in place of `v` after a miss, if it changes.
pub fn penalty(v: u32) -> (r: Option<u32>)
    ensures
        r is Some <==> spin_state(v).score > 0,
        r matches Some(n) ==> spin_state(n) == spin_state(v).missed(),
        v < 0x1_0000 ==> r is None,
        v >= 0x1_0000 ==> r == Some(((v / 0x1_0000 - 1) * 0x1_0000) as u32),
{
    assert((v >> 16) == v / 0x1_0000) by (bit_vector);
    let score: u32 = v >> 16;
    if score > 0 {
        let less: u32 = score - 1;
        assert(less << 16 == less * 0x1_0000) by (bit_vector)
            requires
                less < 0x1_0000,
        ;
        Some(less << 16)
    } else {
        None
    }
}

/// The number that stands for the record of a new [`AdaptiveSpin`].
pub fn initial_number() -> (r: u32)
    ensures
        spin_state(r) == SpinState::initial(),
        r == 64 * 0x1_0000,
{
    INIT_SCORE * 0x1_0000
}

impl AdaptiveSpin {
    /// The number is one that every thread may write.
    #[verifier::type_invariant]
    spec fn inv(self) -> bool {
        self.0.guard() is None
    }

    /// The number that stands for the record.
    pub closed spec fn number(&self) -> SharedNumber {
        self.0
    }

    pub fn new() -> (r: Self)
        ensures
            spin_state(r.number().first()) == SpinState::initial(),
            r.number().first() == 64 * 0x1_0000,
    {
        AdaptiveSpin(SharedNumber::new(initial_number()))
    }

    /// Whether this attempt spins: what the record that was found says, in a visit that counted
    /// the attempt.
    pub fn should_spin(&self) -> (r: bool)
        ensures
            exists|visit: Visit| #[trigger]
                visit.of(self.number()) && (visit.found() matches Some(v) && r == spin_state(
                    v,
                ).spins() && leaves(visit, spin_state(v), spin_state(v).attempted()) && if v
                    >= 0x1_0000 {
                    r && visit.left() is None
                } else {
                    visit.left() == Some(((v + 1) % 0x1_0000) as u32) && r == ((v + 1) % 0x1_0000
                        % 32 == 0)
                }),
    {
        self.decide().0
    }

    /// Whether this attempt spins, and the visit that counted it.
    pub fn decide(&self) -> (r: (bool, Visit))
        ensures
            r.1.of(self.number()),
            r.1.found() matches Some(v) && r.0 == spin_state(v).spins() && leaves(
                r.1,
                spin_state(v),
                spin_state(v).attempted(),
            ),
            r.1.found() matches Some(v) && if v >= 0x1_0000 {
                r.0 && r.1.left() is None
            } else {
                r.1.left() == Some(((v + 1) % 0x1_0000) as u32) && r.0 == ((v + 1) % 0x1_0000 % 32
                    == 0)
            },
    {
        proof {
            use_type_invariant(self);
        }
        let (v, visit): (u32, Visit) = self.0.read();
        let (spins, next): (bool, Option<u32>) = attempt(v);
        match next {
            Some(n) => (spins, self.0.write(visit, n)),
            None => (spins, visit),
        }
    }

    /// Records a spin that paid off. The visit is returned for the sake of proofs.
    pub fn hit(&self) -> (visit: Visit)
        ensures
            visit.of(self.number()),
            visit.found() matches Some(v) && leaves(visit, spin_state(v), spin_state(v).hit()),
            visit.found() matches Some(v) && visit.left() == (if v / 0x1_0000 >= 256 {
                None
            } else if v / 0x1_0000 >= 224 {
                Some(0x100_0000u32)
            } else {
                Some(((v / 0x1_0000 + 32) * 0x1_0000) as u32)
            }),
    {
        proof {
            use_type_invariant(self);
        }
        let (v, visit): (u32, Visit) = self.0.read();
        match reward(v) {
            Some(n) => self.0.write(visit, n),
            None => visit,
        }
    }

    /// Records a spin in vain. The visit is returned for the sake of proofs.
    pub fn miss(&self) -> (visit: Visit)
        ensures
            visit.of(self.number()),
            visit.found() matches Some(v) && leaves(visit, spin_state(v), spin_state(v).missed()),
            visit.found() matches Some(v) && visit.left() == (if v < 0x1_0000 {
                None
            } else {
                Some(((v / 0x1_0000 - 1) * 0x1_0000) as u32)
            }),
    {
        proof {
            use_type_invariant(self);
        }
        let (v, visit): (u32, Visit) = self.0.read();
        match penalty(v) {
            Some(n) => self.0.write(visit, n),
            None => visit,
        }
    }
}

/// A visit that found `before` left `after` behind: it wrote that, or nothing where the two are
/// the same.
pub open spec fn leaves(visit: Visit, before: SpinState, after: SpinState) -> bool {
    match visit.left() {
        Some(n) => spin_state(n) == after,
        None => before == after,
    }
}

impl SpinState {
    /// What holds of every record: the score is capped, the count fits into its half of the
    /// number, and attempts are counted only while spinning is stopped.
    pub open spec fn wf(self) -> bool {
        &&& self.score <= MAX_SCORE
        &&& self.count < 0x1_0000
        &&& self.score > 0 ==> self.count == 0
    }
}

/// No step takes the score beyond `MAX_SCORE`, nor the count beyond its half of the number, and
/// the count is 0 while the score is positive.
pub proof fn score_is_capped(s: SpinState)
    requires
        s.wf(),
    ensures
        SpinState::initial().wf(),
        s.attempted().wf(),
        s.hit().wf(),
        s.missed().wf(),
{
}

/// A number stands for one record, and each record for one number: the score is what is left of
/// the number when its low half is taken away, and the count is that half.
pub proof fn numbers_stand_for_records(v: u32)
    ensures
        spin_state(v).score * 0x1_0000 + spin_state(v).count == v,
        spin_state(v).count < 0x1_0000,
        spin_state(v).score < 0x1_0000,
{
}

/// A hit adds `HIT_SCORE` to the score, but no more than there is room for below `MAX_SCORE`: it
/// never lowers the score, and two hits in either record keep the order of their scores.
pub proof fn a_hit_raises_the_score(s: SpinState, t: SpinState)
    requires
        s.wf(),
        t.wf(),
    ensures
        s.score + 32 <= 256 ==> s.hit().score == s.score + 32,
        s.score + 32 > 256 ==> s.hit().score == 256,
        s.hit().score >= s.score,
        s.hit().count == 0,
        s.score <= t.score ==> s.hit().score <= t.hit().score,
        HIT_SCORE == 32 && MAX_SCORE == 256,
{
}

/// A miss takes 1 from a positive score, and leaves a record with none as it is. What a hit adds,
/// as many misses take away.
pub proof fn a_miss_lowers_the_score(s: SpinState)
    requires
        s.wf(),
    ensures
        s.score > 0 ==> s.missed().score + 1 == s.score && s.missed().count == 0,
        s.score == 0 ==> s.missed() == s,
        s.score + 32 <= 256 ==> s.hit().missed_times(32).score == s.score,
{
    misses_lower_the_score(s.hit(), 32);
}

/// While the score lasts, every attempt spins, and none is counted.
pub proof fn attempts_spin_while_the_score_lasts(s: SpinState)
    ensures
        s.score > 0 ==> s.spins() && s.attempted() == s,
        s.score == 0 ==> s.attempted().score == 0,
        s.score == 0 ==> s.attempted().count == (s.count + 1) % 0x1_0000,
        s.score == 0 ==> (s.spins() <==> (s.count + 1) % 0x1_0000 % 32 == 0),
        SpinState::initial().score == 64 && SpinState::initial().count == 0,
        PROBE_INTERVAL == 32,
{
}

/// Of any `PROBE_INTERVAL` attempts in a row, made while spinning is stopped, exactly one spins:
/// there is one that does, and any two that do are at least that far apart.
pub proof fn one_attempt_of_an_interval_spins(s: SpinState, i: nat, j: nat)
    requires
        s.score == 0,
        s.count < 0x1_0000,
    ensures
        i < j && s.attempted_times(i).spins() && s.attempted_times(j).spins() ==> j - i >= 32,
        s.attempted_times(i).spins() ==> s.attempted_times(i + 32).spins(),
        exists|k: nat| k < 32 && #[trigger] s.attempted_times(k).spins(),
{
    lemma_probe(s, i);
    lemma_probe(s, j);
    lemma_probe(s, i + 32);
    let k = (31 - s.count % 32) as nat;
    lemma_probe(s, k);
    assert((s.count + k + 1) % 32 == 0);
    assert(s.attempted_times(k).spins());
}

/// The attempt after `n` others spins exactly if the count has then come to a multiple.
proof fn lemma_probe(s: SpinState, n: nat)
    requires
        s.score == 0,
        s.count < 0x1_0000,
    ensures
        s.attempted_times(n).spins() <==> (s.count + n + 1) % 32 == 0,
{
    stopped_spinning_probes(s, n + 1);
}

/// A visit that leaves nothing behind found what it was to leave, and one that does leaves it.
pub proof fn visits_leave_what_they_say(visit: Visit, v: u32, after: SpinState)
    requires
        leaves(visit, spin_state(v), after),
    ensures
        visit.left() is None ==> after == spin_state(v),
        visit.left() matches Some(n) ==> n == after.score * 0x1_0000 + after.count,
{
}

/// Each miss takes 1 from the score, down to 0.
pub proof fn misses_lower_the_score(s: SpinState, n: nat)
    ensures
        s.missed_times(n).score == (if n < s.score {
            (s.score - n) as nat
        } else {
            0
        }),
    decreases n,
{
    if n > 0 {
        misses_lower_the_score(s, (n - 1) as nat);
    }
}

/// As many misses in a row as `MAX_SCORE` stop the spinning, whatever came before.
pub proof fn spinning_stops_in_bounded_time(s: SpinState, n: nat)
    requires
        s.score <= MAX_SCORE,
        n >= MAX_SCORE,
    ensures
        s.missed_times(n).score == 0,
{
    misses_lower_the_score(s, n);
}

/// A hit makes the attempts spin again, whatever came before, as they do to begin with.
pub proof fn a_hit_resumes_spinning(s: SpinState)
    ensures
        SpinState::initial().spins(),
        s.hit().score > 0,
        s.hit().spins(),
{
}

/// While spinning is stopped, the attempts are counted and nothing else changes; the `n`-th
/// one from now spins exactly if the count has then come to a multiple of `PROBE_INTERVAL`.
pub proof fn stopped_spinning_probes(s: SpinState, n: nat)
    requires
        s.score == 0,
        s.count < 0x1_0000,
        n > 0,
    ensures
        s.attempted_times(n).score == 0,
        s.attempted_times(n).count == (s.count + n) % 0x1_0000,
        s.attempted_times((n - 1) as nat).spins() <==> (s.count + n) % (PROBE_INTERVAL as nat) == 0,
    decreases n,
{
    if n > 1 {
        stopped_spinning_probes(s, (n - 1) as nat);
    } else {
        assert(s.attempted_times(0) == s);
    }
}

/// A hit and up to `HIT_SCORE` misses never stop the spinning: after the hit the score is
/// positive, and stays so after each of the misses.
pub proof fn round_keeps_spinning(s: SpinState, misses: nat, k: nat)
    requires
        0 < s.score <= MAX_SCORE,
        misses <= HIT_SCORE,
        k <= misses,
    ensures
        0 < s.hit().missed_times(k).score <= MAX_SCORE,
{
    misses_lower_the_score(s.hit(), k);
}

/// Spinning goes on as long as at least one spin in `HIT_SCORE + 1` pays off: however many
/// rounds there are of a hit and at most `HIT_SCORE` misses, the score stays positive.
pub proof fn frequent_hits_keep_spinning(s: SpinState, misses: Seq<nat>)
    requires
        0 < s.score <= MAX_SCORE,
        forall|i: int| 0 <= i < misses.len() ==> #[trigger] misses[i] <= HIT_SCORE,
    ensures
        0 < s.after_rounds(misses).score <= MAX_SCORE,
    decreases misses.len(),
{
    if misses.len() > 0 {
        let rest = misses.drop_last();
        assert forall|i: int| 0 <= i < rest.len() implies #[trigger] rest[i] <= HIT_SCORE by {
            assert(rest[i] == misses[i]);
        }
        frequent_hits_keep_spinning(s, rest);
        round_keeps_spinning(s.after_rounds(rest), misses.last(), misses.last());
    }
}

/// Spinning stops when less than one spin in `HIT_SCORE + 1` pays off: each round of a hit and
/// more than `HIT_SCORE` misses ends with a lower score, until the rounds end at 0.
pub proof fn rare_hits_stop_spinning(s: SpinState, misses: Seq<nat>)
    requires
        s.score <= MAX_SCORE,
        forall|i: int| 0 <= i < misses.len() ==> #[trigger] misses[i] > HIT_SCORE,
    ensures
        s.after_rounds(misses).score <= (if misses.len() < s.score {
            (s.score - misses.len()) as nat
        } else {
            0
        }),
    decreases misses.len(),
{
    if misses.len() > 0 {
        let rest = misses.drop_last();
        assert forall|i: int| 0 <= i < rest.len() implies #[trigger] rest[i] > HIT_SCORE by {
            assert(rest[i] == misses[i]);
        }
        rare_hits_stop_spinning(s, rest);
        misses_lower_the_score(s.after_rounds(rest).hit(), misses.last());
    }
}

} // verus!
