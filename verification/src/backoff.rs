//! Exponential backoff for short waits: spin first, then yield, then give up and park.
use crate::calls::{spin_loop, Hints, Raised};
use crate::cell::{Claim, FlagState, Settled, SharedFlag, SharedNumber, Visit};
use vstd::arithmetic::power2::pow2;
use vstd::prelude::*;

verus! {

/// Largest exponent of the number of spin hints that one [`Backoff::spin`] issues.
pub const SPIN_LIMIT: u16 = 6;

/// Number of steps a backoff takes by default on x86-64.
pub const DEFAULT_LIMIT_X86_64: u16 = 6;

/// Number of steps a backoff takes by default on other architectures.
pub const DEFAULT_LIMIT_OTHER: u16 = 10;

/// Step at which [`Backoff::spin`] stops counting.
pub const MAX_LIMIT: u16 = 10;

/// The packed default configuration on x86-64: `SPIN_LIMIT` low, the default limit high.
pub const DEFAULT_CONFIG_X86_64: u32 = 0x0006_0006;

/// The packed default configuration on other architectures.
pub const DEFAULT_CONFIG_OTHER: u32 = 0x000a_0006;

/// How many steps a [`Backoff`] takes, and how many of them spin rather than yield.
#[derive(Debug, Clone, Copy)]
pub struct BackoffConfig {
    pub spin_limit: u16,
    pub limit: u16,
}

impl BackoffConfig {
    /// The two limits in one number, `spin_limit` in the low half and `limit` in the high one.
    pub open spec fn packed(self) -> int {
        self.spin_limit + self.limit * 0x1_0000
    }

    /// The configuration whose packed form is `config`.
    pub open spec fn unpacked(config: u32) -> BackoffConfig {
        BackoffConfig { spin_limit: (config % 0x1_0000) as u16, limit: (config / 0x1_0000) as u16 }
    }

    /// The configuration in force, which other threads may replace at any time: the one whose
    /// packed form was read.
    pub fn detect(config: &SharedConfig) -> (r: Self)
        ensures
            exists|visit: Visit| #[trigger]
                visit.of(config.number()) && visit.left() is None && (visit.found() matches Some(
                    packed,
                ) && r == BackoffConfig::unpacked(packed)),
    {
        Self::read(config).0
    }

    /// The configuration in force, which other threads may replace at any time (see
    /// [`detect_backoff_cfg`]), and the visit that read it.
    pub fn read(config: &SharedConfig) -> (r: (Self, Visit))
        ensures
            r.1.of(config.number()),
            r.1.left() is None,
            r.1.found() matches Some(packed) && r.0 == BackoffConfig::unpacked(packed),
    {
        let (packed, visit): (u32, Visit) = config.packed.read();
        (Self::from_u32(packed), visit)
    }

    pub fn to_u32(self) -> (r: u32)
        ensures
            r == self.packed(),
            r % 0x1_0000 == self.spin_limit,
            r / 0x1_0000 == self.limit,
    {
        let low: u32 = self.spin_limit as u32;
        let high: u32 = self.limit as u32;
        assert(low | (high << 16) == low + high * 0x1_0000) by (bit_vector)
            requires
                low < 0x1_0000,
                high < 0x1_0000,
        ;
        low | (high << 16)
    }

    pub fn from_u32(config: u32) -> (r: Self)
        ensures
            r == BackoffConfig::unpacked(config),
            r.spin_limit == config % 0x1_0000,
            r.limit == config / 0x1_0000,
    {
        assert(config as u16 == (config % 0x1_0000) as u16 && (config >> 16) as u16 == (config
            / 0x1_0000) as u16) by (bit_vector);
        Self {
            spin_limit: #[verifier::truncate] (config as u16),
            limit: #[verifier::truncate] ((config >> 16) as u16),
        }
    }

    /// Spins for `limit` steps, and takes no more than `limit` steps in all.
    pub fn async_limit(self, limit: u16) -> (r: Self)
        ensures
            r.spin_limit == limit,
            r.limit == (if limit < self.limit { limit } else { self.limit }),
    {
        let total: u16 = if limit < self.limit { limit } else { self.limit };
        Self { spin_limit: limit, limit: total }
    }

    pub fn limit(self, limit: u16) -> (r: Self)
        ensures
            r.spin_limit == self.spin_limit,
            r.limit == limit,
    {
        Self { spin_limit: self.spin_limit, limit }
    }

    /// Spins for no more than `spin_limit` steps.
    pub fn spin(self, spin_limit: u16) -> (r: Self)
        ensures
            r.spin_limit == (if spin_limit < self.spin_limit { spin_limit } else {
                self.spin_limit
            }),
            r.limit == self.limit,
    {
        if spin_limit < self.spin_limit {
            Self { spin_limit, limit: self.limit }
        } else {
            self
        }
    }
}

/// Packing and unpacking undo each other.
pub proof fn packing_round_trip(config: BackoffConfig, packed: u32)
    ensures
        0 <= config.packed() <= u32::MAX,
        BackoffConfig::unpacked(config.packed() as u32) == config,
        BackoffConfig::unpacked(packed).packed() == packed,
{
}

/// The low half of the packed form is the one limit, and the high half the other.
pub proof fn packing_keeps_the_halves(config: BackoffConfig, packed: u32)
    ensures
        config.packed() % 0x1_0000 == config.spin_limit,
        config.packed() / 0x1_0000 == config.limit,
        BackoffConfig::unpacked(packed).spin_limit == packed % 0x1_0000,
        BackoffConfig::unpacked(packed).limit == packed / 0x1_0000,
{
}

/// The default constants are the packed forms of the default limits.
pub proof fn default_configs_are_packed()
    ensures
        DEFAULT_CONFIG_X86_64 == (BackoffConfig {
            spin_limit: SPIN_LIMIT,
            limit: DEFAULT_LIMIT_X86_64,
        }).packed(),
        DEFAULT_CONFIG_OTHER == (BackoffConfig {
            spin_limit: SPIN_LIMIT,
            limit: DEFAULT_LIMIT_OTHER,
        }).packed(),
{
}

/// What the configuration becomes once the number of processors is known: on one processor
/// it never spins, because the awaited side cannot run meanwhile; else it stays as it is.
pub open spec fn config_for(cpus: usize, default_limit: u16) -> Option<BackoffConfig> {
    if cpus == 1 {
        Some(BackoffConfig { spin_limit: 0, limit: default_limit })
    } else {
        None
    }
}

/// The configuration in force, in its packed form, and whether it was detected.
pub struct SharedConfig {
    init: SharedFlag,
    packed: SharedNumber,
}

impl SharedConfig {
    /// The packed form is guarded by the flag.
    #[verifier::type_invariant]
    spec fn inv(self) -> bool {
        self.packed.guard() == Some(self.init.flag())
    }

    /// The flag that the first to detect the configuration raises.
    pub closed spec fn flag(&self) -> SharedFlag {
        self.init
    }

    /// The packed form.
    pub closed spec fn number(&self) -> SharedNumber {
        self.packed
    }

    /// A configuration that was not detected yet.
    pub fn new(packed: u32) -> (r: Self)
        ensures
            !r.flag().first(),
            r.number().first() == packed,
    {
        let init = SharedFlag::new();
        let packed = SharedNumber::guarded(packed, &init);
        SharedConfig { init, packed }
    }
}

/// The claim to detect the configuration, for the first caller and no other. Which caller that
/// is, the threads that share `config` decide.
pub fn claim_detection(config: &SharedConfig) -> (r: Option<Claim>)
    ensures
        exists|did: Raised|
            #[trigger] did.of() == config.flag().flag() && (r is Some <==> did.result() is Ok),
        r matches Some(claim) ==> claim.of(config.flag()),
{
    config.init.raise()
}

/// Sets the configuration in force to what suits a machine of `cpus` processors, for a caller
/// who has the claim to do so. The visit that stored it, if any, is returned for the sake of
/// proofs.
///
/// On one processor it is more effective to yield than to spin. The number of processors is for
/// the caller to find out, who decides whether and when: it may take a look at the system's
/// files.
pub fn detect_backoff_cfg(
    claim: Claim,
    config: &SharedConfig,
    cpus: usize,
    default_limit: u16,
) -> (r: Option<Visit>)
    requires
        claim.of(config.flag()),
    ensures
        match config_for(cpus, default_limit) {
            Some(c) => r matches Some(visit) && visit.of(config.number()) && visit.left()
                == Some(c.packed() as u32) && visit.publishes(),
            None => r is None,
        },
        cpus != 1 ==> r is None,
        cpus == 1 ==> (r matches Some(visit) && visit.of(config.number()) && visit.left() == Some(
            (default_limit * 0x1_0000) as u32,
        )),
        exists|did: Settled| #[trigger]
            did.of(config.number()) && did.wrote() == (if cpus == 1 {
                seq![(default_limit * 0x1_0000) as u32]
            } else {
                Seq::empty()
            }),
{
    proof {
        use_type_invariant(config);
    }
    let packed: Option<u32> = if cpus == 1 {
        Some(BackoffConfig { spin_limit: 0, limit: default_limit }.to_u32())
    } else {
        None
    };
    let (visit, did): (Option<Visit>, Settled) = config.packed.settle(claim, packed);
    assert(did.of(config.number()));
    assert(did.wrote() == (if cpus == 1 {
        seq![(default_limit * 0x1_0000) as u32]
    } else {
        Seq::empty()
    }));
    visit
}

/// A shared configuration as a whole: its flag, the claims that were won and not used up yet,
/// and its packed form.
pub struct Detection {
    pub flag: FlagState,
    pub claims: nat,
    pub packed: u32,
}

/// A step that a thread takes with a shared configuration.
pub enum DetectStep {
    /// It attempts to win the claim, with this outcome.
    Claim(Result<bool, bool>),
    /// It uses up a claim, on a machine of so many processors.
    Detect { cpus: usize, default_limit: u16 },
}

impl Detection {
    /// A configuration that was not detected yet.
    pub open spec fn initial(packed: u32) -> Detection {
        Detection { flag: FlagState { up: false }, claims: 0, packed }
    }

    /// Whether the step leads from this to `after`.
    pub open spec fn takes(self, step: DetectStep, after: Detection) -> bool {
        match step {
            DetectStep::Claim(attempt) => attempt == self.flag.answers() && after == (Detection {
                flag: self.flag.raised(),
                claims: if attempt is Ok {
                    self.claims + 1
                } else {
                    self.claims
                },
                ..self
            }),
            DetectStep::Detect { cpus, default_limit } => self.claims > 0 && after == (Detection {
                claims: (self.claims - 1) as nat,
                packed: match config_for(cpus, default_limit) {
                    Some(c) => c.packed() as u32,
                    None => self.packed,
                },
                ..self
            }),
        }
    }

    /// The configuration was detected, or is not to be: its flag is up, and no claim is left.
    pub open spec fn settled(self) -> bool {
        self.flag.up && self.claims == 0
    }
}

/// Whether `stages` are those of one shared configuration from its beginning on, each reached
/// from the one before by a step of `steps`.
pub open spec fn is_detection(stages: Seq<Detection>, steps: Seq<DetectStep>) -> bool {
    &&& stages.len() == steps.len() + 1
    &&& stages[0] == Detection::initial(stages[0].packed)
    &&& forall|i: int|
        0 <= i < steps.len() ==> (#[trigger] stages[i]).takes(steps[i], stages[i + 1])
}

/// One claim at most is there at any time, and once the flag is up no other one is won.
pub proof fn one_claim_is_won(stages: Seq<Detection>, steps: Seq<DetectStep>, i: int, j: int)
    requires
        is_detection(stages, steps),
        0 <= i <= j < stages.len(),
    ensures
        stages[i].claims <= 1,
        stages[i].claims > 0 ==> stages[i].flag.up,
        stages[i].flag.up ==> stages[j].flag.up && stages[j].claims <= stages[i].claims,
    decreases j,
{
    if i < j {
        one_claim_is_won(stages, steps, i, j - 1);
        one_claim_is_won(stages, steps, j - 1, j - 1);
        assert(stages[j - 1].takes(steps[j - 1], stages[j - 1 + 1]));
    } else if j > 0 {
        one_claim_is_won(stages, steps, j - 1, j - 1);
        assert(stages[j - 1].takes(steps[j - 1], stages[j - 1 + 1]));
    }
}

/// Detection leaves the configuration as it was unless the number of processors is 1. For 1 the
/// packed form becomes that of no spinning step and the default limit.
pub proof fn one_processor_and_no_other_stops_the_spinning(
    before: Detection,
    cpus: usize,
    default_limit: u16,
    after: Detection,
)
    requires
        before.takes(DetectStep::Detect { cpus, default_limit }, after),
    ensures
        cpus != 1 ==> after.packed == before.packed,
        cpus == 1 ==> after.packed == default_limit * 0x1_0000,
        cpus == 1 ==> after.packed % 0x1_0000 == 0 && after.packed / 0x1_0000 == default_limit,
        after.flag == before.flag,
        after.claims + 1 == before.claims,
        config_for(cpus, default_limit) is Some <==> cpus == 1,
{
}

/// An attempt to win the claim changes no configuration, and wins it exactly if no other attempt
/// came before.
pub proof fn claiming_changes_no_configuration(
    before: Detection,
    attempt: Result<bool, bool>,
    after: Detection,
)
    requires
        before.takes(DetectStep::Claim(attempt), after),
    ensures
        after.packed == before.packed,
        after.flag.up,
        attempt is Ok <==> !before.flag.up,
        after.claims == before.claims + if before.flag.up {
            0int
        } else {
            1int
        },
{
}

/// The first call, which wins the claim and uses it up, settles the configuration.
pub proof fn first_call_settles(
    packed: u32,
    attempt: Result<bool, bool>,
    claimed: Detection,
    cpus: usize,
    default_limit: u16,
    detected: Detection,
)
    requires
        Detection::initial(packed).takes(DetectStep::Claim(attempt), claimed),
        claimed.takes(DetectStep::Detect { cpus, default_limit }, detected),
    ensures
        attempt is Ok,
        detected.settled(),
        detected.packed == match config_for(cpus, default_limit) {
            Some(c) => c.packed() as u32,
            None => packed,
        },
{
}

/// The configuration is detected once: when it was, no further call changes it, whatever the
/// number of processors would be now.
pub proof fn detection_is_for_good(stages: Seq<Detection>, steps: Seq<DetectStep>, i: int, j: int)
    requires
        is_detection(stages, steps),
        0 <= i <= j < stages.len(),
        stages[i].settled(),
    ensures
        stages[j].settled(),
        stages[j].packed == stages[i].packed,
    decreases j,
{
    if i < j {
        detection_is_for_good(stages, steps, i, j - 1);
        assert(stages[j - 1].takes(steps[j - 1], stages[j - 1 + 1]));
    }
}

/// What a call of [`Backoff::snooze`] did, or leaves to its caller.
#[derive(Debug, Clone, Copy, PartialEq, Eq, Structural)]
pub enum Snooze {
    /// The limit is reached: nothing was done, and waiting longer calls for parking.
    Completed,
    /// The backoff spun.
    Spun,
    /// The caller is to yield its time slice.
    Yield,
}

/// Issues `rounds` spin hints.
fn spin_for(hints: &mut Hints, rounds: u32)
    ensures
        final(hints).count() == old(hints).count() + rounds,
{
    let mut done: u32 = 0;
    while done < rounds
        invariant
            done <= rounds,
            hints.count() == old(hints).count() + done,
        decreases rounds - done,
    {
        spin_loop(hints);
        done = done + 1;
    }
}

/// The number of spin hints of a step: two to the power `step`. From 31 on that number does
/// not fit into the counter, and no hint is issued.
pub open spec fn rounds_of(step: u16) -> int {
    if step < 31 {
        pow2(step as nat) as int
    } else {
        0
    }
}

/// The hints of successive spinning steps double from 1, as far as they fit into the counter.
pub proof fn hints_double(step: u16)
    ensures
        rounds_of(0) == 1,
        step < 30 ==> rounds_of((step + 1) as u16) == 2 * rounds_of(step),
        step < 31 ==> rounds_of(step) >= 1,
        step >= 31 ==> rounds_of(step) == 0,
{
    vstd::arithmetic::power2::lemma2_to64();
    vstd::arithmetic::power2::lemma_pow2_pos(step as nat);
    if step < 30 {
        vstd::arithmetic::power2::lemma_pow2_unfold((step + 1) as nat);
    }
}

/// The number of hints of the first `n` spinning steps.
pub open spec fn hints_of_first(n: nat) -> int
    decreases n,
{
    if n == 0 {
        0
    } else {
        hints_of_first((n - 1) as nat) + rounds_of((n - 1) as u16)
    }
}

/// The steps before a spinning step have issued one hint less than it will: each step spins as
/// long as all before it, and once more.
pub proof fn each_step_outweighs_those_before(n: u16)
    requires
        n < 31,
    ensures
        hints_of_first(n as nat) + 1 == rounds_of(n),
    decreases n,
{
    hints_double(0);
    if n > 0 {
        each_step_outweighs_those_before((n - 1) as u16);
        hints_double((n - 1) as u16);
    }
}

/// The number of spin hints that a spinning step issues.
pub fn spin_rounds(step: u16) -> (r: u32)
    ensures
        r == rounds_of(step),
        step < 31 ==> r == pow2(step as nat),
        step >= 31 ==> r == 0,
{
    if step < 31 {
        let shift: u32 = step as u32;
        proof {
            vstd::bits::lemma_u32_pow2_no_overflow(shift as nat);
            vstd::bits::lemma_u32_shl_is_mul(1, shift);
        }
        1u32 << shift
    } else {
        0
    }
}

/// The number of steps taken after one more, which is taken only below the limit.
pub open spec fn next_step(taken: u16, limit: u16) -> u16 {
    if taken < limit {
        (taken + 1) as u16
    } else {
        taken
    }
}

/// The number of steps taken after `n` more, each taken only below the limit.
pub open spec fn next_steps(taken: u16, limit: u16, n: nat) -> u16
    decreases n,
{
    if n == 0 {
        taken
    } else {
        next_step(next_steps(taken, limit, (n - 1) as nat), limit)
    }
}

/// A wait comes to its limit after as many steps as are missing, and stays there.
pub proof fn waits_come_to_their_limit(taken: u16, limit: u16, n: nat)
    ensures
        next_steps(taken, limit, n) == (if taken >= limit {
            taken as int
        } else if taken + n < limit {
            taken + n
        } else {
            limit as int
        }),
    decreases n,
{
    if n > 0 {
        waits_come_to_their_limit(taken, limit, (n - 1) as nat);
    }
}

/// A wait is complete exactly when it has come to its limit.
pub proof fn complete_means_at_the_limit(backoff: Backoff)
    ensures
        backoff.completed() <==> backoff.taken() >= backoff.limits().limit,
{
}

/// A wait that grows with each step.
pub struct Backoff {
    step: u16,
    pub config: BackoffConfig,
    spun: Hints,
}

impl Backoff {
    /// The number of steps taken so far.
    pub closed spec fn taken(self) -> u16 {
        self.step
    }

    /// The number of spin hints issued so far.
    pub closed spec fn hints(self) -> nat {
        self.spun.count()
    }

    /// The limits in force.
    pub closed spec fn limits(self) -> BackoffConfig {
        self.config
    }

    /// Whether the limit is reached.
    pub open spec fn completed(self) -> bool {
        self.taken() >= self.limits().limit
    }

    /// A backoff with the configuration in force: the one whose packed form was read.
    pub fn new(config: &SharedConfig) -> (r: Self)
        ensures
            r.taken() == 0,
            r.hints() == 0,
            exists|visit: Visit| #[trigger]
                visit.of(config.number()) && visit.left() is None && (visit.found() matches Some(
                    packed,
                ) && r.limits() == BackoffConfig::unpacked(packed)),
    {
        Self::begin(config).0
    }

    /// A backoff with the configuration in force, and the visit that read it.
    pub fn begin(config: &SharedConfig) -> (r: (Self, Visit))
        ensures
            r.0.taken() == 0,
            r.0.hints() == 0,
            r.1.of(config.number()),
            r.1.left() is None,
            r.1.found() matches Some(packed) && r.0.limits() == BackoffConfig::unpacked(packed),
    {
        let (config, visit): (BackoffConfig, Visit) = BackoffConfig::read(config);
        (Self::from(config), visit)
    }

    pub fn from(config: BackoffConfig) -> (r: Self)
        ensures
            r.taken() == 0,
            r.hints() == 0,
            r.limits() == config,
    {
        Self { step: 0, config, spun: Hints::new() }
    }

    /// Spins, and says whether the limit is passed. The step counts up to `MAX_LIMIT`.
    pub fn spin(&mut self) -> (r: bool)
        ensures
            final(self).limits() == old(self).limits(),
            final(self).taken() == (if old(self).taken() < MAX_LIMIT {
                (old(self).taken() + 1) as u16
            } else {
                old(self).taken()
            }),
            final(self).hints() == old(self).hints() + rounds_of(
                if old(self).taken() < SPIN_LIMIT {
                    old(self).taken()
                } else {
                    SPIN_LIMIT
                },
            ),
            final(self).hints() == old(self).hints() + pow2(
                if old(self).taken() < 6 {
                    old(self).taken() as nat
                } else {
                    6
                },
            ),
            r == (old(self).taken() >= MAX_LIMIT || old(self).taken() >= old(self).limits().limit),
    {
        let exponent: u16 = if self.step < SPIN_LIMIT { self.step } else { SPIN_LIMIT };
        spin_for(&mut self.spun, spin_rounds(exponent));
        if self.step < MAX_LIMIT {
            self.step = self.step + 1;
            self.step > self.config.limit
        } else {
            true
        }
    }

    pub fn set_step(&mut self, step: u16)
        ensures
            final(self).limits() == old(self).limits(),
            final(self).hints() == old(self).hints(),
            final(self).taken() == step,
    {
        self.step = step;
    }

    /// Takes one step: spins below `spin_limit`, yields from there on, and does nothing once
    /// the limit is reached.
    pub fn snooze(&mut self) -> (r: Snooze)
        requires
            old(self).taken() < old(self).limits().limit && old(self).taken() < old(
                self,
            ).limits().spin_limit ==> old(self).taken() < 32,
        ensures
            final(self).limits() == old(self).limits(),
            final(self).taken() == next_step(old(self).taken(), old(self).limits().limit),
            old(self).completed() ==> r is Completed && *final(self) == *old(self),
            !old(self).completed() && old(self).taken() < old(self).limits().spin_limit
                ==> r is Spun,
            !old(self).completed() && old(self).taken() >= old(self).limits().spin_limit
                ==> r is Yield,
            final(self).hints() == old(self).hints() + if r is Spun {
                rounds_of(old(self).taken())
            } else {
                0
            },
            final(self).hints() == old(self).hints() + if r is Spun && old(self).taken() < 31 {
                pow2(old(self).taken() as nat)
            } else {
                0
            },
            r is Completed <==> old(self).taken() >= old(self).limits().limit,
            r is Spun <==> old(self).taken() < old(self).limits().limit && old(self).taken() < old(
                self,
            ).limits().spin_limit,
            final(self).taken() == old(self).taken() + if r is Completed {
                0int
            } else {
                1int
            },
    {
        if self.step >= self.config.limit {
            return Snooze::Completed;
        }
        let spins: bool = self.step < self.config.spin_limit;
        if spins {
            spin_for(&mut self.spun, spin_rounds(self.step));
        }
        self.step = self.step + 1;
        if spins {
            Snooze::Spun
        } else {
            Snooze::Yield
        }
    }

    /// Takes one step that yields: `false` tells the caller to yield its time slice, `true`
    /// that the limit was reached before.
    pub fn yield_now(&mut self) -> (r: bool)
        ensures
            final(self).limits() == old(self).limits(),
            r == old(self).completed(),
            r == (old(self).taken() >= old(self).limits().limit),
            final(self).taken() == old(self).taken() + if r {
                0int
            } else {
                1int
            },
            final(self).hints() == old(self).hints(),
            final(self).taken() == next_step(old(self).taken(), old(self).limits().limit),
    {
        if self.step >= self.config.limit {
            return true;
        }
        self.step = self.step + 1;
        false
    }

    pub fn is_completed(&self) -> (r: bool)
        ensures
            r == self.completed(),
            r == (self.taken() >= self.limits().limit),
    {
        self.step >= self.config.limit
    }

    pub fn step(&self) -> (r: usize)
        ensures
            r == self.taken(),
    {
        self.step as usize
    }

    pub fn reset(&mut self)
        ensures
            final(self).limits() == old(self).limits(),
            final(self).hints() == old(self).hints(),
            final(self).taken() == 0,
    {
        self.step = 0;
    }
}

} // verus!
