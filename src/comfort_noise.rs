//! The integer side of the comfort-noise generator: the pseudo-random phase
//! sequence and the schedule of its two noise estimates.

use vstd::prelude::*;

verus! {

/// Number of entries in the phase table (one per 2π/32 step).
pub const PHASE_TABLE_SIZE: usize = 32;

/// Quarter turn in phase table steps: the cosine of a phase is the sine of
/// the phase eight steps on.
pub const QUARTER_TURN: usize = 8;

/// Blocks of smoothing before the noise estimate starts tracking.
pub const NOISE_ESTIMATE_WARM_UP_BLOCKS: i32 = 50;

/// Blocks after which the initial noise estimate is discarded.
pub const INITIAL_ESTIMATE_BLOCKS: i32 = 1000;

/// The linear congruential step: `seed · 69069 + 1`, kept to 31 bits.
pub open spec fn next_seed(seed: u32) -> u32 {
    ((seed as int * 69069 + 1) % 0x8000_0000) as u32
}

/// The seed after `n` steps.
pub open spec fn seed_after(seed: u32, n: nat) -> u32
    decreases n,
{
    if n == 0 {
        seed
    } else {
        next_seed(seed_after(seed, (n - 1) as nat))
    }
}

/// The 5-bit phase index that a seed selects: its top bits.
pub open spec fn phase_index(seed: u32) -> int {
    seed as int / 0x0400_0000
}

/// Advances the generator's seed by one step.
pub fn advance_seed(seed: u32) -> (r: u32)
    ensures
        r == next_seed(seed),
        r < 0x8000_0000,
{
    let x: u64 = seed as u64 * 69069 + 1;
    (x % 0x8000_0000) as u32
}

/// Draws `count` random phases for the comfort noise: for each, the table
/// index of its sine and of its cosine. Each draw advances the seed once.
pub fn comfort_noise_phases(seed: &mut u32, count: usize) -> (r: Vec<(usize, usize)>)
    ensures
        r@.len() == count,
        *final(seed) == seed_after(*old(seed), count as nat),
        forall|k: int|
            0 <= k < count ==> {
                let s = #[trigger] seed_after(*old(seed), (k + 1) as nat);
                r@[k] == (phase_index(s) as usize, ((phase_index(s) + 8) % 32) as usize)
            },
        forall|k: int| 0 <= k < count ==> r@[k].0 < 32 && r@[k].1 < 32,
{
    let mut phases: Vec<(usize, usize)> = Vec::new();
    let mut k: usize = 0;
    while k < count
        invariant
            k <= count,
            phases@.len() == k,
            *seed == seed_after(*old(seed), k as nat),
            forall|j: int|
                0 <= j < k ==> {
                    let s = #[trigger] seed_after(*old(seed), (j + 1) as nat);
                    phases@[j] == (phase_index(s) as usize, ((phase_index(s) + 8) % 32) as usize)
                },
            forall|j: int| 0 <= j < k ==> phases@[j].0 < 32 && phases@[j].1 < 32,
        decreases count - k,
    {
        *seed = advance_seed(*seed);
        assert(*seed == seed_after(*old(seed), (k + 1) as nat));
        let i = (*seed / 0x0400_0000) as usize;
        let j = (i + QUARTER_TURN) % PHASE_TABLE_SIZE;
        phases.push((i, j));
        k += 1;
    }
    phases
}

/// Which noise estimates a block updates.
#[derive(Debug, Clone, Copy, PartialEq, Eq, Structural)]
pub struct NoiseEstimateUpdate {
    /// The tracked noise estimate follows the smoothed capture spectrum.
    pub update_noise: bool,
    /// The initial estimate follows the tracked one.
    pub update_initial: bool,
    /// The initial estimate was discarded in this block.
    pub initial_discarded: bool,
}

/// The schedule of the comfort-noise estimates: the tracked estimate starts
/// after a warm-up, and the initial estimate serves until its window ends.
#[derive(Debug, Clone, Copy, PartialEq, Eq, Structural)]
pub struct NoiseEstimateSchedule {
    counter: i32,
    initial_active: bool,
}

impl NoiseEstimateSchedule {
    /// Unsaturated blocks counted while the initial estimate was in use.
    pub closed spec fn spec_counter(self) -> int {
        self.counter as int
    }

    /// Whether the initial estimate is still in use.
    pub closed spec fn spec_initial_active(self) -> bool {
        self.initial_active
    }

    /// The counter stays within the initial window, and reaches its end
    /// exactly when the initial estimate is gone.
    #[verifier::type_invariant]
    spec fn within_window(self) -> bool {
        &&& 0 <= self.counter <= INITIAL_ESTIMATE_BLOCKS
        &&& (self.counter == INITIAL_ESTIMATE_BLOCKS) == !self.initial_active
    }

    /// A schedule at its start: nothing counted, initial estimate in use.
    pub fn new() -> (r: NoiseEstimateSchedule)
        ensures
            r.spec_counter() == 0,
            r.spec_initial_active(),
            (r.spec_counter(), r.spec_initial_active()) == schedule_after(0),
    {
        NoiseEstimateSchedule { counter: 0, initial_active: true }
    }

    /// Whether the initial estimate is still in use.
    pub fn initial_active(&self) -> (r: bool)
        ensures
            r == self.spec_initial_active(),
    {
        self.initial_active
    }

    /// Advances the schedule by one block whose capture is not saturated
    /// and says which estimates the block updates. The tracked estimate is
    /// updated once more than 50 blocks were counted; the initial one is
    /// updated in each counted block but the 1000th, which discards it.
    pub fn advance(&mut self) -> (r: NoiseEstimateUpdate)
        ensures
            0 <= final(self).spec_counter() <= INITIAL_ESTIMATE_BLOCKS,
            r.update_noise == (old(self).spec_counter() > NOISE_ESTIMATE_WARM_UP_BLOCKS),
            final(self).spec_counter() == if old(self).spec_initial_active() {
                old(self).spec_counter() + 1
            } else {
                old(self).spec_counter()
            },
            r.initial_discarded == (old(self).spec_initial_active() && final(self).spec_counter()
                == INITIAL_ESTIMATE_BLOCKS),
            r.update_initial == (old(self).spec_initial_active() && !r.initial_discarded),
            final(self).spec_initial_active() == (old(self).spec_initial_active()
                && !r.initial_discarded),
            forall|n: nat|
                (old(self).spec_counter(), old(self).spec_initial_active()) == #[trigger] schedule_after(n)
                    ==> (final(self).spec_counter(), final(self).spec_initial_active())
                    == schedule_after(n + 1),
    {
        proof {
            use_type_invariant(&*self);
        }
        let update_noise = self.counter > NOISE_ESTIMATE_WARM_UP_BLOCKS;
        let mut update_initial = false;
        let mut initial_discarded = false;
        if self.initial_active {
            let counter = self.counter + 1;
            if counter == INITIAL_ESTIMATE_BLOCKS {
                *self = NoiseEstimateSchedule { counter, initial_active: false };
                initial_discarded = true;
            } else {
                self.counter = counter;
                update_initial = true;
            }
        }
        NoiseEstimateUpdate { update_noise, update_initial, initial_discarded }
    }
}

/// The initial estimate is in use for exactly the first 999 unsaturated
/// blocks: after `n` advances from the start it is still active if and only
/// if `n < 1000`, and the counter is `min(n, 1000)`.
pub proof fn lemma_initial_estimate_window(n: nat)
    ensures
        schedule_after(n).1 == (n < 1000),
        schedule_after(n).0 == if n < 1000 {
            n as int
        } else {
            1000
        },
    decreases n,
{
    if n > 0 {
        lemma_initial_estimate_window((n - 1) as nat);
    }
}

/// The counter and the initial-estimate flag after `n` advances from the
/// start.
pub open spec fn schedule_after(n: nat) -> (int, bool)
    decreases n,
{
    if n == 0 {
        (0, true)
    } else {
        let (c, active) = schedule_after((n - 1) as nat);
        if active {
            (c + 1, c + 1 != 1000)
        } else {
            (c, false)
        }
    }
}

} // verus!
