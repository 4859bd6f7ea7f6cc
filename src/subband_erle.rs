//! The counters of the subband ERLE estimator: the cycle over which
//! capture and error spectra are accumulated, and the per-bin hold that
//! follows an onset.

use vstd::prelude::*;

verus! {

/// Number of blocks over which spectra are summed before one ERLE update.
pub const POINTS_TO_ACCUMULATE: i32 = 6;

/// Blocks over which an ERLE estimate is held.
pub const BLOCKS_TO_HOLD_ERLE: i32 = 100;

/// Length of the hold that an onset starts.
pub const BLOCKS_FOR_ONSET_DETECTION: i32 = BLOCKS_TO_HOLD_ERLE + 150;

/// Whether the sums hold a full accumulation window.
pub open spec fn spec_accumulation_complete(num_points: i32) -> bool {
    num_points == POINTS_TO_ACCUMULATE
}

/// Whether the sums hold a full accumulation window, so that a new ERLE
/// value can be formed from them.
pub fn accumulation_complete(num_points: i32) -> (r: bool)
    ensures
        r == spec_accumulation_complete(num_points),
{
    num_points == POINTS_TO_ACCUMULATE
}

/// Counts one more accumulated block for a channel whose filter has
/// converged. A full window starts over first; the result says whether the
/// sums must be cleared before this block is added.
pub fn advance_accumulation(num_points: &mut i32) -> (restart: bool)
    requires
        0 <= *old(num_points) <= POINTS_TO_ACCUMULATE,
    ensures
        restart == spec_accumulation_complete(*old(num_points)),
        *final(num_points) == if restart {
            1
        } else {
            *old(num_points) + 1
        },
        1 <= *final(num_points) <= POINTS_TO_ACCUMULATE,
        forall|n: nat|
            *old(num_points) == #[trigger] points_after(n) ==> *final(num_points) == points_after(
                n + 1,
            ),
{
    let restart = *num_points == POINTS_TO_ACCUMULATE;
    if restart {
        *num_points = 0;
    }
    *num_points += 1;
    restart
}

/// The count after `n` accumulated blocks from an empty window.
pub open spec fn points_after(n: nat) -> i32
    decreases n,
{
    if n == 0 {
        0
    } else if spec_accumulation_complete(points_after((n - 1) as nat)) {
        1
    } else {
        (points_after((n - 1) as nat) + 1) as i32
    }
}

/// Accumulation runs in windows of exactly six blocks: after `n > 0`
/// accumulated blocks the count is `(n - 1) % 6 + 1`, so a window is
/// complete exactly after every sixth block.
pub proof fn lemma_accumulation_windows(n: nat)
    ensures
        n > 0 ==> points_after(n) == (n - 1) % 6 + 1,
        n > 0 ==> (spec_accumulation_complete(points_after(n)) <==> n % 6 == 0),
    decreases n,
{
    if n == 1 {
        assert(points_after(0) == 0);
        assert(points_after(1) == 1);
    } else if n > 1 {
        let m = (n - 1) as nat;
        lemma_accumulation_windows(m);
        let p = points_after(m);
        assert(p == (m - 1) % 6 + 1);
        if p == 6 {
            assert((m - 1) % 6 == 5);
            assert((n - 1) % 6 == 0);
        } else {
            assert((m - 1) % 6 < 5);
            assert((n - 1) % 6 == (m - 1) % 6 + 1);
        }
    }
}

/// The hold of a bin after an ERLE update with enough render energy: a
/// fresh onset is consumed and the hold starts again at its full length.
/// Returns whether an onset was pending.
pub fn register_onset_update(coming_onset: &mut bool, hold_counter: &mut i32) -> (onset: bool)
    ensures
        onset == *old(coming_onset),
        !*final(coming_onset),
        *final(hold_counter) == BLOCKS_FOR_ONSET_DETECTION,
{
    let onset = *coming_onset;
    if onset {
        *coming_onset = false;
    }
    *hold_counter = BLOCKS_FOR_ONSET_DETECTION;
    onset
}

/// Counts down the hold of a bin by one block. Returns whether the hold has
/// left its first 100 blocks, when the onset-compensated ERLE decays; once
/// the hold runs out the bin waits for a new onset.
pub fn decay_onset_hold(hold_counter: &mut i32, coming_onset: &mut bool) -> (decaying: bool)
    requires
        0 <= *old(hold_counter) <= BLOCKS_FOR_ONSET_DETECTION,
    ensures
        decaying == (*old(hold_counter) - 1 <= BLOCKS_FOR_ONSET_DETECTION - BLOCKS_TO_HOLD_ERLE),
        *final(hold_counter) == if *old(hold_counter) - 1 <= 0 {
            0
        } else {
            *old(hold_counter) - 1
        },
        *final(coming_onset) == (*old(coming_onset) || *old(hold_counter) - 1 <= 0),
        0 <= *final(hold_counter) <= BLOCKS_FOR_ONSET_DETECTION,
{
    *hold_counter -= 1;
    let decaying = *hold_counter <= BLOCKS_FOR_ONSET_DETECTION - BLOCKS_TO_HOLD_ERLE;
    if decaying && *hold_counter <= 0 {
        *coming_onset = true;
        *hold_counter = 0;
    }
    decaying
}

} // verus!
