//! Counter-based transparent mode classifier: decides whether echo
//! suppression should be relaxed because no echo path is present (for
//! example when a headset is used).

use vstd::prelude::*;
use crate::aec3_config::{EchoRemovalControl, TransparentModeType};

verus! {

/// Number of 4 ms blocks in one second.
pub const NUM_BLOCKS_PER_SECOND: usize = 250;

/// Initial value of the counters of blocks since a converged filter or a
/// consistent estimate.
pub const BLOCKS_SINCE_CONVERGED_FILTER_INIT: usize = 10000;

/// Initial value of the counter of active blocks since a sane filter.
pub const BLOCKS_SINCE_CONSISTENT_ESTIMATE_INIT: usize = 10000;

/// Which classifier runs, if any: none when the echo path strength is
/// bounded, else the one the echo removal control selects.
pub open spec fn spec_transparent_mode_selection(
    bounded_erl: bool,
    control: EchoRemovalControl,
) -> Option<TransparentModeType> {
    if bounded_erl {
        None
    } else {
        Some(control.transparent_mode)
    }
}

/// Selects the transparent mode classifier to create; `None` disables
/// transparent mode.
pub fn transparent_mode_selection(bounded_erl: bool, control: &EchoRemovalControl) -> (r: Option<
    TransparentModeType,
>)
    ensures
        r == spec_transparent_mode_selection(bounded_erl, *control),
{
    if bounded_erl {
        None
    } else {
        Some(control.transparent_mode)
    }
}

/// Current filter and render state used to update transparent mode.
#[derive(Debug, Clone, Copy, PartialEq, Eq, Structural)]
pub struct TransparentModeState {
    pub filter_delay_blocks: i32,
    pub any_filter_consistent: bool,
    pub any_filter_converged: bool,
    pub any_coarse_filter_converged: bool,
    pub all_filters_diverged: bool,
    pub active_render: bool,
    pub saturated_capture: bool,
}

/// The state of the legacy classifier, with its counters as integers.
pub ghost struct LegacyModel {
    pub linear_and_stable_echo_path: bool,
    pub capture_block_counter: int,
    pub transparency_activated: bool,
    pub active_blocks_since_sane_filter: int,
    pub sane_filter_observed: bool,
    pub finite_erl_recently_detected: bool,
    pub non_converged_sequence_size: int,
    pub diverged_sequence_size: int,
    pub active_non_converged_sequence_size: int,
    pub num_converged_blocks: int,
    pub recent_convergence_during_activity: bool,
    pub strong_not_saturated_render_blocks: int,
}

impl LegacyModel {
    /// The state right after construction.
    pub open spec fn initial(linear_and_stable_echo_path: bool) -> LegacyModel {
        LegacyModel {
            linear_and_stable_echo_path,
            capture_block_counter: 0,
            transparency_activated: false,
            active_blocks_since_sane_filter: BLOCKS_SINCE_CONSISTENT_ESTIMATE_INIT as int,
            sane_filter_observed: false,
            finite_erl_recently_detected: false,
            non_converged_sequence_size: BLOCKS_SINCE_CONVERGED_FILTER_INIT as int,
            diverged_sequence_size: 0,
            active_non_converged_sequence_size: 0,
            num_converged_blocks: 0,
            recent_convergence_during_activity: false,
            strong_not_saturated_render_blocks: 0,
        }
    }

    /// What a reset leaves: the convergence and divergence runs and the
    /// strong-render count start over; on a linear and stable echo path the
    /// record of recent convergence is forgotten too.
    pub open spec fn reset(self) -> LegacyModel {
        LegacyModel {
            non_converged_sequence_size: BLOCKS_SINCE_CONVERGED_FILTER_INIT as int,
            diverged_sequence_size: 0,
            strong_not_saturated_render_blocks: 0,
            recent_convergence_during_activity: if self.linear_and_stable_echo_path {
                false
            } else {
                self.recent_convergence_during_activity
            },
            ..self
        }
    }

    /// Counts the block, and the block as strong render if render is
    /// active and capture is not saturated.
    pub open spec fn count_block(self, s: TransparentModeState) -> LegacyModel {
        LegacyModel {
            capture_block_counter: self.capture_block_counter + 1,
            strong_not_saturated_render_blocks: self.strong_not_saturated_render_blocks + if s.active_render
                && !s.saturated_capture {
                1int
            } else {
                0int
            },
            ..self
        }
    }

    /// A consistent filter with a short delay counts as sane; otherwise an
    /// active render block lengthens the time since one was seen.
    pub open spec fn track_sane_filter(self, s: TransparentModeState) -> LegacyModel {
        if s.any_filter_consistent && s.filter_delay_blocks < 5 {
            LegacyModel { sane_filter_observed: true, active_blocks_since_sane_filter: 0, ..self }
        } else if s.active_render {
            LegacyModel {
                active_blocks_since_sane_filter: self.active_blocks_since_sane_filter + 1,
                ..self
            }
        } else {
            self
        }
    }

    /// A converged filter restarts the non-converged runs; otherwise they
    /// grow, and long runs drop the converged count and the record of
    /// recent convergence.
    pub open spec fn track_convergence(self, s: TransparentModeState) -> LegacyModel {
        if s.any_filter_converged {
            LegacyModel {
                recent_convergence_during_activity: true,
                active_non_converged_sequence_size: 0,
                non_converged_sequence_size: 0,
                num_converged_blocks: self.num_converged_blocks + 1,
                ..self
            }
        } else {
            let non_converged = self.non_converged_sequence_size + 1;
            let active_non_converged = if s.active_render {
                self.active_non_converged_sequence_size + 1
            } else {
                self.active_non_converged_sequence_size
            };
            LegacyModel {
                non_converged_sequence_size: non_converged,
                num_converged_blocks: if non_converged > 20 * NUM_BLOCKS_PER_SECOND {
                    0
                } else {
                    self.num_converged_blocks
                },
                active_non_converged_sequence_size: active_non_converged,
                recent_convergence_during_activity: if s.active_render && active_non_converged > 60
                    * NUM_BLOCKS_PER_SECOND {
                    false
                } else {
                    self.recent_convergence_during_activity
                },
                ..self
            }
        }
    }

    /// Counts the run of blocks where every filter diverged; a run of 60
    /// sets the non-converged run back to its initial length.
    pub open spec fn track_divergence(self, s: TransparentModeState) -> LegacyModel {
        if !s.all_filters_diverged {
            LegacyModel { diverged_sequence_size: 0, ..self }
        } else if self.diverged_sequence_size + 1 >= 60 {
            LegacyModel {
                diverged_sequence_size: self.diverged_sequence_size + 1,
                non_converged_sequence_size: BLOCKS_SINCE_CONVERGED_FILTER_INIT as int,
                ..self
            }
        } else {
            LegacyModel { diverged_sequence_size: self.diverged_sequence_size + 1, ..self }
        }
    }

    /// Whether a sane filter was seen recently enough: within the first 5 s
    /// if none was ever seen, else within the last 30 s of active render.
    pub open spec fn sane_filter_recently_seen(self) -> bool {
        if !self.sane_filter_observed {
            self.capture_block_counter <= 5 * NUM_BLOCKS_PER_SECOND
        } else {
            self.active_blocks_since_sane_filter <= 30 * NUM_BLOCKS_PER_SECOND
        }
    }

    /// Updates the finite-ERL flag and decides: transparency is off while a
    /// finite ERL was recently detected or a sane filter recently converged,
    /// and otherwise on exactly when over 6 s of strong render went by.
    pub open spec fn decide(self) -> LegacyModel {
        let finite_erl = if self.num_converged_blocks > 50 {
            true
        } else if self.active_non_converged_sequence_size > 60 * NUM_BLOCKS_PER_SECOND {
            false
        } else {
            self.finite_erl_recently_detected
        };
        LegacyModel {
            finite_erl_recently_detected: finite_erl,
            transparency_activated: if finite_erl || (self.sane_filter_recently_seen()
                && self.recent_convergence_during_activity) {
                false
            } else {
                self.strong_not_saturated_render_blocks > 6 * NUM_BLOCKS_PER_SECOND
            },
            ..self
        }
    }

    /// One capture block's update of the classifier.
    pub open spec fn step(self, s: TransparentModeState) -> LegacyModel {
        self.count_block(s).track_sane_filter(s).track_convergence(s).track_divergence(s).decide()
    }

    /// No counter runs ahead of the number of blocks seen, beyond the
    /// initial values that two of them start from.
    pub open spec fn counters_bounded(self) -> bool {
        &&& 0 <= self.strong_not_saturated_render_blocks <= self.capture_block_counter
        &&& 0 <= self.active_blocks_since_sane_filter <= self.capture_block_counter + 10000
        &&& 0 <= self.non_converged_sequence_size <= self.capture_block_counter + 10000
        &&& 0 <= self.diverged_sequence_size <= self.capture_block_counter
        &&& 0 <= self.active_non_converged_sequence_size <= self.capture_block_counter
        &&& 0 <= self.num_converged_blocks <= self.capture_block_counter
    }
}

/// The classifier after `n` updates with the same block state.
pub open spec fn steps(m: LegacyModel, s: TransparentModeState, n: nat) -> LegacyModel
    decreases n,
{
    if n == 0 {
        m
    } else {
        steps(m, s, (n - 1) as nat).step(s)
    }
}

/// Without an echo path the classifier turns transparent once render has
/// been strong for over 6 s: from the initial state, after `n` blocks of
/// active, unsaturated render in which no filter converges, transparency is
/// active exactly when `n` exceeds 6 s worth of blocks.
pub proof fn lemma_activates_without_convergence(
    linear_and_stable_echo_path: bool,
    s: TransparentModeState,
    n: nat,
)
    requires
        s.active_render,
        !s.saturated_capture,
        !s.any_filter_converged,
    ensures
        steps(LegacyModel::initial(linear_and_stable_echo_path), s, n).transparency_activated
            == (n > 6 * NUM_BLOCKS_PER_SECOND),
{
    lemma_no_convergence_run(linear_and_stable_echo_path, s, n);
}

proof fn lemma_no_convergence_run(linear_and_stable_echo_path: bool, s: TransparentModeState, n: nat)
    requires
        s.active_render,
        !s.saturated_capture,
        !s.any_filter_converged,
    ensures
        ({
            let m = steps(LegacyModel::initial(linear_and_stable_echo_path), s, n);
            &&& m.strong_not_saturated_render_blocks == n
            &&& m.num_converged_blocks == 0
            &&& !m.recent_convergence_during_activity
            &&& !m.finite_erl_recently_detected
            &&& m.transparency_activated == (n > 6 * NUM_BLOCKS_PER_SECOND)
        }),
    decreases n,
{
    if n > 0 {
        lemma_no_convergence_run(linear_and_stable_echo_path, s, (n - 1) as nat);
    }
}

/// Convergence ends transparency: from any state whose counters are
/// consistent, more than 50 blocks in which a filter converges leave
/// transparency inactive.
pub proof fn lemma_deactivates_with_convergence(m: LegacyModel, s: TransparentModeState, n: nat)
    requires
        m.counters_bounded(),
        s.any_filter_converged,
        n > 50,
    ensures
        !steps(m, s, n).transparency_activated,
{
    lemma_convergence_run(m, s, n);
}

proof fn lemma_convergence_run(m: LegacyModel, s: TransparentModeState, n: nat)
    requires
        m.counters_bounded(),
        s.any_filter_converged,
    ensures
        steps(m, s, n).num_converged_blocks >= n,
        n > 50 ==> steps(m, s, n).finite_erl_recently_detected,
        n > 50 ==> !steps(m, s, n).transparency_activated,
    decreases n,
{
    if n > 0 {
        lemma_convergence_run(m, s, (n - 1) as nat);
    }
}

/// The legacy classifier's counters and flags.
#[derive(Debug, Clone, Copy)]
struct LegacyCounters {
    linear_and_stable_echo_path: bool,
    capture_block_counter: usize,
    transparency_activated: bool,
    active_blocks_since_sane_filter: usize,
    sane_filter_observed: bool,
    finite_erl_recently_detected: bool,
    non_converged_sequence_size: usize,
    diverged_sequence_size: usize,
    active_non_converged_sequence_size: usize,
    num_converged_blocks: usize,
    recent_convergence_during_activity: bool,
    strong_not_saturated_render_blocks: usize,
}

impl LegacyCounters {
    spec fn model(self) -> LegacyModel {
        LegacyModel {
            linear_and_stable_echo_path: self.linear_and_stable_echo_path,
            capture_block_counter: self.capture_block_counter as int,
            transparency_activated: self.transparency_activated,
            active_blocks_since_sane_filter: self.active_blocks_since_sane_filter as int,
            sane_filter_observed: self.sane_filter_observed,
            finite_erl_recently_detected: self.finite_erl_recently_detected,
            non_converged_sequence_size: self.non_converged_sequence_size as int,
            diverged_sequence_size: self.diverged_sequence_size as int,
            active_non_converged_sequence_size: self.active_non_converged_sequence_size as int,
            num_converged_blocks: self.num_converged_blocks as int,
            recent_convergence_during_activity: self.recent_convergence_during_activity,
            strong_not_saturated_render_blocks: self.strong_not_saturated_render_blocks as int,
        }
    }

    fn count_block(&mut self, state: &TransparentModeState)
        requires
            old(self).model().counters_bounded(),
            old(self).capture_block_counter + 10001 <= usize::MAX,
        ensures
            final(self).model() == old(self).model().count_block(*state),
            final(self).model().capture_block_counter == old(self).model().capture_block_counter + 1,
    {
        self.capture_block_counter += 1;
        self.strong_not_saturated_render_blocks += if state.active_render
            && !state.saturated_capture {
            1
        } else {
            0
        };
    }

    fn track_sane_filter(&mut self, state: &TransparentModeState)
        requires
            old(self).model().active_blocks_since_sane_filter < usize::MAX,
        ensures
            final(self).model() == old(self).model().track_sane_filter(*state),
    {
        if state.any_filter_consistent && state.filter_delay_blocks < 5 {
            self.sane_filter_observed = true;
            self.active_blocks_since_sane_filter = 0;
        } else if state.active_render {
            self.active_blocks_since_sane_filter += 1;
        }
    }

    fn track_convergence(&mut self, state: &TransparentModeState)
        requires
            old(self).model().num_converged_blocks < usize::MAX,
            old(self).model().non_converged_sequence_size < usize::MAX,
            old(self).model().active_non_converged_sequence_size < usize::MAX,
        ensures
            final(self).model() == old(self).model().track_convergence(*state),
    {
        if state.any_filter_converged {
            self.recent_convergence_during_activity = true;
            self.active_non_converged_sequence_size = 0;
            self.non_converged_sequence_size = 0;
            self.num_converged_blocks += 1;
        } else {
            self.non_converged_sequence_size += 1;
            if self.non_converged_sequence_size > 20 * NUM_BLOCKS_PER_SECOND {
                self.num_converged_blocks = 0;
            }
            if state.active_render {
                self.active_non_converged_sequence_size += 1;
                if self.active_non_converged_sequence_size > 60 * NUM_BLOCKS_PER_SECOND {
                    self.recent_convergence_during_activity = false;
                }
            }
        }
    }

    fn track_divergence(&mut self, state: &TransparentModeState)
        requires
            old(self).model().diverged_sequence_size < usize::MAX,
        ensures
            final(self).model() == old(self).model().track_divergence(*state),
    {
        if !state.all_filters_diverged {
            self.diverged_sequence_size = 0;
        } else {
            self.diverged_sequence_size += 1;
            if self.diverged_sequence_size >= 60 {
                self.non_converged_sequence_size = BLOCKS_SINCE_CONVERGED_FILTER_INIT;
            }
        }
    }

    fn decide(&mut self)
        ensures
            final(self).model() == old(self).model().decide(),
    {
        let sane_filter_recently_seen = if !self.sane_filter_observed {
            self.capture_block_counter <= 5 * NUM_BLOCKS_PER_SECOND
        } else {
            self.active_blocks_since_sane_filter <= 30 * NUM_BLOCKS_PER_SECOND
        };
        if self.active_non_converged_sequence_size > 60 * NUM_BLOCKS_PER_SECOND {
            self.finite_erl_recently_detected = false;
        }
        if self.num_converged_blocks > 50 {
            self.finite_erl_recently_detected = true;
        }
        if self.finite_erl_recently_detected || (sane_filter_recently_seen
            && self.recent_convergence_during_activity) {
            self.transparency_activated = false;
        } else {
            let filter_should_have_converged = self.strong_not_saturated_render_blocks > 6
                * NUM_BLOCKS_PER_SECOND;
            self.transparency_activated = filter_should_have_converged;
        }
    }
}

/// Legacy counter-based transparent mode classifier.
#[derive(Debug)]
pub struct LegacyTransparentMode {
    state: LegacyCounters,
}

impl View for LegacyTransparentMode {
    type V = LegacyModel;

    closed spec fn view(&self) -> LegacyModel {
        self.state.model()
    }
}

impl LegacyTransparentMode {
    /// The counters stay consistent with the number of blocks seen.
    #[verifier::type_invariant]
    spec fn consistent(self) -> bool {
        self.state.model().counters_bounded()
    }

    /// Whether another block can be counted without overflow.
    pub open spec fn has_room(&self) -> bool {
        self@.capture_block_counter + 10001 <= usize::MAX
    }

    /// A classifier in its initial state.
    pub fn new(control: &EchoRemovalControl) -> (r: LegacyTransparentMode)
        ensures
            r@ == LegacyModel::initial(control.linear_and_stable_echo_path),
    {
        LegacyTransparentMode {
            state: LegacyCounters {
                linear_and_stable_echo_path: control.linear_and_stable_echo_path,
                capture_block_counter: 0,
                transparency_activated: false,
                active_blocks_since_sane_filter: BLOCKS_SINCE_CONSISTENT_ESTIMATE_INIT,
                sane_filter_observed: false,
                finite_erl_recently_detected: false,
                non_converged_sequence_size: BLOCKS_SINCE_CONVERGED_FILTER_INIT,
                diverged_sequence_size: 0,
                active_non_converged_sequence_size: 0,
                num_converged_blocks: 0,
                recent_convergence_during_activity: false,
                strong_not_saturated_render_blocks: 0,
            },
        }
    }

    /// Number of capture blocks seen so far; an update needs this to stay
    /// more than 10000 below `usize::MAX`.
    pub fn blocks_seen(&self) -> (r: usize)
        ensures
            r == self@.capture_block_counter,
    {
        self.state.capture_block_counter
    }

    /// Returns whether transparent mode is currently active.
    pub fn active(&self) -> (r: bool)
        ensures
            r == self@.transparency_activated,
    {
        self.state.transparency_activated
    }

    /// Restarts the convergence bookkeeping.
    pub fn reset(&mut self)
        ensures
            final(self)@ == old(self)@.reset(),
    {
        proof {
            use_type_invariant(&*self);
        }
        let mut state = self.state;
        state.non_converged_sequence_size = BLOCKS_SINCE_CONVERGED_FILTER_INIT;
        state.diverged_sequence_size = 0;
        state.strong_not_saturated_render_blocks = 0;
        if state.linear_and_stable_echo_path {
            state.recent_convergence_during_activity = false;
        }
        self.state = state;
    }

    /// Updates the decision from one capture block's filter and render state.
    pub fn update(&mut self, state: &TransparentModeState)
        requires
            old(self).has_room(),
        ensures
            final(self)@ == old(self)@.step(*state),
    {
        proof {
            use_type_invariant(&*self);
        }
        let mut next = self.state;
        next.count_block(state);
        next.track_sane_filter(state);
        next.track_convergence(state);
        next.track_divergence(state);
        next.decide();
        self.state = next;
    }
}

} // verus!
