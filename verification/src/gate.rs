//! The simulation tick gate: the decision the simulation thread takes once
//! per tick, and the verified bookkeeping around it.
//!
//! Once per tick it looks at the shared state and decides to reset, to
//! consume the pending action and advance one game step, or to hold (a pure
//! render/physics tick). Applying the action to the game, computing the
//! tick's reward and respawning on reset belong to the simulation
//! collaborator; the tick gate brackets that work with [`begin_step`] and
//! [`complete_step`], and services a reset with [`apply_reset`].

use vstd::prelude::*;

use crate::state::{state_wf, AIGymState, GymStateView};
use crate::REWARD_LIMIT;

verus! {

/// What the simulation thread must do this tick.
#[derive(Clone, Copy, Debug, PartialEq, Eq, Structural)]
pub enum TickDecision {
    /// Service the requested reset, then resume running.
    Reset,
    /// Consume the pending action and advance one game step.
    Apply,
    /// Advance rendering and physics only; the protocol state does not move.
    Hold,
}

/// The tick gate's decision: a requested reset wins over everything; a terminated
/// episode ignores new actions until reset; otherwise a pending action is
/// consumed; with neither, the tick is a pure render advance.
pub open spec fn spec_tick_decision<T>(s: GymStateView<T>) -> TickDecision {
    if s.reset_requested {
        TickDecision::Reset
    } else if s.is_terminated {
        TickDecision::Hold
    } else if s.pending_action is Some {
        TickDecision::Apply
    } else {
        TickDecision::Hold
    }
}

/// The state after the tick gate consumes the pending action: the slot is empty
/// and the simulation is no longer paused (the step is in flight).
pub open spec fn after_begin_step<T>(s: GymStateView<T>) -> GymStateView<T> {
    GymStateView { pending_action: None, is_paused: false, ..s }
}

/// The state after one completed step: the tick's reward is appended, the
/// episode-ending condition recorded, and the simulation holds for the next
/// action.
pub open spec fn after_step<T>(s: GymStateView<T>, reward: i64, terminated: bool) -> GymStateView<
    T,
> {
    GymStateView {
        rewards: s.rewards.push(reward),
        is_terminated: terminated,
        is_paused: true,
        ..s
    }
}

/// The state after a serviced reset: reward history, termination, pending
/// and parsed actions and the reset request are all cleared, and the
/// simulation runs unpaused. The captured frame and the render handles stay.
pub open spec fn after_reset<T>(s: GymStateView<T>) -> GymStateView<T> {
    GymStateView {
        rewards: Seq::empty(),
        is_terminated: false,
        pending_action: None,
        action: None,
        reset_requested: false,
        is_paused: false,
        ..s
    }
}

impl<T> AIGymState<T> {
    /// The decision for the current tick.
    pub fn tick_decision(&self) -> (d: TickDecision)
        ensures
            d == spec_tick_decision(self@),
    {
        if self.reset_requested {
            TickDecision::Reset
        } else if self.is_terminated {
            TickDecision::Hold
        } else if self.pending_action.is_some() {
            TickDecision::Apply
        } else {
            TickDecision::Hold
        }
    }

    /// Consumes the pending action for this tick's game step and hands its
    /// payload to the caller.
    pub fn begin_step(&mut self) -> (a: String)
        requires
            old(self).pending_action is Some,
        ensures
            old(self)@.pending_action == Some(a@),
            final(self)@ == after_begin_step(old(self)@),
    {
        let a = self.pending_action.take();
        self.is_paused = false;
        a.unwrap()
    }

    /// Records the outcome of one completed game step: the tick's reward and
    /// whether the episode-ending condition now holds; the simulation then
    /// holds for the next action. The caller must have captured a frame for
    /// this tick before announcing the pause.
    pub fn complete_step(&mut self, reward: i64, terminated: bool)
        requires
            state_wf(old(self)@),
            -REWARD_LIMIT <= reward <= REWARD_LIMIT,
            !old(self).is_terminated,
            old(self).frame is Some,
        ensures
            final(self)@ == after_step(old(self)@, reward, terminated),
            state_wf(final(self)@),
    {
        self.rewards.push(reward);
        self.is_terminated = terminated;
        self.is_paused = true;
    }

    /// Services a requested reset. The simulation collaborator restores the
    /// scene to its initial configuration; this call clears the episode's
    /// protocol state.
    pub fn apply_reset(&mut self)
        ensures
            final(self)@ == after_reset(old(self)@),
            state_wf(old(self)@) ==> state_wf(final(self)@),
    {
        self.rewards = Vec::new();
        self.is_terminated = false;
        self.pending_action = None;
        self.action = None;
        self.reset_requested = false;
        self.is_paused = false;
    }
}

/// Servicing a reset twice in a row leaves exactly the state of servicing it
/// once; in particular the captured frame is untouched, so an observation
/// after two resets equals one after a single reset.
pub proof fn lemma_reset_idempotent<T>(s: GymStateView<T>)
    ensures
        after_reset(after_reset(s)) == after_reset(s),
        after_reset(s).frame == s.frame,
{
    assert(after_reset(after_reset(s)) =~= after_reset(s));
}

/// After a serviced reset the next step starts from a clean episode: no
/// termination and an empty reward history, whatever the prior episode's
/// terminal state was — and the first completed step of the new episode
/// reports its own reward unchanged.
pub proof fn lemma_reset_clears_episode<T>(s: GymStateView<T>, reward: i64, terminated: bool)
    ensures
        !after_reset(s).is_terminated,
        after_reset(s).rewards.len() == 0,
        after_step(after_reset(s), reward, terminated).rewards =~= seq![reward],
{
}

} // verus!
