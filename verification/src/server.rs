//! The control-server operations: what each of the three client requests
//! reads or writes on the shared state.
//!
//! The transport (accepting connections, routing, reading bodies, shipping
//! responses) belongs to the embedding program. Each operation here runs
//! under one acquisition of the shared-state lock; the blocking wait of
//! `step` is a polling loop in the embedding program that re-acquires the
//! lock and calls [`AIGymState::try_step_response`] once per iteration.

use vstd::prelude::*;

use crate::capture::FrameView;
use crate::gate::{after_reset, after_step};
use crate::state::{state_wf, AIGymState, GymStateView};

verus! {

/// The one recoverable observation failure: no frame has ever been captured.
#[derive(Clone, Copy, Debug, PartialEq, Eq, Structural)]
pub enum ObserveError {
    NotReady,
}

/// The structured answer to a `step` request.
#[derive(Clone, Copy, Debug, PartialEq, Eq, Structural)]
pub struct StepResponse {
    /// The last completed step's reward: the difference between the two most
    /// recent reward entries (the sole entry if there is exactly one, zero if
    /// there is none).
    pub reward: i64,
    /// Whether the episode has ended.
    pub is_terminated: bool,
}

/// The PNG encoding of an RGBA image, as the encoder fixes it: a pure
/// function of the dimensions and the pixel bytes.
pub uninterp spec fn png_of(width: u32, height: u32, pixels: Seq<u8>) -> Seq<u8>;

/// Relies on `image::ImageBuffer::from_raw` and `ImageBuffer::write_to` with
/// `ImageFormat::Png`: for nonzero dimensions and a buffer of exactly
/// `width * height * 4` bytes the RGBA buffer is accepted, encoding into an
/// in-memory writer succeeds, and the output begins with the eight-byte PNG
/// signature; the encoder draws on nothing but the dimensions and the bytes.
#[verifier::external_body]
fn encode_png(width: u32, height: u32, pixels: &Vec<u8>) -> (r: Vec<u8>)
    requires
        (FrameView { width, height, pixels: pixels@ }).wf(),
    ensures
        r@ == png_of(width, height, pixels@),
        r@.len() >= 8,
{
    let img: image::RgbaImage =
        image::ImageBuffer::from_raw(width, height, pixels.clone()).unwrap();
    let mut bytes: Vec<u8> = Vec::new();
    img.write_to(&mut std::io::Cursor::new(&mut bytes), image::ImageFormat::Png).unwrap();
    bytes
}

/// What an observation returns, as a function of the captured frame alone.
pub open spec fn spec_observe(frame: Option<FrameView>) -> Result<Seq<u8>, ObserveError> {
    match frame {
        Some(f) => Ok(png_of(f.width, f.height, f.pixels)),
        None => Err(ObserveError::NotReady),
    }
}

/// The reward reported for the most recent step: the difference between the
/// last two recorded rewards, the sole reward if only one is recorded, and
/// zero before any step has completed.
pub open spec fn spec_step_reward(rewards: Seq<i64>) -> int {
    if rewards.len() == 0 {
        0
    } else if rewards.len() == 1 {
        rewards[0] as int
    } else {
        rewards[rewards.len() - 1] - rewards[rewards.len() - 2]
    }
}

/// The state after the control server stores a step request's payload. A
/// payload already in the slot is overwritten: the bridge holds one
/// outstanding action, last write wins.
pub open spec fn with_pending_action<T>(s: GymStateView<T>, a: Seq<char>) -> GymStateView<T> {
    GymStateView { pending_action: Some(a), ..s }
}

/// The state after the control server notes a reset request.
pub open spec fn with_reset_requested<T>(s: GymStateView<T>) -> GymStateView<T> {
    GymStateView { reset_requested: true, ..s }
}

impl<T> AIGymState<T> {
    /// Answers an `observe` request: the current frame as PNG bytes, or
    /// `NotReady` if no tick has ever completed. No side effects.
    pub fn observe(&self) -> (r: Result<Vec<u8>, ObserveError>)
        requires
            state_wf(self@),
        ensures
            match r {
                Ok(bytes) => spec_observe(self@.frame) == Ok::<Seq<u8>, ObserveError>(bytes@)
                    && bytes@.len() >= 8,
                Err(e) => spec_observe(self@.frame) == Err::<Seq<u8>, ObserveError>(e),
            },
    {
        match &self.frame {
            Some(f) => Ok(encode_png(f.width, f.height, &f.pixels)),
            None => Err(ObserveError::NotReady),
        }
    }

    /// Stores a `step` request's raw payload for the tick gate to consume.
    pub fn submit_action(&mut self, action: String)
        ensures
            final(self)@ == with_pending_action(old(self)@, action@),
    {
        self.pending_action = Some(action);
    }

    /// Notes a `reset` request; the acknowledgement is immediate and the
    /// tick gate services the reset on its own schedule.
    pub fn request_reset(&mut self)
        ensures
            final(self)@ == with_reset_requested(old(self)@),
    {
        self.reset_requested = true;
    }

    /// One iteration of `step`'s polling wait: the answer once the
    /// simulation has consumed the action and completed the tick (signalled
    /// by the pause flag), nothing before.
    pub fn try_step_response(&self) -> (r: Option<StepResponse>)
        requires
            state_wf(self@),
        ensures
            r is Some <==> self.is_paused,
            r matches Some(resp) ==> resp.reward == spec_step_reward(self@.rewards)
                && resp.is_terminated == self.is_terminated,
    {
        if !self.is_paused {
            return None;
        }
        let n = self.rewards.len();
        let reward: i64 = if n == 0 {
            0
        } else if n == 1 {
            self.rewards[0]
        } else {
            assert(-crate::REWARD_LIMIT <= self@.rewards[n - 1] <= crate::REWARD_LIMIT);
            assert(-crate::REWARD_LIMIT <= self@.rewards[n - 2] <= crate::REWARD_LIMIT);
            self.rewards[n - 1] - self.rewards[n - 2]
        };
        Some(StepResponse { reward, is_terminated: self.is_terminated })
    }
}

/// The reward history an episode accumulates when the tick gate completes one
/// step per entry of `rewards`, in order, starting from `s`.
pub open spec fn after_steps<T>(s: GymStateView<T>, rewards: Seq<i64>) -> GymStateView<T>
    decreases rewards.len(),
{
    if rewards.len() == 0 {
        s
    } else {
        after_step(after_steps(s, rewards.drop_last()), rewards.last(), false)
    }
}

/// Completing one step per entry of `rewards` appends exactly those entries
/// to the reward history.
pub proof fn lemma_after_steps_rewards<T>(s: GymStateView<T>, rewards: Seq<i64>)
    ensures
        after_steps(s, rewards).rewards =~= s.rewards + rewards,
    decreases rewards.len(),
{
    if rewards.len() == 0 {
        assert(s.rewards + rewards =~= s.rewards);
    } else {
        lemma_after_steps_rewards(s, rewards.drop_last());
        assert(s.rewards + rewards =~= (s.rewards + rewards.drop_last()).push(rewards.last()));
    }
}

/// The reward each step reports, over a whole episode: when an episode
/// starts with an empty history and the tick gate records `rewards[0..=i]`, the
/// response to the `i`-th step carries `rewards[i] - rewards[i - 1]`, and
/// the very first carries `rewards[0]`.
pub proof fn lemma_step_rewards_over_episode<T>(s: GymStateView<T>, rewards: Seq<i64>, i: int)
    requires
        s.rewards.len() == 0,
        0 <= i < rewards.len(),
    ensures
        spec_step_reward(after_steps(s, rewards.take(i + 1)).rewards) == if i == 0 {
            rewards[0] as int
        } else {
            rewards[i] - rewards[i - 1]
        },
{
    lemma_after_steps_rewards(s, rewards.take(i + 1));
    let h = after_steps(s, rewards.take(i + 1)).rewards;
    assert(h =~= rewards.take(i + 1));
    assert(h.len() == i + 1);
    assert(h[i] == rewards[i]);
    if i > 0 {
        assert(h[i - 1] == rewards[i - 1]);
    }
}

/// An observation before any tick has completed — in particular in the
/// startup state — answers `NotReady`, never an image.
pub proof fn lemma_observe_before_first_tick<T>(s: GymStateView<T>)
    requires
        s.frame is None,
    ensures
        spec_observe(s.frame) == Err::<Seq<u8>, ObserveError>(ObserveError::NotReady),
        spec_observe(crate::state::initial_state::<T>().frame) == Err::<Seq<u8>, ObserveError>(
            ObserveError::NotReady,
        ),
{
}

/// A second reset request before the first is serviced changes nothing: the
/// request is a flag, and the tick gate clears it exactly once.
pub proof fn lemma_reset_request_idempotent<T>(s: GymStateView<T>)
    ensures
        with_reset_requested(with_reset_requested(s)) == with_reset_requested(s),
{
    assert(with_reset_requested(with_reset_requested(s)) =~= with_reset_requested(s));
}

/// A reset leaves the captured frame alone, so an observation right after a
/// serviced reset shows what an observation before it showed.
pub proof fn lemma_observe_unmoved_by_reset<T>(s: GymStateView<T>)
    ensures
        spec_observe(after_reset(s).frame) == spec_observe(s.frame),
{
}

} // verus!
