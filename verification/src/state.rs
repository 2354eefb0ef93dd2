//! The shared environment state: the single data block that the simulation
//! thread and the control-server thread exchange through a lock.
//!
//! The library itself holds no lock; it defines the state block and verified
//! transitions on it. The embedding program wraps one `AIGymState` value in a
//! mutual-exclusion lock and hands it to both threads.

use vstd::prelude::*;

use crate::capture::{Frame, FrameView};
use crate::REWARD_LIMIT;

verus! {

/// Configuration fixed at startup: the pixel dimensions of the render target
/// and of every captured frame.
pub struct AIGymSettings {
    pub width: u32,
    pub height: u32,
}

impl AIGymSettings {
    /// Usable dimensions: nonzero on both axes, and the RGBA pixel buffer
    /// (four bytes per pixel) fits in an in-memory buffer.
    pub open spec fn valid(&self) -> bool {
        1 <= self.width && 1 <= self.height && self.width * self.height * 4 <= usize::MAX
    }

    /// Accepts exactly the usable dimensions.
    pub fn new(width: u32, height: u32) -> (r: Option<AIGymSettings>)
        ensures
            match r {
                Some(s) => s.width == width && s.height == height && s.valid(),
                None => !(AIGymSettings { width, height }).valid(),
            },
    {
        proof {
            vstd::arithmetic::mul::lemma_mul_upper_bound(
                width as int,
                u32::MAX as int,
                height as int,
                u32::MAX as int,
            );
        }
        let bytes: u128 = (width as u128) * (height as u128) * 4;
        if 1 <= width && 1 <= height && bytes <= usize::MAX as u128 {
            Some(AIGymSettings { width, height })
        } else {
            None
        }
    }
}

/// An action payload the control client submits. The bridge is agnostic of
/// the payload's format; the simulation collaborator parses it and acts on it.
pub trait Action {
    fn derive(self);
}

/// The shared environment state. One instance lives for the whole process,
/// behind a lock owned by the embedding program; the simulation thread and
/// the control-server thread are its only accessors.
///
/// `T` is the parsed action type the simulation collaborator works with; the
/// bridge itself only carries it.
pub struct AIGymState<T> {
    /// Opaque reference into the rendering subsystem: the render target.
    /// Set once at startup, immutable afterwards.
    pub render_target_handle: Option<u64>,
    /// Opaque reference into the rendering subsystem: the image asset the
    /// target renders into. Set once at startup, immutable afterwards.
    pub render_image_handle: Option<u64>,
    /// True exactly while the simulation holds after a completed step,
    /// waiting for the next action.
    pub is_paused: bool,
    /// Raw, not-yet-applied action payload; written by the control server,
    /// consumed exactly once by the simulation tick gate.
    pub pending_action: Option<String>,
    /// Set by the control server; cleared and acted on by the tick gate.
    pub reset_requested: bool,
    /// Last captured RGBA frame; written only by the capture pipeline.
    pub frame: Option<Frame>,
    /// One fixed-point reward appended per completed step; cleared on reset.
    pub rewards: Vec<i64>,
    /// The parsed form of the last consumed action, for the simulation
    /// collaborator's use.
    pub action: Option<T>,
    /// True once the current episode has ended; cleared on reset.
    pub is_terminated: bool,
}

/// The mathematical model of `AIGymState`.
#[verifier::ext_equal]
pub ghost struct GymStateView<T> {
    pub render_target_handle: Option<u64>,
    pub render_image_handle: Option<u64>,
    pub is_paused: bool,
    pub pending_action: Option<Seq<char>>,
    pub reset_requested: bool,
    pub frame: Option<FrameView>,
    pub rewards: Seq<i64>,
    pub action: Option<T>,
    pub is_terminated: bool,
}

impl<T> View for AIGymState<T> {
    type V = GymStateView<T>;

    open spec fn view(&self) -> GymStateView<T> {
        GymStateView {
            render_target_handle: self.render_target_handle,
            render_image_handle: self.render_image_handle,
            is_paused: self.is_paused,
            pending_action: match self.pending_action {
                Some(a) => Some(a@),
                None => None,
            },
            reset_requested: self.reset_requested,
            frame: match self.frame {
                Some(f) => Some(f@),
                None => None,
            },
            rewards: self.rewards@,
            action: self.action,
            is_terminated: self.is_terminated,
        }
    }
}

/// Every recorded reward stays inside the band whose differences fit `i64`,
/// and a captured frame is a well-formed RGBA image.
pub open spec fn state_wf<T>(s: GymStateView<T>) -> bool {
    &&& (s.frame matches Some(f) ==> f.wf())
    &&& forall|i: int|
        0 <= i < s.rewards.len() ==> -REWARD_LIMIT <= #[trigger] s.rewards[i] <= REWARD_LIMIT
}

/// The state at startup: nothing captured, nothing pending, episode running.
pub open spec fn initial_state<T>() -> GymStateView<T> {
    GymStateView {
        render_target_handle: None,
        render_image_handle: None,
        is_paused: false,
        pending_action: None,
        reset_requested: false,
        frame: None,
        rewards: Seq::empty(),
        action: None,
        is_terminated: false,
    }
}

impl<T> AIGymState<T> {
    /// The one constructor: the empty state of a fresh process.
    pub fn new() -> (s: AIGymState<T>)
        ensures
            s@ == initial_state::<T>(),
            state_wf(s@),
    {
        AIGymState {
            render_target_handle: None,
            render_image_handle: None,
            is_paused: false,
            pending_action: None,
            reset_requested: false,
            frame: None,
            rewards: Vec::new(),
            action: None,
            is_terminated: false,
        }
    }

    /// Records the rendering subsystem's handles, once, at startup.
    pub fn initialize_render_handles(&mut self, target_handle: u64, image_handle: u64)
        requires
            old(self).render_target_handle is None,
            old(self).render_image_handle is None,
        ensures
            final(self)@ == (GymStateView {
                render_target_handle: Some(target_handle),
                render_image_handle: Some(image_handle),
                ..old(self)@
            }),
    {
        self.render_target_handle = Some(target_handle);
        self.render_image_handle = Some(image_handle);
    }
}

impl<T> Default for AIGymState<T> {
    fn default() -> (s: Self)
        ensures
            s@ == initial_state::<T>(),
            state_wf(s@),
    {
        AIGymState::new()
    }
}

} // verus!
