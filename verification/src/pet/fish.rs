//! The fish: idle, swim and alert sprites; it never sleeps and drifts on a
//! sine path whose clock it keeps here.

use vstd::prelude::*;

use crate::pet::cat::{decode_gif, frame_parts, sprite_frames};
use crate::pet::{
    loop_end, loop_outcome, loops_after, Pet, PetKind, PetState, RgbaFrame, FACING_RIGHT,
};

verus! {

pub struct Fish {
    idle_frames: Vec<RgbaFrame>,
    swim_frames: Vec<RgbaFrame>,
    alert_frames: Vec<RgbaFrame>,
    /// Accumulated tick time for the sine-wave drift, in nanoseconds
    /// (saturates at `u128::MAX`).
    pub t_ns: u128,
    /// Walk direction, kept for the trait (the fish drifts rather than walks).
    direction: i8,
    walk_loops_done: u32,
}

impl Fish {
    /// Builds the fish from its idle, swim and alert GIF sprites.
    pub fn new(idle_gif: &[u8], swim_gif: &[u8], alert_gif: &[u8]) -> (r: Self)
        ensures
            frame_parts(r.spec_frames(PetState::Idle)) == sprite_frames(idle_gif@),
            frame_parts(r.spec_frames(PetState::Walk)) == sprite_frames(swim_gif@),
            frame_parts(r.spec_frames(PetState::Alert)) == sprite_frames(alert_gif@),
            r.spec_frames(PetState::Sleep) == r.spec_frames(PetState::Idle),
            r.spec_frames(PetState::Interact) == r.spec_frames(PetState::Idle),
            r.spec_walk_direction() == FACING_RIGHT,
            r.drift_clock() == 0,
            r.walk_loops() == 0,
    {
        Fish {
            idle_frames: decode_gif(idle_gif),
            swim_frames: decode_gif(swim_gif),
            alert_frames: decode_gif(alert_gif),
            t_ns: 0,
            direction: FACING_RIGHT,
            walk_loops_done: 0,
        }
    }

    /// The drift clock (`t_ns`).
    pub closed spec fn drift_clock(&self) -> u128 {
        self.t_ns
    }

    /// Swim loops completed since the walk direction was last set.
    pub closed spec fn walk_loops(&self) -> u32 {
        self.walk_loops_done
    }
}

impl Pet for Fish {
    open spec fn spec_name(&self) -> Seq<char> {
        seq!['F', 'i', 's', 'h']
    }

    open spec fn spec_kind(&self) -> PetKind {
        PetKind::Fish
    }

    /// Walking shows the swim sprite; sleeping and interacting show the idle
    /// sprite.
    closed spec fn spec_frames(&self, state: PetState) -> Seq<RgbaFrame> {
        match state {
            PetState::Walk => self.swim_frames@,
            PetState::Alert => self.alert_frames@,
            _ => self.idle_frames@,
        }
    }

    closed spec fn spec_walk_direction(&self) -> i8 {
        self.direction
    }

    /// A fish does not sleep: asked to, it returns to Idle.
    open spec fn tick_decision(&self, state: PetState) -> Option<PetState> {
        match state {
            PetState::Sleep => Some(PetState::Idle),
            _ => None,
        }
    }

    /// The drift clock advances on every tick, whatever the state.
    closed spec fn ticked(&self, dt: u128, state: PetState) -> Self {
        Fish { t_ns: self.t_ns.saturating_add(dt), ..*self }
    }

    closed spec fn turned(&self, dir: i8) -> Self {
        Fish { direction: dir, walk_loops_done: 0, ..*self }
    }

    closed spec fn loop_decision(&self, state: PetState) -> Option<PetState> {
        loop_end(state, self.walk_loops_done)
    }

    closed spec fn looped(&self, state: PetState) -> Self {
        Fish { walk_loops_done: loops_after(state, self.walk_loops_done), ..*self }
    }

    fn name(&self) -> (r: &str) {
        proof {
            reveal_strlit("Fish");
        }
        "Fish"
    }

    fn kind(&self) -> (r: PetKind) {
        PetKind::Fish
    }

    fn frames(&self, state: PetState) -> (r: &[RgbaFrame]) {
        match state {
            PetState::Walk => self.swim_frames.as_slice(),
            PetState::Alert => self.alert_frames.as_slice(),
            _ => self.idle_frames.as_slice(),
        }
    }

    fn tick(&mut self, dt_ns: u128, state: PetState) -> (r: Option<PetState>) {
        self.t_ns = self.t_ns.saturating_add(dt_ns);
        match state {
            PetState::Sleep => Some(PetState::Idle),
            _ => None,
        }
    }

    fn loop_completed(&mut self, state: PetState) -> (r: Option<PetState>) {
        let (decision, done) = loop_outcome(state, self.walk_loops_done);
        self.walk_loops_done = done;
        decision
    }

    fn walk_direction(&self) -> (d: i8) {
        self.direction
    }

    fn set_walk_direction(&mut self, dir: i8) {
        self.direction = dir;
        self.walk_loops_done = 0;
    }
}

/// A swim of the fish lasts `WALK_LOOPS` animation loops from the moment it
/// is turned, and an interaction ends after one loop.
pub proof fn lemma_fish_walk_ends_after_loops(fish: Fish, dir: i8)
    ensures
        fish.turned(dir).loop_decision(PetState::Walk) is None,
        fish.turned(dir).looped(PetState::Walk).loop_decision(PetState::Walk) is None,
        fish.turned(dir).looped(PetState::Walk).looped(PetState::Walk).loop_decision(
            PetState::Walk,
        ) == Some(PetState::Idle),
        fish.loop_decision(PetState::Interact) == Some(PetState::Idle),
        fish.loop_decision(PetState::Walk) is None || fish.loop_decision(PetState::Walk) == Some(
            PetState::Idle,
        ),
        fish.ticked(0, PetState::Idle).drift_clock() == fish.drift_clock(),
{
}

} // verus!
