//! The dog: five sprites; its walks and interactions end as the cat's do.

use vstd::prelude::*;

use crate::pet::cat::{decode_gif, frame_parts, sprite_frames};
use crate::pet::{
    loop_end, loop_outcome, loops_after, Pet, PetKind, PetState, RgbaFrame, FACING_RIGHT,
};

verus! {

pub struct Dog {
    idle_frames: Vec<RgbaFrame>,
    walk_frames: Vec<RgbaFrame>,
    sleep_frames: Vec<RgbaFrame>,
    interact_frames: Vec<RgbaFrame>,
    alert_frames: Vec<RgbaFrame>,
    walk_direction: i8,
    walk_loops_done: u32,
}

impl Dog {
    /// Builds the dog from its five GIF sprites.
    pub fn new(
        idle_gif: &[u8],
        walk_gif: &[u8],
        sleep_gif: &[u8],
        interact_gif: &[u8],
        alert_gif: &[u8],
    ) -> (r: Self)
        ensures
            frame_parts(r.spec_frames(PetState::Idle)) == sprite_frames(idle_gif@),
            frame_parts(r.spec_frames(PetState::Walk)) == sprite_frames(walk_gif@),
            frame_parts(r.spec_frames(PetState::Sleep)) == sprite_frames(sleep_gif@),
            frame_parts(r.spec_frames(PetState::Interact)) == sprite_frames(interact_gif@),
            frame_parts(r.spec_frames(PetState::Alert)) == sprite_frames(alert_gif@),
            r.spec_walk_direction() == FACING_RIGHT,
            r.walk_loops() == 0,
    {
        Dog {
            idle_frames: decode_gif(idle_gif),
            walk_frames: decode_gif(walk_gif),
            sleep_frames: decode_gif(sleep_gif),
            interact_frames: decode_gif(interact_gif),
            alert_frames: decode_gif(alert_gif),
            walk_direction: FACING_RIGHT,
            walk_loops_done: 0,
        }
    }

    /// Walk loops completed since the walk direction was last set.
    pub closed spec fn walk_loops(&self) -> u32 {
        self.walk_loops_done
    }
}

impl Pet for Dog {
    open spec fn spec_name(&self) -> Seq<char> {
        seq!['D', 'o', 'g']
    }

    open spec fn spec_kind(&self) -> PetKind {
        PetKind::Dog
    }

    closed spec fn spec_frames(&self, state: PetState) -> Seq<RgbaFrame> {
        match state {
            PetState::Idle => self.idle_frames@,
            PetState::Walk => self.walk_frames@,
            PetState::Sleep => self.sleep_frames@,
            PetState::Interact => self.interact_frames@,
            PetState::Alert => self.alert_frames@,
        }
    }

    closed spec fn spec_walk_direction(&self) -> i8 {
        self.walk_direction
    }

    /// The dog decides only when an animation loop completes.
    open spec fn tick_decision(&self, state: PetState) -> Option<PetState> {
        None
    }

    open spec fn ticked(&self, dt: u128, state: PetState) -> Self {
        *self
    }

    /// Turning starts a new walk: its loop count restarts.
    closed spec fn turned(&self, dir: i8) -> Self {
        Dog { walk_direction: dir, walk_loops_done: 0, ..*self }
    }

    closed spec fn loop_decision(&self, state: PetState) -> Option<PetState> {
        loop_end(state, self.walk_loops_done)
    }

    closed spec fn looped(&self, state: PetState) -> Self {
        Dog { walk_loops_done: loops_after(state, self.walk_loops_done), ..*self }
    }

    fn name(&self) -> (r: &str) {
        proof {
            reveal_strlit("Dog");
        }
        "Dog"
    }

    fn kind(&self) -> (r: PetKind) {
        PetKind::Dog
    }

    fn frames(&self, state: PetState) -> (r: &[RgbaFrame]) {
        match state {
            PetState::Idle => self.idle_frames.as_slice(),
            PetState::Walk => self.walk_frames.as_slice(),
            PetState::Sleep => self.sleep_frames.as_slice(),
            PetState::Interact => self.interact_frames.as_slice(),
            PetState::Alert => self.alert_frames.as_slice(),
        }
    }

    fn tick(&mut self, dt_ns: u128, state: PetState) -> (r: Option<PetState>) {
        None
    }

    fn loop_completed(&mut self, state: PetState) -> (r: Option<PetState>) {
        let (decision, done) = loop_outcome(state, self.walk_loops_done);
        self.walk_loops_done = done;
        decision
    }

    fn walk_direction(&self) -> (d: i8) {
        self.walk_direction
    }

    fn set_walk_direction(&mut self, dir: i8) {
        self.walk_direction = dir;
        self.walk_loops_done = 0;
    }
}

/// A walk of the dog lasts `WALK_LOOPS` animation loops from the moment it is
/// turned to walk, and an interaction ends after one loop.
pub proof fn lemma_dog_walk_ends_after_loops(dog: Dog, dir: i8)
    ensures
        dog.turned(dir).loop_decision(PetState::Walk) is None,
        dog.turned(dir).looped(PetState::Walk).loop_decision(PetState::Walk) is None,
        dog.turned(dir).looped(PetState::Walk).looped(PetState::Walk).loop_decision(
            PetState::Walk,
        ) == Some(PetState::Idle),
        dog.loop_decision(PetState::Interact) == Some(PetState::Idle),
        dog.loop_decision(PetState::Walk) is None || dog.loop_decision(PetState::Walk) == Some(
            PetState::Idle,
        ),
{
}

} // verus!
