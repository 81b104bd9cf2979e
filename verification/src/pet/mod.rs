//! Pet kinds and states, the `Pet` trait that each sprite set implements, and
//! the state machine that drives state changes and frame advancement.

pub mod cat;
pub mod dog;
pub mod fish;

use vstd::prelude::*;

use crate::text::{all_ascii, ascii_lower, ascii_lowercase, to_lowercase, unicode_lowercase};

verus! {

// ─── Time ────────────────────────────────────────────────────────────────────

/// Nanoseconds in one second.
pub const NANOS_PER_SEC: u128 = 1_000_000_000;

/// Nanoseconds in one millisecond.
pub const NANOS_PER_MILLI: u128 = 1_000_000;

/// The longest span a `std::time::Duration` can hold, in nanoseconds
/// (`u64::MAX` seconds plus 999 999 999 nanoseconds).
pub const DURATION_MAX_NS: u128 = 18_446_744_073_709_551_615_999_999_999;

/// Whole seconds in a span of nanoseconds (what `Duration::as_secs` gives).
pub open spec fn whole_secs(ns: u128) -> int {
    ns as int / NANOS_PER_SEC as int
}

// ─── Pet kind ────────────────────────────────────────────────────────────────

/// Which pet is shown.
#[derive(Debug, PartialEq, Eq)]
pub enum PetKind {
    Cat,
    Dog,
    Fish,
    /// Community plugin — name matches the manifest's pet name (lowercase).
    Plugin(String),
}

/// The three names that select a built-in pet.
pub open spec fn cat_name() -> Seq<char> {
    seq!['c', 'a', 't']
}

pub open spec fn dog_name() -> Seq<char> {
    seq!['d', 'o', 'g']
}

pub open spec fn fish_name() -> Seq<char> {
    seq!['f', 'i', 's', 'h']
}

impl PetKind {
    /// The kind that an already lowercased name selects: the built-in pet of
    /// that name, otherwise a plugin carrying the name.
    pub open spec fn named(self, lower: Seq<char>) -> bool {
        match self {
            PetKind::Cat => lower == cat_name(),
            PetKind::Dog => lower == dog_name(),
            PetKind::Fish => lower == fish_name(),
            PetKind::Plugin(name) => {
                &&& name@ == lower
                &&& lower != cat_name()
                &&& lower != dog_name()
                &&& lower != fish_name()
            },
        }
    }

    /// Parses a pet kind from user text, case-insensitively; anything that is
    /// not `cat`, `dog` or `fish` names a plugin.
    pub fn from_str(s: &str) -> (r: PetKind)
        ensures
            r.named(unicode_lowercase(s@)),
            all_ascii(s@) ==> r.named(ascii_lowercase(s@)),
    {
        let lower = to_lowercase(s);
        let cat = "cat".to_owned();
        let dog = "dog".to_owned();
        let fish = "fish".to_owned();
        proof {
            reveal_strlit("cat");
            reveal_strlit("dog");
            reveal_strlit("fish");
            assert(cat@ =~= cat_name());
            assert(dog@ =~= dog_name());
            assert(fish@ =~= fish_name());
        }
        if lower == cat {
            PetKind::Cat
        } else if lower == dog {
            PetKind::Dog
        } else if lower == fish {
            PetKind::Fish
        } else {
            PetKind::Plugin(lower)
        }
    }
}

impl PetKind {
    /// Two kinds select the same pet: the same built-in pet, or plugins whose
    /// names have the same characters.
    pub open spec fn same_kind(self, other: PetKind) -> bool {
        match (self, other) {
            (PetKind::Plugin(a), PetKind::Plugin(b)) => a@ == b@,
            (PetKind::Plugin(_), _) => false,
            (_, PetKind::Plugin(_)) => false,
            _ => self == other,
        }
    }

    /// Whether two kinds select the same pet.
    pub fn same_as(&self, other: &PetKind) -> (r: bool)
        ensures
            r == self.same_kind(*other),
    {
        match (self, other) {
            (PetKind::Cat, PetKind::Cat) => true,
            (PetKind::Dog, PetKind::Dog) => true,
            (PetKind::Fish, PetKind::Fish) => true,
            (PetKind::Plugin(a), PetKind::Plugin(b)) => a.eq(b),
            _ => false,
        }
    }
}

/// For ASCII text, parsing a pet kind ignores case: the lowercased text is
/// again ASCII, and it selects the same pet as the text itself.
pub proof fn lemma_from_str_ignores_ascii_case(s: Seq<char>, k1: PetKind, k2: PetKind)
    requires
        all_ascii(s),
        k1.named(ascii_lowercase(s)),
        k2.named(ascii_lowercase(ascii_lowercase(s))),
    ensures
        all_ascii(ascii_lowercase(s)),
        k1.same_kind(k2),
{
    let l = ascii_lowercase(s);
    assert forall|i: int| 0 <= i < l.len() implies (#[trigger] l[i] as u32) < 128 by {
        assert((s[i] as u32) < 128);
    }
    assert forall|i: int| 0 <= i < l.len() implies ascii_lower(#[trigger] l[i]) == l[i] by {
        assert(l[i] == ascii_lower(s[i]));
    }
    assert(ascii_lowercase(l) =~= l);
}

impl Clone for PetKind {
    fn clone(&self) -> (r: Self)
        ensures
            r == *self,
    {
        match self {
            PetKind::Cat => PetKind::Cat,
            PetKind::Dog => PetKind::Dog,
            PetKind::Fish => PetKind::Fish,
            PetKind::Plugin(name) => PetKind::Plugin(name.clone()),
        }
    }
}

// ─── Pet state ───────────────────────────────────────────────────────────────

/// What the pet is doing.
#[derive(Debug, Clone, Copy, PartialEq, Eq, Structural)]
pub enum PetState {
    Idle,
    Walk,
    Sleep,
    /// Triggered by a left click — plays once, then returns to Idle.
    Interact,
    /// Triggered when the CPU stays above the alert threshold.
    Alert,
}

// ─── RGBA frame ──────────────────────────────────────────────────────────────

/// One decoded animation frame.
#[derive(Clone)]
pub struct RgbaFrame {
    /// Raw RGBA bytes, row by row.
    pub pixels: Vec<u8>,
    pub width: u32,
    pub height: u32,
    /// How long to show this frame, in milliseconds.
    pub delay_ms: u64,
}

// ─── Pet trait ───────────────────────────────────────────────────────────────

/// Walk direction of a pet that faces right.
pub const FACING_RIGHT: i8 = 1;

/// Walk direction of a pet that faces left.
pub const FACING_LEFT: i8 = -1;

/// Full walk animation loops after which a walking pet returns to Idle.
pub const WALK_LOOPS: u32 = 3;

/// What a pet decides when an animation loop of `state` completes, having
/// completed `done` walk loops before: an interaction plays once, a walk
/// lasts `WALK_LOOPS` loops.
pub open spec fn loop_end(state: PetState, done: u32) -> Option<PetState> {
    match state {
        PetState::Interact => Some(PetState::Idle),
        PetState::Walk => if done + 1 >= WALK_LOOPS {
            Some(PetState::Idle)
        } else {
            None
        },
        _ => None,
    }
}

/// The walk-loop count after an animation loop of `state` completes
/// (it stops growing at `u32::MAX`).
pub open spec fn loops_after(state: PetState, done: u32) -> u32 {
    if state == PetState::Walk && done < u32::MAX {
        (done + 1) as u32
    } else {
        done
    }
}

/// The decision and the new walk-loop count when an animation loop of
/// `state` completes after `done` walk loops (shared by the pets).
pub fn loop_outcome(state: PetState, done: u32) -> (r: (Option<PetState>, u32))
    ensures
        r == (loop_end(state, done), loops_after(state, done)),
{
    match state {
        PetState::Interact => (Some(PetState::Idle), done),
        PetState::Walk => {
            let decision = if done >= WALK_LOOPS - 1 {
                Some(PetState::Idle)
            } else {
                None
            };
            let next = if done < u32::MAX {
                done + 1
            } else {
                done
            };
            (decision, next)
        },
        _ => (None, done),
    }
}

/// A sprite set with its own small behaviour. Each method's effect is given
/// by a spec function of the pet before the call.
pub trait Pet: Sized {
    /// The display name.
    spec fn spec_name(&self) -> Seq<char>;

    /// The kind that selects this pet.
    spec fn spec_kind(&self) -> PetKind;

    /// The frames shown in a state.
    spec fn spec_frames(&self, state: PetState) -> Seq<RgbaFrame>;

    /// Walk direction: `FACING_RIGHT` or `FACING_LEFT` (any negative value
    /// faces left).
    spec fn spec_walk_direction(&self) -> i8;

    /// The state the pet asks for when ticked in a state (`None`: stay).
    spec fn tick_decision(&self, state: PetState) -> Option<PetState>;

    /// The pet after a tick of `dt` nanoseconds in a state.
    spec fn ticked(&self, dt: u128, state: PetState) -> Self;

    /// The pet after it is turned to walk in direction `dir`.
    spec fn turned(&self, dir: i8) -> Self;

    /// The state the pet asks for when an animation loop of a state completes
    /// (`None`: stay).
    spec fn loop_decision(&self, state: PetState) -> Option<PetState>;

    /// The pet after an animation loop of a state completes.
    spec fn looped(&self, state: PetState) -> Self;

    fn name(&self) -> (r: &str)
        ensures
            r@ == self.spec_name(),
    ;

    fn kind(&self) -> (r: PetKind)
        ensures
            r == self.spec_kind(),
    ;

    /// Frames for a state; a state without its own sprite falls back to
    /// another sprite of the same pet.
    fn frames(&self, state: PetState) -> (r: &[RgbaFrame])
        ensures
            r@ == self.spec_frames(state),
    ;

    /// Called with the elapsed time while the machine lets the pet decide;
    /// returns the state the pet wants next.
    fn tick(&mut self, dt_ns: u128, state: PetState) -> (r: Option<PetState>)
        ensures
            r == old(self).tick_decision(state),
            *final(self) == old(self).ticked(dt_ns, state),
            forall|s: PetState| #[trigger]
                final(self).spec_frames(s) == old(self).spec_frames(s),
    ;

    /// Called each time the animation of `state` wraps back to its first
    /// frame; returns the state the pet wants next.
    fn loop_completed(&mut self, state: PetState) -> (r: Option<PetState>)
        ensures
            r == old(self).loop_decision(state),
            *final(self) == old(self).looped(state),
            forall|s: PetState| #[trigger]
                final(self).spec_frames(s) == old(self).spec_frames(s),
    ;

    fn walk_direction(&self) -> (d: i8)
        ensures
            d == self.spec_walk_direction(),
    ;

    fn set_walk_direction(&mut self, dir: i8)
        ensures
            *final(self) == old(self).turned(dir),
            final(self).spec_walk_direction() == dir,
            forall|s: PetState| #[trigger]
                final(self).spec_frames(s) == old(self).spec_frames(s),
    ;
}

// ─── State machine ───────────────────────────────────────────────────────────

/// Seconds of calm CPU after which an alert ends.
pub const ALERT_RECOVERY_SECS: u64 = 5;

/// Drives state transitions and frame advancement for any pet.
pub struct StateMachine {
    pub state: PetState,
    pub frame_index: usize,
    /// How long the current frame has been shown (ns).
    pub frame_elapsed: u128,
    /// How long we have been in the current state (ns).
    pub state_elapsed: u128,
    /// Cumulative idle time (reset on any non-idle state) (ns).
    pub idle_elapsed: u128,
    /// How long the CPU has been at or above the threshold (ns).
    pub alert_elapsed: u128,
    /// How long the CPU has been below the threshold (ns).
    pub recovery_elapsed: u128,
    pub sleep_after_secs: u64,
    pub alert_sustain_secs: u64,
    pub alert_recovery_secs: u64,
}

/// Walk direction chosen by the direction roll.
pub open spec fn rolled_direction(right: bool) -> i8 {
    if right {
        FACING_RIGHT
    } else {
        FACING_LEFT
    }
}

/// `a + b` where both are spans, as a span.
pub open spec fn add_ns(a: u128, b: u128) -> u128 {
    (a + b) as u128
}

/// How long a frame is shown, in nanoseconds.
pub open spec fn delay_ns(f: RgbaFrame) -> u128 {
    (f.delay_ms * NANOS_PER_MILLI) as u128
}

/// A state whose animation loops are reported to the pet.
pub open spec fn loops_reported(s: PetState) -> bool {
    s == PetState::Walk || s == PetState::Interact
}

impl StateMachine {
    /// The timers can absorb `dt` without leaving the range of a `Duration`.
    pub open spec fn tick_fits(self, dt: u128, cpu_over: bool) -> bool {
        &&& dt <= DURATION_MAX_NS
        &&& self.state_elapsed + dt <= DURATION_MAX_NS
        &&& self.frame_elapsed + dt <= DURATION_MAX_NS
        &&& cpu_over ==> self.alert_elapsed + dt <= DURATION_MAX_NS
        &&& !cpu_over ==> self.recovery_elapsed + dt <= DURATION_MAX_NS
        &&& self.state == PetState::Idle ==> self.idle_elapsed + dt <= DURATION_MAX_NS
    }

    /// The timers after `dt` has passed, before any state change.
    pub open spec fn timed(self, dt: u128, cpu_over: bool) -> StateMachine {
        StateMachine {
            state_elapsed: add_ns(self.state_elapsed, dt),
            frame_elapsed: add_ns(self.frame_elapsed, dt),
            alert_elapsed: if cpu_over {
                add_ns(self.alert_elapsed, dt)
            } else {
                0
            },
            recovery_elapsed: if cpu_over {
                0
            } else {
                add_ns(self.recovery_elapsed, dt)
            },
            idle_elapsed: if self.state == PetState::Idle {
                add_ns(self.idle_elapsed, dt)
            } else {
                self.idle_elapsed
            },
            ..self
        }
    }

    /// The CPU has been high for long enough, and no interaction is playing.
    pub open spec fn should_alert(self) -> bool {
        whole_secs(self.alert_elapsed) >= self.alert_sustain_secs && self.state
            != PetState::Interact
    }

    /// An alert that has seen calm CPU for long enough.
    pub open spec fn should_recover(self) -> bool {
        self.state == PetState::Alert && whole_secs(self.recovery_elapsed)
            >= self.alert_recovery_secs
    }

    /// The idle pet has been idle for long enough to fall asleep.
    pub open spec fn sleepy(self) -> bool {
        whole_secs(self.idle_elapsed) >= self.sleep_after_secs
    }

    /// The state change a tick asks for on the timers after `dt`, and the pet
    /// after being consulted: a walk starts on the walk roll (turning the pet
    /// by the direction roll); walks and interactions ask the pet.
    pub open spec fn decided<P: Pet>(
        self,
        pet: P,
        dt: u128,
        walk_roll: bool,
        walk_right: bool,
    ) -> (Option<PetState>, P) {
        match self.state {
            PetState::Idle => if self.should_alert() {
                (Some(PetState::Alert), pet)
            } else if self.sleepy() {
                (Some(PetState::Sleep), pet)
            } else if walk_roll {
                (Some(PetState::Walk), pet.turned(rolled_direction(walk_right)))
            } else {
                (None, pet)
            },
            PetState::Walk => if self.should_alert() {
                (Some(PetState::Alert), pet)
            } else {
                (pet.tick_decision(PetState::Walk), pet.ticked(dt, PetState::Walk))
            },
            PetState::Sleep => if self.should_alert() {
                (Some(PetState::Alert), pet)
            } else {
                (None, pet)
            },
            PetState::Interact => (
                pet.tick_decision(PetState::Interact),
                pet.ticked(dt, PetState::Interact),
            ),
            PetState::Alert => if self.should_recover() {
                (Some(PetState::Idle), pet)
            } else {
                (None, pet)
            },
        }
    }

    /// After a hard state change: a new state restarts its frames, its frame
    /// clock and its timer, and leaving Idle clears the idle time.
    pub open spec fn transitioned(self, s: PetState) -> StateMachine {
        if self.state != s {
            StateMachine {
                state: s,
                frame_index: 0,
                frame_elapsed: 0,
                state_elapsed: 0,
                idle_elapsed: if s != PetState::Idle {
                    0
                } else {
                    self.idle_elapsed
                },
                ..self
            }
        } else {
            self
        }
    }

    /// Applies an optional state change.
    pub open spec fn after(self, d: Option<PetState>) -> StateMachine {
        match d {
            Some(s) => self.transitioned(s),
            None => self,
        }
    }

    /// The frame after the current one, among `n` frames.
    pub open spec fn next_frame(self, n: nat) -> usize {
        ((self.frame_index + 1) % (n as int)) as usize
    }

    /// The current frame has been shown for its whole delay.
    pub open spec fn frame_due(self, frames: Seq<RgbaFrame>) -> bool {
        &&& frames.len() > 0
        &&& self.frame_elapsed >= delay_ns(frames[self.frame_index as int % frames.len() as int])
    }

    /// The animation played on: once the current frame has been shown for its
    /// whole delay, the next frame shows and its clock restarts from zero (at
    /// most one frame per tick). When a walk or an interaction wraps to its
    /// first frame the pet is told, and a state change it asks for is made.
    pub open spec fn animated<P: Pet>(self, pet: P) -> (StateMachine, P) {
        let frames = pet.spec_frames(self.state);
        if !self.frame_due(frames) {
            (self, pet)
        } else {
            let m = StateMachine {
                frame_index: self.next_frame(frames.len()),
                frame_elapsed: 0,
                ..self
            };
            if m.frame_index == 0 && loops_reported(m.state) {
                let p = pet.looped(m.state);
                match pet.loop_decision(m.state) {
                    Some(s) => (m.transitioned(s), p),
                    None => (m, p),
                }
            } else {
                (m, pet)
            }
        }
    }

    /// The machine and the pet after a tick.
    pub open spec fn tick_result<P: Pet>(
        self,
        pet: P,
        dt: u128,
        cpu_over: bool,
        walk_roll: bool,
        walk_right: bool,
    ) -> (StateMachine, P) {
        let t = self.timed(dt, cpu_over);
        let (d, p) = t.decided(pet, dt, walk_roll, walk_right);
        t.after(d).animated(p)
    }
}

/// The machine and the pet after ticks of the given lengths, each with the
/// CPU below the alert threshold and no walk roll.
pub open spec fn calm_ticks<P: Pet>(m: StateMachine, pet: P, dts: Seq<u128>) -> (
    StateMachine,
    P,
)
    decreases dts.len(),
{
    if dts.len() == 0 {
        (m, pet)
    } else {
        let r = m.tick_result(pet, dts[0], false, false, false);
        calm_ticks(r.0, r.1, dts.drop_first())
    }
}

/// Frame steps left in a walk of `n` frames that shows frame `index` and has
/// completed `done` loops, until its last loop completes.
pub open spec fn walk_steps_left(index: int, done: int, n: int) -> int {
    (WALK_LOOPS - done) * n - index
}

/// Stepping the reduced index agrees with stepping the index.
proof fn lemma_mod_succ(a: int, n: int)
    requires
        a >= 0,
        n > 0,
    ensures
        ((a % n) + 1) % n == (a + 1) % n,
{
    vstd::arithmetic::div_mod::lemma_add_mod_noop(a, 1, n);
    if n > 1 {
        vstd::arithmetic::div_mod::lemma_small_mod(1, n as nat);
    }
}

impl StateMachine {
    pub fn new(sleep_after_secs: u64, alert_sustain_secs: u64) -> (r: Self)
        ensures
            r == (StateMachine {
                state: PetState::Idle,
                frame_index: 0,
                frame_elapsed: 0,
                state_elapsed: 0,
                idle_elapsed: 0,
                alert_elapsed: 0,
                recovery_elapsed: 0,
                sleep_after_secs,
                alert_sustain_secs,
                alert_recovery_secs: ALERT_RECOVERY_SECS,
            }),
    {
        StateMachine {
            state: PetState::Idle,
            frame_index: 0,
            frame_elapsed: 0,
            state_elapsed: 0,
            idle_elapsed: 0,
            alert_elapsed: 0,
            recovery_elapsed: 0,
            sleep_after_secs,
            alert_sustain_secs,
            alert_recovery_secs: ALERT_RECOVERY_SECS,
        }
    }

    /// Whether a tick of `dt_ns` keeps every timer within the range of a
    /// `Duration` (past it the timers overflow).
    pub fn can_tick(&self, dt_ns: u128, cpu_over: bool) -> (r: bool)
        ensures
            r == self.tick_fits(dt_ns, cpu_over),
    {
        dt_ns <= DURATION_MAX_NS && self.state_elapsed <= DURATION_MAX_NS - dt_ns
            && self.frame_elapsed <= DURATION_MAX_NS - dt_ns && (if cpu_over {
            self.alert_elapsed <= DURATION_MAX_NS - dt_ns
        } else {
            self.recovery_elapsed <= DURATION_MAX_NS - dt_ns
        }) && (self.state != PetState::Idle || self.idle_elapsed <= DURATION_MAX_NS - dt_ns)
    }

    /// Plays the animation on after the timers and the state have been
    /// updated (see `animated`).
    fn animate<P: Pet>(&mut self, pet: &mut P)
        ensures
            (*final(self), *final(pet)) == old(self).animated(*old(pet)),
    {
        let frames = pet.frames(self.state);
        let n = frames.len();
        if n == 0 {
            return;
        }
        let d = frames[self.frame_index % n].delay_ms as u128 * NANOS_PER_MILLI;
        if self.frame_elapsed < d {
            return;
        }
        let i = self.frame_index;
        self.frame_index = (i % n + 1) % n;
        proof {
            lemma_mod_succ(i as int, n as int);
        }
        self.frame_elapsed = 0;
        if self.frame_index == 0 && (self.state == PetState::Walk || self.state
            == PetState::Interact) {
            let st = self.state;
            match pet.loop_completed(st) {
                Some(s) => self.transition(s),
                None => {},
            }
        }
    }

    /// Main tick — call every frame with the elapsed time, whether the CPU is
    /// at or above the alert threshold, the outcome of the per-tick walk roll
    /// and of the walk direction roll. Returns the state to render.
    pub fn tick<P: Pet>(
        &mut self,
        dt_ns: u128,
        pet: &mut P,
        cpu_over: bool,
        walk_roll: bool,
        walk_right: bool,
    ) -> (r: PetState)
        requires
            old(self).tick_fits(dt_ns, cpu_over),
        ensures
            (*final(self), *final(pet)) == old(self).tick_result(
                *old(pet),
                dt_ns,
                cpu_over,
                walk_roll,
                walk_right,
            ),
            r == final(self).state,
    {
        let ghost start = *self;
        let ghost pet0 = *pet;

        self.state_elapsed = self.state_elapsed + dt_ns;
        self.frame_elapsed = self.frame_elapsed + dt_ns;

        // CPU alert tracking
        if cpu_over {
            self.alert_elapsed = self.alert_elapsed + dt_ns;
            self.recovery_elapsed = 0;
        } else {
            self.recovery_elapsed = self.recovery_elapsed + dt_ns;
            self.alert_elapsed = 0;
        }

        let should_alert = self.alert_elapsed / NANOS_PER_SEC >= self.alert_sustain_secs as u128
            && self.state != PetState::Interact;
        let should_recover = self.state == PetState::Alert && self.recovery_elapsed / NANOS_PER_SEC
            >= self.alert_recovery_secs as u128;

        let next = match self.state {
            PetState::Idle => {
                self.idle_elapsed = self.idle_elapsed + dt_ns;
                if should_alert {
                    Some(PetState::Alert)
                } else if self.idle_elapsed / NANOS_PER_SEC >= self.sleep_after_secs as u128 {
                    Some(PetState::Sleep)
                } else if walk_roll {
                    let dir = if walk_right {
                        FACING_RIGHT
                    } else {
                        FACING_LEFT
                    };
                    pet.set_walk_direction(dir);
                    Some(PetState::Walk)
                } else {
                    None
                }
            },
            PetState::Walk => {
                if should_alert {
                    Some(PetState::Alert)
                } else {
                    pet.tick(dt_ns, PetState::Walk)
                }
            },
            PetState::Sleep => {
                if should_alert {
                    Some(PetState::Alert)
                } else {
                    None
                }
            },
            PetState::Interact => pet.tick(dt_ns, PetState::Interact),
            PetState::Alert => {
                if should_recover {
                    Some(PetState::Idle)
                } else {
                    None
                }
            },
        };
        assert(*self == start.timed(dt_ns, cpu_over));
        assert((next, *pet) == start.timed(dt_ns, cpu_over).decided(
            pet0,
            dt_ns,
            walk_roll,
            walk_right,
        ));

        if let Some(new_state) = next {
            self.transition(new_state);
        }
        self.animate(pet);
        self.state
    }

    /// Handles a left click: a sleeping, walking or idle pet starts its
    /// interaction; a click during an interaction restarts it from its first
    /// frame; an alert is not interrupted.
    pub fn on_click(&mut self)
        ensures
            *final(self) == (match old(self).state {
                PetState::Sleep | PetState::Walk | PetState::Idle => old(self).transitioned(
                    PetState::Interact,
                ),
                PetState::Interact => StateMachine {
                    frame_index: 0,
                    state_elapsed: 0,
                    ..*old(self)
                },
                PetState::Alert => *old(self),
            }),
            final(self).state == old(self).state ==> final(self).frame_elapsed == old(
                self,
            ).frame_elapsed,
    {
        match self.state {
            PetState::Sleep | PetState::Walk => self.transition(PetState::Interact),
            PetState::Idle => self.transition(PetState::Interact),
            PetState::Interact => {
                self.frame_index = 0;
                self.state_elapsed = 0;
            },
            _ => {},
        }
    }

    /// Hard-sets the pet to a state (e.g. from the menu). Changing state
    /// restarts the frames, the frame clock and the state timer; leaving Idle
    /// clears the idle time; setting the current state changes nothing.
    pub fn transition(&mut self, new_state: PetState)
        ensures
            *final(self) == old(self).transitioned(new_state),
            old(self).state == new_state ==> *final(self) == *old(self),
            old(self).state != new_state ==> final(self).state == new_state
                && final(self).frame_index == 0 && final(self).frame_elapsed == 0
                && final(self).state_elapsed == 0,
            old(self).state != new_state && new_state != PetState::Idle
                ==> final(self).idle_elapsed == 0,
            new_state == PetState::Idle ==> final(self).idle_elapsed == old(self).idle_elapsed,
    {
        if self.state != new_state {
            self.state = new_state;
            self.frame_index = 0;
            self.frame_elapsed = 0;
            self.state_elapsed = 0;
            if new_state != PetState::Idle {
                self.idle_elapsed = 0;
            }
        }
    }
}

// ─── Laws of the state machine ───────────────────────────────────────────────

/// Playing the animation of a state whose loops are not reported moves only
/// the frame and its clock: the state, the timers and the pet stay.
proof fn lemma_animation_keeps_state<P: Pet>(m: StateMachine, pet: P)
    requires
        !loops_reported(m.state),
    ensures
        m.animated(pet).1 == pet,
        m.animated(pet).0 == (StateMachine {
            frame_index: m.animated(pet).0.frame_index,
            frame_elapsed: m.animated(pet).0.frame_elapsed,
            ..m
        }),
{
}

/// CPU load held for the sustain time alerts an idle, walking or sleeping pet.
pub proof fn lemma_sustained_load_alerts<P: Pet>(
    m: StateMachine,
    pet: P,
    dt: u128,
    walk_roll: bool,
    walk_right: bool,
)
    requires
        m.tick_fits(dt, true),
        m.state == PetState::Idle || m.state == PetState::Walk || m.state == PetState::Sleep,
        whole_secs(add_ns(m.alert_elapsed, dt)) >= m.alert_sustain_secs,
    ensures
        m.tick_result(pet, dt, true, walk_roll, walk_right).0.state == PetState::Alert,
        m.tick_result(pet, dt, true, walk_roll, walk_right).1 == pet,
{
    let t = m.timed(dt, true);
    lemma_animation_keeps_state(t.transitioned(PetState::Alert), pet);
}

/// While the CPU stays at or above the threshold, an alert goes on (for a
/// machine whose recovery time is not zero) and the pet is left alone.
pub proof fn lemma_load_keeps_alert<P: Pet>(
    m: StateMachine,
    pet: P,
    dt: u128,
    walk_roll: bool,
    walk_right: bool,
)
    requires
        m.tick_fits(dt, true),
        m.state == PetState::Alert,
        m.alert_recovery_secs > 0,
    ensures
        m.tick_result(pet, dt, true, walk_roll, walk_right).0.state == PetState::Alert,
        m.tick_result(pet, dt, true, walk_roll, walk_right).1 == pet,
{
    lemma_animation_keeps_state(m.timed(dt, true), pet);
}

/// Calm CPU for the recovery time returns an alerted pet to Idle.
pub proof fn lemma_calm_ends_alert<P: Pet>(
    m: StateMachine,
    pet: P,
    dt: u128,
    walk_roll: bool,
    walk_right: bool,
)
    requires
        m.tick_fits(dt, false),
        m.state == PetState::Alert,
        whole_secs(add_ns(m.recovery_elapsed, dt)) >= m.alert_recovery_secs,
    ensures
        m.tick_result(pet, dt, false, walk_roll, walk_right).0.state == PetState::Idle,
        m.tick_result(pet, dt, false, walk_roll, walk_right).1 == pet,
{
    lemma_animation_keeps_state(m.timed(dt, false).transitioned(PetState::Idle), pet);
}

/// An idle pet falls asleep once it has idled for the sleep time, unless an
/// alert is due; falling asleep clears the idle time.
pub proof fn lemma_idle_falls_asleep<P: Pet>(
    m: StateMachine,
    pet: P,
    dt: u128,
    cpu_over: bool,
    walk_roll: bool,
    walk_right: bool,
)
    requires
        m.tick_fits(dt, cpu_over),
        m.state == PetState::Idle,
        !m.timed(dt, cpu_over).should_alert(),
        whole_secs(add_ns(m.idle_elapsed, dt)) >= m.sleep_after_secs,
    ensures
        m.tick_result(pet, dt, cpu_over, walk_roll, walk_right).0.state == PetState::Sleep,
        m.tick_result(pet, dt, cpu_over, walk_roll, walk_right).0.idle_elapsed == 0,
{
    lemma_animation_keeps_state(m.timed(dt, cpu_over).transitioned(PetState::Sleep), pet);
}

/// An idle pet that is neither alerted nor sleepy starts walking exactly when
/// the walk roll comes up, turned the way the direction roll says; otherwise
/// it stays idle.
pub proof fn lemma_idle_walks_on_roll<P: Pet>(
    m: StateMachine,
    pet: P,
    dt: u128,
    cpu_over: bool,
    walk_roll: bool,
    walk_right: bool,
)
    requires
        m.tick_fits(dt, cpu_over),
        m.state == PetState::Idle,
        !m.timed(dt, cpu_over).should_alert(),
        !m.timed(dt, cpu_over).sleepy(),
    ensures
        m.timed(dt, cpu_over).decided(pet, dt, walk_roll, walk_right) == (if walk_roll {
            (Some(PetState::Walk), pet.turned(rolled_direction(walk_right)))
        } else {
            (None, pet)
        }),
        !walk_roll ==> m.tick_result(pet, dt, cpu_over, walk_roll, walk_right).0.state
            == PetState::Idle,
{
    if !walk_roll {
        lemma_animation_keeps_state(m.timed(dt, cpu_over), pet);
    }
}

/// A sleeping pet stays asleep on every tick that brings no alert: only a
/// click (or an alert) ends its sleep.
pub proof fn lemma_sleep_lasts<P: Pet>(
    m: StateMachine,
    pet: P,
    dt: u128,
    cpu_over: bool,
    walk_roll: bool,
    walk_right: bool,
)
    requires
        m.tick_fits(dt, cpu_over),
        m.state == PetState::Sleep,
        !m.timed(dt, cpu_over).should_alert(),
    ensures
        m.tick_result(pet, dt, cpu_over, walk_roll, walk_right).0.state == PetState::Sleep,
        m.tick_result(pet, dt, cpu_over, walk_roll, walk_right).1 == pet,
{
    lemma_animation_keeps_state(m.timed(dt, cpu_over), pet);
}

/// An interaction is not cut short: while its current frame has not been
/// shown for its whole delay, a tick leaves the pet interacting on the same
/// frame, whatever the CPU does.
pub proof fn lemma_interaction_plays_on<P: Pet>(
    m: StateMachine,
    pet: P,
    dt: u128,
    cpu_over: bool,
    walk_roll: bool,
    walk_right: bool,
)
    requires
        m.tick_fits(dt, cpu_over),
        m.state == PetState::Interact,
        pet.tick_decision(PetState::Interact) is None,
        !m.timed(dt, cpu_over).frame_due(pet.ticked(dt, PetState::Interact).spec_frames(PetState::Interact)),
    ensures
        m.tick_result(pet, dt, cpu_over, walk_roll, walk_right) == (
            m.timed(dt, cpu_over),
            pet.ticked(dt, PetState::Interact),
        ),
        m.tick_result(pet, dt, cpu_over, walk_roll, walk_right).0.state == PetState::Interact,
        m.tick_result(pet, dt, cpu_over, walk_roll, walk_right).0.frame_index == m.frame_index,
{
}

/// When a walk or an interaction wraps back to its first frame, the state
/// the pet then asks for takes effect: an interaction whose animation has
/// completed, or a walk that has made its loops, returns to Idle.
pub proof fn lemma_wrap_applies_pet_decision<P: Pet>(
    m: StateMachine,
    pet: P,
    dt: u128,
    cpu_over: bool,
    walk_roll: bool,
    walk_right: bool,
)
    requires
        m.tick_fits(dt, cpu_over),
        m.state == PetState::Walk || m.state == PetState::Interact,
        m.state == PetState::Walk ==> !m.timed(dt, cpu_over).should_alert(),
        pet.tick_decision(m.state) is None,
        m.timed(dt, cpu_over).frame_due(pet.ticked(dt, m.state).spec_frames(m.state)),
        m.timed(dt, cpu_over).next_frame(pet.ticked(dt, m.state).spec_frames(m.state).len())
            == 0,
        pet.ticked(dt, m.state).loop_decision(m.state) == Some(PetState::Idle),
    ensures
        m.tick_result(pet, dt, cpu_over, walk_roll, walk_right).0.state == PetState::Idle,
        m.tick_result(pet, dt, cpu_over, walk_roll, walk_right).1 == pet.ticked(
            dt,
            m.state,
        ).looped(m.state),
{
}

/// The animation of a walk or an interaction, for pets that ask for nothing
/// but Idle when it wraps, ends in that state or in Idle.
proof fn lemma_animation_ends_in_idle<P: Pet>(m: StateMachine, pet: P)
    requires
        loops_reported(m.state),
        pet.loop_decision(m.state) is None || pet.loop_decision(m.state) == Some(PetState::Idle),
    ensures
        m.animated(pet).0.state == m.state || m.animated(pet).0.state == PetState::Idle,
{
}

/// For pets that never decide on a plain tick and that, when a walk or an
/// interaction wraps, ask for nothing but Idle: a tick in a walk ends it only
/// by returning to Idle or by an alert, and a tick in an interaction ends it
/// only by returning to Idle.
pub proof fn lemma_walk_and_interaction_end_in_idle<P: Pet>(
    m: StateMachine,
    pet: P,
    dt: u128,
    cpu_over: bool,
    walk_roll: bool,
    walk_right: bool,
)
    requires
        m.tick_fits(dt, cpu_over),
        m.state == PetState::Walk || m.state == PetState::Interact,
        forall|q: P| #[trigger] q.tick_decision(m.state) is None,
        forall|q: P|
            #[trigger] q.loop_decision(m.state) is None || q.loop_decision(m.state) == Some(
                PetState::Idle,
            ),
    ensures
        ({
            let s = m.tick_result(pet, dt, cpu_over, walk_roll, walk_right).0.state;
            s == m.state || s == PetState::Idle || (m.state == PetState::Walk && s
                == PetState::Alert)
        }),
{
    let t = m.timed(dt, cpu_over);
    assert(pet.tick_decision(m.state) is None);
    if m.state == PetState::Walk && t.should_alert() {
        lemma_animation_keeps_state(t.transitioned(PetState::Alert), pet);
    } else {
        lemma_animation_ends_in_idle(t, pet.ticked(dt, m.state));
    }
}

/// A tick moves the animation by at most one frame. When the tick asks for
/// no state change and the state stays, either the frame stays and its clock
/// runs on, or the next frame shows with its clock restarted; when the state
/// changes, the new state shows its first or second frame.
pub proof fn lemma_tick_steps_one_frame<P: Pet>(
    m: StateMachine,
    pet: P,
    dt: u128,
    cpu_over: bool,
    walk_roll: bool,
    walk_right: bool,
)
    ensures
        ({
            let t = m.timed(dt, cpu_over);
            let d = t.decided(pet, dt, walk_roll, walk_right);
            let r = m.tick_result(pet, dt, cpu_over, walk_roll, walk_right).0;
            let n = d.1.spec_frames(m.state).len();
            &&& (d.0 is None || d.0 == Some(m.state)) && r.state == m.state ==> {
                ||| r.frame_index == m.frame_index && r.frame_elapsed == add_ns(
                    m.frame_elapsed,
                    dt,
                )
                ||| r.frame_index == m.next_frame(n) && r.frame_elapsed == 0
            }
            &&& r.state != m.state ==> r.frame_index <= 1
        }),
{
    let t = m.timed(dt, cpu_over);
    let d = t.decided(pet, dt, walk_roll, walk_right);
    let a = t.after(d.0);
    let frames = d.1.spec_frames(a.state);
    if frames.len() > 1 {
        vstd::arithmetic::div_mod::lemma_small_mod(1, frames.len());
    }
    assert(a.frame_index == 0 && frames.len() > 0 ==> a.next_frame(frames.len()) <= 1);
}

/// A state change always restarts the frames, the frame clock and the state
/// timer; setting the current state changes nothing, and setting a state
/// twice is the same as setting it once.
pub proof fn lemma_transition_restarts(m: StateMachine, s: PetState)
    ensures
        m.state != s ==> m.transitioned(s).state == s && m.transitioned(s).frame_index == 0
            && m.transitioned(s).frame_elapsed == 0 && m.transitioned(s).state_elapsed == 0,
        m.state == s ==> m.transitioned(s) == m,
        m.transitioned(s).transitioned(s) == m.transitioned(s),
{
}

/// Idle time counts only the current stretch of idling: any change to a
/// state other than Idle clears it, so a pet that walked, interacted or was
/// alerted starts its count towards sleep afresh when it is idle again, and
/// returning to Idle keeps the (cleared) count.
pub proof fn lemma_leaving_idle_clears_idle_time(m: StateMachine, s: PetState)
    ensures
        s != PetState::Idle && m.state != s ==> m.transitioned(s).idle_elapsed == 0,
        s == PetState::Idle ==> m.transitioned(s).idle_elapsed == m.idle_elapsed,
        m.transitioned(s).state == s,
        m.transitioned(s).sleep_after_secs == m.sleep_after_secs,
        m.transitioned(s).alert_elapsed == m.alert_elapsed,
        m.transitioned(s).recovery_elapsed == m.recovery_elapsed,
{
}

/// A click clears the idle time of an idle, walking or sleeping pet, so an
/// interaction never brings the pet nearer to sleep.
pub proof fn lemma_click_clears_idle_time(m: StateMachine)
    requires
        m.state == PetState::Idle || m.state == PetState::Walk || m.state == PetState::Sleep,
    ensures
        m.transitioned(PetState::Interact).idle_elapsed == 0,
        m.transitioned(PetState::Interact).state == PetState::Interact,
{
}

/// Advancing the animation keeps the frame index within the frames.
pub proof fn lemma_next_frame_in_range(m: StateMachine, n: nat)
    requires
        0 < n <= usize::MAX,
    ensures
        m.next_frame(n) < n,
        m.frame_index < n - 1 ==> m.next_frame(n) == m.frame_index + 1,
        m.frame_index == n - 1 ==> m.next_frame(n) == 0,
{
    let i = m.frame_index + 1;
    vstd::arithmetic::div_mod::lemma_mod_bound(i, n as int);
    if i < n {
        vstd::arithmetic::div_mod::lemma_small_mod(i as nat, n);
    }
    if i == n {
        vstd::arithmetic::div_mod::lemma_mod_self_0(n as int);
    }
}

} // verus!
