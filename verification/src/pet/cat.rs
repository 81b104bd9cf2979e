//! The cat, and the GIF decoding shared by all sprite sets.

use image::AnimationDecoder;
use vstd::prelude::*;

use crate::pet::{
    calm_ticks, delay_ns, lemma_next_frame_in_range, loop_end, loop_outcome, loops_after,
    walk_steps_left, Pet, PetKind, PetState, RgbaFrame, StateMachine, DURATION_MAX_NS,
    FACING_RIGHT, WALK_LOOPS,
};

verus! {

// ─── Cat ─────────────────────────────────────────────────────────────────────

pub struct Cat {
    idle_frames: Vec<RgbaFrame>,
    walk_frames: Vec<RgbaFrame>,
    sleep_frames: Vec<RgbaFrame>,
    interact_frames: Vec<RgbaFrame>,
    alert_frames: Vec<RgbaFrame>,
    walk_direction: i8,
    walk_loops_done: u32,
}

impl Cat {
    /// Builds the cat from its five GIF sprites.
    pub fn new(
        idle_gif: &[u8],
        walk_gif: &[u8],
        sleep_gif: &[u8],
        interact_gif: &[u8],
        alert_gif: &[u8],
    ) -> (r: Self)
        ensures
            frame_parts(r.spec_frames(PetState::Idle)) == sprite_frames(idle_gif@),
            frame_parts(r.spec_frames(PetState::Walk)) == sprite_frames(walk_gif@),
            frame_parts(r.spec_frames(PetState::Sleep)) == sprite_frames(sleep_gif@),
            frame_parts(r.spec_frames(PetState::Interact)) == sprite_frames(interact_gif@),
            frame_parts(r.spec_frames(PetState::Alert)) == sprite_frames(alert_gif@),
            r.spec_walk_direction() == FACING_RIGHT,
            r.walk_loops() == 0,
    {
        Cat {
            idle_frames: decode_gif(idle_gif),
            walk_frames: decode_gif(walk_gif),
            sleep_frames: decode_gif(sleep_gif),
            interact_frames: decode_gif(interact_gif),
            alert_frames: decode_gif(alert_gif),
            walk_direction: FACING_RIGHT,
            walk_loops_done: 0,
        }
    }

    /// Walk loops completed since the walk direction was last set.
    pub closed spec fn walk_loops(&self) -> u32 {
        self.walk_loops_done
    }
}

impl Pet for Cat {
    open spec fn spec_name(&self) -> Seq<char> {
        seq!['C', 'a', 't']
    }

    open spec fn spec_kind(&self) -> PetKind {
        PetKind::Cat
    }

    closed spec fn spec_frames(&self, state: PetState) -> Seq<RgbaFrame> {
        match state {
            PetState::Idle => self.idle_frames@,
            PetState::Walk => self.walk_frames@,
            PetState::Sleep => self.sleep_frames@,
            PetState::Interact => self.interact_frames@,
            PetState::Alert => self.alert_frames@,
        }
    }

    closed spec fn spec_walk_direction(&self) -> i8 {
        self.walk_direction
    }

    /// The cat decides only when an animation loop completes.
    open spec fn tick_decision(&self, state: PetState) -> Option<PetState> {
        None
    }

    open spec fn ticked(&self, dt: u128, state: PetState) -> Self {
        *self
    }

    /// Turning starts a new walk: its loop count restarts.
    closed spec fn turned(&self, dir: i8) -> Self {
        Cat { walk_direction: dir, walk_loops_done: 0, ..*self }
    }

    closed spec fn loop_decision(&self, state: PetState) -> Option<PetState> {
        loop_end(state, self.walk_loops_done)
    }

    closed spec fn looped(&self, state: PetState) -> Self {
        Cat { walk_loops_done: loops_after(state, self.walk_loops_done), ..*self }
    }

    fn name(&self) -> (r: &str) {
        proof {
            reveal_strlit("Cat");
        }
        "Cat"
    }

    fn kind(&self) -> (r: PetKind) {
        PetKind::Cat
    }

    fn frames(&self, state: PetState) -> (r: &[RgbaFrame]) {
        match state {
            PetState::Idle => self.idle_frames.as_slice(),
            PetState::Walk => self.walk_frames.as_slice(),
            PetState::Sleep => self.sleep_frames.as_slice(),
            PetState::Interact => self.interact_frames.as_slice(),
            PetState::Alert => self.alert_frames.as_slice(),
        }
    }

    fn tick(&mut self, dt_ns: u128, state: PetState) -> (r: Option<PetState>) {
        None
    }

    fn loop_completed(&mut self, state: PetState) -> (r: Option<PetState>) {
        let (decision, done) = loop_outcome(state, self.walk_loops_done);
        self.walk_loops_done = done;
        decision
    }

    fn walk_direction(&self) -> (d: i8) {
        self.walk_direction
    }

    fn set_walk_direction(&mut self, dir: i8) {
        self.walk_direction = dir;
        self.walk_loops_done = 0;
    }
}

/// A walk of the cat lasts `WALK_LOOPS` animation loops from the moment it is
/// turned to walk, and an interaction ends after one loop.
pub proof fn lemma_cat_walk_ends_after_loops(cat: Cat, dir: i8)
    ensures
        cat.turned(dir).loop_decision(PetState::Walk) is None,
        cat.turned(dir).looped(PetState::Walk).loop_decision(PetState::Walk) is None,
        cat.turned(dir).looped(PetState::Walk).looped(PetState::Walk).loop_decision(
            PetState::Walk,
        ) == Some(PetState::Idle),
        cat.loop_decision(PetState::Interact) == Some(PetState::Idle),
        cat.loop_decision(PetState::Walk) is None || cat.loop_decision(PetState::Walk) == Some(
            PetState::Idle,
        ),
{
}

/// With the CPU calm, a walking cat returns to Idle on exactly the tick that
/// completes its last walk loop. When every tick lasts at least as long as
/// the longest walk frame, so that each tick shows the next frame, the cat
/// keeps walking for `walk_steps_left` ticks and is idle after the last of
/// them; a walk just started (first frame, no loop done) lasts `WALK_LOOPS`
/// times the number of walk frames ticks.
pub proof fn lemma_cat_walk_ends_after_loops_of_ticks(m: StateMachine, cat: Cat, dts: Seq<u128>)
    requires
        m.state == PetState::Walk,
        m.alert_sustain_secs > 0,
        m.frame_elapsed <= DURATION_MAX_NS,
        0 < cat.spec_frames(PetState::Walk).len() <= usize::MAX,
        m.frame_index < cat.spec_frames(PetState::Walk).len(),
        cat.walk_loops() < WALK_LOOPS,
        dts.len() == walk_steps_left(
            m.frame_index as int,
            cat.walk_loops() as int,
            cat.spec_frames(PetState::Walk).len() as int,
        ),
        forall|k: int| 0 <= k < dts.len() ==> #[trigger] dts[k] <= DURATION_MAX_NS,
        forall|k: int, j: int|
            0 <= k < dts.len() && 0 <= j < cat.spec_frames(PetState::Walk).len() ==> #[trigger] dts[k]
                >= #[trigger] delay_ns(cat.spec_frames(PetState::Walk)[j]),
    ensures
        calm_ticks(m, cat, dts).0.state == PetState::Idle,
        forall|k: int|
            0 <= k < dts.len() ==> (#[trigger] calm_ticks(m, cat, dts.take(k))).0.state
                == PetState::Walk,
    decreases dts.len(),
{
    let frames = cat.spec_frames(PetState::Walk);
    let n = frames.len() as int;
    let i = m.frame_index as int;
    let l = cat.walk_loops() as int;
    assert(dts.len() >= 1) by (nonlinear_arith)
        requires
            dts.len() == (WALK_LOOPS - l) * n - i,
            l < WALK_LOOPS,
            0 <= i < n,
    ;
    let dt = dts[0];
    let t = m.timed(dt, false);
    assert(!t.should_alert());
    assert(t.frame_due(frames)) by {
        assert(dts[0] >= delay_ns(frames[i]));
        assert(i % n == i) by {
            vstd::arithmetic::div_mod::lemma_small_mod(i as nat, n as nat);
        }
    }
    lemma_next_frame_in_range(t, n as nat);
    let r = m.tick_result(cat, dt, false, false, false);
    let rest = dts.drop_first();
    assert(calm_ticks(m, cat, dts) == calm_ticks(r.0, r.1, rest));
    if i + 1 == n && l + 1 >= WALK_LOOPS {
        assert(r.0.state == PetState::Idle);
        assert(dts.len() == 1) by (nonlinear_arith)
            requires
                dts.len() == (WALK_LOOPS - l) * n - i,
                i + 1 == n,
                l + 1 >= WALK_LOOPS,
                l < WALK_LOOPS,
        ;
        assert(rest.len() == 0);
    } else {
        assert(r.0.state == PetState::Walk);
        assert(r.0.frame_elapsed == 0);
        assert(r.1.spec_frames(PetState::Walk) == frames);
        if i + 1 == n {
            assert(r.0.frame_index == 0);
            assert(r.1.walk_loops() == l + 1);
            assert((WALK_LOOPS - l) * n - i - 1 == (WALK_LOOPS - (l + 1)) * n) by (nonlinear_arith)
                requires
                    i + 1 == n,
            ;
        } else {
            assert(r.0.frame_index == i + 1);
            assert(r.1.walk_loops() == l);
        }
        assert forall|k: int| 0 <= k < rest.len() implies #[trigger] rest[k] <= DURATION_MAX_NS by {
            assert(rest[k] == dts[k + 1]);
        }
        assert forall|k: int, j: int|
            0 <= k < rest.len() && 0 <= j < n implies #[trigger] rest[k] >= #[trigger] delay_ns(
                frames[j],
            ) by {
            assert(rest[k] == dts[k + 1]);
        }
        lemma_cat_walk_ends_after_loops_of_ticks(r.0, r.1, rest);
    }
    assert forall|k: int| 0 <= k < dts.len() implies (#[trigger] calm_ticks(
        m,
        cat,
        dts.take(k),
    )).0.state == PetState::Walk by {
        if k > 0 {
            assert(dts.take(k).drop_first() =~= rest.take(k - 1));
            assert(dts.take(k)[0] == dt);
            assert(calm_ticks(m, cat, dts.take(k)) == calm_ticks(r.0, r.1, rest.take(k - 1)));
        }
    }
}

// ─── GIF decoding ────────────────────────────────────────────────────────────

/// A decoded frame as plain values: its pixel bytes, width, height and delay
/// in milliseconds.
pub open spec fn parts_of(f: RgbaFrame) -> (Seq<u8>, u32, u32, u64) {
    (f.pixels@, f.width, f.height, f.delay_ms)
}

/// Every frame of a sequence as plain values.
pub open spec fn frame_parts(frames: Seq<RgbaFrame>) -> Seq<(Seq<u8>, u32, u32, u64)> {
    frames.map_values(|f: RgbaFrame| parts_of(f))
}

/// The frames that the `image` crate's GIF decoder gives for these bytes,
/// read up to `max_items` items of its frame iterator: `None` when the
/// decoder cannot be created; otherwise one entry per item read, `None` for
/// an item that is an error, else the frame's delay as numerator and
/// denominator in milliseconds, its width, its height and its RGBA bytes.
pub uninterp spec fn gif_decoder_frames(data: Seq<u8>, max_items: nat) -> Option<
    Seq<Option<(u32, u32, u32, u32, Seq<u8>)>>,
>;

/// The plain-value view of what `read_gif_frames` returns.
pub open spec fn raw_frames_view(v: Seq<Option<(u32, u32, u32, u32, Vec<u8>)>>) -> Seq<
    Option<(u32, u32, u32, u32, Seq<u8>)>,
> {
    v.map_values(
        |f: Option<(u32, u32, u32, u32, Vec<u8>)>|
            match f {
                Some(t) => Some((t.0, t.1, t.2, t.3, t.4@)),
                None => None,
            },
    )
}

/// Runs the `image` crate's GIF decoder (`GifDecoder::new` over the bytes,
/// then `AnimationDecoder::into_frames`), reads at most `max_items` items of
/// its frame iterator and converts each: `Frame::delay().numer_denom_ms()`,
/// and of `Frame::into_buffer()` its width, height and `into_raw()` bytes.
/// Claimed: the result is `gif_decoder_frames` of the bytes and the bound,
/// and holds no more items than the bound. (On a stream cut short the
/// iterator yields errors without end; the bound is what stops the reading.)
#[verifier::external_body]
fn read_gif_frames(data: &[u8], max_items: usize) -> (r: Option<
    Vec<Option<(u32, u32, u32, u32, Vec<u8>)>>,
>)
    ensures
        match r {
            Some(v) => {
                &&& gif_decoder_frames(data@, max_items as nat) == Some(raw_frames_view(v@))
                &&& v@.len() <= max_items
            },
            None => gif_decoder_frames(data@, max_items as nat) is None,
        },
{
    let decoder = image::codecs::gif::GifDecoder::new(std::io::Cursor::new(data)).ok()?;
    Some(decoder.into_frames().take(max_items).map(|item| item.ok().map(|f| {
        let (numer, denom) = f.delay().numer_denom_ms();
        let img = f.into_buffer();
        (numer, denom, img.width(), img.height(), img.into_raw())
    })).collect())
}

/// Minimum frame delay in milliseconds.
pub const MIN_FRAME_DELAY_MS: u32 = 16;

/// Delay used when the decoder reports a zero denominator.
pub const DEFAULT_FRAME_DELAY_MS: u32 = 100;

/// A frame delay from its millisecond ratio: the integer quotient (100 ms for a
/// zero denominator), at least 16 ms.
pub open spec fn frame_delay_ms(numer: u32, denom: u32) -> u64 {
    let ms = if denom == 0 {
        DEFAULT_FRAME_DELAY_MS as int
    } else {
        numer as int / denom as int
    };
    if ms < MIN_FRAME_DELAY_MS {
        MIN_FRAME_DELAY_MS as u64
    } else {
        ms as u64
    }
}

/// The frames kept from the decoder's items: errors are skipped, each frame
/// keeps its pixels and size and gets its delay.
pub open spec fn kept_frames(items: Seq<Option<(u32, u32, u32, u32, Seq<u8>)>>) -> Seq<
    (Seq<u8>, u32, u32, u64),
>
    decreases items.len(),
{
    if items.len() == 0 {
        seq![]
    } else {
        let rest = kept_frames(items.drop_last());
        match items.last() {
            Some(t) => rest.push((t.4, t.2, t.3, frame_delay_ms(t.0, t.1))),
            None => rest,
        }
    }
}

/// The frames kept from the decoder's items, item by item: none from no
/// items; an error item adds nothing; a frame item adds one frame with that
/// item's pixel bytes, width and height, and its delay.
pub proof fn lemma_kept_frames_by_item(
    items: Seq<Option<(u32, u32, u32, u32, Seq<u8>)>>,
    t: (u32, u32, u32, u32, Seq<u8>),
)
    ensures
        kept_frames(seq![]) == Seq::<(Seq<u8>, u32, u32, u64)>::empty(),
        kept_frames(items.push(None)) == kept_frames(items),
        kept_frames(items.push(Some(t))) == kept_frames(items).push(
            (t.4, t.2, t.3, frame_delay_ms(t.0, t.1)),
        ),
        kept_frames(items.push(Some(t))).last().0 == t.4,
        kept_frames(items.push(Some(t))).last().1 == t.2,
        kept_frames(items.push(Some(t))).last().2 == t.3,
{
    assert(items.push(None).drop_last() =~= items);
    assert(items.push(Some(t)).drop_last() =~= items);
}

/// When every frame the decoder gives holds four bytes per pixel of its
/// width and height, so does every kept frame, and no kept frame is larger
/// than the items it came from allow.
pub proof fn lemma_kept_frames_sizes(items: Seq<Option<(u32, u32, u32, u32, Seq<u8>)>>)
    requires
        forall|i: int|
            0 <= i < items.len() ==> (#[trigger] items[i] matches Some(t) ==> t.4.len() == 4 * t.2
                * t.3),
    ensures
        kept_frames(items).len() <= items.len(),
        forall|k: int|
            0 <= k < kept_frames(items).len() ==> (#[trigger] kept_frames(items)[k]).0.len() == 4
                * kept_frames(items)[k].1 * kept_frames(items)[k].2,
    decreases items.len(),
{
    if items.len() > 0 {
        let init = items.drop_last();
        assert forall|i: int| 0 <= i < init.len() implies (#[trigger] init[i] matches Some(t)
            ==> t.4.len() == 4 * t.2 * t.3) by {
            assert(init[i] == items[i]);
        }
        lemma_kept_frames_sizes(init);
        assert(items.last() == items[items.len() - 1]);
    }
}

/// Side of the placeholder frame, in pixels.
pub const PLACEHOLDER_SIDE: u32 = 64;

/// The placeholder's pixel bytes: opaque magenta, `[255, 0, 255, 255]` for
/// each of its 64 × 64 pixels.
pub open spec fn placeholder_pixels() -> Seq<u8> {
    Seq::new(
        (PLACEHOLDER_SIDE * PLACEHOLDER_SIDE * 4) as nat,
        |i: int|
            if i % 4 == 1 {
                0u8
            } else {
                255u8
            },
    )
}

/// The placeholder frame as plain values (shown for 100 ms).
pub open spec fn placeholder_parts() -> (Seq<u8>, u32, u32, u64) {
    (placeholder_pixels(), PLACEHOLDER_SIDE, PLACEHOLDER_SIDE, DEFAULT_FRAME_DELAY_MS as u64)
}

/// The frames of a sprite: those the decoder gives within one item per input
/// byte (every frame takes more than one byte of input), or the placeholder
/// alone when the decoder fails or gives no frame.
pub open spec fn sprite_frames(data: Seq<u8>) -> Seq<(Seq<u8>, u32, u32, u64)> {
    match gif_decoder_frames(data, data.len()) {
        None => seq![placeholder_parts()],
        Some(items) => {
            let k = kept_frames(items);
            if k.len() == 0 {
                seq![placeholder_parts()]
            } else {
                k
            }
        },
    }
}

/// Decodes a GIF byte slice into RGBA frames with their per-frame delay; a
/// sprite that does not decode, or has no frame, becomes the placeholder.
pub fn decode_gif(data: &[u8]) -> (r: Vec<RgbaFrame>)
    ensures
        frame_parts(r@) == sprite_frames(data@),
        data@.len() == 0 ==> frame_parts(r@) == seq![placeholder_parts()],
{
    match read_gif_frames(data, data.len()) {
        None => vec![placeholder_frame()],
        Some(items) => {
            let frames = frames_from_items(items);
            if frames.len() == 0 {
                vec![placeholder_frame()]
            } else {
                frames
            }
        },
    }
}

/// Turns decoder items into frames: errors are skipped, delays are worked out
/// from their millisecond ratio.
pub fn frames_from_items(items: Vec<Option<(u32, u32, u32, u32, Vec<u8>)>>) -> (r: Vec<
    RgbaFrame,
>)
    ensures
        frame_parts(r@) == kept_frames(raw_frames_view(items@)),
{
    let ghost view = raw_frames_view(items@);
    let mut frames: Vec<RgbaFrame> = Vec::new();
    let mut items = items;
    let ghost all = items@;
    let count = items.len();
    let mut rest: Vec<Option<(u32, u32, u32, u32, Vec<u8>)>> = Vec::new();
    // Take the items from the back so that each can be moved out, then keep
    // them in the order they came in.
    while items.len() > 0
        invariant
            view == raw_frames_view(all),
            rest@.len() + items@.len() == all.len(),
            items@ == all.take(items@.len() as int),
            forall|i: int|
                0 <= i < rest@.len() ==> #[trigger] rest@[i] == all[all.len() - 1 - i],
        decreases items.len(),
    {
        let item = items.pop().unwrap();
        rest.push(item);
        assert(items@ == all.take(items@.len() as int));
    }
    let ghost n = all.len();
    assert(n == count);
    let mut k: usize = 0;
    while rest.len() > 0
        invariant
            view == raw_frames_view(all),
            n == all.len(),
            n <= usize::MAX,
            rest@.len() + k == n,
            forall|i: int| 0 <= i < rest@.len() ==> #[trigger] rest@[i] == all[n - 1 - i],
            frame_parts(frames@) == kept_frames(view.take(k as int)),
        decreases rest.len(),
    {
        let item = rest.pop().unwrap();
        assert(item == all[k as int]);
        let ghost before = frames@;
        match item {
            Some(t) => {
                let (numer, denom, width, height, pixels) = t;
                let ms = if denom == 0 {
                    DEFAULT_FRAME_DELAY_MS
                } else {
                    numer / denom
                };
                let delay_ms = if ms < MIN_FRAME_DELAY_MS {
                    MIN_FRAME_DELAY_MS
                } else {
                    ms
                } as u64;
                let frame = RgbaFrame { pixels, width, height, delay_ms };
                let ghost parts = parts_of(frame);
                frames.push(frame);
                assert(frame_parts(frames@) =~= frame_parts(before).push(parts));
            },
            None => {},
        }
        assert(view.take(k as int + 1).drop_last() == view.take(k as int));
        k = k + 1;
    }
    assert(view.take(n as int) == view);
    frames
}

/// A 64 × 64 opaque magenta frame, shown when a sprite fails to load.
pub fn placeholder_frame() -> (r: RgbaFrame)
    ensures
        parts_of(r) == placeholder_parts(),
{
    let total: usize = (PLACEHOLDER_SIDE * PLACEHOLDER_SIDE) as usize;
    let mut pixels: Vec<u8> = Vec::new();
    let mut i: usize = 0;
    while i < total
        invariant
            total == 4096,
            i <= total,
            pixels@ =~= Seq::new(
                (4 * i) as nat,
                |j: int|
                    if j % 4 == 1 {
                        0u8
                    } else {
                        255u8
                    },
            ),
        decreases total - i,
    {
        pixels.push(255u8);
        pixels.push(0u8);
        pixels.push(255u8);
        pixels.push(255u8);
        i = i + 1;
    }
    assert(pixels@ =~= placeholder_pixels());
    RgbaFrame {
        pixels,
        width: PLACEHOLDER_SIDE,
        height: PLACEHOLDER_SIDE,
        delay_ms: DEFAULT_FRAME_DELAY_MS as u64,
    }
}

} // verus!
