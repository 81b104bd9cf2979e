use linuxpet::pet::cat::{decode_gif, frames_from_items, placeholder_frame, Cat};
use linuxpet::pet::dog::Dog;
use linuxpet::pet::fish::Fish;
use linuxpet::pet::{
    Pet, PetKind, PetState, RgbaFrame, StateMachine, ALERT_RECOVERY_SECS, FACING_LEFT,
    FACING_RIGHT, NANOS_PER_SEC,
};

/// A 1×1 GIF whose one pixel is palette entry 0 (red); with `delay_cs`, it
/// carries a graphic control extension with that delay in centiseconds.
fn one_pixel_gif(delay_cs: Option<u16>) -> Vec<u8> {
    let mut g = b"GIF89a".to_vec();
    g.extend_from_slice(&[1, 0, 1, 0, 0x80, 0, 0]);
    g.extend_from_slice(&[0xFF, 0x00, 0x00, 0x00, 0x00, 0xFF]);
    if let Some(d) = delay_cs {
        g.extend_from_slice(&[0x21, 0xF9, 0x04, 0x00, (d & 0xFF) as u8, (d >> 8) as u8, 0x00, 0x00]);
    }
    g.extend_from_slice(&[0x2C, 0, 0, 0, 0, 1, 0, 1, 0, 0]);
    g.extend_from_slice(&[0x02, 0x02, 0x44, 0x01, 0x00]);
    g.push(0x3B);
    g
}

/// A 1×1 GIF with one red frame per entry of `delays_cs`, each shown for that
/// many centiseconds.
fn gif_with_delays(delays_cs: &[u16]) -> Vec<u8> {
    let mut g = b"GIF89a".to_vec();
    g.extend_from_slice(&[1, 0, 1, 0, 0x80, 0, 0]);
    g.extend_from_slice(&[0xFF, 0x00, 0x00, 0x00, 0x00, 0xFF]);
    for d in delays_cs {
        g.extend_from_slice(&[0x21, 0xF9, 0x04, 0x00, (d & 0xFF) as u8, (d >> 8) as u8, 0x00, 0x00]);
        g.extend_from_slice(&[0x2C, 0, 0, 0, 0, 1, 0, 1, 0, 0]);
        g.extend_from_slice(&[0x02, 0x02, 0x44, 0x01, 0x00]);
    }
    g.push(0x3B);
    g
}

fn is_placeholder(f: &RgbaFrame) -> bool {
    f.width == 64
        && f.height == 64
        && f.delay_ms == 100
        && f.pixels.len() == 64 * 64 * 4
        && f.pixels.chunks(4).all(|p| p == [255, 0, 255, 255])
}

#[test]
fn from_str_builtin_names() {
    assert_eq!(PetKind::from_str("cat"), PetKind::Cat);
    assert_eq!(PetKind::from_str("DOG"), PetKind::Dog);
    assert_eq!(PetKind::from_str("Fish"), PetKind::Fish);
}

#[test]
fn from_str_plugin_names() {
    assert_eq!(PetKind::from_str("FoxGirl"), PetKind::Plugin("foxgirl".to_string()));
    assert_eq!(PetKind::from_str("cats"), PetKind::Plugin("cats".to_string()));
    assert_eq!(PetKind::from_str(""), PetKind::Plugin(String::new()));
    assert_eq!(PetKind::from_str("ÄRGER"), PetKind::Plugin("ärger".to_string()));
}

#[test]
fn pet_kind_clone_is_equal() {
    let k = PetKind::Plugin("fox".to_string());
    assert_eq!(k.clone(), k);
    assert_eq!(PetKind::Fish.clone(), PetKind::Fish);
}

#[test]
fn placeholder_is_magenta_square() {
    assert!(is_placeholder(&placeholder_frame()));
}

#[test]
fn decode_gif_invalid_gives_placeholder() {
    let frames = decode_gif(b"not a gif");
    assert_eq!(frames.len(), 1);
    assert!(is_placeholder(&frames[0]));
    let frames = decode_gif(&[]);
    assert_eq!(frames.len(), 1);
    assert!(is_placeholder(&frames[0]));
}

#[test]
fn decode_gif_one_pixel_without_delay() {
    let frames = decode_gif(&one_pixel_gif(None));
    assert_eq!(frames.len(), 1);
    assert_eq!(frames[0].width, 1);
    assert_eq!(frames[0].height, 1);
    assert_eq!(frames[0].pixels, vec![255, 0, 0, 255]);
    assert_eq!(frames[0].delay_ms, 16);
}

#[test]
fn decode_gif_one_pixel_with_delay() {
    let frames = decode_gif(&one_pixel_gif(Some(5)));
    assert_eq!(frames.len(), 1);
    assert_eq!(frames[0].delay_ms, 50);
    let frames = decode_gif(&one_pixel_gif(Some(1)));
    assert_eq!(frames[0].delay_ms, 16);
}

#[test]
fn frames_from_items_delays_and_skips() {
    let items = vec![
        Some((50, 1, 1, 1, vec![1, 2, 3, 4])),
        None,
        Some((7, 0, 2, 1, vec![0; 8])),
        Some((100, 3, 1, 1, vec![9, 9, 9, 9])),
        Some((5, 1, 1, 1, vec![5, 5, 5, 5])),
    ];
    let frames = frames_from_items(items);
    assert_eq!(frames.len(), 4);
    assert_eq!(frames[0].delay_ms, 50);
    assert_eq!(frames[0].pixels, vec![1, 2, 3, 4]);
    assert_eq!(frames[1].delay_ms, 100);
    assert_eq!(frames[1].width, 2);
    assert_eq!(frames[2].delay_ms, 33);
    assert_eq!(frames[3].delay_ms, 16);
    assert!(frames_from_items(vec![None, None]).is_empty());
}

#[test]
fn decode_gif_cut_short_keeps_its_frame() {
    let mut gif = one_pixel_gif(None);
    assert_eq!(gif.pop(), Some(0x3B));
    let frames = decode_gif(&gif);
    assert_eq!(frames.len(), 1);
    assert_eq!(frames[0].pixels, vec![255, 0, 0, 255]);
    assert_eq!(frames[0].width, 1);
}

#[test]
fn decode_gif_several_frames() {
    let frames = decode_gif(&gif_with_delays(&[10, 5, 2]));
    assert_eq!(frames.len(), 3);
    assert_eq!(frames[0].delay_ms, 100);
    assert_eq!(frames[1].delay_ms, 50);
    assert_eq!(frames[2].delay_ms, 20);
}

#[test]
fn cat_behaviour() {
    let gif = one_pixel_gif(Some(10));
    let mut cat = Cat::new(&gif, b"", &gif, &gif, &gif);
    assert_eq!(cat.name(), "Cat");
    assert_eq!(cat.kind(), PetKind::Cat);
    assert_eq!(cat.frames(PetState::Idle)[0].delay_ms, 100);
    assert!(is_placeholder(&cat.frames(PetState::Walk)[0]));
    assert_eq!(cat.tick(1, PetState::Interact), None);
    assert_eq!(cat.tick(1, PetState::Walk), None);
    assert_eq!(cat.tick(1, PetState::Sleep), None);
    assert_eq!(cat.loop_completed(PetState::Interact), Some(PetState::Idle));
    assert_eq!(cat.walk_direction(), FACING_RIGHT);
    cat.set_walk_direction(FACING_LEFT);
    assert_eq!(cat.walk_direction(), FACING_LEFT);
}

#[test]
fn cat_walk_lasts_three_loops() {
    let mut cat = Cat::new(b"", b"", b"", b"", b"");
    cat.set_walk_direction(FACING_LEFT);
    assert_eq!(cat.loop_completed(PetState::Walk), None);
    assert_eq!(cat.loop_completed(PetState::Walk), None);
    assert_eq!(cat.loop_completed(PetState::Walk), Some(PetState::Idle));
    // A new walk counts its loops afresh.
    cat.set_walk_direction(FACING_RIGHT);
    assert_eq!(cat.loop_completed(PetState::Walk), None);
    assert_eq!(cat.loop_completed(PetState::Idle), None);
    assert_eq!(cat.loop_completed(PetState::Walk), None);
    assert_eq!(cat.loop_completed(PetState::Walk), Some(PetState::Idle));
}

#[test]
fn dog_behaviour() {
    let mut dog = Dog::new(b"", b"", b"", b"", b"");
    assert_eq!(dog.name(), "Dog");
    assert_eq!(dog.kind(), PetKind::Dog);
    assert_eq!(dog.tick(1, PetState::Interact), None);
    assert_eq!(dog.tick(1, PetState::Walk), None);
    assert_eq!(dog.tick(1, PetState::Alert), None);
    assert_eq!(dog.loop_completed(PetState::Interact), Some(PetState::Idle));
    dog.set_walk_direction(FACING_LEFT);
    assert_eq!(dog.walk_direction(), FACING_LEFT);
    assert_eq!(dog.loop_completed(PetState::Walk), None);
    assert_eq!(dog.loop_completed(PetState::Walk), None);
    assert_eq!(dog.loop_completed(PetState::Walk), Some(PetState::Idle));
}

#[test]
fn fish_behaviour() {
    let gif = one_pixel_gif(Some(20));
    let mut fish = Fish::new(b"", &gif, b"");
    assert_eq!(fish.name(), "Fish");
    assert_eq!(fish.kind(), PetKind::Fish);
    assert_eq!(fish.frames(PetState::Walk)[0].delay_ms, 200);
    assert!(is_placeholder(&fish.frames(PetState::Sleep)[0]));
    assert_eq!(fish.tick(5, PetState::Interact), None);
    assert_eq!(fish.tick(5, PetState::Sleep), Some(PetState::Idle));
    assert_eq!(fish.tick(5, PetState::Walk), None);
    assert_eq!(fish.t_ns, 15);
    fish.t_ns = u128::MAX - 1;
    fish.tick(5, PetState::Idle);
    assert_eq!(fish.t_ns, u128::MAX);
    assert_eq!(fish.loop_completed(PetState::Interact), Some(PetState::Idle));
    assert_eq!(fish.loop_completed(PetState::Walk), None);
    assert_eq!(fish.loop_completed(PetState::Walk), None);
    assert_eq!(fish.loop_completed(PetState::Walk), Some(PetState::Idle));
}

fn secs(s: u128) -> u128 {
    s * NANOS_PER_SEC
}

fn millis(ms: u128) -> u128 {
    ms * 1_000_000
}

#[test]
fn state_machine_starts_idle() {
    let sm = StateMachine::new(300, 3);
    assert_eq!(sm.state, PetState::Idle);
    assert_eq!(sm.frame_index, 0);
    assert_eq!(sm.frame_elapsed, 0);
    assert_eq!(sm.sleep_after_secs, 300);
    assert_eq!(sm.alert_sustain_secs, 3);
    assert_eq!(sm.alert_recovery_secs, ALERT_RECOVERY_SECS);
}

#[test]
fn sustained_cpu_triggers_alert_and_calm_recovers() {
    let mut cat = Cat::new(b"", b"", b"", b"", b"");
    let mut sm = StateMachine::new(300, 3);
    assert_eq!(sm.tick(secs(2), &mut cat, true, false, true), PetState::Idle);
    assert_eq!(sm.tick(secs(1), &mut cat, true, false, true), PetState::Alert);
    assert_eq!(sm.tick(secs(10), &mut cat, true, false, true), PetState::Alert);
    assert_eq!(sm.tick(secs(4), &mut cat, false, false, true), PetState::Alert);
    assert_eq!(sm.tick(secs(1), &mut cat, false, false, true), PetState::Idle);
}

#[test]
fn brief_cpu_spike_does_not_alert() {
    let mut cat = Cat::new(b"", b"", b"", b"", b"");
    let mut sm = StateMachine::new(300, 3);
    sm.tick(secs(2), &mut cat, true, false, true);
    sm.tick(secs(1) / 2, &mut cat, false, false, true);
    assert_eq!(sm.tick(secs(2), &mut cat, true, false, true), PetState::Idle);
}

#[test]
fn idle_pet_falls_asleep_and_click_wakes() {
    let mut dog = Dog::new(b"", b"", b"", b"", b"");
    let mut sm = StateMachine::new(300, 3);
    assert_eq!(sm.tick(secs(299), &mut dog, false, false, true), PetState::Idle);
    assert_eq!(sm.tick(secs(1), &mut dog, false, false, true), PetState::Sleep);
    assert_eq!(sm.tick(secs(1000), &mut dog, false, true, true), PetState::Sleep);
    sm.on_click();
    assert_eq!(sm.state, PetState::Interact);
    // The interaction plays its one 100 ms frame, then the dog is idle.
    assert_eq!(sm.tick(millis(99), &mut dog, false, false, true), PetState::Interact);
    assert_eq!(sm.tick(millis(1), &mut dog, false, false, true), PetState::Idle);
}

#[test]
fn interaction_lasts_until_its_animation_completes() {
    let mut sm = StateMachine::new(300, 3);
    let mut dog = Dog::new(b"", b"", b"", b"", b"");
    sm.on_click();
    assert_eq!(sm.state, PetState::Interact);
    assert_eq!(sm.tick(millis(1), &mut dog, false, false, true), PetState::Interact);
    let gif = gif_with_delays(&[5, 5, 5]);
    let mut cat = Cat::new(b"", b"", b"", &gif, b"");
    let mut sm = StateMachine::new(300, 3);
    sm.on_click();
    assert_eq!(sm.tick(millis(50), &mut cat, false, false, true), PetState::Interact);
    assert_eq!(sm.frame_index, 1);
    assert_eq!(sm.tick(millis(50), &mut cat, false, false, true), PetState::Interact);
    assert_eq!(sm.frame_index, 2);
    assert_eq!(sm.tick(millis(49), &mut cat, false, false, true), PetState::Interact);
    assert_eq!(sm.tick(millis(1), &mut cat, false, false, true), PetState::Idle);
    assert_eq!(sm.frame_index, 0);
}

#[test]
fn walk_roll_starts_walk_with_direction() {
    let mut cat = Cat::new(b"", b"", b"", b"", b"");
    let mut sm = StateMachine::new(300, 3);
    assert_eq!(sm.tick(1000, &mut cat, false, true, false), PetState::Walk);
    assert_eq!(cat.walk_direction(), FACING_LEFT);
    assert_eq!(sm.tick(millis(10), &mut cat, false, true, true), PetState::Walk);
    assert_eq!(cat.walk_direction(), FACING_LEFT);
    sm.on_click();
    assert_eq!(sm.state, PetState::Interact);
}

#[test]
fn walk_ends_after_three_loops() {
    // Every placeholder sprite is one frame of 100 ms.
    let mut cat = Cat::new(b"", b"", b"", b"", b"");
    let mut sm = StateMachine::new(300, 3);
    assert_eq!(sm.tick(1, &mut cat, false, true, true), PetState::Walk);
    assert_eq!(sm.tick(millis(100), &mut cat, false, false, true), PetState::Walk);
    assert_eq!(sm.tick(millis(100), &mut cat, false, false, true), PetState::Walk);
    assert_eq!(sm.tick(millis(99), &mut cat, false, false, true), PetState::Walk);
    assert_eq!(sm.tick(millis(1), &mut cat, false, false, true), PetState::Idle);
    // A long tick still moves one frame: the walk takes three ticks.
    assert_eq!(sm.tick(1, &mut cat, false, true, false), PetState::Walk);
    assert_eq!(sm.tick(secs(100), &mut cat, false, false, true), PetState::Walk);
    assert_eq!(sm.tick(secs(100), &mut cat, false, false, true), PetState::Walk);
    assert_eq!(sm.tick(secs(100), &mut cat, false, false, true), PetState::Idle);
}

#[test]
fn interaction_is_not_interrupted_by_alert() {
    let mut cat = Cat::new(b"", b"", b"", b"", b"");
    let mut sm = StateMachine::new(300, 0);
    sm.on_click();
    assert_eq!(sm.state, PetState::Interact);
    assert_eq!(sm.tick(millis(50), &mut cat, true, false, true), PetState::Interact);
    assert_eq!(sm.tick(millis(50), &mut cat, true, false, true), PetState::Idle);
    assert_eq!(sm.tick(millis(1), &mut cat, true, false, true), PetState::Alert);
}

#[test]
fn click_during_alert_is_ignored() {
    let mut cat = Cat::new(b"", b"", b"", b"", b"");
    let mut sm = StateMachine::new(300, 1);
    assert_eq!(sm.tick(secs(1), &mut cat, true, false, true), PetState::Alert);
    assert_eq!(sm.tick(millis(30), &mut cat, true, false, true), PetState::Alert);
    let elapsed = sm.frame_elapsed;
    let index = sm.frame_index;
    sm.on_click();
    assert_eq!(sm.state, PetState::Alert);
    assert_eq!(sm.frame_elapsed, elapsed);
    assert_eq!(sm.frame_index, index);
}

#[test]
fn click_during_interaction_restarts_it() {
    let gif = gif_with_delays(&[5, 5]);
    let mut cat = Cat::new(b"", b"", b"", &gif, b"");
    let mut sm = StateMachine::new(300, 3);
    sm.on_click();
    sm.tick(millis(70), &mut cat, false, false, true);
    assert_eq!(sm.frame_index, 1);
    assert_eq!(sm.frame_elapsed, 0);
    sm.tick(millis(20), &mut cat, false, false, true);
    assert_eq!(sm.frame_elapsed, millis(20));
    sm.on_click();
    assert_eq!(sm.state, PetState::Interact);
    assert_eq!(sm.frame_index, 0);
    assert_eq!(sm.frame_elapsed, millis(20));
}

#[test]
fn transition_resets_frames() {
    let mut sm = StateMachine::new(300, 3);
    sm.frame_index = 4;
    sm.frame_elapsed = 7;
    sm.transition(PetState::Idle);
    assert_eq!(sm.frame_index, 4);
    assert_eq!(sm.frame_elapsed, 7);
    sm.transition(PetState::Walk);
    assert_eq!(sm.state, PetState::Walk);
    assert_eq!(sm.frame_index, 0);
    assert_eq!(sm.frame_elapsed, 0);
}

#[test]
fn frames_advance_by_their_delays() {
    let gif = gif_with_delays(&[10, 5, 2]);
    let mut cat = Cat::new(&gif, b"", b"", b"", b"");
    let mut sm = StateMachine::new(300, 3);
    sm.tick(millis(99), &mut cat, false, false, true);
    assert_eq!(sm.frame_index, 0);
    sm.tick(millis(1), &mut cat, false, false, true);
    assert_eq!(sm.frame_index, 1);
    assert_eq!(sm.frame_elapsed, 0);
    sm.tick(millis(50), &mut cat, false, false, true);
    assert_eq!(sm.frame_index, 2);
    sm.tick(millis(25), &mut cat, false, false, true);
    assert_eq!(sm.frame_index, 0);
    assert_eq!(sm.frame_elapsed, 0);
    // A long tick moves one frame only, and the new frame's clock starts at zero.
    sm.tick(millis(180), &mut cat, false, false, true);
    assert_eq!(sm.frame_index, 1);
    assert_eq!(sm.frame_elapsed, 0);
    sm.tick(millis(49), &mut cat, false, false, true);
    assert_eq!(sm.frame_index, 1);
    assert_eq!(sm.frame_elapsed, millis(49));
}

#[test]
fn one_tick_moves_at_most_one_frame() {
    let gif = gif_with_delays(&[1, 1, 1]);
    let mut cat = Cat::new(&gif, b"", b"", b"", b"");
    assert_eq!(cat.frames(PetState::Idle)[0].delay_ms, 16);
    let mut sm = StateMachine::new(300, 3);
    sm.tick(millis(40), &mut cat, false, false, true);
    assert_eq!(sm.frame_index, 1);
    sm.tick(millis(40), &mut cat, false, false, true);
    assert_eq!(sm.frame_index, 2);
    sm.tick(millis(40), &mut cat, false, false, true);
    assert_eq!(sm.frame_index, 0);
}

#[test]
fn can_tick_guards_timer_range() {
    let sm = StateMachine::new(300, 3);
    assert!(sm.can_tick(secs(1), true));
    assert!(sm.can_tick(linuxpet::pet::DURATION_MAX_NS, false));
    assert!(!sm.can_tick(linuxpet::pet::DURATION_MAX_NS + 1, false));
}

#[test]
fn sustained_cpu_ends_a_walk_in_alert() {
    let mut cat = Cat::new(b"", b"", b"", b"", b"");
    let mut sm = StateMachine::new(300, 1);
    assert_eq!(sm.tick(1, &mut cat, false, true, true), PetState::Walk);
    assert_eq!(sm.tick(millis(50), &mut cat, true, false, true), PetState::Walk);
    assert_eq!(sm.tick(secs(1), &mut cat, true, false, true), PetState::Alert);
}

#[test]
fn from_str_ignores_case() {
    for s in ["Cat", "dOG", "FISH", "Fox Girl", "owl"] {
        assert_eq!(PetKind::from_str(s), PetKind::from_str(&s.to_lowercase()));
    }
}
