use linuxpet::font::blend_glyph;
use linuxpet::pet::{Pet, PetKind, PetState, RgbaFrame};
use linuxpet::plugin::{
    find_plugin, plugin_kind, register_plugin, triggers_reload, LoadedPlugin, ManifestPet,
    ManifestSprites, PluginError, PluginManifest, PluginPet,
};
use linuxpet::renderer::{
    build_menu, hover_index, make_pet, menu_label, pack_pixel, press_index, window_extent,
    BuiltinSprites, FishSprites, Interaction, MenuItem, PetSprites, Press,
};

/// Reference: premultiplied source-over, computed pixel by pixel.
fn reference_draw(
    canvas: &mut [u8],
    w: u32,
    h: u32,
    bitmap: &[u8],
    gw: usize,
    gh: usize,
    x: i32,
    y: i32,
    xmin: i32,
    ymin: i32,
    color: [u8; 4],
) {
    let x_off = x + xmin;
    let y_off = y - gh as i32 - ymin;
    for row in 0..gh {
        for col in 0..gw {
            let coverage = bitmap[row * gw + col];
            if coverage == 0 {
                continue;
            }
            let px_x = x_off + col as i32;
            let px_y = y_off + row as i32;
            if px_x < 0 || px_y < 0 || px_x >= w as i32 || px_y >= h as i32 {
                continue;
            }
            let i = 4 * (px_y as usize * w as usize + px_x as usize);
            let src_a = coverage as u32 * color[3] as u32 / 255;
            for c in 0..3 {
                let v = (color[c] as u32 * src_a + canvas[i + c] as u32 * (255 - src_a)) / 255;
                canvas[i + c] = v as u8;
            }
            canvas[i + 3] = (src_a + canvas[i + 3] as u32 * (255 - src_a) / 255) as u8;
        }
    }
}

fn glyph_bitmap(gw: usize, gh: usize, seed: u32) -> Vec<u8> {
    (0..gw * gh).map(|i| ((i as u32 * 37 + seed * 11) % 256) as u8).collect()
}

#[test]
fn blend_glyph_opaque_white_on_transparent() {
    let mut canvas = vec![0u8; 2 * 2 * 4];
    blend_glyph(&mut canvas, 2, 2, &[255], 1, 1, 1, 2, 0, 0, [255, 255, 255, 255]);
    // The glyph's top-left lands at (1, 1): y - height - ymin = 2 - 1 - 0.
    assert_eq!(&canvas[12..16], &[255, 255, 255, 255]);
    assert!(canvas[..12].iter().all(|&b| b == 0));
}

#[test]
fn blend_glyph_partial_coverage_is_premultiplied() {
    let mut canvas = vec![0u8; 4];
    blend_glyph(&mut canvas, 1, 1, &[128], 1, 1, 0, 1, 0, 0, [200, 100, 50, 255]);
    // src_a = 128: each channel is c * 128 / 255, alpha 128.
    assert_eq!(canvas, vec![100, 50, 25, 128]);
}

#[test]
fn blend_glyph_transparent_colour_changes_nothing() {
    let mut canvas = vec![128, 0, 0, 128, 10, 20, 30, 40];
    let before = canvas.clone();
    blend_glyph(&mut canvas, 2, 1, &[255, 255], 2, 1, 0, 1, 0, 0, [255, 255, 255, 0]);
    assert_eq!(canvas, before);
}

#[test]
fn blend_glyph_over_translucent_pixel() {
    let mut canvas = vec![128, 0, 0, 128];
    blend_glyph(&mut canvas, 1, 1, &[255], 1, 1, 0, 1, 0, 0, [0, 0, 255, 128]);
    // src_a = 128: red 128·127/255, blue 255·128/255, alpha 128 + 128·127/255.
    assert_eq!(canvas, vec![63, 0, 128, 191]);
}

#[test]
fn blend_glyph_clips_and_skips_zero_coverage() {
    let mut canvas = vec![7u8; 3 * 3 * 4];
    let before = canvas.clone();
    blend_glyph(&mut canvas, 3, 3, &[0, 0, 0, 0], 2, 2, 0, 2, 0, 0, [1, 2, 3, 4]);
    assert_eq!(canvas, before);
    blend_glyph(&mut canvas, 3, 3, &[255; 4], 2, 2, -5, 2, 0, 0, [1, 2, 3, 255]);
    assert_eq!(canvas, before);
    blend_glyph(&mut canvas, 3, 3, &[255; 4], 2, 2, 0, 100, 0, 0, [1, 2, 3, 255]);
    assert_eq!(canvas, before);
}

#[test]
fn blend_glyph_matches_source_over() {
    let cases: &[(u32, u32, usize, usize, i32, i32, i32, i32, [u8; 4])] = &[
        (8, 6, 3, 4, 2, 5, 0, 0, [220, 220, 220, 255]),
        (8, 6, 5, 3, -2, 2, 1, -1, [100, 180, 255, 120]),
        (5, 5, 4, 4, 3, 7, -1, 2, [10, 250, 30, 200]),
        (16, 9, 7, 6, 4, 9, 2, 1, [255, 0, 128, 77]),
    ];
    for (seed, &(w, h, gw, gh, x, y, xmin, ymin, color)) in cases.iter().enumerate() {
        let bitmap = glyph_bitmap(gw, gh, seed as u32);
        // A premultiplied background: each colour channel at most its alpha.
        let mut expected = vec![0u8; (4 * w * h) as usize];
        for (k, px) in expected.chunks_mut(4).enumerate() {
            let a = ((k * 53 + seed * 7) % 256) as u8;
            for c in 0..3 {
                px[c] = ((k * 29 + c * 61 + seed) % (a as usize + 1)) as u8;
            }
            px[3] = a;
        }
        let mut canvas = expected.clone();
        reference_draw(&mut expected, w, h, &bitmap, gw, gh, x, y, xmin, ymin, color);
        blend_glyph(&mut canvas, w, h, &bitmap, gw, gh, x, y, xmin, ymin, color);
        assert_eq!(canvas, expected, "case {}", seed);
        for px in canvas.chunks(4) {
            assert!(px[0] <= px[3] && px[1] <= px[3] && px[2] <= px[3]);
        }
    }
}

fn manifest(name: &str) -> PluginManifest {
    PluginManifest {
        pet: ManifestPet {
            name: name.to_string(),
            author: "someone".to_string(),
            version: "1.0.0".to_string(),
        },
        sprites: ManifestSprites {
            idle: "idle.gif".to_string(),
            walk: Some("walk.gif".to_string()),
            sleep: Some("sleep.gif".to_string()),
            interact: None,
            alert: Some("alert.gif".to_string()),
        },
    }
}

fn bytes() -> Option<Vec<u8>> {
    Some(b"bad".to_vec())
}

fn plugin(name: &str) -> LoadedPlugin {
    LoadedPlugin::assemble(manifest(name), bytes(), bytes(), bytes(), None, bytes()).unwrap()
}

fn frame(delay_ms: u64) -> RgbaFrame {
    RgbaFrame { pixels: vec![1, 2, 3, 4], width: 1, height: 1, delay_ms }
}

#[test]
fn plugin_kind_is_lowercased_name() {
    assert_eq!(plugin_kind("Fox Girl"), PetKind::Plugin("fox girl".to_string()));
    assert_eq!(plugin_kind("Fox Girl"), PetKind::from_str("Fox Girl"));
    assert_eq!(plugin_kind("  A B  "), PetKind::Plugin("  a b  ".to_string()));
    assert_eq!(plugin_kind("cat"), PetKind::Plugin("cat".to_string()));
}

#[test]
fn assemble_plugin() {
    let mut m = manifest("My Pet");
    m.sprites.alert = None;
    let p = LoadedPlugin::assemble(m, bytes(), bytes(), bytes(), None, None);
    let p = match p {
        Ok(p) => p,
        Err(e) => panic!("refused: {:?}", e),
    };
    assert_eq!(p.name, "My Pet");
    assert_eq!(p.kind, PetKind::Plugin("my pet".to_string()));
    assert_eq!(p.manifest.pet.author, "someone");
    assert_eq!(p.idle_frames.len(), 1);
    assert_eq!(p.walk_frames.len(), 1);
    assert_eq!(p.sleep_frames.len(), 1);
    assert!(p.interact_frames.is_empty());
    assert!(p.alert_frames.is_empty());
}

#[test]
fn assemble_refuses_missing_sprites() {
    let refused = |m: PluginManifest, s: [Option<Vec<u8>>; 5]| {
        let [a, b, c, d, e] = s;
        match LoadedPlugin::assemble(m, a, b, c, d, e) {
            Err(PluginError::MissingSprite(state)) => Some(state),
            Ok(_) => None,
        }
    };
    assert_eq!(refused(manifest("x"), [None, bytes(), bytes(), None, None]), Some(PetState::Idle));
    assert_eq!(refused(manifest("x"), [bytes(), None, bytes(), None, None]), Some(PetState::Walk));
    assert_eq!(refused(manifest("x"), [bytes(), bytes(), None, None, None]), Some(PetState::Sleep));
    // The first missing sprite is the one reported.
    assert_eq!(refused(manifest("x"), [bytes(), None, None, None, None]), Some(PetState::Walk));
    // Walk and sleep are required even when the manifest does not name them.
    let mut m = manifest("x");
    m.sprites.walk = None;
    assert_eq!(refused(m, [bytes(), None, bytes(), None, None]), Some(PetState::Walk));
    // A named interaction sprite must be there.
    let mut m = manifest("x");
    m.sprites.interact = Some("interact.gif".to_string());
    assert_eq!(refused(m, [bytes(), bytes(), bytes(), None, bytes()]), Some(PetState::Interact));
    // The alert sprite may be left out of the manifest.
    let mut m = manifest("x");
    m.sprites.alert = None;
    assert_eq!(refused(m, [bytes(), bytes(), bytes(), None, None]), None);
}

#[test]
fn plugin_frames_fall_back_to_idle() {
    let mut p = plugin("x");
    p.idle_frames = vec![frame(11)];
    p.walk_frames = vec![frame(22)];
    p.sleep_frames = vec![];
    p.alert_frames = vec![];
    assert_eq!(p.frames(PetState::Idle)[0].delay_ms, 11);
    assert_eq!(p.frames(PetState::Walk)[0].delay_ms, 22);
    assert_eq!(p.frames(PetState::Sleep)[0].delay_ms, 11);
    assert_eq!(p.frames(PetState::Interact)[0].delay_ms, 11);
    assert_eq!(p.frames(PetState::Alert)[0].delay_ms, 11);
}

#[test]
fn registry_replaces_or_appends() {
    let mut plugins = vec![plugin("Fox"), plugin("Owl")];
    assert_eq!(find_plugin(&plugins, &PetKind::Plugin("owl".to_string())), Some(1));
    assert_eq!(find_plugin(&plugins, &PetKind::Plugin("bat".to_string())), None);
    let mut again = plugin("OWL");
    again.manifest.pet.version = "2.0.0".to_string();
    register_plugin(&mut plugins, again);
    assert_eq!(plugins.len(), 2);
    assert_eq!(plugins[1].name, "OWL");
    assert_eq!(plugins[1].manifest.pet.version, "2.0.0");
    register_plugin(&mut plugins, plugin("Bat"));
    assert_eq!(plugins.len(), 3);
    assert_eq!(plugins[2].kind, PetKind::Plugin("bat".to_string()));
}

#[test]
fn plugin_pet_shows_the_plugin() {
    let mut p = plugin("Fox Girl");
    p.idle_frames = vec![frame(40)];
    p.walk_frames = vec![frame(50)];
    let mut pet = PluginPet::from_loaded(&p);
    assert_eq!(pet.name(), "Fox Girl");
    assert_eq!(pet.kind(), PetKind::Plugin("fox girl".to_string()));
    assert_eq!(pet.frames(PetState::Walk)[0].delay_ms, 50);
    assert_eq!(pet.frames(PetState::Interact)[0].delay_ms, 40);
    assert_eq!(pet.frames(PetState::Idle)[0].pixels, vec![1, 2, 3, 4]);
    assert_eq!(pet.tick(1, PetState::Interact), None);
    assert_eq!(pet.loop_completed(PetState::Interact), Some(PetState::Idle));
    assert_eq!(pet.loop_completed(PetState::Walk), None);
    assert_eq!(pet.loop_completed(PetState::Walk), None);
    assert_eq!(pet.loop_completed(PetState::Walk), Some(PetState::Idle));
}

#[test]
fn reload_only_for_manifest_changes() {
    assert!(triggers_reload(true, Some("manifest.toml")));
    assert!(!triggers_reload(false, Some("manifest.toml")));
    assert!(!triggers_reload(true, Some("idle.gif")));
    assert!(!triggers_reload(true, Some("Manifest.toml")));
    assert!(!triggers_reload(true, None));
}

fn sprites() -> BuiltinSprites {
    let set = || PetSprites {
        idle: vec![],
        walk: vec![],
        sleep: vec![],
        interact: vec![],
        alert: vec![],
    };
    BuiltinSprites {
        cat: set(),
        dog: set(),
        fish: FishSprites { idle: vec![], swim: vec![], alert: vec![] },
    }
}

#[test]
fn make_pet_selects_builtin() {
    let s = sprites();
    assert_eq!(make_pet(&PetKind::Cat, &[], &s).kind(), PetKind::Cat);
    assert_eq!(make_pet(&PetKind::Dog, &[], &s).kind(), PetKind::Dog);
    assert_eq!(make_pet(&PetKind::Fish, &[], &s).kind(), PetKind::Fish);
    // A plugin kind that no loaded plugin matches shows the cat.
    assert_eq!(make_pet(&PetKind::Plugin("fox".to_string()), &[], &s).name(), "Cat");
    let plugins = vec![plugin("Owl")];
    assert_eq!(make_pet(&PetKind::Plugin("fox".to_string()), &plugins, &s).kind(), PetKind::Cat);
}

#[test]
fn make_pet_shows_loaded_plugin() {
    let s = sprites();
    let mut fox = plugin("Fox Girl");
    fox.idle_frames = vec![frame(70)];
    let plugins = vec![plugin("Owl"), fox, plugin("fox girl")];
    let pet = make_pet(&PetKind::from_str("Fox Girl"), &plugins, &s);
    assert_eq!(pet.kind(), PetKind::Plugin("fox girl".to_string()));
    assert_eq!(pet.name(), "Fox Girl");
    assert_eq!(pet.frames(PetState::Idle)[0].delay_ms, 70);
}

#[test]
fn menu_lists_builtins_plugins_toggle_quit() {
    let plugins = vec![plugin("Fox Girl"), plugin("Owl")];
    let items = build_menu(&plugins);
    let labels: Vec<String> = items.iter().map(|i| menu_label(i, false)).collect();
    assert_eq!(
        labels,
        vec!["Cat", "Dog", "Fish", "Plugin: fox girl", "Plugin: owl", "Show Stats", "Quit"]
    );
    assert_eq!(menu_label(&MenuItem::ToggleStats, true), "Hide Stats");
    assert_eq!(build_menu(&[]).len(), 5);
}

#[test]
fn hover_marks_only_top_entry() {
    assert_eq!(hover_index(10, 50, 5), Some(0));
    assert_eq!(hover_index(0, -3, 5), Some(0));
    assert_eq!(hover_index(180, 400, 5), Some(0));
    assert_eq!(hover_index(181, 50, 5), None);
    assert_eq!(hover_index(-1, 50, 5), None);
    assert_eq!(hover_index(10, 50, 0), None);
}

#[test]
fn press_selects_band_under_cursor() {
    assert_eq!(press_index(10, 10, 0, 5), Some(0));
    assert_eq!(press_index(10, 10, 27, 5), Some(0));
    assert_eq!(press_index(10, 10, 28, 5), Some(1));
    assert_eq!(press_index(10, 10, 139, 5), Some(4));
    assert_eq!(press_index(10, 10, 140, 5), None);
    assert_eq!(press_index(10, 10, -1, 5), None);
    assert_eq!(press_index(-1, 0, 10, 5), None);
    assert_eq!(press_index(10, 181, 10, 5), None);
}

#[test]
fn interaction_flow() {
    let mut ui = Interaction::new();
    assert!(!ui.menu_open);
    // Left press with no menu starts a drag.
    assert!(matches!(ui.left_pressed(5, 5, 5), Press::StartDrag));
    assert!(ui.dragging);
    assert!(ui.left_released());
    assert!(!ui.left_released());
    // Right press opens the menu.
    ui.open_menu(&[]);
    assert!(ui.menu_open);
    assert_eq!(ui.menu_items.len(), 5);
    ui.cursor_moved(20, 20);
    assert_eq!(ui.menu_hover, Some(0));
    // Choosing the second band picks Dog and closes the menu.
    match ui.left_pressed(20, 20, 30) {
        Press::Chose(MenuItem::SwitchPet(k)) => assert_eq!(k, PetKind::Dog),
        other => panic!("unexpected {:?}", matches!(other, Press::Dismissed)),
    }
    assert!(!ui.menu_open);
    // A press outside the menu dismisses it.
    ui.open_menu(&[]);
    assert!(matches!(ui.left_pressed(500, 500, 30), Press::Dismissed));
    assert!(!ui.menu_open);
    assert!(!ui.dragging);
    ui.open_menu(&[]);
    ui.escape();
    assert!(!ui.menu_open);
    match ({ ui.open_menu(&[]); ui.left_pressed(1, 1, 28 * 4 + 3) }) {
        Press::Chose(MenuItem::Quit) => {}
        _ => panic!("expected Quit"),
    }
}

#[test]
fn window_extent_with_and_without_hud() {
    assert_eq!(window_extent(64, 64, false), (64, 64));
    assert_eq!(window_extent(64, 64, true), (220, 174));
    assert_eq!(window_extent(300, 10, true), (300, 120));
}

#[test]
fn pack_pixel_argb() {
    assert_eq!(pack_pixel(0x11, 0x22, 0x33, 0x44), 0x4411_2233);
    assert_eq!(pack_pixel(255, 0, 0, 255), 0xFFFF_0000);
    assert_eq!(pack_pixel(0, 0, 0, 0), 0);
}
