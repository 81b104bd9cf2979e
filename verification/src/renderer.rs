//! The rules of the pet window: the pet on screen and which pet a kind
//! selects (a built-in pet or a loaded plugin), the right-click menu
//! and its hit-testing, what a press or release of the pointer does, the
//! window's extent with the HUD, and the pixel format of the frame buffer.

use vstd::prelude::*;

use crate::pet::cat::{frame_parts, lemma_cat_walk_ends_after_loops, sprite_frames, Cat};
use crate::pet::dog::{lemma_dog_walk_ends_after_loops, Dog};
use crate::pet::fish::{lemma_fish_walk_ends_after_loops, Fish};
use crate::pet::{
    lemma_walk_and_interaction_end_in_idle, Pet, PetKind, PetState, RgbaFrame, StateMachine,
    FACING_RIGHT,
};
use crate::plugin::{
    find_plugin, has_kind, is_first_of_kind, lemma_plugin_walk_ends_after_loops, LoadedPlugin,
    PluginPet,
};
use crate::text::push_str;

verus! {

// ─── Layout constants ────────────────────────────────────────────────────────

/// Target time between frames, in milliseconds.
pub const TICK_MS: u64 = 16;

pub const HUD_WIDTH: u32 = 220;

pub const HUD_HEIGHT: u32 = 110;

pub const HUD_PADDING: i32 = 8;

pub const MENU_WIDTH: u32 = 180;

pub const MENU_ITEM_H: u32 = 28;

/// Seconds of idling before the pet falls asleep.
pub const SLEEP_AFTER_SECS: u64 = 300;

// ─── Pet factory ─────────────────────────────────────────────────────────────

/// The five GIF sprites of a walking pet.
pub struct PetSprites {
    pub idle: Vec<u8>,
    pub walk: Vec<u8>,
    pub sleep: Vec<u8>,
    pub interact: Vec<u8>,
    pub alert: Vec<u8>,
}

/// The three GIF sprites of the fish.
pub struct FishSprites {
    pub idle: Vec<u8>,
    pub swim: Vec<u8>,
    pub alert: Vec<u8>,
}

/// The sprites of the built-in pets.
pub struct BuiltinSprites {
    pub cat: PetSprites,
    pub dog: PetSprites,
    pub fish: FishSprites,
}

/// The built-in pet that a kind selects when no loaded plugin matches it: a
/// plugin kind then falls back to the cat.
pub open spec fn shown_kind(kind: PetKind) -> PetKind {
    match kind {
        PetKind::Dog => PetKind::Dog,
        PetKind::Fish => PetKind::Fish,
        _ => PetKind::Cat,
    }
}

/// The pet on screen: one of the built-in pets or a plugin's.
pub enum AnyPet {
    Cat(Cat),
    Dog(Dog),
    Fish(Fish),
    Plugin(PluginPet),
}

impl Pet for AnyPet {
    open spec fn spec_name(&self) -> Seq<char> {
        match self {
            AnyPet::Cat(p) => p.spec_name(),
            AnyPet::Dog(p) => p.spec_name(),
            AnyPet::Fish(p) => p.spec_name(),
            AnyPet::Plugin(p) => p.spec_name(),
        }
    }

    open spec fn spec_kind(&self) -> PetKind {
        match self {
            AnyPet::Cat(p) => p.spec_kind(),
            AnyPet::Dog(p) => p.spec_kind(),
            AnyPet::Fish(p) => p.spec_kind(),
            AnyPet::Plugin(p) => p.spec_kind(),
        }
    }

    open spec fn spec_frames(&self, state: PetState) -> Seq<RgbaFrame> {
        match self {
            AnyPet::Cat(p) => p.spec_frames(state),
            AnyPet::Dog(p) => p.spec_frames(state),
            AnyPet::Fish(p) => p.spec_frames(state),
            AnyPet::Plugin(p) => p.spec_frames(state),
        }
    }

    open spec fn spec_walk_direction(&self) -> i8 {
        match self {
            AnyPet::Cat(p) => p.spec_walk_direction(),
            AnyPet::Dog(p) => p.spec_walk_direction(),
            AnyPet::Fish(p) => p.spec_walk_direction(),
            AnyPet::Plugin(p) => p.spec_walk_direction(),
        }
    }

    open spec fn tick_decision(&self, state: PetState) -> Option<PetState> {
        match self {
            AnyPet::Cat(p) => p.tick_decision(state),
            AnyPet::Dog(p) => p.tick_decision(state),
            AnyPet::Fish(p) => p.tick_decision(state),
            AnyPet::Plugin(p) => p.tick_decision(state),
        }
    }

    open spec fn ticked(&self, dt: u128, state: PetState) -> Self {
        match self {
            AnyPet::Cat(p) => AnyPet::Cat(p.ticked(dt, state)),
            AnyPet::Dog(p) => AnyPet::Dog(p.ticked(dt, state)),
            AnyPet::Fish(p) => AnyPet::Fish(p.ticked(dt, state)),
            AnyPet::Plugin(p) => AnyPet::Plugin(p.ticked(dt, state)),
        }
    }

    open spec fn turned(&self, dir: i8) -> Self {
        match self {
            AnyPet::Cat(p) => AnyPet::Cat(p.turned(dir)),
            AnyPet::Dog(p) => AnyPet::Dog(p.turned(dir)),
            AnyPet::Fish(p) => AnyPet::Fish(p.turned(dir)),
            AnyPet::Plugin(p) => AnyPet::Plugin(p.turned(dir)),
        }
    }

    open spec fn loop_decision(&self, state: PetState) -> Option<PetState> {
        match self {
            AnyPet::Cat(p) => p.loop_decision(state),
            AnyPet::Dog(p) => p.loop_decision(state),
            AnyPet::Fish(p) => p.loop_decision(state),
            AnyPet::Plugin(p) => p.loop_decision(state),
        }
    }

    open spec fn looped(&self, state: PetState) -> Self {
        match self {
            AnyPet::Cat(p) => AnyPet::Cat(p.looped(state)),
            AnyPet::Dog(p) => AnyPet::Dog(p.looped(state)),
            AnyPet::Fish(p) => AnyPet::Fish(p.looped(state)),
            AnyPet::Plugin(p) => AnyPet::Plugin(p.looped(state)),
        }
    }

    fn name(&self) -> (r: &str) {
        match self {
            AnyPet::Cat(p) => p.name(),
            AnyPet::Dog(p) => p.name(),
            AnyPet::Fish(p) => p.name(),
            AnyPet::Plugin(p) => p.name(),
        }
    }

    fn kind(&self) -> (r: PetKind) {
        match self {
            AnyPet::Cat(p) => p.kind(),
            AnyPet::Dog(p) => p.kind(),
            AnyPet::Fish(p) => p.kind(),
            AnyPet::Plugin(p) => p.kind(),
        }
    }

    fn frames(&self, state: PetState) -> (r: &[RgbaFrame]) {
        match self {
            AnyPet::Cat(p) => p.frames(state),
            AnyPet::Dog(p) => p.frames(state),
            AnyPet::Fish(p) => p.frames(state),
            AnyPet::Plugin(p) => p.frames(state),
        }
    }

    fn tick(&mut self, dt_ns: u128, state: PetState) -> (r: Option<PetState>) {
        match self {
            AnyPet::Cat(p) => p.tick(dt_ns, state),
            AnyPet::Dog(p) => p.tick(dt_ns, state),
            AnyPet::Fish(p) => p.tick(dt_ns, state),
            AnyPet::Plugin(p) => p.tick(dt_ns, state),
        }
    }

    fn loop_completed(&mut self, state: PetState) -> (r: Option<PetState>) {
        match self {
            AnyPet::Cat(p) => p.loop_completed(state),
            AnyPet::Dog(p) => p.loop_completed(state),
            AnyPet::Fish(p) => p.loop_completed(state),
            AnyPet::Plugin(p) => p.loop_completed(state),
        }
    }

    fn walk_direction(&self) -> (d: i8) {
        match self {
            AnyPet::Cat(p) => p.walk_direction(),
            AnyPet::Dog(p) => p.walk_direction(),
            AnyPet::Fish(p) => p.walk_direction(),
            AnyPet::Plugin(p) => p.walk_direction(),
        }
    }

    fn set_walk_direction(&mut self, dir: i8) {
        match self {
            AnyPet::Cat(p) => p.set_walk_direction(dir),
            AnyPet::Dog(p) => p.set_walk_direction(dir),
            AnyPet::Fish(p) => p.set_walk_direction(dir),
            AnyPet::Plugin(p) => p.set_walk_direction(dir),
        }
    }
}

/// On screen, whichever pet is shown, a walk ends only by returning to Idle
/// or by an alert, and an interaction ends only by returning to Idle.
pub proof fn lemma_shown_pet_walks_end_in_idle(
    m: StateMachine,
    pet: AnyPet,
    dt: u128,
    cpu_over: bool,
    walk_roll: bool,
    walk_right: bool,
)
    requires
        m.tick_fits(dt, cpu_over),
        m.state == PetState::Walk || m.state == PetState::Interact,
    ensures
        ({
            let s = m.tick_result(pet, dt, cpu_over, walk_roll, walk_right).0.state;
            s == m.state || s == PetState::Idle || (m.state == PetState::Walk && s
                == PetState::Alert)
        }),
{
    assert forall|q: AnyPet|
        #[trigger] q.loop_decision(m.state) is None || q.loop_decision(m.state) == Some(
            PetState::Idle,
        ) by {
        match q {
            AnyPet::Cat(c) => lemma_cat_walk_ends_after_loops(c, FACING_RIGHT),
            AnyPet::Dog(d) => lemma_dog_walk_ends_after_loops(d, FACING_RIGHT),
            AnyPet::Fish(f) => lemma_fish_walk_ends_after_loops(f, FACING_RIGHT),
            AnyPet::Plugin(p) => lemma_plugin_walk_ends_after_loops(p, FACING_RIGHT),
        }
    }
    lemma_walk_and_interaction_end_in_idle(m, pet, dt, cpu_over, walk_roll, walk_right);
}

/// The sprite a walking pet shows in a state.
pub open spec fn sprite_for(s: PetSprites, state: PetState) -> Seq<u8> {
    match state {
        PetState::Idle => s.idle@,
        PetState::Walk => s.walk@,
        PetState::Sleep => s.sleep@,
        PetState::Interact => s.interact@,
        PetState::Alert => s.alert@,
    }
}

/// The sprite the fish shows in a state: swimming when walking, idle when
/// sleeping or interacting.
pub open spec fn fish_sprite_for(s: FishSprites, state: PetState) -> Seq<u8> {
    match state {
        PetState::Walk => s.swim@,
        PetState::Alert => s.alert@,
        _ => s.idle@,
    }
}

/// The frames the pet made for a kind shows in a state.
pub open spec fn shown_frames(kind: PetKind, sprites: BuiltinSprites, state: PetState) -> Seq<
    (Seq<u8>, u32, u32, u64),
> {
    match shown_kind(kind) {
        PetKind::Dog => sprite_frames(sprite_for(sprites.dog, state)),
        PetKind::Fish => sprite_frames(fish_sprite_for(sprites.fish, state)),
        _ => sprite_frames(sprite_for(sprites.cat, state)),
    }
}

/// Each built-in pet shows, in each state, the frames decoded from that
/// state's own sprite: the cat and the dog from the sprite of the same name;
/// the fish its swim sprite when walking, its alert sprite when alerted and
/// its idle sprite otherwise. A plugin kind no plugin matches shows the cat.
pub proof fn lemma_builtin_frames_by_state(sp: BuiltinSprites, name: String)
    ensures
        shown_frames(PetKind::Cat, sp, PetState::Idle) == sprite_frames(sp.cat.idle@),
        shown_frames(PetKind::Cat, sp, PetState::Walk) == sprite_frames(sp.cat.walk@),
        shown_frames(PetKind::Cat, sp, PetState::Sleep) == sprite_frames(sp.cat.sleep@),
        shown_frames(PetKind::Cat, sp, PetState::Interact) == sprite_frames(sp.cat.interact@),
        shown_frames(PetKind::Cat, sp, PetState::Alert) == sprite_frames(sp.cat.alert@),
        shown_frames(PetKind::Dog, sp, PetState::Idle) == sprite_frames(sp.dog.idle@),
        shown_frames(PetKind::Dog, sp, PetState::Walk) == sprite_frames(sp.dog.walk@),
        shown_frames(PetKind::Dog, sp, PetState::Sleep) == sprite_frames(sp.dog.sleep@),
        shown_frames(PetKind::Dog, sp, PetState::Interact) == sprite_frames(sp.dog.interact@),
        shown_frames(PetKind::Dog, sp, PetState::Alert) == sprite_frames(sp.dog.alert@),
        shown_frames(PetKind::Fish, sp, PetState::Idle) == sprite_frames(sp.fish.idle@),
        shown_frames(PetKind::Fish, sp, PetState::Walk) == sprite_frames(sp.fish.swim@),
        shown_frames(PetKind::Fish, sp, PetState::Sleep) == sprite_frames(sp.fish.idle@),
        shown_frames(PetKind::Fish, sp, PetState::Interact) == sprite_frames(sp.fish.idle@),
        shown_frames(PetKind::Fish, sp, PetState::Alert) == sprite_frames(sp.fish.alert@),
        forall|state: PetState| #[trigger]
            shown_frames(PetKind::Plugin(name), sp, state) == shown_frames(
                PetKind::Cat,
                sp,
                state,
            ),
{
}

fn make_cat(s: &PetSprites) -> (r: AnyPet)
    ensures
        r.spec_kind() == PetKind::Cat,
        r.spec_walk_direction() == FACING_RIGHT,
        forall|state: PetState| #[trigger]
            frame_parts(r.spec_frames(state)) == sprite_frames(sprite_for(*s, state)),
{
    AnyPet::Cat(
        Cat::new(
            s.idle.as_slice(),
            s.walk.as_slice(),
            s.sleep.as_slice(),
            s.interact.as_slice(),
            s.alert.as_slice(),
        ),
    )
}

/// Creates the pet for a kind. A plugin kind shows the first loaded plugin
/// of that kind; a plugin kind that no loaded plugin matches shows the cat.
pub fn make_pet(kind: &PetKind, plugins: &[LoadedPlugin], sprites: &BuiltinSprites) -> (r:
    AnyPet)
    ensures
        r.spec_walk_direction() == FACING_RIGHT,
        !(*kind is Plugin && has_kind(plugins@, *kind)) ==> {
            &&& r.spec_kind() == shown_kind(*kind)
            &&& forall|state: PetState| #[trigger]
                frame_parts(r.spec_frames(state)) == shown_frames(*kind, *sprites, state)
        },
        forall|i: int|
            *kind is Plugin && is_first_of_kind(plugins@, *kind, i) ==> {
                &&& r.spec_kind() == plugins@[i].kind
                &&& r.spec_name() == plugins@[i].name@
                &&& forall|state: PetState| #[trigger]
                    frame_parts(r.spec_frames(state)) == frame_parts(
                        plugins@[i].state_frames(state),
                    )
            },
{
    match kind {
        PetKind::Cat => make_cat(&sprites.cat),
        PetKind::Dog => AnyPet::Dog(
            Dog::new(
                sprites.dog.idle.as_slice(),
                sprites.dog.walk.as_slice(),
                sprites.dog.sleep.as_slice(),
                sprites.dog.interact.as_slice(),
                sprites.dog.alert.as_slice(),
            ),
        ),
        PetKind::Fish => AnyPet::Fish(
            Fish::new(
                sprites.fish.idle.as_slice(),
                sprites.fish.swim.as_slice(),
                sprites.fish.alert.as_slice(),
            ),
        ),
        PetKind::Plugin(_) => match find_plugin(plugins, kind) {
            Some(i) => {
                let r = AnyPet::Plugin(PluginPet::from_loaded(&plugins[i]));
                proof {
                    assert forall|j: int|
                        is_first_of_kind(plugins@, *kind, j) implies j == i by {
                        if j < i {
                            assert(!plugins@[j].kind.same_kind(*kind));
                        }
                        if i < j {
                            assert(!plugins@[i as int].kind.same_kind(*kind));
                        }
                    }
                }
                r
            },
            None => make_cat(&sprites.cat),
        },
    }
}

// ─── Menu ────────────────────────────────────────────────────────────────────

/// An entry of the right-click menu.
#[derive(Debug)]
pub enum MenuItem {
    SwitchPet(PetKind),
    ToggleStats,
    Quit,
}

impl Clone for MenuItem {
    fn clone(&self) -> (r: Self)
        ensures
            r == *self,
    {
        match self {
            MenuItem::SwitchPet(kind) => MenuItem::SwitchPet(kind.clone()),
            MenuItem::ToggleStats => MenuItem::ToggleStats,
            MenuItem::Quit => MenuItem::Quit,
        }
    }
}

/// The menu: the three built-in pets, one entry per loaded plugin in order,
/// then the stats toggle and Quit.
pub open spec fn menu_for(plugins: Seq<LoadedPlugin>) -> Seq<MenuItem> {
    seq![
        MenuItem::SwitchPet(PetKind::Cat),
        MenuItem::SwitchPet(PetKind::Dog),
        MenuItem::SwitchPet(PetKind::Fish),
    ] + plugins.map_values(|p: LoadedPlugin| MenuItem::SwitchPet(p.kind)) + seq![
        MenuItem::ToggleStats,
        MenuItem::Quit,
    ]
}

/// Builds the right-click menu.
pub fn build_menu(plugins: &[LoadedPlugin]) -> (r: Vec<MenuItem>)
    ensures
        r@ == menu_for(plugins@),
{
    let mut items: Vec<MenuItem> = Vec::new();
    items.push(MenuItem::SwitchPet(PetKind::Cat));
    items.push(MenuItem::SwitchPet(PetKind::Dog));
    items.push(MenuItem::SwitchPet(PetKind::Fish));
    let ghost head = items@;
    let mut i: usize = 0;
    while i < plugins.len()
        invariant
            i <= plugins@.len(),
            head == seq![
                MenuItem::SwitchPet(PetKind::Cat),
                MenuItem::SwitchPet(PetKind::Dog),
                MenuItem::SwitchPet(PetKind::Fish),
            ],
            items@ =~= head + plugins@.take(i as int).map_values(
                |p: LoadedPlugin| MenuItem::SwitchPet(p.kind),
            ),
        decreases plugins@.len() - i,
    {
        items.push(MenuItem::SwitchPet(plugins[i].kind.clone()));
        assert(plugins@.take(i as int + 1) == plugins@.take(i as int).push(plugins@[i as int]));
        i = i + 1;
    }
    assert(plugins@.take(plugins@.len() as int) == plugins@);
    items.push(MenuItem::ToggleStats);
    items.push(MenuItem::Quit);
    assert(items@ =~= menu_for(plugins@));
    items
}

/// The text of a menu entry.
pub open spec fn label_text(item: MenuItem, stats_enabled: bool) -> Seq<char> {
    match item {
        MenuItem::SwitchPet(PetKind::Cat) => seq!['C', 'a', 't'],
        MenuItem::SwitchPet(PetKind::Dog) => seq!['D', 'o', 'g'],
        MenuItem::SwitchPet(PetKind::Fish) => seq!['F', 'i', 's', 'h'],
        MenuItem::SwitchPet(PetKind::Plugin(n)) => seq!['P', 'l', 'u', 'g', 'i', 'n', ':', ' ']
            + n@,
        MenuItem::ToggleStats => if stats_enabled {
            seq!['H', 'i', 'd', 'e', ' ', 'S', 't', 'a', 't', 's']
        } else {
            seq!['S', 'h', 'o', 'w', ' ', 'S', 't', 'a', 't', 's']
        },
        MenuItem::Quit => seq!['Q', 'u', 'i', 't'],
    }
}

fn owned(s: &str) -> (r: String)
    ensures
        r@ == s@,
{
    s.to_owned()
}

/// The text shown for a menu entry; the stats toggle names what it will do.
pub fn menu_label(item: &MenuItem, stats_enabled: bool) -> (r: String)
    ensures
        r@ == label_text(*item, stats_enabled),
{
    proof {
        reveal_strlit("Cat");
        reveal_strlit("Dog");
        reveal_strlit("Fish");
        reveal_strlit("Plugin: ");
        reveal_strlit("Hide Stats");
        reveal_strlit("Show Stats");
        reveal_strlit("Quit");
    }
    let r = match item {
        MenuItem::SwitchPet(PetKind::Cat) => owned("Cat"),
        MenuItem::SwitchPet(PetKind::Dog) => owned("Dog"),
        MenuItem::SwitchPet(PetKind::Fish) => owned("Fish"),
        MenuItem::SwitchPet(PetKind::Plugin(n)) => {
            let mut s = owned("Plugin: ");
            push_str(&mut s, n.as_str());
            s
        },
        MenuItem::ToggleStats => if stats_enabled {
            owned("Hide Stats")
        } else {
            owned("Show Stats")
        },
        MenuItem::Quit => owned("Quit"),
    };
    assert(r@ =~= label_text(*item, stats_enabled));
    r
}

// ─── Hit-testing ─────────────────────────────────────────────────────────────

/// The first index below `n` at or after `from` that satisfies `p`.
pub open spec fn first_from(from: int, n: int, p: spec_fn(int) -> bool) -> Option<int>
    decreases n - from,
{
    if from >= n {
        None
    } else if p(from) {
        Some(from)
    } else {
        first_from(from + 1, n, p)
    }
}

/// Hover test of entry `i` for the cursor at `(mx, my)`: the entry's top is
/// taken from the cursor's own height.
pub open spec fn hover_hit(mx: int, my: int) -> spec_fn(int) -> bool {
    |i: int|
        {
            let iy = my + i * MENU_ITEM_H;
            0 <= mx && mx <= MENU_WIDTH && my >= iy && my < iy + MENU_ITEM_H
        }
}

/// Click test of entry `i` for a cursor at column `cx` (also given saturated
/// to unsigned, `cx_unsigned`) and row `cy`.
pub open spec fn press_hit(cx: int, cx_unsigned: int, cy: int) -> spec_fn(int) -> bool {
    |i: int|
        {
            let iy = i * MENU_ITEM_H;
            cy >= iy && cy < iy + MENU_ITEM_H && cx >= 0 && cx_unsigned <= MENU_WIDTH
        }
}

proof fn lemma_first_from_skip(from: int, n: int, p: spec_fn(int) -> bool, to: int)
    requires
        from <= to,
        forall|j: int| from <= j < to ==> !#[trigger] p(j),
    ensures
        first_from(from, n, p) == first_from(to, n, p),
    decreases to - from,
{
    if from < to && from < n {
        lemma_first_from_skip(from + 1, n, p, to);
    }
}

/// The menu entry under the cursor for hovering, if any.
pub fn hover_index(mx: i32, my: i32, n: usize) -> (r: Option<usize>)
    ensures
        r matches Some(i) ==> i < n && first_from(0, n as int, hover_hit(mx as int, my as int))
            == Some(i as int),
        r is None ==> first_from(0, n as int, hover_hit(mx as int, my as int)) is None,
{
    let mut i: usize = 0;
    while i < n
        invariant
            i <= n,
            forall|j: int| 0 <= j < i ==> !(#[trigger] hover_hit(mx as int, my as int)(j)),
        decreases n - i,
    {
        assert(0 <= i as int * 28 <= 28 * (usize::MAX as int)) by (nonlinear_arith)
            requires
                i <= usize::MAX,
        ;
        let iy: i128 = my as i128 + i as i128 * MENU_ITEM_H as i128;
        let hit = mx >= 0 && mx as i128 <= MENU_WIDTH as i128 && my as i128 >= iy && (my as i128)
            < iy + MENU_ITEM_H as i128;
        if hit {
            proof {
                lemma_first_from_skip(0, n as int, hover_hit(mx as int, my as int), i as int);
            }
            return Some(i);
        }
        i = i + 1;
    }
    proof {
        lemma_first_from_skip(0, n as int, hover_hit(mx as int, my as int), n as int);
    }
    None
}

/// The menu entry under the cursor for a click, if any.
pub fn press_index(cx: i32, cx_unsigned: u32, cy: i32, n: usize) -> (r: Option<usize>)
    ensures
        r matches Some(i) ==> i < n && first_from(
            0,
            n as int,
            press_hit(cx as int, cx_unsigned as int, cy as int),
        ) == Some(i as int),
        r is None ==> first_from(
            0,
            n as int,
            press_hit(cx as int, cx_unsigned as int, cy as int),
        ) is None,
{
    let mut i: usize = 0;
    while i < n
        invariant
            i <= n,
            forall|j: int|
                0 <= j < i ==> !(#[trigger] press_hit(cx as int, cx_unsigned as int, cy as int)(j)),
        decreases n - i,
    {
        let iy: i128 = i as i128 * MENU_ITEM_H as i128;
        let hit = cy as i128 >= iy && (cy as i128) < iy + MENU_ITEM_H as i128 && cx >= 0
            && cx_unsigned <= MENU_WIDTH;
        if hit {
            proof {
                lemma_first_from_skip(
                    0,
                    n as int,
                    press_hit(cx as int, cx_unsigned as int, cy as int),
                    i as int,
                );
            }
            return Some(i);
        }
        i = i + 1;
    }
    proof {
        lemma_first_from_skip(
            0,
            n as int,
            press_hit(cx as int, cx_unsigned as int, cy as int),
            n as int,
        );
    }
    None
}

// ─── Pointer interaction ─────────────────────────────────────────────────────

/// What a left press asks the window to do.
#[derive(Debug)]
pub enum Press {
    /// A menu entry was chosen (the menu has closed).
    Chose(MenuItem),
    /// The press missed the open menu, which has closed.
    Dismissed,
    /// With no menu open: a drag starts and the pet is clicked.
    StartDrag,
}

/// The pointer-driven state of the window: the right-click menu and dragging.
pub struct Interaction {
    pub menu_open: bool,
    pub menu_items: Vec<MenuItem>,
    pub menu_hover: Option<usize>,
    pub dragging: bool,
}

impl Interaction {
    pub fn new() -> (r: Self)
        ensures
            !r.menu_open,
            r.menu_items@.len() == 0,
            r.menu_hover is None,
            !r.dragging,
    {
        Interaction { menu_open: false, menu_items: Vec::new(), menu_hover: None, dragging: false }
    }

    /// Right press: the menu is rebuilt and opened, with nothing hovered.
    pub fn open_menu(&mut self, plugins: &[LoadedPlugin])
        ensures
            final(self).menu_open,
            final(self).menu_items@ == menu_for(plugins@),
            final(self).menu_hover is None,
            final(self).dragging == old(self).dragging,
    {
        self.menu_items = build_menu(plugins);
        self.menu_open = true;
        self.menu_hover = None;
    }

    /// Cursor moved to `(mx, my)`: while the menu is open, the hovered entry
    /// is the first one the hover test accepts.
    pub fn cursor_moved(&mut self, mx: i32, my: i32)
        ensures
            final(self).menu_open == old(self).menu_open,
            final(self).menu_items == old(self).menu_items,
            final(self).dragging == old(self).dragging,
            old(self).menu_open ==> match final(self).menu_hover {
                Some(i) => first_from(
                    0,
                    old(self).menu_items@.len() as int,
                    hover_hit(mx as int, my as int),
                ) == Some(i as int),
                None => first_from(
                    0,
                    old(self).menu_items@.len() as int,
                    hover_hit(mx as int, my as int),
                ) is None,
            },
            !old(self).menu_open ==> final(self).menu_hover == old(self).menu_hover,
    {
        if self.menu_open {
            self.menu_hover = hover_index(mx, my, self.menu_items.len());
        }
    }

    /// Left press at column `cx` (and `cx_unsigned`, the same column saturated
    /// to unsigned) and row `cy`. With the menu open the press closes it,
    /// choosing the entry it hits if any; otherwise a drag starts.
    pub fn left_pressed(&mut self, cx: i32, cx_unsigned: u32, cy: i32) -> (r: Press)
        ensures
            old(self).menu_open ==> {
                &&& !final(self).menu_open
                &&& final(self).dragging == old(self).dragging
                &&& match first_from(
                    0,
                    old(self).menu_items@.len() as int,
                    press_hit(cx as int, cx_unsigned as int, cy as int),
                ) {
                    Some(i) => r == Press::Chose(old(self).menu_items@[i]),
                    None => r == Press::Dismissed,
                }
            },
            !old(self).menu_open ==> {
                &&& r == Press::StartDrag
                &&& final(self).dragging
                &&& !final(self).menu_open
            },
            final(self).menu_items == old(self).menu_items,
            final(self).menu_hover == old(self).menu_hover,
    {
        if self.menu_open {
            let hit = press_index(cx, cx_unsigned, cy, self.menu_items.len());
            self.menu_open = false;
            match hit {
                Some(idx) => Press::Chose(self.menu_items[idx].clone()),
                None => Press::Dismissed,
            }
        } else {
            self.dragging = true;
            Press::StartDrag
        }
    }

    /// Left release: ends a drag. Returns whether a drag ended (then the
    /// window's position is to be saved).
    pub fn left_released(&mut self) -> (ended: bool)
        ensures
            ended == old(self).dragging,
            !final(self).dragging,
            final(self).menu_open == old(self).menu_open,
            final(self).menu_items == old(self).menu_items,
            final(self).menu_hover == old(self).menu_hover,
    {
        if self.dragging {
            self.dragging = false;
            true
        } else {
            false
        }
    }

    /// Escape: closes the menu.
    pub fn escape(&mut self)
        ensures
            !final(self).menu_open,
            final(self).menu_items == old(self).menu_items,
            final(self).menu_hover == old(self).menu_hover,
            final(self).dragging == old(self).dragging,
    {
        self.menu_open = false;
    }
}

/// Hovering only ever marks the top entry: the cursor is over it exactly when
/// the menu has an entry and the cursor's column is within the menu.
pub proof fn lemma_hover_is_top_entry(mx: int, my: int, n: int)
    ensures
        first_from(0, n, hover_hit(mx, my)) == (if n > 0 && 0 <= mx <= MENU_WIDTH {
            Some(0int)
        } else {
            None
        }),
{
    let p = hover_hit(mx, my);
    assert forall|j: int| 1 <= j < n implies !#[trigger] p(j) by {}
    if n > 0 {
        if !(0 <= mx <= MENU_WIDTH) {
            assert forall|j: int| 0 <= j < n implies !#[trigger] p(j) by {}
            lemma_first_from_skip(0, n, p, n);
        }
    } else {
        lemma_first_from_skip(0, n, p, 0);
    }
}

/// A click on the open menu selects the entry whose band of rows holds the
/// cursor, provided the cursor's column is within the menu.
pub proof fn lemma_press_selects_band(cx: int, cx_unsigned: int, cy: int, n: int)
    ensures
        first_from(0, n, press_hit(cx, cx_unsigned, cy)) == (if 0 <= cx && cx_unsigned
            <= MENU_WIDTH && 0 <= cy < n * MENU_ITEM_H {
            Some(cy / MENU_ITEM_H as int)
        } else {
            None
        }),
{
    let p = press_hit(cx, cx_unsigned, cy);
    let h = MENU_ITEM_H as int;
    if 0 <= cx && cx_unsigned <= MENU_WIDTH && 0 <= cy < n * h {
        let k = cy / h;
        assert(0 <= k < n) by (nonlinear_arith)
            requires
                0 <= cy < n * h,
                k == cy / h,
                h == 28,
        ;
        assert forall|j: int| 0 <= j < k implies !#[trigger] p(j) by {
            assert(cy >= (j + 1) * h) by (nonlinear_arith)
                requires
                    j < k,
                    k == cy / h,
                    h == 28,
                    cy >= 0,
            ;
        }
        lemma_first_from_skip(0, n, p, k);
        assert(p(k)) by {
            assert(k * h <= cy < k * h + h) by (nonlinear_arith)
                requires
                    k == cy / h,
                    h == 28,
                    cy >= 0,
            ;
        }
    } else {
        if n > 0 {
        assert forall|j: int| 0 <= j < n implies !#[trigger] p(j) by {
            if 0 <= cx && cx_unsigned <= MENU_WIDTH && p(j) {
                assert(0 <= cy < n * h) by (nonlinear_arith)
                    requires
                        0 <= j < n,
                        j * h <= cy < j * h + h,
                        h == 28,
                ;
            }
        }
        lemma_first_from_skip(0, n, p, n);
        }
    }
}

// ─── Window and frame buffer ─────────────────────────────────────────────────

/// The window's size for a sprite of `sw` × `sh`: with the HUD, at least the
/// HUD's width and the HUD's height below the sprite.
pub open spec fn extent(sw: u32, sh: u32, stats_enabled: bool) -> (int, int) {
    if stats_enabled {
        (if sw >= HUD_WIDTH {
            sw as int
        } else {
            HUD_WIDTH as int
        }, sh + HUD_HEIGHT)
    } else {
        (sw as int, sh as int)
    }
}

/// With the HUD the window is the sprite's height plus the HUD's height
/// tall, and as wide as the wider of the sprite and the HUD; without it the
/// window is the sprite's size.
pub proof fn lemma_extent_makes_room_for_hud(sw: u32, sh: u32, stats_enabled: bool)
    ensures
        stats_enabled ==> extent(sw, sh, stats_enabled).1 == sh + 110,
        stats_enabled ==> extent(sw, sh, stats_enabled).0 >= sw,
        stats_enabled ==> extent(sw, sh, stats_enabled).0 >= 220,
        stats_enabled ==> (extent(sw, sh, stats_enabled).0 == sw || extent(
            sw,
            sh,
            stats_enabled,
        ).0 == 220),
        !stats_enabled ==> extent(sw, sh, stats_enabled) == (sw as int, sh as int),
{
}

/// Window size for a sprite and the HUD setting.
pub fn window_extent(sw: u32, sh: u32, stats_enabled: bool) -> (r: (u32, u32))
    requires
        stats_enabled ==> sh + HUD_HEIGHT <= u32::MAX,
    ensures
        r.0 == extent(sw, sh, stats_enabled).0,
        r.1 == extent(sw, sh, stats_enabled).1,
{
    let total_w = if stats_enabled {
        if sw >= HUD_WIDTH {
            sw
        } else {
            HUD_WIDTH
        }
    } else {
        sw
    };
    let total_h = if stats_enabled {
        sh + HUD_HEIGHT
    } else {
        sh
    };
    (total_w, total_h)
}

/// A frame-buffer pixel: alpha, red, green, blue from the high byte down.
pub open spec fn packed(r: u8, g: u8, b: u8, a: u8) -> int {
    a as int * 0x1000000 + r as int * 0x10000 + g as int * 0x100 + b as int
}

/// Packs a pixel for the frame buffer (`0xAARRGGBB`).
pub fn pack_pixel(r: u8, g: u8, b: u8, a: u8) -> (p: u32)
    ensures
        p == packed(r, g, b, a),
{
    let (r32, g32, b32, a32) = (r as u32, g as u32, b as u32, a as u32);
    let p = (a32 << 24) | (r32 << 16) | (g32 << 8) | b32;
    assert(p == a32 * 0x1000000 + r32 * 0x10000 + g32 * 0x100 + b32) by (bit_vector)
        requires
            p == (a32 << 24) | (r32 << 16) | (g32 << 8) | b32,
            a32 < 256,
            r32 < 256,
            g32 < 256,
            b32 < 256,
    ;
    p
}

} // verus!
