//! Community plugins: the manifest a plugin ships, which sprites it must
//! ship, the loaded sprite set and its fallbacks, the identifier a plugin is
//! selected by, the registry of loaded plugins, the pet a plugin becomes, and
//! which file events call for a reload.

use vstd::prelude::*;

use crate::pet::cat::{decode_gif, frame_parts, parts_of, sprite_frames};
use crate::pet::{
    loop_end, loop_outcome, loops_after, Pet, PetKind, PetState, RgbaFrame, FACING_RIGHT,
};
use crate::text::{to_lowercase, unicode_lowercase};

verus! {

// ─── Manifest ────────────────────────────────────────────────────────────────

/// The `[pet]` table of a manifest.
pub struct ManifestPet {
    pub name: String,
    pub author: String,
    pub version: String,
}

/// The `[sprites]` table: file names of the GIF sprites, relative to the
/// plugin directory. Only the idle entry must be written; which sprites a
/// plugin needs to load is `sprite_required`.
pub struct ManifestSprites {
    pub idle: String,
    pub walk: Option<String>,
    pub sleep: Option<String>,
    pub interact: Option<String>,
    pub alert: Option<String>,
}

/// A plugin's `manifest.toml` (its `[behaviour]` table is read by the
/// application).
pub struct PluginManifest {
    pub pet: ManifestPet,
    pub sprites: ManifestSprites,
}

// ─── Loaded plugin ───────────────────────────────────────────────────────────

pub struct LoadedPlugin {
    pub name: String,
    pub kind: PetKind,
    pub manifest: PluginManifest,
    pub idle_frames: Vec<RgbaFrame>,
    pub walk_frames: Vec<RgbaFrame>,
    pub sleep_frames: Vec<RgbaFrame>,
    pub interact_frames: Vec<RgbaFrame>,
    pub alert_frames: Vec<RgbaFrame>,
}

/// The frames of a state, or the idle frames when the state has none.
pub open spec fn or_idle(frames: Seq<RgbaFrame>, idle: Seq<RgbaFrame>) -> Seq<RgbaFrame> {
    if frames.len() == 0 {
        idle
    } else {
        frames
    }
}

/// The identifier of a plugin named `name`: the lowercased name.
pub open spec fn plugin_id(name: Seq<char>) -> Seq<char> {
    unicode_lowercase(name)
}

/// Why a plugin was not loaded.
#[derive(Debug, Clone, Copy, PartialEq, Eq, Structural)]
pub enum PluginError {
    /// The sprite of this state is required, or named by the manifest, and
    /// its file does not exist or cannot be read.
    MissingSprite(PetState),
}

/// The sprites every plugin must ship: idle, walk and sleep (interaction and
/// alert sprites are optional).
pub open spec fn sprite_required(state: PetState) -> bool {
    state == PetState::Idle || state == PetState::Walk || state == PetState::Sleep
}

/// Whether the manifest names a sprite for a state (the idle sprite is always
/// named).
pub open spec fn sprite_named(m: PluginManifest, state: PetState) -> bool {
    match state {
        PetState::Idle => true,
        PetState::Walk => m.sprites.walk is Some,
        PetState::Sleep => m.sprites.sleep is Some,
        PetState::Interact => m.sprites.interact is Some,
        PetState::Alert => m.sprites.alert is Some,
    }
}

/// A sprite that stops the plugin from loading: required or named, yet its
/// bytes could not be read.
pub open spec fn sprite_missing(m: PluginManifest, state: PetState, bytes: Option<Seq<u8>>) -> bool {
    bytes is None && (sprite_required(state) || sprite_named(m, state))
}

/// The bytes of an optional sprite as plain values.
pub open spec fn bytes_view(b: Option<Vec<u8>>) -> Option<Seq<u8>> {
    match b {
        Some(v) => Some(v@),
        None => None,
    }
}

/// The first missing sprite, in the order idle, walk, sleep, interaction,
/// alert; `None` when the plugin can be loaded.
pub open spec fn first_missing(
    m: PluginManifest,
    idle: Option<Seq<u8>>,
    walk: Option<Seq<u8>>,
    sleep: Option<Seq<u8>>,
    interact: Option<Seq<u8>>,
    alert: Option<Seq<u8>>,
) -> Option<PetState> {
    if sprite_missing(m, PetState::Idle, idle) {
        Some(PetState::Idle)
    } else if sprite_missing(m, PetState::Walk, walk) {
        Some(PetState::Walk)
    } else if sprite_missing(m, PetState::Sleep, sleep) {
        Some(PetState::Sleep)
    } else if sprite_missing(m, PetState::Interact, interact) {
        Some(PetState::Interact)
    } else if sprite_missing(m, PetState::Alert, alert) {
        Some(PetState::Alert)
    } else {
        None
    }
}

/// The frames of a sprite that may be absent: decoded when its bytes are
/// there, none otherwise.
pub open spec fn optional_sprite(bytes: Option<Seq<u8>>) -> Seq<(Seq<u8>, u32, u32, u64)> {
    match bytes {
        Some(b) => sprite_frames(b),
        None => seq![],
    }
}

fn decode_optional(bytes: &Option<Vec<u8>>) -> (r: Vec<RgbaFrame>)
    ensures
        frame_parts(r@) == optional_sprite(bytes_view(*bytes)),
{
    match bytes {
        Some(b) => decode_gif(b.as_slice()),
        None => {
            let r: Vec<RgbaFrame> = Vec::new();
            assert(frame_parts(r@) =~= seq![]);
            r
        },
    }
}

/// Whether the manifest names a sprite for a state.
fn names_sprite(m: &PluginManifest, state: PetState) -> (r: bool)
    ensures
        r == sprite_named(*m, state),
{
    match state {
        PetState::Idle => true,
        PetState::Walk => m.sprites.walk.is_some(),
        PetState::Sleep => m.sprites.sleep.is_some(),
        PetState::Interact => m.sprites.interact.is_some(),
        PetState::Alert => m.sprites.alert.is_some(),
    }
}

/// Whether a sprite stops the plugin from loading.
fn is_missing(m: &PluginManifest, state: PetState, bytes: &Option<Vec<u8>>) -> (r: bool)
    ensures
        r == sprite_missing(*m, state, bytes_view(*bytes)),
{
    let required = match state {
        PetState::Idle | PetState::Walk | PetState::Sleep => true,
        _ => false,
    };
    bytes.is_none() && (required || names_sprite(m, state))
}

impl LoadedPlugin {
    /// The frames shown in a state: the state's own, or the idle frames when
    /// the state has none.
    pub open spec fn state_frames(self, state: PetState) -> Seq<RgbaFrame> {
        match state {
            PetState::Idle => self.idle_frames@,
            PetState::Walk => or_idle(self.walk_frames@, self.idle_frames@),
            PetState::Sleep => or_idle(self.sleep_frames@, self.idle_frames@),
            PetState::Interact => or_idle(self.interact_frames@, self.idle_frames@),
            PetState::Alert => or_idle(self.alert_frames@, self.idle_frames@),
        }
    }

    /// Frames for a state; a state without frames of its own shows the idle
    /// frames.
    pub fn frames(&self, state: PetState) -> (r: &[RgbaFrame])
        ensures
            r@ == self.state_frames(state),
    {
        match state {
            PetState::Idle => self.idle_frames.as_slice(),
            PetState::Walk => if self.walk_frames.len() == 0 {
                self.idle_frames.as_slice()
            } else {
                self.walk_frames.as_slice()
            },
            PetState::Sleep => if self.sleep_frames.len() == 0 {
                self.idle_frames.as_slice()
            } else {
                self.sleep_frames.as_slice()
            },
            PetState::Interact => if self.interact_frames.len() == 0 {
                self.idle_frames.as_slice()
            } else {
                self.interact_frames.as_slice()
            },
            PetState::Alert => if self.alert_frames.len() == 0 {
                self.idle_frames.as_slice()
            } else {
                self.alert_frames.as_slice()
            },
        }
    }

    /// Builds a plugin from its manifest and the bytes of its sprite files
    /// (`None` for a sprite that is not named, does not exist or cannot be
    /// read). The idle, walk and sleep sprites must be there, and so must
    /// every sprite the manifest names; otherwise the plugin is refused with
    /// the first missing one. The plugin is selected by its lowercased name.
    pub fn assemble(
        manifest: PluginManifest,
        idle_gif: Option<Vec<u8>>,
        walk_gif: Option<Vec<u8>>,
        sleep_gif: Option<Vec<u8>>,
        interact_gif: Option<Vec<u8>>,
        alert_gif: Option<Vec<u8>>,
    ) -> (r: Result<LoadedPlugin, PluginError>)
        ensures
            match r {
                Err(PluginError::MissingSprite(s)) => first_missing(
                    manifest,
                    bytes_view(idle_gif),
                    bytes_view(walk_gif),
                    bytes_view(sleep_gif),
                    bytes_view(interact_gif),
                    bytes_view(alert_gif),
                ) == Some(s),
                Ok(p) => {
                    &&& first_missing(
                        manifest,
                        bytes_view(idle_gif),
                        bytes_view(walk_gif),
                        bytes_view(sleep_gif),
                        bytes_view(interact_gif),
                        bytes_view(alert_gif),
                    ) is None
                    &&& p.name@ == manifest.pet.name@
                    &&& p.kind matches PetKind::Plugin(id) && id@ == plugin_id(manifest.pet.name@)
                    &&& p.manifest == manifest
                    &&& frame_parts(p.idle_frames@) == optional_sprite(bytes_view(idle_gif))
                    &&& frame_parts(p.walk_frames@) == optional_sprite(bytes_view(walk_gif))
                    &&& frame_parts(p.sleep_frames@) == optional_sprite(bytes_view(sleep_gif))
                    &&& frame_parts(p.interact_frames@) == optional_sprite(
                        bytes_view(interact_gif),
                    )
                    &&& frame_parts(p.alert_frames@) == optional_sprite(bytes_view(alert_gif))
                },
            },
    {
        if is_missing(&manifest, PetState::Idle, &idle_gif) {
            return Err(PluginError::MissingSprite(PetState::Idle));
        }
        if is_missing(&manifest, PetState::Walk, &walk_gif) {
            return Err(PluginError::MissingSprite(PetState::Walk));
        }
        if is_missing(&manifest, PetState::Sleep, &sleep_gif) {
            return Err(PluginError::MissingSprite(PetState::Sleep));
        }
        if is_missing(&manifest, PetState::Interact, &interact_gif) {
            return Err(PluginError::MissingSprite(PetState::Interact));
        }
        if is_missing(&manifest, PetState::Alert, &alert_gif) {
            return Err(PluginError::MissingSprite(PetState::Alert));
        }
        let name = manifest.pet.name.clone();
        let kind = plugin_kind(name.as_str());
        Ok(
            LoadedPlugin {
                name,
                kind,
                idle_frames: decode_optional(&idle_gif),
                walk_frames: decode_optional(&walk_gif),
                sleep_frames: decode_optional(&sleep_gif),
                interact_frames: decode_optional(&interact_gif),
                alert_frames: decode_optional(&alert_gif),
                manifest,
            },
        )
    }
}

/// A plugin shows its own frames in every state that has any, and its idle
/// frames only in a state that has none.
pub proof fn lemma_plugin_frames_prefer_own(p: LoadedPlugin)
    ensures
        p.state_frames(PetState::Idle) == p.idle_frames@,
        p.walk_frames@.len() > 0 ==> p.state_frames(PetState::Walk) == p.walk_frames@,
        p.walk_frames@.len() == 0 ==> p.state_frames(PetState::Walk) == p.idle_frames@,
        p.sleep_frames@.len() > 0 ==> p.state_frames(PetState::Sleep) == p.sleep_frames@,
        p.sleep_frames@.len() == 0 ==> p.state_frames(PetState::Sleep) == p.idle_frames@,
        p.interact_frames@.len() > 0 ==> p.state_frames(PetState::Interact)
            == p.interact_frames@,
        p.interact_frames@.len() == 0 ==> p.state_frames(PetState::Interact) == p.idle_frames@,
        p.alert_frames@.len() > 0 ==> p.state_frames(PetState::Alert) == p.alert_frames@,
        p.alert_frames@.len() == 0 ==> p.state_frames(PetState::Alert) == p.idle_frames@,
{
}

/// The pet kind that selects the plugin named `name`.
pub fn plugin_kind(name: &str) -> (r: PetKind)
    ensures
        r matches PetKind::Plugin(id) && id@ == plugin_id(name@),
{
    PetKind::Plugin(to_lowercase(name))
}

// ─── Registry ────────────────────────────────────────────────────────────────

/// `i` is the first plugin of `ps` that a kind selects.
pub open spec fn is_first_of_kind(ps: Seq<LoadedPlugin>, kind: PetKind, i: int) -> bool {
    &&& 0 <= i < ps.len()
    &&& ps[i].kind.same_kind(kind)
    &&& forall|k: int| 0 <= k < i ==> !(#[trigger] ps[k].kind).same_kind(kind)
}

/// Some plugin of `ps` is selected by a kind.
pub open spec fn has_kind(ps: Seq<LoadedPlugin>, kind: PetKind) -> bool {
    exists|i: int| 0 <= i < ps.len() && (#[trigger] ps[i].kind).same_kind(kind)
}

/// The position of the first plugin that a kind selects.
pub fn find_plugin(plugins: &[LoadedPlugin], kind: &PetKind) -> (r: Option<usize>)
    ensures
        match r {
            Some(i) => is_first_of_kind(plugins@, *kind, i as int),
            None => !has_kind(plugins@, *kind),
        },
{
    let mut i: usize = 0;
    while i < plugins.len()
        invariant
            i <= plugins@.len(),
            forall|k: int| 0 <= k < i ==> !(#[trigger] plugins@[k].kind).same_kind(*kind),
        decreases plugins@.len() - i,
    {
        if plugins[i].kind.same_as(kind) {
            return Some(i);
        }
        i = i + 1;
    }
    None
}

/// Adds a loaded plugin to the registry: it takes the place of the first
/// plugin of the same kind (a reloaded plugin), or goes at the end.
pub fn register_plugin(plugins: &mut Vec<LoadedPlugin>, plugin: LoadedPlugin)
    ensures
        !has_kind(old(plugins)@, plugin.kind) ==> final(plugins)@ == old(plugins)@.push(plugin),
        forall|i: int|
            is_first_of_kind(old(plugins)@, plugin.kind, i) ==> final(plugins)@ == old(
                plugins,
            )@.update(i, plugin),
{
    let ghost p = plugin;
    match find_plugin(plugins.as_slice(), &plugin.kind) {
        Some(i) => {
            plugins.set(i, plugin);
            proof {
                assert forall|j: int| is_first_of_kind(old(plugins)@, p.kind, j) implies j
                    == i by {
                    if j < i {
                        assert(!old(plugins)@[j].kind.same_kind(p.kind));
                    }
                    if i < j {
                        assert(!old(plugins)@[i as int].kind.same_kind(p.kind));
                    }
                }
            }
        },
        None => {
            plugins.push(plugin);
        },
    }
}

// ─── Plugin pet ──────────────────────────────────────────────────────────────

/// Copies one frame.
fn copy_frame(f: &RgbaFrame) -> (r: RgbaFrame)
    ensures
        parts_of(r) == parts_of(*f),
{
    let pixels = f.pixels.clone();
    assert(pixels@ =~= f.pixels@);
    RgbaFrame { pixels, width: f.width, height: f.height, delay_ms: f.delay_ms }
}

/// Copies a run of frames.
fn copy_frames(frames: &[RgbaFrame]) -> (r: Vec<RgbaFrame>)
    ensures
        frame_parts(r@) == frame_parts(frames@),
{
    let mut out: Vec<RgbaFrame> = Vec::new();
    let mut i: usize = 0;
    while i < frames.len()
        invariant
            i <= frames@.len(),
            frame_parts(out@) == frame_parts(frames@.take(i as int)),
        decreases frames@.len() - i,
    {
        let f = copy_frame(&frames[i]);
        let ghost before = out@;
        out.push(f);
        assert(frames@.take(i as int + 1) == frames@.take(i as int).push(frames@[i as int]));
        assert(frame_parts(out@) =~= frame_parts(before).push(parts_of(f)));
        assert(frame_parts(frames@.take(i as int + 1)) =~= frame_parts(
            frames@.take(i as int),
        ).push(parts_of(frames@[i as int])));
        i = i + 1;
    }
    assert(frames@.take(frames@.len() as int) == frames@);
    out
}

/// A loaded plugin as a pet: its sprites (with the idle fallback), its name
/// and kind; its walks and interactions end as the cat's do.
pub struct PluginPet {
    name: String,
    kind: PetKind,
    idle_frames: Vec<RgbaFrame>,
    walk_frames: Vec<RgbaFrame>,
    sleep_frames: Vec<RgbaFrame>,
    interact_frames: Vec<RgbaFrame>,
    alert_frames: Vec<RgbaFrame>,
    walk_direction: i8,
    walk_loops_done: u32,
}

impl PluginPet {
    /// The pet of a loaded plugin, showing what the plugin shows in each
    /// state and facing right.
    pub fn from_loaded(plugin: &LoadedPlugin) -> (r: PluginPet)
        ensures
            r.spec_name() == plugin.name@,
            r.spec_kind() == plugin.kind,
            forall|state: PetState| #[trigger]
                frame_parts(r.spec_frames(state)) == frame_parts(plugin.state_frames(state)),
            r.spec_walk_direction() == FACING_RIGHT,
            r.walk_loops() == 0,
    {
        let r = PluginPet {
            name: plugin.name.clone(),
            kind: plugin.kind.clone(),
            idle_frames: copy_frames(plugin.frames(PetState::Idle)),
            walk_frames: copy_frames(plugin.frames(PetState::Walk)),
            sleep_frames: copy_frames(plugin.frames(PetState::Sleep)),
            interact_frames: copy_frames(plugin.frames(PetState::Interact)),
            alert_frames: copy_frames(plugin.frames(PetState::Alert)),
            walk_direction: FACING_RIGHT,
            walk_loops_done: 0,
        };
        assert forall|state: PetState| #[trigger]
            frame_parts(r.spec_frames(state)) == frame_parts(plugin.state_frames(state)) by {
            match state {
                PetState::Idle => {},
                PetState::Walk => {},
                PetState::Sleep => {},
                PetState::Interact => {},
                PetState::Alert => {},
            }
        }
        r
    }

    /// Walk loops completed since the walk direction was last set.
    pub closed spec fn walk_loops(&self) -> u32 {
        self.walk_loops_done
    }
}

impl Pet for PluginPet {
    closed spec fn spec_name(&self) -> Seq<char> {
        self.name@
    }

    closed spec fn spec_kind(&self) -> PetKind {
        self.kind
    }

    closed spec fn spec_frames(&self, state: PetState) -> Seq<RgbaFrame> {
        match state {
            PetState::Idle => self.idle_frames@,
            PetState::Walk => self.walk_frames@,
            PetState::Sleep => self.sleep_frames@,
            PetState::Interact => self.interact_frames@,
            PetState::Alert => self.alert_frames@,
        }
    }

    closed spec fn spec_walk_direction(&self) -> i8 {
        self.walk_direction
    }

    /// A plugin pet decides only when an animation loop completes.
    open spec fn tick_decision(&self, state: PetState) -> Option<PetState> {
        None
    }

    open spec fn ticked(&self, dt: u128, state: PetState) -> Self {
        *self
    }

    closed spec fn turned(&self, dir: i8) -> Self {
        PluginPet { walk_direction: dir, walk_loops_done: 0, ..*self }
    }

    closed spec fn loop_decision(&self, state: PetState) -> Option<PetState> {
        loop_end(state, self.walk_loops_done)
    }

    closed spec fn looped(&self, state: PetState) -> Self {
        PluginPet { walk_loops_done: loops_after(state, self.walk_loops_done), ..*self }
    }

    fn name(&self) -> (r: &str) {
        self.name.as_str()
    }

    fn kind(&self) -> (r: PetKind) {
        self.kind.clone()
    }

    fn frames(&self, state: PetState) -> (r: &[RgbaFrame]) {
        match state {
            PetState::Idle => self.idle_frames.as_slice(),
            PetState::Walk => self.walk_frames.as_slice(),
            PetState::Sleep => self.sleep_frames.as_slice(),
            PetState::Interact => self.interact_frames.as_slice(),
            PetState::Alert => self.alert_frames.as_slice(),
        }
    }

    fn tick(&mut self, dt_ns: u128, state: PetState) -> (r: Option<PetState>) {
        None
    }

    fn loop_completed(&mut self, state: PetState) -> (r: Option<PetState>) {
        let (decision, done) = loop_outcome(state, self.walk_loops_done);
        self.walk_loops_done = done;
        decision
    }

    fn walk_direction(&self) -> (d: i8) {
        self.walk_direction
    }

    fn set_walk_direction(&mut self, dir: i8) {
        self.walk_direction = dir;
        self.walk_loops_done = 0;
    }
}

/// A walk of a plugin pet lasts `WALK_LOOPS` animation loops from the moment
/// it is turned, and an interaction ends after one loop.
pub proof fn lemma_plugin_walk_ends_after_loops(pet: PluginPet, dir: i8)
    ensures
        pet.turned(dir).loop_decision(PetState::Walk) is None,
        pet.turned(dir).looped(PetState::Walk).loop_decision(PetState::Walk) is None,
        pet.turned(dir).looped(PetState::Walk).looped(PetState::Walk).loop_decision(
            PetState::Walk,
        ) == Some(PetState::Idle),
        pet.loop_decision(PetState::Interact) == Some(PetState::Idle),
        pet.loop_decision(PetState::Walk) is None || pet.loop_decision(PetState::Walk) == Some(
            PetState::Idle,
        ),
{
}

// ─── Hot reload ──────────────────────────────────────────────────────────────

/// The file name whose creation or change reloads a plugin.
pub open spec fn manifest_file_name() -> Seq<char> {
    seq!['m', 'a', 'n', 'i', 'f', 'e', 's', 't', '.', 't', 'o', 'm', 'l']
}

/// Whether a file event reloads the plugin in the file's directory: the event
/// creates or modifies a file, and the file is a `manifest.toml`.
pub fn triggers_reload(creates_or_modifies: bool, file_name: Option<&str>) -> (r: bool)
    ensures
        r == (creates_or_modifies && (file_name matches Some(n) && n@ == manifest_file_name())),
{
    if !creates_or_modifies {
        return false;
    }
    match file_name {
        Some(n) => {
            let manifest = "manifest.toml".to_owned();
            proof {
                reveal_strlit("manifest.toml");
                assert(manifest@ =~= manifest_file_name());
            }
            n.to_owned() == manifest
        },
        None => false,
    }
}

} // verus!
