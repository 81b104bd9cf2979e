//! Core logic of a desktop pet companion: the pet state machine, the built-in
//! pets, sprite decoding, the statistics history, plugin bookkeeping, glyph
//! blending and the pointer/menu interaction rules.

pub mod pet;
pub mod text;
pub mod stats;
pub mod font;
pub mod plugin;
pub mod renderer;
