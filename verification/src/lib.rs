//! Verified core of the OpenWire soundboard: pad identifiers, soundboard
//! layout, hotkey bindings, voice scheduling and preset naming.

pub mod dsp;
pub mod engine;
pub mod hotkeys;
pub mod mixer;
pub mod player;
pub mod presets;
pub mod soundboard;
pub mod state;
pub mod text;
