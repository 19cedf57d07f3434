//! Application settings that persist between runs.

use vstd::prelude::*;

verus! {

/// The switches the user keeps between runs.
#[derive(Debug, Clone, Copy, PartialEq, Eq, Structural)]
pub struct Settings {
    /// Lower the microphone while pads play.
    pub ducking_enabled: bool,
    /// Let the user hear the processed microphone.
    pub monitor_enabled: bool,
}

/// The value a missing switch takes: on.
pub fn yes() -> (r: bool)
    ensures
        r,
{
    true
}

impl Default for Settings {
    fn default() -> (r: Self)
        ensures
            r.ducking_enabled,
            r.monitor_enabled,
    {
        Settings { ducking_enabled: yes(), monitor_enabled: yes() }
    }
}

} // verus!
