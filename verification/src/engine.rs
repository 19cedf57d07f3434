//! Meters that the audio thread publishes for the user interface.

use vstd::prelude::*;
use std::sync::atomic::AtomicU32;
use std::sync::Mutex;

verus! {

#[verifier::external_type_specification]
#[verifier::external_body]
#[verifier::reject_recursive_types(T)]
pub struct ExMutex<T: ?Sized>(Mutex<T>);

/// Levels and graph facts the audio thread publishes. Peaks and the latency
/// are bit patterns of single-precision numbers.
pub struct Meters {
    pub mic_peak: AtomicU32,
    pub out_peak: AtomicU32,
    pub quantum: AtomicU32,
    pub latency_ms: AtomicU32,
    pub version: Mutex<String>,
}

/// Calls `Mutex::lock` on the version slot and clones the text it guards;
/// `None` when the lock is poisoned. What the slot holds depends on the
/// audio thread, so nothing is stated of the text.
#[verifier::external_body]
fn read_version_slot(slot: &Mutex<String>) -> Option<String> {
    slot.lock().ok().map(|v| v.clone())
}

/// The version text to show for what was read from the version slot:
/// the text itself, or `unknown` when it could not be read.
pub fn version_or_unknown(read: Option<String>) -> (r: String)
    ensures
        match read {
            Some(v) => r@ == v@,
            None => r@ == "unknown"@,
        },
{
    match read {
        Some(v) => v,
        None => String::from_str("unknown"),
    }
}

impl Meters {
    /// Fresh meters: zero levels, no quantum, no version known.
    pub fn new() -> Self {
        Meters {
            mic_peak: AtomicU32::new(0),
            out_peak: AtomicU32::new(0),
            quantum: AtomicU32::new(0),
            latency_ms: AtomicU32::new(0),
            version: new_version_slot(),
        }
    }

    /// The last quantum, in frames, that the audio graph asked for.
    pub fn quantum(&self) -> u32 {
        self.quantum.load(std::sync::atomic::Ordering::Relaxed)
    }

    /// The PipeWire version the graph reported, or `unknown`.
    pub fn version(&self) -> String {
        version_or_unknown(read_version_slot(&self.version))
    }
}

/// Calls `Mutex::new` with an empty text.
#[verifier::external_body]
fn new_version_slot() -> Mutex<String> {
    Mutex::new(String::new())
}

impl Default for Meters {
    fn default() -> Self {
        Meters::new()
    }
}

} // verus!
