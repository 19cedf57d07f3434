//! Facts about decoded sounds.

use vstd::prelude::*;
use crate::dsp::SAMPLE_RATE;

verus! {

/// The duration in milliseconds, cut to 32 bits, of `len` samples at the
/// graph's rate, rounded down.
pub open spec fn duration_ms_spec(len: int) -> int {
    (len * 1000 / (SAMPLE_RATE as int)) % 0x1_0000_0000
}

/// The duration of a decoded sound of `len` samples, in whole milliseconds.
pub fn sample_duration_ms(len: usize) -> (r: u32)
    requires
        len * 1000 <= u64::MAX,
    ensures
        r == duration_ms_spec(len as int),
{
    let wide: u64 = len as u64;
    let ms: u64 = wide * 1000 / (SAMPLE_RATE as u64);
    let r = (ms % 0x1_0000_0000u64) as u32;
    r
}

} // verus!
