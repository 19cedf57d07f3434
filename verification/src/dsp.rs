//! Shared parameters of the voice chain and the radio effect's noise source.
//!
//! The chain's numeric parameters are linear or logarithmic quantities kept
//! as the bit patterns of IEEE-754 single-precision numbers in atomics, so
//! that the control side and the audio thread can share them without locks.

use vstd::prelude::*;
use std::sync::atomic::{AtomicBool, AtomicU32};
use std::sync::Arc;

verus! {

/// The sample rate of every stream of the audio graph, in Hz.
pub const SAMPLE_RATE: u32 = 48_000;

/// Bit pattern of 0.0.
pub const BITS_ZERO: u32 = 0x0000_0000;
/// Bit pattern of 1.0.
pub const BITS_ONE: u32 = 0x3F80_0000;
/// Bit pattern of 1200.0 (Hz, centre of the mid band).
pub const BITS_MID_FREQ: u32 = 0x4496_0000;
/// Bit pattern of 1.2 (Q of the mid band).
pub const BITS_MID_Q: u32 = 0x3F99_999A;
/// Bit pattern of 380.0 (Hz, low edge of the radio band).
pub const BITS_RADIO_LOW: u32 = 0x43BE_0000;
/// Bit pattern of 3600.0 (Hz, high edge of the radio band).
pub const BITS_RADIO_HIGH: u32 = 0x4561_0000;
/// Bit pattern of -96.0 (dB, radio noise floor).
pub const BITS_RADIO_NOISE: u32 = 0xC2C0_0000;
/// Bit pattern of -12.0 (dB, ducking attenuation).
pub const BITS_DUCK_ATTEN: u32 = 0xC140_0000;
/// Bit pattern of 120.0 (ms, ducking release).
pub const BITS_DUCK_RELEASE: u32 = 0x42F0_0000;
/// Bit pattern of -52.0 (dB, noise gate threshold).
pub const BITS_GATE: u32 = 0xC250_0000;

/// The parameters of the voice chain as plain values: each switch, and the
/// bit pattern of each number.
#[derive(Clone, Copy, Debug, PartialEq, Eq, Structural)]
pub struct DspBits {
    pub pitch_enabled: bool,
    pub pitch_semitones: u32,
    pub formant_shift: u32,
    pub eq_low_db: u32,
    pub eq_mid_freq: u32,
    pub eq_mid_gain_db: u32,
    pub eq_mid_q: u32,
    pub eq_high_db: u32,
    pub radio_enabled: bool,
    pub radio_bp_low_hz: u32,
    pub radio_bp_high_hz: u32,
    pub radio_drive: u32,
    pub radio_noise_db: u32,
    pub ducking_enabled: bool,
    pub duck_atten_db: u32,
    pub duck_release_ms: u32,
    pub monitor_volume: u32,
    pub monitor_enabled: bool,
    pub stream_volume: u32,
    pub noise_gate_enabled: bool,
    pub noise_gate_db: u32,
}

/// The neutral voice: no pitch or formant shift, flat equaliser, radio
/// effect off, ducking by 12 dB with a 120 ms release, monitoring and the
/// noise gate (at -52 dB) on, unit volumes.
pub open spec fn default_bits() -> DspBits {
    DspBits {
        pitch_enabled: false,
        pitch_semitones: BITS_ZERO,
        formant_shift: BITS_ONE,
        eq_low_db: BITS_ZERO,
        eq_mid_freq: BITS_MID_FREQ,
        eq_mid_gain_db: BITS_ZERO,
        eq_mid_q: BITS_MID_Q,
        eq_high_db: BITS_ZERO,
        radio_enabled: false,
        radio_bp_low_hz: BITS_RADIO_LOW,
        radio_bp_high_hz: BITS_RADIO_HIGH,
        radio_drive: BITS_ZERO,
        radio_noise_db: BITS_RADIO_NOISE,
        ducking_enabled: true,
        duck_atten_db: BITS_DUCK_ATTEN,
        duck_release_ms: BITS_DUCK_RELEASE,
        monitor_volume: BITS_ONE,
        monitor_enabled: true,
        stream_volume: BITS_ONE,
        noise_gate_enabled: true,
        noise_gate_db: BITS_GATE,
    }
}

/// The parameters with the voice effects turned off: no pitch shift, no
/// radio effect, no formant shift and a flat equaliser; everything else
/// is kept.
pub open spec fn effects_off(b: DspBits) -> DspBits {
    DspBits {
        pitch_enabled: false,
        radio_enabled: false,
        formant_shift: BITS_ONE,
        eq_low_db: BITS_ZERO,
        eq_mid_gain_db: BITS_ZERO,
        eq_high_db: BITS_ZERO,
        ..b
    }
}

impl DspBits {
    /// The parameters of the neutral voice.
    pub fn defaults() -> (r: DspBits)
        ensures
            r == default_bits(),
    {
        DspBits {
            pitch_enabled: false,
            pitch_semitones: BITS_ZERO,
            formant_shift: BITS_ONE,
            eq_low_db: BITS_ZERO,
            eq_mid_freq: BITS_MID_FREQ,
            eq_mid_gain_db: BITS_ZERO,
            eq_mid_q: BITS_MID_Q,
            eq_high_db: BITS_ZERO,
            radio_enabled: false,
            radio_bp_low_hz: BITS_RADIO_LOW,
            radio_bp_high_hz: BITS_RADIO_HIGH,
            radio_drive: BITS_ZERO,
            radio_noise_db: BITS_RADIO_NOISE,
            ducking_enabled: true,
            duck_atten_db: BITS_DUCK_ATTEN,
            duck_release_ms: BITS_DUCK_RELEASE,
            monitor_volume: BITS_ONE,
            monitor_enabled: true,
            stream_volume: BITS_ONE,
            noise_gate_enabled: true,
            noise_gate_db: BITS_GATE,
        }
    }

    /// These parameters with the voice effects turned off.
    pub fn without_effects(&self) -> (r: DspBits)
        ensures
            r == effects_off(*self),
    {
        DspBits {
            pitch_enabled: false,
            radio_enabled: false,
            formant_shift: BITS_ONE,
            eq_low_db: BITS_ZERO,
            eq_mid_gain_db: BITS_ZERO,
            eq_high_db: BITS_ZERO,
            ..*self
        }
    }
}

impl Default for DspBits {
    fn default() -> (r: Self)
        ensures
            r == default_bits(),
    {
        DspBits::defaults()
    }
}

/// The neutral voice has no effects on: turning them off changes nothing.
pub proof fn law_defaults_have_no_effects()
    ensures
        effects_off(default_bits()) == default_bits(),
{
}

/// Turning the effects off twice is turning them off once, and it keeps
/// ducking, monitoring, the noise gate, the volumes and the radio band as
/// they were.
pub proof fn law_effects_off_keeps_routing(b: DspBits)
    ensures
        effects_off(effects_off(b)) == effects_off(b),
        effects_off(b).pitch_semitones == b.pitch_semitones,
        effects_off(b).eq_mid_freq == b.eq_mid_freq,
        effects_off(b).eq_mid_q == b.eq_mid_q,
        effects_off(b).radio_bp_low_hz == b.radio_bp_low_hz,
        effects_off(b).radio_bp_high_hz == b.radio_bp_high_hz,
        effects_off(b).radio_drive == b.radio_drive,
        effects_off(b).radio_noise_db == b.radio_noise_db,
        effects_off(b).ducking_enabled == b.ducking_enabled,
        effects_off(b).duck_atten_db == b.duck_atten_db,
        effects_off(b).duck_release_ms == b.duck_release_ms,
        effects_off(b).monitor_volume == b.monitor_volume,
        effects_off(b).monitor_enabled == b.monitor_enabled,
        effects_off(b).stream_volume == b.stream_volume,
        effects_off(b).noise_gate_enabled == b.noise_gate_enabled,
        effects_off(b).noise_gate_db == b.noise_gate_db,
{
}

/// The parameters of the voice chain, shared between the control side and
/// the audio thread. Every numeric field holds the bit pattern of a
/// single-precision number.
pub struct DspSharedParams {
    pub pitch_enabled: AtomicBool,
    pub pitch_semitones: AtomicU32,
    pub formant_shift: AtomicU32,
    pub eq_low_db: AtomicU32,
    pub eq_mid_freq: AtomicU32,
    pub eq_mid_gain_db: AtomicU32,
    pub eq_mid_q: AtomicU32,
    pub eq_high_db: AtomicU32,
    pub radio_enabled: AtomicBool,
    pub radio_bp_low_hz: AtomicU32,
    pub radio_bp_high_hz: AtomicU32,
    pub radio_drive: AtomicU32,
    pub radio_noise_db: AtomicU32,
    pub ducking_enabled: AtomicBool,
    pub duck_atten_db: AtomicU32,
    pub duck_release_ms: AtomicU32,
    pub monitor_volume: AtomicU32,
    pub monitor_enabled: AtomicBool,
    pub stream_volume: AtomicU32,
    pub noise_gate_enabled: AtomicBool,
    pub noise_gate_db: AtomicU32,
}

impl DspSharedParams {
    /// Shared parameters that hold the neutral voice, `DspBits::defaults()`:
    /// no pitch or formant shift, flat equaliser, radio effect off, ducking
    /// by 12 dB with a 120 ms release, monitoring and the noise gate (at
    /// -52 dB) on, unit volumes.
    pub fn new_defaults() -> Arc<Self> {
        let d = DspBits::defaults();
        let p = DspSharedParams {
            pitch_enabled: AtomicBool::new(d.pitch_enabled),
            pitch_semitones: AtomicU32::new(d.pitch_semitones),
            formant_shift: AtomicU32::new(d.formant_shift),
            eq_low_db: AtomicU32::new(d.eq_low_db),
            eq_mid_freq: AtomicU32::new(d.eq_mid_freq),
            eq_mid_gain_db: AtomicU32::new(d.eq_mid_gain_db),
            eq_mid_q: AtomicU32::new(d.eq_mid_q),
            eq_high_db: AtomicU32::new(d.eq_high_db),
            radio_enabled: AtomicBool::new(d.radio_enabled),
            radio_bp_low_hz: AtomicU32::new(d.radio_bp_low_hz),
            radio_bp_high_hz: AtomicU32::new(d.radio_bp_high_hz),
            radio_drive: AtomicU32::new(d.radio_drive),
            radio_noise_db: AtomicU32::new(d.radio_noise_db),
            ducking_enabled: AtomicBool::new(d.ducking_enabled),
            duck_atten_db: AtomicU32::new(d.duck_atten_db),
            duck_release_ms: AtomicU32::new(d.duck_release_ms),
            monitor_volume: AtomicU32::new(d.monitor_volume),
            monitor_enabled: AtomicBool::new(d.monitor_enabled),
            stream_volume: AtomicU32::new(d.stream_volume),
            noise_gate_enabled: AtomicBool::new(d.noise_gate_enabled),
            noise_gate_db: AtomicU32::new(d.noise_gate_db),
        };
        Arc::new(p)
    }

    /// Turns the voice effects off: no pitch shift, no radio effect, no
    /// formant shift and a flat equaliser, the values that
    /// `DspBits::without_effects` gives. Ducking, monitoring, noise gating
    /// and volumes keep their settings.
    pub fn disable_effects(&self) {
        let off = DspBits::defaults().without_effects();
        self.pitch_enabled.store(off.pitch_enabled, std::sync::atomic::Ordering::Relaxed);
        self.radio_enabled.store(off.radio_enabled, std::sync::atomic::Ordering::Relaxed);
        self.formant_shift.store(off.formant_shift, std::sync::atomic::Ordering::Relaxed);
        self.eq_low_db.store(off.eq_low_db, std::sync::atomic::Ordering::Relaxed);
        self.eq_mid_gain_db.store(off.eq_mid_gain_db, std::sync::atomic::Ordering::Relaxed);
        self.eq_high_db.store(off.eq_high_db, std::sync::atomic::Ordering::Relaxed);
    }
}

/// The seed of the radio effect's noise generator.
pub const NOISE_SEED: u32 = 0x2545_F491;

/// One step of the 32-bit xorshift generator (shifts 13, 17, 5).
pub open spec fn xorshift32(x: u32) -> u32 {
    let a = x ^ (x << 13u32);
    let b = a ^ (a >> 17u32);
    b ^ (b << 5u32)
}

/// The next state of the noise generator.
pub fn noise_step(state: u32) -> (r: u32)
    ensures
        r == xorshift32(state),
{
    let mut x = state;
    x = x ^ (x << 13u32);
    x = x ^ (x >> 17u32);
    x = x ^ (x << 5u32);
    x
}

/// The noise generator never falls into the all-zero state, from which it
/// could not leave: a non-zero state steps to a non-zero state.
pub proof fn lemma_noise_never_sticks(x: u32)
    requires
        x != 0,
    ensures
        xorshift32(x) != 0,
{
    assert(x != 0 ==> xorshift32(x) != 0) by (bit_vector);
}

/// The position of the pitch shifter's sample FIFOs. Each sample is written
/// at `write_index` of the input FIFO while the sample at `read_index` of
/// the output FIFO goes out; once the input FIFO is full, a block is due and
/// the position falls back to the latency.
pub struct FifoCursor {
    rover: usize,
    latency: usize,
    frame: usize,
}

impl FifoCursor {
    /// The cursor stays inside the FIFOs: `latency <= rover < frame`.
    pub closed spec fn wf(&self) -> bool {
        self.latency <= self.rover < self.frame
    }

    /// The frame length.
    pub closed spec fn spec_frame(&self) -> usize {
        self.frame
    }

    /// The step between blocks: `frame - latency`.
    pub closed spec fn spec_step(&self) -> int {
        self.frame - self.latency
    }

    /// The write position.
    pub closed spec fn spec_rover(&self) -> int {
        self.rover as int
    }

    /// A cursor for FIFOs of `frame` samples that advance `step` samples per
    /// block; it starts at the latency `frame - step`.
    pub fn new(frame: usize, step: usize) -> (r: FifoCursor)
        requires
            0 < step <= frame,
        ensures
            r.wf(),
            r.spec_frame() == frame,
            r.spec_step() == step,
            r.spec_rover() == frame - step,
    {
        FifoCursor { rover: frame - step, latency: frame - step, frame }
    }

    /// Where the next input sample goes; always inside the input FIFO.
    pub fn write_index(&self) -> (r: usize)
        requires
            self.wf(),
        ensures
            r == self.spec_rover(),
            r < self.spec_frame(),
    {
        self.rover
    }

    /// Where the next output sample comes from; always inside the first
    /// `step` samples of the output FIFO.
    pub fn read_index(&self) -> (r: usize)
        requires
            self.wf(),
        ensures
            r == self.spec_rover() - (self.spec_frame() - self.spec_step()),
            r < self.spec_step(),
    {
        self.rover - self.latency
    }

    /// Moves on by one sample; returns whether the input FIFO is full, in
    /// which case a block is due and the cursor is back at the latency.
    pub fn advance(&mut self) -> (due: bool)
        requires
            old(self).wf(),
        ensures
            final(self).wf(),
            final(self).spec_frame() == old(self).spec_frame(),
            final(self).spec_step() == old(self).spec_step(),
            due == (old(self).spec_rover() + 1 >= old(self).spec_frame()),
            final(self).spec_rover() == (if due {
                old(self).spec_frame() - old(self).spec_step()
            } else {
                old(self).spec_rover() + 1
            }),
    {
        self.rover = self.rover + 1;
        if self.rover >= self.frame {
            self.rover = self.latency;
            true
        } else {
            false
        }
    }

    /// Back to the latency, as after a block.
    pub fn reset(&mut self)
        requires
            old(self).wf(),
        ensures
            final(self).wf(),
            final(self).spec_frame() == old(self).spec_frame(),
            final(self).spec_step() == old(self).spec_step(),
            final(self).spec_rover() == old(self).spec_frame() - old(self).spec_step(),
    {
        self.rover = self.latency;
    }
}

/// The even multiple of pi that a phase-unwrapping quotient is moved to: an
/// odd quotient goes one step away from zero.
pub open spec fn even_quotient(q: int) -> int {
    if q % 2 == 0 {
        q
    } else if q >= 0 {
        q + 1
    } else {
        q - 1
    }
}

/// Moves a phase-unwrapping quotient to the even multiple of pi.
pub fn round_quotient_to_even(qpd: i32) -> (r: i32)
    requires
        qpd < i32::MAX,
    ensures
        r == even_quotient(qpd as int),
        r % 2 == 0,
{
    let low = qpd & 1i32;
    assert(low == (if (qpd as int) % 2 == 0 { 0i32 } else { 1i32 })) by (bit_vector)
        requires
            low == qpd & 1i32;
    if qpd >= 0 {
        qpd + low
    } else {
        qpd - low
    }
}


} // verus!
