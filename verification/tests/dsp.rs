use openwire::dsp::{DspBits, noise_step, round_quotient_to_even, DspSharedParams, FifoCursor, NOISE_SEED, SAMPLE_RATE};
use openwire::engine::{version_or_unknown, Meters};
use openwire::player::sample_duration_ms;
use openwire::state::Settings;
use std::sync::atomic::Ordering;

fn f(a: &std::sync::atomic::AtomicU32) -> f32 {
    f32::from_bits(a.load(Ordering::Relaxed))
}

#[test]
fn default_parameters() {
    let p = DspSharedParams::new_defaults();
    assert!(!p.pitch_enabled.load(Ordering::Relaxed));
    assert_eq!(f(&p.pitch_semitones), 0.0);
    assert_eq!(f(&p.formant_shift), 1.0);
    assert_eq!(f(&p.eq_mid_freq), 1200.0);
    assert_eq!(f(&p.eq_mid_q), 1.2);
    assert_eq!(f(&p.radio_bp_low_hz), 380.0);
    assert_eq!(f(&p.radio_bp_high_hz), 3600.0);
    assert_eq!(f(&p.radio_noise_db), -96.0);
    assert!(p.ducking_enabled.load(Ordering::Relaxed));
    assert_eq!(f(&p.duck_atten_db), -12.0);
    assert_eq!(f(&p.duck_release_ms), 120.0);
    assert_eq!(f(&p.monitor_volume), 1.0);
    assert!(p.monitor_enabled.load(Ordering::Relaxed));
    assert_eq!(f(&p.stream_volume), 1.0);
    assert!(p.noise_gate_enabled.load(Ordering::Relaxed));
    assert_eq!(f(&p.noise_gate_db), -52.0);
    assert_eq!(SAMPLE_RATE, 48_000);
}

#[test]
fn disable_effects_resets_voice() {
    let p = DspSharedParams::new_defaults();
    p.pitch_enabled.store(true, Ordering::Relaxed);
    p.radio_enabled.store(true, Ordering::Relaxed);
    p.formant_shift.store(0.7f32.to_bits(), Ordering::Relaxed);
    p.eq_mid_gain_db.store(6.0f32.to_bits(), Ordering::Relaxed);
    p.duck_atten_db.store((-30.0f32).to_bits(), Ordering::Relaxed);
    p.disable_effects();
    assert!(!p.pitch_enabled.load(Ordering::Relaxed));
    assert!(!p.radio_enabled.load(Ordering::Relaxed));
    assert_eq!(f(&p.formant_shift), 1.0);
    assert_eq!(f(&p.eq_mid_gain_db), 0.0);
    assert_eq!(f(&p.duck_atten_db), -30.0);
}

#[test]
fn noise_generator_steps() {
    let mut x = NOISE_SEED;
    for _ in 0..1000 {
        let y = noise_step(x);
        let mut r = x;
        r ^= r << 13;
        r ^= r >> 17;
        r ^= r << 5;
        assert_eq!(y, r);
        assert_ne!(y, 0);
        x = y;
    }
    assert_eq!(noise_step(0), 0);
    assert_eq!(noise_step(1), 0x0004_2021);
}

#[test]
fn fifo_cursor_cycles() {
    let mut c = FifoCursor::new(1024, 256);
    assert_eq!(c.write_index(), 768);
    assert_eq!(c.read_index(), 0);
    let mut blocks = 0;
    for _ in 0..512 {
        assert!(c.write_index() < 1024);
        assert!(c.read_index() < 256);
        if c.advance() {
            blocks += 1;
        }
    }
    assert_eq!(blocks, 2);
    assert_eq!(c.write_index(), 768);
    c.advance();
    c.reset();
    assert_eq!(c.write_index(), 768);
}

#[test]
fn quotient_rounds_to_even() {
    assert_eq!(round_quotient_to_even(0), 0);
    assert_eq!(round_quotient_to_even(3), 4);
    assert_eq!(round_quotient_to_even(4), 4);
    assert_eq!(round_quotient_to_even(-3), -4);
    assert_eq!(round_quotient_to_even(-2), -2);
    assert_eq!(round_quotient_to_even(i32::MIN), i32::MIN);
}

#[test]
fn meters_start_empty() {
    let m = Meters::default();
    assert_eq!(m.quantum(), 0);
    assert_eq!(m.version(), "");
    *m.version.lock().unwrap() = "1.2.7".to_string();
    assert_eq!(m.version(), "1.2.7");
    m.quantum.store(64, Ordering::Relaxed);
    assert_eq!(m.quantum(), 64);
    assert_eq!(version_or_unknown(None), "unknown");
    assert_eq!(version_or_unknown(Some("x".into())), "x");
}

#[test]
fn settings_default_on() {
    let s = Settings::default();
    assert!(s.ducking_enabled);
    assert!(s.monitor_enabled);
}

#[test]
fn sample_durations_round_down_to_milliseconds() {
    assert_eq!(sample_duration_ms(0), 0);
    assert_eq!(sample_duration_ms(SAMPLE_RATE as usize), 1000);
    assert_eq!(sample_duration_ms(SAMPLE_RATE as usize - 1), 999);
    assert_eq!(sample_duration_ms(48), 1);
    assert_eq!(sample_duration_ms(47), 0);
}

#[test]
fn default_bits_are_the_neutral_voice() {
    let d = DspBits::defaults();
    assert!(!d.pitch_enabled);
    assert_eq!(f32::from_bits(d.pitch_semitones), 0.0);
    assert_eq!(f32::from_bits(d.formant_shift), 1.0);
    assert_eq!(f32::from_bits(d.eq_mid_freq), 1200.0);
    assert_eq!(f32::from_bits(d.eq_mid_q), 1.2);
    assert!(!d.radio_enabled);
    assert_eq!(f32::from_bits(d.radio_bp_low_hz), 380.0);
    assert_eq!(f32::from_bits(d.radio_bp_high_hz), 3600.0);
    assert_eq!(f32::from_bits(d.radio_noise_db), -96.0);
    assert!(d.ducking_enabled);
    assert_eq!(f32::from_bits(d.duck_atten_db), -12.0);
    assert_eq!(f32::from_bits(d.duck_release_ms), 120.0);
    assert_eq!(f32::from_bits(d.monitor_volume), 1.0);
    assert!(d.monitor_enabled);
    assert_eq!(f32::from_bits(d.stream_volume), 1.0);
    assert!(d.noise_gate_enabled);
    assert_eq!(f32::from_bits(d.noise_gate_db), -52.0);
    assert_eq!(DspBits::default(), d);
    assert_eq!(d.without_effects(), d);
}

#[test]
fn turning_effects_off_keeps_routing() {
    let mut b = DspBits::defaults();
    b.pitch_enabled = true;
    b.pitch_semitones = 3.5f32.to_bits();
    b.formant_shift = 1.3f32.to_bits();
    b.eq_low_db = 4.0f32.to_bits();
    b.eq_mid_gain_db = (-2.0f32).to_bits();
    b.eq_high_db = 6.0f32.to_bits();
    b.radio_enabled = true;
    b.ducking_enabled = false;
    b.monitor_volume = 0.5f32.to_bits();
    let off = b.without_effects();
    assert!(!off.pitch_enabled && !off.radio_enabled);
    assert_eq!(f32::from_bits(off.formant_shift), 1.0);
    assert_eq!(f32::from_bits(off.eq_low_db), 0.0);
    assert_eq!(f32::from_bits(off.eq_mid_gain_db), 0.0);
    assert_eq!(f32::from_bits(off.eq_high_db), 0.0);
    assert_eq!(off.pitch_semitones, b.pitch_semitones);
    assert!(!off.ducking_enabled);
    assert_eq!(off.monitor_volume, b.monitor_volume);
    assert_eq!(off.without_effects(), off);
}
