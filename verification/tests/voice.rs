use fm_synth::synth_core::{EnvelopeState, FMParams, FMSynth, Level, Sample, UNITY};

const RATE: u32 = 44_100;

fn sine(phase: i128, period: u128) -> i32 {
    let turns = phase as f64 / period as f64;
    ((2.0 * std::f64::consts::PI * turns).sin() * UNITY as f64).round() as i32
}

fn step(synth: &mut FMSynth) -> Sample {
    let period = synth.oscillator().period();
    let modulator = sine(synth.oscillator().modulator_phase(), period);
    let carrier = sine(synth.oscillator().carrier_phase(), period);
    synth.next_sample(modulator, carrier)
}

/// Plays a fixed score and returns every sample.
fn performance() -> Vec<Sample> {
    let mut synth = FMSynth::new(RATE, FMParams::default());
    let mut samples = Vec::new();
    for n in 0..30_000 {
        match n {
            100 => synth.note_on(),
            9_000 => synth.set_params(FMParams {
                carrier_freq: 523_250_000,
                modulator_freq: 1_046_500_000,
                modulation_index: 3_000_000,
                amplitude: 400_000,
            }),
            12_000 => synth.note_off(),
            15_000 => synth.note_on(),
            20_000 => synth.note_off(),
            _ => {}
        }
        samples.push(step(&mut synth));
    }
    samples
}

#[test]
fn new_voice_is_silent() {
    let mut synth = FMSynth::new(RATE, FMParams::default());
    assert_eq!(synth.envelope().state(), EnvelopeState::Idle);
    assert_eq!(synth.oscillator().carrier_phase(), 0);
    assert_eq!(synth.oscillator().modulator_phase(), 0);
    for _ in 0..1_000 {
        let sample = step(&mut synth);
        assert_eq!(sample.envelope, Level { num: 0, den: 1 });
    }
}

#[test]
fn sample_is_oscillator_output_times_envelope_level() {
    let mut synth = FMSynth::new(RATE, FMParams::default());
    synth.note_on();
    let sample = synth.next_sample(0, 1_000_000);
    assert_eq!(
        sample,
        Sample { oscillator: 300_000_000_000, envelope: Level { num: 1_000_000, den: 441_000_000 } }
    );
    let sample = synth.next_sample(1_000_000, -500_000);
    assert_eq!(
        sample,
        Sample { oscillator: -150_000_000_000, envelope: Level { num: 2_000_000, den: 441_000_000 } }
    );
}

#[test]
fn note_on_and_note_off_drive_the_envelope() {
    let mut synth = FMSynth::new(RATE, FMParams::default());
    synth.note_off();
    assert_eq!(synth.envelope().state(), EnvelopeState::Idle);
    synth.note_on();
    assert_eq!(synth.envelope().state(), EnvelopeState::Attack);
    for _ in 0..441 {
        step(&mut synth);
    }
    assert_eq!(synth.envelope().state(), EnvelopeState::Decay);
    synth.note_off();
    assert_eq!(synth.envelope().state(), EnvelopeState::Release);
    assert_eq!(synth.envelope().time(), 0);
    synth.note_on();
    assert_eq!(synth.envelope().state(), EnvelopeState::Attack);
}

#[test]
fn set_params_leaves_envelope_and_phases_alone() {
    let mut synth = FMSynth::new(RATE, FMParams::default());
    synth.note_on();
    for _ in 0..200 {
        step(&mut synth);
    }
    let carrier = synth.oscillator().carrier_phase();
    let modulator = synth.oscillator().modulator_phase();
    let level = synth.envelope().level();
    let params = FMParams {
        carrier_freq: 110_000_000,
        modulator_freq: 110_000_000,
        modulation_index: 1_500_000,
        amplitude: 500_000,
    };
    synth.set_params(params);
    assert_eq!(synth.oscillator().params(), params);
    assert_eq!(synth.oscillator().carrier_phase(), carrier);
    assert_eq!(synth.oscillator().modulator_phase(), modulator);
    assert_eq!(synth.envelope().state(), EnvelopeState::Attack);
    assert_eq!(synth.envelope().time(), 200);
    assert_eq!(synth.envelope().level(), level);
}

#[test]
fn two_runs_give_identical_samples() {
    let first = performance();
    let second = performance();
    assert_eq!(first.len(), 30_000);
    assert_eq!(first, second);
    assert!(first.iter().any(|sample| sample.oscillator != 0 && sample.envelope.num != 0));
}

#[test]
fn update_with_the_same_values_keeps_the_samples() {
    let mut left_alone = FMSynth::new(RATE, FMParams::default());
    let mut updated = FMSynth::new(RATE, FMParams::default());
    left_alone.note_on();
    updated.note_on();
    for n in 0..3_000 {
        if n == 1_000 || n == 1_001 {
            updated.set_params(FMParams::default());
        }
        assert_eq!(step(&mut left_alone), step(&mut updated));
    }
}
