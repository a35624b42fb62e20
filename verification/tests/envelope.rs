use fm_synth::synth_core::{Envelope, EnvelopeState, Level, UNITY};

const RATE: u32 = 44_100;

fn triggered() -> Envelope {
    let mut envelope = Envelope::new(RATE);
    envelope.trigger();
    envelope
}

fn run(envelope: &mut Envelope, steps: u64) -> Level {
    let mut level = envelope.level();
    for _ in 0..steps {
        level = envelope.process();
    }
    level
}

/// `a < b` for two levels with positive denominators.
fn below(a: Level, b: Level) -> bool {
    assert!(a.den > 0 && b.den > 0);
    a.num * (b.den as i128) < b.num * (a.den as i128)
}

#[test]
fn level_is_zero_after_construction() {
    let envelope = Envelope::new(RATE);
    assert_eq!(envelope.state(), EnvelopeState::Idle);
    assert_eq!(envelope.level(), Level { num: 0, den: 1 });
    assert_eq!(envelope.time(), 0);
}

#[test]
fn idle_envelope_stays_silent() {
    let mut envelope = Envelope::new(RATE);
    for _ in 0..100 {
        assert_eq!(envelope.process(), Level { num: 0, den: 1 });
        assert_eq!(envelope.state(), EnvelopeState::Idle);
    }
    assert_eq!(envelope.time(), 100);
}

#[test]
fn attack_level_is_elapsed_over_attack() {
    let mut envelope = triggered();
    assert_eq!(envelope.process(), Level { num: 1_000_000, den: 441_000_000 });
    assert_eq!(envelope.process(), Level { num: 2_000_000, den: 441_000_000 });
    assert_eq!(run(&mut envelope, 218), Level { num: 220_000_000, den: 441_000_000 });
    assert_eq!(envelope.state(), EnvelopeState::Attack);
    assert_eq!(envelope.time(), 220);
}

#[test]
fn attack_level_rises_strictly_until_decay() {
    let mut envelope = triggered();
    let mut previous = envelope.level();
    let mut steps = 0;
    while envelope.state() == EnvelopeState::Attack {
        let level = envelope.process();
        assert!(below(previous, level));
        previous = level;
        steps += 1;
    }
    assert_eq!(steps, 441);
    assert_eq!(envelope.state(), EnvelopeState::Decay);
    assert_eq!(previous, Level { num: 441_000_000, den: 441_000_000 });
}

#[test]
fn attack_ends_after_exactly_ceil_of_attack_times_rate_steps() {
    let mut envelope = triggered();
    run(&mut envelope, 440);
    assert_eq!(envelope.state(), EnvelopeState::Attack);
    envelope.process();
    assert_eq!(envelope.state(), EnvelopeState::Decay);
    assert_eq!(envelope.time(), 0);
}

#[test]
fn attack_that_is_no_whole_number_of_samples_ends_on_the_next_sample() {
    // 10 ms at 48 001 Hz are 480.01 samples.
    let mut envelope = Envelope::new(48_001);
    envelope.trigger();
    run(&mut envelope, 480);
    assert_eq!(envelope.state(), EnvelopeState::Attack);
    let last = envelope.process();
    assert_eq!(envelope.state(), EnvelopeState::Decay);
    assert_eq!(last, Level { num: 481_000_000, den: 480_010_000 });
}

#[test]
fn release_while_idle_is_a_no_op() {
    let mut envelope = Envelope::new(RATE);
    run(&mut envelope, 7);
    envelope.release();
    assert_eq!(envelope.state(), EnvelopeState::Idle);
    assert_eq!(envelope.level(), Level { num: 0, den: 1 });
    assert_eq!(envelope.time(), 7);
    assert_eq!(envelope.process(), Level { num: 0, den: 1 });
    assert_eq!(envelope.state(), EnvelopeState::Idle);
}

#[test]
fn trigger_during_release_restarts_the_attack() {
    let mut envelope = triggered();
    run(&mut envelope, 441 + 4_410 + 10);
    assert_eq!(envelope.state(), EnvelopeState::Sustain);
    envelope.release();
    let level = run(&mut envelope, 1_000);
    assert_eq!(envelope.state(), EnvelopeState::Release);
    assert_eq!(envelope.time(), 1_000);
    envelope.trigger();
    assert_eq!(envelope.state(), EnvelopeState::Attack);
    assert_eq!(envelope.time(), 0);
    assert_eq!(envelope.level(), level);
    assert_eq!(envelope.process(), Level { num: 1_000_000, den: 441_000_000 });
}

#[test]
fn trigger_restarts_from_every_stage() {
    for steps in [0u64, 100, 441, 2_000, 441 + 4_410, 441 + 4_410 + 50] {
        let mut envelope = triggered();
        run(&mut envelope, steps);
        envelope.trigger();
        assert_eq!(envelope.state(), EnvelopeState::Attack);
        assert_eq!(envelope.time(), 0);
    }
}

#[test]
fn decay_runs_from_one_to_the_sustain_level() {
    let mut envelope = triggered();
    run(&mut envelope, 441);
    assert_eq!(envelope.state(), EnvelopeState::Decay);
    // 1 - (1 - 0.7) * (1 / 44100) / 0.1
    assert_eq!(
        envelope.process(),
        Level { num: 4_410_000_000 - 300_000, den: 4_410_000_000 }
    );
    let last = run(&mut envelope, 4_409);
    assert_eq!(envelope.state(), EnvelopeState::Sustain);
    assert_eq!(envelope.time(), 0);
    // 0.7 exactly
    assert_eq!(last, Level { num: 4_410_000_000 - 300_000 * 4_410, den: 4_410_000_000 });
    assert_eq!(last.num * 10, last.den as i128 * 7);
}

#[test]
fn sustain_holds_until_release() {
    let mut envelope = triggered();
    run(&mut envelope, 441 + 4_410);
    for _ in 0..10_000 {
        assert_eq!(envelope.process(), Level { num: 700_000, den: 1_000_000 });
        assert_eq!(envelope.state(), EnvelopeState::Sustain);
    }
}

#[test]
fn release_runs_from_the_sustain_level_to_silence() {
    let mut envelope = triggered();
    run(&mut envelope, 441 + 4_410 + 5);
    envelope.release();
    assert_eq!(envelope.state(), EnvelopeState::Release);
    assert_eq!(envelope.time(), 0);
    // 0.7 * (1 - (1 / 44100) / 0.5)
    assert_eq!(
        envelope.process(),
        Level {
            num: 700_000 * (22_050_000_000 - 1_000_000),
            den: 1_000_000 * 22_050_000_000,
        }
    );
    let mut previous = envelope.level();
    for _ in 0..22_048 {
        let level = envelope.process();
        assert!(below(level, previous));
        assert!(level.num > 0);
        previous = level;
    }
    assert_eq!(envelope.state(), EnvelopeState::Release);
    assert_eq!(envelope.process(), Level { num: 0, den: 1 });
    assert_eq!(envelope.state(), EnvelopeState::Idle);
    assert_eq!(envelope.time(), 0);
}

#[test]
fn release_from_attack_starts_at_once() {
    let mut envelope = triggered();
    run(&mut envelope, 100);
    envelope.release();
    assert_eq!(envelope.state(), EnvelopeState::Release);
    assert_eq!(envelope.time(), 0);
}

#[test]
fn zero_durations_pass_on_the_very_next_step() {
    let mut envelope = Envelope::new(RATE);
    envelope.set_contour(0, 0, 500_000, 0);
    envelope.trigger();
    // elapsed / 0: no finite level, and the stage is over
    assert_eq!(envelope.process(), Level { num: 1_000_000, den: 0 });
    assert_eq!(envelope.state(), EnvelopeState::Decay);
    assert_eq!(envelope.process(), Level { num: -500_000, den: 0 });
    assert_eq!(envelope.state(), EnvelopeState::Sustain);
    assert_eq!(envelope.process(), Level { num: 500_000, den: 1_000_000 });
    envelope.release();
    assert_eq!(envelope.process(), Level { num: 0, den: 1 });
    assert_eq!(envelope.state(), EnvelopeState::Idle);
}

#[test]
fn a_short_attack_overshoots_by_less_than_one_sample_of_ramp() {
    // 30 microseconds at 44.1 kHz are 1.323 samples.
    let mut envelope = Envelope::new(RATE);
    envelope.set_contour(30, 50, 250_000, 40);
    envelope.trigger();
    let first = envelope.process();
    assert_eq!(first, Level { num: 1_000_000, den: 1_323_000 });
    assert_eq!(envelope.state(), EnvelopeState::Attack);
    let second = envelope.process();
    assert_eq!(second, Level { num: 2_000_000, den: 1_323_000 });
    assert_eq!(envelope.state(), EnvelopeState::Decay);
    // above one, by less than (1 / rate) / attack
    assert!(second.num > second.den as i128);
    assert!(second.num < second.den as i128 + UNITY as i128);
}

#[test]
fn a_short_decay_undershoots_by_less_than_one_sample_of_ramp() {
    let mut envelope = Envelope::new(RATE);
    envelope.set_contour(30, 50, 250_000, 40);
    envelope.trigger();
    envelope.process();
    envelope.process();
    // 50 microseconds are 2.205 samples
    let mut level = envelope.process();
    assert_eq!(level, Level { num: 2_205_000 - 750_000, den: 2_205_000 });
    level = envelope.process();
    assert_eq!(envelope.state(), EnvelopeState::Decay);
    level = {
        let _ = level;
        envelope.process()
    };
    assert_eq!(envelope.state(), EnvelopeState::Sustain);
    assert_eq!(level, Level { num: 2_205_000 - 3 * 750_000, den: 2_205_000 });
    // below the sustain level of 0.25, by less than 0.75 * (1 / rate) / decay
    assert!(level.num * 4 < level.den as i128);
    assert!(level.num * 1_000_000 >= 250_000 * level.den as i128 - 750_000 * 1_000_000);
}

#[test]
fn set_contour_keeps_stage_time_and_level() {
    let mut envelope = triggered();
    let level = run(&mut envelope, 10);
    envelope.set_contour(20_000, 100_000, 700_000, 500_000);
    assert_eq!(envelope.state(), EnvelopeState::Attack);
    assert_eq!(envelope.time(), 10);
    assert_eq!(envelope.level(), level);
    assert_eq!(envelope.process(), Level { num: 11_000_000, den: 882_000_000 });
}

#[test]
fn the_envelope_keeps_its_sample_rate() {
    let mut envelope = Envelope::new(48_000);
    assert_eq!(envelope.sample_rate(), 48_000);
    envelope.trigger();
    run(&mut envelope, 1_000);
    envelope.release();
    run(&mut envelope, 30_000);
    assert_eq!(envelope.sample_rate(), 48_000);
}
