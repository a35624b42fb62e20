use fm_synth::sequencer::{push_note, schedule_melody, transpose, Action};
use fm_synth::synth_core::FMParams;
use fm_synth::synth_data::{get_melodies, get_presets};

fn bell() -> FMParams {
    get_presets()[0].1
}

#[test]
fn transposing_to_concert_pitch_changes_nothing() {
    assert_eq!(transpose(440_000_000, 440_000_000), 440_000_000);
    assert_eq!(transpose(1_320_000_000, 440_000_000), 1_320_000_000);
    assert_eq!(transpose(-5, 440_000_000), -5);
}

#[test]
fn transposing_scales_by_the_note_over_concert_pitch() {
    assert_eq!(transpose(440_000_000, 880_000_000), 880_000_000);
    assert_eq!(transpose(880_000_000, 220_000_000), 440_000_000);
    assert_eq!(transpose(440_000_000, 261_630_000), 261_630_000);
    // 567 Hz * 261.63 / 440 = 337.1459318... Hz
    assert_eq!(transpose(567_000_000, 261_630_000), 337_145_931);
    assert_eq!(transpose(110_000_000, 130_810_000), 32_702_500);
    assert_eq!(transpose(440_000_000, 0), 0);
}

#[test]
fn transposing_rounds_towards_zero() {
    assert_eq!(transpose(1, 439_999_999), 0);
    assert_eq!(transpose(-1, 439_999_999), 0);
    assert_eq!(transpose(3, 660_000_000), 4);
    assert_eq!(transpose(-3, 660_000_000), -4);
    assert_eq!(transpose(3, -660_000_000), -4);
    assert_eq!(transpose(-3, -660_000_000), 4);
}

#[test]
fn transposing_holds_at_the_end_of_the_range() {
    assert_eq!(transpose(i64::MAX, 880_000_000), i64::MAX);
    assert_eq!(transpose(i64::MIN, 880_000_000), i64::MIN);
    assert_eq!(transpose(i64::MIN, i64::MIN), i64::MAX);
    assert_eq!(transpose(i64::MAX, i64::MIN), i64::MIN);
}

#[test]
fn tune_moves_both_frequencies_and_nothing_else() {
    let metallic = get_presets()[9].1;
    assert_eq!(
        metallic.tune(261_630_000),
        FMParams {
            carrier_freq: 261_630_000,
            modulator_freq: 337_145_931,
            modulation_index: 9_000_000,
            amplitude: 300_000,
        }
    );
}

#[test]
fn a_note_sounds_for_four_fifths_of_its_duration() {
    let mut actions = vec![Action::NoteOff];
    push_note(&mut actions, bell(), "A5", 500);
    assert_eq!(
        actions,
        vec![
            Action::NoteOff,
            Action::NoteOn(FMParams {
                carrier_freq: 880_000_000,
                modulator_freq: 880_000_000,
                modulation_index: 7_000_000,
                amplitude: 300_000,
            }),
            Action::Wait(400),
            Action::NoteOff,
            Action::Wait(100),
        ]
    );
}

#[test]
fn note_shares_round_down() {
    let mut actions = Vec::new();
    push_note(&mut actions, bell(), "A4", 7);
    assert_eq!(actions[1], Action::Wait(5));
    assert_eq!(actions[3], Action::Wait(1));
    let mut actions = Vec::new();
    push_note(&mut actions, bell(), "A4", u64::MAX);
    assert_eq!(actions[1], Action::Wait(14_757_395_258_967_641_292));
    assert_eq!(actions[3], Action::Wait(3_689_348_814_741_910_323));
    let mut actions = Vec::new();
    push_note(&mut actions, bell(), "A4", 0);
    assert_eq!(actions[1], Action::Wait(0));
    assert_eq!(actions[3], Action::Wait(0));
}

#[test]
fn a_rest_is_one_wait() {
    let mut actions = Vec::new();
    push_note(&mut actions, bell(), "REST", 300);
    assert_eq!(actions, vec![Action::Wait(300)]);
}

#[test]
fn an_empty_melody_is_only_the_tail() {
    assert_eq!(schedule_melody(bell(), &Vec::new()), vec![Action::Wait(500)]);
}

#[test]
fn a_melody_is_its_notes_and_the_tail() {
    let melody = vec![("A4", 200), ("REST", 100), ("A3", 150)];
    let on = |frequency: i64| {
        Action::NoteOn(FMParams {
            carrier_freq: frequency,
            modulator_freq: frequency,
            modulation_index: 7_000_000,
            amplitude: 300_000,
        })
    };
    assert_eq!(
        schedule_melody(bell(), &melody),
        vec![
            on(440_000_000),
            Action::Wait(160),
            Action::NoteOff,
            Action::Wait(40),
            Action::Wait(100),
            on(220_000_000),
            Action::Wait(120),
            Action::NoteOff,
            Action::Wait(30),
            Action::Wait(500),
        ]
    );
}

#[test]
fn a_schedule_lasts_as_long_as_its_melody_and_the_tail() {
    for (_, melody) in get_melodies() {
        let actions = schedule_melody(bell(), &melody);
        let waited: u64 = actions
            .iter()
            .map(|action| match action {
                Action::Wait(time) => *time,
                _ => 0,
            })
            .sum();
        let written: u64 = melody.iter().map(|note| note.1).sum();
        assert_eq!(waited, written + 500);
        let rests = melody.iter().filter(|note| note.0 == "REST").count();
        assert_eq!(actions.len(), 4 * (melody.len() - rests) + rests + 1);
    }
}
