//! The order of events that playing a melody takes.

use vstd::prelude::*;

use crate::synth_core::oscillator::FMParams;
use crate::synth_data::{note_freq, note_frequency, Notes};

verus! {

/// The pitch the presets are written for: the A above middle C, 440 Hz, in
/// microhertz.
pub const CONCERT_PITCH: i64 = 440_000_000;

/// How long the voice rests after the last note of a melody, in
/// milliseconds, so that the last release can sound.
pub const TAIL: u64 = 500;

/// One thing for the player of a melody to do.
#[derive(Clone, Copy, Debug, PartialEq, Eq, Structural)]
pub enum Action {
    /// Give the voice these parameters and start a note.
    NoteOn(FMParams),
    /// End the note.
    NoteOff,
    /// Let this many milliseconds pass.
    Wait(u64),
}

/// `dividend / divisor`, rounded towards zero.
pub open spec fn quotient_towards_zero(dividend: int, divisor: int) -> int
    recommends
        divisor > 0,
{
    if dividend >= 0 {
        dividend / divisor
    } else {
        -((-dividend) / divisor)
    }
}

/// A frequency that has left the range of its integer type is kept at the
/// nearest end of the range.
pub open spec fn clamped(frequency: int) -> i64 {
    if frequency < i64::MIN {
        i64::MIN
    } else if frequency > i64::MAX {
        i64::MAX
    } else {
        frequency as i64
    }
}

/// A frequency written for concert pitch, moved to the pitch of `note`:
/// `frequency * note / 440 Hz`, rounded towards zero.
pub open spec fn transposed(frequency: i64, note: i64) -> i64 {
    clamped(quotient_towards_zero(frequency * note, CONCERT_PITCH as int))
}

/// A preset moved to the pitch of `note`: both frequencies are transposed,
/// depth and amplitude stay.
pub open spec fn tuned(preset: FMParams, note: i64) -> FMParams {
    FMParams {
        carrier_freq: transposed(preset.carrier_freq, note),
        modulator_freq: transposed(preset.modulator_freq, note),
        ..preset
    }
}

/// The part of a note's duration during which the note is held: four fifths,
/// rounded down.
pub open spec fn hold_time(duration: u64) -> u64 {
    (duration * 80 / 100) as u64
}

/// The part of a note's duration that separates it from the next note: one
/// fifth, rounded down.
pub open spec fn gap_time(duration: u64) -> u64 {
    (duration * 20 / 100) as u64
}

/// What playing one note of a melody takes. A named note sounds, tuned to
/// its pitch, for four fifths of its duration and is released for the last
/// fifth; a rest is a wait of the whole duration.
pub open spec fn note_actions(preset: FMParams, note: Seq<char>, duration: u64) -> Seq<Action> {
    if note_frequency(note) > 0 {
        seq![
            Action::NoteOn(tuned(preset, note_frequency(note))),
            Action::Wait(hold_time(duration)),
            Action::NoteOff,
            Action::Wait(gap_time(duration)),
        ]
    } else {
        seq![Action::Wait(duration)]
    }
}

/// What playing `notes` one after the other takes.
pub open spec fn notes_actions(preset: FMParams, notes: Notes) -> Seq<Action>
    decreases notes.len(),
{
    if notes.len() == 0 {
        Seq::empty()
    } else {
        notes_actions(preset, notes.drop_last()) + note_actions(
            preset,
            notes.last().0,
            notes.last().1,
        )
    }
}

/// What playing a whole melody takes: its notes, then the tail.
pub open spec fn melody_actions(preset: FMParams, notes: Notes) -> Seq<Action> {
    notes_actions(preset, notes).push(Action::Wait(TAIL))
}

/// The product of two 64-bit values fits in 128 bits.
proof fn lemma_product_fits(a: i64, b: i64)
    ensures
        -0x4000_0000_0000_0000_0000_0000_0000_0000 <= a * b
            <= 0x4000_0000_0000_0000_0000_0000_0000_0000,
{
    assert(-(0x8000_0000_0000_0000 * 0x8000_0000_0000_0000) <= a * b <= 0x8000_0000_0000_0000
        * 0x8000_0000_0000_0000) by (nonlinear_arith)
        requires
            -0x8000_0000_0000_0000 <= a <= 0x8000_0000_0000_0000,
            -0x8000_0000_0000_0000 <= b <= 0x8000_0000_0000_0000,
    ;
}

/// Moves a frequency written for concert pitch to the pitch of `note`.
pub fn transpose(frequency: i64, note: i64) -> (moved: i64)
    ensures
        moved == transposed(frequency, note),
{
    proof {
        lemma_product_fits(frequency, note);
    }
    let product: i128 = frequency as i128 * note as i128;
    let quotient: i128 = if product >= 0 {
        product / CONCERT_PITCH as i128
    } else {
        -((-product) / CONCERT_PITCH as i128)
    };
    if quotient < i64::MIN as i128 {
        i64::MIN
    } else if quotient > i64::MAX as i128 {
        i64::MAX
    } else {
        quotient as i64
    }
}

impl FMParams {
    /// The preset moved to the pitch of `note`, a frequency in microhertz.
    pub fn tune(&self, note: i64) -> (params: FMParams)
        ensures
            params == tuned(*self, note),
    {
        FMParams {
            carrier_freq: transpose(self.carrier_freq, note),
            modulator_freq: transpose(self.modulator_freq, note),
            modulation_index: self.modulation_index,
            amplitude: self.amplitude,
        }
    }
}

/// `duration * percent / 100`, rounded down, for any duration.
fn share(duration: u64, percent: u64) -> (part: u64)
    requires
        percent <= 100,
    ensures
        part == duration * percent / 100,
{
    let whole: u64 = duration / 100;
    let rest: u64 = duration % 100;
    proof {
        assert(duration * percent == (whole * percent) * 100 + rest * percent)
            by (nonlinear_arith)
            requires
                duration == whole * 100 + rest,
        ;
        assert(whole * percent <= whole * 100) by (nonlinear_arith)
            requires
                percent <= 100,
                whole >= 0,
        ;
        assert(rest * percent <= rest * 100) by (nonlinear_arith)
            requires
                0 <= rest,
                0 <= percent <= 100,
        ;
        assert(rest * percent / 100 <= rest);
        vstd::arithmetic::div_mod::lemma_fundamental_div_mod_converse(
            duration * percent,
            100,
            whole * percent + rest * percent / 100,
            (rest * percent) % 100,
        );
    }
    whole * percent + rest * percent / 100
}

/// The two parts of a note fill its duration, but for at most one
/// millisecond lost to rounding.
pub proof fn lemma_note_fills_its_time(duration: u64)
    ensures
        duration - 1 <= hold_time(duration) + gap_time(duration) <= duration,
{
}

/// Appends to `actions` what playing one note takes.
pub fn push_note(actions: &mut Vec<Action>, preset: FMParams, note: &str, duration: u64)
    ensures
        final(actions)@ == old(actions)@ + note_actions(preset, note@, duration),
{
    let frequency: i64 = note_freq(note);
    if frequency > 0 {
        actions.push(Action::NoteOn(preset.tune(frequency)));
        actions.push(Action::Wait(share(duration, 80)));
        actions.push(Action::NoteOff);
        actions.push(Action::Wait(share(duration, 20)));
    } else {
        actions.push(Action::Wait(duration));
    }
    assert(actions@ =~= old(actions)@ + note_actions(preset, note@, duration));
}

/// Lays out what playing `melody` with `preset` takes, from the first note to
/// the tail.
pub fn schedule_melody(
    preset: FMParams,
    melody: &Vec<(&'static str, u64)>,
) -> (actions: Vec<Action>)
    ensures
        actions@ == melody_actions(preset, melody.deep_view()),
{
    let mut actions: Vec<Action> = Vec::new();
    let mut done: usize = 0;
    while done < melody.len()
        invariant
            done <= melody.len(),
            actions@ == notes_actions(preset, melody.deep_view().take(done as int)),
        decreases melody.len() - done,
    {
        let (note, duration) = melody[done];
        push_note(&mut actions, preset, note, duration);
        proof {
            let notes = melody.deep_view();
            assert(notes.take(done + 1).drop_last() =~= notes.take(done as int));
            assert(notes.take(done + 1).last() == (note@, duration));
        }
        done += 1;
    }
    assert(melody.deep_view().take(done as int) =~= melody.deep_view());
    actions.push(Action::Wait(TAIL));
    actions
}

} // verus!
