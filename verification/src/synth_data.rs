//! The notes, presets and melodies that come with the synthesizer.

use vstd::prelude::*;

use crate::synth_core::oscillator::FMParams;

verus! {

/// A melody: its notes in order, each a note name and how long it lasts, in
/// milliseconds.
pub type Notes = Seq<(Seq<char>, u64)>;

/// The frequency of each named note, in microhertz; a name that names no note
/// is a rest and has frequency zero.
pub open spec fn note_frequency(note: Seq<char>) -> i64 {
    if note == "C3"@ {
        130_810_000
    } else if note == "C#3"@ {
        138_590_000
    } else if note == "D3"@ {
        146_830_000
    } else if note == "D#3"@ {
        155_560_000
    } else if note == "E3"@ {
        164_810_000
    } else if note == "F3"@ {
        174_610_000
    } else if note == "F#3"@ {
        185_000_000
    } else if note == "G3"@ {
        196_000_000
    } else if note == "G#3"@ {
        207_650_000
    } else if note == "A3"@ {
        220_000_000
    } else if note == "A#3"@ {
        233_080_000
    } else if note == "B3"@ {
        246_940_000
    } else if note == "C4"@ {
        261_630_000
    } else if note == "C#4"@ {
        277_180_000
    } else if note == "D4"@ {
        293_660_000
    } else if note == "D#4"@ {
        311_130_000
    } else if note == "E4"@ {
        329_630_000
    } else if note == "F4"@ {
        349_230_000
    } else if note == "F#4"@ {
        369_990_000
    } else if note == "G4"@ {
        392_000_000
    } else if note == "G#4"@ {
        415_300_000
    } else if note == "A4"@ {
        440_000_000
    } else if note == "A#4"@ {
        466_160_000
    } else if note == "B4"@ {
        493_880_000
    } else if note == "C5"@ {
        523_250_000
    } else if note == "C#5"@ {
        554_370_000
    } else if note == "D5"@ {
        587_330_000
    } else if note == "D#5"@ {
        622_250_000
    } else if note == "E5"@ {
        659_250_000
    } else if note == "F5"@ {
        698_460_000
    } else if note == "F#5"@ {
        739_990_000
    } else if note == "G5"@ {
        783_990_000
    } else if note == "G#5"@ {
        830_610_000
    } else if note == "A5"@ {
        880_000_000
    } else {
        0
    }
}

/// The frequency of the note called `note`, in microhertz, or zero for a
/// rest: any name that names no note.
pub fn note_freq(note: &str) -> (frequency: i64)
    ensures
        frequency == note_frequency(note@),
{
    if note.eq("C3") {
        130_810_000
    } else if note.eq("C#3") {
        138_590_000
    } else if note.eq("D3") {
        146_830_000
    } else if note.eq("D#3") {
        155_560_000
    } else if note.eq("E3") {
        164_810_000
    } else if note.eq("F3") {
        174_610_000
    } else if note.eq("F#3") {
        185_000_000
    } else if note.eq("G3") {
        196_000_000
    } else if note.eq("G#3") {
        207_650_000
    } else if note.eq("A3") {
        220_000_000
    } else if note.eq("A#3") {
        233_080_000
    } else if note.eq("B3") {
        246_940_000
    } else if note.eq("C4") {
        261_630_000
    } else if note.eq("C#4") {
        277_180_000
    } else if note.eq("D4") {
        293_660_000
    } else if note.eq("D#4") {
        311_130_000
    } else if note.eq("E4") {
        329_630_000
    } else if note.eq("F4") {
        349_230_000
    } else if note.eq("F#4") {
        369_990_000
    } else if note.eq("G4") {
        392_000_000
    } else if note.eq("G#4") {
        415_300_000
    } else if note.eq("A4") {
        440_000_000
    } else if note.eq("A#4") {
        466_160_000
    } else if note.eq("B4") {
        493_880_000
    } else if note.eq("C5") {
        523_250_000
    } else if note.eq("C#5") {
        554_370_000
    } else if note.eq("D5") {
        587_330_000
    } else if note.eq("D#5") {
        622_250_000
    } else if note.eq("E5") {
        659_250_000
    } else if note.eq("F5") {
        698_460_000
    } else if note.eq("F#5") {
        739_990_000
    } else if note.eq("G5") {
        783_990_000
    } else if note.eq("G#5") {
        830_610_000
    } else if note.eq("A5") {
        880_000_000
    } else {
        0
    }
}

/// The characters of each name of a table, beside what the name stands for.
pub open spec fn named<T>(entries: Seq<(&'static str, T)>) -> Seq<(Seq<char>, T)> {
    entries.map_values(|entry: (&'static str, T)| (entry.0@, entry.1))
}

/// The timbres that come with the synthesizer, by name.
pub open spec fn preset_table() -> Seq<(Seq<char>, FMParams)> {
    seq![
        (
            "Bell"@,
            FMParams {
                carrier_freq: 440_000_000,
                modulator_freq: 440_000_000,
                modulation_index: 7_000_000,
                amplitude: 300_000,
            },
        ),
        (
            "Bass"@,
            FMParams {
                carrier_freq: 110_000_000,
                modulator_freq: 110_000_000,
                modulation_index: 1_500_000,
                amplitude: 500_000,
            },
        ),
        (
            "Electric Piano"@,
            FMParams {
                carrier_freq: 440_000_000,
                modulator_freq: 880_000_000,
                modulation_index: 3_000_000,
                amplitude: 400_000,
            },
        ),
        (
            "Brass"@,
            FMParams {
                carrier_freq: 440_000_000,
                modulator_freq: 440_000_000,
                modulation_index: 2_500_000,
                amplitude: 400_000,
            },
        ),
        (
            "Organ"@,
            FMParams {
                carrier_freq: 440_000_000,
                modulator_freq: 880_000_000,
                modulation_index: 1_000_000,
                amplitude: 400_000,
            },
        ),
        (
            "Synth Lead"@,
            FMParams {
                carrier_freq: 440_000_000,
                modulator_freq: 1_320_000_000,
                modulation_index: 4_000_000,
                amplitude: 350_000,
            },
        ),
        (
            "Marimba"@,
            FMParams {
                carrier_freq: 440_000_000,
                modulator_freq: 440_000_000,
                modulation_index: 3_500_000,
                amplitude: 400_000,
            },
        ),
        (
            "Strings"@,
            FMParams {
                carrier_freq: 440_000_000,
                modulator_freq: 220_000_000,
                modulation_index: 800_000,
                amplitude: 300_000,
            },
        ),
        (
            "Flute"@,
            FMParams {
                carrier_freq: 440_000_000,
                modulator_freq: 440_000_000,
                modulation_index: 500_000,
                amplitude: 250_000,
            },
        ),
        (
            "Metallic"@,
            FMParams {
                carrier_freq: 440_000_000,
                modulator_freq: 567_000_000,
                modulation_index: 9_000_000,
                amplitude: 300_000,
            },
        ),
        (
            "Glockenspiel"@,
            FMParams {
                carrier_freq: 440_000_000,
                modulator_freq: 1_760_000_000,
                modulation_index: 2_500_000,
                amplitude: 300_000,
            },
        ),
        (
            "Wood Block"@,
            FMParams {
                carrier_freq: 440_000_000,
                modulator_freq: 300_000_000,
                modulation_index: 12_000_000,
                amplitude: 400_000,
            },
        ),
    ]
}

/// Every preset lies within the ranges of its parameters.
pub proof fn lemma_presets_valid()
    ensures
        forall|i: int| 0 <= i < preset_table().len() ==> (#[trigger] preset_table()[i]).1.valid(),
{
}

/// The timbres that come with the synthesizer, each with its name.
pub fn get_presets() -> (presets: Vec<(&'static str, FMParams)>)
    ensures
        named(presets@) == preset_table(),
{
    let presets = vec![
        (
            "Bell",
            FMParams {
                carrier_freq: 440_000_000,
                modulator_freq: 440_000_000,
                modulation_index: 7_000_000,
                amplitude: 300_000,
            },
        ),
        (
            "Bass",
            FMParams {
                carrier_freq: 110_000_000,
                modulator_freq: 110_000_000,
                modulation_index: 1_500_000,
                amplitude: 500_000,
            },
        ),
        (
            "Electric Piano",
            FMParams {
                carrier_freq: 440_000_000,
                modulator_freq: 880_000_000,
                modulation_index: 3_000_000,
                amplitude: 400_000,
            },
        ),
        (
            "Brass",
            FMParams {
                carrier_freq: 440_000_000,
                modulator_freq: 440_000_000,
                modulation_index: 2_500_000,
                amplitude: 400_000,
            },
        ),
        (
            "Organ",
            FMParams {
                carrier_freq: 440_000_000,
                modulator_freq: 880_000_000,
                modulation_index: 1_000_000,
                amplitude: 400_000,
            },
        ),
        (
            "Synth Lead",
            FMParams {
                carrier_freq: 440_000_000,
                modulator_freq: 1_320_000_000,
                modulation_index: 4_000_000,
                amplitude: 350_000,
            },
        ),
        (
            "Marimba",
            FMParams {
                carrier_freq: 440_000_000,
                modulator_freq: 440_000_000,
                modulation_index: 3_500_000,
                amplitude: 400_000,
            },
        ),
        (
            "Strings",
            FMParams {
                carrier_freq: 440_000_000,
                modulator_freq: 220_000_000,
                modulation_index: 800_000,
                amplitude: 300_000,
            },
        ),
        (
            "Flute",
            FMParams {
                carrier_freq: 440_000_000,
                modulator_freq: 440_000_000,
                modulation_index: 500_000,
                amplitude: 250_000,
            },
        ),
        (
            "Metallic",
            FMParams {
                carrier_freq: 440_000_000,
                modulator_freq: 567_000_000,
                modulation_index: 9_000_000,
                amplitude: 300_000,
            },
        ),
        (
            "Glockenspiel",
            FMParams {
                carrier_freq: 440_000_000,
                modulator_freq: 1_760_000_000,
                modulation_index: 2_500_000,
                amplitude: 300_000,
            },
        ),
        (
            "Wood Block",
            FMParams {
                carrier_freq: 440_000_000,
                modulator_freq: 300_000_000,
                modulation_index: 12_000_000,
                amplitude: 400_000,
            },
        ),
    ];
    assert(named(presets@) =~= preset_table());
    presets
}

/// The notes of "Twinkle Twinkle".
pub open spec fn twinkle_twinkle() -> Notes {
    seq![
        ("C4"@, 500u64), ("C4"@, 500u64), ("G4"@, 500u64), ("G4"@, 500u64), ("A4"@, 500u64),
        ("A4"@, 500u64), ("G4"@, 1000u64), ("F4"@, 500u64), ("F4"@, 500u64), ("E4"@, 500u64),
        ("E4"@, 500u64), ("D4"@, 500u64), ("D4"@, 500u64), ("C4"@, 1000u64),
    ]
}

/// The notes of "Happy Birthday".
pub open spec fn happy_birthday() -> Notes {
    seq![
        ("C4"@, 250u64), ("C4"@, 250u64), ("D4"@, 500u64), ("C4"@, 500u64), ("F4"@, 500u64),
        ("E4"@, 1000u64), ("C4"@, 250u64), ("C4"@, 250u64), ("D4"@, 500u64), ("C4"@, 500u64),
        ("G4"@, 500u64), ("F4"@, 1000u64),
    ]
}

/// The notes of "Ode to Joy".
pub open spec fn ode_to_joy() -> Notes {
    seq![
        ("E4"@, 500u64), ("E4"@, 500u64), ("F4"@, 500u64), ("G4"@, 500u64), ("G4"@, 500u64),
        ("F4"@, 500u64), ("E4"@, 500u64), ("D4"@, 500u64), ("C4"@, 500u64), ("C4"@, 500u64),
        ("D4"@, 500u64), ("E4"@, 500u64), ("E4"@, 750u64), ("D4"@, 250u64), ("D4"@, 1000u64),
    ]
}

/// The notes of "Mary Had a Little Lamb".
pub open spec fn mary_had_a_little_lamb() -> Notes {
    seq![
        ("E4"@, 500u64), ("D4"@, 500u64), ("C4"@, 500u64), ("D4"@, 500u64), ("E4"@, 500u64),
        ("E4"@, 500u64), ("E4"@, 1000u64), ("D4"@, 500u64), ("D4"@, 500u64), ("D4"@, 1000u64),
        ("E4"@, 500u64), ("G4"@, 500u64), ("G4"@, 1000u64),
    ]
}

/// The notes of "Chromatic Scale".
pub open spec fn chromatic_scale() -> Notes {
    seq![
        ("C4"@, 200u64), ("C#4"@, 200u64), ("D4"@, 200u64), ("D#4"@, 200u64), ("E4"@, 200u64),
        ("F4"@, 200u64), ("F#4"@, 200u64), ("G4"@, 200u64), ("G#4"@, 200u64), ("A4"@, 200u64),
        ("A#4"@, 200u64), ("B4"@, 200u64), ("C5"@, 400u64),
    ]
}

/// The notes of "Major Arpeggio".
pub open spec fn major_arpeggio() -> Notes {
    seq![
        ("C4"@, 300u64), ("E4"@, 300u64), ("G4"@, 300u64), ("C5"@, 300u64), ("G4"@, 300u64),
        ("E4"@, 300u64), ("C4"@, 600u64),
    ]
}

/// The notes of "Minor Pentatonic".
pub open spec fn minor_pentatonic() -> Notes {
    seq![
        ("A3"@, 400u64), ("C4"@, 400u64), ("D4"@, 400u64), ("E4"@, 400u64), ("G4"@, 400u64),
        ("A4"@, 400u64), ("G4"@, 400u64), ("E4"@, 400u64), ("D4"@, 400u64), ("C4"@, 400u64),
        ("A3"@, 800u64),
    ]
}

/// The notes of "Jazz Lick".
pub open spec fn jazz_lick() -> Notes {
    seq![
        ("C4"@, 200u64), ("E4"@, 200u64), ("G4"@, 200u64), ("A#4"@, 200u64), ("A4"@, 400u64),
        ("F4"@, 200u64), ("D4"@, 400u64), ("G4"@, 200u64), ("E4"@, 200u64), ("C4"@, 600u64),
    ]
}

/// The notes of "Bach Invention".
pub open spec fn bach_invention() -> Notes {
    seq![
        ("C4"@, 200u64), ("D4"@, 200u64), ("E4"@, 200u64), ("F4"@, 200u64), ("D4"@, 200u64),
        ("E4"@, 200u64), ("C4"@, 400u64), ("G4"@, 200u64), ("F4"@, 200u64), ("E4"@, 200u64),
        ("D4"@, 200u64), ("B3"@, 200u64), ("C4"@, 600u64),
    ]
}

/// The notes of "Synth Demo".
pub open spec fn synth_demo() -> Notes {
    seq![
        ("C4"@, 150u64), ("E4"@, 150u64), ("G4"@, 150u64), ("C5"@, 150u64), ("E5"@, 150u64),
        ("G5"@, 150u64), ("E5"@, 150u64), ("C5"@, 150u64), ("G4"@, 150u64), ("E4"@, 150u64),
        ("C4"@, 300u64), ("REST"@, 300u64), ("F4"@, 150u64), ("A4"@, 150u64), ("C5"@, 150u64),
        ("F5"@, 150u64), ("C5"@, 150u64), ("A4"@, 150u64), ("F4"@, 300u64),
    ]
}

/// The melodies that come with the synthesizer, by name.
pub open spec fn melody_table() -> Seq<(Seq<char>, Notes)> {
    seq![
        ("Twinkle Twinkle"@, twinkle_twinkle()),
        ("Happy Birthday"@, happy_birthday()),
        ("Ode to Joy"@, ode_to_joy()),
        ("Mary Had a Little Lamb"@, mary_had_a_little_lamb()),
        ("Chromatic Scale"@, chromatic_scale()),
        ("Major Arpeggio"@, major_arpeggio()),
        ("Minor Pentatonic"@, minor_pentatonic()),
        ("Jazz Lick"@, jazz_lick()),
        ("Bach Invention"@, bach_invention()),
        ("Synth Demo"@, synth_demo()),
    ]
}

/// The melodies that come with the synthesizer, each with its name.
pub fn get_melodies() -> (melodies: Vec<(&'static str, Vec<(&'static str, u64)>)>)
    ensures
        melodies.deep_view() == melody_table(),
{
    let twinkle_twinkle = vec![
        ("C4", 500), ("C4", 500), ("G4", 500), ("G4", 500), ("A4", 500), ("A4", 500),
        ("G4", 1000), ("F4", 500), ("F4", 500), ("E4", 500), ("E4", 500), ("D4", 500),
        ("D4", 500), ("C4", 1000),
    ];
    assert(twinkle_twinkle.deep_view() =~= self::twinkle_twinkle());
    let happy_birthday = vec![
        ("C4", 250), ("C4", 250), ("D4", 500), ("C4", 500), ("F4", 500), ("E4", 1000),
        ("C4", 250), ("C4", 250), ("D4", 500), ("C4", 500), ("G4", 500), ("F4", 1000),
    ];
    assert(happy_birthday.deep_view() =~= self::happy_birthday());
    let ode_to_joy = vec![
        ("E4", 500), ("E4", 500), ("F4", 500), ("G4", 500), ("G4", 500), ("F4", 500),
        ("E4", 500), ("D4", 500), ("C4", 500), ("C4", 500), ("D4", 500), ("E4", 500),
        ("E4", 750), ("D4", 250), ("D4", 1000),
    ];
    assert(ode_to_joy.deep_view() =~= self::ode_to_joy());
    let mary_had_a_little_lamb = vec![
        ("E4", 500), ("D4", 500), ("C4", 500), ("D4", 500), ("E4", 500), ("E4", 500),
        ("E4", 1000), ("D4", 500), ("D4", 500), ("D4", 1000), ("E4", 500), ("G4", 500),
        ("G4", 1000),
    ];
    assert(mary_had_a_little_lamb.deep_view() =~= self::mary_had_a_little_lamb());
    let chromatic_scale = vec![
        ("C4", 200), ("C#4", 200), ("D4", 200), ("D#4", 200), ("E4", 200), ("F4", 200),
        ("F#4", 200), ("G4", 200), ("G#4", 200), ("A4", 200), ("A#4", 200), ("B4", 200),
        ("C5", 400),
    ];
    assert(chromatic_scale.deep_view() =~= self::chromatic_scale());
    let major_arpeggio = vec![
        ("C4", 300), ("E4", 300), ("G4", 300), ("C5", 300), ("G4", 300), ("E4", 300),
        ("C4", 600),
    ];
    assert(major_arpeggio.deep_view() =~= self::major_arpeggio());
    let minor_pentatonic = vec![
        ("A3", 400), ("C4", 400), ("D4", 400), ("E4", 400), ("G4", 400), ("A4", 400),
        ("G4", 400), ("E4", 400), ("D4", 400), ("C4", 400), ("A3", 800),
    ];
    assert(minor_pentatonic.deep_view() =~= self::minor_pentatonic());
    let jazz_lick = vec![
        ("C4", 200), ("E4", 200), ("G4", 200), ("A#4", 200), ("A4", 400), ("F4", 200),
        ("D4", 400), ("G4", 200), ("E4", 200), ("C4", 600),
    ];
    assert(jazz_lick.deep_view() =~= self::jazz_lick());
    let bach_invention = vec![
        ("C4", 200), ("D4", 200), ("E4", 200), ("F4", 200), ("D4", 200), ("E4", 200),
        ("C4", 400), ("G4", 200), ("F4", 200), ("E4", 200), ("D4", 200), ("B3", 200),
        ("C4", 600),
    ];
    assert(bach_invention.deep_view() =~= self::bach_invention());
    let synth_demo = vec![
        ("C4", 150), ("E4", 150), ("G4", 150), ("C5", 150), ("E5", 150), ("G5", 150),
        ("E5", 150), ("C5", 150), ("G4", 150), ("E4", 150), ("C4", 300), ("REST", 300),
        ("F4", 150), ("A4", 150), ("C5", 150), ("F5", 150), ("C5", 150), ("A4", 150),
        ("F4", 300),
    ];
    assert(synth_demo.deep_view() =~= self::synth_demo());
    let melodies = vec![
        ("Twinkle Twinkle", twinkle_twinkle),
        ("Happy Birthday", happy_birthday),
        ("Ode to Joy", ode_to_joy),
        ("Mary Had a Little Lamb", mary_had_a_little_lamb),
        ("Chromatic Scale", chromatic_scale),
        ("Major Arpeggio", major_arpeggio),
        ("Minor Pentatonic", minor_pentatonic),
        ("Jazz Lick", jazz_lick),
        ("Bach Invention", bach_invention),
        ("Synth Demo", synth_demo),
    ];
    assert(melodies.deep_view() =~= melody_table());
    melodies
}

} // verus!
