//! The command line: finding presets and melodies by number or name, and
//! telling what a typed line asks for.

use vstd::prelude::*;
use vstd::string::StringExecFns;

use crate::synth_core::oscillator::FMParams;
use crate::synth_data::{get_melodies, get_presets, melody_table, named, preset_table, Notes};
use crate::text::{
    contains, format_list, join_words, joined, lowercase, number, numbered_list, occurs_in,
    parse_number, split_words, words_of,
};

verus! {

/// The names of a table's entries, in order.
pub open spec fn names_of<T>(entries: Seq<(&'static str, T)>) -> Seq<Seq<char>> {
    entries.map_values(|entry: (&'static str, T)| entry.0@)
}

/// The entry that a number picks among `count` entries counted from one:
/// the position, counted from zero, if the number lies between one and
/// `count`.
pub open spec fn picked(number: Option<nat>, count: nat) -> Option<int> {
    match number {
        Some(n) => if 1 <= n <= count {
            Some(n - 1)
        } else {
            None
        },
        None => None,
    }
}

/// The position of the first `true` among `hits`, if there is one.
pub open spec fn first_hit(hits: Seq<bool>) -> Option<int>
    decreases hits.len(),
{
    if hits.len() == 0 {
        None
    } else {
        match first_hit(hits.drop_last()) {
            Some(earlier) => Some(earlier),
            None => if hits.last() {
                Some(hits.len() - 1)
            } else {
                None
            },
        }
    }
}

/// The preset that `text` asks for among those called `names`: the one whose
/// number it writes or, where it writes none in range, the first whose name
/// is `text` but for the case of the letters.
pub open spec fn preset_choice(names: Seq<Seq<char>>, text: Seq<char>) -> Option<int> {
    match picked(number(text), names.len()) {
        Some(position) => Some(position),
        None => first_hit(names.map_values(|name: Seq<char>| lowercase(name) == lowercase(text))),
    }
}

/// The melody that `text` asks for among those called `names`: the one whose
/// number it writes or, where it writes none in range, the first whose name
/// has `text` in it but for the case of the letters.
pub open spec fn melody_choice(names: Seq<Seq<char>>, text: Seq<char>) -> Option<int> {
    match picked(number(text), names.len()) {
        Some(position) => Some(position),
        None => first_hit(
            names.map_values(|name: Seq<char>| occurs_in(lowercase(text), lowercase(name))),
        ),
    }
}

/// A position as a mathematical integer.
pub open spec fn position(found: Option<usize>) -> Option<int> {
    match found {
        Some(at) => Some(at as int),
        None => None,
    }
}

/// What `first_hit` finds is a hit that only misses come before; it finds
/// nothing only where nothing hits.
pub proof fn lemma_first_hit(hits: Seq<bool>)
    ensures
        match first_hit(hits) {
            Some(at) => 0 <= at < hits.len() && hits[at] && forall|earlier: int|
                0 <= earlier < at ==> !hits[earlier],
            None => forall|at: int| 0 <= at < hits.len() ==> !hits[at],
        },
    decreases hits.len(),
{
    if hits.len() > 0 {
        let before = hits.drop_last();
        lemma_first_hit(before);
        assert forall|at: int| 0 <= at < before.len() implies before[at] == hits[at] by {}
    }
}

/// The first hit is where a hit follows only misses.
proof fn lemma_first_hit_at(hits: Seq<bool>, at: int)
    requires
        0 <= at < hits.len(),
        hits[at],
        forall|earlier: int| 0 <= earlier < at ==> !hits[earlier],
    ensures
        first_hit(hits) == Some(at),
    decreases hits.len(),
{
    if at == hits.len() - 1 {
        lemma_no_hit(hits.drop_last());
    } else {
        lemma_first_hit_at(hits.drop_last(), at);
    }
}

/// Where nothing hits there is no first hit.
proof fn lemma_no_hit(hits: Seq<bool>)
    requires
        forall|at: int| 0 <= at < hits.len() ==> !hits[at],
    ensures
        first_hit(hits) is None,
    decreases hits.len(),
{
    if hits.len() > 0 {
        lemma_no_hit(hits.drop_last());
    }
}

/// The entry that a number picks among `count` entries counted from one.
pub fn pick(number: Option<usize>, count: usize) -> (found: Option<usize>)
    ensures
        found == match number {
            Some(n) => if 1 <= n <= count {
                Some((n - 1) as usize)
            } else {
                None
            },
            None => None,
        },
{
    match number {
        Some(n) => if n > 0 && n <= count {
            Some(n - 1)
        } else {
            None
        },
        None => None,
    }
}

/// Finds the first of `names` that is `wanted`.
pub fn position_of(names: &Vec<String>, wanted: &str) -> (found: Option<usize>)
    ensures
        position(found) == first_hit(
            names.deep_view().map_values(|name: Seq<char>| name == wanted@),
        ),
{
    let ghost hits = names.deep_view().map_values(|name: Seq<char>| name == wanted@);
    let mut at: usize = 0;
    while at < names.len()
        invariant
            at <= names.len(),
            hits == names.deep_view().map_values(|name: Seq<char>| name == wanted@),
            forall|earlier: int| 0 <= earlier < at ==> !hits[earlier],
        decreases names.len() - at,
    {
        assert(names.deep_view()[at as int] == names[at as int]@);
        if names[at].as_str().eq(wanted) {
            proof {
                lemma_first_hit_at(hits, at as int);
            }
            return Some(at);
        }
        at += 1;
    }
    proof {
        lemma_no_hit(hits);
    }
    None
}

/// Finds the first of `names` in which `part` occurs.
pub fn position_holding(names: &Vec<String>, part: &str) -> (found: Option<usize>)
    ensures
        position(found) == first_hit(
            names.deep_view().map_values(|name: Seq<char>| occurs_in(part@, name)),
        ),
{
    let ghost hits = names.deep_view().map_values(|name: Seq<char>| occurs_in(part@, name));
    let mut at: usize = 0;
    while at < names.len()
        invariant
            at <= names.len(),
            hits == names.deep_view().map_values(|name: Seq<char>| occurs_in(part@, name)),
            forall|earlier: int| 0 <= earlier < at ==> !hits[earlier],
        decreases names.len() - at,
    {
        assert(names.deep_view()[at as int] == names[at as int]@);
        if contains(names[at].as_str(), part) {
            proof {
                lemma_first_hit_at(hits, at as int);
            }
            return Some(at);
        }
        at += 1;
    }
    proof {
        lemma_no_hit(hits);
    }
    None
}

/// The lower-case form of each of `names`.
pub fn lower_all(names: &Vec<&str>) -> (lowered: Vec<String>)
    ensures
        lowered.deep_view() == names.deep_view().map_values(|name: Seq<char>| lowercase(name)),
{
    let mut lowered: Vec<String> = Vec::new();
    let mut at: usize = 0;
    while at < names.len()
        invariant
            at <= names.len(),
            lowered.len() == at,
            forall|i: int| 0 <= i < at ==> (#[trigger] lowered[i])@ == lowercase(names[i]@),
        decreases names.len() - at,
    {
        lowered.push(names[at].to_lowercase());
        at += 1;
    }
    assert(lowered.deep_view() =~= names.deep_view().map_values(
        |name: Seq<char>| lowercase(name),
    ));
    lowered
}

/// A copy of `notes`.
fn copy_notes(notes: &Vec<(&'static str, u64)>) -> (copy: Vec<(&'static str, u64)>)
    ensures
        copy@ == notes@,
{
    let mut copy: Vec<(&'static str, u64)> = Vec::new();
    let mut at: usize = 0;
    while at < notes.len()
        invariant
            at <= notes.len(),
            copy@ == notes@.take(at as int),
        decreases notes.len() - at,
    {
        copy.push(notes[at]);
        assert(copy@ =~= notes@.take(at + 1));
        at += 1;
    }
    assert(notes@.take(at as int) =~= notes@);
    copy
}

/// What a request to play names: a preset and a melody, or which of the two
/// is not to be found. A preset that is not found is reported before a
/// melody that is not.
pub enum Selection {
    Play(FMParams, Vec<(&'static str, u64)>),
    UnknownPreset,
    UnknownMelody,
}

/// The presets and melodies that the command line offers.
pub struct CLI {
    pub presets: Vec<(&'static str, FMParams)>,
    pub melodies: Vec<(&'static str, Vec<(&'static str, u64)>)>,
}

impl CLI {
    /// The names of the presets, in order.
    pub open spec fn preset_names(&self) -> Seq<Seq<char>> {
        names_of(self.presets@)
    }

    /// The names of the melodies, in order.
    pub open spec fn melody_names(&self) -> Seq<Seq<char>> {
        names_of(self.melodies@)
    }

    /// The command line with the presets and melodies that come with the
    /// synthesizer.
    pub fn new() -> (cli: CLI)
        ensures
            named(cli.presets@) == preset_table(),
            cli.melodies.deep_view() == melody_table(),
    {
        CLI { presets: get_presets(), melodies: get_melodies() }
    }

    /// The names of the presets.
    fn preset_name_list(&self) -> (names: Vec<&'static str>)
        ensures
            names.deep_view() == self.preset_names(),
    {
        let mut names: Vec<&'static str> = Vec::new();
        let mut at: usize = 0;
        while at < self.presets.len()
            invariant
                at <= self.presets.len(),
                names.len() == at,
                forall|i: int| 0 <= i < at ==> (#[trigger] names[i])@ == self.presets[i].0@,
            decreases self.presets.len() - at,
        {
            names.push(self.presets[at].0);
            at += 1;
        }
        assert(names.deep_view() =~= self.preset_names());
        names
    }

    /// The names of the melodies.
    fn melody_name_list(&self) -> (names: Vec<&'static str>)
        ensures
            names.deep_view() == self.melody_names(),
    {
        let mut names: Vec<&'static str> = Vec::new();
        let mut at: usize = 0;
        while at < self.melodies.len()
            invariant
                at <= self.melodies.len(),
                names.len() == at,
                forall|i: int| 0 <= i < at ==> (#[trigger] names[i])@ == self.melodies[i].0@,
            decreases self.melodies.len() - at,
        {
            names.push(self.melodies[at].0);
            at += 1;
        }
        assert(names.deep_view() =~= self.melody_names());
        names
    }

    /// The presets as a numbered list.
    pub fn list_presets(&self) -> (list: String)
        ensures
            list@ == numbered_list(self.preset_names()),
    {
        format_list(&self.preset_name_list())
    }

    /// The melodies as a numbered list.
    pub fn list_melodies(&self) -> (list: String)
        ensures
            list@ == numbered_list(self.melody_names()),
    {
        format_list(&self.melody_name_list())
    }

    /// Where the preset stands that `name` asks for, by number or by name.
    pub fn preset_position(&self, name: &str) -> (found: Option<usize>)
        ensures
            position(found) == preset_choice(self.preset_names(), name@),
            found matches Some(at) ==> at < self.presets.len(),
    {
        match pick(parse_number(name), self.presets.len()) {
            Some(at) => Some(at),
            None => {
                let lowered = lower_all(&self.preset_name_list());
                let wanted = name.to_lowercase();
                let found = position_of(&lowered, wanted.as_str());
                proof {
                    let names = self.preset_names();
                    assert(lowered.deep_view().map_values(|name: Seq<char>| name == wanted@)
                        =~= names.map_values(
                        |other: Seq<char>| lowercase(other) == lowercase(name@),
                    ));
                    lemma_first_hit(
                        names.map_values(|other: Seq<char>| lowercase(other) == lowercase(name@)),
                    );
                }
                found
            },
        }
    }

    /// Where the melody stands that `name` asks for, by number or by name.
    pub fn melody_position(&self, name: &str) -> (found: Option<usize>)
        ensures
            position(found) == melody_choice(self.melody_names(), name@),
            found matches Some(at) ==> at < self.melodies.len(),
    {
        match pick(parse_number(name), self.melodies.len()) {
            Some(at) => Some(at),
            None => {
                let lowered = lower_all(&self.melody_name_list());
                let wanted = name.to_lowercase();
                let found = position_holding(&lowered, wanted.as_str());
                proof {
                    let names = self.melody_names();
                    assert(lowered.deep_view().map_values(
                        |name: Seq<char>| occurs_in(wanted@, name),
                    ) =~= names.map_values(
                        |other: Seq<char>| occurs_in(lowercase(name@), lowercase(other)),
                    ));
                    lemma_first_hit(
                        names.map_values(
                            |other: Seq<char>| occurs_in(lowercase(name@), lowercase(other)),
                        ),
                    );
                }
                found
            },
        }
    }

    /// The preset that `name` asks for, by number or by name.
    pub fn find_preset(&self, name: &str) -> (found: Option<FMParams>)
        ensures
            found == match preset_choice(self.preset_names(), name@) {
                Some(at) => Some(self.presets[at].1),
                None => None,
            },
    {
        match self.preset_position(name) {
            Some(at) => Some(self.presets[at].1),
            None => None,
        }
    }

    /// The melody that `name` asks for, by number or by name.
    pub fn find_melody(&self, name: &str) -> (found: Option<Vec<(&'static str, u64)>>)
        ensures
            match melody_choice(self.melody_names(), name@) {
                Some(at) => found matches Some(notes) && notes@ == self.melodies[at].1@,
                None => found is None,
            },
    {
        match self.melody_position(name) {
            Some(at) => Some(copy_notes(&self.melodies[at].1)),
            None => None,
        }
    }

    /// What a request to play `preset` with `melody` names.
    pub fn select(&self, preset: &str, melody: &str) -> (selection: Selection)
        ensures
            match preset_choice(self.preset_names(), preset@) {
                None => selection is UnknownPreset,
                Some(timbre) => match melody_choice(self.melody_names(), melody@) {
                    None => selection is UnknownMelody,
                    Some(tune) => selection matches Selection::Play(params, notes) && params
                        == self.presets[timbre].1 && notes@ == self.melodies[tune].1@,
                },
            },
    {
        match self.find_preset(preset) {
            None => Selection::UnknownPreset,
            Some(params) => match self.find_melody(melody) {
                None => Selection::UnknownMelody,
                Some(notes) => Selection::Play(params, notes),
            },
        }
    }
}

/// What a line typed at the prompt asks for.
#[derive(Debug, PartialEq, Eq)]
pub enum Command {
    /// Nothing: the line holds no word.
    Empty,
    /// `list presets`
    ListPresets,
    /// `list melodies`
    ListMelodies,
    /// `list` followed by anything else.
    ListUnknown,
    /// `list` alone.
    ListUsage,
    /// `play`, a preset and a melody, the melody being all the words that
    /// follow the preset.
    Play { preset: String, melody: String },
    /// `play` with less than a preset and a melody.
    PlayUsage,
    /// `demo`
    Demo,
    /// `help`
    Help,
    /// `quit` or `exit`
    Quit,
    /// Any other first word.
    Unknown,
}

/// A [`Command`] with the characters of its texts.
pub ghost enum CommandView {
    Empty,
    ListPresets,
    ListMelodies,
    ListUnknown,
    ListUsage,
    Play { preset: Seq<char>, melody: Seq<char> },
    PlayUsage,
    Demo,
    Help,
    Quit,
    Unknown,
}

impl View for Command {
    type V = CommandView;

    open spec fn view(&self) -> CommandView {
        match *self {
            Command::Empty => CommandView::Empty,
            Command::ListPresets => CommandView::ListPresets,
            Command::ListMelodies => CommandView::ListMelodies,
            Command::ListUnknown => CommandView::ListUnknown,
            Command::ListUsage => CommandView::ListUsage,
            Command::Play { preset, melody } => CommandView::Play {
                preset: preset@,
                melody: melody@,
            },
            Command::PlayUsage => CommandView::PlayUsage,
            Command::Demo => CommandView::Demo,
            Command::Help => CommandView::Help,
            Command::Quit => CommandView::Quit,
            Command::Unknown => CommandView::Unknown,
        }
    }
}

/// The command that a line of these words gives. The first word decides;
/// `list` looks at the second word, and `play` takes the second word as the
/// preset and all that follow, put together with single spaces, as the
/// melody.
pub open spec fn command_of(words: Seq<Seq<char>>) -> CommandView {
    if words.len() == 0 {
        CommandView::Empty
    } else if words[0] == "list"@ {
        if words.len() == 1 {
            CommandView::ListUsage
        } else if words[1] == "presets"@ {
            CommandView::ListPresets
        } else if words[1] == "melodies"@ {
            CommandView::ListMelodies
        } else {
            CommandView::ListUnknown
        }
    } else if words[0] == "play"@ {
        if words.len() >= 3 {
            CommandView::Play { preset: words[1], melody: joined(words.skip(2), seq![' ']) }
        } else {
            CommandView::PlayUsage
        }
    } else if words[0] == "demo"@ {
        CommandView::Demo
    } else if words[0] == "help"@ {
        CommandView::Help
    } else if words[0] == "quit"@ || words[0] == "exit"@ {
        CommandView::Quit
    } else {
        CommandView::Unknown
    }
}

/// Tells what the words of a line ask for.
pub fn interpret(words: &Vec<&str>) -> (command: Command)
    ensures
        command@ == command_of(words.deep_view()),
{
    if words.len() == 0 {
        return Command::Empty;
    }
    assert(words.deep_view()[0] == words[0]@);
    let first: &str = words[0];
    if first.eq("list") {
        if words.len() == 1 {
            Command::ListUsage
        } else {
            assert(words.deep_view()[1] == words[1]@);
            let second: &str = words[1];
            if second.eq("presets") {
                Command::ListPresets
            } else if second.eq("melodies") {
                Command::ListMelodies
            } else {
                Command::ListUnknown
            }
        }
    } else if first.eq("play") {
        if words.len() >= 3 {
            assert(words.deep_view()[1] == words[1]@);
            Command::Play { preset: String::from_str(words[1]), melody: join_words(words, 2) }
        } else {
            Command::PlayUsage
        }
    } else if first.eq("demo") {
        Command::Demo
    } else if first.eq("help") {
        Command::Help
    } else if first.eq("quit") || first.eq("exit") {
        Command::Quit
    } else {
        Command::Unknown
    }
}

/// Tells what a line typed at the prompt asks for.
pub fn parse_command(line: &str) -> (command: Command)
    ensures
        command@ == command_of(words_of(line@)),
{
    interpret(&split_words(line))
}

/// The scale that the demonstration plays with every preset: C major, up
/// from middle C.
pub open spec fn demo_scale_notes() -> Notes {
    seq![
        ("C4"@, 300u64), ("D4"@, 300u64), ("E4"@, 300u64), ("F4"@, 300u64), ("G4"@, 300u64),
        ("A4"@, 300u64), ("B4"@, 300u64), ("C5"@, 600u64),
    ]
}

/// The scale that the demonstration plays with every preset.
pub fn demo_scale() -> (scale: Vec<(&'static str, u64)>)
    ensures
        scale.deep_view() == demo_scale_notes(),
{
    let scale = vec![
        ("C4", 300), ("D4", 300), ("E4", 300), ("F4", 300), ("G4", 300), ("A4", 300),
        ("B4", 300), ("C5", 600),
    ];
    assert(scale.deep_view() =~= demo_scale_notes());
    scale
}

} // verus!
