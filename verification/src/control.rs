//! The console commands of the control path: what a line of input asks for,
//! and which effect unit is active once it has been applied.
//!
//! A command's numbers are handed on as the words that were typed. Reading a
//! word as a number, and bringing the number into the range of the parameter,
//! is the business of whoever applies the command; a command whose word is no
//! number is not applied at all.

use crate::algorithm::DistortionType;
use crate::words::{split_words, texts, words};
use vstd::prelude::*;

verus! {

/// The effect unit through which the render stage routes each sample.
#[derive(Debug, Clone, Copy, PartialEq, Eq, Structural)]
pub enum EffectSelector {
    Reverb,
    Distortion,
}

/// A parameter of one of the two effect units that takes a number.
#[derive(Debug, Clone, Copy, PartialEq, Eq, Structural)]
pub enum Parameter {
    /// Wet level of the reverb.
    Wet,
    /// Dry level of the reverb.
    Dry,
    /// Room size of the reverb.
    RoomSize,
    /// Dampening of the reverb.
    Dampening,
    /// Stereo width of the reverb.
    Width,
    /// Drive of the distortion.
    Drive,
    /// Output level of the distortion.
    Level,
    /// Tone of the distortion.
    Tone,
}

/// A level that a preset writes: nothing, one half, or all.
#[derive(Debug, Clone, Copy, PartialEq, Eq, Structural)]
pub enum Amount {
    Zero,
    Half,
    Full,
}

/// What one line of console input asks for.
#[derive(Debug, PartialEq, Eq)]
pub enum Command {
    /// Give `parameter` the number written in `value`, and make the unit
    /// that owns the parameter the active one.
    Adjust { parameter: Parameter, value: String },
    /// Switch to the bit crusher with the rate and depth written in the two
    /// words, and make the distortion the active unit.
    BitCrusher { rate: String, depth: String },
    /// Switch to the given algorithm, and make the distortion the active unit.
    Algorithm(DistortionType),
    /// Silence both units and let the reverb pass the dry signal.
    DryOnly,
    /// Bring the reverb to its neutral setting and silence the distortion.
    Passthrough,
    /// Stop the program.
    Quit,
}

/// A command with its words as sequences of characters.
pub enum CommandView {
    Adjust { parameter: Parameter, value: Seq<char> },
    BitCrusher { rate: Seq<char>, depth: Seq<char> },
    Algorithm(DistortionType),
    DryOnly,
    Passthrough,
    Quit,
}

impl View for Command {
    type V = CommandView;

    open spec fn view(&self) -> CommandView {
        match *self {
            Command::Adjust { parameter, value } => CommandView::Adjust { parameter, value: value@ },
            Command::BitCrusher { rate, depth } => CommandView::BitCrusher {
                rate: rate@,
                depth: depth@,
            },
            Command::Algorithm(algorithm) => CommandView::Algorithm(algorithm),
            Command::DryOnly => CommandView::DryOnly,
            Command::Passthrough => CommandView::Passthrough,
            Command::Quit => CommandView::Quit,
        }
    }
}

/// The parameter that the verb of a two-word command names.
pub open spec fn parameter_named(verb: Seq<char>) -> Option<Parameter> {
    if verb == "w"@ {
        Some(Parameter::Wet)
    } else if verb == "d"@ {
        Some(Parameter::Dry)
    } else if verb == "r"@ {
        Some(Parameter::RoomSize)
    } else if verb == "p"@ {
        Some(Parameter::Dampening)
    } else if verb == "x"@ {
        Some(Parameter::Width)
    } else if verb == "dr"@ {
        Some(Parameter::Drive)
    } else if verb == "l"@ {
        Some(Parameter::Level)
    } else if verb == "t"@ {
        Some(Parameter::Tone)
    } else {
        None
    }
}

/// The algorithm that a one-word command names.
pub open spec fn algorithm_named(verb: Seq<char>) -> Option<DistortionType> {
    if verb == "soft"@ {
        Some(DistortionType::Soft)
    } else if verb == "hard"@ {
        Some(DistortionType::Hard)
    } else if verb == "bit"@ {
        Some(DistortionType::BitCrusher)
    } else if verb == "wave"@ {
        Some(DistortionType::Wavefolder)
    } else if verb == "over"@ {
        Some(DistortionType::Overdrive)
    } else {
        None
    }
}

/// The command that a line with the given words stands for, if it is one.
///
/// A verb counts only with the number of words that belongs to it: one word
/// for an algorithm, `dry`, `pass` and `q`, two for a parameter, three for
/// `bc`. Every other line is no command.
pub open spec fn command_of(line: Seq<Seq<char>>) -> Option<CommandView> {
    if line.len() == 1 {
        if algorithm_named(line[0]) is Some {
            Some(CommandView::Algorithm(algorithm_named(line[0])->0))
        } else if line[0] == "dry"@ {
            Some(CommandView::DryOnly)
        } else if line[0] == "pass"@ {
            Some(CommandView::Passthrough)
        } else if line[0] == "q"@ {
            Some(CommandView::Quit)
        } else {
            None
        }
    } else if line.len() == 2 {
        if parameter_named(line[0]) is Some {
            Some(CommandView::Adjust { parameter: parameter_named(line[0])->0, value: line[1] })
        } else {
            None
        }
    } else if line.len() == 3 && line[0] == "bc"@ {
        Some(CommandView::BitCrusher { rate: line[1], depth: line[2] })
    } else {
        None
    }
}

/// The view of a command that may be absent.
pub open spec fn view_of(command: Option<Command>) -> Option<CommandView> {
    match command {
        Some(c) => Some(c@),
        None => None,
    }
}

impl Amount {
    /// The level in halves of the full level.
    pub open spec fn in_halves(self) -> nat {
        match self {
            Amount::Zero => 0,
            Amount::Half => 1,
            Amount::Full => 2,
        }
    }

    /// The level in halves of the full level: 0 for nothing, 1 for one half,
    /// 2 for all.
    pub fn halves(self) -> (count: u8)
        ensures
            count == self.in_halves(),
    {
        match self {
            Amount::Zero => 0,
            Amount::Half => 1,
            Amount::Full => 2,
        }
    }
}

impl Parameter {
    /// The unit that owns the parameter.
    pub open spec fn unit(self) -> EffectSelector {
        match self {
            Parameter::Wet
            | Parameter::Dry
            | Parameter::RoomSize
            | Parameter::Dampening
            | Parameter::Width => EffectSelector::Reverb,
            Parameter::Drive | Parameter::Level | Parameter::Tone => EffectSelector::Distortion,
        }
    }

    /// The unit that owns the parameter.
    pub fn effect(self) -> (owner: EffectSelector)
        ensures
            owner == self.unit(),
    {
        match self {
            Parameter::Wet
            | Parameter::Dry
            | Parameter::RoomSize
            | Parameter::Dampening
            | Parameter::Width => EffectSelector::Reverb,
            Parameter::Drive | Parameter::Level | Parameter::Tone => EffectSelector::Distortion,
        }
    }
}

impl CommandView {
    /// The unit that the command makes the active one, if it chooses one.
    pub open spec fn selected(self) -> Option<EffectSelector> {
        match self {
            CommandView::Adjust { parameter, .. } => Some(parameter.unit()),
            CommandView::BitCrusher { .. } => Some(EffectSelector::Distortion),
            CommandView::Algorithm(_) => Some(EffectSelector::Distortion),
            CommandView::DryOnly => None,
            CommandView::Passthrough => None,
            CommandView::Quit => None,
        }
    }

    /// The algorithm that the command switches to, if it switches.
    pub open spec fn algorithm(self) -> Option<DistortionType> {
        match self {
            CommandView::BitCrusher { .. } => Some(DistortionType::BitCrusher),
            CommandView::Algorithm(algorithm) => Some(algorithm),
            _ => None,
        }
    }

    /// The levels that the command writes by itself, in the order in which
    /// they are written.
    pub open spec fn preset(self) -> Seq<(Parameter, Amount)> {
        match self {
            CommandView::DryOnly => seq![
                (Parameter::Wet, Amount::Zero),
                (Parameter::Dry, Amount::Full),
                (Parameter::Level, Amount::Zero),
            ],
            CommandView::Passthrough => seq![
                (Parameter::Wet, Amount::Zero),
                (Parameter::Dry, Amount::Full),
                (Parameter::RoomSize, Amount::Zero),
                (Parameter::Dampening, Amount::Zero),
                (Parameter::Width, Amount::Half),
                (Parameter::Level, Amount::Zero),
            ],
            _ => Seq::empty(),
        }
    }
}

impl Command {
    /// The unit that the command makes the active one, if it chooses one.
    pub fn selects(&self) -> (unit: Option<EffectSelector>)
        ensures
            unit == self@.selected(),
    {
        match self {
            Command::Adjust { parameter, .. } => Some(parameter.effect()),
            Command::BitCrusher { .. } => Some(EffectSelector::Distortion),
            Command::Algorithm(_) => Some(EffectSelector::Distortion),
            Command::DryOnly => None,
            Command::Passthrough => None,
            Command::Quit => None,
        }
    }

    /// The algorithm that the command switches to, if it switches.
    pub fn algorithm(&self) -> (algorithm: Option<DistortionType>)
        ensures
            algorithm == self@.algorithm(),
    {
        match self {
            Command::BitCrusher { .. } => Some(DistortionType::BitCrusher),
            Command::Algorithm(algorithm) => Some(*algorithm),
            _ => None,
        }
    }

    /// The levels that the command writes by itself, in the order in which
    /// they are written. Only `DryOnly` and `Passthrough` write any.
    pub fn preset(&self) -> (writes: Vec<(Parameter, Amount)>)
        ensures
            writes@ == self@.preset(),
    {
        let mut writes: Vec<(Parameter, Amount)> = Vec::new();
        match self {
            Command::DryOnly => {
                writes.push((Parameter::Wet, Amount::Zero));
                writes.push((Parameter::Dry, Amount::Full));
                writes.push((Parameter::Level, Amount::Zero));
            },
            Command::Passthrough => {
                writes.push((Parameter::Wet, Amount::Zero));
                writes.push((Parameter::Dry, Amount::Full));
                writes.push((Parameter::RoomSize, Amount::Zero));
                writes.push((Parameter::Dampening, Amount::Zero));
                writes.push((Parameter::Width, Amount::Half));
                writes.push((Parameter::Level, Amount::Zero));
            },
            _ => {},
        }
        writes
    }
}

impl EffectSelector {
    /// The active unit once `command` has been applied: the one that the
    /// command chooses, or the one that was active before.
    pub open spec fn applied(self, command: CommandView) -> EffectSelector {
        match command.selected() {
            Some(unit) => unit,
            None => self,
        }
    }

    /// The active unit once `command` has been applied.
    pub fn after(self, command: &Command) -> (active: EffectSelector)
        ensures
            active == self.applied(command@),
    {
        match command.selects() {
            Some(unit) => unit,
            None => self,
        }
    }
}

/// Whether two strings hold the same characters.
pub fn same_text(a: &str, b: &str) -> (same: bool)
    ensures
        same == (a@ == b@),
{
    let n = a.unicode_len();
    if n != b.unicode_len() {
        return false;
    }
    let mut i: usize = 0;
    while i < n
        invariant
            i <= n,
            n == a@.len(),
            n == b@.len(),
            forall|k: int| 0 <= k < i ==> a@[k] == b@[k],
        decreases n - i,
    {
        if a.get_char(i) != b.get_char(i) {
            return false;
        }
        i += 1;
    }
    assert(a@ =~= b@);
    true
}

/// The parameter that `verb` names.
pub fn parameter_for(verb: &str) -> (parameter: Option<Parameter>)
    ensures
        parameter == parameter_named(verb@),
{
    if same_text(verb, "w") {
        Some(Parameter::Wet)
    } else if same_text(verb, "d") {
        Some(Parameter::Dry)
    } else if same_text(verb, "r") {
        Some(Parameter::RoomSize)
    } else if same_text(verb, "p") {
        Some(Parameter::Dampening)
    } else if same_text(verb, "x") {
        Some(Parameter::Width)
    } else if same_text(verb, "dr") {
        Some(Parameter::Drive)
    } else if same_text(verb, "l") {
        Some(Parameter::Level)
    } else if same_text(verb, "t") {
        Some(Parameter::Tone)
    } else {
        None
    }
}

/// The algorithm that `verb` names.
pub fn algorithm_for(verb: &str) -> (algorithm: Option<DistortionType>)
    ensures
        algorithm == algorithm_named(verb@),
{
    if same_text(verb, "soft") {
        Some(DistortionType::Soft)
    } else if same_text(verb, "hard") {
        Some(DistortionType::Hard)
    } else if same_text(verb, "bit") {
        Some(DistortionType::BitCrusher)
    } else if same_text(verb, "wave") {
        Some(DistortionType::Wavefolder)
    } else if same_text(verb, "over") {
        Some(DistortionType::Overdrive)
    } else {
        None
    }
}

/// The command that a line with the given words stands for.
pub fn interpret(line: &Vec<String>) -> (command: Option<Command>)
    ensures
        view_of(command) == command_of(texts(line@)),
{
    if line.len() == 1 {
        let verb = line[0].as_str();
        match algorithm_for(verb) {
            Some(algorithm) => Some(Command::Algorithm(algorithm)),
            None => {
                if same_text(verb, "dry") {
                    Some(Command::DryOnly)
                } else if same_text(verb, "pass") {
                    Some(Command::Passthrough)
                } else if same_text(verb, "q") {
                    Some(Command::Quit)
                } else {
                    None
                }
            },
        }
    } else if line.len() == 2 {
        match parameter_for(line[0].as_str()) {
            Some(parameter) => Some(Command::Adjust { parameter, value: line[1].clone() }),
            None => None,
        }
    } else if line.len() == 3 && same_text(line[0].as_str(), "bc") {
        Some(Command::BitCrusher { rate: line[1].clone(), depth: line[2].clone() })
    } else {
        None
    }
}

/// The command that `line` stands for: its words are split at white space
/// and read as `command_of` says. A line that is no command gives `None`.
pub fn parse_command(line: &str) -> (command: Option<Command>)
    ensures
        view_of(command) == command_of(words(line@)),
{
    let found = split_words(line);
    interpret(&found)
}

} // verus!
