//! What one run is asked to do: switch caching, look a word up, or end with
//! an error of usage.

use crate::settings::TonguesConfig;
use vstd::prelude::*;

verus! {

/// Said where the directory of the settings cannot be found.
pub const NO_DIRECTORY_MESSAGE: &'static str =
    "Error: cannot find configuration directory, caching will be disabled";

/// Said where caching is switched on and off at once.
pub const CONFLICT_MESSAGE: &'static str =
    "Error: you cannot enable and disable caching simultaneously";

/// Said once caching is switched on.
pub const ENABLED_MESSAGE: &'static str = "Caching enabled";

/// Said once caching is switched off.
pub const DISABLED_MESSAGE: &'static str = "Caching disabled";

/// Said where no word was given.
pub const MISSING_WORD_MESSAGE: &'static str = "Error: you have not specified a word to define";

/// The arguments of one run.
#[derive(Debug, PartialEq, Eq)]
pub struct Args {
    /// The word to look up.
    pub word: Option<String>,
    /// Whether the phonetic spelling is shown too.
    pub phonetic: bool,
    /// Switch caching on.
    pub enable_caching: bool,
    /// Switch caching off.
    pub disable_caching: bool,
}

/// The mathematical value of [`Args`].
pub struct ArgsView {
    pub word: Option<Seq<char>>,
    pub phonetic: bool,
    pub enable_caching: bool,
    pub disable_caching: bool,
}

impl View for Args {
    type V = ArgsView;

    open spec fn view(&self) -> ArgsView {
        ArgsView {
            word: self.word.deep_view(),
            phonetic: self.phonetic,
            enable_caching: self.enable_caching,
            disable_caching: self.disable_caching,
        }
    }
}

/// Where a message goes.
#[derive(Debug, Clone, Copy, PartialEq, Eq, Structural)]
pub enum Stream {
    Output,
    Error,
}

/// What a run does.
#[derive(Debug, PartialEq, Eq)]
pub enum Command {
    /// The directory of the settings cannot be found: caching is switched
    /// off for good and the run ends.
    NoConfigDirectory,
    /// Caching was switched on and off at once.
    ConflictingFlags,
    /// Caching is switched, and nothing is looked up.
    SetCaching { caching: bool },
    /// No word was given.
    MissingWord,
    /// The word is looked up.
    Lookup { word: String, phonetic: bool, caching: bool },
}

/// The mathematical value of a [`Command`].
pub enum CommandView {
    NoConfigDirectory,
    ConflictingFlags,
    SetCaching { caching: bool },
    MissingWord,
    Lookup { word: Seq<char>, phonetic: bool, caching: bool },
}

impl View for Command {
    type V = CommandView;

    open spec fn view(&self) -> CommandView {
        match self {
            Command::NoConfigDirectory => CommandView::NoConfigDirectory,
            Command::ConflictingFlags => CommandView::ConflictingFlags,
            Command::SetCaching { caching } => CommandView::SetCaching { caching: *caching },
            Command::MissingWord => CommandView::MissingWord,
            Command::Lookup { word, phonetic, caching } => CommandView::Lookup {
                word: word@,
                phonetic: *phonetic,
                caching: *caching,
            },
        }
    }
}

/// What a run with `args` does. A missing directory of the settings comes
/// before everything else, then the switches, then the word; a word is
/// looked up with the caching that `settings` hold.
pub open spec fn decision(
    args: ArgsView,
    settings: TonguesConfig,
    directory_found: bool,
) -> CommandView {
    if !directory_found {
        CommandView::NoConfigDirectory
    } else if args.enable_caching && args.disable_caching {
        CommandView::ConflictingFlags
    } else if args.enable_caching {
        CommandView::SetCaching { caching: true }
    } else if args.disable_caching {
        CommandView::SetCaching { caching: false }
    } else {
        match args.word {
            Some(word) => CommandView::Lookup {
                word,
                phonetic: args.phonetic,
                caching: settings.caching,
            },
            None => CommandView::MissingWord,
        }
    }
}

/// One thing that a run does to the world outside.
#[derive(Debug, Clone, Copy, PartialEq, Eq)]
pub enum Effect {
    /// Print `text` as a line on `stream`.
    Say { stream: Stream, text: &'static str },
    /// Keep `settings` from now on.
    Store { settings: TonguesConfig },
    /// End the run with `status`.
    Exit { status: i32 },
}

/// The mathematical value of an [`Effect`].
pub enum EffectView {
    Say { stream: Stream, text: Seq<char> },
    Store { settings: TonguesConfig },
    Exit { status: i32 },
}

impl View for Effect {
    type V = EffectView;

    open spec fn view(&self) -> EffectView {
        match self {
            Effect::Say { stream, text } => EffectView::Say { stream: *stream, text: text@ },
            Effect::Store { settings } => EffectView::Store { settings: *settings },
            Effect::Exit { status } => EffectView::Exit { status: *status },
        }
    }
}

impl CommandView {
    /// What the run does before anything is looked up, in this order. An
    /// error is said and ends the run with status 1; only a missing
    /// directory of the settings also switches caching off. A switch of
    /// caching is kept, then confirmed, and ends the run with status 0. A
    /// lookup does nothing here.
    pub open spec fn effects(self, current: TonguesConfig) -> Seq<EffectView> {
        match self {
            CommandView::NoConfigDirectory => seq![
                EffectView::Say { stream: Stream::Error, text: NO_DIRECTORY_MESSAGE@ },
                EffectView::Store { settings: TonguesConfig { caching: false, ..current } },
                EffectView::Exit { status: 1 },
            ],
            CommandView::ConflictingFlags => seq![
                EffectView::Say { stream: Stream::Error, text: CONFLICT_MESSAGE@ },
                EffectView::Exit { status: 1 },
            ],
            CommandView::SetCaching { caching } => seq![
                EffectView::Store { settings: TonguesConfig { caching, ..current } },
                EffectView::Say {
                    stream: Stream::Output,
                    text: if caching {
                        ENABLED_MESSAGE@
                    } else {
                        DISABLED_MESSAGE@
                    },
                },
                EffectView::Exit { status: 0 },
            ],
            CommandView::MissingWord => seq![
                EffectView::Say { stream: Stream::Error, text: MISSING_WORD_MESSAGE@ },
                EffectView::Exit { status: 1 },
            ],
            CommandView::Lookup { .. } => Seq::empty(),
        }
    }
}

/// The views of `effects`, one for one.
pub open spec fn effect_views(effects: Seq<Effect>) -> Seq<EffectView> {
    Seq::new(effects.len(), |i: int| effects[i]@)
}

/// Decides what a run with `args` does, given the settings as they were
/// loaded and whether their directory was found.
pub fn decide(args: Args, settings: TonguesConfig, directory_found: bool) -> (command: Command)
    ensures
        command@ == decision(args@, settings, directory_found),
{
    if !directory_found {
        Command::NoConfigDirectory
    } else if args.enable_caching && args.disable_caching {
        Command::ConflictingFlags
    } else if args.enable_caching {
        Command::SetCaching { caching: true }
    } else if args.disable_caching {
        Command::SetCaching { caching: false }
    } else {
        match args.word {
            Some(word) => Command::Lookup {
                word,
                phonetic: args.phonetic,
                caching: settings.caching,
            },
            None => Command::MissingWord,
        }
    }
}

impl Command {
    /// What the run does before anything is looked up, in this order.
    pub fn effects(&self, current: TonguesConfig) -> (effects: Vec<Effect>)
        ensures
            effect_views(effects@) == self@.effects(current),
            effects@.len() == self@.effects(current).len(),
    {
        let mut effects: Vec<Effect> = Vec::new();
        match self {
            Command::NoConfigDirectory => {
                effects.push(Effect::Say { stream: Stream::Error, text: NO_DIRECTORY_MESSAGE });
                effects.push(Effect::Store { settings: current.with_caching(false) });
                effects.push(Effect::Exit { status: 1 });
            },
            Command::ConflictingFlags => {
                effects.push(Effect::Say { stream: Stream::Error, text: CONFLICT_MESSAGE });
                effects.push(Effect::Exit { status: 1 });
            },
            Command::SetCaching { caching } => {
                effects.push(Effect::Store { settings: current.with_caching(*caching) });
                if *caching {
                    effects.push(Effect::Say { stream: Stream::Output, text: ENABLED_MESSAGE });
                } else {
                    effects.push(Effect::Say { stream: Stream::Output, text: DISABLED_MESSAGE });
                }
                effects.push(Effect::Exit { status: 0 });
            },
            Command::MissingWord => {
                effects.push(Effect::Say { stream: Stream::Error, text: MISSING_WORD_MESSAGE });
                effects.push(Effect::Exit { status: 1 });
            },
            Command::Lookup { .. } => {},
        }
        assert(effect_views(effects@) =~= self@.effects(current));
        effects
    }
}

/// With the directory of the settings at hand, switching caching on and off
/// at once says so on the error stream and ends the run with status 1;
/// nothing is kept, so the settings stay as they are.
pub proof fn law_conflicting_switches(args: ArgsView, settings: TonguesConfig)
    requires
        args.enable_caching,
        args.disable_caching,
    ensures
        decision(args, settings, true).effects(settings) == seq![
            EffectView::Say { stream: Stream::Error, text: CONFLICT_MESSAGE@ },
            EffectView::Exit { status: 1 },
        ],
{
}

/// With the directory of the settings at hand and caching left alone, a run
/// without a word says so on the error stream and ends with status 1.
pub proof fn law_missing_word(args: ArgsView, settings: TonguesConfig)
    requires
        args.word is None,
        !args.enable_caching,
        !args.disable_caching,
    ensures
        decision(args, settings, true).effects(settings) == seq![
            EffectView::Say { stream: Stream::Error, text: MISSING_WORD_MESSAGE@ },
            EffectView::Exit { status: 1 },
        ],
{
}

} // verus!
