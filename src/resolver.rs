use vstd::prelude::*;

use crate::error::Error;

verus! {

/// The environment variable consulted when no secret file is given.
pub const SECRET_NAME: &'static str = "HTTPOSE_SECRET";

/// The prompt written before the secret is read from standard input.
pub const PROMPT: &'static str = "Enter the secret: ";

/// The places a secret can come from, highest priority first.
#[derive(PartialEq, Eq, Structural, Clone, Copy, Debug)]
pub enum SecretSource {
    File,
    EnvironmentVariable,
    InteractiveStdin,
}

/// The source that wins: a given file, else a set environment variable, else
/// the interactive prompt.
pub open spec fn ranked_source(file_given: bool, env_set: bool) -> SecretSource {
    if file_given {
        SecretSource::File
    } else if env_set {
        SecretSource::EnvironmentVariable
    } else {
        SecretSource::InteractiveStdin
    }
}

/// The work the resolver asks of its caller next.
#[derive(Debug, PartialEq, Eq)]
pub enum Step {
    /// Read the whole file at `path` as text; answer with `Event::FileRead`.
    ReadFile { path: String },
    /// Look up the variable named `SECRET_NAME`; answer with `Event::EnvRead`.
    ReadEnv,
    /// Write `PROMPT` to standard output and flush it; answer with
    /// `Event::PromptWritten`.
    Prompt,
    /// Read one line from standard input with echo switched off, restoring
    /// the terminal afterwards; answer with `Event::LineRead`.
    ReadHiddenLine,
    /// Resolution is over. When `end_prompt_line` holds, a newline is to be
    /// written so that later output does not follow the prompt on its line.
    Finish { result: Result<String, Error>, end_prompt_line: bool },
}

/// What the caller found when it did the work of a `Step`.
#[derive(Debug, PartialEq, Eq)]
pub enum Event {
    /// The file's contents, or the reason it could not be read.
    FileRead(Result<String, String>),
    /// The variable's value, or `None` where it is not set.
    EnvRead(Option<String>),
    /// Whether writing and flushing the prompt succeeded.
    PromptWritten(Result<(), String>),
    /// The line typed, `None` where input ended first, or the read error.
    LineRead(Result<Option<String>, String>),
}

/// Where a resolution stands.
pub enum Phase {
    AwaitingFile { path: String },
    AwaitingEnv,
    AwaitingPrompt,
    AwaitingLine,
    Finished,
}

/// Whether `event` answers the step that `phase` waits on.
pub open spec fn answers(phase: Phase, event: Event) -> bool {
    match phase {
        Phase::AwaitingFile { .. } => event is FileRead,
        Phase::AwaitingEnv => event is EnvRead,
        Phase::AwaitingPrompt => event is PromptWritten,
        Phase::AwaitingLine => event is LineRead,
        Phase::Finished => false,
    }
}

/// The secret from a file read, or the failure with the path attached.
pub open spec fn file_outcome(path: String, read: Result<String, String>) -> Result<String, Error> {
    match read {
        Ok(contents) => Ok(contents),
        Err(cause) => Err(Error::ReadFromFile { path, cause }),
    }
}

/// The secret from an interactive read: input that ends before a line is an
/// abort, which is not the same as an empty line.
pub open spec fn line_outcome(read: Result<Option<String>, String>) -> Result<String, Error> {
    match read {
        Ok(Some(line)) => Ok(line),
        Ok(None) => Err(Error::StdinAborted),
        Err(cause) => Err(Error::StdinError { cause }),
    }
}

/// The first phase and step of a resolution.
pub open spec fn start_spec(file: Option<String>) -> (Phase, Step) {
    match file {
        Some(path) => (Phase::AwaitingFile { path }, Step::ReadFile { path }),
        None => (Phase::AwaitingEnv, Step::ReadEnv),
    }
}

/// The next phase and step once `event` answers the step of `phase`.
pub open spec fn advance_spec(phase: Phase, event: Event) -> (Phase, Step) {
    match (phase, event) {
        (Phase::AwaitingFile { path }, Event::FileRead(read)) => (
            Phase::Finished,
            Step::Finish { result: file_outcome(path, read), end_prompt_line: false },
        ),
        (Phase::AwaitingEnv, Event::EnvRead(Some(value))) => (
            Phase::Finished,
            Step::Finish { result: Ok(value), end_prompt_line: false },
        ),
        (Phase::AwaitingEnv, Event::EnvRead(None)) => (Phase::AwaitingPrompt, Step::Prompt),
        (Phase::AwaitingPrompt, Event::PromptWritten(Ok(()))) => (
            Phase::AwaitingLine,
            Step::ReadHiddenLine,
        ),
        (Phase::AwaitingPrompt, Event::PromptWritten(Err(cause))) => (
            Phase::Finished,
            Step::Finish { result: Err(Error::StdoutError { cause }), end_prompt_line: false },
        ),
        (Phase::AwaitingLine, Event::LineRead(read)) => (
            Phase::Finished,
            Step::Finish { result: line_outcome(read), end_prompt_line: read is Ok && read->Ok_0 is Some },
        ),
        // An event that does not answer the pending step; `advance` rules it out.
        _ => (phase, Step::Finish { result: Err(Error::StdinAborted), end_prompt_line: false }),
    }
}

/// What the outside world would answer to each step of a resolution: the
/// file flag and the result of reading it, the environment variable, the
/// prompt write and the hidden line read.
pub struct Surroundings {
    pub file: Option<String>,
    pub file_read: Result<String, String>,
    pub env: Option<String>,
    pub prompt_written: Result<(), String>,
    pub line: Result<Option<String>, String>,
}

/// The event with which `w` answers `step`.
pub open spec fn answer(w: Surroundings, step: Step) -> Event {
    match step {
        Step::ReadFile { .. } => Event::FileRead(w.file_read),
        Step::ReadEnv => Event::EnvRead(w.env),
        Step::Prompt => Event::PromptWritten(w.prompt_written),
        _ => Event::LineRead(w.line),
    }
}

/// The steps taken from `phase` and `step` on, each answered by `w`, until
/// the resolution finishes or `fuel` runs out.
pub open spec fn run(phase: Phase, step: Step, w: Surroundings, fuel: nat) -> Seq<Step>
    decreases fuel,
{
    if fuel == 0 || step is Finish {
        seq![step]
    } else {
        let (next_phase, next_step) = advance_spec(phase, answer(w, step));
        seq![step] + run(next_phase, next_step, w, (fuel - 1) as nat)
    }
}

/// Every step of a whole resolution in the world `w`.
pub open spec fn trace(w: Surroundings) -> Seq<Step> {
    let (phase, step) = start_spec(w.file);
    run(phase, step, w, 4)
}

/// Tiered resolution: a given file is the only source consulted, and its
/// contents or its failure decide; else a set environment variable is the
/// only source consulted, and its value is the secret, empty or not; else,
/// and only then, the prompt is written and a hidden line read, where an
/// input that ends first is an abort.
pub proof fn lemma_tiered_resolution(w: Surroundings)
    ensures
        ranked_source(w.file is Some, w.env is Some) == SecretSource::File ==> trace(w) == seq![
            Step::ReadFile { path: w.file->0 },
            Step::Finish { result: file_outcome(w.file->0, w.file_read), end_prompt_line: false },
        ],
        ranked_source(w.file is Some, w.env is Some) == SecretSource::EnvironmentVariable
            ==> trace(w) == seq![
            Step::ReadEnv,
            Step::Finish { result: Ok(w.env->0), end_prompt_line: false },
        ],
        ranked_source(w.file is Some, w.env is Some) == SecretSource::InteractiveStdin
            && w.prompt_written is Err ==> trace(w) == seq![
            Step::ReadEnv,
            Step::Prompt,
            Step::Finish {
                result: Err(Error::StdoutError { cause: w.prompt_written->Err_0 }),
                end_prompt_line: false,
            },
        ],
        ranked_source(w.file is Some, w.env is Some) == SecretSource::InteractiveStdin
            && w.prompt_written is Ok ==> trace(w) == seq![
            Step::ReadEnv,
            Step::Prompt,
            Step::ReadHiddenLine,
            Step::Finish {
                result: line_outcome(w.line),
                end_prompt_line: w.line is Ok && w.line->Ok_0 is Some,
            },
        ],
{
    reveal_with_fuel(run, 5);
}

/// Resolves the secret from the first available source, asking its caller
/// for each read and write as it goes. Only the sources it asks about are
/// consulted: a lower-ranked one is never looked at once a higher one is
/// chosen, and a failure of the chosen source is final.
pub struct Resolver {
    phase: Phase,
}

impl View for Resolver {
    type V = Phase;

    closed spec fn view(&self) -> Phase {
        self.phase
    }
}

impl Resolver {
    /// Begins a resolution; `file` is the secret file given explicitly, if any.
    pub fn start(file: Option<String>) -> (r: (Resolver, Step))
        ensures
            (r.0@, r.1) == start_spec(file),
    {
        match file {
            Some(path) => {
                let step = Step::ReadFile { path: path.clone() };
                (Resolver { phase: Phase::AwaitingFile { path } }, step)
            },
            None => (Resolver { phase: Phase::AwaitingEnv }, Step::ReadEnv),
        }
    }

    /// Whether `event` is the answer the resolver waits for.
    pub fn expects(&self, event: &Event) -> (r: bool)
        ensures
            r == answers(self@, *event),
    {
        match (&self.phase, event) {
            (Phase::AwaitingFile { .. }, Event::FileRead(_)) => true,
            (Phase::AwaitingEnv, Event::EnvRead(_)) => true,
            (Phase::AwaitingPrompt, Event::PromptWritten(_)) => true,
            (Phase::AwaitingLine, Event::LineRead(_)) => true,
            _ => false,
        }
    }

    /// Takes the answer to the last step and gives the next one.
    pub fn advance(&mut self, event: Event) -> (r: Step)
        requires
            answers(old(self)@, event),
        ensures
            (final(self)@, r) == advance_spec(old(self)@, event),
    {
        let mut phase = Phase::Finished;
        core::mem::swap(&mut self.phase, &mut phase);
        match (phase, event) {
            (Phase::AwaitingFile { path }, Event::FileRead(read)) => {
                let result = match read {
                    Ok(contents) => Ok(contents),
                    Err(cause) => Err(Error::ReadFromFile { path, cause }),
                };
                Step::Finish { result, end_prompt_line: false }
            },
            (Phase::AwaitingEnv, Event::EnvRead(Some(value))) => {
                Step::Finish { result: Ok(value), end_prompt_line: false }
            },
            (Phase::AwaitingEnv, Event::EnvRead(None)) => {
                self.phase = Phase::AwaitingPrompt;
                Step::Prompt
            },
            (Phase::AwaitingPrompt, Event::PromptWritten(Ok(()))) => {
                self.phase = Phase::AwaitingLine;
                Step::ReadHiddenLine
            },
            (Phase::AwaitingPrompt, Event::PromptWritten(Err(cause))) => {
                Step::Finish { result: Err(Error::StdoutError { cause }), end_prompt_line: false }
            },
            (Phase::AwaitingLine, Event::LineRead(read)) => {
                match read {
                    Ok(Some(line)) => Step::Finish { result: Ok(line), end_prompt_line: true },
                    Ok(None) => Step::Finish {
                        result: Err(Error::StdinAborted),
                        end_prompt_line: false,
                    },
                    Err(cause) => Step::Finish {
                        result: Err(Error::StdinError { cause }),
                        end_prompt_line: false,
                    },
                }
            },
            // Ruled out by the precondition; the phase is left as it was.
            (other, _) => {
                self.phase = other;
                Step::Finish { result: Err(Error::StdinAborted), end_prompt_line: false }
            },
        }
    }
}

} // verus!
