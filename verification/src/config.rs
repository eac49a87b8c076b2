//! The persisted configuration of one command note and its error taxonomy.

use vstd::prelude::*;

verus! {

/// The render mode chosen for a command's output.
#[derive(Clone, Copy, Debug, PartialEq, Eq)]
pub enum ResultKind {
    Text,
    Html,
    Svg,
    Markdown,
}

impl ResultKind {
    /// Text and Markdown display line by line as output arrives; Html and
    /// Svg are only meaningful whole, so they update once per run.
    pub open spec fn is_incremental(self) -> bool {
        self is Text || self is Markdown
    }

    /// Executable twin of [`Self::is_incremental`].
    pub fn renders_incrementally(&self) -> (r: bool)
        ensures
            r == self.is_incremental(),
    {
        match self {
            ResultKind::Text => true,
            ResultKind::Markdown => true,
            ResultKind::Html => false,
            ResultKind::Svg => false,
        }
    }
}

/// A run's output under its chosen render mode; the payload is present only
/// once a run has produced it.
#[derive(Clone, Debug, PartialEq, Eq)]
pub enum CommandResult {
    Text(Option<String>),
    Html(Option<String>),
    Svg(Option<String>),
    Markdown(Option<String>),
}

/// The mathematical content of a [`CommandResult`]: its tag and payload.
pub struct ResultModel {
    pub kind: ResultKind,
    pub payload: Option<Seq<char>>,
}

impl View for CommandResult {
    type V = ResultModel;

    open spec fn view(&self) -> ResultModel {
        match self {
            CommandResult::Text(p) => ResultModel {
                kind: ResultKind::Text,
                payload: match p {
                    Some(s) => Some(s@),
                    None => None,
                },
            },
            CommandResult::Html(p) => ResultModel {
                kind: ResultKind::Html,
                payload: match p {
                    Some(s) => Some(s@),
                    None => None,
                },
            },
            CommandResult::Svg(p) => ResultModel {
                kind: ResultKind::Svg,
                payload: match p {
                    Some(s) => Some(s@),
                    None => None,
                },
            },
            CommandResult::Markdown(p) => ResultModel {
                kind: ResultKind::Markdown,
                payload: match p {
                    Some(s) => Some(s@),
                    None => None,
                },
            },
        }
    }
}

impl CommandResult {
    /// An empty result of the given render mode.
    pub fn empty_of_kind(kind: ResultKind) -> (r: CommandResult)
        ensures
            r@ == (ResultModel { kind, payload: None::<Seq<char>> }),
    {
        match kind {
            ResultKind::Text => CommandResult::Text(None),
            ResultKind::Html => CommandResult::Html(None),
            ResultKind::Svg => CommandResult::Svg(None),
            ResultKind::Markdown => CommandResult::Markdown(None),
        }
    }

    /// The same render mode carrying the given payload.
    pub fn replace_payload(&mut self, payload: Option<String>)
        ensures
            final(self)@ == (ResultModel {
                kind: old(self)@.kind,
                payload: match payload {
                    Some(s) => Some(s@),
                    None => None::<Seq<char>>,
                },
            }),
    {
        match self {
            CommandResult::Text(p) => *p = payload,
            CommandResult::Html(p) => *p = payload,
            CommandResult::Svg(p) => *p = payload,
            CommandResult::Markdown(p) => *p = payload,
        }
    }

    /// The render mode of this result.
    pub fn kind(&self) -> (k: ResultKind)
        ensures
            k == self@.kind,
    {
        match self {
            CommandResult::Text(_) => ResultKind::Text,
            CommandResult::Html(_) => ResultKind::Html,
            CommandResult::Svg(_) => ResultKind::Svg,
            CommandResult::Markdown(_) => ResultKind::Markdown,
        }
    }

    /// A reference to the payload, if a run has produced one.
    pub fn payload(&self) -> (p: Option<&String>)
        ensures
            p matches Some(s) ==> self@.payload == Some(s@),
            p is None ==> self@.payload is None,
    {
        match self {
            CommandResult::Text(p) => p.as_ref(),
            CommandResult::Html(p) => p.as_ref(),
            CommandResult::Svg(p) => p.as_ref(),
            CommandResult::Markdown(p) => p.as_ref(),
        }
    }
}

/// When and how runs recur; absence means "run once on demand."
#[derive(Clone, Debug, PartialEq, Eq)]
pub enum Scheduler {
    Cron(String),
}

/// The persisted configuration of one command note.
#[derive(Clone, Debug, PartialEq, Eq)]
pub struct CommandContent {
    /// Shell-style command line, split into program and arguments when run.
    pub command: String,
    /// `KEY=VALUE` overrides, one per line; see [`crate::envblock`].
    pub environments: String,
    /// The child's working directory when non-blank.
    pub working_dir: String,
    /// A recurring schedule, if one is configured.
    pub scheduler: Option<Scheduler>,
    /// With a schedule set, whether to also run once before the first fire.
    pub run_immediately: bool,
    /// The last finished output, under its render mode.
    pub result: CommandResult,
    /// When true, the visible result is cleared when a run starts, so new
    /// output displays incrementally; when false, the previous result stays
    /// visible until the new one is ready.
    pub stream_result: bool,
}

/// The mathematical content of a [`CommandContent`].
pub struct ContentModel {
    pub command: Seq<char>,
    pub environments: Seq<char>,
    pub working_dir: Seq<char>,
    pub scheduler: Option<Seq<char>>,
    pub run_immediately: bool,
    pub result: ResultModel,
    pub stream_result: bool,
}

impl View for CommandContent {
    type V = ContentModel;

    open spec fn view(&self) -> ContentModel {
        ContentModel {
            command: self.command@,
            environments: self.environments@,
            working_dir: self.working_dir@,
            scheduler: match self.scheduler {
                Some(Scheduler::Cron(e)) => Some(e@),
                None => None,
            },
            run_immediately: self.run_immediately,
            result: self.result@,
            stream_result: self.stream_result,
        }
    }
}

/// The configuration a freshly created note starts from, and the fallback
/// when a stored document cannot be read.
pub open spec fn default_content() -> ContentModel {
    ContentModel {
        command: Seq::empty(),
        environments: Seq::empty(),
        working_dir: Seq::empty(),
        scheduler: None,
        run_immediately: true,
        result: ResultModel { kind: ResultKind::Text, payload: None },
        stream_result: false,
    }
}

impl Default for CommandContent {
    fn default() -> (r: Self)
        ensures
            r@ == default_content(),
    {
        CommandContent {
            command: String::new(),
            environments: String::new(),
            working_dir: String::new(),
            scheduler: None,
            run_immediately: true,
            result: CommandResult::Text(None),
            stream_result: false,
        }
    }
}

/// Everything that can go wrong for one note; all variants are note-local
/// and recoverable, surfacing as the note's last error.
#[derive(Clone, Debug, PartialEq, Eq)]
pub enum CommandError {
    /// The command line is blank, or splits into no arguments.
    EmptyCommand,
    /// The program did not resolve on PATH; carries the program name.
    ProgramNotFound(String),
    /// The OS refused to start the process; carries the cause.
    SpawnFailed(String),
    /// The cron expression did not parse; carries the parser's message.
    InvalidCronExpression(String),
    /// A cron schedule is selected but its expression is blank.
    EmptyCronExpression,
    /// The configuration could not be turned into its stored form.
    SerializationFailed(String),
    /// The storage collaborator rejected a save.
    PersistFailed(String),
}

/// The mathematical content of a [`CommandError`].
pub enum ErrorModel {
    EmptyCommand,
    ProgramNotFound(Seq<char>),
    SpawnFailed(Seq<char>),
    InvalidCronExpression(Seq<char>),
    EmptyCronExpression,
    SerializationFailed(Seq<char>),
    PersistFailed(Seq<char>),
}

impl View for CommandError {
    type V = ErrorModel;

    open spec fn view(&self) -> ErrorModel {
        match self {
            CommandError::EmptyCommand => ErrorModel::EmptyCommand,
            CommandError::ProgramNotFound(s) => ErrorModel::ProgramNotFound(s@),
            CommandError::SpawnFailed(s) => ErrorModel::SpawnFailed(s@),
            CommandError::InvalidCronExpression(s) => ErrorModel::InvalidCronExpression(s@),
            CommandError::EmptyCronExpression => ErrorModel::EmptyCronExpression,
            CommandError::SerializationFailed(s) => ErrorModel::SerializationFailed(s@),
            CommandError::PersistFailed(s) => ErrorModel::PersistFailed(s@),
        }
    }
}

/// The user-facing text of an error.
pub open spec fn message_spec(e: ErrorModel) -> Seq<char> {
    match e {
        ErrorModel::EmptyCommand => "Command cannot be empty"@,
        ErrorModel::ProgramNotFound(p) => "Command not found: "@ + p,
        ErrorModel::SpawnFailed(c) => "Failed to start command: "@ + c,
        ErrorModel::InvalidCronExpression(c) => "Invalid cron expression: "@ + c,
        ErrorModel::EmptyCronExpression => "Cron expression cannot be empty"@,
        ErrorModel::SerializationFailed(c) => "Failed to serialize command sticker: "@ + c,
        ErrorModel::PersistFailed(c) => "Failed to save command sticker: "@ + c,
    }
}

impl CommandError {
    /// The user-facing text of this error.
    pub fn message(&self) -> (m: String)
        ensures
            m@ == message_spec(self@),
    {
        match self {
            CommandError::EmptyCommand => String::from_str("Command cannot be empty"),
            CommandError::ProgramNotFound(p) => {
                let mut m = String::from_str("Command not found: ");
                m.append(p.as_str());
                m
            },
            CommandError::SpawnFailed(c) => {
                let mut m = String::from_str("Failed to start command: ");
                m.append(c.as_str());
                m
            },
            CommandError::InvalidCronExpression(c) => {
                let mut m = String::from_str("Invalid cron expression: ");
                m.append(c.as_str());
                m
            },
            CommandError::EmptyCronExpression => String::from_str(
                "Cron expression cannot be empty",
            ),
            CommandError::SerializationFailed(c) => {
                let mut m = String::from_str("Failed to serialize command sticker: ");
                m.append(c.as_str());
                m
            },
            CommandError::PersistFailed(c) => {
                let mut m = String::from_str("Failed to save command sticker: ");
                m.append(c.as_str());
                m
            },
        }
    }
}

} // verus!
