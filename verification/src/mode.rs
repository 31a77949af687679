//! The callbacks that the list host drives, and what the detached
//! continuation does once an entry is confirmed.

use vstd::prelude::*;
use crate::config::{rendered, Config};
use crate::snippet::{
    evaluate, evaluation, shell_name, texts, EvalError, Evaluation, Progress, RunOutcome, Snippet,
};

verus! {

/// What the host reports of the user.
#[derive(Clone, Copy, Debug, PartialEq, Eq)]
pub enum Event {
    /// The user gave up.
    Cancel { selected: Option<usize> },
    /// The user confirmed the entry at `selected`.
    Confirm { alt: bool, selected: usize },
    /// The user confirmed text that is not in the list.
    CustomInput { alt: bool, selected: Option<usize> },
    /// The user asked for the selected entry's key as the filter text.
    Complete { selected: Option<usize> },
    /// The user asked to delete the entry at `selected`.
    DeleteEntry { selected: usize },
    /// The user ran a custom command.
    CustomCommand { number: u8, selected: Option<usize> },
}

/// What the host is asked to do next.
#[derive(Clone, Copy, Debug, PartialEq, Eq, Structural)]
pub enum Action {
    /// End the session.
    Exit,
    /// Show the list again.
    Reload,
}

/// How every entry is styled.
#[derive(Clone, Copy, Debug, PartialEq, Eq, Structural)]
pub enum Style {
    /// Plain text.
    Normal,
    /// Text with markup.
    Markup,
}

/// The answer to an event: what the host does next, and the entry to type
/// once the host has let go of the window, if any.
#[derive(Clone, Copy, Debug, PartialEq, Eq)]
pub struct Reaction {
    pub action: Action,
    pub inject: Option<usize>,
}

/// What reading the configuration file came to.
#[derive(Debug, PartialEq, Eq)]
pub enum ConfigLoad {
    /// The file could not be opened.
    Missing,
    /// The file was opened and does not hold a configuration.
    Malformed,
    /// The file holds this configuration.
    Loaded(Config),
}

/// The configuration file is there and cannot be read as a configuration.
#[derive(Clone, Copy, Debug, PartialEq, Eq, Structural)]
pub struct ConfigLoadError;

/// What the detached continuation does next.
#[derive(Debug, PartialEq, Eq)]
pub enum Task {
    /// Wait this many milliseconds, then ask again.
    Sleep(u64),
    /// Run this program, add its outcome, then ask again.
    Run { program: String, args: Vec<String> },
    /// Type this text into the focused window, then end.
    Type(String),
    /// End without typing.
    Abort(EvalError),
}

/// The mathematical value of a `Task`.
pub enum TaskView {
    Sleep(u64),
    Run { program: Seq<char>, args: Seq<Seq<char>> },
    Type(Seq<char>),
    Abort(EvalError),
}

impl View for Task {
    type V = TaskView;

    open spec fn view(&self) -> TaskView {
        match *self {
            Task::Sleep(ms) => TaskView::Sleep(ms),
            Task::Run { program, args } => TaskView::Run { program: program@, args: texts(args@) },
            Task::Type(s) => TaskView::Type(s@),
            Task::Abort(e) => TaskView::Abort(e),
        }
    }
}

/// The task that an evaluation's state calls for.
pub open spec fn task_of(e: Evaluation) -> TaskView {
    match e {
        Evaluation::Done(t) => TaskView::Type(t),
        Evaluation::Failed(err) => TaskView::Abort(err),
        Evaluation::Run { program, args } => TaskView::Run { program, args },
    }
}

/// Whether `event` names only entries that a list of `count` entries has,
/// where answering it reads the entry.
pub open spec fn fits(event: Event, count: nat) -> bool {
    match event {
        Event::Complete { selected: Some(i) } => i < count,
        _ => true,
    }
}

/// The running instance: the configuration it was started with.
#[derive(Debug, PartialEq, Eq)]
pub struct Mode {
    pub cfg: Config,
}

impl Mode {
    /// Starts the instance from what reading the configuration file came to:
    /// a missing file gives the default configuration, a malformed one fails.
    pub fn init(load: ConfigLoad) -> (r: Result<Mode, ConfigLoadError>)
        ensures
            match load {
                ConfigLoad::Missing => r is Ok && r->Ok_0.cfg.shell is None
                    && r->Ok_0.cfg.entries@.len() == 0 && r->Ok_0.cfg.delay is None,
                ConfigLoad::Malformed => r is Err,
                ConfigLoad::Loaded(cfg) => r == Ok::<Mode, ConfigLoadError>(Mode { cfg }),
            },
    {
        match load {
            ConfigLoad::Missing => Ok(Mode { cfg: Config::default() }),
            ConfigLoad::Malformed => Err(ConfigLoadError),
            ConfigLoad::Loaded(cfg) => Ok(Mode { cfg }),
        }
    }

    /// Whether the list has an entry at `line`.
    pub open spec fn has_line(&self, line: usize) -> bool {
        line < self.cfg.entries@.len()
    }

    /// The name of the shell that shell snippets are handed to.
    pub open spec fn shell(&self) -> Seq<char> {
        shell_name(self.cfg.shell)
    }

    /// Evaluates `snippet` with the configured shell on the outcomes of the
    /// runs made so far.
    pub fn compute_snippet(&self, snippet: &Snippet, outcomes: &Vec<RunOutcome>) -> (r: Progress)
        ensures
            r@ == evaluation(*snippet, self.shell(), outcomes@),
    {
        evaluate(snippet, &self.cfg.shell, outcomes)
    }

    /// How many entries the list has.
    pub fn entries(&self) -> (r: usize)
        ensures
            r == self.cfg.entries@.len(),
    {
        self.cfg.entries.len()
    }

    /// The line shown for the entry at `line`.
    pub fn entry_content(&self, line: usize) -> (r: String)
        requires
            self.has_line(line),
        ensures
            r@ == rendered(
                self.cfg.entries@[line as int].key@,
                self.cfg.entries@[line as int].description,
            ),
    {
        self.cfg.entries[line].display()
    }

    /// How the entry at `line` is styled: every line carries markup.
    pub fn entry_style(&self, line: usize) -> (r: Style)
        ensures
            r == Style::Markup,
    {
        Style::Markup
    }

    /// The text of the entry at `line` that the host's matcher is asked
    /// about: its key, never its description.
    pub fn match_key(&self, line: usize) -> (r: &str)
        requires
            self.has_line(line),
        ensures
            r@ == self.cfg.entries@[line as int].key@,
    {
        self.cfg.entries[line].key.as_str()
    }

    /// Answers an event of the host.
    ///
    /// A cancel ends the session. A confirmation ends it too and names the
    /// entry to type afterwards. A completion on an entry puts that entry's
    /// key in place of the filter text and shows the list again. Anything
    /// else shows the list again and changes nothing.
    pub fn react(&self, event: Event, input: &mut String) -> (r: Reaction)
        requires
            fits(event, self.cfg.entries@.len()),
        ensures
            r.action == (match event {
                Event::Cancel { .. } | Event::Confirm { .. } => Action::Exit,
                _ => Action::Reload,
            }),
            r.inject == (match event {
                Event::Confirm { alt, selected } => Some(selected),
                _ => None::<usize>,
            }),
            final(input)@ == (match event {
                Event::Complete { selected: Some(i) } => self.cfg.entries@[i as int].key@,
                _ => old(input)@,
            }),
    {
        match event {
            Event::Cancel { selected: _ } => Reaction { action: Action::Exit, inject: None },
            Event::Confirm { alt: _, selected } => Reaction {
                action: Action::Exit,
                inject: Some(selected),
            },
            Event::Complete { selected: Some(i) } => {
                *input = self.cfg.entries[i].key.clone();
                Reaction { action: Action::Reload, inject: None }
            },
            _ => Reaction { action: Action::Reload, inject: None },
        }
    }

    /// What the detached continuation does next for the confirmed entry at
    /// `selected`: first the configured wait, unless `rested` says that it is
    /// over; then what the evaluation of the entry's snippet calls for on the
    /// outcomes of the runs made so far.
    pub fn deferred(&self, selected: usize, rested: bool, outcomes: &Vec<RunOutcome>) -> (r: Task)
        requires
            self.has_line(selected),
        ensures
            r@ == (match self.cfg.delay {
                Some(ms) if !rested => TaskView::Sleep(ms),
                _ => task_of(
                    evaluation(self.cfg.entries@[selected as int].snippet, self.shell(), outcomes@),
                ),
            }),
    {
        match self.cfg.delay {
            Some(ms) if !rested => Task::Sleep(ms),
            _ => match self.compute_snippet(&self.cfg.entries[selected].snippet, outcomes) {
                Progress::Done(text) => Task::Type(text),
                Progress::Failed(err) => Task::Abort(err),
                Progress::Run { program, args } => Task::Run { program, args },
            },
        }
    }
}

} // verus!
