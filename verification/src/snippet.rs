//! Snippets and their evaluation.
//!
//! A snippet resolves to a string. Two of its forms take their text from a
//! program's standard output. Running a program is left to the caller: the
//! evaluator is handed the outcomes of the runs made so far, in order, and
//! answers with the finished text, with the failure, or with the program to
//! run next.

use vstd::prelude::*;
use vstd::utf8::{decode_utf8, valid_utf8};
use vstd::string::*;
use crate::text::{decode_output, trim_str, trim_text};

verus! {

/// An expression that resolves to a string.
#[allow(inconsistent_fields)]
#[derive(Debug, PartialEq, Eq)]
pub enum Snippet {
    /// The text as it is.
    Text { value: String },
    /// The output of a program: its name first, then its arguments.
    Command { value: Vec<String>, trim: Option<bool> },
    /// The output of a line handed to the shell.
    Shell { value: String, trim: Option<bool> },
    /// The outputs of the parts, one after another.
    Sequence { value: Vec<Snippet> },
}

/// Why an evaluation ended without a text.
#[derive(Clone, Copy, Debug, PartialEq, Eq, Structural)]
pub enum EvalError {
    /// A command snippet names no program.
    EmptyCommand,
    /// The program could not be found or started.
    Spawn,
    /// The program's output is not UTF-8 text.
    Decode,
}

/// What is said of an error where it ends an evaluation.
pub open spec fn message_of(e: EvalError) -> Seq<char> {
    match e {
        EvalError::EmptyCommand => "Empty command"@,
        EvalError::Spawn => "Error running command"@,
        EvalError::Decode => "Fail to decode output"@,
    }
}

impl EvalError {
    /// The words for this error.
    pub fn message(&self) -> (r: &'static str)
        ensures
            r@ == message_of(*self),
    {
        match self {
            EvalError::EmptyCommand => "Empty command",
            EvalError::Spawn => "Error running command",
            EvalError::Decode => "Fail to decode output",
        }
    }
}

/// What came of running one program.
#[derive(Debug, PartialEq, Eq)]
pub enum RunOutcome {
    /// It ran; these bytes are its standard output.
    Output(Vec<u8>),
    /// It could not be found or started.
    NotStarted,
}

/// Where an evaluation stands.
#[derive(Debug, PartialEq, Eq)]
pub enum Progress {
    /// Every part is resolved: the text.
    Done(String),
    /// A part failed.
    Failed(EvalError),
    /// This program is to be run next, and its outcome added to those handed in.
    Run { program: String, args: Vec<String> },
}

/// The mathematical value of a `Progress`.
pub enum Evaluation {
    Done(Seq<char>),
    Failed(EvalError),
    Run { program: Seq<char>, args: Seq<Seq<char>> },
}

/// The texts of a list of strings.
pub open spec fn texts(v: Seq<String>) -> Seq<Seq<char>> {
    v.map_values(|s: String| s@)
}

impl View for Progress {
    type V = Evaluation;

    open spec fn view(&self) -> Evaluation {
        match *self {
            Progress::Done(s) => Evaluation::Done(s@),
            Progress::Failed(e) => Evaluation::Failed(e),
            Progress::Run { program, args } => Evaluation::Run { program: program@, args: texts(args@) },
        }
    }
}

/// The name of the shell used where none is configured.
pub open spec fn default_shell() -> Seq<char> {
    "sh"@
}

/// The shell that shell snippets are handed to.
pub open spec fn shell_name(shell: Option<String>) -> Seq<char> {
    match shell {
        Some(s) => s@,
        None => default_shell(),
    }
}

/// The arguments that hand `line` to a shell.
pub open spec fn shell_args(line: Seq<char>) -> Seq<Seq<char>> {
    seq!["-c"@, line]
}

/// Whether a snippet's output is trimmed: an absent flag means no.
pub open spec fn wants_trim(trim: Option<bool>) -> bool {
    trim == Some(true)
}

/// What one run contributes: its decoded output, trimmed on request, or the
/// error that ends the evaluation.
pub open spec fn settle(outcome: RunOutcome, trim: bool) -> Evaluation {
    match outcome {
        RunOutcome::NotStarted => Evaluation::Failed(EvalError::Spawn),
        RunOutcome::Output(bytes) => if valid_utf8(bytes@) {
            Evaluation::Done(trim_text(decode_utf8(bytes@), trim))
        } else {
            Evaluation::Failed(EvalError::Decode)
        },
    }
}

/// A part that runs a program: it takes the next outcome, or asks for the run
/// when none is left.
pub open spec fn launch(
    program: Seq<char>,
    args: Seq<Seq<char>>,
    trim: bool,
    outcomes: Seq<RunOutcome>,
) -> (Evaluation, Seq<RunOutcome>) {
    if outcomes.len() == 0 {
        (Evaluation::Run { program, args }, outcomes)
    } else {
        (settle(outcomes[0], trim), outcomes.skip(1))
    }
}

/// `head` put before what `tail` holds, where `tail` is a finished text.
pub open spec fn prepend(head: Seq<char>, tail: Evaluation) -> Evaluation {
    match tail {
        Evaluation::Done(t) => Evaluation::Done(head + t),
        other => other,
    }
}

/// Evaluates `snippet` on the run outcomes known so far. Yields where the
/// evaluation stands and the outcomes that it did not use.
pub open spec fn walk(snippet: Snippet, shell: Seq<char>, outcomes: Seq<RunOutcome>) -> (
    Evaluation,
    Seq<RunOutcome>,
)
    decreases snippet, 1nat, 0nat,
{
    match snippet {
        Snippet::Text { value } => (Evaluation::Done(value@), outcomes),
        Snippet::Command { value, trim } => if value@.len() == 0 {
            (Evaluation::Failed(EvalError::EmptyCommand), outcomes)
        } else {
            launch(value@[0]@, texts(value@.skip(1)), wants_trim(trim), outcomes)
        },
        Snippet::Shell { value, trim } => launch(
            shell,
            shell_args(value@),
            wants_trim(trim),
            outcomes,
        ),
        Snippet::Sequence { value } => walk_from(snippet, 0, shell, outcomes),
    }
}

/// Evaluates the parts of the sequence `parent` from the one at `from` on, in
/// order, stopping at the first that is not a finished text.
pub open spec fn walk_from(
    parent: Snippet,
    from: nat,
    shell: Seq<char>,
    outcomes: Seq<RunOutcome>,
) -> (Evaluation, Seq<RunOutcome>)
    decreases parent, 0nat, parts(parent).len() - from,
{
    if from >= parts(parent).len() {
        (Evaluation::Done(Seq::empty()), outcomes)
    } else {
        let (first, rest) = walk(parts(parent)[from as int], shell, outcomes);
        match first {
            Evaluation::Done(head) => {
                let (tail, left) = walk_from(parent, from + 1, shell, rest);
                (prepend(head, tail), left)
            },
            _ => (first, rest),
        }
    }
}

/// The parts of a sequence; no parts for the other forms.
pub open spec fn parts(snippet: Snippet) -> Seq<Snippet> {
    match snippet {
        Snippet::Sequence { value } => value@,
        _ => Seq::empty(),
    }
}

/// The evaluation of `snippet` with `shell` as the shell's name, on the run
/// outcomes known so far.
pub open spec fn evaluation(snippet: Snippet, shell: Seq<char>, outcomes: Seq<RunOutcome>) -> Evaluation {
    walk(snippet, shell, outcomes).0
}

/// `head` put before the evaluation in `state`; the unused outcomes stay.
pub open spec fn glue(head: Seq<char>, state: (Evaluation, Seq<RunOutcome>)) -> (
    Evaluation,
    Seq<RunOutcome>,
) {
    (prepend(head, state.0), state.1)
}

/// Putting two texts before an evaluation, one after the other, is putting
/// their concatenation before it.
pub proof fn lemma_prepend_twice(a: Seq<char>, b: Seq<char>, e: Evaluation)
    ensures
        prepend(a, prepend(b, e)) == prepend(a + b, e),
{
    if let Evaluation::Done(t) = e {
        assert(a + (b + t) =~= (a + b) + t);
    }
}

/// Resolves one run: decodes the output and trims it on request.
pub fn settle_run(outcome: &RunOutcome, trim: bool) -> (r: Progress)
    ensures
        r@ == settle(*outcome, trim),
{
    match outcome {
        RunOutcome::NotStarted => Progress::Failed(EvalError::Spawn),
        RunOutcome::Output(bytes) => match decode_output(bytes) {
            Some(s) => Progress::Done(trim_str(s, trim)),
            None => Progress::Failed(EvalError::Decode),
        },
    }
}

/// Copies the strings of `v` from index `from` on.
fn tail_of(v: &Vec<String>, from: usize) -> (r: Vec<String>)
    requires
        from <= v.len(),
    ensures
        texts(r@) == texts(v@.skip(from as int)),
{
    let mut out: Vec<String> = Vec::new();
    let mut i: usize = from;
    while i < v.len()
        invariant
            from <= i <= v.len(),
            out@ == v@.subrange(from as int, i as int),
        decreases v.len() - i,
    {
        out.push(v[i].clone());
        assert(out@ =~= v@.subrange(from as int, i + 1));
        i += 1;
    }
    assert(out@ =~= v@.skip(from as int));
    out
}

/// Takes the outcome at `pos` for a part that runs `program`, or asks for the
/// run when no outcome is left.
fn launch_run(
    program: String,
    args: Vec<String>,
    trim: bool,
    outcomes: &Vec<RunOutcome>,
    pos: usize,
) -> (r: (Progress, usize))
    requires
        pos <= outcomes.len(),
    ensures
        pos <= r.1 <= outcomes.len(),
        (r.0@, outcomes@.skip(r.1 as int)) == launch(
            program@,
            texts(args@),
            trim,
            outcomes@.skip(pos as int),
        ),
{
    if pos == outcomes.len() {
        (Progress::Run { program, args }, pos)
    } else {
        assert(outcomes@.skip(pos as int).skip(1) =~= outcomes@.skip(pos + 1));
        (settle_run(&outcomes[pos], trim), pos + 1)
    }
}

/// Evaluates `snippet` on the outcomes from `pos` on; yields where the
/// evaluation stands and the position of the first outcome not used.
fn walk_run(snippet: &Snippet, shell: &str, outcomes: &Vec<RunOutcome>, pos: usize) -> (r: (
    Progress,
    usize,
))
    requires
        pos <= outcomes.len(),
    ensures
        pos <= r.1 <= outcomes.len(),
        (r.0@, outcomes@.skip(r.1 as int)) == walk(*snippet, shell@, outcomes@.skip(pos as int)),
    decreases snippet,
{
    match snippet {
        Snippet::Text { value } => (Progress::Done(value.clone()), pos),
        Snippet::Command { value, trim } => {
            if value.len() == 0 {
                (Progress::Failed(EvalError::EmptyCommand), pos)
            } else {
                launch_run(value[0].clone(), tail_of(value, 1), trim_flag(trim), outcomes, pos)
            }
        },
        Snippet::Shell { value, trim } => {
            let mut args: Vec<String> = Vec::new();
            args.push("-c".to_owned());
            args.push(value.clone());
            assert(texts(args@) =~= shell_args(value@));
            launch_run(shell.to_owned(), args, trim_flag(trim), outcomes, pos)
        },
        Snippet::Sequence { value } => {
            let mut text = String::new();
            let mut at: usize = pos;
            let mut i: usize = 0;
            while i < value.len()
                invariant
                    i <= value.len(),
                    pos <= at <= outcomes.len(),
                    parts(*snippet) == value@,
                    walk_from(*snippet, 0, shell@, outcomes@.skip(pos as int)) == glue(
                        text@,
                        walk_from(*snippet, i as nat, shell@, outcomes@.skip(at as int)),
                    ),
                decreases value.len() - i,
            {
                let (part, next) = walk_run(&value[i], shell, outcomes, at);
                match part {
                    Progress::Done(s) => {
                        proof {
                            lemma_prepend_twice(
                                text@,
                                s@,
                                walk_from(
                                    *snippet,
                                    (i + 1) as nat,
                                    shell@,
                                    outcomes@.skip(next as int),
                                ).0,
                            );
                        }
                        text.append(s.as_str());
                        at = next;
                        i += 1;
                    },
                    other => {
                        return (other, next);
                    },
                }
            }
            assert(text@ + Seq::<char>::empty() =~= text@);
            (Progress::Done(text), at)
        },
    }
}

/// Whether a trim flag asks for trimming.
pub fn trim_flag(trim: &Option<bool>) -> (r: bool)
    ensures
        r == wants_trim(*trim),
{
    match trim {
        Some(t) => *t,
        None => false,
    }
}

/// Evaluates `snippet`, with `shell` as the configured shell, on the outcomes
/// of the runs made so far, in the order in which they were asked for.
///
/// The answer is the finished text, the failure, or the program to run next.
/// A caller that starts with no outcomes, runs what is asked for and adds
/// each outcome to the list runs every program once, in order, and none after
/// a failure.
pub fn evaluate(snippet: &Snippet, shell: &Option<String>, outcomes: &Vec<RunOutcome>) -> (r:
    Progress)
    ensures
        r@ == evaluation(*snippet, shell_name(*shell), outcomes@),
{
    let name: &str = match shell {
        Some(s) => s.as_str(),
        None => "sh",
    };
    assert(outcomes@.skip(0) =~= outcomes@);
    walk_run(snippet, name, outcomes, 0).0
}

} // verus!
