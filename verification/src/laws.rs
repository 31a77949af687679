//! What holds of every evaluation, proved from the evaluator's definition.

use vstd::prelude::*;
use crate::mode::Mode;
use crate::snippet::{
    evaluation, glue, parts, walk, walk_from, Evaluation, RunOutcome, Snippet,
};
use crate::text::trimmed;

verus! {

/// A text snippet evaluates to its text, whatever the shell and the outcomes,
/// and uses no outcome.
pub proof fn law_text_is_itself(value: String, shell: Seq<char>, outcomes: Seq<RunOutcome>)
    ensures
        walk(Snippet::Text { value }, shell, outcomes) == (Evaluation::Done(value@), outcomes),
        evaluation(Snippet::Text { value }, shell, outcomes) == Evaluation::Done(value@),
{
}

/// A sequence without parts evaluates to the empty text and uses no outcome.
pub proof fn law_empty_sequence(value: Vec<Snippet>, shell: Seq<char>, outcomes: Seq<RunOutcome>)
    requires
        value@.len() == 0,
    ensures
        walk(Snippet::Sequence { value }, shell, outcomes) == (
            Evaluation::Done(Seq::<char>::empty()),
            outcomes,
        ),
{
}

/// The parts of a sequence from `from` on evaluate to the part at `from`
/// followed by the parts after it, each on the outcomes that the one before
/// left; a part that is not a finished text ends the evaluation with its own
/// state.
pub proof fn law_sequence_step(
    parent: Snippet,
    from: nat,
    shell: Seq<char>,
    outcomes: Seq<RunOutcome>,
)
    requires
        from < parts(parent).len(),
    ensures
        walk_from(parent, from, shell, outcomes) == (match walk(
            parts(parent)[from as int],
            shell,
            outcomes,
        ) {
            (Evaluation::Done(head), rest) => glue(
                head,
                walk_from(parent, from + 1, shell, rest),
            ),
            other => other,
        }),
{
}

/// The texts of the parts of `parent` from `from` on, joined in order, where
/// each part is evaluated on the outcomes that the one before left. Meant for
/// outcomes on which every part is a finished text.
pub open spec fn joined(parent: Snippet, from: nat, shell: Seq<char>, outcomes: Seq<RunOutcome>) -> Seq<char>
    decreases parts(parent).len() - from,
{
    if from >= parts(parent).len() {
        Seq::empty()
    } else {
        let (first, rest) = walk(parts(parent)[from as int], shell, outcomes);
        match first {
            Evaluation::Done(head) => head + joined(parent, from + 1, shell, rest),
            _ => Seq::empty(),
        }
    }
}

/// Whether every part of `parent` from `from` on evaluates to a finished
/// text, each on the outcomes that the one before left.
pub open spec fn all_done(parent: Snippet, from: nat, shell: Seq<char>, outcomes: Seq<RunOutcome>) -> bool
    decreases parts(parent).len() - from,
{
    if from >= parts(parent).len() {
        true
    } else {
        let (first, rest) = walk(parts(parent)[from as int], shell, outcomes);
        first is Done && all_done(parent, from + 1, shell, rest)
    }
}

/// Where every part is a finished text, the sequence evaluates to the parts'
/// texts joined in order, with nothing between them.
pub proof fn law_sequence_concatenates(
    parent: Snippet,
    from: nat,
    shell: Seq<char>,
    outcomes: Seq<RunOutcome>,
)
    requires
        all_done(parent, from, shell, outcomes),
    ensures
        walk_from(parent, from, shell, outcomes).0 == Evaluation::Done(
            joined(parent, from, shell, outcomes),
        ),
    decreases parts(parent).len() - from,
{
    if from < parts(parent).len() {
        let (first, rest) = walk(parts(parent)[from as int], shell, outcomes);
        law_sequence_concatenates(parent, from + 1, shell, rest);
    }
}

/// A sequence of three parts whose evaluations are finished texts evaluates
/// to the three texts one after another.
pub proof fn law_sequence_of_three(
    value: Vec<Snippet>,
    shell: Seq<char>,
    outcomes: Seq<RunOutcome>,
    x: Seq<char>,
    y: Seq<char>,
    z: Seq<char>,
)
    requires
        value@.len() == 3,
        walk(value@[0], shell, outcomes).0 == Evaluation::Done(x),
        walk(value@[1], shell, walk(value@[0], shell, outcomes).1).0 == Evaluation::Done(y),
        walk(
            value@[2],
            shell,
            walk(value@[1], shell, walk(value@[0], shell, outcomes).1).1,
        ).0 == Evaluation::Done(z),
    ensures
        evaluation(Snippet::Sequence { value }, shell, outcomes) == Evaluation::Done(x + y + z),
{
    let parent = Snippet::Sequence { value };
    let r0 = walk(value@[0], shell, outcomes).1;
    let r1 = walk(value@[1], shell, r0).1;
    let r2 = walk(value@[2], shell, r1).1;
    assert(parts(parent) == value@);
    assert(walk_from(parent, 3, shell, r2).0 == Evaluation::Done(Seq::<char>::empty()));
    assert(walk_from(parent, 2, shell, r1).0 == Evaluation::Done(z + Seq::<char>::empty()));
    assert(z + Seq::<char>::empty() =~= z);
    assert(walk_from(parent, 1, shell, r0).0 == Evaluation::Done(y + z));
    assert(walk_from(parent, 0, shell, outcomes).0 == Evaluation::Done(x + (y + z)));
    assert(x + (y + z) =~= x + y + z);
}

/// An evaluation with its finished text trimmed.
pub open spec fn trim_done(e: Evaluation) -> Evaluation {
    match e {
        Evaluation::Done(t) => Evaluation::Done(trimmed(t)),
        other => other,
    }
}

/// A command that trims evaluates to what the same command without trimming
/// evaluates to, trimmed; and without trimming an absent flag and a cleared
/// one are the same.
pub proof fn law_command_trim(
    value: Vec<String>,
    trim: Option<bool>,
    shell: Seq<char>,
    outcomes: Seq<RunOutcome>,
)
    requires
        trim != Some(true),
    ensures
        evaluation(Snippet::Command { value, trim: Some(true) }, shell, outcomes) == trim_done(
            evaluation(Snippet::Command { value, trim }, shell, outcomes),
        ),
        evaluation(Snippet::Command { value, trim }, shell, outcomes) == evaluation(
            Snippet::Command { value, trim: None },
            shell,
            outcomes,
        ),
{
}

/// A shell line that trims evaluates to what the same line without trimming
/// evaluates to, trimmed; and without trimming an absent flag and a cleared
/// one are the same.
pub proof fn law_shell_trim(
    value: String,
    trim: Option<bool>,
    shell: Seq<char>,
    outcomes: Seq<RunOutcome>,
)
    requires
        trim != Some(true),
    ensures
        evaluation(Snippet::Shell { value, trim: Some(true) }, shell, outcomes) == trim_done(
            evaluation(Snippet::Shell { value, trim }, shell, outcomes),
        ),
        evaluation(Snippet::Shell { value, trim }, shell, outcomes) == evaluation(
            Snippet::Shell { value, trim: None },
            shell,
            outcomes,
        ),
{
}

/// An evaluation that has ended, with a text or a failure, stays as it is
/// when more outcomes follow those it was given, and leaves them unused; and
/// one that asks for a run has used every outcome it was given.
pub proof fn law_more_outcomes(
    snippet: Snippet,
    shell: Seq<char>,
    outcomes: Seq<RunOutcome>,
    more: Seq<RunOutcome>,
)
    ensures
        walk(snippet, shell, outcomes).0 is Run ==> walk(snippet, shell, outcomes).1.len() == 0,
        !(walk(snippet, shell, outcomes).0 is Run) ==> walk(snippet, shell, outcomes + more) == (
            walk(snippet, shell, outcomes).0,
            walk(snippet, shell, outcomes).1 + more,
        ),
    decreases snippet, 1nat, 0nat,
{
    match snippet {
        Snippet::Text { value } => {},
        Snippet::Command { value, trim } => {
            if value@.len() > 0 && outcomes.len() > 0 {
                assert((outcomes + more).skip(1) =~= outcomes.skip(1) + more);
            }
        },
        Snippet::Shell { value, trim } => {
            if outcomes.len() > 0 {
                assert((outcomes + more).skip(1) =~= outcomes.skip(1) + more);
            }
        },
        Snippet::Sequence { value } => {
            law_more_outcomes_from(snippet, 0, shell, outcomes, more);
        },
    }
}

/// The same of the parts of a sequence from `from` on.
pub proof fn law_more_outcomes_from(
    parent: Snippet,
    from: nat,
    shell: Seq<char>,
    outcomes: Seq<RunOutcome>,
    more: Seq<RunOutcome>,
)
    ensures
        walk_from(parent, from, shell, outcomes).0 is Run ==> walk_from(
            parent,
            from,
            shell,
            outcomes,
        ).1.len() == 0,
        !(walk_from(parent, from, shell, outcomes).0 is Run) ==> walk_from(
            parent,
            from,
            shell,
            outcomes + more,
        ) == (
            walk_from(parent, from, shell, outcomes).0,
            walk_from(parent, from, shell, outcomes).1 + more,
        ),
    decreases parent, 0nat, parts(parent).len() - from,
{
    if from < parts(parent).len() {
        let part = parts(parent)[from as int];
        let (first, rest) = walk(part, shell, outcomes);
        law_more_outcomes(part, shell, outcomes, more);
        if first is Done {
            law_more_outcomes_from(parent, from + 1, shell, rest, more);
        }
    }
}

/// How many programs `snippet` runs at most: one for each shell line and for
/// each command that names a program.
pub open spec fn run_count(snippet: Snippet) -> nat
    decreases snippet, 1nat, 0nat,
{
    match snippet {
        Snippet::Text { value } => 0,
        Snippet::Command { value, trim } => if value@.len() == 0 {
            0
        } else {
            1
        },
        Snippet::Shell { value, trim } => 1,
        Snippet::Sequence { value } => run_count_from(snippet, 0),
    }
}

/// How many programs the parts of the sequence `parent` from `from` on run
/// at most.
pub open spec fn run_count_from(parent: Snippet, from: nat) -> nat
    decreases parent, 0nat, parts(parent).len() - from,
{
    if from >= parts(parent).len() {
        0
    } else {
        run_count(parts(parent)[from as int]) + run_count_from(parent, from + 1)
    }
}

/// An evaluation uses no more outcomes than the snippet runs programs, and
/// asks for a run only while it has fewer outcomes than that: handed as many
/// outcomes as the snippet runs programs, it has ended.
pub proof fn law_runs_are_bounded(snippet: Snippet, shell: Seq<char>, outcomes: Seq<RunOutcome>)
    ensures
        walk(snippet, shell, outcomes).1.len() <= outcomes.len(),
        outcomes.len() - walk(snippet, shell, outcomes).1.len() <= run_count(snippet),
        walk(snippet, shell, outcomes).0 is Run ==> outcomes.len() < run_count(snippet),
    decreases snippet, 1nat, 0nat,
{
    match snippet {
        Snippet::Sequence { value } => {
            law_runs_are_bounded_from(snippet, 0, shell, outcomes);
        },
        _ => {},
    }
}

/// The same of the parts of a sequence from `from` on.
pub proof fn law_runs_are_bounded_from(
    parent: Snippet,
    from: nat,
    shell: Seq<char>,
    outcomes: Seq<RunOutcome>,
)
    ensures
        walk_from(parent, from, shell, outcomes).1.len() <= outcomes.len(),
        outcomes.len() - walk_from(parent, from, shell, outcomes).1.len() <= run_count_from(
            parent,
            from,
        ),
        walk_from(parent, from, shell, outcomes).0 is Run ==> outcomes.len() < run_count_from(
            parent,
            from,
        ),
    decreases parent, 0nat, parts(parent).len() - from,
{
    if from < parts(parent).len() {
        let part = parts(parent)[from as int];
        let (first, rest) = walk(part, shell, outcomes);
        law_runs_are_bounded(part, shell, outcomes);
        if first is Done {
            law_runs_are_bounded_from(parent, from + 1, shell, rest);
        }
    }
}

/// A list without entries has no line to show and none to match: no line
/// number meets what the callbacks that read an entry ask for.
pub proof fn law_empty_list_has_no_line(mode: Mode, line: usize)
    requires
        mode.cfg.entries@.len() == 0,
    ensures
        !mode.has_line(line),
{
}

} // verus!
