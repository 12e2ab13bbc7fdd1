//! From parsed arguments to the lines an invocation prints.

use vstd::prelude::*;

use crate::invocation::{InvocationArgs, InvocationView, Subcommand, SubcommandView};
use crate::text::{debug_quoted, debug_text, echo, echo_reverse, echoed, words_reversed};

verus! {

/// How a dispatched invocation ends.
#[derive(Clone, Copy, Debug, PartialEq, Eq, Structural)]
pub enum Status {
    /// The subcommand ran.
    Success,
    /// No subcommand was given, so there was nothing to run.
    MissingSubcommand,
}

/// What the dispatcher decided: the lines for standard output, in order, and
/// how the invocation ends.
#[derive(Clone, Debug, PartialEq, Eq)]
pub struct Outcome {
    pub lines: Vec<String>,
    pub status: Status,
}

/// An outcome, with its lines as sequences of characters.
pub struct OutcomeView {
    pub lines: Seq<Seq<char>>,
    pub status: Status,
}

impl View for Outcome {
    type V = OutcomeView;

    open spec fn view(&self) -> OutcomeView {
        OutcomeView { lines: self.lines.deep_view(), status: self.status }
    }
}

/// The line that reports the positional value or its absence.
pub open spec fn fluffy_line(fluffy: Option<Seq<char>>) -> Seq<char> {
    match fluffy {
        Some(value) => "fluffy: Some("@ + debug_text(value) + ")"@,
        None => "fluffy: None"@,
    }
}

/// The line that `echo` prints for `input`.
pub open spec fn echo_line(input: Seq<char>, lowercase: bool, uppercase: bool) -> Seq<char> {
    debug_text(echoed(input, lowercase, uppercase))
}

/// The line that `echo-reverse` prints for `input`.
pub open spec fn reverse_line(input: Seq<char>) -> Seq<char> {
    "reverse echo: "@ + debug_text(words_reversed(input))
}

/// The lines that a subcommand prints: one if it has an input, none if it
/// has not or if there is no subcommand.
pub open spec fn subcommand_lines(args: InvocationView) -> Seq<Seq<char>> {
    match args.subcommand {
        SubcommandView::Echo(Some(input)) => seq![
            echo_line(input, args.lowercase, args.uppercase),
        ],
        SubcommandView::EchoReverse(Some(input)) => seq![reverse_line(input)],
        _ => Seq::<Seq<char>>::empty(),
    }
}

/// What an invocation prints and how it ends: the positional value's line
/// always comes first; a missing subcommand is reported in the status.
pub open spec fn outcome_of(args: InvocationView) -> OutcomeView {
    OutcomeView {
        lines: seq![fluffy_line(args.fluffy)] + subcommand_lines(args),
        status: if args.subcommand is Missing {
            Status::MissingSubcommand
        } else {
            Status::Success
        },
    }
}

/// Renders the line for the positional value.
pub fn render_fluffy(fluffy: &Option<String>) -> (line: String)
    ensures
        line@ == fluffy_line(fluffy.deep_view()),
{
    match fluffy {
        Some(value) => {
            let mut line = "fluffy: Some(".to_owned();
            let quoted = debug_quoted(value.as_str());
            line.append(quoted.as_str());
            line.append(")");
            line
        },
        None => "fluffy: None".to_owned(),
    }
}

/// Decides what an invocation prints and how it ends. Never fails: an
/// invocation without a subcommand gets the positional value's line and the
/// status `MissingSubcommand`.
pub fn dispatch(args: &InvocationArgs) -> (outcome: Outcome)
    ensures
        outcome@ == outcome_of(args@),
{
    let mut lines: Vec<String> = Vec::new();
    lines.push(render_fluffy(&args.fluffy));
    let status = match &args.subcommand {
        Subcommand::Echo(Some(input)) => {
            let text = echo(input.as_str(), args.lowercase, args.uppercase);
            lines.push(debug_quoted(text.as_str()));
            Status::Success
        },
        Subcommand::EchoReverse(Some(input)) => {
            let text = echo_reverse(input.as_str());
            let mut line = "reverse echo: ".to_owned();
            let quoted = debug_quoted(text.as_str());
            line.append(quoted.as_str());
            lines.push(line);
            Status::Success
        },
        Subcommand::Echo(None) => Status::Success,
        Subcommand::EchoReverse(None) => Status::Success,
        Subcommand::Missing => Status::MissingSubcommand,
    };
    let outcome = Outcome { lines, status };
    assert(outcome@.lines == outcome_of(args@).lines);
    outcome
}

} // verus!
