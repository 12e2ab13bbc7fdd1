//! What an invocation leaves behind: the text for standard output, the text
//! for standard error, and the exit code.

use vstd::prelude::*;

use crate::dispatch::{dispatch, fluffy_line, outcome_of, Outcome, OutcomeView, Status};
use crate::invocation::{InvocationView, Subcommand};
use crate::parser::{clap_usage, parse, parsed, usage, Parsed, ParsedView};
use crate::surface::standard_names;

verus! {

/// The exit code of an invocation that did what it was asked to.
pub const SUCCESS_CODE: i32 = 0;

/// The exit code of an invocation whose arguments were malformed or named
/// no subcommand.
pub const USAGE_CODE: i32 = 2;

/// Everything an invocation hands to the outside: both texts are to be
/// written as they are, without anything added.
#[derive(Clone, Debug, PartialEq, Eq)]
pub struct Report {
    pub stdout: String,
    pub stderr: String,
    pub exit_code: i32,
}

/// A report, with its texts as sequences of characters.
pub struct ReportView {
    pub stdout: Seq<char>,
    pub stderr: Seq<char>,
    pub exit_code: int,
}

impl View for Report {
    type V = ReportView;

    open spec fn view(&self) -> ReportView {
        ReportView { stdout: self.stdout@, stderr: self.stderr@, exit_code: self.exit_code as int }
    }
}

/// The lines as one text, each line followed by a line feed.
pub open spec fn printed(lines: Seq<Seq<char>>) -> Seq<char>
    decreases lines.len(),
{
    if lines.len() == 0 {
        Seq::<char>::empty()
    } else {
        printed(lines.drop_last()) + lines.last() + seq!['\n']
    }
}

/// The message for an invocation without a subcommand: what is wrong, the
/// usage line, and where to find help.
pub open spec fn missing_subcommand_message(usage: Seq<char>) -> Seq<char> {
    "error: a subcommand is required\n\n"@ + usage + "\n\nFor more information, try '--help'.\n"@
}

/// The report for a dispatched invocation. Its lines go to standard output.
/// A missing subcommand adds the message for it on standard error and ends
/// with the usage code.
pub open spec fn outcome_report(outcome: OutcomeView, usage: Seq<char>) -> ReportView {
    match outcome.status {
        Status::Success => ReportView {
            stdout: printed(outcome.lines),
            stderr: Seq::<char>::empty(),
            exit_code: SUCCESS_CODE as int,
        },
        Status::MissingSubcommand => ReportView {
            stdout: printed(outcome.lines),
            stderr: missing_subcommand_message(usage),
            exit_code: USAGE_CODE as int,
        },
    }
}

/// The report for a parse result. Help and version go to standard output
/// and end successfully. A usage error goes to standard error, leaves
/// standard output empty and ends with the usage code.
pub open spec fn report_of(result: ParsedView, usage: Seq<char>) -> ReportView {
    match result {
        ParsedView::Invocation(args) => outcome_report(outcome_of(args), usage),
        ParsedView::Display(text) => ReportView {
            stdout: text,
            stderr: Seq::<char>::empty(),
            exit_code: SUCCESS_CODE as int,
        },
        ParsedView::UsageError(text) => ReportView {
            stdout: Seq::<char>::empty(),
            stderr: text,
            exit_code: USAGE_CODE as int,
        },
    }
}

/// A usage error prints nothing on standard output, and ends with a code
/// other than zero.
pub proof fn law_usage_error_prints_nothing(text: Seq<char>, usage: Seq<char>)
    ensures
        report_of(ParsedView::UsageError(text), usage).stdout.len() == 0,
        report_of(ParsedView::UsageError(text), usage).stderr == text,
        report_of(ParsedView::UsageError(text), usage).exit_code != 0,
{
}

/// An invocation without a subcommand still ends in a defined way: the
/// line for the positional value on standard output, the message for a
/// missing subcommand on standard error, and the usage code.
pub proof fn law_missing_subcommand_is_reported(args: InvocationView, usage: Seq<char>)
    requires
        args.subcommand is Missing,
    ensures
        report_of(ParsedView::Invocation(args), usage).stdout == fluffy_line(args.fluffy) + seq![
            '\n',
        ],
        report_of(ParsedView::Invocation(args), usage).stderr == missing_subcommand_message(usage),
        report_of(ParsedView::Invocation(args), usage).exit_code == USAGE_CODE,
        USAGE_CODE != 0,
{
    let lines = seq![fluffy_line(args.fluffy)];
    assert(outcome_of(args).lines == lines);
    assert(lines.drop_last() == Seq::<Seq<char>>::empty());
    assert(printed(lines) == printed(lines.drop_last()) + lines.last() + seq!['\n']);
    assert(printed(lines.drop_last()) == Seq::<char>::empty());
}

/// Writes the lines as one text, each followed by a line feed.
pub fn print_lines(lines: &Vec<String>) -> (text: String)
    ensures
        text@ == printed(lines.deep_view()),
{
    let mut text = String::new();
    let mut i: usize = 0;
    while i < lines.len()
        invariant
            i <= lines.len(),
            text@ == printed(lines.deep_view().take(i as int)),
        decreases lines.len() - i,
    {
        let ghost next = lines.deep_view().take(i + 1);
        proof {
            assert(next.drop_last() == lines.deep_view().take(i as int));
            assert(next.last() == lines[i as int]@);
        }
        text.append(lines[i].as_str());
        text.push('\n');
        i += 1;
    }
    proof {
        assert(lines.deep_view().take(lines.len() as int) == lines.deep_view());
    }
    text
}

/// The report for a dispatched invocation. `usage` is the usage line; it is
/// read only where the subcommand is missing.
pub fn report_outcome(outcome: &Outcome, usage: &str) -> (report: Report)
    ensures
        report@ == outcome_report(outcome@, usage@),
{
    let stdout = print_lines(&outcome.lines);
    match outcome.status {
        Status::Success => Report { stdout, stderr: String::new(), exit_code: SUCCESS_CODE },
        Status::MissingSubcommand => {
            let mut stderr = "error: a subcommand is required\n\n".to_owned();
            stderr.append(usage);
            stderr.append("\n\nFor more information, try '--help'.\n");
            Report { stdout, stderr, exit_code: USAGE_CODE }
        },
    }
}

/// The report for a parse result: an accepted invocation is dispatched,
/// help and version are shown, a usage error is reported.
pub fn report(result: Parsed, usage: &str) -> (report: Report)
    ensures
        report@ == report_of(result@, usage@),
{
    match result {
        Parsed::Invocation(args) => {
            let outcome = dispatch(&args);
            report_outcome(&outcome, usage)
        },
        Parsed::Display(text) => Report {
            stdout: text,
            stderr: String::new(),
            exit_code: SUCCESS_CODE,
        },
        Parsed::UsageError(text) => Report {
            stdout: String::new(),
            stderr: text,
            exit_code: USAGE_CODE,
        },
    }
}

/// Whether the report for a parse result quotes the usage line: only an
/// accepted invocation without a subcommand does.
pub open spec fn quotes_usage(result: ParsedView) -> bool {
    result matches ParsedView::Invocation(args) && args.subcommand is Missing
}

/// Tells whether the report for a parse result quotes the usage line.
pub fn needs_usage(result: &Parsed) -> (needed: bool)
    ensures
        needed == quotes_usage(result@),
{
    match result {
        Parsed::Invocation(args) => match args.subcommand {
            Subcommand::Missing => true,
            _ => false,
        },
        _ => false,
    }
}

/// Runs one invocation from its argument list, the program's name first:
/// parses the arguments, dispatches on the subcommand, and reports what is
/// to be written and the code to exit with. Reads nothing and writes
/// nothing itself.
pub fn process(args: &Vec<String>) -> (report: Report)
    ensures
        report@ == report_of(parsed(args.deep_view()), clap_usage(standard_names())),
{
    let result = parse(args);
    let line = if needs_usage(&result) {
        usage()
    } else {
        String::new()
    };
    report(result, line.as_str())
}

} // verus!
