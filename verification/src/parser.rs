//! Parsing an argument list against the surface. The parsing itself is
//! clap's; what clap reports is turned into the program's own terms here.

use clap::builder::ValueParser;
use clap::{Arg, ArgAction, Command};
use vstd::prelude::*;

use crate::invocation::{InvocationArgs, InvocationView, Subcommand, SubcommandView};
use crate::surface::{echo_name, echo_reverse_name, standard_names, surface, Surface};

verus! {

/// `clap::Command`, clap's own form of a surface.
#[verifier::external_type_specification]
#[verifier::external_body]
pub struct ExCommand(clap::Command);

/// What clap matched in an argument list, before defaults are applied.
#[derive(Clone, Debug, PartialEq, Eq)]
pub struct Matches {
    /// The value given to `--lowercase`, if the option was given.
    pub lowercase: Option<bool>,
    /// Whether `--uppercase` was given, if clap recorded it either way.
    pub uppercase: Option<bool>,
    /// The positional value, if one was given.
    pub fluffy: Option<String>,
    /// The name of the subcommand and its input, if a subcommand was given.
    pub subcommand: Option<(String, Option<String>)>,
}

/// What clap matched, with every text as a sequence of characters.
pub struct MatchesView {
    pub lowercase: Option<bool>,
    pub uppercase: Option<bool>,
    pub fluffy: Option<Seq<char>>,
    pub subcommand: Option<(Seq<char>, Option<Seq<char>>)>,
}

impl View for Matches {
    type V = MatchesView;

    open spec fn view(&self) -> MatchesView {
        MatchesView {
            lowercase: self.lowercase,
            uppercase: self.uppercase,
            fluffy: self.fluffy.deep_view(),
            subcommand: self.subcommand.deep_view(),
        }
    }
}

/// Why clap stopped without matches: the text it rendered, and whether that
/// text is meant for standard error.
#[derive(Clone, Debug, PartialEq, Eq)]
pub struct Failure {
    pub message: String,
    pub to_stderr: bool,
}

/// A failure, with its text as a sequence of characters.
pub struct FailureView {
    pub message: Seq<char>,
    pub to_stderr: bool,
}

impl View for Failure {
    type V = FailureView;

    open spec fn view(&self) -> FailureView {
        FailureView { message: self.message@, to_stderr: self.to_stderr }
    }
}

/// The result of parsing, in the program's own terms.
#[derive(Clone, Debug, PartialEq, Eq)]
pub enum Parsed {
    /// The arguments were accepted.
    Invocation(InvocationArgs),
    /// Help or the version was asked for: the text to show, after which the
    /// program ends successfully.
    Display(String),
    /// The arguments were malformed: the message for standard error, after
    /// which the program ends with a failure.
    UsageError(String),
}

/// A parse result, with every text as a sequence of characters.
pub enum ParsedView {
    Invocation(InvocationView),
    Display(Seq<char>),
    UsageError(Seq<char>),
}

impl View for Parsed {
    type V = ParsedView;

    open spec fn view(&self) -> ParsedView {
        match self {
            Parsed::Invocation(args) => ParsedView::Invocation(args@),
            Parsed::Display(text) => ParsedView::Display(text@),
            Parsed::UsageError(text) => ParsedView::UsageError(text@),
        }
    }
}

/// The view of a raw parse result.
pub open spec fn raw_view(raw: Result<Matches, Failure>) -> Result<MatchesView, FailureView> {
    match raw {
        Ok(matches) => Ok(matches@),
        Err(failure) => Err(failure@),
    }
}

/// The names that a command was defined with, in the order of a surface's
/// view.
pub uninterp spec fn definition_of(c: Command) -> Seq<Seq<char>>;

/// What clap makes of an argument list, for a command defined with the
/// given names: the matches, or the failure with its rendered text. The
/// same names and arguments always give the same result: while it parses
/// and renders, clap reads neither the process environment nor the
/// terminal (it would, for the width of help text, only with its
/// `wrap_help` feature, which this crate leaves off).
pub uninterp spec fn clap_parsed(definition: Seq<Seq<char>>, args: Seq<Seq<char>>) -> Result<
    MatchesView,
    FailureView,
>;

/// The usage line that clap renders for a command defined with the given
/// names.
pub uninterp spec fn clap_usage(definition: Seq<Seq<char>>) -> Seq<char>;

/// The subcommand that a matched name and input stand for. Only the two
/// names of the surface select a subcommand.
pub open spec fn subcommand_of(matched: Option<(Seq<char>, Option<Seq<char>>)>) -> SubcommandView {
    match matched {
        Some((name, input)) => if name == echo_name() {
            SubcommandView::Echo(input)
        } else if name == echo_reverse_name() {
            SubcommandView::EchoReverse(input)
        } else {
            SubcommandView::Missing
        },
        None => SubcommandView::Missing,
    }
}

/// The invocation that matches stand for: an option that was not given is
/// off.
pub open spec fn invocation_of(matches: MatchesView) -> InvocationView {
    InvocationView {
        lowercase: matches.lowercase == Some(true),
        uppercase: matches.uppercase == Some(true),
        fluffy: matches.fluffy,
        subcommand: subcommand_of(matches.subcommand),
    }
}

/// A raw parse result in the program's own terms: matches become an
/// invocation; a failure is a usage error if its text is meant for standard
/// error, and a display of help or version otherwise.
pub open spec fn interpreted(raw: Result<MatchesView, FailureView>) -> ParsedView {
    match raw {
        Ok(matches) => ParsedView::Invocation(invocation_of(matches)),
        Err(failure) => if failure.to_stderr {
            ParsedView::UsageError(failure.message)
        } else {
            ParsedView::Display(failure.message)
        },
    }
}

/// The result of parsing an argument list against this program's surface.
pub open spec fn parsed(args: Seq<Seq<char>>) -> ParsedView {
    interpreted(clap_parsed(standard_names(), args))
}

/// Builds the `clap::Command` for a surface: `Command::new`, `version`,
/// `about`, `subcommand` and `arg`, with `Arg::new`, `long`, `aliases`,
/// `value_parser`, `action` and `index`. Trusted: the command is defined
/// with exactly the names in `d`, each in its role.
#[verifier::external_body]
fn build_command(d: &Surface) -> (c: Command)
    ensures
        definition_of(c) == d@,
{
    Command::new(d.program)
        .version(d.version)
        .subcommand(Command::new(d.echo.name).about(d.echo.about).arg(Arg::new(d.input)))
        .subcommand(
            Command::new(d.echo_reverse.name).about(d.echo_reverse.about).arg(Arg::new(d.input)),
        )
        .arg(Arg::new(d.lowercase.id).long(d.lowercase.id).aliases(d.lowercase.aliases)
            .value_parser(ValueParser::bool()))
        .arg(Arg::new(d.uppercase.id).long(d.uppercase.id).aliases(d.uppercase.aliases)
            .action(ArgAction::SetTrue))
        .arg(Arg::new(d.fluffy).index(1))
}

/// Calls `Command::try_get_matches_from` and reads the result: the matches
/// with `ArgMatches::get_one` and `subcommand`, a failure with
/// `Error::render` and `use_stderr`. The first argument is taken as the
/// program's name. Trusted: the result depends on the command's definition
/// and the arguments alone. Limited to this program's surface, for which
/// clap's checks of a definition pass and every identifier read is defined
/// with the type it is read at.
#[verifier::external_body]
fn parse_with(c: Command, d: &Surface, args: &Vec<String>) -> (raw: Result<Matches, Failure>)
    requires
        definition_of(c) == standard_names(),
        d@ == standard_names(),
    ensures
        raw_view(raw) == clap_parsed(definition_of(c), args.deep_view()),
{
    match c.try_get_matches_from(args) {
        Ok(m) => Ok(Matches {
            lowercase: m.get_one::<bool>(d.lowercase.id).copied(),
            uppercase: m.get_one::<bool>(d.uppercase.id).copied(),
            fluffy: m.get_one::<String>(d.fluffy).cloned(),
            subcommand: m.subcommand().map(|(name, sub)| (name.to_string(), sub.get_one::<String>(d.input).cloned())),
        }),
        Err(e) => Err(Failure { message: e.render().to_string(), to_stderr: e.use_stderr() }),
    }
}

/// Calls `Command::render_usage`. Trusted: the line depends on the
/// command's definition alone. Limited to this program's surface, for which
/// clap's checks of a definition pass.
#[verifier::external_body]
fn usage_of(c: Command) -> (usage: String)
    requires
        definition_of(c) == standard_names(),
    ensures
        usage@ == clap_usage(definition_of(c)),
{
    let mut c = c;
    c.render_usage().to_string()
}

/// Names the subcommand that clap matched, by the two names of the surface.
pub fn select_subcommand(matched: Option<(String, Option<String>)>) -> (subcommand: Subcommand)
    ensures
        subcommand@ == subcommand_of(matched.deep_view()),
{
    match matched {
        Some((name, input)) => {
            let names = surface();
            let echo = names.echo.name.to_owned();
            let echo_reverse = names.echo_reverse.name.to_owned();
            if name == echo {
                Subcommand::Echo(input)
            } else if name == echo_reverse {
                Subcommand::EchoReverse(input)
            } else {
                Subcommand::Missing
            }
        },
        None => Subcommand::Missing,
    }
}

/// Turns what clap reported into the program's own terms.
pub fn interpret(raw: Result<Matches, Failure>) -> (result: Parsed)
    ensures
        result@ == interpreted(raw_view(raw)),
{
    match raw {
        Ok(matches) => {
            let lowercase = match matches.lowercase {
                Some(value) => value,
                None => false,
            };
            let uppercase = match matches.uppercase {
                Some(value) => value,
                None => false,
            };
            Parsed::Invocation(
                InvocationArgs {
                    lowercase,
                    uppercase,
                    fluffy: matches.fluffy,
                    subcommand: select_subcommand(matches.subcommand),
                },
            )
        },
        Err(failure) => if failure.to_stderr {
            Parsed::UsageError(failure.message)
        } else {
            Parsed::Display(failure.message)
        },
    }
}

/// Parses an argument list, the program's name first, against this
/// program's surface.
pub fn parse(args: &Vec<String>) -> (result: Parsed)
    ensures
        result@ == parsed(args.deep_view()),
{
    let d = surface();
    let c = build_command(&d);
    interpret(parse_with(c, &d, args))
}

/// The usage line of this program's surface.
pub fn usage() -> (line: String)
    ensures
        line@ == clap_usage(standard_names()),
{
    let d = surface();
    usage_of(build_command(&d))
}

} // verus!
