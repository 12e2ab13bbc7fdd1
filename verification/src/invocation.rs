//! What one invocation asked for, once its arguments have been parsed.

use vstd::prelude::*;

verus! {

/// The subcommand of an invocation, with the text it was given, if any.
#[derive(Clone, Debug, PartialEq, Eq)]
pub enum Subcommand {
    /// `echo [input]`
    Echo(Option<String>),
    /// `echo-reverse [input]`
    EchoReverse(Option<String>),
    /// No subcommand was given.
    Missing,
}

/// A subcommand, with its text as a sequence of characters.
pub enum SubcommandView {
    Echo(Option<Seq<char>>),
    EchoReverse(Option<Seq<char>>),
    Missing,
}

impl View for Subcommand {
    type V = SubcommandView;

    open spec fn view(&self) -> SubcommandView {
        match self {
            Subcommand::Echo(input) => SubcommandView::Echo(input.deep_view()),
            Subcommand::EchoReverse(input) => SubcommandView::EchoReverse(input.deep_view()),
            Subcommand::Missing => SubcommandView::Missing,
        }
    }
}

/// The parsed arguments of one invocation. Built once and not changed
/// afterwards.
#[derive(Clone, Debug, PartialEq, Eq)]
pub struct InvocationArgs {
    /// The value of `--lowercase`; `false` if the option was not given.
    pub lowercase: bool,
    /// Whether `--uppercase` was given.
    pub uppercase: bool,
    /// The positional value, if one was given.
    pub fluffy: Option<String>,
    /// The subcommand and its input.
    pub subcommand: Subcommand,
}

/// The parsed arguments, with every text as a sequence of characters.
pub struct InvocationView {
    pub lowercase: bool,
    pub uppercase: bool,
    pub fluffy: Option<Seq<char>>,
    pub subcommand: SubcommandView,
}

impl View for InvocationArgs {
    type V = InvocationView;

    open spec fn view(&self) -> InvocationView {
        InvocationView {
            lowercase: self.lowercase,
            uppercase: self.uppercase,
            fluffy: self.fluffy.deep_view(),
            subcommand: self.subcommand@,
        }
    }
}

} // verus!
