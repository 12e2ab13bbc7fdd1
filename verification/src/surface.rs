//! The command-line surface: the names under which the program, its
//! options, its positional value and its subcommands are known.

use vstd::prelude::*;

verus! {

/// A named option: its identifier, which is also its long name, and the
/// other long names it answers to.
#[derive(Clone, Copy, Debug, PartialEq, Eq)]
pub struct Flag {
    pub id: &'static str,
    pub aliases: [&'static str; 3],
}

/// A subcommand: its name and its one-line description.
#[derive(Clone, Copy, Debug, PartialEq, Eq)]
pub struct Section {
    pub name: &'static str,
    pub about: &'static str,
}

/// The whole surface, as one immutable description.
///
/// `lowercase` takes a value, `true` or `false`; `uppercase` is a flag that
/// is either present or not; `fluffy` is the one positional value; each of
/// the two subcommands takes one optional positional value, `input`.
#[derive(Clone, Copy, Debug, PartialEq, Eq)]
pub struct Surface {
    pub program: &'static str,
    pub version: &'static str,
    pub lowercase: Flag,
    pub uppercase: Flag,
    pub fluffy: &'static str,
    pub echo: Section,
    pub echo_reverse: Section,
    pub input: &'static str,
}

impl View for Surface {
    type V = Seq<Seq<char>>;

    /// The names of the surface, in the order of its fields.
    open spec fn view(&self) -> Seq<Seq<char>> {
        seq![
            self.program@,
            self.version@,
            self.lowercase.id@,
            self.lowercase.aliases[0]@,
            self.lowercase.aliases[1]@,
            self.lowercase.aliases[2]@,
            self.uppercase.id@,
            self.uppercase.aliases[0]@,
            self.uppercase.aliases[1]@,
            self.uppercase.aliases[2]@,
            self.fluffy@,
            self.echo.name@,
            self.echo.about@,
            self.echo_reverse.name@,
            self.echo_reverse.about@,
            self.input@,
        ]
    }
}

/// The name of the subcommand that echoes its input.
pub open spec fn echo_name() -> Seq<char> {
    "echo"@
}

/// The name of the subcommand that reverses the word order of its input.
pub open spec fn echo_reverse_name() -> Seq<char> {
    "echo-reverse"@
}

/// The names of this program's surface.
pub open spec fn standard_names() -> Seq<Seq<char>> {
    seq![
        "my_cli"@,
        "0.1.0"@,
        "lowercase"@,
        "lc"@,
        "lower-case"@,
        "lcase"@,
        "uppercase"@,
        "uc"@,
        "upper-case"@,
        "ucase"@,
        "fluffy"@,
        echo_name(),
        "echo user input"@,
        echo_reverse_name(),
        "echo user input in reverse"@,
        "input"@,
    ]
}

/// This program's surface.
pub fn surface() -> (surface: Surface)
    ensures
        surface@ == standard_names(),
        surface.echo.name@ == echo_name(),
        surface.echo_reverse.name@ == echo_reverse_name(),
{
    Surface {
        program: "my_cli",
        version: "0.1.0",
        lowercase: Flag { id: "lowercase", aliases: ["lc", "lower-case", "lcase"] },
        uppercase: Flag { id: "uppercase", aliases: ["uc", "upper-case", "ucase"] },
        fluffy: "fluffy",
        echo: Section { name: "echo", about: "echo user input" },
        echo_reverse: Section { name: "echo-reverse", about: "echo user input in reverse" },
        input: "input",
    }
}

} // verus!
