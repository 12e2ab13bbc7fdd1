use my_cli::dispatch::{dispatch, render_fluffy, Outcome, Status};
use my_cli::invocation::{InvocationArgs, Subcommand};
use my_cli::report::{print_lines, report_outcome, SUCCESS_CODE, USAGE_CODE};

fn invocation(lowercase: bool, uppercase: bool, fluffy: Option<&str>, subcommand: Subcommand) -> InvocationArgs {
    InvocationArgs { lowercase, uppercase, fluffy: fluffy.map(|f| f.to_string()), subcommand }
}

fn text(s: &str) -> Option<String> {
    Some(s.to_string())
}

#[test]
fn fluffy_line_shows_the_value_or_its_absence() {
    assert_eq!(render_fluffy(&text("fluffyval")), "fluffy: Some(\"fluffyval\")");
    assert_eq!(render_fluffy(&None), "fluffy: None");
    assert_eq!(render_fluffy(&text("")), "fluffy: Some(\"\")");
    assert_eq!(render_fluffy(&text("a\"b")), "fluffy: Some(\"a\\\"b\")");
}

#[test]
fn dispatch_echo_lowercase() {
    let out = dispatch(&invocation(true, false, Some("fluffyval"), Subcommand::Echo(text("Hello World"))));
    assert_eq!(out.lines, vec!["fluffy: Some(\"fluffyval\")".to_string(), "\"hello world\"".to_string()]);
    assert_eq!(out.status, Status::Success);
}

#[test]
fn dispatch_echo_default_equals_uppercase() {
    let plain = dispatch(&invocation(false, false, None, Subcommand::Echo(text("Hello World"))));
    let upper = dispatch(&invocation(false, true, None, Subcommand::Echo(text("Hello World"))));
    assert_eq!(plain.lines, vec!["fluffy: None".to_string(), "\"HELLO WORLD\"".to_string()]);
    assert_eq!(plain, upper);
}

#[test]
fn dispatch_echo_reverse() {
    let out = dispatch(&invocation(false, false, None, Subcommand::EchoReverse(text("a b c"))));
    assert_eq!(out.lines, vec!["fluffy: None".to_string(), "reverse echo: \"c b a\"".to_string()]);
    assert_eq!(out.status, Status::Success);
}

#[test]
fn dispatch_without_input_prints_only_fluffy() {
    for subcommand in [Subcommand::Echo(None), Subcommand::EchoReverse(None)] {
        let out = dispatch(&invocation(true, true, Some("f"), subcommand));
        assert_eq!(out.lines, vec!["fluffy: Some(\"f\")".to_string()]);
        assert_eq!(out.status, Status::Success);
    }
}

#[test]
fn dispatch_without_subcommand_reports_it() {
    let out = dispatch(&invocation(false, false, Some("only"), Subcommand::Missing));
    assert_eq!(out.lines, vec!["fluffy: Some(\"only\")".to_string()]);
    assert_eq!(out.status, Status::MissingSubcommand);
}

#[test]
fn print_lines_ends_each_line() {
    assert_eq!(print_lines(&vec![]), "");
    assert_eq!(print_lines(&vec!["a".to_string()]), "a\n");
    assert_eq!(print_lines(&vec!["a".to_string(), "".to_string(), "b".to_string()]), "a\n\nb\n");
}

#[test]
fn report_outcome_follows_the_status() {
    let done = Outcome { lines: vec!["one".to_string(), "two".to_string()], status: Status::Success };
    let r = report_outcome(&done, "Usage: ignored");
    assert_eq!(r.stdout, "one\ntwo\n");
    assert_eq!(r.stderr, "");
    assert_eq!(r.exit_code, SUCCESS_CODE);
    assert_eq!(SUCCESS_CODE, 0);

    let missing = Outcome { lines: vec!["one".to_string()], status: Status::MissingSubcommand };
    let r = report_outcome(&missing, "Usage: prog");
    assert_eq!(r.stdout, "one\n");
    assert_eq!(r.stderr, "error: a subcommand is required\n\nUsage: prog\n\nFor more information, try '--help'.\n");
    assert_eq!(r.exit_code, USAGE_CODE);
    assert_eq!(USAGE_CODE, 2);
}
