use my_cli::text::{echo, echo_reverse, join_tokens, reverse_tokens, split_tokens, to_lowercase, to_uppercase};

fn owned(tokens: &[&str]) -> Vec<String> {
    tokens.iter().map(|t| t.to_string()).collect()
}

#[test]
fn echo_lowercases_when_asked() {
    assert_eq!(echo("Hello World", true, false), "hello world");
}

#[test]
fn echo_lowercase_wins_over_uppercase() {
    assert_eq!(echo("Hello World", true, true), "hello world");
}

#[test]
fn echo_uppercases_when_asked() {
    assert_eq!(echo("Hello World", false, true), "HELLO WORLD");
}

#[test]
fn echo_uppercases_by_default() {
    assert_eq!(echo("Hello World", false, false), "HELLO WORLD");
    assert_eq!(echo("Hello World", false, false), echo("Hello World", false, true));
}

#[test]
fn echo_of_empty_text_is_empty() {
    assert_eq!(echo("", true, false), "");
    assert_eq!(echo("", false, false), "");
}

#[test]
fn uppercase_may_grow_the_text() {
    assert_eq!(to_uppercase("straße"), "STRASSE");
    assert_eq!(to_uppercase("ﬁn"), "FIN");
}

#[test]
fn lowercase_maps_each_character_alone() {
    assert_eq!(to_lowercase("ÀÉÎ"), "àéî");
    assert_eq!(to_lowercase("İ"), "i\u{307}");
    // A capital sigma becomes a small sigma wherever it stands.
    assert_eq!(to_lowercase("ΟΔΟΣ"), "οδοσ");
}

#[test]
fn case_mapping_leaves_other_characters_alone() {
    assert_eq!(to_lowercase("a1 _-?"), "a1 _-?");
    assert_eq!(to_uppercase("A1 _-?"), "A1 _-?");
}

#[test]
fn split_gives_one_token_more_than_spaces() {
    assert_eq!(split_tokens("a b c"), owned(&["a", "b", "c"]));
    assert_eq!(split_tokens(""), owned(&[""]));
    assert_eq!(split_tokens("word"), owned(&["word"]));
    assert_eq!(split_tokens(" "), owned(&["", ""]));
    assert_eq!(split_tokens("a  b"), owned(&["a", "", "b"]));
    assert_eq!(split_tokens(" a b "), owned(&["", "a", "b", ""]));
}

#[test]
fn split_keeps_other_whitespace_inside_tokens() {
    assert_eq!(split_tokens("a\tb c\nd"), owned(&["a\tb", "c\nd"]));
}

#[test]
fn split_agrees_with_std() {
    for s in ["", " ", "a", "a b", "  a  b  ", "x y z w", "é ü", "a\u{3000}b c"] {
        let expected: Vec<String> = s.split(" ").map(|t| t.to_string()).collect();
        assert_eq!(split_tokens(s), expected);
    }
}

#[test]
fn join_puts_single_spaces_between_tokens() {
    assert_eq!(join_tokens(&owned(&["a", "b", "c"])), "a b c");
    assert_eq!(join_tokens(&owned(&["only"])), "only");
    assert_eq!(join_tokens(&owned(&[])), "");
    assert_eq!(join_tokens(&owned(&["", ""])), " ");
    assert_eq!(join_tokens(&owned(&["a", "", "b"])), "a  b");
}

#[test]
fn join_undoes_split() {
    for s in ["", " ", "a", "a b", "  a  b  ", "x y z w"] {
        assert_eq!(join_tokens(&split_tokens(s)), s);
    }
}

#[test]
fn reverse_tokens_puts_the_last_first() {
    assert_eq!(reverse_tokens(owned(&["a", "b", "c"])), owned(&["c", "b", "a"]));
    assert_eq!(reverse_tokens(owned(&["a"])), owned(&["a"]));
    assert_eq!(reverse_tokens(owned(&[])), owned(&[]));
}

#[test]
fn echo_reverse_reverses_the_word_order() {
    assert_eq!(echo_reverse("a b c"), "c b a");
    assert_eq!(echo_reverse("Hello World"), "World Hello");
}

#[test]
fn echo_reverse_keeps_a_single_token() {
    assert_eq!(echo_reverse("single"), "single");
    assert_eq!(echo_reverse(""), "");
}

#[test]
fn echo_reverse_keeps_empty_tokens() {
    assert_eq!(echo_reverse(" a"), "a ");
    assert_eq!(echo_reverse("a  b"), "b  a");
    assert_eq!(echo_reverse("  "), "  ");
}

#[test]
fn echo_reverse_twice_is_the_identity() {
    for s in ["", " ", "a", "a b c", " a  b ", "one two  three   ", "é ü ß"] {
        assert_eq!(echo_reverse(&echo_reverse(s)), s);
    }
}
