//! The text transforms behind the two subcommands: changing the case of a
//! string, and reversing the order of its space-separated tokens.
//!
//! Every transform is total: it accepts any string and cannot fail.

use vstd::prelude::*;

verus! {

/// The tokens of `s`: the runs of characters between single spaces.
///
/// A string with `n` spaces has exactly `n + 1` tokens. Two spaces in a row,
/// or a space at either end, give an empty token; the empty string has one
/// empty token. The tokens are the only sequence of space-free strings that
/// `joined` turns back into `s`: see `lemma_tokens_shape`,
/// `lemma_joined_tokens` and `lemma_tokens_of_joined`.
pub open spec fn tokens_of(s: Seq<char>) -> Seq<Seq<char>>
    decreases s.len(),
{
    if s.len() == 0 {
        seq![Seq::<char>::empty()]
    } else {
        let before = tokens_of(s.drop_last());
        if s.last() == ' ' {
            before.push(Seq::<char>::empty())
        } else {
            before.drop_last().push(before.last().push(s.last()))
        }
    }
}

/// The tokens written one after the other, with a single space between
/// neighbours.
pub open spec fn joined(tokens: Seq<Seq<char>>) -> Seq<char>
    decreases tokens.len(),
{
    if tokens.len() == 0 {
        Seq::<char>::empty()
    } else if tokens.len() == 1 {
        tokens[0]
    } else {
        joined(tokens.drop_last()) + seq![' '] + tokens.last()
    }
}

/// No token holds a space.
pub open spec fn space_free(tokens: Seq<Seq<char>>) -> bool {
    forall|i: int, j: int|
        0 <= i < tokens.len() && 0 <= j < tokens[i].len() ==> #[trigger] tokens[i][j] != ' '
}

/// `s` with the order of its tokens reversed.
pub open spec fn words_reversed(s: Seq<char>) -> Seq<char> {
    joined(tokens_of(s).reverse())
}

/// The lowercase mapping of one character, as `char::to_lowercase` yields
/// it: the same for a given character whatever stands around it.
pub uninterp spec fn char_lower(c: char) -> Seq<char>;

/// The uppercase mapping of one character, as `char::to_uppercase` yields
/// it.
pub uninterp spec fn char_upper(c: char) -> Seq<char>;

/// The text that `{:?}` writes for a string: the string between double
/// quotes, with the characters escaped that `Debug` escapes.
pub uninterp spec fn debug_text(s: Seq<char>) -> Seq<char>;

/// `s` with every character replaced by its lowercase mapping.
pub open spec fn lowercased(s: Seq<char>) -> Seq<char>
    decreases s.len(),
{
    if s.len() == 0 {
        Seq::<char>::empty()
    } else {
        lowercased(s.drop_last()) + char_lower(s.last())
    }
}

/// `s` with every character replaced by its uppercase mapping.
pub open spec fn uppercased(s: Seq<char>) -> Seq<char>
    decreases s.len(),
{
    if s.len() == 0 {
        Seq::<char>::empty()
    } else {
        uppercased(s.drop_last()) + char_upper(s.last())
    }
}

/// The text that `echo` gives for `s` under the two casing options:
/// lowercase wins over uppercase, and with neither option the text is
/// uppercased all the same.
pub open spec fn echoed(s: Seq<char>, lowercase: bool, uppercase: bool) -> Seq<char> {
    if lowercase {
        lowercased(s)
    } else if uppercase {
        uppercased(s)
    } else {
        uppercased(s)
    }
}

/// `String::push` appends one character to the end of the string.
pub assume_specification[ String::push ](s: &mut String, ch: char)
    ensures
        final(s)@ == old(s)@.push(ch),
;

/// Calls `char::to_lowercase` and collects the characters it yields. The
/// result is trusted to be the character's lowercase mapping, which std
/// documents as independent of context and language.
#[verifier::external_body]
fn lowercase_of(c: char) -> (mapped: String)
    ensures
        mapped@ == char_lower(c),
{
    c.to_lowercase().collect()
}

/// Calls `char::to_uppercase` and collects the characters it yields. The
/// result is trusted to be the character's uppercase mapping, which std
/// documents as independent of context and language.
#[verifier::external_body]
fn uppercase_of(c: char) -> (mapped: String)
    ensures
        mapped@ == char_upper(c),
{
    c.to_uppercase().collect()
}

/// Formats a string with `{:?}`. The result is trusted to depend on the
/// string's characters alone.
#[verifier::external_body]
pub(crate) fn debug_quoted(s: &str) -> (quoted: String)
    ensures
        quoted@ == debug_text(s@),
{
    format!("{:?}", s)
}

/// Splits `input` at every single space.
pub fn split_tokens(input: &str) -> (tokens: Vec<String>)
    ensures
        tokens.deep_view() == tokens_of(input@),
{
    let mut tokens: Vec<String> = Vec::new();
    let mut current = String::new();
    for c in it: input.chars()
        invariant
            it.seq() == input@,
            tokens.deep_view().push(current@) == tokens_of(input@.take(it.index() as int)),
    {
        let ghost before = tokens.deep_view().push(current@);
        proof {
            assert(input@.take(it.index() + 1).drop_last() == input@.take(it.index() as int));
        }
        if c == ' ' {
            tokens.push(current);
            current = String::new();
            assert(tokens.deep_view() == before);
        } else {
            current.push(c);
            assert(tokens.deep_view().push(current@) == before.drop_last().push(
                before.last().push(c),
            ));
        }
    }
    proof {
        assert(input@.take(input@.len() as int) == input@);
    }
    let ghost before = tokens.deep_view();
    tokens.push(current);
    assert(tokens.deep_view() == before.push(current@));
    tokens
}

/// Moves the tokens into a new vector, the last one first.
pub fn reverse_tokens(tokens: Vec<String>) -> (backwards: Vec<String>)
    ensures
        backwards.deep_view() == tokens.deep_view().reverse(),
{
    let ghost given = tokens@;
    let mut rest = tokens;
    let mut backwards: Vec<String> = Vec::new();
    loop
        invariant
            backwards@.len() + rest@.len() == given.len(),
            rest@ == given.take(rest@.len() as int),
            forall|i: int|
                0 <= i < backwards@.len() ==> backwards@[i] == given[given.len() - 1 - i],
        ensures
            backwards@ == given.reverse(),
        decreases rest@.len(),
    {
        match rest.pop() {
            Some(token) => {
                backwards.push(token);
            },
            None => {
                break;
            },
        }
    }
    assert(backwards.deep_view() == tokens.deep_view().reverse());
    backwards
}

/// Writes the tokens one after the other, with a single space between
/// neighbours.
pub fn join_tokens(tokens: &Vec<String>) -> (text: String)
    ensures
        text@ == joined(tokens.deep_view()),
{
    let mut text = String::new();
    let mut i: usize = 0;
    while i < tokens.len()
        invariant
            i <= tokens.len(),
            text@ == joined(tokens.deep_view().take(i as int)),
        decreases tokens.len() - i,
    {
        proof {
            let next = tokens.deep_view().take(i + 1);
            assert(next.drop_last() == tokens.deep_view().take(i as int));
            assert(next.last() == tokens[i as int]@);
        }
        if i > 0 {
            text.push(' ');
        }
        text.append(tokens[i].as_str());
        i += 1;
    }
    proof {
        assert(tokens.deep_view().take(tokens.len() as int) == tokens.deep_view());
    }
    text
}

/// `input` with the order of its space-separated tokens reversed.
pub fn echo_reverse(input: &str) -> (text: String)
    ensures
        text@ == words_reversed(input@),
{
    let tokens = split_tokens(input);
    let backwards = reverse_tokens(tokens);
    join_tokens(&backwards)
}

/// `input` lowercased character by character.
pub fn to_lowercase(input: &str) -> (text: String)
    ensures
        text@ == lowercased(input@),
{
    let mut text = String::new();
    for c in it: input.chars()
        invariant
            it.seq() == input@,
            text@ == lowercased(input@.take(it.index() as int)),
    {
        proof {
            assert(input@.take(it.index() + 1).drop_last() == input@.take(it.index() as int));
        }
        let mapped = lowercase_of(c);
        text.append(mapped.as_str());
    }
    proof {
        assert(input@.take(input@.len() as int) == input@);
    }
    text
}

/// `input` uppercased character by character.
pub fn to_uppercase(input: &str) -> (text: String)
    ensures
        text@ == uppercased(input@),
{
    let mut text = String::new();
    for c in it: input.chars()
        invariant
            it.seq() == input@,
            text@ == uppercased(input@.take(it.index() as int)),
    {
        proof {
            assert(input@.take(it.index() + 1).drop_last() == input@.take(it.index() as int));
        }
        let mapped = uppercase_of(c);
        text.append(mapped.as_str());
    }
    proof {
        assert(input@.take(input@.len() as int) == input@);
    }
    text
}

/// The text that the `echo` subcommand gives for `input`: lowercased if
/// `lowercase` is set, uppercased otherwise, whether or not `uppercase` is
/// set.
///
/// That the uppercase option changes nothing is how the program is defined,
/// and possibly not what was meant: a default that leaves the text as it is
/// would give the option a purpose. Until that is settled, the default is
/// the uppercased text.
pub fn echo(input: &str, lowercase: bool, uppercase: bool) -> (text: String)
    ensures
        text@ == echoed(input@, lowercase, uppercase),
{
    if lowercase {
        to_lowercase(input)
    } else if uppercase {
        to_uppercase(input)
    } else {
        to_uppercase(input)
    }
}

/// A string always has at least one token, and no token holds a space.
pub proof fn lemma_tokens_shape(s: Seq<char>)
    ensures
        tokens_of(s).len() >= 1,
        space_free(tokens_of(s)),
    decreases s.len(),
{
    if s.len() > 0 {
        lemma_tokens_shape(s.drop_last());
    }
}

/// Joining the tokens of a string gives the string back.
pub proof fn lemma_joined_tokens(s: Seq<char>)
    ensures
        joined(tokens_of(s)) == s,
    decreases s.len(),
{
    if s.len() > 0 {
        let rest = s.drop_last();
        let before = tokens_of(rest);
        lemma_tokens_shape(rest);
        lemma_joined_tokens(rest);
        assert(s == rest.push(s.last()));
        if s.last() == ' ' {
            let after = before.push(Seq::<char>::empty());
            assert(after.drop_last() == before);
            assert(joined(after) == joined(before) + seq![' '] + Seq::<char>::empty());
        } else {
            let grown = before.last().push(s.last());
            let after = before.drop_last().push(grown);
            if before.len() > 1 {
                assert(after.drop_last() == before.drop_last());
                assert(joined(after) == joined(before.drop_last()) + seq![' '] + grown);
            }
        }
    }
}

/// A string without a space is its own single token.
pub proof fn lemma_tokens_of_single(token: Seq<char>)
    requires
        forall|j: int| 0 <= j < token.len() ==> token[j] != ' ',
    ensures
        tokens_of(token) == seq![token],
    decreases token.len(),
{
    if token.len() == 0 {
        assert(token == Seq::<char>::empty());
    } else {
        let shorter = token.drop_last();
        lemma_tokens_of_single(shorter);
        assert(shorter.push(token.last()) == token);
    }
}

/// Appending a space and a token without spaces to a string appends that
/// token to the string's tokens.
pub proof fn lemma_tokens_of_appended(s: Seq<char>, token: Seq<char>)
    requires
        forall|j: int| 0 <= j < token.len() ==> token[j] != ' ',
    ensures
        tokens_of(s + seq![' '] + token) == tokens_of(s).push(token),
    decreases token.len(),
{
    let whole = s + seq![' '] + token;
    if token.len() == 0 {
        assert(whole.drop_last() == s);
        assert(token == Seq::<char>::empty());
    } else {
        let shorter = token.drop_last();
        lemma_tokens_of_appended(s, shorter);
        assert(whole.drop_last() == s + seq![' '] + shorter);
        assert(shorter.push(token.last()) == token);
    }
}

/// Splitting undoes joining, for one or more tokens without spaces.
pub proof fn lemma_tokens_of_joined(tokens: Seq<Seq<char>>)
    requires
        tokens.len() >= 1,
        space_free(tokens),
    ensures
        tokens_of(joined(tokens)) == tokens,
    decreases tokens.len(),
{
    if tokens.len() == 1 {
        lemma_tokens_of_single(tokens[0]);
        assert(seq![tokens[0]] == tokens);
    } else {
        let front = tokens.drop_last();
        assert(space_free(front)) by {
            assert forall|i: int, j: int|
                0 <= i < front.len() && 0 <= j < front[i].len() implies #[trigger] front[i][j]
                != ' ' by {
                assert(front[i][j] == tokens[i][j]);
            }
        }
        lemma_tokens_of_joined(front);
        assert forall|j: int| 0 <= j < tokens.last().len() implies tokens.last()[j] != ' ' by {
            assert(tokens[tokens.len() - 1][j] != ' ');
        }
        lemma_tokens_of_appended(joined(front), tokens.last());
        assert(front.push(tokens.last()) == tokens);
    }
}

/// With no casing option the echo is the uppercased text, exactly as with
/// the uppercase option alone; the lowercase option gives the lowercased
/// text whatever the uppercase option says.
pub proof fn law_echo_casing(s: Seq<char>, uppercase: bool)
    ensures
        echoed(s, true, uppercase) == lowercased(s),
        echoed(s, false, true) == uppercased(s),
        echoed(s, false, false) == uppercased(s),
        echoed(s, false, false) == echoed(s, false, true),
{
}

/// Lowercasing works character by character: a single character becomes
/// its lowercase mapping, and the lowercased form of two strings written one
/// after the other is their two lowercased forms written one after the
/// other.
pub proof fn law_lowercase_is_character_wise(a: Seq<char>, b: Seq<char>, c: char)
    ensures
        lowercased(seq![c]) == char_lower(c),
        lowercased(a + b) == lowercased(a) + lowercased(b),
    decreases b.len(),
{
    assert(seq![c].drop_last() == Seq::<char>::empty());
    assert(lowercased(seq![c]) == lowercased(Seq::<char>::empty()) + char_lower(c));
    if b.len() == 0 {
        assert(a + b == a);
    } else {
        law_lowercase_is_character_wise(a, b.drop_last(), c);
        assert((a + b).drop_last() == a + b.drop_last());
    }
}

/// Uppercasing works character by character, in the same sense.
pub proof fn law_uppercase_is_character_wise(a: Seq<char>, b: Seq<char>, c: char)
    ensures
        uppercased(seq![c]) == char_upper(c),
        uppercased(a + b) == uppercased(a) + uppercased(b),
    decreases b.len(),
{
    assert(seq![c].drop_last() == Seq::<char>::empty());
    assert(uppercased(seq![c]) == uppercased(Seq::<char>::empty()) + char_upper(c));
    if b.len() == 0 {
        assert(a + b == a);
    } else {
        law_uppercase_is_character_wise(a, b.drop_last(), c);
        assert((a + b).drop_last() == a + b.drop_last());
    }
}

/// Reversing the word order of a string reverses its sequence of tokens,
/// and changes nothing else.
pub proof fn law_reverse_reverses_tokens(s: Seq<char>)
    ensures
        tokens_of(words_reversed(s)) == tokens_of(s).reverse(),
{
    let tokens = tokens_of(s);
    let backwards = tokens.reverse();
    lemma_tokens_shape(s);
    assert(space_free(backwards)) by {
        assert forall|i: int, j: int|
            0 <= i < backwards.len() && 0 <= j < backwards[i].len() implies #[trigger] backwards[i][j]
            != ' ' by {
            assert(backwards[i][j] == tokens[tokens.len() - 1 - i][j]);
        }
    }
    lemma_tokens_of_joined(backwards);
}

/// Reversing the word order twice changes nothing: the sequence of tokens
/// is the one the string started with, and so is the string.
pub proof fn law_reverse_twice_is_identity(s: Seq<char>)
    ensures
        tokens_of(words_reversed(words_reversed(s))) == tokens_of(s),
        words_reversed(words_reversed(s)) == s,
{
    law_reverse_reverses_tokens(s);
    law_reverse_reverses_tokens(words_reversed(s));
    assert(tokens_of(s).reverse().reverse() == tokens_of(s));
    lemma_joined_tokens(s);
}

/// A string without a space, the empty string among them, is unchanged by
/// reversing the order of its tokens.
pub proof fn law_reverse_keeps_single_token(s: Seq<char>)
    requires
        forall|j: int| 0 <= j < s.len() ==> s[j] != ' ',
    ensures
        words_reversed(s) == s,
{
    lemma_tokens_of_single(s);
    assert(seq![s].reverse() == seq![s]);
}

} // verus!
