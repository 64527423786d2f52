//! Command lines as a shell reads them.

use vstd::prelude::*;

use crate::native::{self, NativeString};
use crate::text;

verus! {

/// Whether a character means itself to a shell, outside quotes.
pub open spec fn plain_char(ch: char) -> bool {
    ||| 'a' <= ch <= 'z'
    ||| 'A' <= ch <= 'Z'
    ||| '0' <= ch <= '9'
    ||| ch == '/'
    ||| ch == '.'
    ||| ch == '_'
    ||| ch == '-'
    ||| ch == '='
}

/// Whether a word needs no quotes.
pub open spec fn plain_word(word: Seq<char>) -> bool {
    forall|i: int| 0 <= i < word.len() ==> plain_char(#[trigger] word[i])
}

/// What stands for one character between single quotes: a single quote closes them, stands between
/// double quotes, and opens them again.
pub open spec fn quoted_char(ch: char) -> Seq<char> {
    if ch == '\'' {
        seq!['\'', '"', '\'', '"', '\'']
    } else {
        seq![ch]
    }
}

/// The characters of a word as they stand between single quotes.
pub open spec fn quoted_chars(word: Seq<char>) -> Seq<char>
    decreases word.len(),
{
    if word.len() == 0 {
        seq![]
    } else {
        quoted_chars(word.drop_last()) + quoted_char(word.last())
    }
}

/// A word as it is written on a command line: as it is, or between single quotes.
pub open spec fn escaped(word: Seq<char>) -> Seq<char> {
    if plain_word(word) {
        word
    } else {
        seq!['\''] + quoted_chars(word) + seq!['\'']
    }
}

fn is_plain_char(ch: char) -> (plain: bool)
    ensures
        plain == plain_char(ch),
{
    ('a' <= ch && ch <= 'z') || ('A' <= ch && ch <= 'Z') || ('0' <= ch && ch <= '9') || ch == '/'
        || ch == '.' || ch == '_' || ch == '-' || ch == '='
}

fn is_plain_word(word: &Vec<char>) -> (plain: bool)
    ensures
        plain == plain_word(word@),
{
    for i in 0..word.len()
        invariant
            forall|j: int| 0 <= j < i ==> plain_char(#[trigger] word@[j]),
    {
        if !is_plain_char(word[i]) {
            return false;
        }
    }
    true
}

/// Writes a word so that a shell reads it as one word.
pub fn shell_escape(input: &str) -> (word: String)
    ensures
        word@ == escaped(input@),
{
    let chars = text::chars_of(input);
    if is_plain_word(&chars) {
        return input.to_owned();
    }
    let mut word = String::new();
    word.push('\'');
    assert(chars@.take(0) =~= seq![]);
    assert(word@ =~= seq!['\''] + quoted_chars(chars@.take(0)));
    for i in 0..chars.len()
        invariant
            word@ == seq!['\''] + quoted_chars(chars@.take(i as int)),
    {
        let ch = chars[i];
        assert(chars@.take(i + 1).drop_last() =~= chars@.take(i as int));
        if ch == '\'' {
            word.push('\'');
            word.push('"');
            word.push('\'');
            word.push('"');
            word.push('\'');
        } else {
            word.push(ch);
        }
        assert(word@ =~= seq!['\''] + quoted_chars(chars@.take(i + 1)));
    }
    assert(chars@.take(chars@.len() as int) =~= chars@);
    word.push('\'');
    assert(word@ =~= escaped(input@));
    word
}

/// A command line: the words, each written for a shell, with a blank between them.
pub open spec fn command_line(words: Seq<Seq<char>>) -> Seq<char> {
    text::joined(words.map_values(|word: Seq<char>| escaped(word)), " "@)
}

/// The words of a command: the program and its arguments, as they are shown.
pub open spec fn command_words(program: Seq<u8>, args: Seq<Seq<u8>>) -> Seq<Seq<char>> {
    seq![native::shown_text(program)] + args.map_values(|arg: Seq<u8>| native::shown_text(arg))
}

/// Writes a command line.
pub fn write_command_line(words: &Vec<String>) -> (line: String)
    ensures
        line@ == command_line(words.deep_view()),
{
    let ghost wanted = words.deep_view().map_values(|word: Seq<char>| escaped(word));
    let mut parts: Vec<String> = Vec::new();
    for i in 0..words.len()
        invariant
            wanted == words.deep_view().map_values(|word: Seq<char>| escaped(word)),
            parts.deep_view() == wanted.take(i as int),
    {
        let ghost before = parts.deep_view();
        assert(words.deep_view()[i as int] == words@[i as int]@);
        parts.push(shell_escape(&words[i]));
        assert(parts.deep_view() =~= before.push(wanted[i as int]));
        assert(parts.deep_view() =~= wanted.take(i + 1));
    }
    assert(wanted.take(wanted.len() as int) =~= wanted);
    text::join_texts(&parts, " ")
}

/// Writes a command as a command line.
pub fn render_command(program: &NativeString, args: &Vec<NativeString>) -> (line: String)
    ensures
        line@ == command_line(command_words(program@, args.deep_view())),
{
    let ghost wanted = command_words(program@, args.deep_view());
    let mut words: Vec<String> = Vec::new();
    words.push(program.display());
    assert(words.deep_view() =~= wanted.take(1));
    for i in 0..args.len()
        invariant
            wanted == command_words(program@, args.deep_view()),
            words.deep_view() == wanted.take(i + 1),
    {
        let ghost before = words.deep_view();
        assert(args.deep_view()[i as int] == args@[i as int]@);
        words.push(args[i].display());
        assert(words.deep_view() =~= before.push(wanted[i + 1]));
        assert(words.deep_view() =~= wanted.take(i + 2));
    }
    assert(wanted.take(wanted.len() as int) =~= wanted);
    write_command_line(&words)
}

/// What quotes a shell is in while it reads a command line.
pub enum Quotes {
    Outside,
    Single,
    Double,
}

/// Whether a character means itself to a shell between double quotes.
pub open spec fn literal_in_double(ch: char) -> bool {
    ch != '$' && ch != '`' && ch != '\\' && ch != '!'
}

/// The words that a shell reads from a command line, where no character of it has a meaning of its
/// own: `word` is the word begun so far.
pub open spec fn shell_words(
    line: Seq<char>,
    quotes: Quotes,
    word: Option<Seq<char>>,
) -> Option<Seq<Seq<char>>>
    decreases line.len(),
{
    if line.len() == 0 {
        match (quotes, word) {
            (Quotes::Outside, Some(word)) => Some(seq![word]),
            (Quotes::Outside, None) => Some(seq![]),
            _ => None,
        }
    } else {
        let ch = line[0];
        let rest = line.drop_first();
        let begun = match word {
            Some(word) => word,
            None => seq![],
        };
        match quotes {
            Quotes::Outside => if ch == ' ' {
                match (word, shell_words(rest, Quotes::Outside, None)) {
                    (Some(word), Some(words)) => Some(seq![word] + words),
                    (None, words) => words,
                    (_, None) => None,
                }
            } else if ch == '\'' {
                shell_words(rest, Quotes::Single, Some(begun))
            } else if ch == '"' {
                shell_words(rest, Quotes::Double, Some(begun))
            } else if plain_char(ch) {
                shell_words(rest, Quotes::Outside, Some(begun.push(ch)))
            } else {
                None
            },
            Quotes::Single => if ch == '\'' {
                shell_words(rest, Quotes::Outside, Some(begun))
            } else {
                shell_words(rest, Quotes::Single, Some(begun.push(ch)))
            },
            Quotes::Double => if ch == '"' {
                shell_words(rest, Quotes::Outside, Some(begun))
            } else if literal_in_double(ch) {
                shell_words(rest, Quotes::Double, Some(begun.push(ch)))
            } else {
                None
            },
        }
    }
}

proof fn first_of_sum(a: char, rest: Seq<char>)
    ensures
        (seq![a] + rest)[0] == a,
        (seq![a] + rest).drop_first() == rest,
{
    assert((seq![a] + rest).drop_first() =~= rest);
}

proof fn plain_word_is_read(word: Seq<char>, rest: Seq<char>, begun: Seq<char>)
    requires
        plain_word(word),
    ensures
        shell_words(word + rest, Quotes::Outside, Some(begun)) == shell_words(
            rest,
            Quotes::Outside,
            Some(begun + word),
        ),
    decreases word.len(),
{
    if word.len() == 0 {
        assert(word + rest =~= rest);
        assert(begun + word =~= begun);
    } else {
        let tail = word.drop_first();
        assert((word + rest).drop_first() =~= tail + rest);
        assert(plain_char(word[0]));
        assert forall|i: int| 0 <= i < tail.len() implies plain_char(#[trigger] tail[i]) by {
            assert(tail[i] == word[i + 1]);
        }
        plain_word_is_read(tail, rest, begun.push(word[0]));
        assert(begun.push(word[0]) + tail =~= begun + word);
    }
}

proof fn quoted_chars_prepend(ch: char, tail: Seq<char>)
    ensures
        quoted_chars(seq![ch] + tail) == quoted_char(ch) + quoted_chars(tail),
    decreases tail.len(),
{
    let word = seq![ch] + tail;
    if tail.len() == 0 {
        assert(word.drop_last() =~= seq![]);
        assert(quoted_chars(word.drop_last()) + quoted_char(word.last()) =~= quoted_char(ch)
            + quoted_chars(tail));
    } else {
        assert(word.drop_last() =~= seq![ch] + tail.drop_last());
        quoted_chars_prepend(ch, tail.drop_last());
        assert(quoted_chars(word) =~= quoted_char(ch) + quoted_chars(tail));
    }
}

proof fn quoted_chars_are_read(word: Seq<char>, rest: Seq<char>, begun: Seq<char>)
    ensures
        shell_words(quoted_chars(word) + seq!['\''] + rest, Quotes::Single, Some(begun))
            == shell_words(rest, Quotes::Outside, Some(begun + word)),
    decreases word.len(),
{
    let line = quoted_chars(word) + seq!['\''] + rest;
    if word.len() == 0 {
        assert(line =~= seq!['\''] + rest);
        first_of_sum('\'', rest);
        assert(begun + word =~= begun);
    } else {
        let ch = word[0];
        let tail = word.drop_first();
        assert(word =~= seq![ch] + tail);
        quoted_chars_prepend(ch, tail);
        let next = quoted_chars(tail) + seq!['\''] + rest;
        quoted_chars_are_read(tail, rest, begun.push(ch));
        assert(begun.push(ch) + tail =~= begun + word);
        if ch == '\'' {
            let l4 = seq!['\''] + next;
            let l3 = seq!['"'] + l4;
            let l2 = seq!['\''] + l3;
            let l1 = seq!['"'] + l2;
            assert(line =~= seq!['\''] + l1);
            first_of_sum('\'', l1);
            first_of_sum('"', l2);
            first_of_sum('\'', l3);
            first_of_sum('"', l4);
            first_of_sum('\'', next);
            let more = begun.push('\'');
            assert(shell_words(line, Quotes::Single, Some(begun)) == shell_words(
                l1,
                Quotes::Outside,
                Some(begun),
            ));
            assert(shell_words(l1, Quotes::Outside, Some(begun)) == shell_words(
                l2,
                Quotes::Double,
                Some(begun),
            ));
            assert(shell_words(l2, Quotes::Double, Some(begun)) == shell_words(
                l3,
                Quotes::Double,
                Some(more),
            ));
            assert(shell_words(l3, Quotes::Double, Some(more)) == shell_words(
                l4,
                Quotes::Outside,
                Some(more),
            ));
            assert(shell_words(l4, Quotes::Outside, Some(more)) == shell_words(
                next,
                Quotes::Single,
                Some(more),
            ));
        } else {
            assert(line =~= seq![ch] + next);
            first_of_sum(ch, next);
        }
    }
}

proof fn escaped_word_is_read(word: Seq<char>, rest: Seq<char>)
    requires
        word.len() > 0,
    ensures
        shell_words(escaped(word) + rest, Quotes::Outside, None) == shell_words(
            rest,
            Quotes::Outside,
            Some(word),
        ),
{
    let empty: Seq<char> = seq![];
    assert(empty + word =~= word);
    if plain_word(word) {
        plain_word_is_read(word, rest, empty);
        assert(plain_char(word[0]));
        assert((word + rest)[0] == word[0]);
    } else {
        let line = seq!['\''] + quoted_chars(word) + seq!['\''] + rest;
        let inner = quoted_chars(word) + seq!['\''] + rest;
        assert(escaped(word) + rest =~= line);
        assert(line =~= seq!['\''] + inner);
        first_of_sum('\'', inner);
        quoted_chars_are_read(word, rest, empty);
    }
}

proof fn joined_prepend(first: Seq<char>, parts: Seq<Seq<char>>, separator: Seq<char>)
    requires
        parts.len() > 0,
    ensures
        text::joined(seq![first] + parts, separator) == first + separator + text::joined(parts, separator),
    decreases parts.len(),
{
    let all = seq![first] + parts;
    if parts.len() == 1 {
        assert(all.drop_last() =~= seq![first]);
        assert(text::joined(seq![first], separator) == first);
        assert(text::joined(parts, separator) == parts[0]);
        assert(all.last() == parts[0]);
    } else {
        assert(all.drop_last() =~= seq![first] + parts.drop_last());
        joined_prepend(first, parts.drop_last(), separator);
        assert(text::joined(all, separator) =~= first + separator + text::joined(parts, separator));
    }
}

/// A command line can be read back: from the line that is shown, a shell reads the words that it
/// was made of. An empty word is the exception, it leaves no trace on the line.
pub proof fn command_line_is_read_back(words: Seq<Seq<char>>)
    requires
        forall|i: int| 0 <= i < words.len() ==> (#[trigger] words[i]).len() > 0,
    ensures
        shell_words(command_line(words), Quotes::Outside, None) == Some(words),
    decreases words.len(),
{
    let parts = words.map_values(|word: Seq<char>| escaped(word));
    reveal_strlit(" ");
    if words.len() == 0 {
        assert(words =~= seq![]);
    } else {
        let first = words[0];
        let others = words.drop_first();
        let empty: Seq<char> = seq![];
        if words.len() == 1 {
            assert(command_line(words) =~= escaped(first) + empty);
            escaped_word_is_read(first, empty);
            assert(words =~= seq![first]);
        } else {
            let other_parts = others.map_values(|word: Seq<char>| escaped(word));
            assert(parts =~= seq![escaped(first)] + other_parts);
            joined_prepend(escaped(first), other_parts, " "@);
            let rest = command_line(others);
            assert(" "@ =~= seq![' ']);
            assert(command_line(words) =~= escaped(first) + (seq![' '] + rest));
            escaped_word_is_read(first, seq![' '] + rest);
            first_of_sum(' ', rest);
            assert forall|i: int| 0 <= i < others.len() implies (#[trigger] others[i]).len() > 0 by {
                assert(others[i] == words[i + 1]);
            }
            command_line_is_read_back(others);
            assert(words =~= seq![first] + others);
        }
    }
}

} // verus!
