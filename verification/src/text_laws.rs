//! What holds of the text building blocks and of paths, whatever text they are given.

use vstd::prelude::*;
use vstd::utf8::*;

use crate::native;
use crate::text;

verus! {

/// The number that a row of decimal digits stands for.
pub open spec fn number_read(digits: Seq<char>) -> int
    decreases digits.len(),
{
    if digits.len() == 0 {
        0
    } else {
        10 * number_read(digits.drop_last()) + (digits.last() as int - '0' as int)
    }
}

/// A number in decimal notation reads as that number. It is made of digits, and does not begin with
/// a zero unless it is zero.
pub proof fn decimals_read_back(n: nat)
    ensures
        number_read(text::decimal_text(n)) == n,
        text::decimal_text(n).len() > 0,
        forall|i: int|
            0 <= i < text::decimal_text(n).len() ==> '0' <= #[trigger] text::decimal_text(n)[i] <= '9',
        n > 0 ==> text::decimal_text(n)[0] != '0',
        n == 0 ==> text::decimal_text(n) == seq!['0'],
    decreases n,
{
    let digits = text::decimal_text(n);
    if n < 10 {
        assert(digits.drop_last() =~= seq![]);
        assert(number_read(seq![]) == 0);
    } else {
        decimals_read_back(n / 10);
        assert(digits.drop_last() =~= text::decimal_text(n / 10));
        assert forall|i: int| 0 <= i < digits.len() implies '0' <= #[trigger] digits[i] <= '9' by {
            if i < digits.len() - 1 {
                assert(digits[i] == text::decimal_text(n / 10)[i]);
            }
        }
        assert(digits[0] == text::decimal_text(n / 10)[0]);
    }
}

/// A signed number has a minus sign in front if and only if it is negative; what follows is its size
/// in decimal notation.
pub proof fn signs_stand_in_front(n: int)
    ensures
        n < 0 ==> text::signed_text(n)[0] == '-' && number_read(text::signed_text(n).drop_first())
            == -n,
        n >= 0 ==> text::signed_text(n)[0] != '-' && number_read(text::signed_text(n)) == n,
{
    if n < 0 {
        decimals_read_back((-n) as nat);
        assert(text::signed_text(n).drop_first() =~= text::decimal_text((-n) as nat));
    } else {
        decimals_read_back(n as nat);
    }
}

/// A text is found wherever it stands, with something before it and something behind it, which may
/// be nothing.
pub proof fn search_finds_what_is_there(before: Seq<char>, needle: Seq<char>, behind: Seq<char>)
    ensures
        text::contains_text(before + needle + behind, needle),
{
    let hay = before + needle + behind;
    assert(hay.subrange(before.len() as int, (before.len() + needle.len()) as int) =~= needle);
    assert(text::occurs_at(hay, needle, before.len() as int));
}

/// Where a text is said to hold another, it does.
pub proof fn search_finds_nothing_else(hay: Seq<char>, needle: Seq<char>)
    requires
        text::contains_text(hay, needle),
    ensures
        exists|before: Seq<char>, behind: Seq<char>| hay == #[trigger] (before + needle + behind),
{
    let i = choose|i: int| text::occurs_at(hay, needle, i);
    let before = hay.take(i);
    let behind = hay.skip(i + needle.len());
    assert(hay =~= before + needle + behind);
}

/// Texts are ordered by the first character in which they differ; a text stands before every longer
/// one that it begins.
pub proof fn order_goes_by_first_difference(
    common: Seq<char>,
    a: char,
    b: char,
    rest_a: Seq<char>,
    rest_b: Seq<char>,
)
    ensures
        a < b ==> text::text_less(common.push(a) + rest_a, common.push(b) + rest_b),
        a > b ==> !text::text_less(common.push(a) + rest_a, common.push(b) + rest_b),
        text::text_less(common, common.push(b) + rest_b),
        !text::text_less(common.push(b) + rest_b, common),
{
    let x = common.push(a) + rest_a;
    let y = common.push(b) + rest_b;
    let at = common.len() as int;
    assert(x[at] == a && y[at] == b);
    assert forall|j: int| 0 <= j < at implies #[trigger] x[j] == y[j] by {}
    assert forall|j: int| 0 <= j < at implies #[trigger] common[j] == y[j] by {}
    if a < b {
        assert(text::parts_at(x, y, at));
    }
    if a > b {
        assert(text::parts_at(y, x, at)) by {
            assert forall|j: int| 0 <= j < at implies #[trigger] y[j] == x[j] by {}
        }
        if text::text_less(x, y) {
            text::text_less_transitive(x, y, x);
            text::text_less_irreflexive(x);
        }
    }
    assert(text::parts_at(common, y, at));
    if text::text_less(y, common) {
        text::text_less_transitive(common, y, common);
        text::text_less_irreflexive(common);
    }
}

/// Texts that are joined stand in their order, with the separator between each two of them and
/// nowhere else.
pub proof fn separators_stand_between(parts: Seq<Seq<char>>, next: Seq<char>, separator: Seq<char>)
    ensures
        text::joined(seq![], separator) == Seq::<char>::empty(),
        text::joined(seq![next], separator) == next,
        parts.len() > 0 ==> text::joined(parts.push(next), separator) == text::joined(parts, separator)
            + separator + next,
{
    if parts.len() > 0 {
        assert(parts.push(next).drop_last() =~= parts);
    }
}

/// A text in a column begins the column and has blanks behind it up to the width of the column; a
/// text that is as wide or wider stands as it is.
pub proof fn columns_are_filled_with_blanks(s: Seq<char>, width: nat)
    ensures
        s.len() >= width ==> text::padded(s, width) == s,
        s.len() < width ==> {
            let line = text::padded(s, width);
            &&& line.len() == width
            &&& line.take(s.len() as int) == s
            &&& forall|i: int| s.len() <= i < width ==> #[trigger] line[i] == ' '
        },
{
    if s.len() < width {
        assert(text::padded(s, width).take(s.len() as int) =~= s);
    }
}

/// Lower case changes the 26 letters of ASCII and nothing else: `A` to `a`, and so on to `Z`.
pub proof fn lower_case_changes_letters_only(s: Seq<char>)
    ensures
        text::ascii_lower_text(s).len() == s.len(),
        forall|i: int|
            0 <= i < s.len() ==> {
                let lower = #[trigger] text::ascii_lower_text(s)[i];
                &&& 'A' <= s[i] <= 'Z' ==> lower as int - 'a' as int == s[i] as int - 'A' as int
                &&& !('A' <= s[i] <= 'Z') ==> lower == s[i]
            },
{
    assert forall|i: int| 0 <= i < s.len() && 'A' <= s[i] <= 'Z' implies (
    #[trigger] text::ascii_lower_text(s)[i]) as int - 'a' as int == s[i] as int - 'A' as int by {
        assert(text::ascii_lower_text(s)[i] == (s[i] as u32 + 32) as char);
    }
}

/// A path below a directory is the directory, one slash and the name. A directory that ends in a
/// slash gets no other one, an empty one none, and an absolute name stands for itself.
pub proof fn paths_have_one_slash(dir: Seq<u8>, name: Seq<u8>)
    ensures
        ({
            let absolute = name.len() > 0 && name[0] == 0x2f;
            let closed = dir.len() == 0 || dir.last() == 0x2f;
            &&& !absolute && !closed ==> native::path_below(dir, name) == dir + seq![0x2fu8] + name
            &&& !absolute && closed ==> native::path_below(dir, name) == dir + name
            &&& absolute ==> native::path_below(dir, name) == name
        }),
{
    if !(name.len() > 0 && name[0] == 0x2f) && dir.len() > 0 && dir.last() != 0x2f {
        assert(native::path_below(dir, name) =~= dir + seq![0x2fu8] + name);
    }
}

/// A path is an entry of a directory if and only if it is the directory, a slash and one name, which
/// holds no slash. A directory that ends in a slash, or is empty, needs no other.
pub proof fn entries_stand_right_below(dir: Seq<u8>, path: Seq<u8>, name: Seq<u8>)
    ensures
        native::is_entry(dir, path, name) <==> {
            &&& name.len() > 0
            &&& forall|i: int| 0 <= i < name.len() ==> #[trigger] name[i] != 0x2f
            &&& dir.len() > 0 && dir.last() != 0x2f ==> path == dir + seq![0x2fu8] + name
            &&& dir.len() == 0 || dir.last() == 0x2f ==> path == dir + name
        },
{
    if name.len() > 0 {
        paths_have_one_slash(dir, name);
        if name[0] == 0x2f {
            assert(name.contains(name[0]));
        }
        if native::is_entry(dir, path, name) {
            assert forall|i: int| 0 <= i < name.len() implies #[trigger] name[i] != 0x2f by {
                assert(name.contains(name[i]));
            }
        }
    }
}

/// Bytes that are UTF-8 are shown as the text that they encode.
pub proof fn valid_bytes_are_shown_as_text(bytes: Seq<u8>)
    requires
        valid_utf8(bytes),
    ensures
        encode_utf8(native::shown_text(bytes)) == bytes,
{
    decode_utf8_encode_utf8(bytes);
}

/// A result is taken for what it is: a value for its value, a message for its message.
pub proof fn results_are_taken_for_what_they_are(good: Result<String, String>)
    ensures
        good matches Ok(value) ==> text::outcome_view(good) == Ok::<Seq<char>, Seq<char>>(value@),
        good matches Err(message) ==> text::outcome_view(good) == Err::<Seq<char>, Seq<char>>(
            message@,
        ),
{
}

} // verus!
