//! Text building blocks: characters of strings, decimal numbers, search, order, joining and
//! padding.

use vstd::prelude::*;

verus! {

/// `String::push` appends the given character.
pub assume_specification[ String::push ](s: &mut String, ch: char)
    ensures
        final(s)@ == old(s)@.push(ch),
;

/// `String::pop` takes the last character off and hands it out, or leaves an empty string
/// alone and returns `None`.
pub assume_specification[ String::pop ](s: &mut String) -> (last: Option<char>)
    ensures
        old(s)@.len() == 0 ==> last is None && final(s)@ == old(s)@,
        old(s)@.len() > 0 ==> last == Some(old(s)@.last()) && final(s)@ == old(s)@.drop_last(),
;

/// The characters of a string.
pub fn chars_of(s: &str) -> (chars: Vec<char>)
    ensures
        chars@ == s@,
{
    let mut chars: Vec<char> = Vec::new();
    for ch in iter: s.chars()
        invariant
            chars@ == s@.take(iter.index()),
            iter.seq() == s@,
    {
        chars.push(ch);
        assert(s@.take(iter.index() + 1) =~= s@.take(iter.index()).push(ch));
    }
    assert(s@.take(s@.len() as int) =~= s@);
    chars
}

/// Whether two strings hold the same characters.
pub fn same_text(a: &str, b: &str) -> (same: bool)
    ensures
        same == (a@ == b@),
{
    a.to_owned() == b.to_owned()
}

/// The decimal digit of a number below ten.
pub open spec fn digit(d: nat) -> char {
    if d == 0 {
        '0'
    } else if d == 1 {
        '1'
    } else if d == 2 {
        '2'
    } else if d == 3 {
        '3'
    } else if d == 4 {
        '4'
    } else if d == 5 {
        '5'
    } else if d == 6 {
        '6'
    } else if d == 7 {
        '7'
    } else if d == 8 {
        '8'
    } else {
        '9'
    }
}

/// A number in decimal notation, without leading zeros.
pub open spec fn decimal_text(n: nat) -> Seq<char>
    decreases n,
{
    if n < 10 {
        seq![digit(n)]
    } else {
        decimal_text(n / 10).push(digit(n % 10))
    }
}

/// A signed number in decimal notation.
pub open spec fn signed_text(n: int) -> Seq<char> {
    if n < 0 {
        seq!['-'] + decimal_text((-n) as nat)
    } else {
        decimal_text(n as nat)
    }
}

fn digit_of(d: u64) -> (ch: char)
    requires
        d < 10,
    ensures
        ch == digit(d as nat),
{
    match d {
        0 => '0',
        1 => '1',
        2 => '2',
        3 => '3',
        4 => '4',
        5 => '5',
        6 => '6',
        7 => '7',
        8 => '8',
        _ => '9',
    }
}

/// Writes a number in decimal notation.
pub fn decimal(n: u64) -> (s: String)
    ensures
        s@ == decimal_text(n as nat),
    decreases n,
{
    if n < 10 {
        let mut s = String::new();
        s.push(digit_of(n));
        assert(s@ =~= seq![digit(n as nat)]);
        s
    } else {
        let mut s = decimal(n / 10);
        s.push(digit_of(n % 10));
        s
    }
}

/// Writes a signed number in decimal notation.
pub fn signed_decimal(n: i32) -> (s: String)
    ensures
        s@ == signed_text(n as int),
{
    if n < 0 {
        let magnitude: i64 = -(n as i64);
        let mut s = String::new();
        s.push('-');
        assert(s@ =~= seq!['-']);
        s.concat(&decimal(magnitude as u64))
    } else {
        decimal(n as u64)
    }
}

/// Whether `needle` stands in `hay` as one piece.
pub open spec fn contains_text(hay: Seq<char>, needle: Seq<char>) -> bool {
    exists|i: int| occurs_at(hay, needle, i)
}

/// Whether `needle` stands in `hay` from position `i` on.
pub open spec fn occurs_at(hay: Seq<char>, needle: Seq<char>, i: int) -> bool {
    &&& 0 <= i
    &&& i + needle.len() <= hay.len()
    &&& hay.subrange(i, i + needle.len()) == needle
}

/// Whether `needle` stands in `hay`.
pub fn text_contains(hay: &str, needle: &str) -> (found: bool)
    ensures
        found == contains_text(hay@, needle@),
{
    let hay_chars = chars_of(hay);
    let needle_chars = chars_of(needle);
    if needle_chars.len() > hay_chars.len() {
        return false;
    }
    let last: usize = hay_chars.len() - needle_chars.len();
    let mut i: usize = 0;
    while i <= last
        invariant
            hay_chars@ == hay@,
            needle_chars@ == needle@,
            last + needle_chars.len() == hay_chars.len(),
            i <= last + 1,
            forall|k: int| 0 <= k < i ==> !#[trigger] occurs_at(hay@, needle@, k),
        decreases last + 1 - i,
    {
        let mut j: usize = 0;
        while j < needle_chars.len() && hay_chars[i + j] == needle_chars[j]
            invariant
                i <= last,
                last + needle_chars.len() == hay_chars.len(),
                j <= needle_chars@.len(),
                forall|k: int| 0 <= k < j ==> #[trigger] needle_chars@[k] == hay_chars@[i + k],
            decreases needle_chars@.len() - j,
        {
            j += 1;
        }
        if j == needle_chars.len() {
            assert(hay@.subrange(i as int, i + needle@.len()) =~= needle@);
            assert(occurs_at(hay@, needle@, i as int));
            return true;
        }
        assert(!occurs_at(hay@, needle@, i as int)) by {
            assert(hay@.subrange(i as int, i + needle@.len())[j as int] != needle@[j as int]);
        }
        if i == last {
            return false;
        }
        i += 1;
    }
    false
}

/// Whether two texts agree up to position `k`, where `a` ends or holds the smaller character.
pub open spec fn parts_at(a: Seq<char>, b: Seq<char>, k: int) -> bool {
    &&& 0 <= k < b.len()
    &&& k <= a.len()
    &&& forall|j: int| 0 <= j < k ==> #[trigger] a[j] == b[j]
    &&& k == a.len() || a[k] < b[k]
}

/// The order of texts: character by character, a prefix before what it begins.
pub open spec fn text_less(a: Seq<char>, b: Seq<char>) -> bool {
    exists|k: int| parts_at(a, b, k)
}

/// Whether `a` stands before `b` in the order of texts.
pub fn text_before(a: &str, b: &str) -> (before: bool)
    ensures
        before == text_less(a@, b@),
{
    let left = chars_of(a);
    let right = chars_of(b);
    let mut i: usize = 0;
    while i < left.len() && i < right.len() && left[i] == right[i]
        invariant
            left@ == a@,
            right@ == b@,
            i <= left@.len(),
            i <= right@.len(),
            forall|j: int| 0 <= j < i ==> #[trigger] left@[j] == right@[j],
        decreases left@.len() - i,
    {
        i += 1;
    }
    let before = i < right.len() && (i == left.len() || left[i] < right[i]);
    proof {
        if before {
            assert(parts_at(a@, b@, i as int));
        } else if text_less(a@, b@) {
            let k = choose|k: int| parts_at(a@, b@, k);
            if k < i {
                assert(a@[k] == b@[k]);
            } else if i < k {
                assert(a@[i as int] == b@[i as int]);
            }
        }
    }
    before
}

/// No text stands before itself.
pub proof fn text_less_irreflexive(a: Seq<char>)
    ensures
        !text_less(a, a),
{
}

/// The order of texts is transitive.
pub proof fn text_less_transitive(a: Seq<char>, b: Seq<char>, c: Seq<char>)
    requires
        text_less(a, b),
        text_less(b, c),
    ensures
        text_less(a, c),
{
    let k = choose|k: int| parts_at(a, b, k);
    let m = choose|m: int| parts_at(b, c, m);
    let n = if k < m {
        k
    } else {
        m
    };
    assert forall|j: int| 0 <= j < n implies #[trigger] a[j] == c[j] by {
        assert(a[j] == b[j]);
        assert(b[j] == c[j]);
    }
    if k < m {
        assert(b[k] == c[k]);
    } else if m < k {
        assert(a[m] == b[m]);
    }
    assert(parts_at(a, c, n));
}

/// Of two different texts one stands before the other.
pub proof fn text_less_total(a: Seq<char>, b: Seq<char>)
    ensures
        a == b || text_less(a, b) || text_less(b, a),
    decreases a.len(),
{
    if a.len() == 0 {
        if b.len() > 0 {
            assert(parts_at(a, b, 0));
        } else {
            assert(a =~= b);
        }
    } else if b.len() == 0 {
        assert(parts_at(b, a, 0));
    } else if a[0] != b[0] {
        if a[0] < b[0] {
            assert(parts_at(a, b, 0));
        } else {
            assert(parts_at(b, a, 0));
        }
    } else {
        let x = a.drop_first();
        let y = b.drop_first();
        text_less_total(x, y);
        if x == y {
            assert(a =~= seq![a[0]] + x);
            assert(b =~= seq![b[0]] + y);
        } else if text_less(x, y) {
            shift_parts(a, b);
        } else {
            shift_parts(b, a);
        }
    }
}

proof fn shift_parts(a: Seq<char>, b: Seq<char>)
    requires
        a.len() > 0,
        b.len() > 0,
        a[0] == b[0],
        text_less(a.drop_first(), b.drop_first()),
    ensures
        text_less(a, b),
{
    let x = a.drop_first();
    let y = b.drop_first();
    let k = choose|k: int| parts_at(x, y, k);
    assert forall|j: int| 0 <= j < k + 1 implies #[trigger] a[j] == b[j] by {
        if j > 0 {
            assert(x[j - 1] == y[j - 1]);
        }
    }
    assert(parts_at(a, b, k + 1));
}

/// Texts written one after the other with a separator between them.
pub open spec fn joined(parts: Seq<Seq<char>>, separator: Seq<char>) -> Seq<char>
    decreases parts.len(),
{
    if parts.len() == 0 {
        seq![]
    } else if parts.len() == 1 {
        parts[0]
    } else {
        joined(parts.drop_last(), separator) + separator + parts.last()
    }
}

/// Writes texts one after the other with a separator between them.
pub fn join_texts(parts: &Vec<String>, separator: &str) -> (s: String)
    ensures
        s@ == joined(parts.deep_view(), separator@),
{
    let mut s = String::new();
    let ghost views = parts.deep_view();
    for i in 0..parts.len()
        invariant
            views == parts.deep_view(),
            s@ == joined(views.take(i as int), separator@),
    {
        let ghost before = s@;
        if i > 0 {
            s.append(separator);
        }
        s.append(&parts[i]);
        assert(views.take(i + 1).drop_last() =~= views.take(i as int));
        assert(views.take(i + 1).last() == parts@[i as int]@);
        if i == 0 {
            assert(s@ =~= parts@[0]@);
        }
    }
    assert(views.take(views.len() as int) =~= views);
    s
}

/// `count` blanks.
pub open spec fn blanks(count: nat) -> Seq<char> {
    Seq::new(count, |i: int| ' ')
}

/// A text with blanks behind it up to the given width.
pub open spec fn padded(s: Seq<char>, width: nat) -> Seq<char> {
    if s.len() < width {
        s + blanks((width - s.len()) as nat)
    } else {
        s
    }
}

/// Puts blanks behind a text up to the given width in characters.
pub fn pad_right(s: &str, width: usize) -> (line: String)
    ensures
        line@ == padded(s@, width as nat),
{
    let len: usize = s.unicode_len();
    let mut line = s.to_owned();
    let mut at: usize = len;
    assert(line@ =~= s@ + blanks(0));
    while at < width
        invariant
            len == s@.len(),
            len <= at,
            at <= width || at == len,
            line@ == s@ + blanks((at - len) as nat),
        decreases width - at,
    {
        line.push(' ');
        at += 1;
        assert(line@ =~= s@ + blanks((at - len) as nat));
    }
    assert(s@ + blanks(0) =~= s@);
    line
}

/// The lower case of an ASCII letter; every other character as it is.
pub open spec fn ascii_lower(ch: char) -> char {
    if 'A' <= ch <= 'Z' {
        (ch as u32 + 32) as char
    } else {
        ch
    }
}

/// A text with its ASCII letters in lower case.
pub open spec fn ascii_lower_text(s: Seq<char>) -> Seq<char> {
    s.map_values(|ch: char| ascii_lower(ch))
}

/// Writes a text with its ASCII letters in lower case.
pub fn to_ascii_lower(s: &str) -> (lower: String)
    ensures
        lower@ == ascii_lower_text(s@),
{
    let chars = chars_of(s);
    let mut lower = String::new();
    for i in 0..chars.len()
        invariant
            chars@ == s@,
            lower@ == ascii_lower_text(s@).take(i as int),
    {
        let ch = chars[i];
        if 'A' <= ch && ch <= 'Z' {
            lower.push((ch as u8 + 32) as char);
        } else {
            lower.push(ch);
        }
        assert(lower@ =~= ascii_lower_text(s@).take(i + 1));
    }
    assert(lower@ =~= ascii_lower_text(s@));
    lower
}

/// A result with its value and its message as plain values.
pub open spec fn outcome_view<T: View>(result: Result<T, String>) -> Result<T::V, Seq<char>> {
    match result {
        Ok(value) => Ok(value@),
        Err(message) => Err(message@),
    }
}

} // verus!
