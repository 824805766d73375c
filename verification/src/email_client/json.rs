//! How a text is written as a JSON string.

use crate::text::digit_char;
use vstd::prelude::*;

verus! {

/// The lower-case hexadecimal digit for `d`.
pub open spec fn hex_digit(d: nat) -> char
    recommends
        d < 16,
{
    if d < 10 {
        digit_char(d)
    } else if d == 10 {
        'a'
    } else if d == 11 {
        'b'
    } else if d == 12 {
        'c'
    } else if d == 13 {
        'd'
    } else if d == 14 {
        'e'
    } else {
        'f'
    }
}

/// What stands for `c` inside a JSON string: a backslash and one letter for
/// the quote, the backslash and the five control characters that have a short
/// form, `\u00` and two hexadecimal digits for every other character below
/// the space, and the character itself otherwise.
pub open spec fn json_escape(c: char) -> Seq<char> {
    if c == '"' {
        seq!['\\', '"']
    } else if c == '\\' {
        seq!['\\', '\\']
    } else if c == '\u{8}' {
        seq!['\\', 'b']
    } else if c == '\t' {
        seq!['\\', 't']
    } else if c == '\n' {
        seq!['\\', 'n']
    } else if c == '\u{c}' {
        seq!['\\', 'f']
    } else if c == '\r' {
        seq!['\\', 'r']
    } else if ' ' > c {
        seq!['\\', 'u', '0', '0', hex_digit(c as nat / 16), hex_digit(c as nat % 16)]
    } else {
        seq![c]
    }
}

/// The characters of `text`, each as it stands inside a JSON string.
pub open spec fn json_escape_all(text: Seq<char>) -> Seq<char>
    decreases text.len(),
{
    if text.len() == 0 {
        Seq::empty()
    } else {
        json_escape(text[0]) + json_escape_all(text.drop_first())
    }
}

/// `text` as a JSON string: its escaped characters between two quotes.
pub open spec fn json_quote(text: Seq<char>) -> Seq<char> {
    seq!['"'] + json_escape_all(text) + seq!['"']
}

/// Trusted: `serde_json::to_string` on a string slice writes a quote, the
/// characters of the slice with the escapes that [`json_escape`] lists, and a
/// quote. It cannot fail on a string.
#[verifier::external_body]
pub(crate) fn quote(text: &str) -> (out: String)
    ensures
        out@ == json_quote(text@),
{
    serde_json::to_string(text).expect("a string always serializes")
}

/// Whether `c` is written with a backslash inside a JSON string.
pub open spec fn is_escaped(c: char) -> bool {
    c == '"' || c == '\\' || ' ' > c
}

/// Equal texts with an equal beginning have an equal rest.
pub proof fn lemma_same_start_same_rest(start: Seq<char>, x: Seq<char>, y: Seq<char>)
    requires
        start + x == start + y,
    ensures
        x == y,
{
    let left = start + x;
    let right = start + y;
    assert(x.len() == y.len()) by {
        assert(left.len() == start.len() + x.len());
        assert(right.len() == start.len() + y.len());
    }
    assert forall|i: int| 0 <= i < x.len() implies x[i] == y[i] by {
        assert(left[start.len() + i] == x[i]);
        assert(right[start.len() + i] == y[i]);
    }
    assert(x =~= y);
}

/// The two hexadecimal digits of a character below the space tell which
/// character it is.
proof fn lemma_hex_digits_tell(a: char, b: char)
    requires
        ' ' > a,
        ' ' > b,
        hex_digit(a as nat / 16) == hex_digit(b as nat / 16),
        hex_digit(a as nat % 16) == hex_digit(b as nat % 16),
    ensures
        a == b,
{
    let high_a = a as nat / 16;
    let high_b = b as nat / 16;
    let low_a = a as nat % 16;
    let low_b = b as nat % 16;
    assert(high_a < 2 && high_b < 2);
    assert(low_a < 16 && low_b < 16);
    assert(high_a == high_b);
    assert(low_a == low_b);
    assert(a as nat == 16 * high_a + low_a);
    assert(b as nat == 16 * high_b + low_b);
}

/// Inside a JSON string, what stands for a character tells which character
/// it is and where the next one starts: if two texts are equal and each
/// begins with what stands for a character, the two characters are the same
/// and so is what follows them.
pub proof fn lemma_escape_tells_char(a: char, b: char, x: Seq<char>, y: Seq<char>)
    requires
        json_escape(a) + x == json_escape(b) + y,
    ensures
        a == b,
        x == y,
{
    let left = json_escape(a) + x;
    let right = json_escape(b) + y;
    assert(left[0] == json_escape(a)[0]);
    assert(right[0] == json_escape(b)[0]);
    assert(is_escaped(a) == is_escaped(b));
    if is_escaped(a) {
        assert(left[1] == json_escape(a)[1]);
        assert(right[1] == json_escape(b)[1]);
        if json_escape(a)[1] == 'u' {
            assert(json_escape(a).len() == 6 && json_escape(b).len() == 6);
            assert(left[4] == json_escape(a)[4]);
            assert(right[4] == json_escape(b)[4]);
            assert(left[5] == json_escape(a)[5]);
            assert(right[5] == json_escape(b)[5]);
            lemma_hex_digits_tell(a, b);
        }
    }
    assert(a == b);
    lemma_same_start_same_rest(json_escape(a), x, y);
}

/// Inside a JSON string, the text up to the closing quote tells which text
/// was written: if two texts are equal and each begins with an escaped text
/// and a quote, the two escaped texts stand for the same text and what
/// follows the quote is the same.
pub proof fn lemma_escaped_text_tells_text(
    a: Seq<char>,
    b: Seq<char>,
    x: Seq<char>,
    y: Seq<char>,
)
    requires
        json_escape_all(a) + seq!['"'] + x == json_escape_all(b) + seq!['"'] + y,
    ensures
        a == b,
        x == y,
    decreases a.len(),
{
    let left = json_escape_all(a) + seq!['"'] + x;
    let right = json_escape_all(b) + seq!['"'] + y;
    if a.len() == 0 && b.len() == 0 {
        assert(a =~= b);
        assert(left =~= seq!['"'] + x);
        assert(right =~= seq!['"'] + y);
        lemma_same_start_same_rest(seq!['"'], x, y);
    } else if a.len() == 0 {
        assert(left[0] == '"');
        assert(right[0] == json_escape(b[0])[0]);
        assert(false);
    } else if b.len() == 0 {
        assert(right[0] == '"');
        assert(left[0] == json_escape(a[0])[0]);
        assert(false);
    } else {
        let rest_a = json_escape_all(a.drop_first()) + seq!['"'] + x;
        let rest_b = json_escape_all(b.drop_first()) + seq!['"'] + y;
        assert(left =~= json_escape(a[0]) + rest_a);
        assert(right =~= json_escape(b[0]) + rest_b);
        lemma_escape_tells_char(a[0], b[0], rest_a, rest_b);
        lemma_escaped_text_tells_text(a.drop_first(), b.drop_first(), x, y);
        assert(a =~= seq![a[0]] + a.drop_first());
        assert(b =~= seq![b[0]] + b.drop_first());
    }
}

/// A JSON string tells which text was written and where the string ends: if
/// two texts are equal and each begins with a JSON string, the two strings
/// stand for the same text and what follows them is the same.
pub proof fn lemma_quote_tells_text(a: Seq<char>, b: Seq<char>, x: Seq<char>, y: Seq<char>)
    requires
        json_quote(a) + x == json_quote(b) + y,
    ensures
        a == b,
        x == y,
{
    let rest_a = json_escape_all(a) + seq!['"'] + x;
    let rest_b = json_escape_all(b) + seq!['"'] + y;
    assert(json_quote(a) + x =~= seq!['"'] + rest_a);
    assert(json_quote(b) + y =~= seq!['"'] + rest_b);
    lemma_same_start_same_rest(seq!['"'], rest_a, rest_b);
    lemma_escaped_text_tells_text(a, b, x, y);
}

} // verus!
