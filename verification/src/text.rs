//! Text helpers shared by the rest of the crate: case folding of ASCII
//! letters, escaping of angle brackets and decimal numerals.

use vstd::prelude::*;
use vstd::std_specs::iter::IteratorSpec;

verus! {

/// `String::push` appends one character to the end of the string and leaves
/// the characters before it as they were.
pub assume_specification[ String::push ](text: &mut String, c: char)
    ensures
        final(text)@ == old(text)@.push(c),
;

/// The lower-case form of an ASCII letter; any other character stands for itself.
pub open spec fn ascii_lower(c: char) -> char {
    if 'A' <= c && c <= 'Z' {
        ((c as u8) + 32) as char
    } else {
        c
    }
}

/// Each character of `text` folded by [`ascii_lower`].
pub open spec fn lowered(text: Seq<char>) -> Seq<char> {
    Seq::new(text.len(), |i: int| ascii_lower(text[i]))
}

/// What stands for one character once angle brackets are escaped.
pub open spec fn escaped_char(c: char) -> Seq<char> {
    if c == '<' {
        seq!['&', 'l', 't', ';']
    } else if c == '>' {
        seq!['&', 'g', 't', ';']
    } else {
        seq![c]
    }
}

/// `text` with every `<` replaced by `&lt;` and every `>` by `&gt;`.
pub open spec fn escaped(text: Seq<char>) -> Seq<char>
    decreases text.len(),
{
    if text.len() == 0 {
        Seq::empty()
    } else {
        escaped(text.drop_last()) + escaped_char(text.last())
    }
}

/// The character of a decimal digit.
pub open spec fn digit_char(d: nat) -> char
    recommends
        d < 10,
{
    (('0' as u8) + d) as char
}

/// The decimal numeral of `n`, without sign or leading zeros.
pub open spec fn decimal(n: nat) -> Seq<char>
    decreases n,
{
    if n < 10 {
        seq![digit_char(n)]
    } else {
        decimal(n / 10).push(digit_char(n % 10))
    }
}

/// Folds one character to lower case.
pub fn to_ascii_lower(c: char) -> (low: char)
    ensures
        low == ascii_lower(c),
{
    if 'A' <= c && c <= 'Z' {
        ((c as u8) + 32) as char
    } else {
        c
    }
}

/// Builds the lower-case form of `text`.
pub fn lower(text: &str) -> (low: String)
    ensures
        low@ == lowered(text@),
{
    let mut low = String::new();
    for c in it: text.chars()
        invariant
            it.seq() == text@,
            low@ == lowered(text@.take(it.index() as int)),
    {
        low.push(to_ascii_lower(c));
    }
    low
}

/// Tells whether `text` and `word` are the same but for the case of ASCII letters
/// in `text`. `word` is expected in lower case.
pub fn equals_ignoring_case(text: &str, word: &str) -> (same: bool)
    ensures
        same == (lowered(text@) == word@),
{
    let low = lower(text);
    let wanted = String::from_str(word);
    low == wanted
}

/// Escapes the angle brackets of `text`, so that a browser shows it as written.
pub fn escape_angle_brackets(text: &str) -> (out: String)
    ensures
        out@ == escaped(text@),
{
    let mut out = String::new();
    for c in it: text.chars()
        invariant
            it.seq() == text@,
            out@ == escaped(text@.take(it.index() as int)),
    {
        proof {
            let next = text@.take(it.index() + 1);
            assert(next.drop_last() == text@.take(it.index() as int));
            reveal_strlit("&lt;");
            reveal_strlit("&gt;");
        }
        if c == '<' {
            out.append("&lt;");
        } else if c == '>' {
            out.append("&gt;");
        } else {
            out.push(c);
        }
    }
    assert(text@.take(text@.len() as int) == text@);
    out
}

/// Appends the decimal numeral of `n` to `out`.
pub fn push_decimal(out: &mut String, n: u128)
    ensures
        final(out)@ == old(out)@ + decimal(n as nat),
    decreases n,
{
    if n >= 10 {
        push_decimal(out, n / 10);
    }
    let d: u8 = (n % 10) as u8;
    out.push((('0' as u8) + d) as char);
    proof {
        if n >= 10 {
            assert(old(out)@ + decimal(n as nat) == (old(out)@ + decimal((n / 10) as nat)).push(
                digit_char((n % 10) as nat),
            ));
        }
    }
}

} // verus!
