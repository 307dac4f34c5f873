//! Small operations on text that the rest of the library shares.

use vstd::prelude::*;
use vstd::std_specs::iter::IteratorSpec;
use vstd::string::*;

verus! {

/// Tells whether `text` begins with `prefix`.
pub fn has_prefix(text: &str, prefix: &str) -> (found: bool)
    ensures
        found == prefix@.is_prefix_of(text@),
{
    let text_len = text.unicode_len();
    let prefix_len = prefix.unicode_len();
    if prefix_len > text_len {
        return false;
    }
    let head = String::from_str(text.substring_char(0, prefix_len));
    let wanted = String::from_str(prefix);
    proof {
        if prefix@.is_prefix_of(text@) {
            assert(text@.subrange(0, prefix_len as int) =~= prefix@);
        }
    }
    head == wanted
}

/// Drops the first `count` characters of `text`.
pub fn without_head(text: &str, count: usize) -> (rest: String)
    requires
        count <= text@.len(),
    ensures
        rest@ == text@.skip(count as int),
{
    let text_len = text.unicode_len();
    String::from_str(text.substring_char(count, text_len))
}

/// The text by which the standard library reports why `bytes` are not
/// UTF-8.
pub uninterp spec fn utf8_error_text(bytes: Seq<u8>) -> Seq<char>;

/// `std::str::from_utf8`: the text that `bytes` encode in UTF-8, or, where
/// they encode none, the standard library's description of the fault.
#[verifier::external_body]
pub(crate) fn utf8_text(bytes: &[u8]) -> (text: Result<String, String>)
    ensures
        match text {
            Ok(decoded) => vstd::utf8::valid_utf8(bytes@) && decoded@ == vstd::utf8::decode_utf8(
                bytes@,
            ),
            Err(fault) => !vstd::utf8::valid_utf8(bytes@) && fault@ == utf8_error_text(bytes@),
        },
{
    std::str::from_utf8(bytes).map(|s| s.to_owned()).map_err(|e| e.to_string())
}

/// The character of a decimal digit.
pub open spec fn digit_char(digit: nat) -> char {
    if digit == 0 {
        '0'
    } else if digit == 1 {
        '1'
    } else if digit == 2 {
        '2'
    } else if digit == 3 {
        '3'
    } else if digit == 4 {
        '4'
    } else if digit == 5 {
        '5'
    } else if digit == 6 {
        '6'
    } else if digit == 7 {
        '7'
    } else if digit == 8 {
        '8'
    } else {
        '9'
    }
}

/// A number in decimal, without sign or leading zeros.
pub open spec fn decimal_spec(n: nat) -> Seq<char>
    decreases n,
{
    if n < 10 {
        seq![digit_char(n)]
    } else {
        decimal_spec(n / 10).push(digit_char(n % 10))
    }
}

/// The text of one decimal digit.
fn digit_text(digit: u32) -> (text: &'static str)
    requires
        digit < 10,
    ensures
        text@ == seq![digit_char(digit as nat)],
{
    proof {
        reveal_strlit("0");
        reveal_strlit("1");
        reveal_strlit("2");
        reveal_strlit("3");
        reveal_strlit("4");
        reveal_strlit("5");
        reveal_strlit("6");
        reveal_strlit("7");
        reveal_strlit("8");
        reveal_strlit("9");
    }
    let text = if digit == 0 {
        "0"
    } else if digit == 1 {
        "1"
    } else if digit == 2 {
        "2"
    } else if digit == 3 {
        "3"
    } else if digit == 4 {
        "4"
    } else if digit == 5 {
        "5"
    } else if digit == 6 {
        "6"
    } else if digit == 7 {
        "7"
    } else if digit == 8 {
        "8"
    } else {
        "9"
    };
    assert(text@ =~= seq![digit_char(digit as nat)]);
    text
}

/// Writes a number in decimal.
pub fn decimal(n: u32) -> (text: String)
    ensures
        text@ == decimal_spec(n as nat),
    decreases n,
{
    if n < 10 {
        String::from_str(digit_text(n))
    } else {
        let head = decimal(n / 10);
        let last = digit_text(n % 10);
        assert(head@ + last@ =~= decimal_spec((n / 10) as nat).push(digit_char((n % 10) as nat)));
        head.concat(last)
    }
}

/// `text` with every occurrence of the character `marker` replaced by
/// `with`.
pub open spec fn substituted(text: Seq<char>, marker: char, with: Seq<char>) -> Seq<char>
    decreases text.len(),
{
    if text.len() == 0 {
        Seq::empty()
    } else {
        (if text[0] == marker {
            with
        } else {
            seq![text[0]]
        }) + substituted(text.skip(1), marker, with)
    }
}

/// Replaces every occurrence of the character `marker` in `text` by `with`.
pub fn substitute(text: &str, marker: char, with: &str) -> (filled: String)
    ensures
        filled@ == substituted(text@, marker, with@),
{
    let length = text.unicode_len();
    let mut filled = String::new();
    let mut chars = text.chars();
    let mut start: usize = 0;
    let mut at: usize = 0;
    proof {
        axiom_spec_iter(text);
        assert(text@.skip(0) =~= text@);
        assert(filled@ + text@.subrange(0, 0) + substituted(text@, marker, with@) =~= substituted(
            text@,
            marker,
            with@,
        ));
    }
    while at < length
        invariant
            start <= at <= length,
            length == text@.len(),
            chars.remaining() == text@.skip(at as int),
            substituted(text@, marker, with@) == filled@ + text@.subrange(start as int, at as int)
                + substituted(text@.skip(at as int), marker, with@),
        decreases length - at,
    {
        let ghost rest = text@.skip(at as int);
        let ghost before = chars;
        let next = chars.next();
        proof {
            next_postcondition(&before, &chars, next);
            assert(rest.skip(1) =~= text@.skip(at + 1));
            assert(rest.drop_first() =~= text@.skip(at + 1));
            assert(rest[0] == text@[at as int]);
        }
        match next {
            Some(c) => {
                if c == marker {
                    filled.append(text.substring_char(start, at));
                    filled.append(with);
                    start = at + 1;
                    proof {
                        assert(text@.subrange(start as int, start as int) =~= Seq::<char>::empty());
                    }
                } else {
                    proof {
                        assert(text@.subrange(start as int, at as int) + seq![c] =~= text@.subrange(
                            start as int,
                            at + 1,
                        ));
                    }
                }
            },
            None => {},
        }
        at += 1;
    }
    proof {
        assert(text@.skip(length as int) =~= Seq::<char>::empty());
    }
    filled.append(text.substring_char(start, length));
    filled
}

} // verus!
