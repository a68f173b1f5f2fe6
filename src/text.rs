//! Building text character by character.

use vstd::prelude::*;

verus! {

/// Relies on `String::push`.
#[verifier::external_body]
pub(crate) fn push_char(s: &mut String, c: char)
    ensures
        final(s)@ == old(s)@.push(c),
{
    s.push(c);
}

/// The ASCII digit of a value below 10.
pub open spec fn digit_char(d: nat) -> char {
    (48 + d) as char
}

/// The decimal text of a number, without leading zeros.
pub open spec fn decimal_text(n: nat) -> Seq<char>
    decreases n,
{
    if n < 10 {
        seq![digit_char(n)]
    } else {
        decimal_text(n / 10).push(digit_char(n % 10))
    }
}

/// Writes a number in decimal.
pub fn decimal_string(n: u32) -> (r: String)
    ensures
        r@ == decimal_text(n as nat),
    decreases n,
{
    let d = (n % 10) as u8;
    let c = (48u8 + d) as char;
    if n < 10 {
        let mut s = String::new();
        push_char(&mut s, c);
        assert(s@ =~= seq![digit_char(n as nat)]);
        s
    } else {
        let mut s = decimal_string(n / 10);
        push_char(&mut s, c);
        s
    }
}

/// A character with the Unicode `White_Space` property, as
/// `char::is_whitespace` reads it.
pub open spec fn white_space(c: char) -> bool {
    ||| '\u{9}' <= c <= '\u{d}'
    ||| c == ' '
    ||| c == '\u{85}'
    ||| c == '\u{a0}'
    ||| c == '\u{1680}'
    ||| '\u{2000}' <= c <= '\u{200a}'
    ||| c == '\u{2028}'
    ||| c == '\u{2029}'
    ||| c == '\u{202f}'
    ||| c == '\u{205f}'
    ||| c == '\u{3000}'
}

/// Whether a character is white space.
pub fn is_white_space(c: char) -> (r: bool)
    ensures
        r == white_space(c),
{
    ('\u{9}' <= c && c <= '\u{d}') || c == ' ' || c == '\u{85}' || c == '\u{a0}' || c
        == '\u{1680}' || ('\u{2000}' <= c && c <= '\u{200a}') || c == '\u{2028}' || c
        == '\u{2029}' || c == '\u{202f}' || c == '\u{205f}' || c == '\u{3000}'
}

/// The text without its leading white space.
pub open spec fn trim_start(s: Seq<char>) -> Seq<char>
    decreases s.len(),
{
    if s.len() > 0 && white_space(s[0]) {
        trim_start(s.drop_first())
    } else {
        s
    }
}

/// The text without its trailing white space.
pub open spec fn trim_end(s: Seq<char>) -> Seq<char>
    decreases s.len(),
{
    if s.len() > 0 && white_space(s.last()) {
        trim_end(s.drop_last())
    } else {
        s
    }
}

/// The text without leading and trailing white space, as `str::trim` gives it.
pub open spec fn trimmed(s: Seq<char>) -> Seq<char> {
    trim_end(trim_start(s))
}

/// Removes leading and trailing white space.
pub fn trim_text(text: &str) -> (r: String)
    ensures
        r@ == trimmed(text@),
{
    let len = text.unicode_len();
    let mut i: usize = 0;
    assert(text@.subrange(0, len as int) =~= text@);
    while i < len && is_white_space(text.get_char(i))
        invariant
            0 <= i <= len,
            len == text@.len(),
            trim_start(text@) == trim_start(text@.subrange(i as int, len as int)),
        decreases len - i,
    {
        proof {
            let sub = text@.subrange(i as int, len as int);
            assert(sub[0] == text@[i as int]);
            assert(sub.drop_first() =~= text@.subrange(i + 1, len as int));
        }
        i = i + 1;
    }
    proof {
        let sub = text@.subrange(i as int, len as int);
        if i < len {
            assert(sub[0] == text@[i as int]);
        }
        assert(trim_start(text@) == sub);
    }
    let mut j: usize = len;
    while j > i && is_white_space(text.get_char(j - 1))
        invariant
            i <= j <= len,
            len == text@.len(),
            trim_start(text@) == text@.subrange(i as int, len as int),
            trimmed(text@) == trim_end(text@.subrange(i as int, j as int)),
        decreases j,
    {
        proof {
            let sub = text@.subrange(i as int, j as int);
            assert(sub.last() == text@[j - 1]);
            assert(sub.drop_last() =~= text@.subrange(i as int, j - 1));
        }
        j = j - 1;
    }
    proof {
        let sub = text@.subrange(i as int, j as int);
        if j > i {
            assert(sub.last() == text@[j - 1]);
        }
        assert(trimmed(text@) == sub);
    }
    let part = text.substring_char(i, j);
    String::from_str(part)
}

} // verus!
