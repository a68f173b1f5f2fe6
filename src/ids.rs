//! Identifiers of new records: 16 random bytes in hexadecimal, grouped
//! 8-4-4-4-12 like a UUID.

use crate::random::random_bytes;
use crate::text::push_char;
use vstd::prelude::*;

verus! {

/// The lowercase hexadecimal digit of a value below 16.
pub open spec fn hex_digit(v: u8) -> char {
    if v < 10 {
        (48u8 + v) as char
    } else {
        (87u8 + v) as char
    }
}

/// The identifier of 16 bytes: two digits per byte, high nibble first, with
/// dashes after the 4th, 6th, 8th and 10th byte.
pub open spec fn id_text(bytes: Seq<u8>) -> Seq<char>
    decreases bytes.len(),
{
    if bytes.len() == 0 {
        Seq::empty()
    } else {
        let n = (bytes.len() - 1) as int;
        let prev = id_text(bytes.drop_last());
        let b = bytes.last();
        let sep = if n == 4 || n == 6 || n == 8 || n == 10 {
            seq!['-']
        } else {
            Seq::empty()
        };
        prev + sep + seq![hex_digit(b / 16), hex_digit(b % 16)]
    }
}

fn hex_char(v: u8) -> (r: char)
    requires
        v < 16,
    ensures
        r == hex_digit(v),
{
    if v < 10 {
        (48u8 + v) as char
    } else {
        (87u8 + v) as char
    }
}

/// Formats 16 bytes as an identifier.
pub fn format_id(bytes: &[u8]) -> (r: String)
    requires
        bytes@.len() == 16,
    ensures
        r@ == id_text(bytes@),
{
    let mut out = String::new();
    let mut i: usize = 0;
    while i < 16
        invariant
            0 <= i <= 16,
            bytes@.len() == 16,
            out@ == id_text(bytes@.subrange(0, i as int)),
        decreases 16 - i,
    {
        let b = bytes[i];
        let ghost prefix = bytes@.subrange(0, i as int);
        if i == 4 || i == 6 || i == 8 || i == 10 {
            push_char(&mut out, '-');
        }
        push_char(&mut out, hex_char(b / 16));
        push_char(&mut out, hex_char(b % 16));
        proof {
            let next = bytes@.subrange(0, i + 1);
            assert(next.drop_last() =~= prefix);
            assert(next.last() == b);
            if i == 4 || i == 6 || i == 8 || i == 10 {
                assert(out@ =~= id_text(prefix) + seq!['-'] + seq![hex_digit(b / 16), hex_digit(b % 16)]);
            } else {
                assert(out@ =~= id_text(prefix) + Seq::<char>::empty() + seq![hex_digit(b / 16), hex_digit(b % 16)]);
            }
        }
        i = i + 1;
    }
    assert(bytes@.subrange(0, 16) =~= bytes@);
    out
}

/// A fresh random identifier for a new record.
pub fn generate_id() -> (r: String)
    ensures
        exists|b: Seq<u8>| b.len() == 16 && r@ == id_text(b),
{
    let bytes = random_bytes(16);
    format_id(bytes.as_slice())
}

} // verus!
