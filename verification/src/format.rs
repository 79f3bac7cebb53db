//! The canonical text of an identifier: thirty-two hexadecimal digits in the
//! groups 8-4-4-4-12, in lower or in upper case.

use vstd::prelude::*;
use vstd::string::{StrSliceExecFns, StringExecFns};
use crate::id::Uuid;

verus! {

/// The digit for a value below sixteen.
pub open spec fn hex_digit(nibble: u8, upper: bool) -> char {
    if nibble < 10 {
        (nibble + 48) as char
    } else if upper {
        (nibble + 55) as char
    } else {
        (nibble + 87) as char
    }
}

/// Two digits for each byte, the high nibble first.
pub open spec fn hex_of(bytes: Seq<u8>, upper: bool) -> Seq<char> {
    Seq::new(
        2 * bytes.len(),
        |i: int|
            hex_digit(
                if i % 2 == 0 {
                    bytes[i / 2] >> 4
                } else {
                    bytes[i / 2] & 0x0F
                },
                upper,
            ),
    )
}

/// The text of sixteen bytes: their digits in groups of four, two, two, two
/// and six bytes, with a hyphen between two groups.
pub open spec fn hyphenated(bytes: Seq<u8>, upper: bool) -> Seq<char> {
    hex_of(bytes.subrange(0, 4), upper) + seq!['-'] + hex_of(bytes.subrange(4, 6), upper)
        + seq!['-'] + hex_of(bytes.subrange(6, 8), upper) + seq!['-'] + hex_of(
        bytes.subrange(8, 10),
        upper,
    ) + seq!['-'] + hex_of(bytes.subrange(10, 16), upper)
}

/// A lower-case letter of ASCII turned into its capital; any other character
/// as it is.
pub open spec fn ascii_upper(c: char) -> char {
    if 'a' <= c <= 'z' {
        ((c as u8) - 32) as char
    } else {
        c
    }
}

/// Whether `c` is a digit, or one of the first six letters in the case asked
/// for.
pub open spec fn is_hex_digit(c: char, upper: bool) -> bool {
    ||| '0' <= c <= '9'
    ||| upper && 'A' <= c <= 'F'
    ||| !upper && 'a' <= c <= 'f'
}

/// Either half of a byte is below sixteen.
proof fn lemma_nibbles()
    ensures
        forall|b: u8| (#[trigger] (b >> 4)) < 16,
        forall|b: u8| (#[trigger] (b & 0x0F)) < 16,
{
    assert forall|b: u8| (#[trigger] (b >> 4)) < 16 by {
        assert(b >> 4 < 16) by (bit_vector);
    }
    assert forall|b: u8| (#[trigger] (b & 0x0F)) < 16 by {
        assert(b & 0x0F < 16) by (bit_vector);
    }
}

/// The digit of a nibble is a hexadecimal digit of the case asked for, and the
/// upper-case digit is the capital of the lower-case one.
pub proof fn lemma_hex_digit(nibble: u8, upper: bool)
    requires
        nibble < 16,
    ensures
        is_hex_digit(hex_digit(nibble, upper), upper),
        hex_digit(nibble, true) == ascii_upper(hex_digit(nibble, false)),
{
}

/// The text has thirty-six characters: hyphens at the positions 8, 13, 18 and
/// 23 and hexadecimal digits of the case asked for everywhere else.
pub proof fn lemma_hyphenated_shape(bytes: Seq<u8>, upper: bool)
    requires
        bytes.len() == 16,
    ensures
        hyphenated(bytes, upper).len() == 36,
        forall|i: int|
            0 <= i < 36 ==> if i == 8 || i == 13 || i == 18 || i == 23 {
                (#[trigger] hyphenated(bytes, upper)[i]) == '-'
            } else {
                is_hex_digit(hyphenated(bytes, upper)[i], upper)
            },
{
    let text = hyphenated(bytes, upper);
    let g0 = hex_of(bytes.subrange(0, 4), upper);
    let g1 = hex_of(bytes.subrange(4, 6), upper);
    let g2 = hex_of(bytes.subrange(6, 8), upper);
    let g3 = hex_of(bytes.subrange(8, 10), upper);
    let g4 = hex_of(bytes.subrange(10, 16), upper);
    lemma_nibbles();
    assert forall|n: u8| n < 16 implies is_hex_digit(#[trigger] hex_digit(n, upper), upper) by {
        lemma_hex_digit(n, upper);
    }
    assert forall|i: int| 0 <= i < 36 implies if i == 8 || i == 13 || i == 18 || i == 23 {
        (#[trigger] text[i]) == '-'
    } else {
        is_hex_digit(text[i], upper)
    } by {
        if i < 8 {
            assert(text[i] == g0[i]);
        } else if i == 8 {
        } else if i < 13 {
            assert(text[i] == g1[i - 9]);
        } else if i == 13 {
        } else if i < 18 {
            assert(text[i] == g2[i - 14]);
        } else if i == 18 {
        } else if i < 23 {
            assert(text[i] == g3[i - 19]);
        } else if i == 23 {
        } else {
            assert(text[i] == g4[i - 24]);
        }
    }
}

/// The upper-case text is the lower-case text with each character turned into
/// its capital: digits and hyphens stay, the letters a to f become A to F.
pub proof fn lemma_uppercase_is_capitalised_lowercase(bytes: Seq<u8>)
    requires
        bytes.len() == 16,
    ensures
        hyphenated(bytes, true) == hyphenated(bytes, false).map_values(|c: char| ascii_upper(c)),
{
    let lower = hyphenated(bytes, false);
    let upper = hyphenated(bytes, true);
    let mapped = lower.map_values(|c: char| ascii_upper(c));
    assert(upper.len() == mapped.len());
    assert forall|i: int| 0 <= i < upper.len() implies upper[i] == mapped[i] by {
        lemma_nibbles();
        assert forall|n: u8| n < 16 implies #[trigger] hex_digit(n, true) == ascii_upper(
            hex_digit(n, false),
        ) by {
            lemma_hex_digit(n, false);
        }
    }
    assert(upper =~= mapped);
}

/// The digits of one more byte follow the digits of the bytes before it.
proof fn lemma_hex_of_push(bytes: Seq<u8>, from: int, to: int, upper: bool)
    requires
        0 <= from <= to < bytes.len(),
    ensures
        hex_of(bytes.subrange(from, to + 1), upper) == hex_of(bytes.subrange(from, to), upper)
            + hex_of(seq![bytes[to]], upper),
{
    assert(hex_of(bytes.subrange(from, to + 1), upper) =~= hex_of(
        bytes.subrange(from, to),
        upper,
    ) + hex_of(seq![bytes[to]], upper));
}

/// Appends the two digits of `byte`.
fn push_hex(text: &mut String, byte: u8, upper: bool)
    ensures
        final(text)@ == old(text)@ + hex_of(seq![byte], upper),
{
    let digits: &str = if upper {
        "0123456789ABCDEF"
    } else {
        "0123456789abcdef"
    };
    let high: usize = (byte >> 4) as usize;
    let low: usize = (byte & 0x0F) as usize;
    proof {
        reveal_strlit("0123456789ABCDEF");
        reveal_strlit("0123456789abcdef");
        lemma_nibbles();
        assert(digits@.len() == 16);
        assert forall|n: u8| n < 16 implies digits@[n as int] == #[trigger] hex_digit(
            n,
            upper,
        ) by {}
        assert(digits.is_ascii());
    }
    text.append(digits.substring_ascii(high, high + 1));
    text.append(digits.substring_ascii(low, low + 1));
    proof {
        assert(final(text)@ =~= old(text)@ + hex_of(seq![byte], upper));
    }
}

/// Appends the digits of the bytes from `from` up to `to`.
fn push_group(text: &mut String, bytes: &[u8; 16], from: usize, to: usize, upper: bool)
    requires
        from <= to <= 16,
    ensures
        final(text)@ == old(text)@ + hex_of(bytes@.subrange(from as int, to as int), upper),
{
    let mut i: usize = from;
    assert(hex_of(bytes@.subrange(from as int, from as int), upper) =~= Seq::<char>::empty());
    while i < to
        invariant
            from <= i <= to <= 16,
            text@ == old(text)@ + hex_of(bytes@.subrange(from as int, i as int), upper),
        decreases to - i,
    {
        push_hex(text, bytes[i], upper);
        proof {
            lemma_hex_of_push(bytes@, from as int, i as int, upper);
        }
        i += 1;
    }
}

/// Writes an identifier in its canonical form, such as
/// `6ba7b810-9dad-11d1-80b4-00c04fd430c8`; with `upper` the letters are
/// capitals and everything else is the same.
pub fn to_hyphenated(id: &Uuid, upper: bool) -> (text: String)
    ensures
        text@ == hyphenated(id@, upper),
{
    let bytes = id.as_bytes();
    let mut text = String::new();
    proof {
        reveal_strlit("-");
    }
    push_group(&mut text, bytes, 0, 4, upper);
    text.append("-");
    push_group(&mut text, bytes, 4, 6, upper);
    text.append("-");
    push_group(&mut text, bytes, 6, 8, upper);
    text.append("-");
    push_group(&mut text, bytes, 8, 10, upper);
    text.append("-");
    push_group(&mut text, bytes, 10, 16, upper);
    proof {
        assert("-"@ =~= seq!['-']);
        assert(text@ =~= hyphenated(id@, upper));
    }
    text
}

} // verus!
