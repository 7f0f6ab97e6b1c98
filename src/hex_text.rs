//! What it means to render bytes as lowercase hexadecimal, and how the
//! rendering is read back.
use vstd::prelude::*;

verus! {

/// The sixteen digits, in the order of their values.
pub open spec fn hex_alphabet() -> Seq<char> {
    seq!['0', '1', '2', '3', '4', '5', '6', '7', '8', '9', 'a', 'b', 'c', 'd', 'e', 'f']
}

/// `c` is one of `0123456789abcdef`.
pub open spec fn is_lower_hex_digit(c: char) -> bool {
    hex_alphabet().contains(c)
}

/// Two digits per byte, the high nibble first.
pub open spec fn hex_lower(b: Seq<u8>) -> Seq<char> {
    Seq::new(
        2 * b.len(),
        |i: int|
            if i % 2 == 0 {
                hex_alphabet()[(b[i / 2] / 16) as int]
            } else {
                hex_alphabet()[(b[i / 2] % 16) as int]
            },
    )
}

/// The value of a lowercase hex digit.
pub open spec fn hex_value(c: char) -> int {
    choose|d: int| 0 <= d < 16 && hex_alphabet()[d] == c
}

/// Reads a rendering back: each pair of digits gives one byte.
pub open spec fn hex_decode(s: Seq<char>) -> Seq<u8> {
    Seq::new(s.len() / 2, |i: int| (16 * hex_value(s[2 * i]) + hex_value(s[2 * i + 1])) as u8)
}

/// Each digit stands for exactly one value.
pub proof fn lemma_hex_value(d: int)
    requires
        0 <= d < 16,
    ensures
        hex_value(hex_alphabet()[d]) == d,
{
    let c = hex_alphabet()[d];
    assert(0 <= d < 16 && hex_alphabet()[d] == c);
    let e = hex_value(c);
    assert(0 <= e < 16 && hex_alphabet()[e] == c);
    assert(hex_alphabet()[e] == hex_alphabet()[d]);
}

/// A rendering is twice as long as the bytes it renders, and every
/// character of it is a lowercase hex digit.
pub proof fn lemma_hex_lower_well_formed(b: Seq<u8>)
    ensures
        hex_lower(b).len() == 2 * b.len(),
        forall|i: int| 0 <= i < hex_lower(b).len() ==> #[trigger] is_lower_hex_digit(hex_lower(b)[i]),
{
    assert forall|i: int| 0 <= i < hex_lower(b).len() implies #[trigger] is_lower_hex_digit(
        hex_lower(b)[i],
    ) by {
        let d: int = if i % 2 == 0 {
            (b[i / 2] / 16) as int
        } else {
            (b[i / 2] % 16) as int
        };
        assert(0 <= d < 16);
        assert(hex_lower(b)[i] == hex_alphabet()[d]);
    }
}

/// Reading a rendering back gives exactly the bytes that were rendered,
/// in the same order.
pub proof fn lemma_hex_round_trip(b: Seq<u8>)
    ensures
        hex_decode(hex_lower(b)) == b,
{
    let s = hex_lower(b);
    assert forall|i: int| 0 <= i < b.len() implies #[trigger] hex_decode(s)[i] == b[i] by {
        let hi: int = (b[i] / 16) as int;
        let lo: int = (b[i] % 16) as int;
        assert((2 * i) / 2 == i && (2 * i) % 2 == 0);
        assert((2 * i + 1) / 2 == i && (2 * i + 1) % 2 == 1);
        lemma_hex_value(hi);
        lemma_hex_value(lo);
        assert(16 * hi + lo == b[i] as int);
    }
    assert(hex_decode(s) =~= b);
}

} // verus!
