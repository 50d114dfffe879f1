//! Decoding of raw register words into signed integers.

use vstd::prelude::*;

verus! {

/// The signed value of one register word: the word itself, widened.
pub open spec fn single_value(word: u16) -> int {
    word as int
}

/// The signed value of two register words, the high word first: the
/// 32-bit pattern `high * 2^16 + low` read as a two's-complement integer.
pub open spec fn pair_value(high: u16, low: u16) -> int {
    let pattern = high as int * 0x1_0000 + low as int;
    if pattern >= 0x8000_0000 {
        pattern - 0x1_0000_0000
    } else {
        pattern
    }
}

/// What the words read for one data point decode to.
#[derive(Debug, Clone, Copy, PartialEq, Eq)]
pub enum Decoded {
    /// The raw value, before scaling.
    Value(i32),
    /// The span is neither one nor two words: the data point is passed over.
    Unsupported,
    /// Fewer words were read than the span asks for.
    Incomplete,
}

/// The decoding of the words read for a data point that spans `span` words.
///
/// One word is taken as it is and widened; two words are joined, the high
/// word first, and read as a signed 32-bit integer. No other span is
/// supported.
pub open spec fn decoded(span: u16, words: Seq<u16>) -> Decoded {
    if span == 1 {
        if words.len() >= 1 {
            Decoded::Value(single_value(words[0]) as i32)
        } else {
            Decoded::Incomplete
        }
    } else if span == 2 {
        if words.len() >= 2 {
            Decoded::Value(pair_value(words[0], words[1]) as i32)
        } else {
            Decoded::Incomplete
        }
    } else {
        Decoded::Unsupported
    }
}

/// Joins two words, the high one first, into one signed 32-bit integer.
pub fn combine(high: u16, low: u16) -> (value: i32)
    ensures
        value == pair_value(high, low),
{
    let h: u32 = high as u32;
    let l: u32 = low as u32;
    let pattern: u32 = (h << 16) | l;
    assert(pattern == h * 0x1_0000 + l) by (bit_vector)
        requires
            pattern == (h << 16) | l,
            h < 0x1_0000,
            l < 0x1_0000,
    ;
    if pattern >= 0x8000_0000 {
        let low_part: u32 = pattern - 0x8000_0000;
        (low_part as i32) + i32::MIN
    } else {
        pattern as i32
    }
}

/// Decodes the words read for a data point of `span` words.
pub fn decode(span: u16, words: &Vec<u16>) -> (value: Decoded)
    ensures
        value == decoded(span, words@),
{
    if span == 1 {
        if words.len() >= 1 {
            Decoded::Value(words[0] as i32)
        } else {
            Decoded::Incomplete
        }
    } else if span == 2 {
        if words.len() >= 2 {
            Decoded::Value(combine(words[0], words[1]))
        } else {
            Decoded::Incomplete
        }
    } else {
        Decoded::Unsupported
    }
}

/// Two words always decode to a value that fits 32 bits, and that value has
/// the bit pattern `high * 2^16 + low`.
pub proof fn lemma_pair_value_range(high: u16, low: u16)
    ensures
        i32::MIN <= pair_value(high, low) <= i32::MAX,
        pair_value(high, low) >= 0 ==> pair_value(high, low) == high as int * 0x1_0000 + low as int,
        pair_value(high, low) < 0 ==> pair_value(high, low) + 0x1_0000_0000 == high as int
            * 0x1_0000 + low as int,
{
}

} // verus!
