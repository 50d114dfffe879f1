//! Reading decimal numerals.

use crate::scan::chars_of;
use vstd::prelude::*;

verus! {

/// Why a text is not a numeral of the wanted type.
#[derive(Debug, Clone, Copy, PartialEq, Eq)]
pub enum NumberFault {
    /// The text is empty.
    Empty,
    /// The text holds a character that is not a digit where a digit is due,
    /// or nothing but a sign.
    InvalidDigit,
    /// The number is too large for the type.
    PosOverflow,
    /// The number is too small for the type.
    NegOverflow,
}

/// The value of a decimal digit, or `None` for any other character.
pub open spec fn digit_of(c: char) -> Option<nat> {
    if '0' <= c <= '9' {
        Some((c as u32 - '0' as u32) as nat)
    } else {
        None
    }
}

/// The value of a run of digits, read from left to right, with no value
/// allowed above `limit`. The first character that is not a digit, or the
/// first digit that takes the value above the limit, decides the fault.
pub open spec fn scan_digits(digits: Seq<char>, limit: nat) -> Result<nat, NumberFault>
    decreases digits.len(),
{
    if digits.len() == 0 {
        Ok(0)
    } else {
        match scan_digits(digits.drop_last(), limit) {
            Err(fault) => Err(fault),
            Ok(value) => match digit_of(digits.last()) {
                None => Err(NumberFault::InvalidDigit),
                Some(d) => if value * 10 + d > limit {
                    Err(NumberFault::PosOverflow)
                } else {
                    Ok(value * 10 + d)
                },
            },
        }
    }
}

/// Whether `s` is nothing but a sign.
pub open spec fn lone_sign(s: Seq<char>) -> bool {
    s.len() == 1 && (s[0] == '+' || s[0] == '-')
}

/// What `s` reads as an unsigned 32-bit numeral: digits, with a plus sign
/// allowed before them and nothing else around them.
pub open spec fn unsigned_reading(s: Seq<char>) -> Result<u32, NumberFault> {
    if s.len() == 0 {
        Err(NumberFault::Empty)
    } else if lone_sign(s) {
        Err(NumberFault::InvalidDigit)
    } else {
        let digits = if s[0] == '+' {
            s.drop_first()
        } else {
            s
        };
        match scan_digits(digits, u32::MAX as nat) {
            Ok(value) => Ok(value as u32),
            Err(fault) => Err(fault),
        }
    }
}

/// What `s` reads as a signed 32-bit numeral: digits, with a plus or a minus
/// sign allowed before them and nothing else around them.
pub open spec fn signed_reading(s: Seq<char>) -> Result<i32, NumberFault> {
    if s.len() == 0 {
        Err(NumberFault::Empty)
    } else if lone_sign(s) {
        Err(NumberFault::InvalidDigit)
    } else if s[0] == '-' {
        match scan_digits(s.drop_first(), 0x8000_0000) {
            Ok(value) => Ok((-value) as i32),
            Err(NumberFault::PosOverflow) => Err(NumberFault::NegOverflow),
            Err(fault) => Err(fault),
        }
    } else {
        let digits = if s[0] == '+' {
            s.drop_first()
        } else {
            s
        };
        match scan_digits(digits, i32::MAX as nat) {
            Ok(value) => Ok(value as i32),
            Err(fault) => Err(fault),
        }
    }
}

/// A fault stays: once a run of digits has failed, what follows does not
/// matter.
pub proof fn lemma_fault_stays(digits: Seq<char>, limit: nat, upto: int)
    requires
        0 <= upto <= digits.len(),
        scan_digits(digits.subrange(0, upto), limit) is Err,
    ensures
        scan_digits(digits, limit) == scan_digits(digits.subrange(0, upto), limit),
    decreases digits.len() - upto,
{
    if upto < digits.len() {
        let next = digits.subrange(0, upto + 1);
        assert(next.drop_last() =~= digits.subrange(0, upto));
        lemma_fault_stays(digits, limit, upto + 1);
    } else {
        assert(digits.subrange(0, upto) =~= digits);
    }
}

/// The value of a decimal digit.
pub fn digit_value(c: char) -> (value: Option<u32>)
    ensures
        value is Some <==> digit_of(c) is Some,
        value matches Some(d) ==> digit_of(c) == Some(d as nat) && d < 10,
{
    let u: u32 = c as u32;
    if 48 <= u && u <= 57 {
        Some(u - 48)
    } else {
        None
    }
}

/// Reads the digits of `chars` from position `from` on.
fn read_digits(chars: &Vec<char>, from: usize, limit: u64) -> (value: Result<u64, NumberFault>)
    requires
        from <= chars@.len(),
        limit <= 0x1_0000_0000,
    ensures
        match scan_digits(chars@.subrange(from as int, chars@.len() as int), limit as nat) {
            Ok(v) => value == Ok::<u64, NumberFault>(v as u64) && v <= limit,
            Err(fault) => value == Err::<u64, NumberFault>(fault),
        },
{
    let ghost digits = chars@.subrange(from as int, chars@.len() as int);
    let mut value: u64 = 0;
    let mut i: usize = from;
    assert(digits.subrange(0, 0) =~= Seq::<char>::empty());
    while i < chars.len()
        invariant
            from <= i <= chars@.len(),
            limit <= 0x1_0000_0000,
            digits == chars@.subrange(from as int, chars@.len() as int),
            scan_digits(digits.subrange(0, i - from), limit as nat) == Ok::<nat, NumberFault>(
                value as nat,
            ),
            value <= limit,
        decreases chars@.len() - i,
    {
        let ghost through = digits.subrange(0, i - from + 1);
        proof {
            assert(through.drop_last() =~= digits.subrange(0, i - from));
            assert(through.last() == chars@[i as int]);
        }
        match digit_value(chars[i]) {
            None => {
                proof {
                    lemma_fault_stays(digits, limit as nat, i - from + 1);
                }
                return Err(NumberFault::InvalidDigit);
            },
            Some(d) => {
                let next: u64 = value * 10 + d as u64;
                if next > limit {
                    proof {
                        lemma_fault_stays(digits, limit as nat, i - from + 1);
                    }
                    return Err(NumberFault::PosOverflow);
                }
                value = next;
            },
        }
        i += 1;
    }
    assert(digits.subrange(0, i - from) =~= digits);
    Ok(value)
}

/// Reads `s` as an unsigned 32-bit numeral.
pub fn parse_u32(s: &str) -> (value: Result<u32, NumberFault>)
    ensures
        value == unsigned_reading(s@),
{
    let chars = chars_of(s);
    if chars.len() == 0 {
        return Err(NumberFault::Empty);
    }
    if chars.len() == 1 && (chars[0] == '+' || chars[0] == '-') {
        return Err(NumberFault::InvalidDigit);
    }
    let from: usize = if chars[0] == '+' {
        1
    } else {
        0
    };
    proof {
        assert(chars@.subrange(1, chars@.len() as int) =~= chars@.drop_first());
        assert(chars@.subrange(0, chars@.len() as int) =~= chars@);
    }
    match read_digits(&chars, from, 0xFFFF_FFFF) {
        Ok(v) => Ok(v as u32),
        Err(fault) => Err(fault),
    }
}

/// Reads `s` as a signed 32-bit numeral.
pub fn parse_i32(s: &str) -> (value: Result<i32, NumberFault>)
    ensures
        value == signed_reading(s@),
{
    let chars = chars_of(s);
    if chars.len() == 0 {
        return Err(NumberFault::Empty);
    }
    if chars.len() == 1 && (chars[0] == '+' || chars[0] == '-') {
        return Err(NumberFault::InvalidDigit);
    }
    proof {
        assert(chars@.subrange(1, chars@.len() as int) =~= chars@.drop_first());
        assert(chars@.subrange(0, chars@.len() as int) =~= chars@);
    }
    if chars[0] == '-' {
        match read_digits(&chars, 1, 0x8000_0000) {
            Ok(v) => {
                if v == 0x8000_0000 {
                    Ok(i32::MIN)
                } else {
                    Ok(-(v as i32))
                }
            },
            Err(NumberFault::PosOverflow) => Err(NumberFault::NegOverflow),
            Err(fault) => Err(fault),
        }
    } else {
        let from: usize = if chars[0] == '+' {
            1
        } else {
            0
        };
        match read_digits(&chars, from, 0x7FFF_FFFF) {
            Ok(v) => Ok(v as i32),
            Err(fault) => Err(fault),
        }
    }
}

} // verus!
