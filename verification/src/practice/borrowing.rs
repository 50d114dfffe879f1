//! Lengths of borrowed texts and data that is consumed.

use vstd::prelude::*;
use vstd::string::StringSliceAdditionalSpecFns;

verus! {

/// The bytes that `a` and `b` take together.
pub fn sum_lengths<'a>(a: &'a str, b: &'a str) -> (total: usize)
    requires
        a.spec_bytes().len() + b.spec_bytes().len() <= usize::MAX,
    ensures
        total == a.spec_bytes().len() + b.spec_bytes().len(),
{
    a.as_bytes().len() + b.as_bytes().len()
}

/// A number or a text.
pub enum Data {
    Number(i32),
    Text(String),
}

/// The size of `data`: the magnitude of a number, the bytes of a text. The
/// number must have a magnitude within `i32`.
pub fn consume(data: Data) -> (size: usize)
    requires
        data matches Data::Number(n) ==> n != i32::MIN,
    ensures
        match data {
            Data::Number(n) => size == if n < 0 {
                -n
            } else {
                n as int
            },
            Data::Text(s) => size == vstd::utf8::encode_utf8(s@).len(),
        },
{
    match data {
        Data::Number(n) => {
            let magnitude: i32 = if n < 0 {
                -n
            } else {
                n
            };
            magnitude as usize
        },
        Data::Text(s) => s.as_str().as_bytes().len(),
    }
}

/// The two texts, as they came.
pub fn store_refs<'a, 'b>(a: &'a str, b: &'b str) -> (pair: (&'a str, &'b str))
    ensures
        pair.0 == a,
        pair.1 == b,
{
    (a, b)
}

} // verus!
