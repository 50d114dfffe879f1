//! Sums and statistics over owned and borrowed numbers.

use crate::scan::chars_of;
use vstd::prelude::*;
use vstd::string::StrSliceExecFns;

verus! {

/// The sum of the numbers.
pub open spec fn total(numbers: Seq<i32>) -> int
    decreases numbers.len(),
{
    if numbers.len() == 0 {
        0
    } else {
        total(numbers.drop_last()) + numbers.last()
    }
}

/// Whether every sum of the first few numbers fits `i32`.
pub open spec fn sums_fit(numbers: Seq<i32>) -> bool {
    forall|k: int|
        0 <= k <= numbers.len() ==> i32::MIN <= #[trigger] total(numbers.subrange(0, k))
            <= i32::MAX
}

/// The sum of the numbers, which are given away. Every sum on the way must
/// fit `i32`.
pub fn sum_owned(nums: Vec<i32>) -> (sum: i32)
    requires
        sums_fit(nums@),
    ensures
        sum == total(nums@),
{
    sum_borrowed(&nums)
}

/// The sum of the numbers, which are lent. Every sum on the way must fit
/// `i32`.
pub fn sum_borrowed(nums: &Vec<i32>) -> (sum: i32)
    requires
        sums_fit(nums@),
    ensures
        sum == total(nums@),
{
    let mut sum: i32 = 0;
    let mut i: usize = 0;
    while i < nums.len()
        invariant
            i <= nums@.len(),
            sums_fit(nums@),
            sum == total(nums@.subrange(0, i as int)),
        decreases nums@.len() - i,
    {
        proof {
            let through = nums@.subrange(0, i + 1);
            assert(through.drop_last() =~= nums@.subrange(0, i as int));
            assert(through.last() == nums@[i as int]);
            assert(i32::MIN <= total(nums@.subrange(0, i + 1)) <= i32::MAX);
        }
        sum = sum + nums[i];
        i += 1;
    }
    assert(nums@.subrange(0, i as int) =~= nums@);
    sum
}

/// Adds one to every number. No number may be the largest of `i32`.
pub fn increment_all(nums: &mut Vec<i32>)
    requires
        forall|i: int| 0 <= i < old(nums)@.len() ==> (#[trigger] old(nums)@[i]) < i32::MAX,
    ensures
        final(nums)@.len() == old(nums)@.len(),
        forall|i: int|
            0 <= i < old(nums)@.len() ==> (#[trigger] final(nums)@[i]) == old(nums)@[i] + 1,
{
    let mut i: usize = 0;
    while i < nums.len()
        invariant
            i <= nums@.len(),
            nums@.len() == old(nums)@.len(),
            forall|k: int| 0 <= k < old(nums)@.len() ==> (#[trigger] old(nums)@[k]) < i32::MAX,
            forall|k: int| 0 <= k < i ==> (#[trigger] nums@[k]) == old(nums)@[k] + 1,
            forall|k: int| i <= k < nums@.len() ==> (#[trigger] nums@[k]) == old(nums)@[k],
        decreases nums@.len() - i,
    {
        let n = nums[i];
        assert(n == old(nums)@[i as int]);
        nums.set(i, n + 1);
        i += 1;
    }
}

/// How many characters stand before the first space of `s`.
pub open spec fn before_space(s: Seq<char>) -> nat
    decreases s.len(),
{
    if s.len() == 0 || s[0] == ' ' {
        0
    } else {
        1 + before_space(s.drop_first())
    }
}

/// The first space of `s` stands at `at` where nothing before `at` is a
/// space and the character at `at`, if any, is one.
pub proof fn lemma_before_space(s: Seq<char>, at: int)
    requires
        0 <= at <= s.len(),
        forall|k: int| 0 <= k < at ==> #[trigger] s[k] != ' ',
        at < s.len() ==> s[at] == ' ',
    ensures
        before_space(s) == at,
    decreases s.len(),
{
    if at > 0 {
        let rest = s.drop_first();
        assert(s[0] != ' ');
        assert forall|k: int| 0 <= k < at - 1 implies #[trigger] rest[k] != ' ' by {
            assert(rest[k] == s[k + 1]);
        }
        lemma_before_space(rest, at - 1);
    }
}

/// The first word of `s`: what stands before the first space, or all of `s`
/// where it holds no space.
pub fn first_word(s: &str) -> (word: &str)
    ensures
        word@ == s@.subrange(0, before_space(s@) as int),
{
    let chars = chars_of(s);
    let mut i: usize = 0;
    while i < chars.len() && chars[i] != ' '
        invariant
            i <= chars@.len(),
            forall|k: int| 0 <= k < i ==> #[trigger] chars@[k] != ' ',
        decreases chars@.len() - i,
    {
        i += 1;
    }
    proof {
        lemma_before_space(chars@, i as int);
    }
    s.substring_char(0, i)
}

/// What [`process`] makes of the number at position `i` of `len` numbers:
/// one more in the first half, twice as much in the second.
pub open spec fn processed(number: i32, i: int, len: int) -> int {
    if i < len / 2 {
        number + 1
    } else {
        number * 2
    }
}

/// Adds one to every number of the first half and doubles every number of
/// the second half; the middle of an odd count belongs to the second half.
/// Every result must fit `i32`.
pub fn process(nums: &mut [i32])
    requires
        forall|i: int|
            0 <= i < old(nums)@.len() ==> i32::MIN <= #[trigger] processed(
                old(nums)@[i],
                i,
                old(nums)@.len() as int,
            ) <= i32::MAX,
    ensures
        final(nums)@.len() == old(nums)@.len(),
        forall|i: int|
            0 <= i < old(nums)@.len() ==> (#[trigger] final(nums)@[i]) == processed(
                old(nums)@[i],
                i,
                old(nums)@.len() as int,
            ),
{
    let len = nums.len();
    let half = len / 2;
    let mut i: usize = 0;
    while i < len
        invariant
            i <= len,
            len == nums@.len(),
            len == old(nums)@.len(),
            half == len / 2,
            forall|k: int|
                0 <= k < len ==> i32::MIN <= #[trigger] processed(old(nums)@[k], k, len as int)
                    <= i32::MAX,
            forall|k: int|
                0 <= k < i ==> (#[trigger] nums@[k]) == processed(old(nums)@[k], k, len as int),
            forall|k: int| i <= k < len ==> (#[trigger] nums@[k]) == old(nums)@[k],
        decreases len - i,
    {
        let n = nums[i];
        assert(n == old(nums)@[i as int]);
        assert(i32::MIN <= processed(old(nums)@[i as int], i as int, len as int) <= i32::MAX);
        if i < half {
            nums[i] = n + 1;
        } else {
            nums[i] = n * 2;
        }
        i += 1;
    }
}

/// `<[i32]>::sort` of the standard library, which sorts a slice in ascending
/// order and keeps every element.
#[verifier::external_body]
fn sort_ascending(values: &mut Vec<i32>)
    ensures
        final(values)@.to_multiset() == old(values)@.to_multiset(),
        forall|i: int, j: int|
            0 <= i <= j < final(values)@.len() ==> final(values)@[i] <= final(values)@[j],
{
    values.sort();
}

/// A collection of numbers.
#[derive(Debug)]
pub struct Stats {
    pub values: Vec<i32>,
}

impl Stats {
    /// No numbers yet.
    pub fn new() -> (stats: Self)
        ensures
            stats.values@.len() == 0,
    {
        Stats { values: Vec::new() }
    }

    /// Adds a number at the end.
    pub fn add(&mut self, value: i32)
        ensures
            final(self).values@ == old(self).values@.push(value),
    {
        self.values.push(value);
    }

    /// The sum of the numbers. Every sum on the way must fit `i32`.
    pub fn sum(&self) -> (sum: i32)
        requires
            sums_fit(self.values@),
        ensures
            sum == total(self.values@),
    {
        sum_borrowed(&self.values)
    }

    /// Multiplies every number by `factor`. Every product must fit `i32`.
    pub fn scale(&mut self, factor: i32)
        requires
            forall|i: int|
                0 <= i < old(self).values@.len() ==> i32::MIN <= (#[trigger] old(self).values@[i]) * factor <= i32::MAX,
        ensures
            final(self).values@.len() == old(self).values@.len(),
            forall|i: int|
                0 <= i < old(self).values@.len() ==> (#[trigger] final(self).values@[i]) == old(self).values@[i] * factor,
    {
        let mut i: usize = 0;
        while i < self.values.len()
            invariant
                i <= self.values@.len(),
                self.values@.len() == old(self).values@.len(),
                forall|k: int|
                    0 <= k < old(self).values@.len() ==> i32::MIN <= (#[trigger] old(self).values@[k]) * factor <= i32::MAX,
                forall|k: int|
                    0 <= k < i ==> (#[trigger] self.values@[k]) == old(self).values@[k] * factor,
                forall|k: int|
                    i <= k < self.values@.len() ==> (#[trigger] self.values@[k]) == old(self).values@[k],
            decreases self.values@.len() - i,
        {
            let n = self.values[i];
            assert(n == old(self).values@[i as int]);
            self.values.set(i, n * factor);
            i += 1;
        }
    }

    /// The numbers in ascending order: the same numbers, each as often as
    /// before.
    pub fn into_sorted(self) -> (sorted: Vec<i32>)
        ensures
            sorted@.to_multiset() == self.values@.to_multiset(),
            forall|i: int, j: int| 0 <= i <= j < sorted@.len() ==> sorted@[i] <= sorted@[j],
    {
        let mut v = self.values;
        sort_ascending(&mut v);
        v
    }
}

} // verus!
