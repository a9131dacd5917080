use vstd::arithmetic::div_mod::{
    lemma_div_is_ordered, lemma_div_pos_is_pos, lemma_multiply_divide_lt,
};
use vstd::arithmetic::mul::{lemma_mul_inequality, lemma_mul_strict_inequality};
use vstd::prelude::*;

verus! {

/// The bucket index a linear layout assigns to `value`: values at or below
/// `min` clamp to the first bucket, values at or above `max` clamp to the
/// last, and interior values are interpolated linearly over the range, the
/// quotient truncated toward zero.
pub open spec fn bucket_of(min: int, max: int, buckets: int, value: int) -> int {
    if value <= min {
        0
    } else if value >= max {
        buckets - 1
    } else {
        ((value - min) * buckets) / (max - min)
    }
}

/// Representation of buckets shared by both plain and keyed linear
/// histograms: `buckets` equal-width intervals covering the value range
/// `[min, max)`, with out-of-range samples clamped to the end buckets.
///
/// Immutable after construction.
pub struct LinearBuckets {
    min: u32,
    max: u32,  // Invariant: max > min
    pub buckets: usize,
}

impl LinearBuckets {
    /// The lower end of the value range.
    pub closed spec fn spec_min(&self) -> u32 {
        self.min
    }

    /// The upper end of the value range.
    pub closed spec fn spec_max(&self) -> u32 {
        self.max
    }

    /// The number of buckets.
    pub closed spec fn spec_buckets(&self) -> usize {
        self.buckets
    }

    /// A well-formed layout: a non-empty range, at least one bucket, and
    /// fewer buckets than the range has units, so every bucket spans at
    /// least one unit.
    pub open spec fn wf(&self) -> bool {
        &&& self.spec_min() < self.spec_max()
        &&& 0 < self.spec_buckets() < self.spec_max() - self.spec_min()
    }

    pub fn new(min: u32, max: u32, buckets: usize) -> (r: LinearBuckets)
        requires
            min < max,
            buckets > 0,
            buckets < max - min,
        ensures
            r.spec_min() == min,
            r.spec_max() == max,
            r.spec_buckets() == buckets,
            r.wf(),
    {
        LinearBuckets { min, max, buckets }
    }

    /// Maps a raw sample value to a bucket index in `[0, buckets)`; never
    /// fails, since out-of-range values are clamped to the end buckets.
    ///
    /// Interior values are interpolated with integer arithmetic, truncating
    /// toward zero; a value exactly on an internal bucket boundary lands in
    /// the higher of the two adjacent buckets.
    pub fn get_bucket(&self, value: u32) -> (r: usize)
        requires
            self.wf(),
        ensures
            r == bucket_of(
                self.spec_min() as int,
                self.spec_max() as int,
                self.spec_buckets() as int,
                value as int,
            ),
            r < self.spec_buckets(),
    {
        if value <= self.min {
            0
        } else if value >= self.max {
            self.buckets - 1
        } else {
            let num: u64 = (value - self.min) as u64;
            let den: u64 = (self.max - self.min) as u64;
            proof {
                assert(num * (self.buckets as u64) < 0x1_0000_0000_0000_0000) by (nonlinear_arith)
                    requires
                        num < 0x1_0000_0000,
                        (self.buckets as u64) < 0x1_0000_0000,
                ;
                lemma_mul_strict_inequality(num as int, den as int, self.buckets as int);
                lemma_multiply_divide_lt(
                    num as int * self.buckets as int,
                    den as int,
                    self.buckets as int,
                );
            }
            let idx: u64 = num * (self.buckets as u64) / den;
            idx as usize
        }
    }
}

/// The clamping policy at the ends of the range: the minimum of the range,
/// and any value below it, lands in the first bucket; the maximum, and any
/// value above it, lands in the last.
pub proof fn lemma_bucket_clamps(min: int, max: int, buckets: int, value: int)
    requires
        min < max,
        0 < buckets < max - min,
    ensures
        bucket_of(min, max, buckets, min) == 0,
        bucket_of(min, max, buckets, max) == buckets - 1,
        value <= min ==> bucket_of(min, max, buckets, value) == 0,
        value >= max ==> bucket_of(min, max, buckets, value) == buckets - 1,
{
}

/// No bucket index can escape `[0, buckets)`: the ends are clamped, and an
/// interior value yields a fraction strictly below one of the range, so its
/// truncated index stays below the bucket count.
pub proof fn lemma_bucket_in_range(min: int, max: int, buckets: int, value: int)
    requires
        min < max,
        0 < buckets < max - min,
    ensures
        0 <= bucket_of(min, max, buckets, value) < buckets,
{
    if min < value < max {
        lemma_mul_inequality(0, value - min, buckets);
        lemma_div_pos_is_pos((value - min) * buckets, max - min);
        lemma_mul_strict_inequality(value - min, max - min, buckets);
        lemma_multiply_divide_lt((value - min) * buckets, max - min, buckets);
    }
}

/// Monotonicity: over `[min, max]`, a larger sample value never lands in a
/// smaller bucket.
pub proof fn lemma_bucket_monotonic(min: int, max: int, buckets: int, a: int, b: int)
    requires
        min < max,
        0 < buckets < max - min,
        min <= a <= b <= max,
    ensures
        bucket_of(min, max, buckets, a) <= bucket_of(min, max, buckets, b),
{
    lemma_bucket_in_range(min, max, buckets, a);
    lemma_bucket_in_range(min, max, buckets, b);
    if min < a && b < max {
        lemma_mul_inequality(a - min, b - min, buckets);
        lemma_div_is_ordered((a - min) * buckets, (b - min) * buckets, max - min);
    }
}

} // verus!
