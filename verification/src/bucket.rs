//! Directional bucket quantization.
//!
//! `bucket` maps a continuous value in `[0, maximum]` onto a discrete grid of
//! `buckets` equal steps.  Direction `Down` snaps toward zero
//! (`floor(value / (maximum / buckets)) * (maximum / buckets)`); `Up` is the
//! mirror image around `maximum`, so it snaps toward the maximum.  A bucket
//! count of zero is the smooth, unquantized identity.

use vstd::prelude::*;

use crate::ratio::{spec_ratio_complement, Ratio};

verus! {

#[derive(Debug, PartialEq, Eq, Hash, Clone, Copy, Structural)]
pub enum BucketDirection {
    Down,
    Up,
}

/// Quantization toward zero: the result is `k * maximum / buckets` where
/// `k = floor(value * buckets / maximum)`.
pub open spec fn spec_bucket_down(value: Ratio, maximum: u64, buckets: u32) -> Ratio {
    if buckets == 0 {
        value
    } else {
        let k = (value.num * buckets) / (value.den * maximum);
        Ratio { num: (k * maximum) as u64, den: buckets as u64 }
    }
}

/// Quantization toward `maximum`: the mirror image of `spec_bucket_down`
/// around `maximum`.
pub open spec fn spec_bucket_up(value: Ratio, maximum: u64, buckets: u32) -> Ratio {
    if buckets == 0 {
        value
    } else {
        spec_ratio_complement(
            maximum,
            spec_bucket_down(spec_ratio_complement(maximum, value), maximum, buckets),
        )
    }
}

pub open spec fn spec_bucket(
    value: Ratio,
    maximum: u64,
    buckets: u32,
    direction: BucketDirection,
) -> Ratio {
    match direction {
        BucketDirection::Down => spec_bucket_down(value, maximum, buckets),
        BucketDirection::Up => spec_bucket_up(value, maximum, buckets),
    }
}

/// Quantize `value` (an exact fraction in `[0, maximum]`) onto `buckets`
/// discrete steps, snapping toward zero or toward `maximum`.
///
/// A bucket count of zero returns the value unchanged, which is the
/// documented smooth default.
pub fn bucket(value: Ratio, maximum: u64, buckets: u32, direction: BucketDirection) -> (r: Ratio)
    requires
        value.wf(),
        value.spec_at_most(maximum as int),
        buckets > 0 ==> maximum >= 1,
        (maximum as int) * (buckets as int) <= u64::MAX as int,
        (maximum as int) * (value.den as int) <= u64::MAX as int,
    ensures
        r == spec_bucket(value, maximum, buckets, direction),
        r.wf(),
        r.spec_at_most(maximum as int),
        buckets == 0 ==> r == value,
{
    match direction {
        BucketDirection::Down => bucket_down(value, maximum, buckets),
        BucketDirection::Up => bucket_up(value, maximum, buckets),
    }
}

fn bucket_down(value: Ratio, maximum: u64, buckets: u32) -> (r: Ratio)
    requires
        value.wf(),
        value.spec_at_most(maximum as int),
        buckets > 0 ==> maximum >= 1,
        (maximum as int) * (buckets as int) <= u64::MAX as int,
    ensures
        r == spec_bucket_down(value, maximum, buckets),
        r.wf(),
        r.spec_at_most(maximum as int),
{
    if buckets == 0 {
        return value;
    }

    proof {
        assert((value.num as int) * (buckets as int) < 0x1_0000_0000_0000_0000_0000_0000
            && (value.den as int) * (maximum as int) < 0x1_0000_0000_0000_0000_0000_0000_0000_0000
            && (value.den as int) * (maximum as int) >= 1) by (nonlinear_arith)
            requires
                value.num <= u64::MAX,
                buckets <= u32::MAX,
                value.den <= u64::MAX,
                maximum <= u64::MAX,
                value.den >= 1,
                maximum >= 1,
        ;
    }
    let numerator: u128 = (value.num as u128) * (buckets as u128);
    let denominator: u128 = (value.den as u128) * (maximum as u128);
    let k: u128 = numerator / denominator;

    proof {
        lemma_bucket_index_bound(
            value.num as int,
            value.den as int,
            maximum as int,
            buckets as int,
        );
    }

    Ratio { num: (k as u64) * maximum, den: buckets as u64 }
}

fn bucket_up(value: Ratio, maximum: u64, buckets: u32) -> (r: Ratio)
    requires
        value.wf(),
        value.spec_at_most(maximum as int),
        buckets > 0 ==> maximum >= 1,
        (maximum as int) * (buckets as int) <= u64::MAX as int,
        (maximum as int) * (value.den as int) <= u64::MAX as int,
    ensures
        r == spec_bucket_up(value, maximum, buckets),
        r.wf(),
        r.spec_at_most(maximum as int),
{
    if buckets == 0 {
        return value;
    }

    let mirrored = Ratio { num: maximum * value.den - value.num, den: value.den };
    proof {
        vstd::arithmetic::mul::lemma_mul_inequality(
            mirrored.num as int,
            (maximum as int) * (value.den as int),
            buckets as int,
        );
    }
    let down = bucket_down(mirrored, maximum, buckets);
    Ratio { num: maximum * (buckets as u64) - down.num, den: buckets as u64 }
}

/// `floor(value * buckets / maximum) <= buckets` whenever `value <= maximum`.
proof fn lemma_bucket_index_bound(num: int, den: int, maximum: int, buckets: int)
    requires
        den >= 1,
        maximum >= 1,
        buckets >= 1,
        num >= 0,
        num <= maximum * den,
    ensures
        (num * buckets) / (den * maximum) <= buckets,
        (num * buckets) / (den * maximum) >= 0,
        ((num * buckets) / (den * maximum)) * maximum <= maximum * buckets,
{
    let d = den * maximum;
    assert(d >= 1 && num * buckets >= 0 && num * buckets <= d * buckets && d * buckets == (buckets
        * d)) by (nonlinear_arith)
        requires
            den >= 1,
            maximum >= 1,
            buckets >= 1,
            num >= 0,
            num <= maximum * den,
            d == den * maximum,
    ;
    vstd::arithmetic::div_mod::lemma_div_is_ordered(num * buckets, d * buckets, d);
    vstd::arithmetic::div_mod::lemma_div_multiples_vanish(buckets, d);
    vstd::arithmetic::div_mod::lemma_div_pos_is_pos(num * buckets, d);
    let k = (num * buckets) / d;
    assert(k * maximum <= maximum * buckets) by (nonlinear_arith)
        requires
            0 <= k,
            k <= buckets,
            maximum >= 1,
    ;
}

/// Law: for every value, maximum and bucket count, quantizing toward the
/// maximum equals the mirror image, around the maximum, of quantizing the
/// mirrored value toward zero.
pub proof fn lemma_bucket_up_down_mirror(value: Ratio, maximum: u64, buckets: u32)
    requires
        value.wf(),
        value.spec_at_most(maximum as int),
        (maximum as int) * (value.den as int) <= u64::MAX as int,
    ensures
        spec_bucket(value, maximum, buckets, BucketDirection::Up) == spec_ratio_complement(
            maximum,
            spec_bucket(
                spec_ratio_complement(maximum, value),
                maximum,
                buckets,
                BucketDirection::Down,
            ),
        ),
{
    if buckets == 0 {
        assert(spec_ratio_complement(maximum, spec_ratio_complement(maximum, value)) == value);
    }
}

/// Law: a bucket count of zero is the identity, in either direction.
pub proof fn lemma_bucket_zero_passthrough(value: Ratio, maximum: u64, direction: BucketDirection)
    requires
        value.wf(),
        value.spec_at_most(maximum as int),
        (maximum as int) * (value.den as int) <= u64::MAX as int,
    ensures
        spec_bucket(value, maximum, 0, direction) == value,
{
}

} // verus!
