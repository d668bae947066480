//! Sample-rate conversion by linear interpolation.
//!
//! Output sample `i` stands at position `i * source_rate / target_rate` of
//! the input. Its value lies on the line between the input samples to the
//! left and to the right of that position, rounded down to an integer. Past
//! the last input sample the signal keeps its last value. The output has as
//! many samples as `len * target_rate / source_rate` rounded to the nearest
//! integer.

use vstd::prelude::*;
use vstd::arithmetic::div_mod::{
    lemma_fundamental_div_mod, lemma_fundamental_div_mod_converse, lemma_multiply_divide_lt,
};

verus! {

/// `len * target_rate / source_rate`, rounded to the nearest integer, a half
/// upwards.
pub open spec fn resampled_len(len: nat, source_rate: nat, target_rate: nat) -> nat
    recommends
        source_rate > 0,
{
    (2 * len * target_rate + source_rate) / (2 * source_rate)
}

/// The value of output sample `i`: the input at `floor(p)`, plus the fraction
/// `p - floor(p)` of the step to the next input sample, for
/// `p = i * source_rate / target_rate`.
pub open spec fn interpolated(samples: Seq<i16>, source_rate: nat, target_rate: nat, i: int) -> int
    recommends
        target_rate > 0,
{
    let position = i * source_rate;
    let k = position / (target_rate as int);
    let numerator = position % (target_rate as int);
    let left = samples[k] as int;
    let right = if k + 1 < samples.len() {
        samples[k + 1] as int
    } else {
        left
    };
    left + (numerator * (right - left)) / (target_rate as int)
}

/// The signal `samples`, given at `source_rate`, at `target_rate`.
pub open spec fn resampled(samples: Seq<i16>, source_rate: nat, target_rate: nat) -> Seq<i16>
    recommends
        source_rate > 0,
        target_rate > 0,
{
    Seq::new(
        resampled_len(samples.len(), source_rate, target_rate),
        |i: int| interpolated(samples, source_rate, target_rate, i) as i16,
    )
}

/// Every output position lies within the input.
pub proof fn lemma_position_in_range(len: nat, source_rate: nat, target_rate: nat, i: nat)
    requires
        source_rate > 0,
        target_rate > 0,
        i < resampled_len(len, source_rate, target_rate),
    ensures
        i * source_rate < len * target_rate,
        (i * source_rate) / target_rate < len,
{
    let count = resampled_len(len, source_rate, target_rate) as int;
    let total = (2 * len * target_rate + source_rate) as int;
    let d = (2 * source_rate) as int;
    lemma_fundamental_div_mod(total, d);
    assert(d * count <= total);
    assert((i + 1) * d <= count * d) by (nonlinear_arith)
        requires
            i + 1 <= count,
            d > 0,
    ;
    assert((i + 1) * d == 2 * (i * source_rate) + 2 * source_rate) by (nonlinear_arith)
        requires
            d == 2 * source_rate,
    ;
    assert(d * count == count * d) by (nonlinear_arith);
    assert(2 * len * target_rate == 2 * (len * target_rate)) by (nonlinear_arith);
    assert(i * source_rate < len * target_rate);
    assert(len * target_rate == target_rate * len) by (nonlinear_arith);
    lemma_multiply_divide_lt((i * source_rate) as int, target_rate as int, len as int);
}

/// An interpolated value lies between its two neighbours.
pub proof fn lemma_between(left: int, right: int, numerator: int, denominator: int)
    requires
        0 <= numerator < denominator,
    ensures
        left <= right ==> left <= left + (numerator * (right - left)) / denominator <= right,
        right <= left ==> right <= left + (numerator * (right - left)) / denominator <= left,
{
    let product = numerator * (right - left);
    lemma_fundamental_div_mod(product, denominator);
    let q = product / denominator;
    let r = product % denominator;
    assert(product == denominator * q + r);
    assert(0 <= r < denominator);
    if left <= right {
        assert(0 <= product <= denominator * (right - left)) by (nonlinear_arith)
            requires
                0 <= numerator < denominator,
                left <= right,
                product == numerator * (right - left),
        ;
        assert(0 <= q <= right - left) by (nonlinear_arith)
            requires
                product == denominator * q + r,
                0 <= r < denominator,
                0 <= product <= denominator * (right - left),
        ;
    } else {
        assert(denominator * (right - left) <= product <= 0) by (nonlinear_arith)
            requires
                0 <= numerator < denominator,
                right < left,
                product == numerator * (right - left),
        ;
        assert(right - left <= q <= 0) by (nonlinear_arith)
            requires
                product == denominator * q + r,
                0 <= r < denominator,
                denominator * (right - left) <= product <= 0,
        ;
    }
}

/// At an unchanged rate the signal is unchanged.
pub proof fn lemma_resample_identity(samples: Seq<i16>, rate: nat)
    requires
        rate > 0,
    ensures
        resampled(samples, rate, rate) == samples,
{
    let len = samples.len();
    assert(2 * len * rate + rate == len * (2 * rate) + rate) by (nonlinear_arith);
    lemma_fundamental_div_mod_converse(
        (2 * len * rate + rate) as int,
        (2 * rate) as int,
        len as int,
        rate as int,
    );
    assert(resampled_len(len, rate, rate) == len);
    assert forall|i: int| 0 <= i < len implies #[trigger] resampled(samples, rate, rate)[i]
        == samples[i] by {
        assert(i * rate == (rate as int) * i + 0) by (nonlinear_arith);
        lemma_fundamental_div_mod_converse(i * rate, rate as int, i, 0);
    }
    assert(resampled(samples, rate, rate) =~= samples);
}

/// The output has `len * target_rate / source_rate` samples, rounded to the
/// nearest integer: twice the length times the source rate differs from
/// twice the input length times the target rate by no more than the source
/// rate.
pub proof fn lemma_resampled_length(samples: Seq<i16>, source_rate: nat, target_rate: nat)
    requires
        source_rate > 0,
    ensures
        resampled(samples, source_rate, target_rate).len() == resampled_len(
            samples.len(),
            source_rate,
            target_rate,
        ),
        2 * samples.len() * target_rate - source_rate < 2 * source_rate * resampled(
            samples,
            source_rate,
            target_rate,
        ).len() <= 2 * samples.len() * target_rate + source_rate,
{
    let total = (2 * samples.len() * target_rate + source_rate) as int;
    let d = (2 * source_rate) as int;
    lemma_fundamental_div_mod(total, d);
    assert(2 * source_rate * (total / d) == d * (total / d)) by (nonlinear_arith)
        requires
            d == 2 * source_rate,
    ;
}

/// The output is within one sample of the exact ratio: no shorter than
/// `len * target_rate / source_rate` rounded down, and no longer than that
/// plus one.
pub proof fn lemma_resampled_length_near_ratio(len: nat, source_rate: nat, target_rate: nat)
    requires
        source_rate > 0,
    ensures
        (len * target_rate) / source_rate <= resampled_len(len, source_rate, target_rate) <= (len
            * target_rate) / source_rate + 1,
{
    let exact = (len * target_rate) as int;
    let s = source_rate as int;
    let floor = exact / s;
    let count = resampled_len(len, source_rate, target_rate) as int;
    lemma_fundamental_div_mod(exact, s);
    lemma_fundamental_div_mod(2 * exact + s, 2 * s);
    assert(2 * len * target_rate + source_rate == 2 * exact + s) by (nonlinear_arith)
        requires
            exact == len * target_rate,
            s == source_rate,
    ;
    let r = exact % s;
    let r2 = (2 * exact + s) % (2 * s);
    assert(exact == s * floor + r);
    assert(2 * exact + s == (2 * s) * count + r2);
    assert(floor <= count <= floor + 1) by (nonlinear_arith)
        requires
            exact == s * floor + r,
            0 <= r < s,
            2 * exact + s == (2 * s) * count + r2,
            0 <= r2 < 2 * s,
            s > 0,
    ;
}

/// `a / b`, rounded down.
fn floor_div(a: i64, b: i64) -> (r: i64)
    requires
        b > 0,
        b - a <= i64::MAX,
        i64::MIN < a,
    ensures
        r == a / b,
{
    if a >= 0 {
        a / b
    } else {
        let m: i64 = -a;
        let q: i64 = (m + b - 1) / b;
        proof {
            lemma_fundamental_div_mod((m + b - 1) as int, b as int);
            let rem = (m + b - 1) % (b as int);
            assert(m + b - 1 == b * q + rem);
            assert(a == (-q) * b + (b - 1 - rem)) by (nonlinear_arith)
                requires
                    m + b - 1 == b * q + rem,
                    m == -a,
            ;
            lemma_fundamental_div_mod_converse(a as int, b as int, -(q as int), b - 1 - rem);
        }
        -q
    }
}

/// The signal `samples`, given at `source_rate`, at `target_rate`.
pub fn resample_samples(samples: &Vec<i16>, source_rate: u32, target_rate: u32) -> (out: Vec<i16>)
    requires
        source_rate > 0,
        target_rate > 0,
    ensures
        out@ == resampled(samples@, source_rate as nat, target_rate as nat),
{
    let len: u128 = samples.len() as u128;
    let source: u128 = source_rate as u128;
    let target: u128 = target_rate as u128;
    assert(2 * len * target + source <= u128::MAX) by (nonlinear_arith)
        requires
            len <= usize::MAX,
            target <= u32::MAX,
            source <= u32::MAX,
    ;
    let count: u128 = (2 * len * target + source) / (2 * source);
    let mut out: Vec<i16> = Vec::new();
    let mut i: u128 = 0;
    while i < count
        invariant
            source == source_rate,
            target == target_rate,
            source > 0,
            target > 0,
            len == samples@.len(),
            len <= usize::MAX,
            count == resampled_len(samples@.len(), source_rate as nat, target_rate as nat),
            i <= count,
            out@.len() == i,
            forall|j: int|
                0 <= j < i ==> out@[j] == interpolated(
                    samples@,
                    source_rate as nat,
                    target_rate as nat,
                    j,
                ) as i16,
        decreases count - i,
    {
        proof {
            lemma_position_in_range(
                samples@.len(),
                source_rate as nat,
                target_rate as nat,
                i as nat,
            );
            assert(len * target <= u128::MAX) by (nonlinear_arith)
                requires
                    len <= usize::MAX,
                    target <= u32::MAX,
            ;
        }
        let position: u128 = i * source;
        assert(position / target < len);
        let k: usize = (position / target) as usize;
        assert(k < samples@.len());
        let numerator: i64 = (position % target) as i64;
        let left: i64 = samples[k] as i64;
        let right: i64 = if k + 1 < samples.len() {
            samples[k + 1] as i64
        } else {
            left
        };
        assert(-0x1_0000_0000_0000 < numerator * (right - left) < 0x1_0000_0000_0000)
            by (nonlinear_arith)
            requires
                0 <= numerator < 0x1_0000_0000,
                -0x1_0000 < right - left < 0x1_0000,
        ;
        let step: i64 = floor_div(numerator * (right - left), target as i64);
        proof {
            lemma_between(left as int, right as int, numerator as int, target as int);
        }
        let value: i16 = (left + step) as i16;
        out.push(value);
        i = i + 1;
    }
    assert(out@ =~= resampled(samples@, source_rate as nat, target_rate as nat));
    out
}

} // verus!
