//! Integer trigonometry in thousandths. The renderers place points on
//! circles and waves; to keep the output bit-exact on every platform they use
//! a rational approximation of the sine over whole degrees instead of any
//! platform's floating-point library.

use vstd::prelude::*;
use vstd::arithmetic::div_mod::lemma_div_pos_is_pos;
use vstd::arithmetic::div_mod::lemma_div_is_ordered;
use vstd::arithmetic::div_mod::lemma_div_multiples_vanish;

verus! {

/// The sine of `d` degrees, for `0 <= d <= 180`, scaled by 1000: the
/// rational approximation `4000 d (180 - d) / (40500 - d (180 - d))`,
/// exact at 0, 30, 90, 150 and 180 degrees.
pub open spec fn sine_arch(d: int) -> int
    recommends
        0 <= d <= 180,
{
    (4000 * (d * (180 - d))) / (40500 - d * (180 - d))
}

/// The sine of `d` degrees scaled by 1000, for `0 <= d < 360`.
pub open spec fn spec_sin_milli(d: int) -> int
    recommends
        0 <= d < 360,
{
    if d <= 180 {
        sine_arch(d)
    } else {
        -sine_arch(d - 180)
    }
}

/// The cosine of `d` degrees scaled by 1000, for `0 <= d < 360`.
pub open spec fn spec_cos_milli(d: int) -> int
    recommends
        0 <= d < 360,
{
    spec_sin_milli((d + 90) % 360)
}

/// The half-wave approximation stays within `0..=1000`.
pub proof fn lemma_sine_arch_bounds(d: int)
    requires
        0 <= d <= 180,
    ensures
        0 <= sine_arch(d) <= 1000,
{
    assert(0 <= d * (180 - d) <= 8100) by (nonlinear_arith)
        requires
            0 <= d <= 180,
    ;
    let t = d * (180 - d);
    let den = 40500 - t;
    let num = 4000 * t;
    lemma_div_pos_is_pos(num, den);
    lemma_div_is_ordered(num, 1000 * den, den);
    lemma_div_multiples_vanish(1000, den);
    assert(den * 1000 == 1000 * den);
    assert(sine_arch(d) <= 1000);
}

/// The scaled sine stays within `-1000..=1000`.
pub proof fn lemma_sin_milli_bounds(d: int)
    requires
        0 <= d < 360,
    ensures
        -1000 <= spec_sin_milli(d) <= 1000,
{
    if d <= 180 {
        lemma_sine_arch_bounds(d);
    } else {
        lemma_sine_arch_bounds(d - 180);
    }
}

/// The scaled cosine stays within `-1000..=1000`.
pub proof fn lemma_cos_milli_bounds(d: int)
    requires
        0 <= d < 360,
    ensures
        -1000 <= spec_cos_milli(d) <= 1000,
{
    lemma_sin_milli_bounds((d + 90) % 360);
}

fn sine_arch_exec(d: u64) -> (r: i64)
    requires
        d <= 180,
    ensures
        r == sine_arch(d as int),
        0 <= r <= 1000,
{
    proof {
        lemma_sine_arch_bounds(d as int);
        assert(0 <= (d as int) * (180 - d as int) <= 8100) by (nonlinear_arith)
            requires
                0 <= d <= 180,
        ;
    }
    let t: u64 = d * (180 - d);
    let num: u64 = 4000 * t;
    let den: u64 = 40500 - t;
    (num / den) as i64
}

/// The sine of `d` degrees, scaled by 1000.
pub fn sin_milli(d: u64) -> (r: i64)
    requires
        d < 360,
    ensures
        r == spec_sin_milli(d as int),
        -1000 <= r <= 1000,
{
    if d <= 180 {
        sine_arch_exec(d)
    } else {
        let s = sine_arch_exec(d - 180);
        -s
    }
}

/// The cosine of `d` degrees, scaled by 1000.
pub fn cos_milli(d: u64) -> (r: i64)
    requires
        d < 360,
    ensures
        r == spec_cos_milli(d as int),
        -1000 <= r <= 1000,
{
    sin_milli((d + 90) % 360)
}

} // verus!
