//! Arithmetic that does not fit the machine's integers: products of two 128-bit numbers.

use vstd::prelude::*;

verus! {

/// Two to the 64th power.
pub open spec fn spec_two_64() -> int {
    0x1_0000_0000_0000_0000
}

/// Two to the 128th power.
pub open spec fn spec_two_128() -> int {
    0x1_0000_0000_0000_0000_0000_0000_0000_0000int
}

proof fn lemma_half_product(x: u128, y: u128)
    requires
        x < spec_two_64(),
        y < spec_two_64(),
    ensures
        x * y <= u128::MAX,
        x * y <= (spec_two_64() - 1) * (spec_two_64() - 1),
{
    assert(x * y <= (spec_two_64() - 1) * (spec_two_64() - 1)) by (nonlinear_arith)
        requires
            0 <= x <= spec_two_64() - 1,
            0 <= y <= spec_two_64() - 1,
    ;
}

/// The product of `a` and `b` in two halves: `high` times two to the 128th, and `low`.
pub fn mul_wide(a: u128, b: u128) -> (product: (u128, u128))
    ensures
        product.0 * spec_two_128() + product.1 == a * b,
{
    let a0: u128 = a % 0x1_0000_0000_0000_0000;
    let a1: u128 = a / 0x1_0000_0000_0000_0000;
    let b0: u128 = b % 0x1_0000_0000_0000_0000;
    let b1: u128 = b / 0x1_0000_0000_0000_0000;
    proof {
        lemma_half_product(a0, b0);
        lemma_half_product(a0, b1);
        lemma_half_product(a1, b0);
        lemma_half_product(a1, b1);
    }
    let p00: u128 = a0 * b0;
    let p01: u128 = a0 * b1;
    let p10: u128 = a1 * b0;
    let p11: u128 = a1 * b1;
    // The two middle products, as a carry and what is left of their sum.
    let (middle, carry_middle): (u128, u128) = if p01 > u128::MAX - p10 {
        (p01 - (u128::MAX - p10) - 1, 1)
    } else {
        (p01 + p10, 0)
    };
    assert(p01 + p10 == carry_middle * spec_two_128() + middle);
    let middle_low: u128 = middle % 0x1_0000_0000_0000_0000;
    let middle_high: u128 = middle / 0x1_0000_0000_0000_0000;
    let shifted: u128 = middle_low * 0x1_0000_0000_0000_0000;
    let (low, carry_low): (u128, u128) = if p00 > u128::MAX - shifted {
        (p00 - (u128::MAX - shifted) - 1, 1)
    } else {
        (p00 + shifted, 0)
    };
    assert(p00 + shifted == carry_low * spec_two_128() + low);
    proof {
        assert(a * b == (a1 * spec_two_64() + a0) * (b1 * spec_two_64() + b0));
        assert((a1 * spec_two_64() + a0) * (b1 * spec_two_64() + b0) == p11 * spec_two_128() + (p01
            + p10) * spec_two_64() + p00) by (nonlinear_arith)
            requires
                p00 == a0 * b0,
                p01 == a0 * b1,
                p10 == a1 * b0,
                p11 == a1 * b1,
                spec_two_128() == spec_two_64() * spec_two_64(),
        ;
        assert((p01 + p10) * spec_two_64() == carry_middle * spec_two_64() * spec_two_128()
            + middle_high * spec_two_128() + shifted) by (nonlinear_arith)
            requires
                p01 + p10 == carry_middle * spec_two_128() + middle,
                middle == middle_high * spec_two_64() + middle_low,
                shifted == middle_low * spec_two_64(),
                spec_two_128() == spec_two_64() * spec_two_64(),
        ;
        assert(a * b == (p11 + carry_middle * spec_two_64() + middle_high + carry_low)
            * spec_two_128() + low) by (nonlinear_arith)
            requires
                a * b == p11 * spec_two_128() + (p01 + p10) * spec_two_64() + p00,
                (p01 + p10) * spec_two_64() == carry_middle * spec_two_64() * spec_two_128()
                    + middle_high * spec_two_128() + shifted,
                p00 + shifted == carry_low * spec_two_128() + low,
        ;
        assert(a * b <= u128::MAX * u128::MAX) by (nonlinear_arith)
            requires
                0 <= a <= u128::MAX,
                0 <= b <= u128::MAX,
        ;
        assert(p11 + carry_middle * spec_two_64() + middle_high + carry_low <= u128::MAX)
            by (nonlinear_arith)
            requires
                a * b == (p11 + carry_middle * spec_two_64() + middle_high + carry_low)
                    * spec_two_128() + low,
                a * b <= u128::MAX * u128::MAX,
                low >= 0,
                u128::MAX == spec_two_128() - 1,
                spec_two_128() > 0,
        ;
    }
    let high: u128 = p11 + carry_middle * 0x1_0000_0000_0000_0000 + middle_high + carry_low;
    (high, low)
}

/// Whether the product of `a` and `b` is no more than the product of `c` and `d`.
pub fn product_le(a: u128, b: u128, c: u128, d: u128) -> (r: bool)
    ensures
        r == (a * b <= c * d),
{
    let (left_high, left_low) = mul_wide(a, b);
    let (right_high, right_low) = mul_wide(c, d);
    if left_high < right_high {
        true
    } else if left_high > right_high {
        false
    } else {
        left_low <= right_low
    }
}

} // verus!
