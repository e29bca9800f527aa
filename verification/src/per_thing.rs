//! Fixed-point fractions of `sp_arithmetic` (`Perbill`, `Perquintill`), held as their parts.

use vstd::prelude::*;

verus! {

/// Parts in one whole `Perbill`.
pub const PERBILL_ACCURACY: u32 = 1_000_000_000;

/// Parts in one whole `Perquintill`.
pub const PERQUINTILL_ACCURACY: u64 = 1_000_000_000_000_000_000;

/// The parts of `Perquintill::from_rational(p, q)`: `p / q` rounded down, and one whole
/// where the fraction is undefined (`q == 0`) or above one (`p > q`).
pub open spec fn perquintill_from_rational_spec(p: int, q: int) -> u64 {
    if q == 0 || p > q {
        PERQUINTILL_ACCURACY
    } else {
        ((PERQUINTILL_ACCURACY as int) * p / q) as u64
    }
}

/// `perbill * x` for a balance `x`: the exact product `x * parts / 10^9`, rounded to the
/// nearest integer, halves rounded down.
pub open spec fn perbill_mul_spec(parts: u32, x: u128) -> int {
    let prod = (x as int) * (parts as int);
    prod / (PERBILL_ACCURACY as int) + if prod % (PERBILL_ACCURACY as int) > (PERBILL_ACCURACY
        as int) / 2 {
        1int
    } else {
        0int
    }
}

/// Calls `sp_arithmetic::Perquintill::from_rational(p, q)` and returns its parts: one whole
/// where `q == 0` or `p > q`, otherwise `10^18 * p / q`, computed in full precision and
/// rounded down.
#[verifier::external_body]
pub(crate) fn perquintill_from_rational(p: u128, q: u128) -> (parts: u64)
    ensures
        parts == perquintill_from_rational_spec(p as int, q as int),
{
    sp_arithmetic::Perquintill::from_rational(p, q).deconstruct()
}

/// The parts of `Perbill::from_parts(parts)`, which caps them at one whole.
pub open spec fn perbill_parts(parts: u32) -> u32 {
    if parts > PERBILL_ACCURACY {
        PERBILL_ACCURACY
    } else {
        parts
    }
}

/// Calls `sp_arithmetic::Perbill::from_parts(parts) * x` (the balance multiplication): the
/// parts are capped at one whole, and the product is `x * parts / 10^9` rounded to the
/// nearest integer, an exact half rounded down.
#[verifier::external_body]
pub(crate) fn perbill_mul(parts: u32, x: u128) -> (r: u128)
    ensures
        r == perbill_mul_spec(perbill_parts(parts), x),
{
    sp_arithmetic::Perbill::from_parts(parts) * x
}

/// A `Perbill` never scales a balance up: `perbill * x <= x`.
pub proof fn lemma_perbill_mul_le(parts: u32, x: u128)
    requires
        parts <= PERBILL_ACCURACY,
    ensures
        0 <= perbill_mul_spec(parts, x) <= x,
{
    let b = PERBILL_ACCURACY as int;
    let prod = (x as int) * (parts as int);
    assert(0 <= prod <= (x as int) * b) by (nonlinear_arith)
        requires
            0 <= parts <= b,
            x >= 0,
            prod == (x as int) * (parts as int),
    ;
    assert(prod / b * b + prod % b == prod) by (nonlinear_arith)
        requires
            b > 0,
    ;
    if prod % b > b / 2 {
        // then prod is not a multiple of b, so prod / b < x
        assert(prod / b < x) by (nonlinear_arith)
            requires
                b > 0,
                prod <= (x as int) * b,
                prod % b > 0,
                prod / b * b + prod % b == prod,
        ;
    } else {
        assert(prod / b <= x) by (nonlinear_arith)
            requires
                b > 0,
                0 <= prod <= (x as int) * b,
                prod % b >= 0,
                prod / b * b + prod % b == prod,
        ;
    }
}

/// Rounding half down to the nearest integer is a shift and a floor: `perbill * x` is
/// `(x * parts + 10^9 / 2 - 1) / 10^9`.
pub(crate) proof fn lemma_perbill_mul_shifted(parts: u32, x: u128)
    ensures
        perbill_mul_spec(parts, x) == ((x as int) * (parts as int) + 499_999_999) / (
        PERBILL_ACCURACY as int),
{
    let b = PERBILL_ACCURACY as int;
    let prod = (x as int) * (parts as int);
    assert(prod >= 0) by (nonlinear_arith)
        requires
            prod == (x as int) * (parts as int),
    ;
    let q = prod / b;
    let r = prod % b;
    vstd::arithmetic::div_mod::lemma_fundamental_div_mod(prod, b);
    vstd::arithmetic::div_mod::lemma_mod_pos_bound(prod, b);
    if r > b / 2 {
        assert(prod + 499_999_999 == b * (q + 1) + (r + 499_999_999 - b));
        vstd::arithmetic::div_mod::lemma_div_multiples_vanish_fancy(q + 1, r + 499_999_999 - b, b);
    } else {
        assert(prod + 499_999_999 == b * q + (r + 499_999_999));
        vstd::arithmetic::div_mod::lemma_div_multiples_vanish_fancy(q, r + 499_999_999, b);
    }
}

/// `perbill * x` grows with `x`.
pub proof fn lemma_perbill_mul_monotone(parts: u32, x: u128, y: u128)
    requires
        x <= y,
    ensures
        perbill_mul_spec(parts, x) <= perbill_mul_spec(parts, y),
{
    lemma_perbill_mul_shifted(parts, x);
    lemma_perbill_mul_shifted(parts, y);
    assert((x as int) * (parts as int) <= (y as int) * (parts as int)) by (nonlinear_arith)
        requires
            x <= y,
            parts >= 0,
    ;
    vstd::arithmetic::div_mod::lemma_div_is_ordered(
        (x as int) * (parts as int) + 499_999_999,
        (y as int) * (parts as int) + 499_999_999,
        PERBILL_ACCURACY as int,
    );
}

/// `Perquintill::from_rational(p, q)` is never more than one whole, and where `p / q` is a
/// fraction of at most one it is `10^18 * p / q` rounded down, with no truncation to `u64`.
pub proof fn lemma_perquintill_from_rational_le_one(p: int, q: int)
    requires
        0 <= p,
    ensures
        perquintill_from_rational_spec(p, q) <= PERQUINTILL_ACCURACY,
        0 < q && p <= q ==> perquintill_from_rational_spec(p, q) as int == (
        PERQUINTILL_ACCURACY as int) * p / q,
{
    if !(q == 0 || p > q) {
        let a = PERQUINTILL_ACCURACY as int;
        assert(0 <= a * p / q <= a) by (nonlinear_arith)
            requires
                a > 0,
                q > 0,
                0 <= p <= q,
        {
            assert(a * p <= a * q);
            vstd::arithmetic::div_mod::lemma_div_is_ordered(a * p, a * q, q);
            vstd::arithmetic::div_mod::lemma_div_by_multiple(a, q);
            vstd::arithmetic::div_mod::lemma_div_is_ordered(0, a * p, q);
        }
    }
}

} // verus!
