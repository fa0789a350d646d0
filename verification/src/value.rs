//! Exact decimal numbers: the numeric domain of the sparkline core.

use vstd::prelude::*;

verus! {

/// Largest magnitude a `Value` numerator may hold: 10^18.
pub const MAX_UNITS: i64 = 1_000_000_000_000_000_000;

/// Largest admissible decimal exponent: a `Value` carries at most 18
/// fractional digits.
pub const MAX_POW: u8 = 18;

/// An exact decimal number `num / 10^pow`.
///
/// This is the model of a numeric input: any decimal with at most 18
/// fractional digits and magnitude at most 10^18. Keeping numbers exact (a
/// numerator over a power-of-ten denominator) lets every arithmetic step of
/// the core be carried out, and verified, on integers.
#[derive(Clone, Copy, PartialEq, Eq, Structural, Debug)]
pub struct Value {
    /// Numerator, in units of `10^-pow`.
    pub num: i64,
    /// Decimal exponent of the denominator.
    pub pow: u8,
}

/// 10 raised to `e` (1 for `e <= 0`).
pub open spec fn pow10(e: int) -> int
    decreases e,
{
    if e <= 0 {
        1
    } else {
        10 * pow10(e - 1)
    }
}

proof fn lemma_pow10_pos(e: int)
    ensures
        pow10(e) >= 1,
    decreases e,
{
    if e > 0 {
        lemma_pow10_pos(e - 1);
    }
}

proof fn lemma_pow10_mono(a: int, b: int)
    requires
        a <= b,
    ensures
        pow10(a) <= pow10(b),
    decreases b,
{
    if a < b && b > 0 {
        lemma_pow10_mono(a, b - 1);
        lemma_pow10_pos(b - 1);
    }
}

/// For exponents up to 18, `pow10` stays between 1 and 10^18.
pub proof fn lemma_pow10_bounds(e: int)
    requires
        0 <= e <= 18,
    ensures
        1 <= pow10(e) <= 1_000_000_000_000_000_000,
{
    lemma_pow10_pos(e);
    lemma_pow10_mono(e, 18);
    reveal_with_fuel(pow10, 20);
    assert(pow10(18) == 1_000_000_000_000_000_000);
}

/// 10 raised to `e`, as a machine integer.
pub fn pow10_exec(e: u8) -> (r: i128)
    requires
        e <= 18,
    ensures
        r == pow10(e as int),
        1 <= r <= 1_000_000_000_000_000_000,
{
    proof {
        reveal_with_fuel(pow10, 20);
    }
    match e {
        0 => 1,
        1 => 10,
        2 => 100,
        3 => 1_000,
        4 => 10_000,
        5 => 100_000,
        6 => 1_000_000,
        7 => 10_000_000,
        8 => 100_000_000,
        9 => 1_000_000_000,
        10 => 10_000_000_000,
        11 => 100_000_000_000,
        12 => 1_000_000_000_000,
        13 => 10_000_000_000_000,
        14 => 100_000_000_000_000,
        15 => 1_000_000_000_000_000,
        16 => 10_000_000_000_000_000,
        17 => 100_000_000_000_000_000,
        _ => 1_000_000_000_000_000_000,
    }
}

impl Value {
    /// A `Value` is well formed when its exponent and magnitude lie within
    /// the model's domain.
    pub open spec fn wf(self) -> bool {
        self.pow <= MAX_POW && -MAX_UNITS <= self.num <= MAX_UNITS
    }

    /// The number expressed as a whole count of units of the common grid
    /// `10^-18`: `(num / 10^pow) * 10^18`. Two values compare exactly as
    /// their unit counts do.
    pub open spec fn units(self) -> int {
        self.num * pow10(18 - self.pow)
    }

    /// Whether the number lies in the closed unit interval `[0, 1]`; on the
    /// common grid, `1` is 10^18 units.
    pub open spec fn in_unit_interval(self) -> bool {
        0 <= self.units() <= 1_000_000_000_000_000_000
    }
}

/// A well-formed value's unit count lies within 10^36 of zero.
pub proof fn lemma_units_bound(v: Value)
    requires
        v.wf(),
    ensures
        -1_000_000_000_000_000_000_000_000_000_000_000_000 <= v.units()
            <= 1_000_000_000_000_000_000_000_000_000_000_000_000,
{
    lemma_pow10_bounds(18 - v.pow);
    let p = pow10(18 - v.pow);
    assert(-1_000_000_000_000_000_000_000_000_000_000_000_000 <= v.num * p
        <= 1_000_000_000_000_000_000_000_000_000_000_000_000) by (nonlinear_arith)
        requires
            -1_000_000_000_000_000_000 <= v.num <= 1_000_000_000_000_000_000,
            1 <= p <= 1_000_000_000_000_000_000,
    ;
}

/// The number as a count of `10^-18` units, computed on machine integers.
pub fn units_exec(v: &Value) -> (u: i128)
    requires
        v.wf(),
    ensures
        u == v.units(),
        -1_000_000_000_000_000_000_000_000_000_000_000_000 <= u
            <= 1_000_000_000_000_000_000_000_000_000_000_000_000,
{
    proof {
        lemma_units_bound(*v);
    }
    let p: i128 = pow10_exec(MAX_POW - v.pow);
    (v.num as i128) * p
}

} // verus!
