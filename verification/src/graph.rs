//! Glyph mapping: one numeric value, given a mode, becomes exactly one glyph.

use vstd::prelude::*;
use vstd::arithmetic::div_mod::lemma_div_is_ordered;
use vstd::arithmetic::div_mod::lemma_div_pos_is_pos;
use vstd::arithmetic::div_mod::lemma_fundamental_div_mod_converse;

use crate::error::Error;
use crate::glyph::Glyph;
use crate::range::Bounds;
use crate::value::Value;

verus! {

/// One unit-interval endpoint on the common grid: `1` is 10^18 units.
pub const UNIT_UNITS: i128 = 1_000_000_000_000_000_000;

/// `round(8 * dn / dd)` with halves rounded away from zero, for `dd > 0`.
///
/// For a non-negative fraction `p / q` this rounding is `floor((2p + q) / (2q))`,
/// here with `p = 8 * dn` and `q = dd`; a negative fraction rounds to the
/// negation of its magnitude's rounding.
pub open spec fn level_of(dn: int, dd: int) -> int {
    if dn >= 0 {
        (16 * dn + dd) / (2 * dd)
    } else {
        -((16 * (-dn) + dd) / (2 * dd))
    }
}

/// A fraction inside the closed unit interval always rounds to a level
/// between 0 and 8.
pub proof fn lemma_level_unit(dn: int, dd: int)
    requires
        0 < dd,
        0 <= dn <= dd,
    ensures
        0 <= level_of(dn, dd) <= 8,
{
    lemma_div_pos_is_pos(16 * dn + dd, 2 * dd);
    lemma_div_is_ordered(16 * dn + dd, 17 * dd, 2 * dd);
    lemma_fundamental_div_mod_converse(17 * dd, 2 * dd, 8, dd);
}

/// Rounds `8 * dn / dd` to a level, answering `None` when the result falls
/// outside 0..=8 (which can only happen when `dn / dd` itself lies outside
/// the unit interval).
pub fn level_from_delta(dn: i128, dd: i128) -> (r: Option<u8>)
    requires
        0 < dd <= 2_000_000_000_000_000_000_000_000_000_000_000_000,
        -2_000_000_000_000_000_000_000_000_000_000_000_000 <= dn
            <= 2_000_000_000_000_000_000_000_000_000_000_000_000,
    ensures
        ({
            let l = level_of(dn as int, dd as int);
            match r {
                Some(lev) => 0 <= l <= 8 && lev == l,
                None => l < 0 || l > 8,
            }
        }),
{
    if dn >= 0 {
        let num: u128 = (16 * dn + dd) as u128;
        let den: u128 = (2 * dd) as u128;
        let q: u128 = num / den;
        if q <= 8 {
            Some(q as u8)
        } else {
            None
        }
    } else {
        let num: u128 = (16 * (-dn) + dd) as u128;
        let den: u128 = (2 * dd) as u128;
        let q: u128 = num / den;
        if q == 0 {
            Some(0)
        } else {
            None
        }
    }
}

/// How a single value is to be mapped.
#[derive(Clone, Copy, PartialEq, Eq, Structural, Debug)]
pub enum MapMode {
    /// Exact, unscaled plotting: the raw value is checked against the closed
    /// unit interval and rejected outside it.
    Strict,
    /// Scaled plotting: the value is normalised against the given bounds
    /// first, and only a level outside 0..=8 is rejected.
    Scaled(Bounds),
}

impl MapMode {
    /// Any carried bounds are well formed.
    pub open spec fn wf(self) -> bool {
        match self {
            MapMode::Strict => true,
            MapMode::Scaled(b) => b.wf(),
        }
    }
}

/// The level a strictly-mapped value receives: `round(8 * v)`, half away
/// from zero.
pub open spec fn strict_level(v: Value) -> int {
    level_of(v.units(), UNIT_UNITS as int)
}

/// What `map_to_glyph` returns, stated over the mathematical model.
///
/// Strict mode rejects values outside `[0, 1]` and otherwise rounds
/// `8 * v`. Scaled mode first normalises: with degenerate bounds
/// (`min == max`) every value is deliberately treated as fraction 0 and maps
/// to the space glyph (no division by zero); with inverted bounds the
/// fraction is read against the reversed interval; a level outside 0..=8 is
/// rejected.
pub open spec fn map_spec(v: Value, m: MapMode) -> Result<Glyph, Error> {
    match m {
        MapMode::Strict => if !v.in_unit_interval() {
            Err(Error::OutOfBounds)
        } else {
            Ok(Glyph { level: strict_level(v) as u8 })
        },
        MapMode::Scaled(b) => {
            let span = b.max.units() - b.min.units();
            if span == 0 {
                Ok(Glyph { level: 0 })
            } else {
                let dn = if span > 0 {
                    v.units() - b.min.units()
                } else {
                    b.min.units() - v.units()
                };
                let dd = if span > 0 {
                    span
                } else {
                    -span
                };
                let l = level_of(dn, dd);
                if 0 <= l <= 8 {
                    Ok(Glyph { level: l as u8 })
                } else {
                    Err(Error::OutOfBounds)
                }
            }
        },
    }
}

/// Maps one value, under the given mode, to exactly one glyph or an error.
pub fn map_to_glyph(value: &Value, mode: &MapMode) -> (r: Result<Glyph, Error>)
    requires
        value.wf(),
        mode.wf(),
    ensures
        r == map_spec(*value, *mode),
        (r matches Ok(g) ==> g.wf()),
{
    match mode {
        MapMode::Strict => {
            let u: i128 = crate::value::units_exec(value);
            if u < 0 || u > UNIT_UNITS {
                Err(Error::OutOfBounds)
            } else {
                proof {
                    lemma_level_unit(value.units(), UNIT_UNITS as int);
                }
                match level_from_delta(u, UNIT_UNITS) {
                    Some(l) => Ok(Glyph { level: l }),
                    None => Err(Error::GlyphEncodingFailure),
                }
            }
        },
        MapMode::Scaled(b) => {
            let bu_min: i128 = crate::value::units_exec(&b.min);
            let bu_max: i128 = crate::value::units_exec(&b.max);
            let span: i128 = bu_max - bu_min;
            if span == 0 {
                Ok(Glyph { level: 0 })
            } else {
                let vu: i128 = crate::value::units_exec(value);
                let dn: i128 = if span > 0 {
                    vu - bu_min
                } else {
                    bu_min - vu
                };
                let dd: i128 = if span > 0 {
                    span
                } else {
                    -span
                };
                match level_from_delta(dn, dd) {
                    Some(l) => Ok(Glyph { level: l }),
                    None => Err(Error::OutOfBounds),
                }
            }
        },
    }
}

/// What `graph` returns: the strictly-mapped value, rendered as its
/// character.
pub open spec fn graph_spec(v: Value) -> Result<char, Error> {
    match map_spec(v, MapMode::Strict) {
        Ok(g) => Ok(crate::glyph::glyph_char(g.level as int)),
        Err(e) => Err(e),
    }
}

/// Maps one value against the strict unit interval and renders it as a
/// character: a space for level 0, a block-height character otherwise.
pub fn graph(value: &Value) -> (r: Result<char, Error>)
    requires
        value.wf(),
    ensures
        r == graph_spec(*value),
{
    match map_to_glyph(value, &MapMode::Strict) {
        Ok(g) => Ok(g.as_char()),
        Err(e) => Err(e),
    }
}

/// Every value inside the closed unit interval maps successfully in strict
/// mode, and the returned glyph's level is `round(8 * v)`.
pub proof fn lemma_strict_maps_unit_interval(v: Value)
    requires
        v.wf(),
        v.in_unit_interval(),
    ensures
        0 <= strict_level(v) <= 8,
        (map_spec(v, MapMode::Strict) == Ok::<Glyph, Error>(Glyph { level: strict_level(v) as u8 })),
{
    lemma_level_unit(v.units(), UNIT_UNITS as int);
}

/// Every value outside the closed unit interval fails strict mapping with
/// `OutOfBounds`.
pub proof fn lemma_strict_rejects_outside(v: Value)
    requires
        !v.in_unit_interval(),
    ensures
        map_spec(v, MapMode::Strict) == Err::<Glyph, Error>(Error::OutOfBounds),
{
}

/// Mapping is a pure function of the value and the mode: two results that
/// each meet the mapper's contract for the same inputs are identical.
pub proof fn lemma_map_deterministic(
    v: Value,
    m: MapMode,
    r1: Result<Glyph, Error>,
    r2: Result<Glyph, Error>,
)
    requires
        r1 == map_spec(v, m),
        r2 == map_spec(v, m),
    ensures
        r1 == r2,
{
}

/// A value lying between the bounds always maps successfully under them:
/// with a non-degenerate interval its fraction lies in the unit interval, so
/// its level lies in 0..=8, and with a degenerate interval the documented
/// fallback applies. Scaled mapping can only fail for a value outside the
/// interval.
pub proof fn lemma_scaled_within_bounds(v: Value, b: Bounds)
    requires
        b.min.units() <= v.units() <= b.max.units(),
    ensures
        map_spec(v, MapMode::Scaled(b)) is Ok,
{
    let span = b.max.units() - b.min.units();
    if span != 0 {
        lemma_level_unit(v.units() - b.min.units(), span);
    }
}

/// Degenerate bounds (`min == max`): every value maps, without error and
/// without dividing by zero, to the documented fallback — fraction 0, the
/// space glyph.
pub proof fn lemma_degenerate_bounds_defined(v: Value, b: Bounds)
    requires
        b.min.units() == b.max.units(),
    ensures
        (map_spec(v, MapMode::Scaled(b)) == Ok::<Glyph, Error>(Glyph { level: 0 })),
{
}

} // verus!
