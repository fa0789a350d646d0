//! Range resolution: turning a sequence of values and a scaling mode into
//! concrete bounds.

use vstd::prelude::*;

use crate::error::Error;
use crate::value::Value;

verus! {

/// The closed interval used to normalise raw values before levelling.
///
/// `resolve_bounds` in auto mode always produces `min <= max`; a fixed range
/// is handed back exactly as given, inverted or not, and an inverted range is
/// dealt with at the glyph-mapping stage.
#[derive(Clone, Copy, PartialEq, Eq, Structural, Debug)]
pub struct Bounds {
    /// Lower end of the interval.
    pub min: Value,
    /// Upper end of the interval.
    pub max: Value,
}

impl Bounds {
    /// Both ends are well-formed values.
    pub open spec fn wf(self) -> bool {
        self.min.wf() && self.max.wf()
    }
}

/// The policy governing how bounds are obtained.
#[derive(Clone, Debug)]
pub enum ScalingMode {
    /// Bounds come from the observed data: the minimum and maximum of the
    /// input sequence, or the unit interval when exactly one value is given.
    Auto,
    /// Caller-supplied bounds: the numeric components parsed from a
    /// `<minimum>,<maximum>` range specification. Exactly two components are
    /// required; any other count is a malformed specification.
    Fixed(Vec<Value>),
}

impl ScalingMode {
    /// Every carried component is a well-formed value.
    pub open spec fn wf(self) -> bool {
        match self {
            ScalingMode::Auto => true,
            ScalingMode::Fixed(comps) => forall|i: int|
                0 <= i < comps@.len() ==> (#[trigger] comps@[i]).wf(),
        }
    }
}

/// The element of `s` with the smallest unit count (the earliest such
/// element, on ties).
pub open spec fn min_of(s: Seq<Value>) -> Value
    decreases s.len(),
{
    if s.len() <= 1 {
        s[0]
    } else {
        let m = min_of(s.drop_last());
        if s.last().units() < m.units() {
            s.last()
        } else {
            m
        }
    }
}

/// The element of `s` with the largest unit count (the earliest such
/// element, on ties).
pub open spec fn max_of(s: Seq<Value>) -> Value
    decreases s.len(),
{
    if s.len() <= 1 {
        s[0]
    } else {
        let m = max_of(s.drop_last());
        if s.last().units() > m.units() {
            s.last()
        } else {
            m
        }
    }
}

/// What `resolve_bounds` returns, stated over the mathematical model.
pub open spec fn resolve_spec(vals: Seq<Value>, m: ScalingMode) -> Result<Bounds, Error> {
    match m {
        ScalingMode::Fixed(comps) => if comps@.len() == 2 {
            Ok(Bounds { min: comps@[0], max: comps@[1] })
        } else {
            Err(Error::InvalidRange)
        },
        ScalingMode::Auto => if vals.len() == 0 {
            Err(Error::EmptyInput)
        } else if vals.len() == 1 {
            if vals[0].in_unit_interval() {
                Ok(Bounds { min: Value { num: 0, pow: 0 }, max: Value { num: 1, pow: 0 } })
            } else {
                Err(Error::OutOfBounds)
            }
        } else {
            Ok(Bounds { min: min_of(vals), max: max_of(vals) })
        },
    }
}

/// The minimum of a non-empty sequence is one of its elements and is no
/// larger than any of them; symmetrically for the maximum. In particular the
/// resolved bounds of auto mode satisfy `min <= max`.
pub proof fn lemma_min_max_of(s: Seq<Value>)
    requires
        s.len() >= 1,
    ensures
        exists|i: int| 0 <= i < s.len() && min_of(s) == s[i],
        exists|i: int| 0 <= i < s.len() && max_of(s) == s[i],
        forall|i: int| 0 <= i < s.len() ==> min_of(s).units() <= (#[trigger] s[i]).units(),
        forall|i: int| 0 <= i < s.len() ==> max_of(s).units() >= (#[trigger] s[i]).units(),
        min_of(s).units() <= max_of(s).units(),
    decreases s.len(),
{
    if s.len() == 1 {
        assert(min_of(s) == s[0]);
        assert(max_of(s) == s[0]);
    } else {
        lemma_min_max_of(s.drop_last());
        assert forall|i: int| 0 <= i < s.len() implies min_of(s).units() <= (#[trigger] s[i]).units() by {
            if i < s.len() - 1 {
                assert(s.drop_last()[i] == s[i]);
            }
        }
        assert forall|i: int| 0 <= i < s.len() implies max_of(s).units() >= (#[trigger] s[i]).units() by {
            if i < s.len() - 1 {
                assert(s.drop_last()[i] == s[i]);
            }
        }
        let j = choose|j: int| 0 <= j < s.drop_last().len() && min_of(s.drop_last()) == s.drop_last()[j];
        assert(s.drop_last()[j] == s[j]);
        if s.last().units() < min_of(s.drop_last()).units() {
            assert(min_of(s) == s[s.len() - 1]);
        } else {
            assert(min_of(s) == s[j]);
        }
        let k = choose|k: int| 0 <= k < s.drop_last().len() && max_of(s.drop_last()) == s.drop_last()[k];
        assert(s.drop_last()[k] == s[k]);
        if s.last().units() > max_of(s.drop_last()).units() {
            assert(max_of(s) == s[s.len() - 1]);
        } else {
            assert(max_of(s) == s[k]);
        }
    }
}

/// Turns a sequence of values plus a scaling mode into concrete bounds.
///
/// A fixed range is returned exactly as supplied once it has exactly two
/// components, and is otherwise a malformed specification. Auto mode errs on
/// an empty sequence, treats a single value as already normalised (it must
/// lie in the unit interval, which then serves as the bounds), and otherwise
/// takes the observed minimum and maximum.
pub fn resolve_bounds(values: &Vec<Value>, mode: &ScalingMode) -> (r: Result<Bounds, Error>)
    requires
        forall|i: int| 0 <= i < values@.len() ==> (#[trigger] values@[i]).wf(),
        mode.wf(),
    ensures
        r == resolve_spec(values@, *mode),
        (r matches Ok(b) ==> b.wf()),
{
    match mode {
        ScalingMode::Fixed(comps) => {
            if comps.len() == 2 {
                Ok(Bounds { min: comps[0], max: comps[1] })
            } else {
                Err(Error::InvalidRange)
            }
        },
        ScalingMode::Auto => {
            if values.len() == 0 {
                Err(Error::EmptyInput)
            } else if values.len() == 1 {
                let u: i128 = crate::value::units_exec(&values[0]);
                if 0 <= u && u <= 1_000_000_000_000_000_000 {
                    Ok(Bounds { min: Value { num: 0, pow: 0 }, max: Value { num: 1, pow: 0 } })
                } else {
                    Err(Error::OutOfBounds)
                }
            } else {
                let mut lo: Value = values[0];
                let mut hi: Value = values[0];
                let mut i: usize = 1;
                while i < values.len()
                    invariant
                        1 <= i <= values@.len(),
                        2 <= values@.len(),
                        forall|j: int| 0 <= j < values@.len() ==> (#[trigger] values@[j]).wf(),
                        lo.wf(),
                        hi.wf(),
                        lo == min_of(values@.take(i as int)),
                        hi == max_of(values@.take(i as int)),
                    decreases values@.len() - i,
                {
                    let cu: i128 = crate::value::units_exec(&values[i]);
                    let lu: i128 = crate::value::units_exec(&lo);
                    let hu: i128 = crate::value::units_exec(&hi);
                    proof {
                        assert(values@.take(i + 1 as int).drop_last() =~= values@.take(i as int));
                        assert(values@.take(i + 1 as int).last() == values@[i as int]);
                    }
                    if cu < lu {
                        lo = values[i];
                    }
                    if cu > hu {
                        hi = values[i];
                    }
                    i = i + 1;
                }
                proof {
                    assert(values@.take(values@.len() as int) =~= values@);
                }
                Ok(Bounds { min: lo, max: hi })
            }
        },
    }
}

} // verus!
