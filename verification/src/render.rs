//! The pipeline: resolve bounds once, then map every value, in input order.

use vstd::prelude::*;

use crate::error::Error;
use crate::glyph::glyph_char;
use crate::graph::map_spec;
use crate::graph::map_to_glyph;
use crate::graph::MapMode;
use crate::range::resolve_bounds;
use crate::range::resolve_spec;
use crate::range::ScalingMode;
use crate::value::Value;

verus! {

/// The characters that mapping every value of `vals` under `m` yields, in
/// input order; or the error of the earliest value that fails.
pub open spec fn glyphs_spec(vals: Seq<Value>, m: MapMode) -> Result<Seq<char>, Error>
    decreases vals.len(),
{
    if vals.len() == 0 {
        Ok(Seq::empty())
    } else {
        match glyphs_spec(vals.drop_last(), m) {
            Err(e) => Err(e),
            Ok(rest) => match map_spec(vals.last(), m) {
                Err(e) => Err(e),
                Ok(g) => Ok(rest.push(glyph_char(g.level as int))),
            },
        }
    }
}

/// Once some prefix of the input fails to map, the whole sequence fails with
/// that same (earliest) error.
proof fn lemma_glyphs_err_prefix(s: Seq<Value>, m: MapMode, j: int, e: Error)
    requires
        0 <= j <= s.len(),
        glyphs_spec(s.take(j), m) == Err::<Seq<char>, Error>(e),
    ensures
        glyphs_spec(s, m) == Err::<Seq<char>, Error>(e),
    decreases s.len(),
{
    if j < s.len() {
        assert(s.drop_last().take(j) =~= s.take(j));
        lemma_glyphs_err_prefix(s.drop_last(), m, j, e);
    } else {
        assert(s.take(j) =~= s);
    }
}

/// Maps every value under one mode, in input order, stopping at the first
/// failure.
pub fn map_all(values: &Vec<Value>, mode: &MapMode) -> (r: Result<Vec<char>, Error>)
    requires
        forall|i: int| 0 <= i < values@.len() ==> (#[trigger] values@[i]).wf(),
        mode.wf(),
    ensures
        (match r {
            Ok(cs) => glyphs_spec(values@, *mode) == Ok::<Seq<char>, Error>(cs@),
            Err(e) => glyphs_spec(values@, *mode) == Err::<Seq<char>, Error>(e),
        }),
{
    let mut out: Vec<char> = Vec::new();
    let mut i: usize = 0;
    while i < values.len()
        invariant
            0 <= i <= values@.len(),
            forall|j: int| 0 <= j < values@.len() ==> (#[trigger] values@[j]).wf(),
            mode.wf(),
            glyphs_spec(values@.take(i as int), *mode) == Ok::<Seq<char>, Error>(out@),
        decreases values@.len() - i,
    {
        proof {
            assert(values@.take(i + 1 as int).drop_last() =~= values@.take(i as int));
            assert(values@.take(i + 1 as int).last() == values@[i as int]);
        }
        match map_to_glyph(&values[i], mode) {
            Ok(g) => {
                out.push(g.as_char());
            },
            Err(e) => {
                proof {
                    lemma_glyphs_err_prefix(values@, *mode, i + 1 as int, e);
                }
                return Err(e);
            },
        }
        i = i + 1;
    }
    proof {
        assert(values@.take(values@.len() as int) =~= values@);
    }
    Ok(out)
}

/// What `render` returns: the bounds resolution, then every value mapped
/// against the resolved bounds, in input order.
pub open spec fn render_spec(vals: Seq<Value>, m: ScalingMode) -> Result<Seq<char>, Error> {
    match resolve_spec(vals, m) {
        Err(e) => Err(e),
        Ok(b) => glyphs_spec(vals, MapMode::Scaled(b)),
    }
}

/// Renders a whole sequence: resolves the bounds under the given scaling
/// mode, normalises every value against them, and hands back the glyph
/// characters in input order, or the earliest failure.
pub fn render(values: &Vec<Value>, mode: &ScalingMode) -> (r: Result<Vec<char>, Error>)
    requires
        forall|i: int| 0 <= i < values@.len() ==> (#[trigger] values@[i]).wf(),
        mode.wf(),
    ensures
        (match r {
            Ok(cs) => render_spec(values@, *mode) == Ok::<Seq<char>, Error>(cs@),
            Err(e) => render_spec(values@, *mode) == Err::<Seq<char>, Error>(e),
        }),
{
    match resolve_bounds(values, mode) {
        Err(e) => Err(e),
        Ok(b) => map_all(values, &MapMode::Scaled(b)),
    }
}

/// A sequence whose every value maps successfully renders successfully.
proof fn lemma_glyphs_all_ok(s: Seq<Value>, m: MapMode)
    requires
        forall|i: int| 0 <= i < s.len() ==> map_spec(#[trigger] s[i], m) is Ok,
    ensures
        glyphs_spec(s, m) is Ok,
    decreases s.len(),
{
    if s.len() > 0 {
        assert forall|i: int| 0 <= i < s.drop_last().len() implies map_spec(
            #[trigger] s.drop_last()[i],
            m,
        ) is Ok by {
            assert(s.drop_last()[i] == s[i]);
        }
        lemma_glyphs_all_ok(s.drop_last(), m);
        assert(s.last() == s[s.len() - 1]);
    }
}

/// Auto mode with two or more values never fails end to end: the bounds are
/// the observed minimum and maximum, so every value lies between them and
/// every fraction lies in the unit interval.
pub proof fn lemma_auto_render_succeeds(vals: Seq<Value>)
    requires
        vals.len() >= 2,
    ensures
        render_spec(vals, ScalingMode::Auto) is Ok,
{
    crate::range::lemma_min_max_of(vals);
    let b = crate::range::Bounds { min: crate::range::min_of(vals), max: crate::range::max_of(vals) };
    assert forall|i: int| 0 <= i < vals.len() implies map_spec(
        #[trigger] vals[i],
        MapMode::Scaled(b),
    ) is Ok by {
        crate::graph::lemma_scaled_within_bounds(vals[i], b);
    }
    lemma_glyphs_all_ok(vals, MapMode::Scaled(b));
}

/// Renders a whole sequence in strict mode: every value is checked against
/// the closed unit interval directly, with no prior scaling.
pub fn render_strict(values: &Vec<Value>) -> (r: Result<Vec<char>, Error>)
    requires
        forall|i: int| 0 <= i < values@.len() ==> (#[trigger] values@[i]).wf(),
    ensures
        (match r {
            Ok(cs) => glyphs_spec(values@, MapMode::Strict) == Ok::<Seq<char>, Error>(cs@),
            Err(e) => glyphs_spec(values@, MapMode::Strict) == Err::<Seq<char>, Error>(e),
        }),
{
    map_all(values, &MapMode::Strict)
}

} // verus!
