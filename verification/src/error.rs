//! The error taxonomy of the sparkline core.

use vstd::prelude::*;

verus! {

/// Everything the core can signal instead of producing output.
#[derive(Clone, Copy, PartialEq, Eq, Structural, Debug)]
pub enum Error {
    /// A value fell outside the interval required by the active mode: the
    /// strict unit-interval check, or the post-scaling level check.
    OutOfBounds,
    /// A fixed-range specification did not consist of exactly two numeric
    /// components.
    InvalidRange,
    /// Auto-mode range resolution was attempted with no values at all.
    EmptyInput,
    /// A level outside 0..=8 reached the glyph encoder. The verified mapper
    /// proves its levels in range, so it never produces this; the variant is
    /// kept so callers see the full taxonomy.
    GlyphEncodingFailure,
}

impl Error {
    /// A human-readable description of the failure.
    pub fn message(&self) -> (m: &'static str)
        ensures
            (match self {
                Error::OutOfBounds => m@ == "values must lie between 0 and 1 (inclusive)"@,
                Error::InvalidRange => m@
                    == "a fixed range must be given as exactly two components, <minimum>,<maximum>"@,
                Error::EmptyInput => m@ == "no numeric values were supplied"@,
                Error::GlyphEncodingFailure => m@ == "could not encode the level as a glyph"@,
            }),
    {
        match self {
            Error::OutOfBounds => "values must lie between 0 and 1 (inclusive)",
            Error::InvalidRange => "a fixed range must be given as exactly two components, <minimum>,<maximum>",
            Error::EmptyInput => "no numeric values were supplied",
            Error::GlyphEncodingFailure => "could not encode the level as a glyph",
        }
    }
}

} // verus!
