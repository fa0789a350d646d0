//! The nine output glyphs: a space, then eight block-height characters.

use vstd::prelude::*;

verus! {

/// The character standing for intensity `level`: a plain space for level 0,
/// and for levels 1 through 8 the block element at code point `0x2580 + level`,
/// each strictly taller than the one before it.
pub open spec fn glyph_char(level: int) -> char {
    if level <= 0 {
        ' '
    } else if level == 1 {
        '\u{2581}'
    } else if level == 2 {
        '\u{2582}'
    } else if level == 3 {
        '\u{2583}'
    } else if level == 4 {
        '\u{2584}'
    } else if level == 5 {
        '\u{2585}'
    } else if level == 6 {
        '\u{2586}'
    } else if level == 7 {
        '\u{2587}'
    } else {
        '\u{2588}'
    }
}

/// One discretised intensity, level 0 (empty) through 8 (full block).
#[derive(Clone, Copy, PartialEq, Eq, Structural, Debug)]
pub struct Glyph {
    /// The intensity level, 0 through 8.
    pub level: u8,
}

impl Glyph {
    /// A glyph is well formed when its level indexes one of the nine symbols.
    pub open spec fn wf(self) -> bool {
        self.level <= 8
    }

    /// The character this glyph renders as.
    pub fn as_char(&self) -> (c: char)
        requires
            self.wf(),
        ensures
            c == glyph_char(self.level as int),
    {
        match self.level {
            0 => ' ',
            1 => '\u{2581}',
            2 => '\u{2582}',
            3 => '\u{2583}',
            4 => '\u{2584}',
            5 => '\u{2585}',
            6 => '\u{2586}',
            7 => '\u{2587}',
            _ => '\u{2588}',
        }
    }
}

/// The glyph set is ordered: for levels 1 through 8 the code point is
/// `0x2580 + level`, so each level's symbol is strictly "taller" than the
/// previous level's.
pub proof fn lemma_glyphs_ascend(level: int)
    requires
        1 <= level <= 8,
    ensures
        glyph_char(level) as int == 0x2580 + level,
        (glyph_char(level - 1) as int) < (glyph_char(level) as int),
{
}

} // verus!
