//! Sparkline core: scales a sequence of numbers into a closed interval and
//! maps each one to a block-height glyph.
//!
//! Numbers are exact decimals (`value::Value`), so every step — resolving the
//! scaling bounds, normalising a value into the unit interval, rounding to one
//! of the nine levels — is integer arithmetic with a proved contract.

pub mod error;
pub mod glyph;
pub mod graph;
pub mod range;
pub mod render;
pub mod value;
