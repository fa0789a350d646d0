use vgraph::error::Error;
use vgraph::glyph::Glyph;
use vgraph::graph::graph;
use vgraph::graph::map_to_glyph;
use vgraph::graph::MapMode;
use vgraph::range::resolve_bounds;
use vgraph::range::Bounds;
use vgraph::range::ScalingMode;
use vgraph::render::render;
use vgraph::render::render_strict;
use vgraph::value::Value;

// ` ▁▂▃▄▅▆▇█`
const BARS: [char; 9] = [
    ' ', '\u{2581}', '\u{2582}', '\u{2583}', '\u{2584}', '\u{2585}', '\u{2586}', '\u{2587}',
    '\u{2588}',
];

fn val(num: i64, pow: u8) -> Value {
    Value { num, pow }
}

#[test]
fn test_graph() {
    assert_eq!(BARS[0], graph(&val(0, 0)).unwrap());
    assert_eq!(BARS[1], graph(&val(125, 3)).unwrap());
    assert_eq!(BARS[2], graph(&val(25, 2)).unwrap());
    assert_eq!(BARS[3], graph(&val(375, 3)).unwrap());
    assert_eq!(BARS[4], graph(&val(5, 1)).unwrap());
    assert_eq!(BARS[5], graph(&val(625, 3)).unwrap());
    assert_eq!(BARS[6], graph(&val(75, 2)).unwrap());
    assert_eq!(BARS[7], graph(&val(875, 3)).unwrap());
    assert_eq!(BARS[8], graph(&val(1, 0)).unwrap());
}

#[test]
fn amount_very_close_to_zero() {
    assert_eq!(BARS[0], graph(&val(14705882352941176, 18)).unwrap());
}

#[test]
fn amount_very_close_to_one() {
    assert_eq!(BARS[8], graph(&val(985294117647058824, 18)).unwrap());
}

#[test]
#[should_panic]
fn amount_below_allowed_range() {
    graph(&val(-1, 0)).unwrap();
}

#[test]
#[should_panic]
fn amount_above_allowed_range() {
    graph(&val(2, 0)).unwrap();
}

#[test]
fn strict_level_boundaries() {
    // round(8 * 1/16) = 1 (half rounds away from zero), round(8 * 0.9) = 7
    assert_eq!(
        map_to_glyph(&val(625, 4), &MapMode::Strict),
        Ok(Glyph { level: 1 })
    );
    assert_eq!(
        map_to_glyph(&val(9, 1), &MapMode::Strict),
        Ok(Glyph { level: 7 })
    );
}

#[test]
fn strict_rejects_outside_unit_interval() {
    assert_eq!(
        map_to_glyph(&val(11, 1), &MapMode::Strict),
        Err(Error::OutOfBounds)
    );
    assert_eq!(
        map_to_glyph(&val(-1, 18), &MapMode::Strict),
        Err(Error::OutOfBounds)
    );
}

#[test]
fn auto_single_out_of_bounds() {
    let r = resolve_bounds(&vec![val(3, 0)], &ScalingMode::Auto);
    assert_eq!(r, Err(Error::OutOfBounds));
}

#[test]
fn auto_single_in_unit_interval() {
    let r = resolve_bounds(&vec![val(4, 1)], &ScalingMode::Auto);
    assert_eq!(
        r,
        Ok(Bounds {
            min: val(0, 0),
            max: val(1, 0)
        })
    );
}

#[test]
fn auto_multi_observed_min_max() {
    let r = resolve_bounds(&vec![val(1, 0), val(2, 0), val(3, 0)], &ScalingMode::Auto);
    assert_eq!(
        r,
        Ok(Bounds {
            min: val(1, 0),
            max: val(3, 0)
        })
    );
}

#[test]
fn auto_empty_input() {
    let r = resolve_bounds(&vec![], &ScalingMode::Auto);
    assert_eq!(r, Err(Error::EmptyInput));
}

#[test]
fn fixed_returned_unchanged() {
    let vals = vec![val(5, 1)];
    let r = resolve_bounds(&vals, &ScalingMode::Fixed(vec![val(0, 0), val(2, 0)]));
    assert_eq!(
        r,
        Ok(Bounds {
            min: val(0, 0),
            max: val(2, 0)
        })
    );
    // an inverted range is handed back as given; the mapping stage deals with it
    let inv = resolve_bounds(&vals, &ScalingMode::Fixed(vec![val(9, 0), val(1, 0)]));
    assert_eq!(
        inv,
        Ok(Bounds {
            min: val(9, 0),
            max: val(1, 0)
        })
    );
}

#[test]
fn fixed_malformed_components() {
    let vals = vec![val(5, 1)];
    let one = resolve_bounds(&vals, &ScalingMode::Fixed(vec![val(0, 0)]));
    assert_eq!(one, Err(Error::InvalidRange));
    let none = resolve_bounds(&vals, &ScalingMode::Fixed(vec![]));
    assert_eq!(none, Err(Error::InvalidRange));
    let three = resolve_bounds(
        &vals,
        &ScalingMode::Fixed(vec![val(0, 0), val(1, 0), val(2, 0)]),
    );
    assert_eq!(three, Err(Error::InvalidRange));
}

#[test]
fn pipeline_one_two_three() {
    // values [1, 2, 3], auto mode: bounds (1, 3), fractions [0, 1/2, 1],
    // glyphs [space, level 4, level 8]
    let r = render(&vec![val(1, 0), val(2, 0), val(3, 0)], &ScalingMode::Auto);
    assert_eq!(r, Ok(vec![BARS[0], BARS[4], BARS[8]]));
}

#[test]
fn scaled_mapping_with_explicit_bounds() {
    let b = Bounds {
        min: val(0, 0),
        max: val(2, 0),
    };
    assert_eq!(
        map_to_glyph(&val(1, 0), &MapMode::Scaled(b)),
        Ok(Glyph { level: 4 })
    );
    assert_eq!(
        map_to_glyph(&val(2, 0), &MapMode::Scaled(b)),
        Ok(Glyph { level: 8 })
    );
    // far outside the interval the level leaves 0..=8
    assert_eq!(
        map_to_glyph(&val(5, 0), &MapMode::Scaled(b)),
        Err(Error::OutOfBounds)
    );
}

#[test]
fn mapping_is_deterministic() {
    let b = Bounds {
        min: val(1, 0),
        max: val(3, 0),
    };
    let first = map_to_glyph(&val(2, 0), &MapMode::Scaled(b));
    let second = map_to_glyph(&val(2, 0), &MapMode::Scaled(b));
    assert_eq!(first, second);
    let strict_first = graph(&val(5, 1));
    let strict_second = graph(&val(5, 1));
    assert_eq!(strict_first, strict_second);
}

#[test]
fn degenerate_range_all_identical() {
    // min == max == 5: no division by zero; every element gets the
    // documented fallback, fraction 0, the space glyph
    let r = render(&vec![val(5, 0), val(5, 0), val(5, 0)], &ScalingMode::Auto);
    assert_eq!(r, Ok(vec![' ', ' ', ' ']));
    let b = Bounds {
        min: val(5, 0),
        max: val(5, 0),
    };
    assert_eq!(
        map_to_glyph(&val(7, 0), &MapMode::Scaled(b)),
        Ok(Glyph { level: 0 })
    );
}

#[test]
fn strict_rendering_of_a_sequence() {
    let r = render_strict(&vec![val(0, 0), val(5, 1), val(1, 0)]);
    assert_eq!(r, Ok(vec![BARS[0], BARS[4], BARS[8]]));
    let bad = render_strict(&vec![val(0, 0), val(2, 0)]);
    assert_eq!(bad, Err(Error::OutOfBounds));
}

#[test]
fn largest_magnitude_values() {
    let big = val(1_000_000_000_000_000_000, 0);
    let r = render(&vec![val(0, 0), big], &ScalingMode::Auto);
    assert_eq!(r, Ok(vec![BARS[0], BARS[8]]));
}

#[test]
fn error_messages() {
    assert_eq!(
        Error::OutOfBounds.message(),
        "values must lie between 0 and 1 (inclusive)"
    );
    assert_eq!(
        Error::EmptyInput.message(),
        "no numeric values were supplied"
    );
}
