//! Facts about the shape and content of a composed image.

use vstd::prelude::*;

use crate::image::{
    Dot, GridView, HalfPoint, Point, blank_grid, composed_last, composed_lines, half_glyph,
    lemma_slot_in_grid, point_glyph,
};

verus! {

/// Composing a fresh grid of positive size gives `height / 2` rows of `width`
/// all-light points each, and a half row of `width` light half points exactly
/// when the height is odd. With white as the light dot, every cell is blank.
pub proof fn lemma_blank_grid_composes_blank(width: nat, height: nat, dark: Dot, light: Dot)
    requires
        width > 0,
        height > 0,
    ensures
        composed_lines(blank_grid(width, height, dark, light)) == Seq::new(
            height / 2,
            |_r: int| Seq::new(width, |_x: int| Point { top: light, bot: light }),
        ),
        composed_last(blank_grid(width, height, dark, light)) == (if height % 2 == 1 {
            Some(Seq::new(width, |_x: int| HalfPoint(light)))
        } else {
            None
        }),
        light == Dot::White ==> point_glyph(light, light) == ' ' && half_glyph(light) == ' ',
{
    let v = blank_grid(width, height, dark, light);
    let full = Seq::new(width, |_x: int| Point { top: light, bot: light });
    assert forall|x: int, y: int| 0 <= x < width && 0 <= y < height implies v.pixel(x, y)
        == light by {
        lemma_slot_in_grid(x, y, width as int, height as int);
    }
    assert forall|r: int| 0 <= r < height / 2 implies composed_lines(v)[r] == full by {
        assert(composed_lines(v)[r] =~= full);
    }
    assert(composed_lines(v) =~= Seq::new(height / 2, |_r: int| full));
    if height % 2 == 1 {
        assert(composed_last(v)->0 =~= Seq::new(width, |_x: int| HalfPoint(light)));
    }
}

/// Every pixel row is used once: two per full glyph row, one for the half
/// row. This holds for every height when the width is positive, and for an
/// empty grid.
pub proof fn lemma_rows_cover_height(v: GridView)
    requires
        v.wf(),
        v.width > 0 || v.height == 0,
    ensures
        composed_lines(v).len() * 2 + (if composed_last(v) is Some {
            1nat
        } else {
            0nat
        }) == v.height,
{
}

/// A grid with no columns or no rows composes to no rows and no half row.
pub proof fn lemma_empty_grid_composes_empty(v: GridView)
    requires
        v.width == 0 || v.height == 0,
    ensures
        composed_lines(v).len() == 0,
        composed_last(v) is None,
{
}

} // verus!
