use vstd::prelude::*;

use super::{Color, TextureKind};

verus! {

/// Where text is placed vertically relative to its position.
#[derive(Debug, Clone, Copy, PartialEq, Eq, Hash, Structural)]
pub enum TextBaseline {
    Alphabetic,
    Top,
    Hanging,
    Middle,
    Bottom,
}

impl Default for TextBaseline {
    fn default() -> (r: Self)
        ensures
            r == TextBaseline::Alphabetic,
    {
        TextBaseline::Alphabetic
    }
}

/// Where text is placed horizontally relative to its position.
#[derive(Debug, Clone, Copy, PartialEq, Eq, Hash, Structural)]
pub enum TextAlign {
    Left,
    Right,
    Center,
}

impl Default for TextAlign {
    fn default() -> (r: Self)
        ensures
            r == TextAlign::Left,
    {
        TextAlign::Left
    }
}

/// The color a glyph is drawn with: a color glyph (an emoji) keeps its own
/// colors, drawn white with the alpha of the fill color; a mask glyph is
/// drawn in the fill color.
pub fn glyph_fill_color(kind: TextureKind, fill_color: Color) -> (r: Color)
    ensures
        kind == TextureKind::Color ==> r == (Color { a: fill_color.a, ..Color::white_spec() }),
        kind == TextureKind::Mask ==> r == fill_color,
{
    if kind.is_color() {
        let mut c = Color::white();
        c.a = fill_color.a;
        c
    } else {
        fill_color
    }
}

/// The top-left corner of a glyph's image: the glyph's position moved by the
/// image's left offset, and down from the line by the glyph's offset less the
/// image's top.
pub fn glyph_origin(glyph_x: i32, glyph_y: i32, line_y: i32, left: i32, top: i32) -> (r: (i32, i32))
    requires
        i32::MIN <= glyph_x + left <= i32::MAX,
        i32::MIN <= line_y + glyph_y <= i32::MAX,
        i32::MIN <= line_y + glyph_y - top <= i32::MAX,
    ensures
        r.0 == glyph_x + left,
        r.1 == line_y + glyph_y - top,
{
    (glyph_x + left, line_y + glyph_y - top)
}

} // verus!
