use vstd::prelude::*;

use super::{Brush, Color, TextureId};

verus! {

/// A primitive to draw, with its brush and the texture it is drawn with.
#[derive(Debug, Clone)]
pub struct GraphicsInstruction<P> {
    pub primitive: P,
    pub brush: Brush,
    pub texture_id: TextureId,
}

impl<P> GraphicsInstruction<P> {
    /// Whether the brush draws nothing: both its colors are transparent.
    pub fn nothing_to_draw(&self) -> (r: bool)
        ensures
            r == (self.brush.fill_style.color.a == 0 && self.brush.stroke_style.color.a == 0),
    {
        self.brush.noting_to_draw()
    }

    /// `primitive` drawn with `texture_id`, filled white.
    pub fn textured(primitive: P, texture_id: TextureId) -> (r: Self)
        ensures
            r.primitive == primitive,
            r.texture_id == texture_id,
            r.brush == (Brush { fill_style: super::FillStyle { color: Color::white_spec() }, ..Brush::default_spec() }),
    {
        GraphicsInstruction { primitive, texture_id, brush: Brush::filled(Color::white()) }
    }

    /// `primitive` drawn with `brush` and the white texture.
    pub fn brush(primitive: P, brush: Brush) -> (r: Self)
        ensures
            r.primitive == primitive,
            r.brush == brush,
            r.texture_id == TextureId::white_texture_spec(),
    {
        GraphicsInstruction { primitive, texture_id: TextureId::white_texture(), brush }
    }

    /// `primitive` drawn with `brush` and `texture_id`.
    pub fn textured_brush(primitive: P, texture_id: TextureId, brush: Brush) -> (r: Self)
        ensures
            r.primitive == primitive,
            r.brush == brush,
            r.texture_id == texture_id,
    {
        GraphicsInstruction { primitive, texture_id, brush }
    }
}

} // verus!
