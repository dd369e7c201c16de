use vstd::prelude::*;

use super::Color;

verus! {

/// How the segments of a stroke are joined.
#[derive(Debug, Clone, Copy, PartialEq, Eq, Hash, Structural)]
pub enum StrokeJoin {
    Miter,
    Bevel,
    Round,
}

/// How the ends of a stroke are drawn.
#[derive(Debug, Clone, Copy, PartialEq, Eq, Hash, Structural)]
pub enum StrokeCap {
    Round,
    Square,
    Butt,
}

/// How the inside of a shape is painted.
#[derive(Debug, Clone, Copy, PartialEq, Eq, Structural)]
pub struct FillStyle {
    pub color: Color,
}

impl Default for FillStyle {
    /// A transparent fill.
    fn default() -> (r: Self)
        ensures
            r == (FillStyle { color: Color::transparent_spec() }),
    {
        Self { color: Color::transparent() }
    }
}

impl FillStyle {
    pub fn color(self, color: Color) -> (r: Self)
        ensures
            r == (FillStyle { color }),
    {
        let mut s = self;
        s.color = color;
        s
    }
}

/// How the outline of a shape is painted.
#[derive(Debug, Clone, Copy, PartialEq, Eq, Structural)]
pub struct StrokeStyle {
    pub color: Color,
    pub stroke_width: u32,
    pub stroke_join: StrokeJoin,
    pub stroke_cap: StrokeCap,
    pub allow_overlap: bool,
}

impl StrokeStyle {
    /// A white stroke two units wide with miter joins and butt caps that may not overlap.
    pub open spec fn default_spec() -> Self {
        StrokeStyle {
            color: Color::white_spec(),
            stroke_width: 2,
            stroke_join: StrokeJoin::Miter,
            stroke_cap: StrokeCap::Butt,
            allow_overlap: false,
        }
    }
}

impl Default for StrokeStyle {
    fn default() -> (r: Self)
        ensures
            r == Self::default_spec(),
    {
        Self {
            color: Color::white(),
            stroke_width: 2,
            stroke_join: StrokeJoin::Miter,
            stroke_cap: StrokeCap::Butt,
            allow_overlap: false,
        }
    }
}
impl StrokeStyle {
    pub fn allow_overlap(self, allow: bool) -> (r: Self)
        ensures
            r == (StrokeStyle { allow_overlap: allow, ..self }),
    {
        let mut s = self;
        s.allow_overlap = allow;
        s
    }

    pub fn color(self, color: Color) -> (r: Self)
        ensures
            r == (StrokeStyle { color: color, ..self }),
    {
        let mut s = self;
        s.color = color;
        s
    }

    pub fn line_width(self, line_width: u32) -> (r: Self)
        ensures
            r == (StrokeStyle { stroke_width: line_width, ..self }),
    {
        let mut s = self;
        s.stroke_width = line_width;
        s
    }

    pub fn line_join(self, line_join: StrokeJoin) -> (r: Self)
        ensures
            r == (StrokeStyle { stroke_join: line_join, ..self }),
    {
        let mut s = self;
        s.stroke_join = line_join;
        s
    }

    pub fn line_cap(self, line_cap: StrokeCap) -> (r: Self)
        ensures
            r == (StrokeStyle { stroke_cap: line_cap, ..self }),
    {
        let mut s = self;
        s.stroke_cap = line_cap;
        s
    }

    pub fn default_join(self) -> (r: Self)
        ensures
            r == (StrokeStyle { stroke_join: StrokeJoin::Miter, ..self }),
    {
        let mut s = self;
        s.stroke_join = StrokeJoin::Miter;
        s
    }

    pub fn miter_join(self) -> (r: Self)
        ensures
            r == (StrokeStyle { stroke_join: StrokeJoin::Miter, ..self }),
    {
        let mut s = self;
        s.stroke_join = StrokeJoin::Miter;
        s
    }

    pub fn bevel_join(self) -> (r: Self)
        ensures
            r == (StrokeStyle { stroke_join: StrokeJoin::Bevel, ..self }),
    {
        let mut s = self;
        s.stroke_join = StrokeJoin::Bevel;
        s
    }

    pub fn round_join(self) -> (r: Self)
        ensures
            r == (StrokeStyle { stroke_join: StrokeJoin::Round, ..self }),
    {
        let mut s = self;
        s.stroke_join = StrokeJoin::Round;
        s
    }

    pub fn round_cap(self) -> (r: Self)
        ensures
            r == (StrokeStyle { stroke_cap: StrokeCap::Round, ..self }),
    {
        let mut s = self;
        s.stroke_cap = StrokeCap::Round;
        s
    }

    /// Butt caps.
    pub fn default_cap(self) -> (r: Self)
        ensures
            r == (StrokeStyle { stroke_cap: StrokeCap::Butt, ..self }),
    {
        let mut s = self;
        s.stroke_cap = StrokeCap::Butt;
        s
    }

    pub fn square_cap(self) -> (r: Self)
        ensures
            r == (StrokeStyle { stroke_cap: StrokeCap::Square, ..self }),
    {
        let mut s = self;
        s.stroke_cap = StrokeCap::Square;
        s
    }
}

/// The fill, stroke and anti-aliasing used by drawing operations.
#[derive(Debug, Clone, Copy, PartialEq, Eq, Structural)]
pub struct Brush {
    pub fill_style: FillStyle,
    pub stroke_style: StrokeStyle,
    pub antialias: bool,
}

impl Brush {
    /// Transparent fill and stroke (otherwise the default stroke), anti-aliasing off.
    pub open spec fn default_spec() -> Self {
        Brush {
            fill_style: FillStyle { color: Color::transparent_spec() },
            stroke_style: StrokeStyle { color: Color::transparent_spec(), ..StrokeStyle::default_spec() },
            antialias: false,
        }
    }
}

impl Default for Brush {
    /// Creates a default brush with transparent fill and stroke, and anti-aliasing disabled.
    fn default() -> (r: Self)
        ensures
            r == Self::default_spec(),
    {
        let mut stroke_style = StrokeStyle::default();
        stroke_style.color = Color::transparent();
        Self { fill_style: FillStyle { color: Color::transparent() }, stroke_style, antialias: false }
    }
}

impl Brush {
    /// The default brush with the given fill color.
    pub fn filled(fill_color: Color) -> (r: Self)
        ensures
            r == (Brush { fill_style: FillStyle { color: fill_color }, ..Self::default_spec() }),
    {
        let mut b = Self::default();
        b.fill_style = FillStyle { color: fill_color };
        b
    }

    /// Returns whether anti-aliasing is enabled for the brush.
    pub fn is_antialias(&self) -> (r: bool)
        ensures
            r == self.antialias,
    {
        self.antialias
    }

    /// Enables or disables anti-aliasing for the brush.
    pub fn antialias(self, enable: bool) -> (r: Self)
        ensures
            r == (Brush { antialias: enable, ..self }),
    {
        let mut b = self;
        b.antialias = enable;
        b
    }

    /// Gets the current fill color of the brush.
    pub fn get_fill_color(&self) -> (r: Color)
        ensures
            r == self.fill_style.color,
    {
        self.fill_style.color
    }

    /// Sets the fill color of the brush.
    pub fn fill_color(self, color: Color) -> (r: Self)
        ensures
            r == (Brush { fill_style: FillStyle { color }, ..self }),
    {
        let mut b = self;
        b.fill_style.color = color;
        b
    }

    /// Puts back the default fill style.
    pub fn reset_fill(self) -> (r: Self)
        ensures
            r == (Brush { fill_style: FillStyle { color: Color::transparent_spec() }, ..self }),
    {
        let mut b = self;
        b.fill_style = FillStyle::default();
        b
    }

    /// Puts back the default stroke style.
    pub fn reset_stroke(self) -> (r: Self)
        ensures
            r == (Brush { stroke_style: StrokeStyle::default_spec(), ..self }),
    {
        let mut b = self;
        b.stroke_style = StrokeStyle::default();
        b
    }

    /// Makes the fill transparent.
    pub fn no_fill(self) -> (r: Self)
        ensures
            r == (Brush { fill_style: FillStyle { color: Color::transparent_spec() }, ..self }),
    {
        let mut b = self;
        b.fill_style.color = Color::transparent();
        b
    }

    /// Makes the stroke transparent.
    pub fn no_stroke(self) -> (r: Self)
        ensures
            r == (Brush {
                stroke_style: StrokeStyle { color: Color::transparent_spec(), ..self.stroke_style },
                ..self
            }),
    {
        let mut b = self;
        b.stroke_style.color = Color::transparent();
        b
    }

    /// Sets the fill style of the brush.
    pub fn fill_style(self, fill_style: FillStyle) -> (r: Self)
        ensures
            r == (Brush { fill_style, ..self }),
    {
        let mut b = self;
        b.fill_style = fill_style;
        b
    }

    /// Gets the current stroke color of the brush.
    pub fn get_stroke_color(&self) -> (r: Color)
        ensures
            r == self.stroke_style.color,
    {
        self.stroke_style.color
    }

    /// Sets the stroke color of the brush.
    pub fn stroke_color(self, color: Color) -> (r: Self)
        ensures
            r == (Brush { stroke_style: StrokeStyle { color, ..self.stroke_style }, ..self }),
    {
        let mut b = self;
        b.stroke_style.color = color;
        b
    }

    /// Sets the stroke width (line width) of the brush.
    pub fn stroke_width(self, stroke_width: u32) -> (r: Self)
        ensures
            r == (Brush { stroke_style: StrokeStyle { stroke_width, ..self.stroke_style }, ..self }),
    {
        let mut b = self;
        b.stroke_style.stroke_width = stroke_width;
        b
    }

    /// Sets the stroke style of the brush.
    pub fn stroke_style(self, stroke_style: StrokeStyle) -> (r: Self)
        ensures
            r == (Brush { stroke_style, ..self }),
    {
        let mut b = self;
        b.stroke_style = stroke_style;
        b
    }

    /// Sets the stroke line join style for the brush.
    pub fn stroke_join(self, stroke_join: StrokeJoin) -> (r: Self)
        ensures
            r == (Brush { stroke_style: StrokeStyle { stroke_join, ..self.stroke_style }, ..self }),
    {
        let mut b = self;
        b.stroke_style.stroke_join = stroke_join;
        b
    }

    /// Sets the stroke line cap style for the brush.
    pub fn stroke_cap(self, stroke_cap: StrokeCap) -> (r: Self)
        ensures
            r == (Brush { stroke_style: StrokeStyle { stroke_cap, ..self.stroke_style }, ..self }),
    {
        let mut b = self;
        b.stroke_style.stroke_cap = stroke_cap;
        b
    }

    /// Resets the brush to its default state.
    pub fn reset(self) -> (r: Self)
        ensures
            r == Self::default_spec(),
    {
        Self::default()
    }

    /// Whether there is nothing to draw with the brush: both the fill and the
    /// stroke colors are transparent.
    pub fn noting_to_draw(&self) -> (r: bool)
        ensures
            r == (self.fill_style.color.a == 0 && self.stroke_style.color.a == 0),
    {
        self.fill_style.color.is_transparent() && self.stroke_style.color.is_transparent()
    }

    /// `consequent(self)` when `cond` holds, else the brush unchanged.
    pub fn when<F: FnOnce(Self) -> Self>(self, cond: bool, consequent: F) -> (r: Self)
        requires
            cond ==> consequent.requires((self,)),
        ensures
            cond ==> consequent.ensures((self,), r),
            !cond ==> r == self,
    {
        if cond {
            consequent(self)
        } else {
            self
        }
    }

    /// `consequent(self)` when `cond` holds, else `alternate(self)`.
    pub fn when_or<C: FnOnce(Self) -> Self, A: FnOnce(Self) -> Self>(
        self,
        cond: bool,
        consequent: C,
        alternate: A,
    ) -> (r: Self)
        requires
            cond ==> consequent.requires((self,)),
            !cond ==> alternate.requires((self,)),
        ensures
            cond ==> consequent.ensures((self,), r),
            !cond ==> alternate.ensures((self,), r),
    {
        if cond {
            consequent(self)
        } else {
            alternate(self)
        }
    }
}

} // verus!
