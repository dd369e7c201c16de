use skie_draw::paint::{
    AtlasImage, AtlasImageId, AtlasKey, AtlasKeySource, Brush, Color, FillStyle, StrokeCap,
    StrokeJoin, StrokeStyle, TextAlign, TextBaseline, TextureId, TextureKind,
};
use skie_draw::paint::AtlasTextureId;
use skie_draw::paint::GraphicsInstruction;
use skie_draw::paint::{glyph_fill_color, glyph_origin};

#[test]
fn colors() {
    assert!(Color::transparent().is_transparent());
    assert!(!Color::white().is_transparent());
    assert_eq!(Color::white(), Color::rgba(255, 255, 255, 255));
    assert_eq!(Color::red(), Color::rgba(255, 0, 0, 255));
    assert!(Color::rgba(1, 2, 3, 0).is_transparent());
}

#[test]
fn default_brush_draws_nothing() {
    let b = Brush::default();
    assert_eq!(b.get_fill_color(), Color::transparent());
    assert_eq!(b.get_stroke_color(), Color::transparent());
    assert!(!b.is_antialias());
    assert!(b.noting_to_draw());
    assert_eq!(b.stroke_style.stroke_width, 2);
    assert_eq!(b.stroke_style.stroke_join, StrokeJoin::Miter);
    assert_eq!(b.stroke_style.stroke_cap, StrokeCap::Butt);
}

#[test]
fn brush_setters_and_getters() {
    let b = Brush::filled(Color::red()).stroke_width(10);
    assert_eq!(b.get_fill_color(), Color::red());
    assert_eq!(b.stroke_style.stroke_width, 10);
    assert!(!b.noting_to_draw());

    let b = b.stroke_color(Color::blue());
    assert_eq!(b.get_stroke_color(), Color::blue());
    assert_eq!(b.get_fill_color(), Color::red());

    let b = b.antialias(true).stroke_join(StrokeJoin::Round).stroke_cap(StrokeCap::Square);
    assert!(b.is_antialias());
    assert_eq!(b.stroke_style.stroke_join, StrokeJoin::Round);
    assert_eq!(b.stroke_style.stroke_cap, StrokeCap::Square);

    let b = b.fill_color(Color::green());
    assert_eq!(b.get_fill_color(), Color::green());
    assert_eq!(b.no_fill().get_fill_color(), Color::transparent());
    assert_eq!(b.no_stroke().get_stroke_color(), Color::transparent());
    assert_eq!(b.reset_fill().fill_style, FillStyle::default());
    assert_eq!(b.reset_stroke().stroke_style, StrokeStyle::default());
    assert_eq!(b.reset(), Brush::default());
    assert_eq!(b.fill_style(FillStyle { color: Color::black() }).get_fill_color(), Color::black());
    let s = StrokeStyle::default().color(Color::red());
    assert_eq!(b.stroke_style(s).stroke_style, s);
}

#[test]
fn brush_when() {
    let b = Brush::default();
    assert_eq!(b.when(true, |b| b.antialias(true)).is_antialias(), true);
    assert_eq!(b.when(false, |b| b.antialias(true)).is_antialias(), false);
    let picked = b.when_or(false, |b| b.fill_color(Color::red()), |b| b.fill_color(Color::blue()));
    assert_eq!(picked.get_fill_color(), Color::blue());
}

#[test]
fn stroke_style_builders() {
    let s = StrokeStyle::default();
    assert_eq!(s.color, Color::white());
    assert_eq!(s.stroke_width, 2);
    assert!(!s.allow_overlap);
    assert!(s.allow_overlap(true).allow_overlap);
    assert_eq!(s.line_width(7).stroke_width, 7);
    assert_eq!(s.line_join(StrokeJoin::Bevel).stroke_join, StrokeJoin::Bevel);
    assert_eq!(s.line_cap(StrokeCap::Round).stroke_cap, StrokeCap::Round);
    assert_eq!(s.bevel_join().stroke_join, StrokeJoin::Bevel);
    assert_eq!(s.round_join().stroke_join, StrokeJoin::Round);
    assert_eq!(s.round_join().miter_join().stroke_join, StrokeJoin::Miter);
    assert_eq!(s.round_join().default_join().stroke_join, StrokeJoin::Miter);
    assert_eq!(s.round_cap().stroke_cap, StrokeCap::Round);
    assert_eq!(s.square_cap().stroke_cap, StrokeCap::Square);
    assert_eq!(s.square_cap().default_cap().stroke_cap, StrokeCap::Butt);
    assert_eq!(FillStyle::default().color(Color::red()).color, Color::red());
}

#[test]
fn texture_ids() {
    assert!(TextureId::white_texture().is_white());
    assert!(TextureId::default().is_white());
    assert!(!TextureId::User(1).is_white());
    assert!(!TextureId::AtlasKey(AtlasKey::Image(AtlasImage::new(0))).is_white());
    let t: TextureId = AtlasKey::WhiteTexture.into();
    assert!(t.is_white());
    let a: TextureId = AtlasTextureId { kind: TextureKind::Color, slot: 2 }.into();
    assert_eq!(a, TextureId::Atlas(AtlasTextureId { kind: TextureKind::Color, slot: 2 }));
}

#[test]
fn texture_kinds() {
    assert_eq!(TextureKind::default(), TextureKind::Color);
    assert_eq!(TextureKind::Color.bytes_per_pixel(), 4);
    assert_eq!(TextureKind::Mask.bytes_per_pixel(), 1);
    assert!(TextureKind::Color.is_color());
    assert!(!TextureKind::Mask.is_color());
    assert!(TextureKind::Color.is_mask());
    assert!(!TextureKind::Mask.is_mask());
    assert!(TextureKind::Color.is_gray());
}

#[test]
fn atlas_images_and_keys() {
    let img = AtlasImage::new(7);
    assert_eq!(*img.id(), AtlasImageId(7));
    assert_eq!(*img.texture_kind(), TextureKind::Color);
    let grey = img.greyscale();
    assert_eq!(*grey.texture_kind(), TextureKind::Mask);
    assert_eq!(*grey.color().texture_kind(), TextureKind::Color);
    let key: AtlasKey = grey.into();
    assert_eq!(key.texture_kind(), TextureKind::Mask);
    assert_eq!(AtlasKey::WhiteTexture.texture_kind(), TextureKind::Color);
}

#[test]
fn text_defaults() {
    assert_eq!(TextAlign::default(), TextAlign::Left);
    assert_eq!(TextBaseline::default(), TextBaseline::Alphabetic);
}

#[test]
fn graphics_instruction_constructors() {
    let key = TextureId::AtlasKey(AtlasKey::Image(AtlasImage::new(4)));
    let t = GraphicsInstruction::textured("quad", key);
    assert_eq!(t.primitive, "quad");
    assert_eq!(t.texture_id, key);
    assert_eq!(t.brush.get_fill_color(), Color::white());
    assert!(!t.nothing_to_draw());

    let b = GraphicsInstruction::brush("circle", Brush::default());
    assert!(b.texture_id.is_white());
    // the default brush fills and strokes with transparent colors
    assert!(b.nothing_to_draw());

    let tb = GraphicsInstruction::textured_brush("path", key, Brush::filled(Color::red()));
    assert_eq!(tb.texture_id, key);
    assert_eq!(tb.brush.get_fill_color(), Color::red());
    assert!(!tb.nothing_to_draw());
}

#[test]
fn glyph_colors() {
    let fill = Color::rgba(10, 20, 30, 128);
    // an emoji keeps its colors, with the fill's alpha
    assert_eq!(glyph_fill_color(TextureKind::Color, fill), Color::rgba(255, 255, 255, 128));
    // a mask glyph takes the fill color
    assert_eq!(glyph_fill_color(TextureKind::Mask, fill), fill);
}

#[test]
fn glyph_origins() {
    assert_eq!(glyph_origin(10, 2, 20, 1, 12), (11, 10));
    assert_eq!(glyph_origin(0, 0, 0, -3, -4), (-3, 4));
}
