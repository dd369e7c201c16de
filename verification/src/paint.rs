pub mod atlas;
pub mod atlas_storage;
pub mod batch;
pub mod brush;
pub mod checker;
pub mod color;
pub mod graphics_instruction;
pub mod image;
pub mod mesh;
pub mod path;
pub mod render_list;
pub mod text;
pub mod texture;

pub use atlas::{
    AtlasKey, AtlasKeySource, AtlasTextureId, AtlasTextureInfo, AtlasTextureList, AtlasTile,
    AtlasTileId,
};
pub use atlas_storage::{AtlasAllocation, AtlasPage, AtlasStorage, NewAtlasTexture};
pub use batch::{
    resolve_atlas_texture, GraphicsInstructionBatcher, TextureBatch,
};
pub use brush::{Brush, FillStyle, StrokeCap, StrokeJoin, StrokeStyle};
pub use checker::create_checker_texture;
pub use color::Color;
pub use graphics_instruction::GraphicsInstruction;
pub use image::{AtlasImage, AtlasImageId};
pub use mesh::Mesh;
pub use path::Path2D;
pub use render_list::{
    group_by_render_texture, required_atlas_keys, required_textures, Group, InstructionBatch, InstructionBatcher,
    RenderList,
};
pub use text::{glyph_fill_color, glyph_origin, TextAlign, TextBaseline};
pub use texture::{Texture2D, TextureId, TextureKind};
