use vstd::prelude::*;

use crate::math::{Rect, Size};

use super::{AtlasImage, TextureKind};

verus! {

/// What is stored in the texture atlas.
#[derive(Clone, Copy, Debug, Hash, Eq, PartialEq, Structural)]
pub enum AtlasKey {
    Image(AtlasImage),
    WhiteTexture,
}

/// Keys of the texture atlas: each names the kind of texture it must be stored in.
pub trait AtlasKeySource {
    spec fn texture_kind_spec(&self) -> TextureKind;

    fn texture_kind(&self) -> (r: TextureKind)
        ensures
            r == self.texture_kind_spec(),
    ;
}

impl AtlasKeySource for AtlasKey {
    /// An image goes to the kind of texture it names; the white texture is a color texture.
    open spec fn texture_kind_spec(&self) -> TextureKind {
        match self {
            AtlasKey::Image(image) => image.texture_kind,
            AtlasKey::WhiteTexture => TextureKind::Color,
        }
    }

    fn texture_kind(&self) -> (r: TextureKind) {
        match self {
            AtlasKey::Image(image) => image.texture_kind,
            AtlasKey::WhiteTexture => TextureKind::Color,
        }
    }
}

impl From<AtlasImage> for AtlasKey {
    fn from(image: AtlasImage) -> (r: Self) {
        Self::Image(image)
    }
}

impl vstd::std_specs::convert::FromSpecImpl<AtlasImage> for AtlasKey {
    open spec fn obeys_from_spec() -> bool {
        true
    }

    open spec fn from_spec(image: AtlasImage) -> Self {
        AtlasKey::Image(image)
    }
}

/// One texture of the atlas: its kind and its slot among the textures of that kind.
#[derive(Debug, Clone, Copy, Eq, PartialEq, Hash, Structural)]
pub struct AtlasTextureId {
    pub kind: TextureKind,
    pub slot: usize,
}

/// The id the allocator gave a tile.
#[derive(Debug, Clone, Copy, Eq, PartialEq, Hash, Structural)]
pub struct AtlasTileId(pub u32);

/// A rectangle of one atlas texture.
#[derive(Debug, Clone, Copy, PartialEq, Eq, Structural)]
pub struct AtlasTile {
    /// This tile's id.
    pub id: AtlasTileId,
    /// The texture this tile belongs to.
    pub texture: AtlasTextureId,
    /// Bounds of this tile.
    pub bounds: Rect<i32>,
}

/// A tile together with the size of the atlas texture it lies in.
#[derive(Debug, Clone, Copy, PartialEq, Eq, Structural)]
pub struct AtlasTextureInfo {
    pub tile: AtlasTile,
    /// Size of the atlas texture the tile is in.
    pub atlas_texture_size: Size<i32>,
}

/// Slots of textures, with the slots that were freed and can be used again.
#[derive(Debug, Default)]
pub struct AtlasTextureList<T> {
    pub slots: Vec<T>,
    pub free_slots: Vec<usize>,
}

impl<T> AtlasTextureList<T> {
    /// The slots, to be walked and changed in place.
    pub fn iter_mut(&mut self) -> (r: &mut [T])
        ensures
            r@ == old(self).slots@,
            final(self).slots@ == final(r)@,
            final(self).free_slots == old(self).free_slots,
    {
        self.slots.as_mut_slice()
    }

    pub fn len(&self) -> (r: usize)
        ensures
            r == self.slots.len(),
    {
        self.slots.len()
    }
}

} // verus!
