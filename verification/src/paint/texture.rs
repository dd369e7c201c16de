use vstd::prelude::*;

use super::{AtlasKey, AtlasTextureId};

verus! {

/// Identifies the texture an instruction is drawn with.
#[derive(Debug, Clone, Copy, Eq, PartialEq, Hash, Structural)]
pub enum TextureId {
    /// Internal things created by the library.
    Internal(usize),
    /// Any texture created by the user.
    User(usize),
    /// An entry of the texture atlas, by its key.
    AtlasKey(AtlasKey),
    /// A whole texture of the atlas.
    Atlas(AtlasTextureId),
}

impl TextureId {
    /// The atlas entry of the white texture.
    pub open spec fn white_texture_spec() -> TextureId {
        TextureId::AtlasKey(AtlasKey::WhiteTexture)
    }

    pub fn white_texture() -> (r: TextureId)
        ensures
            r == Self::white_texture_spec(),
    {
        TextureId::AtlasKey(AtlasKey::WhiteTexture)
    }

    /// Whether this is the white texture.
    pub fn is_white(&self) -> (r: bool)
        ensures
            r == (*self == Self::white_texture_spec()),
    {
        *self == Self::white_texture()
    }
}

impl Default for TextureId {
    /// The white texture.
    fn default() -> (r: Self)
        ensures
            r == Self::white_texture_spec(),
    {
        Self::white_texture()
    }
}

impl From<AtlasKey> for TextureId {
    fn from(atlas: AtlasKey) -> (r: Self) {
        Self::AtlasKey(atlas)
    }
}

impl vstd::std_specs::convert::FromSpecImpl<AtlasKey> for TextureId {
    open spec fn obeys_from_spec() -> bool {
        true
    }

    open spec fn from_spec(atlas: AtlasKey) -> Self {
        TextureId::AtlasKey(atlas)
    }
}

impl From<AtlasTextureId> for TextureId {
    fn from(atlas: AtlasTextureId) -> (r: Self) {
        Self::Atlas(atlas)
    }
}

impl vstd::std_specs::convert::FromSpecImpl<AtlasTextureId> for TextureId {
    open spec fn obeys_from_spec() -> bool {
        true
    }

    open spec fn from_spec(atlas: AtlasTextureId) -> Self {
        TextureId::Atlas(atlas)
    }
}

/// The number of channels a texture has.
#[derive(Debug, Clone, Copy, PartialEq, Hash, Eq, Structural)]
pub enum TextureKind {
    /// A single channel.
    Mask,
    /// Four channels (RGBA).
    Color,
}

impl Default for TextureKind {
    fn default() -> (r: Self)
        ensures
            r == TextureKind::Color,
    {
        TextureKind::Color
    }
}

impl TextureKind {
    pub open spec fn bytes_per_pixel_spec(self) -> u32 {
        match self {
            TextureKind::Color => 4,
            TextureKind::Mask => 1,
        }
    }

    /// Four bytes per pixel for a color texture, one for a mask.
    pub fn bytes_per_pixel(&self) -> (r: u32)
        ensures
            r == self.bytes_per_pixel_spec(),
    {
        match self {
            TextureKind::Color => 4,
            TextureKind::Mask => 1,
        }
    }

    pub fn is_color(&self) -> (r: bool)
        ensures
            r == (*self == TextureKind::Color),
    {
        match self {
            TextureKind::Color => true,
            TextureKind::Mask => false,
        }
    }

    /// True for `Color`, as `is_color` (the check is on the color variant).
    pub fn is_mask(&self) -> (r: bool)
        ensures
            r == (*self == TextureKind::Color),
    {
        match self {
            TextureKind::Color => true,
            TextureKind::Mask => false,
        }
    }

    /// True for `Color`, as `is_color` (the check is on the color variant).
    pub fn is_gray(&self) -> (r: bool)
        ensures
            r == (*self == TextureKind::Color),
    {
        match self {
            TextureKind::Color => true,
            TextureKind::Mask => false,
        }
    }
}

/// A two dimensional texture.
pub struct Texture2D {}

} // verus!
