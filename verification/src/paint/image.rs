use vstd::prelude::*;

use super::TextureKind;

verus! {

/// The id of an image stored in the texture atlas.
#[derive(Clone, Copy, Debug, Hash, Eq, PartialEq, Structural)]
pub struct AtlasImageId(pub usize);

/// An image stored in the texture atlas, with the kind of texture it lives in.
#[derive(Clone, Copy, Debug, Hash, Eq, PartialEq, Structural)]
pub struct AtlasImage {
    pub image_id: AtlasImageId,
    pub texture_kind: TextureKind,
}

impl AtlasImage {
    /// A color image with the given id.
    pub fn new(id: usize) -> (r: Self)
        ensures
            r == (AtlasImage { image_id: AtlasImageId(id), texture_kind: TextureKind::Color }),
    {
        Self { image_id: AtlasImageId(id), texture_kind: TextureKind::Color }
    }

    pub fn id(&self) -> (r: &AtlasImageId)
        ensures
            *r == self.image_id,
    {
        &self.image_id
    }

    pub fn texture_kind(&self) -> (r: &TextureKind)
        ensures
            *r == self.texture_kind,
    {
        &self.texture_kind
    }

    /// The same image in a color texture.
    pub fn color(self) -> (r: Self)
        ensures
            r == (AtlasImage { texture_kind: TextureKind::Color, ..self }),
    {
        let mut s = self;
        s.texture_kind = TextureKind::Color;
        s
    }

    /// The same image in a single channel (mask) texture.
    pub fn greyscale(self) -> (r: Self)
        ensures
            r == (AtlasImage { texture_kind: TextureKind::Mask, ..self }),
    {
        let mut s = self;
        s.texture_kind = TextureKind::Mask;
        s
    }
}

} // verus!
