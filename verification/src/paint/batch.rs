use vstd::prelude::*;

use super::{AtlasTextureInfo, TextureId};

verus! {

/// The texture bound to the renderer: the one the mapping gave, else the
/// instruction's own.
pub open spec fn resolve_texture(mapped: Option<TextureId>, own: TextureId) -> TextureId {
    match mapped {
        Some(t) => t,
        None => own,
    }
}

/// A run of consecutive instructions, `start..end`, drawn with one renderer texture.
#[derive(Debug, Clone, Copy, PartialEq, Eq)]
pub struct TextureBatch {
    pub start: usize,
    pub end: usize,
    pub renderer_texture: TextureId,
}

/// Splits instructions into runs of consecutive instructions that share the
/// texture bound to the renderer.
pub struct GraphicsInstructionBatcher {
    /// Where the next batch starts.
    pub instruction_start: usize,
    /// The renderer texture of each instruction.
    pub render_textures: Vec<TextureId>,
    /// What the mapping gave for each instruction.
    pub mapped: Ghost<Seq<Option<TextureId>>>,
}

impl GraphicsInstructionBatcher {
    /// `textures` are the textures of the instructions; `get_renderer_texture`
    /// maps one to the texture actually bound to the renderer, or gives `None`
    /// when it already is that texture.
    pub fn new<F: Fn(&TextureId) -> Option<TextureId>>(
        textures: &[TextureId],
        get_renderer_texture: F,
    ) -> (r: Self)
        requires
            forall|i: int| 0 <= i < textures@.len() ==> get_renderer_texture.requires((&textures@[i],)),
        ensures
            r.instruction_start == 0,
            r.render_textures@.len() == textures@.len(),
            r.mapped@.len() == textures@.len(),
            forall|i: int|
                0 <= i < textures@.len() ==> get_renderer_texture.ensures(
                    (&textures@[i],),
                    #[trigger] r.mapped@[i],
                ),
            forall|i: int|
                0 <= i < textures@.len() ==> #[trigger] r.render_textures@[i] == resolve_texture(
                    r.mapped@[i],
                    textures@[i],
                ),
    {
        let mut render_textures: Vec<TextureId> = Vec::new();
        let ghost mut mapped: Seq<Option<TextureId>> = Seq::empty();
        let mut i: usize = 0;
        while i < textures.len()
            invariant
                i <= textures@.len(),
                render_textures@.len() == i,
                mapped.len() == i,
                forall|j: int| 0 <= j < textures@.len() ==> get_renderer_texture.requires((&textures@[j],)),
                forall|j: int|
                    0 <= j < i ==> get_renderer_texture.ensures((&textures@[j],), #[trigger] mapped[j]),
                forall|j: int|
                    0 <= j < i ==> #[trigger] render_textures@[j] == resolve_texture(mapped[j], textures@[j]),
            decreases textures@.len() - i,
        {
            let own = textures[i];
            let m = get_renderer_texture(&textures[i]);
            let t = match m {
                Some(t) => t,
                None => own,
            };
            render_textures.push(t);
            proof {
                mapped = mapped.push(m);
            }
            i = i + 1;
        }
        GraphicsInstructionBatcher { instruction_start: 0, render_textures, mapped: Ghost(mapped) }
    }

    /// The next run: it starts where the last one ended, holds instructions
    /// that all have its renderer texture, and ends at the last instruction or
    /// before one with another renderer texture.
    pub fn next(&mut self) -> (r: Option<TextureBatch>)
        requires
            old(self).instruction_start <= old(self).render_textures@.len(),
        ensures
            final(self).render_textures == old(self).render_textures,
            final(self).mapped == old(self).mapped,
            final(self).instruction_start <= final(self).render_textures@.len(),
            old(self).instruction_start >= old(self).render_textures@.len() <==> r.is_none(),
            r.is_none() ==> final(self).instruction_start == old(self).instruction_start,
            r matches Some(b) ==> {
                &&& b.start == old(self).instruction_start
                &&& b.start < b.end <= old(self).render_textures@.len()
                &&& final(self).instruction_start == b.end
                &&& forall|i: int| b.start <= i < b.end ==> old(self).render_textures@[i] == b.renderer_texture
                &&& b.end < old(self).render_textures@.len() ==> old(self).render_textures@[b.end as int]
                    != b.renderer_texture
            },
    {
        let n = self.render_textures.len();
        let start = self.instruction_start;
        if start >= n {
            return None;
        }
        let texture = self.render_textures[start];
        let mut end = start + 1;
        while end < n && self.render_textures[end] == texture
            invariant
                start < end <= n,
                n == self.render_textures@.len(),
                texture == self.render_textures@[start as int],
                forall|i: int| start <= i < end ==> self.render_textures@[i] == texture,
            decreases n - end,
        {
            end = end + 1;
        }
        self.instruction_start = end;
        Some(TextureBatch { start, end, renderer_texture: texture })
    }
}

/// Splits a sequence of renderer textures into its maximal runs, in order.
pub open spec fn is_batching(textures: Seq<TextureId>, batches: Seq<TextureBatch>) -> bool {
    &&& batches.len() > 0 ==> batches[0].start == 0
    &&& batches.len() > 0 ==> batches.last().end == textures.len()
    &&& batches.len() == 0 ==> textures.len() == 0
    &&& forall|k: int| 0 <= k < batches.len() - 1 ==> #[trigger] batches[k + 1].start == batches[k].end
    &&& forall|k: int| 0 <= k < batches.len() ==> #[trigger] batches[k].start < batches[k].end
    &&& forall|k: int, i: int|
        0 <= k < batches.len() && batches[k].start <= i < batches[k].end ==> #[trigger] textures[i]
            == #[trigger] batches[k].renderer_texture
    &&& forall|k: int|
        0 <= k < batches.len() - 1 ==> textures[#[trigger] batches[k].end as int] != batches[k].renderer_texture
}

impl GraphicsInstructionBatcher {
    /// All the runs from the start: together they cover every instruction
    /// once, in order, and no two neighbouring runs share a renderer texture.
    pub fn into_batches(self) -> (r: Vec<TextureBatch>)
        requires
            self.instruction_start == 0,
        ensures
            is_batching(self.render_textures@, r@),
    {
        let ghost textures = self.render_textures@;
        let mut batcher = self;
        let mut out: Vec<TextureBatch> = Vec::new();
        loop
            invariant
                batcher.render_textures@ == textures,
                batcher.instruction_start <= textures.len(),
                out@.len() > 0 ==> out@[0].start == 0,
                out@.len() > 0 ==> out@.last().end == batcher.instruction_start,
                out@.len() == 0 ==> batcher.instruction_start == 0,
                forall|k: int| 0 <= k < out@.len() - 1 ==> #[trigger] out@[k + 1].start == out@[k].end,
                forall|k: int| 0 <= k < out@.len() ==> #[trigger] out@[k].start < out@[k].end,
                forall|k: int, i: int|
                    0 <= k < out@.len() && out@[k].start <= i < out@[k].end ==> #[trigger] textures[i]
                        == #[trigger] out@[k].renderer_texture,
                forall|k: int|
                    0 <= k < out@.len() - 1 ==> textures[#[trigger] out@[k].end as int] != out@[k].renderer_texture,
                out@.len() > 0 && batcher.instruction_start < textures.len() ==> textures[
                    batcher.instruction_start as int] != out@.last().renderer_texture,
            ensures
                batcher.instruction_start == textures.len(),
                out@.len() > 0 ==> out@.last().end == textures.len(),
            decreases textures.len() - batcher.instruction_start,
        {
            match batcher.next() {
                Some(b) => {
                    out.push(b);
                },
                None => {
                    break;
                },
            }
        }
        out
    }
}

/// The renderer texture of an instruction's texture: an atlas entry is drawn
/// from the atlas texture its tile lies in, when its tile is known, and is
/// dropped (`None`) when not; any other texture is drawn as it is.
pub fn resolve_atlas_texture(texture: &TextureId, info: Option<&AtlasTextureInfo>) -> (r: Option<
    TextureId,
>)
    ensures
        r == (match *texture {
            TextureId::AtlasKey(_) => match info {
                Some(i) => Some(TextureId::Atlas(i.tile.texture)),
                None => None,
            },
            _ => Some(*texture),
        }),
{
    match texture {
        TextureId::AtlasKey(_) => match info {
            Some(i) => Some(TextureId::Atlas(i.tile.texture)),
            None => None,
        },
        _ => Some(*texture),
    }
}

} // verus!
