use vstd::prelude::*;

verus! {

/// A texture a mesh of a scene is drawn with.
#[derive(Debug, Clone, Copy, PartialEq, Eq, Hash, Structural)]
pub enum TextureId {
    Internal(usize),
    User(usize),
}

/// The primitives of a scene, in the order they were added.
#[derive(Debug, Clone)]
pub struct Scene<P> {
    pub prims: Vec<P>,
}

impl<P> Default for Scene<P> {
    fn default() -> (r: Self)
        ensures
            r.prims@.len() == 0,
    {
        Scene { prims: Vec::new() }
    }
}

impl<P> Scene<P> {
    pub fn add(&mut self, prim: P)
        ensures
            final(self).prims@ == old(self).prims@.push(prim),
    {
        self.prims.push(prim);
    }

    /// Takes the primitives out, leaving the scene empty.
    pub fn clear(&mut self) -> (r: Vec<P>)
        ensures
            r@ == old(self).prims@,
            final(self).prims@.len() == 0,
    {
        let mut old: Vec<P> = Vec::new();
        std::mem::swap(&mut old, &mut self.prims);
        old
    }
}

/// Vertices and quads over them: each quad adds four vertices and the six
/// indices of its two triangles.
#[derive(Debug)]
pub struct DrawList<V> {
    pub vertices: Vec<V>,
    pub indices: Vec<u32>,
    pub index_offset: u32,
}

/// The six indices of the two triangles of a quad whose corners are the
/// vertices `offset` (top left), `offset + 1` (top right), `offset + 2`
/// (bottom left) and `offset + 3` (bottom right).
pub open spec fn quad_indices(offset: u32) -> Seq<u32> {
    seq![
        offset,
        (offset + 1) as u32,
        (offset + 2) as u32,
        (offset + 2) as u32,
        (offset + 1) as u32,
        (offset + 3) as u32,
    ]
}

impl<V> DrawList<V> {
    /// The next quad starts after the last vertex, and every index names a
    /// vertex.
    pub open spec fn wf(&self) -> bool {
        &&& self.index_offset == self.vertices@.len()
        &&& forall|i: int| 0 <= i < self.indices@.len() ==> #[trigger] self.indices@[i] < self.vertices@.len()
    }

    /// Adds a quad from its four corners: top left, top right, bottom left
    /// and bottom right.
    pub fn push_quad(&mut self, top_left: V, top_right: V, bottom_left: V, bottom_right: V)
        requires
            old(self).index_offset <= u32::MAX - 4,
        ensures
            final(self).vertices@ == old(self).vertices@.push(top_left).push(top_right).push(
                bottom_left,
            ).push(bottom_right),
            final(self).indices@ == old(self).indices@ + quad_indices(old(self).index_offset),
            final(self).index_offset == old(self).index_offset + 4,
            old(self).wf() ==> final(self).wf(),
    {
        let index_offset = self.index_offset;
        self.vertices.push(top_left);
        self.vertices.push(top_right);
        self.vertices.push(bottom_left);
        self.vertices.push(bottom_right);
        let ghost before = self.indices@;
        self.indices.push(index_offset);
        self.indices.push(index_offset + 1);
        self.indices.push(index_offset + 2);
        self.indices.push(index_offset + 2);
        self.indices.push(index_offset + 1);
        self.indices.push(index_offset + 3);
        self.index_offset = self.index_offset + 4;
        proof {
            assert(self.indices@ =~= before + quad_indices(index_offset));
        }
    }
}

impl<V> Default for DrawList<V> {
    fn default() -> (r: Self)
        ensures
            r.vertices@.len() == 0,
            r.indices@.len() == 0,
            r.index_offset == 0,
            r.wf(),
    {
        DrawList { vertices: Vec::new(), indices: Vec::new(), index_offset: 0 }
    }
}

/// The vertices and indices of a draw list, with the texture they are drawn
/// with, if any.
#[derive(Debug)]
pub struct Mesh<V> {
    pub vertices: Vec<V>,
    pub indices: Vec<u32>,
    pub texture: Option<TextureId>,
}

impl<V> From<DrawList<V>> for Mesh<V> {
    /// The vertices and indices of the list, drawn with no texture.
    fn from(list: DrawList<V>) -> (r: Self) {
        Mesh { vertices: list.vertices, indices: list.indices, texture: None }
    }
}

impl<V> vstd::std_specs::convert::FromSpecImpl<DrawList<V>> for Mesh<V> {
    open spec fn obeys_from_spec() -> bool {
        true
    }

    open spec fn from_spec(list: DrawList<V>) -> Self {
        Mesh { vertices: list.vertices, indices: list.indices, texture: None }
    }
}

} // verus!
