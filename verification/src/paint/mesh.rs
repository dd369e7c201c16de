use vstd::prelude::*;

use super::TextureId;

verus! {

/// Vertices, triangles given by the indices of their corners, and the texture
/// they are drawn with.
#[derive(Debug, Clone)]
pub struct Mesh<V> {
    pub vertices: Vec<V>,
    pub indices: Vec<u32>,
    pub texture: TextureId,
}

impl<V> Mesh<V> {
    /// Every index names a vertex, and the vertices can be counted in a `u32`.
    pub open spec fn is_valid_spec(&self) -> bool {
        &&& self.vertices@.len() <= u32::MAX
        &&& forall|i: int| 0 <= i < self.indices@.len() ==> #[trigger] self.indices@[i] < self.vertices@.len()
    }
}

/// `result` is `before` with the vertices and triangles of `other` added
/// after its own, the indices of `other` moved past the vertices of `before`.
pub open spec fn is_append_of<V>(result: Mesh<V>, before: Mesh<V>, other: Mesh<V>) -> bool {
    &&& result.vertices@ == before.vertices@ + other.vertices@
    &&& result.indices@.len() == before.indices@.len() + other.indices@.len()
    &&& forall|i: int| 0 <= i < before.indices@.len() ==> #[trigger] result.indices@[i] == before.indices@[i]
    &&& forall|i: int|
        0 <= i < other.indices@.len() ==> #[trigger] result.indices@[before.indices@.len() + i]
            == other.indices@[i] + before.vertices@.len()
    &&& result.texture == before.texture
}

/// Appending a valid mesh to a valid mesh gives a valid mesh, when the
/// vertices of both can be counted in a `u32`.
pub proof fn lemma_append_keeps_valid<V>(result: Mesh<V>, before: Mesh<V>, other: Mesh<V>)
    requires
        before.is_valid_spec(),
        other.is_valid_spec(),
        before.vertices@.len() + other.vertices@.len() <= u32::MAX,
        is_append_of(result, before, other),
    ensures
        result.is_valid_spec(),
{
    assert forall|i: int| 0 <= i < result.indices@.len() implies #[trigger] result.indices@[i] < result.vertices@.len() by {
        if i < before.indices@.len() {
            assert(result.indices@[i] == before.indices@[i]);
        } else {
            let j = i - before.indices@.len();
            assert(result.indices@[before.indices@.len() + j] == other.indices@[j] + before.vertices@.len());
        }
    }
}

impl<V> Default for Mesh<V> {
    /// No vertex and no index, drawn with the white texture.
    fn default() -> (r: Self)
        ensures
            r.vertices@.len() == 0,
            r.indices@.len() == 0,
            r.texture == TextureId::white_texture_spec(),
    {
        Mesh { vertices: Vec::new(), indices: Vec::new(), texture: TextureId::white_texture() }
    }
}

impl<V> Mesh<V> {
    /// Drops the vertices and the indices and keeps the texture.
    pub fn clear(&mut self)
        ensures
            final(self).vertices@.len() == 0,
            final(self).indices@.len() == 0,
            final(self).texture == old(self).texture,
    {
        self.indices.clear();
        self.vertices = Vec::new();
    }

    pub fn add_vertex(&mut self, vertex: V)
        ensures
            final(self).vertices@ == old(self).vertices@.push(vertex),
            final(self).indices@ == old(self).indices@,
            final(self).texture == old(self).texture,
    {
        self.vertices.push(vertex);
    }

    /// Whether every index names a vertex (and the vertices can be counted in a `u32`).
    pub fn is_valid(&self) -> (r: bool)
        ensures
            r == self.is_valid_spec(),
    {
        let len = self.vertices.len();
        if len > 4294967295usize {
            return false;
        }
        let n = len as u32;
        let mut i: usize = 0;
        while i < self.indices.len()
            invariant
                n == self.vertices@.len(),
                i <= self.indices@.len(),
                forall|j: int| 0 <= j < i ==> #[trigger] self.indices@[j] < self.vertices@.len(),
            decreases self.indices@.len() - i,
        {
            if self.indices[i] >= n {
                return false;
            }
            i = i + 1;
        }
        true
    }

    pub fn is_empty(&self) -> (r: bool)
        ensures
            r == (self.indices@.len() == 0 && self.vertices@.len() == 0),
    {
        self.indices.len() == 0 && self.vertices.len() == 0
    }

    /// Makes room for more vertices and indices; the contents do not change.
    pub fn reserve_prim(&mut self, vertex_count: usize, index_count: usize)
        ensures
            final(self).vertices@ == old(self).vertices@,
            final(self).indices@ == old(self).indices@,
            final(self).texture == old(self).texture,
    {
        self.vertices.reserve(vertex_count);
        self.indices.reserve(index_count);
    }

    pub fn add_triangle(&mut self, a: u32, b: u32, c: u32)
        ensures
            final(self).indices@ == old(self).indices@.push(a).push(b).push(c),
            final(self).vertices@ == old(self).vertices@,
            final(self).texture == old(self).texture,
    {
        self.indices.push(a);
        self.indices.push(b);
        self.indices.push(c);
    }

    /// The number of vertices, as a `u32` (it wraps past `u32::MAX`).
    pub fn vertex_count(&self) -> (r: u32)
        ensures
            self.vertices@.len() <= u32::MAX ==> r == self.vertices@.len(),
    {
        self.vertices.len() as u32
    }

    /// The number of indices, as a `u32` (it wraps past `u32::MAX`).
    pub fn index_count(&self) -> (r: u32)
        ensures
            self.indices@.len() <= u32::MAX ==> r == self.indices@.len(),
    {
        self.indices.len() as u32
    }
}

impl<V: Copy> Mesh<V> {
    /// Adds the vertices and triangles of `other` after these: its indices
    /// are moved past the vertices already here.
    pub fn append(&mut self, other: &Self)
        requires
            other.is_valid_spec(),
            old(self).vertices@.len() + other.vertices@.len() <= u32::MAX,
        ensures
            is_append_of(*final(self), *old(self), *other),
    {
        let index_offset = self.vertices.len() as u32;
        let ghost old_indices = self.indices@;
        let mut i: usize = 0;
        while i < other.indices.len()
            invariant
                other.is_valid_spec(),
                index_offset == old(self).vertices@.len(),
                old(self).vertices@.len() + other.vertices@.len() <= u32::MAX,
                i <= other.indices@.len(),
                old_indices == old(self).indices@,
                self.vertices@ == old(self).vertices@,
                self.texture == old(self).texture,
                self.indices@.len() == old_indices.len() + i,
                forall|j: int| 0 <= j < old_indices.len() ==> #[trigger] self.indices@[j] == old_indices[j],
                forall|j: int|
                    0 <= j < i ==> #[trigger] self.indices@[old_indices.len() + j] == other.indices@[j]
                        + index_offset,
            decreases other.indices@.len() - i,
        {
            let index = other.indices[i];
            self.indices.push(index + index_offset);
            i = i + 1;
        }
        let mut k: usize = 0;
        let ghost old_vertices = self.vertices@;
        let ghost new_indices = self.indices@;
        while k < other.vertices.len()
            invariant
                old_vertices == old(self).vertices@,
                self.indices@ == new_indices,
                self.texture == old(self).texture,
                k <= other.vertices@.len(),
                self.vertices@ == old_vertices + other.vertices@.take(k as int),
            decreases other.vertices@.len() - k,
        {
            self.vertices.push(other.vertices[k]);
            k = k + 1;
            proof {
                assert(other.vertices@.take(k as int) =~= other.vertices@.take(k - 1).push(other.vertices@[k - 1]));
            }
        }
        proof {
            assert(other.vertices@.take(other.vertices@.len() as int) =~= other.vertices@);
        }
    }
}

} // verus!
