use vstd::prelude::*;
use std::collections::VecDeque;

use super::{AtlasKey, TextureId};

verus! {

/// Drawing instructions in the order they were added.
#[derive(Debug)]
pub struct RenderList<I> {
    pub instructions: Vec<I>,
}

impl<I> Default for RenderList<I> {
    fn default() -> (r: Self)
        ensures
            r.instructions@.len() == 0,
    {
        RenderList { instructions: Vec::new() }
    }
}

impl<I> RenderList<I> {
    pub fn add(&mut self, instruction: I)
        ensures
            final(self).instructions@ == old(self).instructions@.push(instruction),
    {
        self.instructions.push(instruction)
    }

    /// Empties the list and hands back what it held.
    pub fn clear(&mut self) -> (r: Vec<I>)
        ensures
            r@ == old(self).instructions@,
            final(self).instructions@.len() == 0,
    {
        let mut old: Vec<I> = Vec::new();
        std::mem::swap(&mut old, &mut self.instructions);
        old
    }

    pub fn is_empty(&self) -> (r: bool)
        ensures
            r == (self.instructions@.len() == 0),
    {
        self.instructions.len() == 0
    }
}

/// Each texture of `textures`, once.
pub fn required_textures(textures: &[TextureId]) -> (r: Vec<TextureId>)
    ensures
        forall|i: int| 0 <= i < textures@.len() ==> r@.contains(#[trigger] textures@[i]),
        forall|k: int| 0 <= k < r@.len() ==> textures@.contains(#[trigger] r@[k]),
        forall|k1: int, k2: int| 0 <= k1 < k2 < r@.len() ==> r@[k1] != r@[k2],
{
    let mut out: Vec<TextureId> = Vec::new();
    let mut i: usize = 0;
    while i < textures.len()
        invariant
            i <= textures@.len(),
            forall|j: int| 0 <= j < i ==> out@.contains(#[trigger] textures@[j]),
            forall|k: int| 0 <= k < out@.len() ==> textures@.contains(#[trigger] out@[k]),
            forall|k1: int, k2: int| 0 <= k1 < k2 < out@.len() ==> out@[k1] != out@[k2],
        decreases textures@.len() - i,
    {
        let t = textures[i];
        let mut found = false;
        let mut k: usize = 0;
        while k < out.len()
            invariant
                k <= out@.len(),
                found ==> out@.contains(t),
                !found ==> forall|q: int| 0 <= q < k ==> out@[q] != t,
            decreases out@.len() - k,
        {
            if out[k] == t {
                found = true;
            }
            k = k + 1;
        }
        if !found {
            let ghost old_out = out@;
            proof {
                assert(textures@[i as int] == t);
            }
            out.push(t);
            proof {
                assert(out@[out@.len() - 1] == t);
                assert forall|j: int| 0 <= j <= i implies out@.contains(#[trigger] textures@[j]) by {
                    if j < i {
                        assert(old_out.contains(textures@[j]));
                        let q = choose|q: int| 0 <= q < old_out.len() && old_out[q] == textures@[j];
                        assert(out@[q] == old_out[q]);
                    } else {
                        assert(out@[out@.len() - 1] == textures@[j]);
                    }
                }
                assert forall|k: int| 0 <= k < out@.len() implies textures@.contains(#[trigger] out@[k]) by {
                    if k < old_out.len() {
                        assert(out@[k] == old_out[k]);
                    } else {
                        assert(textures@[i as int] == out@[k]);
                    }
                }
            }
        }
        i = i + 1;
    }
    out
}

/// The atlas keys that `textures` name, each once.
pub fn required_atlas_keys(textures: &[TextureId]) -> (r: Vec<AtlasKey>)
    ensures
        forall|i: int|
            0 <= i < textures@.len() ==> (#[trigger] textures@[i] matches TextureId::AtlasKey(k) ==> r@.contains(k)),
        forall|k: int| 0 <= k < r@.len() ==> textures@.contains(TextureId::AtlasKey(#[trigger] r@[k])),
        forall|k1: int, k2: int| 0 <= k1 < k2 < r@.len() ==> r@[k1] != r@[k2],
{
    let mut out: Vec<AtlasKey> = Vec::new();
    let mut i: usize = 0;
    while i < textures.len()
        invariant
            i <= textures@.len(),
            forall|j: int|
                0 <= j < i ==> (#[trigger] textures@[j] matches TextureId::AtlasKey(k) ==> out@.contains(k)),
            forall|k: int| 0 <= k < out@.len() ==> textures@.contains(TextureId::AtlasKey(#[trigger] out@[k])),
            forall|k1: int, k2: int| 0 <= k1 < k2 < out@.len() ==> out@[k1] != out@[k2],
        decreases textures@.len() - i,
    {
        if let TextureId::AtlasKey(key) = textures[i] {
            let mut found = false;
            let mut k: usize = 0;
            while k < out.len()
                invariant
                    k <= out@.len(),
                    found ==> out@.contains(key),
                    !found ==> forall|q: int| 0 <= q < k ==> out@[q] != key,
                decreases out@.len() - k,
            {
                if out[k] == key {
                    found = true;
                }
                k = k + 1;
            }
            if !found {
                let ghost old_out = out@;
                out.push(key);
                proof {
                    assert forall|j: int|
                        0 <= j <= i implies (#[trigger] textures@[j] matches TextureId::AtlasKey(kk) ==> out@.contains(kk)) by {
                        if let TextureId::AtlasKey(kk) = textures@[j] {
                            if j < i {
                                let q = choose|q: int| 0 <= q < old_out.len() && old_out[q] == kk;
                                assert(out@[q] == old_out[q]);
                            } else {
                                assert(out@[old_out.len() as int] == kk);
                            }
                        }
                    }
                    assert forall|k: int| 0 <= k < out@.len() implies textures@.contains(
                        TextureId::AtlasKey(#[trigger] out@[k]),
                    ) by {
                        if k < old_out.len() {
                            assert(out@[k] == old_out[k]);
                        } else {
                            assert(textures@[i as int] == TextureId::AtlasKey(out@[k]));
                        }
                    }
                }
            }
        }
        i = i + 1;
    }
    out
}

/// The instructions drawn with one renderer texture, by their indices.
#[derive(Debug)]
pub struct Group {
    pub render_texture: TextureId,
    pub entries: Vec<usize>,
}

/// Groups of instruction indices by renderer texture: every instruction
/// with a renderer texture lies in the one group of that texture, the
/// entries of a group increase, no two groups share a texture, and groups
/// come in the order of their first entries.
pub open spec fn is_grouping(render: Seq<Option<TextureId>>, groups: Seq<Group>) -> bool {
    &&& forall|g: int| 0 <= g < groups.len() ==> #[trigger] groups[g].entries@.len() > 0
    &&& forall|g: int, k: int|
        0 <= g < groups.len() && 0 <= k < groups[g].entries@.len() ==> {
            &&& #[trigger] groups[g].entries@[k] < render.len()
            &&& render[groups[g].entries@[k] as int] == Some(groups[g].render_texture)
        }
    &&& forall|g: int, k1: int, k2: int|
        0 <= g < groups.len() && 0 <= k1 < k2 < groups[g].entries@.len() ==> #[trigger] groups[g].entries@[k1]
            < #[trigger] groups[g].entries@[k2]
    &&& forall|g1: int, g2: int|
        0 <= g1 < g2 < groups.len() ==> #[trigger] groups[g1].render_texture
            != #[trigger] groups[g2].render_texture
    &&& forall|g1: int, g2: int|
        0 <= g1 < g2 < groups.len() ==> #[trigger] groups[g1].entries@[0] < #[trigger] groups[g2].entries@[0]
    &&& forall|i: int|
        0 <= i < render.len() && #[trigger] render[i] is Some ==> exists|g: int|
            0 <= g < groups.len() && #[trigger] groups[g].entries@.contains(i as usize)
}

/// Groups the instructions by the texture bound to the renderer; an
/// instruction with no renderer texture (`None`) is left out.
pub fn group_by_render_texture(render: &[Option<TextureId>]) -> (r: Vec<Group>)
    ensures
        is_grouping(render@, r@),
{
    let mut groups: Vec<Group> = Vec::new();
    let mut i: usize = 0;
    while i < render.len()
        invariant
            i <= render@.len(),
            is_grouping(render@.take(i as int), groups@),
            forall|g: int, k: int|
                0 <= g < groups@.len() && 0 <= k < groups@[g].entries@.len() ==> #[trigger] groups@[g].entries@[k]
                    < i,
        decreases render@.len() - i,
    {
        if let Some(t) = render[i] {
            let mut found: usize = groups.len();
            let mut g: usize = 0;
            while g < groups.len()
                invariant
                    g <= groups@.len(),
                    found == groups@.len() || (found < g && groups@[found as int].render_texture == t),
                    found == groups@.len() ==> forall|q: int| 0 <= q < g ==> groups@[q].render_texture != t,
                decreases groups@.len() - g,
            {
                if found == groups.len() && groups[g].render_texture == t {
                    found = g;
                }
                g = g + 1;
            }
            let ghost old_groups = groups@;
            if found < groups.len() {
                let mut grp = groups.remove(found);
                grp.entries.push(i);
                groups.insert(found, grp);
                proof {
                    assert(groups@ =~= old_groups.update(found as int, groups@[found as int]));
                    lemma_grouping_extend(render@, old_groups, groups@, i as int, found as int);
                }
            } else {
                let mut entries: Vec<usize> = Vec::new();
                entries.push(i);
                groups.push(Group { render_texture: t, entries });
                proof {
                    lemma_grouping_new(render@, old_groups, groups@, i as int);
                }
            }
        } else {
            proof {
                lemma_grouping_skip(render@, groups@, i as int);
            }
        }
        i = i + 1;
    }
    proof {
        assert(render@.take(render@.len() as int) =~= render@);
    }
    groups
}

proof fn lemma_grouping_skip(render: Seq<Option<TextureId>>, groups: Seq<Group>, i: int)
    requires
        render.len() <= usize::MAX,
        0 <= i < render.len(),
        render[i] is None,
        is_grouping(render.take(i), groups),
        forall|g: int, k: int|
            0 <= g < groups.len() && 0 <= k < groups[g].entries@.len() ==> #[trigger] groups[g].entries@[k] < i,
    ensures
        is_grouping(render.take(i + 1), groups),
{
    let p = render.take(i);
    let q = render.take(i + 1);
    assert forall|g: int, k: int|
        0 <= g < groups.len() && 0 <= k < groups[g].entries@.len() implies {
            &&& #[trigger] groups[g].entries@[k] < q.len()
            &&& q[groups[g].entries@[k] as int] == Some(groups[g].render_texture)
        } by {
        let e = groups[g].entries@[k] as int;
        assert(p[e] == Some(groups[g].render_texture));
        assert(q[e] == render[e] && p[e] == render[e]);
    }
    assert forall|j: int| 0 <= j < q.len() && #[trigger] q[j] is Some implies exists|g: int|
        0 <= g < groups.len() && #[trigger] groups[g].entries@.contains(j as usize) by {
        assert(p[j] == q[j]);
    }
}

proof fn lemma_grouping_new(render: Seq<Option<TextureId>>, old_groups: Seq<Group>, groups: Seq<Group>, i: int)
    requires
        render.len() <= usize::MAX,
        0 <= i < render.len(),
        render[i] is Some,
        is_grouping(render.take(i), old_groups),
        forall|g: int, k: int|
            0 <= g < old_groups.len() && 0 <= k < old_groups[g].entries@.len() ==> #[trigger] old_groups[g].entries@[k]
                < i,
        forall|q: int| 0 <= q < old_groups.len() ==> old_groups[q].render_texture != render[i]->Some_0,
        groups.len() == old_groups.len() + 1,
        forall|g: int| 0 <= g < old_groups.len() ==> #[trigger] groups[g] == old_groups[g],
        groups.last().render_texture == render[i]->Some_0,
        groups.last().entries@ == seq![i as usize],
    ensures
        is_grouping(render.take(i + 1), groups),
        forall|g: int, k: int|
            0 <= g < groups.len() && 0 <= k < groups[g].entries@.len() ==> #[trigger] groups[g].entries@[k] < i + 1,
{
    let p = render.take(i);
    let q = render.take(i + 1);
    let n = old_groups.len() as int;
    assert(groups[n].entries@[0] == i as usize);
    assert forall|g: int, k: int|
        0 <= g < groups.len() && 0 <= k < groups[g].entries@.len() implies {
            &&& #[trigger] groups[g].entries@[k] < q.len()
            &&& q[groups[g].entries@[k] as int] == Some(groups[g].render_texture)
        } by {
        if g < n {
            assert(groups[g] == old_groups[g]);
            let e = old_groups[g].entries@[k] as int;
            assert(p[e] == Some(old_groups[g].render_texture));
            assert(q[e] == render[e] && p[e] == render[e]);
        } else {
            assert(groups[g].entries@[k] == i as usize);
            assert(q[i] == render[i]);
        }
    }
    assert forall|g: int, k: int|
        0 <= g < groups.len() && 0 <= k < groups[g].entries@.len() implies #[trigger] groups[g].entries@[k] < i + 1 by {
        if g < n {
            assert(groups[g] == old_groups[g]);
        }
    }
    assert forall|g: int| 0 <= g < groups.len() implies #[trigger] groups[g].entries@.len() > 0 by {
        if g < n {
            assert(groups[g] == old_groups[g]);
        }
    }
    assert forall|g: int, k1: int, k2: int|
        0 <= g < groups.len() && 0 <= k1 < k2 < groups[g].entries@.len() implies #[trigger] groups[g].entries@[k1]
            < #[trigger] groups[g].entries@[k2] by {
        if g < n {
            assert(groups[g] == old_groups[g]);
        }
    }
    assert forall|g1: int, g2: int| 0 <= g1 < g2 < groups.len() implies #[trigger] groups[g1].render_texture
        != #[trigger] groups[g2].render_texture by {
        assert(groups[g1] == old_groups[g1]);
        if g2 < n {
            assert(groups[g2] == old_groups[g2]);
        }
    }
    assert forall|g1: int, g2: int| 0 <= g1 < g2 < groups.len() implies #[trigger] groups[g1].entries@[0]
        < #[trigger] groups[g2].entries@[0] by {
        assert(groups[g1] == old_groups[g1]);
        if g2 < n {
            assert(groups[g2] == old_groups[g2]);
        } else {
            assert(old_groups[g1].entries@[0] < i);
        }
    }
    assert forall|j: int| 0 <= j < q.len() && #[trigger] q[j] is Some implies exists|g: int|
        0 <= g < groups.len() && #[trigger] groups[g].entries@.contains(j as usize) by {
        if j < i {
            assert(p[j] == q[j]);
            let g = choose|g: int| 0 <= g < old_groups.len() && #[trigger] old_groups[g].entries@.contains(j as usize);
            assert(groups[g] == old_groups[g]);
            assert(groups[g].entries@.contains(j as usize));
        } else {
            assert(groups[n].entries@[0] == j as usize);
            assert(groups[n].entries@.contains(j as usize));
        }
    }
}

proof fn lemma_grouping_extend(
    render: Seq<Option<TextureId>>,
    old_groups: Seq<Group>,
    groups: Seq<Group>,
    i: int,
    f: int,
)
    requires
        render.len() <= usize::MAX,
        0 <= i < render.len(),
        0 <= f < old_groups.len(),
        render[i] == Some(old_groups[f].render_texture),
        is_grouping(render.take(i), old_groups),
        forall|g: int, k: int|
            0 <= g < old_groups.len() && 0 <= k < old_groups[g].entries@.len() ==> #[trigger] old_groups[g].entries@[k]
                < i,
        groups.len() == old_groups.len(),
        forall|g: int| 0 <= g < groups.len() && g != f ==> #[trigger] groups[g] == old_groups[g],
        groups[f].render_texture == old_groups[f].render_texture,
        groups[f].entries@ == old_groups[f].entries@.push(i as usize),
    ensures
        is_grouping(render.take(i + 1), groups),
        forall|g: int, k: int|
            0 <= g < groups.len() && 0 <= k < groups[g].entries@.len() ==> #[trigger] groups[g].entries@[k] < i + 1,
{
    let p = render.take(i);
    let q = render.take(i + 1);
    assert forall|g: int, k: int|
        0 <= g < groups.len() && 0 <= k < groups[g].entries@.len() implies {
            &&& #[trigger] groups[g].entries@[k] < q.len()
            &&& q[groups[g].entries@[k] as int] == Some(groups[g].render_texture)
        } by {
        if g != f {
            assert(groups[g] == old_groups[g]);
            let e = old_groups[g].entries@[k] as int;
            assert(p[e] == Some(old_groups[g].render_texture));
            assert(q[e] == render[e] && p[e] == render[e]);
        } else if k < old_groups[f].entries@.len() {
            assert(groups[f].entries@[k] == old_groups[f].entries@[k]);
            let e = old_groups[f].entries@[k] as int;
            assert(p[e] == Some(old_groups[f].render_texture));
            assert(q[e] == render[e] && p[e] == render[e]);
        } else {
            assert(groups[f].entries@[k] == i as usize);
            assert(q[i] == render[i]);
        }
    }
    assert forall|g: int, k: int|
        0 <= g < groups.len() && 0 <= k < groups[g].entries@.len() implies #[trigger] groups[g].entries@[k] < i + 1 by {
        if g != f {
            assert(groups[g] == old_groups[g]);
        } else if k < old_groups[f].entries@.len() {
            assert(groups[f].entries@[k] == old_groups[f].entries@[k]);
        }
    }
    assert forall|g: int| 0 <= g < groups.len() implies #[trigger] groups[g].entries@.len() > 0 by {
        if g != f {
            assert(groups[g] == old_groups[g]);
        }
    }
    assert forall|g: int, k1: int, k2: int|
        0 <= g < groups.len() && 0 <= k1 < k2 < groups[g].entries@.len() implies #[trigger] groups[g].entries@[k1]
            < #[trigger] groups[g].entries@[k2] by {
        if g != f {
            assert(groups[g] == old_groups[g]);
        } else {
            assert(groups[f].entries@[k1] == old_groups[f].entries@[k1]);
            if k2 < old_groups[f].entries@.len() {
                assert(groups[f].entries@[k2] == old_groups[f].entries@[k2]);
            } else {
                assert(groups[f].entries@[k2] == i as usize);
                assert(old_groups[f].entries@[k1] < i);
            }
        }
    }
    assert forall|g1: int, g2: int| 0 <= g1 < g2 < groups.len() implies #[trigger] groups[g1].render_texture
        != #[trigger] groups[g2].render_texture by {
        if g1 != f {
            assert(groups[g1] == old_groups[g1]);
        }
        if g2 != f {
            assert(groups[g2] == old_groups[g2]);
        }
    }
    assert forall|g1: int, g2: int| 0 <= g1 < g2 < groups.len() implies #[trigger] groups[g1].entries@[0]
        < #[trigger] groups[g2].entries@[0] by {
        if g1 != f {
            assert(groups[g1] == old_groups[g1]);
        } else {
            assert(groups[f].entries@[0] == old_groups[f].entries@[0]);
        }
        if g2 != f {
            assert(groups[g2] == old_groups[g2]);
        } else {
            assert(groups[f].entries@[0] == old_groups[f].entries@[0]);
        }
    }
    assert forall|j: int| 0 <= j < q.len() && #[trigger] q[j] is Some implies exists|g: int|
        0 <= g < groups.len() && #[trigger] groups[g].entries@.contains(j as usize) by {
        if j < i {
            assert(p[j] == q[j]);
            let g = choose|g: int| 0 <= g < old_groups.len() && #[trigger] old_groups[g].entries@.contains(j as usize);
            let k = choose|k: int| 0 <= k < old_groups[g].entries@.len() && old_groups[g].entries@[k] == j as usize;
            if g != f {
                assert(groups[g] == old_groups[g]);
            } else {
                assert(groups[f].entries@[k] == j as usize);
            }
            assert(groups[g].entries@.contains(j as usize));
        } else {
            let last = old_groups[f].entries@.len() as int;
            assert(groups[f].entries@[last] == j as usize);
            assert(groups[f].entries@.contains(j as usize));
        }
    }
}

/// Hands out the groups of instructions one renderer texture at a time, in
/// the order of their first instruction.
pub struct InstructionBatcher {
    pub groups: VecDeque<Group>,
}

impl InstructionBatcher {
    pub fn new(render: &[Option<TextureId>]) -> (r: Self)
        ensures
            is_grouping(render@, r.groups@),
    {
        let mut grouped = group_by_render_texture(render);
        let ghost all = grouped@;
        let mut groups: VecDeque<Group> = VecDeque::new();
        while grouped.len() > 0
            invariant
                grouped@ == all.take(grouped@.len() as int),
                groups@ == all.skip(grouped@.len() as int),
                grouped@.len() <= all.len(),
            decreases grouped@.len(),
        {
            let g = grouped.pop().unwrap();
            groups.push_front(g);
            proof {
                assert(grouped@ =~= all.take(grouped@.len() as int));
                assert(groups@ =~= all.skip(grouped@.len() as int));
            }
        }
        proof {
            assert(groups@ =~= all);
        }
        InstructionBatcher { groups }
    }

    /// The next group, or `None` when all were handed out.
    pub fn next(&mut self) -> (r: Option<InstructionBatch>)
        ensures
            old(self).groups@.len() == 0 ==> r.is_none() && final(self).groups@.len() == 0,
            old(self).groups@.len() > 0 ==> r.is_some() && r.unwrap().group == old(self).groups@[0]
                && r.unwrap().idx == 0 && final(self).groups@ == old(self).groups@.drop_first(),
    {
        match self.groups.pop_front() {
            Some(group) => Some(InstructionBatch { group, idx: 0 }),
            None => None,
        }
    }
}

/// The instructions of one group, handed out one index at a time.
pub struct InstructionBatch {
    pub group: Group,
    pub idx: usize,
}

impl InstructionBatch {
    pub fn render_texture(&self) -> (r: TextureId)
        ensures
            r == self.group.render_texture,
    {
        self.group.render_texture
    }

    /// The next instruction index of the group, or `None` at the end.
    pub fn next(&mut self) -> (r: Option<usize>)
        ensures
            final(self).group == old(self).group,
            old(self).idx < old(self).group.entries@.len() ==> r == Some(
                old(self).group.entries@[old(self).idx as int],
            ) && final(self).idx == old(self).idx + 1,
            old(self).idx >= old(self).group.entries@.len() ==> r.is_none() && final(self).idx
                == old(self).idx,
    {
        if self.idx >= self.group.entries.len() {
            return None;
        }
        let entry = self.group.entries[self.idx];
        self.idx = self.idx + 1;
        Some(entry)
    }
}

} // verus!
