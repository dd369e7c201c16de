use vstd::prelude::*;
use etagere::BucketedAtlasAllocator;

use crate::math::{Rect, Size};

use super::{
    AtlasKey, AtlasKeySource, AtlasTextureId, AtlasTextureInfo, AtlasTextureList, AtlasTile,
    AtlasTileId, TextureKind,
};

verus! {

#[verifier::external_type_specification]
#[verifier::external_body]
pub struct ExBucketedAtlasAllocator(BucketedAtlasAllocator);

/// The width and height an allocator was made with (it never changes, as
/// no call here grows it).
pub uninterp spec fn allocator_size(a: BucketedAtlasAllocator) -> (int, int);

/// The ids of the live allocations of an allocator.
pub uninterp spec fn allocator_ids(a: BucketedAtlasAllocator) -> Set<u32>;

/// What `BucketedAtlasAllocator::allocate` answers for a tile of `width` by
/// `height`: the serialized id and the top-left corner of the rectangle it
/// reserves, or nothing.
pub uninterp spec fn allocate_result(a: BucketedAtlasAllocator, width: i32, height: i32) -> Option<(u32, i32, i32)>;

/// The allocator that places the tiles of one atlas texture. It is made only
/// by `new_allocator`, with etagere's default options (one column, no
/// alignment, horizontal shelves), and no tile is ever freed from it.
pub struct PageAllocator {
    alloc: BucketedAtlasAllocator,
}

impl PageAllocator {
    /// The width and height the allocator was made with.
    pub closed spec fn size(&self) -> (int, int) {
        allocator_size(self.alloc)
    }

    /// The ids of the tiles it placed.
    pub closed spec fn ids(&self) -> Set<u32> {
        allocator_ids(self.alloc)
    }

    /// Where it would place a tile of `width` by `height`: the tile's id and
    /// top-left corner, or nothing when it has no room.
    pub closed spec fn placement(&self, width: i32, height: i32) -> Option<(u32, i32, i32)> {
        allocate_result(self.alloc, width, height)
    }
}

/// Calls `etagere::BucketedAtlasAllocator::new` with default options: the
/// allocator it makes has the given size and holds no allocation. (etagere
/// asserts that each side is below `u16::MAX`.)
#[verifier::external_body]
fn new_allocator(width: i32, height: i32) -> (a: PageAllocator)
    requires
        0 <= width < 65535,
        0 <= height < 65535,
    ensures
        allocator_size(a.alloc) == (width as int, height as int),
        allocator_ids(a.alloc) == Set::<u32>::empty(),
{
    PageAllocator { alloc: BucketedAtlasAllocator::new(etagere::size2(width, height)) }
}

/// Calls `etagere::BucketedAtlasAllocator::allocate` and hands back the
/// serialized id and the top-left corner of the rectangle, which is the
/// named `allocate_result`. In the source, `allocate` returns `None` for an
/// empty size or one wider or taller than the allocator; the rectangle it
/// reserves starts at a bucket's free space and on a shelf, so it lies
/// inside the allocator, its corner is not negative and a success adds one
/// id. On an allocator with no live allocation (as no tile is freed, one
/// fresh from `new`, with its default options) a size that fits is always
/// placed: a first shelf is added for it. The rectangles it reserves do not
/// overlap and lie inside the allocator, so when the allocator's area fits
/// in an `i32` the allocated area it sums does too; a tile height up to 65472
/// keeps the shelf height it rounds up to within a `u16`. As no tile is freed, every shelf holds a tile, so the
/// merging of empty shelves (which indexes past the last shelf when an empty
/// one ends the list) finds nothing to merge and cannot panic.
#[verifier::external_body]
fn allocate(a: &mut PageAllocator, width: i32, height: i32) -> (r: Option<(u32, i32, i32)>)
    requires
        allocator_size(old(a).alloc).0 * allocator_size(old(a).alloc).1 <= i32::MAX,
        height <= 65472,
    ensures
        r == allocate_result(old(a).alloc, width, height),
        allocator_size(final(a).alloc) == allocator_size(old(a).alloc),
        r is None ==> allocator_ids(final(a).alloc) == allocator_ids(old(a).alloc),
        r matches Some((id, x, y)) ==> {
            &&& 0 < width <= allocator_size(old(a).alloc).0
            &&& 0 < height <= allocator_size(old(a).alloc).1
            &&& 0 <= x && x + width <= allocator_size(old(a).alloc).0
            &&& 0 <= y && y + height <= allocator_size(old(a).alloc).1
            &&& allocator_ids(final(a).alloc) == allocator_ids(old(a).alloc).insert(id)
        },
        allocator_ids(old(a).alloc).is_empty() && 0 < width <= allocator_size(old(a).alloc).0 && 0 < height
            <= allocator_size(old(a).alloc).1 ==> r is Some,
{
    match a.alloc.allocate(etagere::size2(width, height)) {
        Some(allocation) => Some(
            (allocation.id.serialize(), allocation.rectangle.min.x, allocation.rectangle.min.y),
        ),
        None => None,
    }
}

/// One texture of the atlas without its GPU side: its id, kind and size,
/// and the allocator that places tiles in it.
pub struct AtlasPage {
    pub id: AtlasTextureId,
    pub kind: TextureKind,
    pub size: Size<i32>,
    pub allocator: PageAllocator,
}

impl AtlasPage {
    pub open spec fn wf(&self) -> bool {
        &&& self.allocator.size() == (self.size.width as int, self.size.height as int)
        &&& 0 < self.size.width < 65535
        &&& 0 < self.size.height < 65535
        &&& self.size.width * self.size.height <= i32::MAX
        &&& self.kind == self.id.kind
    }

    /// Places a tile of `size` in this texture, where its allocator places it.
    pub fn allocate(&mut self, size: Size<i32>) -> (r: Option<AtlasTile>)
        requires
            old(self).wf(),
            size.height <= 65472,
        ensures
            final(self).wf(),
            final(self).id == old(self).id,
            final(self).kind == old(self).kind,
            final(self).size == old(self).size,
            r is Some == old(self).allocator.placement(size.width, size.height) is Some,
            r is None ==> final(self).allocator.ids() == old(self).allocator.ids(),
            r matches Some(tile) ==> {
                &&& old(self).allocator.placement(size.width, size.height) == Some(
                    (tile.id.0, tile.bounds.x, tile.bounds.y),
                )
                &&& final(self).allocator.ids() == old(self).allocator.ids().insert(tile.id.0)
                &&& tile.texture == old(self).id
                &&& tile.bounds.width == size.width
                &&& tile.bounds.height == size.height
                &&& 0 <= tile.bounds.x && tile.bounds.x + size.width <= old(self).size.width
                &&& 0 <= tile.bounds.y && tile.bounds.y + size.height <= old(self).size.height
                &&& 0 < size.width <= old(self).size.width
                &&& 0 < size.height <= old(self).size.height
            },
            old(self).allocator.ids().is_empty() && 0 < size.width <= old(self).size.width && 0
                < size.height <= old(self).size.height ==> r is Some,
    {
        match allocate(&mut self.allocator, size.width, size.height) {
            Some((id, x, y)) => Some(
                AtlasTile {
                    id: AtlasTileId(id),
                    texture: self.id,
                    bounds: Rect { x, y, width: size.width, height: size.height },
                },
            ),
            None => None,
        }
    }
}

/// What a new tile needed: a new texture of the atlas, with its id and size.
#[derive(Debug, Clone, Copy, PartialEq, Eq)]
pub struct NewAtlasTexture {
    pub id: AtlasTextureId,
    pub size: Size<i32>,
}

/// A placed tile, with the atlas texture that had to be made for it, if any.
#[derive(Debug, Clone, Copy, PartialEq, Eq)]
pub struct AtlasAllocation {
    pub tile: AtlasTile,
    pub new_texture: Option<NewAtlasTexture>,
}

/// The size of a new atlas texture: at least 1024 by 1024, and at least the tile.
pub open spec fn new_texture_size(size: Size<i32>) -> Size<i32> {
    Size {
        width: if 1024 >= size.width { 1024 } else { size.width },
        height: if 1024 >= size.height { 1024 } else { size.height },
    }
}

/// Adds a texture of `kind` that can hold a tile of `size`, in the last
/// freed slot, or else in a new slot at the end, and returns the slot.
fn push_texture(list: &mut AtlasTextureList<Option<AtlasPage>>, kind: TextureKind, size: Size<i32>) -> (slot: usize)
    requires
        list_wf(*old(list), kind),
        old(list).slots@.len() < usize::MAX,
        0 < size.width < 65535,
        0 < size.height <= 65472,
        new_texture_size(size).width * new_texture_size(size).height <= i32::MAX,
    ensures
        list_wf(*final(list), kind),
        list_grows(*old(list), *final(list)),
        slot < final(list).slots@.len(),
        slot < old(list).slots@.len() ==> old(list).slots@[slot as int] is None,
        old(list).free_slots@.len() > 0 ==> slot == old(list).free_slots@.last() && final(list).free_slots@
            == old(list).free_slots@.drop_last() && final(list).slots@.len() == old(list).slots@.len(),
        old(list).free_slots@.len() == 0 ==> slot == old(list).slots@.len() && final(list).free_slots@
            == old(list).free_slots@ && final(list).slots@.len() == old(list).slots@.len() + 1,
        final(list).slots@[slot as int] matches Some(p) && p.id == (AtlasTextureId { kind, slot })
            && p.size == new_texture_size(size) && p.allocator.ids().is_empty(),
        forall|s: int|
            0 <= s < old(list).slots@.len() && s != slot ==> #[trigger] final(list).slots@[s]
                == old(list).slots@[s],
{
    let default_size = Size { width: 1024i32, height: 1024i32 };
    let size = default_size.max(&size);
    let free = list.free_slots.pop();
    let slot = match free {
        Some(s) => s,
        None => list.slots.len(),
    };
    let allocator = new_allocator(size.width, size.height);
    let page = AtlasPage { id: AtlasTextureId { kind, slot }, kind, size, allocator };
    let ghost before = list.slots@;
    match free {
        Some(s) => {
            proof {
                assert(old(list).free_slots@[old(list).free_slots@.len() - 1] == s);
            }
            list.slots.remove(s);
            list.slots.insert(s, Some(page));
            proof {
                assert(list.slots@ =~= before.update(s as int, Some(page)));
                assert forall|f: int| 0 <= f < list.free_slots@.len() implies {
                    &&& #[trigger] list.free_slots@[f] < list.slots@.len()
                    &&& list.slots@[list.free_slots@[f] as int] is None
                } by {
                    assert(list.free_slots@[f] == old(list).free_slots@[f]);
                    assert(old(list).free_slots@[f] != s);
                }
            }
        },
        None => {
            list.slots.push(Some(page));
            proof {
                assert forall|f: int| 0 <= f < list.free_slots@.len() implies {
                    &&& #[trigger] list.free_slots@[f] < list.slots@.len()
                    &&& list.slots@[list.free_slots@[f] as int] is None
                } by {
                    assert(list.free_slots@[f] == old(list).free_slots@[f]);
                }
            }
        },
    }
    slot
}

/// The ids of the tiles placed in the texture in a slot (none for an empty slot).
pub open spec fn slot_ids(slot: Option<AtlasPage>) -> Set<u32> {
    match slot {
        Some(p) => p.allocator.ids(),
        None => Set::empty(),
    }
}

/// The ids recorded in each slot after `r.tile` was placed: its texture's
/// allocator gained the tile's id (a new texture holds that id alone), and
/// every other texture of `before` keeps its ids.
pub open spec fn tile_recorded(
    before: Seq<Option<AtlasPage>>,
    after: Seq<Option<AtlasPage>>,
    r: AtlasAllocation,
) -> bool {
    &&& forall|s: int|
        0 <= s < before.len() && s != r.tile.texture.slot ==> #[trigger] slot_ids(after[s]) == slot_ids(before[s])
    &&& after[r.tile.texture.slot as int] matches Some(p) && p.allocator.ids() == (if r.new_texture is Some {
        Set::<u32>::empty().insert(r.tile.id.0)
    } else {
        slot_ids(before[r.tile.texture.slot as int]).insert(r.tile.id.0)
    })
}

/// Every texture in `slots` from `from` on has no room for a tile of `size`.
pub open spec fn refused_from(slots: Seq<Option<AtlasPage>>, from: int, size: Size<i32>) -> bool {
    forall|s: int|
        from <= s < slots.len() ==> (#[trigger] slots[s] matches Some(p) ==> p.allocator.placement(
            size.width,
            size.height,
        ) is None)
}

/// Places a tile of `size` in a texture of `kind`: in the last texture that
/// has room for it, else in a new texture.
fn place_tile(list: &mut AtlasTextureList<Option<AtlasPage>>, kind: TextureKind, size: Size<i32>) -> (r: AtlasAllocation)
    requires
        list_wf(*old(list), kind),
        old(list).slots@.len() < usize::MAX,
        0 < size.width < 65535,
        0 < size.height <= 65472,
        new_texture_size(size).width * new_texture_size(size).height <= i32::MAX,
    ensures
        list_wf(*final(list), kind),
        list_grows(*old(list), *final(list)),
        r.tile.texture.kind == kind,
        r.tile.texture.slot < final(list).slots@.len(),
        final(list).slots@[r.tile.texture.slot as int] matches Some(p) && size.width <= p.size.width
            && size.height <= p.size.height,
        r.tile.bounds.width == size.width,
        r.tile.bounds.height == size.height,
        0 <= r.tile.bounds.x,
        0 <= r.tile.bounds.y,
        r.new_texture matches Some(t) ==> {
            &&& t.id == r.tile.texture
            &&& t.size == new_texture_size(size)
            &&& r.tile.texture.slot < old(list).slots@.len() ==> old(list).slots@[r.tile.texture.slot as int] is None
        },
        r.new_texture is None ==> r.tile.texture.slot < old(list).slots@.len() && old(list).slots@[r.tile.texture.slot as int] is Some,
        final(list).slots@[r.tile.texture.slot as int] matches Some(p) && r.tile.bounds.x + size.width
            <= p.size.width && r.tile.bounds.y + size.height <= p.size.height,
        tile_recorded(old(list).slots@, final(list).slots@, r),
        r.new_texture is Some ==> refused_from(old(list).slots@, 0, size),
        r.new_texture is None ==> {
            &&& refused_from(old(list).slots@, r.tile.texture.slot + 1, size)
            &&& old(list).slots@[r.tile.texture.slot as int] matches Some(p) && p.allocator.placement(
                size.width,
                size.height,
            ) == Some((r.tile.id.0, r.tile.bounds.x, r.tile.bounds.y))
        },
{
    let n = list.slots.len();
    let mut i: usize = n;
    while i > 0
        invariant
            list_wf(*list, kind),
            list.slots@.len() == n,
            n == old(list).slots@.len(),
            list.free_slots == old(list).free_slots,
            list_grows(*old(list), *list),
            forall|s: int| 0 <= s < n ==> (#[trigger] list.slots@[s] is Some <==> old(list).slots@[s] is Some),
            forall|s: int| 0 <= s < i ==> #[trigger] list.slots@[s] == old(list).slots@[s],
            forall|s: int| 0 <= s < n ==> #[trigger] slot_ids(list.slots@[s]) == slot_ids(old(list).slots@[s]),
            refused_from(old(list).slots@, i as int, size),
            size.height <= 65472,
            i <= n,
        decreases i,
    {
        i = i - 1;
        if list.slots[i].is_some() {
            let ghost before = *list;
            let taken = list.slots.remove(i);
            match taken {
                Some(page) => {
                    let mut page = page;
                    let placed = page.allocate(size);
                    list.slots.insert(i, Some(page));
                    proof {
                        assert(list.slots@ =~= before.slots@.update(i as int, Some(page)));
                    }
                    match placed {
                        Some(tile) => {
                            return AtlasAllocation { tile, new_texture: None };
                        },
                        None => {},
                    }
                },
                None => {
                    list.slots.insert(i, None);
                    proof {
                        assert(list.slots@ =~= before.slots@);
                    }
                },
            }
        }
    }
    let slot = push_texture(list, kind, size);
    let ghost before = *list;
    let taken = list.slots.remove(slot);
    let mut page = taken.unwrap();
    let placed = page.allocate(size);
    let texture_size = page.size;
    list.slots.insert(slot, Some(page));
    proof {
        assert(list.slots@ =~= before.slots@.update(slot as int, Some(page)));
    }
    let tile = placed.unwrap();
    AtlasAllocation {
        tile,
        new_texture: Some(NewAtlasTexture { id: AtlasTextureId { kind, slot }, size: texture_size }),
    }
}

/// The textures of the atlas by kind, and the tile of each key.
pub struct AtlasStorage {
    pub gray_textures: AtlasTextureList<Option<AtlasPage>>,
    pub color_textures: AtlasTextureList<Option<AtlasPage>>,
    pub key_to_tile: Vec<(AtlasKey, AtlasTile)>,
}

/// The slots of `list` hold textures of `kind`, each at the slot its id
/// names; the free slots are empty slots, each named once.
pub open spec fn list_wf(list: AtlasTextureList<Option<AtlasPage>>, kind: TextureKind) -> bool {
    &&& forall|s: int|
        0 <= s < list.slots@.len() ==> (#[trigger] list.slots@[s] matches Some(p) ==> {
            &&& p.wf()
            &&& p.id == AtlasTextureId { kind, slot: s as usize }
        })
    &&& forall|f: int|
        0 <= f < list.free_slots@.len() ==> {
            &&& #[trigger] list.free_slots@[f] < list.slots@.len()
            &&& list.slots@[list.free_slots@[f] as int] is None
        }
    &&& forall|f1: int, f2: int|
        0 <= f1 < f2 < list.free_slots@.len() ==> #[trigger] list.free_slots@[f1]
            != #[trigger] list.free_slots@[f2]
}

/// The id and size of the texture in a slot, if any.
pub open spec fn slot_info(slot: Option<AtlasPage>) -> Option<(AtlasTextureId, Size<i32>)> {
    match slot {
        Some(p) => Some((p.id, p.size)),
        None => None,
    }
}

/// `after` keeps every texture of `before` (by id and size) and may add some.
pub open spec fn list_grows(
    before: AtlasTextureList<Option<AtlasPage>>,
    after: AtlasTextureList<Option<AtlasPage>>,
) -> bool {
    &&& before.slots@.len() <= after.slots@.len()
    &&& forall|s: int|
        0 <= s < before.slots@.len() && #[trigger] before.slots@[s] is Some ==> slot_info(after.slots@[s])
            == slot_info(before.slots@[s])
}

impl AtlasStorage {
    pub open spec fn list(self, kind: TextureKind) -> AtlasTextureList<Option<AtlasPage>> {
        match kind {
            TextureKind::Mask => self.gray_textures,
            TextureKind::Color => self.color_textures,
        }
    }

    /// The texture a tile lies in, if the atlas has it.
    pub open spec fn texture_of(self, tile: AtlasTile) -> Option<AtlasPage> {
        let list = self.list(tile.texture.kind);
        if tile.texture.slot < list.slots@.len() {
            list.slots@[tile.texture.slot as int]
        } else {
            None
        }
    }

    /// The tile of `key`, if it has one.
    pub open spec fn tile_of(self, key: AtlasKey) -> Option<AtlasTile> {
        if exists|i: int| 0 <= i < self.key_to_tile@.len() && #[trigger] self.key_to_tile@[i].0 == key {
            let i = choose|i: int| 0 <= i < self.key_to_tile@.len() && #[trigger] self.key_to_tile@[i].0 == key;
            Some(self.key_to_tile@[i].1)
        } else {
            None
        }
    }

    /// Both lists are well formed; each key has one tile, which lies inside a
    /// texture of the atlas of the key's kind, with a non-empty extent.
    pub open spec fn wf(self) -> bool {
        &&& list_wf(self.gray_textures, TextureKind::Mask)
        &&& list_wf(self.color_textures, TextureKind::Color)
        &&& self.keys_unique()
        &&& forall|i: int| 0 <= i < self.key_to_tile@.len() ==> self.entry_ok(#[trigger] self.key_to_tile@[i])
    }

    /// No key appears twice.
    pub open spec fn keys_unique(self) -> bool {
        forall|i: int, j: int|
            0 <= i < j < self.key_to_tile@.len() ==> #[trigger] self.key_to_tile@[i].0
                != #[trigger] self.key_to_tile@[j].0
    }

    /// The tile of a key lies inside a texture of the key's kind (its corner
    /// is not negative and it ends within the texture), with a non-empty extent.
    pub open spec fn entry_ok(self, entry: (AtlasKey, AtlasTile)) -> bool {
        let (key, tile) = entry;
        &&& tile.texture.kind == key.texture_kind_spec()
        &&& self.texture_of(tile) matches Some(p) && tile.bounds.x + tile.bounds.width <= p.size.width
            && tile.bounds.y + tile.bounds.height <= p.size.height
        &&& 0 <= tile.bounds.x
        &&& 0 <= tile.bounds.y
        &&& 0 < tile.bounds.width
        &&& 0 < tile.bounds.height
    }

    /// The tile of `key` with the size of the texture it lies in, if the key
    /// has a tile.
    pub open spec fn info_of(self, key: AtlasKey) -> Option<AtlasTextureInfo> {
        match self.tile_of(key) {
            Some(tile) => match self.texture_of(tile) {
                Some(p) => Some(AtlasTextureInfo { tile, atlas_texture_size: p.size }),
                None => None,
            },
            None => None,
        }
    }

    pub fn new() -> (r: Self)
        ensures
            r.wf(),
            r.gray_textures.slots@.len() == 0,
            r.color_textures.slots@.len() == 0,
            r.key_to_tile@.len() == 0,
    {
        AtlasStorage {
            gray_textures: AtlasTextureList { slots: Vec::new(), free_slots: Vec::new() },
            color_textures: AtlasTextureList { slots: Vec::new(), free_slots: Vec::new() },
            key_to_tile: Vec::new(),
        }
    }

    /// The tile of `key`, if it has one.
    pub fn get_tile(&self, key: &AtlasKey) -> (r: Option<AtlasTile>)
        requires
            self.wf(),
        ensures
            r == self.tile_of(*key),
    {
        let mut i: usize = 0;
        while i < self.key_to_tile.len()
            invariant
                self.wf(),
                i <= self.key_to_tile@.len(),
                forall|j: int| 0 <= j < i ==> self.key_to_tile@[j].0 != *key,
            decreases self.key_to_tile@.len() - i,
        {
            if self.key_to_tile[i].0 == *key {
                proof {
                    assert(self.key_to_tile@[i as int].0 == *key);
                    let c = choose|c: int| 0 <= c < self.key_to_tile@.len() && #[trigger] self.key_to_tile@[c].0 == *key;
                    assert(c == i as int);
                }
                return Some(self.key_to_tile[i].1);
            }
            i = i + 1;
        }
        None
    }

    /// Places a tile of `size` for `key` in a texture of the key's kind and
    /// makes it the key's tile. The textures are tried from the last to the
    /// first, and the tile goes where the first one with room places it; a
    /// new texture of at least 1024 by 1024 is made only when every texture
    /// of that kind refused it.
    pub fn create_texture(&mut self, size: Size<i32>, key: AtlasKey) -> (r: AtlasAllocation)
        requires
            old(self).wf(),
            old(self).gray_textures.slots@.len() < usize::MAX,
            old(self).color_textures.slots@.len() < usize::MAX,
            0 < size.width < 65535,
            0 < size.height <= 65472,
            new_texture_size(size).width * new_texture_size(size).height <= i32::MAX,
        ensures
            final(self).wf(),
            final(self).tile_of(key) == Some(r.tile),
            forall|k: AtlasKey| k != key ==> #[trigger] final(self).tile_of(k) == old(self).tile_of(k),
            r.tile.texture.kind == key.texture_kind_spec(),
            r.tile.bounds.width == size.width,
            r.tile.bounds.height == size.height,
            final(self).texture_of(r.tile) is Some,
            list_grows(old(self).list(key.texture_kind_spec()), final(self).list(key.texture_kind_spec())),
            key.texture_kind_spec() == TextureKind::Mask ==> final(self).color_textures == old(self).color_textures,
            key.texture_kind_spec() == TextureKind::Color ==> final(self).gray_textures == old(self).gray_textures,
            r.new_texture matches Some(t) ==> {
                &&& t.id == r.tile.texture
                &&& t.size == new_texture_size(size)
                &&& old(self).texture_of(r.tile) is None
            },
            r.new_texture is None ==> old(self).texture_of(r.tile) is Some,
            tile_recorded(
                old(self).list(key.texture_kind_spec()).slots@,
                final(self).list(key.texture_kind_spec()).slots@,
                r,
            ),
            r.new_texture is Some ==> refused_from(old(self).list(key.texture_kind_spec()).slots@, 0, size),
            r.new_texture is None ==> {
                &&& refused_from(old(self).list(key.texture_kind_spec()).slots@, r.tile.texture.slot + 1, size)
                &&& old(self).texture_of(r.tile) matches Some(p) && p.allocator.placement(size.width, size.height)
                    == Some((r.tile.id.0, r.tile.bounds.x, r.tile.bounds.y))
            },
    {
        let kind = key.texture_kind();
        let ghost old_self = *self;
        let allocation = match kind {
            TextureKind::Mask => place_tile(&mut self.gray_textures, kind, size),
            TextureKind::Color => place_tile(&mut self.color_textures, kind, size),
        };
        let tile = allocation.tile;
        proof {
            lemma_entries_survive(old_self, *self);
        }
        let ghost mid = *self;
        let mut i: usize = 0;
        let n = self.key_to_tile.len();
        let mut found: usize = n;
        while i < n
            invariant
                i <= n,
                n == self.key_to_tile@.len(),
                found == n || (found < i && self.key_to_tile@[found as int].0 == key),
                found == n ==> forall|j: int| 0 <= j < i ==> self.key_to_tile@[j].0 != key,
            decreases n - i,
        {
            if found == n && self.key_to_tile[i].0 == key {
                found = i;
            }
            i = i + 1;
        }
        if found < n {
            self.key_to_tile.remove(found);
            self.key_to_tile.insert(found, (key, tile));
            proof {
                assert(self.key_to_tile@ =~= mid.key_to_tile@.update(found as int, (key, tile)));
            }
        } else {
            self.key_to_tile.push((key, tile));
        }
        proof {
            let idx = if found < n { found as int } else { n as int };
            lemma_key_set(mid, *self, key, tile, idx);
        }
        allocation
    }

    /// The tile of `key` and the size of the atlas texture it lies in.
    pub fn get_texture_info(&self, key: &AtlasKey) -> (r: Option<AtlasTextureInfo>)
        requires
            self.wf(),
        ensures
            r == self.info_of(*key),
    {
        let tile = match self.get_tile(key) {
            Some(t) => t,
            None => return None,
        };
        let list = match tile.texture.kind {
            TextureKind::Mask => &self.gray_textures,
            TextureKind::Color => &self.color_textures,
        };
        if tile.texture.slot < list.slots.len() {
            match &list.slots[tile.texture.slot] {
                Some(p) => Some(AtlasTextureInfo { tile, atlas_texture_size: p.size }),
                None => None,
            }
        } else {
            None
        }
    }
}

/// Growing the texture lists keeps every tile in its texture.
proof fn lemma_entries_survive(before: AtlasStorage, after: AtlasStorage)
    requires
        before.wf(),
        list_wf(after.gray_textures, TextureKind::Mask),
        list_wf(after.color_textures, TextureKind::Color),
        list_grows(before.gray_textures, after.gray_textures),
        list_grows(before.color_textures, after.color_textures),
        after.key_to_tile == before.key_to_tile,
    ensures
        after.wf(),
{
    assert forall|i: int| 0 <= i < after.key_to_tile@.len() implies after.entry_ok(#[trigger] after.key_to_tile@[i]) by {
        let (k, t) = after.key_to_tile@[i];
        assert(before.entry_ok(before.key_to_tile@[i]));
        let l = before.list(t.texture.kind);
        assert(l.slots@[t.texture.slot as int] is Some);
        assert(slot_info(after.list(t.texture.kind).slots@[t.texture.slot as int]) == slot_info(
            l.slots@[t.texture.slot as int],
        ));
    }
}

/// Setting the tile of `key` at `idx` (where `key` was, or at the end when
/// it was nowhere) keeps the storage well formed, gives `key` that tile and
/// keeps the tile of every other key.
proof fn lemma_key_set(before: AtlasStorage, after: AtlasStorage, key: AtlasKey, tile: AtlasTile, idx: int)
    requires
        before.wf(),
        after.gray_textures == before.gray_textures,
        after.color_textures == before.color_textures,
        after.entry_ok((key, tile)),
        0 <= idx <= before.key_to_tile@.len(),
        idx < before.key_to_tile@.len() ==> before.key_to_tile@[idx].0 == key && after.key_to_tile@
            == before.key_to_tile@.update(idx, (key, tile)),
        idx == before.key_to_tile@.len() ==> (forall|j: int|
            0 <= j < before.key_to_tile@.len() ==> before.key_to_tile@[j].0 != key) && after.key_to_tile@
            == before.key_to_tile@.push((key, tile)),
    ensures
        after.wf(),
        after.tile_of(key) == Some(tile),
        forall|k: AtlasKey| k != key ==> #[trigger] after.tile_of(k) == before.tile_of(k),
{
    assert(after.key_to_tile@[idx] == (key, tile));
    assert forall|a: int, b: int|
        0 <= a < b < after.key_to_tile@.len() implies #[trigger] after.key_to_tile@[a].0
            != #[trigger] after.key_to_tile@[b].0 by {
        if a != idx {
            assert(after.key_to_tile@[a] == before.key_to_tile@[a]);
        }
        if b != idx {
            assert(after.key_to_tile@[b] == before.key_to_tile@[b]);
        }
    }
    assert forall|j: int| 0 <= j < after.key_to_tile@.len() implies after.entry_ok(#[trigger] after.key_to_tile@[j]) by {
        if j != idx {
            assert(after.key_to_tile@[j] == before.key_to_tile@[j]);
            assert(before.entry_ok(before.key_to_tile@[j]));
        }
    }
    let c = choose|c: int| 0 <= c < after.key_to_tile@.len() && #[trigger] after.key_to_tile@[c].0 == key;
    assert(c == idx);
    assert forall|k: AtlasKey| k != key implies #[trigger] after.tile_of(k) == before.tile_of(k) by {
        if exists|j: int| 0 <= j < before.key_to_tile@.len() && #[trigger] before.key_to_tile@[j].0 == k {
            let j = choose|j: int| 0 <= j < before.key_to_tile@.len() && #[trigger] before.key_to_tile@[j].0 == k;
            assert(after.key_to_tile@[j] == before.key_to_tile@[j]);
            let c2 = choose|c2: int| 0 <= c2 < after.key_to_tile@.len() && #[trigger] after.key_to_tile@[c2].0 == k;
            if c2 != j {
                if c2 < j {
                    assert(after.key_to_tile@[c2].0 != after.key_to_tile@[j].0);
                } else {
                    assert(after.key_to_tile@[j].0 != after.key_to_tile@[c2].0);
                }
            }
        } else {
            assert forall|j: int| 0 <= j < after.key_to_tile@.len() implies #[trigger] after.key_to_tile@[j].0 != k by {
                if j != idx {
                    assert(after.key_to_tile@[j] == before.key_to_tile@[j]);
                }
            }
        }
    }
}

} // verus!
