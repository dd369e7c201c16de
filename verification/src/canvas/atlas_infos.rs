use vstd::prelude::*;

use crate::paint::{AtlasKey, AtlasStorage, AtlasTextureInfo, TextureId};

verus! {

/// The atlas tiles a canvas has looked up, each with the size of the atlas
/// texture it lies in, by atlas key.
#[derive(Debug)]
pub struct AtlasInfoMap {
    pub entries: Vec<(AtlasKey, AtlasTextureInfo)>,
}

impl AtlasInfoMap {
    /// No key appears twice.
    pub open spec fn wf(&self) -> bool {
        forall|i: int, j: int|
            0 <= i < j < self.entries@.len() ==> #[trigger] self.entries@[i].0 != #[trigger] self.entries@[j].0
    }

    /// The info looked up for `key`, if any.
    pub open spec fn info_of(&self, key: AtlasKey) -> Option<AtlasTextureInfo> {
        if exists|i: int| 0 <= i < self.entries@.len() && #[trigger] self.entries@[i].0 == key {
            let i = choose|i: int| 0 <= i < self.entries@.len() && #[trigger] self.entries@[i].0 == key;
            Some(self.entries@[i].1)
        } else {
            None
        }
    }

    pub fn new() -> (r: Self)
        ensures
            r.wf(),
            forall|k: AtlasKey| #[trigger] r.info_of(k) is None,
    {
        AtlasInfoMap { entries: Vec::new() }
    }

    /// The info looked up for `key`, if any.
    pub fn get(&self, key: &AtlasKey) -> (r: Option<AtlasTextureInfo>)
        requires
            self.wf(),
        ensures
            r == self.info_of(*key),
    {
        let mut i: usize = 0;
        while i < self.entries.len()
            invariant
                self.wf(),
                i <= self.entries@.len(),
                forall|j: int| 0 <= j < i ==> self.entries@[j].0 != *key,
            decreases self.entries@.len() - i,
        {
            if self.entries[i].0 == *key {
                proof {
                    let c = choose|c: int| 0 <= c < self.entries@.len() && #[trigger] self.entries@[c].0 == *key;
                    assert(self.entries@[i as int].0 == *key);
                    if c != i {
                        if c < i {
                            assert(self.entries@[c].0 != self.entries@[i as int].0);
                        } else {
                            assert(self.entries@[i as int].0 != self.entries@[c].0);
                        }
                    }
                }
                return Some(self.entries[i].1);
            }
            i = i + 1;
        }
        None
    }

    /// Looks up in `storage` each of `keys` not looked up yet, and keeps
    /// what is found; a key the atlas has no tile for stays unknown.
    pub fn prepare(&mut self, keys: &[AtlasKey], storage: &AtlasStorage)
        requires
            old(self).wf(),
            storage.wf(),
        ensures
            final(self).wf(),
            is_prepared(*old(self), *final(self), keys@, *storage),
    {
        let mut i: usize = 0;
        while i < keys.len()
            invariant
                i <= keys@.len(),
                self.wf(),
                storage.wf(),
                forall|k: AtlasKey| #[trigger] self.info_of(k) == (if old(self).info_of(k) is Some {
                    old(self).info_of(k)
                } else if keys@.subrange(0, i as int).contains(k) {
                    storage.info_of(k)
                } else {
                    None
                }),
            decreases keys@.len() - i,
        {
            let key = keys[i];
            let ghost before = *self;
            let known = self.get(&key);
            if known.is_none() {
                let info = storage.get_texture_info(&key);
                if let Some(info) = info {
                    self.entries.push((key, info));
                    proof {
                        lemma_info_after_push(before, *self, key, info);
                    }
                }
            }
            proof {
                assert forall|k: AtlasKey| #[trigger] self.info_of(k) == (if old(self).info_of(k) is Some {
                    old(self).info_of(k)
                } else if keys@.subrange(0, i + 1).contains(k) {
                    storage.info_of(k)
                } else {
                    None
                }) by {
                    let in_before = keys@.subrange(0, i as int).contains(k);
                    let in_after = keys@.subrange(0, i + 1).contains(k);
                    if in_after && !in_before {
                        let w = choose|w: int| 0 <= w < i + 1 && #[trigger] keys@.subrange(0, i + 1)[w] == k;
                        if w < i {
                            assert(keys@.subrange(0, i as int)[w] == k);
                        }
                        assert(k == key);
                    }
                    if in_before {
                        let w = choose|w: int| 0 <= w < i && #[trigger] keys@.subrange(0, i as int)[w] == k;
                        assert(keys@.subrange(0, i + 1)[w] == k);
                    }
                    if k == key {
                        assert(keys@.subrange(0, i + 1)[i as int] == k);
                    }
                    assert(before.info_of(k) == (if old(self).info_of(k) is Some {
                        old(self).info_of(k)
                    } else if in_before {
                        storage.info_of(k)
                    } else {
                        None
                    }));
                }
            }
            i = i + 1;
        }
        proof {
            assert(keys@.subrange(0, keys@.len() as int) =~= keys@);
        }
    }

    /// The texture the renderer draws `texture` with, where it names an atlas
    /// key whose info is known: the atlas texture its tile lies in.
    pub fn renderer_texture(&self, texture: &TextureId) -> (r: Option<TextureId>)
        requires
            self.wf(),
        ensures
            r == (match *texture {
                TextureId::AtlasKey(key) => match self.info_of(key) {
                    Some(info) => Some(TextureId::Atlas(info.tile.texture)),
                    None => None,
                },
                _ => None,
            }),
    {
        match texture {
            TextureId::AtlasKey(key) => match self.get(key) {
                Some(info) => Some(TextureId::Atlas(info.tile.texture)),
                None => None,
            },
            _ => None,
        }
    }
}

/// `after` knows what `before` knew, and for each of `keys` that `before`
/// did not know, what `storage` has for it.
pub open spec fn is_prepared(before: AtlasInfoMap, after: AtlasInfoMap, keys: Seq<AtlasKey>, storage: AtlasStorage) -> bool {
    forall|k: AtlasKey| #[trigger] after.info_of(k) == (if before.info_of(k) is Some {
        before.info_of(k)
    } else if keys.contains(k) {
        storage.info_of(k)
    } else {
        None
    })
}

/// Preparing the same keys against the same atlas a second time changes
/// nothing.
pub proof fn lemma_prepare_idempotent(
    m0: AtlasInfoMap,
    m1: AtlasInfoMap,
    m2: AtlasInfoMap,
    keys: Seq<AtlasKey>,
    storage: AtlasStorage,
)
    requires
        is_prepared(m0, m1, keys, storage),
        is_prepared(m1, m2, keys, storage),
    ensures
        forall|k: AtlasKey| #[trigger] m2.info_of(k) == m1.info_of(k),
{
    assert forall|k: AtlasKey| #[trigger] m2.info_of(k) == m1.info_of(k) by {
        assert(m1.info_of(k) == (if m0.info_of(k) is Some {
            m0.info_of(k)
        } else if keys.contains(k) {
            storage.info_of(k)
        } else {
            None
        }));
    }
}

/// Adding an entry for a key that had none keeps the keys apart, gives the
/// key that entry and keeps every other key's entry.
proof fn lemma_info_after_push(before: AtlasInfoMap, after: AtlasInfoMap, key: AtlasKey, info: AtlasTextureInfo)
    requires
        before.wf(),
        before.info_of(key) is None,
        after.entries@ == before.entries@.push((key, info)),
    ensures
        after.wf(),
        after.info_of(key) == Some(info),
        forall|k: AtlasKey| k != key ==> #[trigger] after.info_of(k) == before.info_of(k),
{
    let n = before.entries@.len() as int;
    assert forall|j: int| 0 <= j < n implies before.entries@[j].0 != key by {
        if before.entries@[j].0 == key {
            assert(exists|i: int| 0 <= i < before.entries@.len() && #[trigger] before.entries@[i].0 == key);
        }
    }
    assert forall|a: int, b: int| 0 <= a < b < after.entries@.len() implies #[trigger] after.entries@[a].0
        != #[trigger] after.entries@[b].0 by {
        if b == n {
            assert(after.entries@[a] == before.entries@[a]);
        } else {
            assert(after.entries@[a] == before.entries@[a]);
            assert(after.entries@[b] == before.entries@[b]);
        }
    }
    assert(after.entries@[n].0 == key);
    let c = choose|c: int| 0 <= c < after.entries@.len() && #[trigger] after.entries@[c].0 == key;
    if c != n {
        assert(after.entries@[c] == before.entries@[c]);
    }
    assert forall|k: AtlasKey| k != key implies #[trigger] after.info_of(k) == before.info_of(k) by {
        if exists|j: int| 0 <= j < before.entries@.len() && #[trigger] before.entries@[j].0 == k {
            let j = choose|j: int| 0 <= j < before.entries@.len() && #[trigger] before.entries@[j].0 == k;
            assert(after.entries@[j] == before.entries@[j]);
            let c2 = choose|c2: int| 0 <= c2 < after.entries@.len() && #[trigger] after.entries@[c2].0 == k;
            if c2 != j {
                if c2 < j {
                    assert(after.entries@[c2].0 != after.entries@[j].0);
                } else {
                    assert(after.entries@[j].0 != after.entries@[c2].0);
                }
            }
        } else {
            assert forall|j: int| 0 <= j < after.entries@.len() implies #[trigger] after.entries@[j].0 != k by {
                if j < n {
                    assert(after.entries@[j] == before.entries@[j]);
                }
            }
        }
    }
}

} // verus!
