use skie_draw::canvas::AtlasInfoMap;
use skie_draw::paint::{
    AtlasImage, AtlasKey, AtlasStorage, AtlasTextureId, AtlasTextureList, TextureId, TextureKind,
};
use skie_draw::Size;

#[test]
fn first_tile_makes_a_texture() {
    let mut storage = AtlasStorage::new();
    let key = AtlasKey::Image(AtlasImage::new(1));
    let a = storage.create_texture(Size::new(16, 8), key);
    assert_eq!(a.tile.texture, AtlasTextureId { kind: TextureKind::Color, slot: 0 });
    assert_eq!(a.tile.bounds.width, 16);
    assert_eq!(a.tile.bounds.height, 8);
    let new_texture = a.new_texture.expect("a texture is made for the first tile");
    assert_eq!(new_texture.id, a.tile.texture);
    assert_eq!(new_texture.size, Size::new(1024, 1024));
    assert_eq!(storage.get_tile(&key), Some(a.tile));
}

#[test]
fn later_tiles_reuse_the_texture() {
    let mut storage = AtlasStorage::new();
    let k1 = AtlasKey::Image(AtlasImage::new(1));
    let k2 = AtlasKey::Image(AtlasImage::new(2));
    let a = storage.create_texture(Size::new(32, 32), k1);
    let b = storage.create_texture(Size::new(32, 32), k2);
    assert!(b.new_texture.is_none());
    assert_eq!(b.tile.texture, a.tile.texture);
    assert_ne!(a.tile.bounds, b.tile.bounds);
    assert_eq!(storage.get_tile(&k1), Some(a.tile));
    assert_eq!(storage.get_tile(&k2), Some(b.tile));
}

#[test]
fn mask_and_color_tiles_live_apart() {
    let mut storage = AtlasStorage::new();
    let grey = AtlasKey::Image(AtlasImage::new(1).greyscale());
    let color = AtlasKey::WhiteTexture;
    let g = storage.create_texture(Size::new(4, 4), grey);
    let c = storage.create_texture(Size::new(4, 4), color);
    assert_eq!(g.tile.texture.kind, TextureKind::Mask);
    assert_eq!(c.tile.texture.kind, TextureKind::Color);
    assert!(g.new_texture.is_some());
    assert!(c.new_texture.is_some());
    assert_eq!(storage.gray_textures.len(), 1);
    assert_eq!(storage.color_textures.len(), 1);
}

#[test]
fn large_tiles_get_a_large_texture() {
    let mut storage = AtlasStorage::new();
    let key = AtlasKey::Image(AtlasImage::new(5));
    let small = storage.create_texture(Size::new(10, 10), AtlasKey::WhiteTexture);
    let big = storage.create_texture(Size::new(2000, 100), key);
    assert_eq!(big.tile.texture.slot, small.tile.texture.slot + 1);
    assert_eq!(big.new_texture.expect("new texture").size, Size::new(2000, 1024));
    let info = storage.get_texture_info(&key).expect("info");
    assert_eq!(info.tile, big.tile);
    assert_eq!(info.atlas_texture_size, Size::new(2000, 1024));
}

#[test]
fn texture_info_is_none_for_unknown_keys() {
    let storage = AtlasStorage::new();
    assert!(storage.get_tile(&AtlasKey::WhiteTexture).is_none());
    assert!(storage.get_texture_info(&AtlasKey::WhiteTexture).is_none());
}

#[test]
fn creating_again_replaces_the_tile() {
    let mut storage = AtlasStorage::new();
    let key = AtlasKey::WhiteTexture;
    let first = storage.create_texture(Size::new(8, 8), key);
    let second = storage.create_texture(Size::new(20, 20), key);
    assert_ne!(first.tile, second.tile);
    assert_eq!(storage.get_tile(&key), Some(second.tile));
    assert_eq!(storage.key_to_tile.len(), 1);
}

#[test]
fn texture_list_slots() {
    let mut list: AtlasTextureList<Option<u32>> = AtlasTextureList {
        slots: vec![Some(1), None, Some(3)],
        free_slots: vec![1],
    };
    assert_eq!(list.len(), 3);
    for slot in list.iter_mut().iter_mut().flatten() {
        *slot *= 10;
    }
    assert_eq!(list.slots, vec![Some(10), None, Some(30)]);
    assert_eq!(list.free_slots, vec![1]);
}

#[test]
fn atlas_infos_are_looked_up_once() {
    let mut storage = AtlasStorage::new();
    let k1 = AtlasKey::Image(AtlasImage::new(1));
    let k2 = AtlasKey::Image(AtlasImage::new(2));
    let missing = AtlasKey::Image(AtlasImage::new(3));
    let a = storage.create_texture(Size::new(8, 8), k1);
    let mut infos = AtlasInfoMap::new();
    infos.prepare(&[k1, missing, k1], &storage);
    assert_eq!(infos.entries.len(), 1);
    let info = infos.get(&k1).expect("k1 has a tile");
    assert_eq!(info.tile, a.tile);
    assert_eq!(info.atlas_texture_size, Size::new(1024, 1024));
    assert_eq!(infos.get(&missing), None);
    // a key that is not asked for is not looked up, though the atlas has it
    let b = storage.create_texture(Size::new(8, 8), k2);
    assert_eq!(infos.get(&k2), None);
    infos.prepare(&[k2], &storage);
    assert_eq!(infos.get(&k2).map(|i| i.tile), Some(b.tile));
    assert_eq!(
        infos.renderer_texture(&TextureId::AtlasKey(k2)),
        Some(TextureId::Atlas(b.tile.texture))
    );
    assert_eq!(infos.renderer_texture(&TextureId::AtlasKey(missing)), None);
    assert_eq!(infos.renderer_texture(&TextureId::white_texture()), None);
}

#[test]
fn full_texture_makes_a_new_one_and_later_tiles_use_the_last() {
    let mut storage = AtlasStorage::new();
    let k1 = AtlasKey::Image(AtlasImage::new(1));
    let k2 = AtlasKey::Image(AtlasImage::new(2));
    let k3 = AtlasKey::Image(AtlasImage::new(3));
    // fills the first 1024 by 1024 texture
    let a = storage.create_texture(Size::new(1024, 1024), k1);
    assert_eq!(a.tile.texture.slot, 0);
    // no room left: a second texture is made
    let b = storage.create_texture(Size::new(16, 16), k2);
    assert_eq!(b.tile.texture.slot, 1);
    assert!(b.new_texture.is_some());
    // the last texture is tried first and has room
    let c = storage.create_texture(Size::new(16, 16), k3);
    assert_eq!(c.tile.texture.slot, 1);
    assert!(c.new_texture.is_none());
    // each tile lies inside its texture
    for t in [a.tile, b.tile, c.tile] {
        assert!(t.bounds.x >= 0 && t.bounds.x + t.bounds.width <= 1024);
        assert!(t.bounds.y >= 0 && t.bounds.y + t.bounds.height <= 1024);
    }
}

#[test]
fn wide_tile_gets_a_wide_texture() {
    let mut storage = AtlasStorage::new();
    let key = AtlasKey::Image(AtlasImage::new(9));
    let a = storage.create_texture(Size::new(50000, 10), key);
    let t = a.new_texture.expect("a texture is made");
    assert_eq!(t.size, Size::new(50000, 1024));
    assert_eq!(a.tile.bounds.width, 50000);
}
