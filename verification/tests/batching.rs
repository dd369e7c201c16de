use skie_draw::paint::{
    group_by_render_texture, required_atlas_keys, required_textures, resolve_atlas_texture,
    AtlasImage, AtlasKey, AtlasTextureId, AtlasTextureInfo, AtlasTile, AtlasTileId,
    GraphicsInstructionBatcher, InstructionBatcher, TextureId, TextureKind,
};
use skie_draw::{Rect, Size};

fn white() -> TextureId {
    TextureId::white_texture()
}

fn get_instructions() -> [TextureId; 12] {
    [
        TextureId::User(1),
        TextureId::User(1),
        TextureId::User(1),
        white(),
        TextureId::User(2),
        white(),
        white(),
        white(),
        TextureId::User(2),
        TextureId::User(2),
        TextureId::User(2),
        white(),
    ]
}

#[test]
fn test_batcher() {
    let instructions = get_instructions();
    let mut batcher = GraphicsInstructionBatcher::new(&instructions, |_| None);

    let mut test_next_exists = |id: TextureId, len: usize| {
        let next = batcher.next().expect("batch not found");
        assert_eq!(next.renderer_texture, id);
        assert_eq!(next.end - next.start, len);
    };

    test_next_exists(TextureId::User(1), 3);
    test_next_exists(white(), 1);
    test_next_exists(TextureId::User(2), 1);
    test_next_exists(white(), 3);
    test_next_exists(TextureId::User(2), 3);
    test_next_exists(white(), 1);

    assert!(batcher.next().is_none());
}

#[test]
fn test_render_texture() {
    let instructions = get_instructions();
    let mut batcher = GraphicsInstructionBatcher::new(&instructions, |tex| {
        if tex == &TextureId::User(1) {
            Some(TextureId::Internal(1))
        } else {
            None
        }
    });

    let mut test_next_exists = |id: TextureId, len: usize| {
        let next = batcher.next().expect("batch not found");
        assert_eq!(next.renderer_texture, id);
        assert_eq!(next.end - next.start, len);
    };

    test_next_exists(TextureId::Internal(1), 3);
    test_next_exists(white(), 1);
    test_next_exists(TextureId::User(2), 1);
    test_next_exists(white(), 3);
    test_next_exists(TextureId::User(2), 3);
    test_next_exists(white(), 1);

    assert!(batcher.next().is_none());
}

#[test]
fn batches_cover_every_instruction_once() {
    let instructions = get_instructions();
    let batches = GraphicsInstructionBatcher::new(&instructions, |_| None).into_batches();
    assert_eq!(batches.len(), 6);
    assert_eq!(batches[0].start, 0);
    assert_eq!(batches[5].end, 12);
    for k in 0..batches.len() - 1 {
        assert_eq!(batches[k].end, batches[k + 1].start);
        assert_ne!(batches[k].renderer_texture, batches[k + 1].renderer_texture);
    }
    let none = GraphicsInstructionBatcher::new(&[], |_| None).into_batches();
    assert!(none.is_empty());
}

#[test]
fn groups_by_renderer_texture_in_first_use_order() {
    let render = [
        Some(TextureId::User(2)),
        None,
        Some(white()),
        Some(TextureId::User(2)),
        Some(white()),
        Some(TextureId::User(9)),
    ];
    let groups = group_by_render_texture(&render);
    assert_eq!(groups.len(), 3);
    assert_eq!(groups[0].render_texture, TextureId::User(2));
    assert_eq!(groups[0].entries, vec![0, 3]);
    assert_eq!(groups[1].render_texture, white());
    assert_eq!(groups[1].entries, vec![2, 4]);
    assert_eq!(groups[2].render_texture, TextureId::User(9));
    assert_eq!(groups[2].entries, vec![5]);
}

#[test]
fn instruction_batcher_hands_out_groups() {
    let render = [Some(TextureId::User(1)), Some(white()), Some(TextureId::User(1))];
    let mut batcher = InstructionBatcher::new(&render);
    let mut first = batcher.next().expect("group");
    assert_eq!(first.render_texture(), TextureId::User(1));
    assert_eq!(first.next(), Some(0));
    assert_eq!(first.next(), Some(2));
    assert_eq!(first.next(), None);
    let mut second = batcher.next().expect("group");
    assert_eq!(second.render_texture(), white());
    assert_eq!(second.next(), Some(1));
    assert_eq!(second.next(), None);
    assert!(batcher.next().is_none());
}

#[test]
fn required_textures_once_each() {
    let t = get_instructions();
    assert_eq!(required_textures(&t), vec![TextureId::User(1), white(), TextureId::User(2)]);
    let keys = required_atlas_keys(&[
        TextureId::AtlasKey(AtlasKey::Image(AtlasImage::new(3))),
        TextureId::User(4),
        white(),
        TextureId::AtlasKey(AtlasKey::Image(AtlasImage::new(3))),
    ]);
    assert_eq!(keys, vec![AtlasKey::Image(AtlasImage::new(3)), AtlasKey::WhiteTexture]);
}

#[test]
fn atlas_entries_resolve_to_their_texture() {
    let texture = AtlasTextureId { kind: TextureKind::Mask, slot: 1 };
    let info = AtlasTextureInfo {
        tile: AtlasTile {
            id: AtlasTileId(0),
            texture,
            bounds: Rect { x: 0, y: 0, width: 4, height: 4 },
        },
        atlas_texture_size: Size::new(1024, 1024),
    };
    assert_eq!(resolve_atlas_texture(&white(), Some(&info)), Some(TextureId::Atlas(texture)));
    assert_eq!(resolve_atlas_texture(&white(), None), None);
    assert_eq!(resolve_atlas_texture(&TextureId::User(3), None), Some(TextureId::User(3)));
}
