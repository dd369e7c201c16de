use skie_draw::effects::EffectQueue;
use skie_draw::scene::{DrawList, Mesh, Scene, TextureId};
use skie_draw::window::AppAction;

#[test]
fn effects_sent_when_outermost_update_ends() {
    let mut q = EffectQueue::new();
    q.begin_update();
    assert!(q.push_effect(AppAction::AppUpdate));
    q.begin_update();
    assert!(q.push_effect(AppAction::Quit));
    // the inner update sends nothing
    assert!(q.end_update().is_empty());
    // the outer one sends both, oldest first
    assert_eq!(q.end_update(), vec![AppAction::AppUpdate, AppAction::Quit]);
    // nothing is left to send
    assert!(q.flush_effects().is_empty());
}

#[test]
fn pending_effect_is_not_queued_twice() {
    let mut q = EffectQueue::new();
    q.begin_update();
    assert!(q.push_effect(AppAction::AppUpdate));
    assert!(!q.push_effect(AppAction::AppUpdate));
    assert_eq!(q.end_update(), vec![AppAction::AppUpdate]);
    // sent but not yet received: still pending
    assert_eq!(q.update_with_effect(AppAction::AppUpdate), Vec::<AppAction>::new());
    // once the loop has received it, it can be queued again
    q.user_event(AppAction::AppUpdate);
    assert_eq!(q.update_with_effect(AppAction::AppUpdate), vec![AppAction::AppUpdate]);
}

#[test]
fn quit_outside_an_update_is_sent_at_once() {
    let mut q = EffectQueue::new();
    assert_eq!(q.quit(), vec![AppAction::Quit]);
    // a second quit before the loop received the first one sends nothing
    assert!(q.quit().is_empty());
}

#[test]
fn quit_inside_an_update_waits_for_its_end() {
    let mut q = EffectQueue::new();
    q.begin_update();
    assert!(q.quit().is_empty());
    assert_eq!(q.end_update(), vec![AppAction::Quit]);
}

#[test]
fn draw_list_push_quad_indices() {
    let mut dl: DrawList<(i32, i32)> = DrawList::default();
    dl.push_quad((0, 0), (1, 0), (0, 1), (1, 1));
    dl.push_quad((5, 5), (6, 5), (5, 6), (6, 6));
    assert_eq!(dl.vertices.len(), 8);
    assert_eq!(dl.vertices[5], (6, 5));
    assert_eq!(dl.indices, vec![0, 1, 2, 2, 1, 3, 4, 5, 6, 6, 5, 7]);
    assert_eq!(dl.index_offset, 8);
}

#[test]
fn draw_list_into_mesh() {
    let mut dl: DrawList<u8> = DrawList::default();
    dl.push_quad(1, 2, 3, 4);
    let mesh: Mesh<u8> = Mesh::from(dl);
    assert_eq!(mesh.vertices, vec![1, 2, 3, 4]);
    assert_eq!(mesh.indices, vec![0, 1, 2, 2, 1, 3]);
    assert_eq!(mesh.texture, None::<TextureId>);
}

#[test]
fn scene_add_and_clear() {
    let mut scene: Scene<&str> = Scene::default();
    scene.add("a");
    scene.add("b");
    assert_eq!(scene.clear(), vec!["a", "b"]);
    assert!(scene.prims.is_empty());
    assert!(scene.clear().is_empty());
}
