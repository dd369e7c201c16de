use skie_draw::canvas::RenderList;

// States stand for canvas states: 0 is the default state, 1 a rotated one,
// 2 a translated one.
const DEFAULT_STATE: u32 = 0;
const ROTATED: u32 = 1;
const TRANSLATED: u32 = 2;

fn add_quad(list: &mut RenderList<&'static str, u32>) {
    list.add("quad");
}

fn stages(list: &RenderList<&'static str, u32>) -> Vec<(usize, usize, u32)> {
    list.stage.iter().map(|s| (s.range.start, s.range.end, s.state)).collect()
}

#[test]
fn iterator() {
    let mut list = RenderList::default();
    add_quad(&mut list);
    add_quad(&mut list);
    add_quad(&mut list);

    list.stage_changes(DEFAULT_STATE);
    add_quad(&mut list);
    add_quad(&mut list);
    list.stage_changes(ROTATED);

    assert_eq!(list.stage_count(), 2);
    let (first, state) = list.get_stage(0);
    assert_eq!(first.len(), 3);
    assert_eq!(*state, DEFAULT_STATE);

    let (second, state) = list.get_stage(1);
    assert_eq!(second.len(), 2);
    assert_eq!(*state, ROTATED);
}

#[test]
fn render_list_basic() {
    let mut list = RenderList::default();
    add_quad(&mut list);
    add_quad(&mut list);
    add_quad(&mut list);

    assert_eq!(list.instructions.len(), 3);

    list.stage_changes(DEFAULT_STATE);

    assert_eq!(list.stage.len(), 1);
    assert_eq!(stages(&list), vec![(0, 3, DEFAULT_STATE)]);
}

#[test]
fn stage_changes() {
    let mut list = RenderList::default();
    add_quad(&mut list);
    add_quad(&mut list);
    add_quad(&mut list);

    list.stage_changes(DEFAULT_STATE);

    add_quad(&mut list);
    add_quad(&mut list);

    list.stage_changes(ROTATED);

    assert_eq!(stages(&list), vec![(0, 3, DEFAULT_STATE), (3, 5, ROTATED)]);
}

#[test]
fn no_stage_if_no_changes() {
    let mut list = RenderList::default();

    add_quad(&mut list);
    add_quad(&mut list);
    add_quad(&mut list);

    list.stage_changes(DEFAULT_STATE);
    list.stage_changes(DEFAULT_STATE);

    assert_eq!(stages(&list), vec![(0, 3, DEFAULT_STATE)]);
}

#[test]
fn extend_range_if_state_not_changed() {
    let mut list = RenderList::default();

    add_quad(&mut list);
    add_quad(&mut list);
    add_quad(&mut list);

    list.stage_changes(DEFAULT_STATE);

    add_quad(&mut list);
    add_quad(&mut list);
    add_quad(&mut list);

    list.stage_changes(DEFAULT_STATE);

    add_quad(&mut list);
    add_quad(&mut list);

    list.stage_changes(DEFAULT_STATE);

    assert_eq!(stages(&list), vec![(0, 8, DEFAULT_STATE)]);
}

#[test]
fn all_cases() {
    let mut list = RenderList::default();
    add_quad(&mut list);
    add_quad(&mut list);
    add_quad(&mut list);

    // adds to state
    list.stage_changes(DEFAULT_STATE);
    list.stage_changes(DEFAULT_STATE);
    add_quad(&mut list); // extends from last
    list.stage_changes(DEFAULT_STATE);

    add_quad(&mut list);
    add_quad(&mut list);
    list.stage_changes(TRANSLATED);
    list.stage_changes(TRANSLATED);
    list.stage_changes(DEFAULT_STATE);

    add_quad(&mut list);
    add_quad(&mut list);

    list.stage_changes(TRANSLATED);

    add_quad(&mut list);
    list.stage_changes(DEFAULT_STATE);

    // unstaged
    add_quad(&mut list);

    assert_eq!(
        stages(&list),
        vec![(0, 4, DEFAULT_STATE), (4, 8, TRANSLATED), (8, 9, DEFAULT_STATE)]
    );
}

#[test]
fn is_empty() {
    let mut list: RenderList<&'static str, u32> = RenderList::default();

    assert!(list.is_empty());

    add_quad(&mut list);
    assert!(!list.is_empty());
}

#[test]
fn clear_and_clear_staged() {
    let mut list: RenderList<&'static str, u32> = RenderList::default();
    add_quad(&mut list);
    list.stage_changes(DEFAULT_STATE);
    list.clear_staged();
    assert_eq!(list.stage.len(), 0);
    assert_eq!(list.instructions.len(), 1);
    list.stage_changes(ROTATED);
    assert_eq!(stages(&list), vec![(0, 1, ROTATED)]);
    list.clear();
    assert!(list.is_empty());
    assert_eq!(list.stage.len(), 0);
}
