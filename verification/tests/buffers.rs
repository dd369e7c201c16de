use skie_draw::buffers::{buffer_slices, grown_capacity};

#[test]
fn capacity_grows_by_doubling_or_to_the_need() {
    assert_eq!(grown_capacity(1024, 512), 1024);
    assert_eq!(grown_capacity(1024, 1024), 1024);
    assert_eq!(grown_capacity(1024, 1500), 2048);
    assert_eq!(grown_capacity(1024, 5000), 5000);
    assert_eq!(grown_capacity(0, 16), 16);
}

#[test]
fn slices_lie_one_after_the_other() {
    let slices = buffer_slices(&[3, 0, 2], 20);
    assert_eq!(slices, vec![0..60, 60..60, 60..100]);
    assert!(buffer_slices(&[], 4).is_empty());
}
