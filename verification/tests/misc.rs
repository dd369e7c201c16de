use skie_draw::arc_string::{ArcCow, ArcString};
use skie_draw::canvas::CanvasRecorder;
use skie_draw::paint::{create_checker_texture, Color};
use skie_draw::window::{AppAction, GpuSurfaceSpecification, WindowSpecification};
use skie_draw::Size;

#[test]
fn checker_texture_pixels() {
    let data = create_checker_texture(4, 2, 2);
    assert_eq!(data.len(), 4 * 2 * 4);
    // pixel (0, 0) is in a black tile
    assert_eq!(&data[0..4], &[0, 0, 0, 255]);
    // pixel (2, 0) is in the white tile to its right
    assert_eq!(&data[8..12], &[255, 255, 255, 255]);
    // pixel (3, 1) is still in that white tile
    assert_eq!(&data[(1 * 4 + 3) * 4..(1 * 4 + 3) * 4 + 4], &[255, 255, 255, 255]);
    assert!(create_checker_texture(0, 0, 0).is_empty());
}

#[test]
fn arc_strings() {
    let s = ArcString::new_static("Segoe UI");
    assert_eq!(s.as_str(), "Segoe UI");
    let t: ArcString = "hello".into();
    assert_eq!(t.as_str(), "hello");
    let owned: ArcCow<'static, str> = ArcCow::Owned(std::sync::Arc::from("shared"));
    assert_eq!(owned.as_ref(), "shared");
    let borrowed: ArcCow<'_, str> = "b".into();
    assert_eq!(borrowed.as_ref(), "b");
}

#[test]
fn window_specification() {
    let spec = WindowSpecification::default();
    assert_eq!((spec.width, spec.height, spec.title), (800, 800, "Ski"));
    let spec = spec.with_size(320, 200).with_title("demo");
    assert_eq!((spec.width, spec.height, spec.title), (320, 200, "demo"));
    let surface = GpuSurfaceSpecification { width: 1, height: 2 };
    assert_eq!(surface.width + surface.height, 3);
    assert_ne!(AppAction::Quit, AppAction::AppUpdate);
}

#[test]
fn recorder_save_and_restore() {
    let mut rec: CanvasRecorder<&'static str, u32> = CanvasRecorder::new(100, 50);
    assert_eq!(rec.screen(), Size::new(100, 50));
    assert_eq!(rec.current_state, 0);
    rec.draw("a");
    rec.save();
    rec.current_state = 7;
    rec.draw("b");
    rec.restore();
    assert_eq!(rec.current_state, 0);
    assert!(rec.state_stack.is_empty());
    let staged: Vec<(usize, usize, u32)> =
        rec.list.stage.iter().map(|s| (s.range.start, s.range.end, s.state)).collect();
    assert_eq!(staged, vec![(0, 1, 0), (1, 2, 7)]);
    // nothing saved: restore does nothing
    rec.restore();
    assert_eq!(rec.current_state, 0);
}

#[test]
fn recorder_reset_clear_resize() {
    let mut rec: CanvasRecorder<u8, u32> = CanvasRecorder::new(10, 10);
    rec.set_clear_color(Color::black());
    rec.current_state = 3;
    rec.save();
    rec.draw(1);
    rec.reset();
    assert_eq!(rec.clear_color, Color::white());
    assert_eq!(rec.current_state, 0);
    assert!(rec.state_stack.is_empty());
    assert_eq!(rec.list.stage.len(), 1);
    rec.clear();
    assert!(rec.list.is_empty());
    rec.resize(0, 30);
    assert_eq!((rec.width, rec.height), (1, 30));
}

#[test]
fn arc_strings_compare_by_text() {
    let shared: std::sync::Arc<str> = std::sync::Arc::from("hello");
    let owned = ArcString(ArcCow::from(shared));
    assert!(owned == ArcString::new_static("hello"));
    assert!(ArcString::new_static("hello") == ArcString::from("hello"));
    assert!(owned != ArcString::new_static("world"));
    assert_eq!(&*ArcString::new_static("abc").as_str(), "abc");
}
