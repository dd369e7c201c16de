use skie_draw::{device_px, vec2, DevicePixels, Half, IsZero, Rect, Size, Vec2, Zero};

#[test]
fn size_basics() {
    let s = Size::new(8i32, 6i32);
    assert_eq!(s.width, 8);
    assert_eq!(s.height, 6);
    assert_eq!(s.center(), vec2(4, 3));
    assert_eq!(s.half(), Size::new(4, 3));
    assert_eq!(s.map(|v| *v * 2), Size::new(16, 12));
    assert_eq!(s.map_cloned(|v| v + 1), Size::new(9, 7));
    assert!(Size::<i32>::zero().empty());
    assert!(!s.empty());
    assert!(Size::new(0i32, 0i32).is_zero());
}

#[test]
fn size_max_min_clamp() {
    let a = Size::new(10i32, 3i32);
    let b = Size::new(4i32, 8i32);
    assert_eq!(a.max(&b), Size::new(10, 8));
    assert_eq!(a.min(&b), Size::new(4, 3));
    let lo = Size::new(5i32, 5i32);
    let hi = Size::new(7i32, 7i32);
    assert_eq!(a.clamp(&lo, &hi), Size::new(7, 5));
}

#[test]
fn size_additions() {
    let a = Size::new(1i32, 2i32);
    assert_eq!(a + Size::new(10, 20), Size::new(11, 22));
    assert_eq!(a + vec2(3, 4), Size::new(4, 6));
    assert_eq!(vec2(3i32, 4i32) + a, vec2(4, 6));
    assert_eq!(a + 5, Size::new(6, 7));
    let v: Vec2<i32> = a.into();
    assert_eq!(v, vec2(1, 2));
    let w: Vec2<i32> = (&a).into();
    assert_eq!(w, vec2(1, 2));
}

#[test]
fn rect_corners() {
    let r: Rect<i32> = (10, 20, 30, 40).into();
    assert_eq!(r.position(), vec2(10, 20));
    assert_eq!(r.size(), Size::new(30, 40));
    assert_eq!(r.min(), vec2(10, 20));
    assert_eq!(r.max(), vec2(10, 20));
    assert_eq!(r.top_left(), vec2(10, 20));
    assert_eq!(r.top_right(), vec2(40, 20));
    assert_eq!(r.bottom_left(), vec2(10, 60));
    assert_eq!(r.bottom_right(), vec2(40, 60));
}

#[test]
fn rect_zero_half_empty() {
    let z = Rect::<i32>::zero();
    assert_eq!(z, Rect { x: 0, y: 0, width: 0, height: 0 });
    assert!(z.empty());
    let mut r = Rect { x: 3i32, y: 4, width: 10, height: 20 };
    assert!(!r.empty());
    assert_eq!(r.half(), Rect { x: 3, y: 4, width: 5, height: 10 });
    r.to_zero();
    assert_eq!(r, Rect { x: 3, y: 4, width: 0, height: 0 });
}

#[test]
fn rect_union() {
    let mut a = Rect { x: 5i32, y: 5, width: 10, height: 2 };
    let b = Rect { x: 2i32, y: 8, width: 3, height: 20 };
    a.union(&b);
    assert_eq!(a, Rect { x: 2, y: 5, width: 10, height: 20 });
    let mut c = b;
    c.union(&Rect { x: 5, y: 5, width: 10, height: 2 });
    assert_eq!(c, a);
    let mut d = a;
    d.union(&a);
    assert_eq!(d, a);
}

#[test]
fn rect_include_point() {
    let mut r = Rect { x: 0i32, y: 0, width: 10, height: 10 };
    r.include_point(&vec2(20, -5));
    assert_eq!(r, Rect { x: 0, y: -5, width: 20, height: 10 });
    let mut inside = Rect { x: 0i32, y: 0, width: 10, height: 10 };
    inside.include_point(&vec2(5, 5));
    assert_eq!(inside, Rect { x: 0, y: 0, width: 10, height: 10 });
}

#[test]
fn device_pixels() {
    assert_eq!(device_px(12i32), DevicePixels(12));
    assert_eq!(device_px(200u8), DevicePixels(200));
    assert_eq!(device_px(-3i16), DevicePixels(-3));
    assert_eq!(device_px(7u64), DevicePixels(7));
    assert_eq!(DevicePixels(5) + DevicePixels(6), DevicePixels(11));
    assert_eq!(DevicePixels(5) - DevicePixels(6), DevicePixels(-1));
}
