use skie_draw::{vec2, Half, IsZero, One, Vec2, Zero};

#[test]
fn zero_and_one() {
    assert_eq!(Vec2::<f64>::zero(), vec2(0.0, 0.0));
    assert_eq!(Vec2::<f64>::one(), vec2(1.0, 1.0));
}

#[test]
fn vec_add() {
    let a = vec2(10.0, 10.0);
    let b = vec2(10.0, 10.0);

    assert_eq!(a + b, vec2(20.0, 20.0));
}

#[test]
fn vec_add_assign() {
    let mut a = vec2(10.0, 10.0);
    a += vec2(10.0, 10.0);

    assert_eq!(a, vec2(20.0, 20.0));
}

#[test]
fn vec_sub() {
    let a = vec2(10.0, 10.0);
    let b = vec2(10.0, 10.0);

    assert_eq!(a - b, vec2(0.0, 0.0));
}

#[test]
fn vec_sub_assign() {
    let mut a = vec2(10.0, 10.0);
    a -= vec2(10.0, 10.0);

    assert_eq!(a, vec2(0.0, 0.0));
}

#[test]
fn vec_mul() {
    let a = vec2(10.0, 10.0);
    let b = vec2(10.0, 10.0);

    assert_eq!(a * b, vec2(100.0, 100.0));
}

#[test]
fn vec_mul_assign() {
    let mut a = vec2(10.0, 10.0);
    a *= vec2(10.0, 10.0);

    assert_eq!(a, vec2(100.0, 100.0));
}

#[test]
fn vec_div() {
    let a = vec2(10.0, 10.0);
    let b = vec2(10.0, 10.0);

    assert_eq!(a / b, vec2(1.0, 1.0));
}

#[test]
fn vec_div_assign() {
    let mut a = vec2(10.0, 10.0);
    a /= vec2(10.0, 10.0);

    assert_eq!(a, vec2(1.0, 1.0));
}

#[test]
fn integer_vector_operators() {
    let a = vec2(7i32, -3i32);
    let b = vec2(2i32, 5i32);
    assert_eq!(a + b, vec2(9, 2));
    assert_eq!(a - b, vec2(5, -8));
    assert_eq!(a * b, vec2(14, -15));
    assert_eq!(a / b, vec2(3, 0));
    assert_eq!(a + 1, vec2(8, -2));
    assert_eq!(a - 1, vec2(6, -4));
    assert_eq!(a * 2, vec2(14, -6));
    assert_eq!(a / 2, vec2(3, -1));
}

#[test]
fn integer_assign_operators() {
    let mut a = vec2(7u32, 9u32);
    a += vec2(1, 1);
    assert_eq!(a, vec2(8, 10));
    a -= vec2(3, 4);
    assert_eq!(a, vec2(5, 6));
    a *= vec2(2, 3);
    assert_eq!(a, vec2(10, 18));
    a /= vec2(5, 4);
    assert_eq!(a, vec2(2, 4));
}

#[test]
fn add_then_sub_gives_back() {
    let a = vec2(123i32, -77i32);
    let b = vec2(-5i32, 1000i32);
    assert_eq!((a + b) - b, a);
}

#[test]
fn max_min_clamp() {
    let a = vec2(1i32, 9i32);
    let b = vec2(4i32, 2i32);
    assert_eq!(a.max(&b), vec2(4, 9));
    assert_eq!(a.min(&b), vec2(1, 2));
    assert_eq!(vec2(-5i32, 50i32).clamp(&vec2(0, 0), &vec2(10, 10)), vec2(0, 10));
    assert_eq!(vec2(3i32, 7i32).clamp(&vec2(0, 0), &vec2(10, 10)), vec2(3, 7));
}

#[test]
fn dot_cross_normal() {
    let a = vec2(3i32, 4i32);
    let b = vec2(-2i32, 5i32);
    assert_eq!(a.dot(&b), 14);
    assert_eq!(b.dot(&a), 14);
    assert_eq!(a.cross(&b), 23);
    assert_eq!(b.cross(&a), -23);
    assert_eq!(a.normal(), vec2(-4, 3));
    assert_eq!(a.dot(&a.normal()), 0);
}

#[test]
fn map_hands_the_vector_over() {
    let a = vec2(3i32, 4i32);
    assert_eq!(a.map(|v| v.x * 10 + v.y), 34);
}

#[test]
fn conversions() {
    let a: Vec2<i32> = (1, 2).into();
    assert_eq!(a, Vec2::new(1, 2));
    let b: Vec2<i32> = [5, 6].into();
    assert_eq!(b, vec2(5, 6));
    let t: (i32, i32) = vec2(7, 8).into();
    assert_eq!(t, (7, 8));
}

#[test]
fn half_and_is_zero() {

    assert_eq!(vec2(9i32, -9i32).half(), vec2(4, -4));
    assert!(Vec2::<i32>::zero().is_zero());
    assert!(!vec2(0i32, 1i32).is_zero());
    assert_eq!(Vec2::<u32>::one(), vec2(1, 1));
}

#[test]
fn vectors_equal_by_components() {
    assert!(skie_draw::vec2(1, 2) == skie_draw::vec2(1, 2));
    assert!(skie_draw::vec2(1, 2) != skie_draw::vec2(2, 1));
    assert!(skie_draw::vec2(0.5f32, 1.0) == skie_draw::vec2(0.5f32, 1.0));
}
