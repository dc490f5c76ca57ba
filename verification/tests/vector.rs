use halfblock::math::Vec2;

#[test]
fn constructors() {
    assert_eq!(Vec2::new(3, -4), Vec2 { x: 3, y: -4 });
    assert_eq!(Vec2::point((3, -4)), Vec2 { x: 3, y: -4 });
    assert_eq!(Vec2::zero(), Vec2 { x: 0, y: 0 });
    assert_eq!(Vec2::unix(), Vec2 { x: 1, y: 0 });
    assert_eq!(Vec2::uniy(), Vec2 { x: 0, y: 1 });
}

#[test]
fn arithmetic() {
    assert_eq!(Vec2::new(1, 2) + Vec2::new(30, -40), Vec2::new(31, -38));
    assert_eq!(Vec2::new(1, 2) - Vec2::new(30, -40), Vec2::new(-29, 42));
    assert_eq!(Vec2::new(3, -4) * 5, Vec2::new(15, -20));
    assert_eq!(Vec2::new(3, -4) * -1, Vec2::new(-3, 4));
    assert_eq!(Vec2::new(80, 50) / 2, Vec2::new(40, 25));
    assert_eq!(Vec2::new(7, -7) / 2, Vec2::new(3, -3));
    assert_eq!(Vec2::new(7, -7) / -2, Vec2::new(-3, 3));
    assert_eq!(Vec2::new(i32::MIN, i32::MAX) / 1, Vec2::new(i32::MIN, i32::MAX));
    assert_eq!(Vec2::new(i32::MAX, 1) / -1, Vec2::new(-i32::MAX, -1));
    assert_eq!(Vec2::new(i32::MIN, 5) / i32::MIN, Vec2::new(1, 0));
}

#[test]
fn arithmetic_in_place() {
    let mut v = Vec2::new(1, 2);
    v += Vec2::new(30, -40);
    assert_eq!(v, Vec2::new(31, -38));
    v -= Vec2::new(1, 2);
    assert_eq!(v, Vec2::new(30, -40));
    v *= -3;
    assert_eq!(v, Vec2::new(-90, 120));
    v /= 7;
    assert_eq!(v, Vec2::new(-12, 17));
}

#[test]
fn from_pairs() {
    assert_eq!(Vec2::from((3i32, -4i32)), Vec2::new(3, -4));
    assert_eq!(Vec2::from((3u32, 4u32)), Vec2::new(3, 4));
    assert_eq!(Vec2::from((3usize, 4usize)), Vec2::new(3, 4));
    assert_eq!(Vec2::from((3isize, -4isize)), Vec2::new(3, -4));
    let v: Vec2 = (7, 8).into();
    assert_eq!(v, Vec2::new(7, 8));
    assert_eq!(Vec2::from((u32::MAX, 0x8000_0000u32)), Vec2::new(-1, i32::MIN));
}
