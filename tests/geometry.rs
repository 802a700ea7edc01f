use gnvim_window::geometry::{ceil_of, floor_of, Px};

fn px(num: i32, den: u32) -> Px {
    Px::new(num, den).unwrap()
}

#[test]
fn zero_denominator_is_rejected() {
    assert!(Px::new(1, 0).is_none());
    assert_eq!(Px::new(3, 2), Some(Px { num: 3, den: 2 }));
}

#[test]
fn floor_rounds_toward_negative_infinity() {
    assert_eq!(px(12, 10).floor(), 1);
    assert_eq!(px(39, 10).floor(), 3);
    assert_eq!(px(-12, 10).floor(), -2);
    assert_eq!(px(-20, 10).floor(), -2);
    assert_eq!(px(0, 7).floor(), 0);
    assert_eq!(Px::whole(5).floor(), 5);
}

#[test]
fn ceil_rounds_toward_positive_infinity() {
    assert_eq!(px(101, 10).ceil(), 11);
    assert_eq!(px(55, 10).ceil(), 6);
    assert_eq!(px(-12, 10).ceil(), -1);
    assert_eq!(px(60, 10).ceil(), 6);
}

#[test]
fn rounding_at_the_extremes() {
    assert_eq!(px(i32::MIN, 1).floor(), i32::MIN as i64);
    assert_eq!(px(i32::MAX, u32::MAX).ceil(), 1);
    assert_eq!(px(i32::MIN, u32::MAX).floor(), -1);
    assert_eq!(floor_of(-i64::MAX, 2), -(i64::MAX / 2) - 1);
    assert_eq!(ceil_of(i64::MAX, 2), i64::MAX / 2 + 1);
}
