use enums::increment::plus_one;

#[test]
fn absent_stays_absent() {
    assert_eq!(plus_one(None), None);
}

#[test]
fn five_becomes_six() {
    assert_eq!(plus_one(Some(5)), Some(6));
}

#[test]
fn present_values_step_by_one() {
    assert_eq!(plus_one(Some(0)), Some(1));
    assert_eq!(plus_one(Some(-1)), Some(0));
    assert_eq!(plus_one(Some(-7)), Some(-6));
    assert_eq!(plus_one(Some(41)), Some(42));
}

#[test]
fn smallest_value_steps_up() {
    assert_eq!(plus_one(Some(i32::MIN)), Some(i32::MIN + 1));
    assert_eq!(plus_one(Some(i32::MIN)), Some(-2147483647));
}

#[test]
fn value_below_the_largest_reaches_it() {
    assert_eq!(plus_one(Some(i32::MAX - 1)), Some(i32::MAX));
    assert_eq!(plus_one(Some(2147483646)), Some(2147483647));
}

#[test]
fn largest_value_wraps_to_the_smallest() {
    assert_eq!(plus_one(Some(i32::MAX)), Some(i32::MIN));
    assert_eq!(plus_one(Some(2147483647)), Some(-2147483648));
}

#[test]
fn stepping_twice_adds_two() {
    assert_eq!(plus_one(plus_one(Some(5))), Some(7));
    assert_eq!(plus_one(plus_one(None)), None);
}
