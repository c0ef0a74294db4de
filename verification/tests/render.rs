use actor_counter::render::value_line;

#[test]
fn one_digit_values() {
    assert_eq!(value_line(0), "Value: 0");
    assert_eq!(value_line(4), "Value: 4");
    assert_eq!(value_line(9), "Value: 9");
}

#[test]
fn two_digit_values() {
    assert_eq!(value_line(10), "Value: 10");
    assert_eq!(value_line(42), "Value: 42");
    assert_eq!(value_line(99), "Value: 99");
}

#[test]
fn three_digit_values() {
    assert_eq!(value_line(100), "Value: 100");
    assert_eq!(value_line(207), "Value: 207");
    assert_eq!(value_line(255), "Value: 255");
}

#[test]
fn rendering_is_idempotent() {
    assert_eq!(value_line(17), value_line(17));
}
