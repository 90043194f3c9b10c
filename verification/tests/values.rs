use consumer::values::{Boolean, Byte};

#[test]
fn bytes_with_the_same_integer_are_equal() {
    for value in 0..=u8::MAX {
        assert_eq!(Byte(value), Byte(value));
        assert!(Byte(value) == Byte(value));
        assert!(!(Byte(value) != Byte(value)));
    }
}

#[test]
fn bytes_with_different_integers_are_unequal() {
    for left in 0..=u8::MAX {
        for right in 0..=u8::MAX {
            assert_eq!(Byte(left) == Byte(right), left == right);
            assert_eq!(Byte(left) != Byte(right), left != right);
        }
    }
}

#[test]
fn byte_zero_and_byte_one_differ() {
    assert_ne!(Byte(0), Byte(1));
    assert_ne!(Byte(1), Byte(0));
    assert_ne!(Byte(0), Byte(255));
}

#[test]
fn booleans_with_the_same_truth_value_are_equal() {
    assert_eq!(Boolean(true), Boolean(true));
    assert_eq!(Boolean(false), Boolean(false));
}

#[test]
fn booleans_with_different_truth_values_are_unequal() {
    assert_ne!(Boolean(true), Boolean(false));
    assert_ne!(Boolean(false), Boolean(true));
    assert!(!(Boolean(true) == Boolean(false)));
}

#[test]
fn values_show_what_they_wrap() {
    assert_eq!(format!("{:?}", Byte(7)), "Byte(7)");
    assert_eq!(format!("{:?}", Boolean(true)), "Boolean(true)");
}
