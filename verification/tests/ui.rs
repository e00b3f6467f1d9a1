use double_snake::helpers::{value_if, value_if_else};
use double_snake::ui::dims::{IntoUidims, UiDims};
use double_snake::ui::draw::Frame;
use double_snake::ui::uibox::box_center;
use double_snake::ui::{format_days_duration, format_duration, u64_to_string};

#[test]
fn frame_trim_absolute() {
    let frame = Frame::new_sized(UiDims::new(0, 0), UiDims::new(3, 1));
    let (text, _) = frame.trim_absolute("123456", UiDims::new(0, 0));
    assert_eq!(text, "123");

    let (text, _) = frame.trim_absolute("123456", UiDims::new(1, 0));
    assert_eq!(text, "12");

    let (text, _) = frame.trim_absolute("123456", UiDims::new(-1, 0));
    assert_eq!(text, "234");

    let (text, _) = frame.trim_absolute("123456", UiDims::new(-4, 0));
    assert_eq!(text, "56");

    let (text, _) = frame.trim_absolute("123456", UiDims::new(-3, 0));
    assert_eq!(text, "456");
}

#[test]
fn frame_trim_off_row_and_anchor() {
    let frame = Frame::new_sized(UiDims::new(0, 0), UiDims::new(3, 1));
    let (text, p) = frame.trim_absolute("123456", UiDims::new(0, 1));
    assert_eq!(text, "");
    assert_eq!(p, UiDims::new(0, 1));

    let (text, p) = frame.trim_absolute("123456", UiDims::new(-2, 0));
    assert_eq!(text, "345");
    assert_eq!(p, UiDims::new(0, 0));
}

#[test]
fn frame_contains_and_size() {
    let frame = Frame::new(UiDims::new(1, 2), UiDims::new(4, 5));
    assert_eq!(frame.size(), UiDims::new(3, 3));
    assert!(frame.contains(UiDims::new(1, 2)));
    assert!(frame.contains(UiDims::new(3, 4)));
    assert!(!frame.contains(UiDims::new(4, 2)));
    assert!(!frame.contains(UiDims::new(1, 5)));
    assert!(!frame.contains(UiDims::new(0, 3)));
}

#[test]
fn dims_arithmetic() {
    let a = UiDims::new(3, 4);
    let b = UiDims::new(1, 2);
    assert_eq!(a.add(b), UiDims::new(4, 6));
    assert_eq!(a.sub(b), UiDims::new(2, 2));
    assert_eq!(a.mul(b), UiDims::new(3, 8));
    assert_eq!(UiDims::from((7, 9)), UiDims::new(7, 9));
    assert_eq!((5, 6).into_ui(), UiDims::new(5, 6));
    assert_eq!(UiDims::new(5, 6).into_ui(), UiDims::new(5, 6));
}

#[test]
fn box_centering() {
    assert_eq!(box_center(UiDims::new(10, 10), UiDims::new(4, 2)), UiDims::new(3, 4));
    assert_eq!(box_center(UiDims::new(5, 5), UiDims::new(5, 5)), UiDims::new(0, 0));
    assert_eq!(box_center(UiDims::new(7, 3), UiDims::new(2, 2)), UiDims::new(2, 0));
    // An oversized box centers at a negative offset, rounded toward zero.
    assert_eq!(box_center(UiDims::new(5, 5), UiDims::new(9, 8)), UiDims::new(-2, -1));
}

#[test]
fn durations_format() {
    assert_eq!(format_duration(62_300).as_str(), "1m2.3s");
    assert_eq!(format_duration(0).as_str(), "0m0.0s");
    assert_eq!(format_duration(90_500).as_str(), "1m30.5s");
    assert_eq!(format_duration(60_750).as_str(), "1m0.8s");
    assert_eq!(format_duration(59_999).as_str(), "0m60.0s");
    assert_eq!(format_duration(3_600_000).as_str(), "60m0.0s");
    assert_eq!(format_days_duration(0).as_str(), "0 days");
    assert_eq!(format_days_duration(2 * 86_400_000).as_str(), "2 days");
    assert_eq!(format_days_duration(86_399_999).as_str(), "0 days");
}

#[test]
fn decimal_rendering() {
    assert_eq!(u64_to_string(0).as_str(), "0");
    assert_eq!(u64_to_string(7).as_str(), "7");
    assert_eq!(u64_to_string(12034).as_str(), "12034");
    assert_eq!(u64_to_string(u64::MAX).as_str(), "18446744073709551615");
}

#[test]
fn conditional_values() {
    assert_eq!(value_if(true, || 5u32), 5);
    assert_eq!(value_if(false, || 5u32), 0);
    assert_eq!(value_if_else(true, || 1i64, || 2i64), 1);
    assert_eq!(value_if_else(false, || 1i64, || 2i64), 2);
}
