use autoclicker::{push_decimal, render_status};

fn decimal(n: u64) -> String {
    let mut s = String::new();
    push_decimal(&mut s, n);
    s
}

#[test]
fn decimal_text() {
    assert_eq!(decimal(0), "0");
    assert_eq!(decimal(7), "7");
    assert_eq!(decimal(10), "10");
    assert_eq!(decimal(123456), "123456");
    assert_eq!(decimal(u64::MAX), u64::MAX.to_string());
    let mut s = String::from("cps: ");
    push_decimal(&mut s, 42);
    assert_eq!(s, "cps: 42");
}

#[test]
fn status_text() {
    let width = format!("left: false | right: false | fast: false | cps: {}", u32::MAX).len();
    let expected = format!(
        "\r{}\rLeft: {} | Right: {} | Fast: {} | cps: {}",
        " ".repeat(width),
        true,
        false,
        true,
        123
    );
    assert_eq!(render_status(true, false, true, 123), expected);
    let expected = format!("\r{}\rLeft: false | Right: true | Fast: false | cps: 0", " ".repeat(width));
    assert_eq!(render_status(false, true, false, 0), expected);
}
