use nuthatch::node::DeviceNode;
use nuthatch::output::{output_name, output_name_from, push_decimal};

#[test]
fn output_is_named_after_interface_and_id() {
    assert_eq!(output_name(11, 1), "HDMI-A-1");
    assert_eq!(output_name(10, 2), "DP-2");
    assert_eq!(output_name(14, 1), "eDP-1");
    assert_eq!(output_name(1, 10), "VGA-10");
    assert_eq!(output_name(3, 4294967295), "DVI-D-4294967295");
}

#[test]
fn unknown_interface_code_is_named_unknown() {
    assert_eq!(output_name(0, 0), "Unknown-0");
    assert_eq!(output_name(9999, 3), "Unknown-3");
}

#[test]
fn output_name_joins_label_and_id_with_a_hyphen() {
    assert_eq!(output_name_from("DP", 12), "DP-12");
    assert_eq!(output_name_from("", 0), "-0");
    assert_eq!(output_name_from("HDMI-A", 100), "HDMI-A-100");
}

#[test]
fn decimal_notation_has_no_padding() {
    let cases: Vec<(u32, &str)> = vec![
        (0, "0"),
        (7, "7"),
        (9, "9"),
        (10, "10"),
        (42, "42"),
        (100, "100"),
        (1234567890, "1234567890"),
        (4294967295, "4294967295"),
    ];
    for (n, text) in cases {
        let mut s = String::new();
        push_decimal(&mut s, n);
        assert_eq!(s, text);
    }
    let mut s = String::from("x");
    push_decimal(&mut s, 305);
    assert_eq!(s, "x305");
}

#[test]
fn node_key_puts_major_above_minor() {
    assert_eq!(DeviceNode { major: 0, minor: 0 }.key(), 0);
    assert_eq!(DeviceNode { major: 226, minor: 1 }.key(), 226 * 4294967296 + 1);
    assert_eq!(DeviceNode { major: u32::MAX, minor: u32::MAX }.key(), u64::MAX);
    assert_ne!(
        DeviceNode { major: 226, minor: 0 }.key(),
        DeviceNode { major: 226, minor: 128 }.key()
    );
}
