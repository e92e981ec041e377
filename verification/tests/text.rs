use undead::text::{utf8_len_up_to, utf8_width};

#[test]
fn char_widths() {
    assert_eq!(utf8_width('a'), 1);
    assert_eq!(utf8_width('\u{7f}'), 1);
    assert_eq!(utf8_width('é'), 2);
    assert_eq!(utf8_width('\u{7ff}'), 2);
    assert_eq!(utf8_width('€'), 3);
    assert_eq!(utf8_width('\u{ffff}'), 3);
    assert_eq!(utf8_width('😀'), 4);
}

#[test]
fn byte_length_capped() {
    assert_eq!(utf8_len_up_to("", 20), 0);
    assert_eq!(utf8_len_up_to("warlock", 20), 7);
    assert_eq!(utf8_len_up_to("😀😀😀😀😀", 20), 20);
    assert_eq!(utf8_len_up_to("😀😀😀😀😀a", 20), 21);
    assert_eq!(utf8_len_up_to(&"z".repeat(1000), 20), 21);
    assert_eq!(utf8_len_up_to("€uro", 3), 4);
}
