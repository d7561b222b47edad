//! Text handling agrees with the standard library's.
use neuralforge::text::{decimal, in_order, same_bytes, same_text, trim, white_space};

#[test]
fn white_space_is_unicodes() {
    for code in 0..=0x10_ffffu32 {
        if let Some(c) = char::from_u32(code) {
            assert_eq!(white_space(c), c.is_whitespace(), "{code:#x}");
        }
    }
}

#[test]
fn trimming_agrees_with_the_standard_library() {
    for text in ["", " ", "a", " a", "a ", "\u{3000}ä b\u{a0}\t", "  \n ", "x\u{200b}", "\u{2028}ok\u{85}"] {
        assert_eq!(trim(text), text.trim());
        assert_eq!(trim(&trim(text)), trim(text));
    }
}

#[test]
fn numbers_are_written_in_decimal() {
    for n in [0u64, 7, 10, 99, 100, 767, 4_294_967_296, u64::MAX] {
        assert_eq!(decimal(n), n.to_string());
    }
}

#[test]
fn texts_compare_by_their_bytes() {
    let list = ["", "a", "ab", "b", "B", "ä", "\u{ffff}", "\u{10000}"];
    for a in list {
        for b in list {
            assert_eq!(in_order(a, b), a <= b);
            assert_eq!(same_text(a, b), a == b);
            assert_eq!(same_bytes(a.as_bytes(), b.as_bytes()), a == b);
        }
    }
}
