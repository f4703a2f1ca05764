use ununi::record::{decode, CharacterRecord};
use ununi::text::{
    char_is_control, char_is_space, format_decimal, parse_unsigned, string_of, trim,
    with_inserted, with_removed,
};

#[test]
fn control_characters_are_those_of_std() {
    for n in 0..=0x10FFFFu32 {
        if let Some(c) = char::from_u32(n) {
            assert_eq!(char_is_control(c), c.is_control(), "{:x}", n);
        }
    }
}

#[test]
fn white_space_is_that_of_std() {
    for n in 0..=0x10FFFFu32 {
        if let Some(c) = char::from_u32(n) {
            assert_eq!(char_is_space(c), c.is_whitespace(), "{:x}", n);
        }
    }
}

#[test]
fn trimming_takes_white_space_off_both_ends() {
    assert_eq!(trim("  a b  "), "a b");
    assert_eq!(trim("a"), "a");
    assert_eq!(trim(""), "");
    assert_eq!(trim(" \t\r\n"), "");
    assert_eq!(trim("\u{2003}x\u{2028}"), "x");
    assert_eq!(trim("\u{200b}x"), "\u{200b}x");
    assert_eq!(trim(" \u{e9}t\u{e9} "), "\u{e9}t\u{e9}");
}

#[test]
fn trimming_is_that_of_std() {
    for text in ["", " ", "a", " a", "a ", "  a  b  ", "\n\ta\u{a0}", "\u{3000}\u{1680}", "x\u{85}"] {
        assert_eq!(trim(text), text.trim(), "{:?}", text);
    }
}

#[test]
fn numbers_are_read_in_their_base() {
    assert_eq!(parse_unsigned("41", 16, u64::MAX), Some(0x41));
    assert_eq!(parse_unsigned("41", 10, u64::MAX), Some(41));
    assert_eq!(parse_unsigned("ff", 16, u64::MAX), Some(255));
    assert_eq!(parse_unsigned("FF", 16, u64::MAX), Some(255));
    assert_eq!(parse_unsigned("fF", 16, 255), Some(255));
    assert_eq!(parse_unsigned("ff", 16, 254), None);
    assert_eq!(parse_unsigned("ff", 10, u64::MAX), None);
    assert_eq!(parse_unsigned("9", 8, u64::MAX), None);
    assert_eq!(parse_unsigned("17", 8, u64::MAX), Some(15));
    assert_eq!(parse_unsigned("101", 2, u64::MAX), Some(5));
    assert_eq!(parse_unsigned("+101", 2, u64::MAX), Some(5));
    assert_eq!(parse_unsigned("", 16, u64::MAX), None);
    assert_eq!(parse_unsigned("+", 16, u64::MAX), None);
    assert_eq!(parse_unsigned("g", 16, u64::MAX), None);
    assert_eq!(parse_unsigned("ffffffffffffffff", 16, u64::MAX), Some(u64::MAX));
    assert_eq!(parse_unsigned("10000000000000000", 16, u64::MAX), None);
    assert_eq!(parse_unsigned("00000000000000000000000000001", 16, u64::MAX), Some(1));
    assert_eq!(parse_unsigned("0", 10, 0), Some(0));
    assert_eq!(parse_unsigned("1", 10, 0), None);
}

#[test]
fn numbers_are_read_as_std_reads_them() {
    for text in [
        "0", "1", "a", "A", "g", "", "+", "-", "+a", "-a", "ff", "0x1", "1 ", " 1",
        "18446744073709551615", "18446744073709551616", "ffffffffffffffff", "1ffffffffffffffff",
        "\u{ff11}", "1\u{0}",
    ] {
        assert_eq!(
            parse_unsigned(text, 16, u64::MAX),
            u64::from_str_radix(text, 16).ok(),
            "{:?}",
            text
        );
        assert_eq!(
            parse_unsigned(text, 10, u64::MAX),
            u64::from_str_radix(text, 10).ok(),
            "{:?}",
            text
        );
    }
}

#[test]
fn numbers_are_written_in_decimal() {
    assert_eq!(format_decimal(0), "0");
    assert_eq!(format_decimal(5), "5");
    assert_eq!(format_decimal(10), "10");
    assert_eq!(format_decimal(907), "907");
    assert_eq!(format_decimal(u32::MAX), "4294967295");
    for n in [1u32, 9, 99, 100, 101, 1000, 65535, 65536, 1234567890] {
        assert_eq!(format_decimal(n), n.to_string());
    }
}

#[test]
fn characters_make_a_string() {
    assert_eq!(string_of(&vec![]), "");
    assert_eq!(string_of(&vec!['a', '\u{e9}', '\u{1F600}']), "a\u{e9}\u{1F600}");
}

#[test]
fn a_character_is_inserted_before_a_position() {
    let text = vec!['a', 'b', 'c'];
    assert_eq!(with_inserted(&text, 0, 'x'), vec!['x', 'a', 'b', 'c']);
    assert_eq!(with_inserted(&text, 1, 'x'), vec!['a', 'x', 'b', 'c']);
    assert_eq!(with_inserted(&text, 3, 'x'), vec!['a', 'b', 'c', 'x']);
    assert_eq!(with_inserted(&vec![], 0, 'x'), vec!['x']);
}

#[test]
fn a_character_is_removed_at_a_position() {
    let text = vec!['a', 'b', 'c'];
    assert_eq!(with_removed(&text, 0), vec!['b', 'c']);
    assert_eq!(with_removed(&text, 1), vec!['a', 'c']);
    assert_eq!(with_removed(&text, 2), vec!['a', 'b']);
    assert_eq!(with_removed(&vec!['a'], 0), vec![]);
}

#[test]
fn a_code_point_is_decoded_from_its_low_bits() {
    assert_eq!(decode(0x41), Some('A'));
    assert_eq!(decode(0), Some('\u{0}'));
    assert_eq!(decode(0x1F600), Some('\u{1F600}'));
    assert_eq!(decode(0xD7FF), Some('\u{D7FF}'));
    assert_eq!(decode(0xD800), None);
    assert_eq!(decode(0xDFFF), None);
    assert_eq!(decode(0xE000), Some('\u{E000}'));
    assert_eq!(decode(0x10FFFF), Some('\u{10FFFF}'));
    assert_eq!(decode(0x110000), None);
    assert_eq!(decode(0xFFFF_FFFF), None);
    assert_eq!(decode(0x1_0000_0041), Some('A'));
    assert_eq!(decode(u64::MAX), None);
}

#[test]
fn a_record_gives_its_character() {
    let record = CharacterRecord::new("SNOWMAN".to_string(), "Symbols".to_string(), 0x2603);
    assert_eq!(record.character(), Some('\u{2603}'));
    assert_eq!(record.name, "SNOWMAN");
    assert_eq!(record.block, "Symbols");
    assert_eq!(record.code_point, 0x2603);
    let record = CharacterRecord::new("X".to_string(), "Y".to_string(), 0xDC00);
    assert_eq!(record.character(), None);
}
