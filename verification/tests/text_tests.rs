use mc_gen::decode::strip_namespace;
use mc_gen::text::{format_i8, format_u8, parse_i8, parse_u8, strip_prefix};

#[test]
fn numbers_are_written_in_decimal() {
    assert_eq!(format_u8(0), "0");
    assert_eq!(format_u8(7), "7");
    assert_eq!(format_u8(10), "10");
    assert_eq!(format_u8(99), "99");
    assert_eq!(format_u8(100), "100");
    assert_eq!(format_u8(255), "255");
    assert_eq!(format_i8(0), "0");
    assert_eq!(format_i8(-1), "-1");
    assert_eq!(format_i8(-128), "-128");
    assert_eq!(format_i8(127), "127");
}

#[test]
fn numbers_are_written_as_std_writes_them() {
    for v in i8::MIN..=i8::MAX {
        assert_eq!(format_i8(v), v.to_string());
    }
    for v in u8::MIN..=u8::MAX {
        assert_eq!(format_u8(v), v.to_string());
    }
}

#[test]
fn numbers_are_read_as_std_reads_them() {
    let samples = [
        "", "0", "7", "-0", "+0", "+7", "-7", "007", "-007", "127", "128", "-128", "-129", "255",
        "256", "999", "1000", "99999999999999999999", "-", "+", "+-1", "--1", "1a", "a1", " 1",
        "1 ", "0x10", "1.0", "000000000000000000000000128", "-000000000129",
    ];
    for text in samples {
        assert_eq!(parse_i8(text), text.parse::<i8>().ok(), "i8 from {:?}", text);
        assert_eq!(parse_u8(text), text.parse::<u8>().ok(), "u8 from {:?}", text);
    }
}

#[test]
fn reading_a_written_number_gives_it_back() {
    for v in i8::MIN..=i8::MAX {
        assert_eq!(parse_i8(&format_i8(v)), Some(v));
    }
    for v in u8::MIN..=u8::MAX {
        assert_eq!(parse_u8(&format_u8(v)), Some(v));
    }
}

#[test]
fn a_prefix_is_taken_off_where_it_is_there() {
    assert_eq!(strip_prefix("minecraft:stone", "minecraft:"), Some("stone"));
    assert_eq!(strip_prefix("minecraft:", "minecraft:"), Some(""));
    assert_eq!(strip_prefix("stone", "minecraft:"), None);
    assert_eq!(strip_prefix("mine", "minecraft:"), None);
    assert_eq!(strip_prefix("abc", ""), Some("abc"));
    assert_eq!(strip_prefix("größe", "gr"), Some("öße"));
}

#[test]
fn the_namespace_is_taken_off_names() {
    assert_eq!(strip_namespace("minecraft:oak_log"), "oak_log");
    assert_eq!(strip_namespace("oak_log"), "oak_log");
    assert_eq!(strip_namespace("other:oak_log"), "other:oak_log");
    assert_eq!(strip_namespace("minecraft:minecraft:x"), "minecraft:x");
}
