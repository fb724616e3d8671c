use battgen::topology::{parse_i32, parse_topology, DEFAULT_COUNT};

#[test]
fn topology_in_the_notation() {
    assert_eq!(parse_topology("96S2P"), (96, 2));
    assert_eq!(parse_topology("1S1P"), (1, 1));
    assert_eq!(parse_topology("4S4P"), (4, 4));
    assert_eq!(parse_topology("96S50P"), (96, 50));
    assert_eq!(parse_topology("007S010P"), (7, 10));
}

#[test]
fn default_topology_text_is_one_by_one() {
    assert_eq!(DEFAULT_COUNT, 1);
    assert_eq!(parse_topology("1S.1P"), (1, 1));
}

#[test]
fn malformed_topology_falls_back_to_one_by_one() {
    assert_eq!(parse_topology(""), (1, 1));
    assert_eq!(parse_topology("garbage"), (1, 1));
    assert_eq!(parse_topology("S"), (1, 1));
    assert_eq!(parse_topology("SP"), (1, 1));
    assert_eq!(parse_topology("xSyP"), (1, 1));
    assert_eq!(parse_topology("4s4p"), (1, 1));
    assert_eq!(parse_topology("P4S"), (1, 1));
    assert_eq!(parse_topology("3.5S1.5P"), (1, 1));
}

#[test]
fn each_count_falls_back_on_its_own() {
    assert_eq!(parse_topology("5SxP"), (5, 1));
    assert_eq!(parse_topology("xS4P"), (1, 4));
    assert_eq!(parse_topology("5S"), (5, 1));
    assert_eq!(parse_topology("5SP"), (5, 1));
    assert_eq!(parse_topology("S4P"), (1, 4));
    assert_eq!(parse_topology(" 4S4P"), (1, 4));
    assert_eq!(parse_topology("4S 4P"), (4, 1));
    assert_eq!(parse_topology("4S4 P"), (4, 1));
}

#[test]
fn topology_without_separator_has_no_parallel_count() {
    assert_eq!(parse_topology("5"), (5, 1));
    assert_eq!(parse_topology("12P"), (1, 1));
    assert_eq!(parse_topology("12"), (12, 1));
}

#[test]
fn parallel_count_ends_at_the_next_mark() {
    assert_eq!(parse_topology("12S34"), (12, 34));
    assert_eq!(parse_topology("4S4PS"), (4, 4));
    assert_eq!(parse_topology("1S2S3P"), (1, 2));
    assert_eq!(parse_topology("1S2P3P"), (1, 2));
    assert_eq!(parse_topology("4S4Pextra"), (4, 4));
    assert_eq!(parse_topology("3SS4P"), (3, 1));
}

#[test]
fn topology_counts_may_carry_a_sign() {
    assert_eq!(parse_topology("-3S+2P"), (-3, 2));
    assert_eq!(parse_topology("+3S-0P"), (3, 0));
    assert_eq!(parse_topology("0S0P"), (0, 0));
    assert_eq!(parse_topology("--3S+-2P"), (1, 1));
}

#[test]
fn topology_counts_out_of_range_fall_back() {
    assert_eq!(parse_topology("2147483647S2147483647P"), (i32::MAX, i32::MAX));
    assert_eq!(parse_topology("2147483648S2P"), (1, 2));
    assert_eq!(parse_topology("-2147483648S-2147483649P"), (i32::MIN, 1));
    assert_eq!(parse_topology("99999999999999999999999999S3P"), (1, 3));
    assert_eq!(parse_topology("000000000000000000000000012S3P"), (12, 3));
}

#[test]
fn topology_with_other_scripts() {
    assert_eq!(parse_topology("\u{0664}S\u{0662}P"), (1, 1));
    assert_eq!(parse_topology("4\u{00e9}S2P"), (1, 2));
    assert_eq!(parse_topology("\u{00e9}4S\u{00e9}P"), (1, 1));
    assert_eq!(parse_topology("12S\u{1F50B}"), (12, 1));
}

#[test]
fn integers_in_decimal() {
    assert_eq!(parse_i32("0"), Some(0));
    assert_eq!(parse_i32("7"), Some(7));
    assert_eq!(parse_i32("42"), Some(42));
    assert_eq!(parse_i32("007"), Some(7));
    assert_eq!(parse_i32("+42"), Some(42));
    assert_eq!(parse_i32("-42"), Some(-42));
    assert_eq!(parse_i32("-0"), Some(0));
    assert_eq!(parse_i32("2147483647"), Some(i32::MAX));
    assert_eq!(parse_i32("-2147483648"), Some(i32::MIN));
}

#[test]
fn texts_that_write_no_integer() {
    assert_eq!(parse_i32(""), None);
    assert_eq!(parse_i32("+"), None);
    assert_eq!(parse_i32("-"), None);
    assert_eq!(parse_i32("+-1"), None);
    assert_eq!(parse_i32("1-"), None);
    assert_eq!(parse_i32("12a"), None);
    assert_eq!(parse_i32("a12"), None);
    assert_eq!(parse_i32(" 12"), None);
    assert_eq!(parse_i32("12 "), None);
    assert_eq!(parse_i32("1_000"), None);
    assert_eq!(parse_i32("1.0"), None);
    assert_eq!(parse_i32("0x10"), None);
    assert_eq!(parse_i32("\u{0663}"), None);
}

#[test]
fn integers_out_of_range() {
    assert_eq!(parse_i32("2147483648"), None);
    assert_eq!(parse_i32("-2147483649"), None);
    assert_eq!(parse_i32("21474836470"), None);
    assert_eq!(parse_i32("9223372036854775808"), None);
    assert_eq!(parse_i32("-99999999999999999999999999999999999999999"), None);
}

#[test]
fn integers_agree_with_the_standard_parser() {
    for text in [
        "", "0", "-0", "+0", "1", "-1", "+1", "12", "0012", "2147483647", "2147483648", "-2147483648",
        "-2147483649", "+2147483647", "++1", "--1", "1+", "a", "1a", " 1", "1 ", "٣", "１２", "1e3",
        "00000000000000000000000000000000000000001", "4294967296", "-4294967296",
    ] {
        assert_eq!(parse_i32(text), text.parse::<i32>().ok(), "text {:?}", text);
    }
}

#[test]
fn topology_agrees_with_splitting_at_the_marks() {
    for text in [
        "96S2P", "1S.1P", "5SxP", "xS4P", "4S4PS", "1S2S3P", "S", "SP", "SS", "S4", "4S", "12S34", "-3S+2P",
        "4S4Pextra", "PS1P", "2147483648S2P", " 4S4P",
    ] {
        let pieces: Vec<&str> = text.split("S").collect();
        let series: i32 = pieces[0].parse().unwrap_or(1);
        let after: Vec<&str> = pieces[1].split("P").collect();
        let parallel: i32 = after[0].parse().unwrap_or(1);
        assert_eq!(parse_topology(text), (series, parallel), "text {:?}", text);
    }
}
