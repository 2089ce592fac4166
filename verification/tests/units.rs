use sharch::text::{contains_text, decimal_string, parse_u64};
use sharch::units::{format_bytes, format_gb};

#[test]
fn bytes_below_one_kib_are_whole_numbers() {
    assert_eq!(format_bytes(0), "0 B");
    assert_eq!(format_bytes(1), "1 B");
    assert_eq!(format_bytes(1023), "1023 B");
}

#[test]
fn each_unit_starts_at_its_power_of_1024() {
    assert_eq!(format_bytes(1024), "1.00 KB");
    assert_eq!(format_bytes(1_048_576), "1.00 MB");
    assert_eq!(format_bytes(1_073_741_824), "1.00 GB");
    assert_eq!(format_bytes(1_099_511_627_776), "1.00 TB");
}

#[test]
fn the_top_of_a_unit_rounds_up_to_1024() {
    assert_eq!(format_bytes(1_048_575), "1024.00 KB");
    assert_eq!(format_bytes(1_073_741_823), "1024.00 MB");
    assert_eq!(format_bytes(1_099_511_627_775), "1024.00 GB");
}

#[test]
fn fractions_have_two_places() {
    assert_eq!(format_bytes(1536), "1.50 KB");
    assert_eq!(format_bytes(1_048_577), "1.00 MB");
    assert_eq!(format_bytes(34_603_008), "33.00 MB");
    assert_eq!(format_bytes(21_440_233_472), "19.97 GB");
    assert_eq!(format_bytes(u64::MAX), "16777216.00 TB");
}

#[test]
fn ties_go_to_the_even_hundredth() {
    assert_eq!(format_bytes(1152), "1.12 KB");
    assert_eq!(format_bytes(1408), "1.38 KB");
    assert_eq!(format_bytes(1024 + 5), "1.00 KB");
    assert_eq!(format_bytes(1024 + 6), "1.01 KB");
}

#[test]
fn rendering_agrees_with_binary_floating_point() {
    let samples: [u64; 19] = [
        1024,
        1029,
        1030,
        1152,
        1408,
        999_999,
        1_048_575,
        5_000_000,
        1_073_741_823,
        123_456_789_012,
        1_099_511_627_775,
        4_503_599_627_370_496,
        9_007_199_254_740_993,
        3_181_593_229_030_651_328,
        3_181_593_229_030_651_330,
        13_448_953_612_545_483_080,
        18_043_125_521_249_143_358,
        18_446_744_073_709_550_591,
        u64::MAX,
    ];
    for b in samples {
        let expected = if b >= 1_099_511_627_776 {
            format!("{:.2} TB", b as f64 / 1_099_511_627_776.0)
        } else if b >= 1_073_741_824 {
            format!("{:.2} GB", b as f64 / 1_073_741_824.0)
        } else if b >= 1_048_576 {
            format!("{:.2} MB", b as f64 / 1_048_576.0)
        } else {
            format!("{:.2} KB", b as f64 / 1024.0)
        };
        assert_eq!(format_bytes(b), expected);
    }
}

#[test]
fn magnitude_never_goes_down_across_a_boundary() {
    let pairs: [(u64, u64); 4] = [
        (1023, 1024),
        (1_048_575, 1_048_576),
        (1_073_741_823, 1_073_741_824),
        (1_099_511_627_775, 1_099_511_627_776),
    ];
    for (a, b) in pairs {
        let below = format_bytes(a);
        let above = format_bytes(b);
        let low: f64 = below.split(' ').next().unwrap().parse().unwrap();
        let high: f64 = above.split(' ').next().unwrap().parse().unwrap();
        assert!(low <= high * 1024.0);
        assert!(above.starts_with("1.00 "));
    }
}

#[test]
fn every_scaled_rendering_has_two_decimals() {
    for b in [1024u64, 2047, 999_999, 123_456_789, 98_765_432_100, 7_000_000_000_000] {
        let s = format_bytes(b);
        let number = s.split(' ').next().unwrap();
        let point = number.find('.').unwrap();
        assert_eq!(number.len() - point - 1, 2);
    }
    assert!(!format_bytes(512).contains('.'));
}

#[test]
fn huge_counts_are_taken_in_double_precision() {
    assert_eq!(format_bytes(3_181_593_229_030_651_328), "2893642.19 TB");
    assert_eq!(format_bytes(13_448_953_612_545_483_080), "12231752.05 TB");
    assert_eq!(format_bytes(18_043_125_521_249_143_358), "16410127.06 TB");
}

#[test]
fn gigabytes_of_megabytes() {
    assert_eq!(format_gb(1024), "1.00");
    assert_eq!(format_gb(512), "0.50");
    assert_eq!(format_gb(20447), "19.97");
    assert_eq!(format_gb(0), "0.00");
    assert_eq!(format_gb(20447), format!("{:.2}", 20447.0 / 1024.0));
    let huge: u64 = 13_448_953_612_545_483_080;
    assert_eq!(format_gb(huge as u128), format!("{:.2}", huge as f64 / 1024.0));
    assert_eq!(format_gb(1u128 << 70), "1152921504606846976.00");
}

#[test]
fn decimal_numerals() {
    assert_eq!(decimal_string(0), "0");
    assert_eq!(decimal_string(7), "7");
    assert_eq!(decimal_string(1024), "1024");
    assert_eq!(decimal_string(u64::MAX), "18446744073709551615");
}

#[test]
fn numbers_are_read_as_unsigned_decimals() {
    assert_eq!(parse_u64("0"), Some(0));
    assert_eq!(parse_u64("007"), Some(7));
    assert_eq!(parse_u64("+42"), Some(42));
    assert_eq!(parse_u64("18446744073709551615"), Some(u64::MAX));
    assert_eq!(parse_u64("18446744073709551616"), None);
    assert_eq!(parse_u64(""), None);
    assert_eq!(parse_u64("+"), None);
    assert_eq!(parse_u64("-1"), None);
    assert_eq!(parse_u64("++1"), None);
    assert_eq!(parse_u64("1 "), None);
    assert_eq!(parse_u64("12a"), None);
    assert_eq!(parse_u64("１２"), None);
    for text in ["0", "+9", "x", "", "99999999999999999999", "1_000"] {
        assert_eq!(parse_u64(text), text.parse::<u64>().ok());
    }
}

#[test]
fn a_text_holds_its_parts() {
    assert!(contains_text("/dev/nvme0n1", "nvme"));
    assert!(contains_text("abc", ""));
    assert!(contains_text("", ""));
    assert!(contains_text("abc", "abc"));
    assert!(contains_text("aab", "ab"));
    assert!(!contains_text("abc", "abcd"));
    assert!(!contains_text("abc", "ac"));
    assert!(!contains_text("", "a"));
}
