use wc_tool::constants::format_size;
use wc_tool::constants::unit_name;
use wc_tool::constants::LARGEST_UNIT;
use wc_tool::render::decimal_text;
use wc_tool::render::pad;
use wc_tool::render::two_decimals_text;

fn shown(size: u64) -> String {
    let (hundredths, unit) = format_size(size);
    format!("{} {}", two_decimals_text(hundredths), unit_name(unit))
}

#[test]
fn bytes_stay_bytes_below_1024() {
    assert_eq!(format_size(0), (0, 0));
    assert_eq!(format_size(1), (100, 0));
    assert_eq!(format_size(1023), (102300, 0));
    assert_eq!(shown(1023), "1023.00 Bytes");
}

#[test]
fn one_kilobyte_is_1024_bytes() {
    assert_eq!(format_size(1024), (100, 1));
    assert_eq!(shown(1024), "1.00 KB");
}

#[test]
fn one_megabyte_is_1024_kilobytes() {
    assert_eq!(format_size(1_048_576), (100, 2));
    assert_eq!(shown(1_048_576), "1.00 MB");
    assert_eq!(shown(1_048_575), "1024.00 KB");
}

#[test]
fn fractions_come_in_hundredths() {
    assert_eq!(format_size(1536), (150, 1));
    assert_eq!(shown(1536), "1.50 KB");
    assert_eq!(shown(150), "150.00 Bytes");
    assert_eq!(shown(1_500_000), "1.43 MB");
    assert_eq!(shown(5_000_000_000), "4.66 GB");
}

#[test]
fn a_tie_goes_to_the_even_hundredth() {
    // 1029.12 bytes would be 1.005 KB; the nearest sizes round as usual.
    assert_eq!(format_size(1029), (100, 1));
    assert_eq!(format_size(1030), (101, 1));
    // 3 * 2^20 + 5 * 2^13 bytes is exactly 3.0390625 MB.
    assert_eq!(format_size(3 * 1_048_576 + 40_960), (304, 2));
    // 2^20 * 1.125 is exactly 1.125 MB: the tie goes to 1.12.
    assert_eq!(format_size(1_048_576 + 131_072), (112, 2));
    // 2^20 * 1.375 is exactly 1.375 MB: the tie goes to 1.38.
    assert_eq!(format_size(1_048_576 + 393_216), (138, 2));
}

#[test]
fn the_largest_size_stays_within_the_units() {
    let (hundredths, unit) = format_size(u64::MAX);
    assert_eq!(unit, 6);
    assert_eq!(hundredths, 1600);
    assert!(unit <= LARGEST_UNIT);
    assert_eq!(shown(u64::MAX), "16.00 EB");
}

#[test]
fn every_power_of_1024_starts_a_unit() {
    let names = ["Bytes", "KB", "MB", "GB", "TB", "PB", "EB"];
    let mut size: u64 = 1;
    for (unit, name) in names.iter().enumerate() {
        assert_eq!(format_size(size), (100, unit));
        assert_eq!(unit_name(unit), *name);
        if unit > 0 {
            assert_eq!(format_size(size - 1).1, unit - 1);
        }
        if unit < 6 {
            size *= 1024;
        }
    }
}

#[test]
fn units_have_their_names() {
    let names = ["Bytes", "KB", "MB", "GB", "TB", "PB", "EB", "ZB", "YB"];
    for (unit, name) in names.iter().enumerate() {
        assert_eq!(unit_name(unit), *name);
    }
    assert_eq!(LARGEST_UNIT, 8);
}

#[test]
fn numbers_are_written_in_decimal() {
    assert_eq!(decimal_text(0), "0");
    assert_eq!(decimal_text(7), "7");
    assert_eq!(decimal_text(10), "10");
    assert_eq!(decimal_text(1234567890), "1234567890");
    assert_eq!(decimal_text(u64::MAX), "18446744073709551615");
}

#[test]
fn hundredths_are_written_with_two_decimals() {
    assert_eq!(two_decimals_text(0), "0.00");
    assert_eq!(two_decimals_text(5), "0.05");
    assert_eq!(two_decimals_text(50), "0.50");
    assert_eq!(two_decimals_text(100), "1.00");
    assert_eq!(two_decimals_text(102300), "1023.00");
    assert_eq!(two_decimals_text(1999), "19.99");
}

#[test]
fn padding_fills_with_blanks_on_the_right() {
    assert_eq!(pad("File:", 12), "File:       ");
    assert_eq!(pad("File:", 5), "File:");
    assert_eq!(pad("File:", 3), "File:");
    assert_eq!(pad("", 2), "  ");
    assert_eq!(pad("é", 3), "é  ");
}
