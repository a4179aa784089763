use dev_utils::decimal::i64_text;
use dev_utils::offsets::{find_offset_index, format_offset, offset_labels, utc_offsets};

#[test]
fn table_has_thirty_eight_increasing_entries() {
    let table = utc_offsets();
    assert_eq!(table.len(), 38);
    assert_eq!(table[0], -12 * 3600);
    assert_eq!(table[37], 14 * 3600);
    for i in 1..table.len() {
        assert!(table[i - 1] < table[i]);
    }
}

#[test]
fn exact_offset_picks_its_entry() {
    let table = utc_offsets();
    for (i, offset) in table.iter().enumerate() {
        assert_eq!(find_offset_index(&table, *offset), i);
    }
    assert_eq!(find_offset_index(&table, 0), 14);
    assert_eq!(find_offset_index(&table, 5 * 3600 + 45 * 60), 23);
}

#[test]
fn offset_between_entries_picks_the_next() {
    let table = utc_offsets();
    assert_eq!(find_offset_index(&table, 60), 15);
    assert_eq!(find_offset_index(&table, -9 * 3600 - 15 * 60), 4);
    assert_eq!(find_offset_index(&table, 12 * 3600 + 1), 35);
}

#[test]
fn offset_below_the_table_picks_the_first() {
    let table = utc_offsets();
    assert_eq!(find_offset_index(&table, -13 * 3600), 0);
    assert_eq!(find_offset_index(&table, i32::MIN), 0);
}

#[test]
fn offset_above_the_table_picks_the_last() {
    let table = utc_offsets();
    assert_eq!(find_offset_index(&table, 14 * 3600 + 1), 37);
    assert_eq!(find_offset_index(&table, i32::MAX), 37);
}

#[test]
fn offset_labels_are_signed_hours_and_minutes() {
    assert_eq!(format_offset(0), "UTC+00:00");
    assert_eq!(format_offset(-9 * 3600 - 30 * 60), "UTC-09:30");
    assert_eq!(format_offset(5 * 3600 + 45 * 60), "UTC+05:45");
    assert_eq!(format_offset(14 * 3600), "UTC+14:00");
    assert_eq!(format_offset(-12 * 3600), "UTC-12:00");
    assert_eq!(format_offset(86399), "UTC+23:59");
}

#[test]
fn every_table_entry_gets_its_label() {
    let table = utc_offsets();
    let labels = offset_labels(&table);
    assert_eq!(labels.len(), 38);
    assert_eq!(labels[0], "UTC-12:00");
    assert_eq!(labels[14], "UTC+00:00");
    assert_eq!(labels[35], "UTC+12:45");
}

#[test]
fn integers_in_decimal() {
    assert_eq!(i64_text(0), "0");
    assert_eq!(i64_text(7), "7");
    assert_eq!(i64_text(1700000000000), "1700000000000");
    assert_eq!(i64_text(-42), "-42");
    assert_eq!(i64_text(i64::MAX), "9223372036854775807");
    assert_eq!(i64_text(i64::MIN), "-9223372036854775808");
}
