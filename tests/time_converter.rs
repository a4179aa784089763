use dev_utils::time_converter::{split_millis, TimestampUnit, UnixTimeConverterPage};

fn page_at_utc() -> UnixTimeConverterPage {
    let page = UnixTimeConverterPage::new(0);
    assert_eq!(page.selected_timezone, 14);
    page
}

fn derived(page: &UnixTimeConverterPage) -> (String, String, String, String) {
    (
        page.iso_8601_time.clone(),
        page.email_time.clone(),
        page.dmy_time.clone(),
        page.hr_time.clone(),
    )
}

#[test]
fn new_page_is_empty_in_seconds() {
    let page = UnixTimeConverterPage::new(19800);
    assert_eq!(page.text, "");
    assert_eq!(page.unit, TimestampUnit::Seconds);
    assert_eq!(page.selected_timezone, 22);
    assert_eq!(page.timezones.len(), 38);
    assert_eq!(page.timezones[22], "UTC+05:30");
    assert_eq!(page.iso_8601_time, "");
    assert_eq!(page.email_time, "");
}

#[test]
fn new_page_with_unlisted_offset_picks_next_entry() {
    let page = UnixTimeConverterPage::new(3600 + 1);
    assert_eq!(page.selected_timezone, 16);
    let page = UnixTimeConverterPage::new(20 * 3600);
    assert_eq!(page.selected_timezone, 37);
}

#[test]
fn seconds_to_milliseconds_multiplies() {
    let mut page = page_at_utc();
    page.set_text("1700000000".to_string());
    page.change_unit(TimestampUnit::Milliseconds);
    assert_eq!(page.text, "1700000000000");
    assert_eq!(page.unit, TimestampUnit::Milliseconds);
}

#[test]
fn milliseconds_to_seconds_truncates() {
    let mut page = page_at_utc();
    page.change_unit(TimestampUnit::Milliseconds);
    page.set_text("1700000000500".to_string());
    page.change_unit(TimestampUnit::Seconds);
    assert_eq!(page.text, "1700000000");
    assert_eq!(page.unit, TimestampUnit::Seconds);
}

#[test]
fn negative_milliseconds_to_seconds_truncates_toward_zero() {
    let mut page = page_at_utc();
    page.change_unit(TimestampUnit::Milliseconds);
    page.set_text("-1500".to_string());
    page.change_unit(TimestampUnit::Seconds);
    assert_eq!(page.text, "-1");
    page.change_unit(TimestampUnit::Milliseconds);
    page.set_text("-2000".to_string());
    page.change_unit(TimestampUnit::Seconds);
    assert_eq!(page.text, "-2");
    page.change_unit(TimestampUnit::Milliseconds);
    page.set_text("-9223372036854775808".to_string());
    page.change_unit(TimestampUnit::Seconds);
    assert_eq!(page.text, "-9223372036854775");
}

#[test]
fn same_unit_rewrites_text_in_plain_decimal() {
    let mut page = page_at_utc();
    page.set_text("+0042".to_string());
    page.change_unit(TimestampUnit::Seconds);
    assert_eq!(page.text, "42");
}

#[test]
fn non_numeric_text_survives_unit_change() {
    let mut page = page_at_utc();
    page.set_text("abc".to_string());
    page.change_unit(TimestampUnit::Milliseconds);
    assert_eq!(page.text, "abc");
    page.change_unit(TimestampUnit::Seconds);
    assert_eq!(page.text, "abc");
}

#[test]
fn seconds_too_large_for_milliseconds_are_kept() {
    let mut page = page_at_utc();
    page.set_text("9223372036854776".to_string());
    page.change_unit(TimestampUnit::Milliseconds);
    assert_eq!(page.text, "9223372036854776");
    assert_eq!(page.unit, TimestampUnit::Milliseconds);
}

#[test]
fn epoch_at_utc() {
    let mut page = page_at_utc();
    page.set_text("0".to_string());
    page.convert_unix_timestamp();
    assert_eq!(page.iso_8601_time, "1970-01-01T00:00:00+00:00");
    assert_eq!(page.email_time, "Thu, 1 Jan 1970 00:00:00 +0000");
    assert_eq!(page.dmy_time, "01/01/1970");
    assert_eq!(page.hr_time, "Jan  1, 12:00 AM");
}

#[test]
fn milliseconds_keep_their_fraction() {
    let mut page = page_at_utc();
    page.change_unit(TimestampUnit::Milliseconds);
    page.set_text("1500".to_string());
    page.convert_unix_timestamp();
    assert_eq!(page.iso_8601_time, "1970-01-01T00:00:01.500+00:00");
    page.set_text("-1".to_string());
    page.convert_unix_timestamp();
    assert_eq!(page.iso_8601_time, "1969-12-31T23:59:59.999+00:00");
    assert_eq!(page.dmy_time, "31/12/1969");
}

#[test]
fn offset_moves_the_local_time() {
    let mut page = page_at_utc();
    page.set_text("1700000000".to_string());
    page.change_timezone(23);
    assert_eq!(page.selected_timezone, 23);
    assert_eq!(page.iso_8601_time, "2023-11-15T03:58:20+05:45");
    assert_eq!(page.email_time, "Wed, 15 Nov 2023 03:58:20 +0545");
    assert_eq!(page.dmy_time, "15/11/2023");
    assert_eq!(page.hr_time, "Nov 15,  3:58 AM");
    page.change_timezone(3);
    assert_eq!(page.iso_8601_time, "2023-11-14T12:43:20-09:30");
}

#[test]
fn selection_outside_table_changes_nothing() {
    let mut page = page_at_utc();
    page.set_text("0".to_string());
    page.convert_unix_timestamp();
    let before = derived(&page);
    page.change_timezone(38);
    assert_eq!(page.selected_timezone, 14);
    assert_eq!(derived(&page), before);
}

#[test]
fn year_ten_thousand_has_no_email_text() {
    let mut page = page_at_utc();
    page.set_text("0".to_string());
    page.convert_unix_timestamp();
    page.set_text("253402300800".to_string());
    page.convert_unix_timestamp();
    assert_eq!(page.email_time, "");
    assert_eq!(page.iso_8601_time, "+10000-01-01T00:00:00+00:00");
    assert_eq!(page.dmy_time, "01/01/+10000");
}

#[test]
fn last_second_of_year_9999_keeps_email_text() {
    let mut page = page_at_utc();
    page.set_text("253402300799".to_string());
    page.convert_unix_timestamp();
    assert_eq!(page.email_time, "Fri, 31 Dec 9999 23:59:59 +0000");
}

#[test]
fn negative_years_have_no_email_text() {
    let mut page = page_at_utc();
    page.set_text("-62198755200".to_string());
    page.convert_unix_timestamp();
    assert_eq!(page.email_time, "");
    assert!(!page.iso_8601_time.is_empty());
}

#[test]
fn refreshing_twice_changes_nothing_more() {
    let mut page = page_at_utc();
    page.set_text("1234567890".to_string());
    page.convert_unix_timestamp();
    let once = derived(&page);
    page.convert_unix_timestamp();
    assert_eq!(derived(&page), once);
    assert_eq!(once.0, "2009-02-13T23:31:30+00:00");
}

#[test]
fn unreadable_text_leaves_derived_texts() {
    let mut page = page_at_utc();
    page.set_text("0".to_string());
    page.convert_unix_timestamp();
    let before = derived(&page);
    page.set_text("12x".to_string());
    page.convert_unix_timestamp();
    assert_eq!(derived(&page), before);
    page.set_text("99999999999999999999".to_string());
    page.convert_unix_timestamp();
    assert_eq!(derived(&page), before);
}

#[test]
fn instant_out_of_range_leaves_derived_texts() {
    let mut page = page_at_utc();
    page.set_text("0".to_string());
    page.convert_unix_timestamp();
    let before = derived(&page);
    page.set_text(i64::MAX.to_string());
    page.convert_unix_timestamp();
    assert_eq!(derived(&page), before);
}

#[test]
fn current_time_in_each_unit() {
    let mut page = page_at_utc();
    page.set_current_time(1700000000500);
    assert_eq!(page.text, "1700000000");
    assert_eq!(page.iso_8601_time, "2023-11-14T22:13:20+00:00");
    page.change_unit(TimestampUnit::Milliseconds);
    page.set_current_time(1700000000500);
    assert_eq!(page.text, "1700000000500");
    assert_eq!(page.iso_8601_time, "2023-11-14T22:13:20.500+00:00");
    page.change_unit(TimestampUnit::Seconds);
    page.set_current_time(-1);
    assert_eq!(page.text, "-1");
}

#[test]
fn millis_split_rounds_seconds_down() {
    assert_eq!(split_millis(1500), (1, 500_000_000));
    assert_eq!(split_millis(-1), (-1, 999_000_000));
    assert_eq!(split_millis(-1000), (-1, 0));
    assert_eq!(split_millis(i64::MIN), (-9223372036854776, 192_000_000));
}

#[test]
fn text_edit_refreshes_derived_texts() {
    let mut page = page_at_utc();
    page.set_text("86400".to_string());
    assert_eq!(page.iso_8601_time, "1970-01-02T00:00:00+00:00");
    assert_eq!(page.dmy_time, "02/01/1970");
    page.set_text("8640".to_string());
    assert_eq!(page.iso_8601_time, "1970-01-01T02:24:00+00:00");
}
