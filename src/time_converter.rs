//! The Unix time converter: a timestamp typed by the user, its unit and a
//! chosen UTC offset, and the four texts derived from them.

use vstd::prelude::*;

use crate::decimal::{decimal_text, i64_text, parse_i64, parsed_i64};
use crate::offsets::{
    find_offset_index, offset_index_for, offset_label, offset_labels, offset_table, utc_offsets,
};

verus! {

/// The unit in which a timestamp counts time since the epoch.
#[derive(Clone, Copy, Debug, PartialEq, Eq, Structural)]
pub enum TimestampUnit {
    Seconds,
    Milliseconds,
}

/// Whether chrono can represent the instant `secs` seconds and `nanos`
/// nanoseconds after the epoch.
pub uninterp spec fn representable_instant(secs: int, nanos: int) -> bool;

/// chrono's RFC 3339 text of an instant shown at a fixed offset.
pub uninterp spec fn rfc3339_text(secs: int, nanos: int, offset: int) -> Seq<char>;

/// chrono's RFC 2822 text of an instant shown at a fixed offset.
pub uninterp spec fn rfc2822_text(secs: int, nanos: int, offset: int) -> Seq<char>;

/// The calendar year of an instant shown at a fixed offset.
pub uninterp spec fn local_year(secs: int, nanos: int, offset: int) -> int;

/// chrono's rendering of an instant at a fixed offset by a strftime pattern.
pub uninterp spec fn strftime_text(secs: int, nanos: int, offset: int, pattern: Seq<char>) -> Seq<
    char,
>;

/// Seconds since the epoch that chrono surely represents: about 253,000
/// years either way, well inside its dates from year -262143 to 262142.
pub open spec fn surely_in_range(secs: int) -> bool {
    -8_000_000_000_000 <= secs <= 8_000_000_000_000
}

/// Seconds since the epoch that chrono surely does not represent: more than
/// 263,000 years after the epoch, or 266,000 years before it.
pub open spec fn surely_out_of_range(secs: int) -> bool {
    secs > 8_300_000_000_000 || secs < -8_400_000_000_000
}

/// Relies on chrono's `DateTime::from_timestamp`: `None` outside its range of
/// dates (years -262143 to 262142) or for a nanosecond count of 10^9 and over
/// (leap seconds aside).
#[verifier::external_body]
fn instant_exists(secs: i64, nanos: u32) -> (r: bool)
    ensures
        r == representable_instant(secs as int, nanos as int),
        surely_in_range(secs as int) && nanos < 1_000_000_000 ==> r,
        surely_out_of_range(secs as int) ==> !r,
{
    chrono::DateTime::from_timestamp(secs, nanos).is_some()
}

/// Relies on chrono's `DateTime::to_rfc3339`, which always writes a date, of
/// the instant made by `DateTime::from_timestamp` and moved to the offset made
/// by `FixedOffset::east_opt` (`Some` strictly inside one day).
#[verifier::external_body]
fn rfc3339_at(secs: i64, nanos: u32, offset: i32) -> (r: String)
    requires
        representable_instant(secs as int, nanos as int),
        -86400 < offset < 86400,
    ensures
        r@ == rfc3339_text(secs as int, nanos as int, offset as int),
        r@.len() > 0,
{
    let zone = chrono::FixedOffset::east_opt(offset).unwrap();
    chrono::DateTime::from_timestamp(secs, nanos).unwrap().with_timezone(&zone).to_rfc3339()
}

/// Relies on chrono's `DateTime::to_rfc2822`, which panics outside the years
/// 0 to 9999, of the instant built as for `rfc3339_at`.
#[verifier::external_body]
fn rfc2822_at(secs: i64, nanos: u32, offset: i32) -> (r: String)
    requires
        representable_instant(secs as int, nanos as int),
        -86400 < offset < 86400,
        0 <= local_year(secs as int, nanos as int, offset as int) < 10000,
    ensures
        r@ == rfc2822_text(secs as int, nanos as int, offset as int),
{
    let zone = chrono::FixedOffset::east_opt(offset).unwrap();
    chrono::DateTime::from_timestamp(secs, nanos).unwrap().with_timezone(&zone).to_rfc2822()
}

/// Relies on chrono's `Datelike::year` of the instant built as for `rfc3339_at`.
#[verifier::external_body]
fn year_at(secs: i64, nanos: u32, offset: i32) -> (r: i32)
    requires
        representable_instant(secs as int, nanos as int),
        -86400 < offset < 86400,
    ensures
        r as int == local_year(secs as int, nanos as int, offset as int),
{
    let zone = chrono::FixedOffset::east_opt(offset).unwrap();
    chrono::Datelike::year(&chrono::DateTime::from_timestamp(secs, nanos).unwrap().with_timezone(&zone))
}

/// Relies on chrono's `DateTime::format` and `DelayedFormat::write_to` of the
/// instant built as for `rfc3339_at`; what was written before an error stays.
#[verifier::external_body]
fn strftime_at(secs: i64, nanos: u32, offset: i32, pattern: &str) -> (r: String)
    requires
        representable_instant(secs as int, nanos as int),
        -86400 < offset < 86400,
    ensures
        r@ == strftime_text(secs as int, nanos as int, offset as int, pattern@),
{
    let zone = chrono::FixedOffset::east_opt(offset).unwrap();
    let zoned = chrono::DateTime::from_timestamp(secs, nanos).unwrap().with_timezone(&zone);
    let mut out = String::new();
    let _ = zoned.format(pattern).write_to(&mut out);
    out
}

/// The instant a timestamp stands for, as whole seconds since the epoch and
/// nanoseconds past them (seconds rounded down for milliseconds).
pub open spec fn instant_parts(t: int, unit: TimestampUnit) -> (int, int) {
    match unit {
        TimestampUnit::Seconds => (t, 0),
        TimestampUnit::Milliseconds => (t / 1000, (t % 1000) * 1_000_000),
    }
}

/// Splits milliseconds since the epoch into seconds (rounded down) and the
/// nanoseconds past them.
pub fn split_millis(t: i64) -> (r: (i64, u32))
    ensures
        r.0 as int == instant_parts(t as int, TimestampUnit::Milliseconds).0,
        r.1 as int == instant_parts(t as int, TimestampUnit::Milliseconds).1,
        r.1 < 1_000_000_000,
{
    if t >= 0 {
        let q = t / 1000;
        let m = t % 1000;
        (q, (m as u32) * 1_000_000)
    } else {
        let u: i64 = -(t + 1);
        let uq = u / 1000;
        let ur = u % 1000;
        proof {
            assert(t == 1000 * (-uq - 1) + (999 - ur)) by (nonlinear_arith)
                requires
                    u == -(t + 1),
                    u == 1000 * uq + ur,
            ;
            assert((t as int) / 1000 == -uq - 1 && (t as int) % 1000 == 999 - ur) by (
            nonlinear_arith)
                requires
                    t == 1000 * (-uq - 1) + (999 - ur),
                    0 <= ur < 1000,
            ;
        }
        (-uq - 1, ((999 - ur) as u32) * 1_000_000)
    }
}

/// The four texts derived from a timestamp.
pub struct DerivedTexts {
    pub iso: Seq<char>,
    pub email: Seq<char>,
    pub dmy: Seq<char>,
    pub human: Seq<char>,
}

/// The texts derived from the instant `(secs, nanos)` shown at `offset`: the
/// email text is empty outside the years 0 to 9999.
pub open spec fn derived_texts(secs: int, nanos: int, offset: int) -> DerivedTexts {
    DerivedTexts {
        iso: rfc3339_text(secs, nanos, offset),
        email: if 0 <= local_year(secs, nanos, offset) < 10000 {
            rfc2822_text(secs, nanos, offset)
        } else {
            Seq::empty()
        },
        dmy: strftime_text(secs, nanos, offset, "%d/%m/%Y"@),
        human: strftime_text(secs, nanos, offset, "%b %e, %l:%M %p"@),
    }
}

/// What a page holds, as mathematical values.
pub struct PageView {
    pub text: Seq<char>,
    pub unit: TimestampUnit,
    pub zone: int,
    pub derived: DerivedTexts,
}

/// The page after its derived texts are brought up to date: nothing changes
/// when the text is no 64-bit integer or names an instant out of range.
pub open spec fn refreshed(v: PageView) -> PageView {
    match parsed_i64(v.text) {
        None => v,
        Some(t) => {
            let (secs, nanos) = instant_parts(t as int, v.unit);
            if representable_instant(secs, nanos) {
                PageView { derived: derived_texts(secs, nanos, offset_table()[v.zone] as int), ..v }
            } else {
                v
            }
        },
    }
}

/// The timestamp `t` counted in `from`, counted in `to` instead, when that
/// fits in 64 bits; seconds from milliseconds drop the fraction (toward zero).
pub open spec fn converted_value(t: int, from: TimestampUnit, to: TimestampUnit) -> Option<int> {
    let v = match (from, to) {
        (TimestampUnit::Seconds, TimestampUnit::Milliseconds) => t * 1000,
        (TimestampUnit::Milliseconds, TimestampUnit::Seconds) => if t >= 0 {
            t / 1000
        } else {
            -((-t) / 1000)
        },
        _ => t,
    };
    if i64::MIN <= v <= i64::MAX {
        Some(v)
    } else {
        None
    }
}

/// The timestamp text after a change of unit: rewritten in decimal when it
/// holds an integer that fits in the new unit, else kept as it is.
pub open spec fn converted_text(text: Seq<char>, from: TimestampUnit, to: TimestampUnit) -> Seq<
    char,
> {
    match parsed_i64(text) {
        Some(t) => match converted_value(t as int, from, to) {
            Some(v) => decimal_text(v),
            None => text,
        },
        None => text,
    }
}

/// The timestamp of the instant `now_millis` milliseconds after the epoch, in `unit`.
pub open spec fn now_in_unit(now_millis: int, unit: TimestampUnit) -> int {
    match unit {
        TimestampUnit::Seconds => now_millis / 1000,
        TimestampUnit::Milliseconds => now_millis,
    }
}

/// The Unix time converter page.
pub struct UnixTimeConverterPage {
    pub text: String,
    pub iso_8601_time: String,
    pub email_time: String,
    pub dmy_time: String,
    pub hr_time: String,
    pub unit: TimestampUnit,
    pub selected_timezone: usize,
    pub offsets: Vec<i32>,
    pub timezones: Vec<String>,
}

impl View for UnixTimeConverterPage {
    type V = PageView;

    open spec fn view(&self) -> PageView {
        PageView {
            text: self.text@,
            unit: self.unit,
            zone: self.selected_timezone as int,
            derived: DerivedTexts {
                iso: self.iso_8601_time@,
                email: self.email_time@,
                dmy: self.dmy_time@,
                human: self.hr_time@,
            },
        }
    }
}

impl UnixTimeConverterPage {
    /// The offsets are the fixed table, the selection lies in it, and each
    /// label names its offset.
    pub open spec fn wf(&self) -> bool {
        &&& self.offsets@ == offset_table()
        &&& self.selected_timezone < self.offsets@.len()
        &&& self.timezones@.len() == self.offsets@.len()
        &&& forall|i: int|
            0 <= i < self.timezones@.len() ==> #[trigger] self.timezones@[i]@ == offset_label(
                offset_table()[i] as int,
            )
    }

    /// A fresh page: empty texts, seconds, and the offset nearest to the
    /// host's offset `local_offset` selected.
    pub fn new(local_offset: i32) -> (r: Self)
        ensures
            r.wf(),
            r@.text.len() == 0,
            r@.unit == TimestampUnit::Seconds,
            r@.zone == offset_index_for(offset_table(), local_offset as int),
            r@.derived.iso.len() == 0,
            r@.derived.email.len() == 0,
            r@.derived.dmy.len() == 0,
            r@.derived.human.len() == 0,
    {
        let offsets = utc_offsets();
        let selected_timezone = find_offset_index(offsets.as_slice(), local_offset);
        let timezones = offset_labels(&offsets);
        UnixTimeConverterPage {
            text: String::new(),
            iso_8601_time: String::new(),
            email_time: String::new(),
            dmy_time: String::new(),
            hr_time: String::new(),
            unit: TimestampUnit::Seconds,
            selected_timezone,
            offsets,
            timezones,
        }
    }

    /// Brings the derived texts up to date with the text, unit and offset.
    pub fn convert_unix_timestamp(&mut self)
        requires
            old(self).wf(),
        ensures
            final(self).wf(),
            final(self).timezones@ == old(self).timezones@,
            final(self)@ == refreshed(old(self)@),
            parsed_i64(old(self)@.text) matches Some(t) && representable_instant(
                instant_parts(t as int, old(self)@.unit).0,
                instant_parts(t as int, old(self)@.unit).1,
            ) ==> final(self)@.derived.iso.len() > 0,
            match parsed_i64(old(self)@.text) {
                Some(t) => {
                    let (secs, nanos) = instant_parts(t as int, old(self)@.unit);
                    &&& surely_in_range(secs) ==> final(self)@.derived == derived_texts(
                        secs,
                        nanos,
                        offset_table()[old(self)@.zone] as int,
                    )
                    &&& surely_out_of_range(secs) ==> final(self)@ == old(self)@
                },
                None => true,
            },
    {
        if let Some(t) = parse_i64(self.text.as_str()) {
            let parts = match self.unit {
                TimestampUnit::Seconds => (t, 0u32),
                TimestampUnit::Milliseconds => split_millis(t),
            };
            let secs = parts.0;
            let nanos = parts.1;
            if instant_exists(secs, nanos) {
                let offset = self.offsets[self.selected_timezone];
                proof {
                    crate::offsets::lemma_offset_table_bounds(self.selected_timezone as int);
                }
                self.iso_8601_time = rfc3339_at(secs, nanos, offset);
                let year = year_at(secs, nanos, offset);
                if 0 <= year && year < 10000 {
                    self.email_time = rfc2822_at(secs, nanos, offset);
                } else {
                    self.email_time = String::new();
                }
                self.dmy_time = strftime_at(secs, nanos, offset, "%d/%m/%Y");
                self.hr_time = strftime_at(secs, nanos, offset, "%b %e, %l:%M %p");
                proof {
                    assert(self.email_time@ == derived_texts(
                        secs as int,
                        nanos as int,
                        offset as int,
                    ).email);
                }
            }
        }
    }

    /// Replaces the timestamp text as typed, then refreshes.
    pub fn set_text(&mut self, text: String)
        requires
            old(self).wf(),
        ensures
            final(self).wf(),
            final(self).timezones@ == old(self).timezones@,
            final(self)@ == refreshed((PageView { text: text@, ..old(self)@ })),
    {
        self.text = text;
        self.convert_unix_timestamp();
    }

    /// Switches the unit, rewriting the timestamp for it, then refreshes.
    pub fn change_unit(&mut self, unit: TimestampUnit)
        requires
            old(self).wf(),
        ensures
            final(self).wf(),
            final(self).timezones@ == old(self).timezones@,
            final(self)@ == refreshed(
                (PageView {
                    text: converted_text(old(self)@.text, old(self)@.unit, unit),
                    unit,
                    ..old(self)@
                }),
            ),
    {
        if let Some(t) = parse_i64(self.text.as_str()) {
            let converted: Option<i64> = match (self.unit, unit) {
                (TimestampUnit::Seconds, TimestampUnit::Milliseconds) => {
                    if -9_223_372_036_854_775 <= t && t <= 9_223_372_036_854_775 {
                        Some(t * 1000)
                    } else {
                        None
                    }
                },
                (TimestampUnit::Milliseconds, TimestampUnit::Seconds) => {
                    if t >= 0 {
                        Some(t / 1000)
                    } else {
                        let u: i64 = -(t + 1);
                        let uq = u / 1000;
                        let ur = u % 1000;
                        proof {
                            assert(-(t as int) == 1000 * uq + (ur + 1)) by (nonlinear_arith)
                                requires
                                    u == -(t + 1),
                                    u == 1000 * uq + ur,
                            ;
                            if ur == 999 {
                                assert((-(t as int)) / 1000 == uq + 1) by (nonlinear_arith)
                                    requires
                                        -(t as int) == 1000 * (uq + 1),
                                ;
                            } else {
                                assert((-(t as int)) / 1000 == uq) by (nonlinear_arith)
                                    requires
                                        -(t as int) == 1000 * uq + (ur + 1),
                                        0 <= ur < 999,
                                ;
                            }
                        }
                        if ur == 999 {
                            Some(-uq - 1)
                        } else {
                            Some(-uq)
                        }
                    }
                },
                _ => Some(t),
            };
            if let Some(v) = converted {
                self.text = i64_text(v);
            }
        }
        self.unit = unit;
        self.convert_unix_timestamp();
    }

    /// Selects another offset of the table and refreshes; a selection outside
    /// the table changes nothing.
    pub fn change_timezone(&mut self, selection: usize)
        requires
            old(self).wf(),
        ensures
            final(self).wf(),
            final(self).timezones@ == old(self).timezones@,
            selection < offset_table().len() ==> final(self)@ == refreshed(
                (PageView { zone: selection as int, ..old(self)@ }),
            ),
            selection >= offset_table().len() ==> final(self)@ == old(self)@,
    {
        if selection < self.offsets.len() {
            self.selected_timezone = selection;
            self.convert_unix_timestamp();
        }
    }

    /// Sets the timestamp to the instant `now_millis` milliseconds after the
    /// epoch, in the page's unit, and refreshes.
    pub fn set_current_time(&mut self, now_millis: i64)
        requires
            old(self).wf(),
        ensures
            final(self).wf(),
            final(self).timezones@ == old(self).timezones@,
            final(self)@ == refreshed(
                (PageView {
                    text: decimal_text(now_in_unit(now_millis as int, old(self)@.unit)),
                    ..old(self)@
                }),
            ),
    {
        let now = match self.unit {
            TimestampUnit::Seconds => split_millis(now_millis).0,
            TimestampUnit::Milliseconds => now_millis,
        };
        self.text = i64_text(now);
        self.convert_unix_timestamp();
    }
}

/// A text that holds no 64-bit integer survives any change of unit.
pub proof fn lemma_unparsable_text_kept(text: Seq<char>, from: TimestampUnit, to: TimestampUnit)
    requires
        parsed_i64(text) is None,
    ensures
        converted_text(text, from, to) == text,
{
}

/// When the instant falls in a year beyond 9999 (or before 0) at the chosen
/// offset, the refreshed email text is empty, and the other texts are those
/// of the instant.
pub proof fn lemma_email_empty_outside_years(v: PageView, t: i64)
    requires
        parsed_i64(v.text) == Some(t),
        representable_instant(instant_parts(t as int, v.unit).0, instant_parts(t as int, v.unit).1),
        !(0 <= local_year(
            instant_parts(t as int, v.unit).0,
            instant_parts(t as int, v.unit).1,
            offset_table()[v.zone] as int,
        ) < 10000),
    ensures
        refreshed(v).derived.email.len() == 0,
        refreshed(v).derived.iso == rfc3339_text(
            instant_parts(t as int, v.unit).0,
            instant_parts(t as int, v.unit).1,
            offset_table()[v.zone] as int,
        ),
{
}

/// Refreshing twice gives what refreshing once gives.
pub proof fn lemma_refresh_idempotent(v: PageView)
    ensures
        refreshed(refreshed(v)) == refreshed(v),
{
}

} // verus!
