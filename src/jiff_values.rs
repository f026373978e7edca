//! Values from jiff's date and time types.
use vstd::prelude::*;

use crate::composite::CompositeValue;
use crate::value_types::{
    CivilDate, CivilDateTime, DateTimeForm, PeriodOfTimeBuilder, PeriodOfTimeValue,
};

verus! {

#[verifier::external_type_specification]
#[verifier::external_body]
pub struct ExJiffDate(jiff::civil::Date);

#[verifier::external_type_specification]
#[verifier::external_body]
pub struct ExJiffDateTime(jiff::civil::DateTime);

#[verifier::external_type_specification]
#[verifier::external_body]
pub struct ExSpan(jiff::Span);

#[verifier::external_type_specification]
#[verifier::external_body]
pub struct ExZoned(jiff::Zoned);

#[verifier::external_type_specification]
#[verifier::external_body]
pub struct ExJiffError(jiff::Error);

/// Relies on `civil::Date::year`, in the range -9999..=9999.
pub assume_specification[ jiff::civil::Date::year ](d: jiff::civil::Date) -> (r: i16)
    ensures
        -9999 <= r <= 9999,
;

/// Relies on `civil::Date::month`, in the range 1..=12.
pub assume_specification[ jiff::civil::Date::month ](d: jiff::civil::Date) -> (r: i8)
    ensures
        1 <= r <= 12,
;

/// Relies on `civil::Date::day`, in the range 1..=31.
pub assume_specification[ jiff::civil::Date::day ](d: jiff::civil::Date) -> (r: i8)
    ensures
        1 <= r <= 31,
;

/// Relies on `civil::DateTime::date`: the date part of a date and time.
pub assume_specification[ jiff::civil::DateTime::date ](dt: jiff::civil::DateTime) -> jiff::civil::Date;

/// Relies on `civil::DateTime::hour`, in the range 0..=23.
pub assume_specification[ jiff::civil::DateTime::hour ](dt: jiff::civil::DateTime) -> (r: i8)
    ensures
        0 <= r <= 23,
;

/// Relies on `civil::DateTime::minute`, in the range 0..=59.
pub assume_specification[ jiff::civil::DateTime::minute ](dt: jiff::civil::DateTime) -> (r: i8)
    ensures
        0 <= r <= 59,
;

/// Relies on `civil::DateTime::second`, in the range 0..=59.
pub assume_specification[ jiff::civil::DateTime::second ](dt: jiff::civil::DateTime) -> (r: i8)
    ensures
        0 <= r <= 59,
;

/// Relies on `Zoned::datetime`: the civil date and time of a zoned time.
pub assume_specification[ jiff::Zoned::datetime ](z: &jiff::Zoned) -> jiff::civil::DateTime;

/// Relies on `Zoned::in_tz`: the same instant in the time zone `name`, or an
/// error where the time zone database has no such zone.
#[verifier::external_body]
fn zoned_in_utc(z: &jiff::Zoned) -> Result<jiff::Zoned, jiff::Error> {
    z.in_tz("UTC")
}

/// Relies on the `Display` of `Span`: its ISO 8601 text, such as `PT1H`.
#[verifier::external_body]
fn span_text(s: &jiff::Span) -> String {
    s.to_string()
}

impl CivilDate {
    /// The date of a jiff `civil::Date`, unless its year is negative.
    pub fn from_jiff(d: jiff::civil::Date) -> (r: Option<Self>)
        ensures
            r matches Some(c) ==> c.is_valid(),
    {
        CivilDate::from_ymd(d.year() as i32, d.month() as u32, d.day() as u32)
    }
}

impl CivilDateTime {
    /// The date and time of a jiff `civil::DateTime`, unless its year is
    /// negative.
    pub fn from_jiff(dt: jiff::civil::DateTime) -> (r: Option<Self>)
        ensures
            r matches Some(t) ==> t.is_valid(),
    {
        let date = CivilDate::from_jiff(dt.date())?;
        CivilDateTime::new(date, dt.hour() as u8, dt.minute() as u8, dt.second() as u8)
    }
}

/// Why a jiff time has no UTC form here.
pub enum UtcFormError {
    /// The time zone database has no UTC zone.
    TimeZone(jiff::Error),
    /// The year falls outside 0..=9999.
    OutOfRange,
}

/// A DATE-TIME in UTC made from jiff's types.
pub struct UtcForm {
    datetime: CivilDateTime,
}

impl UtcForm {
    pub closed spec fn datetime(&self) -> CivilDateTime {
        self.datetime
    }

    /// The UTC time whose civil date and time is `datetime`, unless its year
    /// is negative.
    pub fn from_civil(datetime: jiff::civil::DateTime) -> (r: Option<Self>)
        ensures
            r matches Some(u) ==> u.datetime().is_valid(),
    {
        Some(UtcForm { datetime: CivilDateTime::from_jiff(datetime)? })
    }

    /// The instant `datetime` in UTC. Fails where the time zone database has
    /// no UTC zone, or the year in UTC falls outside 0..=9999.
    pub fn from_zoned(datetime: jiff::Zoned) -> (r: Result<Self, UtcFormError>)
        ensures
            r matches Ok(u) ==> u.datetime().is_valid(),
    {
        match zoned_in_utc(&datetime) {
            Ok(utc) => match CivilDateTime::from_jiff(utc.datetime()) {
                Some(t) => Ok(UtcForm { datetime: t }),
                None => Err(UtcFormError::OutOfRange),
            },
            Err(e) => Err(UtcFormError::TimeZone(e)),
        }
    }

    /// The DATE-TIME form.
    pub fn form(&self) -> (r: DateTimeForm)
        ensures
            r == DateTimeForm::Utc(self.datetime()),
    {
        DateTimeForm::Utc(self.datetime)
    }
}

impl CompositeValue {
    /// The DURATION value of a jiff `Span`, in jiff's ISO 8601 text.
    pub fn duration_from_jiff(s: &jiff::Span) -> (r: Self)
        ensures
            r.value_type@ == "DURATION"@,
            r.shape is Single,
    {
        CompositeValue::single("DURATION", span_text(s))
    }
}

impl PeriodOfTimeBuilder {
    /// The period from the start for the jiff `Span` `duration`.
    pub fn jiff_duration(self, duration: &jiff::Span) -> (r: PeriodOfTimeValue)
        ensures
            r matches PeriodOfTimeValue::Start(s, _) && s == self.start_form(),
    {
        self.duration(span_text(duration))
    }
}

} // verus!
