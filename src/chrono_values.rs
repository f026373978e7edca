//! Values from chrono's date and time types.
use vstd::prelude::*;

use chrono::{Datelike, Timelike};

use crate::composite::CompositeValue;
use crate::value_types::{
    CivilDate, CivilDateTime, DateTimeForm, PeriodOfTimeBuilder, PeriodOfTimeValue,
};

verus! {

#[verifier::external_type_specification]
#[verifier::external_body]
pub struct ExNaiveDate(chrono::NaiveDate);

#[verifier::external_type_specification]
#[verifier::external_body]
pub struct ExNaiveDateTime(chrono::NaiveDateTime);

#[verifier::external_type_specification]
#[verifier::external_body]
pub struct ExTimeDelta(chrono::TimeDelta);

/// Relies on `Datelike::year` of `NaiveDate`: the year of the date.
#[verifier::external_body]
fn naive_date_year(d: &chrono::NaiveDate) -> i32 {
    d.year()
}

/// Relies on `Datelike::month` of `NaiveDate`, which ranges from 1 to 12.
#[verifier::external_body]
fn naive_date_month(d: &chrono::NaiveDate) -> (r: u32)
    ensures
        1 <= r <= 12,
{
    d.month()
}

/// Relies on `Datelike::day` of `NaiveDate`, which ranges from 1 to 31.
#[verifier::external_body]
fn naive_date_day(d: &chrono::NaiveDate) -> (r: u32)
    ensures
        1 <= r <= 31,
{
    d.day()
}

/// Relies on `NaiveDateTime::date`: the date part of a date and time.
pub assume_specification[ chrono::NaiveDateTime::date ](dt: &chrono::NaiveDateTime) -> chrono::NaiveDate;

/// Relies on `Timelike::hour` of `NaiveDateTime`, from 0 to 23.
#[verifier::external_body]
fn naive_date_time_hour(dt: &chrono::NaiveDateTime) -> (r: u32)
    ensures
        r <= 23,
{
    dt.hour()
}

/// Relies on `Timelike::minute` of `NaiveDateTime`, from 0 to 59.
#[verifier::external_body]
fn naive_date_time_minute(dt: &chrono::NaiveDateTime) -> (r: u32)
    ensures
        r <= 59,
{
    dt.minute()
}

/// Relies on `Timelike::second` of `NaiveDateTime`, from 0 to 59 (a leap
/// second shows in the nanoseconds).
#[verifier::external_body]
fn naive_date_time_second(dt: &chrono::NaiveDateTime) -> (r: u32)
    ensures
        r <= 59,
{
    dt.second()
}

/// Relies on the `Display` of `TimeDelta`: its ISO 8601 text, such as
/// `PT3600S`.
#[verifier::external_body]
fn time_delta_text(d: &chrono::TimeDelta) -> String {
    d.to_string()
}

impl CivilDate {
    /// The date of a chrono `NaiveDate`, unless its year falls outside
    /// 0..=9999.
    pub fn from_chrono(d: &chrono::NaiveDate) -> (r: Option<Self>)
        ensures
            r matches Some(c) ==> c.is_valid(),
    {
        CivilDate::from_ymd(naive_date_year(d), naive_date_month(d), naive_date_day(d))
    }
}

impl CivilDateTime {
    /// The date and time of a chrono `NaiveDateTime`, unless its year falls
    /// outside 0..=9999.
    pub fn from_chrono(dt: &chrono::NaiveDateTime) -> (r: Option<Self>)
        ensures
            r matches Some(t) ==> t.is_valid(),
    {
        let date = CivilDate::from_chrono(&dt.date())?;
        let hour = naive_date_time_hour(dt);
        let minute = naive_date_time_minute(dt);
        let second = naive_date_time_second(dt);
        CivilDateTime::new(date, hour as u8, minute as u8, second as u8)
    }
}

impl DateTimeForm {
    /// The floating form of a chrono `NaiveDateTime`, unless its year falls
    /// outside 0..=9999.
    pub fn floating_from_chrono(dt: &chrono::NaiveDateTime) -> (r: Option<Self>)
        ensures
            r matches Some(f) ==> f matches DateTimeForm::Floating(t) && t.is_valid(),
    {
        Some(DateTimeForm::Floating(CivilDateTime::from_chrono(dt)?))
    }

    /// The UTC form of a chrono date and time, given as its UTC view
    /// (`DateTime::<Utc>::naive_utc`), unless its year falls outside
    /// 0..=9999.
    pub fn utc_from_chrono(naive_utc: &chrono::NaiveDateTime) -> (r: Option<Self>)
        ensures
            r matches Some(f) ==> f matches DateTimeForm::Utc(t) && t.is_valid(),
    {
        Some(DateTimeForm::Utc(CivilDateTime::from_chrono(naive_utc)?))
    }
}

impl CompositeValue {
    /// The DURATION value of a chrono `TimeDelta`, in chrono's ISO 8601 text.
    pub fn duration_from_chrono(d: &chrono::TimeDelta) -> (r: Self)
        ensures
            r.value_type@ == "DURATION"@,
            r.shape is Single,
    {
        CompositeValue::single("DURATION", time_delta_text(d))
    }
}

impl PeriodOfTimeBuilder {
    /// The period from the start for the chrono `TimeDelta` `duration`.
    pub fn chrono_duration(self, duration: &chrono::TimeDelta) -> (r: PeriodOfTimeValue)
        ensures
            r matches PeriodOfTimeValue::Start(s, _) && s == self.start_form(),
    {
        self.duration(time_delta_text(duration))
    }
}

} // verus!
