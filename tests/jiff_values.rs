use ical_syntax::composite::{CompositeValue, ValueShape};
use ical_syntax::jiff_values::{UtcForm, UtcFormError};
use ical_syntax::structure::{DateTimeStamp, DateTimeStart, EventC, ICalObject, ProdId, Summary, Uid, Version};
use ical_syntax::value_types::{CivilDate, CivilDateTime, DateTimeForm, DateTimeOrDate, PeriodOfTimeBuilder, TimeTransparency};
use ical_syntax::structure::TimeTransparency as Transp;
use ical_syntax::writer::Writer;
use ical_syntax::FormatError;

fn item(v: &CompositeValue) -> String {
    match &v.shape {
        ValueShape::Single(s) => s.clone(),
        _ => panic!("not a single value"),
    }
}

#[test]
fn jiff02_datetime_floating() {
    let datetime: jiff::civil::DateTime = "2024-06-19 15:22:45".parse().unwrap();
    let t = CivilDateTime::from_jiff(datetime).unwrap();
    assert_eq!(DateTimeForm::Floating(t).format(), "20240619T152245");
}

#[test]
fn jiff02_date() {
    let date = jiff::civil::date(2024, 6, 26);
    assert_eq!(CivilDate::from_jiff(date).unwrap().format(), "20240626");
}

#[test]
fn jiff02_duration() {
    let v = CompositeValue::duration_from_jiff(&jiff::Span::new().hours(1));
    assert_eq!(item(&v), "PT1H");
}

#[test]
fn jiff02_period_of_time() {
    let start: jiff::civil::DateTime = "2024-06-26T12:00:00".parse().unwrap();
    let end: jiff::civil::DateTime = "2024-06-26T13:00:00".parse().unwrap();
    let duration = end - start;
    let start_form = DateTimeForm::Floating(CivilDateTime::from_jiff(start).unwrap());
    let end_form = DateTimeForm::Floating(CivilDateTime::from_jiff(end).unwrap());

    assert_eq!(
        PeriodOfTimeBuilder::start(start_form).end(end_form).format(),
        "20240626T120000/20240626T130000"
    );
    assert_eq!(
        PeriodOfTimeBuilder::start(start_form).jiff_duration(&duration).format(),
        "20240626T120000/PT1H"
    );
}

#[test]
fn jiff_negative_years_are_refused() {
    assert!(CivilDate::from_jiff(jiff::civil::date(-2024, 3, 9)).is_none());
}

#[test]
fn writer_event_jiff02() -> Result<(), FormatError> {
    let dtstamp: jiff::civil::DateTime = "2024-06-26 12:00:00".parse().unwrap();
    let utc = UtcForm::from_civil(dtstamp).unwrap().form();

    let mut ics = Writer::with_fmt(String::new());
    let ico = ics.component(ICalObject)?;
    ics.simple_property(Version, &CompositeValue::text("2.0"))?;
    ics.simple_property(ProdId, &CompositeValue::text("-//test//"))?;

    let ev = ics.component(EventC)?;
    ics.simple_property(DateTimeStamp, &CompositeValue::date_time(utc))?;
    ics.simple_property(Uid, &CompositeValue::text("unique identifier"))?;

    let date = CivilDate::from_jiff(dtstamp.date()).unwrap();
    ics.simple_property(DateTimeStart, &CompositeValue::date_time_or_date(DateTimeOrDate::Date(date)))?;
    let floating = DateTimeForm::Floating(CivilDateTime::from_jiff(dtstamp).unwrap());
    ics.simple_property(DateTimeStart, &CompositeValue::date_time_or_date(DateTimeOrDate::DateTime(floating)))?;
    ics.simple_property(DateTimeStart, &CompositeValue::date_time_or_date(DateTimeOrDate::DateTime(utc)))?;

    ics.simple_property(Summary, &CompositeValue::text("summary text"))?;
    ics.simple_property(Transp, &CompositeValue::transparency(TimeTransparency::Transparent))?;
    ev.end(&mut ics);
    ico.end(&mut ics);

    assert_eq!(
        &ics.into_inner(),
        "BEGIN:VCALENDAR\r\n\
        VERSION:2.0\r\n\
        PRODID:-//test//\r\n\
        BEGIN:VEVENT\r\n\
        DTSTAMP:20240626T120000Z\r\n\
        UID:unique identifier\r\n\
        DTSTART;VALUE=DATE:20240626\r\n\
        DTSTART:20240626T120000\r\n\
        DTSTART:20240626T120000Z\r\n\
        SUMMARY:summary text\r\n\
        TRANSP:TRANSPARENT\r\n\
        END:VEVENT\r\n\
        END:VCALENDAR\r\n"
    );
    Ok(())
}

#[test]
fn jiff_zoned_to_utc() {
    let zoned = jiff::Timestamp::from_second(1_719_403_200)
        .unwrap()
        .to_zoned(jiff::tz::TimeZone::fixed(jiff::tz::offset(2)));
    match UtcForm::from_zoned(zoned) {
        Ok(u) => assert_eq!(u.form().format(), "20240626T120000Z"),
        Err(e) => assert!(matches!(e, UtcFormError::TimeZone(_))),
    }
}

#[test]
fn utc_form_refuses_negative_years() {
    assert!(UtcForm::from_civil(jiff::civil::date(-5, 1, 1).at(0, 0, 0, 0)).is_none());
}
