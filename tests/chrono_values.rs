use ical_syntax::composite::{CompositeValue, ValueShape};
use ical_syntax::structure::{DateTimeStamp, DateTimeStart, ICalObject, ProdId, Summary, Uid, Version};
use ical_syntax::value_types::{CivilDate, DateTimeForm, DateTimeOrDate, PeriodOfTimeBuilder, TimeTransparency};
use ical_syntax::structure::TimeTransparency as Transp;
use ical_syntax::writer::Writer;
use ical_syntax::FormatError;

fn utc(s: &str) -> chrono::DateTime<chrono::Utc> {
    chrono::DateTime::parse_from_rfc3339(s).unwrap().to_utc()
}

fn item(v: &CompositeValue) -> String {
    match &v.shape {
        ValueShape::Single(s) => s.clone(),
        _ => panic!("not a single value"),
    }
}

#[test]
fn chrono04_datetime_floating() {
    let datetime = utc("2024-06-26T12:00:00Z").naive_utc();
    let form = DateTimeForm::floating_from_chrono(&datetime).unwrap();
    assert_eq!(form.format(), "20240626T120000");
}

#[test]
fn chrono04_datetime_utc() {
    let datetime = utc("2024-06-26T12:00:00Z");
    let form = DateTimeForm::utc_from_chrono(&datetime.naive_utc()).unwrap();
    assert_eq!(form.format(), "20240626T120000Z");
}

#[test]
fn chrono04_date() {
    let date = chrono::NaiveDate::from_ymd_opt(2024, 6, 26).unwrap();
    assert_eq!(CivilDate::from_chrono(&date).unwrap().format(), "20240626");
}

#[test]
fn chrono04_duration() {
    let v = CompositeValue::duration_from_chrono(&chrono::TimeDelta::hours(1));
    assert_eq!(item(&v), "PT3600S");
    assert_eq!(v.value_type, "DURATION");
}

#[test]
fn chrono04_period_of_time() {
    let start = utc("2024-06-26T12:00:00Z");
    let end = utc("2024-06-26T13:00:00Z");
    let duration = end - start;
    let start_form = DateTimeForm::utc_from_chrono(&start.naive_utc()).unwrap();
    let end_form = DateTimeForm::utc_from_chrono(&end.naive_utc()).unwrap();

    assert_eq!(
        PeriodOfTimeBuilder::start(start_form).end(end_form).format(),
        "20240626T120000Z/20240626T130000Z"
    );
    assert_eq!(
        PeriodOfTimeBuilder::start(start_form).chrono_duration(&duration).format(),
        "20240626T120000Z/PT3600S"
    );
}

#[test]
fn value_types_period_of_time() {
    let start = utc("2024-06-26T12:00:00Z");
    let end = utc("2024-06-26T13:00:00Z");
    let start_form = DateTimeForm::utc_from_chrono(&start.naive_utc()).unwrap();
    assert_eq!(
        PeriodOfTimeBuilder::start(start_form).chrono_duration(&(end - start)).format(),
        "20240626T120000Z/PT3600S"
    );
}

#[test]
fn chrono_years_out_of_range_are_refused() {
    let date = chrono::NaiveDate::from_ymd_opt(-308, 3, 14).unwrap();
    assert!(CivilDate::from_chrono(&date).is_none());
    let date = chrono::NaiveDate::from_ymd_opt(12345, 3, 14).unwrap();
    assert!(CivilDate::from_chrono(&date).is_none());
}

#[test]
fn writer_event_chrono04() -> Result<(), FormatError> {
    let dtstamp = utc("2024-06-26T12:00:00Z");

    let mut ics = Writer::with_fmt(String::new());
    let ico = ics.component(ICalObject)?;
    ics.simple_property(Version, &CompositeValue::text("2.0"))?;
    ics.simple_property(ProdId, &CompositeValue::text("-//test//"))?;

    let ev = ics.component(ical_syntax::structure::EventC)?;
    let stamp_form = DateTimeForm::utc_from_chrono(&dtstamp.naive_utc()).unwrap();
    ics.simple_property(DateTimeStamp, &CompositeValue::date_time(stamp_form))?;
    ics.simple_property(Uid, &CompositeValue::text("unique identifier"))?;

    let date = CivilDate::from_chrono(&dtstamp.date_naive()).unwrap();
    ics.simple_property(DateTimeStart, &CompositeValue::date_time_or_date(DateTimeOrDate::Date(date)))?;
    let floating = DateTimeForm::floating_from_chrono(&dtstamp.naive_utc()).unwrap();
    ics.simple_property(DateTimeStart, &CompositeValue::date_time_or_date(DateTimeOrDate::DateTime(floating)))?;
    ics.simple_property(DateTimeStart, &CompositeValue::date_time_or_date(DateTimeOrDate::DateTime(stamp_form)))?;

    ics.simple_property(Summary, &CompositeValue::text("summary text"))?;
    ics.simple_property(Transp, &CompositeValue::transparency(TimeTransparency::Transparent))?;
    ev.end(&mut ics);
    ico.end(&mut ics);

    assert_eq!(
        &ics.into_inner(),
        "BEGIN:VCALENDAR\r\n\
        VERSION:2.0\r\n\
        PRODID:-//test//\r\n\
        BEGIN:VEVENT\r\n\
        DTSTAMP:20240626T120000Z\r\n\
        UID:unique identifier\r\n\
        DTSTART;VALUE=DATE:20240626\r\n\
        DTSTART:20240626T120000\r\n\
        DTSTART:20240626T120000Z\r\n\
        SUMMARY:summary text\r\n\
        TRANSP:TRANSPARENT\r\n\
        END:VEVENT\r\n\
        END:VCALENDAR\r\n"
    );
    Ok(())
}
