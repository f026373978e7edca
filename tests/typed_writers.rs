use ical_syntax::composite::CompositeValue;
use ical_syntax::typed_writers::ICalStreamWriter;
use ical_syntax::value_types::{
    CivilDate, CivilDateTime, DateTimeForm, DateTimeOrDate, TimeTransparency,
};
use ical_syntax::FormatError;

fn stamp() -> CivilDateTime {
    CivilDateTime::new(CivilDate::new(2024, 6, 26).unwrap(), 12, 0, 0).unwrap()
}

#[test]
fn mod_icalstream() -> Result<(), FormatError> {
    let mut ics = ICalStreamWriter::with_fmt(String::new());

    let ico = ics.icalendar_object("-//test//")?;
    ico.end(&mut ics);

    assert_eq!(
        &ics.into_inner(),
        "BEGIN:VCALENDAR\r\nVERSION:2.0\r\nPRODID:-//test//\r\nEND:VCALENDAR\r\n"
    );
    Ok(())
}

fn utc(s: &str) -> chrono::DateTime<chrono::Utc> {
    chrono::DateTime::parse_from_rfc3339(s).unwrap().to_utc()
}

#[test]
fn writer_event() -> Result<(), FormatError> {
    let dtstamp = utc("2024-06-26T12:00:00Z");

    let mut ics = ICalStreamWriter::with_fmt(String::new());
    let ico = ics.icalendar_object("-//test//")?;

    let ev = ico.event(&mut ics)?;
    ev.dtstamp(&mut ics, CivilDateTime::from_chrono(&dtstamp.naive_utc()).unwrap())?;
    ev.uid(&mut ics, "unique identifier")?;
    let date = CivilDate::from_chrono(&dtstamp.date_naive()).unwrap();
    ev.dtstart(&mut ics, DateTimeOrDate::Date(date))?;
    ev.summary(&mut ics, "summary text")?;
    ev.time_transparency(&mut ics, TimeTransparency::Transparent)?;
    ev.end(&mut ics);

    ico.end(&mut ics);

    assert_eq!(
        &ics.into_inner(),
        "BEGIN:VCALENDAR\r\n\
        VERSION:2.0\r\n\
        PRODID:-//test//\r\n\
        BEGIN:VEVENT\r\n\
        DTSTAMP:20240626T120000Z\r\n\
        UID:unique identifier\r\n\
        DTSTART;VALUE=DATE:20240626\r\n\
        SUMMARY:summary text\r\n\
        TRANSP:TRANSPARENT\r\n\
        END:VEVENT\r\n\
        END:VCALENDAR\r\n"
    );
    Ok(())
}

#[test]
fn event_start_forms_and_default_transparency() -> Result<(), FormatError> {
    let mut ics = ICalStreamWriter::with_fmt(String::new());
    let ico = ics.icalendar_object("-//test//")?;
    let ev = ico.event(&mut ics)?;
    ev.dtstart(&mut ics, DateTimeOrDate::DateTime(DateTimeForm::Floating(stamp())))?;
    ev.dtstart(&mut ics, DateTimeOrDate::DateTime(DateTimeForm::Utc(stamp())))?;
    ev.time_transparency(&mut ics, TimeTransparency::Opaque)?;
    ev.end(&mut ics);
    ico.end(&mut ics);

    assert_eq!(
        &ics.into_inner(),
        "BEGIN:VCALENDAR\r\n\
        VERSION:2.0\r\n\
        PRODID:-//test//\r\n\
        BEGIN:VEVENT\r\n\
        DTSTART:20240626T120000\r\n\
        DTSTART:20240626T120000Z\r\n\
        END:VEVENT\r\n\
        END:VCALENDAR\r\n"
    );
    Ok(())
}

#[test]
fn recurrence_datetimes() -> Result<(), FormatError> {
    let datetimes = [utc("2024-06-26T12:00:00Z"), utc("2024-06-27T12:00:00Z")];

    let mut ics = ICalStreamWriter::with_fmt(String::new());
    let ico = ics.icalendar_object("-//test//")?;
    let ev = ico.event(&mut ics)?;

    let dates: Vec<CivilDate> = datetimes
        .iter()
        .map(|dt| CivilDate::from_chrono(&dt.date_naive()).unwrap())
        .collect();
    ev.recurrence_datetimes(&mut ics, &CompositeValue::date_list(&dates))?;
    let forms: Vec<DateTimeForm> = datetimes
        .iter()
        .map(|dt| DateTimeForm::utc_from_chrono(&dt.naive_utc()).unwrap())
        .collect();
    for _ in 0..3 {
        ev.recurrence_datetimes(&mut ics, &CompositeValue::date_time_list(&forms))?;
    }
    ev.end(&mut ics);
    ico.end(&mut ics);

    assert_eq!(
        &ics.into_inner(),
        "BEGIN:VCALENDAR\r\n\
        VERSION:2.0\r\n\
        PRODID:-//test//\r\n\
        BEGIN:VEVENT\r\n\
        RDATE;VALUE=DATE:20240626,20240627\r\n\
        RDATE:20240626T120000Z,20240627T120000Z\r\n\
        RDATE:20240626T120000Z,20240627T120000Z\r\n\
        RDATE:20240626T120000Z,20240627T120000Z\r\n\
        END:VEVENT\r\n\
        END:VCALENDAR\r\n"
    );
    Ok(())
}

#[test]
fn prod_id_with_control_character_is_refused() {
    let mut ics = ICalStreamWriter::with_fmt(String::new());
    assert!(ics.icalendar_object("bad\u{1}").is_err());
    assert_eq!(&ics.into_inner(), "");
}
