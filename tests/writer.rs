use ical_syntax::composite::CompositeValue;
use ical_syntax::line_stream::LineStream;
use ical_syntax::structure::{DateTimeStart, Geo, ICalObject, ProdId, Version};
use ical_syntax::value_types::{CivilDate, DateTimeOrDate};
use ical_syntax::writer::{PropertyWriter, Writer};
use ical_syntax::FormatError;

fn text_values(items: &[&str]) -> Vec<String> {
    items.iter().map(|s| s.to_string()).collect()
}

fn unit() -> CompositeValue {
    CompositeValue::single("UNIT", "()".to_string())
}

#[test]
fn mod_writer() -> Result<(), FormatError> {
    let mut ics = Writer::with_fmt(String::new());

    let ico = ics.component(ICalObject)?;
    ics.simple_property(Version, &CompositeValue::text("2.0"))?;
    ics.simple_property(ProdId, &CompositeValue::text("-//test//"))?;
    ico.end(&mut ics);

    assert_eq!(
        &ics.into_inner(),
        "BEGIN:VCALENDAR\r\nVERSION:2.0\r\nPRODID:-//test//\r\nEND:VCALENDAR\r\n"
    );
    Ok(())
}

#[test]
fn writer_singular_parameter() -> Result<(), FormatError> {
    let mut line_stream = LineStream::new(String::new());
    let mut prop = PropertyWriter::new("TEST", "TEXT")?;

    prop.param_values("SINGULAR", true, &text_values(&["kake"]))?;
    prop.param_values("SINGULAR", true, &vec!["kake".to_owned()])?;
    prop.value(&CompositeValue::text("brille"))?;
    prop.end(&mut line_stream);

    assert_eq!(
        &line_stream.into_inner(),
        "TEST;SINGULAR=\"kake\";SINGULAR=\"kake\":brille\r\n"
    );
    Ok(())
}

#[test]
fn writer_parameter_set() -> Result<(), FormatError> {
    let mut line_stream = LineStream::new(String::new());
    let mut prop = PropertyWriter::new("TEST", "TEXT")?;

    prop.param_values("PLURAL", true, &text_values(&["kake", "hatt"]))?;
    prop.param_values("PLURAL", true, &text_values(&["kake", "hatt"]))?;
    prop.value(&CompositeValue::text("brille"))?;
    prop.end(&mut line_stream);

    assert_eq!(
        &line_stream.into_inner(),
        "TEST;PLURAL=\"kake\",\"hatt\";PLURAL=\"kake\",\"hatt\":brille\r\n"
    );
    Ok(())
}

#[test]
fn writer_custom_param_type() -> Result<(), FormatError> {
    let mut line_stream = LineStream::new(String::new());
    let mut prop = PropertyWriter::new("TEST", "TEXT")?;

    let custom = "CUSTOM".to_string();
    prop.param_values("C", false, &vec![custom.clone()])?;
    prop.param_values("C", false, &vec![custom])?;
    prop.value(&CompositeValue::text("brille"))?;
    prop.end(&mut line_stream);

    assert_eq!(&line_stream.into_inner(), "TEST;C=CUSTOM;C=CUSTOM:brille\r\n");
    Ok(())
}

#[test]
fn value_escaping() -> Result<(), FormatError> {
    let mut line_stream = LineStream::new(String::new());
    let mut prop = PropertyWriter::new("TEST", "TEXT")?;

    prop.value(&CompositeValue::text(";,\n"))?;
    prop.end(&mut line_stream);

    assert_eq!(&line_stream.into_inner(), "TEST:\\;\\,\\n\r\n");
    Ok(())
}

#[test]
fn value() -> Result<(), FormatError> {
    let mut line_stream = LineStream::new(String::new());
    let mut prop = PropertyWriter::new("TEST", "TEXT")?;

    prop.value(&CompositeValue::text(&"test".to_owned()))?;
    prop.end(&mut line_stream);

    assert_eq!(&line_stream.into_inner(), "TEST:test\r\n");
    Ok(())
}

#[test]
fn value_tuple() -> Result<(), FormatError> {
    let mut line_stream = LineStream::new(String::new());
    let mut prop = PropertyWriter::new("TEST", "TEXT")?;

    prop.value(&CompositeValue::tuple("TEXT", text_values(&["test", "value"])))?;
    prop.end(&mut line_stream);

    assert_eq!(&line_stream.into_inner(), "TEST:test;value\r\n");
    Ok(())
}

#[test]
fn value_list() -> Result<(), FormatError> {
    let mut line_stream = LineStream::new(String::new());

    for _ in 0..3 {
        let mut prop = PropertyWriter::new("TEST", "TEXT")?;
        prop.value(&CompositeValue::list("TEXT", text_values(&["test", "value"])))?;
        prop.end(&mut line_stream);
    }

    assert_eq!(
        &line_stream.into_inner(),
        "TEST:test,value\r\nTEST:test,value\r\nTEST:test,value\r\n"
    );
    Ok(())
}

#[test]
fn value_choice() -> Result<(), FormatError> {
    let mut line_stream = LineStream::new(String::new());

    let mut prop = PropertyWriter::new("TEST", "TEXT")?;
    prop.value(&CompositeValue::text("test text"))?;
    prop.end(&mut line_stream);

    let mut prop = PropertyWriter::new("TEST", "TEXT")?;
    prop.value(&unit())?;
    prop.end(&mut line_stream);

    assert_eq!(
        &line_stream.into_inner(),
        "TEST:test text\r\nTEST;VALUE=UNIT:()\r\n"
    );
    Ok(())
}

#[test]
fn value_list_choice() -> Result<(), FormatError> {
    let mut line_stream = LineStream::new(String::new());

    let numbered: Vec<String> = ["test", "value"]
        .iter()
        .enumerate()
        .map(|(i, x)| format!("{x}:{i}"))
        .collect();
    let mut prop = PropertyWriter::new("TEST", "TEXT")?;
    prop.value(&CompositeValue::list("TEXT", numbered))?;
    prop.end(&mut line_stream);

    for _ in 0..3 {
        let mut prop = PropertyWriter::new("TEST", "TEXT")?;
        prop.value(&CompositeValue::list("TEXT", text_values(&["test", "value"])))?;
        prop.end(&mut line_stream);
    }

    let mut prop = PropertyWriter::new("TEST", "TEXT")?;
    prop.value(&CompositeValue::list("UNIT", text_values(&["()", "()"])))?;
    prop.end(&mut line_stream);

    assert_eq!(
        &line_stream.into_inner(),
        "TEST:test:0,value:1\r\n\
        TEST:test,value\r\n\
        TEST:test,value\r\n\
        TEST:test,value\r\n\
        TEST;VALUE=UNIT:(),()\r\n"
    );
    Ok(())
}

#[test]
fn geo_tuple_of_floats() -> Result<(), FormatError> {
    let mut ics = Writer::with_fmt(String::new());
    let lat: f64 = 37.386013;
    let lon: f64 = -122.082932;
    let value = CompositeValue::tuple("FLOAT", vec![format!("{lat}"), format!("{lon}")]);
    ics.simple_property(Geo, &value)?;
    assert_eq!(&ics.into_inner(), "GEO:37.386013;-122.082932\r\n");
    Ok(())
}

#[test]
fn choice_of_date_writes_value_parameter() -> Result<(), FormatError> {
    let mut ics = Writer::with_fmt(String::new());
    let date = CivilDate::new(2024, 6, 26).unwrap();
    let value = CompositeValue::date_time_or_date(DateTimeOrDate::Date(date));
    ics.simple_property(DateTimeStart, &value)?;
    assert_eq!(&ics.into_inner(), "DTSTART;VALUE=DATE:20240626\r\n");
    Ok(())
}

#[test]
fn empty_list_is_an_empty_value() -> Result<(), FormatError> {
    let mut line_stream = LineStream::new(String::new());
    let mut prop = PropertyWriter::new("TEST", "TEXT")?;
    prop.value(&CompositeValue::list("TEXT", Vec::new()))?;
    prop.end(&mut line_stream);
    assert_eq!(&line_stream.into_inner(), "TEST:\r\n");
    Ok(())
}

#[test]
fn bad_property_name_or_value_type_is_refused() {
    assert!(PropertyWriter::new("NOT VALID", "TEXT").is_err());
    let mut prop = PropertyWriter::new("TEST", "TEXT").unwrap();
    let bad_type = CompositeValue::single("A;B", "x".to_string());
    assert_eq!(prop.value(&bad_type), Err(FormatError));
    assert!(prop.param_values("P", false, &text_values(&["a,b"])).is_err());
    assert!(prop.param_values("P", true, &text_values(&["ok", "not \"ok\""])).is_err());
}
