use ical_syntax::content_line::ContentLine;
use ical_syntax::FormatError;

const FOLDED_PARAMS: &str = "X-PARAM-TEST;UNQUOTED=unquoted text;QUOTED=\"Quoted text, with comma and a ;\r\n \":value\r\n";

#[test]
fn content_line_writer() -> Result<(), FormatError> {
    let mut cl = ContentLine::new(String::new());
    cl.name("BEGIN")?;
    cl.value("VCALENDAR")?;
    cl.eol();
    assert_eq!(&cl.into_inner(), "BEGIN:VCALENDAR\r\n");
    Ok(())
}

#[test]
fn content_line_params_writer() -> Result<(), FormatError> {
    let mut cl = ContentLine::new(String::new());
    cl.name("X-PARAM-TEST")?;
    cl.param_name("UNQUOTED")?;
    cl.param_value_unquoted("unquoted text")?;
    cl.param_name("QUOTED")?;
    cl.param_value_quoted("Quoted text, with comma and a ;")?;
    let mut tw = cl.value_tuple_writer();
    tw.next_value(&mut cl, "value")?;
    cl.eol();
    assert_eq!(&cl.into_inner(), FOLDED_PARAMS);
    Ok(())
}

#[test]
fn content_line_params() -> Result<(), FormatError> {
    let mut cl = ContentLine::new(String::new());
    cl.name("X-PARAM-TEST")?;
    cl.param_name("UNQUOTED")?;
    cl.param_value_unquoted("unquoted text")?;
    cl.param_name("QUOTED")?;
    cl.param_value_quoted("Quoted text, with comma and a ;")?;
    cl.value("value")?;
    cl.eol();
    assert_eq!(&cl.into_inner(), FOLDED_PARAMS);
    Ok(())
}

#[test]
fn content_line_params_pairs() -> Result<(), FormatError> {
    let mut cl = ContentLine::new(String::new());
    cl.name("X-PARAM-TEST")?;
    cl.param_unquoted("UNQUOTED", "unquoted text")?;
    cl.param_quoted("QUOTED", "Quoted text, with comma and a ;")?;
    cl.value("value")?;
    cl.eol();
    assert_eq!(&cl.into_inner(), FOLDED_PARAMS);
    Ok(())
}

#[test]
fn content_line_param_value_list() -> Result<(), FormatError> {
    let mut cl = ContentLine::new(String::new());
    cl.name("X-PARAM-TEST")?;
    cl.param_name("LIST")?;
    cl.param_value_unquoted("unquoted text")?;
    cl.param_value_quoted("Quoted text, with comma and a ;")?;
    cl.value("value")?;
    cl.eol();
    assert_eq!(
        &cl.into_inner(),
        "X-PARAM-TEST;LIST=unquoted text,\"Quoted text, with comma and a ;\":value\r\n"
    );
    Ok(())
}

#[test]
fn content_line_tuple_and_list_separators() -> Result<(), FormatError> {
    let mut cl = ContentLine::new(String::new());
    cl.name("X-T")?;
    let mut tw = cl.value_tuple_writer();
    tw.next_value(&mut cl, "a,b")?;
    tw.next_value(&mut cl, "c")?;
    cl.eol();
    assert_eq!(&cl.into_inner(), "X-T:a\\,b;c\r\n");

    let mut cl = ContentLine::new(String::new());
    cl.name("X-L")?;
    let mut lw = cl.value_list_writer();
    lw.next_value(&mut cl, "a;b")?;
    lw.next_value(&mut cl, "c")?;
    cl.eol();
    assert_eq!(&cl.into_inner(), "X-L:a\\;b,c\r\n");
    Ok(())
}

#[test]
fn content_line_errors_leave_the_line_unchanged() -> Result<(), FormatError> {
    let mut cl = ContentLine::new(String::new());
    assert_eq!(cl.name("BAD NAME"), Err(FormatError));
    cl.name("GOOD")?;
    assert_eq!(cl.param_name("P;"), Err(FormatError));
    cl.param_name("P")?;
    assert_eq!(cl.param_value_unquoted("a:b"), Err(FormatError));
    assert_eq!(cl.param_value_quoted("say \"hi\""), Err(FormatError));
    cl.param_value_unquoted("ok")?;
    assert_eq!(cl.value("bell\u{7}"), Err(FormatError));
    cl.value("line\nbreak")?;
    cl.eol();
    assert_eq!(&cl.into_inner(), "GOOD;P=ok:line\\nbreak\r\n");
    Ok(())
}
