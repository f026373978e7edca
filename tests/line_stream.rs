use ical_syntax::line_stream::LineStream;
use ical_syntax::FormatError;

#[test]
fn line_stream() -> Result<(), FormatError> {
    let mut ls = LineStream::new(String::new());

    ls.simple_line("BEGIN", "VCALENDAR")?;

    let mut cl = ls.content_line();
    cl.name("X-PARAM-TEST")?;
    cl.param_unquoted("UNQUOTED", "unquoted text")?;
    cl.param_quoted("QUOTED", "Quoted text, with comma and a ;")?;
    cl.value("value")?;
    cl.eol();
    ls.push_line(cl);

    ls.simple_line("END", "VCALENDAR")?;

    assert_eq!(&ls.into_inner(), "BEGIN:VCALENDAR\r\nX-PARAM-TEST;UNQUOTED=unquoted text;QUOTED=\"Quoted text, with comma and a ;\r\n \":value\r\nEND:VCALENDAR\r\n");
    Ok(())
}

#[test]
fn simple_line_failure_writes_nothing() {
    let mut ls = LineStream::new(String::from("KEPT\r\n"));
    assert!(ls.simple_line("BAD:NAME", "v").is_err());
    assert!(ls.simple_line("GOOD", "v\u{0}").is_err());
    assert_eq!(&ls.into_inner(), "KEPT\r\n");
}
