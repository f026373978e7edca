use ical_syntax::validating_writers::{NameWriter, ParamtextWriter, QuotedStringWriter};

#[test]
fn validating_writers_quoted_string_writer_positive() {
    let mut w = QuotedStringWriter::new(String::new());
    w.write_str("I am a string. Quote me on that!").unwrap();
    w.close();
    assert_eq!(&w.into_inner(), "\"I am a string. Quote me on that!\"");
}

#[test]
fn validating_writers_quoted_string_writer_reserved_chars() {
    let mut w = QuotedStringWriter::new(String::new());
    w.write_str("I can contain :, ; and , no problem!").unwrap();
    w.close();
    assert_eq!(&w.into_inner(), "\"I can contain :, ; and , no problem!\"");
}

#[test]
fn validating_writers_quoted_string_writer_unicode() {
    let mut w = QuotedStringWriter::new(String::new());
    w.write_str("\u{1F92A}").unwrap();
    w.close();
    assert_eq!(&w.into_inner(), "\"\u{1F92A}\"");
}

#[test]
fn validating_writers_quoted_string_writer_negative() {
    let mut w = QuotedStringWriter::new(String::new());
    assert!(w.write_str("I accidentally contain a newline\n").is_err());
    assert!(w.write_str("I also may not contain \"").is_err());
    w.close();
    assert_eq!(&w.into_inner(), "\"\"");
}

#[test]
fn validating_writers_paramtext_writer_positive() {
    let mut w = ParamtextWriter::new(String::new());
    w.write_str("I am a string \u{1F92A}").unwrap();
    assert_eq!(&w.into_inner(), "I am a string \u{1F92A}");
}

#[test]
fn validating_writers_paramtext_writer_negative() {
    let mut w = ParamtextWriter::new(String::new());
    assert!(w.write_str("I accidentally contain a newline\n").is_err());
    assert!(w.write_str("\x7f").is_err());
    assert!(w.write_str("\x05").is_err());
    assert!(w.write_str("\"").is_err());
    assert!(w.write_str(":").is_err());
    assert!(w.write_str(";").is_err());
    assert!(w.write_str(",").is_err());
    assert_eq!(&w.into_inner(), "");
}

#[test]
fn name_writer_accepts_tokens_only() {
    let mut w = NameWriter::new(String::new());
    assert!(w.write_str("X-WR-CALNAME").is_ok());
    assert!(w.write_str("NOT A NAME").is_err());
    assert!(w.write_str("UNDER_SCORE").is_err());
    assert!(w.write_str("\u{e9}").is_err());
    assert_eq!(&w.into_inner(), "X-WR-CALNAME");
}
