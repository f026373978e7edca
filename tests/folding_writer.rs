use ical_syntax::folding_writer::FoldingWriter;

fn fold_all(parts: &[&str]) -> String {
    let mut w = FoldingWriter::new(String::new());
    for p in parts {
        w.write_str(p).unwrap();
    }
    w.eol();
    w.into_inner()
}

#[test]
fn basic() {
    assert_eq!(&fold_all(&["simple test"]), "simple test\r\n");
}

#[test]
fn ascii_folding() {
    assert_eq!(
        &fold_all(&[
            "test string exceeding 75 chars, all ASCII, to see that it does indeed get folded"
        ]),
        "test string exceeding 75 chars, all ASCII, to see that it does indeed get f\r\n olded\r\n"
    );
}

#[test]
fn utf8_folding() {
    assert_eq!(
        &fold_all(&[
            "test string exceeding 75 chars, with a multi-byte UTF-8 character juust \u{1F90F} at the fold"
        ]),
        "test string exceeding 75 chars, with a multi-byte UTF-8 character juust \r\n \u{1F90F} at the fold\r\n"
    );
}

#[test]
fn chunked_folding() {
    assert_eq!(
        &fold_all(&[
            "test line exceeding 75 chars, all ASCII, ",
            "to see that it does indeed get folded"
        ]),
        "test line exceeding 75 chars, all ASCII, to see that it does indeed get fol\r\n ded\r\n"
    );
}

#[test]
fn fold_83_octets_once() {
    let input: String = "abcdefghijklmnopqrstuvwxyz0123456789".repeat(3)[..83].to_string();
    let out = fold_all(&[&input]);
    let expected = format!("{}\r\n {}\r\n", &input[..75], &input[75..]);
    assert_eq!(out, expected);
    assert_eq!(input[75..].len(), 8);
}

#[test]
fn fold_then_unfold_gives_input_back() {
    let input = "Ünïcödé text \u{1F600} with tabs\tand quotes \" that goes on, and on; and on well past the fold \u{1F90F}\u{1F90F}\u{1F90F} and past a second fold too, since it is long enough for that";
    let out = fold_all(&[input]);
    let body = out.strip_suffix("\r\n").unwrap();
    assert_eq!(body.replace("\r\n ", ""), input);
}

#[test]
fn folded_lines_fit_in_75_octets() {
    let input = "\u{00E9}\u{4E2D}\u{1F600}x".repeat(40);
    let out = fold_all(&[&input]);
    for line in out.split("\r\n") {
        assert!(line.len() <= 75, "line of {} octets", line.len());
    }
    assert!(out.matches("\r\n ").count() >= 5);
}

#[test]
fn folding_writer_refuses_control_characters() {
    let mut w = FoldingWriter::new(String::new());
    assert!(w.write_str("bad\nline").is_err());
    assert!(w.write_str("bad\u{7f}").is_err());
    assert!(w.write_str("tab\tis fine").is_ok());
    w.eol();
    assert_eq!(w.into_inner(), "tab\tis fine\r\n");
}
