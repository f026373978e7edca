use ical_syntax::text_writer::{escape_text, TextWriter};

#[test]
fn text_noescaping() {
    let mut w = TextWriter::new(String::new());
    w.write_str("Basic test with no escaping");
    assert_eq!(&w.into_inner(), "Basic test with no escaping");
}

#[test]
fn text_escaping() {
    let mut w = TextWriter::new(String::new());
    w.write_str("\n;,\\");
    assert_eq!(&w.into_inner(), "\\n\\;\\,\\\\");
}

#[test]
fn text_escaping2() {
    let mut w = TextWriter::new(String::new());
    w.write_str("Mix\nwith different; yet equivalent, parts");
    assert_eq!(
        &w.into_inner(),
        "Mix\\nwith different\\; yet equivalent\\, parts"
    );
}

fn unescape(t: &str) -> String {
    let mut out = String::new();
    let mut chars = t.chars();
    while let Some(c) = chars.next() {
        if c == '\\' {
            match chars.next() {
                Some('n') | Some('N') => out.push('\n'),
                Some(d) => out.push(d),
                None => out.push('\\'),
            }
        } else {
            out.push(c);
        }
    }
    out
}

#[test]
fn unescaping_the_escaped_text_gives_it_back() {
    for s in ["", "plain", "a\\b;c,d\ne", "\\\\n", ";;,,\n\n", "ends in \\"] {
        assert_eq!(unescape(&escape_text(s)), s);
    }
}
