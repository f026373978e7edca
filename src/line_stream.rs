//! A stream of content lines.
use vstd::prelude::*;

use crate::content_line::{is_value_text, ContentLine, LineState};
use crate::folding_writer::folded;
use crate::syntax::{crlf, is_name};
use crate::text_writer::escape;
use crate::FormatError;

verus! {

/// The octets that one finished content line with text `text` adds to a
/// stream: the folded text and CRLF.
pub open spec fn emitted(text: Seq<char>) -> Seq<char> {
    folded(text) + crlf()
}

/// The text of a line with one name and one TEXT value.
pub open spec fn simple_line_text(name: Seq<char>, value: Seq<char>) -> Seq<char> {
    name.push(':') + escape(value)
}

/// A sink of whole content lines. A line is built apart and joins the stream
/// only once it has ended, so a line given up on leaves no trace.
pub struct LineStream {
    inner: String,
}

impl LineStream {
    /// What the stream holds.
    pub closed spec fn output(&self) -> Seq<char> {
        self.inner@
    }

    pub fn new(inner: String) -> (r: Self)
        ensures
            r.output() == inner@,
    {
        LineStream { inner }
    }

    /// A new, empty content line for this stream.
    pub fn content_line(&self) -> (r: ContentLine)
        ensures
            r.wf(),
            r.state() == LineState::Initial,
            r.text() == Seq::<char>::empty(),
            r.prefix() == Seq::<char>::empty(),
    {
        ContentLine::new(String::new())
    }

    /// Appends a line that has ended.
    pub fn push_line(&mut self, line: ContentLine)
        requires
            line.wf(),
            line.state() == LineState::Closed,
            line.prefix() == Seq::<char>::empty(),
        ensures
            final(self).output() == old(self).output() + emitted(line.text()),
    {
        let ghost text = line.text();
        let s = line.into_inner();
        assert(s@ =~= emitted(text));
        self.inner.append(s.as_str());
    }

    /// Writes the line `name:value`, the value TEXT-escaped. Fails, writing
    /// nothing, where `name` is not a name or the escaped value holds a
    /// control character.
    pub fn simple_line(&mut self, name: &str, value: &str) -> (r: Result<(), FormatError>)
        ensures
            r is Ok <==> is_name(name@) && is_value_text(value@),
            r is Ok ==> final(self).output() == old(self).output() + emitted(
                simple_line_text(name@, value@),
            ),
            r is Err ==> final(self).output() == old(self).output(),
    {
        let mut cl = self.content_line();
        cl.name(name)?;
        cl.value(value)?;
        cl.eol();
        assert(cl.text() =~= simple_line_text(name@, value@));
        self.push_line(cl);
        Ok(())
    }

    /// Gives back the sink.
    pub fn into_inner(self) -> (r: String)
        ensures
            r@ == self.output(),
    {
        self.inner
    }
}

} // verus!
