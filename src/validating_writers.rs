//! Writers that hold their text to one grammar production.
use vstd::prelude::*;

use crate::syntax::{all_in_exec, is_name, is_paramtext, is_qsafe, CharClass};
use crate::FormatError;

verus! {

/// A writer for the `name` grammar (`iana-token`: letters, digits and `-`).
///
/// An `x-name` is accepted wherever it is an `iana-token` too. Text with any
/// other character is refused, and nothing of it is written.
pub struct NameWriter {
    inner: String,
}

impl NameWriter {
    /// What the sink holds.
    pub closed spec fn output(&self) -> Seq<char> {
        self.inner@
    }

    pub fn new(inner: String) -> (r: Self)
        ensures
            r.output() == inner@,
    {
        NameWriter { inner }
    }

    pub fn write_str(&mut self, s: &str) -> (r: Result<(), FormatError>)
        ensures
            r is Ok <==> is_name(s@),
            r is Ok ==> final(self).output() == old(self).output() + s@,
            r is Err ==> final(self).output() == old(self).output(),
    {
        if !all_in_exec(s, CharClass::Name) {
            return Err(FormatError);
        }
        self.inner.append(s);
        Ok(())
    }

    pub fn into_inner(self) -> (r: String)
        ensures
            r@ == self.output(),
    {
        self.inner
    }
}

/// A writer for the quoted-string grammar: `DQUOTE *QSAFE-CHAR DQUOTE`.
///
/// The writer puts in both DQUOTEs: the first when it is made, the second at
/// `close`, which must come before the sink is taken back. There is no escape
/// inside a quoted string, so text with a DQUOTE or a control character other
/// than HTAB is refused (a URI would write `%22` instead).
pub struct QuotedStringWriter {
    inner: String,
    is_closed: bool,
}

impl QuotedStringWriter {
    /// What the sink holds.
    pub closed spec fn output(&self) -> Seq<char> {
        self.inner@
    }

    /// `close` has been called.
    pub closed spec fn is_closed(&self) -> bool {
        self.is_closed
    }

    /// Text may still be written: the closing DQUOTE is not yet there.
    pub open spec fn accepts_writes(&self) -> bool {
        !self.is_closed()
    }

    pub fn new(inner: String) -> (r: Self)
        ensures
            r.output() == inner@.push('"'),
            !r.is_closed(),
    {
        let mut inner = inner;
        proof {
            reveal_strlit("\"");
        }
        inner.append("\"");
        QuotedStringWriter { inner, is_closed: false }
    }

    pub fn write_str(&mut self, s: &str) -> (r: Result<(), FormatError>)
        requires
            old(self).accepts_writes(),
        ensures
            !final(self).is_closed(),
            r is Ok <==> is_qsafe(s@),
            r is Ok ==> final(self).output() == old(self).output() + s@,
            r is Err ==> final(self).output() == old(self).output(),
    {
        if !all_in_exec(s, CharClass::QuotedText) {
            return Err(FormatError);
        }
        self.inner.append(s);
        Ok(())
    }

    /// Writes the closing DQUOTE. No write may follow.
    pub fn close(&mut self)
        requires
            old(self).accepts_writes(),
        ensures
            final(self).is_closed(),
            final(self).output() == old(self).output().push('"'),
    {
        proof {
            reveal_strlit("\"");
        }
        self.inner.append("\"");
        self.is_closed = true;
    }

    /// Gives back the sink, once the quoted string is closed.
    pub fn into_inner(self) -> (r: String)
        requires
            self.is_closed(),
        ensures
            r@ == self.output(),
    {
        self.inner
    }
}

/// A writer for the paramtext grammar: `*SAFE-CHAR`, that is no control
/// character but HTAB, and none of DQUOTE, `;`, `:` and `,`.
///
/// Text with any other character is refused, and nothing of it is written.
pub struct ParamtextWriter {
    inner: String,
}

impl ParamtextWriter {
    /// What the sink holds.
    pub closed spec fn output(&self) -> Seq<char> {
        self.inner@
    }

    pub fn new(inner: String) -> (r: Self)
        ensures
            r.output() == inner@,
    {
        ParamtextWriter { inner }
    }

    pub fn write_str(&mut self, s: &str) -> (r: Result<(), FormatError>)
        ensures
            r is Ok <==> is_paramtext(s@),
            r is Ok ==> final(self).output() == old(self).output() + s@,
            r is Err ==> final(self).output() == old(self).output(),
    {
        if !all_in_exec(s, CharClass::ParamText) {
            return Err(FormatError);
        }
        self.inner.append(s);
        Ok(())
    }

    pub fn into_inner(self) -> (r: String)
        ensures
            r@ == self.output(),
    {
        self.inner
    }
}

} // verus!
