//! The content-line state machine: name, parameters, value, end of line.
use vstd::prelude::*;

use crate::folding_writer::{folded, FoldingWriter};
use crate::syntax::{
    all_in_exec, crlf, is_name, is_paramtext, is_qsafe, lemma_name_classes,
    lemma_qsafe_no_control, no_control, CharClass,
};
use crate::text_writer::{escape, escape_text};
use crate::validating_writers::QuotedStringWriter;
use crate::FormatError;

verus! {

/// Where a content line stands in `name *(";" param) ":" value CRLF`.
#[derive(Clone, Copy, PartialEq, Eq, Debug, Structural)]
pub enum LineState {
    Initial,
    AfterName,
    AfterParamName,
    AfterParamValue,
    Value,
    Closed,
}

/// The name may be written.
pub open spec fn accepts_name(st: LineState) -> bool {
    st == LineState::Initial
}

/// A parameter name may be written.
pub open spec fn accepts_param_name(st: LineState) -> bool {
    st == LineState::AfterName || st == LineState::AfterParamValue
}

/// A parameter value may be written.
pub open spec fn accepts_param_value(st: LineState) -> bool {
    st == LineState::AfterParamName || st == LineState::AfterParamValue
}

/// The value may begin.
pub open spec fn accepts_value(st: LineState) -> bool {
    st == LineState::AfterName || st == LineState::AfterParamValue
}

/// A value item may be written, or the line ended.
pub open spec fn in_value(st: LineState) -> bool {
    st == LineState::Value
}

/// What comes before a parameter value: `=` after the parameter's name, `,`
/// between the values of a list.
pub open spec fn param_value_separator(st: LineState) -> char {
    if st == LineState::AfterParamName {
        '='
    } else {
        ','
    }
}

/// The text of a quoted parameter value.
pub open spec fn quoted(s: Seq<char>) -> Seq<char> {
    seq!['"'] + s + seq!['"']
}

/// `s` can be written as a value item: nothing in its escaped form is a
/// control character (a newline is escaped, other controls are not).
pub open spec fn is_value_text(s: Seq<char>) -> bool {
    no_control(escape(s))
}

/// Once a writer is closed (a line by `eol`, the folding writer by `eol`, a
/// quoted string by `close`), no name, parameter or value can be written to
/// it: every such write requires a state that a closed writer is not in.
/// (`PropertyWriter::end` and `ComponentWriter::end` take the writer
/// itself, so nothing can follow them at all.)
pub proof fn lemma_no_write_after_close(
    line: ContentLine,
    folding: FoldingWriter,
    quoted_string: QuotedStringWriter,
)
    requires
        line.state() == LineState::Closed,
        folding.is_closed(),
        quoted_string.is_closed(),
    ensures
        !accepts_name(line.state()),
        !accepts_param_name(line.state()),
        !accepts_param_value(line.state()),
        !accepts_value(line.state()),
        !in_value(line.state()),
        !folding.accepts_writes(),
        !quoted_string.accepts_writes(),
{
}

/// One content line. Its text is folded as it is written; the sink is given
/// back by `into_inner` once `eol` has ended the line.
///
/// Each operation is allowed in the states its `requires` lists. A write that
/// fails leaves the line as it was.
pub struct ContentLine {
    inner: FoldingWriter,
    state: LineState,
}

impl ContentLine {
    pub closed spec fn state(&self) -> LineState {
        self.state
    }

    /// The text of the line written so far, before folding.
    pub closed spec fn text(&self) -> Seq<char> {
        self.inner.line()
    }

    /// What the sink held before the line began.
    pub closed spec fn prefix(&self) -> Seq<char> {
        self.inner.prefix()
    }

    /// What the sink holds.
    pub open spec fn output(&self) -> Seq<char> {
        self.prefix() + folded(self.text()) + if self.state() == LineState::Closed {
            crlf()
        } else {
            seq![]
        }
    }

    pub closed spec fn wf(&self) -> bool {
        &&& self.inner.wf()
        &&& self.inner.is_closed() <==> self.state == LineState::Closed
        &&& self.inner.output() == self.output()
    }

    pub fn new(inner: String) -> (r: Self)
        ensures
            r.wf(),
            r.state() == LineState::Initial,
            r.text() == Seq::<char>::empty(),
            r.prefix() == inner@,
    {
        ContentLine { inner: FoldingWriter::new(inner), state: LineState::Initial }
    }

    /// Writes `s` to the folding writer; `s` is known to be free of controls.
    fn emit(&mut self, s: &str)
        requires
            old(self).inner.wf(),
            !old(self).inner.is_closed(),
            no_control(s@),
        ensures
            final(self).inner.wf(),
            !final(self).inner.is_closed(),
            final(self).inner.prefix() == old(self).inner.prefix(),
            final(self).inner.line() == old(self).inner.line() + s@,
            final(self).state == old(self).state,
    {
        let r = self.inner.write_str(s);
        assert(r is Ok);
    }

    /// Writes one character of punctuation.
    fn emit_punct(&mut self, c: char)
        requires
            old(self).inner.wf(),
            !old(self).inner.is_closed(),
            c == ';' || c == '=' || c == ',' || c == ':' || c == '"',
        ensures
            final(self).inner.wf(),
            !final(self).inner.is_closed(),
            final(self).inner.prefix() == old(self).inner.prefix(),
            final(self).inner.line() == old(self).inner.line().push(c),
            final(self).state == old(self).state,
    {
        let ghost before = self.inner.line();
        if c == ';' {
            proof {
                reveal_strlit(";");
            }
            self.emit(";");
        } else if c == '=' {
            proof {
                reveal_strlit("=");
            }
            self.emit("=");
        } else if c == ',' {
            proof {
                reveal_strlit(",");
            }
            self.emit(",");
        } else if c == ':' {
            proof {
                reveal_strlit(":");
            }
            self.emit(":");
        } else {
            proof {
                reveal_strlit("\"");
            }
            self.emit("\"");
        }
        assert(self.inner.line() =~= before.push(c));
    }

    /// Writes the property name. Fails where `s` is not a name.
    pub fn name(&mut self, s: &str) -> (r: Result<(), FormatError>)
        requires
            old(self).wf(),
            accepts_name(old(self).state()),
        ensures
            final(self).wf(),
            final(self).prefix() == old(self).prefix(),
            r is Ok <==> is_name(s@),
            r is Ok ==> final(self).state() == LineState::AfterName && final(self).text()
                == old(self).text() + s@,
            r is Err ==> *final(self) == *old(self),
    {
        if !all_in_exec(s, CharClass::Name) {
            return Err(FormatError);
        }
        proof {
            lemma_name_classes(s@);
        }
        self.emit(s);
        self.state = LineState::AfterName;
        Ok(())
    }

    /// Writes `;` and a parameter name. Fails where `s` is not a name.
    pub fn param_name(&mut self, s: &str) -> (r: Result<(), FormatError>)
        requires
            old(self).wf(),
            accepts_param_name(old(self).state()),
        ensures
            final(self).wf(),
            final(self).prefix() == old(self).prefix(),
            r is Ok <==> is_name(s@),
            r is Ok ==> final(self).state() == LineState::AfterParamName && final(self).text()
                == old(self).text().push(';') + s@,
            r is Err ==> *final(self) == *old(self),
    {
        if !all_in_exec(s, CharClass::Name) {
            return Err(FormatError);
        }
        proof {
            lemma_name_classes(s@);
        }
        self.emit_punct(';');
        self.emit(s);
        self.state = LineState::AfterParamName;
        Ok(())
    }

    /// Writes `=` (or `,` after an earlier value of the same parameter) and
    /// an unquoted parameter value. Fails where `s` is not paramtext.
    pub fn param_value_unquoted(&mut self, s: &str) -> (r: Result<(), FormatError>)
        requires
            old(self).wf(),
            accepts_param_value(old(self).state()),
        ensures
            final(self).wf(),
            final(self).prefix() == old(self).prefix(),
            r is Ok <==> is_paramtext(s@),
            r is Ok ==> final(self).state() == LineState::AfterParamValue && final(self).text()
                == old(self).text().push(param_value_separator(old(self).state())) + s@,
            r is Err ==> *final(self) == *old(self),
    {
        if !all_in_exec(s, CharClass::ParamText) {
            return Err(FormatError);
        }
        proof {
            lemma_qsafe_no_control(s@);
        }
        if self.state == LineState::AfterParamName {
            self.emit_punct('=');
        } else {
            self.emit_punct(',');
        }
        self.emit(s);
        self.state = LineState::AfterParamValue;
        Ok(())
    }

    /// Writes `=` (or `,` after an earlier value of the same parameter) and
    /// a parameter value in DQUOTEs. Fails where `s` holds a DQUOTE or a
    /// control character other than HTAB.
    pub fn param_value_quoted(&mut self, s: &str) -> (r: Result<(), FormatError>)
        requires
            old(self).wf(),
            accepts_param_value(old(self).state()),
        ensures
            final(self).wf(),
            final(self).prefix() == old(self).prefix(),
            r is Ok <==> is_qsafe(s@),
            r is Ok ==> final(self).state() == LineState::AfterParamValue && final(self).text()
                == old(self).text().push(param_value_separator(old(self).state())) + quoted(s@),
            r is Err ==> *final(self) == *old(self),
    {
        if !all_in_exec(s, CharClass::QuotedText) {
            return Err(FormatError);
        }
        proof {
            lemma_qsafe_no_control(s@);
        }
        let ghost t0 = self.text();
        if self.state == LineState::AfterParamName {
            self.emit_punct('=');
        } else {
            self.emit_punct(',');
        }
        self.emit_punct('"');
        self.emit(s);
        self.emit_punct('"');
        self.state = LineState::AfterParamValue;
        assert(self.text() =~= t0.push(param_value_separator(old(self).state())) + quoted(s@));
        Ok(())
    }

    /// Writes a parameter with one unquoted value.
    pub fn param_unquoted(&mut self, name: &str, value: &str) -> (r: Result<(), FormatError>)
        requires
            old(self).wf(),
            accepts_param_name(old(self).state()),
        ensures
            final(self).wf(),
            final(self).prefix() == old(self).prefix(),
            r is Ok <==> is_name(name@) && is_paramtext(value@),
            r is Ok ==> final(self).state() == LineState::AfterParamValue && final(self).text()
                == old(self).text().push(';') + name@.push('=') + value@,
            r is Err ==> *final(self) == *old(self),
    {
        if !all_in_exec(value, CharClass::ParamText) {
            return Err(FormatError);
        }
        self.param_name(name)?;
        let r = self.param_value_unquoted(value);
        assert(r is Ok);
        assert(self.text() =~= old(self).text().push(';') + name@.push('=') + value@);
        Ok(())
    }

    /// Writes a parameter with one quoted value.
    pub fn param_quoted(&mut self, name: &str, value: &str) -> (r: Result<(), FormatError>)
        requires
            old(self).wf(),
            accepts_param_name(old(self).state()),
        ensures
            final(self).wf(),
            final(self).prefix() == old(self).prefix(),
            r is Ok <==> is_name(name@) && is_qsafe(value@),
            r is Ok ==> final(self).state() == LineState::AfterParamValue && final(self).text()
                == old(self).text().push(';') + name@.push('=') + quoted(value@),
            r is Err ==> *final(self) == *old(self),
    {
        if !all_in_exec(value, CharClass::QuotedText) {
            return Err(FormatError);
        }
        self.param_name(name)?;
        let r = self.param_value_quoted(value);
        assert(r is Ok);
        assert(self.text() =~= old(self).text().push(';') + name@.push('=') + quoted(value@));
        Ok(())
    }

    /// Writes the `:` that begins the value.
    pub fn begin_value(&mut self)
        requires
            old(self).wf(),
            accepts_value(old(self).state()),
        ensures
            final(self).wf(),
            final(self).prefix() == old(self).prefix(),
            final(self).state() == LineState::Value,
            final(self).text() == old(self).text().push(':'),
    {
        self.emit_punct(':');
        self.state = LineState::Value;
    }

    /// Writes one value item, TEXT-escaped, after `sep` where one is given.
    /// Fails where the escaped item holds a control character.
    pub fn value_item(&mut self, sep: Option<char>, s: &str) -> (r: Result<(), FormatError>)
        requires
            old(self).wf(),
            in_value(old(self).state()),
            sep == Some(';') || sep == Some(',') || sep is None,
        ensures
            final(self).wf(),
            final(self).prefix() == old(self).prefix(),
            r is Ok <==> is_value_text(s@),
            r is Ok ==> final(self).state() == LineState::Value && final(self).text() == match sep {
                Some(c) => old(self).text().push(c),
                None => old(self).text(),
            } + escape(s@),
            r is Err ==> *final(self) == *old(self),
    {
        let e = escape_text(s);
        if !all_in_exec(e.as_str(), CharClass::Value) {
            return Err(FormatError);
        }
        match sep {
            Some(c) => self.emit_punct(c),
            None => {},
        }
        self.emit(e.as_str());
        Ok(())
    }

    /// Writes `:` and one TEXT-escaped value.
    pub fn value(&mut self, s: &str) -> (r: Result<(), FormatError>)
        requires
            old(self).wf(),
            accepts_value(old(self).state()),
        ensures
            final(self).wf(),
            final(self).prefix() == old(self).prefix(),
            r is Ok <==> is_value_text(s@),
            r is Ok ==> final(self).state() == LineState::Value && final(self).text()
                == old(self).text().push(':') + escape(s@),
            r is Err ==> *final(self) == *old(self),
    {
        let e = escape_text(s);
        if !all_in_exec(e.as_str(), CharClass::Value) {
            return Err(FormatError);
        }
        self.begin_value();
        self.emit(e.as_str());
        Ok(())
    }

    /// Begins the value, whose items are then written by the tuple writer
    /// with `;` between them.
    pub fn value_tuple_writer(&mut self) -> (r: ValueTupleWriter)
        requires
            old(self).wf(),
            accepts_value(old(self).state()),
        ensures
            final(self).wf(),
            final(self).prefix() == old(self).prefix(),
            final(self).state() == LineState::Value,
            final(self).text() == old(self).text().push(':'),
            r.is_first(),
            r.separator() == ';',
    {
        self.begin_value();
        ValueTupleWriter::new()
    }

    /// Begins the value, whose items are then written by the list writer
    /// with `,` between them.
    pub fn value_list_writer(&mut self) -> (r: ValueTupleWriter)
        requires
            old(self).wf(),
            accepts_value(old(self).state()),
        ensures
            final(self).wf(),
            final(self).prefix() == old(self).prefix(),
            final(self).state() == LineState::Value,
            final(self).text() == old(self).text().push(':'),
            r.is_first(),
            r.separator() == ',',
    {
        self.begin_value();
        ValueTupleWriter::list()
    }

    /// Ends the line with CRLF. Nothing may be written after it.
    pub fn eol(&mut self)
        requires
            old(self).wf(),
            in_value(old(self).state()),
        ensures
            final(self).wf(),
            final(self).prefix() == old(self).prefix(),
            final(self).state() == LineState::Closed,
            final(self).text() == old(self).text(),
    {
        self.inner.eol();
        self.state = LineState::Closed;
    }

    /// Gives back the sink, once the line has ended.
    pub fn into_inner(self) -> (r: String)
        requires
            self.wf(),
            self.state() == LineState::Closed,
        ensures
            r@ == self.prefix() + folded(self.text()) + crlf(),
    {
        self.inner.into_inner()
    }
}

/// The items of a value, with `;` (a tuple) or `,` (a list) between them.
pub struct ValueTupleWriter {
    first_value: bool,
    separator: char,
}

impl ValueTupleWriter {
    /// No item has been written yet.
    pub closed spec fn is_first(&self) -> bool {
        self.first_value
    }

    /// What stands between two items.
    pub closed spec fn separator(&self) -> char {
        self.separator
    }

    /// A writer of the `;`-separated items of a tuple.
    pub fn new() -> (r: Self)
        ensures
            r.is_first(),
            r.separator() == ';',
    {
        ValueTupleWriter { first_value: true, separator: ';' }
    }

    /// A writer of the `,`-separated items of a list.
    pub fn list() -> (r: Self)
        ensures
            r.is_first(),
            r.separator() == ',',
    {
        ValueTupleWriter { first_value: true, separator: ',' }
    }

    /// Writes the next item, TEXT-escaped, after the separator unless it is
    /// the first. Fails, writing nothing, where the escaped item holds a
    /// control character.
    pub fn next_value(&mut self, line: &mut ContentLine, s: &str) -> (r: Result<(), FormatError>)
        requires
            old(line).wf(),
            in_value(old(line).state()),
            old(self).separator() == ';' || old(self).separator() == ',',
        ensures
            final(line).wf(),
            final(line).prefix() == old(line).prefix(),
            final(self).separator() == old(self).separator(),
            r is Ok <==> is_value_text(s@),
            r is Ok ==> !final(self).is_first() && final(line).state() == LineState::Value
                && final(line).text() == if old(self).is_first() {
                old(line).text()
            } else {
                old(line).text().push(old(self).separator())
            } + escape(s@),
            r is Err ==> *final(line) == *old(line) && *final(self) == *old(self),
    {
        let sep = if self.first_value {
            None
        } else {
            Some(self.separator)
        };
        let r = line.value_item(sep, s);
        if r.is_ok() {
            self.first_value = false;
        }
        r
    }
}

} // verus!
