//! Writing components and properties into a stream of content lines.
use vstd::prelude::*;

use crate::composite::{composite_ok, composite_text, views, write_composite, CompositeValue};
use crate::content_line::{accepts_param_name, accepts_value, quoted, ContentLine, LineState};
use crate::line_stream::{emitted, simple_line_text, LineStream};
use crate::structure::{Component, Param, Property};
use crate::syntax::{all_in_exec, in_class, is_name, is_paramtext, is_qsafe, CharClass};
use crate::text_writer::escape;
use crate::FormatError;

verus! {

/// The text of one parameter value, in DQUOTEs where `quote`.
pub open spec fn param_item_text(v: Seq<char>, quote: bool) -> Seq<char> {
    if quote {
        quoted(v)
    } else {
        v
    }
}

/// The parameter value may be written, in DQUOTEs where `quote`.
pub open spec fn param_item_ok(v: Seq<char>, quote: bool) -> bool {
    if quote {
        is_qsafe(v)
    } else {
        is_paramtext(v)
    }
}

/// The values `vs` with `,` between them.
pub open spec fn param_items_text(vs: Seq<Seq<char>>, quote: bool) -> Seq<char>
    decreases vs.len(),
{
    if vs.len() == 0 {
        seq![]
    } else if vs.len() == 1 {
        param_item_text(vs[0], quote)
    } else {
        param_items_text(vs.drop_last(), quote).push(',') + param_item_text(vs.last(), quote)
    }
}

/// The text of a parameter: `;`, its name, `=` and its values.
pub open spec fn param_text(name: Seq<char>, vs: Seq<Seq<char>>, quote: bool) -> Seq<char> {
    seq![';'] + name.push('=') + param_items_text(vs, quote)
}

/// Every value of `vs` may be written.
pub open spec fn param_items_ok(vs: Seq<Seq<char>>, quote: bool) -> bool {
    forall|i: int| 0 <= i < vs.len() ==> param_item_ok(#[trigger] vs[i], quote)
}

fn param_items_ok_exec(values: &Vec<String>, quote: bool) -> (r: bool)
    ensures
        r == param_items_ok(views(values@), quote),
{
    let k = if quote {
        CharClass::QuotedText
    } else {
        CharClass::ParamText
    };
    let mut i: usize = 0;
    while i < values.len()
        invariant
            i <= values@.len(),
            k == (if quote {
                CharClass::QuotedText
            } else {
                CharClass::ParamText
            }),
            forall|j: int| 0 <= j < i ==> param_item_ok(#[trigger] views(values@)[j], quote),
        decreases values@.len() - i,
    {
        assert(views(values@)[i as int] == values@[i as int]@);
        if !all_in_exec(values[i].as_str(), k) {
            return false;
        }
        i += 1;
    }
    true
}

/// One property line being written: its name is written when it is made,
/// then come its parameters, then its value, and `end` hands the line to
/// the stream.
pub struct PropertyWriter {
    content_line: ContentLine,
    default_type: String,
}

impl PropertyWriter {
    /// The text of the line written so far, before folding.
    pub closed spec fn text(&self) -> Seq<char> {
        self.content_line.text()
    }

    pub closed spec fn state(&self) -> LineState {
        self.content_line.state()
    }

    /// The registered name of the property's default value type.
    pub closed spec fn default_type(&self) -> Seq<char> {
        self.default_type@
    }

    pub closed spec fn wf(&self) -> bool {
        &&& self.content_line.wf()
        &&& self.content_line.prefix() == Seq::<char>::empty()
    }

    /// Begins the line of the property `name`, whose default value type is
    /// `default_type`. Fails where `name` is not a name.
    pub fn new(name: &str, default_type: &str) -> (r: Result<Self, FormatError>)
        ensures
            r is Ok <==> is_name(name@),
            r matches Ok(w) ==> w.wf() && w.text() == name@ && w.state() == LineState::AfterName
                && w.default_type() == default_type@,
    {
        let mut content_line = ContentLine::new(String::new());
        content_line.name(name)?;
        Ok(PropertyWriter { content_line, default_type: default_type.to_owned() })
    }

    /// Writes the parameter `name` with the values `values`, each in DQUOTEs
    /// where `quote`. Fails, writing nothing, where `name` is not a name or a
    /// value does not fit its grammar.
    pub fn param_values(&mut self, name: &str, quote: bool, values: &Vec<String>) -> (r: Result<
        (),
        FormatError,
    >)
        requires
            old(self).wf(),
            accepts_param_name(old(self).state()),
            values@.len() > 0,
        ensures
            final(self).wf(),
            final(self).default_type() == old(self).default_type(),
            r is Ok <==> is_name(name@) && param_items_ok(views(values@), quote),
            r is Ok ==> final(self).state() == LineState::AfterParamValue && final(self).text()
                == old(self).text() + param_text(name@, views(values@), quote),
            r is Err ==> *final(self) == *old(self),
    {
        if !all_in_exec(name, CharClass::Name) || !param_items_ok_exec(values, quote) {
            return Err(FormatError);
        }
        let ghost t0 = self.text();
        let ghost vs = views(values@);
        let r = self.content_line.param_name(name);
        assert(r is Ok);
        let mut i: usize = 0;
        while i < values.len()
            invariant
                0 <= i <= values@.len(),
                vs == views(values@),
                param_items_ok(vs, quote),
                self.wf(),
                self.default_type() == old(self).default_type(),
                i == 0 ==> self.state() == LineState::AfterParamName,
                i > 0 ==> self.state() == LineState::AfterParamValue,
                i == 0 ==> self.text() == t0.push(';') + name@,
                i > 0 ==> self.text() == t0 + param_text(name@, vs.take(i as int), quote),
            decreases values@.len() - i,
        {
            let ghost before = self.text();
            assert(vs[i as int] == values@[i as int]@);
            assert(param_item_ok(vs[i as int], quote));
            if quote {
                let r = self.content_line.param_value_quoted(values[i].as_str());
                assert(r is Ok);
            } else {
                let r = self.content_line.param_value_unquoted(values[i].as_str());
                assert(r is Ok);
            }
            proof {
                let taken = vs.take(i + 1);
                assert(taken.drop_last() =~= vs.take(i as int));
                assert(taken.last() == vs[i as int]);
                if i == 0 {
                    assert(self.text() =~= t0 + param_text(name@, taken, quote));
                } else {
                    assert(self.text() =~= t0 + param_text(name@, taken, quote));
                }
            }
            i += 1;
        }
        assert(vs.take(values@.len() as int) =~= vs);
        Ok(())
    }

    /// Writes the parameter `param` with the values `values`.
    pub fn param<PP: Param>(&mut self, _param: PP, values: &Vec<String>) -> (r: Result<
        (),
        FormatError,
    >)
        requires
            old(self).wf(),
            accepts_param_name(old(self).state()),
            values@.len() > 0,
        ensures
            final(self).wf(),
            final(self).default_type() == old(self).default_type(),
            r is Ok <==> is_name(PP::spec_name()) && param_items_ok(
                views(values@),
                PP::spec_quoted(),
            ),
            r is Ok ==> final(self).state() == LineState::AfterParamValue && final(self).text()
                == old(self).text() + param_text(
                PP::spec_name(),
                views(values@),
                PP::spec_quoted(),
            ),
            r is Err ==> *final(self) == *old(self),
    {
        self.param_values(PP::name(), PP::quoted(), values)
    }

    /// Writes the value `v`, with a VALUE parameter before it where its type
    /// is not the property's default. Fails, writing nothing, where the value
    /// does not fit its grammar.
    pub fn value(&mut self, v: &CompositeValue) -> (r: Result<(), FormatError>)
        requires
            old(self).wf(),
            accepts_value(old(self).state()),
        ensures
            final(self).wf(),
            final(self).default_type() == old(self).default_type(),
            r is Ok <==> composite_ok(old(self).default_type(), *v),
            r is Ok ==> final(self).state() == LineState::Value && final(self).text() == old(
                self,
            ).text() + composite_text(old(self).default_type(), *v),
            r is Err ==> *final(self) == *old(self),
    {
        write_composite(&mut self.content_line, self.default_type.as_str(), v)
    }

    /// Ends the line and appends it to `stream`.
    pub fn end(self, stream: &mut LineStream)
        requires
            self.wf(),
            self.state() == LineState::Value,
        ensures
            final(stream).output() == old(stream).output() + emitted(self.text()),
    {
        let mut content_line = self.content_line;
        content_line.eol();
        stream.push_line(content_line);
    }
}

/// A component that has begun; `end` writes its `END` line.
pub struct ComponentWriter<C> {
    _component: C,
    depth: Ghost<nat>,
}

impl<C: Component> ComponentWriter<C> {
    /// How many components enclose this one.
    pub closed spec fn depth(&self) -> nat {
        self.depth@
    }

    /// Writes `BEGIN:` and the component's name.
    pub fn new(inner: &mut Writer, component: C) -> (r: Result<Self, FormatError>)
        requires
            old(inner).wf(),
        ensures
            final(inner).wf(),
            r is Ok <==> is_name(C::spec_name()),
            r matches Ok(c) ==> c.depth() == old(inner).open().len() && final(inner).open()
                == old(inner).open().push(C::spec_name()) && final(inner).output() == old(
                inner,
            ).output() + emitted(simple_line_text(seq!['B', 'E', 'G', 'I', 'N'], C::spec_name())),
            r is Err ==> *final(inner) == *old(inner),
    {
        inner.begin(C::name())?;
        Ok(ComponentWriter { _component: component, depth: Ghost((inner.open@.len() - 1) as nat) })
    }

    /// Writes `END:` and the component's name. Every component begun inside
    /// this one must have ended first.
    pub fn end(self, inner: &mut Writer)
        requires
            old(inner).wf(),
            old(inner).open().len() == self.depth() + 1,
            old(inner).open().last() == C::spec_name(),
        ensures
            final(inner).wf(),
            final(inner).open() == old(inner).open().drop_last(),
            final(inner).output() == old(inner).output() + emitted(
                simple_line_text(seq!['E', 'N', 'D'], C::spec_name()),
            ),
    {
        inner.finish(C::name());
    }
}

/// A writer of an iCalendar stream: components, and the properties inside
/// them.
pub struct Writer {
    inner: LineStream,
    open: Ghost<Seq<Seq<char>>>,
}

/// A name written as a value stands as it is: no name character is escaped.
proof fn lemma_escape_name(s: Seq<char>)
    requires
        is_name(s),
    ensures
        escape(s) == s,
        crate::content_line::is_value_text(s),
    decreases s.len(),
{
    if s.len() > 0 {
        assert(is_name(s.drop_last())) by {
            assert forall|i: int| 0 <= i < s.drop_last().len() implies in_class(
                #[trigger] s.drop_last()[i],
                CharClass::Name,
            ) by {
                assert(s.drop_last()[i] == s[i]);
            }
        }
        lemma_escape_name(s.drop_last());
        assert(in_class(s[s.len() - 1], CharClass::Name));
        assert(escape(s) =~= s);
    }
    crate::syntax::lemma_name_classes(s);
}

impl Writer {
    /// What the stream holds.
    pub closed spec fn output(&self) -> Seq<char> {
        self.inner.output()
    }

    /// The names of the components begun and not yet ended, outermost first.
    pub closed spec fn open(&self) -> Seq<Seq<char>> {
        self.open@
    }

    pub closed spec fn wf(&self) -> bool {
        forall|i: int| 0 <= i < self.open@.len() ==> is_name(#[trigger] self.open@[i])
    }

    pub fn with_fmt(inner: String) -> (r: Self)
        ensures
            r.wf(),
            r.output() == inner@,
            r.open() == Seq::<Seq<char>>::empty(),
    {
        Writer { inner: LineStream::new(inner), open: Ghost(Seq::empty()) }
    }

    fn begin(&mut self, name: &'static str) -> (r: Result<(), FormatError>)
        requires
            old(self).wf(),
        ensures
            final(self).wf(),
            r is Ok <==> is_name(name@),
            r is Ok ==> final(self).open() == old(self).open().push(name@) && final(self).output()
                == old(self).output() + emitted(
                simple_line_text(seq!['B', 'E', 'G', 'I', 'N'], name@),
            ),
            r is Err ==> *final(self) == *old(self),
    {
        if !all_in_exec(name, CharClass::Name) {
            return Err(FormatError);
        }
        proof {
            lemma_escape_name(name@);
            reveal_strlit("BEGIN");
            assert forall|i: int| 0 <= i < "BEGIN"@.len() implies in_class(
                #[trigger] "BEGIN"@[i],
                CharClass::Name,
            ) by {}
        }
        let r = self.inner.simple_line("BEGIN", name);
        assert(r is Ok);
        assert("BEGIN"@ =~= seq!['B', 'E', 'G', 'I', 'N']);
        self.open = Ghost(self.open@.push(name@));
        assert forall|i: int| 0 <= i < self.open@.len() implies is_name(#[trigger] self.open@[i]) by {
            if i < old(self).open@.len() {
                assert(self.open@[i] == old(self).open@[i]);
            }
        }
        Ok(())
    }

    fn finish(&mut self, name: &'static str)
        requires
            old(self).wf(),
            old(self).open().len() > 0,
            old(self).open().last() == name@,
        ensures
            final(self).wf(),
            final(self).open() == old(self).open().drop_last(),
            final(self).output() == old(self).output() + emitted(
                simple_line_text(seq!['E', 'N', 'D'], name@),
            ),
    {
        proof {
            assert(is_name(self.open@[self.open@.len() - 1]));
            lemma_escape_name(name@);
            reveal_strlit("END");
            assert forall|i: int| 0 <= i < "END"@.len() implies in_class(
                #[trigger] "END"@[i],
                CharClass::Name,
            ) by {}
        }
        let r = self.inner.simple_line("END", name);
        assert(r is Ok);
        assert("END"@ =~= seq!['E', 'N', 'D']);
        self.open = Ghost(self.open@.drop_last());
        assert forall|i: int| 0 <= i < self.open@.len() implies is_name(#[trigger] self.open@[i]) by {
            assert(self.open@[i] == old(self).open@[i]);
        }
    }

    /// Begins the component `component`.
    pub fn component<C: Component>(&mut self, component: C) -> (r: Result<
        ComponentWriter<C>,
        FormatError,
    >)
        requires
            old(self).wf(),
        ensures
            final(self).wf(),
            r is Ok <==> is_name(C::spec_name()),
            r matches Ok(c) ==> c.depth() == old(self).open().len() && final(self).open() == old(
                self,
            ).open().push(C::spec_name()) && final(self).output() == old(self).output() + emitted(
                simple_line_text(seq!['B', 'E', 'G', 'I', 'N'], C::spec_name()),
            ),
            r is Err ==> *final(self) == *old(self),
    {
        ComponentWriter::new(self, component)
    }

    /// Begins the line of the property `property`.
    pub fn property<P: Property>(&self, _property: P) -> (r: Result<PropertyWriter, FormatError>)
        ensures
            r is Ok <==> is_name(P::spec_name()),
            r matches Ok(w) ==> w.wf() && w.text() == P::spec_name() && w.state()
                == LineState::AfterName && w.default_type() == P::spec_default_type(),
    {
        PropertyWriter::new(P::name(), P::default_value_type())
    }

    /// Appends a property line that has its value.
    pub fn end_property(&mut self, property: PropertyWriter)
        requires
            old(self).wf(),
            property.wf(),
            property.state() == LineState::Value,
        ensures
            final(self).wf(),
            final(self).open() == old(self).open(),
            final(self).output() == old(self).output() + emitted(property.text()),
    {
        property.end(&mut self.inner);
    }

    /// Writes the property `property` with the value `value` and no
    /// parameter. Fails, writing nothing, where the name or the value does
    /// not fit its grammar.
    pub fn simple_property<P: Property>(&mut self, property: P, value: &CompositeValue) -> (r:
        Result<(), FormatError>)
        requires
            old(self).wf(),
        ensures
            final(self).wf(),
            final(self).open() == old(self).open(),
            r is Ok <==> is_name(P::spec_name()) && composite_ok(P::spec_default_type(), *value),
            r is Ok ==> final(self).output() == old(self).output() + emitted(
                P::spec_name() + composite_text(P::spec_default_type(), *value),
            ),
            r is Err ==> *final(self) == *old(self),
    {
        let mut p = self.property(property)?;
        p.value(value)?;
        self.end_property(p);
        Ok(())
    }

    /// Gives back the sink, once every component has ended.
    pub fn into_inner(self) -> (r: String)
        requires
            self.open().len() == 0,
        ensures
            r@ == self.output(),
    {
        self.inner.into_inner()
    }
}

} // verus!
