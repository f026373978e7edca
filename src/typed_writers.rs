//! Writers shaped after the iCalendar object: a stream of VCALENDAR objects,
//! each with its VERSION and PRODID, and the events inside them.
use vstd::prelude::*;

use crate::composite::{
    composite_ok, composite_text, lemma_single, value_type_param, CompositeValue,
};
use crate::content_line::is_value_text;
use crate::line_stream::{emitted, simple_line_text};
use crate::structure::{
    Component, DateTimeStamp, DateTimeStart, EventC, ICalObject, ProdId, Property,
    RecurrenceDateTimes, Summary, TimeTransparency as TimeTransparencyProperty, Uid, Version,
};
use crate::syntax::{all_in_exec, in_class, is_name, is_paramtext, CharClass};
use crate::text_writer::{escape, escape_char, escape_text};
use crate::value_types::{
    choice_text, choice_type, form_text, transparency_text, CivilDateTime, DateTimeForm,
    DateTimeOrDate, TimeTransparency,
};
use crate::writer::{ComponentWriter, PropertyWriter, Writer};
use crate::FormatError;

verus! {

/// The names and the version text that the typed writers write are valid.
proof fn lemma_fixed_names()
    ensures
        is_name(ICalObject::spec_name()),
        is_name(EventC::spec_name()),
        is_name(Version::spec_name()),
        is_name(ProdId::spec_name()),
        is_value_text("2.0"@),
{
    reveal_strlit("VCALENDAR");
    reveal_strlit("VEVENT");
    reveal_strlit("VERSION");
    reveal_strlit("PRODID");
    reveal_strlit("2.0");
    assert forall|i: int| 0 <= i < "VCALENDAR"@.len() implies in_class(
        #[trigger] "VCALENDAR"@[i],
        CharClass::Name,
    ) by {}
    assert forall|i: int| 0 <= i < "VEVENT"@.len() implies in_class(
        #[trigger] "VEVENT"@[i],
        CharClass::Name,
    ) by {}
    assert forall|i: int| 0 <= i < "VERSION"@.len() implies in_class(
        #[trigger] "VERSION"@[i],
        CharClass::Name,
    ) by {}
    assert forall|i: int| 0 <= i < "PRODID"@.len() implies in_class(
        #[trigger] "PRODID"@[i],
        CharClass::Name,
    ) by {}
    let v = "2.0"@;
    let a = v.drop_last();
    let b = a.drop_last();
    let c = b.drop_last();
    assert(v.len() == 3 && v[0] == '2' && v[1] == '.' && v[2] == '0');
    assert(c =~= Seq::<char>::empty());
    assert(escape(c) =~= Seq::<char>::empty());
    assert(b.last() == '2');
    assert(escape(b) == escape(c) + escape_char(b.last()));
    assert(escape(b) =~= seq!['2']);
    assert(escape(a) =~= seq!['2', '.']);
    assert(escape(v) =~= v);
    assert forall|i: int| 0 <= i < v.len() implies in_class(#[trigger] v[i], CharClass::Value) by {}
}

/// What writing a TEXT property adds to the stream.
pub open spec fn text_property_lines(name: Seq<char>, value: Seq<char>) -> Seq<char> {
    emitted(simple_line_text(name, value))
}

/// A writer of an iCalendar stream.
pub struct ICalStreamWriter {
    inner: Writer,
}

impl ICalStreamWriter {
    /// What the stream holds.
    pub closed spec fn output(&self) -> Seq<char> {
        self.inner.output()
    }

    /// The names of the components begun and not yet ended, outermost first.
    pub closed spec fn open(&self) -> Seq<Seq<char>> {
        self.inner.open()
    }

    pub closed spec fn wf(&self) -> bool {
        self.inner.wf()
    }

    pub fn with_fmt(inner: String) -> (r: Self)
        ensures
            r.wf(),
            r.output() == inner@,
            r.open() == Seq::<Seq<char>>::empty(),
    {
        ICalStreamWriter { inner: Writer::with_fmt(inner) }
    }

    /// Begins the component `component` at the top of the stream.
    pub fn component<C: Component>(&mut self, component: C) -> (r: Result<
        ComponentWriter<C>,
        FormatError,
    >)
        requires
            old(self).wf(),
        ensures
            final(self).wf(),
            r is Ok <==> is_name(C::spec_name()),
            r matches Ok(c) ==> c.depth() == old(self).open().len() && final(self).open() == old(
                self,
            ).open().push(C::spec_name()) && final(self).output() == old(self).output() + emitted(
                simple_line_text(seq!['B', 'E', 'G', 'I', 'N'], C::spec_name()),
            ),
            r is Err ==> *final(self) == *old(self),
    {
        self.inner.component(component)
    }

    /// Begins a VCALENDAR object, with VERSION `2.0` and the PRODID
    /// `prod_id`. Fails, writing nothing, where the escaped `prod_id` holds a
    /// control character.
    pub fn icalendar_object(&mut self, prod_id: &str) -> (r: Result<ICalObjectWriter, FormatError>)
        requires
            old(self).wf(),
        ensures
            final(self).wf(),
            r is Ok <==> is_value_text(prod_id@),
            r matches Ok(o) ==> o.depth() == old(self).open().len() && final(self).open() == old(
                self,
            ).open().push(ICalObject::spec_name()) && final(self).output() == old(self).output()
                + emitted(simple_line_text("BEGIN"@, ICalObject::spec_name()))
                + text_property_lines(Version::spec_name(), "2.0"@) + text_property_lines(
                ProdId::spec_name(),
                prod_id@,
            ),
            r is Err ==> *final(self) == *old(self),
    {
        let e = escape_text(prod_id);
        if !all_in_exec(e.as_str(), CharClass::Value) {
            return Err(FormatError);
        }
        proof {
            lemma_fixed_names();
            reveal_strlit("BEGIN");
        }
        let c = self.component(ICalObject)?;
        assert(seq!['B', 'E', 'G', 'I', 'N'] =~= "BEGIN"@);
        ICalObjectWriter::new(c, self, prod_id)
    }

    /// Gives back the sink, once every component has ended.
    pub fn into_inner(self) -> (r: String)
        requires
            self.open().len() == 0,
        ensures
            r@ == self.output(),
    {
        self.inner.into_inner()
    }
}

/// A VCALENDAR object that has begun.
pub struct ICalObjectWriter {
    inner: ComponentWriter<ICalObject>,
}

impl ICalObjectWriter {
    /// How many components enclose this one.
    pub closed spec fn depth(&self) -> nat {
        self.inner.depth()
    }

    /// Writes the VERSION and PRODID properties of the object that `inner`
    /// has begun. Fails, writing nothing, where the escaped `prod_id` holds a
    /// control character.
    pub fn new(inner: ComponentWriter<ICalObject>, ics: &mut ICalStreamWriter, prod_id: &str) -> (r:
        Result<Self, FormatError>)
        requires
            old(ics).wf(),
        ensures
            final(ics).wf(),
            final(ics).open() == old(ics).open(),
            r is Ok <==> is_value_text(prod_id@),
            r matches Ok(o) ==> o.depth() == inner.depth() && final(ics).output() == old(
                ics,
            ).output() + text_property_lines(Version::spec_name(), "2.0"@) + text_property_lines(
                ProdId::spec_name(),
                prod_id@,
            ),
            r is Err ==> *final(ics) == *old(ics),
    {
        let e = escape_text(prod_id);
        if !all_in_exec(e.as_str(), CharClass::Value) {
            return Err(FormatError);
        }
        proof {
            lemma_fixed_names();
            reveal_strlit("TEXT");
        }
        let ghost out0 = ics.output();
        let v = CompositeValue::text("2.0");
        proof {
            lemma_single(Version::spec_default_type(), v, "2.0"@);
        }
        assert(Version::spec_name() + composite_text(Version::spec_default_type(), v)
            =~= simple_line_text(Version::spec_name(), "2.0"@));
        let r = ics.inner.simple_property(Version, &v);
        assert(r is Ok);
        let ghost out1 = ics.output();
        let v = CompositeValue::text(prod_id);
        proof {
            lemma_single(ProdId::spec_default_type(), v, prod_id@);
        }
        assert(ProdId::spec_name() + composite_text(ProdId::spec_default_type(), v)
            =~= simple_line_text(ProdId::spec_name(), prod_id@));
        let r = ics.inner.simple_property(ProdId, &v);
        assert(r is Ok);
        assert(ics.output() =~= out0 + text_property_lines(Version::spec_name(), "2.0"@)
            + text_property_lines(ProdId::spec_name(), prod_id@));
        Ok(ICalObjectWriter { inner })
    }

    /// Begins the line of the property `property`.
    pub fn property<P: Property>(&self, _property: P) -> (r: Result<PropertyWriter, FormatError>)
        ensures
            r is Ok <==> is_name(P::spec_name()),
            r matches Ok(w) ==> w.wf() && w.text() == P::spec_name() && w.default_type()
                == P::spec_default_type(),
    {
        PropertyWriter::new(P::name(), P::default_value_type())
    }

    /// Writes the property `property` with the value `value`.
    pub fn simple_property<P: Property>(
        &self,
        ics: &mut ICalStreamWriter,
        property: P,
        value: &CompositeValue,
    ) -> (r: Result<(), FormatError>)
        requires
            old(ics).wf(),
        ensures
            final(ics).wf(),
            final(ics).open() == old(ics).open(),
            r is Ok <==> is_name(P::spec_name()) && composite_ok(P::spec_default_type(), *value),
            r is Ok ==> final(ics).output() == old(ics).output() + emitted(
                P::spec_name() + composite_text(P::spec_default_type(), *value),
            ),
            r is Err ==> *final(ics) == *old(ics),
    {
        ics.inner.simple_property(property, value)
    }

    /// Begins the component `component` inside the object.
    pub fn component<C: Component>(&self, ics: &mut ICalStreamWriter, component: C) -> (r: Result<
        ComponentWriter<C>,
        FormatError,
    >)
        requires
            old(ics).wf(),
        ensures
            final(ics).wf(),
            r is Ok <==> is_name(C::spec_name()),
            r matches Ok(c) ==> c.depth() == old(ics).open().len() && final(ics).open() == old(
                ics,
            ).open().push(C::spec_name()) && final(ics).output() == old(ics).output() + emitted(
                simple_line_text(seq!['B', 'E', 'G', 'I', 'N'], C::spec_name()),
            ),
            r is Err ==> *final(ics) == *old(ics),
    {
        ics.component(component)
    }

    /// Begins a VEVENT inside the object.
    pub fn event(&self, ics: &mut ICalStreamWriter) -> (r: Result<EventWriter, FormatError>)
        requires
            old(ics).wf(),
        ensures
            final(ics).wf(),
            r is Ok,
            r matches Ok(e) ==> e.depth() == old(ics).open().len() && final(ics).open() == old(
                ics,
            ).open().push(EventC::spec_name()) && final(ics).output() == old(ics).output()
                + emitted(simple_line_text(seq!['B', 'E', 'G', 'I', 'N'], EventC::spec_name())),
    {
        proof {
            lemma_fixed_names();
        }
        let c = ics.component(EventC)?;
        Ok(EventWriter::new(c))
    }

    /// Writes `END:VCALENDAR`. Every component inside must have ended.
    pub fn end(self, ics: &mut ICalStreamWriter)
        requires
            old(ics).wf(),
            old(ics).open().len() == self.depth() + 1,
            old(ics).open().last() == ICalObject::spec_name(),
        ensures
            final(ics).wf(),
            final(ics).open() == old(ics).open().drop_last(),
            final(ics).output() == old(ics).output() + emitted(
                simple_line_text(seq!['E', 'N', 'D'], ICalObject::spec_name()),
            ),
    {
        self.inner.end(&mut ics.inner)
    }
}

/// A VEVENT that has begun.
pub struct EventWriter {
    inner: ComponentWriter<EventC>,
}

impl EventWriter {
    /// How many components enclose this one.
    pub closed spec fn depth(&self) -> nat {
        self.inner.depth()
    }

    pub fn new(inner: ComponentWriter<EventC>) -> (r: Self)
        ensures
            r.depth() == inner.depth(),
    {
        EventWriter { inner }
    }

    /// Begins the line of the property `property`.
    pub fn property<P: Property>(&self, _property: P) -> (r: Result<PropertyWriter, FormatError>)
        ensures
            r is Ok <==> is_name(P::spec_name()),
            r matches Ok(w) ==> w.wf() && w.text() == P::spec_name() && w.default_type()
                == P::spec_default_type(),
    {
        PropertyWriter::new(P::name(), P::default_value_type())
    }

    /// Writes the property `property` with the value `value`.
    pub fn simple_property<P: Property>(
        &self,
        ics: &mut ICalStreamWriter,
        property: P,
        value: &CompositeValue,
    ) -> (r: Result<(), FormatError>)
        requires
            old(ics).wf(),
        ensures
            final(ics).wf(),
            final(ics).open() == old(ics).open(),
            r is Ok <==> is_name(P::spec_name()) && composite_ok(P::spec_default_type(), *value),
            r is Ok ==> final(ics).output() == old(ics).output() + emitted(
                P::spec_name() + composite_text(P::spec_default_type(), *value),
            ),
            r is Err ==> *final(ics) == *old(ics),
    {
        ics.inner.simple_property(property, value)
    }

    /// Writes `END:VEVENT`.
    pub fn end(self, ics: &mut ICalStreamWriter)
        requires
            old(ics).wf(),
            old(ics).open().len() == self.depth() + 1,
            old(ics).open().last() == EventC::spec_name(),
        ensures
            final(ics).wf(),
            final(ics).open() == old(ics).open().drop_last(),
            final(ics).output() == old(ics).output() + emitted(
                simple_line_text(seq!['E', 'N', 'D'], EventC::spec_name()),
            ),
    {
        self.inner.end(&mut ics.inner)
    }

    /// Writes DTSTAMP, the time `stamp` in UTC.
    pub fn dtstamp(&self, ics: &mut ICalStreamWriter, stamp: CivilDateTime) -> (r: Result<
        (),
        FormatError,
    >)
        requires
            old(ics).wf(),
        ensures
            final(ics).wf(),
            final(ics).open() == old(ics).open(),
            r is Ok <==> is_name(DateTimeStamp::spec_name()) && is_value_text(
                form_text(DateTimeForm::Utc(stamp)),
            ),
            r is Ok ==> final(ics).output() == old(ics).output() + text_property_lines(
                DateTimeStamp::spec_name(),
                form_text(DateTimeForm::Utc(stamp)),
            ),
            r is Err ==> *final(ics) == *old(ics),
    {
        let v = CompositeValue::date_time(DateTimeForm::Utc(stamp));
        proof {
            lemma_single(DateTimeStamp::spec_default_type(), v, form_text(DateTimeForm::Utc(stamp)));
        }
        assert(DateTimeStamp::spec_name() + composite_text(DateTimeStamp::spec_default_type(), v)
            =~= simple_line_text(DateTimeStamp::spec_name(), form_text(DateTimeForm::Utc(stamp))));
        self.simple_property(ics, DateTimeStamp, &v)
    }

    /// Writes a TEXT property.
    fn text_property<P: Property>(&self, ics: &mut ICalStreamWriter, property: P, value: &str) -> (r:
        Result<(), FormatError>)
        requires
            old(ics).wf(),
            P::spec_default_type() == "TEXT"@,
        ensures
            final(ics).wf(),
            final(ics).open() == old(ics).open(),
            r is Ok <==> is_name(P::spec_name()) && is_value_text(value@),
            r is Ok ==> final(ics).output() == old(ics).output() + text_property_lines(
                P::spec_name(),
                value@,
            ),
            r is Err ==> *final(ics) == *old(ics),
    {
        let v = CompositeValue::text(value);
        proof {
            lemma_single(P::spec_default_type(), v, value@);
        }
        assert(P::spec_name() + composite_text(P::spec_default_type(), v) =~= simple_line_text(
            P::spec_name(),
            value@,
        ));
        self.simple_property(ics, property, &v)
    }

    /// Writes UID.
    pub fn uid(&self, ics: &mut ICalStreamWriter, value: &str) -> (r: Result<(), FormatError>)
        requires
            old(ics).wf(),
        ensures
            final(ics).wf(),
            final(ics).open() == old(ics).open(),
            r is Ok <==> is_name(Uid::spec_name()) && is_value_text(value@),
            r is Ok ==> final(ics).output() == old(ics).output() + text_property_lines(
                Uid::spec_name(),
                value@,
            ),
            r is Err ==> *final(ics) == *old(ics),
    {
        self.text_property(ics, Uid, value)
    }

    /// Writes SUMMARY.
    pub fn summary(&self, ics: &mut ICalStreamWriter, value: &str) -> (r: Result<(), FormatError>)
        requires
            old(ics).wf(),
        ensures
            final(ics).wf(),
            final(ics).open() == old(ics).open(),
            r is Ok <==> is_name(Summary::spec_name()) && is_value_text(value@),
            r is Ok ==> final(ics).output() == old(ics).output() + text_property_lines(
                Summary::spec_name(),
                value@,
            ),
            r is Err ==> *final(ics) == *old(ics),
    {
        self.text_property(ics, Summary, value)
    }

    /// Writes DTSTART, with `VALUE=DATE` where the start is a date.
    pub fn dtstart(&self, ics: &mut ICalStreamWriter, start: DateTimeOrDate) -> (r: Result<
        (),
        FormatError,
    >)
        requires
            old(ics).wf(),
        ensures
            final(ics).wf(),
            final(ics).open() == old(ics).open(),
            r is Ok <==> is_name(DateTimeStart::spec_name()) && (choice_type(start)
                != DateTimeStart::spec_default_type() ==> is_paramtext(choice_type(start)))
                && is_value_text(choice_text(start)),
            r is Ok ==> final(ics).output() == old(ics).output() + emitted(
                DateTimeStart::spec_name() + value_type_param(
                    DateTimeStart::spec_default_type(),
                    choice_type(start),
                ) + seq![':'] + escape(choice_text(start)),
            ),
            r is Err ==> *final(ics) == *old(ics),
    {
        let v = CompositeValue::date_time_or_date(start);
        proof {
            lemma_single(DateTimeStart::spec_default_type(), v, choice_text(start));
        }
        assert(DateTimeStart::spec_name() + composite_text(DateTimeStart::spec_default_type(), v)
            =~= DateTimeStart::spec_name() + value_type_param(
            DateTimeStart::spec_default_type(),
            choice_type(start),
        ) + seq![':'] + escape(choice_text(start)));
        self.simple_property(ics, DateTimeStart, &v)
    }

    /// Writes RDATE with the list `dates`: DATE-TIMEs, DATEs or PERIODs.
    pub fn recurrence_datetimes(&self, ics: &mut ICalStreamWriter, dates: &CompositeValue) -> (r:
        Result<(), FormatError>)
        requires
            old(ics).wf(),
        ensures
            final(ics).wf(),
            final(ics).open() == old(ics).open(),
            r is Ok <==> is_name(RecurrenceDateTimes::spec_name()) && composite_ok(
                RecurrenceDateTimes::spec_default_type(),
                *dates,
            ),
            r is Ok ==> final(ics).output() == old(ics).output() + emitted(
                RecurrenceDateTimes::spec_name() + composite_text(
                    RecurrenceDateTimes::spec_default_type(),
                    *dates,
                ),
            ),
            r is Err ==> *final(ics) == *old(ics),
    {
        self.simple_property(ics, RecurrenceDateTimes, dates)
    }

    /// Writes TRANSP, unless it is the default, OPAQUE, which is left out.
    pub fn time_transparency(&self, ics: &mut ICalStreamWriter, value: TimeTransparency) -> (r:
        Result<(), FormatError>)
        requires
            old(ics).wf(),
        ensures
            final(ics).wf(),
            final(ics).open() == old(ics).open(),
            value == TimeTransparency::Opaque ==> r is Ok && *final(ics) == *old(ics),
            value != TimeTransparency::Opaque ==> (r is Ok <==> is_name(
                TimeTransparencyProperty::spec_name(),
            ) && is_value_text(transparency_text(value))),
            value != TimeTransparency::Opaque && r is Ok ==> final(ics).output() == old(
                ics,
            ).output() + text_property_lines(
                TimeTransparencyProperty::spec_name(),
                transparency_text(value),
            ),
            r is Err ==> *final(ics) == *old(ics),
    {
        if value == TimeTransparency::default() {
            return Ok(());
        }
        let v = CompositeValue::transparency(value);
        proof {
            reveal_strlit("TEXT");
            lemma_single(TimeTransparencyProperty::spec_default_type(), v, transparency_text(value));
        }
        assert(TimeTransparencyProperty::spec_name() + composite_text(
            TimeTransparencyProperty::spec_default_type(),
            v,
        ) =~= simple_line_text(TimeTransparencyProperty::spec_name(), transparency_text(value)));
        self.simple_property(ics, TimeTransparencyProperty, &v)
    }
}

} // verus!
