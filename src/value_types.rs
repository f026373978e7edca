//! Formatting of values into the text of their value types.
use vstd::prelude::*;

use crate::composite::{views, CompositeValue, ValueShape};

verus! {

/// The decimal digit `d`.
pub open spec fn digit_char(d: nat) -> char {
    "0123456789"@[d as int]
}

/// The lowest `width` decimal digits of `n`, zero-padded.
pub open spec fn digits(n: nat, width: nat) -> Seq<char>
    decreases width,
{
    if width == 0 {
        seq![]
    } else {
        digits(n / 10, (width - 1) as nat).push(digit_char(n % 10))
    }
}

/// Appends the lowest `width` decimal digits of `n`, zero-padded.
pub fn push_digits(out: &mut String, n: u32, width: u32)
    ensures
        final(out)@ == old(out)@ + digits(n as nat, width as nat),
    decreases width,
{
    if width > 0 {
        push_digits(out, n / 10, width - 1);
        let d = (n % 10) as usize;
        let all = "0123456789";
        proof {
            reveal_strlit("0123456789");
        }
        let one = all.substring_char(d, d + 1);
        assert(one@ =~= seq![digit_char((n % 10) as nat)]);
        let ghost before = out@;
        out.append(one);
        assert(out@ =~= old(out)@ + digits(n as nat, width as nat));
    } else {
        assert(out@ =~= old(out)@ + digits(n as nat, width as nat));
    }
}

/// A calendar date as year, month and day.
#[derive(Clone, Copy, Debug, PartialEq, Eq, Structural)]
pub struct CivilDate {
    pub year: u16,
    pub month: u8,
    pub day: u8,
}

/// A date and a time of day, without a time zone.
#[derive(Clone, Copy, Debug, PartialEq, Eq, Structural)]
pub struct CivilDateTime {
    pub date: CivilDate,
    pub hour: u8,
    pub minute: u8,
    pub second: u8,
}

/// The DATE text of `d`: `YYYYMMDD`.
pub open spec fn date_text(d: CivilDate) -> Seq<char> {
    digits(d.year as nat, 4) + digits(d.month as nat, 2) + digits(d.day as nat, 2)
}

/// The DATE-TIME text of `t` in its floating form: `YYYYMMDDTHHMMSS`.
pub open spec fn date_time_text(t: CivilDateTime) -> Seq<char> {
    date_text(t.date) + seq!['T'] + digits(t.hour as nat, 2) + digits(t.minute as nat, 2)
        + digits(t.second as nat, 2)
}

impl CivilDate {
    /// Year, month and day are in the ranges a DATE can write.
    pub open spec fn is_valid(&self) -> bool {
        self.year <= 9999 && 1 <= self.month <= 12 && 1 <= self.day <= 31
    }

    /// The date, where year, month and day are in range.
    pub fn new(year: u16, month: u8, day: u8) -> (r: Option<Self>)
        ensures
            r matches Some(d) ==> d.is_valid() && d.year == year && d.month == month && d.day
                == day,
            r is None <==> !(year <= 9999 && 1 <= month <= 12 && 1 <= day <= 31),
    {
        if year <= 9999 && 1 <= month && month <= 12 && 1 <= day && day <= 31 {
            Some(CivilDate { year, month, day })
        } else {
            None
        }
    }

    /// The date of year `year`, month `month` and day `day`, where each is in
    /// the range a DATE can write.
    pub fn from_ymd(year: i32, month: u32, day: u32) -> (r: Option<Self>)
        ensures
            r is Some <==> 0 <= year <= 9999 && 1 <= month <= 12 && 1 <= day <= 31,
            r matches Some(d) ==> d.is_valid() && d.year == year && d.month == month && d.day
                == day,
    {
        if 0 <= year && year <= 9999 && 1 <= month && month <= 12 && 1 <= day && day <= 31 {
            CivilDate::new(year as u16, month as u8, day as u8)
        } else {
            None
        }
    }

    /// The DATE text.
    pub fn format(&self) -> (r: String)
        ensures
            r@ == date_text(*self),
    {
        let mut out = String::new();
        push_digits(&mut out, self.year as u32, 4);
        push_digits(&mut out, self.month as u32, 2);
        push_digits(&mut out, self.day as u32, 2);
        assert(out@ =~= date_text(*self));
        out
    }
}

impl CivilDateTime {
    /// Every field is in the range a DATE-TIME can write; a second of 60
    /// stands for a leap second.
    pub open spec fn is_valid(&self) -> bool {
        self.date.is_valid() && self.hour <= 23 && self.minute <= 59 && self.second <= 60
    }

    pub fn new(date: CivilDate, hour: u8, minute: u8, second: u8) -> (r: Option<Self>)
        ensures
            r matches Some(t) ==> t.is_valid() && t.date == date && t.hour == hour && t.minute
                == minute && t.second == second,
            r is None <==> !(date.is_valid() && hour <= 23 && minute <= 59 && second <= 60),
    {
        if date.year <= 9999 && 1 <= date.month && date.month <= 12 && 1 <= date.day && date.day
            <= 31 && hour <= 23 && minute <= 59 && second <= 60 {
            Some(CivilDateTime { date, hour, minute, second })
        } else {
            None
        }
    }

    /// The DATE-TIME text in its floating form.
    pub fn format(&self) -> (r: String)
        ensures
            r@ == date_time_text(*self),
    {
        let mut out = self.date.format();
        proof {
            reveal_strlit("T");
        }
        out.append("T");
        push_digits(&mut out, self.hour as u32, 2);
        push_digits(&mut out, self.minute as u32, 2);
        push_digits(&mut out, self.second as u32, 2);
        assert(out@ =~= date_time_text(*self));
        out
    }
}

/// A DATE-TIME in one of the two forms that need no TZID parameter.
#[derive(Clone, Copy, Debug, PartialEq, Eq, Structural)]
pub enum DateTimeForm {
    /// A floating time, read in whatever time zone the reader is in.
    Floating(CivilDateTime),
    /// A time in UTC.
    Utc(CivilDateTime),
}

/// The DATE-TIME text of a form: UTC times end in `Z`.
pub open spec fn form_text(f: DateTimeForm) -> Seq<char> {
    match f {
        DateTimeForm::Floating(t) => date_time_text(t),
        DateTimeForm::Utc(t) => date_time_text(t).push('Z'),
    }
}

impl DateTimeForm {
    /// The DATE-TIME text.
    pub fn format(&self) -> (r: String)
        ensures
            r@ == form_text(*self),
    {
        match self {
            DateTimeForm::Floating(t) => t.format(),
            DateTimeForm::Utc(t) => {
                let mut out = t.format();
                proof {
                    reveal_strlit("Z");
                }
                out.append("Z");
                out
            },
        }
    }
}

/// The BOOLEAN text of `b`.
pub open spec fn boolean_text(b: bool) -> Seq<char> {
    if b {
        "TRUE"@
    } else {
        "FALSE"@
    }
}

/// The BOOLEAN text of `b`.
pub fn format_boolean(b: bool) -> (r: String)
    ensures
        r@ == boolean_text(b),
{
    if b {
        "TRUE".to_owned()
    } else {
        "FALSE".to_owned()
    }
}

/// The values of the TRANSP property.
#[derive(Clone, Copy, Debug, PartialEq, Eq, Structural)]
pub enum TimeTransparency {
    /// The event blocks time; the default.
    Opaque,
    /// The event takes up no time.
    Transparent,
}

/// The text of a TRANSP value.
pub open spec fn transparency_text(t: TimeTransparency) -> Seq<char> {
    match t {
        TimeTransparency::Opaque => "OPAQUE"@,
        TimeTransparency::Transparent => "TRANSPARENT"@,
    }
}

impl Default for TimeTransparency {
    fn default() -> (r: Self)
        ensures
            r == TimeTransparency::Opaque,
    {
        TimeTransparency::Opaque
    }
}

impl TimeTransparency {
    /// The text of the value.
    pub fn to_text(&self) -> (r: String)
        ensures
            r@ == transparency_text(*self),
    {
        match self {
            TimeTransparency::Opaque => "OPAQUE".to_owned(),
            TimeTransparency::Transparent => "TRANSPARENT".to_owned(),
        }
    }
}

/// A choice between the DATE-TIME and the DATE value types.
#[derive(Clone, Copy, Debug, PartialEq, Eq, Structural)]
pub enum DateTimeOrDate {
    DateTime(DateTimeForm),
    Date(CivilDate),
}

/// A PERIOD: a start and either an end or a duration.
pub enum PeriodOfTimeValue {
    /// From `start` to `end`.
    Explicit(DateTimeForm, DateTimeForm),
    /// From `start`, for the DURATION written in the text.
    Start(DateTimeForm, String),
}

/// The PERIOD text of `p`: start, `/`, then end or duration.
pub open spec fn period_text(p: PeriodOfTimeValue) -> Seq<char> {
    match p {
        PeriodOfTimeValue::Explicit(s, e) => form_text(s).push('/') + form_text(e),
        PeriodOfTimeValue::Start(s, d) => form_text(s).push('/') + d@,
    }
}

impl PeriodOfTimeValue {
    /// The PERIOD text.
    pub fn format(&self) -> (r: String)
        ensures
            r@ == period_text(*self),
    {
        proof {
            reveal_strlit("/");
        }
        match self {
            PeriodOfTimeValue::Explicit(s, e) => {
                let mut out = s.format();
                out.append("/");
                let end = e.format();
                out.append(end.as_str());
                assert(out@ =~= period_text(*self));
                out
            },
            PeriodOfTimeValue::Start(s, d) => {
                let mut out = s.format();
                out.append("/");
                out.append(d.as_str());
                assert(out@ =~= period_text(*self));
                out
            },
        }
    }
}

/// The start of a PERIOD, waiting for its end or its duration.
pub struct PeriodOfTimeBuilder {
    start: DateTimeForm,
}

impl PeriodOfTimeBuilder {
    pub closed spec fn start_form(&self) -> DateTimeForm {
        self.start
    }

    pub fn start(start: DateTimeForm) -> (r: Self)
        ensures
            r.start_form() == start,
    {
        PeriodOfTimeBuilder { start }
    }

    /// The period from the start to `end`.
    pub fn end(self, end: DateTimeForm) -> (r: PeriodOfTimeValue)
        ensures
            r == PeriodOfTimeValue::Explicit(self.start_form(), end),
    {
        PeriodOfTimeValue::Explicit(self.start, end)
    }

    /// The period from the start for the DURATION text `duration`.
    pub fn duration(self, duration: String) -> (r: PeriodOfTimeValue)
        ensures
            r == PeriodOfTimeValue::Start(self.start_form(), duration),
    {
        PeriodOfTimeValue::Start(self.start, duration)
    }
}

/// `v` has the value type `ty` and the one item `item`.
pub open spec fn is_single(v: CompositeValue, ty: Seq<char>, item: Seq<char>) -> bool {
    &&& v.value_type@ == ty
    &&& v.shape matches ValueShape::Single(s) && s@ == item
}

/// `v` has the value type `ty` and the list of items `items`.
pub open spec fn is_list(v: CompositeValue, ty: Seq<char>, items: Seq<Seq<char>>) -> bool {
    &&& v.value_type@ == ty
    &&& v.shape matches ValueShape::List(l) && views(l@) == items
}

/// The registered name of the type of a DATE-TIME or DATE choice.
pub open spec fn choice_type(v: DateTimeOrDate) -> Seq<char> {
    match v {
        DateTimeOrDate::DateTime(_) => "DATE-TIME"@,
        DateTimeOrDate::Date(_) => "DATE"@,
    }
}

/// The text of a DATE-TIME or DATE choice.
pub open spec fn choice_text(v: DateTimeOrDate) -> Seq<char> {
    match v {
        DateTimeOrDate::DateTime(f) => form_text(f),
        DateTimeOrDate::Date(d) => date_text(d),
    }
}

impl CompositeValue {
    /// One item of the value type `value_type`.
    pub fn single(value_type: &str, item: String) -> (r: Self)
        ensures
            is_single(r, value_type@, item@),
    {
        CompositeValue { value_type: value_type.to_owned(), shape: ValueShape::Single(item) }
    }

    /// The items of a tuple of the value type `value_type`.
    pub fn tuple(value_type: &str, items: Vec<String>) -> (r: Self)
        ensures
            r.value_type@ == value_type@,
            r.shape == ValueShape::Tuple(items),
    {
        CompositeValue { value_type: value_type.to_owned(), shape: ValueShape::Tuple(items) }
    }

    /// A list of items of the value type `value_type`.
    pub fn list(value_type: &str, items: Vec<String>) -> (r: Self)
        ensures
            r.value_type@ == value_type@,
            r.shape == ValueShape::List(items),
    {
        CompositeValue { value_type: value_type.to_owned(), shape: ValueShape::List(items) }
    }

    /// A TEXT value.
    pub fn text(s: &str) -> (r: Self)
        ensures
            is_single(r, "TEXT"@, s@),
    {
        CompositeValue::single("TEXT", s.to_owned())
    }

    /// A BOOLEAN value.
    pub fn boolean(b: bool) -> (r: Self)
        ensures
            is_single(r, "BOOLEAN"@, boolean_text(b)),
    {
        CompositeValue::single("BOOLEAN", format_boolean(b))
    }

    /// A DATE-TIME value.
    pub fn date_time(f: DateTimeForm) -> (r: Self)
        ensures
            is_single(r, "DATE-TIME"@, form_text(f)),
    {
        CompositeValue::single("DATE-TIME", f.format())
    }

    /// A DATE value.
    pub fn date(d: CivilDate) -> (r: Self)
        ensures
            is_single(r, "DATE"@, date_text(d)),
    {
        CompositeValue::single("DATE", d.format())
    }

    /// A DATE-TIME or a DATE value.
    pub fn date_time_or_date(v: DateTimeOrDate) -> (r: Self)
        ensures
            is_single(r, choice_type(v), choice_text(v)),
    {
        match v {
            DateTimeOrDate::DateTime(f) => CompositeValue::date_time(f),
            DateTimeOrDate::Date(d) => CompositeValue::date(d),
        }
    }

    /// A PERIOD value.
    pub fn period(p: &PeriodOfTimeValue) -> (r: Self)
        ensures
            is_single(r, "PERIOD"@, period_text(*p)),
    {
        CompositeValue::single("PERIOD", p.format())
    }

    /// A TRANSP value, of the TEXT type.
    pub fn transparency(t: TimeTransparency) -> (r: Self)
        ensures
            is_single(r, "TEXT"@, transparency_text(t)),
    {
        CompositeValue::single("TEXT", t.to_text())
    }

    /// A list of DATE-TIME values.
    pub fn date_time_list(forms: &Vec<DateTimeForm>) -> (r: Self)
        ensures
            is_list(r, "DATE-TIME"@, forms@.map_values(|f: DateTimeForm| form_text(f))),
    {
        let mut items: Vec<String> = Vec::new();
        let mut i: usize = 0;
        while i < forms.len()
            invariant
                i <= forms@.len(),
                items@.len() == i,
                forall|j: int| 0 <= j < i ==> (#[trigger] items@[j])@ == form_text(forms@[j]),
            decreases forms@.len() - i,
        {
            items.push(forms[i].format());
            i += 1;
        }
        assert(views(items@) =~= forms@.map_values(|f: DateTimeForm| form_text(f)));
        CompositeValue::list("DATE-TIME", items)
    }

    /// A list of DATE values.
    pub fn date_list(dates: &Vec<CivilDate>) -> (r: Self)
        ensures
            is_list(r, "DATE"@, dates@.map_values(|d: CivilDate| date_text(d))),
    {
        let mut items: Vec<String> = Vec::new();
        let mut i: usize = 0;
        while i < dates.len()
            invariant
                i <= dates@.len(),
                items@.len() == i,
                forall|j: int| 0 <= j < i ==> (#[trigger] items@[j])@ == date_text(dates@[j]),
            decreases dates@.len() - i,
        {
            items.push(dates[i].format());
            i += 1;
        }
        assert(views(items@) =~= dates@.map_values(|d: CivilDate| date_text(d)));
        CompositeValue::list("DATE", items)
    }

    /// A list of PERIOD values.
    pub fn period_list(periods: &Vec<PeriodOfTimeValue>) -> (r: Self)
        ensures
            is_list(r, "PERIOD"@, periods@.map_values(|p: PeriodOfTimeValue| period_text(p))),
    {
        let mut items: Vec<String> = Vec::new();
        let mut i: usize = 0;
        while i < periods.len()
            invariant
                i <= periods@.len(),
                items@.len() == i,
                forall|j: int| 0 <= j < i ==> (#[trigger] items@[j])@ == period_text(periods@[j]),
            decreases periods@.len() - i,
        {
            items.push(periods[i].format());
            i += 1;
        }
        assert(views(items@) =~= periods@.map_values(|p: PeriodOfTimeValue| period_text(p)));
        CompositeValue::list("PERIOD", items)
    }
}

} // verus!
