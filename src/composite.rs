//! Composite values: how one logical value is laid out in value items, and
//! when it must name its value type in a VALUE parameter.
use vstd::prelude::*;

use crate::content_line::{
    accepts_value, is_value_text, ContentLine, LineState, ValueTupleWriter,
};
use crate::syntax::{all_in_exec, is_paramtext, CharClass};
use crate::text_writer::{escape, escape_text};
use crate::FormatError;

verus! {

/// The layout of a value in value items.
pub enum ValueShape {
    /// One item.
    Single(String),
    /// A fixed number of items, in order, with `;` between them.
    Tuple(Vec<String>),
    /// Any number of items of one type, with `,` between them; none is an
    /// empty value.
    List(Vec<String>),
}

/// A value ready to be written: the registered name of its value type, and
/// its items, each already formatted by that type.
pub struct CompositeValue {
    pub value_type: String,
    pub shape: ValueShape,
}

/// The views of a vector of strings.
pub open spec fn views(v: Seq<String>) -> Seq<Seq<char>> {
    v.map_values(|s: String| s@)
}

/// The items `items`, TEXT-escaped, with `sep` between them.
pub open spec fn joined(items: Seq<Seq<char>>, sep: char) -> Seq<char>
    decreases items.len(),
{
    if items.len() == 0 {
        seq![]
    } else if items.len() == 1 {
        escape(items[0])
    } else {
        joined(items.drop_last(), sep).push(sep) + escape(items.last())
    }
}

/// The items of a shape.
pub open spec fn shape_items(shape: ValueShape) -> Seq<Seq<char>> {
    match shape {
        ValueShape::Single(s) => seq![s@],
        ValueShape::Tuple(v) => views(v@),
        ValueShape::List(v) => views(v@),
    }
}

/// What stands between the items of a shape.
pub open spec fn shape_separator(shape: ValueShape) -> char {
    match shape {
        ValueShape::List(_) => ',',
        _ => ';',
    }
}

/// The value text of a shape.
pub open spec fn shape_text(shape: ValueShape) -> Seq<char> {
    joined(shape_items(shape), shape_separator(shape))
}

/// Every item of the shape can be written.
pub open spec fn shape_ok(shape: ValueShape) -> bool {
    forall|i: int| 0 <= i < shape_items(shape).len() ==> is_value_text(#[trigger] shape_items(shape)[i])
}

/// The text `;VALUE=`.
pub open spec fn value_param_prefix() -> Seq<char> {
    seq![';', 'V', 'A', 'L', 'U', 'E', '=']
}

/// The VALUE parameter that a value of type `active` needs where its
/// property's default type is `default`: none where they are the same.
pub open spec fn value_type_param(default: Seq<char>, active: Seq<char>) -> Seq<char> {
    if default == active {
        seq![]
    } else {
        value_param_prefix() + active
    }
}

/// A value can be written for a property whose default type is `default`.
pub open spec fn composite_ok(default: Seq<char>, v: CompositeValue) -> bool {
    &&& (default != v.value_type@ ==> is_paramtext(v.value_type@))
    &&& shape_ok(v.shape)
}

/// The text that writing `v` adds to a line whose property's default value
/// type is `default`.
pub open spec fn composite_text(default: Seq<char>, v: CompositeValue) -> Seq<char> {
    value_type_param(default, v.value_type@) + seq![':'] + shape_text(v.shape)
}

/// The VALUE parameter stands in the text of a value exactly when the value's
/// type is not the default type of its property.
pub proof fn lemma_value_param_iff_not_default(default: Seq<char>, v: CompositeValue)
    ensures
        composite_text(default, v) == value_param_prefix() + v.value_type@ + seq![':']
            + shape_text(v.shape) <==> default != v.value_type@,
        composite_text(default, v) == seq![':'] + shape_text(v.shape) <==> default
            == v.value_type@,
{
    let tail = seq![':'] + shape_text(v.shape);
    if default == v.value_type@ {
        assert(composite_text(default, v) =~= tail);
        assert(composite_text(default, v).len() < (value_param_prefix() + v.value_type@
            + tail).len());
    } else {
        assert(composite_text(default, v) =~= value_param_prefix() + v.value_type@ + tail);
        assert(composite_text(default, v).len() > tail.len());
    }
}

/// The text and the condition of success of a value with one item.
pub proof fn lemma_single(default: Seq<char>, v: CompositeValue, item: Seq<char>)
    requires
        v.shape matches ValueShape::Single(s) && s@ == item,
    ensures
        composite_text(default, v) == value_type_param(default, v.value_type@) + seq![':']
            + escape(item),
        composite_ok(default, v) == ((default != v.value_type@ ==> is_paramtext(v.value_type@))
            && is_value_text(item)),
{
    assert(shape_items(v.shape) =~= seq![item]);
    assert(shape_text(v.shape) == escape(item));
    if is_value_text(item) {
        assert forall|i: int| 0 <= i < shape_items(v.shape).len() implies is_value_text(
            #[trigger] shape_items(v.shape)[i],
        ) by {
            assert(i == 0);
        }
    } else {
        assert(!is_value_text(shape_items(v.shape)[0]));
    }
}

/// Whether every string of `items` can be written as a value item.
fn items_ok(items: &Vec<String>) -> (r: bool)
    ensures
        r == (forall|i: int| 0 <= i < items@.len() ==> is_value_text(#[trigger] views(items@)[i])),
{
    let mut i: usize = 0;
    while i < items.len()
        invariant
            i <= items@.len(),
            forall|j: int| 0 <= j < i ==> is_value_text(#[trigger] views(items@)[j]),
        decreases items@.len() - i,
    {
        let e = escape_text(items[i].as_str());
        if !all_in_exec(e.as_str(), CharClass::Value) {
            assert(views(items@)[i as int] == items@[i as int]@);
            return false;
        }
        assert(views(items@)[i as int] == items@[i as int]@);
        i += 1;
    }
    true
}

/// Whether every item of `shape` can be written.
pub fn shape_ok_exec(shape: &ValueShape) -> (r: bool)
    ensures
        r == shape_ok(*shape),
{
    match shape {
        ValueShape::Single(s) => {
            let e = escape_text(s.as_str());
            let r = all_in_exec(e.as_str(), CharClass::Value);
            assert(shape_items(*shape)[0] == s@);
            assert(shape_items(*shape).len() == 1);
            assert(r == is_value_text(shape_items(*shape)[0]));
            if r {
                assert forall|i: int| 0 <= i < shape_items(*shape).len() implies is_value_text(
                    #[trigger] shape_items(*shape)[i],
                ) by {
                    assert(i == 0);
                }
            }
            r
        },
        ValueShape::Tuple(v) => {
            assert(shape_items(*shape) == views(v@));
            items_ok(v)
        },
        ValueShape::List(v) => {
            assert(shape_items(*shape) == views(v@));
            items_ok(v)
        },
    }
}

/// Writes the items of `items` with `w`, which has written none yet.
fn write_items(line: &mut ContentLine, w: &mut ValueTupleWriter, items: &Vec<String>)
    requires
        old(line).wf(),
        old(line).state() == LineState::Value,
        old(w).is_first(),
        old(w).separator() == ';' || old(w).separator() == ',',
        forall|i: int| 0 <= i < items@.len() ==> is_value_text(#[trigger] views(items@)[i]),
    ensures
        final(line).wf(),
        final(line).prefix() == old(line).prefix(),
        final(line).state() == LineState::Value,
        final(line).text() == old(line).text() + joined(views(items@), old(w).separator()),
{
    let ghost t0 = line.text();
    let ghost sep = w.separator();
    let mut i: usize = 0;
    while i < items.len()
        invariant
            i <= items@.len(),
            line.wf(),
            line.prefix() == old(line).prefix(),
            line.state() == LineState::Value,
            w.separator() == sep,
            sep == ';' || sep == ',',
            w.is_first() <==> i == 0,
            forall|j: int| 0 <= j < items@.len() ==> is_value_text(#[trigger] views(items@)[j]),
            line.text() == t0 + joined(views(items@).take(i as int), sep),
        decreases items@.len() - i,
    {
        let ghost before = line.text();
        assert(views(items@)[i as int] == items@[i as int]@);
        let r = w.next_value(line, items[i].as_str());
        assert(r is Ok);
        proof {
            let taken = views(items@).take(i + 1);
            assert(taken.drop_last() =~= views(items@).take(i as int));
            assert(taken.last() == items@[i as int]@);
            if i == 0 {
                assert(joined(views(items@).take(0), sep) =~= Seq::<char>::empty());
                assert(line.text() =~= t0 + joined(taken, sep));
            } else {
                assert(line.text() =~= t0 + joined(taken, sep));
            }
        }
        i += 1;
    }
    assert(views(items@).take(items@.len() as int) =~= views(items@));
}

/// Writes the value `v` of a property whose default value type is `default`:
/// `;VALUE=` and the value's type where that is not the default, then `:`
/// and the items. Checks everything before it writes, so a failure leaves
/// the line as it was.
pub fn write_composite(line: &mut ContentLine, default: &str, v: &CompositeValue) -> (r: Result<
    (),
    FormatError,
>)
    requires
        old(line).wf(),
        accepts_value(old(line).state()),
    ensures
        final(line).wf(),
        final(line).prefix() == old(line).prefix(),
        r is Ok <==> composite_ok(default@, *v),
        r is Ok ==> final(line).state() == LineState::Value && final(line).text() == old(
            line,
        ).text() + composite_text(default@, *v),
        r is Err ==> *final(line) == *old(line),
{
    if !shape_ok_exec(&v.shape) {
        return Err(FormatError);
    }
    let differs = !str_eq(default, v.value_type.as_str());
    if differs && !all_in_exec(v.value_type.as_str(), CharClass::ParamText) {
        return Err(FormatError);
    }
    let ghost t0 = line.text();
    if differs {
        proof {
            reveal_strlit("VALUE");
        }
        let r = line.param_unquoted("VALUE", v.value_type.as_str());
        assert(r is Ok) by {
            assert forall|i: int| 0 <= i < "VALUE"@.len() implies crate::syntax::in_class(
                #[trigger] "VALUE"@[i],
                CharClass::Name,
            ) by {}
        }
        assert(line.text() =~= t0 + value_type_param(default@, v.value_type@));
    } else {
        assert(t0 =~= t0 + value_type_param(default@, v.value_type@));
    }
    let ghost t1 = line.text();
    match &v.shape {
        ValueShape::Single(s) => {
            assert(shape_items(v.shape)[0] == s@);
            let r = line.value(s.as_str());
            assert(r is Ok);
            assert(shape_text(v.shape) == escape(s@));
        },
        ValueShape::Tuple(items) => {
            let mut w = line.value_tuple_writer();
            write_items(line, &mut w, items);
        },
        ValueShape::List(items) => {
            let mut w = line.value_list_writer();
            write_items(line, &mut w, items);
        },
    }
    assert(line.text() =~= t0 + composite_text(default@, *v));
    Ok(())
}

/// Whether two strings are equal.
fn str_eq(a: &str, b: &str) -> (r: bool)
    ensures
        r == (a@ == b@),
{
    let n = a.unicode_len();
    if n != b.unicode_len() {
        return false;
    }
    let mut i: usize = 0;
    while i < n
        invariant
            i <= n,
            n == a@.len(),
            n == b@.len(),
            forall|j: int| 0 <= j < i ==> a@[j] == b@[j],
        decreases n - i,
    {
        if a.get_char(i) != b.get_char(i) {
            return false;
        }
        i += 1;
    }
    assert(a@ =~= b@);
    true
}

} // verus!
