//! Decompositions of the core library's generic types: options, results,
//! ranges, bounds and durations.

use vstd::prelude::*;

use crate::content::{Alt, Content, Value};
use crate::descriptor::{Descriptor, FieldDescriptor, VariantDescriptor};
use crate::element::{Element, ElementType};
use crate::messages::{Message, MessageFields};
use crate::type_list::List;

verus! {

/// Whether `fd` describes a defaultless field of the given name and type.
pub open spec fn is_field(fd: FieldDescriptor, name: Seq<char>, ty: Descriptor) -> bool {
    &&& fd.name@ == name
    &&& *fd.ty == ty
    &&& fd.default is None
}

/// A list holding exactly one field value.
pub open spec fn one_field(v: Value) -> List<Value> {
    List::Cons(v, Box::new(List::Nil))
}

/// A choice value whose active variant is at position 0 and holds one
/// field.
pub open spec fn first_variant(v: Value) -> Value {
    Value::Compound(Box::new(Content::Variants(Alt::Head(one_field(v)))))
}

/// A choice value whose active variant is at position 1 and holds one
/// field.
pub open spec fn second_variant(v: Value) -> Value {
    Value::Compound(Box::new(Content::Variants(Alt::Tail(Box::new(Alt::Head(one_field(v)))))))
}

/// Whether `d` describes an optional value: a choice named `Option` whose
/// first variant, `Some`, holds one field of type `inner`, and whose
/// second variant, `None`, holds none.
pub open spec fn is_option_descriptor(d: Descriptor, inner: Descriptor) -> bool {
    &&& d matches Descriptor::Choice { name, variants }
    &&& name@ == "Option"@
    &&& variants matches List::Cons(some_v, r1)
    &&& some_v.name@ == "Some"@
    &&& some_v.fields matches List::Cons(f0, fnil)
    &&& is_field(f0, "0"@, inner)
    &&& (*fnil) is Nil
    &&& (*r1) matches List::Cons(none_v, r2)
    &&& none_v.name@ == "None"@
    &&& none_v.fields is Nil
    &&& (*r2) is Nil
}

/// The decomposition of an optional value: `Some` is the variant at
/// position 0, holding the inner value; `None` is the variant at position
/// 1, holding nothing.
pub fn option_value(inner: Option<Value>) -> (r: Value)
    ensures
        match inner {
            Some(v) => r == first_variant(v),
            None => r == Value::Compound(
                Box::new(Content::Variants(Alt::Tail(Box::new(Alt::Head(List::Nil))))),
            ),
        },
{
    match inner {
        Some(v) => Value::choice(Alt::Head(List::Cons(v, Box::new(List::Nil)))),
        None => Value::choice(Alt::Tail(Box::new(Alt::Head(List::Nil)))),
    }
}

/// The descriptor of an optional value of the given inner type.
pub fn option_descriptor(inner: Descriptor) -> (d: Descriptor)
    ensures
        is_option_descriptor(d, inner),
{
    let some_fields = List::Cons(
        FieldDescriptor::no_default("0".to_owned(), inner),
        Box::new(List::Nil),
    );
    let variants = List::Cons(
        VariantDescriptor::new("Some".to_owned(), some_fields),
        Box::new(
            List::Cons(VariantDescriptor::new("None".to_owned(), List::Nil), Box::new(List::Nil)),
        ),
    );
    Descriptor::Choice { name: "Option".to_owned(), variants }
}

/// Whether `d` describes a result: a choice named `Result` whose first
/// variant, `Ok`, holds one field of type `ok`, and whose second variant,
/// `Err`, holds one field of type `err`.
pub open spec fn is_result_descriptor(d: Descriptor, ok: Descriptor, err: Descriptor) -> bool {
    &&& d matches Descriptor::Choice { name, variants }
    &&& name@ == "Result"@
    &&& variants matches List::Cons(ok_v, r1)
    &&& ok_v.name@ == "Ok"@
    &&& ok_v.fields matches List::Cons(okf, oknil)
    &&& is_field(okf, "0"@, ok)
    &&& (*oknil) is Nil
    &&& (*r1) matches List::Cons(err_v, r2)
    &&& err_v.name@ == "Err"@
    &&& err_v.fields matches List::Cons(errf, errnil)
    &&& is_field(errf, "0"@, err)
    &&& (*errnil) is Nil
    &&& (*r2) is Nil
}

/// The decomposition of a result: `Ok` is the variant at position 0 and
/// `Err` the variant at position 1, each holding its payload.
pub fn result_value(inner: Result<Value, Value>) -> (r: Value)
    ensures
        match inner {
            Ok(v) => r == first_variant(v),
            Err(e) => r == second_variant(e),
        },
{
    match inner {
        Ok(v) => Value::choice(Alt::Head(List::Cons(v, Box::new(List::Nil)))),
        Err(e) => Value::choice(
            Alt::Tail(Box::new(Alt::Head(List::Cons(e, Box::new(List::Nil))))),
        ),
    }
}

/// The descriptor of a result with the given payload types.
pub fn result_descriptor(ok: Descriptor, err: Descriptor) -> (d: Descriptor)
    ensures
        is_result_descriptor(d, ok, err),
{
    let ok_fields = List::Cons(FieldDescriptor::no_default("0".to_owned(), ok), Box::new(List::Nil));
    let err_fields = List::Cons(
        FieldDescriptor::no_default("0".to_owned(), err),
        Box::new(List::Nil),
    );
    let variants = List::Cons(
        VariantDescriptor::new("Ok".to_owned(), ok_fields),
        Box::new(
            List::Cons(VariantDescriptor::new("Err".to_owned(), err_fields), Box::new(List::Nil)),
        ),
    );
    Descriptor::Choice { name: "Result".to_owned(), variants }
}

/// Whether `d` describes a bound: a choice named `Bound` whose variants
/// `Included` and `Excluded` hold one field of the element type (supplied
/// once per occurrence) and whose variant `Unbounded` holds none.
pub open spec fn is_bound_descriptor(d: Descriptor, included: Descriptor, excluded: Descriptor) -> bool {
    &&& d matches Descriptor::Choice { name, variants }
    &&& name@ == "Bound"@
    &&& variants matches List::Cons(inc_v, r1)
    &&& inc_v.name@ == "Included"@
    &&& inc_v.fields matches List::Cons(incf, incnil)
    &&& is_field(incf, "0"@, included)
    &&& (*incnil) is Nil
    &&& (*r1) matches List::Cons(exc_v, r2)
    &&& exc_v.name@ == "Excluded"@
    &&& exc_v.fields matches List::Cons(excf, excnil)
    &&& is_field(excf, "0"@, excluded)
    &&& (*excnil) is Nil
    &&& (*r2) matches List::Cons(unb_v, r3)
    &&& unb_v.name@ == "Unbounded"@
    &&& unb_v.fields is Nil
    &&& (*r3) is Nil
}

/// The decomposition of an inclusive bound: the variant at position 0,
/// holding the limit.
pub fn bound_included_value(limit: Value) -> (r: Value)
    ensures
        r == first_variant(limit),
{
    Value::choice(Alt::Head(List::Cons(limit, Box::new(List::Nil))))
}

/// The decomposition of an exclusive bound: the variant at position 1,
/// holding the limit.
pub fn bound_excluded_value(limit: Value) -> (r: Value)
    ensures
        r == second_variant(limit),
{
    Value::choice(Alt::Tail(Box::new(Alt::Head(List::Cons(limit, Box::new(List::Nil))))))
}

/// The decomposition of an absent bound: the fieldless variant at
/// position 2.
pub fn bound_unbounded_value() -> (r: Value)
    ensures
        r == Value::Compound(
            Box::new(
                Content::Variants(Alt::Tail(Box::new(Alt::Tail(Box::new(Alt::Head(List::Nil)))))),
            ),
        ),
{
    Value::choice(Alt::Tail(Box::new(Alt::Tail(Box::new(Alt::Head(List::Nil))))))
}

/// The descriptor of a bound over the given element type, supplied once
/// for each of the two variants that carry a limit.
pub fn bound_descriptor(included: Descriptor, excluded: Descriptor) -> (d: Descriptor)
    ensures
        is_bound_descriptor(d, included, excluded),
{
    let inc_fields = List::Cons(
        FieldDescriptor::no_default("0".to_owned(), included),
        Box::new(List::Nil),
    );
    let exc_fields = List::Cons(
        FieldDescriptor::no_default("0".to_owned(), excluded),
        Box::new(List::Nil),
    );
    let variants = List::Cons(
        VariantDescriptor::new("Included".to_owned(), inc_fields),
        Box::new(
            List::Cons(
                VariantDescriptor::new("Excluded".to_owned(), exc_fields),
                Box::new(
                    List::Cons(
                        VariantDescriptor::new("Unbounded".to_owned(), List::Nil),
                        Box::new(List::Nil),
                    ),
                ),
            ),
        ),
    );
    Descriptor::Choice { name: "Bound".to_owned(), variants }
}

/// Whether `d` describes a half-open range: a record named `Range` with
/// fields `start` and `end` of the element type (supplied once per
/// field).
pub open spec fn is_range_descriptor(d: Descriptor, start: Descriptor, end: Descriptor) -> bool {
    &&& d matches Descriptor::Record { name, fields }
    &&& name@ == "Range"@
    &&& fields matches List::Cons(startf, r1)
    &&& is_field(startf, "start"@, start)
    &&& (*r1) matches List::Cons(endf, r2)
    &&& is_field(endf, "end"@, end)
    &&& (*r2) is Nil
}

/// The decomposition of a half-open range: its two limits, in declared
/// order.
pub fn range_value(start: Value, end: Value) -> (r: Value)
    ensures
        r == Value::Compound(
            Box::new(Content::Fields(List::Cons(start, Box::new(one_field(end))))),
        ),
{
    Value::record(List::Cons(start, Box::new(List::Cons(end, Box::new(List::Nil)))))
}

/// The descriptor of a half-open range over the given element type,
/// supplied once per field.
pub fn range_descriptor(start: Descriptor, end: Descriptor) -> (d: Descriptor)
    ensures
        is_range_descriptor(d, start, end),
{
    let fields = List::Cons(
        FieldDescriptor::no_default("start".to_owned(), start),
        Box::new(
            List::Cons(
                FieldDescriptor::no_default("end".to_owned(), end),
                Box::new(List::Nil),
            ),
        ),
    );
    Descriptor::Record { name: "Range".to_owned(), fields }
}

/// Whether `d` describes an inclusive range: a record named
/// `RangeInclusive` with fields `start` and `end` of the element type and
/// a boolean field `exhausted`.
pub open spec fn is_range_inclusive_descriptor(
    d: Descriptor,
    start: Descriptor,
    end: Descriptor,
) -> bool {
    &&& d matches Descriptor::Record { name, fields }
    &&& name@ == "RangeInclusive"@
    &&& fields matches List::Cons(startf, r1)
    &&& is_field(startf, "start"@, start)
    &&& (*r1) matches List::Cons(endf, r2)
    &&& is_field(endf, "end"@, end)
    &&& (*r2) matches List::Cons(exf, r3)
    &&& is_field(exf, "exhausted"@, Descriptor::Element(ElementType::Bool))
    &&& (*r3) is Nil
}

/// The decomposition of an inclusive range: its two limits and whether
/// iteration has exhausted it.
pub fn range_inclusive_value(start: Value, end: Value, exhausted: bool) -> (r: Value)
    ensures
        r == Value::Compound(
            Box::new(
                Content::Fields(
                    List::Cons(
                        start,
                        Box::new(
                            List::Cons(end, Box::new(one_field(Value::Element(Element::Bool(exhausted))))),
                        ),
                    ),
                ),
            ),
        ),
{
    Value::record(
        List::Cons(
            start,
            Box::new(
                List::Cons(
                    end,
                    Box::new(
                        List::Cons(Value::Element(Element::Bool(exhausted)), Box::new(List::Nil)),
                    ),
                ),
            ),
        ),
    )
}

/// The descriptor of an inclusive range over the given element type,
/// supplied once per field.
pub fn range_inclusive_descriptor(start: Descriptor, end: Descriptor) -> (d: Descriptor)
    ensures
        is_range_inclusive_descriptor(d, start, end),
{
    let fields = List::Cons(
        FieldDescriptor::no_default("start".to_owned(), start),
        Box::new(
            List::Cons(
                FieldDescriptor::no_default("end".to_owned(), end),
                Box::new(
                    List::Cons(
                        FieldDescriptor::no_default(
                            "exhausted".to_owned(),
                            Descriptor::Element(ElementType::Bool),
                        ),
                        Box::new(List::Nil),
                    ),
                ),
            ),
        ),
    );
    Descriptor::Record { name: "RangeInclusive".to_owned(), fields }
}

/// Whether `d` describes a duration: a record named `Duration` with a
/// 64-bit `secs` field and a 32-bit `nanoseconds` field.
pub open spec fn is_duration_descriptor(d: Descriptor) -> bool {
    &&& d matches Descriptor::Record { name, fields }
    &&& name@ == "Duration"@
    &&& fields matches List::Cons(secsf, r1)
    &&& is_field(secsf, "secs"@, Descriptor::Element(ElementType::UInt64))
    &&& (*r1) matches List::Cons(nanosf, r2)
    &&& is_field(nanosf, "nanoseconds"@, Descriptor::Element(ElementType::UInt32))
    &&& (*r2) is Nil
}

/// The decomposition of a duration: whole seconds, then the subsecond
/// nanoseconds.
pub fn duration_value(secs: u64, nanoseconds: u32) -> (r: Value)
    ensures
        r == Value::Compound(
            Box::new(
                Content::Fields(
                    List::Cons(
                        Value::Element(Element::UInt64(secs)),
                        Box::new(one_field(Value::Element(Element::UInt32(nanoseconds)))),
                    ),
                ),
            ),
        ),
{
    Value::record(
        List::Cons(
            Value::Element(Element::UInt64(secs)),
            Box::new(
                List::Cons(Value::Element(Element::UInt32(nanoseconds)), Box::new(List::Nil)),
            ),
        ),
    )
}

/// The descriptor of a duration.
pub fn duration_descriptor() -> (d: Descriptor)
    ensures
        is_duration_descriptor(d),
{
    let fields = List::Cons(
        FieldDescriptor::no_default("secs".to_owned(), Descriptor::Element(ElementType::UInt64)),
        Box::new(
            List::Cons(
                FieldDescriptor::no_default(
                    "nanoseconds".to_owned(),
                    Descriptor::Element(ElementType::UInt32),
                ),
                Box::new(List::Nil),
            ),
        ),
    );
    Descriptor::Record { name: "Duration".to_owned(), fields }
}

/// The library's own decomposition of a duration: whole seconds and
/// subsecond nanoseconds, as plain values.
pub struct Duration {
    pub secs: u64,
    pub nanoseconds: u32,
}

impl MessageFields for Duration {
    open spec fn is_descriptor(d: Descriptor) -> bool {
        is_duration_descriptor(d)
    }

    open spec fn spec_fields(&self) -> List<Value> {
        List::Cons(
            Value::Element(Element::UInt64(self.secs)),
            Box::new(
                List::Cons(Value::Element(Element::UInt32(self.nanoseconds)), Box::new(List::Nil)),
            ),
        )
    }

    fn descriptor() -> (d: Descriptor) {
        duration_descriptor()
    }

    fn as_fields(&self) -> (fields: List<Value>) {
        List::Cons(
            Value::Element(Element::UInt64(self.secs)),
            Box::new(
                List::Cons(Value::Element(Element::UInt32(self.nanoseconds)), Box::new(List::Nil)),
            ),
        )
    }
}

impl Message for Duration {
    open spec fn spec_name() -> Seq<char> {
        "Duration"@
    }

    fn schema_name() -> (n: String) {
        "Duration".to_owned()
    }
}

} // verus!
