//! Laws of the ROS 2 message encoding.
//!
//! Each proof function states a property of the wire grammar that holds
//! for every value, not just for chosen test inputs.

use vstd::prelude::*;

use crate::content::{Alt, Content, Value};
use crate::descriptor::{
    congruent, fields_congruent, lemma_discriminant_in_range, variant_congruent, Descriptor,
    FieldDescriptor, VariantDescriptor,
};
use crate::element::{Element, ElementType};
use crate::forward::{BoundedArray, Defer, Forwarding, Ref, StaticArray, UnboundedArray};
use crate::ros2msg::codec::{
    disc_width, encoded, encoded_elements, encoded_fields, encoded_variant, le_bytes,
};
use crate::type_list::List;
use crate::upstream::core_impls::{first_variant, is_option_descriptor, one_field};
use crate::upstream::primitive_impls::byte_elements;
use crate::upstream::std_impls::guarded_u32;

verus! {

/// Determinism: the bytes of a value are a function of the value and its
/// descriptor alone, so encoding twice with unchanged data is
/// byte-identical.
pub proof fn lemma_encode_deterministic(b1: Seq<u8>, b2: Seq<u8>, v: Value, d: Descriptor)
    requires
        b1 == encoded(v, d),
        b2 == encoded(v, d),
    ensures
        b1 == b2,
{
}

/// A record's bytes are its fields' encodings back-to-back, in declared
/// order: no tags, no length prefix, never reordered.
pub proof fn lemma_record_bytes(fields: List<Value>, name: String, ds: List<FieldDescriptor>)
    ensures
        encoded(
            Value::Compound(Box::new(Content::Fields(fields))),
            Descriptor::Record { name, fields: ds },
        ) == encoded_fields(fields, ds),
{
}

/// One step of field emission: the head field's bytes come first, then the
/// remaining fields' bytes.  Reordering declared fields therefore reorders
/// the corresponding byte segments.
pub proof fn lemma_fields_concat(
    v: Value,
    vt: List<Value>,
    fd: FieldDescriptor,
    dt: List<FieldDescriptor>,
)
    ensures
        encoded_fields(List::Cons(v, Box::new(vt)), List::Cons(fd, Box::new(dt))) == encoded(
            v,
            *fd.ty,
        ) + encoded_fields(vt, dt),
{
}

/// A choice's bytes start with the discriminant: the active variant's
/// 0-based declared position, as the smallest unsigned integer width that
/// indexes the declared variants, followed by that variant's own fields.
/// The discriminant always indexes the declared variant list.
pub proof fn lemma_discriminant_emitted_first(
    alt: Alt,
    name: String,
    ds: List<VariantDescriptor>,
)
    requires
        variant_congruent(alt, ds),
    ensures
        encoded(
            Value::Compound(Box::new(Content::Variants(alt))),
            Descriptor::Choice { name, variants: ds },
        ) == le_bytes(alt.depth(), disc_width(ds.len())) + encoded_variant(alt, ds),
        alt.depth() < ds.len(),
{
    lemma_discriminant_in_range(alt, ds);
}

/// A fixed-length array emits exactly its elements, back-to-back, with no
/// length prefix.
pub proof fn lemma_static_array_bytes(data: List<Value>, element: Descriptor, length: usize)
    ensures
        encoded(
            Value::Forward(Box::new(Forwarding::Static(StaticArray { data }))),
            Descriptor::Static { element: Box::new(element), length },
        ) == encoded_elements(data, element),
{
}

/// A bounded array emits the running count of populated elements and then
/// exactly those elements: the bound governs allocation, never emission.
pub proof fn lemma_bounded_array_bytes(
    bound: usize,
    data: List<Value>,
    element: Descriptor,
    declared: usize,
)
    ensures
        encoded(
            Value::Forward(Box::new(Forwarding::Bounded(BoundedArray { bound, data }))),
            Descriptor::Bounded { element: Box::new(element), bound: declared },
        ) == le_bytes(data.len(), 8) + encoded_elements(data, element),
{
}

/// An unbounded array emits a length prefix equal to its element count,
/// then that many elements.
pub proof fn lemma_unbounded_array_bytes(data: List<Value>, element: Descriptor)
    ensures
        encoded(
            Value::Forward(Box::new(Forwarding::Unbounded(UnboundedArray { data }))),
            Descriptor::Unbounded { element: Box::new(element) },
        ) == le_bytes(data.len(), 8) + encoded_elements(data, element),
{
}

/// One step of element emission: the first element's bytes come first,
/// then the remaining elements' bytes.
pub proof fn lemma_elements_concat(v: Value, t: List<Value>, element: Descriptor)
    ensures
        encoded_elements(List::Cons(v, Box::new(t)), element) == encoded(v, element)
            + encoded_elements(t, element),
{
}

/// Forwarding transparency: a value delegated by borrow or by owned
/// temporary encodes byte-identically to its target, and is congruent with
/// exactly the descriptors its target is congruent with.
pub proof fn lemma_forwarding_transparent(v: Value, d: Descriptor)
    ensures
        encoded(Value::Forward(Box::new(Forwarding::Ref(Ref { target: Box::new(v) }))), d)
            == encoded(v, d),
        encoded(Value::Forward(Box::new(Forwarding::Defer(Defer { value: Box::new(v) }))), d)
            == encoded(v, d),
        congruent(
            Value::Forward(Box::new(Forwarding::Ref(Ref { target: Box::new(v) }))),
            d,
        ) == congruent(v, d),
        congruent(
            Value::Forward(Box::new(Forwarding::Defer(Defer { value: Box::new(v) }))),
            d,
        ) == congruent(v, d),
{
}

/// A lock-guarded slot is byte-transparent: once the guarded value has
/// been read, it encodes identically to the plain value.
pub proof fn lemma_lock_field_transparent(x: u32, d: Descriptor)
    ensures
        encoded(guarded_u32(x), d) == encoded(Value::Element(Element::UInt32(x)), d),
{
}

/// A static array of byte elements encodes to exactly those bytes: no
/// prefix, no padding, one byte per element.
pub proof fn lemma_byte_elements_encoded(s: Seq<u8>)
    ensures
        encoded_elements(byte_elements(s), Descriptor::Element(ElementType::UInt8)) == s,
    decreases s.len(),
{
    if s.len() == 0 {
        assert(encoded_elements(byte_elements(s), Descriptor::Element(ElementType::UInt8)) =~= s);
    } else {
        lemma_byte_elements_encoded(s.drop_first());
        let d8 = Descriptor::Element(ElementType::UInt8);
        let head = Value::Element(Element::UInt8(s[0]));
        let tail = byte_elements(s.drop_first());
        assert(byte_elements(s) == List::Cons(head, Box::new(tail)));
        assert(encoded_elements(List::Cons(head, Box::new(tail)), d8) == encoded(head, d8)
            + encoded_elements(tail, d8));
        assert(le_bytes(s[0] as nat, 1) =~= seq![s[0]]) by {
            reveal_with_fuel(le_bytes, 2);
        }
        assert(seq![s[0]] + s.drop_first() =~= s);
    }
}

/// An optional value encodes as its declared discriminant followed by its
/// payload: position 0 and the inner value's bytes when a value is
/// present, position 1 and nothing when it is absent.
pub proof fn lemma_option_encoding(v: Value, d: Descriptor, inner: Descriptor)
    requires
        is_option_descriptor(d, inner),
        congruent(v, inner),
    ensures
        congruent(first_variant(v), d),
        encoded(first_variant(v), d) == le_bytes(0, 1) + encoded(v, inner),
        encoded(
            Value::Compound(Box::new(Content::Variants(Alt::Tail(Box::new(Alt::Head(List::Nil)))))),
            d,
        ) == le_bytes(1, 1),
{
    let variants = d->Choice_variants;
    match variants {
        List::Cons(some_v, r1) => match *r1 {
            List::Cons(none_v, r2) => {
                assert((*r2).len() == 0);
                assert((*r1).len() == 1);
                assert(variants.len() == 2);
                match some_v.fields {
                    List::Cons(f0, fnil) => {
                        assert(*f0.ty == inner);
                        assert(encoded_fields(List::Nil, *fnil) =~= Seq::<u8>::empty());
                        assert(encoded_fields(one_field(v), some_v.fields) == encoded(v, *f0.ty)
                            + encoded_fields(List::Nil, *fnil));
                        assert(encoded_fields(one_field(v), some_v.fields) =~= encoded(v, inner));
                        assert(fields_congruent(List::Nil, *fnil));
                        assert(fields_congruent(one_field(v), some_v.fields));
                        assert(variant_congruent(Alt::Head(one_field(v)), variants));
                        let some_alt = Alt::Head(one_field(v));
                        assert(some_alt.depth() == 0);
                        assert(disc_width(variants.len()) == 1);
                        assert(encoded_variant(some_alt, variants) == encoded_fields(
                            one_field(v),
                            some_v.fields,
                        ));
                        assert(encoded(first_variant(v), d) =~= le_bytes(0, 1) + encoded(
                            v,
                            inner,
                        ));
                        let empty_alt = Alt::Head(List::Nil);
                        assert(empty_alt.depth() == 0);
                        let none_alt = Alt::Tail(Box::new(empty_alt));
                        assert(none_alt.depth() == 1);
                        assert(encoded_fields(List::Nil, none_v.fields) =~= Seq::<u8>::empty());
                        assert(encoded_variant(Alt::Head(List::Nil), *r1) == encoded_fields(
                            List::Nil,
                            none_v.fields,
                        ));
                        assert(encoded_variant(none_alt, variants) =~= Seq::<u8>::empty());
                        assert(encoded(
                            Value::Compound(Box::new(Content::Variants(none_alt))),
                            d,
                        ) =~= le_bytes(1, 1));
                    },
                    List::Nil => {},
                }
            },
            List::Nil => {},
        },
        List::Nil => {},
    }
}

} // verus!
