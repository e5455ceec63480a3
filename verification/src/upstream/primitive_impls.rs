//! Element builders for the primitive types, and byte arrays.

use vstd::prelude::*;

use crate::content::Value;
use crate::descriptor::{congruent, elements_congruent, Descriptor};
use crate::element::{Element, ElementType};
use crate::forward::{Forwarding, StaticArray};
use crate::type_list::List;

verus! {

/// The element carrying a `bool`.
pub fn bool_value(b: bool) -> (r: Value)
    ensures
        r == Value::Element(Element::Bool(b)),
{
    Value::Element(Element::Bool(b))
}

/// The element carrying an `i8`.
pub fn int8_value(x: i8) -> (r: Value)
    ensures
        r == Value::Element(Element::Int8(x)),
{
    Value::Element(Element::Int8(x))
}

/// The element carrying a `u8`.
pub fn uint8_value(x: u8) -> (r: Value)
    ensures
        r == Value::Element(Element::UInt8(x)),
{
    Value::Element(Element::UInt8(x))
}

/// The element carrying an `i16`.
pub fn int16_value(x: i16) -> (r: Value)
    ensures
        r == Value::Element(Element::Int16(x)),
{
    Value::Element(Element::Int16(x))
}

/// The element carrying a `u16`.
pub fn uint16_value(x: u16) -> (r: Value)
    ensures
        r == Value::Element(Element::UInt16(x)),
{
    Value::Element(Element::UInt16(x))
}

/// The element carrying an `i32`.
pub fn int32_value(x: i32) -> (r: Value)
    ensures
        r == Value::Element(Element::Int32(x)),
{
    Value::Element(Element::Int32(x))
}

/// The element carrying a `u32`.
pub fn uint32_value(x: u32) -> (r: Value)
    ensures
        r == Value::Element(Element::UInt32(x)),
{
    Value::Element(Element::UInt32(x))
}

/// The element carrying an `i64`.
pub fn int64_value(x: i64) -> (r: Value)
    ensures
        r == Value::Element(Element::Int64(x)),
{
    Value::Element(Element::Int64(x))
}

/// The element carrying a `u64`.
pub fn uint64_value(x: u64) -> (r: Value)
    ensures
        r == Value::Element(Element::UInt64(x)),
{
    Value::Element(Element::UInt64(x))
}

/// The element carrying a 32-bit float, given as its IEEE-754 bit pattern.
pub fn float32_value(bits: u32) -> (r: Value)
    ensures
        r == Value::Element(Element::Float32(bits)),
{
    Value::Element(Element::Float32(bits))
}

/// The element carrying a 64-bit float, given as its IEEE-754 bit pattern.
pub fn float64_value(bits: u64) -> (r: Value)
    ensures
        r == Value::Element(Element::Float64(bits)),
{
    Value::Element(Element::Float64(bits))
}

/// The element carrying a `char`.
pub fn char_value(c: char) -> (r: Value)
    ensures
        r == Value::Element(Element::Char(c)),
{
    Value::Element(Element::Char(c))
}

/// The element carrying text (or a path, or a C string) as its raw bytes.
pub fn text_value(bytes: Vec<u8>) -> (r: Value)
    ensures
        r == Value::Element(Element::Str(bytes)),
{
    Value::Element(Element::Str(bytes))
}

/// The elements of a byte sequence, each as a `u8` leaf, in order.
pub open spec fn byte_elements(s: Seq<u8>) -> List<Value>
    decreases s.len(),
{
    if s.len() == 0 {
        List::Nil
    } else {
        List::Cons(Value::Element(Element::UInt8(s[0])), Box::new(byte_elements(s.drop_first())))
    }
}

/// A fixed-length array value holding the given bytes, one `u8` element
/// per byte: the decomposition of `[u8; N]` and of the octets of an IP
/// address.
pub fn byte_array_value(bytes: &Vec<u8>) -> (r: Value)
    ensures
        r == Value::Forward(
            Box::new(Forwarding::Static(StaticArray { data: byte_elements(bytes@) })),
        ),
{
    let data = byte_elements_from(bytes, 0);
    proof {
        assert(bytes@.subrange(0, bytes@.len() as int) =~= bytes@);
    }
    Value::static_array(data)
}

/// Builds the element list of [`byte_array_value`] from position `i` on.
fn byte_elements_from(bytes: &Vec<u8>, i: usize) -> (r: List<Value>)
    requires
        i <= bytes@.len(),
    ensures
        r == byte_elements(bytes@.subrange(i as int, bytes@.len() as int)),
    decreases bytes@.len() - i,
{
    if i == bytes.len() {
        List::Nil
    } else {
        let head = Value::Element(Element::UInt8(bytes[i]));
        let tail = byte_elements_from(bytes, i + 1);
        proof {
            let s = bytes@.subrange(i as int, bytes@.len() as int);
            assert(s.drop_first() =~= bytes@.subrange(i + 1, bytes@.len() as int));
            assert(s[0] == bytes@[i as int]);
        }
        List::Cons(head, Box::new(tail))
    }
}

/// A byte array's elements are in lock-step with a `u8`-element static
/// array descriptor: one congruent element per byte.
pub proof fn lemma_byte_elements_wf(s: Seq<u8>)
    ensures
        byte_elements(s).len() == s.len(),
        elements_congruent(byte_elements(s), Descriptor::Element(ElementType::UInt8)),
    decreases s.len(),
{
    if s.len() != 0 {
        lemma_byte_elements_wf(s.drop_first());
        assert(congruent(
            Value::Element(Element::UInt8(s[0])),
            Descriptor::Element(ElementType::UInt8),
        ));
        assert(byte_elements(s) == List::Cons(
            Value::Element(Element::UInt8(s[0])),
            Box::new(byte_elements(s.drop_first())),
        ));
    }
}

} // verus!
