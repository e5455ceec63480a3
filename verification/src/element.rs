//! Leaf values of the content model.
//!
//! An element is a value with no further decomposition: a wire format must
//! supply a direct encoding rule for each element kind it supports.

use vstd::prelude::*;

verus! {

/// A leaf value.  Floating-point slots carry their IEEE-754 bit pattern,
/// so that the encoding rules are stated over plain integers; text carries
/// its raw (UTF-8) bytes.
pub enum Element {
    Bool(bool),
    Byte(u8),
    Char(char),
    Float32(u32),
    Float64(u64),
    Int8(i8),
    UInt8(u8),
    Int16(i16),
    UInt16(u16),
    Int32(i32),
    UInt32(u32),
    Int64(i64),
    UInt64(u64),
    Str(Vec<u8>),
}

/// The closed alphabet of leaf kinds: the element side of a descriptor.
pub enum ElementType {
    Bool,
    Byte,
    Char,
    Float32,
    Float64,
    Int8,
    UInt8,
    Int16,
    UInt16,
    Int32,
    UInt32,
    Int64,
    UInt64,
    Str,
}

/// Whether the element `e` is a value of leaf kind `t`.  Text must in
/// addition be short enough for its length prefix to fit in the format's
/// length word.
pub open spec fn element_matches(e: Element, t: ElementType) -> bool {
    match (e, t) {
        (Element::Bool(_), ElementType::Bool) => true,
        (Element::Byte(_), ElementType::Byte) => true,
        (Element::Char(_), ElementType::Char) => true,
        (Element::Float32(_), ElementType::Float32) => true,
        (Element::Float64(_), ElementType::Float64) => true,
        (Element::Int8(_), ElementType::Int8) => true,
        (Element::UInt8(_), ElementType::UInt8) => true,
        (Element::Int16(_), ElementType::Int16) => true,
        (Element::UInt16(_), ElementType::UInt16) => true,
        (Element::Int32(_), ElementType::Int32) => true,
        (Element::UInt32(_), ElementType::UInt32) => true,
        (Element::Int64(_), ElementType::Int64) => true,
        (Element::UInt64(_), ElementType::UInt64) => true,
        (Element::Str(bytes), ElementType::Str) => bytes@.len() <= u64::MAX,
        _ => false,
    }
}

/// Decides [`element_matches`]: the leaf step of walking a value and a
/// descriptor in lock-step.
pub fn check_element(e: &Element, t: &ElementType) -> (r: bool)
    ensures
        r == element_matches(*e, *t),
{
    match (e, t) {
        (Element::Bool(_), ElementType::Bool) => true,
        (Element::Byte(_), ElementType::Byte) => true,
        (Element::Char(_), ElementType::Char) => true,
        (Element::Float32(_), ElementType::Float32) => true,
        (Element::Float64(_), ElementType::Float64) => true,
        (Element::Int8(_), ElementType::Int8) => true,
        (Element::UInt8(_), ElementType::UInt8) => true,
        (Element::Int16(_), ElementType::Int16) => true,
        (Element::UInt16(_), ElementType::UInt16) => true,
        (Element::Int32(_), ElementType::Int32) => true,
        (Element::UInt32(_), ElementType::UInt32) => true,
        (Element::Int64(_), ElementType::Int64) => true,
        (Element::UInt64(_), ElementType::UInt64) => true,
        (Element::Str(bytes), ElementType::Str) => {
            let n: usize = bytes.len();
            n as u64 <= u64::MAX
        },
        _ => false,
    }
}

} // verus!
