//! The schema alphabet of the ROS 2 message format.
//!
//! [`FieldType`] describes any serialised datum's type in the format's
//! schema; [`Ros2Msg::field_type`] derives it from a descriptor, in
//! parallel with the byte encoding, so schema and bytes always describe
//! the same shape.

use vstd::prelude::*;

use crate::descriptor::Descriptor;
use crate::element::ElementType;
use crate::ros2msg::Ros2Msg;

verus! {

/// One tag per representable shape of the format's schema.
pub enum FieldType {
    Bool,
    Byte,
    Char,
    Float32,
    Float64,
    Int8,
    UInt8,
    Int16,
    UInt16,
    Int32,
    UInt32,
    Int64,
    UInt64,
    String,
    WString,
    /// A fixed-length array of `length` elements.
    StaticArray { elements: Box<FieldType>, length: usize },
    /// An array of arbitrarily many elements.
    UnboundedArray { elements: Box<FieldType> },
    /// An array holding at most `bound` elements.
    BoundedArray { elements: Box<FieldType>, bound: usize },
    /// A string of at most `bound` bytes.
    BoundedString { bound: usize },
    /// A nested message, referred to by name.
    Message { name: String },
}

/// The schema tag the format assigns to a descriptor.  A `char` is carried
/// as a bounded string of at most 4 bytes; text is carried as a string;
/// compounds are nested messages known by name.
pub open spec fn field_type_of(d: Descriptor) -> FieldType
    decreases d,
{
    match d {
        Descriptor::Element(t) => match t {
            ElementType::Bool => FieldType::Bool,
            ElementType::Byte => FieldType::Byte,
            ElementType::Char => FieldType::BoundedString { bound: 4 },
            ElementType::Float32 => FieldType::Float32,
            ElementType::Float64 => FieldType::Float64,
            ElementType::Int8 => FieldType::Int8,
            ElementType::UInt8 => FieldType::UInt8,
            ElementType::Int16 => FieldType::Int16,
            ElementType::UInt16 => FieldType::UInt16,
            ElementType::Int32 => FieldType::Int32,
            ElementType::UInt32 => FieldType::UInt32,
            ElementType::Int64 => FieldType::Int64,
            ElementType::UInt64 => FieldType::UInt64,
            ElementType::Str => FieldType::String,
        },
        Descriptor::Record { name, .. } => FieldType::Message { name },
        Descriptor::Choice { name, .. } => FieldType::Message { name },
        Descriptor::Static { element, length } => FieldType::StaticArray {
            elements: Box::new(field_type_of(*element)),
            length,
        },
        Descriptor::Bounded { element, bound } => FieldType::BoundedArray {
            elements: Box::new(field_type_of(*element)),
            bound,
        },
        Descriptor::Unbounded { element } => FieldType::UnboundedArray {
            elements: Box::new(field_type_of(*element)),
        },
    }
}

impl Ros2Msg {
    /// Derives the schema tag of a descriptor.
    pub fn field_type(d: &Descriptor) -> (r: FieldType)
        ensures
            r == field_type_of(*d),
        decreases *d,
    {
        match d {
            Descriptor::Element(t) => match t {
                ElementType::Bool => FieldType::Bool,
                ElementType::Byte => FieldType::Byte,
                ElementType::Char => FieldType::BoundedString { bound: 4 },
                ElementType::Float32 => FieldType::Float32,
                ElementType::Float64 => FieldType::Float64,
                ElementType::Int8 => FieldType::Int8,
                ElementType::UInt8 => FieldType::UInt8,
                ElementType::Int16 => FieldType::Int16,
                ElementType::UInt16 => FieldType::UInt16,
                ElementType::Int32 => FieldType::Int32,
                ElementType::UInt32 => FieldType::UInt32,
                ElementType::Int64 => FieldType::Int64,
                ElementType::UInt64 => FieldType::UInt64,
                ElementType::Str => FieldType::String,
            },
            Descriptor::Record { name, .. } => FieldType::Message { name: name.clone() },
            Descriptor::Choice { name, .. } => FieldType::Message { name: name.clone() },
            Descriptor::Static { element, length } => FieldType::StaticArray {
                elements: Box::new(Ros2Msg::field_type(element)),
                length: *length,
            },
            Descriptor::Bounded { element, bound } => FieldType::BoundedArray {
                elements: Box::new(Ros2Msg::field_type(element)),
                bound: *bound,
            },
            Descriptor::Unbounded { element } => FieldType::UnboundedArray {
                elements: Box::new(Ros2Msg::field_type(element)),
            },
        }
    }
}

} // verus!
