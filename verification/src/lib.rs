//! Schemaful serialisation of self-describing data.
//!
//! A value that wants to be serialised is decomposed into a uniform
//! *content model*: leaf elements, compounds (records and choices built
//! from ordered lists of typed slots), and forwarding nodes that reuse
//! another value's encoding.  A *descriptor* mirrors the static shape of
//! that decomposition, so that the schema a wire format reports and the
//! bytes it emits can never drift apart.  One concrete wire format, a
//! ROS 2 message style binary codec, is provided.

use vstd::prelude::*;

pub mod content;
pub mod descriptor;
pub mod element;
pub mod forward;
pub mod messages;
pub mod ros2msg;
pub mod type_list;
pub mod upstream;

use crate::content::Value;
use crate::descriptor::{congruent, Descriptor};

verus! {

/// A data format: one pluggable serialisation scheme.
///
/// A format owns a schema alphabet (its field types) and a byte rule for
/// every shape of the content model.  Adding a format means implementing
/// this contract; the content model and its descriptors need no change.
pub trait DataFormat {
    /// Describes any serialised datum's type in this format's schema.
    type FieldType;

    /// The bytes this format assigns to a value under a descriptor.
    spec fn spec_encoded(v: Value, d: Descriptor) -> Seq<u8>;

    /// The schema tag this format assigns to a descriptor.
    spec fn spec_field_type(d: Descriptor) -> Self::FieldType;

    /// Serialises a value whose shape the descriptor describes.
    fn encodable(v: &Value, d: &Descriptor) -> (out: Vec<u8>)
        requires
            congruent(*v, *d),
        ensures
            out@ == Self::spec_encoded(*v, *d),
    ;

    /// Derives the schema tag of a descriptor.
    fn format_type(d: &Descriptor) -> (r: Self::FieldType)
        ensures
            r == Self::spec_field_type(*d),
    ;
}

} // verus!
