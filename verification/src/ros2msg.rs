//! A wire format in the style of ROS 2 messages.
//!
//! [`Ros2Msg`] is the format's selector type: it owns a schema alphabet
//! (the [`FieldType`] enumeration) and a byte-encoding rule for every
//! element kind, array flavor and compound shape of the content model.
//!
//! [`FieldType`]: schema::FieldType

use vstd::prelude::*;

pub mod codec;
pub mod format;
pub mod laws;
pub mod schema;

use crate::content::Value;
use crate::descriptor::Descriptor;
use crate::DataFormat;

verus! {

/// The ROS 2 message wire format: a stateless, compile-time selector for
/// one serialisation scheme.
pub struct Ros2Msg;

impl DataFormat for Ros2Msg {
    type FieldType = schema::FieldType;

    open spec fn spec_encoded(v: Value, d: Descriptor) -> Seq<u8> {
        codec::encoded(v, d)
    }

    open spec fn spec_field_type(d: Descriptor) -> schema::FieldType {
        schema::field_type_of(d)
    }

    fn encodable(v: &Value, d: &Descriptor) -> (out: Vec<u8>) {
        Ros2Msg::encode(v, d)
    }

    fn format_type(d: &Descriptor) -> (r: schema::FieldType) {
        Ros2Msg::field_type(d)
    }
}

/// A named constant of the schema: a name bound to a fixed value.
pub struct Constant {
    pub name: String,
    pub value: Value,
}

} // verus!
