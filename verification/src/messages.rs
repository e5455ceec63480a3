//! The compound definition protocol: the per-type contract a composite
//! implements to take part in encoding.
//!
//! A type that implements [`MessageFields`] supplies the descriptor shared
//! by all its values and a decomposition of each value into its field
//! list; [`Message`] adds the type's schema name; [`MessageExt`] is blanket
//! implemented and packages the fields as an encodable record.

use vstd::prelude::*;

use crate::content::{Content, Value};
use crate::descriptor::Descriptor;
use crate::type_list::List;

verus! {

/// A composite type that decomposes into a list of fields.
pub trait MessageFields: Sized {
    /// Whether `d` is the descriptor shape of this type: one entry per
    /// declared field, in declared order.
    spec fn is_descriptor(d: Descriptor) -> bool;

    /// The field values a given value decomposes to, in declared order.
    spec fn spec_fields(&self) -> List<Value>;

    /// The type's descriptor, shared by all its values.
    fn descriptor() -> (d: Descriptor)
        ensures
            Self::is_descriptor(d),
    ;

    /// Marshals this value into the list of its fields.
    fn as_fields(&self) -> (fields: List<Value>)
        ensures
            fields == self.spec_fields(),
    ;
}

/// A composite type that also knows its schema name.
pub trait Message: MessageFields {
    /// The name under which the type appears in a schema.
    spec fn spec_name() -> Seq<char>;

    /// The type's schema name.
    fn schema_name() -> (n: String)
        ensures
            n@ == Self::spec_name(),
    ;
}

/// Blanket-implemented access to a message's encodable content.
pub trait MessageExt: Message {
    /// The value this message encodes as: a record of its fields.
    fn as_message(&self) -> (v: Value)
        ensures
            v == Value::Compound(Box::new(Content::Fields(self.spec_fields()))),
    ;
}

impl<M: Message> MessageExt for M {
    fn as_message(&self) -> (v: Value) {
        Value::record(self.as_fields())
    }
}

} // verus!
