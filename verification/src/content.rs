//! The content model: the uniform decomposition of an encodable value.
//!
//! Every value that takes part in encoding is exactly one of three things:
//! a leaf [`Element`], a [`Content`]-bearing compound (a record of fields or
//! a choice among variants), or a [`Forwarding`] node that reuses another
//! value's encoding.  The classification is a total function of the value,
//! which is what lets a wire format route every value through exactly one
//! encoding path.

use vstd::prelude::*;

use crate::element::Element;
use crate::forward::Forwarding;
use crate::type_list::List;

verus! {

/// An encodable value, tagged with its classification.
pub enum Value {
    /// A leaf with a direct, format-supplied encoding rule.
    Element(Element),
    /// A composite that decomposes into an ordered content list.
    Compound(Box<Content>),
    /// A value that reuses another value's encoding.
    Forward(Box<Forwarding>),
}

/// The decomposition of a compound value.
pub enum Content {
    /// A product: all fields of a record, in declared order.
    Fields(List<Value>),
    /// A sum: the active variant of a choice, tagged by position.
    Variants(Alt),
}

/// An alternative list: exactly one alternative is active, and its 0-based
/// position in the list is the value's discriminant.
pub enum Alt {
    /// The current alternative is the active one; it holds the variant's
    /// fields, in declared order.
    Head(List<Value>),
    /// The active alternative lies further along the list.
    Tail(Box<Alt>),
}

/// The closed set of classification tags.  Every encodable value carries
/// exactly one: classification is total and unambiguous.
pub enum Sigil {
    Element,
    Compound,
    Forwarding,
}

impl Value {
    /// The classification tag of this value.
    pub open spec fn sigil(self) -> Sigil {
        match self {
            Value::Element(_) => Sigil::Element,
            Value::Compound(_) => Sigil::Compound,
            Value::Forward(_) => Sigil::Forwarding,
        }
    }

    /// Classifies this value.  Total: every value receives exactly one tag,
    /// so dispatch on the tag can never encounter an unhandled value.
    pub fn classify(&self) -> (s: Sigil)
        ensures
            s == self.sigil(),
    {
        match self {
            Value::Element(_) => Sigil::Element,
            Value::Compound(_) => Sigil::Compound,
            Value::Forward(_) => Sigil::Forwarding,
        }
    }

    /// A record value: a product of fields, in declared order.
    pub fn record(fields: List<Value>) -> (r: Value)
        ensures
            r == Value::Compound(Box::new(Content::Fields(fields))),
    {
        Value::Compound(Box::new(Content::Fields(fields)))
    }

    /// A choice value: the active variant of a sum, tagged by position.
    pub fn choice(alt: Alt) -> (r: Value)
        ensures
            r == Value::Compound(Box::new(Content::Variants(alt))),
    {
        Value::Compound(Box::new(Content::Variants(alt)))
    }
}

impl Alt {
    /// The 0-based position of the active alternative.
    pub open spec fn depth(self) -> nat
        decreases self,
    {
        match self {
            Alt::Head(_) => 0,
            Alt::Tail(rest) => 1 + rest.depth(),
        }
    }

    /// The active alternative's fields.
    pub open spec fn active_fields(self) -> List<Value>
        decreases self,
    {
        match self {
            Alt::Head(fields) => fields,
            Alt::Tail(rest) => rest.active_fields(),
        }
    }

    /// The alternative list whose active alternative sits at the given
    /// 0-based position and holds the given fields.
    pub open spec fn at_position(position: nat, fields: List<Value>) -> Alt
        decreases position,
    {
        if position == 0 {
            Alt::Head(fields)
        } else {
            Alt::Tail(Box::new(Alt::at_position((position - 1) as nat, fields)))
        }
    }

    /// Builds the alternative list for the variant at the given declared
    /// position, holding the given fields.
    pub fn make(position: u64, fields: List<Value>) -> (r: Alt)
        ensures
            r == Alt::at_position(position as nat, fields),
        decreases position,
    {
        if position == 0 {
            Alt::Head(fields)
        } else {
            Alt::Tail(Box::new(Alt::make(position - 1, fields)))
        }
    }

    /// The alternative list built for a position has that position as its
    /// discriminant, and holds exactly the given fields.
    pub proof fn lemma_at_position(position: nat, fields: List<Value>)
        ensures
            Alt::at_position(position, fields).depth() == position,
            Alt::at_position(position, fields).active_fields() == fields,
        decreases position,
    {
        if position > 0 {
            Alt::lemma_at_position((position - 1) as nat, fields);
        }
    }

    /// Walks the alternative list until the active alternative is reached,
    /// counting the depth from `depth` upward: the classic traversal that
    /// computes a sum value's discriminant.
    pub fn calculate_discriminant(&self, depth: u64) -> (d: u64)
        requires
            depth + self.depth() <= u64::MAX,
        ensures
            d == depth + self.depth(),
        decreases *self,
    {
        match self {
            Alt::Head(_) => depth,
            Alt::Tail(rest) => rest.calculate_discriminant(depth + 1),
        }
    }
}

impl Content {
    /// The discriminant of this content: the active variant's position for
    /// a sum, and nothing for a product (a record has no discriminant).
    pub fn discriminant(&self) -> (d: Option<u64>)
        requires
            self matches Content::Variants(alt) ==> alt.depth() <= u64::MAX,
        ensures
            match *self {
                Content::Fields(_) => d is None,
                Content::Variants(alt) => d == Some(alt.depth() as u64),
            },
    {
        match self {
            Content::Fields(_) => None,
            Content::Variants(alt) => Some(alt.calculate_discriminant(0)),
        }
    }
}

} // verus!
