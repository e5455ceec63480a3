//! Forwarding: values that reuse another value's encoding.
//!
//! A forwarding value has no encoding rule of its own.  It delegates either
//! to a single target value (by borrow, as [`Ref`], or by owned temporary,
//! as [`Defer`]) or to a sequence of element values (by iteration, as one of
//! the three array flavors).  Delegation is transparent on the wire: a
//! forwarded value encodes byte-identically to its target.

use vstd::prelude::*;

use crate::content::Value;
use crate::type_list::List;

verus! {

/// Delegation by borrow: the target's encoding is reused unchanged.
pub struct Ref {
    pub target: Box<Value>,
}

impl Ref {
    /// Wraps a target value for delegation.
    pub fn new(target: Value) -> (r: Ref)
        ensures
            r.target == target,
    {
        Ref { target: Box::new(target) }
    }
}

/// Delegation by owned temporary: a value computed from the source (a copy
/// out of a cell, a freshly read guard) whose encoding is reused unchanged.
pub struct Defer {
    pub value: Box<Value>,
}

impl Defer {
    /// Wraps an owned temporary for delegation.
    pub fn new(value: Value) -> (r: Defer)
        ensures
            r.value == value,
    {
        Defer { value: Box::new(value) }
    }
}

/// Delegation by iteration over a fixed-length source: exactly as many
/// elements as the length declared by the schema, and no length prefix.
pub struct StaticArray {
    pub data: List<Value>,
}

/// Delegation by iteration over a bounded source: the bound is a property
/// of the schema and governs allocation; the running count of populated
/// elements governs how many are emitted.
pub struct BoundedArray {
    pub bound: usize,
    pub data: List<Value>,
}

/// Delegation by iteration over a growable source: a length prefix, then
/// the elements in iteration order.
pub struct UnboundedArray {
    pub data: List<Value>,
}

impl UnboundedArray {
    /// Wraps the iterated elements, in iteration order.
    pub fn new(data: List<Value>) -> (r: UnboundedArray)
        ensures
            r.data == data,
    {
        UnboundedArray { data }
    }
}

/// The three forwarding strategies, with iteration split by array flavor.
pub enum Forwarding {
    Ref(Ref),
    Defer(Defer),
    Static(StaticArray),
    Bounded(BoundedArray),
    Unbounded(UnboundedArray),
}

impl Value {
    /// A value that delegates by borrow: a reference, smart pointer or
    /// copy-on-write handle reusing its target's encoding.
    pub fn forward_ref(target: Value) -> (r: Value)
        ensures
            r == Value::Forward(Box::new(Forwarding::Ref(Ref { target: Box::new(target) }))),
    {
        Value::Forward(Box::new(Forwarding::Ref(Ref::new(target))))
    }

    /// A value that delegates through an owned temporary: a copy out of a
    /// cell, a freshly read lock guard, a scalar drawn from an atomic.
    pub fn forward_defer(value: Value) -> (r: Value)
        ensures
            r == Value::Forward(Box::new(Forwarding::Defer(Defer { value: Box::new(value) }))),
    {
        Value::Forward(Box::new(Forwarding::Defer(Defer::new(value))))
    }

    /// A fixed-length array value.
    pub fn static_array(data: List<Value>) -> (r: Value)
        ensures
            r == Value::Forward(Box::new(Forwarding::Static(StaticArray { data }))),
    {
        Value::Forward(Box::new(Forwarding::Static(StaticArray { data })))
    }

    /// A bounded array value: at most `bound` elements are populated.
    pub fn bounded_array(bound: usize, data: List<Value>) -> (r: Value)
        ensures
            r == Value::Forward(Box::new(Forwarding::Bounded(BoundedArray { bound, data }))),
    {
        Value::Forward(Box::new(Forwarding::Bounded(BoundedArray { bound, data })))
    }

    /// An unbounded array value: a growable collection's elements, in
    /// iteration order.
    pub fn unbounded_array(data: List<Value>) -> (r: Value)
        ensures
            r == Value::Forward(Box::new(Forwarding::Unbounded(UnboundedArray { data }))),
    {
        Value::Forward(Box::new(Forwarding::Unbounded(UnboundedArray::new(data))))
    }
}

} // verus!
