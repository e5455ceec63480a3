//! Descriptors: the static shape of a content model, and congruence.
//!
//! A descriptor mirrors a content list structurally: a record's descriptor
//! lists one [`FieldDescriptor`] per field, a choice's descriptor lists one
//! [`VariantDescriptor`] per declared variant, and array descriptors carry
//! their element's descriptor.  [`congruent`] is the framework's coherence
//! relation: the descriptor a format consumes for schema and the content it
//! consumes for bytes describe the same shape.

use vstd::prelude::*;

use crate::content::{Alt, Content, Value};
use crate::element::{element_matches, check_element, ElementType};
use crate::forward::Forwarding;
use crate::type_list::List;

verus! {

/// Static metadata for one field: its name, its type's descriptor, and an
/// optional default value.
pub struct FieldDescriptor {
    pub name: String,
    pub ty: Box<Descriptor>,
    pub default: Option<Value>,
}

impl FieldDescriptor {
    /// A field descriptor without a default value.
    pub fn no_default(name: String, ty: Descriptor) -> (r: FieldDescriptor)
        ensures
            r.name == name,
            *r.ty == ty,
            r.default is None,
    {
        FieldDescriptor { name, ty: Box::new(ty), default: None }
    }
}

/// Static metadata for one variant of a choice: its name and the
/// descriptors of its fields.
pub struct VariantDescriptor {
    pub name: String,
    pub fields: List<FieldDescriptor>,
}

impl VariantDescriptor {
    /// A variant descriptor from its name and field descriptors.
    pub fn new(name: String, fields: List<FieldDescriptor>) -> (r: VariantDescriptor)
        ensures
            r.name == name,
            r.fields == fields,
    {
        VariantDescriptor { name, fields }
    }
}

/// The static shape of an encodable value.  Forwarding by borrow or owned
/// temporary is transparent here: a forwarded value is described by its
/// target's descriptor.
pub enum Descriptor {
    /// A leaf of the given kind.
    Element(ElementType),
    /// A named record: a product of fields, in declared order.
    Record { name: String, fields: List<FieldDescriptor> },
    /// A named choice: a sum of variants, in declared order.
    Choice { name: String, variants: List<VariantDescriptor> },
    /// A fixed-length array of `length` elements.
    Static { element: Box<Descriptor>, length: usize },
    /// An array holding at most `bound` elements.
    Bounded { element: Box<Descriptor>, bound: usize },
    /// An array of arbitrarily many elements.
    Unbounded { element: Box<Descriptor> },
}

/// Whether value `v` has the shape described by `d`: same classification,
/// same arity and nesting at every level.  Counts and lengths that the wire
/// format emits as a 64-bit word must fit it.
pub open spec fn congruent(v: Value, d: Descriptor) -> bool
    decreases v,
{
    match v {
        Value::Element(e) => d matches Descriptor::Element(t) && element_matches(e, t),
        Value::Compound(c) => match *c {
            Content::Fields(fields) => d matches Descriptor::Record { fields: ds, .. }
                && fields_congruent(fields, ds),
            Content::Variants(alt) => d matches Descriptor::Choice { variants: ds, .. }
                && ds.len() <= u64::MAX && variant_congruent(alt, ds),
        },
        Value::Forward(f) => match *f {
            Forwarding::Ref(r) => congruent(*r.target, d),
            Forwarding::Defer(w) => congruent(*w.value, d),
            Forwarding::Static(a) => d matches Descriptor::Static { element, length }
                && a.data.len() == length && elements_congruent(a.data, *element),
            Forwarding::Bounded(a) => d matches Descriptor::Bounded { element, bound }
                && a.bound == bound && a.data.len() <= bound
                && elements_congruent(a.data, *element),
            Forwarding::Unbounded(a) => d matches Descriptor::Unbounded { element }
                && a.data.len() <= u64::MAX && elements_congruent(a.data, *element),
        },
    }
}

/// Whether a list of field values matches a list of field descriptors:
/// equal length, and each value congruent with its descriptor's type.
pub open spec fn fields_congruent(vs: List<Value>, ds: List<FieldDescriptor>) -> bool
    decreases vs,
{
    match (vs, ds) {
        (List::Nil, List::Nil) => true,
        (List::Cons(v, vt), List::Cons(fd, dt)) => congruent(v, *fd.ty)
            && fields_congruent(*vt, *dt),
        _ => false,
    }
}

/// Whether the active alternative lies within the declared variant list
/// and its fields match that variant's field descriptors.
pub open spec fn variant_congruent(alt: Alt, ds: List<VariantDescriptor>) -> bool
    decreases alt,
{
    match alt {
        Alt::Head(fields) => ds matches List::Cons(vd, _) && fields_congruent(fields, vd.fields),
        Alt::Tail(rest) => ds matches List::Cons(_, dt) && variant_congruent(*rest, *dt),
    }
}

/// Whether every element of an array matches the array's element
/// descriptor.
pub open spec fn elements_congruent(vs: List<Value>, d: Descriptor) -> bool
    decreases vs,
{
    match vs {
        List::Nil => true,
        List::Cons(v, t) => congruent(v, d) && elements_congruent(*t, d),
    }
}

/// An active variant always lies within the declared variant list: its
/// discriminant indexes that list.
pub proof fn lemma_discriminant_in_range(alt: Alt, ds: List<VariantDescriptor>)
    requires
        variant_congruent(alt, ds),
    ensures
        alt.depth() < ds.len(),
    decreases alt,
{
    match alt {
        Alt::Head(_) => {},
        Alt::Tail(rest) => {
            match ds {
                List::Cons(_, dt) => lemma_discriminant_in_range(*rest, *dt),
                List::Nil => {},
            }
        },
    }
}

/// Congruent record content has exactly as many field values as its
/// descriptor has field descriptors: the two shapes agree in arity at
/// every level of the walk.
pub proof fn lemma_fields_congruent_same_arity(vs: List<Value>, ds: List<FieldDescriptor>)
    requires
        fields_congruent(vs, ds),
    ensures
        vs.len() == ds.len(),
    decreases vs,
{
    match (vs, ds) {
        (List::Cons(_, vt), List::Cons(_, dt)) => lemma_fields_congruent_same_arity(*vt, *dt),
        _ => {},
    }
}

/// Decides whether a variant descriptor list has at most `budget` entries.
fn variants_within(ds: &List<VariantDescriptor>, budget: u64) -> (r: bool)
    ensures
        r == (ds.len() <= budget),
    decreases *ds,
{
    match ds {
        List::Nil => true,
        List::Cons(_, dt) => {
            if budget == 0 {
                false
            } else {
                variants_within(dt, budget - 1)
            }
        },
    }
}

/// Decides [`congruent`] by walking the value and the descriptor in
/// lock-step, confirming matching classification and equal arity at every
/// level.
pub fn check_congruent(v: &Value, d: &Descriptor) -> (r: bool)
    ensures
        r == congruent(*v, *d),
    decreases *v,
{
    match v {
        Value::Element(e) => match d {
            Descriptor::Element(t) => check_element(e, t),
            _ => false,
        },
        Value::Compound(c) => match (&**c, d) {
            (Content::Fields(fields), Descriptor::Record { fields: ds, .. }) => {
                check_fields_congruent(fields, ds)
            },
            (Content::Variants(alt), Descriptor::Choice { variants: ds, .. }) => {
                variants_within(ds, u64::MAX) && check_variant_congruent(alt, ds)
            },
            _ => false,
        },
        Value::Forward(f) => match &**f {
            Forwarding::Ref(r) => check_congruent(&r.target, d),
            Forwarding::Defer(w) => check_congruent(&w.value, d),
            Forwarding::Static(a) => match d {
                Descriptor::Static { element, length } => {
                    check_elements_len(&a.data, element, *length)
                },
                _ => false,
            },
            Forwarding::Bounded(a) => match d {
                Descriptor::Bounded { element, bound } => {
                    a.bound == *bound && check_elements_bounded(&a.data, element, *bound)
                },
                _ => false,
            },
            Forwarding::Unbounded(a) => match d {
                Descriptor::Unbounded { element } => {
                    check_elements_unbounded(&a.data, element, u64::MAX)
                },
                _ => false,
            },
        },
    }
}

/// Decides [`fields_congruent`].
pub fn check_fields_congruent(vs: &List<Value>, ds: &List<FieldDescriptor>) -> (r: bool)
    ensures
        r == fields_congruent(*vs, *ds),
    decreases *vs,
{
    match (vs, ds) {
        (List::Nil, List::Nil) => true,
        (List::Cons(v, vt), List::Cons(fd, dt)) => {
            check_congruent(v, &fd.ty) && check_fields_congruent(vt, dt)
        },
        _ => false,
    }
}

/// Decides [`variant_congruent`].
pub fn check_variant_congruent(alt: &Alt, ds: &List<VariantDescriptor>) -> (r: bool)
    ensures
        r == variant_congruent(*alt, *ds),
    decreases *alt,
{
    match alt {
        Alt::Head(fields) => match ds {
            List::Cons(vd, _) => check_fields_congruent(fields, &vd.fields),
            List::Nil => false,
        },
        Alt::Tail(rest) => match ds {
            List::Cons(_, dt) => check_variant_congruent(rest, dt),
            List::Nil => false,
        },
    }
}

/// Decides [`elements_congruent`] together with an exact length.
fn check_elements_len(vs: &List<Value>, d: &Descriptor, length: usize) -> (r: bool)
    ensures
        r == (vs.len() == length && elements_congruent(*vs, *d)),
    decreases *vs,
{
    match vs {
        List::Nil => length == 0,
        List::Cons(v, t) => {
            if length == 0 {
                false
            } else {
                check_congruent(v, d) && check_elements_len(t, d, length - 1)
            }
        },
    }
}

/// Decides [`elements_congruent`] together with a length bound.
fn check_elements_bounded(vs: &List<Value>, d: &Descriptor, bound: usize) -> (r: bool)
    ensures
        r == (vs.len() <= bound && elements_congruent(*vs, *d)),
    decreases *vs,
{
    match vs {
        List::Nil => true,
        List::Cons(v, t) => {
            if bound == 0 {
                false
            } else {
                check_congruent(v, d) && check_elements_bounded(t, d, bound - 1)
            }
        },
    }
}

/// Decides [`elements_congruent`] together with a 64-bit length budget.
fn check_elements_unbounded(vs: &List<Value>, d: &Descriptor, budget: u64) -> (r: bool)
    ensures
        r == (vs.len() <= budget && elements_congruent(*vs, *d)),
    decreases *vs,
{
    match vs {
        List::Nil => true,
        List::Cons(v, t) => {
            if budget == 0 {
                false
            } else {
                check_congruent(v, d) && check_elements_unbounded(t, d, budget - 1)
            }
        },
    }
}

} // verus!
