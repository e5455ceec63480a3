//! The generic list backbone of the content model.
//!
//! Both a compound's runtime slots and its static descriptors are held in
//! ordered lists of the same shape, so the two can be walked in lock-step.

use vstd::prelude::*;

verus! {

/// An ordered list of typed slots: the backbone of both content lists and
/// descriptor lists.
pub enum List<T> {
    /// The distinguished terminal: a list with no slots.
    Nil,
    /// A head slot followed by the remaining slots.
    Cons(T, Box<List<T>>),
}

impl<T> List<T> {
    /// The number of slots in the list.
    pub open spec fn len(self) -> nat
        decreases self,
    {
        match self {
            List::Nil => 0,
            List::Cons(_, tail) => 1 + tail.len(),
        }
    }

}

} // verus!
