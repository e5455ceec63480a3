//! Decompositions of growable collections: maps as unbounded arrays of
//! key/value entries, and sets and sequences as unbounded arrays of their
//! elements.

use vstd::prelude::*;

use crate::content::{Content, Value};
use crate::descriptor::{
    congruent, elements_congruent, fields_congruent, Descriptor, FieldDescriptor,
};
use crate::forward::{Forwarding, UnboundedArray};
use crate::type_list::List;
use crate::upstream::core_impls::is_field;
use crate::upstream::Entry;

verus! {

/// The record an entry decomposes to: its key, then its value.
pub open spec fn entry_record(e: Entry) -> Value {
    Value::Compound(
        Box::new(
            Content::Fields(List::Cons(e.key, Box::new(List::Cons(e.val, Box::new(List::Nil))))),
        ),
    )
}

/// The decomposition of one map entry.
pub fn entry_value(e: Entry) -> (r: Value)
    ensures
        r == entry_record(e),
{
    let Entry { key, val } = e;
    Value::record(List::Cons(key, Box::new(List::Cons(val, Box::new(List::Nil)))))
}

/// Whether `d` describes a map entry: a record named `Entry` with a `key`
/// field and a `val` field of the given types.
pub open spec fn is_entry_descriptor(d: Descriptor, key: Descriptor, val: Descriptor) -> bool {
    &&& d matches Descriptor::Record { name, fields }
    &&& name@ == "Entry"@
    &&& fields matches List::Cons(keyf, r1)
    &&& is_field(keyf, "key"@, key)
    &&& (*r1) matches List::Cons(valf, r2)
    &&& is_field(valf, "val"@, val)
    &&& (*r2) is Nil
}

/// The descriptor of a map entry with the given key and value types.
pub fn entry_descriptor(key: Descriptor, val: Descriptor) -> (d: Descriptor)
    ensures
        is_entry_descriptor(d, key, val),
{
    let fields = List::Cons(
        FieldDescriptor::no_default("key".to_owned(), key),
        Box::new(
            List::Cons(FieldDescriptor::no_default("val".to_owned(), val), Box::new(List::Nil)),
        ),
    );
    Descriptor::Record { name: "Entry".to_owned(), fields }
}

/// The records of a list of entries, in iteration order.
pub open spec fn entry_records(es: List<Entry>) -> List<Value>
    decreases es,
{
    match es {
        List::Nil => List::Nil,
        List::Cons(e, t) => List::Cons(entry_record(e), Box::new(entry_records(*t))),
    }
}

/// The decomposition of a map (or any keyed collection): an unbounded
/// array of its entries' records, in the order the entries were handed
/// over, which is the container's native iteration order.
pub fn map_value(entries: List<Entry>) -> (r: Value)
    ensures
        r == Value::Forward(
            Box::new(Forwarding::Unbounded(UnboundedArray { data: entry_records(entries) })),
        ),
{
    let data = entries_to_records(entries);
    Value::unbounded_array(data)
}

/// Builds [`entry_records`].
fn entries_to_records(es: List<Entry>) -> (r: List<Value>)
    ensures
        r == entry_records(es),
    decreases es,
{
    match es {
        List::Nil => List::Nil,
        List::Cons(e, t) => List::Cons(entry_value(e), Box::new(entries_to_records(*t))),
    }
}

/// The descriptor of a map with the given key and value types.
pub fn map_descriptor(key: Descriptor, val: Descriptor) -> (d: Descriptor)
    ensures
        d matches Descriptor::Unbounded { element } && is_entry_descriptor(*element, key, val),
{
    Descriptor::Unbounded { element: Box::new(entry_descriptor(key, val)) }
}

/// Whether every entry's key and value match the given key and value
/// descriptors.
pub open spec fn entries_congruent(es: List<Entry>, key: Descriptor, val: Descriptor) -> bool
    decreases es,
{
    match es {
        List::Nil => true,
        List::Cons(e, t) => congruent(e.key, key) && congruent(e.val, val) && entries_congruent(
            *t,
            key,
            val,
        ),
    }
}

/// Entry records inherit congruence from their keys and values: a list of
/// congruent entries yields one congruent record per entry.
pub proof fn lemma_entry_records_congruent(
    es: List<Entry>,
    key: Descriptor,
    val: Descriptor,
    ed: Descriptor,
)
    requires
        is_entry_descriptor(ed, key, val),
        entries_congruent(es, key, val),
    ensures
        elements_congruent(entry_records(es), ed),
        entry_records(es).len() == es.len(),
    decreases es,
{
    match es {
        List::Nil => {},
        List::Cons(e, t) => {
            lemma_entry_records_congruent(*t, key, val, ed);
            let fds = ed->Record_fields;
            match fds {
                List::Cons(keyf, r1) => match *r1 {
                    List::Cons(valf, r2) => {
                        assert(fields_congruent(List::Nil, *r2));
                        assert(fields_congruent(
                            List::Cons(e.val, Box::new(List::Nil)),
                            List::Cons(valf, r2),
                        ));
                        assert(fields_congruent(
                            List::Cons(e.key, Box::new(List::Cons(e.val, Box::new(List::Nil)))),
                            fds,
                        ));
                        assert(congruent(entry_record(e), ed));
                    },
                    _ => {},
                },
                _ => {},
            }
        },
    }
}

/// A map value is congruent with a map descriptor of the same key and
/// value types whenever its entries are, and it holds few enough entries
/// for the length prefix.
pub proof fn lemma_map_value_congruent(
    es: List<Entry>,
    key: Descriptor,
    val: Descriptor,
    d: Descriptor,
)
    requires
        d matches Descriptor::Unbounded { element } && is_entry_descriptor(*element, key, val),
        entries_congruent(es, key, val),
        es.len() <= u64::MAX,
    ensures
        congruent(
            Value::Forward(
                Box::new(Forwarding::Unbounded(UnboundedArray { data: entry_records(es) })),
            ),
            d,
        ),
{
    let element = d->Unbounded_element;
    lemma_entry_records_congruent(es, key, val, *element);
}

} // verus!
