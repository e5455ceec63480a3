//! Array flavors, forwarding transparency, locks and upstream
//! decompositions.

use std::sync::{Mutex, RwLock};

use cu29_encode::content::{Sigil, Value};
use cu29_encode::descriptor::Descriptor;
use cu29_encode::element::{Element, ElementType};
use cu29_encode::ros2msg::Ros2Msg;
use cu29_encode::type_list::List;
use cu29_encode::upstream::alloc_impls::{entry_descriptor, map_descriptor, map_value};
use cu29_encode::upstream::core_impls::{
    bound_descriptor, bound_excluded_value, bound_included_value, bound_unbounded_value,
    duration_descriptor, duration_value, range_descriptor, range_inclusive_descriptor,
    range_inclusive_value, range_value, result_descriptor, result_value,
};
use cu29_encode::upstream::std_impls::{
    ip_addr_descriptor, ip_addr_v4_value, ipv4_descriptor, ipv4_value, mutex_u32_value,
    rwlock_u32_value, socket_addr_v4_descriptor, socket_addr_v4_value,
};
use cu29_encode::upstream::primitive_impls::{uint8_value, uint32_value};
use cu29_encode::upstream::Entry;
use cu29_encode::ros2msg::schema::FieldType;

fn cons<T>(head: T, tail: List<T>) -> List<T> {
    List::Cons(head, Box::new(tail))
}

fn encode(v: &Value, d: &Descriptor) -> Vec<u8> {
    Ros2Msg::encode_checked(v, d).expect("value and descriptor must be congruent")
}

fn elem(t: ElementType) -> Descriptor {
    Descriptor::Element(t)
}

fn three_bytes() -> List<Value> {
    cons(uint8_value(10), cons(uint8_value(20), cons(uint8_value(30), List::Nil)))
}

#[test]
fn static_array_emits_exactly_its_elements_without_length() {
    let value = Value::static_array(three_bytes());
    let descriptor = Descriptor::Static {
        element: Box::new(elem(ElementType::UInt8)),
        length: 3,
    };
    assert_eq!(encode(&value, &descriptor), vec![10, 20, 30]);

    // A static array of the wrong length is rejected, not padded.
    let short = Descriptor::Static { element: Box::new(elem(ElementType::UInt8)), length: 4 };
    assert!(Ros2Msg::encode_checked(&value, &short).is_none());
}

#[test]
fn bounded_array_emits_count_then_elements_never_the_bound() {
    let value = Value::bounded_array(5, three_bytes());
    let descriptor = Descriptor::Bounded {
        element: Box::new(elem(ElementType::UInt8)),
        bound: 5,
    };
    let mut expected = 3u64.to_le_bytes().to_vec();
    expected.extend_from_slice(&[10, 20, 30]);
    assert_eq!(encode(&value, &descriptor), expected);

    // More populated elements than the bound admits: rejected.
    let tight = Value::bounded_array(2, three_bytes());
    let tight_descriptor = Descriptor::Bounded {
        element: Box::new(elem(ElementType::UInt8)),
        bound: 2,
    };
    assert!(Ros2Msg::encode_checked(&tight, &tight_descriptor).is_none());
}

#[test]
fn unbounded_array_emits_length_prefix_then_elements() {
    let value = Value::unbounded_array(three_bytes());
    let descriptor = Descriptor::Unbounded { element: Box::new(elem(ElementType::UInt8)) };
    let mut expected = 3u64.to_le_bytes().to_vec();
    expected.extend_from_slice(&[10, 20, 30]);
    assert_eq!(encode(&value, &descriptor), expected);

    let empty = Value::unbounded_array(List::Nil);
    assert_eq!(encode(&empty, &descriptor), 0u64.to_le_bytes().to_vec());
}

#[test]
fn forwarding_is_byte_transparent() {
    let plain = uint32_value(7);
    let descriptor = elem(ElementType::UInt32);
    let direct = encode(&plain, &descriptor);

    // A reference-counted handle delegates by borrow to its target.
    let shared = std::rc::Rc::new(7u32);
    let through_rc = Value::forward_ref(uint32_value(*shared));
    assert_eq!(encode(&through_rc, &descriptor), direct);

    // A boxed value, and a copy drawn out of a cell, delegate the same way.
    let boxed = Box::new(7u32);
    let through_box = Value::forward_ref(uint32_value(*boxed));
    assert_eq!(encode(&through_box, &descriptor), direct);

    let cell = std::cell::Cell::new(7u32);
    let through_cell = Value::forward_defer(uint32_value(cell.get()));
    assert_eq!(encode(&through_cell, &descriptor), direct);

    assert_eq!(direct, vec![7, 0, 0, 0]);
}

#[test]
fn mutex_guarded_field_encodes_like_the_plain_value() {
    let guarded = Mutex::new(42u32);
    let value = mutex_u32_value(&guarded);
    let descriptor = elem(ElementType::UInt32);
    assert_eq!(
        encode(&value, &descriptor),
        encode(&uint32_value(42), &descriptor),
    );
    assert_eq!(encode(&value, &descriptor), vec![42, 0, 0, 0]);

    let rw = RwLock::new(42u32);
    let value = rwlock_u32_value(&rw);
    assert_eq!(encode(&value, &descriptor), vec![42, 0, 0, 0]);
}

#[test]
fn classification_is_total_over_the_three_tags() {
    assert!(matches!(uint8_value(1).classify(), Sigil::Element));
    assert!(matches!(
        Value::record(List::Nil).classify(),
        Sigil::Compound
    ));
    assert!(matches!(
        Value::unbounded_array(List::Nil).classify(),
        Sigil::Forwarding
    ));
}

#[test]
fn duration_encodes_seconds_then_nanoseconds() {
    let d = std::time::Duration::new(3, 500);
    let value = duration_value(d.as_secs(), d.subsec_nanos());
    let mut expected = 3u64.to_le_bytes().to_vec();
    expected.extend_from_slice(&500u32.to_le_bytes());
    assert_eq!(encode(&value, &duration_descriptor()), expected);
}

#[test]
fn result_encodes_like_a_two_variant_choice() {
    let descriptor = result_descriptor(elem(ElementType::UInt32), elem(ElementType::UInt8));
    let ok: Result<u32, u8> = Ok(9);
    let value = result_value(match ok {
        Ok(x) => Ok(uint32_value(x)),
        Err(e) => Err(uint8_value(e)),
    });
    assert_eq!(encode(&value, &descriptor), vec![0, 9, 0, 0, 0]);

    let err: Result<u32, u8> = Err(7);
    let value = result_value(match err {
        Ok(x) => Ok(uint32_value(x)),
        Err(e) => Err(uint8_value(e)),
    });
    assert_eq!(encode(&value, &descriptor), vec![1, 7]);
}

#[test]
fn bounds_encode_their_declared_positions() {
    let descriptor = bound_descriptor(elem(ElementType::UInt8), elem(ElementType::UInt8));
    assert_eq!(encode(&bound_included_value(uint8_value(4)), &descriptor), vec![0, 4]);
    assert_eq!(encode(&bound_excluded_value(uint8_value(4)), &descriptor), vec![1, 4]);
    assert_eq!(encode(&bound_unbounded_value(), &descriptor), vec![2]);
}

#[test]
fn ranges_encode_their_fields_in_declared_order() {
    let r = 2u8..5u8;
    let value = range_value(uint8_value(r.start), uint8_value(r.end));
    let descriptor = range_descriptor(elem(ElementType::UInt8), elem(ElementType::UInt8));
    assert_eq!(encode(&value, &descriptor), vec![2, 5]);

    let value = range_inclusive_value(uint8_value(2), uint8_value(5), false);
    let descriptor =
        range_inclusive_descriptor(elem(ElementType::UInt8), elem(ElementType::UInt8));
    assert_eq!(encode(&value, &descriptor), vec![2, 5, 0]);
}

#[test]
fn ip_addresses_encode_as_their_octets() {
    let octets = vec![127, 0, 0, 1];
    let value = ipv4_value(&octets);
    assert_eq!(encode(&value, &ipv4_descriptor()), vec![127, 0, 0, 1]);

    let wrapped = ip_addr_v4_value(ipv4_value(&octets));
    assert_eq!(encode(&wrapped, &ip_addr_descriptor()), vec![0, 127, 0, 0, 1]);
}

#[test]
fn socket_addresses_encode_ip_then_port() {
    let octets = vec![10, 0, 0, 2];
    let value = socket_addr_v4_value(&octets, 0x1F90);
    assert_eq!(
        encode(&value, &socket_addr_v4_descriptor()),
        vec![10, 0, 0, 2, 0x90, 0x1F],
    );
}

#[test]
fn maps_encode_as_unbounded_arrays_of_entries() {
    let mut source = std::collections::BTreeMap::new();
    source.insert(1u8, 0x0100u16);
    source.insert(2u8, 0x0200u16);

    let mut entries = List::Nil;
    for (k, v) in source.iter().rev() {
        entries = cons(
            Entry {
                key: uint8_value(*k),
                val: Value::Element(Element::UInt16(*v)),
            },
            entries,
        );
    }
    let value = map_value(entries);
    let descriptor = map_descriptor(elem(ElementType::UInt8), elem(ElementType::UInt16));

    let mut expected = 2u64.to_le_bytes().to_vec();
    expected.extend_from_slice(&[1, 0x00, 0x01, 2, 0x00, 0x02]);
    assert_eq!(encode(&value, &descriptor), expected);

    // An entry's descriptor by itself describes one key/value record.
    let one = Entry { key: uint8_value(9), val: Value::Element(Element::UInt16(0x0A0B)) };
    let entry_value = cu29_encode::upstream::alloc_impls::entry_value(one);
    assert_eq!(
        encode(&entry_value, &entry_descriptor(elem(ElementType::UInt8), elem(ElementType::UInt16))),
        vec![9, 0x0B, 0x0A],
    );
}

#[test]
fn schema_tags_follow_the_descriptor() {
    assert!(matches!(Ros2Msg::field_type(&elem(ElementType::Bool)), FieldType::Bool));
    assert!(matches!(
        Ros2Msg::field_type(&elem(ElementType::Char)),
        FieldType::BoundedString { bound: 4 },
    ));
    assert!(matches!(Ros2Msg::field_type(&elem(ElementType::Str)), FieldType::String));

    let array = Descriptor::Static { element: Box::new(elem(ElementType::UInt8)), length: 4 };
    match Ros2Msg::field_type(&array) {
        FieldType::StaticArray { elements, length } => {
            assert_eq!(length, 4);
            assert!(matches!(*elements, FieldType::UInt8));
        },
        other => panic!("unexpected field type: {:?}", discriminant_name(&other)),
    }

    match Ros2Msg::field_type(&duration_descriptor()) {
        FieldType::Message { name } => assert_eq!(name, "Duration"),
        _ => panic!("a record must map to a message tag"),
    }
}

fn discriminant_name(_: &cu29_encode::ros2msg::schema::FieldType) -> &'static str {
    "field type"
}
