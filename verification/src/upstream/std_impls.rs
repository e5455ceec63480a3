//! Decompositions of further standard types: network addresses and
//! synchronisation-wrapped slots.

use vstd::prelude::*;

use crate::content::{Alt, Content, Value};
use crate::descriptor::{Descriptor, FieldDescriptor, VariantDescriptor};
use crate::element::{Element, ElementType};
use crate::forward::{Defer, Forwarding, StaticArray};
use crate::type_list::List;
use crate::upstream::core_impls::{first_variant, is_field, second_variant};
use crate::upstream::primitive_impls::{byte_array_value, byte_elements};

verus! {

/// An address given as its octets: an owned temporary delegating to a
/// fixed-length array of `u8` elements.
pub open spec fn octets_value(s: Seq<u8>) -> Value {
    Value::Forward(
        Box::new(
            Forwarding::Defer(
                Defer {
                    value: Box::new(
                        Value::Forward(
                            Box::new(Forwarding::Static(StaticArray { data: byte_elements(s) })),
                        ),
                    ),
                },
            ),
        ),
    )
}

/// The decomposition of an IPv4 address from its four octets.
pub fn ipv4_value(octets: &Vec<u8>) -> (r: Value)
    requires
        octets@.len() == 4,
    ensures
        r == octets_value(octets@),
{
    Value::forward_defer(byte_array_value(octets))
}

/// The decomposition of an IPv6 address from its sixteen octets.
pub fn ipv6_value(octets: &Vec<u8>) -> (r: Value)
    requires
        octets@.len() == 16,
    ensures
        r == octets_value(octets@),
{
    Value::forward_defer(byte_array_value(octets))
}

/// The descriptor of an IPv4 address: a fixed-length array of 4 bytes.
pub fn ipv4_descriptor() -> (d: Descriptor)
    ensures
        d == (Descriptor::Static {
            element: Box::new(Descriptor::Element(ElementType::UInt8)),
            length: 4usize,
        }),
{
    Descriptor::Static { element: Box::new(Descriptor::Element(ElementType::UInt8)), length: 4 }
}

/// The descriptor of an IPv6 address: a fixed-length array of 16 bytes.
pub fn ipv6_descriptor() -> (d: Descriptor)
    ensures
        d == (Descriptor::Static {
            element: Box::new(Descriptor::Element(ElementType::UInt8)),
            length: 16usize,
        }),
{
    Descriptor::Static { element: Box::new(Descriptor::Element(ElementType::UInt8)), length: 16 }
}

/// The decomposition of an IP address holding a V4 address: the variant
/// at position 0.
pub fn ip_addr_v4_value(inner: Value) -> (r: Value)
    ensures
        r == first_variant(inner),
{
    Value::choice(Alt::Head(List::Cons(inner, Box::new(List::Nil))))
}

/// The decomposition of an IP address holding a V6 address: the variant
/// at position 1.
pub fn ip_addr_v6_value(inner: Value) -> (r: Value)
    ensures
        r == second_variant(inner),
{
    Value::choice(Alt::Tail(Box::new(Alt::Head(List::Cons(inner, Box::new(List::Nil))))))
}

/// Whether `d` describes an IP address: a choice named `IpAddr` whose
/// variants `V4` and `V6` each hold one address field.
pub open spec fn is_ip_addr_descriptor(d: Descriptor) -> bool {
    &&& d matches Descriptor::Choice { name, variants }
    &&& name@ == "IpAddr"@
    &&& variants matches List::Cons(v4, r1)
    &&& v4.name@ == "V4"@
    &&& v4.fields matches List::Cons(f4, f4nil)
    &&& is_field(
        f4,
        "0"@,
        Descriptor::Static { element: Box::new(Descriptor::Element(ElementType::UInt8)), length: 4usize },
    )
    &&& (*f4nil) is Nil
    &&& (*r1) matches List::Cons(v6, r2)
    &&& v6.name@ == "V6"@
    &&& v6.fields matches List::Cons(f6, f6nil)
    &&& is_field(
        f6,
        "0"@,
        Descriptor::Static { element: Box::new(Descriptor::Element(ElementType::UInt8)), length: 16usize },
    )
    &&& (*f6nil) is Nil
    &&& (*r2) is Nil
}

/// The descriptor of an IP address.
pub fn ip_addr_descriptor() -> (d: Descriptor)
    ensures
        is_ip_addr_descriptor(d),
{
    let v4_fields = List::Cons(
        FieldDescriptor::no_default("0".to_owned(), ipv4_descriptor()),
        Box::new(List::Nil),
    );
    let v6_fields = List::Cons(
        FieldDescriptor::no_default("0".to_owned(), ipv6_descriptor()),
        Box::new(List::Nil),
    );
    let variants = List::Cons(
        VariantDescriptor::new("V4".to_owned(), v4_fields),
        Box::new(
            List::Cons(VariantDescriptor::new("V6".to_owned(), v6_fields), Box::new(List::Nil)),
        ),
    );
    Descriptor::Choice { name: "IpAddr".to_owned(), variants }
}

/// The decomposition of a V4 socket address: its IP address, then its
/// port, in declared order.
pub fn socket_addr_v4_value(ip: &Vec<u8>, port: u16) -> (r: Value)
    requires
        ip@.len() == 4,
    ensures
        r == Value::Compound(
            Box::new(
                Content::Fields(
                    List::Cons(
                        octets_value(ip@),
                        Box::new(
                            List::Cons(
                                Value::Element(Element::UInt16(port)),
                                Box::new(List::Nil),
                            ),
                        ),
                    ),
                ),
            ),
        ),
{
    Value::record(
        List::Cons(
            ipv4_value(ip),
            Box::new(List::Cons(Value::Element(Element::UInt16(port)), Box::new(List::Nil))),
        ),
    )
}

/// Whether `d` describes a V4 socket address: a record named
/// `SocketAddrV4` with an `ip` field and a `port` field.
pub open spec fn is_socket_addr_v4_descriptor(d: Descriptor) -> bool {
    &&& d matches Descriptor::Record { name, fields }
    &&& name@ == "SocketAddrV4"@
    &&& fields matches List::Cons(ipf, r1)
    &&& is_field(
        ipf,
        "ip"@,
        Descriptor::Static { element: Box::new(Descriptor::Element(ElementType::UInt8)), length: 4usize },
    )
    &&& (*r1) matches List::Cons(portf, r2)
    &&& is_field(portf, "port"@, Descriptor::Element(ElementType::UInt16))
    &&& (*r2) is Nil
}

/// The descriptor of a V4 socket address.
pub fn socket_addr_v4_descriptor() -> (d: Descriptor)
    ensures
        is_socket_addr_v4_descriptor(d),
{
    let fields = List::Cons(
        FieldDescriptor::no_default("ip".to_owned(), ipv4_descriptor()),
        Box::new(
            List::Cons(
                FieldDescriptor::no_default("port".to_owned(), Descriptor::Element(ElementType::UInt16)),
                Box::new(List::Nil),
            ),
        ),
    );
    Descriptor::Record { name: "SocketAddrV4".to_owned(), fields }
}

/// The decomposition of a V6 socket address: its IP address, port, flow
/// information and scope identifier, in declared order.
pub fn socket_addr_v6_value(ip: &Vec<u8>, port: u16, flowinfo: u32, scope_id: u32) -> (r: Value)
    requires
        ip@.len() == 16,
    ensures
        r == Value::Compound(
            Box::new(
                Content::Fields(
                    List::Cons(
                        octets_value(ip@),
                        Box::new(
                            List::Cons(
                                Value::Element(Element::UInt16(port)),
                                Box::new(
                                    List::Cons(
                                        Value::Element(Element::UInt32(flowinfo)),
                                        Box::new(
                                            List::Cons(
                                                Value::Element(Element::UInt32(scope_id)),
                                                Box::new(List::Nil),
                                            ),
                                        ),
                                    ),
                                ),
                            ),
                        ),
                    ),
                ),
            ),
        ),
{
    Value::record(
        List::Cons(
            ipv6_value(ip),
            Box::new(
                List::Cons(
                    Value::Element(Element::UInt16(port)),
                    Box::new(
                        List::Cons(
                            Value::Element(Element::UInt32(flowinfo)),
                            Box::new(
                                List::Cons(
                                    Value::Element(Element::UInt32(scope_id)),
                                    Box::new(List::Nil),
                                ),
                            ),
                        ),
                    ),
                ),
            ),
        ),
    )
}

/// Whether `d` describes a V6 socket address: a record named
/// `SocketAddrV6` with `ip`, `port`, `flowinfo` and `scope_id` fields.
pub open spec fn is_socket_addr_v6_descriptor(d: Descriptor) -> bool {
    &&& d matches Descriptor::Record { name, fields }
    &&& name@ == "SocketAddrV6"@
    &&& fields matches List::Cons(ipf, r1)
    &&& is_field(
        ipf,
        "ip"@,
        Descriptor::Static { element: Box::new(Descriptor::Element(ElementType::UInt8)), length: 16usize },
    )
    &&& (*r1) matches List::Cons(portf, r2)
    &&& is_field(portf, "port"@, Descriptor::Element(ElementType::UInt16))
    &&& (*r2) matches List::Cons(flowf, r3)
    &&& is_field(flowf, "flowinfo"@, Descriptor::Element(ElementType::UInt32))
    &&& (*r3) matches List::Cons(scopef, r4)
    &&& is_field(scopef, "scope_id"@, Descriptor::Element(ElementType::UInt32))
    &&& (*r4) is Nil
}

/// The descriptor of a V6 socket address.
pub fn socket_addr_v6_descriptor() -> (d: Descriptor)
    ensures
        is_socket_addr_v6_descriptor(d),
{
    let fields = List::Cons(
        FieldDescriptor::no_default("ip".to_owned(), ipv6_descriptor()),
        Box::new(
            List::Cons(
                FieldDescriptor::no_default("port".to_owned(), Descriptor::Element(ElementType::UInt16)),
                Box::new(
                    List::Cons(
                        FieldDescriptor::no_default(
                            "flowinfo".to_owned(),
                            Descriptor::Element(ElementType::UInt32),
                        ),
                        Box::new(
                            List::Cons(
                                FieldDescriptor::no_default(
                                    "scope_id".to_owned(),
                                    Descriptor::Element(ElementType::UInt32),
                                ),
                                Box::new(List::Nil),
                            ),
                        ),
                    ),
                ),
            ),
        ),
    );
    Descriptor::Record { name: "SocketAddrV6".to_owned(), fields }
}

/// The decomposition of a socket address holding a V4 address: the
/// variant at position 0.
pub fn socket_addr_v4_choice(inner: Value) -> (r: Value)
    ensures
        r == first_variant(inner),
{
    Value::choice(Alt::Head(List::Cons(inner, Box::new(List::Nil))))
}

/// The decomposition of a socket address holding a V6 address: the
/// variant at position 1.
pub fn socket_addr_v6_choice(inner: Value) -> (r: Value)
    ensures
        r == second_variant(inner),
{
    Value::choice(Alt::Tail(Box::new(Alt::Head(List::Cons(inner, Box::new(List::Nil))))))
}

/// The value a lock-guarded 32-bit slot decomposes to once the guarded
/// value has been read: an owned temporary delegating to the scalar.
pub open spec fn guarded_u32(x: u32) -> Value {
    Value::Forward(
        Box::new(
            Forwarding::Defer(Defer { value: Box::new(Value::Element(Element::UInt32(x))) }),
        ),
    )
}

/// The decomposition of a guarded 32-bit slot from the value read under
/// the lock.
pub fn guarded_u32_value(x: u32) -> (r: Value)
    ensures
        r == guarded_u32(x),
{
    Value::forward_defer(Value::Element(Element::UInt32(x)))
}

#[verifier::external_type_specification]
#[verifier::external_body]
#[verifier::reject_recursive_types(T)]
pub struct ExMutex<T: ?Sized>(std::sync::Mutex<T>);

#[verifier::external_type_specification]
#[verifier::external_body]
#[verifier::reject_recursive_types(T)]
pub struct ExRwLock<T: ?Sized>(std::sync::RwLock<T>);

/// Relies on `std::sync::Mutex::lock`: blocks until the lock is
/// available, reads the guarded value, and releases the guard on return.
/// A poisoned lock is a fatal, unrecoverable condition and aborts the
/// encode, as the encoding rules demand.
#[verifier::external_body]
fn read_locked_u32(m: &std::sync::Mutex<u32>) -> u32 {
    *m.lock().unwrap()
}

/// Relies on `std::sync::RwLock::read`: blocks until a read guard is
/// available, reads the guarded value, and releases the guard on return.
/// A poisoned lock is a fatal, unrecoverable condition and aborts the
/// encode.
#[verifier::external_body]
fn read_locked_rw_u32(m: &std::sync::RwLock<u32>) -> u32 {
    *m.read().unwrap()
}

/// The decomposition of a mutex-wrapped 32-bit slot: blocks for the lock,
/// reads the guarded value, and delegates to it through an owned
/// temporary.  Whatever was read, the result is a guarded scalar slot.
pub fn mutex_u32_value(m: &std::sync::Mutex<u32>) -> (r: Value)
    ensures
        exists|x: u32| r == guarded_u32(x),
{
    let x = read_locked_u32(m);
    let r = guarded_u32_value(x);
    proof {
        assert(r == guarded_u32(x));
    }
    r
}

/// The decomposition of a read-write-lock-wrapped 32-bit slot: blocks for
/// a read guard, reads the guarded value, and delegates to it through an
/// owned temporary.
pub fn rwlock_u32_value(m: &std::sync::RwLock<u32>) -> (r: Value)
    ensures
        exists|x: u32| r == guarded_u32(x),
{
    let x = read_locked_rw_u32(m);
    let r = guarded_u32_value(x);
    proof {
        assert(r == guarded_u32(x));
    }
    r
}

} // verus!
