//! Byte-encoding rules of the ROS 2 message format.
//!
//! The wire grammar, stated once as specification functions and implemented
//! by [`Ros2Msg::encode`]:
//!
//! * scalars: fixed-width little-endian, as written by the backing binary
//!   encoder;
//! * `char`: a 4-byte buffer holding the UTF-8 encoding, zero-padded,
//!   followed by the used length;
//! * text: a 64-bit length prefix, then the raw bytes;
//! * records: the fields' encodings back-to-back, in declared order, with
//!   no tags and no length prefix;
//! * choices: the active variant's 0-based position first, as the smallest
//!   unsigned integer sufficient to index the declared variants, then that
//!   variant's fields;
//! * arrays: fixed-length arrays emit exactly their elements; bounded
//!   arrays emit the running count and then the populated elements, never
//!   the bound; unbounded arrays emit a 64-bit length prefix and then the
//!   elements;
//! * forwarding by borrow or owned temporary is transparent: the target's
//!   encoding, unchanged.

use vstd::prelude::*;

use crate::content::{Alt, Content, Value};
use crate::descriptor::{
    congruent, check_congruent, elements_congruent, fields_congruent, lemma_discriminant_in_range,
    variant_congruent, Descriptor, FieldDescriptor, VariantDescriptor,
};
use crate::element::Element;
use crate::forward::Forwarding;
use crate::ros2msg::Ros2Msg;
use crate::type_list::List;

verus! {

/// The `n` little-endian bytes of `x`: least significant byte first.
pub open spec fn le_bytes(x: nat, n: nat) -> Seq<u8>
    decreases n,
{
    if n == 0 {
        Seq::empty()
    } else {
        seq![(x % 256) as u8] + le_bytes(x / 256, (n - 1) as nat)
    }
}

/// The number of UTF-8 bytes of a character.
pub open spec fn char_utf8_len(c: char) -> nat {
    let x = c as u32;
    if x < 0x80 {
        1
    } else if x < 0x800 {
        2
    } else if x < 0x10000 {
        3
    } else {
        4
    }
}

/// A 4-byte buffer holding a character's UTF-8 bytes, zero-padded.
pub open spec fn char_padded(c: char) -> Seq<u8> {
    let x = c as u32;
    if x < 0x80 {
        seq![x as u8, 0, 0, 0]
    } else if x < 0x800 {
        seq![(0xC0 + x / 0x40) as u8, (0x80 + x % 0x40) as u8, 0, 0]
    } else if x < 0x10000 {
        seq![
            (0xE0 + x / 0x1000) as u8,
            (0x80 + (x / 0x40) % 0x40) as u8,
            (0x80 + x % 0x40) as u8,
            0,
        ]
    } else {
        seq![
            (0xF0 + x / 0x40000) as u8,
            (0x80 + (x / 0x1000) % 0x40) as u8,
            (0x80 + (x / 0x40) % 0x40) as u8,
            (0x80 + x % 0x40) as u8,
        ]
    }
}

/// The encoding of a `char`: the 4-byte zero-padded buffer of its UTF-8
/// bytes, followed by the used length as a 64-bit word.
pub open spec fn char_field(c: char) -> Seq<u8> {
    char_padded(c) + le_bytes(char_utf8_len(c), 8)
}

/// The encoding of a leaf value.
pub open spec fn encoded_element(e: Element) -> Seq<u8> {
    match e {
        Element::Bool(b) => le_bytes(if b { 1 } else { 0 }, 1),
        Element::Byte(x) => le_bytes(x as nat, 1),
        Element::Char(c) => char_field(c),
        Element::Float32(bits) => le_bytes(bits as nat, 4),
        Element::Float64(bits) => le_bytes(bits as nat, 8),
        Element::Int8(x) => le_bytes((x as u8) as nat, 1),
        Element::UInt8(x) => le_bytes(x as nat, 1),
        Element::Int16(x) => le_bytes((x as u16) as nat, 2),
        Element::UInt16(x) => le_bytes(x as nat, 2),
        Element::Int32(x) => le_bytes((x as u32) as nat, 4),
        Element::UInt32(x) => le_bytes(x as nat, 4),
        Element::Int64(x) => le_bytes((x as u64) as nat, 8),
        Element::UInt64(x) => le_bytes(x as nat, 8),
        Element::Str(bytes) => le_bytes(bytes@.len(), 8) + bytes@,
    }
}

/// The number of bytes of the discriminant word: the smallest unsigned
/// integer width sufficient to index `n` declared variants.
pub open spec fn disc_width(n: nat) -> nat {
    if n <= 0x100 {
        1
    } else if n <= 0x10000 {
        2
    } else if n <= 0x1_0000_0000 {
        4
    } else {
        8
    }
}

/// The encoding of value `v` under descriptor `d`.  Meaningful whenever
/// `v` and `d` are congruent; on mismatched shapes it yields no bytes.
pub open spec fn encoded(v: Value, d: Descriptor) -> Seq<u8>
    decreases v,
{
    match v {
        Value::Element(e) => encoded_element(e),
        Value::Compound(c) => match *c {
            Content::Fields(fields) => match d {
                Descriptor::Record { fields: ds, .. } => encoded_fields(fields, ds),
                _ => Seq::empty(),
            },
            Content::Variants(alt) => match d {
                Descriptor::Choice { variants: ds, .. } => le_bytes(
                    alt.depth(),
                    disc_width(ds.len()),
                ) + encoded_variant(alt, ds),
                _ => Seq::empty(),
            },
        },
        Value::Forward(f) => match *f {
            Forwarding::Ref(r) => encoded(*r.target, d),
            Forwarding::Defer(w) => encoded(*w.value, d),
            Forwarding::Static(a) => match d {
                Descriptor::Static { element, .. } => encoded_elements(a.data, *element),
                _ => Seq::empty(),
            },
            Forwarding::Bounded(a) => match d {
                Descriptor::Bounded { element, .. } => le_bytes(a.data.len(), 8)
                    + encoded_elements(a.data, *element),
                _ => Seq::empty(),
            },
            Forwarding::Unbounded(a) => match d {
                Descriptor::Unbounded { element } => le_bytes(a.data.len(), 8)
                    + encoded_elements(a.data, *element),
                _ => Seq::empty(),
            },
        },
    }
}

/// The encodings of a record's fields, back-to-back in declared order; an
/// empty field list emits nothing.
pub open spec fn encoded_fields(vs: List<Value>, ds: List<FieldDescriptor>) -> Seq<u8>
    decreases vs,
{
    match (vs, ds) {
        (List::Cons(v, vt), List::Cons(fd, dt)) => encoded(v, *fd.ty) + encoded_fields(*vt, *dt),
        _ => Seq::empty(),
    }
}

/// The encoding of the active variant's fields, under that variant's own
/// field descriptors.
pub open spec fn encoded_variant(alt: Alt, ds: List<VariantDescriptor>) -> Seq<u8>
    decreases alt,
{
    match alt {
        Alt::Head(fields) => match ds {
            List::Cons(vd, _) => encoded_fields(fields, vd.fields),
            List::Nil => Seq::empty(),
        },
        Alt::Tail(rest) => match ds {
            List::Cons(_, dt) => encoded_variant(*rest, *dt),
            List::Nil => Seq::empty(),
        },
    }
}

/// The encodings of an array's elements, back-to-back in order, each under
/// the array's element descriptor.
pub open spec fn encoded_elements(vs: List<Value>, d: Descriptor) -> Seq<u8>
    decreases vs,
{
    match vs {
        List::Nil => Seq::empty(),
        List::Cons(v, t) => encoded(v, d) + encoded_elements(*t, d),
    }
}

/// Relies on `bincode::encode_to_vec` with the legacy configuration
/// (little-endian, fixed-width integers, no size limit): a `u8` is written
/// as exactly its one byte, and encoding a scalar into a vector never
/// fails.
#[verifier::external_body]
pub(crate) fn emit_u8(x: u8) -> (r: Vec<u8>)
    ensures
        r@ == le_bytes(x as nat, 1),
{
    bincode::encode_to_vec(x, bincode::config::legacy()).unwrap()
}

/// Relies on `bincode::encode_to_vec` with the legacy configuration: a
/// `u16` is written as exactly its two little-endian bytes, and encoding a
/// scalar into a vector never fails.
#[verifier::external_body]
pub(crate) fn emit_u16(x: u16) -> (r: Vec<u8>)
    ensures
        r@ == le_bytes(x as nat, 2),
{
    bincode::encode_to_vec(x, bincode::config::legacy()).unwrap()
}

/// Relies on `bincode::encode_to_vec` with the legacy configuration: a
/// `u32` is written as exactly its four little-endian bytes, and encoding
/// a scalar into a vector never fails.
#[verifier::external_body]
pub(crate) fn emit_u32(x: u32) -> (r: Vec<u8>)
    ensures
        r@ == le_bytes(x as nat, 4),
{
    bincode::encode_to_vec(x, bincode::config::legacy()).unwrap()
}

/// Relies on `bincode::encode_to_vec` with the legacy configuration: a
/// `u64` is written as exactly its eight little-endian bytes, and encoding
/// a scalar into a vector never fails.
#[verifier::external_body]
pub(crate) fn emit_u64(x: u64) -> (r: Vec<u8>)
    ensures
        r@ == le_bytes(x as nat, 8),
{
    bincode::encode_to_vec(x, bincode::config::legacy()).unwrap()
}

/// Appends all of `bytes` to `out`.
pub(crate) fn push_bytes(out: &mut Vec<u8>, bytes: &Vec<u8>)
    ensures
        final(out)@ == old(out)@ + bytes@,
{
    let mut i: usize = 0;
    while i < bytes.len()
        invariant
            i <= bytes@.len(),
            out@ == old(out)@ + bytes@.subrange(0, i as int),
        decreases bytes@.len() - i,
    {
        out.push(bytes[i]);
        i = i + 1;
        proof {
            assert(out@ =~= old(out)@ + bytes@.subrange(0, i as int));
        }
    }
    proof {
        assert(bytes@.subrange(0, bytes@.len() as int) =~= bytes@);
    }
}

/// Encodes a leaf value: the direct encoding rule the format supplies for
/// each element kind.
pub fn encode_element(e: &Element) -> (out: Vec<u8>)
    ensures
        out@ == encoded_element(*e),
{
    match e {
        Element::Bool(b) => emit_u8(if *b { 1 } else { 0 }),
        Element::Byte(x) => emit_u8(*x),
        Element::Char(c) => encode_char(*c),
        Element::Float32(bits) => emit_u32(*bits),
        Element::Float64(bits) => emit_u64(*bits),
        Element::Int8(x) => emit_u8(*x as u8),
        Element::UInt8(x) => emit_u8(*x),
        Element::Int16(x) => emit_u16(*x as u16),
        Element::UInt16(x) => emit_u16(*x),
        Element::Int32(x) => emit_u32(*x as u32),
        Element::UInt32(x) => emit_u32(*x),
        Element::Int64(x) => emit_u64(*x as u64),
        Element::UInt64(x) => emit_u64(*x),
        Element::Str(bytes) => {
            let n: usize = bytes.len();
            let mut out = emit_u64(n as u64);
            push_bytes(&mut out, bytes);
            out
        },
    }
}

/// Encodes a `char` through the format's bounded-string view.
fn encode_char(c: char) -> (out: Vec<u8>)
    ensures
        out@ == char_field(c),
{
    let view = crate::ros2msg::format::char_view(c);
    let out = view.encode();
    proof {
        assert(out@ =~= char_field(c));
    }
    out
}

/// The number of declared variants, which fits a 64-bit count whenever the
/// descriptor admits any congruent value.
fn variants_len(ds: &List<VariantDescriptor>) -> (n: u64)
    requires
        ds.len() <= u64::MAX,
    ensures
        n == ds.len(),
    decreases *ds,
{
    match ds {
        List::Nil => 0,
        List::Cons(_, dt) => 1 + variants_len(dt),
    }
}

/// The number of elements held by an array value.
fn elements_len(vs: &List<Value>) -> (n: u64)
    requires
        vs.len() <= u64::MAX,
    ensures
        n == vs.len(),
    decreases *vs,
{
    match vs {
        List::Nil => 0,
        List::Cons(_, t) => 1 + elements_len(t),
    }
}

/// Emits the discriminant word: `disc`, as the smallest unsigned integer
/// width sufficient to index `count` variants.
fn emit_discriminant(disc: u64, count: u64) -> (out: Vec<u8>)
    requires
        disc < count,
    ensures
        out@ == le_bytes(disc as nat, disc_width(count as nat)),
{
    if count <= 0x100 {
        emit_u8(disc as u8)
    } else if count <= 0x10000 {
        emit_u16(disc as u16)
    } else if count <= 0x1_0000_0000 {
        emit_u32(disc as u32)
    } else {
        emit_u64(disc)
    }
}

impl Ros2Msg {
    /// Serialises `v` under descriptor `d`.  Encoding is total on congruent
    /// value/descriptor pairs: it always yields the complete byte sequence
    /// that the wire grammar assigns to `v`.
    pub fn encode(v: &Value, d: &Descriptor) -> (out: Vec<u8>)
        requires
            congruent(*v, *d),
        ensures
            out@ == encoded(*v, *d),
        decreases *v,
    {
        match v {
            Value::Element(e) => encode_element(e),
            Value::Compound(c) => match (&**c, d) {
                (Content::Fields(fields), Descriptor::Record { fields: ds, .. }) => {
                    encode_fields(fields, ds)
                },
                (Content::Variants(alt), Descriptor::Choice { variants: ds, .. }) => {
                    proof {
                        lemma_discriminant_in_range(*alt, *ds);
                    }
                    let count = variants_len(ds);
                    let disc = alt.calculate_discriminant(0);
                    let mut out = emit_discriminant(disc, count);
                    let mut rest = encode_variant(alt, ds);
                    out.append(&mut rest);
                    out
                },
                _ => unreached(),
            },
            Value::Forward(f) => match &**f {
                Forwarding::Ref(r) => Ros2Msg::encode(&r.target, d),
                Forwarding::Defer(w) => Ros2Msg::encode(&w.value, d),
                Forwarding::Static(a) => match d {
                    Descriptor::Static { element, .. } => encode_elements(&a.data, element),
                    _ => unreached(),
                },
                Forwarding::Bounded(a) => match d {
                    Descriptor::Bounded { element, .. } => {
                        let n = elements_len(&a.data);
                        let mut out = emit_u64(n);
                        let mut rest = encode_elements(&a.data, element);
                        out.append(&mut rest);
                        out
                    },
                    _ => unreached(),
                },
                Forwarding::Unbounded(a) => match d {
                    Descriptor::Unbounded { element } => {
                        let n = elements_len(&a.data);
                        let mut out = emit_u64(n);
                        let mut rest = encode_elements(&a.data, element);
                        out.append(&mut rest);
                        out
                    },
                    _ => unreached(),
                },
            },
        }
    }

    /// Serialises `v` under `d` after checking congruence: yields the
    /// encoding exactly when `v` has the shape `d` describes, and nothing
    /// otherwise.
    pub fn encode_checked(v: &Value, d: &Descriptor) -> (out: Option<Vec<u8>>)
        ensures
            congruent(*v, *d) ==> (out matches Some(bytes) && bytes@ == encoded(*v, *d)),
            !congruent(*v, *d) ==> out is None,
    {
        if check_congruent(v, d) {
            Some(Ros2Msg::encode(v, d))
        } else {
            None
        }
    }
}

/// Encodes a record's fields back-to-back, in declared order.
pub(crate) fn encode_fields(vs: &List<Value>, ds: &List<FieldDescriptor>) -> (out: Vec<u8>)
    requires
        fields_congruent(*vs, *ds),
    ensures
        out@ == encoded_fields(*vs, *ds),
    decreases *vs,
{
    match (vs, ds) {
        (List::Nil, List::Nil) => Vec::new(),
        (List::Cons(v, vt), List::Cons(fd, dt)) => {
            let mut out = Ros2Msg::encode(v, &fd.ty);
            let mut rest = encode_fields(vt, dt);
            out.append(&mut rest);
            out
        },
        _ => unreached(),
    }
}

/// Encodes the active variant's fields under that variant's descriptors.
fn encode_variant(alt: &Alt, ds: &List<VariantDescriptor>) -> (out: Vec<u8>)
    requires
        variant_congruent(*alt, *ds),
    ensures
        out@ == encoded_variant(*alt, *ds),
    decreases *alt,
{
    match alt {
        Alt::Head(fields) => match ds {
            List::Cons(vd, _) => encode_fields(fields, &vd.fields),
            List::Nil => unreached(),
        },
        Alt::Tail(rest) => match ds {
            List::Cons(_, dt) => encode_variant(rest, dt),
            List::Nil => unreached(),
        },
    }
}

/// Encodes an array's elements back-to-back, in order.
fn encode_elements(vs: &List<Value>, d: &Descriptor) -> (out: Vec<u8>)
    requires
        elements_congruent(*vs, *d),
    ensures
        out@ == encoded_elements(*vs, *d),
    decreases *vs,
{
    match vs {
        List::Nil => Vec::new(),
        List::Cons(v, t) => {
            let mut out = Ros2Msg::encode(v, d);
            let mut rest = encode_elements(t, d);
            out.append(&mut rest);
            out
        },
    }
}

} // verus!
