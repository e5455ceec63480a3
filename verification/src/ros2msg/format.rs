//! The format's view types: what values look like once lowered into the
//! ROS 2 message format.
//!
//! Each view owns its byte rule.  The codec reaches leaf values through
//! these rules, and a consumer holding a lowered view can serialise it
//! directly.

use vstd::prelude::*;

use crate::content::Value;
use crate::descriptor::{congruent, fields_congruent, Descriptor, FieldDescriptor};
use crate::ros2msg::codec::{
    char_padded, char_utf8_len, emit_u16, emit_u64, emit_u8, encode_fields, encoded,
    encoded_fields, le_bytes, push_bytes,
};
use crate::ros2msg::Ros2Msg;
use crate::type_list::List;

verus! {

/// The view of a raw byte: one byte on the wire.
pub struct Byte(pub u8);

impl Byte {
    /// Serialises the byte.
    pub fn encode(&self) -> (out: Vec<u8>)
        ensures
            out@ == le_bytes(self.0 as nat, 1),
    {
        emit_u8(self.0)
    }
}

/// The view of a single-byte character: one byte on the wire.
pub struct Char(pub u8);

impl Char {
    /// Serialises the character.
    pub fn encode(&self) -> (out: Vec<u8>)
        ensures
            out@ == le_bytes(self.0 as nat, 1),
    {
        emit_u8(self.0)
    }
}

/// The view of a bounded string: a fixed buffer, fully emitted, followed
/// by the used length.
pub struct BoundedString {
    pub data: Vec<u8>,
    pub length: usize,
}

impl BoundedString {
    /// Serialises the buffer and the used length.
    pub fn encode(&self) -> (out: Vec<u8>)
        ensures
            out@ == self.data@ + le_bytes(self.length as nat, 8),
    {
        let mut out: Vec<u8> = Vec::new();
        push_bytes(&mut out, &self.data);
        let mut lenb = emit_u64(self.length as u64);
        out.append(&mut lenb);
        out
    }
}

/// Lowers a `char` into the format's bounded-string view: a 4-byte buffer
/// holding the character's UTF-8 bytes, zero-padded, and the used length.
pub fn char_view(c: char) -> (b: BoundedString)
    ensures
        b.data@ == char_padded(c),
        b.length == char_utf8_len(c),
{
    let x = c as u32;
    let mut data: Vec<u8> = Vec::new();
    let length: usize;
    if x < 0x80 {
        data.push(x as u8);
        data.push(0);
        data.push(0);
        data.push(0);
        length = 1;
    } else if x < 0x800 {
        data.push((0xC0 + x / 0x40) as u8);
        data.push((0x80 + x % 0x40) as u8);
        data.push(0);
        data.push(0);
        length = 2;
    } else if x < 0x10000 {
        data.push((0xE0 + x / 0x1000) as u8);
        data.push((0x80 + (x / 0x40) % 0x40) as u8);
        data.push((0x80 + x % 0x40) as u8);
        data.push(0);
        length = 3;
    } else {
        data.push((0xF0 + x / 0x40000) as u8);
        data.push((0x80 + (x / 0x1000) % 0x40) as u8);
        data.push((0x80 + (x / 0x40) % 0x40) as u8);
        data.push((0x80 + x % 0x40) as u8);
        length = 4;
    }
    proof {
        assert(data@ =~= char_padded(c));
    }
    BoundedString { data, length }
}

/// The bytes of a wide string's code units, each as a 16-bit word.
pub open spec fn wide_bytes(s: Seq<u16>) -> Seq<u8>
    decreases s.len(),
{
    if s.len() == 0 {
        Seq::empty()
    } else {
        le_bytes(s[0] as nat, 2) + wide_bytes(s.drop_first())
    }
}

/// The view of a wide string: 16-bit code units with a length prefix.
pub struct WString(pub Vec<u16>);

impl WString {
    /// Serialises the length prefix, then the code units.
    pub fn encode(&self) -> (out: Vec<u8>)
        ensures
            out@ == le_bytes(self.0@.len(), 8) + wide_bytes(self.0@),
    {
        let n: usize = self.0.len();
        let mut out = emit_u64(n as u64);
        let mut rest = wide_tail(&self.0, 0);
        out.append(&mut rest);
        proof {
            assert(self.0@.subrange(0, self.0@.len() as int) =~= self.0@);
        }
        out
    }
}

/// Serialises the code units of a wide string from position `i` on.
fn wide_tail(v: &Vec<u16>, i: usize) -> (out: Vec<u8>)
    requires
        i <= v@.len(),
    ensures
        out@ == wide_bytes(v@.subrange(i as int, v@.len() as int)),
    decreases v@.len() - i,
{
    if i == v.len() {
        Vec::new()
    } else {
        let mut out = emit_u16(v[i]);
        let mut rest = wide_tail(v, i + 1);
        out.append(&mut rest);
        proof {
            let s = v@.subrange(i as int, v@.len() as int);
            assert(s.drop_first() =~= v@.subrange(i + 1, v@.len() as int));
            assert(s[0] == v@[i as int]);
        }
        out
    }
}

/// The view of a compound under this format: a value paired with the
/// descriptor that gives it its shape, serialisable as a nested message.
pub struct MessageType {
    pub value: Value,
    pub descriptor: Descriptor,
}

impl MessageType {
    /// Serialises the nested message.
    pub fn encode(&self) -> (out: Vec<u8>)
        requires
            congruent(self.value, self.descriptor),
        ensures
            out@ == encoded(self.value, self.descriptor),
    {
        Ros2Msg::encode(&self.value, &self.descriptor)
    }
}

/// The format's view of a content list: field values paired with their
/// descriptors, serialised back-to-back in declared order.
pub struct Ros2List {
    pub fields: List<Value>,
    pub descriptors: List<FieldDescriptor>,
}

impl Ros2List {
    /// Serialises the fields in declared order.
    pub fn encode(&self) -> (out: Vec<u8>)
        requires
            fields_congruent(self.fields, self.descriptors),
        ensures
            out@ == encoded_fields(self.fields, self.descriptors),
    {
        encode_fields(&self.fields, &self.descriptors)
    }
}

} // verus!
