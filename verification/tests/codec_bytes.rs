//! Byte-level scenarios for the ROS 2 message codec.

use cu29_encode::content::{Alt, Value};
use cu29_encode::descriptor::{Descriptor, FieldDescriptor};
use cu29_encode::element::{Element, ElementType};
use cu29_encode::ros2msg::Ros2Msg;
use cu29_encode::type_list::List;
use cu29_encode::upstream::core_impls::{option_descriptor, option_value};
use cu29_encode::upstream::primitive_impls::{char_value, text_value, uint32_value};

fn field(name: &str, ty: Descriptor) -> FieldDescriptor {
    FieldDescriptor::no_default(name.to_owned(), ty)
}

fn cons<T>(head: T, tail: List<T>) -> List<T> {
    List::Cons(head, Box::new(tail))
}

fn encode(v: &Value, d: &Descriptor) -> Vec<u8> {
    Ros2Msg::encode_checked(v, d).expect("value and descriptor must be congruent")
}

fn elem(t: ElementType) -> Descriptor {
    Descriptor::Element(t)
}

#[test]
fn point_of_two_floats_encodes_as_eight_bytes() {
    let value = Value::record(cons(
        Value::Element(Element::Float32(1.0f32.to_bits())),
        cons(Value::Element(Element::Float32(2.0f32.to_bits())), List::Nil),
    ));
    let descriptor = Descriptor::Record {
        name: "Point".to_owned(),
        fields: cons(
            field("x", elem(ElementType::Float32)),
            cons(field("y", elem(ElementType::Float32)), List::Nil),
        ),
    };
    let mut expected = 1.0f32.to_le_bytes().to_vec();
    expected.extend_from_slice(&2.0f32.to_le_bytes());
    assert_eq!(encode(&value, &descriptor), expected);
    assert_eq!(expected.len(), 8);
}

#[test]
fn option_some_encodes_discriminant_zero_then_payload() {
    let value = option_value(Some(uint32_value(5)));
    let descriptor = option_descriptor(elem(ElementType::UInt32));
    assert_eq!(encode(&value, &descriptor), vec![0, 5, 0, 0, 0]);
}

#[test]
fn option_none_encodes_discriminant_one_and_nothing_else() {
    let value = option_value(None);
    let descriptor = option_descriptor(elem(ElementType::UInt32));
    assert_eq!(encode(&value, &descriptor), vec![1]);
}

#[test]
fn scalars_encode_fixed_width_little_endian() {
    assert_eq!(
        encode(&Value::Element(Element::UInt16(0x1234)), &elem(ElementType::UInt16)),
        vec![0x34, 0x12],
    );
    assert_eq!(
        encode(&Value::Element(Element::UInt64(0x0102030405060708)), &elem(ElementType::UInt64)),
        vec![8, 7, 6, 5, 4, 3, 2, 1],
    );
    assert_eq!(
        encode(&Value::Element(Element::Int32(-2)), &elem(ElementType::Int32)),
        (-2i32).to_le_bytes().to_vec(),
    );
    assert_eq!(
        encode(&Value::Element(Element::Bool(true)), &elem(ElementType::Bool)),
        vec![1],
    );
    assert_eq!(
        encode(&Value::Element(Element::Bool(false)), &elem(ElementType::Bool)),
        vec![0],
    );
    assert_eq!(
        encode(&Value::Element(Element::Float64(2.5f64.to_bits())), &elem(ElementType::Float64)),
        2.5f64.to_le_bytes().to_vec(),
    );
}

#[test]
fn char_encodes_as_bounded_utf8_buffer_with_length() {
    let mut expected = vec![b'A', 0, 0, 0];
    expected.extend_from_slice(&1u64.to_le_bytes());
    assert_eq!(encode(&char_value('A'), &elem(ElementType::Char)), expected);

    let mut expected = vec![0xC3, 0xA9, 0, 0];
    expected.extend_from_slice(&2u64.to_le_bytes());
    assert_eq!(encode(&char_value('\u{e9}'), &elem(ElementType::Char)), expected);

    let mut expected = vec![0xE2, 0x82, 0xAC, 0];
    expected.extend_from_slice(&3u64.to_le_bytes());
    assert_eq!(encode(&char_value('\u{20ac}'), &elem(ElementType::Char)), expected);

    let mut expected = vec![0xF0, 0x9D, 0x84, 0x9E];
    expected.extend_from_slice(&4u64.to_le_bytes());
    assert_eq!(encode(&char_value('\u{1d11e}'), &elem(ElementType::Char)), expected);

    // The buffer and length must agree with what the standard library
    // produces for the same character.
    for c in ['A', '\u{e9}', '\u{20ac}', '\u{1d11e}', 'z', '\u{7ff}', '\u{ffff}'] {
        let mut buf = [0u8; 4];
        let std_utf8 = c.encode_utf8(&mut buf).as_bytes().to_vec();
        let encoded = encode(&char_value(c), &elem(ElementType::Char));
        assert_eq!(&encoded[..std_utf8.len()], &std_utf8[..]);
        assert_eq!(encoded[4], std_utf8.len() as u8);
        assert_eq!(encoded.len(), 12);
    }
}

#[test]
fn text_encodes_length_prefix_then_bytes() {
    let mut expected = 2u64.to_le_bytes().to_vec();
    expected.extend_from_slice(b"hi");
    assert_eq!(
        encode(&text_value(b"hi".to_vec()), &elem(ElementType::Str)),
        expected,
    );
    assert_eq!(
        encode(&text_value(Vec::new()), &elem(ElementType::Str)),
        0u64.to_le_bytes().to_vec(),
    );
}

#[test]
fn nested_record_emits_fields_in_declared_order_without_headers() {
    let inner = Value::record(cons(Value::Element(Element::UInt8(9)), List::Nil));
    let value = Value::record(cons(
        Value::Element(Element::UInt16(0x0201)),
        cons(inner, List::Nil),
    ));
    let inner_descriptor = Descriptor::Record {
        name: "Inner".to_owned(),
        fields: cons(field("n", elem(ElementType::UInt8)), List::Nil),
    };
    let descriptor = Descriptor::Record {
        name: "Outer".to_owned(),
        fields: cons(
            field("head", elem(ElementType::UInt16)),
            cons(field("nested", inner_descriptor), List::Nil),
        ),
    };
    assert_eq!(encode(&value, &descriptor), vec![0x01, 0x02, 9]);
}

#[test]
fn encoding_twice_is_byte_identical_and_field_order_is_load_bearing() {
    let ab = Value::record(cons(
        Value::Element(Element::UInt8(1)),
        cons(Value::Element(Element::UInt16(2)), List::Nil),
    ));
    let ab_descriptor = Descriptor::Record {
        name: "Msg".to_owned(),
        fields: cons(
            field("a", elem(ElementType::UInt8)),
            cons(field("b", elem(ElementType::UInt16)), List::Nil),
        ),
    };
    let first = encode(&ab, &ab_descriptor);
    let second = encode(&ab, &ab_descriptor);
    assert_eq!(first, second);

    let ba = Value::record(cons(
        Value::Element(Element::UInt16(2)),
        cons(Value::Element(Element::UInt8(1)), List::Nil),
    ));
    let ba_descriptor = Descriptor::Record {
        name: "Msg".to_owned(),
        fields: cons(
            field("b", elem(ElementType::UInt16)),
            cons(field("a", elem(ElementType::UInt8)), List::Nil),
        ),
    };
    let swapped = encode(&ba, &ba_descriptor);
    assert_eq!(first, vec![1, 2, 0]);
    assert_eq!(swapped, vec![2, 0, 1]);
    assert_ne!(first, swapped);
}

#[test]
fn discriminant_round_trips_through_a_minimal_decoder() {
    // A four-variant choice: the discriminant is one byte, followed by the
    // active variant's fields.
    let variants = cons(
        cu29_encode::descriptor::VariantDescriptor::new("A".to_owned(), List::Nil),
        cons(
            cu29_encode::descriptor::VariantDescriptor::new("B".to_owned(), List::Nil),
            cons(
                cu29_encode::descriptor::VariantDescriptor::new(
                    "C".to_owned(),
                    cons(field("0", elem(ElementType::UInt8)), List::Nil),
                ),
                cons(
                    cu29_encode::descriptor::VariantDescriptor::new("D".to_owned(), List::Nil),
                    List::Nil,
                ),
            ),
        ),
    );
    let descriptor = Descriptor::Choice { name: "FourWay".to_owned(), variants };

    // Variant C sits at declared position 2 and holds one byte of payload.
    let value = Value::choice(Alt::make(
        2,
        cons(Value::Element(Element::UInt8(0xAB)), List::Nil),
    ));
    let bytes = encode(&value, &descriptor);

    // Minimal decoder: the discriminant of a choice with at most 256
    // variants is its first byte.
    let decoded_discriminant = bytes[0] as usize;
    assert_eq!(decoded_discriminant, 2);
    assert_eq!(bytes, vec![2, 0xAB]);

    for position in [0u64, 1, 3] {
        let value = Value::choice(Alt::make(position, List::Nil));
        let bytes = encode(&value, &descriptor);
        assert_eq!(bytes[0] as u64, position);
        assert_eq!(bytes.len(), 1);
    }
}

#[test]
fn congruence_is_checked_before_encoding() {
    // One field value, two field descriptors: the shapes disagree, so no
    // bytes are produced.
    let value = Value::record(cons(Value::Element(Element::UInt8(1)), List::Nil));
    let descriptor = Descriptor::Record {
        name: "Wide".to_owned(),
        fields: cons(
            field("a", elem(ElementType::UInt8)),
            cons(field("b", elem(ElementType::UInt8)), List::Nil),
        ),
    };
    assert!(Ros2Msg::encode_checked(&value, &descriptor).is_none());

    let kind_mismatch = Value::Element(Element::UInt8(1));
    assert!(Ros2Msg::encode_checked(&kind_mismatch, &elem(ElementType::UInt16)).is_none());
}

#[test]
fn array_of_records_encodes_each_record_in_order() {
    let pair = |a: u8, b: u8| {
        Value::record(cons(
            Value::Element(Element::UInt8(a)),
            cons(Value::Element(Element::UInt8(b)), List::Nil),
        ))
    };
    let value = Value::unbounded_array(cons(pair(1, 2), cons(pair(3, 4), List::Nil)));
    let pair_descriptor = Descriptor::Record {
        name: "Pair".to_owned(),
        fields: cons(
            field("a", elem(ElementType::UInt8)),
            cons(field("b", elem(ElementType::UInt8)), List::Nil),
        ),
    };
    let descriptor = Descriptor::Unbounded { element: Box::new(pair_descriptor) };
    let mut expected = 2u64.to_le_bytes().to_vec();
    expected.extend_from_slice(&[1, 2, 3, 4]);
    assert_eq!(encode(&value, &descriptor), expected);
}

#[test]
fn option_nested_in_a_record_keeps_its_discriminant() {
    let value = Value::record(cons(
        Value::Element(Element::UInt8(7)),
        cons(option_value(Some(uint32_value(5))), List::Nil),
    ));
    let descriptor = Descriptor::Record {
        name: "Holder".to_owned(),
        fields: cons(
            field("tag", elem(ElementType::UInt8)),
            cons(field("maybe", option_descriptor(elem(ElementType::UInt32))), List::Nil),
        ),
    };
    assert_eq!(encode(&value, &descriptor), vec![7, 0, 5, 0, 0, 0]);
}

#[test]
fn the_discriminant_traversal_counts_the_declared_position() {
    for position in [0u64, 1, 2, 7] {
        let alt = Alt::make(position, List::Nil);
        assert_eq!(alt.calculate_discriminant(0), position);
    }
    let alt = Alt::make(3, List::Nil);
    assert_eq!(alt.calculate_discriminant(10), 13);
}
