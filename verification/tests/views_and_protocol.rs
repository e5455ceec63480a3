//! The format's view types, the pluggable-format contract, and the
//! compound definition protocol.

use cu29_encode::content::Value;
use cu29_encode::descriptor::Descriptor;
use cu29_encode::element::{Element, ElementType};
use cu29_encode::messages::{Message, MessageExt, MessageFields};
use cu29_encode::ros2msg::format::{
    char_view, Byte, BoundedString, Char, MessageType, Ros2List, WString,
};
use cu29_encode::ros2msg::schema::FieldType;
use cu29_encode::ros2msg::Ros2Msg;
use cu29_encode::type_list::List;
use cu29_encode::upstream::core_impls::Duration;
use cu29_encode::DataFormat;

fn cons<T>(head: T, tail: List<T>) -> List<T> {
    List::Cons(head, Box::new(tail))
}

#[test]
fn byte_and_char_views_emit_one_byte() {
    assert_eq!(Byte(0xAB).encode(), vec![0xAB]);
    assert_eq!(Char(b'x').encode(), vec![b'x']);
}

#[test]
fn bounded_string_view_emits_buffer_then_used_length() {
    let b = BoundedString { data: vec![1, 2, 3, 0, 0], length: 3 };
    let mut expected = vec![1, 2, 3, 0, 0];
    expected.extend_from_slice(&3u64.to_le_bytes());
    assert_eq!(b.encode(), expected);
}

#[test]
fn char_view_holds_padded_utf8_and_used_length() {
    let b = char_view('\u{e9}');
    assert_eq!(b.data, vec![0xC3, 0xA9, 0, 0]);
    assert_eq!(b.length, 2);
}

#[test]
fn wide_string_view_emits_length_then_code_units() {
    let w = WString(vec![0x0041, 0x2764]);
    let mut expected = 2u64.to_le_bytes().to_vec();
    expected.extend_from_slice(&[0x41, 0x00, 0x64, 0x27]);
    assert_eq!(w.encode(), expected);

    assert_eq!(WString(Vec::new()).encode(), 0u64.to_le_bytes().to_vec());
}

#[test]
fn message_and_list_views_serialise_their_content() {
    let message = MessageType {
        value: Value::Element(Element::UInt16(0x0102)),
        descriptor: Descriptor::Element(ElementType::UInt16),
    };
    assert_eq!(message.encode(), vec![0x02, 0x01]);

    let list = Ros2List {
        fields: cons(Value::Element(Element::UInt8(7)), List::Nil),
        descriptors: cons(
            cu29_encode::descriptor::FieldDescriptor::no_default(
                "n".to_owned(),
                Descriptor::Element(ElementType::UInt8),
            ),
            List::Nil,
        ),
    };
    assert_eq!(list.encode(), vec![7]);
}

#[test]
fn the_format_contract_is_served_by_the_reference_format() {
    let value = Value::Element(Element::UInt32(9));
    let descriptor = Descriptor::Element(ElementType::UInt32);
    assert_eq!(
        <Ros2Msg as DataFormat>::encodable(&value, &descriptor),
        vec![9, 0, 0, 0],
    );
    assert!(matches!(
        <Ros2Msg as DataFormat>::format_type(&descriptor),
        FieldType::UInt32,
    ));
}

#[test]
fn duration_implements_the_compound_definition_protocol() {
    let d = Duration { secs: 3, nanoseconds: 500 };
    let value = d.as_message();
    let descriptor = Duration::descriptor();
    let mut expected = 3u64.to_le_bytes().to_vec();
    expected.extend_from_slice(&500u32.to_le_bytes());
    assert_eq!(
        Ros2Msg::encode_checked(&value, &descriptor).unwrap(),
        expected,
    );
    assert_eq!(Duration::schema_name(), "Duration");
    match Ros2Msg::field_type(&descriptor) {
        FieldType::Message { name } => assert_eq!(name, "Duration"),
        _ => panic!("a record descriptor must map to a message tag"),
    }
}
