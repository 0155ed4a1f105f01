use can_c_codegen_rs::config::{
    Bus, Message, MessageEncoding, MessageId, MessageUsage, Signal, SignalType, Type, TypeSignalEncoding,
};
use can_c_codegen_rs::errors::Error;
use can_c_codegen_rs::file_buffer::FileBuffer;
use can_c_codegen_rs::messages::{bit_access_code, bit_write_code, generate_messages, signal_type_to_c_type};
use can_c_codegen_rs::options::Options;
use can_c_codegen_rs::source_block::SourceBlockIdentifier;

fn bus() -> Bus {
    Bus { id: 0, name: "can0".to_owned(), baudrate: 1000000 }
}

fn signal_message(name: &str, signals: Vec<Signal>) -> Message {
    Message {
        name: name.to_owned(),
        id: MessageId::StandardId(1),
        encoding: None,
        signals,
        usage: MessageUsage::Heartbeat,
        bus: bus(),
    }
}

fn signal(name: &str, ty: SignalType, byte_offset: usize) -> Signal {
    Signal { name: name.to_owned(), ty, byte_offset }
}

#[test]
fn word_access() {
    assert_eq!(bit_access_code(4, 8, "data"), "(((int32_t*)data)[0] & 0xFF00000) >> 4");
    assert_eq!(bit_access_code(40, 16, "data"), "(((int32_t*)data)[1] & 0xFFFF00) >> 8");
    assert_eq!(bit_access_code(0, 32, "d"), "(((int32_t*)d)[0] & 0xFFFFFFFF) >> 0");
}

#[test]
fn word_access_of_no_bits() {
    assert_eq!(bit_access_code(0, 0, "d"), "(((int32_t*)d)[0] & 0xFFFFFFFF) >> 0");
}

#[test]
fn long_access() {
    assert_eq!(bit_access_code(16, 40, "data"), "(((int64_t*)data) & 0xFFFFFFFFFF00) >> 16");
    assert_eq!(bit_access_code(24, 16, "data"), "(((int64_t*)data) & 0xFFFF000000) >> 24");
    assert_eq!(bit_access_code(0, 64, "data"), "(((int64_t*)data) & 0xFFFFFFFFFFFFFFFF) >> 0");
}

#[test]
fn writes() {
    assert_eq!(bit_write_code(12, 8, "data", "x"), "((uint32_t*)data)[1] |= x << 12");
    assert_eq!(bit_write_code(40, 8, "data", "x"), "((uint32_t*)data)[5] |= x << 8");
    assert_eq!(bit_write_code(8, 40, "d", "v"), "*((uint64_t*)d) |= v << 8");
    assert_eq!(bit_write_code(30, 4, "d", "v"), "*((uint64_t*)d) |= v << 30");
}

#[test]
fn signal_c_types() {
    let inttypes = Some(SourceBlockIdentifier::Import("inttypes.h".to_owned()));
    assert_eq!(signal_type_to_c_type(&SignalType::UnsignedInt { size: 64 }), ("uint8_t", inttypes.clone()));
    assert_eq!(signal_type_to_c_type(&SignalType::UnsignedInt { size: 255 }), ("uint8_t", inttypes.clone()));
    assert_eq!(signal_type_to_c_type(&SignalType::SignedInt { size: 3 }), ("int8_t", inttypes.clone()));
    assert_eq!(signal_type_to_c_type(&SignalType::UnsignedInt { size: 0 }), ("uint8_t", inttypes));
    let dec = |size: u8| SignalType::Decimal { size, offset: "0".to_owned(), scale: "1".to_owned() };
    assert_eq!(signal_type_to_c_type(&dec(32)), ("float", None));
    assert_eq!(signal_type_to_c_type(&dec(33)), ("double", None));
}

#[test]
fn transmitted_and_received_messages() {
    let mut h = FileBuffer::new("a.h");
    let mut s = FileBuffer::new("a.c");
    let o = Options::default();
    let tx = vec![signal_message(
        "m1",
        vec![
            signal("a", SignalType::UnsignedInt { size: 8 }, 0),
            signal("t", SignalType::Decimal { size: 16, offset: "-1".to_owned(), scale: "0.1".to_owned() }, 8),
        ],
    )];
    let mut m2 = signal_message("m2", vec![]);
    m2.encoding = Some(MessageEncoding {
        attributes: vec![TypeSignalEncoding::Primitive {
            name: "x".to_owned(),
            ty: Type::Primitive(SignalType::UnsignedInt { size: 16 }),
            signal: signal("x", SignalType::UnsignedInt { size: 16 }, 8),
        }],
    });
    let rx = vec![m2, signal_message("m1", vec![])];
    assert_eq!(generate_messages(&tx, &rx, &mut h, &mut s, &o), Ok(()));
    assert_eq!(h.render(None), "");
    let expected = [
        "#include \"inttypes.h\"\n",
        "typedef struct {\n  uint8_t a;\n  float t;\n} m1;\n",
        "static void serialize_m1(m1* msg, uint8_t* data) {\n",
        "  ((uint32_t*)data)[0] |= msg->a << 0;",
        "  ((uint32_t*)data)[1] |= (msg->t * 0.1 + -1) << 8;",
        "}\n",
        "static void deserialize_m1(uint8_t* data, m1* msg) {\n",
        "  msg->a = (((int32_t*)data)[0] & 0xFF000000) >> 0;",
        "  (msg->t * 0.1 + -1) = (((int32_t*)data)[0] & 0xFFFF00) >> 8;",
        "}\n",
        "typedef struct {\n  uint8_t x;\n} m2;\n",
        "static void deserialize_m2(uint8_t* data, m2* msg) {\n",
        "  msg->x = (((int32_t*)data)[0] & 0xFFFF00) >> 8;\n",
        "}\n",
    ]
    .concat();
    assert_eq!(s.render(None), expected);
}

#[test]
fn duplicate_message_before_unsupported_one_is_an_error() {
    let mut h = FileBuffer::new("a.h");
    let mut s = FileBuffer::new("a.c");
    let o = Options::default();
    let mut bad = signal_message("bad", vec![]);
    bad.encoding = Some(MessageEncoding {
        attributes: vec![TypeSignalEncoding::Primitive {
            name: "arr".to_owned(),
            ty: Type::Array { len: 2, ty: Box::new(Type::Primitive(SignalType::UnsignedInt { size: 8 })) },
            signal: signal("arr", SignalType::UnsignedInt { size: 8 }, 0),
        }],
    });
    let tx = vec![signal_message("m", vec![]), signal_message("m", vec![]), bad];
    assert_eq!(generate_messages(&tx, &vec![], &mut h, &mut s, &o), Err(Error::DuplicatedBlockIdentifier));
    assert_eq!(
        s.render(None),
        "typedef struct {\n} m;\nstatic void serialize_m(m* msg, uint8_t* data) {\n}\n"
    );
}
