use can_c_codegen_rs::can_frame::generate_can_frame;
use can_c_codegen_rs::can_module_hooks::generate_hooks;
use can_c_codegen_rs::config::{
    Bus, Message, MessageId, MessageUsage, Network, Node, ObjectEntry, SignalType, Stream, Type,
};
use can_c_codegen_rs::errors::Error;
use can_c_codegen_rs::extern_c_guard::{generate_extern_guard_bottom, generate_extern_guard_top};
use can_c_codegen_rs::file_buffer::FileBuffer;
use can_c_codegen_rs::object_entries::generate_object_entries;
use can_c_codegen_rs::options::Options;
use can_c_codegen_rs::poll::generate_poll;
use can_c_codegen_rs::rx_queue::generate_rx_queue;
use can_c_codegen_rs::setup::generate_setup;
use can_c_codegen_rs::types::{generate_types, to_c_type_name};
use can_c_codegen_rs::update::generate_update;
use can_c_codegen_rs::source_block::SourceBlockIdentifier;

fn bus(id: u32, name: &str, baudrate: u32) -> Bus {
    Bus { id, name: name.to_owned(), baudrate }
}

fn message(name: &str, id: MessageId, usage: MessageUsage) -> Message {
    Message { name: name.to_owned(), id, encoding: None, signals: vec![], usage, bus: bus(0, "can0", 1000000) }
}

fn node(name: &str, id: u32) -> Node {
    Node {
        name: name.to_owned(),
        id,
        types: vec![],
        object_entries: vec![],
        tx_messages: vec![],
        rx_messages: vec![],
        tx_streams: vec![],
    }
}

fn network(nodes: Vec<Node>, buses: Vec<Bus>) -> Network {
    Network {
        nodes,
        buses,
        get_resp_message: message("get_resp", MessageId::StandardId(1), MessageUsage::GetResp),
        set_resp_message: message("set_resp", MessageId::StandardId(2), MessageUsage::SetResp),
        heartbeat_message: message("heartbeat", MessageId::StandardId(3), MessageUsage::Heartbeat),
    }
}

fn u(size: u8) -> Type {
    Type::Primitive(SignalType::UnsignedInt { size })
}

#[test]
fn extern_guards() {
    let mut h = String::from("X");
    assert_eq!(generate_extern_guard_top(&mut h), Ok(()));
    assert_eq!(h, "X#ifdef __cplusplus\nextern \"C\" {\n#endif\n");
    let mut b = String::new();
    assert_eq!(generate_extern_guard_bottom(&mut b), Ok(()));
    assert_eq!(b, "#ifdef __cplusplus\n}\n#endif\n");
}

#[test]
fn can_frame_definition() {
    let mut h = FileBuffer::new("a.h");
    let mut s = FileBuffer::new("a.c");
    let o = Options::default();
    assert_eq!(generate_can_frame(&mut h, &mut s, &o), Ok(()));
    let indent = "  ";
    let can_frame_name = "can_frame";
    let def = format!("
typedef struct {{
  uint32_t _id;
  uint8_t _dlc;
  uint8_t _data[8];
}} {can_frame_name};

// expects data to point to a 8 byte array
inline {can_frame_name} {can_frame_name}_new(uint32_t id, 
                                      int ide, 
                                      int rtr, 
                                      uint8_t dlc,
                                      uint8_t* data) {{
{indent}{can_frame_name} frame;
{indent}frame._id = id << 2 | (!!rtr) << 1 | (!!ide);
{indent}frame._dlc = dlc;
{indent}*((uint64_t*)frame._data) = *((uint64_t*)data);
{indent}return frame;
}}
inline uint32_t {can_frame_name}_get_id({can_frame_name}* self) {{
{indent}return self->_id >> 2;
}}
inline int {can_frame_name}_get_ide({can_frame_name}* self) {{
{indent}return self->_id & 0x1;
}}
inline int {can_frame_name}_get_rtr({can_frame_name}* self) {{
{indent}return self->_id & 0x2;
}}
inline uint8_t {can_frame_name}_get_dlc({can_frame_name}* self) {{
{indent}return self->_dlc;
}}
inline uint8_t* {can_frame_name}_get_data({can_frame_name}* self) {{
{indent}return self->_data;
}}");
    assert_eq!(h.render(None), format!("#include \"inttypes.h\"\n{def}"));
    assert_eq!(s.render(None), "");
    assert_eq!(generate_can_frame(&mut h, &mut s, &o), Err(Error::DuplicatedBlockIdentifier));
}

#[test]
fn rx_queue_definitions() {
    let mut h = FileBuffer::new("a.h");
    let mut s = FileBuffer::new("a.c");
    let mut o = Options::default();
    o.set_namespace("cz");
    assert_eq!(generate_rx_queue(&mut h, &mut s, &o), Ok(()));
    assert_eq!(
        s.render(None),
        "typedef struct {\n  \n} rx_queue;\n\
void rx_queue_enqueue(rx_queue* self, cz_frame* frame) {\n  //TODO\n}\n\
int rx_queue_dequeue(rx_queue* self, cz_frame* frame) {\n  //TODO\n  return 0;\n}\n\
static rx_queue can0_rx_queue;\n"
    );
    assert_eq!(h.render(None), "");
}

#[test]
fn update_definitions() {
    let mut h = FileBuffer::new("a.h");
    let mut s = FileBuffer::new("a.c");
    let mut o = Options::default();
    o.set_indent(3);
    assert_eq!(generate_update(&mut s, &mut h, &o), Ok(()));
    assert_eq!(h.render(None), "#include \"inttypes.h\"\nuint32_t can_update_continue(uint32_t delta_time);\n");
    assert_eq!(s.render(None), "uint32_t can_update_continue(uint32_t delta_time){\n   return 100;\n}");
}

#[test]
fn object_entry_variables_and_accessors() {
    let mut h = FileBuffer::new("a.h");
    let mut s = FileBuffer::new("a.c");
    let o = Options::default();
    let entries = vec![
        ObjectEntry { name: "speed".to_owned(), id: 0, ty: u(16) },
        ObjectEntry { name: "temp".to_owned(), id: 1, ty: Type::Primitive(SignalType::Decimal {
            size: 40,
            offset: "0".to_owned(),
            scale: "0.5".to_owned(),
        }) },
    ];
    assert_eq!(generate_object_entries(&entries, &mut h, &mut s, &o), Ok(()));
    assert_eq!(s.render(None), "#include \"inttypes.h\"\nuint8_t __oe_speed;\ndouble __oe_temp;\n");
    assert_eq!(
        h.render(None),
        "#include \"inttypes.h\"\n\
inline uint8_t can_get_speed() {\n  extern uint8_t __oe_speed;\n  return __oe_speed;\n}\n\
inline void can_set_speed(uint8_t value){\n  extern uint8_t __oe_speed;\n  __oe_speed = value;\n}\n\
inline double can_get_temp() {\n  extern double __oe_temp;\n  return __oe_temp;\n}\n\
inline void can_set_temp(double value){\n  extern double __oe_temp;\n  __oe_temp = value;\n}\n"
    );
}

#[test]
fn object_entry_twice_is_refused() {
    let mut h = FileBuffer::new("a.h");
    let mut s = FileBuffer::new("a.c");
    let o = Options::default();
    let entries = vec![
        ObjectEntry { name: "x".to_owned(), id: 0, ty: u(8) },
        ObjectEntry { name: "x".to_owned(), id: 1, ty: u(8) },
    ];
    assert_eq!(generate_object_entries(&entries, &mut h, &mut s, &o), Err(Error::DuplicatedBlockIdentifier));
}

#[test]
fn poll_function() {
    let mut h = FileBuffer::new("a.h");
    let mut s = FileBuffer::new("a.c");
    let o = Options::default();
    let mut n = node("secu", 1);
    n.tx_messages.push(message("a", MessageId::StandardId(0x10), MessageUsage::Heartbeat));
    n.tx_messages.push(message("b", MessageId::ExtendedId(0x7ff), MessageUsage::Heartbeat));
    assert_eq!(generate_poll(&n, &mut h, &mut s, &o), Ok(()));
    assert_eq!(h.render(None), "void can_poll();\n");
    assert_eq!(
        s.render(None),
        [
            "void can_poll() {\n  can_frame frame;\n  while (rx_queue_dequeue(&rx_queue, &frame) {\n  switch (frame.header) {\n",
            "    case 0x20: \n      a msg;\n      deserialize_a(frame.data, &msg);\n      //TODO handling of frame!\n      break;\n",
            "    case 0xFFF: \n      b msg;\n      deserialize_b(frame.data, &msg);\n      //TODO handling of frame!\n      break;\n",
            "  }\n}\n",
        ]
        .concat()
    );
}

#[test]
fn hooks_of_buses() {
    let mut h = FileBuffer::new("a.h");
    let mut s = FileBuffer::new("a.c");
    let o = Options::default();
    let buses = vec![bus(0, "can0", 500000), bus(1, "can1", 1000000)];
    assert_eq!(generate_hooks(&buses, &mut s, &mut h, &o), Ok(()));
    let mut expected = String::from("#include \"inttypes.h\"\n");
    for id in 0..2 {
        expected.push_str(&format!(
            "extern void can_can{id}_setup(uint32_t baudrate, can_can_filter* filters, int filter_count);\n"
        ));
        expected.push_str(&format!("extern void can_can{id}_send(can_frame* frame);\n"));
        expected.push_str(&format!("extern int can_can{id}_recv(can_frame* frame);\n"));
    }
    expected.push_str("extern void can_request_update(uint32_t time);\n");
    assert_eq!(s.render(None), expected);
    assert_eq!(h.render(None), "");
}

#[test]
fn setup_function() {
    let o = Options::default();
    let mut n = node("secu", 1);
    let msg = message("state", MessageId::StandardId(5), MessageUsage::Stream(vec![]));
    n.tx_streams.push(Stream {
        name: "state".to_owned(),
        mapping: vec![],
        message: msg,
        min_interval_ns: 0,
        max_interval_ns: 0,
    });
    let net = network(vec![], vec![bus(0, "can0", 500000), bus(1, "can1", 1000000)]);
    let mut src = String::new();
    let mut hdr = String::new();
    assert_eq!(generate_setup(&n, &net, &mut src, &mut hdr, &o), Ok(()));
    assert_eq!(hdr, "void can_init();\n");
    assert_eq!(
        src,
        [
            "void can_init() {\n  can_can0_setup(500000, NULL, 0);\n  can_can1_setup(1000000, NULL, 0);\n\n",
            "  job_pool_allocator_init();\n  scheduler.size = 0;\n  schedule_heartbeat_job();\n  schedule_state_interval_job();\n\n}\n",
        ]
        .concat()
    );
}

#[test]
fn types_struct_and_enum() {
    let mut h = FileBuffer::new("a.h");
    let o = Options::default();
    let mut n = node("secu", 1);
    n.types.push(Type::Enum {
        name: "mode".to_owned(),
        size: 2,
        entries: vec![("off".to_owned(), 0), ("on".to_owned(), 1)],
    });
    n.types.push(Type::Struct {
        name: "point".to_owned(),
        attribs: vec![
            ("x".to_owned(), u(8)),
            ("y".to_owned(), u(8)),
            ("m".to_owned(), Type::Enum { name: "mode".to_owned(), size: 2, entries: vec![] }),
        ],
    });
    assert_eq!(generate_types(&n, &mut h, &o), Ok(()));
    assert_eq!(
        h.render(None),
        "#include \"inttypes.h\"\n\
typedef enum {\n  mode_off = 0,\n  mode_on = 1,\n} mode;\n\
typedef struct {\n  uint8_t x;\n  uint8_t y;\n  mode m;\n} point;\n"
    );
}

#[test]
fn c_type_names() {
    let t = u(32);
    let (n, d) = to_c_type_name(&t);
    assert_eq!(n, "uint8_t");
    assert_eq!(d, Some(SourceBlockIdentifier::Import("inttypes.h".to_owned())));
    let s = Type::Struct { name: "p".to_owned(), attribs: vec![] };
    let (n, d) = to_c_type_name(&s);
    assert_eq!(n, "p");
    assert_eq!(d, Some(SourceBlockIdentifier::Definition("p".to_owned())));
    let dec = Type::Primitive(SignalType::Decimal { size: 32, offset: "1".to_owned(), scale: "2".to_owned() });
    assert_eq!(to_c_type_name(&dec), ("float", None));
}

#[test]
fn duplicate_type_before_primitive_is_an_error() {
    let mut h = FileBuffer::new("a.h");
    let o = Options::default();
    let mut n = node("secu", 1);
    let mode = || Type::Enum { name: "A".to_owned(), size: 1, entries: vec![] };
    n.types.push(mode());
    n.types.push(mode());
    n.types.push(u(8));
    assert_eq!(generate_types(&n, &mut h, &o), Err(Error::DuplicatedBlockIdentifier));
    assert_eq!(h.render(None), "typedef enum {\n} A;\n");
}

#[test]
fn duplicate_entry_before_array_is_an_error() {
    let mut h = FileBuffer::new("a.h");
    let mut s = FileBuffer::new("a.c");
    let o = Options::default();
    let entries = vec![
        ObjectEntry { name: "x".to_owned(), id: 0, ty: u(8) },
        ObjectEntry { name: "x".to_owned(), id: 1, ty: u(8) },
        ObjectEntry { name: "y".to_owned(), id: 2, ty: Type::Array { len: 2, ty: Box::new(u(8)) } },
    ];
    assert_eq!(generate_object_entries(&entries, &mut h, &mut s, &o), Err(Error::DuplicatedBlockIdentifier));
    assert_eq!(s.render(None), "#include \"inttypes.h\"\nuint8_t __oe_x;\n");
}
