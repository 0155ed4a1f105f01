use can_c_codegen_rs::config::{
    Bus, Message, MessageEncoding, MessageId, MessageUsage, Network, Node, ObjectEntry, Signal, SignalType, Stream,
    Type, TypeSignalEncoding,
};
use can_c_codegen_rs::errors::Error;
use can_c_codegen_rs::file_buffer::FileBuffer;
use can_c_codegen_rs::{generatable, generate};
use can_c_codegen_rs::options::Options;
use can_c_codegen_rs::pil::generate_pil;
use can_c_codegen_rs::scheduler::generate_scheduler;
use can_c_codegen_rs::setters::generate_setters;

fn bus(id: u32) -> Bus {
    Bus { id, name: format!("can{id}"), baudrate: 1000000 }
}

fn message(name: &str, usage: MessageUsage) -> Message {
    Message { name: name.to_owned(), id: MessageId::StandardId(7), encoding: None, signals: vec![], usage, bus: bus(0) }
}

fn u(size: u8) -> Type {
    Type::Primitive(SignalType::UnsignedInt { size })
}

fn oe(name: &str, id: u32) -> ObjectEntry {
    ObjectEntry { name: name.to_owned(), id, ty: u(8) }
}

fn attribute(name: &str) -> TypeSignalEncoding {
    TypeSignalEncoding::Primitive {
        name: name.to_owned(),
        ty: u(8),
        signal: Signal { name: name.to_owned(), ty: SignalType::UnsignedInt { size: 8 }, byte_offset: 0 },
    }
}

fn stream(name: &str, entry: ObjectEntry, min_ns: u64, max_ns: u64) -> Stream {
    let mut m = message(name, MessageUsage::Stream(vec![]));
    m.encoding = Some(MessageEncoding { attributes: vec![attribute("v")] });
    Stream { name: name.to_owned(), mapping: vec![Some(entry)], message: m, min_interval_ns: min_ns, max_interval_ns: max_ns }
}

fn node(name: &str) -> Node {
    Node {
        name: name.to_owned(),
        id: 3,
        types: vec![],
        object_entries: vec![],
        tx_messages: vec![],
        rx_messages: vec![],
        tx_streams: vec![],
    }
}

fn network(nodes: Vec<Node>) -> Network {
    Network {
        nodes,
        buses: vec![bus(0)],
        get_resp_message: message("get_resp", MessageUsage::GetResp),
        set_resp_message: message("set_resp", MessageUsage::SetResp),
        heartbeat_message: message("heartbeat", MessageUsage::Heartbeat),
    }
}

#[test]
fn setters_of_streamed_and_plain_entries() {
    let mut n = node("secu");
    n.object_entries.push(oe("x", 5));
    n.object_entries.push(oe("y", 6));
    n.tx_streams.push(stream("s", oe("x", 5), 1_000_000, 2_000_000_000));
    let mut h = String::new();
    let mut s = String::new();
    assert_eq!(generate_setters(&n, &mut h, &mut s, &Options::default()), Ok(()));
    assert_eq!(
        h,
        "void can_set_x(uint8_t value);\nstatic inline void can_set_y(uint8_t value){\n  extern uint8_t __oe_y;\n  __oe_y = value;\n}\n"
    );
    assert_eq!(
        s,
        [
            "void can_set_x(uint8_t value) {\n",
            "  extern uint8_t __oe_x;\n",
            "  if (__oe_x != value) {\n",
            "    __oe_x = value;\n",
            "    uint32_t time = can_get_time();\n",
            "    if (s_interval_job.climax > s_interval_job.job.stream_interval_job.last_schedule + 1) {\n",
            "      scheduler_promote_job(&s_interval_job);\n",
            "    }\n",
            "  }\n",
            "}\n",
        ]
        .concat()
    );
}

#[test]
fn fixed_interval_stream_needs_no_promotion() {
    let mut n = node("secu");
    n.object_entries.push(oe("x", 5));
    n.tx_streams.push(stream("s", oe("x", 5), 1_000_000, 1_000_000));
    let mut h = String::new();
    let mut s = String::new();
    assert_eq!(generate_setters(&n, &mut h, &mut s, &Options::default()), Ok(()));
    assert_eq!(h, "static inline void can_set_x(uint8_t value){\n  extern uint8_t __oe_x;\n  x = value;\n}\n".replace("  x =", "  __oe_x ="));
    assert_eq!(s, "");
}

#[test]
fn pil_uses_upper_case_namespace() {
    let mut h = FileBuffer::new("a.h");
    let mut s = FileBuffer::new("a.c");
    let mut o = Options::default();
    o.set_namespace("cz");
    assert_eq!(generate_pil(&mut s, &mut h, &o), Ok(()));
    let text = h.render(None);
    assert!(text.starts_with("#include \"inttypes.h\"\ntypedef struct {\n  uint32_t id;\n  uint8_t dlc;\n  uint8_t data[8];\n} cz_frame;\n"));
    assert!(text.contains("  CZ_FRAME_IDE_BIT = 0x40000000, // 1 << 30\n  CZ_FRAME_RTR_BIT = 0x80000000, // 1 << 31\n"));
    assert_eq!(s.render(None), "");
}

#[test]
fn scheduler_defines_stream_jobs() {
    let mut n = node("secu");
    n.tx_streams.push(stream("s", oe("x", 5), 5_000_000, 1_000_000_000));
    let net = network(vec![]);
    let mut src = String::new();
    let mut hdr = String::new();
    assert_eq!(generate_scheduler(&net, &n, &mut src, &mut hdr, &Options::default()), Ok(()));
    let job = [
        "static job_t s_interval_job;\n",
        "static const uint32_t s_interval = 5;\n",
        "static void schedule_s_interval_job(){\n",
        "  uint32_t time = can_get_time();\n",
        "  s_interval_job.climax = time + s_interval;\n",
        "  s_interval_job.tag = STREAM_INTERVAL_JOB_TAG;\n",
        "  s_interval_job.job.stream_interval_job.stream_id = 0;\n",
        "  s_interval_job.job.stream_interval_job.last_schedule = time;\n",
        "  scheduler_schedule(&s_interval_job);\n",
        "}\n",
    ]
    .concat();
    assert!(src.contains(&job));
    assert!(src.contains("stream_message.v = __oe_x;"));
    assert!(src.starts_with("\ntypedef enum {\n  HEARTBEAT_JOB_TAG = 0,\n"));
}

#[test]
fn unknown_node_is_refused() {
    let net = network(vec![node("secu")]);
    assert_eq!(generate("master", &net, Options::default()), Err(Error::InvalidNodeName));
}

#[test]
fn generated_files_of_a_bare_node() {
    let net = network(vec![node("master"), node("secu")]);
    let (header, source) = generate("secu", &net, Options::default()).unwrap();
    assert!(header.starts_with(
        "#ifndef CANZERO_H\n#define CANZERO_H\n#ifdef __cplusplus\nextern \"C\" {\n#endif\n#include \"inttypes.h\"\nvoid can_poll();\n\ntypedef struct {\n  uint32_t _id;\n"
    ));
    assert!(header.ends_with("inline uint8_t* can_frame_get_data(can_frame* self) {\n  return self->_data;\n}\n#ifdef __cplusplus \n}\n#endif\n#endif\n"));
    assert_eq!(
        source,
        [
            "#include \"canzero.h\"\n",
            "typedef struct {\n  \n} rx_queue;\n",
            "void rx_queue_enqueue(rx_queue* self, can_frame* frame) {\n  //TODO\n}\n",
            "int rx_queue_dequeue(rx_queue* self, can_frame* frame) {\n  //TODO\n  return 0;\n}\n",
            "static rx_queue can0_rx_queue;\n",
            "void can_poll() {\n  can_frame frame;\n  while (rx_queue_dequeue(&rx_queue, &frame) {\n  switch (frame.header) {\n  }\n}\n",
        ]
        .concat()
    );
}

#[test]
fn generated_files_with_entries_and_messages() {
    let mut n = node("secu");
    n.object_entries.push(oe("bar", 0));
    let mut m = message("state", MessageUsage::Heartbeat);
    m.signals.push(Signal { name: "v".to_owned(), ty: SignalType::UnsignedInt { size: 8 }, byte_offset: 0 });
    n.tx_messages.push(m);
    let mut o = Options::default();
    o.set_header_file_path("out/secu.h");
    o.set_source_file_path("out/secu.c");
    let (header, source) = generate("secu", &network(vec![n]), o).unwrap();
    assert!(header.contains("inline uint8_t can_get_bar() {\n  extern uint8_t __oe_bar;\n  return __oe_bar;\n}\n"));
    assert!(source.starts_with("#include \"out/secu.h\"\n#include \"inttypes.h\"\nuint8_t __oe_bar;\n"));
    assert!(source.contains("static void serialize_state(state* msg, uint8_t* data) {\n  ((uint32_t*)data)[0] |= msg->v << 0;}\n"));
    assert!(source.contains("    case 0xE: \n      state msg;\n"));
}

#[test]
fn duplicated_entry_fails_generation() {
    let mut n = node("secu");
    n.object_entries.push(oe("bar", 0));
    n.object_entries.push(oe("bar", 1));
    assert_eq!(generate("secu", &network(vec![n]), Options::default()), Err(Error::DuplicatedBlockIdentifier));
}

#[test]
fn first_node_of_the_name_is_generated() {
    let mut first = node("secu");
    first.object_entries.push(oe("alpha", 0));
    let mut second = node("secu");
    second.object_entries.push(oe("beta", 0));
    let (header, source) = generate("secu", &network(vec![node("master"), first, second]), Options::default()).unwrap();
    assert!(header.contains("can_get_alpha"));
    assert!(!header.contains("can_get_beta"));
    assert!(source.contains("uint8_t __oe_alpha;\n"));
}

#[test]
fn duplicate_type_before_array_entry_fails_generation() {
    let mut n = node("secu");
    let mode = || Type::Enum { name: "A".to_owned(), size: 1, entries: vec![] };
    n.types.push(mode());
    n.types.push(mode());
    n.object_entries.push(ObjectEntry { name: "arr".to_owned(), id: 0, ty: Type::Array { len: 2, ty: Box::new(u(8)) } });
    let net = network(vec![n]);
    assert!(generatable("secu", &net, &Options::default()));
    assert_eq!(generate("secu", &net, Options::default()), Err(Error::DuplicatedBlockIdentifier));
}

#[test]
fn generatable_nodes() {
    let mut bad = node("bad");
    bad.types.push(u(8));
    let mut arr = node("arr");
    arr.object_entries.push(ObjectEntry { name: "a".to_owned(), id: 0, ty: Type::Array { len: 2, ty: Box::new(u(8)) } });
    let net = network(vec![node("secu"), bad, arr]);
    let o = Options::default();
    assert!(generatable("secu", &net, &o));
    assert!(generatable("nobody", &net, &o));
    assert!(!generatable("bad", &net, &o));
    assert!(!generatable("arr", &net, &o));
}
