use can_c_codegen_rs::config::{
    Bus, Command, Message, MessageEncoding, MessageId, MessageUsage, Network, Node, ObjectEntry, Signal, SignalType,
    Type, TypeSignalEncoding,
};
use can_c_codegen_rs::options::Options;
use can_c_codegen_rs::rx_handlers::generate_rx_handlers;

fn bus(id: u32) -> Bus {
    Bus { id, name: format!("can{id}"), baudrate: 1000000 }
}

fn message(name: &str, usage: MessageUsage, bus_id: u32) -> Message {
    Message {
        name: name.to_owned(),
        id: MessageId::StandardId(7),
        encoding: None,
        signals: vec![],
        usage,
        bus: bus(bus_id),
    }
}

fn attribute(name: &str) -> TypeSignalEncoding {
    TypeSignalEncoding::Primitive {
        name: name.to_owned(),
        ty: Type::Primitive(SignalType::UnsignedInt { size: 8 }),
        signal: Signal { name: name.to_owned(), ty: SignalType::UnsignedInt { size: 8 }, byte_offset: 0 },
    }
}

fn encoded(name: &str, usage: MessageUsage, attributes: Vec<TypeSignalEncoding>) -> Message {
    let mut m = message(name, usage, 0);
    m.encoding = Some(MessageEncoding { attributes });
    m
}

fn oe(name: &str, id: u32, ty: Type) -> ObjectEntry {
    ObjectEntry { name: name.to_owned(), id, ty }
}

fn u(size: u8) -> Type {
    Type::Primitive(SignalType::UnsignedInt { size })
}

fn node(rx_messages: Vec<Message>, object_entries: Vec<ObjectEntry>) -> Node {
    Node {
        name: "secu".to_owned(),
        id: 3,
        types: vec![],
        object_entries,
        tx_messages: vec![],
        rx_messages,
        tx_streams: vec![],
    }
}

fn network() -> Network {
    Network {
        nodes: vec![],
        buses: vec![bus(0), bus(1)],
        get_resp_message: message("get_resp", MessageUsage::GetResp, 1),
        set_resp_message: message("set_resp", MessageUsage::SetResp, 0),
        heartbeat_message: message("heartbeat", MessageUsage::Heartbeat, 0),
    }
}

fn run(n: &Node) -> String {
    let mut source = String::from("/*start*/\n");
    let mut header = String::from("H");
    assert_eq!(generate_rx_handlers(&network(), n, &mut source, &mut header, &Options::default()), Ok(()));
    assert_eq!(header, "H");
    source
}

fn handler(attributes: &str, msg: &str, logic: &str) -> String {
    format!(
        "{attributes} void can_handle_{msg}(can_frame* frame) {{\n  can_message_{msg} msg;\n  can_deserialize_can_message_{msg}(frame, &msg);\n{logic}}}\n"
    )
}

#[test]
fn no_messages_no_handlers() {
    assert_eq!(run(&node(vec![], vec![])), "/*start*/\n");
}

#[test]
fn external_message_has_weak_handler() {
    let n = node(vec![message("ext", MessageUsage::External { interval_ns: 5 }, 0)], vec![]);
    assert_eq!(run(&n), format!("/*start*/\n{}", handler("__attribute__((weak))", "ext", "")));
}

#[test]
fn heartbeat_and_command_response_have_empty_handlers() {
    let c = Command {
        name: "reset".to_owned(),
        tx_message: Box::new(message("reset_req", MessageUsage::Heartbeat, 0)),
        rx_message: Box::new(message("reset_resp", MessageUsage::Heartbeat, 0)),
    };
    let n = node(vec![message("hb", MessageUsage::Heartbeat, 0), message("cr", MessageUsage::CommandResp(c), 0)], vec![]);
    assert_eq!(run(&n), format!("/*start*/\n{}{}", handler("static", "hb", ""), handler("static", "cr", "")));
}

#[test]
fn stream_copies_mapped_attributes() {
    let mapping = vec![Some(oe("a", 0, u(8))), None, Some(oe("c", 2, u(8))), Some(oe("d", 3, u(8)))];
    let m = encoded("s", MessageUsage::Stream(mapping), vec![attribute("x"), attribute("y"), attribute("z")]);
    let n = node(vec![m], vec![]);
    assert_eq!(
        run(&n),
        format!("/*start*/\n{}", handler("static", "s", "  __oe_a = msg.x;\n  __oe_c = msg.z;\n"))
    );
}

#[test]
fn command_request_calls_command_and_responds() {
    let req = encoded("reset_req", MessageUsage::Heartbeat, vec![attribute("p"), attribute("q")]);
    let c = Command {
        name: "reset".to_owned(),
        tx_message: Box::new(req),
        rx_message: Box::new(message("reset_resp", MessageUsage::Heartbeat, 1)),
    };
    let n = node(vec![message("cq", MessageUsage::CommandReq(c), 0)], vec![]);
    let logic = [
        "  can_message_reset_resp resp;\n",
        "  resp.erno = can_reset(msg.p, msg.q);\n",
        "  can_frame resp_frame;\n",
        "  can_serialize_can_message_reset_resp(&resp, &resp_frame);\n",
        "  can_can1_send(&resp_frame);\n",
    ]
    .concat();
    assert_eq!(run(&n), format!("/*start*/\n{}", handler("static", "cq", &logic)));
}

#[test]
fn get_request_small_and_fragmented_entries() {
    let n = node(
        vec![message("get_req", MessageUsage::GetReq, 0)],
        vec![oe("e1", 1, u(8)), oe("e2", 2, u(64))],
    );
    let case1 = [
        "  case 1: {\n",
        "    resp.data = (uint32_t)(__oe_e1 & (0xFF >> (8 - 8)));\n",
        "    resp.header.sof = 1;\n",
        "    resp.header.eof = 1;\n",
        "    resp.header.toggle = 1;\n",
        "    break;\n",
        "  }\n",
    ]
    .concat();
    let frag = [
        "    {\n",
        "      uint64_t masked = (__oe_e2 & (0xFFFFFFFFFFFFFFFF >> (64 - 64)));\n",
        "      __oe_e2_rx_fragmentation_buffer[0] = ((uint32_t*)&masked)[0];\n",
        "      __oe_e2_rx_fragmentation_buffer[1] = ((uint32_t*)&masked)[1];\n",
        "    }",
    ]
    .concat();
    let case2 = [
        "  case 2: {\n",
        frag.as_str(),
        "\n",
        "    resp.data = __oe_e2_rx_fragmentation_buffer[0];\n",
        "    resp.header.sof = 1;\n",
        "    resp.header.eof = 0;\n",
        "    resp.header.toggle = 1;\n",
        "    schedule_get_resp_fragmentation_job(__oe_e2_rx_fragmentation_buffer, 2, 2, msg.header.server_id);\n",
        "    break;\n",
        "  }\n",
    ]
    .concat();
    let logic = [
        "  if (msg.header.server_id != 3) {\n",
        "    return;\n",
        "  }\n",
        "  can_message_get_resp resp;\n",
        "  switch (msg.header.od_index) {\n",
        case1.as_str(),
        case2.as_str(),
        "  }\n",
        "  resp.header.od_index = msg.header.od_index;\n",
        "  resp.header.client_id = msg.header.client_id;\n",
        "  resp.header.server_id = msg.header.server_id;\n",
        "  can_frame resp_frame;\n",
        "  can_serialize_can_message_get_resp(&resp, &resp_frame);\n",
        "  can_can1_send(&resp_frame);\n",
    ]
    .concat();
    assert_eq!(
        run(&n),
        format!(
            "/*start*/\nstatic uint32_t __oe_e2_rx_fragmentation_buffer[2];\n{}",
            handler("static", "get_req", &logic)
        )
    );
}

#[test]
fn get_request_struct_fragmentation() {
    let point = Type::Struct {
        name: "point".to_owned(),
        attribs: vec![
            ("x".to_owned(), Type::Primitive(SignalType::SignedInt { size: 16 })),
            ("y".to_owned(), Type::Enum { name: "mode".to_owned(), size: 8, entries: vec![] }),
            ("z".to_owned(), u(40)),
        ],
    };
    let n = node(vec![message("get_req", MessageUsage::GetReq, 0)], vec![oe("p", 9, point)]);
    let out = run(&n);
    assert!(out.starts_with("/*start*/\nstatic uint32_t __oe_p_rx_fragmentation_buffer[2];\n"));
    assert!(out.contains("  case 9: {\n    __oe_p_rx_fragmentation_buffer[0] = (((uint16_t)__oe_p.x) & (0xFFFF >> (16 - 16)));\n"));
    assert!(out.contains("__oe_p_rx_fragmentation_buffer[0] = (__oe_p.y & (0xFF >> (8 - 8)));\n"));
    assert!(out.contains("      uint64_t masked = (__oe_p.z & (0xFFFFFFFFFFFFFFFF >> (64 - 40)));\n"));
    assert!(out.contains("schedule_get_resp_fragmentation_job(__oe_p_rx_fragmentation_buffer, 2, 9, msg.header.server_id);\n"));
}

#[test]
fn set_request_small_and_fragmented_entries() {
    let n = node(
        vec![message("set_req", MessageUsage::SetReq, 0)],
        vec![oe("e1", 1, u(8)), oe("e2", 2, u(64))],
    );
    let case1 = [
        "  case 1 : {\n",
        "    if (msg.header.sof != 1 || msg.header.toggle != 1 || msg.header.eof != 1) {\n",
        "      return;\n",
        "    }\n",
        "    __oe_e1 = (uint8_t)(msg.data & (0xFFFFFFFF >> (32 - 8)));\n",
        "    break;\n",
        "  }\n",
    ]
    .concat();
    let write = "    __oe_e2 = (uint64_t)__oe_e2_tx_fragmentation_buffer[0] | (((uint64_t)(__oe_e2_tx_fragmentation_buffer[1] & (0xFFFFFFFF >> (32 - 32)))) << 32);\n";
    let case2 = [
        "  case 2 : {\n",
        "    if (msg.header.sof == 1) {\n",
        "      if (msg.header.toggle == 0 || msg.header.eof != 0) {\n",
        "        return;\n",
        "      }\n",
        "      __oe_e2_tx_fragmentation_offset = 0;\n",
        "    }else {\n",
        "      __oe_e2_tx_fragmentation_offset += 1;\n",
        "      if (__oe_e2_tx_fragmentation_offset >= 2) {\n",
        "        return;\n",
        "      }\n",
        "    }\n",
        "    __oe_e2_tx_fragmentation_buffer[__oe_e2_tx_fragmentation_offset] = msg.data;\n",
        "    if (msg.header.eof == 0) {\n",
        "      return;\n",
        "    }\n",
        write,
        "\n",
        "    break;\n",
        "  }\n",
    ]
    .concat();
    let logic = [
        "  if (msg.header.server_id != 3) {\n",
        "    return;\n",
        "  }\n",
        "  can_message_set_resp resp;\n",
        "  switch (msg.header.od_index) {\n",
        case1.as_str(),
        case2.as_str(),
        "  default:\n",
        "    return;\n",
        "  }",
        "\n",
        "  resp.header.od_index = msg.header.od_index;\n",
        "  resp.header.client_id = msg.header.client_id;\n",
        "  resp.header.server_id = msg.header.server_id;\n",
        "  resp.header.erno = set_resp_erno_Success;\n",
        "  canzero_frame resp_frame;\n",
        "  can_serialize_can_message_set_resp(&resp, &resp_frame);\n",
        "  can_can0_send(&resp_frame);\n\n",
    ]
    .concat();
    assert_eq!(
        run(&n),
        format!(
            "/*start*/\nstatic uint32_t __oe_e2_tx_fragmentation_buffer[2];\nstatic uint32_t __oe_e2_tx_fragmentation_offset = 0;\n{}",
            handler("static", "set_req", &logic)
        )
    );
}

#[test]
fn set_request_struct_is_parsed_attribute_by_attribute() {
    let pair = Type::Struct { name: "pair".to_owned(), attribs: vec![("a".to_owned(), u(4)), ("b".to_owned(), u(4))] };
    let n = node(vec![message("set_req", MessageUsage::SetReq, 0)], vec![oe("p", 4, pair)]);
    let out = run(&n);
    assert!(out.contains(
        "    __oe_p.a = (uint8_t)(msg.data & (0xFFFFFFFF >> (32 - 4)))__oe_p.b = (uint8_t)(msg.data & (0xFFFFFFFF >> (32 - 4)));\n"
    ));
}
