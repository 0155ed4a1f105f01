//! Handlers of the messages a node receives: copying streamed values,
//! answering commands, and serving get and set requests on the object
//! dictionary, with fragmentation of values over 32 bits.
use vstd::prelude::*;
use vstd::string::*;
use crate::config::{Command, Message, MessageUsage, Network, Node, ObjectEntry, SignalType, Type, TypeSignalEncoding};
use crate::errors::Error;
use crate::object_entries::oe_var;
use crate::options::Options;
use crate::text::{concat_str, dec, dec_string, spaces, spaces_string};

verus! {

/// Copying a mapped object entry from the received stream message.
pub open spec fn t_stream_assign(indent: Seq<char>, object_entry_var: Seq<char>, msg_attribute: Seq<char>) -> Seq<char> {
    indent + object_entry_var + " = msg."@ + msg_attribute + ";\n"@
}

fn t_stream_assign_exec(indent_s: &str, object_entry_var_s: &str, msg_attribute_s: &str) -> (t: String)
    ensures
        t@ == t_stream_assign(indent_s@, object_entry_var_s@, msg_attribute_s@),
{
    let ghost indent = indent_s@;
    let ghost object_entry_var = object_entry_var_s@;
    let ghost msg_attribute = msg_attribute_s@;
    let mut t = String::new();
    t.append(indent_s);
    t.append(object_entry_var_s);
    t.append(" = msg.");
    t.append(msg_attribute_s);
    t.append(";\n");
    t
}

/// Answering a command request: call the command and send its response.
pub open spec fn t_command_resp(indent: Seq<char>, namespace: Seq<char>, resp_msg_name: Seq<char>, command_name: Seq<char>, attribute_list: Seq<char>, frame_type_name: Seq<char>, resp_bus_id: Seq<char>) -> Seq<char> {
    indent + namespace + "_message_"@ + resp_msg_name + " resp;\n"@ + indent + "resp.erno = "@ + namespace + "_"@ + command_name + "("@ + attribute_list + ");\n"@ + indent + frame_type_name + " resp_frame;\n"@ + indent + namespace + "_serialize_"@ + namespace + "_message_"@ + resp_msg_name + "(&resp, &resp_frame);\n"@ + indent + namespace + "_can"@ + resp_bus_id + "_send(&resp_frame);\n"@
}

fn t_command_resp_exec(indent_s: &str, namespace_s: &str, resp_msg_name_s: &str, command_name_s: &str, attribute_list_s: &str, frame_type_name_s: &str, resp_bus_id_s: &str) -> (t: String)
    ensures
        t@ == t_command_resp(indent_s@, namespace_s@, resp_msg_name_s@, command_name_s@, attribute_list_s@, frame_type_name_s@, resp_bus_id_s@),
{
    let ghost indent = indent_s@;
    let ghost namespace = namespace_s@;
    let ghost resp_msg_name = resp_msg_name_s@;
    let ghost command_name = command_name_s@;
    let ghost attribute_list = attribute_list_s@;
    let ghost frame_type_name = frame_type_name_s@;
    let ghost resp_bus_id = resp_bus_id_s@;
    let mut t = String::new();
    t.append(indent_s);
    t.append(namespace_s);
    t.append("_message_");
    t.append(resp_msg_name_s);
    t.append(" resp;\n");
    t.append(indent_s);
    t.append("resp.erno = ");
    t.append(namespace_s);
    t.append("_");
    t.append(command_name_s);
    t.append("(");
    t.append(attribute_list_s);
    t.append(");\n");
    t.append(indent_s);
    t.append(frame_type_name_s);
    t.append(" resp_frame;\n");
    t.append(indent_s);
    t.append(namespace_s);
    t.append("_serialize_");
    t.append(namespace_s);
    t.append("_message_");
    t.append(resp_msg_name_s);
    t.append("(&resp, &resp_frame);\n");
    t.append(indent_s);
    t.append(namespace_s);
    t.append("_can");
    t.append(resp_bus_id_s);
    t.append("_send(&resp_frame);\n");
    t
}

/// The response data of an unsigned entry of at most 8 bits.
pub open spec fn t_get_u8(indent2: Seq<char>, var: Seq<char>, size: Seq<char>) -> Seq<char> {
    indent2 + "resp.data = (uint32_t)("@ + var + " & (0xFF >> (8 - "@ + size + ")));\n"@
}

fn t_get_u8_exec(indent2_s: &str, var_s: &str, size_s: &str) -> (t: String)
    ensures
        t@ == t_get_u8(indent2_s@, var_s@, size_s@),
{
    let ghost indent2 = indent2_s@;
    let ghost var = var_s@;
    let ghost size = size_s@;
    let mut t = String::new();
    t.append(indent2_s);
    t.append("resp.data = (uint32_t)(");
    t.append(var_s);
    t.append(" & (0xFF >> (8 - ");
    t.append(size_s);
    t.append(")));\n");
    t
}

/// The response data of an unsigned entry of at most 16 bits.
pub open spec fn t_get_u16(indent2: Seq<char>, var: Seq<char>, size: Seq<char>) -> Seq<char> {
    indent2 + "resp.data = (uint32_t)("@ + var + " & (0xFFFF >> (16 - "@ + size + ");\n"@
}

fn t_get_u16_exec(indent2_s: &str, var_s: &str, size_s: &str) -> (t: String)
    ensures
        t@ == t_get_u16(indent2_s@, var_s@, size_s@),
{
    let ghost indent2 = indent2_s@;
    let ghost var = var_s@;
    let ghost size = size_s@;
    let mut t = String::new();
    t.append(indent2_s);
    t.append("resp.data = (uint32_t)(");
    t.append(var_s);
    t.append(" & (0xFFFF >> (16 - ");
    t.append(size_s);
    t.append(");\n");
    t
}

/// The response data of an unsigned entry of at most 32 bits.
pub open spec fn t_get_u32(indent2: Seq<char>, var: Seq<char>, size: Seq<char>) -> Seq<char> {
    indent2 + "resp.data = "@ + var + " & (0xFFFFFFFF >> (32 - "@ + size + ";\n"@
}

fn t_get_u32_exec(indent2_s: &str, var_s: &str, size_s: &str) -> (t: String)
    ensures
        t@ == t_get_u32(indent2_s@, var_s@, size_s@),
{
    let ghost indent2 = indent2_s@;
    let ghost var = var_s@;
    let ghost size = size_s@;
    let mut t = String::new();
    t.append(indent2_s);
    t.append("resp.data = ");
    t.append(var_s);
    t.append(" & (0xFFFFFFFF >> (32 - ");
    t.append(size_s);
    t.append(";\n");
    t
}

/// The response data of a signed entry of at most 8 bits.
pub open spec fn t_get_i8(indent2: Seq<char>, var: Seq<char>, size: Seq<char>) -> Seq<char> {
    indent2 + "resp.data = (uint32_t)(((uint8_t)"@ + var + ") & (0xFF >> (8 - "@ + size + ")));\n"@
}

fn t_get_i8_exec(indent2_s: &str, var_s: &str, size_s: &str) -> (t: String)
    ensures
        t@ == t_get_i8(indent2_s@, var_s@, size_s@),
{
    let ghost indent2 = indent2_s@;
    let ghost var = var_s@;
    let ghost size = size_s@;
    let mut t = String::new();
    t.append(indent2_s);
    t.append("resp.data = (uint32_t)(((uint8_t)");
    t.append(var_s);
    t.append(") & (0xFF >> (8 - ");
    t.append(size_s);
    t.append(")));\n");
    t
}

/// The response data of a signed entry of at most 16 bits.
pub open spec fn t_get_i16(indent2: Seq<char>, var: Seq<char>, size: Seq<char>) -> Seq<char> {
    indent2 + "resp.data = (uint32_t)(((uint16_t)"@ + var + ") & (0xFFFF >> (16 - "@ + size + ");\n"@
}

fn t_get_i16_exec(indent2_s: &str, var_s: &str, size_s: &str) -> (t: String)
    ensures
        t@ == t_get_i16(indent2_s@, var_s@, size_s@),
{
    let ghost indent2 = indent2_s@;
    let ghost var = var_s@;
    let ghost size = size_s@;
    let mut t = String::new();
    t.append(indent2_s);
    t.append("resp.data = (uint32_t)(((uint16_t)");
    t.append(var_s);
    t.append(") & (0xFFFF >> (16 - ");
    t.append(size_s);
    t.append(");\n");
    t
}

/// The response data of a signed entry of at most 32 bits.
pub open spec fn t_get_i32(indent2: Seq<char>, var: Seq<char>, size: Seq<char>) -> Seq<char> {
    indent2 + "resp.data = (uint32_t)(((uint32_t)"@ + var + ") & (0xFFFFFFFF >> (32 - "@ + size + ");\n"@
}

fn t_get_i32_exec(indent2_s: &str, var_s: &str, size_s: &str) -> (t: String)
    ensures
        t@ == t_get_i32(indent2_s@, var_s@, size_s@),
{
    let ghost indent2 = indent2_s@;
    let ghost var = var_s@;
    let ghost size = size_s@;
    let mut t = String::new();
    t.append(indent2_s);
    t.append("resp.data = (uint32_t)(((uint32_t)");
    t.append(var_s);
    t.append(") & (0xFFFFFFFF >> (32 - ");
    t.append(size_s);
    t.append(");\n");
    t
}

/// The response data of a decimal entry of at most 32 bits.
pub open spec fn t_get_dec(indent2: Seq<char>, var: Seq<char>, offset: Seq<char>, scale: Seq<char>) -> Seq<char> {
    indent2 + "resp.data = (uint32_t)(("@ + var + " - ("@ + offset + ")) / "@ + scale + ");\n"@
}

fn t_get_dec_exec(indent2_s: &str, var_s: &str, offset_s: &str, scale_s: &str) -> (t: String)
    ensures
        t@ == t_get_dec(indent2_s@, var_s@, offset_s@, scale_s@),
{
    let ghost indent2 = indent2_s@;
    let ghost var = var_s@;
    let ghost offset = offset_s@;
    let ghost scale = scale_s@;
    let mut t = String::new();
    t.append(indent2_s);
    t.append("resp.data = (uint32_t)((");
    t.append(var_s);
    t.append(" - (");
    t.append(offset_s);
    t.append(")) / ");
    t.append(scale_s);
    t.append(");\n");
    t
}

/// The response data of an enum entry of at most 8 bits.
pub open spec fn t_get_e8(indent2: Seq<char>, var: Seq<char>, size: Seq<char>) -> Seq<char> {
    indent2 + "resp.data = (uint32_t)(((uint8_t)"@ + var + ") & (0xFF >> (8 - "@ + size + ")));\n"@
}

fn t_get_e8_exec(indent2_s: &str, var_s: &str, size_s: &str) -> (t: String)
    ensures
        t@ == t_get_e8(indent2_s@, var_s@, size_s@),
{
    let ghost indent2 = indent2_s@;
    let ghost var = var_s@;
    let ghost size = size_s@;
    let mut t = String::new();
    t.append(indent2_s);
    t.append("resp.data = (uint32_t)(((uint8_t)");
    t.append(var_s);
    t.append(") & (0xFF >> (8 - ");
    t.append(size_s);
    t.append(")));\n");
    t
}

/// The response data of an enum entry of at most 16 bits.
pub open spec fn t_get_e16(indent2: Seq<char>, var: Seq<char>, size: Seq<char>) -> Seq<char> {
    indent2 + "resp.data = (uint32_t)(((uint16_t)"@ + var + ") & (0xFFFF >> (16 - "@ + size + ");\n"@
}

fn t_get_e16_exec(indent2_s: &str, var_s: &str, size_s: &str) -> (t: String)
    ensures
        t@ == t_get_e16(indent2_s@, var_s@, size_s@),
{
    let ghost indent2 = indent2_s@;
    let ghost var = var_s@;
    let ghost size = size_s@;
    let mut t = String::new();
    t.append(indent2_s);
    t.append("resp.data = (uint32_t)(((uint16_t)");
    t.append(var_s);
    t.append(") & (0xFFFF >> (16 - ");
    t.append(size_s);
    t.append(");\n");
    t
}

/// The response data of an enum entry of at most 32 bits.
pub open spec fn t_get_e32(indent2: Seq<char>, var: Seq<char>, size: Seq<char>) -> Seq<char> {
    indent2 + "resp.data = ((uint32_t)"@ + var + ") & (0xFFFFFFFF >> (32 - "@ + size + ";\n"@
}

fn t_get_e32_exec(indent2_s: &str, var_s: &str, size_s: &str) -> (t: String)
    ensures
        t@ == t_get_e32(indent2_s@, var_s@, size_s@),
{
    let ghost indent2 = indent2_s@;
    let ghost var = var_s@;
    let ghost size = size_s@;
    let mut t = String::new();
    t.append(indent2_s);
    t.append("resp.data = ((uint32_t)");
    t.append(var_s);
    t.append(") & (0xFFFFFFFF >> (32 - ");
    t.append(size_s);
    t.append(";\n");
    t
}

/// The get request case of an entry that fits one response frame.
pub open spec fn t_get_case_small(indent: Seq<char>, id: Seq<char>, oe_value: Seq<char>, indent2: Seq<char>) -> Seq<char> {
    indent + "case "@ + id + ": {\n"@ + oe_value + indent2 + "resp.header.sof = 1;\n"@ + indent2 + "resp.header.eof = 1;\n"@ + indent2 + "resp.header.toggle = 1;\n"@ + indent2 + "break;\n"@ + indent + "}\n"@
}

fn t_get_case_small_exec(indent_s: &str, id_s: &str, oe_value_s: &str, indent2_s: &str) -> (t: String)
    ensures
        t@ == t_get_case_small(indent_s@, id_s@, oe_value_s@, indent2_s@),
{
    let ghost indent = indent_s@;
    let ghost id = id_s@;
    let ghost oe_value = oe_value_s@;
    let ghost indent2 = indent2_s@;
    let mut t = String::new();
    t.append(indent_s);
    t.append("case ");
    t.append(id_s);
    t.append(": {\n");
    t.append(oe_value_s);
    t.append(indent2_s);
    t.append("resp.header.sof = 1;\n");
    t.append(indent2_s);
    t.append("resp.header.eof = 1;\n");
    t.append(indent2_s);
    t.append("resp.header.toggle = 1;\n");
    t.append(indent2_s);
    t.append("break;\n");
    t.append(indent_s);
    t.append("}\n");
    t
}

/// The fragmentation buffer of an entry sent in several frames.
pub open spec fn t_get_buffer_def(buffer_name: Seq<char>, arg0: Seq<char>) -> Seq<char> {
    "static uint32_t "@ + buffer_name + "["@ + arg0 + "];\n"@
}

fn t_get_buffer_def_exec(buffer_name_s: &str, arg0_s: &str) -> (t: String)
    ensures
        t@ == t_get_buffer_def(buffer_name_s@, arg0_s@),
{
    let ghost buffer_name = buffer_name_s@;
    let ghost arg0 = arg0_s@;
    let mut t = String::new();
    t.append("static uint32_t ");
    t.append(buffer_name_s);
    t.append("[");
    t.append(arg0_s);
    t.append("];\n");
    t
}

/// A signed value viewed as 8 unsigned bits.
pub open spec fn t_cast_u8(var: Seq<char>) -> Seq<char> {
    "((uint8_t)"@ + var + ")"@
}

fn t_cast_u8_exec(var_s: &str) -> (t: String)
    ensures
        t@ == t_cast_u8(var_s@),
{
    let ghost var = var_s@;
    let mut t = String::new();
    t.append("((uint8_t)");
    t.append(var_s);
    t.append(")");
    t
}

/// A signed value viewed as 16 unsigned bits.
pub open spec fn t_cast_u16(var: Seq<char>) -> Seq<char> {
    "((uint16_t)"@ + var + ")"@
}

fn t_cast_u16_exec(var_s: &str) -> (t: String)
    ensures
        t@ == t_cast_u16(var_s@),
{
    let ghost var = var_s@;
    let mut t = String::new();
    t.append("((uint16_t)");
    t.append(var_s);
    t.append(")");
    t
}

/// A signed value viewed as 32 unsigned bits.
pub open spec fn t_cast_u32(var: Seq<char>) -> Seq<char> {
    "((uint32_t)"@ + var + ")"@
}

fn t_cast_u32_exec(var_s: &str) -> (t: String)
    ensures
        t@ == t_cast_u32(var_s@),
{
    let ghost var = var_s@;
    let mut t = String::new();
    t.append("((uint32_t)");
    t.append(var_s);
    t.append(")");
    t
}

/// A signed value viewed as 64 unsigned bits.
pub open spec fn t_cast_u64(var: Seq<char>) -> Seq<char> {
    "((uint64_t)"@ + var + ")"@
}

fn t_cast_u64_exec(var_s: &str) -> (t: String)
    ensures
        t@ == t_cast_u64(var_s@),
{
    let ghost var = var_s@;
    let mut t = String::new();
    t.append("((uint64_t)");
    t.append(var_s);
    t.append(")");
    t
}

/// The raw 8-bit value of a decimal.
pub open spec fn t_raw_d8(var: Seq<char>, offset: Seq<char>, scale: Seq<char>) -> Seq<char> {
    "((uint8_t)(("@ + var + " - ((float)"@ + offset + ")) / (float)"@ + scale + "))"@
}

fn t_raw_d8_exec(var_s: &str, offset_s: &str, scale_s: &str) -> (t: String)
    ensures
        t@ == t_raw_d8(var_s@, offset_s@, scale_s@),
{
    let ghost var = var_s@;
    let ghost offset = offset_s@;
    let ghost scale = scale_s@;
    let mut t = String::new();
    t.append("((uint8_t)((");
    t.append(var_s);
    t.append(" - ((float)");
    t.append(offset_s);
    t.append(")) / (float)");
    t.append(scale_s);
    t.append("))");
    t
}

/// The raw 16-bit value of a decimal.
pub open spec fn t_raw_d16(var: Seq<char>, offset: Seq<char>, scale: Seq<char>) -> Seq<char> {
    "((uint16_t)(("@ + var + " - ((float)"@ + offset + ")) / (float)"@ + scale + "))"@
}

fn t_raw_d16_exec(var_s: &str, offset_s: &str, scale_s: &str) -> (t: String)
    ensures
        t@ == t_raw_d16(var_s@, offset_s@, scale_s@),
{
    let ghost var = var_s@;
    let ghost offset = offset_s@;
    let ghost scale = scale_s@;
    let mut t = String::new();
    t.append("((uint16_t)((");
    t.append(var_s);
    t.append(" - ((float)");
    t.append(offset_s);
    t.append(")) / (float)");
    t.append(scale_s);
    t.append("))");
    t
}

/// The raw 32-bit value of a decimal.
pub open spec fn t_raw_d32(var: Seq<char>, offset: Seq<char>, scale: Seq<char>) -> Seq<char> {
    "((uint32_t)(("@ + var + " - ((float)"@ + offset + ")) / (float)"@ + scale + "))"@
}

fn t_raw_d32_exec(var_s: &str, offset_s: &str, scale_s: &str) -> (t: String)
    ensures
        t@ == t_raw_d32(var_s@, offset_s@, scale_s@),
{
    let ghost var = var_s@;
    let ghost offset = offset_s@;
    let ghost scale = scale_s@;
    let mut t = String::new();
    t.append("((uint32_t)((");
    t.append(var_s);
    t.append(" - ((float)");
    t.append(offset_s);
    t.append(")) / (float)");
    t.append(scale_s);
    t.append("))");
    t
}

/// The raw 64-bit value of a decimal.
pub open spec fn t_raw_d64(var: Seq<char>, offset: Seq<char>, scale: Seq<char>) -> Seq<char> {
    "((uint64_t)(("@ + var + " - ((double)"@ + offset + ")) / (double)"@ + scale + "))"@
}

fn t_raw_d64_exec(var_s: &str, offset_s: &str, scale_s: &str) -> (t: String)
    ensures
        t@ == t_raw_d64(var_s@, offset_s@, scale_s@),
{
    let ghost var = var_s@;
    let ghost offset = offset_s@;
    let ghost scale = scale_s@;
    let mut t = String::new();
    t.append("((uint64_t)((");
    t.append(var_s);
    t.append(" - ((double)");
    t.append(offset_s);
    t.append(")) / (double)");
    t.append(scale_s);
    t.append("))");
    t
}

/// A value masked to its size, within 8 bits.
pub open spec fn t_mask8(val: Seq<char>, size: Seq<char>) -> Seq<char> {
    "("@ + val + " & (0xFF >> (8 - "@ + size + ")))"@
}

fn t_mask8_exec(val_s: &str, size_s: &str) -> (t: String)
    ensures
        t@ == t_mask8(val_s@, size_s@),
{
    let ghost val = val_s@;
    let ghost size = size_s@;
    let mut t = String::new();
    t.append("(");
    t.append(val_s);
    t.append(" & (0xFF >> (8 - ");
    t.append(size_s);
    t.append(")))");
    t
}

/// A value masked to its size, within 16 bits.
pub open spec fn t_mask16(val: Seq<char>, size: Seq<char>) -> Seq<char> {
    "("@ + val + " & (0xFFFF >> (16 - "@ + size + ")))"@
}

fn t_mask16_exec(val_s: &str, size_s: &str) -> (t: String)
    ensures
        t@ == t_mask16(val_s@, size_s@),
{
    let ghost val = val_s@;
    let ghost size = size_s@;
    let mut t = String::new();
    t.append("(");
    t.append(val_s);
    t.append(" & (0xFFFF >> (16 - ");
    t.append(size_s);
    t.append(")))");
    t
}

/// A value masked to its size, within 32 bits.
pub open spec fn t_mask32(val: Seq<char>, size: Seq<char>) -> Seq<char> {
    "("@ + val + " & (0xFFFFFFFF >> (32 - "@ + size + ")))"@
}

fn t_mask32_exec(val_s: &str, size_s: &str) -> (t: String)
    ensures
        t@ == t_mask32(val_s@, size_s@),
{
    let ghost val = val_s@;
    let ghost size = size_s@;
    let mut t = String::new();
    t.append("(");
    t.append(val_s);
    t.append(" & (0xFFFFFFFF >> (32 - ");
    t.append(size_s);
    t.append(")))");
    t
}

/// A value masked to its size, within 64 bits.
pub open spec fn t_mask64(val: Seq<char>, size: Seq<char>) -> Seq<char> {
    "("@ + val + " & (0xFFFFFFFFFFFFFFFF >> (64 - "@ + size + ")))"@
}

fn t_mask64_exec(val_s: &str, size_s: &str) -> (t: String)
    ensures
        t@ == t_mask64(val_s@, size_s@),
{
    let ghost val = val_s@;
    let ghost size = size_s@;
    let mut t = String::new();
    t.append("(");
    t.append(val_s);
    t.append(" & (0xFFFFFFFFFFFFFFFF >> (64 - ");
    t.append(size_s);
    t.append(")))");
    t
}

/// Storing a word-aligned value into the buffer.
pub open spec fn t_frag_set(indent2: Seq<char>, buffer: Seq<char>, word_offset: Seq<char>, val: Seq<char>) -> Seq<char> {
    indent2 + buffer + "["@ + word_offset + "] = "@ + val + ";\n"@
}

fn t_frag_set_exec(indent2_s: &str, buffer_s: &str, word_offset_s: &str, val_s: &str) -> (t: String)
    ensures
        t@ == t_frag_set(indent2_s@, buffer_s@, word_offset_s@, val_s@),
{
    let ghost indent2 = indent2_s@;
    let ghost buffer = buffer_s@;
    let ghost word_offset = word_offset_s@;
    let ghost val = val_s@;
    let mut t = String::new();
    t.append(indent2_s);
    t.append(buffer_s);
    t.append("[");
    t.append(word_offset_s);
    t.append("] = ");
    t.append(val_s);
    t.append(";\n");
    t
}

/// Oring a value that reaches the word end into the buffer.
pub open spec fn t_frag_or(indent2: Seq<char>, buffer: Seq<char>, word_offset: Seq<char>, val: Seq<char>, shift: Seq<char>) -> Seq<char> {
    indent2 + buffer + "["@ + word_offset + "] |= ("@ + val + " << "@ + shift + ");\n"@
}

fn t_frag_or_exec(indent2_s: &str, buffer_s: &str, word_offset_s: &str, val_s: &str, shift_s: &str) -> (t: String)
    ensures
        t@ == t_frag_or(indent2_s@, buffer_s@, word_offset_s@, val_s@, shift_s@),
{
    let ghost indent2 = indent2_s@;
    let ghost buffer = buffer_s@;
    let ghost word_offset = word_offset_s@;
    let ghost val = val_s@;
    let ghost shift = shift_s@;
    let mut t = String::new();
    t.append(indent2_s);
    t.append(buffer_s);
    t.append("[");
    t.append(word_offset_s);
    t.append("] |= (");
    t.append(val_s);
    t.append(" << ");
    t.append(shift_s);
    t.append(");\n");
    t
}

/// Oring the lower part of a value into the buffer.
pub open spec fn t_frag_lower(indent2: Seq<char>, buffer: Seq<char>, lower_word_offset: Seq<char>, val: Seq<char>, lower_shift: Seq<char>) -> Seq<char> {
    indent2 + buffer + "["@ + lower_word_offset + "] |= ("@ + val + " << "@ + lower_shift + ");\n"@
}

fn t_frag_lower_exec(indent2_s: &str, buffer_s: &str, lower_word_offset_s: &str, val_s: &str, lower_shift_s: &str) -> (t: String)
    ensures
        t@ == t_frag_lower(indent2_s@, buffer_s@, lower_word_offset_s@, val_s@, lower_shift_s@),
{
    let ghost indent2 = indent2_s@;
    let ghost buffer = buffer_s@;
    let ghost lower_word_offset = lower_word_offset_s@;
    let ghost val = val_s@;
    let ghost lower_shift = lower_shift_s@;
    let mut t = String::new();
    t.append(indent2_s);
    t.append(buffer_s);
    t.append("[");
    t.append(lower_word_offset_s);
    t.append("] |= (");
    t.append(val_s);
    t.append(" << ");
    t.append(lower_shift_s);
    t.append(");\n");
    t
}

/// Storing the upper part of a value into the next word.
pub open spec fn t_frag_upper(indent2: Seq<char>, buffer: Seq<char>, upper_word_offset: Seq<char>, val: Seq<char>, upper_shift: Seq<char>) -> Seq<char> {
    indent2 + buffer + "["@ + upper_word_offset + "] = ("@ + val + " >> "@ + upper_shift + ");\n"@
}

fn t_frag_upper_exec(indent2_s: &str, buffer_s: &str, upper_word_offset_s: &str, val_s: &str, upper_shift_s: &str) -> (t: String)
    ensures
        t@ == t_frag_upper(indent2_s@, buffer_s@, upper_word_offset_s@, val_s@, upper_shift_s@),
{
    let ghost indent2 = indent2_s@;
    let ghost buffer = buffer_s@;
    let ghost upper_word_offset = upper_word_offset_s@;
    let ghost val = val_s@;
    let ghost upper_shift = upper_shift_s@;
    let mut t = String::new();
    t.append(indent2_s);
    t.append(buffer_s);
    t.append("[");
    t.append(upper_word_offset_s);
    t.append("] = (");
    t.append(val_s);
    t.append(" >> ");
    t.append(upper_shift_s);
    t.append(");\n");
    t
}

/// Opening a block for a 64-bit value.
pub open spec fn t_frag_open(indent2: Seq<char>) -> Seq<char> {
    indent2 + "{\n"@
}

fn t_frag_open_exec(indent2_s: &str) -> (t: String)
    ensures
        t@ == t_frag_open(indent2_s@),
{
    let ghost indent2 = indent2_s@;
    let mut t = String::new();
    t.append(indent2_s);
    t.append("{\n");
    t
}

/// Holding a 64-bit value in a local.
pub open spec fn t_frag_masked(indent3: Seq<char>, val: Seq<char>) -> Seq<char> {
    indent3 + "uint64_t masked = "@ + val + ";\n"@
}

fn t_frag_masked_exec(indent3_s: &str, val_s: &str) -> (t: String)
    ensures
        t@ == t_frag_masked(indent3_s@, val_s@),
{
    let ghost indent3 = indent3_s@;
    let ghost val = val_s@;
    let mut t = String::new();
    t.append(indent3_s);
    t.append("uint64_t masked = ");
    t.append(val_s);
    t.append(";\n");
    t
}

/// Storing the low half of a 64-bit value.
pub open spec fn t_frag_lo_set(indent3: Seq<char>, buffer: Seq<char>, lower_word_offset: Seq<char>) -> Seq<char> {
    indent3 + buffer + "["@ + lower_word_offset + "] = ((uint32_t*)&masked)[0];\n"@
}

fn t_frag_lo_set_exec(indent3_s: &str, buffer_s: &str, lower_word_offset_s: &str) -> (t: String)
    ensures
        t@ == t_frag_lo_set(indent3_s@, buffer_s@, lower_word_offset_s@),
{
    let ghost indent3 = indent3_s@;
    let ghost buffer = buffer_s@;
    let ghost lower_word_offset = lower_word_offset_s@;
    let mut t = String::new();
    t.append(indent3_s);
    t.append(buffer_s);
    t.append("[");
    t.append(lower_word_offset_s);
    t.append("] = ((uint32_t*)&masked)[0];\n");
    t
}

/// Storing the high half of a 64-bit value.
pub open spec fn t_frag_hi_set(indent3: Seq<char>, buffer: Seq<char>, upper_word_offset: Seq<char>) -> Seq<char> {
    indent3 + buffer + "["@ + upper_word_offset + "] = ((uint32_t*)&masked)[1];\n"@
}

fn t_frag_hi_set_exec(indent3_s: &str, buffer_s: &str, upper_word_offset_s: &str) -> (t: String)
    ensures
        t@ == t_frag_hi_set(indent3_s@, buffer_s@, upper_word_offset_s@),
{
    let ghost indent3 = indent3_s@;
    let ghost buffer = buffer_s@;
    let ghost upper_word_offset = upper_word_offset_s@;
    let mut t = String::new();
    t.append(indent3_s);
    t.append(buffer_s);
    t.append("[");
    t.append(upper_word_offset_s);
    t.append("] = ((uint32_t*)&masked)[1];\n");
    t
}

/// Oring the shifted low half of a 64-bit value.
pub open spec fn t_frag_lo_or(indent3: Seq<char>, buffer: Seq<char>, lower_word_offset: Seq<char>, lower_shift_left: Seq<char>) -> Seq<char> {
    indent3 + buffer + "["@ + lower_word_offset + "] |= ((uint32_t*)&masked)[0] << "@ + lower_shift_left + ");\n"@
}

fn t_frag_lo_or_exec(indent3_s: &str, buffer_s: &str, lower_word_offset_s: &str, lower_shift_left_s: &str) -> (t: String)
    ensures
        t@ == t_frag_lo_or(indent3_s@, buffer_s@, lower_word_offset_s@, lower_shift_left_s@),
{
    let ghost indent3 = indent3_s@;
    let ghost buffer = buffer_s@;
    let ghost lower_word_offset = lower_word_offset_s@;
    let ghost lower_shift_left = lower_shift_left_s@;
    let mut t = String::new();
    t.append(indent3_s);
    t.append(buffer_s);
    t.append("[");
    t.append(lower_word_offset_s);
    t.append("] |= ((uint32_t*)&masked)[0] << ");
    t.append(lower_shift_left_s);
    t.append(");\n");
    t
}

/// Storing the rest of the low half in the next word.
pub open spec fn t_frag_lo_rest(indent3: Seq<char>, buffer: Seq<char>, upper_word_offset: Seq<char>, lower_shift_right: Seq<char>) -> Seq<char> {
    indent3 + buffer + "["@ + upper_word_offset + "] = ((uint32_t*)&masked)[0] >> "@ + lower_shift_right + ");\n"@
}

fn t_frag_lo_rest_exec(indent3_s: &str, buffer_s: &str, upper_word_offset_s: &str, lower_shift_right_s: &str) -> (t: String)
    ensures
        t@ == t_frag_lo_rest(indent3_s@, buffer_s@, upper_word_offset_s@, lower_shift_right_s@),
{
    let ghost indent3 = indent3_s@;
    let ghost buffer = buffer_s@;
    let ghost upper_word_offset = upper_word_offset_s@;
    let ghost lower_shift_right = lower_shift_right_s@;
    let mut t = String::new();
    t.append(indent3_s);
    t.append(buffer_s);
    t.append("[");
    t.append(upper_word_offset_s);
    t.append("] = ((uint32_t*)&masked)[0] >> ");
    t.append(lower_shift_right_s);
    t.append(");\n");
    t
}

/// Oring the shifted high half into a word.
pub open spec fn t_frag_hi_or(indent3: Seq<char>, buffer: Seq<char>, upper_word_offset: Seq<char>, upper_shift_left: Seq<char>) -> Seq<char> {
    indent3 + buffer + "["@ + upper_word_offset + "] |= ((uint32_t*)&masked)[1] << "@ + upper_shift_left + ");\n"@
}

fn t_frag_hi_or_exec(indent3_s: &str, buffer_s: &str, upper_word_offset_s: &str, upper_shift_left_s: &str) -> (t: String)
    ensures
        t@ == t_frag_hi_or(indent3_s@, buffer_s@, upper_word_offset_s@, upper_shift_left_s@),
{
    let ghost indent3 = indent3_s@;
    let ghost buffer = buffer_s@;
    let ghost upper_word_offset = upper_word_offset_s@;
    let ghost upper_shift_left = upper_shift_left_s@;
    let mut t = String::new();
    t.append(indent3_s);
    t.append(buffer_s);
    t.append("[");
    t.append(upper_word_offset_s);
    t.append("] |= ((uint32_t*)&masked)[1] << ");
    t.append(upper_shift_left_s);
    t.append(");\n");
    t
}

/// Closing the block of a 64-bit value.
pub open spec fn t_frag_close(indent2: Seq<char>) -> Seq<char> {
    indent2 + "}"@
}

fn t_frag_close_exec(indent2_s: &str) -> (t: String)
    ensures
        t@ == t_frag_close(indent2_s@),
{
    let ghost indent2 = indent2_s@;
    let mut t = String::new();
    t.append(indent2_s);
    t.append("}");
    t
}

/// An enum value masked to its size, within 8 bits.
pub open spec fn t_emask8(var: Seq<char>, size: Seq<char>) -> Seq<char> {
    "("@ + var + " & (0xFF >> (8 - "@ + size + ")))"@
}

fn t_emask8_exec(var_s: &str, size_s: &str) -> (t: String)
    ensures
        t@ == t_emask8(var_s@, size_s@),
{
    let ghost var = var_s@;
    let ghost size = size_s@;
    let mut t = String::new();
    t.append("(");
    t.append(var_s);
    t.append(" & (0xFF >> (8 - ");
    t.append(size_s);
    t.append(")))");
    t
}

/// An enum value masked to its size, within 16 bits.
pub open spec fn t_emask16(var: Seq<char>, size: Seq<char>) -> Seq<char> {
    "("@ + var + " & (0xFFFF >> (16 - "@ + size + ")))"@
}

fn t_emask16_exec(var_s: &str, size_s: &str) -> (t: String)
    ensures
        t@ == t_emask16(var_s@, size_s@),
{
    let ghost var = var_s@;
    let ghost size = size_s@;
    let mut t = String::new();
    t.append("(");
    t.append(var_s);
    t.append(" & (0xFFFF >> (16 - ");
    t.append(size_s);
    t.append(")))");
    t
}

/// An enum value masked to its size, within 32 bits.
pub open spec fn t_emask32(var: Seq<char>, size: Seq<char>) -> Seq<char> {
    "("@ + var + " & (0xFFFFFFFF >> (32 - "@ + size + ")))"@
}

fn t_emask32_exec(var_s: &str, size_s: &str) -> (t: String)
    ensures
        t@ == t_emask32(var_s@, size_s@),
{
    let ghost var = var_s@;
    let ghost size = size_s@;
    let mut t = String::new();
    t.append("(");
    t.append(var_s);
    t.append(" & (0xFFFFFFFF >> (32 - ");
    t.append(size_s);
    t.append(")))");
    t
}

/// An enum value masked to its size, within 64 bits.
pub open spec fn t_emask64(var: Seq<char>, size: Seq<char>) -> Seq<char> {
    "("@ + var + " & (0xFFFFFFFFFFFFFFFF >> (64 - "@ + size + ")))"@
}

fn t_emask64_exec(var_s: &str, size_s: &str) -> (t: String)
    ensures
        t@ == t_emask64(var_s@, size_s@),
{
    let ghost var = var_s@;
    let ghost size = size_s@;
    let mut t = String::new();
    t.append("(");
    t.append(var_s);
    t.append(" & (0xFFFFFFFFFFFFFFFF >> (64 - ");
    t.append(size_s);
    t.append(")))");
    t
}

/// Storing a word-aligned enum value into the buffer.
pub open spec fn t_efrag_set(buffer: Seq<char>, word_offset: Seq<char>, val: Seq<char>) -> Seq<char> {
    buffer + "["@ + word_offset + "] = "@ + val + ";\n"@
}

fn t_efrag_set_exec(buffer_s: &str, word_offset_s: &str, val_s: &str) -> (t: String)
    ensures
        t@ == t_efrag_set(buffer_s@, word_offset_s@, val_s@),
{
    let ghost buffer = buffer_s@;
    let ghost word_offset = word_offset_s@;
    let ghost val = val_s@;
    let mut t = String::new();
    t.append(buffer_s);
    t.append("[");
    t.append(word_offset_s);
    t.append("] = ");
    t.append(val_s);
    t.append(";\n");
    t
}

/// Oring an enum value that reaches the word end into the buffer.
pub open spec fn t_efrag_or(buffer: Seq<char>, word_offset: Seq<char>, val: Seq<char>, shift: Seq<char>) -> Seq<char> {
    buffer + "["@ + word_offset + "] |= ("@ + val + " << "@ + shift + ");\n"@
}

fn t_efrag_or_exec(buffer_s: &str, word_offset_s: &str, val_s: &str, shift_s: &str) -> (t: String)
    ensures
        t@ == t_efrag_or(buffer_s@, word_offset_s@, val_s@, shift_s@),
{
    let ghost buffer = buffer_s@;
    let ghost word_offset = word_offset_s@;
    let ghost val = val_s@;
    let ghost shift = shift_s@;
    let mut t = String::new();
    t.append(buffer_s);
    t.append("[");
    t.append(word_offset_s);
    t.append("] |= (");
    t.append(val_s);
    t.append(" << ");
    t.append(shift_s);
    t.append(");\n");
    t
}

/// Oring the lower part of an enum value into the buffer.
pub open spec fn t_efrag_lower(buffer: Seq<char>, lower_word_offset: Seq<char>, val: Seq<char>, lower_shift: Seq<char>) -> Seq<char> {
    buffer + "["@ + lower_word_offset + "] |= ("@ + val + " << "@ + lower_shift + ");\n"@
}

fn t_efrag_lower_exec(buffer_s: &str, lower_word_offset_s: &str, val_s: &str, lower_shift_s: &str) -> (t: String)
    ensures
        t@ == t_efrag_lower(buffer_s@, lower_word_offset_s@, val_s@, lower_shift_s@),
{
    let ghost buffer = buffer_s@;
    let ghost lower_word_offset = lower_word_offset_s@;
    let ghost val = val_s@;
    let ghost lower_shift = lower_shift_s@;
    let mut t = String::new();
    t.append(buffer_s);
    t.append("[");
    t.append(lower_word_offset_s);
    t.append("] |= (");
    t.append(val_s);
    t.append(" << ");
    t.append(lower_shift_s);
    t.append(");\n");
    t
}

/// Storing the upper part of an enum value into the next word.
pub open spec fn t_efrag_upper(buffer: Seq<char>, upper_word_offset: Seq<char>, val: Seq<char>, upper_shift: Seq<char>) -> Seq<char> {
    buffer + "["@ + upper_word_offset + "] = ("@ + val + " >> "@ + upper_shift + ");\n"@
}

fn t_efrag_upper_exec(buffer_s: &str, upper_word_offset_s: &str, val_s: &str, upper_shift_s: &str) -> (t: String)
    ensures
        t@ == t_efrag_upper(buffer_s@, upper_word_offset_s@, val_s@, upper_shift_s@),
{
    let ghost buffer = buffer_s@;
    let ghost upper_word_offset = upper_word_offset_s@;
    let ghost val = val_s@;
    let ghost upper_shift = upper_shift_s@;
    let mut t = String::new();
    t.append(buffer_s);
    t.append("[");
    t.append(upper_word_offset_s);
    t.append("] = (");
    t.append(val_s);
    t.append(" >> ");
    t.append(upper_shift_s);
    t.append(");\n");
    t
}

/// Opening a block for a 64-bit enum value.
pub open spec fn t_efrag_open() -> Seq<char> {
    "{"@
}

fn t_efrag_open_exec() -> (t: String)
    ensures
        t@ == t_efrag_open(),
{

    let mut t = String::new();
    t.append("{");
    t
}

/// Holding a 64-bit enum value in a local.
pub open spec fn t_efrag_masked(val: Seq<char>) -> Seq<char> {
    "uint64_t masked = "@ + val
}

fn t_efrag_masked_exec(val_s: &str) -> (t: String)
    ensures
        t@ == t_efrag_masked(val_s@),
{
    let ghost val = val_s@;
    let mut t = String::new();
    t.append("uint64_t masked = ");
    t.append(val_s);
    t
}

/// Storing the low half of a 64-bit enum value.
pub open spec fn t_efrag_lo_set(buffer: Seq<char>, lower_word_offset: Seq<char>) -> Seq<char> {
    buffer + "["@ + lower_word_offset + "] = ((uint32_t*)&masked)[0];\n"@
}

fn t_efrag_lo_set_exec(buffer_s: &str, lower_word_offset_s: &str) -> (t: String)
    ensures
        t@ == t_efrag_lo_set(buffer_s@, lower_word_offset_s@),
{
    let ghost buffer = buffer_s@;
    let ghost lower_word_offset = lower_word_offset_s@;
    let mut t = String::new();
    t.append(buffer_s);
    t.append("[");
    t.append(lower_word_offset_s);
    t.append("] = ((uint32_t*)&masked)[0];\n");
    t
}

/// Storing the high half of a 64-bit enum value.
pub open spec fn t_efrag_hi_set(buffer: Seq<char>, upper_word_offset: Seq<char>) -> Seq<char> {
    buffer + "["@ + upper_word_offset + "] = ((uint32_t*)&masked)[1];\n"@
}

fn t_efrag_hi_set_exec(buffer_s: &str, upper_word_offset_s: &str) -> (t: String)
    ensures
        t@ == t_efrag_hi_set(buffer_s@, upper_word_offset_s@),
{
    let ghost buffer = buffer_s@;
    let ghost upper_word_offset = upper_word_offset_s@;
    let mut t = String::new();
    t.append(buffer_s);
    t.append("[");
    t.append(upper_word_offset_s);
    t.append("] = ((uint32_t*)&masked)[1];\n");
    t
}

/// Oring the shifted low half of a 64-bit enum value.
pub open spec fn t_efrag_lo_or(buffer: Seq<char>, lower_word_offset: Seq<char>, lower_shift_left: Seq<char>) -> Seq<char> {
    buffer + "["@ + lower_word_offset + "] |= ((uint32_t*)&masked)[0] << "@ + lower_shift_left + ");\n"@
}

fn t_efrag_lo_or_exec(buffer_s: &str, lower_word_offset_s: &str, lower_shift_left_s: &str) -> (t: String)
    ensures
        t@ == t_efrag_lo_or(buffer_s@, lower_word_offset_s@, lower_shift_left_s@),
{
    let ghost buffer = buffer_s@;
    let ghost lower_word_offset = lower_word_offset_s@;
    let ghost lower_shift_left = lower_shift_left_s@;
    let mut t = String::new();
    t.append(buffer_s);
    t.append("[");
    t.append(lower_word_offset_s);
    t.append("] |= ((uint32_t*)&masked)[0] << ");
    t.append(lower_shift_left_s);
    t.append(");\n");
    t
}

/// Storing the rest of the low half in the next word.
pub open spec fn t_efrag_lo_rest(buffer: Seq<char>, upper_word_offset: Seq<char>, lower_shift_right: Seq<char>) -> Seq<char> {
    buffer + "["@ + upper_word_offset + "] = ((uint32_t*)&masked)[0] >> "@ + lower_shift_right + ");\n"@
}

fn t_efrag_lo_rest_exec(buffer_s: &str, upper_word_offset_s: &str, lower_shift_right_s: &str) -> (t: String)
    ensures
        t@ == t_efrag_lo_rest(buffer_s@, upper_word_offset_s@, lower_shift_right_s@),
{
    let ghost buffer = buffer_s@;
    let ghost upper_word_offset = upper_word_offset_s@;
    let ghost lower_shift_right = lower_shift_right_s@;
    let mut t = String::new();
    t.append(buffer_s);
    t.append("[");
    t.append(upper_word_offset_s);
    t.append("] = ((uint32_t*)&masked)[0] >> ");
    t.append(lower_shift_right_s);
    t.append(");\n");
    t
}

/// Oring the shifted high half into a word.
pub open spec fn t_efrag_hi_or(buffer: Seq<char>, upper_word_offset: Seq<char>, upper_shift_left: Seq<char>) -> Seq<char> {
    buffer + "["@ + upper_word_offset + "] |= ((uint32_t*)&masked)[1] << "@ + upper_shift_left + ");\n"@
}

fn t_efrag_hi_or_exec(buffer_s: &str, upper_word_offset_s: &str, upper_shift_left_s: &str) -> (t: String)
    ensures
        t@ == t_efrag_hi_or(buffer_s@, upper_word_offset_s@, upper_shift_left_s@),
{
    let ghost buffer = buffer_s@;
    let ghost upper_word_offset = upper_word_offset_s@;
    let ghost upper_shift_left = upper_shift_left_s@;
    let mut t = String::new();
    t.append(buffer_s);
    t.append("[");
    t.append(upper_word_offset_s);
    t.append("] |= ((uint32_t*)&masked)[1] << ");
    t.append(upper_shift_left_s);
    t.append(");\n");
    t
}

/// Closing the block of a 64-bit enum value.
pub open spec fn t_efrag_close() -> Seq<char> {
    "}"@
}

fn t_efrag_close_exec() -> (t: String)
    ensures
        t@ == t_efrag_close(),
{

    let mut t = String::new();
    t.append("}");
    t
}

/// The get request case of an entry sent in several frames.
pub open spec fn t_get_case_frag(indent: Seq<char>, id: Seq<char>, fragmentation_logic: Seq<char>, indent2: Seq<char>, buffer_name: Seq<char>, buffer_size: Seq<char>, od_index: Seq<char>) -> Seq<char> {
    indent + "case "@ + id + ": {\n"@ + fragmentation_logic + "\n"@ + indent2 + "resp.data = "@ + buffer_name + "[0];\n"@ + indent2 + "resp.header.sof = 1;\n"@ + indent2 + "resp.header.eof = 0;\n"@ + indent2 + "resp.header.toggle = 1;\n"@ + indent2 + "schedule_get_resp_fragmentation_job("@ + buffer_name + ", "@ + buffer_size + ", "@ + od_index + ", msg.header.server_id);\n"@ + indent2 + "break;\n"@ + indent + "}\n"@
}

fn t_get_case_frag_exec(indent_s: &str, id_s: &str, fragmentation_logic_s: &str, indent2_s: &str, buffer_name_s: &str, buffer_size_s: &str, od_index_s: &str) -> (t: String)
    ensures
        t@ == t_get_case_frag(indent_s@, id_s@, fragmentation_logic_s@, indent2_s@, buffer_name_s@, buffer_size_s@, od_index_s@),
{
    let ghost indent = indent_s@;
    let ghost id = id_s@;
    let ghost fragmentation_logic = fragmentation_logic_s@;
    let ghost indent2 = indent2_s@;
    let ghost buffer_name = buffer_name_s@;
    let ghost buffer_size = buffer_size_s@;
    let ghost od_index = od_index_s@;
    let mut t = String::new();
    t.append(indent_s);
    t.append("case ");
    t.append(id_s);
    t.append(": {\n");
    t.append(fragmentation_logic_s);
    t.append("\n");
    t.append(indent2_s);
    t.append("resp.data = ");
    t.append(buffer_name_s);
    t.append("[0];\n");
    t.append(indent2_s);
    t.append("resp.header.sof = 1;\n");
    t.append(indent2_s);
    t.append("resp.header.eof = 0;\n");
    t.append(indent2_s);
    t.append("resp.header.toggle = 1;\n");
    t.append(indent2_s);
    t.append("schedule_get_resp_fragmentation_job(");
    t.append(buffer_name_s);
    t.append(", ");
    t.append(buffer_size_s);
    t.append(", ");
    t.append(od_index_s);
    t.append(", msg.header.server_id);\n");
    t.append(indent2_s);
    t.append("break;\n");
    t.append(indent_s);
    t.append("}\n");
    t
}

/// The end of the get request switch.
pub open spec fn t_get_case_end(indent: Seq<char>) -> Seq<char> {
    indent + "}\n"@
}

fn t_get_case_end_exec(indent_s: &str) -> (t: String)
    ensures
        t@ == t_get_case_end(indent_s@),
{
    let ghost indent = indent_s@;
    let mut t = String::new();
    t.append(indent_s);
    t.append("}\n");
    t
}

/// Answering a get request addressed to this node.
pub open spec fn t_get_req_logic(indent: Seq<char>, node_id: Seq<char>, indent2: Seq<char>, namespace: Seq<char>, case_logic: Seq<char>, frame_type_name: Seq<char>, resp_bus_id: Seq<char>) -> Seq<char> {
    indent + "if (msg.header.server_id != "@ + node_id + ") {\n"@ + indent2 + "return;\n"@ + indent + "}\n"@ + indent + namespace + "_message_get_resp resp;\n"@ + case_logic + indent + "resp.header.od_index = msg.header.od_index;\n"@ + indent + "resp.header.client_id = msg.header.client_id;\n"@ + indent + "resp.header.server_id = msg.header.server_id;\n"@ + indent + frame_type_name + " resp_frame;\n"@ + indent + namespace + "_serialize_"@ + namespace + "_message_get_resp(&resp, &resp_frame);\n"@ + indent + namespace + "_can"@ + resp_bus_id + "_send(&resp_frame);\n"@
}

fn t_get_req_logic_exec(indent_s: &str, node_id_s: &str, indent2_s: &str, namespace_s: &str, case_logic_s: &str, frame_type_name_s: &str, resp_bus_id_s: &str) -> (t: String)
    ensures
        t@ == t_get_req_logic(indent_s@, node_id_s@, indent2_s@, namespace_s@, case_logic_s@, frame_type_name_s@, resp_bus_id_s@),
{
    let ghost indent = indent_s@;
    let ghost node_id = node_id_s@;
    let ghost indent2 = indent2_s@;
    let ghost namespace = namespace_s@;
    let ghost case_logic = case_logic_s@;
    let ghost frame_type_name = frame_type_name_s@;
    let ghost resp_bus_id = resp_bus_id_s@;
    let mut t = String::new();
    t.append(indent_s);
    t.append("if (msg.header.server_id != ");
    t.append(node_id_s);
    t.append(") {\n");
    t.append(indent2_s);
    t.append("return;\n");
    t.append(indent_s);
    t.append("}\n");
    t.append(indent_s);
    t.append(namespace_s);
    t.append("_message_get_resp resp;\n");
    t.append(case_logic_s);
    t.append(indent_s);
    t.append("resp.header.od_index = msg.header.od_index;\n");
    t.append(indent_s);
    t.append("resp.header.client_id = msg.header.client_id;\n");
    t.append(indent_s);
    t.append("resp.header.server_id = msg.header.server_id;\n");
    t.append(indent_s);
    t.append(frame_type_name_s);
    t.append(" resp_frame;\n");
    t.append(indent_s);
    t.append(namespace_s);
    t.append("_serialize_");
    t.append(namespace_s);
    t.append("_message_get_resp(&resp, &resp_frame);\n");
    t.append(indent_s);
    t.append(namespace_s);
    t.append("_can");
    t.append(resp_bus_id_s);
    t.append("_send(&resp_frame);\n");
    t
}

/// The start of the switch over object dictionary indices.
pub open spec fn t_switch_open(indent: Seq<char>) -> Seq<char> {
    indent + "switch (msg.header.od_index) {\n"@
}

fn t_switch_open_exec(indent_s: &str) -> (t: String)
    ensures
        t@ == t_switch_open(indent_s@),
{
    let ghost indent = indent_s@;
    let mut t = String::new();
    t.append(indent_s);
    t.append("switch (msg.header.od_index) {\n");
    t
}

/// The received data masked to a size.
pub open spec fn t_masked_data(size: Seq<char>) -> Seq<char> {
    "(msg.data & (0xFFFFFFFF >> (32 - "@ + size + ")))"@
}

fn t_masked_data_exec(size_s: &str) -> (t: String)
    ensures
        t@ == t_masked_data(size_s@),
{
    let ghost size = size_s@;
    let mut t = String::new();
    t.append("(msg.data & (0xFFFFFFFF >> (32 - ");
    t.append(size_s);
    t.append(")))");
    t
}

/// Received data as an 8-bit unsigned value.
pub open spec fn t_parse_u8(masked_val: Seq<char>) -> Seq<char> {
    "(uint8_t)"@ + masked_val
}

fn t_parse_u8_exec(masked_val_s: &str) -> (t: String)
    ensures
        t@ == t_parse_u8(masked_val_s@),
{
    let ghost masked_val = masked_val_s@;
    let mut t = String::new();
    t.append("(uint8_t)");
    t.append(masked_val_s);
    t
}

/// Received data as a 16-bit unsigned value.
pub open spec fn t_parse_u16(masked_val: Seq<char>) -> Seq<char> {
    "(uint16_t)"@ + masked_val
}

fn t_parse_u16_exec(masked_val_s: &str) -> (t: String)
    ensures
        t@ == t_parse_u16(masked_val_s@),
{
    let ghost masked_val = masked_val_s@;
    let mut t = String::new();
    t.append("(uint16_t)");
    t.append(masked_val_s);
    t
}

/// Received data as a 32-bit unsigned value.
pub open spec fn t_parse_u32(masked_val: Seq<char>) -> Seq<char> {
    "(uint32_t)"@ + masked_val
}

fn t_parse_u32_exec(masked_val_s: &str) -> (t: String)
    ensures
        t@ == t_parse_u32(masked_val_s@),
{
    let ghost masked_val = masked_val_s@;
    let mut t = String::new();
    t.append("(uint32_t)");
    t.append(masked_val_s);
    t
}

/// Received data as a 64-bit unsigned value.
pub open spec fn t_parse_u64(masked_val: Seq<char>) -> Seq<char> {
    "(uint64_t)"@ + masked_val
}

fn t_parse_u64_exec(masked_val_s: &str) -> (t: String)
    ensures
        t@ == t_parse_u64(masked_val_s@),
{
    let ghost masked_val = masked_val_s@;
    let mut t = String::new();
    t.append("(uint64_t)");
    t.append(masked_val_s);
    t
}

/// Received data as an 8-bit signed value.
pub open spec fn t_parse_i8(masked_val: Seq<char>) -> Seq<char> {
    "(int8_t)"@ + masked_val
}

fn t_parse_i8_exec(masked_val_s: &str) -> (t: String)
    ensures
        t@ == t_parse_i8(masked_val_s@),
{
    let ghost masked_val = masked_val_s@;
    let mut t = String::new();
    t.append("(int8_t)");
    t.append(masked_val_s);
    t
}

/// Received data as a 16-bit signed value.
pub open spec fn t_parse_i16(masked_val: Seq<char>) -> Seq<char> {
    "(int16_t)"@ + masked_val
}

fn t_parse_i16_exec(masked_val_s: &str) -> (t: String)
    ensures
        t@ == t_parse_i16(masked_val_s@),
{
    let ghost masked_val = masked_val_s@;
    let mut t = String::new();
    t.append("(int16_t)");
    t.append(masked_val_s);
    t
}

/// Received data as a 32-bit signed value.
pub open spec fn t_parse_i32(masked_val: Seq<char>) -> Seq<char> {
    "(int32_t)"@ + masked_val
}

fn t_parse_i32_exec(masked_val_s: &str) -> (t: String)
    ensures
        t@ == t_parse_i32(masked_val_s@),
{
    let ghost masked_val = masked_val_s@;
    let mut t = String::new();
    t.append("(int32_t)");
    t.append(masked_val_s);
    t
}

/// Received data as a 64-bit signed value.
pub open spec fn t_parse_i64(masked_val: Seq<char>) -> Seq<char> {
    "(int64_t)"@ + masked_val
}

fn t_parse_i64_exec(masked_val_s: &str) -> (t: String)
    ensures
        t@ == t_parse_i64(masked_val_s@),
{
    let ghost masked_val = masked_val_s@;
    let mut t = String::new();
    t.append("(int64_t)");
    t.append(masked_val_s);
    t
}

/// Received data as a single precision decimal.
pub open spec fn t_parse_f32(masked_val: Seq<char>, scale: Seq<char>, offset: Seq<char>) -> Seq<char> {
    "(float)("@ + masked_val + " * "@ + scale + " + "@ + offset + ")"@
}

fn t_parse_f32_exec(masked_val_s: &str, scale_s: &str, offset_s: &str) -> (t: String)
    ensures
        t@ == t_parse_f32(masked_val_s@, scale_s@, offset_s@),
{
    let ghost masked_val = masked_val_s@;
    let ghost scale = scale_s@;
    let ghost offset = offset_s@;
    let mut t = String::new();
    t.append("(float)(");
    t.append(masked_val_s);
    t.append(" * ");
    t.append(scale_s);
    t.append(" + ");
    t.append(offset_s);
    t.append(")");
    t
}

/// Received data as a double precision decimal.
pub open spec fn t_parse_f64(masked_val: Seq<char>, scale: Seq<char>, offset: Seq<char>) -> Seq<char> {
    "(double)("@ + masked_val + " * "@ + scale + " + "@ + offset + ")"@
}

fn t_parse_f64_exec(masked_val_s: &str, scale_s: &str, offset_s: &str) -> (t: String)
    ensures
        t@ == t_parse_f64(masked_val_s@, scale_s@, offset_s@),
{
    let ghost masked_val = masked_val_s@;
    let ghost scale = scale_s@;
    let ghost offset = offset_s@;
    let mut t = String::new();
    t.append("(double)(");
    t.append(masked_val_s);
    t.append(" * ");
    t.append(scale_s);
    t.append(" + ");
    t.append(offset_s);
    t.append(")");
    t
}

/// An assignment without terminator.
pub open spec fn t_assign(var: Seq<char>, parsed_val: Seq<char>) -> Seq<char> {
    var + " = "@ + parsed_val
}

fn t_assign_exec(var_s: &str, parsed_val_s: &str) -> (t: String)
    ensures
        t@ == t_assign(var_s@, parsed_val_s@),
{
    let ghost var = var_s@;
    let ghost parsed_val = parsed_val_s@;
    let mut t = String::new();
    t.append(var_s);
    t.append(" = ");
    t.append(parsed_val_s);
    t
}

/// Received data as an enum value.
pub open spec fn t_parse_enum(name: Seq<char>, masked_val: Seq<char>) -> Seq<char> {
    "("@ + name + ")("@ + masked_val + ")"@
}

fn t_parse_enum_exec(name_s: &str, masked_val_s: &str) -> (t: String)
    ensures
        t@ == t_parse_enum(name_s@, masked_val_s@),
{
    let ghost name = name_s@;
    let ghost masked_val = masked_val_s@;
    let mut t = String::new();
    t.append("(");
    t.append(name_s);
    t.append(")(");
    t.append(masked_val_s);
    t.append(")");
    t
}

/// The set request case of an entry that fits one frame.
pub open spec fn t_set_case_small(indent: Seq<char>, od_index: Seq<char>, indent2: Seq<char>, indent3: Seq<char>, parse_logic: Seq<char>) -> Seq<char> {
    indent + "case "@ + od_index + " : {\n"@ + indent2 + "if (msg.header.sof != 1 || msg.header.toggle != 1 || msg.header.eof != 1) {\n"@ + indent3 + "return;\n"@ + indent2 + "}\n"@ + indent2 + parse_logic + ";\n"@ + indent2 + "break;\n"@ + indent + "}\n"@
}

fn t_set_case_small_exec(indent_s: &str, od_index_s: &str, indent2_s: &str, indent3_s: &str, parse_logic_s: &str) -> (t: String)
    ensures
        t@ == t_set_case_small(indent_s@, od_index_s@, indent2_s@, indent3_s@, parse_logic_s@),
{
    let ghost indent = indent_s@;
    let ghost od_index = od_index_s@;
    let ghost indent2 = indent2_s@;
    let ghost indent3 = indent3_s@;
    let ghost parse_logic = parse_logic_s@;
    let mut t = String::new();
    t.append(indent_s);
    t.append("case ");
    t.append(od_index_s);
    t.append(" : {\n");
    t.append(indent2_s);
    t.append("if (msg.header.sof != 1 || msg.header.toggle != 1 || msg.header.eof != 1) {\n");
    t.append(indent3_s);
    t.append("return;\n");
    t.append(indent2_s);
    t.append("}\n");
    t.append(indent2_s);
    t.append(parse_logic_s);
    t.append(";\n");
    t.append(indent2_s);
    t.append("break;\n");
    t.append(indent_s);
    t.append("}\n");
    t
}

/// The reassembly buffer of an entry received in several frames.
pub open spec fn t_set_buffer_def(buffer_name: Seq<char>, word_size: Seq<char>) -> Seq<char> {
    "static uint32_t "@ + buffer_name + "["@ + word_size + "];\n"@
}

fn t_set_buffer_def_exec(buffer_name_s: &str, word_size_s: &str) -> (t: String)
    ensures
        t@ == t_set_buffer_def(buffer_name_s@, word_size_s@),
{
    let ghost buffer_name = buffer_name_s@;
    let ghost word_size = word_size_s@;
    let mut t = String::new();
    t.append("static uint32_t ");
    t.append(buffer_name_s);
    t.append("[");
    t.append(word_size_s);
    t.append("];\n");
    t
}

/// The reassembly position of an entry received in several frames.
pub open spec fn t_set_offset_def(buffer_offset: Seq<char>) -> Seq<char> {
    "static uint32_t "@ + buffer_offset + " = 0;\n"@
}

fn t_set_offset_def_exec(buffer_offset_s: &str) -> (t: String)
    ensures
        t@ == t_set_offset_def(buffer_offset_s@),
{
    let ghost buffer_offset = buffer_offset_s@;
    let mut t = String::new();
    t.append("static uint32_t ");
    t.append(buffer_offset_s);
    t.append(" = 0;\n");
    t
}

/// A value of at most 32 bits read from the buffer.
pub open spec fn t_bits_word(buffer_name: Seq<char>, word_offset: Seq<char>, size: Seq<char>) -> Seq<char> {
    "("@ + buffer_name + "["@ + word_offset + "] & (0xFFFFFFFF >> (32 - "@ + size + ")))"@
}

fn t_bits_word_exec(buffer_name_s: &str, word_offset_s: &str, size_s: &str) -> (t: String)
    ensures
        t@ == t_bits_word(buffer_name_s@, word_offset_s@, size_s@),
{
    let ghost buffer_name = buffer_name_s@;
    let ghost word_offset = word_offset_s@;
    let ghost size = size_s@;
    let mut t = String::new();
    t.append("(");
    t.append(buffer_name_s);
    t.append("[");
    t.append(word_offset_s);
    t.append("] & (0xFFFFFFFF >> (32 - ");
    t.append(size_s);
    t.append(")))");
    t
}

/// A value of more than 32 bits read from two buffer words.
pub open spec fn t_bits_long(buffer_name: Seq<char>, word_offset: Seq<char>, upper_word_offset: Seq<char>, upper_word_bit_offset: Seq<char>) -> Seq<char> {
    "(uint64_t)"@ + buffer_name + "["@ + word_offset + "] | (((uint64_t)("@ + buffer_name + "["@ + upper_word_offset + "] & (0xFFFFFFFF >> (32 - "@ + upper_word_bit_offset + ")))) << 32)"@
}

fn t_bits_long_exec(buffer_name_s: &str, word_offset_s: &str, upper_word_offset_s: &str, upper_word_bit_offset_s: &str) -> (t: String)
    ensures
        t@ == t_bits_long(buffer_name_s@, word_offset_s@, upper_word_offset_s@, upper_word_bit_offset_s@),
{
    let ghost buffer_name = buffer_name_s@;
    let ghost word_offset = word_offset_s@;
    let ghost upper_word_offset = upper_word_offset_s@;
    let ghost upper_word_bit_offset = upper_word_bit_offset_s@;
    let mut t = String::new();
    t.append("(uint64_t)");
    t.append(buffer_name_s);
    t.append("[");
    t.append(word_offset_s);
    t.append("] | (((uint64_t)(");
    t.append(buffer_name_s);
    t.append("[");
    t.append(upper_word_offset_s);
    t.append("] & (0xFFFFFFFF >> (32 - ");
    t.append(upper_word_bit_offset_s);
    t.append(")))) << 32)");
    t
}

/// A raw value scaled to a decimal.
pub open spec fn t_scaled(val_bits: Seq<char>, scale: Seq<char>, offset: Seq<char>) -> Seq<char> {
    "("@ + val_bits + ") * "@ + scale + " + "@ + offset
}

fn t_scaled_exec(val_bits_s: &str, scale_s: &str, offset_s: &str) -> (t: String)
    ensures
        t@ == t_scaled(val_bits_s@, scale_s@, offset_s@),
{
    let ghost val_bits = val_bits_s@;
    let ghost scale = scale_s@;
    let ghost offset = offset_s@;
    let mut t = String::new();
    t.append("(");
    t.append(val_bits_s);
    t.append(") * ");
    t.append(scale_s);
    t.append(" + ");
    t.append(offset_s);
    t
}

/// An assignment statement on a line of its own.
pub open spec fn t_assign_line(indent: Seq<char>, var: Seq<char>, val: Seq<char>) -> Seq<char> {
    indent + var + " = "@ + val + ";\n"@
}

fn t_assign_line_exec(indent_s: &str, var_s: &str, val_s: &str) -> (t: String)
    ensures
        t@ == t_assign_line(indent_s@, var_s@, val_s@),
{
    let ghost indent = indent_s@;
    let ghost var = var_s@;
    let ghost val = val_s@;
    let mut t = String::new();
    t.append(indent_s);
    t.append(var_s);
    t.append(" = ");
    t.append(val_s);
    t.append(";\n");
    t
}

/// A raw value cast to an enum.
pub open spec fn t_enum_cast(name: Seq<char>, val_bits: Seq<char>) -> Seq<char> {
    "(("@ + name + ")"@ + val_bits + ")"@
}

fn t_enum_cast_exec(name_s: &str, val_bits_s: &str) -> (t: String)
    ensures
        t@ == t_enum_cast(name_s@, val_bits_s@),
{
    let ghost name = name_s@;
    let ghost val_bits = val_bits_s@;
    let mut t = String::new();
    t.append("((");
    t.append(name_s);
    t.append(")");
    t.append(val_bits_s);
    t.append(")");
    t
}

/// The set request case of an entry received in several frames.
pub open spec fn t_set_case_frag(indent: Seq<char>, od_index: Seq<char>, indent2: Seq<char>, indent3: Seq<char>, indent4: Seq<char>, buffer_offset: Seq<char>, word_size: Seq<char>, buffer_name: Seq<char>, write_logic: Seq<char>) -> Seq<char> {
    indent + "case "@ + od_index + " : {\n"@ + indent2 + "if (msg.header.sof == 1) {\n"@ + indent3 + "if (msg.header.toggle == 0 || msg.header.eof != 0) {\n"@ + indent4 + "return;\n"@ + indent3 + "}\n"@ + indent3 + buffer_offset + " = 0;\n"@ + indent2 + "}else {\n"@ + indent3 + buffer_offset + " += 1;\n"@ + indent3 + "if ("@ + buffer_offset + " >= "@ + word_size + ") {\n"@ + indent4 + "return;\n"@ + indent3 + "}\n"@ + indent2 + "}\n"@ + indent2 + buffer_name + "["@ + buffer_offset + "] = msg.data;\n"@ + indent2 + "if (msg.header.eof == 0) {\n"@ + indent3 + "return;\n"@ + indent2 + "}\n"@ + write_logic + "\n"@ + indent2 + "break;\n"@ + indent + "}\n"@
}

fn t_set_case_frag_exec(indent_s: &str, od_index_s: &str, indent2_s: &str, indent3_s: &str, indent4_s: &str, buffer_offset_s: &str, word_size_s: &str, buffer_name_s: &str, write_logic_s: &str) -> (t: String)
    ensures
        t@ == t_set_case_frag(indent_s@, od_index_s@, indent2_s@, indent3_s@, indent4_s@, buffer_offset_s@, word_size_s@, buffer_name_s@, write_logic_s@),
{
    let ghost indent = indent_s@;
    let ghost od_index = od_index_s@;
    let ghost indent2 = indent2_s@;
    let ghost indent3 = indent3_s@;
    let ghost indent4 = indent4_s@;
    let ghost buffer_offset = buffer_offset_s@;
    let ghost word_size = word_size_s@;
    let ghost buffer_name = buffer_name_s@;
    let ghost write_logic = write_logic_s@;
    let mut t = String::new();
    t.append(indent_s);
    t.append("case ");
    t.append(od_index_s);
    t.append(" : {\n");
    t.append(indent2_s);
    t.append("if (msg.header.sof == 1) {\n");
    t.append(indent3_s);
    t.append("if (msg.header.toggle == 0 || msg.header.eof != 0) {\n");
    t.append(indent4_s);
    t.append("return;\n");
    t.append(indent3_s);
    t.append("}\n");
    t.append(indent3_s);
    t.append(buffer_offset_s);
    t.append(" = 0;\n");
    t.append(indent2_s);
    t.append("}else {\n");
    t.append(indent3_s);
    t.append(buffer_offset_s);
    t.append(" += 1;\n");
    t.append(indent3_s);
    t.append("if (");
    t.append(buffer_offset_s);
    t.append(" >= ");
    t.append(word_size_s);
    t.append(") {\n");
    t.append(indent4_s);
    t.append("return;\n");
    t.append(indent3_s);
    t.append("}\n");
    t.append(indent2_s);
    t.append("}\n");
    t.append(indent2_s);
    t.append(buffer_name_s);
    t.append("[");
    t.append(buffer_offset_s);
    t.append("] = msg.data;\n");
    t.append(indent2_s);
    t.append("if (msg.header.eof == 0) {\n");
    t.append(indent3_s);
    t.append("return;\n");
    t.append(indent2_s);
    t.append("}\n");
    t.append(write_logic_s);
    t.append("\n");
    t.append(indent2_s);
    t.append("break;\n");
    t.append(indent_s);
    t.append("}\n");
    t
}

/// The default case and end of the set request switch.
pub open spec fn t_set_switch_end(indent: Seq<char>, indent2: Seq<char>) -> Seq<char> {
    indent + "default:\n"@ + indent2 + "return;\n"@ + indent + "}"@
}

fn t_set_switch_end_exec(indent_s: &str, indent2_s: &str) -> (t: String)
    ensures
        t@ == t_set_switch_end(indent_s@, indent2_s@),
{
    let ghost indent = indent_s@;
    let ghost indent2 = indent2_s@;
    let mut t = String::new();
    t.append(indent_s);
    t.append("default:\n");
    t.append(indent2_s);
    t.append("return;\n");
    t.append(indent_s);
    t.append("}");
    t
}

/// Applying a set request addressed to this node.
pub open spec fn t_set_req_logic(indent: Seq<char>, node_id: Seq<char>, indent2: Seq<char>, namespace: Seq<char>, case_logic: Seq<char>, resp_bus_id: Seq<char>) -> Seq<char> {
    indent + "if (msg.header.server_id != "@ + node_id + ") {\n"@ + indent2 + "return;\n"@ + indent + "}\n"@ + indent + namespace + "_message_set_resp resp;\n"@ + case_logic + "\n"@ + indent + "resp.header.od_index = msg.header.od_index;\n"@ + indent + "resp.header.client_id = msg.header.client_id;\n"@ + indent + "resp.header.server_id = msg.header.server_id;\n"@ + indent + "resp.header.erno = set_resp_erno_Success;\n"@ + indent + "canzero_frame resp_frame;\n"@ + indent + namespace + "_serialize_"@ + namespace + "_message_set_resp(&resp, &resp_frame);\n"@ + indent + namespace + "_can"@ + resp_bus_id + "_send(&resp_frame);\n\n"@
}

fn t_set_req_logic_exec(indent_s: &str, node_id_s: &str, indent2_s: &str, namespace_s: &str, case_logic_s: &str, resp_bus_id_s: &str) -> (t: String)
    ensures
        t@ == t_set_req_logic(indent_s@, node_id_s@, indent2_s@, namespace_s@, case_logic_s@, resp_bus_id_s@),
{
    let ghost indent = indent_s@;
    let ghost node_id = node_id_s@;
    let ghost indent2 = indent2_s@;
    let ghost namespace = namespace_s@;
    let ghost case_logic = case_logic_s@;
    let ghost resp_bus_id = resp_bus_id_s@;
    let mut t = String::new();
    t.append(indent_s);
    t.append("if (msg.header.server_id != ");
    t.append(node_id_s);
    t.append(") {\n");
    t.append(indent2_s);
    t.append("return;\n");
    t.append(indent_s);
    t.append("}\n");
    t.append(indent_s);
    t.append(namespace_s);
    t.append("_message_set_resp resp;\n");
    t.append(case_logic_s);
    t.append("\n");
    t.append(indent_s);
    t.append("resp.header.od_index = msg.header.od_index;\n");
    t.append(indent_s);
    t.append("resp.header.client_id = msg.header.client_id;\n");
    t.append(indent_s);
    t.append("resp.header.server_id = msg.header.server_id;\n");
    t.append(indent_s);
    t.append("resp.header.erno = set_resp_erno_Success;\n");
    t.append(indent_s);
    t.append("canzero_frame resp_frame;\n");
    t.append(indent_s);
    t.append(namespace_s);
    t.append("_serialize_");
    t.append(namespace_s);
    t.append("_message_set_resp(&resp, &resp_frame);\n");
    t.append(indent_s);
    t.append(namespace_s);
    t.append("_can");
    t.append(resp_bus_id_s);
    t.append("_send(&resp_frame);\n\n");
    t
}

/// The handler of a received message.
pub open spec fn t_handler_def(attributes: Seq<char>, handler_name: Seq<char>, frame_type_name: Seq<char>, indent: Seq<char>, namespace: Seq<char>, msg_name: Seq<char>, logic: Seq<char>) -> Seq<char> {
    attributes + " void "@ + handler_name + "("@ + frame_type_name + "* frame) {\n"@ + indent + namespace + "_message_"@ + msg_name + " msg;\n"@ + indent + namespace + "_deserialize_"@ + namespace + "_message_"@ + msg_name + "(frame, &msg);\n"@ + logic + "}\n"@
}

fn t_handler_def_exec(attributes_s: &str, handler_name_s: &str, frame_type_name_s: &str, indent_s: &str, namespace_s: &str, msg_name_s: &str, logic_s: &str) -> (t: String)
    ensures
        t@ == t_handler_def(attributes_s@, handler_name_s@, frame_type_name_s@, indent_s@, namespace_s@, msg_name_s@, logic_s@),
{
    let ghost attributes = attributes_s@;
    let ghost handler_name = handler_name_s@;
    let ghost frame_type_name = frame_type_name_s@;
    let ghost indent = indent_s@;
    let ghost namespace = namespace_s@;
    let ghost msg_name = msg_name_s@;
    let ghost logic = logic_s@;
    let mut t = String::new();
    t.append(attributes_s);
    t.append(" void ");
    t.append(handler_name_s);
    t.append("(");
    t.append(frame_type_name_s);
    t.append("* frame) {\n");
    t.append(indent_s);
    t.append(namespace_s);
    t.append("_message_");
    t.append(msg_name_s);
    t.append(" msg;\n");
    t.append(indent_s);
    t.append(namespace_s);
    t.append("_deserialize_");
    t.append(namespace_s);
    t.append("_message_");
    t.append(msg_name_s);
    t.append("(frame, &msg);\n");
    t.append(logic_s);
    t.append("}\n");
    t
}

/// The number of bits a type occupies: the sum over a struct's attributes,
/// the length times the element's size for an array.
pub open spec fn ty_size(t: Type) -> nat
    decreases t,
{
    match t {
        Type::Primitive(st) => st.spec_size() as nat,
        Type::Struct { attribs, .. } => attribs_size(attribs@),
        Type::Enum { size, .. } => size as nat,
        Type::Array { len, ty } => (len * ty_size(*ty)) as nat,
    }
}

/// The summed sizes of struct attributes.
pub open spec fn attribs_size(a: Seq<(String, Type)>) -> nat
    decreases a,
{
    if a.len() == 0 {
        0
    } else {
        attribs_size(a.drop_last()) + ty_size(a.last().1)
    }
}

/// A type without arrays whose primitive and enum parts have at most 64 bits.
pub open spec fn leaves_ok(t: Type) -> bool
    decreases t,
{
    match t {
        Type::Primitive(st) => st.spec_size() <= 64,
        Type::Struct { attribs, .. } => attribs_leaves_ok(attribs@),
        Type::Enum { size, .. } => size <= 64,
        Type::Array { .. } => false,
    }
}

/// See [`leaves_ok`].
pub open spec fn attribs_leaves_ok(a: Seq<(String, Type)>) -> bool
    decreases a,
{
    a.len() == 0 || (attribs_leaves_ok(a.drop_last()) && leaves_ok(a.last().1))
}

/// Twice the indentation.
pub open spec fn in2(indent: Seq<char>) -> Seq<char> {
    indent + indent
}

/// Three times the indentation.
pub open spec fn in3(indent: Seq<char>) -> Seq<char> {
    (indent + indent) + indent
}

/// Four times the indentation.
pub open spec fn in4(indent: Seq<char>) -> Seq<char> {
    (indent + indent) + (indent + indent)
}

/// The number of 32-bit words that hold `size` bits.
pub open spec fn words(size: nat) -> nat {
    ((size + 31) / 32) as nat
}

// ---------------------------------------------------------------- get requests

/// The response data of an entry that fits one response frame.
pub open spec fn get_value(t: Type, size: nat, var: Seq<char>, indent2: Seq<char>) -> Seq<char> {
    match t {
        Type::Primitive(SignalType::UnsignedInt { size: s }) => if s <= 8 {
            t_get_u8(indent2, var, dec(s as nat))
        } else if s <= 16 {
            t_get_u16(indent2, var, dec(s as nat))
        } else {
            t_get_u32(indent2, var, dec(s as nat))
        },
        Type::Primitive(SignalType::SignedInt { size: s }) => if s <= 8 {
            t_get_i8(indent2, var, dec(s as nat))
        } else if s <= 16 {
            t_get_i16(indent2, var, dec(s as nat))
        } else {
            t_get_i32(indent2, var, dec(s as nat))
        },
        Type::Primitive(SignalType::Decimal { offset, scale, .. }) => t_get_dec(indent2, var, offset@, scale@),
        Type::Enum { .. } => if size <= 8 {
            t_get_e8(indent2, var, dec(size))
        } else if size <= 16 {
            t_get_e16(indent2, var, dec(size))
        } else {
            t_get_e32(indent2, var, dec(size))
        },
        _ => Seq::empty(),
    }
}

/// The unsigned raw form of a primitive value.
pub open spec fn raw_value(st: SignalType, var: Seq<char>) -> Seq<char> {
    match st {
        SignalType::UnsignedInt { .. } => var,
        SignalType::SignedInt { size: s } => if s <= 8 {
            t_cast_u8(var)
        } else if s <= 16 {
            t_cast_u16(var)
        } else if s <= 32 {
            t_cast_u32(var)
        } else {
            t_cast_u64(var)
        },
        SignalType::Decimal { size: s, offset, scale } => if s <= 8 {
            t_raw_d8(var, offset@, scale@)
        } else if s <= 16 {
            t_raw_d16(var, offset@, scale@)
        } else if s <= 32 {
            t_raw_d32(var, offset@, scale@)
        } else {
            t_raw_d64(var, offset@, scale@)
        },
    }
}

/// A primitive raw value masked to `size` bits.
pub open spec fn masked_value(val: Seq<char>, size: nat) -> Seq<char> {
    if size <= 8 {
        t_mask8(val, dec(size))
    } else if size <= 16 {
        t_mask16(val, dec(size))
    } else if size <= 32 {
        t_mask32(val, dec(size))
    } else {
        t_mask64(val, dec(size))
    }
}

/// An enum value masked to `size` bits.
pub open spec fn enum_masked(var: Seq<char>, size: nat) -> Seq<char> {
    if size <= 8 {
        t_emask8(var, dec(size))
    } else if size <= 16 {
        t_emask16(var, dec(size))
    } else if size <= 32 {
        t_emask32(var, dec(size))
    } else {
        t_emask64(var, dec(size))
    }
}

/// Storing a primitive value of at most 32 bits at bit `off` of the buffer.
pub open spec fn place_word(buffer: Seq<char>, off: nat, size: nat, val: Seq<char>, indent2: Seq<char>) -> Seq<char> {
    if off % 32 == 0 {
        t_frag_set(indent2, buffer, dec(off / 32), val)
    } else if off % 32 + size >= 32 {
        t_frag_or(indent2, buffer, dec(off / 32), val, dec((off + size) % 32))
    } else {
        t_frag_lower(indent2, buffer, dec(off / 32), val, dec(off % 32)) + t_frag_upper(
            indent2,
            buffer,
            dec(off / 32 + 1),
            val,
            dec((32 - (off + size) % 32) as nat),
        )
    }
}

/// Storing a primitive value of more than 32 bits at bit `off` of the
/// buffer, which [`place_ok`] admits: from the start of a word, or from
/// inside a word up to the end of the following one.
pub open spec fn place_long(buffer: Seq<char>, off: nat, val: Seq<char>, indent2: Seq<char>, indent3: Seq<char>) -> Seq<char> {
    t_frag_open(indent2) + t_frag_masked(indent3, val) + (if off % 32 == 0 {
        t_frag_lo_set(indent3, buffer, dec(off / 32)) + t_frag_hi_set(indent3, buffer, dec(off / 32 + 1))
    } else {
        t_frag_lo_or(indent3, buffer, dec(off / 32), dec(off % 32)) + t_frag_lo_rest(
            indent3,
            buffer,
            dec(off / 32 + 1),
            dec((32 - off % 32) as nat),
        ) + t_frag_hi_or(indent3, buffer, dec(off / 32 + 1), dec((32 - off % 32) as nat))
    }) + t_frag_close(indent2)
}

/// Storing an enum value of at most 32 bits at bit `off` of the buffer.
pub open spec fn eplace_word(buffer: Seq<char>, off: nat, size: nat, val: Seq<char>) -> Seq<char> {
    if off % 32 == 0 {
        t_efrag_set(buffer, dec(off / 32), val)
    } else if off % 32 + size >= 32 {
        t_efrag_or(buffer, dec(off / 32), val, dec((off + size) % 32))
    } else {
        t_efrag_lower(buffer, dec(off / 32), val, dec(off % 32)) + t_efrag_upper(
            buffer,
            dec(off / 32 + 1),
            val,
            dec((32 - (off + size) % 32) as nat),
        )
    }
}

/// Storing an enum value of more than 32 bits at bit `off` of the buffer,
/// which [`place_ok`] admits.
pub open spec fn eplace_long(buffer: Seq<char>, off: nat, val: Seq<char>) -> Seq<char> {
    t_efrag_open() + t_efrag_masked(val) + (if off % 32 == 0 {
        t_efrag_lo_set(buffer, dec(off / 32)) + t_efrag_hi_set(buffer, dec(off / 32 + 1))
    } else {
        t_efrag_lo_or(buffer, dec(off / 32), dec(off % 32)) + t_efrag_lo_rest(
            buffer,
            dec(off / 32 + 1),
            dec((32 - off % 32) as nat),
        ) + t_efrag_hi_or(buffer, dec(off / 32 + 1), dec((32 - off % 32) as nat))
    }) + t_efrag_close()
}

/// The bit offset after fragmenting `t` from bit `off`: only values of more
/// than 32 bits advance it.
pub open spec fn frag_end(t: Type, off: nat) -> nat
    decreases t,
{
    match t {
        Type::Primitive(st) => if st.spec_size() <= 32 {
            off
        } else {
            (off + st.spec_size()) as nat
        },
        Type::Enum { size, .. } => if size <= 32 {
            off
        } else {
            (off + size) as nat
        },
        Type::Struct { attribs, .. } => attribs_end(attribs@, off),
        Type::Array { .. } => off,
    }
}

/// See [`frag_end`].
pub open spec fn attribs_end(a: Seq<(String, Type)>, off: nat) -> nat
    decreases a,
{
    if a.len() == 0 {
        off
    } else {
        frag_end(a.last().1, attribs_end(a.drop_last(), off))
    }
}

/// A value of more than 32 bits that starts inside a word must reach the end
/// of the following word: ending inside it, the shift of its upper part
/// would be negative.
pub open spec fn place_ok(off: nat, size: nat) -> bool {
    size <= 32 || off % 32 == 0 || off % 32 + size >= 64
}

/// `t` can be fragmented from bit `off`.
pub open spec fn frag_ok(t: Type, off: nat) -> bool
    decreases t,
{
    match t {
        Type::Primitive(st) => place_ok(off, st.spec_size() as nat),
        Type::Enum { size, .. } => place_ok(off, size as nat),
        Type::Struct { attribs, .. } => attribs_frag_ok(attribs@, off),
        Type::Array { .. } => false,
    }
}

/// See [`frag_ok`].
pub open spec fn attribs_frag_ok(a: Seq<(String, Type)>, off: nat) -> bool
    decreases a,
{
    a.len() == 0 || (attribs_frag_ok(a.drop_last(), off) && frag_ok(a.last().1, attribs_end(a.drop_last(), off)))
}

/// The statements that copy `var` of type `t` into the fragmentation buffer
/// from bit `off`; struct attributes are named `var.attribute`.
pub open spec fn frag_text(t: Type, var: Seq<char>, buffer: Seq<char>, off: nat, indent2: Seq<char>, indent3: Seq<char>) -> Seq<char>
    decreases t,
{
    match t {
        Type::Primitive(st) => {
            let size = st.spec_size() as nat;
            let val = masked_value(raw_value(st, var), size);
            if size <= 32 {
                place_word(buffer, off, size, val, indent2)
            } else {
                place_long(buffer, off, val, indent2, indent3)
            }
        },
        Type::Enum { size, .. } => {
            let val = enum_masked(var, size as nat);
            if size <= 32 {
                eplace_word(buffer, off, size as nat, val)
            } else {
                eplace_long(buffer, off, val)
            }
        },
        Type::Struct { attribs, .. } => frag_attribs_text(attribs@, var, buffer, off, indent2, indent3),
        Type::Array { .. } => Seq::empty(),
    }
}

/// See [`frag_text`].
pub open spec fn frag_attribs_text(a: Seq<(String, Type)>, var: Seq<char>, buffer: Seq<char>, off: nat, indent2: Seq<char>, indent3: Seq<char>) -> Seq<char>
    decreases a,
{
    if a.len() == 0 {
        Seq::empty()
    } else {
        frag_attribs_text(a.drop_last(), var, buffer, off, indent2, indent3) + frag_text(
            a.last().1,
            var + "."@ + a.last().0@,
            buffer,
            attribs_end(a.drop_last(), off),
            indent2,
            indent3,
        )
    }
}

/// The get request case of object entry `oe`.
#[verifier::opaque]
pub open spec fn get_case(oe: ObjectEntry, indent: Seq<char>) -> Seq<char> {
    let size = ty_size(oe.ty);
    let var = oe_var(oe.name@);
    if size <= 32 {
        t_get_case_small(indent, dec(oe.id as nat), get_value(oe.ty, size, var, in2(indent)), in2(indent))
    } else {
        let buffer = var + "_rx_fragmentation_buffer"@;
        t_get_case_frag(
            indent,
            dec(oe.id as nat),
            frag_text(oe.ty, var, buffer, 0, in2(indent), in3(indent)),
            in2(indent),
            buffer,
            dec(words(size)),
            dec(oe.id as nat),
        )
    }
}

/// The fragmentation buffer of object entry `oe`, if it needs one.
#[verifier::opaque]
pub open spec fn get_buffer(oe: ObjectEntry) -> Seq<char> {
    let size = ty_size(oe.ty);
    if size > 32 {
        t_get_buffer_def(oe_var(oe.name@) + "_rx_fragmentation_buffer"@, dec(words(size)))
    } else {
        Seq::empty()
    }
}

/// The get request cases of `entries`.
pub open spec fn get_cases(entries: Seq<ObjectEntry>, indent: Seq<char>) -> Seq<char>
    decreases entries.len(),
{
    if entries.len() == 0 {
        Seq::empty()
    } else {
        get_cases(entries.drop_last(), indent) + get_case(entries.last(), indent)
    }
}

/// The fragmentation buffers of `entries`.
pub open spec fn get_buffers(entries: Seq<ObjectEntry>) -> Seq<char>
    decreases entries.len(),
{
    if entries.len() == 0 {
        Seq::empty()
    } else {
        get_buffers(entries.drop_last()) + get_buffer(entries.last())
    }
}

/// The handling of a get request.
pub open spec fn get_req(node: Node, network: Network, namespace: Seq<char>, indent: Seq<char>) -> Seq<char> {
    t_get_req_logic(
        indent,
        dec(node.id as nat),
        in2(indent),
        namespace,
        t_switch_open(indent) + get_cases(node.object_entries@, indent) + t_get_case_end(indent),
        namespace + "_frame"@,
        dec(network.get_resp_message.bus.id as nat),
    )
}

/// An object entry a get request can read.
pub open spec fn get_entry_ok(oe: ObjectEntry) -> bool {
    &&& leaves_ok(oe.ty)
    &&& ty_size(oe.ty) <= usize::MAX
    &&& ty_size(oe.ty) <= 32 ==> !(oe.ty is Struct)
    &&& ty_size(oe.ty) > 32 ==> frag_ok(oe.ty, 0)
}

// ---------------------------------------------------------------- set requests

/// The statements that read an entry that fits one frame from the request;
/// struct attributes are concatenated without separators.
pub open spec fn parse_text(t: Type, var: Seq<char>) -> Seq<char>
    decreases t,
{
    match t {
        Type::Primitive(st) => {
            let masked = t_masked_data(dec(st.spec_size() as nat));
            let parsed = match st {
                SignalType::UnsignedInt { size: s } => if s <= 8 {
                    t_parse_u8(masked)
                } else if s <= 16 {
                    t_parse_u16(masked)
                } else if s <= 32 {
                    t_parse_u32(masked)
                } else {
                    t_parse_u64(masked)
                },
                SignalType::SignedInt { size: s } => if s <= 8 {
                    t_parse_i8(masked)
                } else if s <= 16 {
                    t_parse_i16(masked)
                } else if s <= 32 {
                    t_parse_i32(masked)
                } else {
                    t_parse_i64(masked)
                },
                SignalType::Decimal { size: s, offset, scale } => if s <= 32 {
                    t_parse_f32(masked, scale@, offset@)
                } else {
                    t_parse_f64(masked, scale@, offset@)
                },
            };
            t_assign(var, parsed)
        },
        Type::Struct { attribs, .. } => parse_attribs_text(attribs@, var),
        Type::Enum { name, size, .. } => t_assign(var, t_parse_enum(name@, t_masked_data(dec(size as nat)))),
        Type::Array { .. } => Seq::empty(),
    }
}

/// See [`parse_text`].
pub open spec fn parse_attribs_text(a: Seq<(String, Type)>, var: Seq<char>) -> Seq<char>
    decreases a,
{
    if a.len() == 0 {
        Seq::empty()
    } else {
        parse_attribs_text(a.drop_last(), var) + parse_text(a.last().1, var + "."@ + a.last().0@)
    }
}

/// The statements that read an entry received in several frames from its
/// reassembly buffer; every value is read from the buffer's start.
pub open spec fn write_text(t: Type, buffer: Seq<char>, var: Seq<char>, indent: Seq<char>) -> Seq<char>
    decreases t,
{
    match t {
        Type::Primitive(st) => {
            let size = st.spec_size() as nat;
            let val_bits = if size <= 32 {
                t_bits_word(buffer, dec(0), dec(size))
            } else {
                t_bits_long(buffer, dec(0), dec(1), dec((size - 32) as nat))
            };
            let val = match st {
                SignalType::Decimal { offset, scale, .. } => t_scaled(val_bits, scale@, offset@),
                _ => val_bits,
            };
            t_assign_line(indent, var, val)
        },
        Type::Enum { name, size, .. } => {
            let val_bits = if size <= 32 {
                t_bits_word(buffer, dec(0), dec(size as nat))
            } else {
                t_bits_long(buffer, dec(0), dec(1), dec((size % 32) as nat))
            };
            t_assign_line(indent, var, t_enum_cast(name@, val_bits))
        },
        Type::Struct { attribs, .. } => write_attribs_text(attribs@, buffer, var, indent),
        Type::Array { .. } => Seq::empty(),
    }
}

/// See [`write_text`].
pub open spec fn write_attribs_text(a: Seq<(String, Type)>, buffer: Seq<char>, var: Seq<char>, indent: Seq<char>) -> Seq<char>
    decreases a,
{
    if a.len() == 0 {
        Seq::empty()
    } else {
        write_attribs_text(a.drop_last(), buffer, var, indent) + write_text(
            a.last().1,
            buffer,
            var + "."@ + a.last().0@,
            indent,
        )
    }
}

/// The set request case of object entry `oe`.
#[verifier::opaque]
pub open spec fn set_case(oe: ObjectEntry, indent: Seq<char>) -> Seq<char> {
    let size = ty_size(oe.ty);
    let var = oe_var(oe.name@);
    if size <= 32 {
        t_set_case_small(indent, dec(oe.id as nat), in2(indent), in3(indent), parse_text(oe.ty, var))
    } else {
        let buffer_name = var + "_tx_fragmentation_buffer"@;
        let buffer_offset = var + "_tx_fragmentation_offset"@;
        t_set_case_frag(
            indent,
            dec(oe.id as nat),
            in2(indent),
            in3(indent),
            in4(indent),
            buffer_offset,
            dec(words(size)),
            buffer_name,
            write_text(oe.ty, buffer_name, var, in2(indent)),
        )
    }
}

/// The reassembly buffer and position of object entry `oe`, if it needs them.
#[verifier::opaque]
pub open spec fn set_buffer(oe: ObjectEntry) -> Seq<char> {
    let size = ty_size(oe.ty);
    let var = oe_var(oe.name@);
    if size > 32 {
        t_set_buffer_def(var + "_tx_fragmentation_buffer"@, dec(words(size))) + t_set_offset_def(
            var + "_tx_fragmentation_offset"@,
        )
    } else {
        Seq::empty()
    }
}

/// The set request cases of `entries`.
pub open spec fn set_cases(entries: Seq<ObjectEntry>, indent: Seq<char>) -> Seq<char>
    decreases entries.len(),
{
    if entries.len() == 0 {
        Seq::empty()
    } else {
        set_cases(entries.drop_last(), indent) + set_case(entries.last(), indent)
    }
}

/// The reassembly buffers of `entries`.
pub open spec fn set_buffers(entries: Seq<ObjectEntry>) -> Seq<char>
    decreases entries.len(),
{
    if entries.len() == 0 {
        Seq::empty()
    } else {
        set_buffers(entries.drop_last()) + set_buffer(entries.last())
    }
}

/// The handling of a set request.
pub open spec fn set_req(node: Node, network: Network, namespace: Seq<char>, indent: Seq<char>) -> Seq<char> {
    t_set_req_logic(
        indent,
        dec(node.id as nat),
        in2(indent),
        namespace,
        t_switch_open(indent) + set_cases(node.object_entries@, indent) + t_set_switch_end(indent, in2(indent)),
        dec(network.set_resp_message.bus.id as nat),
    )
}

/// An object entry a set request can write.
pub open spec fn set_entry_ok(oe: ObjectEntry) -> bool {
    leaves_ok(oe.ty) && ty_size(oe.ty) <= usize::MAX
}

// ---------------------------------------------------------------- streams and commands

/// The statements that copy the received stream message into the mapped
/// object entries, pairing attributes and mapping slots up to the shorter of
/// the two and skipping empty slots.
pub open spec fn stream_logic(attrs: Seq<TypeSignalEncoding>, mapping: Seq<Option<ObjectEntry>>, indent: Seq<char>) -> Seq<char>
    decreases attrs.len(),
{
    if attrs.len() == 0 || mapping.len() == 0 {
        Seq::empty()
    } else {
        let n = if attrs.len() < mapping.len() {
            attrs.len()
        } else {
            mapping.len()
        };
        stream_logic(attrs.take(n - 1), mapping.take(n - 1), indent) + match mapping[n - 1] {
            Some(o) => t_stream_assign(indent, oe_var(o.name@), attrs[n - 1].spec_name()),
            None => Seq::empty(),
        }
    }
}

/// The request attributes passed to a command: `msg.<attribute>` for each,
/// separated by commas.
pub open spec fn attribute_list(attrs: Seq<TypeSignalEncoding>) -> Seq<char>
    decreases attrs.len(),
{
    if attrs.len() == 0 {
        Seq::empty()
    } else {
        attribute_list(attrs.drop_last()) + (if attrs.len() > 1 {
            ", "@
        } else {
            Seq::empty()
        }) + "msg."@ + attrs.last().spec_name()
    }
}

/// The handling of a command request.
pub open spec fn command_logic(c: Command, namespace: Seq<char>, indent: Seq<char>) -> Seq<char> {
    t_command_resp(
        indent,
        namespace,
        c.rx_message.name@,
        c.name@,
        attribute_list(c.tx_message.encoding->Some_0.attributes@),
        namespace + "_frame"@,
        dec(c.rx_message.bus.id as nat),
    )
}

// ---------------------------------------------------------------- handlers

/// What precedes the handler of `m`, the handler's body, and whether the
/// handler is weak.
pub open spec fn handler_parts(m: Message, node: Node, network: Network, namespace: Seq<char>, indent: Seq<char>) -> (
    Seq<char>,
    Seq<char>,
    bool,
) {
    match m.usage {
        MessageUsage::Stream(mapping) => (
            Seq::empty(),
            stream_logic(m.encoding->Some_0.attributes@, mapping@, indent),
            false,
        ),
        MessageUsage::CommandReq(c) => (Seq::empty(), command_logic(c, namespace, indent), false),
        MessageUsage::GetReq => (get_buffers(node.object_entries@), get_req(node, network, namespace, indent), false),
        MessageUsage::SetReq => (set_buffers(node.object_entries@), set_req(node, network, namespace, indent), false),
        MessageUsage::External { .. } => (Seq::empty(), Seq::empty(), true),
        _ => (Seq::empty(), Seq::empty(), false),
    }
}

/// The text generated for received message `m`: the buffers it needs, then
/// its handler, which deserializes the frame and acts on the message.
pub open spec fn handler_text(m: Message, node: Node, network: Network, namespace: Seq<char>, indent: Seq<char>) -> Seq<char> {
    let (pre, logic, weak) = handler_parts(m, node, network, namespace, indent);
    pre + t_handler_def(
        if weak {
            "__attribute__((weak))"@
        } else {
            "static"@
        },
        namespace + "_handle_"@ + m.name@,
        namespace + "_frame"@,
        indent,
        namespace,
        m.name@,
        logic,
    )
}

/// The texts of the handlers of `messages`, in order.
pub open spec fn handlers_text(messages: Seq<Message>, node: Node, network: Network, namespace: Seq<char>, indent: Seq<char>) -> Seq<char>
    decreases messages.len(),
{
    if messages.len() == 0 {
        Seq::empty()
    } else {
        handlers_text(messages.drop_last(), node, network, namespace, indent) + handler_text(
            messages.last(),
            node,
            network,
            namespace,
            indent,
        )
    }
}

/// A received message a handler can be generated for.
pub open spec fn rx_message_ok(m: Message, node: Node) -> bool {
    match m.usage {
        MessageUsage::Stream(_) => m.encoding is Some,
        MessageUsage::CommandReq(c) => c.tx_message.encoding is Some,
        MessageUsage::GetResp => false,
        MessageUsage::SetResp => false,
        MessageUsage::GetReq => forall|i: int|
            0 <= i < node.object_entries@.len() ==> get_entry_ok(#[trigger] node.object_entries@[i]),
        MessageUsage::SetReq => forall|i: int|
            0 <= i < node.object_entries@.len() ==> set_entry_ok(#[trigger] node.object_entries@[i]),
        _ => true,
    }
}

// ---------------------------------------------------------------- lemmas

proof fn lemma_attribs_leaves_at(a: Seq<(String, Type)>, i: int)
    requires
        attribs_leaves_ok(a),
        0 <= i < a.len(),
    ensures
        leaves_ok(a[i].1),
    decreases a.len(),
{
    if i < a.len() - 1 {
        lemma_attribs_leaves_at(a.drop_last(), i);
    }
}

proof fn lemma_attribs_size_prefix(a: Seq<(String, Type)>, i: int)
    requires
        0 <= i <= a.len(),
    ensures
        attribs_size(a.take(i)) <= attribs_size(a),
    decreases a.len(),
{
    if i == a.len() {
        assert(a.take(i) =~= a);
    } else {
        lemma_attribs_size_prefix(a.drop_last(), i);
        assert(a.drop_last().take(i) =~= a.take(i));
    }
}

proof fn lemma_frag_end_bound(t: Type, off: nat)
    ensures
        off <= frag_end(t, off) <= off + ty_size(t),
    decreases t,
{
    match t {
        Type::Struct { attribs, .. } => {
            lemma_attribs_end_bound(attribs@, off);
        },
        _ => {},
    }
}

proof fn lemma_attribs_end_bound(a: Seq<(String, Type)>, off: nat)
    ensures
        off <= attribs_end(a, off) <= off + attribs_size(a),
    decreases a,
{
    if a.len() > 0 {
        lemma_attribs_end_bound(a.drop_last(), off);
        lemma_frag_end_bound(a.last().1, attribs_end(a.drop_last(), off));
    }
}

proof fn lemma_attribs_frag_ok_at(a: Seq<(String, Type)>, off: nat, i: int)
    requires
        attribs_frag_ok(a, off),
        0 <= i < a.len(),
    ensures
        frag_ok(a[i].1, attribs_end(a.take(i), off)),
    decreases a.len(),
{
    if i == a.len() - 1 {
        assert(a.take(i) =~= a.drop_last());
    } else {
        lemma_attribs_frag_ok_at(a.drop_last(), off, i);
        assert(a.drop_last().take(i) =~= a.take(i));
    }
}

// ---------------------------------------------------------------- sizes

/// The number of bits of a type without arrays.
fn ty_size_exec(ty: &Type) -> (s: usize)
    requires
        leaves_ok(*ty),
        ty_size(*ty) <= usize::MAX,
    ensures
        s == ty_size(*ty),
    decreases ty,
{
    match ty {
        Type::Primitive(signal_type) => signal_type.size() as usize,
        Type::Struct { attribs, .. } => {
            let mut sum: usize = 0;
            let mut i: usize = 0;
            assert(attribs@.take(0) =~= Seq::<(String, Type)>::empty());
            #[verifier::loop_isolation(false)]
            while i < attribs.len()
                invariant
                    i <= attribs.len(),
                    sum == attribs_size(attribs@.take(i as int)),
                decreases attribs.len() - i,
            {
                proof {
                    lemma_attribs_leaves_at(attribs@, i as int);
                    lemma_attribs_size_prefix(attribs@, i + 1);
                    assert(attribs@.take(i + 1).drop_last() =~= attribs@.take(i as int));
                    assert(decreases_to!(attribs => attribs@));
                    assert(decreases_to!(attribs@ => attribs@[i as int]));
                    assert(decreases_to!(attribs@[i as int] => attribs@[i as int].1));
                }
                let s = ty_size_exec(&attribs[i].1);
                sum = sum + s;
                i = i + 1;
            }
            assert(attribs@.take(attribs.len() as int) =~= attribs@);
            sum
        },
        Type::Enum { size, .. } => *size as usize,
        Type::Array { .. } => {
            proof {
                assert(false);
            }
            0
        },
    }
}

// ---------------------------------------------------------------- fragmentation

fn raw_value_exec(signal_type: &SignalType, var: &str) -> (t: String)
    ensures
        t@ == raw_value(*signal_type, var@),
{
    match signal_type {
        SignalType::UnsignedInt { .. } => var.to_owned(),
        SignalType::SignedInt { size } => if *size <= 8 {
            t_cast_u8_exec(var)
        } else if *size <= 16 {
            t_cast_u16_exec(var)
        } else if *size <= 32 {
            t_cast_u32_exec(var)
        } else {
            t_cast_u64_exec(var)
        },
        SignalType::Decimal { size, offset, scale } => if *size <= 8 {
            t_raw_d8_exec(var, offset.as_str(), scale.as_str())
        } else if *size <= 16 {
            t_raw_d16_exec(var, offset.as_str(), scale.as_str())
        } else if *size <= 32 {
            t_raw_d32_exec(var, offset.as_str(), scale.as_str())
        } else {
            t_raw_d64_exec(var, offset.as_str(), scale.as_str())
        },
    }
}

fn masked_value_exec(val: &str, size: usize) -> (t: String)
    ensures
        t@ == masked_value(val@, size as nat),
{
    let size_s = dec_string(size as u64);
    if size <= 8 {
        t_mask8_exec(val, size_s.as_str())
    } else if size <= 16 {
        t_mask16_exec(val, size_s.as_str())
    } else if size <= 32 {
        t_mask32_exec(val, size_s.as_str())
    } else {
        t_mask64_exec(val, size_s.as_str())
    }
}

fn enum_masked_exec(var: &str, size: usize) -> (t: String)
    ensures
        t@ == enum_masked(var@, size as nat),
{
    let size_s = dec_string(size as u64);
    if size <= 8 {
        t_emask8_exec(var, size_s.as_str())
    } else if size <= 16 {
        t_emask16_exec(var, size_s.as_str())
    } else if size <= 32 {
        t_emask32_exec(var, size_s.as_str())
    } else {
        t_emask64_exec(var, size_s.as_str())
    }
}

fn place_word_exec(buffer: &str, off: usize, size: usize, val: &str, indent2: &str) -> (t: String)
    requires
        size <= 32,
        off + size <= usize::MAX,
    ensures
        t@ == place_word(buffer@, off as nat, size as nat, val@, indent2@),
{
    let word_offset = dec_string((off / 32) as u64);
    if off % 32 == 0 {
        t_frag_set_exec(indent2, buffer, word_offset.as_str(), val)
    } else if off % 32 + size >= 32 {
        let shift = dec_string(((off + size) % 32) as u64);
        t_frag_or_exec(indent2, buffer, word_offset.as_str(), val, shift.as_str())
    } else {
        let lower_shift = dec_string((off % 32) as u64);
        let mut t = t_frag_lower_exec(indent2, buffer, word_offset.as_str(), val, lower_shift.as_str());
        let upper_word_offset = dec_string((off / 32 + 1) as u64);
        let upper_shift = dec_string((32 - (off + size) % 32) as u64);
        let upper = t_frag_upper_exec(indent2, buffer, upper_word_offset.as_str(), val, upper_shift.as_str());
        t.append(upper.as_str());
        t
    }
}

fn place_long_exec(buffer: &str, off: usize, val: &str, indent2: &str, indent3: &str) -> (t: String)
    ensures
        t@ == place_long(buffer@, off as nat, val@, indent2@, indent3@),
{
    let mut t = t_frag_open_exec(indent2);
    let masked = t_frag_masked_exec(indent3, val);
    t.append(masked.as_str());
    let lower_word_offset = dec_string((off / 32) as u64);
    let upper_word_offset = dec_string((off / 32 + 1) as u64);
    if off % 32 == 0 {
        let lo = t_frag_lo_set_exec(indent3, buffer, lower_word_offset.as_str());
        let hi = t_frag_hi_set_exec(indent3, buffer, upper_word_offset.as_str());
        t.append(lo.as_str());
        t.append(hi.as_str());
    } else {
        let shift_left = dec_string((off % 32) as u64);
        let shift_right = dec_string((32 - off % 32) as u64);
        let lo = t_frag_lo_or_exec(indent3, buffer, lower_word_offset.as_str(), shift_left.as_str());
        let rest = t_frag_lo_rest_exec(indent3, buffer, upper_word_offset.as_str(), shift_right.as_str());
        let hi = t_frag_hi_or_exec(indent3, buffer, upper_word_offset.as_str(), shift_right.as_str());
        t.append(lo.as_str());
        t.append(rest.as_str());
        t.append(hi.as_str());
    }
    let close = t_frag_close_exec(indent2);
    t.append(close.as_str());
    t
}

fn eplace_word_exec(buffer: &str, off: usize, size: usize, val: &str) -> (t: String)
    requires
        size <= 32,
        off + size <= usize::MAX,
    ensures
        t@ == eplace_word(buffer@, off as nat, size as nat, val@),
{
    let word_offset = dec_string((off / 32) as u64);
    if off % 32 == 0 {
        t_efrag_set_exec(buffer, word_offset.as_str(), val)
    } else if off % 32 + size >= 32 {
        let shift = dec_string(((off + size) % 32) as u64);
        t_efrag_or_exec(buffer, word_offset.as_str(), val, shift.as_str())
    } else {
        let lower_shift = dec_string((off % 32) as u64);
        let mut t = t_efrag_lower_exec(buffer, word_offset.as_str(), val, lower_shift.as_str());
        let upper_word_offset = dec_string((off / 32 + 1) as u64);
        let upper_shift = dec_string((32 - (off + size) % 32) as u64);
        let upper = t_efrag_upper_exec(buffer, upper_word_offset.as_str(), val, upper_shift.as_str());
        t.append(upper.as_str());
        t
    }
}

fn eplace_long_exec(buffer: &str, off: usize, val: &str) -> (t: String)
    ensures
        t@ == eplace_long(buffer@, off as nat, val@),
{
    let mut t = t_efrag_open_exec();
    let masked = t_efrag_masked_exec(val);
    t.append(masked.as_str());
    let lower_word_offset = dec_string((off / 32) as u64);
    let upper_word_offset = dec_string((off / 32 + 1) as u64);
    if off % 32 == 0 {
        let lo = t_efrag_lo_set_exec(buffer, lower_word_offset.as_str());
        let hi = t_efrag_hi_set_exec(buffer, upper_word_offset.as_str());
        t.append(lo.as_str());
        t.append(hi.as_str());
    } else {
        let shift_left = dec_string((off % 32) as u64);
        let shift_right = dec_string((32 - off % 32) as u64);
        let lo = t_efrag_lo_or_exec(buffer, lower_word_offset.as_str(), shift_left.as_str());
        let rest = t_efrag_lo_rest_exec(buffer, upper_word_offset.as_str(), shift_right.as_str());
        let hi = t_efrag_hi_or_exec(buffer, upper_word_offset.as_str(), shift_right.as_str());
        t.append(lo.as_str());
        t.append(rest.as_str());
        t.append(hi.as_str());
    }
    let close = t_efrag_close_exec();
    t.append(close.as_str());
    t
}

/// Appends the statements that copy `var` of type `ty` into the fragmentation
/// buffer from bit `*bit_offset`, and advances the offset past the values of
/// more than 32 bits.
fn generate_fragmentation_logic(
    logic: &mut String,
    ty: &Type,
    var: &str,
    buffer: &str,
    bit_offset: &mut usize,
    indent2: &str,
    indent3: &str,
)
    requires
        leaves_ok(*ty),
        frag_ok(*ty, *old(bit_offset) as nat),
        *old(bit_offset) + ty_size(*ty) <= usize::MAX,
    ensures
        final(logic)@ == old(logic)@ + frag_text(*ty, var@, buffer@, *old(bit_offset) as nat, indent2@, indent3@),
        *final(bit_offset) == frag_end(*ty, *old(bit_offset) as nat),
    decreases ty,
{
    match ty {
        Type::Primitive(signal_type) => {
            let raw = raw_value_exec(signal_type, var);
            let size = signal_type.size() as usize;
            let val = masked_value_exec(raw.as_str(), size);
            if size <= 32 {
                let placed = place_word_exec(buffer, *bit_offset, size, val.as_str(), indent2);
                logic.append(placed.as_str());
            } else {
                let placed = place_long_exec(buffer, *bit_offset, val.as_str(), indent2, indent3);
                logic.append(placed.as_str());
                *bit_offset = *bit_offset + size;
            }
        },
        Type::Enum { size, .. } => {
            let size = *size as usize;
            let val = enum_masked_exec(var, size);
            if size <= 32 {
                let placed = eplace_word_exec(buffer, *bit_offset, size, val.as_str());
                logic.append(placed.as_str());
            } else {
                let placed = eplace_long_exec(buffer, *bit_offset, val.as_str());
                logic.append(placed.as_str());
                *bit_offset = *bit_offset + size;
            }
        },
        Type::Struct { attribs, .. } => {
            let ghost start = logic@;
            let ghost off0 = *bit_offset as nat;
            let mut i: usize = 0;
            assert(attribs@.take(0) =~= Seq::<(String, Type)>::empty());
            #[verifier::loop_isolation(false)]
            while i < attribs.len()
                invariant
                    i <= attribs.len(),
                    *bit_offset == attribs_end(attribs@.take(i as int), off0),
                    logic@ == start + frag_attribs_text(attribs@.take(i as int), var@, buffer@, off0, indent2@, indent3@),
                decreases attribs.len() - i,
            {
                proof {
                    lemma_attribs_leaves_at(attribs@, i as int);
                    lemma_attribs_frag_ok_at(attribs@, off0, i as int);
                    lemma_attribs_size_prefix(attribs@, i + 1);
                    lemma_attribs_end_bound(attribs@.take(i as int), off0);
                    assert(attribs@.take(i + 1).drop_last() =~= attribs@.take(i as int));
                    assert(decreases_to!(attribs => attribs@));
                    assert(decreases_to!(attribs@ => attribs@[i as int]));
                    assert(decreases_to!(attribs@[i as int] => attribs@[i as int].1));
                }
                let attrib_var = concat_str(concat_str(var, ".").as_str(), attribs[i].0.as_str());
                generate_fragmentation_logic(logic, &attribs[i].1, attrib_var.as_str(), buffer, bit_offset, indent2, indent3);
                i = i + 1;
            }
            assert(attribs@.take(attribs.len() as int) =~= attribs@);
        },
        Type::Array { .. } => {},
    }
}

// ---------------------------------------------------------------- get requests

/// The number of 32-bit words that hold `size` bits.
fn words_exec(size: usize) -> (w: usize)
    ensures
        w == words(size as nat),
{
    if size % 32 == 0 {
        size / 32
    } else {
        size / 32 + 1
    }
}

fn get_value_exec(ty: &Type, size: usize, var: &str, indent2: &str) -> (t: String)
    ensures
        t@ == get_value(*ty, size as nat, var@, indent2@),
{
    match ty {
        Type::Primitive(SignalType::UnsignedInt { size: s }) => {
            let size_s = dec_string(*s as u64);
            if *s <= 8 {
                t_get_u8_exec(indent2, var, size_s.as_str())
            } else if *s <= 16 {
                t_get_u16_exec(indent2, var, size_s.as_str())
            } else {
                t_get_u32_exec(indent2, var, size_s.as_str())
            }
        },
        Type::Primitive(SignalType::SignedInt { size: s }) => {
            let size_s = dec_string(*s as u64);
            if *s <= 8 {
                t_get_i8_exec(indent2, var, size_s.as_str())
            } else if *s <= 16 {
                t_get_i16_exec(indent2, var, size_s.as_str())
            } else {
                t_get_i32_exec(indent2, var, size_s.as_str())
            }
        },
        Type::Primitive(SignalType::Decimal { offset, scale, .. }) => t_get_dec_exec(
            indent2,
            var,
            offset.as_str(),
            scale.as_str(),
        ),
        Type::Enum { .. } => {
            let size_s = dec_string(size as u64);
            if size <= 8 {
                t_get_e8_exec(indent2, var, size_s.as_str())
            } else if size <= 16 {
                t_get_e16_exec(indent2, var, size_s.as_str())
            } else {
                t_get_e32_exec(indent2, var, size_s.as_str())
            }
        },
        _ => String::new(),
    }
}

/// Appends the fragmentation buffer of `oe`, if it needs one, to `source`
/// and its get request case to `case_logic`.
fn get_request_case(
    source: &mut String,
    case_logic: &mut String,
    oe: &ObjectEntry,
    indent: &str,
    indent2: &str,
    indent3: &str,
)
    requires
        get_entry_ok(*oe),
        indent2@ == in2(indent@),
        indent3@ == in3(indent@),
    ensures
        final(source)@ == old(source)@ + get_buffer(*oe),
        final(case_logic)@ == old(case_logic)@ + get_case(*oe, indent@),
{
    reveal(get_case);
    reveal(get_buffer);
    let var = concat_str("__oe_", oe.name.as_str());
    let size = ty_size_exec(&oe.ty);
    let id = dec_string(oe.id as u64);
    if size <= 32 {
        let value = get_value_exec(&oe.ty, size, var.as_str(), indent2);
        let case = t_get_case_small_exec(indent, id.as_str(), value.as_str(), indent2);
        case_logic.append(case.as_str());
        assert(get_buffer(*oe) =~= Seq::<char>::empty());
    } else {
        let buffer_name = concat_str(var.as_str(), "_rx_fragmentation_buffer");
        let buffer_size = dec_string(words_exec(size) as u64);
        let buffer_def = t_get_buffer_def_exec(buffer_name.as_str(), buffer_size.as_str());
        source.append(buffer_def.as_str());
        let mut fragmentation_logic = String::new();
        let mut bit_offset: usize = 0;
        generate_fragmentation_logic(
            &mut fragmentation_logic,
            &oe.ty,
            var.as_str(),
            buffer_name.as_str(),
            &mut bit_offset,
            indent2,
            indent3,
        );
        let case = t_get_case_frag_exec(
            indent,
            id.as_str(),
            fragmentation_logic.as_str(),
            indent2,
            buffer_name.as_str(),
            buffer_size.as_str(),
            id.as_str(),
        );
        case_logic.append(case.as_str());
    }
}

/// Appends the fragmentation buffers of the node's object entries to `source`
/// and returns the handling of a get request.
fn get_request_logic(
    source: &mut String,
    network: &Network,
    node: &Node,
    namespace: &str,
    indent: &str,
    indent2: &str,
    indent3: &str,
) -> (logic: String)
    requires
        forall|i: int| 0 <= i < node.object_entries@.len() ==> get_entry_ok(#[trigger] node.object_entries@[i]),
        indent2@ == in2(indent@),
        indent3@ == in3(indent@),
    ensures
        final(source)@ == old(source)@ + get_buffers(node.object_entries@),
        logic@ == get_req(*node, *network, namespace@, indent@),
{
    let entries = &node.object_entries;
    let ghost start = source@;
    let mut case_logic = t_switch_open_exec(indent);
    let mut i: usize = 0;
    assert(entries@.take(0) =~= Seq::<ObjectEntry>::empty());
    while i < entries.len()
        invariant
            i <= entries.len(),
            indent2@ == in2(indent@),
            indent3@ == in3(indent@),
            forall|k: int| 0 <= k < entries@.len() ==> get_entry_ok(#[trigger] entries@[k]),
            source@ == start + get_buffers(entries@.take(i as int)),
            case_logic@ == t_switch_open(indent@) + get_cases(entries@.take(i as int), indent@),
        decreases entries.len() - i,
    {
        get_request_case(source, &mut case_logic, &entries[i], indent, indent2, indent3);
        assert(entries@.take(i + 1).drop_last() =~= entries@.take(i as int));
        i = i + 1;
    }
    assert(entries@.take(entries.len() as int) =~= entries@);
    let end = t_get_case_end_exec(indent);
    case_logic.append(end.as_str());
    let node_id = dec_string(node.id as u64);
    let frame_type_name = concat_str(namespace, "_frame");
    let resp_bus_id = dec_string(network.get_resp_message.bus.id as u64);
    t_get_req_logic_exec(
        indent,
        node_id.as_str(),
        indent2,
        namespace,
        case_logic.as_str(),
        frame_type_name.as_str(),
        resp_bus_id.as_str(),
    )
}

// ---------------------------------------------------------------- set requests

/// Appends the statements that read `var` of type `ty` from a request that
/// fits one frame; the offset counts the bits read.
fn generate_parse_logic(parse_logic: &mut String, ty: &Type, var: &str, attrib_offset: &mut usize)
    requires
        leaves_ok(*ty),
        *old(attrib_offset) + ty_size(*ty) <= usize::MAX,
    ensures
        final(parse_logic)@ == old(parse_logic)@ + parse_text(*ty, var@),
        *final(attrib_offset) == *old(attrib_offset) + ty_size(*ty),
    decreases ty,
{
    match ty {
        Type::Primitive(signal_type) => {
            let size = signal_type.size() as usize;
            let size_s = dec_string(size as u64);
            let masked = t_masked_data_exec(size_s.as_str());
            let m = masked.as_str();
            let parsed = match signal_type {
                SignalType::UnsignedInt { size } => if *size <= 8 {
                    t_parse_u8_exec(m)
                } else if *size <= 16 {
                    t_parse_u16_exec(m)
                } else if *size <= 32 {
                    t_parse_u32_exec(m)
                } else {
                    t_parse_u64_exec(m)
                },
                SignalType::SignedInt { size } => if *size <= 8 {
                    t_parse_i8_exec(m)
                } else if *size <= 16 {
                    t_parse_i16_exec(m)
                } else if *size <= 32 {
                    t_parse_i32_exec(m)
                } else {
                    t_parse_i64_exec(m)
                },
                SignalType::Decimal { size, offset, scale } => if *size <= 32 {
                    t_parse_f32_exec(m, scale.as_str(), offset.as_str())
                } else {
                    t_parse_f64_exec(m, scale.as_str(), offset.as_str())
                },
            };
            let assign = t_assign_exec(var, parsed.as_str());
            parse_logic.append(assign.as_str());
            *attrib_offset = *attrib_offset + size;
        },
        Type::Struct { attribs, .. } => {
            let ghost start = parse_logic@;
            let ghost off0 = *attrib_offset as nat;
            let mut i: usize = 0;
            assert(attribs@.take(0) =~= Seq::<(String, Type)>::empty());
            #[verifier::loop_isolation(false)]
            while i < attribs.len()
                invariant
                    i <= attribs.len(),
                    *attrib_offset == off0 + attribs_size(attribs@.take(i as int)),
                    parse_logic@ == start + parse_attribs_text(attribs@.take(i as int), var@),
                decreases attribs.len() - i,
            {
                proof {
                    lemma_attribs_leaves_at(attribs@, i as int);
                    lemma_attribs_size_prefix(attribs@, i + 1);
                    assert(attribs@.take(i + 1).drop_last() =~= attribs@.take(i as int));
                    assert(decreases_to!(attribs => attribs@));
                    assert(decreases_to!(attribs@ => attribs@[i as int]));
                    assert(decreases_to!(attribs@[i as int] => attribs@[i as int].1));
                }
                let attrib_var = concat_str(concat_str(var, ".").as_str(), attribs[i].0.as_str());
                generate_parse_logic(parse_logic, &attribs[i].1, attrib_var.as_str(), attrib_offset);
                i = i + 1;
            }
            assert(attribs@.take(attribs.len() as int) =~= attribs@);
        },
        Type::Enum { name, size, .. } => {
            let size = *size as usize;
            let size_s = dec_string(size as u64);
            let masked = t_masked_data_exec(size_s.as_str());
            let parsed = t_parse_enum_exec(name.as_str(), masked.as_str());
            let assign = t_assign_exec(var, parsed.as_str());
            parse_logic.append(assign.as_str());
            *attrib_offset = *attrib_offset + size;
        },
        Type::Array { .. } => {
            proof {
                assert(false);
            }
        },
    }
}

/// Appends the statements that read `var` of type `ty` from the reassembly
/// buffer of a request received in several frames.
fn generate_write_logic(write_logic: &mut String, ty: &Type, buffer_name: &str, var: &str, indent: &str)
    requires
        leaves_ok(*ty),
    ensures
        final(write_logic)@ == old(write_logic)@ + write_text(*ty, buffer_name@, var@, indent@),
    decreases ty,
{
    match ty {
        Type::Primitive(signal_type) => {
            let size = signal_type.size() as usize;
            let zero = dec_string(0);
            let val_bits = if size <= 32 {
                let size_s = dec_string(size as u64);
                t_bits_word_exec(buffer_name, zero.as_str(), size_s.as_str())
            } else {
                let one = dec_string(1);
                let upper = dec_string((size - 32) as u64);
                t_bits_long_exec(buffer_name, zero.as_str(), one.as_str(), upper.as_str())
            };
            let val = match signal_type {
                SignalType::Decimal { offset, scale, .. } => t_scaled_exec(
                    val_bits.as_str(),
                    scale.as_str(),
                    offset.as_str(),
                ),
                _ => val_bits,
            };
            let line = t_assign_line_exec(indent, var, val.as_str());
            write_logic.append(line.as_str());
        },
        Type::Struct { attribs, .. } => {
            let ghost start = write_logic@;
            let mut i: usize = 0;
            assert(attribs@.take(0) =~= Seq::<(String, Type)>::empty());
            #[verifier::loop_isolation(false)]
            while i < attribs.len()
                invariant
                    i <= attribs.len(),
                    write_logic@ == start + write_attribs_text(attribs@.take(i as int), buffer_name@, var@, indent@),
                decreases attribs.len() - i,
            {
                proof {
                    lemma_attribs_leaves_at(attribs@, i as int);
                    assert(attribs@.take(i + 1).drop_last() =~= attribs@.take(i as int));
                    assert(decreases_to!(attribs => attribs@));
                    assert(decreases_to!(attribs@ => attribs@[i as int]));
                    assert(decreases_to!(attribs@[i as int] => attribs@[i as int].1));
                }
                let attrib_var = concat_str(concat_str(var, ".").as_str(), attribs[i].0.as_str());
                generate_write_logic(write_logic, &attribs[i].1, buffer_name, attrib_var.as_str(), indent);
                i = i + 1;
            }
            assert(attribs@.take(attribs.len() as int) =~= attribs@);
        },
        Type::Enum { name, size, .. } => {
            let size = *size as usize;
            let zero = dec_string(0);
            let val_bits = if size <= 32 {
                let size_s = dec_string(size as u64);
                t_bits_word_exec(buffer_name, zero.as_str(), size_s.as_str())
            } else {
                let one = dec_string(1);
                let upper = dec_string((size % 32) as u64);
                t_bits_long_exec(buffer_name, zero.as_str(), one.as_str(), upper.as_str())
            };
            let val = t_enum_cast_exec(name.as_str(), val_bits.as_str());
            let line = t_assign_line_exec(indent, var, val.as_str());
            write_logic.append(line.as_str());
        },
        Type::Array { .. } => {},
    }
}

/// Appends the reassembly buffer of `oe`, if it needs one, to `source` and
/// its set request case to `case_logic`.
fn set_request_case(
    source: &mut String,
    case_logic: &mut String,
    oe: &ObjectEntry,
    indent: &str,
    indent2: &str,
    indent3: &str,
    indent4: &str,
)
    requires
        set_entry_ok(*oe),
        indent2@ == in2(indent@),
        indent3@ == in3(indent@),
        indent4@ == in4(indent@),
    ensures
        final(source)@ == old(source)@ + set_buffer(*oe),
        final(case_logic)@ == old(case_logic)@ + set_case(*oe, indent@),
{
    reveal(set_case);
    reveal(set_buffer);
    let od_index = dec_string(oe.id as u64);
    let size = ty_size_exec(&oe.ty);
    let oe_var = concat_str("__oe_", oe.name.as_str());
    if size <= 32 {
        let mut parse_logic = String::new();
        let mut attrib_offset: usize = 0;
        generate_parse_logic(&mut parse_logic, &oe.ty, oe_var.as_str(), &mut attrib_offset);
        let case = t_set_case_small_exec(indent, od_index.as_str(), indent2, indent3, parse_logic.as_str());
        case_logic.append(case.as_str());
        assert(set_buffer(*oe) =~= Seq::<char>::empty());
    } else {
        let word_size = dec_string(words_exec(size) as u64);
        let buffer_name = concat_str(oe_var.as_str(), "_tx_fragmentation_buffer");
        let buffer_offset = concat_str(oe_var.as_str(), "_tx_fragmentation_offset");
        let buffer_def = t_set_buffer_def_exec(buffer_name.as_str(), word_size.as_str());
        source.append(buffer_def.as_str());
        let offset_def = t_set_offset_def_exec(buffer_offset.as_str());
        source.append(offset_def.as_str());
        let mut write_logic = String::new();
        generate_write_logic(&mut write_logic, &oe.ty, buffer_name.as_str(), oe_var.as_str(), indent2);
        let case = t_set_case_frag_exec(
            indent,
            od_index.as_str(),
            indent2,
            indent3,
            indent4,
            buffer_offset.as_str(),
            word_size.as_str(),
            buffer_name.as_str(),
            write_logic.as_str(),
        );
        case_logic.append(case.as_str());
    }
}

/// Appends the reassembly buffers of the node's object entries to `source`
/// and returns the handling of a set request.
fn set_request_logic(
    source: &mut String,
    network: &Network,
    node: &Node,
    namespace: &str,
    indent: &str,
    indent2: &str,
    indent3: &str,
    indent4: &str,
) -> (logic: String)
    requires
        forall|i: int| 0 <= i < node.object_entries@.len() ==> set_entry_ok(#[trigger] node.object_entries@[i]),
        indent2@ == in2(indent@),
        indent3@ == in3(indent@),
        indent4@ == in4(indent@),
    ensures
        final(source)@ == old(source)@ + set_buffers(node.object_entries@),
        logic@ == set_req(*node, *network, namespace@, indent@),
{
    let entries = &node.object_entries;
    let ghost start = source@;
    let mut case_logic = t_switch_open_exec(indent);
    let mut i: usize = 0;
    assert(entries@.take(0) =~= Seq::<ObjectEntry>::empty());
    while i < entries.len()
        invariant
            i <= entries.len(),
            indent2@ == in2(indent@),
            indent3@ == in3(indent@),
            indent4@ == in4(indent@),
            forall|k: int| 0 <= k < entries@.len() ==> set_entry_ok(#[trigger] entries@[k]),
            source@ == start + set_buffers(entries@.take(i as int)),
            case_logic@ == t_switch_open(indent@) + set_cases(entries@.take(i as int), indent@),
        decreases entries.len() - i,
    {
        set_request_case(source, &mut case_logic, &entries[i], indent, indent2, indent3, indent4);
        assert(entries@.take(i + 1).drop_last() =~= entries@.take(i as int));
        i = i + 1;
    }
    assert(entries@.take(entries.len() as int) =~= entries@);
    let end = t_set_switch_end_exec(indent, indent2);
    case_logic.append(end.as_str());
    let node_id = dec_string(node.id as u64);
    let resp_bus_id = dec_string(network.set_resp_message.bus.id as u64);
    t_set_req_logic_exec(indent, node_id.as_str(), indent2, namespace, case_logic.as_str(), resp_bus_id.as_str())
}

// ---------------------------------------------------------------- streams and commands

fn stream_logic_exec(attributes: &Vec<TypeSignalEncoding>, mapping: &Vec<Option<ObjectEntry>>, indent: &str) -> (logic: String)
    ensures
        logic@ == stream_logic(attributes@, mapping@, indent@),
{
    let n = if attributes.len() < mapping.len() {
        attributes.len()
    } else {
        mapping.len()
    };
    let mut logic = String::new();
    let mut i: usize = 0;
    while i < n
        invariant
            i <= n,
            n <= attributes.len(),
            n <= mapping.len(),
            logic@ == stream_logic(attributes@.take(i as int), mapping@.take(i as int), indent@),
        decreases n - i,
    {
        proof {
            assert(attributes@.take(i + 1).take(i as int) =~= attributes@.take(i as int));
            assert(mapping@.take(i + 1).take(i as int) =~= mapping@.take(i as int));
        }
        match &mapping[i] {
            Some(object_entry) => {
                let object_entry_var = concat_str("__oe_", object_entry.name.as_str());
                let assign = t_stream_assign_exec(indent, object_entry_var.as_str(), attributes[i].name());
                logic.append(assign.as_str());
            },
            None => {},
        }
        i = i + 1;
    }
    proof {
        if n > 0 {
            assert(attributes@.take(n as int).take(n - 1) =~= attributes@.take(n - 1));
            assert(mapping@.take(n as int).take(n - 1) =~= mapping@.take(n - 1));
        } else {
            assert(attributes@.take(0) =~= Seq::<TypeSignalEncoding>::empty());
            assert(mapping@.take(0) =~= Seq::<Option<ObjectEntry>>::empty());
        }
    }
    logic
}

fn attribute_list_exec(attributes: &Vec<TypeSignalEncoding>) -> (list: String)
    ensures
        list@ == attribute_list(attributes@),
{
    let mut list = String::new();
    let mut i: usize = 0;
    assert(attributes@.take(0) =~= Seq::<TypeSignalEncoding>::empty());
    while i < attributes.len()
        invariant
            i <= attributes.len(),
            list@ == attribute_list(attributes@.take(i as int)),
        decreases attributes.len() - i,
    {
        assert(attributes@.take(i + 1).drop_last() =~= attributes@.take(i as int));
        if i > 0 {
            list.append(", ");
        }
        list.append("msg.");
        list.append(attributes[i].name());
        i = i + 1;
    }
    assert(attributes@.take(attributes.len() as int) =~= attributes@);
    list
}

fn command_logic_exec(command: &Command, namespace: &str, indent: &str) -> (logic: String)
    requires
        command.tx_message.encoding is Some,
    ensures
        logic@ == command_logic(*command, namespace@, indent@),
{
    let attribute_list = match &command.tx_message.encoding {
        Some(encoding) => attribute_list_exec(&encoding.attributes),
        None => String::new(),
    };
    let frame_type_name = concat_str(namespace, "_frame");
    let resp_bus_id = dec_string(command.rx_message.bus.id as u64);
    t_command_resp_exec(
        indent,
        namespace,
        command.rx_message.name.as_str(),
        command.name.as_str(),
        attribute_list.as_str(),
        frame_type_name.as_str(),
        resp_bus_id.as_str(),
    )
}

// ---------------------------------------------------------------- handlers

/// Appends the buffers that the handler of `message` needs, then the handler.
fn generate_handler(
    source: &mut String,
    message: &Message,
    network: &Network,
    node: &Node,
    namespace: &str,
    indent: &str,
    indent2: &str,
    indent3: &str,
    indent4: &str,
)
    requires
        rx_message_ok(*message, *node),
        indent2@ == in2(indent@),
        indent3@ == in3(indent@),
        indent4@ == in4(indent@),
    ensures
        final(source)@ == old(source)@ + handler_text(*message, *node, *network, namespace@, indent@),
{
    let ghost start = source@;
    let (logic, weak) = match &message.usage {
        MessageUsage::Stream(mapping) => match &message.encoding {
            Some(encoding) => (stream_logic_exec(&encoding.attributes, mapping, indent), false),
            None => (String::new(), false),
        },
        MessageUsage::CommandReq(command) => (command_logic_exec(command, namespace, indent), false),
        MessageUsage::GetReq => (get_request_logic(source, network, node, namespace, indent, indent2, indent3), false),
        MessageUsage::SetReq => (
            set_request_logic(source, network, node, namespace, indent, indent2, indent3, indent4),
            false,
        ),
        MessageUsage::External { .. } => (String::new(), true),
        _ => (String::new(), false),
    };
    assert(source@ == start + handler_parts(*message, *node, *network, namespace@, indent@).0);
    let attributes = if weak {
        "__attribute__((weak))"
    } else {
        "static"
    };
    let handler_name = concat_str(concat_str(namespace, "_handle_").as_str(), message.name.as_str());
    let frame_type_name = concat_str(namespace, "_frame");
    let handler_def = t_handler_def_exec(
        attributes,
        handler_name.as_str(),
        frame_type_name.as_str(),
        indent,
        namespace,
        message.name.as_str(),
        logic.as_str(),
    );
    source.append(handler_def.as_str());
}

/// Appends to `source` a handler for each message the node receives, in
/// order, each preceded by the buffers its get or set requests need; the
/// header is left as it is.
pub fn generate_rx_handlers(
    network_config: &Network,
    node_config: &Node,
    source: &mut String,
    _header: &mut String,
    options: &Options,
) -> (r: Result<(), Error>)
    requires
        forall|i: int|
            0 <= i < node_config.rx_messages@.len() ==> rx_message_ok(#[trigger] node_config.rx_messages@[i], *node_config),
    ensures
        r is Ok,
        final(_header)@ == old(_header)@,
        final(source)@ == old(source)@ + handlers_text(
            node_config.rx_messages@,
            *node_config,
            *network_config,
            options@.namespace,
            spaces(options@.indent),
        ),
{
    let namespace = options.namespace();
    let indent_string = spaces_string(options.indent());
    let indent = indent_string.as_str();
    let indent2_string = concat_str(indent, indent);
    let indent2 = indent2_string.as_str();
    let indent3_string = concat_str(indent2, indent);
    let indent3 = indent3_string.as_str();
    let indent4_string = concat_str(indent2, indent2);
    let indent4 = indent4_string.as_str();
    let messages = &node_config.rx_messages;
    let ghost start = source@;
    let mut i: usize = 0;
    assert(messages@.take(0) =~= Seq::<Message>::empty());
    while i < messages.len()
        invariant
            i <= messages.len(),
            namespace@ == options@.namespace,
            indent@ == spaces(options@.indent),
            indent2@ == in2(indent@),
            indent3@ == in3(indent@),
            indent4@ == in4(indent@),
            forall|k: int| 0 <= k < messages@.len() ==> rx_message_ok(#[trigger] messages@[k], *node_config),
            source@ == start + handlers_text(messages@.take(i as int), *node_config, *network_config, namespace@, indent@),
        decreases messages.len() - i,
    {
        generate_handler(source, &messages[i], network_config, node_config, namespace, indent, indent2, indent3, indent4);
        assert(messages@.take(i + 1).drop_last() =~= messages@.take(i as int));
        i = i + 1;
    }
    assert(messages@.take(messages.len() as int) =~= messages@);
    Ok(())
}

/// A get request of a decimal object entry of at most 32 bits is answered
/// with the entry's value less its offset, divided by its scale: the case of
/// the entry opens with that response data.
pub proof fn law_get_decimal_response(oe: ObjectEntry, size: u8, offset: String, scale: String, indent: Seq<char>)
    requires
        oe.ty == Type::Primitive(SignalType::Decimal { size, offset, scale }),
        size <= 32,
    ensures
        (indent + "case "@ + dec(oe.id as nat) + ": {\n"@ + (indent + indent) + "resp.data = (uint32_t)(("@ + "__oe_"@
            + oe.name@ + " - ("@ + offset@ + ")) / "@ + scale@ + ");\n"@).is_prefix_of(get_case(oe, indent)),
{
    reveal(get_case);
    let line = (indent + indent) + "resp.data = (uint32_t)(("@ + "__oe_"@ + oe.name@ + " - ("@ + offset@ + ")) / "@ + scale@
        + ");\n"@;
    let head = indent + "case "@ + dec(oe.id as nat) + ": {\n"@;
    assert(get_value(oe.ty, ty_size(oe.ty), oe_var(oe.name@), in2(indent)) =~= line);
    let c = get_case(oe, indent);
    assert(c.subrange(0, (head + line).len() as int) =~= head + line);
}

} // verus!
