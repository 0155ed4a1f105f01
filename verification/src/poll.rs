//! The polling function that drains the receive queue and dispatches
//! frames to message deserializers.
use vstd::prelude::*;
use vstd::string::*;
use crate::errors::Error;
use crate::file_buffer::{{FileBuffer, FileView, Target, apply_plan, plan_view, run_plan}};
use crate::options::Options;
use crate::source_block::{{BlockId, BlockView, SourceBlock, SourceBlockIdentifier, block, ids_view}};
use crate::text::{{spaces, spaces_string}};
use crate::config::{Message, MessageId, Node};
use crate::text::{concat_str, hex, hex_string};

verus! {

/// The key a message is dispatched on: its identifier shifted left by one
/// (within 32 bits), with the lowest bit set for extended identifiers.
pub open spec fn message_key(id: MessageId) -> u32 {
    match id {
        MessageId::StandardId(i) => (i << 1u32) | 0u32,
        MessageId::ExtendedId(i) => (i << 1u32) | 1u32,
    }
}

fn message_key_exec(id: &MessageId) -> (k: u32)
    ensures
        k == message_key(*id),
{
    match id {
        MessageId::StandardId(i) => *i << 1u32 | 0u32,
        MessageId::ExtendedId(i) => *i << 1u32 | 1u32,
    }
}

/// The switch case of one message.
pub open spec fn poll_case(m: Message, indent: Seq<char>) -> Seq<char> {
    (indent + indent) + "case 0x"@ + hex(message_key(m.id) as nat) + ": \n"@ + (indent + indent + indent) + m.name@ + " msg;\n"@ + (indent + indent + indent) + ("deserialize_"@ + m.name@) + "(frame.data, &msg);\n"@ + (indent + indent + indent) + "//TODO handling of frame!\n"@ + (indent + indent + indent) + "break;\n"@
}

/// The switch cases of `messages`, in order.
pub open spec fn poll_cases(messages: Seq<Message>, indent: Seq<char>) -> Seq<char>
    decreases messages.len(),
{
    if messages.len() == 0 {
        Seq::empty()
    } else {
        poll_cases(messages.drop_last(), indent) + poll_case(messages.last(), indent)
    }
}

/// The declaration of the polling function in the header and its definition,
/// with one case per transmitted message of the node, in the source.
pub open spec fn poll_plan(messages: Seq<Message>, namespace: Seq<char>, indent: Seq<char>) -> Seq<(Target, BlockView)> {
    let name = namespace + "_poll"@;
    seq![
        (Target::Header, block(BlockId::Declaration(name), "void "@ + name + "();\n"@, Seq::empty())),
        (Target::Source, block(BlockId::Definition(name), "void "@ + name + "() {\n"@ + indent + "can_frame frame;\n"@ + indent + "while (rx_queue_dequeue(&rx_queue, &frame) {\n"@ + indent + "switch (frame.header) {\n"@ + poll_cases(messages, indent) + indent + "}\n"@ + "}\n"@, seq![BlockId::Declaration(name)])),
    ]
}

fn push_poll_case(s: &mut String, m: &Message, indent_s: &String, indent2: &String, indent3: &String)
    requires
        indent2@ == indent_s@ + indent_s@,
        indent3@ == indent_s@ + indent_s@ + indent_s@,
    ensures
        final(s)@ == old(s)@ + poll_case(*m, indent_s@),
{
    let ghost indent = indent_s@;
    let ghost start = s@;
    let key = message_key_exec(&m.id);
    let deserialize_func_name = concat_str("deserialize_", m.name.as_str());
    s.append(indent2.as_str());
    s.append("case 0x");
    s.append(hex_string(key as u64).as_str());
    s.append(": \n");
    s.append(indent3.as_str());
    s.append(m.name.as_str());
    s.append(" msg;\n");
    s.append(indent3.as_str());
    s.append(deserialize_func_name.as_str());
    s.append("(frame.data, &msg);\n");
    s.append(indent3.as_str());
    s.append("//TODO handling of frame!\n");
    s.append(indent3.as_str());
    s.append("break;\n");
    assert(s@ =~= start + poll_case(*m, indent));
}

/// Adds the polling function: its declaration to `header`, its definition
/// to `source`.
pub fn generate_poll(node_config: &Node, header: &mut FileBuffer, source: &mut FileBuffer, options: &Options) -> (r: Result<(), Error>)
    ensures
        (final(header)@, final(source)@, r) == apply_plan(old(header)@, old(source)@, poll_plan(node_config.tx_messages@, options@.namespace, spaces(options@.indent))),
        old(source)@.wf() ==> final(source)@.wf(),
        old(header)@.wf() ==> final(header)@.wf(),
{
    let namespace_s = options.namespace();
    let indent_s = spaces_string(options.indent());
    let ghost indent = indent_s@;
    let indent2 = concat_str(indent_s.as_str(), indent_s.as_str());
    let indent3 = concat_str(indent2.as_str(), indent_s.as_str());
    let name_s = concat_str(namespace_s, "_poll");
    let ghost name = name_s@;
    let mut decl = String::new();
    decl.append("void ");
    decl.append(name_s.as_str());
    decl.append("();\n");
    let mut def = String::new();
    def.append("void ");
    def.append(name_s.as_str());
    def.append("() {\n");
    def.append(indent_s.as_str());
    def.append("can_frame frame;\n");
    def.append(indent_s.as_str());
    def.append("while (rx_queue_dequeue(&rx_queue, &frame) {\n");
    def.append(indent_s.as_str());
    def.append("switch (frame.header) {\n");
    let ghost head = def@;
    let msgs = &node_config.tx_messages;
    let mut i: usize = 0;
    assert(msgs@.take(0) =~= Seq::<Message>::empty());
    while i < msgs.len()
        invariant
            i <= msgs.len(),
            indent2@ == indent_s@ + indent_s@,
            indent3@ == indent_s@ + indent_s@ + indent_s@,
            def@ == head + poll_cases(msgs@.take(i as int), indent_s@),
        decreases msgs.len() - i,
    {
        push_poll_case(&mut def, &msgs[i], &indent_s, &indent2, &indent3);
        assert(msgs@.take(i + 1).drop_last() =~= msgs@.take(i as int));
        i = i + 1;
    }
    assert(msgs@.take(msgs.len() as int) =~= msgs@);
    def.append(indent_s.as_str());
    def.append("}\n");
    def.append("}\n");
    let mut plan: Vec<(Target, SourceBlock)> = Vec::new();
    let d0: Vec<SourceBlockIdentifier> = Vec::new();
    assert(ids_view(d0@) =~= Seq::<BlockId>::empty());
    plan.push((Target::Header, SourceBlock::new(SourceBlockIdentifier::Declartion(name_s.clone()), decl, d0)));
    let mut d1: Vec<SourceBlockIdentifier> = Vec::new();
    d1.push(SourceBlockIdentifier::Declartion(name_s.clone()));
    assert(ids_view(d1@) =~= seq![BlockId::Declaration(name)]);
    plan.push((Target::Source, SourceBlock::new(SourceBlockIdentifier::Definition(name_s), def, d1)));
    assert(plan_view(plan@) =~= poll_plan(node_config.tx_messages@, options@.namespace, indent));
    run_plan(header, source, plan)
}

} // verus!
