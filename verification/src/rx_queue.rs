//! A receive queue of CAN frames in the generated source.
use vstd::prelude::*;
use vstd::string::*;
use crate::errors::Error;
use crate::file_buffer::{{FileBuffer, FileView, Target, apply_plan, plan_view, run_plan}};
use crate::options::Options;
use crate::source_block::{{BlockId, BlockView, SourceBlock, SourceBlockIdentifier, block, ids_view}};
use crate::text::{{spaces, spaces_string}};
use crate::can_frame::{frame_name, frame_name_string};

verus! {

/// The blocks of the receive queue: its type, its enqueue and dequeue
/// functions on frames of `namespace`, and the queue variable, all in the
/// source file.
pub open spec fn rx_queue_plan(namespace: Seq<char>) -> Seq<(Target, BlockView)> {
    seq![
        (Target::Source, block(BlockId::Definition("rx_queue"@), "typedef struct {\n  \n} rx_queue;\n"@, Seq::empty())),
        (Target::Source, block(BlockId::Definition("rx_queue_enqueue"@), "void rx_queue_enqueue(rx_queue* self, "@ + frame_name(namespace) + "* frame) {\n  //TODO\n}\n"@, seq![BlockId::Definition("rx_queue"@), BlockId::Definition(frame_name(namespace))])),
        (Target::Source, block(BlockId::Definition("rx_queue_dequeue"@), "int rx_queue_dequeue(rx_queue* self, "@ + frame_name(namespace) + "* frame) {\n  //TODO\n  return 0;\n}\n"@, seq![BlockId::Definition("rx_queue"@), BlockId::Definition(frame_name(namespace))])),
        (Target::Source, block(BlockId::Definition("can0_rx_queue"@), "static rx_queue can0_rx_queue;\n"@, seq![BlockId::Definition("rx_queue"@)])),
    ]
}

/// Adds the receive queue's blocks to `source`.
pub fn generate_rx_queue(_header: &mut FileBuffer, source: &mut FileBuffer, options: &Options) -> (r: Result<(), Error>)
    ensures
        (final(_header)@, final(source)@, r) == apply_plan(old(_header)@, old(source)@, rx_queue_plan(options@.namespace)),
        old(source)@.wf() ==> final(source)@.wf(),
        old(_header)@.wf() ==> final(_header)@.wf(),
{
    let namespace_s = options.namespace();
    let ghost namespace = options@.namespace;
    let can_frame_type = frame_name_string(namespace_s);
    let mut plan: Vec<(Target, SourceBlock)> = Vec::new();
    let mut c0 = String::new();
    c0.append("typedef struct {\n  \n} rx_queue;\n");
    let mut d0: Vec<SourceBlockIdentifier> = Vec::new();
    assert(ids_view(d0@) =~= Seq::<BlockId>::empty());
    plan.push((Target::Source, SourceBlock::new(SourceBlockIdentifier::Definition("rx_queue".to_owned()), c0, d0)));
    let mut c1 = String::new();
    c1.append("void rx_queue_enqueue(rx_queue* self, ");
    c1.append(can_frame_type.as_str());
    c1.append("* frame) {\n  //TODO\n}\n");
    let mut d1: Vec<SourceBlockIdentifier> = Vec::new();
    d1.push(SourceBlockIdentifier::Definition("rx_queue".to_owned()));
    d1.push(SourceBlockIdentifier::Definition(can_frame_type.clone()));
    assert(ids_view(d1@) =~= seq![BlockId::Definition("rx_queue"@), BlockId::Definition(frame_name(namespace))]);
    plan.push((Target::Source, SourceBlock::new(SourceBlockIdentifier::Definition("rx_queue_enqueue".to_owned()), c1, d1)));
    let mut c2 = String::new();
    c2.append("int rx_queue_dequeue(rx_queue* self, ");
    c2.append(can_frame_type.as_str());
    c2.append("* frame) {\n  //TODO\n  return 0;\n}\n");
    let mut d2: Vec<SourceBlockIdentifier> = Vec::new();
    d2.push(SourceBlockIdentifier::Definition("rx_queue".to_owned()));
    d2.push(SourceBlockIdentifier::Definition(can_frame_type.clone()));
    assert(ids_view(d2@) =~= seq![BlockId::Definition("rx_queue"@), BlockId::Definition(frame_name(namespace))]);
    plan.push((Target::Source, SourceBlock::new(SourceBlockIdentifier::Definition("rx_queue_dequeue".to_owned()), c2, d2)));
    let mut c3 = String::new();
    c3.append("static rx_queue can0_rx_queue;\n");
    let mut d3: Vec<SourceBlockIdentifier> = Vec::new();
    d3.push(SourceBlockIdentifier::Definition("rx_queue".to_owned()));
    assert(ids_view(d3@) =~= seq![BlockId::Definition("rx_queue"@)]);
    plan.push((Target::Source, SourceBlock::new(SourceBlockIdentifier::Definition("can0_rx_queue".to_owned()), c3, d3)));
    assert(plan_view(plan@) =~= rx_queue_plan(options@.namespace));
    run_plan(_header, source, plan)
}

} // verus!
