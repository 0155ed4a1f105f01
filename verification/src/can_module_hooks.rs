//! Declarations of the hooks the generated code expects the platform to
//! provide: per bus a setup, send and receive function, and an update request.
use vstd::prelude::*;
use vstd::string::*;
use crate::errors::Error;
use crate::file_buffer::{{FileBuffer, FileView, Target, apply_plan, plan_view, run_plan}};
use crate::options::Options;
use crate::source_block::{{BlockId, BlockView, SourceBlock, SourceBlockIdentifier, block, ids_view}};
use crate::text::{{spaces, spaces_string}};
use crate::config::Bus;
use crate::text::{concat_str, dec, dec_string};

verus! {

/// The hook declarations of one bus.
pub open spec fn bus_hooks_plan(bus: Bus, namespace: Seq<char>) -> Seq<(Target, BlockView)> {
    seq![
        (Target::Source, block(BlockId::Declaration((namespace + "_can"@ + dec(bus.id as nat) + "_setup"@)), "extern void "@ + (namespace + "_can"@ + dec(bus.id as nat) + "_setup"@) + "(uint32_t baudrate, "@ + namespace + "_can_filter* filters, int filter_count);\n"@, seq![BlockId::Import("inttypes.h"@)])),
        (Target::Source, block(BlockId::Declaration((namespace + "_can"@ + dec(bus.id as nat) + "_send"@)), "extern void "@ + (namespace + "_can"@ + dec(bus.id as nat) + "_send"@) + "("@ + namespace + "_frame* frame);\n"@, seq![BlockId::Definition((namespace + "_frame"@))])),
        (Target::Source, block(BlockId::Declaration((namespace + "_can"@ + dec(bus.id as nat) + "_recv"@)), "extern int "@ + (namespace + "_can"@ + dec(bus.id as nat) + "_recv"@) + "("@ + namespace + "_frame* frame);\n"@, seq![BlockId::Definition((namespace + "_frame"@))])),
    ]
}

/// The hook declarations of `buses`, bus by bus.
pub open spec fn buses_hooks_plan(buses: Seq<Bus>, namespace: Seq<char>) -> Seq<(Target, BlockView)>
    decreases buses.len(),
{
    if buses.len() == 0 {
        Seq::empty()
    } else {
        buses_hooks_plan(buses.drop_last(), namespace) + bus_hooks_plan(buses.last(), namespace)
    }
}

/// The hook declarations of all buses, then the update request hook.
pub open spec fn hooks_plan(buses: Seq<Bus>, namespace: Seq<char>) -> Seq<(Target, BlockView)> {
    buses_hooks_plan(buses, namespace) + seq![
        (Target::Source, block(BlockId::Declaration((namespace + "_request_update"@)), "extern void "@ + (namespace + "_request_update"@) + "(uint32_t time);\n"@, seq![BlockId::Import("inttypes.h"@)])),
    ]
}

fn push_bus_hooks(plan: &mut Vec<(Target, SourceBlock)>, bus: &Bus, namespace_s: &str)
    ensures
        plan_view(final(plan)@) == plan_view(old(plan)@) + bus_hooks_plan(*bus, namespace_s@),
{
    let ghost namespace = namespace_s@;
    let prefix = concat_str(concat_str(namespace_s, "_can").as_str(), dec_string(bus.id as u64).as_str());
    let setup_name = concat_str(prefix.as_str(), "_setup");
    let send_name = concat_str(prefix.as_str(), "_send");
    let recv_name = concat_str(prefix.as_str(), "_recv");
    let ghost start = plan_view(plan@);
    let ghost prev0 = plan_view(plan@);
    let mut c0 = String::new();
    c0.append("extern void ");
    c0.append(setup_name.as_str());
    c0.append("(uint32_t baudrate, ");
    c0.append(namespace_s);
    c0.append("_can_filter* filters, int filter_count);\n");
    let mut d0: Vec<SourceBlockIdentifier> = Vec::new();
    d0.push(SourceBlockIdentifier::Import("inttypes.h".to_owned()));
    assert(ids_view(d0@) =~= seq![BlockId::Import("inttypes.h"@)]);
    plan.push((Target::Source, SourceBlock::new(SourceBlockIdentifier::Declartion(setup_name.clone()), c0, d0)));
    assert(plan_view(plan@) =~= prev0.push((Target::Source, block(BlockId::Declaration((namespace + "_can"@ + dec(bus.id as nat) + "_setup"@)), "extern void "@ + (namespace + "_can"@ + dec(bus.id as nat) + "_setup"@) + "(uint32_t baudrate, "@ + namespace + "_can_filter* filters, int filter_count);\n"@, seq![BlockId::Import("inttypes.h"@)]))));
    let ghost prev1 = plan_view(plan@);
    let mut c1 = String::new();
    c1.append("extern void ");
    c1.append(send_name.as_str());
    c1.append("(");
    c1.append(namespace_s);
    c1.append("_frame* frame);\n");
    let mut d1: Vec<SourceBlockIdentifier> = Vec::new();
    d1.push(SourceBlockIdentifier::Definition(concat_str(namespace_s, "_frame")));
    assert(ids_view(d1@) =~= seq![BlockId::Definition((namespace + "_frame"@))]);
    plan.push((Target::Source, SourceBlock::new(SourceBlockIdentifier::Declartion(send_name.clone()), c1, d1)));
    assert(plan_view(plan@) =~= prev1.push((Target::Source, block(BlockId::Declaration((namespace + "_can"@ + dec(bus.id as nat) + "_send"@)), "extern void "@ + (namespace + "_can"@ + dec(bus.id as nat) + "_send"@) + "("@ + namespace + "_frame* frame);\n"@, seq![BlockId::Definition((namespace + "_frame"@))]))));
    let ghost prev2 = plan_view(plan@);
    let mut c2 = String::new();
    c2.append("extern int ");
    c2.append(recv_name.as_str());
    c2.append("(");
    c2.append(namespace_s);
    c2.append("_frame* frame);\n");
    let mut d2: Vec<SourceBlockIdentifier> = Vec::new();
    d2.push(SourceBlockIdentifier::Definition(concat_str(namespace_s, "_frame")));
    assert(ids_view(d2@) =~= seq![BlockId::Definition((namespace + "_frame"@))]);
    plan.push((Target::Source, SourceBlock::new(SourceBlockIdentifier::Declartion(recv_name.clone()), c2, d2)));
    assert(plan_view(plan@) =~= prev2.push((Target::Source, block(BlockId::Declaration((namespace + "_can"@ + dec(bus.id as nat) + "_recv"@)), "extern int "@ + (namespace + "_can"@ + dec(bus.id as nat) + "_recv"@) + "("@ + namespace + "_frame* frame);\n"@, seq![BlockId::Definition((namespace + "_frame"@))]))));
    assert(plan_view(plan@) =~= start + seq![         (Target::Source, block(BlockId::Declaration((namespace + "_can"@ + dec(bus.id as nat) + "_setup"@)), "extern void "@ + (namespace + "_can"@ + dec(bus.id as nat) + "_setup"@) + "(uint32_t baudrate, "@ + namespace + "_can_filter* filters, int filter_count);\n"@, seq![BlockId::Import("inttypes.h"@)])),         (Target::Source, block(BlockId::Declaration((namespace + "_can"@ + dec(bus.id as nat) + "_send"@)), "extern void "@ + (namespace + "_can"@ + dec(bus.id as nat) + "_send"@) + "("@ + namespace + "_frame* frame);\n"@, seq![BlockId::Definition((namespace + "_frame"@))])),         (Target::Source, block(BlockId::Declaration((namespace + "_can"@ + dec(bus.id as nat) + "_recv"@)), "extern int "@ + (namespace + "_can"@ + dec(bus.id as nat) + "_recv"@) + "("@ + namespace + "_frame* frame);\n"@, seq![BlockId::Definition((namespace + "_frame"@))])),     ]);
}

/// Adds to `source` the declarations of the platform hooks: for each bus its
/// setup, send and receive functions, then the update request function.
pub fn generate_hooks(buses: &Vec<Bus>, source: &mut FileBuffer, _header: &mut FileBuffer, options: &Options) -> (r: Result<(), Error>)
    ensures
        (final(_header)@, final(source)@, r) == apply_plan(old(_header)@, old(source)@, hooks_plan(buses@, options@.namespace)),
        old(source)@.wf() ==> final(source)@.wf(),
        old(_header)@.wf() ==> final(_header)@.wf(),
{
    let namespace_s = options.namespace();
    let ghost namespace = namespace_s@;
    let mut plan: Vec<(Target, SourceBlock)> = Vec::new();
    let mut i: usize = 0;
    assert(plan_view(plan@) =~= buses_hooks_plan(buses@.take(0), namespace));
    while i < buses.len()
        invariant
            i <= buses.len(),
            namespace == namespace_s@,
            plan_view(plan@) == buses_hooks_plan(buses@.take(i as int), namespace),
        decreases buses.len() - i,
    {
        push_bus_hooks(&mut plan, &buses[i], namespace_s);
        assert(buses@.take(i + 1).drop_last() =~= buses@.take(i as int));
        i = i + 1;
    }
    assert(buses@.take(buses.len() as int) =~= buses@);
    let request_name = concat_str(namespace_s, "_request_update");
    let ghost start = plan_view(plan@);
    let ghost prev0 = plan_view(plan@);
    let mut c0 = String::new();
    c0.append("extern void ");
    c0.append(request_name.as_str());
    c0.append("(uint32_t time);\n");
    let mut d0: Vec<SourceBlockIdentifier> = Vec::new();
    d0.push(SourceBlockIdentifier::Import("inttypes.h".to_owned()));
    assert(ids_view(d0@) =~= seq![BlockId::Import("inttypes.h"@)]);
    plan.push((Target::Source, SourceBlock::new(SourceBlockIdentifier::Declartion(request_name.clone()), c0, d0)));
    assert(plan_view(plan@) =~= prev0.push((Target::Source, block(BlockId::Declaration((namespace + "_request_update"@)), "extern void "@ + (namespace + "_request_update"@) + "(uint32_t time);\n"@, seq![BlockId::Import("inttypes.h"@)]))));
    assert(plan_view(plan@) =~= start + seq![         (Target::Source, block(BlockId::Declaration((namespace + "_request_update"@)), "extern void "@ + (namespace + "_request_update"@) + "(uint32_t time);\n"@, seq![BlockId::Import("inttypes.h"@)])),     ]);
    run_plan(_header, source, plan)
}

} // verus!
