//! The initialization function of the generated code.
use vstd::prelude::*;
use vstd::string::*;
use crate::config::{Bus, Network, Node, Stream};
use crate::options::Options;
use crate::errors::Error;
use crate::text::{lemma_prefix_extends, concat_str, dec, dec_string, spaces, spaces_string};

verus! {

/// The setup calls of the buses, one line per bus.
pub open spec fn setup_cans(items: Seq<Bus>, namespace: Seq<char>, indent: Seq<char>) -> Seq<char>
    decreases items.len(),
{
    if items.len() == 0 {
        Seq::empty()
    } else {
        let x = items.last();
        setup_cans(items.drop_last(), namespace, indent) + indent + namespace + "_"@ + x.name@ + "_setup("@ + dec(x.baudrate as nat) + ", NULL, 0);\n"@
    }
}

/// The calls that schedule the interval jobs of the streams, one line per stream.
pub open spec fn schedule_stream_jobs(items: Seq<Stream>, indent: Seq<char>) -> Seq<char>
    decreases items.len(),
{
    if items.len() == 0 {
        Seq::empty()
    } else {
        let x = items.last();
        schedule_stream_jobs(items.drop_last(), indent) + indent + "schedule_"@ + x.name@ + "_interval_job();\n"@
    }
}

/// The declaration of the initialization function.
pub open spec fn setup_header_text(namespace: Seq<char>) -> Seq<char> {
    "void "@ + (namespace + "_init"@) + "();\n"@
}

/// The initialization function: set up every bus, initialize the job pool
/// and the scheduler, and schedule the heartbeat and each stream's job.
pub open spec fn setup_source_text(node: Node, network: Network, namespace: Seq<char>, indent: Seq<char>) -> Seq<char> {
    "void "@ + (namespace + "_init"@) + "() {\n"@ + setup_cans(network.buses@, namespace, indent) + "\n"@ + indent + "job_pool_allocator_init();\n"@ + indent + "scheduler.size = 0;\n"@ + indent + "schedule_heartbeat_job();\n"@ + schedule_stream_jobs(node.tx_streams@, indent) + "\n}\n"@
}

fn push_setup_cans(out: &mut String, items: &Vec<Bus>, namespace_s: &str, indent_s: &str)
    ensures
        final(out)@ == old(out)@ + setup_cans(items@, namespace_s@, indent_s@),
{
    let ghost namespace = namespace_s@;
    let ghost indent = indent_s@;
    let ghost start = out@;
    let mut i: usize = 0;
    assert(items@.take(0) =~= Seq::<Bus>::empty());
    while i < items.len()
        invariant
            i <= items.len(),
            out@ == start + setup_cans(items@.take(i as int), namespace, indent),
            namespace == namespace_s@,
            indent == indent_s@,
        decreases items.len() - i,
    {
        let x = &items[i];
        out.append(indent_s);
        out.append(namespace_s);
        out.append("_");
        out.append(x.name.as_str());
        out.append("_setup(");
        out.append(dec_string(x.baudrate as u64).as_str());
        out.append(", NULL, 0);\n");
        assert(items@.take(i + 1).drop_last() =~= items@.take(i as int));
        assert(out@ =~= start + setup_cans(items@.take(i + 1), namespace, indent));
        i = i + 1;
    }
    assert(items@.take(items.len() as int) =~= items@);
}

fn push_schedule_stream_jobs(out: &mut String, items: &Vec<Stream>, indent_s: &str)
    ensures
        final(out)@ == old(out)@ + schedule_stream_jobs(items@, indent_s@),
{
    let ghost indent = indent_s@;
    let ghost start = out@;
    let mut i: usize = 0;
    assert(items@.take(0) =~= Seq::<Stream>::empty());
    while i < items.len()
        invariant
            i <= items.len(),
            out@ == start + schedule_stream_jobs(items@.take(i as int), indent),
            indent == indent_s@,
        decreases items.len() - i,
    {
        let x = &items[i];
        out.append(indent_s);
        out.append("schedule_");
        out.append(x.name.as_str());
        out.append("_interval_job();\n");
        assert(items@.take(i + 1).drop_last() =~= items@.take(i as int));
        assert(out@ =~= start + schedule_stream_jobs(items@.take(i + 1), indent));
        i = i + 1;
    }
    assert(items@.take(items.len() as int) =~= items@);
}

/// Appends the declaration of the initialization function to `header` and
/// its definition to `source`.
pub fn generate_setup(node_config: &Node, network_config: &Network, source: &mut String, header: &mut String, options: &Options) -> (r: Result<(), Error>)
    ensures
        r is Ok,
        final(header)@ == old(header)@ + setup_header_text(options@.namespace),
        final(source)@ == old(source)@ + setup_source_text(*node_config, *network_config, options@.namespace, spaces(options@.indent)),
{
    let namespace_s = options.namespace();
    let ghost namespace = namespace_s@;
    let indent_s = spaces_string(options.indent());
    let ghost indent = indent_s@;
    let ghost node = *node_config;
    let ghost network = *network_config;
    let init_name = concat_str(namespace_s, "_init");
    let ghost h0 = header@;
    header.append("void ");
    header.append(init_name.as_str());
    header.append("();\n");
    assert(header@ =~= h0 + setup_header_text(namespace));
    let mut setup_cans_s = String::new();
    push_setup_cans(&mut setup_cans_s, &network_config.buses, namespace_s, indent_s.as_str());
    let mut jobs_s = String::new();
    push_schedule_stream_jobs(&mut jobs_s, &node_config.tx_streams, indent_s.as_str());
    let ghost s0 = source@;
    source.append("void ");
    source.append(init_name.as_str());
    source.append("() {\n");
    source.append(setup_cans_s.as_str());
    source.append("\n");
    source.append(indent_s.as_str());
    source.append("job_pool_allocator_init();\n");
    source.append(indent_s.as_str());
    source.append("scheduler.size = 0;\n");
    source.append(indent_s.as_str());
    source.append("schedule_heartbeat_job();\n");
    source.append(jobs_s.as_str());
    source.append("\n}\n");
    assert(source@ =~= s0 + setup_source_text(node, network, namespace, indent));
    Ok(())
}

/// The schedule calls of all streams start with the calls of the first
/// `k + 1` streams: those of the first `k`, then the call of stream `k`.
proof fn lemma_schedule_prefix(items: Seq<Stream>, k: int, indent: Seq<char>)
    requires
        0 <= k < items.len(),
    ensures
        (schedule_stream_jobs(items.take(k), indent) + indent + "schedule_"@ + items[k].name@ + "_interval_job();\n"@).is_prefix_of(
            schedule_stream_jobs(items, indent),
        ),
    decreases items.len(),
{
    assert(items.take(k + 1).drop_last() =~= items.take(k));
    if k == items.len() - 1 {
        assert(items.take(k + 1) =~= items);
        assert(items.drop_last() =~= items.take(k));
    } else {
        lemma_schedule_prefix(items.drop_last(), k, indent);
        assert(items.drop_last().take(k) =~= items.take(k));
        lemma_prefix_extends(
            schedule_stream_jobs(items.take(k), indent) + indent + "schedule_"@ + items[k].name@ + "_interval_job();\n"@,
            schedule_stream_jobs(items.drop_last(), indent),
            indent + "schedule_"@ + items.last().name@ + "_interval_job();\n"@,
        );
        assert(schedule_stream_jobs(items, indent) =~= schedule_stream_jobs(items.drop_last(), indent) + (indent + "schedule_"@
            + items.last().name@ + "_interval_job();\n"@));
    }
}

/// The initialization function schedules the interval job of every stream
/// the node transmits, one call per stream and in the order of the streams:
/// for each stream `k`, the calls of the streams before it followed by the
/// call of stream `k` begin the calls that close the function, after the
/// heartbeat job is scheduled.
pub proof fn law_setup_schedules_every_stream(node: Node, network: Network, namespace: Seq<char>, indent: Seq<char>)
    ensures
        (indent + "schedule_heartbeat_job();\n"@ + schedule_stream_jobs(node.tx_streams@, indent) + "\n}\n"@).is_suffix_of(
            setup_source_text(node, network, namespace, indent),
        ),
        forall|k: int|
            0 <= k < node.tx_streams@.len() ==> (schedule_stream_jobs(node.tx_streams@.take(k), indent) + indent + "schedule_"@
                + (#[trigger] node.tx_streams@[k]).name@ + "_interval_job();\n"@).is_prefix_of(
                schedule_stream_jobs(node.tx_streams@, indent),
            ),
{
    let t = setup_source_text(node, network, namespace, indent);
    let tail = indent + "schedule_heartbeat_job();\n"@ + schedule_stream_jobs(node.tx_streams@, indent) + "\n}\n"@;
    let head = "void "@ + (namespace + "_init"@) + "() {\n"@ + setup_cans(network.buses@, namespace, indent) + "\n"@ + indent
        + "job_pool_allocator_init();\n"@ + indent + "scheduler.size = 0;\n"@;
    assert(t =~= head + tail);
    assert(t.subrange(t.len() - tail.len(), t.len() as int) =~= tail);
    assert forall|k: int| 0 <= k < node.tx_streams@.len() implies (schedule_stream_jobs(node.tx_streams@.take(k), indent)
        + indent + "schedule_"@ + (#[trigger] node.tx_streams@[k]).name@ + "_interval_job();\n"@).is_prefix_of(
        schedule_stream_jobs(node.tx_streams@, indent),
    ) by {
        lemma_schedule_prefix(node.tx_streams@, k, indent);
    }
}

} // verus!
