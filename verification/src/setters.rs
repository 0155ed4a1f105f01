//! Setters of object entries that reschedule the streams carrying them.
use vstd::prelude::*;
use vstd::string::*;
use crate::config::{Node, ObjectEntry, Stream, Type};
use crate::errors::Error;
use crate::options::Options;
use crate::text::{concat_str, dec, dec_string, lemma_prefix_extends, spaces, spaces_string};
use crate::types::{to_c_type_name, type_c_name};

verus! {

/// Stream `st` carries the object entry with identifier `oe_id` and its
/// minimum and maximum intervals differ.
#[verifier::opaque]
pub open spec fn stream_updates(st: Stream, oe_id: u32) -> bool {
    exists|k: int|
        0 <= k < st.mapping@.len() && maps_entry(#[trigger] st.mapping@[k], oe_id)
            && st.min_interval_ns != st.max_interval_ns
}

/// A mapping slot that holds the object entry with identifier `oe_id`.
pub open spec fn maps_entry(slot: Option<ObjectEntry>, oe_id: u32) -> bool {
    match slot {
        Some(o) => o.id == oe_id,
        None => false,
    }
}

/// Some stream of `streams` updates the object entry `oe_id`.
#[verifier::opaque]
pub open spec fn any_stream_updates(streams: Seq<Stream>, oe_id: u32) -> bool {
    exists|k: int| 0 <= k < streams.len() && stream_updates(#[trigger] streams[k], oe_id)
}

/// The statement that promotes the interval job of stream `st` when it is
/// due later than its minimum interval allows.
pub open spec fn promote_text(st: Stream, indent: Seq<char>) -> Seq<char> {
    (indent + indent) + "if ("@ + (st.name@ + "_interval_job"@) + ".climax > "@ + (st.name@ + "_interval_job"@) + ".job.stream_interval_job.last_schedule + "@ + dec((st.min_interval_ns / 1_000_000) as nat) + ") {\n"@ + (indent + (indent + indent)) + "scheduler_promote_job(&"@ + (st.name@ + "_interval_job"@) + ");\n"@ + (indent + indent) + "}\n"@
}

fn promote_exec(st: &Stream, indent_s: &str, indent2: &String, indent3: &String) -> (out: String)
    requires
        indent2@ == indent_s@ + indent_s@,
        indent3@ == indent_s@ + (indent_s@ + indent_s@),
    ensures
        out@ == promote_text(*st, indent_s@),
{
    let ghost indent = indent_s@;
    let job_var = concat_str(st.name.as_str(), "_interval_job");
    let mut out = String::new();
    out.append(indent2.as_str());
    out.append("if (");
    out.append(job_var.as_str());
    out.append(".climax > ");
    out.append(job_var.as_str());
    out.append(".job.stream_interval_job.last_schedule + ");
    out.append(dec_string(st.min_interval_ns / 1_000_000).as_str());
    out.append(") {\n");
    out.append(indent3.as_str());
    out.append("scheduler_promote_job(&");
    out.append(job_var.as_str());
    out.append(");\n");
    out.append(indent2.as_str());
    out.append("}\n");
    out
}

/// The statements that promote the interval job of each stream updating
/// the object entry, in the order of the streams.
pub open spec fn promote_lines(streams: Seq<Stream>, oe_id: u32, indent: Seq<char>) -> Seq<char>
    decreases streams.len(),
{
    if streams.len() == 0 {
        Seq::empty()
    } else {
        let st = streams.last();
        promote_lines(streams.drop_last(), oe_id, indent) + if stream_updates(st, oe_id) {
            promote_text(st, indent)
        } else {
            Seq::empty()
        }
    }
}

/// An inline setter that only stores the value.
pub open spec fn setter_inline(oe: ObjectEntry, namespace: Seq<char>, indent: Seq<char>) -> Seq<char> {
    "static inline void "@ + (namespace + "_set_"@ + oe.name@) + "("@ + type_c_name(oe.ty).0 + " value){\n"@ + indent + "extern "@ + type_c_name(oe.ty).0 + " "@ + ("__oe_"@ + oe.name@) + ";\n"@ + indent + ("__oe_"@ + oe.name@) + " = value;\n"@ + "}\n"@
}

/// The declaration of a setter defined in the source.
pub open spec fn setter_decl(oe: ObjectEntry, namespace: Seq<char>) -> Seq<char> {
    "void "@ + (namespace + "_set_"@ + oe.name@) + "("@ + type_c_name(oe.ty).0 + " value);\n"@
}

/// The opening of a setter that stores a changed value and reads the time.
pub open spec fn setter_head(oe: ObjectEntry, namespace: Seq<char>, indent: Seq<char>) -> Seq<char> {
    "void "@ + (namespace + "_set_"@ + oe.name@) + "("@ + type_c_name(oe.ty).0 + " value) {\n"@ + indent + "extern "@ + type_c_name(oe.ty).0 + " "@ + ("__oe_"@ + oe.name@) + ";\n"@ + indent + "if ("@ + ("__oe_"@ + oe.name@) + " != value) {\n"@ + (indent + indent) + ("__oe_"@ + oe.name@) + " = value;\n"@ + (indent + indent) + "uint32_t time = "@ + namespace + "_get_time();\n"@
}

/// The closing of a setter defined in the source.
pub open spec fn setter_tail(indent: Seq<char>) -> Seq<char> {
    indent + "}\n"@ + "}\n"@
}

/// The header text of the setter of `oe`: an inline setter when no stream
/// updates it, else a declaration.
pub open spec fn setter_header(oe: ObjectEntry, streams: Seq<Stream>, namespace: Seq<char>, indent: Seq<char>) -> Seq<char> {
    if !any_stream_updates(streams, oe.id) {
        setter_inline(oe, namespace, indent)
    } else {
        setter_decl(oe, namespace)
    }
}

/// The source text of the setter of `oe`: empty when no stream updates it,
/// else a setter that promotes the jobs of those streams on a change.
pub open spec fn setter_source(oe: ObjectEntry, streams: Seq<Stream>, namespace: Seq<char>, indent: Seq<char>) -> Seq<char> {
    if !any_stream_updates(streams, oe.id) {
        Seq::empty()
    } else {
        setter_head(oe, namespace, indent) + promote_lines(streams, oe.id, indent) + setter_tail(indent)
    }
}

/// The header texts of the setters of `entries`.
pub open spec fn setters_header(entries: Seq<ObjectEntry>, streams: Seq<Stream>, namespace: Seq<char>, indent: Seq<char>) -> Seq<char>
    decreases entries.len(),
{
    if entries.len() == 0 {
        Seq::empty()
    } else {
        setters_header(entries.drop_last(), streams, namespace, indent) + setter_header(entries.last(), streams, namespace, indent)
    }
}

/// The source texts of the setters of `entries`.
pub open spec fn setters_source(entries: Seq<ObjectEntry>, streams: Seq<Stream>, namespace: Seq<char>, indent: Seq<char>) -> Seq<char>
    decreases entries.len(),
{
    if entries.len() == 0 {
        Seq::empty()
    } else {
        setters_source(entries.drop_last(), streams, namespace, indent) + setter_source(entries.last(), streams, namespace, indent)
    }
}

fn updates_exec(st: &Stream, oe_id: u32) -> (r: bool)
    ensures
        r == stream_updates(*st, oe_id),
{
    let mut i: usize = 0;
    while i < st.mapping.len()
        invariant
            i <= st.mapping.len(),
            forall|k: int| 0 <= k < i ==> !(maps_entry(#[trigger] st.mapping@[k], oe_id) && st.min_interval_ns != st.max_interval_ns),
        decreases st.mapping.len() - i,
    {
        let hit = match &st.mapping[i] {
            Some(oe) => oe.id == oe_id,
            None => false,
        } && st.min_interval_ns != st.max_interval_ns;
        if hit {
            reveal(stream_updates);
            assert(maps_entry(st.mapping@[i as int], oe_id) && st.min_interval_ns != st.max_interval_ns);
            return true;
        }
        i = i + 1;
    }
    proof {
        reveal(stream_updates);
    }
    false
}

fn push_promote_lines(out: &mut String, streams: &Vec<Stream>, oe_id: u32, indent_s: &str, indent2: &String, indent3: &String)
    requires
        indent2@ == indent_s@ + indent_s@,
        indent3@ == indent_s@ + (indent_s@ + indent_s@),
    ensures
        final(out)@ == old(out)@ + promote_lines(streams@, oe_id, indent_s@),
{
    let ghost indent = indent_s@;
    let ghost start = out@;
    let mut i: usize = 0;
    assert(streams@.take(0) =~= Seq::<Stream>::empty());
    while i < streams.len()
        invariant
            i <= streams.len(),
            indent == indent_s@,
            indent2@ == indent_s@ + indent_s@,
            indent3@ == indent_s@ + (indent_s@ + indent_s@),
            out@ == start + promote_lines(streams@.take(i as int), oe_id, indent),
        decreases streams.len() - i,
    {
        let st = &streams[i];
        if updates_exec(st, oe_id) {
            out.append(promote_exec(st, indent_s, indent2, indent3).as_str());
        }
        assert(streams@.take(i + 1).drop_last() =~= streams@.take(i as int));
        assert(out@ =~= start + promote_lines(streams@.take(i + 1), oe_id, indent));
        i = i + 1;
    }
    assert(streams@.take(streams.len() as int) =~= streams@);
}

fn any_updates_exec(streams: &Vec<Stream>, oe_id: u32) -> (r: bool)
    ensures
        r == any_stream_updates(streams@, oe_id),
{
    let mut i: usize = 0;
    while i < streams.len()
        invariant
            i <= streams.len(),
            forall|k: int| 0 <= k < i ==> !stream_updates(#[trigger] streams@[k], oe_id),
        decreases streams.len() - i,
    {
        if updates_exec(&streams[i], oe_id) {
            reveal(any_stream_updates);
            assert(stream_updates(streams@[i as int], oe_id));
            return true;
        }
        i = i + 1;
    }
    proof {
        reveal(any_stream_updates);
    }
    false
}

fn setter_inline_exec(oe: &ObjectEntry, c_name: &str, namespace_s: &str, indent_s: &str) -> (t: String)
    requires
        c_name@ == type_c_name(oe.ty).0,
    ensures
        t@ == setter_inline(*oe, namespace_s@, indent_s@),
{
    let ghost namespace = namespace_s@;
    let ghost indent = indent_s@;
    let oe_var = concat_str("__oe_", oe.name.as_str());
    let setter_name = concat_str(concat_str(namespace_s, "_set_").as_str(), oe.name.as_str());
    let mut t = String::new();
    t.append("static inline void ");
    t.append(setter_name.as_str());
    t.append("(");
    t.append(c_name);
    t.append(" value){\n");
    t.append(indent_s);
    t.append("extern ");
    t.append(c_name);
    t.append(" ");
    t.append(oe_var.as_str());
    t.append(";\n");
    t.append(indent_s);
    t.append(oe_var.as_str());
    t.append(" = value;\n");
    t.append("}\n");
    t
}

fn setter_decl_exec(oe: &ObjectEntry, c_name: &str, namespace_s: &str) -> (t: String)
    requires
        c_name@ == type_c_name(oe.ty).0,
    ensures
        t@ == setter_decl(*oe, namespace_s@),
{
    let ghost namespace = namespace_s@;
    let setter_name = concat_str(concat_str(namespace_s, "_set_").as_str(), oe.name.as_str());
    let mut t = String::new();
    t.append("void ");
    t.append(setter_name.as_str());
    t.append("(");
    t.append(c_name);
    t.append(" value);\n");
    t
}

fn setter_head_exec(oe: &ObjectEntry, c_name: &str, namespace_s: &str, indent_s: &str) -> (t: String)
    requires
        c_name@ == type_c_name(oe.ty).0,
    ensures
        t@ == setter_head(*oe, namespace_s@, indent_s@),
{
    let ghost namespace = namespace_s@;
    let ghost indent = indent_s@;
    let oe_var = concat_str("__oe_", oe.name.as_str());
    let setter_name = concat_str(concat_str(namespace_s, "_set_").as_str(), oe.name.as_str());
    let indent2 = concat_str(indent_s, indent_s);
    let mut t = String::new();
    t.append("void ");
    t.append(setter_name.as_str());
    t.append("(");
    t.append(c_name);
    t.append(" value) {\n");
    t.append(indent_s);
    t.append("extern ");
    t.append(c_name);
    t.append(" ");
    t.append(oe_var.as_str());
    t.append(";\n");
    t.append(indent_s);
    t.append("if (");
    t.append(oe_var.as_str());
    t.append(" != value) {\n");
    t.append(indent2.as_str());
    t.append(oe_var.as_str());
    t.append(" = value;\n");
    t.append(indent2.as_str());
    t.append("uint32_t time = ");
    t.append(namespace_s);
    t.append("_get_time();\n");
    t
}

fn setter_tail_exec(indent_s: &str) -> (t: String)
    ensures
        t@ == setter_tail(indent_s@),
{
    let ghost indent = indent_s@;
    let mut t = String::new();
    t.append(indent_s);
    t.append("}\n");
    t.append("}\n");
    t
}

fn push_setter(header: &mut String, source: &mut String, oe: &ObjectEntry, streams: &Vec<Stream>, namespace_s: &str, indent_s: &str)
    requires
        !(oe.ty is Array),
    ensures
        final(header)@ == old(header)@ + setter_header(*oe, streams@, namespace_s@, indent_s@),
        final(source)@ == old(source)@ + setter_source(*oe, streams@, namespace_s@, indent_s@),
{
    let ghost namespace = namespace_s@;
    let ghost indent = indent_s@;
    let ghost h0 = header@;
    let ghost s0 = source@;
    let (c_name, _dep) = to_c_type_name(&oe.ty);
    let indent2 = concat_str(indent_s, indent_s);
    let indent3 = concat_str(indent_s, indent2.as_str());
    if !any_updates_exec(streams, oe.id) {
        header.append(setter_inline_exec(oe, c_name, namespace_s, indent_s).as_str());
        assert(source@ =~= s0 + setter_source(*oe, streams@, namespace, indent));
    } else {
        header.append(setter_decl_exec(oe, c_name, namespace_s).as_str());
        source.append(setter_head_exec(oe, c_name, namespace_s, indent_s).as_str());
        push_promote_lines(source, streams, oe.id, indent_s, &indent2, &indent3);
        source.append(setter_tail_exec(indent_s).as_str());
        assert(source@ =~= s0 + setter_source(*oe, streams@, namespace, indent));
    }
}

/// Appends the setter of each object entry of the node, in order: an inline
/// setter in `header` when no stream updates the entry, else a declaration
/// in `header` and a definition in `source`.
pub fn generate_setters(node_config: &Node, header: &mut String, source: &mut String, options: &Options) -> (r: Result<(), Error>)
    requires
        forall|i: int| 0 <= i < node_config.object_entries@.len() ==> !((#[trigger] node_config.object_entries@[i]).ty is Array),
    ensures
        r is Ok,
        final(header)@ == old(header)@ + setters_header(node_config.object_entries@, node_config.tx_streams@, options@.namespace, spaces(options@.indent)),
        final(source)@ == old(source)@ + setters_source(node_config.object_entries@, node_config.tx_streams@, options@.namespace, spaces(options@.indent)),
{
    let namespace_s = options.namespace();
    let indent_s = spaces_string(options.indent());
    let ghost h0 = header@;
    let ghost s0 = source@;
    let entries = &node_config.object_entries;
    let streams = &node_config.tx_streams;
    let mut i: usize = 0;
    assert(entries@.take(0) =~= Seq::<ObjectEntry>::empty());
    while i < entries.len()
        invariant
            i <= entries.len(),
            forall|k: int| 0 <= k < entries@.len() ==> !((#[trigger] entries@[k]).ty is Array),
            header@ == h0 + setters_header(entries@.take(i as int), streams@, namespace_s@, indent_s@),
            source@ == s0 + setters_source(entries@.take(i as int), streams@, namespace_s@, indent_s@),
        decreases entries.len() - i,
    {
        push_setter(header, source, &entries[i], streams, namespace_s, indent_s.as_str());
        assert(entries@.take(i + 1).drop_last() =~= entries@.take(i as int));
        assert(header@ =~= h0 + setters_header(entries@.take(i + 1), streams@, namespace_s@, indent_s@));
        assert(source@ =~= s0 + setters_source(entries@.take(i + 1), streams@, namespace_s@, indent_s@));
        i = i + 1;
    }
    assert(entries@.take(entries.len() as int) =~= entries@);
    Ok(())
}

proof fn lemma_promote_prefix(streams: Seq<Stream>, oe_id: u32, j: int, indent: Seq<char>)
    requires
        0 <= j < streams.len(),
        stream_updates(streams[j], oe_id),
    ensures
        (promote_lines(streams.take(j), oe_id, indent) + promote_text(streams[j], indent)).is_prefix_of(
            promote_lines(streams, oe_id, indent),
        ),
    decreases streams.len(),
{
    assert(streams.take(j + 1).drop_last() =~= streams.take(j));
    if j == streams.len() - 1 {
        assert(streams.drop_last() =~= streams.take(j));
    } else {
        lemma_promote_prefix(streams.drop_last(), oe_id, j, indent);
        assert(streams.drop_last().take(j) =~= streams.take(j));
        let last = if stream_updates(streams.last(), oe_id) {
            promote_text(streams.last(), indent)
        } else {
            Seq::empty()
        };
        lemma_prefix_extends(
            promote_lines(streams.take(j), oe_id, indent) + promote_text(streams[j], indent),
            promote_lines(streams.drop_last(), oe_id, indent),
            last,
        );
    }
}

/// When a stream whose minimum and maximum intervals differ holds object
/// entry `oe` in any slot of its mapping, the setter of `oe` is declared in
/// the header, and its definition stores the value and then promotes the
/// interval job of that stream, after those of the streams before it.
pub proof fn law_setter_promotes_carrying_stream(
    oe: ObjectEntry,
    streams: Seq<Stream>,
    namespace: Seq<char>,
    indent: Seq<char>,
    j: int,
    k: int,
)
    requires
        0 <= j < streams.len(),
        0 <= k < streams[j].mapping@.len(),
        streams[j].mapping@[k] matches Some(o) && o.id == oe.id,
        streams[j].min_interval_ns != streams[j].max_interval_ns,
    ensures
        setter_header(oe, streams, namespace, indent) == "void "@ + namespace + "_set_"@ + oe.name@ + "("@ + type_c_name(
            oe.ty,
        ).0 + " value);\n"@,
        setter_source(oe, streams, namespace, indent) == setter_head(oe, namespace, indent) + promote_lines(
            streams,
            oe.id,
            indent,
        ) + setter_tail(indent),
        (promote_lines(streams.take(j), oe.id, indent) + promote_text(streams[j], indent)).is_prefix_of(
            promote_lines(streams, oe.id, indent),
        ),
{
    assert(stream_updates(streams[j], oe.id)) by {
        reveal(stream_updates);
        assert(maps_entry(streams[j].mapping@[k], oe.id));
    }
    assert(any_stream_updates(streams, oe.id)) by {
        reveal(any_stream_updates);
    }
    lemma_promote_prefix(streams, oe.id, j, indent);
}

/// When no stream with differing minimum and maximum intervals holds object
/// entry `oe` in its mapping, the setter of `oe` is an inline setter in the
/// header that only stores the value, and nothing goes to the source.
pub proof fn law_setter_inline_without_carrying_stream(
    oe: ObjectEntry,
    streams: Seq<Stream>,
    namespace: Seq<char>,
    indent: Seq<char>,
)
    requires
        forall|j: int, k: int|
            0 <= j < streams.len() && 0 <= k < streams[j].mapping@.len() ==> !((#[trigger] streams[j].mapping@[k] matches Some(
                o,
            ) && o.id == oe.id) && streams[j].min_interval_ns != streams[j].max_interval_ns),
    ensures
        setter_header(oe, streams, namespace, indent) == "static inline void "@ + namespace + "_set_"@ + oe.name@ + "("@
            + type_c_name(oe.ty).0 + " value){\n"@ + indent + "extern "@ + type_c_name(oe.ty).0 + " "@ + "__oe_"@ + oe.name@
            + ";\n"@ + indent + "__oe_"@ + oe.name@ + " = value;\n"@ + "}\n"@,
        setter_source(oe, streams, namespace, indent) == Seq::<char>::empty(),
{
    assert(!any_stream_updates(streams, oe.id)) by {
        reveal(any_stream_updates);
        reveal(stream_updates);
        if any_stream_updates(streams, oe.id) {
            let j = choose|j: int| 0 <= j < streams.len() && stream_updates(#[trigger] streams[j], oe.id);
            let k = choose|k: int|
                0 <= k < streams[j].mapping@.len() && maps_entry(#[trigger] streams[j].mapping@[k], oe.id)
                    && streams[j].min_interval_ns != streams[j].max_interval_ns;
            assert(streams[j].mapping@[k] matches Some(o) && o.id == oe.id);
        }
    }
}

} // verus!
