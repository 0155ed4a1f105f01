//! Variables of a node's object entries and their getters and setters.
use vstd::prelude::*;
use vstd::string::*;
use crate::errors::Error;
use crate::file_buffer::{
    FileBuffer, FileView, Target, apply_plan, law_apply_plan_keeps_files, lemma_apply_plan_concat, lemma_ok_is_unit, plan_view, run_plan,
};
use crate::options::Options;
use crate::source_block::{BlockId, BlockView, SourceBlock, SourceBlockIdentifier, block, ids_view};
use crate::text::{spaces, spaces_string};
use crate::config::{ObjectEntry, Type};
use crate::types::{to_c_type_name, type_c_name};
use crate::text::concat_str;

verus! {

/// The name of the variable that holds object entry `name`.
pub open spec fn oe_var(name: Seq<char>) -> Seq<char> {
    "__oe_"@ + name
}

/// The dependencies of a block that uses a type: the block that type needs, if any.
pub open spec fn opt_deps(dep: Option<BlockId>) -> Seq<BlockId> {
    match dep {
        Some(d) => seq![d],
        None => Seq::empty(),
    }
}

/// See [`opt_deps`].
pub fn opt_dep_vec(dep: &Option<SourceBlockIdentifier>) -> (v: Vec<SourceBlockIdentifier>)
    ensures
        ids_view(v@) == opt_deps(match dep { Some(d) => Some(d@), None => None }),
{
    let mut v: Vec<SourceBlockIdentifier> = Vec::new();
    match dep {
        Some(d) => v.push(d.duplicate()),
        None => {},
    }
    assert(ids_view(v@) =~= opt_deps(match dep { Some(d) => Some(d@), None => None }));
    v
}

/// The blocks of one object entry: its variable in the source, and an
/// inline getter and setter in the header.
#[verifier::opaque]
pub open spec fn entry_plan(oe: ObjectEntry, namespace: Seq<char>, indent: Seq<char>) -> Seq<(Target, BlockView)> {
    let tname = type_c_name(oe.ty).0;
    let deps = opt_deps(type_c_name(oe.ty).1);
    seq![
        (Target::Source, block(BlockId::Definition(oe_var(oe.name@)), tname + " "@ + (oe_var(oe.name@)) + ";\n"@, deps)),
        (Target::Header, block(BlockId::Definition((namespace + "_get_"@ + oe.name@)), "inline "@ + tname + " "@ + (namespace + "_get_"@ + oe.name@) + "() {\n"@ + indent + "extern "@ + tname + " "@ + (oe_var(oe.name@)) + ";\n"@ + indent + "return "@ + (oe_var(oe.name@)) + ";\n"@ + "}\n"@, deps)),
        (Target::Header, block(BlockId::Definition((namespace + "_set_"@ + oe.name@)), "inline void "@ + (namespace + "_set_"@ + oe.name@) + "("@ + tname + " value){\n"@ + indent + "extern "@ + tname + " "@ + (oe_var(oe.name@)) + ";\n"@ + indent + (oe_var(oe.name@)) + " = value;\n"@ + "}\n"@, deps)),
    ]
}

/// The blocks of all object entries, entry by entry.
pub open spec fn object_entries_plan(entries: Seq<ObjectEntry>, namespace: Seq<char>, indent: Seq<char>) -> Seq<(Target, BlockView)>
    decreases entries.len(),
{
    if entries.len() == 0 {
        Seq::empty()
    } else {
        object_entries_plan(entries.drop_last(), namespace, indent) + entry_plan(entries.last(), namespace, indent)
    }
}

fn push_entry_plan(plan: &mut Vec<(Target, SourceBlock)>, oe: &ObjectEntry, namespace_s: &str, indent_s: &String)
    requires
        !(oe.ty is Array),
    ensures
        plan_view(final(plan)@) == plan_view(old(plan)@) + entry_plan(*oe, namespace_s@, indent_s@),
{
    reveal(entry_plan);
    let ghost namespace = namespace_s@;
    let ghost indent = indent_s@;
    let (c_name, dep) = to_c_type_name(&oe.ty);
    let ghost tname = type_c_name(oe.ty).0;
    let ghost deps = opt_deps(type_c_name(oe.ty).1);
    let oe_var_s = concat_str("__oe_", oe.name.as_str());
    let getter_name = concat_str(concat_str(namespace_s, "_get_").as_str(), oe.name.as_str());
    let setter_name = concat_str(concat_str(namespace_s, "_set_").as_str(), oe.name.as_str());
    assert(getter_name@ =~= namespace + "_get_"@ + oe.name@);
    assert(setter_name@ =~= namespace + "_set_"@ + oe.name@);
    let ghost start = plan_view(plan@);
    let ghost prev0 = plan_view(plan@);
    let mut c0 = String::new();
    c0.append(c_name);
    c0.append(" ");
    c0.append(oe_var_s.as_str());
    c0.append(";\n");
    let d0 = opt_dep_vec(&dep);
    assert(ids_view(d0@) =~= deps);
    plan.push((Target::Source, SourceBlock::new(SourceBlockIdentifier::Definition(oe_var_s.clone()), c0, d0)));
    assert(plan_view(plan@) =~= prev0.push((Target::Source, block(BlockId::Definition(oe_var(oe.name@)), tname + " "@ + (oe_var(oe.name@)) + ";\n"@, deps))));
    let ghost prev1 = plan_view(plan@);
    let mut c1 = String::new();
    c1.append("inline ");
    c1.append(c_name);
    c1.append(" ");
    c1.append(getter_name.as_str());
    c1.append("() {\n");
    c1.append(indent_s.as_str());
    c1.append("extern ");
    c1.append(c_name);
    c1.append(" ");
    c1.append(oe_var_s.as_str());
    c1.append(";\n");
    c1.append(indent_s.as_str());
    c1.append("return ");
    c1.append(oe_var_s.as_str());
    c1.append(";\n");
    c1.append("}\n");
    let d1 = opt_dep_vec(&dep);
    assert(ids_view(d1@) =~= deps);
    plan.push((Target::Header, SourceBlock::new(SourceBlockIdentifier::Definition(getter_name.clone()), c1, d1)));
    assert(plan_view(plan@) =~= prev1.push((Target::Header, block(BlockId::Definition((namespace + "_get_"@ + oe.name@)), "inline "@ + tname + " "@ + (namespace + "_get_"@ + oe.name@) + "() {\n"@ + indent + "extern "@ + tname + " "@ + (oe_var(oe.name@)) + ";\n"@ + indent + "return "@ + (oe_var(oe.name@)) + ";\n"@ + "}\n"@, deps))));
    let ghost prev2 = plan_view(plan@);
    let mut c2 = String::new();
    c2.append("inline void ");
    c2.append(setter_name.as_str());
    c2.append("(");
    c2.append(c_name);
    c2.append(" value){\n");
    c2.append(indent_s.as_str());
    c2.append("extern ");
    c2.append(c_name);
    c2.append(" ");
    c2.append(oe_var_s.as_str());
    c2.append(";\n");
    c2.append(indent_s.as_str());
    c2.append(oe_var_s.as_str());
    c2.append(" = value;\n");
    c2.append("}\n");
    let d2 = opt_dep_vec(&dep);
    assert(ids_view(d2@) =~= deps);
    plan.push((Target::Header, SourceBlock::new(SourceBlockIdentifier::Definition(setter_name.clone()), c2, d2)));
    assert(plan_view(plan@) =~= prev2.push((Target::Header, block(BlockId::Definition((namespace + "_set_"@ + oe.name@)), "inline void "@ + (namespace + "_set_"@ + oe.name@) + "("@ + tname + " value){\n"@ + indent + "extern "@ + tname + " "@ + (oe_var(oe.name@)) + ";\n"@ + indent + (oe_var(oe.name@)) + " = value;\n"@ + "}\n"@, deps))));
    assert(plan_view(plan@) =~= start + seq![         (Target::Source, block(BlockId::Definition(oe_var(oe.name@)), tname + " "@ + (oe_var(oe.name@)) + ";\n"@, deps)),         (Target::Header, block(BlockId::Definition((namespace + "_get_"@ + oe.name@)), "inline "@ + tname + " "@ + (namespace + "_get_"@ + oe.name@) + "() {\n"@ + indent + "extern "@ + tname + " "@ + (oe_var(oe.name@)) + ";\n"@ + indent + "return "@ + (oe_var(oe.name@)) + ";\n"@ + "}\n"@, deps)),         (Target::Header, block(BlockId::Definition((namespace + "_set_"@ + oe.name@)), "inline void "@ + (namespace + "_set_"@ + oe.name@) + "("@ + tname + " value){\n"@ + indent + "extern "@ + tname + " "@ + (oe_var(oe.name@)) + ";\n"@ + indent + (oe_var(oe.name@)) + " = value;\n"@ + "}\n"@, deps)),     ]);
}

/// The plan of `entries` begins with the plan of its first `k` entries.
proof fn lemma_entries_plan_prefix(entries: Seq<ObjectEntry>, k: int, namespace: Seq<char>, indent: Seq<char>) -> (tail: Seq<
    (Target, BlockView),
>)
    requires
        0 <= k <= entries.len(),
    ensures
        object_entries_plan(entries, namespace, indent) == object_entries_plan(entries.take(k), namespace, indent) + tail,
    decreases entries.len(),
{
    if k == entries.len() {
        assert(entries.take(k) =~= entries);
        assert(object_entries_plan(entries, namespace, indent) + Seq::empty() =~= object_entries_plan(
            entries,
            namespace,
            indent,
        ));
        Seq::empty()
    } else {
        let t = lemma_entries_plan_prefix(entries.drop_last(), k, namespace, indent);
        assert(entries.drop_last().take(k) =~= entries.take(k));
        let tail = t + entry_plan(entries.last(), namespace, indent);
        assert(object_entries_plan(entries, namespace, indent) =~= object_entries_plan(entries.take(k), namespace, indent)
            + tail);
        tail
    }
}

proof fn lemma_entries_step(h0: FileView, s0: FileView, es: Seq<ObjectEntry>, i: int, ns: Seq<char>, ind: Seq<char>)
    requires
        0 <= i < es.len(),
        apply_plan(h0, s0, object_entries_plan(es.take(i), ns, ind)).2 is Ok,
    ensures
        apply_plan(h0, s0, object_entries_plan(es.take(i + 1), ns, ind)) == apply_plan(
            apply_plan(h0, s0, object_entries_plan(es.take(i), ns, ind)).0,
            apply_plan(h0, s0, object_entries_plan(es.take(i), ns, ind)).1,
            entry_plan(es[i], ns, ind),
        ),
        apply_plan(h0, s0, object_entries_plan(es.take(i + 1), ns, ind)).2 is Err ==> apply_plan(
            h0,
            s0,
            object_entries_plan(es, ns, ind),
        ) == apply_plan(h0, s0, object_entries_plan(es.take(i + 1), ns, ind)),
{
    assert(es.take(i + 1).drop_last() =~= es.take(i));
    assert(object_entries_plan(es.take(i + 1), ns, ind) == object_entries_plan(es.take(i), ns, ind) + entry_plan(
        es[i],
        ns,
        ind,
    ));
    lemma_apply_plan_concat(h0, s0, object_entries_plan(es.take(i), ns, ind), entry_plan(es[i], ns, ind));
    let tail = lemma_entries_plan_prefix(es, i + 1, ns, ind);
    lemma_apply_plan_concat(h0, s0, object_entries_plan(es.take(i + 1), ns, ind), tail);
}

/// Each object entry that generation reaches, the blocks of the entries
/// before it having been added, is no array.
#[verifier::opaque]
pub open spec fn entries_reach_ok(
    header: FileView,
    source: FileView,
    entries: Seq<ObjectEntry>,
    namespace: Seq<char>,
    indent: Seq<char>,
) -> bool {
    forall|i: int|
        0 <= i < entries.len() && apply_plan(header, source, object_entries_plan(entries.take(i), namespace, indent)).2 is Ok
            ==> !((#[trigger] entries[i]).ty is Array)
}

/// Adds, for each object entry in order, its variable to `source` and its
/// getter and setter to `header`, stopping at the first block refused.
/// Adds the variable, getter and setter of `oe`, stopping at the first
/// block refused.
fn add_entry(header: &mut FileBuffer, source: &mut FileBuffer, oe: &ObjectEntry, namespace_s: &str, indent_s: &String) -> (r:
    Result<(), Error>)
    requires
        !(oe.ty is Array),
    ensures
        (final(header)@, final(source)@, r) == apply_plan(old(header)@, old(source)@, entry_plan(*oe, namespace_s@, indent_s@)),
{
    let mut plan: Vec<(Target, SourceBlock)> = Vec::new();
    assert(plan_view(plan@) =~= Seq::<(Target, BlockView)>::empty());
    push_entry_plan(&mut plan, oe, namespace_s, indent_s);
    assert(plan_view(plan@) =~= entry_plan(*oe, namespace_s@, indent_s@));
    run_plan(header, source, plan)
}

pub fn generate_object_entries(object_entries: &Vec<ObjectEntry>, header: &mut FileBuffer, source: &mut FileBuffer, options: &Options) -> (r: Result<(), Error>)
    requires
        entries_reach_ok(old(header)@, old(source)@, object_entries@, options@.namespace, spaces(options@.indent)),
    ensures
        (final(header)@, final(source)@, r) == apply_plan(old(header)@, old(source)@, object_entries_plan(object_entries@, options@.namespace, spaces(options@.indent))),
        old(source)@.wf() ==> final(source)@.wf(),
        old(header)@.wf() ==> final(header)@.wf(),
{
    let namespace_s = options.namespace();
    let indent_s = spaces_string(options.indent());
    let ghost h0 = header@;
    let ghost s0 = source@;
    let ghost es = object_entries@;
    let ghost ns = namespace_s@;
    let ghost ind = indent_s@;
    proof {
        law_apply_plan_keeps_files(h0, s0, object_entries_plan(es, ns, ind));
        assert(es.take(0) =~= Seq::<ObjectEntry>::empty());
    }
    let mut i: usize = 0;
    while i < object_entries.len()
        invariant
            i <= object_entries.len(),
            es == object_entries@,
            h0 == old(header)@,
            s0 == old(source)@,
            ns == namespace_s@,
            ns == options@.namespace,
            ind == indent_s@,
            ind == spaces(options@.indent),
            entries_reach_ok(h0, s0, es, ns, ind),
            header@ == apply_plan(h0, s0, object_entries_plan(es.take(i as int), ns, ind)).0,
            source@ == apply_plan(h0, s0, object_entries_plan(es.take(i as int), ns, ind)).1,
            apply_plan(h0, s0, object_entries_plan(es.take(i as int), ns, ind)).2 == Ok::<(), Error>(()),
            h0.wf() ==> apply_plan(h0, s0, object_entries_plan(es, ns, ind)).0.wf(),
            s0.wf() ==> apply_plan(h0, s0, object_entries_plan(es, ns, ind)).1.wf(),
        decreases object_entries.len() - i,
    {
        assert(!(es[i as int].ty is Array)) by {
            reveal(entries_reach_ok);
        }
        let r = add_entry(header, source, &object_entries[i], namespace_s, &indent_s);
        proof {
            lemma_entries_step(h0, s0, es, i as int, ns, ind);
        }
        if r.is_err() {
            return r;
        }
        proof {
            lemma_ok_is_unit(r);
        }
        i = i + 1;
    }
    assert(es.take(es.len() as int) =~= es);
    Ok(())
}

/// Once the blocks of the first `i + 1` entries are refused, the blocks of
/// more entries are refused the same way.
proof fn lemma_entries_stay_refused(h0: FileView, s0: FileView, es: Seq<ObjectEntry>, i: int, j: int, ns: Seq<char>, ind: Seq<
    char,
>)
    requires
        0 <= i < j <= es.len(),
        apply_plan(h0, s0, object_entries_plan(es.take(i + 1), ns, ind)).2 is Err,
    ensures
        apply_plan(h0, s0, object_entries_plan(es.take(j), ns, ind)) == apply_plan(
            h0,
            s0,
            object_entries_plan(es.take(i + 1), ns, ind),
        ),
{
    let tail = lemma_entries_plan_prefix(es.take(j), i + 1, ns, ind);
    assert(es.take(j).take(i + 1) =~= es.take(i + 1));
    lemma_apply_plan_concat(h0, s0, object_entries_plan(es.take(i + 1), ns, ind), tail);
}

/// Adds the object entries as [`generate_object_entries`] does, checking
/// each entry before its blocks are built: `None` where an entry that is
/// reached is an array, else the outcome of adding them.
pub fn entries_check(
    object_entries: &Vec<ObjectEntry>,
    header: &mut FileBuffer,
    source: &mut FileBuffer,
    namespace_s: &str,
    indent_s: &String,
) -> (res: Option<Result<(), Error>>)
    ensures
        res is None <==> !entries_reach_ok(old(header)@, old(source)@, object_entries@, namespace_s@, indent_s@),
        res matches Some(r) ==> (final(header)@, final(source)@, r) == apply_plan(
            old(header)@,
            old(source)@,
            object_entries_plan(object_entries@, namespace_s@, indent_s@),
        ),
{
    let ghost h0 = header@;
    let ghost s0 = source@;
    let ghost es = object_entries@;
    let ghost ns = namespace_s@;
    let ghost ind = indent_s@;
    assert(es.take(0) =~= Seq::<ObjectEntry>::empty());
    let mut i: usize = 0;
    while i < object_entries.len()
        invariant
            i <= object_entries.len(),
            es == object_entries@,
            h0 == old(header)@,
            s0 == old(source)@,
            ns == namespace_s@,
            ind == indent_s@,
            forall|j: int| 0 <= j < i ==> !((#[trigger] es[j]).ty is Array),
            header@ == apply_plan(h0, s0, object_entries_plan(es.take(i as int), ns, ind)).0,
            source@ == apply_plan(h0, s0, object_entries_plan(es.take(i as int), ns, ind)).1,
            apply_plan(h0, s0, object_entries_plan(es.take(i as int), ns, ind)).2 == Ok::<(), Error>(()),
        decreases object_entries.len() - i,
    {
        let is_array = match &object_entries[i].ty {
            Type::Array { .. } => true,
            _ => false,
        };
        if is_array {
            assert(!entries_reach_ok(h0, s0, es, ns, ind)) by {
                reveal(entries_reach_ok);
                assert(es[i as int].ty is Array);
            }
            return None;
        }
        let r = add_entry(header, source, &object_entries[i], namespace_s, indent_s);
        proof {
            lemma_entries_step(h0, s0, es, i as int, ns, ind);
        }
        if r.is_err() {
            assert(entries_reach_ok(h0, s0, es, ns, ind)) by {
                reveal(entries_reach_ok);
                assert forall|j: int|
                    0 <= j < es.len() && apply_plan(h0, s0, object_entries_plan(es.take(j), ns, ind)).2 is Ok implies !((
                    #[trigger] es[j]).ty is Array) by {
                    if j > i {
                        lemma_entries_stay_refused(h0, s0, es, i as int, j, ns, ind);
                    }
                }
            }
            return Some(r);
        }
        proof {
            lemma_ok_is_unit(r);
        }
        i = i + 1;
    }
    assert(es.take(es.len() as int) =~= es);
    assert(entries_reach_ok(h0, s0, es, ns, ind)) by {
        reveal(entries_reach_ok);
    }
    Some(Ok(()))
}

} // verus!
