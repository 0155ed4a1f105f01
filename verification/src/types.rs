//! C declarations of the struct and enum types of a node, and the C names of
//! configuration types.
use vstd::prelude::*;
use vstd::string::*;
use crate::config::{Node, Type, config_type_name};
use crate::errors::Error;
use crate::file_buffer::{
    FileBuffer, FileView, add_block_spec, add_blocks_spec, law_add_blocks_keeps_file, lemma_add_blocks_concat,
    lemma_add_blocks_single, lemma_ok_is_unit,
};
use crate::messages::{c_type_view, signal_c_type, signal_type_to_c_type};
use crate::options::Options;
use crate::source_block::{
    BlockId,
    BlockView,
    SourceBlock,
    SourceBlockIdentifier,
    block,
    ids_view,
    push_new,
    push_new_dependency,
};
use crate::text::{dec, dec_string, spaces, spaces_string};

verus! {

/// The C name of a type and the block that must precede its use: primitives
/// as [`signal_c_type`] says, structs and enums by their name, depending on
/// their definition. Arrays are not supported.
pub open spec fn type_c_name(t: Type) -> (Seq<char>, Option<BlockId>) {
    match t {
        Type::Primitive(st) => signal_c_type(st),
        Type::Struct { name, .. } => (name@, Some(BlockId::Definition(name@))),
        Type::Enum { name, .. } => (name@, Some(BlockId::Definition(name@))),
        Type::Array { .. } => (Seq::empty(), None),
    }
}

/// See [`type_c_name`].
pub fn to_c_type_name(ty: &Type) -> (r: (&str, Option<SourceBlockIdentifier>))
    requires
        !(ty is Array),
    ensures
        c_type_view(r) == type_c_name(*ty),
{
    match ty {
        Type::Primitive(signal_type) => signal_type_to_c_type(signal_type),
        Type::Struct { name, .. } => (
            name.as_str(),
            Some(SourceBlockIdentifier::Definition(name.clone())),
        ),
        Type::Enum { name, .. } => (
            name.as_str(),
            Some(SourceBlockIdentifier::Definition(name.clone())),
        ),
        Type::Array { .. } => {
            assert(false);
            ("", None)
        },
    }
}

/// The field lines of a struct declaration.
pub open spec fn struct_fields(attribs: Seq<(String, Type)>, indent: Seq<char>) -> Seq<char>
    decreases attribs.len(),
{
    if attribs.len() == 0 {
        Seq::empty()
    } else {
        let (n, t) = attribs.last();
        struct_fields(attribs.drop_last(), indent) + indent + type_c_name(t).0 + " "@ + n@ + ";\n"@
    }
}

/// The dependencies of a struct declaration: for each field, the block its
/// C type needs and the declaration of its type, each listed once.
pub open spec fn struct_deps(attribs: Seq<(String, Type)>) -> Seq<BlockId>
    decreases attribs.len(),
{
    if attribs.len() == 0 {
        Seq::empty()
    } else {
        let t = attribs.last().1;
        let d = struct_deps(attribs.drop_last());
        let d1 = match type_c_name(t).1 {
            Some(x) => push_new(d, x),
            None => d,
        };
        push_new(d1, BlockId::Declaration(config_type_name(t)))
    }
}

/// The entry lines of an enum declaration.
pub open spec fn enum_lines(name: Seq<char>, entries: Seq<(String, u64)>, indent: Seq<char>) -> Seq<char>
    decreases entries.len(),
{
    if entries.len() == 0 {
        Seq::empty()
    } else {
        let (e, v) = entries.last();
        enum_lines(name, entries.drop_last(), indent) + indent + name + "_"@ + e@ + " = "@ + dec(
            v as nat,
        ) + ",\n"@
    }
}

/// The declaration block of a node's type.
pub open spec fn type_block(t: Type, indent: Seq<char>) -> BlockView {
    match t {
        Type::Struct { name, attribs } => block(
            BlockId::Declaration(name@),
            "typedef struct {\n"@ + struct_fields(attribs@, indent) + "} "@ + name@ + ";\n"@,
            struct_deps(attribs@),
        ),
        Type::Enum { name, entries, .. } => block(
            BlockId::Declaration(name@),
            "typedef enum {\n"@ + enum_lines(name@, entries@, indent) + "} "@ + name@ + ";\n"@,
            Seq::empty(),
        ),
        _ => block(BlockId::Declaration(Seq::empty()), Seq::empty(), Seq::empty()),
    }
}

/// The declaration blocks of `types`, in order.
pub open spec fn types_blocks(types: Seq<Type>, indent: Seq<char>) -> Seq<BlockView> {
    types.map_values(|t: Type| type_block(t, indent))
}

/// A type that a node may declare: a struct whose fields are not arrays, or
/// an enum.
pub open spec fn node_type_supported(t: Type) -> bool {
    match t {
        Type::Struct { attribs, .. } => forall|j: int|
            0 <= j < attribs@.len() ==> !((#[trigger] attribs@[j]).1 is Array),
        Type::Enum { .. } => true,
        _ => false,
    }
}

fn type_block_exec(t: &Type, indent: &String) -> (b: SourceBlock)
    requires
        node_type_supported(*t),
    ensures
        b@ == type_block(*t, indent@),
{
    match t {
        Type::Struct { name, attribs } => {
            let mut def = String::new();
            def.append("typedef struct {\n");
            let mut dependencies: Vec<SourceBlockIdentifier> = Vec::new();
            let mut i: usize = 0;
            assert(attribs@.take(0) =~= Seq::<(String, Type)>::empty());
            assert(ids_view(dependencies@) =~= Seq::<BlockId>::empty());
            while i < attribs.len()
                invariant
                    i <= attribs.len(),
                    forall|j: int| 0 <= j < attribs@.len() ==> !((#[trigger] attribs@[j]).1 is Array),
                    def@ == "typedef struct {\n"@ + struct_fields(attribs@.take(i as int), indent@),
                    ids_view(dependencies@) == struct_deps(attribs@.take(i as int)),
                decreases attribs.len() - i,
            {
                let attrib_name = &attribs[i].0;
                let attrib_type = &attribs[i].1;
                assert(!(attribs@[i as int].1 is Array));
                let attrib_type_name = attrib_type.name();
                let (ctype, deps) = to_c_type_name(attrib_type);
                def.append(indent.as_str());
                def.append(ctype);
                def.append(" ");
                def.append(attrib_name.as_str());
                def.append(";\n");
                match deps {
                    Some(dep) => push_new_dependency(&mut dependencies, dep),
                    None => {},
                }
                push_new_dependency(&mut dependencies, SourceBlockIdentifier::Declartion(attrib_type_name));
                assert(attribs@.take(i + 1).drop_last() =~= attribs@.take(i as int));
                assert(attribs@.take(i + 1).last() == attribs@[i as int]);
                i = i + 1;
            }
            assert(attribs@.take(attribs.len() as int) =~= attribs@);
            def.append("} ");
            def.append(name.as_str());
            def.append(";\n");
            SourceBlock::new(SourceBlockIdentifier::Declartion(name.clone()), def, dependencies)
        },
        Type::Enum { name, entries, .. } => {
            let mut def = String::new();
            def.append("typedef enum {\n");
            let mut i: usize = 0;
            assert(entries@.take(0) =~= Seq::<(String, u64)>::empty());
            while i < entries.len()
                invariant
                    i <= entries.len(),
                    def@ == "typedef enum {\n"@ + enum_lines(name@, entries@.take(i as int), indent@),
                decreases entries.len() - i,
            {
                def.append(indent.as_str());
                def.append(name.as_str());
                def.append("_");
                def.append(entries[i].0.as_str());
                def.append(" = ");
                def.append(dec_string(entries[i].1).as_str());
                def.append(",\n");
                assert(entries@.take(i + 1).drop_last() =~= entries@.take(i as int));
                assert(entries@.take(i + 1).last() == entries@[i as int]);
                i = i + 1;
            }
            assert(entries@.take(entries.len() as int) =~= entries@);
            def.append("} ");
            def.append(name.as_str());
            def.append(";\n");
            let deps: Vec<SourceBlockIdentifier> = Vec::new();
            assert(ids_view(deps@) =~= Seq::<BlockId>::empty());
            SourceBlock::new(SourceBlockIdentifier::Declartion(name.clone()), def, deps)
        },
        _ => {
            assert(false);
            SourceBlock::new(SourceBlockIdentifier::Declartion(String::new()), String::new(), Vec::new())
        },
    }
}

/// Each type that generation reaches, the adding of the types before it
/// having succeeded, is one a node may declare.
pub open spec fn types_reach_ok(header: FileView, types: Seq<Type>, indent: Seq<char>) -> bool {
    forall|i: int|
        0 <= i < types.len() && add_blocks_spec(header, types_blocks(types.take(i), indent)).1 is Ok
            ==> node_type_supported(#[trigger] types[i])
}

/// Adds to `header` the declaration of each type of the node, in order,
/// stopping at the first that is refused.
pub fn generate_types(node_config: &Node, header: &mut FileBuffer, options: &Options) -> (r: Result<(), Error>)
    requires
        types_reach_ok(old(header)@, node_config.types@, spaces(options@.indent)),
    ensures
        (final(header)@, r) == add_blocks_spec(old(header)@, types_blocks(node_config.types@, spaces(options@.indent))),
        old(header)@.wf() ==> final(header)@.wf(),
{
    let indent = spaces_string(options.indent());
    let ghost h0 = header@;
    let ghost ts = node_config.types@;
    let ghost ind = indent@;
    proof {
        law_add_blocks_keeps_file(h0, types_blocks(ts, ind));
        assert(ts.take(0) =~= Seq::<Type>::empty());
        assert(types_blocks(ts.take(0), ind) =~= Seq::<BlockView>::empty());
    }
    let mut i: usize = 0;
    while i < node_config.types.len()
        invariant
            i <= node_config.types.len(),
            ts == node_config.types@,
            h0 == old(header)@,
            ind == indent@,
            indent@ == spaces(options@.indent),
            types_reach_ok(h0, ts, ind),
            header@ == add_blocks_spec(h0, types_blocks(ts.take(i as int), ind)).0,
            add_blocks_spec(h0, types_blocks(ts.take(i as int), ind)).1 == Ok::<(), Error>(()),
            h0.wf() ==> add_blocks_spec(h0, types_blocks(ts, ind)).0.wf(),
        decreases node_config.types.len() - i,
    {
        assert(node_type_supported(ts[i as int]));
        let b = type_block_exec(&node_config.types[i], &indent);
        let ghost g = header@;
        let r = header.add_block(b);
        let ghost pre = types_blocks(ts.take(i as int), ind);
        let ghost one = seq![type_block(ts[i as int], ind)];
        proof {
            assert(types_blocks(ts.take(i + 1), ind) =~= pre + one);
            lemma_add_blocks_concat(h0, pre, one);
            lemma_add_blocks_single(g, type_block(ts[i as int], ind));
            assert(types_blocks(ts, ind) =~= types_blocks(ts.take(i + 1), ind) + types_blocks(ts.skip(i + 1), ind));
            lemma_add_blocks_concat(h0, types_blocks(ts.take(i + 1), ind), types_blocks(ts.skip(i + 1), ind));
        }
        if r.is_err() {
            return r;
        }
        i = i + 1;
    }
    assert(ts.take(ts.len() as int) =~= ts);
    Ok(())
}

/// Whether `t` is a type a node may declare.
pub fn node_type_supported_exec(t: &Type) -> (b: bool)
    ensures
        b == node_type_supported(*t),
{
    match t {
        Type::Struct { attribs, .. } => {
            let mut i: usize = 0;
            #[verifier::loop_isolation(false)]
            while i < attribs.len()
                invariant
                    i <= attribs.len(),
                    forall|j: int| 0 <= j < i ==> !((#[trigger] attribs@[j]).1 is Array),
                decreases attribs.len() - i,
            {
                match &attribs[i].1 {
                    Type::Array { .. } => {
                        assert((attribs@[i as int]).1 is Array);
                        return false;
                    },
                    _ => {},
                }
                i = i + 1;
            }
            true
        },
        Type::Enum { .. } => true,
        _ => false,
    }
}

/// Once adding the first `i + 1` type declarations fails, adding more of
/// them fails the same way.
proof fn lemma_types_stay_refused(h0: FileView, ts: Seq<Type>, i: int, j: int, ind: Seq<char>)
    requires
        0 <= i < j <= ts.len(),
        add_blocks_spec(h0, types_blocks(ts.take(i + 1), ind)).1 is Err,
    ensures
        add_blocks_spec(h0, types_blocks(ts.take(j), ind)) == add_blocks_spec(h0, types_blocks(ts.take(i + 1), ind)),
{
    assert(types_blocks(ts.take(j), ind) =~= types_blocks(ts.take(i + 1), ind) + types_blocks(
        ts.take(j).skip(i + 1),
        ind,
    ));
    lemma_add_blocks_concat(h0, types_blocks(ts.take(i + 1), ind), types_blocks(ts.take(j).skip(i + 1), ind));
}

/// Adds the declarations of `types` to `header` as [`generate_types`] does,
/// checking each type before its block is built: `None` where a type that
/// is reached cannot be declared, else the outcome of adding them.
pub fn types_check(types: &Vec<Type>, header: &mut FileBuffer, indent: &String) -> (res: Option<Result<(), Error>>)
    ensures
        res is None <==> !types_reach_ok(old(header)@, types@, indent@),
        res matches Some(r) ==> (final(header)@, r) == add_blocks_spec(old(header)@, types_blocks(types@, indent@)),
{
    let ghost h0 = header@;
    let ghost ts = types@;
    let ghost ind = indent@;
    assert(ts.take(0) =~= Seq::<Type>::empty());
    assert(types_blocks(ts.take(0), ind) =~= Seq::<BlockView>::empty());
    let mut i: usize = 0;
    while i < types.len()
        invariant
            i <= types.len(),
            ts == types@,
            h0 == old(header)@,
            ind == indent@,
            forall|j: int| 0 <= j < i ==> node_type_supported(#[trigger] ts[j]),
            header@ == add_blocks_spec(h0, types_blocks(ts.take(i as int), ind)).0,
            add_blocks_spec(h0, types_blocks(ts.take(i as int), ind)).1 == Ok::<(), Error>(()),
        decreases types.len() - i,
    {
        if !node_type_supported_exec(&types[i]) {
            assert(!types_reach_ok(h0, ts, ind)) by {
                assert(!node_type_supported(ts[i as int]));
            }
            return None;
        }
        let b = type_block_exec(&types[i], indent);
        let ghost g = header@;
        let r = header.add_block(b);
        let ghost pre = types_blocks(ts.take(i as int), ind);
        let ghost one = seq![type_block(ts[i as int], ind)];
        proof {
            assert(types_blocks(ts.take(i + 1), ind) =~= pre + one);
            lemma_add_blocks_concat(h0, pre, one);
            lemma_add_blocks_single(g, type_block(ts[i as int], ind));
            assert(types_blocks(ts, ind) =~= types_blocks(ts.take(i + 1), ind) + types_blocks(ts.skip(i + 1), ind));
            lemma_add_blocks_concat(h0, types_blocks(ts.take(i + 1), ind), types_blocks(ts.skip(i + 1), ind));
        }
        if r.is_err() {
            assert(types_reach_ok(h0, ts, ind)) by {
                assert forall|j: int|
                    0 <= j < ts.len() && add_blocks_spec(h0, types_blocks(ts.take(j), ind)).1 is Ok implies node_type_supported(
                    #[trigger] ts[j],
                ) by {
                    if j > i {
                        lemma_types_stay_refused(h0, ts, i as int, j, ind);
                    }
                }
            }
            return Some(r);
        }
        proof {
            lemma_ok_is_unit(r);
        }
        i = i + 1;
    }
    assert(ts.take(ts.len() as int) =~= ts);
    Some(Ok(()))
}

} // verus!
