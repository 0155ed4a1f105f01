//! The periodic update entry point of the generated code.
use vstd::prelude::*;
use vstd::string::*;
use crate::errors::Error;
use crate::file_buffer::{{FileBuffer, FileView, Target, apply_plan, plan_view, run_plan}};
use crate::options::Options;
use crate::source_block::{{BlockId, BlockView, SourceBlock, SourceBlockIdentifier, block, ids_view}};
use crate::text::{{spaces, spaces_string}};
use crate::text::concat_str;

verus! {

/// The name of the update function of `namespace`.
pub open spec fn update_name(namespace: Seq<char>) -> Seq<char> {
    namespace + "_update_continue"@
}

/// The declaration of the update function in the header and its definition
/// in the source.
pub open spec fn update_plan(namespace: Seq<char>, indent: Seq<char>) -> Seq<(Target, BlockView)> {
    let name = update_name(namespace);
    seq![
        (Target::Header, block(BlockId::Declaration(name), "uint32_t "@ + name + "(uint32_t delta_time);\n"@, seq![BlockId::Import("inttypes.h"@)])),
        (Target::Source, block(BlockId::Definition(name), "uint32_t "@ + name + "(uint32_t delta_time){\n"@ + indent + "return 100;\n}"@, seq![BlockId::Declaration(name)])),
    ]
}

/// Adds the declaration and definition of the update function.
pub fn generate_update(source: &mut FileBuffer, header: &mut FileBuffer, options: &Options) -> (r: Result<(), Error>)
    ensures
        (final(header)@, final(source)@, r) == apply_plan(old(header)@, old(source)@, update_plan(options@.namespace, spaces(options@.indent))),
        old(source)@.wf() ==> final(source)@.wf(),
        old(header)@.wf() ==> final(header)@.wf(),
{
    let namespace_s = options.namespace();
    let indent_s = spaces_string(options.indent());
    let ghost indent = indent_s@;
    let name_s = concat_str(namespace_s, "_update_continue");
    let ghost name = name_s@;
    let mut plan: Vec<(Target, SourceBlock)> = Vec::new();
    let mut c0 = String::new();
    c0.append("uint32_t ");
    c0.append(name_s.as_str());
    c0.append("(uint32_t delta_time);\n");
    let mut d0: Vec<SourceBlockIdentifier> = Vec::new();
    d0.push(SourceBlockIdentifier::Import("inttypes.h".to_owned()));
    assert(ids_view(d0@) =~= seq![BlockId::Import("inttypes.h"@)]);
    plan.push((Target::Header, SourceBlock::new(SourceBlockIdentifier::Declartion(name_s.clone()), c0, d0)));
    let mut c1 = String::new();
    c1.append("uint32_t ");
    c1.append(name_s.as_str());
    c1.append("(uint32_t delta_time){\n");
    c1.append(indent_s.as_str());
    c1.append("return 100;\n}");
    let mut d1: Vec<SourceBlockIdentifier> = Vec::new();
    d1.push(SourceBlockIdentifier::Declartion(name_s.clone()));
    assert(ids_view(d1@) =~= seq![BlockId::Declaration(name)]);
    plan.push((Target::Source, SourceBlock::new(SourceBlockIdentifier::Definition(name_s.clone()), c1, d1)));
    assert(plan_view(plan@) =~= update_plan(options@.namespace, indent));
    run_plan(header, source, plan)
}

} // verus!
