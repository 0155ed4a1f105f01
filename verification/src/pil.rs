//! The platform interface layer: the frame type with its inline helpers and
//! the acceptance filter type, all in the header.
use vstd::prelude::*;
use vstd::string::*;
use crate::errors::Error;
use crate::file_buffer::{{FileBuffer, FileView, Target, apply_plan, plan_view, run_plan}};
use crate::options::Options;
use crate::source_block::{{BlockId, BlockView, SourceBlock, SourceBlockIdentifier, block, ids_view}};
use crate::text::{{spaces, spaces_string}};
use crate::file_buffer::{add_blocks, add_blocks_spec, blocks_view};
use crate::text::{concat_str, to_uppercase, uppercase};

verus! {

/// The blocks of the platform interface layer, for symbols of `namespace`
/// whose upper case form is `upper`.
pub open spec fn pil_plan(namespace: Seq<char>, upper: Seq<char>, indent: Seq<char>) -> Seq<BlockView> {
    seq![
        block(BlockId::Definition(namespace + "_frame"@), "typedef struct {\n"@ + indent + "uint32_t id;\n"@ + indent + "uint8_t dlc;\n"@ + indent + "uint8_t data[8];\n} "@ + (namespace + "_frame"@) + ";\n"@, seq![BlockId::Import("inttypes.h"@)]),
        block(BlockId::Definition(namespace + "_frame_id_bits"@), "typedef enum : uint32_t {\n"@ + indent + upper + "_FRAME_IDE_BIT = 0x40000000, // 1 << 30\n"@ + indent + upper + "_FRAME_RTR_BIT = 0x80000000, // 1 << 31\n} can_frame_id_bits;\n"@, seq![BlockId::Import("inttypes.h"@)]),
        block(BlockId::Definition(namespace + "_frame_new"@), "static inline "@ + (namespace + "_frame"@) + " "@ + (namespace + "_frame_new"@) + "(uint32_t id,  uint8_t* data, int dlc) {\n"@ + indent + (namespace + "_frame"@) + " frame;\n"@ + indent + "frame.id = id;\n"@ + indent + "frame.dlc = dlc;\n"@ + indent + "for (uint8_t i = 0; i < dlc; ++i) {\n"@ + (indent + indent) + "frame.data[i] = data[i];\n"@ + indent + "}\n"@ + indent + "return frame; //RVO\n}\n"@, seq![BlockId::Import("inttypes.h"@), BlockId::Definition(namespace + "_frame"@)]),
        block(BlockId::Definition(namespace + "_frame_is_ext"@), "static inline int "@ + (namespace + "_frame_is_ext"@) + "("@ + (namespace + "_frame"@) + " *frame) {\n"@ + indent + "return (frame->id & "@ + upper + "_FRAME_IDE_BIT) != 0;\n}\n"@, seq![BlockId::Definition(namespace + "_frame_id_bits"@), BlockId::Definition(namespace + "_frame"@)]),
        block(BlockId::Definition(namespace + "_frame_is_std"@), "static inline int "@ + (namespace + "_frame_is_std"@) + "("@ + (namespace + "_frame"@) + " *frame) {\n"@ + indent + "return !"@ + (namespace + "_frame_is_ext"@) + "(frame);\n}\n"@, seq![BlockId::Definition(namespace + "_frame_is_ext"@), BlockId::Definition(namespace + "_frame"@)]),
        block(BlockId::Definition(namespace + "_frame_is_rtr"@), "static inline int "@ + (namespace + "_frame_is_rtr"@) + "("@ + (namespace + "_frame"@) + " *frame) {\n"@ + indent + "return (frame->id & "@ + upper + "_FRAME_RTR_BIT) != 0;\n}\n"@, seq![BlockId::Definition(namespace + "_frame_id_bits"@), BlockId::Definition(namespace + "_frame"@)]),
        block(BlockId::Definition(namespace + "_frame_get_data"@), "static inline uint8_t* "@ + (namespace + "_frame_get_data"@) + "("@ + (namespace + "_frame"@) + " *frame) {\n"@ + indent + "return frame->data;\n}\n"@, seq![BlockId::Definition(namespace + "_frame"@)]),
        block(BlockId::Definition(namespace + "_frame_get_dlc"@), "static inline uint8_t "@ + (namespace + "_frame_get_dlc"@) + "("@ + (namespace + "_frame"@) + " *frame) {\n"@ + indent + "return frame->dlc;\n}\n"@, seq![BlockId::Definition(namespace + "_frame"@), BlockId::Import("inttypes.h"@)]),
        block(BlockId::Definition(namespace + "_frame_get_id"@), "static inline uint32_t "@ + (namespace + "_frame_get_id"@) + "("@ + (namespace + "_frame"@) + " *frame) {\n"@ + indent + "return frame->id;\n}\n"@, seq![BlockId::Definition(namespace + "_frame"@), BlockId::Import("inttypes.h"@)]),
        block(BlockId::Definition(namespace + "_can_filter"@), "typedef struct {\n"@ + indent + "uint32_t mask;\n"@ + indent + "uint32_t id;\n} "@ + (namespace + "_can_filter"@) + ";\n"@, seq![BlockId::Import("inttypes.h"@)]),
    ]
}

/// Adds the platform interface layer to `header`, naming the frame id bit
/// constants with `upper`, the upper case form of the namespace.
pub fn generate_pil_with_upper(header: &mut FileBuffer, options: &Options, upper_s: &str) -> (r: Result<(), Error>)
    ensures
        (final(header)@, r) == add_blocks_spec(old(header)@, pil_plan(options@.namespace, upper_s@, spaces(options@.indent))),
        old(header)@.wf() ==> final(header)@.wf(),
{
    let namespace_s = options.namespace();
    let ghost namespace = options@.namespace;
    let ghost upper = upper_s@;
    let indent_s = spaces_string(options.indent());
    let ghost indent = indent_s@;
    let indent2 = concat_str(indent_s.as_str(), indent_s.as_str());
    let can_frame_name = concat_str(namespace_s, "_frame");
    let can_frame_id_bits_name = concat_str(namespace_s, "_frame_id_bits");
    let can_frame_new_name = concat_str(namespace_s, "_frame_new");
    let can_frame_is_ext_name = concat_str(namespace_s, "_frame_is_ext");
    let can_frame_is_std_name = concat_str(namespace_s, "_frame_is_std");
    let can_frame_is_rtr_name = concat_str(namespace_s, "_frame_is_rtr");
    let can_frame_get_data_name = concat_str(namespace_s, "_frame_get_data");
    let can_frame_get_dlc_name = concat_str(namespace_s, "_frame_get_dlc");
    let can_frame_get_id_name = concat_str(namespace_s, "_frame_get_id");
    let can_filter_name = concat_str(namespace_s, "_can_filter");
    let mut blocks: Vec<SourceBlock> = Vec::new();
    let ghost prev0 = blocks_view(blocks@);
    let mut c0 = String::new();
    c0.append("typedef struct {\n");
    c0.append(indent_s.as_str());
    c0.append("uint32_t id;\n");
    c0.append(indent_s.as_str());
    c0.append("uint8_t dlc;\n");
    c0.append(indent_s.as_str());
    c0.append("uint8_t data[8];\n} ");
    c0.append(can_frame_name.as_str());
    c0.append(";\n");
    let mut d0: Vec<SourceBlockIdentifier> = Vec::new();
    d0.push(SourceBlockIdentifier::Import("inttypes.h".to_owned()));
    assert(ids_view(d0@) =~= seq![BlockId::Import("inttypes.h"@)]);
    blocks.push(SourceBlock::new(SourceBlockIdentifier::Definition(can_frame_name.clone()), c0, d0));
    assert(blocks_view(blocks@) =~= prev0.push(block(BlockId::Definition(namespace + "_frame"@), "typedef struct {\n"@ + indent + "uint32_t id;\n"@ + indent + "uint8_t dlc;\n"@ + indent + "uint8_t data[8];\n} "@ + (namespace + "_frame"@) + ";\n"@, seq![BlockId::Import("inttypes.h"@)])));
    let ghost prev1 = blocks_view(blocks@);
    let mut c1 = String::new();
    c1.append("typedef enum : uint32_t {\n");
    c1.append(indent_s.as_str());
    c1.append(upper_s);
    c1.append("_FRAME_IDE_BIT = 0x40000000, // 1 << 30\n");
    c1.append(indent_s.as_str());
    c1.append(upper_s);
    c1.append("_FRAME_RTR_BIT = 0x80000000, // 1 << 31\n} can_frame_id_bits;\n");
    let mut d1: Vec<SourceBlockIdentifier> = Vec::new();
    d1.push(SourceBlockIdentifier::Import("inttypes.h".to_owned()));
    assert(ids_view(d1@) =~= seq![BlockId::Import("inttypes.h"@)]);
    blocks.push(SourceBlock::new(SourceBlockIdentifier::Definition(can_frame_id_bits_name.clone()), c1, d1));
    assert(blocks_view(blocks@) =~= prev1.push(block(BlockId::Definition(namespace + "_frame_id_bits"@), "typedef enum : uint32_t {\n"@ + indent + upper + "_FRAME_IDE_BIT = 0x40000000, // 1 << 30\n"@ + indent + upper + "_FRAME_RTR_BIT = 0x80000000, // 1 << 31\n} can_frame_id_bits;\n"@, seq![BlockId::Import("inttypes.h"@)])));
    let ghost prev2 = blocks_view(blocks@);
    let mut c2 = String::new();
    c2.append("static inline ");
    c2.append(can_frame_name.as_str());
    c2.append(" ");
    c2.append(can_frame_new_name.as_str());
    c2.append("(uint32_t id,  uint8_t* data, int dlc) {\n");
    c2.append(indent_s.as_str());
    c2.append(can_frame_name.as_str());
    c2.append(" frame;\n");
    c2.append(indent_s.as_str());
    c2.append("frame.id = id;\n");
    c2.append(indent_s.as_str());
    c2.append("frame.dlc = dlc;\n");
    c2.append(indent_s.as_str());
    c2.append("for (uint8_t i = 0; i < dlc; ++i) {\n");
    c2.append(indent2.as_str());
    c2.append("frame.data[i] = data[i];\n");
    c2.append(indent_s.as_str());
    c2.append("}\n");
    c2.append(indent_s.as_str());
    c2.append("return frame; //RVO\n}\n");
    let mut d2: Vec<SourceBlockIdentifier> = Vec::new();
    d2.push(SourceBlockIdentifier::Import("inttypes.h".to_owned()));
    d2.push(SourceBlockIdentifier::Definition(can_frame_name.clone()));
    assert(ids_view(d2@) =~= seq![BlockId::Import("inttypes.h"@), BlockId::Definition(namespace + "_frame"@)]);
    blocks.push(SourceBlock::new(SourceBlockIdentifier::Definition(can_frame_new_name.clone()), c2, d2));
    assert(blocks_view(blocks@) =~= prev2.push(block(BlockId::Definition(namespace + "_frame_new"@), "static inline "@ + (namespace + "_frame"@) + " "@ + (namespace + "_frame_new"@) + "(uint32_t id,  uint8_t* data, int dlc) {\n"@ + indent + (namespace + "_frame"@) + " frame;\n"@ + indent + "frame.id = id;\n"@ + indent + "frame.dlc = dlc;\n"@ + indent + "for (uint8_t i = 0; i < dlc; ++i) {\n"@ + (indent + indent) + "frame.data[i] = data[i];\n"@ + indent + "}\n"@ + indent + "return frame; //RVO\n}\n"@, seq![BlockId::Import("inttypes.h"@), BlockId::Definition(namespace + "_frame"@)])));
    let ghost prev3 = blocks_view(blocks@);
    let mut c3 = String::new();
    c3.append("static inline int ");
    c3.append(can_frame_is_ext_name.as_str());
    c3.append("(");
    c3.append(can_frame_name.as_str());
    c3.append(" *frame) {\n");
    c3.append(indent_s.as_str());
    c3.append("return (frame->id & ");
    c3.append(upper_s);
    c3.append("_FRAME_IDE_BIT) != 0;\n}\n");
    let mut d3: Vec<SourceBlockIdentifier> = Vec::new();
    d3.push(SourceBlockIdentifier::Definition(can_frame_id_bits_name.clone()));
    d3.push(SourceBlockIdentifier::Definition(can_frame_name.clone()));
    assert(ids_view(d3@) =~= seq![BlockId::Definition(namespace + "_frame_id_bits"@), BlockId::Definition(namespace + "_frame"@)]);
    blocks.push(SourceBlock::new(SourceBlockIdentifier::Definition(can_frame_is_ext_name.clone()), c3, d3));
    assert(blocks_view(blocks@) =~= prev3.push(block(BlockId::Definition(namespace + "_frame_is_ext"@), "static inline int "@ + (namespace + "_frame_is_ext"@) + "("@ + (namespace + "_frame"@) + " *frame) {\n"@ + indent + "return (frame->id & "@ + upper + "_FRAME_IDE_BIT) != 0;\n}\n"@, seq![BlockId::Definition(namespace + "_frame_id_bits"@), BlockId::Definition(namespace + "_frame"@)])));
    let ghost prev4 = blocks_view(blocks@);
    let mut c4 = String::new();
    c4.append("static inline int ");
    c4.append(can_frame_is_std_name.as_str());
    c4.append("(");
    c4.append(can_frame_name.as_str());
    c4.append(" *frame) {\n");
    c4.append(indent_s.as_str());
    c4.append("return !");
    c4.append(can_frame_is_ext_name.as_str());
    c4.append("(frame);\n}\n");
    let mut d4: Vec<SourceBlockIdentifier> = Vec::new();
    d4.push(SourceBlockIdentifier::Definition(can_frame_is_ext_name.clone()));
    d4.push(SourceBlockIdentifier::Definition(can_frame_name.clone()));
    assert(ids_view(d4@) =~= seq![BlockId::Definition(namespace + "_frame_is_ext"@), BlockId::Definition(namespace + "_frame"@)]);
    blocks.push(SourceBlock::new(SourceBlockIdentifier::Definition(can_frame_is_std_name.clone()), c4, d4));
    assert(blocks_view(blocks@) =~= prev4.push(block(BlockId::Definition(namespace + "_frame_is_std"@), "static inline int "@ + (namespace + "_frame_is_std"@) + "("@ + (namespace + "_frame"@) + " *frame) {\n"@ + indent + "return !"@ + (namespace + "_frame_is_ext"@) + "(frame);\n}\n"@, seq![BlockId::Definition(namespace + "_frame_is_ext"@), BlockId::Definition(namespace + "_frame"@)])));
    let ghost prev5 = blocks_view(blocks@);
    let mut c5 = String::new();
    c5.append("static inline int ");
    c5.append(can_frame_is_rtr_name.as_str());
    c5.append("(");
    c5.append(can_frame_name.as_str());
    c5.append(" *frame) {\n");
    c5.append(indent_s.as_str());
    c5.append("return (frame->id & ");
    c5.append(upper_s);
    c5.append("_FRAME_RTR_BIT) != 0;\n}\n");
    let mut d5: Vec<SourceBlockIdentifier> = Vec::new();
    d5.push(SourceBlockIdentifier::Definition(can_frame_id_bits_name.clone()));
    d5.push(SourceBlockIdentifier::Definition(can_frame_name.clone()));
    assert(ids_view(d5@) =~= seq![BlockId::Definition(namespace + "_frame_id_bits"@), BlockId::Definition(namespace + "_frame"@)]);
    blocks.push(SourceBlock::new(SourceBlockIdentifier::Definition(can_frame_is_rtr_name.clone()), c5, d5));
    assert(blocks_view(blocks@) =~= prev5.push(block(BlockId::Definition(namespace + "_frame_is_rtr"@), "static inline int "@ + (namespace + "_frame_is_rtr"@) + "("@ + (namespace + "_frame"@) + " *frame) {\n"@ + indent + "return (frame->id & "@ + upper + "_FRAME_RTR_BIT) != 0;\n}\n"@, seq![BlockId::Definition(namespace + "_frame_id_bits"@), BlockId::Definition(namespace + "_frame"@)])));
    let ghost prev6 = blocks_view(blocks@);
    let mut c6 = String::new();
    c6.append("static inline uint8_t* ");
    c6.append(can_frame_get_data_name.as_str());
    c6.append("(");
    c6.append(can_frame_name.as_str());
    c6.append(" *frame) {\n");
    c6.append(indent_s.as_str());
    c6.append("return frame->data;\n}\n");
    let mut d6: Vec<SourceBlockIdentifier> = Vec::new();
    d6.push(SourceBlockIdentifier::Definition(can_frame_name.clone()));
    assert(ids_view(d6@) =~= seq![BlockId::Definition(namespace + "_frame"@)]);
    blocks.push(SourceBlock::new(SourceBlockIdentifier::Definition(can_frame_get_data_name.clone()), c6, d6));
    assert(blocks_view(blocks@) =~= prev6.push(block(BlockId::Definition(namespace + "_frame_get_data"@), "static inline uint8_t* "@ + (namespace + "_frame_get_data"@) + "("@ + (namespace + "_frame"@) + " *frame) {\n"@ + indent + "return frame->data;\n}\n"@, seq![BlockId::Definition(namespace + "_frame"@)])));
    let ghost prev7 = blocks_view(blocks@);
    let mut c7 = String::new();
    c7.append("static inline uint8_t ");
    c7.append(can_frame_get_dlc_name.as_str());
    c7.append("(");
    c7.append(can_frame_name.as_str());
    c7.append(" *frame) {\n");
    c7.append(indent_s.as_str());
    c7.append("return frame->dlc;\n}\n");
    let mut d7: Vec<SourceBlockIdentifier> = Vec::new();
    d7.push(SourceBlockIdentifier::Definition(can_frame_name.clone()));
    d7.push(SourceBlockIdentifier::Import("inttypes.h".to_owned()));
    assert(ids_view(d7@) =~= seq![BlockId::Definition(namespace + "_frame"@), BlockId::Import("inttypes.h"@)]);
    blocks.push(SourceBlock::new(SourceBlockIdentifier::Definition(can_frame_get_dlc_name.clone()), c7, d7));
    assert(blocks_view(blocks@) =~= prev7.push(block(BlockId::Definition(namespace + "_frame_get_dlc"@), "static inline uint8_t "@ + (namespace + "_frame_get_dlc"@) + "("@ + (namespace + "_frame"@) + " *frame) {\n"@ + indent + "return frame->dlc;\n}\n"@, seq![BlockId::Definition(namespace + "_frame"@), BlockId::Import("inttypes.h"@)])));
    let ghost prev8 = blocks_view(blocks@);
    let mut c8 = String::new();
    c8.append("static inline uint32_t ");
    c8.append(can_frame_get_id_name.as_str());
    c8.append("(");
    c8.append(can_frame_name.as_str());
    c8.append(" *frame) {\n");
    c8.append(indent_s.as_str());
    c8.append("return frame->id;\n}\n");
    let mut d8: Vec<SourceBlockIdentifier> = Vec::new();
    d8.push(SourceBlockIdentifier::Definition(can_frame_name.clone()));
    d8.push(SourceBlockIdentifier::Import("inttypes.h".to_owned()));
    assert(ids_view(d8@) =~= seq![BlockId::Definition(namespace + "_frame"@), BlockId::Import("inttypes.h"@)]);
    blocks.push(SourceBlock::new(SourceBlockIdentifier::Definition(can_frame_get_id_name.clone()), c8, d8));
    assert(blocks_view(blocks@) =~= prev8.push(block(BlockId::Definition(namespace + "_frame_get_id"@), "static inline uint32_t "@ + (namespace + "_frame_get_id"@) + "("@ + (namespace + "_frame"@) + " *frame) {\n"@ + indent + "return frame->id;\n}\n"@, seq![BlockId::Definition(namespace + "_frame"@), BlockId::Import("inttypes.h"@)])));
    let ghost prev9 = blocks_view(blocks@);
    let mut c9 = String::new();
    c9.append("typedef struct {\n");
    c9.append(indent_s.as_str());
    c9.append("uint32_t mask;\n");
    c9.append(indent_s.as_str());
    c9.append("uint32_t id;\n} ");
    c9.append(can_filter_name.as_str());
    c9.append(";\n");
    let mut d9: Vec<SourceBlockIdentifier> = Vec::new();
    d9.push(SourceBlockIdentifier::Import("inttypes.h".to_owned()));
    assert(ids_view(d9@) =~= seq![BlockId::Import("inttypes.h"@)]);
    blocks.push(SourceBlock::new(SourceBlockIdentifier::Definition(can_filter_name.clone()), c9, d9));
    assert(blocks_view(blocks@) =~= prev9.push(block(BlockId::Definition(namespace + "_can_filter"@), "typedef struct {\n"@ + indent + "uint32_t mask;\n"@ + indent + "uint32_t id;\n} "@ + (namespace + "_can_filter"@) + ";\n"@, seq![BlockId::Import("inttypes.h"@)])));
    assert(blocks_view(blocks@) =~= pil_plan(namespace, upper, indent));
    add_blocks(header, blocks)
}

/// Adds the platform interface layer to `header`; `source` is not touched.
pub fn generate_pil(source: &mut FileBuffer, header: &mut FileBuffer, options: &Options) -> (r: Result<(), Error>)
    ensures
        (final(header)@, r) == add_blocks_spec(old(header)@, pil_plan(options@.namespace, uppercase(options@.namespace), spaces(options@.indent))),
        final(source)@ == old(source)@,
        old(header)@.wf() ==> final(header)@.wf(),
{
    let upper = to_uppercase(options.namespace());
    generate_pil_with_upper(header, options, upper.as_str())
}

} // verus!
