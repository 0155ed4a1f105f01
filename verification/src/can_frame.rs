//! The C type of a CAN frame and its inline accessors.
use vstd::prelude::*;
use vstd::string::*;
use crate::errors::Error;
use crate::file_buffer::{FileBuffer, FileView, add_block_spec};
use crate::options::Options;
use crate::source_block::{BlockId, BlockView, SourceBlock, SourceBlockIdentifier, block};
use crate::text::{spaces, spaces_string};

verus! {

/// The name of the frame type: the namespace followed by `_frame`.
pub open spec fn frame_name(namespace: Seq<char>) -> Seq<char> {
    namespace + "_frame"@
}

/// The definition of the frame type `name` and its inline constructor and
/// accessors, indented by `indent`.
pub open spec fn can_frame_text(name: Seq<char>, indent: Seq<char>) -> Seq<char> {
    "\ntypedef struct {\n  uint32_t _id;\n  uint8_t _dlc;\n  uint8_t _data[8];\n} "@ + name + ";\n\n// expects data to point to a 8 byte array\ninline "@ + name + " "@ + name + "_new(uint32_t id, \n                                      int ide, \n                                      int rtr, \n                                      uint8_t dlc,\n                                      uint8_t* data) {\n"@ + indent + name + " frame;\n"@ + indent + "frame._id = id << 2 | (!!rtr) << 1 | (!!ide);\n"@ + indent + "frame._dlc = dlc;\n"@ + indent + "*((uint64_t*)frame._data) = *((uint64_t*)data);\n"@ + indent + "return frame;\n}\ninline uint32_t "@ + name + "_get_id("@ + name + "* self) {\n"@ + indent + "return self->_id >> 2;\n}\ninline int "@ + name + "_get_ide("@ + name + "* self) {\n"@ + indent + "return self->_id & 0x1;\n}\ninline int "@ + name + "_get_rtr("@ + name + "* self) {\n"@ + indent + "return self->_id & 0x2;\n}\ninline uint8_t "@ + name + "_get_dlc("@ + name + "* self) {\n"@ + indent + "return self->_dlc;\n}\ninline uint8_t* "@ + name + "_get_data("@ + name + "* self) {\n"@ + indent + "return self->_data;\n}"@
}

/// The block that defines the frame type.
pub open spec fn can_frame_block(namespace: Seq<char>, indent: Seq<char>) -> BlockView {
    block(
        BlockId::Definition(frame_name(namespace)),
        can_frame_text(frame_name(namespace), indent),
        seq![BlockId::Import("inttypes.h"@)],
    )
}

/// The name of the frame type of `namespace`.
pub fn frame_name_string(namespace: &str) -> (s: String)
    ensures
        s@ == frame_name(namespace@),
{
    let mut s = String::new();
    s.append(namespace);
    s.append("_frame");
    s
}

/// Adds to `header` the definition of the frame type and its accessors.
pub fn generate_can_frame(header: &mut FileBuffer, source: &mut FileBuffer, options: &Options) -> (r: Result<(), Error>)
    ensures
        (final(header)@, r) == add_block_spec(old(header)@, can_frame_block(options@.namespace, spaces(options@.indent))),
        final(source)@ == old(source)@,
        old(header)@.wf() ==> final(header)@.wf(),
{
    let namespace = options.namespace();
    let indent = spaces_string(options.indent());
    let can_frame_name = frame_name_string(namespace);
    let mut s = String::new();
        s.append("\ntypedef struct {\n  uint32_t _id;\n  uint8_t _dlc;\n  uint8_t _data[8];\n} ");
        s.append(can_frame_name.as_str());
        s.append(";\n\n// expects data to point to a 8 byte array\ninline ");
        s.append(can_frame_name.as_str());
        s.append(" ");
        s.append(can_frame_name.as_str());
        s.append("_new(uint32_t id, \n                                      int ide, \n                                      int rtr, \n                                      uint8_t dlc,\n                                      uint8_t* data) {\n");
        s.append(indent.as_str());
        s.append(can_frame_name.as_str());
        s.append(" frame;\n");
        s.append(indent.as_str());
        s.append("frame._id = id << 2 | (!!rtr) << 1 | (!!ide);\n");
        s.append(indent.as_str());
        s.append("frame._dlc = dlc;\n");
        s.append(indent.as_str());
        s.append("*((uint64_t*)frame._data) = *((uint64_t*)data);\n");
        s.append(indent.as_str());
        s.append("return frame;\n}\ninline uint32_t ");
        s.append(can_frame_name.as_str());
        s.append("_get_id(");
        s.append(can_frame_name.as_str());
        s.append("* self) {\n");
        s.append(indent.as_str());
        s.append("return self->_id >> 2;\n}\ninline int ");
        s.append(can_frame_name.as_str());
        s.append("_get_ide(");
        s.append(can_frame_name.as_str());
        s.append("* self) {\n");
        s.append(indent.as_str());
        s.append("return self->_id & 0x1;\n}\ninline int ");
        s.append(can_frame_name.as_str());
        s.append("_get_rtr(");
        s.append(can_frame_name.as_str());
        s.append("* self) {\n");
        s.append(indent.as_str());
        s.append("return self->_id & 0x2;\n}\ninline uint8_t ");
        s.append(can_frame_name.as_str());
        s.append("_get_dlc(");
        s.append(can_frame_name.as_str());
        s.append("* self) {\n");
        s.append(indent.as_str());
        s.append("return self->_dlc;\n}\ninline uint8_t* ");
        s.append(can_frame_name.as_str());
        s.append("_get_data(");
        s.append(can_frame_name.as_str());
        s.append("* self) {\n");
        s.append(indent.as_str());
        s.append("return self->_data;\n}");
    let mut deps: Vec<SourceBlockIdentifier> = Vec::new();
    deps.push(SourceBlockIdentifier::Import("inttypes.h".to_owned()));
    let b = SourceBlock::new(SourceBlockIdentifier::Definition(can_frame_name), s, deps);
    assert(b@ == can_frame_block(options@.namespace, indent@)) by {
        assert(crate::source_block::ids_view(deps@) =~= seq![BlockId::Import("inttypes.h"@)]);
    }
    header.add_block(b)
}

} // verus!
