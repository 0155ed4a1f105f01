//! Message structs and the functions that serialize them into CAN frames and
//! deserialize them from frames, together with the C integer types chosen for
//! signals and the bit access expressions.
use vstd::prelude::*;
use vstd::string::*;
use crate::config::{Message, Signal, SignalType, Type, TypeSignalEncoding};
use crate::errors::Error;
use crate::file_buffer::{
    FileBuffer, FileView, add_block_spec, add_blocks_spec, law_add_blocks_keeps_file, lemma_add_blocks_concat,
    lemma_add_blocks_single, lemma_ok_is_unit,
};
use crate::options::Options;
use crate::source_block::{
    BlockId,
    BlockView,
    SourceBlock,
    SourceBlockIdentifier,
    block,
    ids_view,
    push_new,
    push_new_dependency,
};
use crate::text::{concat_str, dec, dec_string, hex, hex_string, spaces, spaces_string};
use crate::types::{to_c_type_name, type_c_name};

verus! {

/// `ceil(log2(n))`, taken as 0 for `n` of 0 or 1.
pub open spec fn log2_ceil(n: nat) -> nat
    decreases n,
{
    if n <= 1 {
        0
    } else {
        1 + log2_ceil((n / 2 + n % 2) as nat)
    }
}

/// `2^k`.
pub open spec fn pow2(k: nat) -> nat
    decreases k,
{
    if k == 0 {
        1
    } else {
        2 * pow2((k - 1) as nat)
    }
}

/// A value of at most `2^k` has a ceiling logarithm of at most `k`.
pub proof fn lemma_log2_ceil_bound(n: nat, k: nat)
    requires
        n <= pow2(k),
    ensures
        log2_ceil(n) <= k,
    decreases k,
{
    if n > 1 {
        if k == 0 {
        } else {
            lemma_log2_ceil_bound((n / 2 + n % 2) as nat, (k - 1) as nat);
        }
    }
}

fn log2_ceil_exec(n: u64) -> (r: u64)
    ensures
        r == log2_ceil(n as nat),
    decreases n,
{
    if n <= 1 {
        0
    } else {
        let r = log2_ceil_exec(n / 2 + n % 2);
        assert(r <= 64) by {
            lemma_pow2_64();
            lemma_log2_ceil_bound((n / 2 + n % 2) as nat, 64);
        }
        1 + r
    }
}

proof fn lemma_pow2_64()
    ensures
        pow2(64) == 0x1_0000_0000_0000_0000,
{
    reveal_with_fuel(pow2, 65);
}

/// The name of the C type that holds a signal of this type, and the import
/// it needs: integers take the smallest of 8, 16, 32 and 64 bits that is at
/// least `ceil(log2(size))`, decimals are `float` up to 32 bits and `double`
/// above.
pub open spec fn signal_c_type(t: SignalType) -> (Seq<char>, Option<BlockId>) {
    match t {
        SignalType::UnsignedInt { size } => {
            let bits = log2_ceil(size as nat);
            (
                if bits <= 8 {
                    "uint8_t"@
                } else if bits <= 16 {
                    "uint16_t"@
                } else if bits <= 32 {
                    "uint32_t"@
                } else {
                    "uint64_t"@
                },
                Some(BlockId::Import("inttypes.h"@)),
            )
        },
        SignalType::SignedInt { size } => {
            let bits = log2_ceil(size as nat);
            (
                if bits <= 8 {
                    "int8_t"@
                } else if bits <= 16 {
                    "int16_t"@
                } else if bits <= 32 {
                    "int32_t"@
                } else {
                    "int64_t"@
                },
                Some(BlockId::Import("inttypes.h"@)),
            )
        },
        SignalType::Decimal { size, .. } => (
            if size <= 32 {
                "float"@
            } else {
                "double"@
            },
            None,
        ),
    }
}

/// The view of a type name and optional dependency.
pub open spec fn c_type_view(r: (&str, Option<SourceBlockIdentifier>)) -> (Seq<char>, Option<BlockId>) {
    (
        r.0@,
        match r.1 {
            Some(d) => Some(d@),
            None => None,
        },
    )
}

/// See [`signal_c_type`].
pub fn signal_type_to_c_type(signal_type: &SignalType) -> (r: (&'static str, Option<SourceBlockIdentifier>))
    ensures
        c_type_view(r) == signal_c_type(*signal_type),
{
    match signal_type {
        SignalType::UnsignedInt { size } => {
            let bit_count = log2_ceil_exec(*size as u64);
            proof {
                assert(pow2(8) == 256) by {
                    reveal_with_fuel(pow2, 9);
                }
                lemma_log2_ceil_bound(*size as nat, 8);
            }
            let c_name = if bit_count <= 8 {
                "uint8_t"
            } else if bit_count <= 16 {
                "uint16_t"
            } else if bit_count <= 32 {
                "uint32_t"
            } else {
                "uint64_t"
            };
            (c_name, Some(SourceBlockIdentifier::Import("inttypes.h".to_owned())))
        },
        SignalType::SignedInt { size } => {
            let bit_count = log2_ceil_exec(*size as u64);
            proof {
                assert(pow2(8) == 256) by {
                    reveal_with_fuel(pow2, 9);
                }
                lemma_log2_ceil_bound(*size as nat, 8);
            }
            let c_name = if bit_count <= 8 {
                "int8_t"
            } else if bit_count <= 16 {
                "int16_t"
            } else if bit_count <= 32 {
                "int32_t"
            } else {
                "int64_t"
            };
            (c_name, Some(SourceBlockIdentifier::Import("inttypes.h".to_owned())))
        },
        SignalType::Decimal { size, .. } => {
            if *size <= 32 {
                ("float", None)
            } else {
                ("double", None)
            }
        },
    }
}

/// Whether a field of `bit_size` bits at `bit_offset` lies within one
/// 32-bit word.
pub open spec fn fits_word(bit_offset: usize, bit_size: usize) -> bool {
    bit_size <= 32 && bit_size + bit_offset % 32 <= 32
}

/// The mask of a field within a 32-bit word: the top `bit_size` bits of
/// the word (all bits for a size of 0) shifted right by the field's offset
/// within the word.
pub open spec fn word_mask(bit_offset: usize, bit_size: usize) -> u32 {
    (0xFFFF_FFFFu32 << (((32 - bit_size) % 32) as u32)) >> ((bit_offset % 32) as u32)
}

/// The mask of a field within a 64-bit value: the top `bit_size` bits (all
/// bits for a size of 0; the size taken modulo `2^32`) shifted right by
/// `bit_offset`.
pub open spec fn long_mask(bit_offset: usize, bit_size: usize) -> u64 {
    (0xFFFF_FFFF_FFFF_FFFFu64 << (((64 - (bit_size as u32)) % 64) as u64)) >> (bit_offset as u64)
}

/// The C expression that reads a field of `bit_size` bits at `bit_offset`
/// from `buffer`: a masked 32-bit word when the field fits one word, else
/// the masked 64-bit value.
pub open spec fn bit_access_spec(bit_offset: usize, bit_size: usize, buffer: Seq<char>) -> Seq<char> {
    if fits_word(bit_offset, bit_size) {
        "(((int32_t*)"@ + buffer + ")["@ + dec((bit_offset / 32) as nat) + "] & 0x"@ + hex(
            word_mask(bit_offset, bit_size) as nat,
        ) + ") >> "@ + dec((bit_offset % 32) as nat)
    } else {
        "(((int64_t*)"@ + buffer + ") & 0x"@ + hex(long_mask(bit_offset, bit_size) as nat)
            + ") >> "@ + dec(bit_offset as nat)
    }
}

/// See [`bit_access_spec`].
pub fn bit_access_code(bit_offset: usize, bit_size: usize, buffer_name: &str) -> (code: String)
    requires
        fits_word(bit_offset, bit_size) || ((bit_size as u32) <= 64 && bit_offset < 64),
    ensures
        code@ == bit_access_spec(bit_offset, bit_size, buffer_name@),
{
    if bit_size <= 32 && (bit_size + bit_offset % 32) <= 32 {
        let word_bit_offset = bit_offset % 32;
        let word_index = bit_offset / 32;
        let mask: u32 = (0xFFFF_FFFFu32 << (((32 - bit_size) % 32) as u32)) >> (word_bit_offset as u32);
        let shift = word_bit_offset;
        let mut s = String::new();
        s.append("(((int32_t*)");
        s.append(buffer_name);
        s.append(")[");
        s.append(dec_string(word_index as u64).as_str());
        s.append("] & 0x");
        s.append(hex_string(mask as u64).as_str());
        s.append(") >> ");
        s.append(dec_string(shift as u64).as_str());
        s
    } else {
        let mask: u64 = (0xFFFF_FFFF_FFFF_FFFFu64 << (((64 - (bit_size as u32)) % 64) as u64)) >> (
        bit_offset as u64);
        let shift = bit_offset;
        let mut s = String::new();
        s.append("(((int64_t*)");
        s.append(buffer_name);
        s.append(") & 0x");
        s.append(hex_string(mask).as_str());
        s.append(") >> ");
        s.append(dec_string(shift as u64).as_str());
        s
    }
}

/// The C statement body that ors `value`, shifted to the field's position,
/// into `buffer`: into the 32-bit word at index `bit_offset / 8` shifted by
/// the offset within a word when the field fits one word, else into the
/// first 64 bits shifted by `bit_offset`.
pub open spec fn bit_write_spec(bit_offset: usize, bit_size: usize, buffer: Seq<char>, value: Seq<char>) -> Seq<char> {
    if fits_word(bit_offset, bit_size) {
        "((uint32_t*)"@ + buffer + ")["@ + dec((bit_offset / 8) as nat) + "] |= "@ + value + " << "@
            + dec((bit_offset % 32) as nat)
    } else {
        "*((uint64_t*)"@ + buffer + ") |= "@ + value + " << "@ + dec(bit_offset as nat)
    }
}

/// See [`bit_write_spec`].
pub fn bit_write_code(bit_offset: usize, bit_size: usize, buffer_name: &str, value: &str) -> (code: String)
    ensures
        code@ == bit_write_spec(bit_offset, bit_size, buffer_name@, value@),
{
    let mut s = String::new();
    if bit_size <= 32 && (bit_size + bit_offset % 32) <= 32 {
        let word_bit_offset = bit_offset % 32;
        let word_index = bit_offset / 8;
        s.append("((uint32_t*)");
        s.append(buffer_name);
        s.append(")[");
        s.append(dec_string(word_index as u64).as_str());
        s.append("] |= ");
        s.append(value);
        s.append(" << ");
        s.append(dec_string(word_bit_offset as u64).as_str());
    } else {
        s.append("*((uint64_t*)");
        s.append(buffer_name);
        s.append(") |= ");
        s.append(value);
        s.append(" << ");
        s.append(dec_string(bit_offset as u64).as_str());
    }
    s
}


/// Some message of `messages` carries `name`.
pub open spec fn has_name(messages: Seq<Message>, name: Seq<char>) -> bool {
    exists|i: int| 0 <= i < messages.len() && (#[trigger] messages[i]).name@ == name
}

/// `acc` extended by the messages of `rx` whose name it lacks, in order; a
/// later message with the name of an earlier one is left out.
pub open spec fn add_unique(acc: Seq<Message>, rx: Seq<Message>) -> Seq<Message>
    decreases rx.len(),
{
    if rx.len() == 0 {
        acc
    } else {
        let a = add_unique(acc, rx.drop_last());
        if has_name(a, rx.last().name@) {
            a
        } else {
            a.push(rx.last())
        }
    }
}

/// The messages a node handles: its transmitted messages, then the received
/// messages whose names are new.
pub open spec fn unique_messages(tx: Seq<Message>, rx: Seq<Message>) -> Seq<Message> {
    add_unique(tx, rx)
}

/// The C expression for the value of a signal of type `t` stored at `path`:
/// the path itself for integers, `(path * scale + offset)` for decimals.
pub open spec fn encoded_var(t: SignalType, path: Seq<char>) -> Seq<char> {
    match t {
        SignalType::Decimal { offset, scale, .. } => "("@ + path + " * "@ + scale@ + " + "@ + offset@ + ")"@,
        _ => path,
    }
}

/// The struct field lines of a message with a typed encoding.
pub open spec fn encoding_fields(attrs: Seq<TypeSignalEncoding>, indent: Seq<char>) -> Seq<char>
    decreases attrs.len(),
{
    if attrs.len() == 0 {
        Seq::empty()
    } else {
        let a = attrs.last();
        encoding_fields(attrs.drop_last(), indent) + indent + type_c_name(*a.spec_ty()).0 + " "@ + a.spec_name()
            + ";\n"@
    }
}

/// The dependencies of the struct of a message with a typed encoding.
pub open spec fn encoding_deps(attrs: Seq<TypeSignalEncoding>) -> Seq<BlockId>
    decreases attrs.len(),
{
    if attrs.len() == 0 {
        Seq::empty()
    } else {
        let d = encoding_deps(attrs.drop_last());
        match type_c_name(*attrs.last().spec_ty()).1 {
            Some(x) => push_new(d, x),
            None => d,
        }
    }
}

/// The struct field lines of a message described by its signals.
pub open spec fn signal_fields(signals: Seq<Signal>, indent: Seq<char>) -> Seq<char>
    decreases signals.len(),
{
    if signals.len() == 0 {
        Seq::empty()
    } else {
        let s = signals.last();
        signal_fields(signals.drop_last(), indent) + indent + signal_c_type(s.ty).0 + " "@ + s.name@ + ";\n"@
    }
}

/// The dependencies of the struct of a message described by its signals.
pub open spec fn signal_deps(signals: Seq<Signal>) -> Seq<BlockId>
    decreases signals.len(),
{
    if signals.len() == 0 {
        Seq::empty()
    } else {
        let d = signal_deps(signals.drop_last());
        match signal_c_type(signals.last().ty).1 {
            Some(x) => push_new(d, x),
            None => d,
        }
    }
}

/// The struct definition block of a message: one field per attribute of its
/// encoding, or per signal when it has none.
pub open spec fn message_struct_block(m: Message, indent: Seq<char>) -> BlockView {
    match m.encoding {
        Some(e) => block(
            BlockId::Definition(m.name@),
            "typedef struct {\n"@ + encoding_fields(e.attributes@, indent) + "} "@ + m.name@ + ";\n"@,
            encoding_deps(e.attributes@),
        ),
        None => block(
            BlockId::Definition(m.name@),
            "typedef struct {\n"@ + signal_fields(m.signals@, indent) + "} "@ + m.name@ + ";\n"@,
            signal_deps(m.signals@),
        ),
    }
}

/// The statements that write an attribute into the frame data; attributes
/// of a composite are named by the composite's name directly followed by
/// theirs.
pub open spec fn serialize_attr(e: TypeSignalEncoding, indent: Seq<char>, prefix: Seq<char>) -> Seq<char>
    decreases e,
{
    match e {
        TypeSignalEncoding::Composite { name, attributes, .. } => serialize_attrs(
            attributes@,
            indent,
            prefix + name@,
        ),
        TypeSignalEncoding::Primitive { name, ty, signal } => match ty {
            Type::Primitive(st) => indent + bit_write_spec(
                signal.byte_offset,
                st.spec_size() as usize,
                "data"@,
                encoded_var(st, prefix + name@),
            ) + ";\n"@,
            Type::Enum { size, .. } => indent + bit_write_spec(
                signal.byte_offset,
                size as usize,
                "data"@,
                "("@ + prefix + name@ + ")"@,
            ) + ";\n"@,
            _ => Seq::empty(),
        },
    }
}

/// The statements that write `attrs` into the frame data, in order.
pub open spec fn serialize_attrs(attrs: Seq<TypeSignalEncoding>, indent: Seq<char>, prefix: Seq<char>) -> Seq<
    char,
>
    decreases attrs,
{
    if attrs.len() == 0 {
        Seq::empty()
    } else {
        serialize_attrs(attrs.drop_last(), indent, prefix) + serialize_attr(attrs.last(), indent, prefix)
    }
}

/// The statements that read an attribute from the frame data; attributes of
/// a composite are named by the composite's name, a dot, and theirs.
pub open spec fn deserialize_attr(e: TypeSignalEncoding, indent: Seq<char>, prefix: Seq<char>) -> Seq<char>
    decreases e,
{
    match e {
        TypeSignalEncoding::Composite { name, attributes, .. } => deserialize_attrs(
            attributes@,
            indent,
            prefix + name@ + "."@,
        ),
        TypeSignalEncoding::Primitive { name, ty, signal } => match ty {
            Type::Primitive(st) => indent + encoded_var(st, prefix + name@) + " = "@ + bit_access_spec(
                signal.byte_offset,
                st.spec_size() as usize,
                "data"@,
            ) + ";\n"@,
            Type::Enum { size, .. } => indent + prefix + name@ + " = "@ + bit_access_spec(
                signal.byte_offset,
                size as usize,
                "data"@,
            ) + ";\n"@,
            _ => Seq::empty(),
        },
    }
}

/// The statements that read `attrs` from the frame data, in order.
pub open spec fn deserialize_attrs(attrs: Seq<TypeSignalEncoding>, indent: Seq<char>, prefix: Seq<char>) -> Seq<
    char,
>
    decreases attrs,
{
    if attrs.len() == 0 {
        Seq::empty()
    } else {
        deserialize_attrs(attrs.drop_last(), indent, prefix) + deserialize_attr(attrs.last(), indent, prefix)
    }
}


/// An attribute whose every primitive part has a primitive or enum type.
pub open spec fn attr_supported(e: TypeSignalEncoding) -> bool
    decreases e,
{
    match e {
        TypeSignalEncoding::Composite { attributes, .. } => attrs_supported(attributes@),
        TypeSignalEncoding::Primitive { ty, .. } => ty is Primitive || ty is Enum,
    }
}

/// See [`attr_supported`].
pub open spec fn attrs_supported(attrs: Seq<TypeSignalEncoding>) -> bool
    decreases attrs,
{
    attrs.len() == 0 || (attrs_supported(attrs.drop_last()) && attr_supported(attrs.last()))
}

/// A field that [`bit_access_code`] can read.
pub open spec fn readable(bit_offset: usize, bit_size: usize) -> bool {
    fits_word(bit_offset, bit_size) || ((bit_size as u32) <= 64 && bit_offset < 64)
}

/// An attribute whose every primitive part can be read from the frame.
pub open spec fn attr_readable(e: TypeSignalEncoding) -> bool
    decreases e,
{
    match e {
        TypeSignalEncoding::Composite { attributes, .. } => attrs_readable(attributes@),
        TypeSignalEncoding::Primitive { ty, signal, .. } => match ty {
            Type::Primitive(st) => readable(signal.byte_offset, st.spec_size() as usize),
            Type::Enum { size, .. } => readable(signal.byte_offset, size as usize),
            _ => true,
        },
    }
}

/// See [`attr_readable`].
pub open spec fn attrs_readable(attrs: Seq<TypeSignalEncoding>) -> bool
    decreases attrs,
{
    attrs.len() == 0 || (attrs_readable(attrs.drop_last()) && attr_readable(attrs.last()))
}

/// See [`encoded_var`].
fn encoded_var_exec(t: &SignalType, path: &str) -> (v: String)
    ensures
        v@ == encoded_var(*t, path@),
{
    match t {
        SignalType::Decimal { offset, scale, .. } => {
            let mut v = String::new();
            v.append("(");
            v.append(path);
            v.append(" * ");
            v.append(scale.as_str());
            v.append(" + ");
            v.append(offset.as_str());
            v.append(")");
            v
        },
        _ => path.to_owned(),
    }
}

/// Appends the statements that write `attrib` into the frame data.
fn write_attribute_parse_code(serialized_def: &mut String, attrib: &TypeSignalEncoding, indent: &str, attribute_prefix: &str)
    requires
        attr_supported(*attrib),
    ensures
        final(serialized_def)@ == old(serialized_def)@ + serialize_attr(*attrib, indent@, attribute_prefix@),
    decreases attrib,
{
    match attrib {
        TypeSignalEncoding::Composite { name, attributes, .. } => {
            let attrib_prefix = concat_str(attribute_prefix, name.as_str());
            let ghost start = serialized_def@;
            let mut i: usize = 0;
            assert(attributes@.take(0) =~= Seq::<TypeSignalEncoding>::empty());
            #[verifier::loop_isolation(false)]
            while i < attributes.len()
                invariant
                    i <= attributes.len(),
                    attrs_supported(attributes@),
                    serialized_def@ == start + serialize_attrs(attributes@.take(i as int), indent@, attrib_prefix@),
                decreases attributes.len() - i,
            {
                proof {
                    lemma_attrs_supported_at(attributes@, i as int);
                }
                proof {
                    assert(decreases_to!(attributes => attributes@));
                    assert(decreases_to!(attributes@ => attributes@[i as int]));
                }
                write_attribute_parse_code(serialized_def, &attributes[i], indent, attrib_prefix.as_str());
                assert(attributes@.take(i + 1).drop_last() =~= attributes@.take(i as int));
                i = i + 1;
            }
            assert(attributes@.take(attributes.len() as int) =~= attributes@);
        },
        TypeSignalEncoding::Primitive { name, ty, signal } => {
            let path = concat_str(attribute_prefix, name.as_str());
            match ty {
                Type::Primitive(signal_type) => {
                    let var = encoded_var_exec(signal_type, path.as_str());
                    let code = bit_write_code(signal.byte_offset, signal_type.size() as usize, "data", var.as_str());
                    serialized_def.append(indent);
                    serialized_def.append(code.as_str());
                    serialized_def.append(";\n");
                },
                Type::Enum { size, .. } => {
                    let var = concat_str(concat_str("(", path.as_str()).as_str(), ")");
                    let code = bit_write_code(signal.byte_offset, *size as usize, "data", var.as_str());
                    serialized_def.append(indent);
                    serialized_def.append(code.as_str());
                    serialized_def.append(";\n");
                },
                _ => {
                    assert(false);
                },
            }
        },
    }
}

/// Appends the statements that read `attrib` from the frame data.
fn write_attribute_write_code(deserialized_def: &mut String, attrib: &TypeSignalEncoding, indent: &str, attribute_prefix: &str)
    requires
        attr_supported(*attrib),
        attr_readable(*attrib),
    ensures
        final(deserialized_def)@ == old(deserialized_def)@ + deserialize_attr(*attrib, indent@, attribute_prefix@),
    decreases attrib,
{
    match attrib {
        TypeSignalEncoding::Composite { name, attributes, .. } => {
            let attrib_prefix = concat_str(concat_str(attribute_prefix, name.as_str()).as_str(), ".");
            let ghost start = deserialized_def@;
            let mut i: usize = 0;
            assert(attributes@.take(0) =~= Seq::<TypeSignalEncoding>::empty());
            #[verifier::loop_isolation(false)]
            while i < attributes.len()
                invariant
                    i <= attributes.len(),
                    attrs_supported(attributes@),
                    attrs_readable(attributes@),
                    deserialized_def@ == start + deserialize_attrs(attributes@.take(i as int), indent@, attrib_prefix@),
                decreases attributes.len() - i,
            {
                proof {
                    lemma_attrs_supported_at(attributes@, i as int);
                    lemma_attrs_readable_at(attributes@, i as int);
                }
                proof {
                    assert(decreases_to!(attributes => attributes@));
                    assert(decreases_to!(attributes@ => attributes@[i as int]));
                }
                write_attribute_write_code(deserialized_def, &attributes[i], indent, attrib_prefix.as_str());
                assert(attributes@.take(i + 1).drop_last() =~= attributes@.take(i as int));
                i = i + 1;
            }
            assert(attributes@.take(attributes.len() as int) =~= attributes@);
        },
        TypeSignalEncoding::Primitive { name, ty, signal } => {
            let path = concat_str(attribute_prefix, name.as_str());
            match ty {
                Type::Primitive(signal_type) => {
                    let var = encoded_var_exec(signal_type, path.as_str());
                    let code = bit_access_code(signal.byte_offset, signal_type.size() as usize, "data");
                    deserialized_def.append(indent);
                    deserialized_def.append(var.as_str());
                    deserialized_def.append(" = ");
                    deserialized_def.append(code.as_str());
                    deserialized_def.append(";\n");
                },
                Type::Enum { size, .. } => {
                    let code = bit_access_code(signal.byte_offset, *size as usize, "data");
                    deserialized_def.append(indent);
                    deserialized_def.append(path.as_str());
                    deserialized_def.append(" = ");
                    deserialized_def.append(code.as_str());
                    deserialized_def.append(";\n");
                },
                _ => {
                    assert(false);
                },
            }
        },
    }
}

proof fn lemma_attrs_supported_at(attrs: Seq<TypeSignalEncoding>, i: int)
    requires
        attrs_supported(attrs),
        0 <= i < attrs.len(),
    ensures
        attr_supported(attrs[i]),
    decreases attrs.len(),
{
    if i < attrs.len() - 1 {
        lemma_attrs_supported_at(attrs.drop_last(), i);
    }
}

proof fn lemma_attrs_readable_at(attrs: Seq<TypeSignalEncoding>, i: int)
    requires
        attrs_readable(attrs),
        0 <= i < attrs.len(),
    ensures
        attr_readable(attrs[i]),
    decreases attrs.len(),
{
    if i < attrs.len() - 1 {
        lemma_attrs_readable_at(attrs.drop_last(), i);
    }
}


/// The statements that write a message's signals into the frame data.
pub open spec fn serialize_signals(signals: Seq<Signal>, indent: Seq<char>) -> Seq<char>
    decreases signals.len(),
{
    if signals.len() == 0 {
        Seq::empty()
    } else {
        let s = signals.last();
        serialize_signals(signals.drop_last(), indent) + indent + bit_write_spec(
            s.byte_offset,
            s.ty.spec_size() as usize,
            "data"@,
            encoded_var(s.ty, "msg->"@ + s.name@),
        ) + ";"@
    }
}

/// The statements that read a message's signals from the frame data.
pub open spec fn deserialize_signals(signals: Seq<Signal>, indent: Seq<char>) -> Seq<char>
    decreases signals.len(),
{
    if signals.len() == 0 {
        Seq::empty()
    } else {
        let s = signals.last();
        deserialize_signals(signals.drop_last(), indent) + indent + encoded_var(s.ty, "msg->"@ + s.name@)
            + " = "@ + bit_access_spec(s.byte_offset, s.ty.spec_size() as usize, "data"@) + ";"@
    }
}

/// The block of the function that serializes message `m` into frame data.
pub open spec fn serialize_block(m: Message, indent: Seq<char>) -> BlockView {
    let body = match m.encoding {
        Some(e) => serialize_attrs(e.attributes@, indent, "msg->"@),
        None => serialize_signals(m.signals@, indent),
    };
    block(
        BlockId::Definition("serialize_"@ + m.name@),
        "static void "@ + ("serialize_"@ + m.name@) + "("@ + m.name@ + "* msg, uint8_t* data) {\n"@ + body
            + "}\n"@,
        seq![BlockId::Definition(m.name@)],
    )
}

/// The block of the function that deserializes message `m` from frame data.
pub open spec fn deserialize_block(m: Message, indent: Seq<char>) -> BlockView {
    let body = match m.encoding {
        Some(e) => deserialize_attrs(e.attributes@, indent, "msg->"@),
        None => deserialize_signals(m.signals@, indent),
    };
    block(
        BlockId::Definition("deserialize_"@ + m.name@),
        "static void "@ + ("deserialize_"@ + m.name@) + "(uint8_t* data, "@ + m.name@ + "* msg) {\n"@
            + body + "}\n"@,
        seq![BlockId::Definition(m.name@)],
    )
}

/// The blocks of one message: its struct, its serializer if the node
/// transmits a message of its name, and its deserializer if the node
/// receives one.
pub open spec fn message_blocks(m: Message, tx: Seq<Message>, rx: Seq<Message>, indent: Seq<char>) -> Seq<BlockView> {
    seq![message_struct_block(m, indent)] + (if has_name(tx, m.name@) {
        seq![serialize_block(m, indent)]
    } else {
        Seq::empty()
    }) + (if has_name(rx, m.name@) {
        seq![deserialize_block(m, indent)]
    } else {
        Seq::empty()
    })
}

/// The blocks of `ms`, message by message.
pub open spec fn messages_blocks(ms: Seq<Message>, tx: Seq<Message>, rx: Seq<Message>, indent: Seq<char>) -> Seq<BlockView>
    decreases ms.len(),
{
    if ms.len() == 0 {
        Seq::empty()
    } else {
        messages_blocks(ms.drop_last(), tx, rx, indent) + message_blocks(ms.last(), tx, rx, indent)
    }
}

/// The struct of message `m` can be generated: no attribute of its encoding
/// is an array.
pub open spec fn struct_supported(m: Message) -> bool {
    match m.encoding {
        Some(e) => forall|i: int|
            0 <= i < e.attributes@.len() ==> !((#[trigger] e.attributes@[i]).spec_ty() is Array),
        None => true,
    }
}

/// The serializer of message `m` can be generated: each primitive part of its
/// encoding has a primitive or enum type.
pub open spec fn serialize_supported(m: Message) -> bool {
    match m.encoding {
        Some(e) => attrs_supported(e.attributes@),
        None => true,
    }
}

/// A message whose every signal can be read from the frame.
pub open spec fn message_readable(m: Message) -> bool {
    match m.encoding {
        Some(e) => attrs_readable(e.attributes@),
        None => forall|i: int|
            0 <= i < m.signals@.len() ==> readable(
                (#[trigger] m.signals@[i]).byte_offset,
                m.signals@[i].ty.spec_size() as usize,
            ),
    }
}

/// Each block of message `m` that generation reaches, from file `source`,
/// can be generated: its struct; its serializer, if the struct was added;
/// its deserializer, if the struct and serializer were added.
pub open spec fn message_reach_ok(source: FileView, m: Message, tx: Seq<Message>, rx: Seq<Message>, indent: Seq<char>) -> bool {
    let (s1, r1) = add_block_spec(source, message_struct_block(m, indent));
    let r2 = if has_name(tx, m.name@) {
        add_block_spec(s1, serialize_block(m, indent)).1
    } else {
        r1
    };
    &&& struct_supported(m)
    &&& (r1 is Ok && has_name(tx, m.name@) ==> serialize_supported(m))
    &&& (r1 is Ok && r2 is Ok && has_name(rx, m.name@) ==> serialize_supported(m) && message_readable(m))
}

/// Each message of `ms` that generation reaches, the blocks of the messages
/// before it having been added, can be generated as far as generation goes.
#[verifier::opaque]
pub open spec fn messages_reach_ok(source: FileView, ms: Seq<Message>, tx: Seq<Message>, rx: Seq<Message>, indent: Seq<char>) -> bool {
    forall|k: int|
        0 <= k < ms.len() && add_blocks_spec(source, messages_blocks(ms.take(k), tx, rx, indent)).1 is Ok
            ==> message_reach_ok(
            add_blocks_spec(source, messages_blocks(ms.take(k), tx, rx, indent)).0,
            #[trigger] ms[k],
            tx,
            rx,
            indent,
        )
}

/// Whether some message of `msgs` is named `name`.
fn has_message_named(msgs: &Vec<Message>, name: &String) -> (r: bool)
    ensures
        r == has_name(msgs@, name@),
{
    let mut i: usize = 0;
    while i < msgs.len()
        invariant
            i <= msgs.len(),
            forall|j: int| 0 <= j < i ==> msgs@[j].name@ != name@,
        decreases msgs.len() - i,
    {
        if msgs[i].name == *name {
            return true;
        }
        i = i + 1;
    }
    false
}

/// Whether some message referred to by `msgs` is named `name`.
fn has_ref_named(msgs: &Vec<&Message>, name: &String) -> (r: bool)
    ensures
        r == exists|j: int| 0 <= j < msgs@.len() && (#[trigger] msgs@[j]).name@ == name@,
{
    let mut i: usize = 0;
    while i < msgs.len()
        invariant
            i <= msgs.len(),
            forall|j: int| 0 <= j < i ==> msgs@[j].name@ != name@,
        decreases msgs.len() - i,
    {
        if msgs[i].name == *name {
            return true;
        }
        i = i + 1;
    }
    false
}

fn message_struct_exec(message: &Message, indent: &String) -> (b: SourceBlock)
    requires
        struct_supported(*message),
    ensures
        b@ == message_struct_block(*message, indent@),
{
    let mut dependencies: Vec<SourceBlockIdentifier> = Vec::new();
    let mut type_def = String::new();
    type_def.append("typedef struct {\n");
    let ghost head = type_def@;
    assert(ids_view(dependencies@) =~= Seq::<BlockId>::empty());
    match &message.encoding {
        Some(encoding) => {
            let attrs = &encoding.attributes;
            let mut i: usize = 0;
            assert(attrs@.take(0) =~= Seq::<TypeSignalEncoding>::empty());
            while i < attrs.len()
                invariant
                    i <= attrs.len(),
                    forall|k: int| 0 <= k < attrs@.len() ==> !((#[trigger] attrs@[k]).spec_ty() is Array),
                    type_def@ == head + encoding_fields(attrs@.take(i as int), indent@),
                    ids_view(dependencies@) == encoding_deps(attrs@.take(i as int)),
                decreases attrs.len() - i,
            {
                assert(!(attrs@[i as int].spec_ty() is Array));
                let (attrib_type_name, dep) = to_c_type_name(attrs[i].ty());
                match dep {
                    Some(dep) => push_new_dependency(&mut dependencies, dep),
                    None => {},
                }
                type_def.append(indent.as_str());
                type_def.append(attrib_type_name);
                type_def.append(" ");
                type_def.append(attrs[i].name());
                type_def.append(";\n");
                assert(attrs@.take(i + 1).drop_last() =~= attrs@.take(i as int));
                i = i + 1;
            }
            assert(attrs@.take(attrs.len() as int) =~= attrs@);
        },
        None => {
            let signals = &message.signals;
            let mut i: usize = 0;
            assert(signals@.take(0) =~= Seq::<Signal>::empty());
            while i < signals.len()
                invariant
                    i <= signals.len(),
                    type_def@ == head + signal_fields(signals@.take(i as int), indent@),
                    ids_view(dependencies@) == signal_deps(signals@.take(i as int)),
                decreases signals.len() - i,
            {
                let (signal_type_name, dep) = signal_type_to_c_type(&signals[i].ty);
                match dep {
                    Some(dep) => push_new_dependency(&mut dependencies, dep),
                    None => {},
                }
                type_def.append(indent.as_str());
                type_def.append(signal_type_name);
                type_def.append(" ");
                type_def.append(signals[i].name.as_str());
                type_def.append(";\n");
                assert(signals@.take(i + 1).drop_last() =~= signals@.take(i as int));
                i = i + 1;
            }
            assert(signals@.take(signals.len() as int) =~= signals@);
        },
    }
    type_def.append("} ");
    type_def.append(message.name.as_str());
    type_def.append(";\n");
    SourceBlock::new(SourceBlockIdentifier::Definition(message.name.clone()), type_def, dependencies)
}

fn serialize_exec(message: &Message, indent: &String) -> (b: SourceBlock)
    requires
        serialize_supported(*message),
    ensures
        b@ == serialize_block(*message, indent@),
{
    let serialize_func_name = concat_str("serialize_", message.name.as_str());
    let mut serialize_def = String::new();
    serialize_def.append("static void ");
    serialize_def.append(serialize_func_name.as_str());
    serialize_def.append("(");
    serialize_def.append(message.name.as_str());
    serialize_def.append("* msg, uint8_t* data) {\n");
    let ghost head = serialize_def@;
    match &message.encoding {
        Some(encoding) => {
            let attrs = &encoding.attributes;
            let mut i: usize = 0;
            assert(attrs@.take(0) =~= Seq::<TypeSignalEncoding>::empty());
            while i < attrs.len()
                invariant
                    i <= attrs.len(),
                    attrs_supported(attrs@),
                    serialize_def@ == head + serialize_attrs(attrs@.take(i as int), indent@, "msg->"@),
                decreases attrs.len() - i,
            {
                proof {
                    lemma_attrs_supported_at(attrs@, i as int);
                }
                write_attribute_parse_code(&mut serialize_def, &attrs[i], indent.as_str(), "msg->");
                assert(attrs@.take(i + 1).drop_last() =~= attrs@.take(i as int));
                i = i + 1;
            }
            assert(attrs@.take(attrs.len() as int) =~= attrs@);
        },
        None => {
            let signals = &message.signals;
            let mut i: usize = 0;
            assert(signals@.take(0) =~= Seq::<Signal>::empty());
            while i < signals.len()
                invariant
                    i <= signals.len(),
                    serialize_def@ == head + serialize_signals(signals@.take(i as int), indent@),
                decreases signals.len() - i,
            {
                let path = concat_str("msg->", signals[i].name.as_str());
                let var = encoded_var_exec(&signals[i].ty, path.as_str());
                let code = bit_write_code(signals[i].byte_offset, signals[i].ty.size() as usize, "data", var.as_str());
                serialize_def.append(indent.as_str());
                serialize_def.append(code.as_str());
                serialize_def.append(";");
                assert(signals@.take(i + 1).drop_last() =~= signals@.take(i as int));
                i = i + 1;
            }
            assert(signals@.take(signals.len() as int) =~= signals@);
        },
    }
    serialize_def.append("}\n");
    let mut deps: Vec<SourceBlockIdentifier> = Vec::new();
    deps.push(SourceBlockIdentifier::Definition(message.name.clone()));
    assert(ids_view(deps@) =~= seq![BlockId::Definition(message.name@)]);
    SourceBlock::new(SourceBlockIdentifier::Definition(serialize_func_name), serialize_def, deps)
}

fn deserialize_exec(message: &Message, indent: &String) -> (b: SourceBlock)
    requires
        serialize_supported(*message),
        message_readable(*message),
    ensures
        b@ == deserialize_block(*message, indent@),
{
    let deserialize_func_name = concat_str("deserialize_", message.name.as_str());
    let mut deserialize_def = String::new();
    deserialize_def.append("static void ");
    deserialize_def.append(deserialize_func_name.as_str());
    deserialize_def.append("(uint8_t* data, ");
    deserialize_def.append(message.name.as_str());
    deserialize_def.append("* msg) {\n");
    let ghost head = deserialize_def@;
    match &message.encoding {
        Some(encoding) => {
            let attrs = &encoding.attributes;
            let mut i: usize = 0;
            assert(attrs@.take(0) =~= Seq::<TypeSignalEncoding>::empty());
            while i < attrs.len()
                invariant
                    i <= attrs.len(),
                    attrs_supported(attrs@),
                    attrs_readable(attrs@),
                    deserialize_def@ == head + deserialize_attrs(attrs@.take(i as int), indent@, "msg->"@),
                decreases attrs.len() - i,
            {
                proof {
                    lemma_attrs_supported_at(attrs@, i as int);
                    lemma_attrs_readable_at(attrs@, i as int);
                }
                write_attribute_write_code(&mut deserialize_def, &attrs[i], indent.as_str(), "msg->");
                assert(attrs@.take(i + 1).drop_last() =~= attrs@.take(i as int));
                i = i + 1;
            }
            assert(attrs@.take(attrs.len() as int) =~= attrs@);
        },
        None => {
            let signals = &message.signals;
            let mut i: usize = 0;
            assert(signals@.take(0) =~= Seq::<Signal>::empty());
            while i < signals.len()
                invariant
                    i <= signals.len(),
                    forall|k: int|
                        0 <= k < signals@.len() ==> readable(
                            (#[trigger] signals@[k]).byte_offset,
                            signals@[k].ty.spec_size() as usize,
                        ),
                    deserialize_def@ == head + deserialize_signals(signals@.take(i as int), indent@),
                decreases signals.len() - i,
            {
                let path = concat_str("msg->", signals[i].name.as_str());
                let var = encoded_var_exec(&signals[i].ty, path.as_str());
                assert(readable(signals@[i as int].byte_offset, signals@[i as int].ty.spec_size() as usize));
                let code = bit_access_code(signals[i].byte_offset, signals[i].ty.size() as usize, "data");
                deserialize_def.append(indent.as_str());
                deserialize_def.append(var.as_str());
                deserialize_def.append(" = ");
                deserialize_def.append(code.as_str());
                deserialize_def.append(";");
                assert(signals@.take(i + 1).drop_last() =~= signals@.take(i as int));
                i = i + 1;
            }
            assert(signals@.take(signals.len() as int) =~= signals@);
        },
    }
    deserialize_def.append("}\n");
    let mut deps: Vec<SourceBlockIdentifier> = Vec::new();
    deps.push(SourceBlockIdentifier::Definition(message.name.clone()));
    assert(ids_view(deps@) =~= seq![BlockId::Definition(message.name@)]);
    SourceBlock::new(SourceBlockIdentifier::Definition(deserialize_func_name), deserialize_def, deps)
}

/// The blocks of `ms` begin with the blocks of its first `k` messages.
proof fn lemma_messages_blocks_prefix(ms: Seq<Message>, k: int, tx: Seq<Message>, rx: Seq<Message>, indent: Seq<char>) -> (tail:
    Seq<BlockView>)
    requires
        0 <= k <= ms.len(),
    ensures
        messages_blocks(ms, tx, rx, indent) == messages_blocks(ms.take(k), tx, rx, indent) + tail,
    decreases ms.len(),
{
    if k == ms.len() {
        assert(ms.take(k) =~= ms);
        assert(messages_blocks(ms, tx, rx, indent) + Seq::empty() =~= messages_blocks(ms, tx, rx, indent));
        Seq::empty()
    } else {
        let t = lemma_messages_blocks_prefix(ms.drop_last(), k, tx, rx, indent);
        assert(ms.drop_last().take(k) =~= ms.take(k));
        let tail = t + message_blocks(ms.last(), tx, rx, indent);
        assert(messages_blocks(ms, tx, rx, indent) =~= messages_blocks(ms.take(k), tx, rx, indent) + tail);
        tail
    }
}

proof fn lemma_messages_step(s0: FileView, ms: Seq<Message>, k: int, tx: Seq<Message>, rx: Seq<Message>, indent: Seq<char>)
    requires
        0 <= k < ms.len(),
        add_blocks_spec(s0, messages_blocks(ms.take(k), tx, rx, indent)).1 is Ok,
    ensures
        add_blocks_spec(s0, messages_blocks(ms.take(k + 1), tx, rx, indent)) == add_blocks_spec(
            add_blocks_spec(s0, messages_blocks(ms.take(k), tx, rx, indent)).0,
            message_blocks(ms[k], tx, rx, indent),
        ),
        add_blocks_spec(s0, messages_blocks(ms.take(k + 1), tx, rx, indent)).1 is Err ==> add_blocks_spec(
            s0,
            messages_blocks(ms, tx, rx, indent),
        ) == add_blocks_spec(s0, messages_blocks(ms.take(k + 1), tx, rx, indent)),
{
    assert(ms.take(k + 1).drop_last() =~= ms.take(k));
    let pre = messages_blocks(ms.take(k), tx, rx, indent);
    let one = message_blocks(ms[k], tx, rx, indent);
    assert(messages_blocks(ms.take(k + 1), tx, rx, indent) == pre + one);
    lemma_add_blocks_concat(s0, pre, one);
    let tail = lemma_messages_blocks_prefix(ms, k + 1, tx, rx, indent);
    lemma_add_blocks_concat(s0, messages_blocks(ms.take(k + 1), tx, rx, indent), tail);
}

/// The messages the node handles (see [`unique_messages`]), by reference.
fn unique_message_refs<'a>(tx_messages: &'a Vec<Message>, rx_messages: &'a Vec<Message>) -> (unique_set: Vec<&'a Message>)
    ensures
        unique_set@.len() == unique_messages(tx_messages@, rx_messages@).len(),
        forall|q: int| 0 <= q < unique_set@.len() ==> *unique_set@[q] == unique_messages(tx_messages@, rx_messages@)[q],
{
    let ghost tx = tx_messages@;
    let ghost rx = rx_messages@;
    let mut unique_set: Vec<&Message> = Vec::new();
    let mut i: usize = 0;
    while i < tx_messages.len()
        invariant
            i <= tx_messages.len(),
            tx == tx_messages@,
            unique_set@.len() == i,
            forall|k: int| 0 <= k < i ==> *unique_set@[k] == tx[k],
        decreases tx_messages.len() - i,
    {
        unique_set.push(&tx_messages[i]);
        i = i + 1;
    }
    let mut j: usize = 0;
    assert(rx.take(0) =~= Seq::<Message>::empty());
    while j < rx_messages.len()
        invariant
            j <= rx_messages.len(),
            tx == tx_messages@,
            rx == rx_messages@,
            unique_set@.len() == add_unique(tx, rx.take(j as int)).len(),
            forall|k: int| 0 <= k < unique_set@.len() ==> *unique_set@[k] == add_unique(tx, rx.take(j as int))[k],
        decreases rx_messages.len() - j,
    {
        let ghost a = add_unique(tx, rx.take(j as int));
        assert(rx.take(j + 1).drop_last() =~= rx.take(j as int));
        assert(rx.take(j + 1).last() == rx[j as int]);
        let present = has_ref_named(&unique_set, &rx_messages[j].name);
        assert(present == has_name(a, rx[j as int].name@)) by {
            if present {
                let w = choose|q: int| 0 <= q < unique_set@.len() && (#[trigger] unique_set@[q]).name@ == rx[j as int].name@;
                assert(a[w] == *unique_set@[w]);
            }
            if has_name(a, rx[j as int].name@) {
                let w = choose|q: int| 0 <= q < a.len() && (#[trigger] a[q]).name@ == rx[j as int].name@;
                assert(a[w] == *unique_set@[w]);
            }
        }
        if !present {
            unique_set.push(&rx_messages[j]);
        }
        j = j + 1;
    }
    assert(rx.take(rx.len() as int) =~= rx);
    unique_set
}

/// Adds the struct of `message` to `source`, then its serializer if the node
/// transmits a message of its name, then its deserializer if the node
/// receives one, stopping at the first block refused.
fn add_message(
    source: &mut FileBuffer,
    message: &Message,
    tx_messages: &Vec<Message>,
    rx_messages: &Vec<Message>,
    indent: &String,
) -> (r: Result<(), Error>)
    requires
        message_reach_ok(old(source)@, *message, tx_messages@, rx_messages@, indent@),
    ensures
        (final(source)@, r) == add_blocks_spec(old(source)@, message_blocks(*message, tx_messages@, rx_messages@, indent@)),
{
    let ghost tx = tx_messages@;
    let ghost rx = rx_messages@;
    let ghost ind = indent@;
    let ghost m = *message;
    let ghost s0 = source@;
    let ghost sb = seq![message_struct_block(m, ind)];
    let ghost ser: Seq<BlockView> = if has_name(tx, m.name@) {
        seq![serialize_block(m, ind)]
    } else {
        Seq::empty()
    };
    let ghost de: Seq<BlockView> = if has_name(rx, m.name@) {
        seq![deserialize_block(m, ind)]
    } else {
        Seq::empty()
    };
    proof {
        assert(message_blocks(m, tx, rx, ind) == sb + ser + de);
        lemma_add_blocks_concat(s0, sb + ser, de);
        lemma_add_blocks_concat(s0, sb, ser);
        lemma_add_blocks_single(s0, message_struct_block(m, ind));
    }
    let r = source.add_block(message_struct_exec(message, indent));
    if r.is_err() {
        return r;
    }
    proof {
        lemma_ok_is_unit(r);
    }
    let ghost s1 = source@;
    if has_message_named(tx_messages, &message.name) {
        proof {
            lemma_add_blocks_single(s1, serialize_block(m, ind));
        }
        let r2 = source.add_block(serialize_exec(message, indent));
        if r2.is_err() {
            return r2;
        }
        proof {
            lemma_ok_is_unit(r2);
        }
    } else {
        assert(add_blocks_spec(s1, ser) == (s1, Ok::<(), Error>(())));
    }
    let ghost s2 = source@;
    if has_message_named(rx_messages, &message.name) {
        proof {
            lemma_add_blocks_single(s2, deserialize_block(m, ind));
        }
        let r3 = source.add_block(deserialize_exec(message, indent));
        if r3.is_err() {
            return r3;
        }
        proof {
            lemma_ok_is_unit(r3);
        }
    } else {
        assert(add_blocks_spec(s2, de) == (s2, Ok::<(), Error>(())));
    }
    Ok(())
}

/// Adds to `source`, for each message the node handles (see
/// [`unique_messages`]), its struct, serializer and deserializer, stopping
/// at the first block refused.
pub fn generate_messages(
    tx_messages: &Vec<Message>,
    rx_messages: &Vec<Message>,
    header: &mut FileBuffer,
    source: &mut FileBuffer,
    options: &Options,
) -> (r: Result<(), Error>)
    requires
        messages_reach_ok(
            old(source)@,
            unique_messages(tx_messages@, rx_messages@),
            tx_messages@,
            rx_messages@,
            spaces(options@.indent),
        ),
    ensures
        (final(source)@, r) == add_blocks_spec(
            old(source)@,
            messages_blocks(
                unique_messages(tx_messages@, rx_messages@),
                tx_messages@,
                rx_messages@,
                spaces(options@.indent),
            ),
        ),
        final(header)@ == old(header)@,
        old(source)@.wf() ==> final(source)@.wf(),
{
    let indent = spaces_string(options.indent());
    let ghost tx = tx_messages@;
    let ghost rx = rx_messages@;
    let unique_set = unique_message_refs(tx_messages, rx_messages);
    let ghost unique = unique_messages(tx, rx);
    let ghost s0 = source@;
    let ghost ind = indent@;
    proof {
        law_add_blocks_keeps_file(s0, messages_blocks(unique, tx, rx, ind));
        assert(unique.take(0) =~= Seq::<Message>::empty());
    }
    let mut k: usize = 0;
    while k < unique_set.len()
        invariant
            k <= unique_set.len(),
            unique_set@.len() == unique.len(),
            unique == unique_messages(tx, rx),
            tx == tx_messages@,
            rx == rx_messages@,
            s0 == old(source)@,
            ind == indent@,
            ind == spaces(options@.indent),
            *header == *old(header),
            messages_reach_ok(s0, unique, tx, rx, ind),
            forall|q: int| 0 <= q < unique_set@.len() ==> *unique_set@[q] == unique[q],
            source@ == add_blocks_spec(s0, messages_blocks(unique.take(k as int), tx, rx, ind)).0,
            add_blocks_spec(s0, messages_blocks(unique.take(k as int), tx, rx, ind)).1 == Ok::<(), Error>(()),
            s0.wf() ==> add_blocks_spec(s0, messages_blocks(unique, tx, rx, ind)).0.wf(),
        decreases unique_set.len() - k,
    {
        let message = unique_set[k];
        assert(*message == unique[k as int]);
        proof {
            reveal(messages_reach_ok);
            assert(message_reach_ok(source@, unique[k as int], tx, rx, ind));
        }
        let r = add_message(source, message, tx_messages, rx_messages, &indent);
        proof {
            lemma_messages_step(s0, unique, k as int, tx, rx, ind);
        }
        if r.is_err() {
            return r;
        }
        proof {
            lemma_ok_is_unit(r);
        }
        k = k + 1;
    }
    assert(unique.take(unique.len() as int) =~= unique);
    Ok(())
}

/// No two messages of `ms` share a name.
pub open spec fn names_distinct(ms: Seq<Message>) -> bool {
    forall|i: int, j: int| 0 <= i < j < ms.len() ==> (#[trigger] ms[i]).name@ != (#[trigger] ms[j]).name@
}

/// The messages a node handles start with its transmitted messages; they
/// carry the name of every received message; each of them is transmitted or
/// received; and they repeat no name the transmitted messages do not.
pub proof fn law_unique_messages(tx: Seq<Message>, rx: Seq<Message>)
    ensures
        tx.is_prefix_of(unique_messages(tx, rx)),
        forall|i: int| 0 <= i < rx.len() ==> has_name(unique_messages(tx, rx), (#[trigger] rx[i]).name@),
        forall|i: int|
            0 <= i < unique_messages(tx, rx).len() ==> tx.contains(#[trigger] unique_messages(tx, rx)[i]) || rx.contains(
                unique_messages(tx, rx)[i],
            ),
        names_distinct(tx) ==> names_distinct(unique_messages(tx, rx)),
    decreases rx.len(),
{
    if rx.len() > 0 {
        law_unique_messages(tx, rx.drop_last());
        let a = add_unique(tx, rx.drop_last());
        let u = unique_messages(tx, rx);
        let m = rx.last();
        assert(a.is_prefix_of(u));
        assert forall|i: int| 0 <= i < rx.len() implies has_name(u, (#[trigger] rx[i]).name@) by {
            if i < rx.len() - 1 {
                assert(rx.drop_last()[i] == rx[i]);
                assert(has_name(a, rx[i].name@));
                let k = choose|k: int| 0 <= k < a.len() && (#[trigger] a[k]).name@ == rx[i].name@;
                assert(u[k] == a[k]);
            } else if !has_name(a, m.name@) {
                assert(u[a.len() as int] == m);
            } else {
                let k = choose|k: int| 0 <= k < a.len() && (#[trigger] a[k]).name@ == m.name@;
                assert(u[k] == a[k]);
            }
        }
        assert forall|i: int| 0 <= i < u.len() implies tx.contains(#[trigger] u[i]) || rx.contains(u[i]) by {
            if i < a.len() {
                assert(u[i] == a[i]);
                if rx.drop_last().contains(a[i]) {
                    let k = choose|k: int| 0 <= k < rx.drop_last().len() && rx.drop_last()[k] == a[i];
                    assert(rx[k] == a[i]);
                }
            } else {
                assert(u[i] == rx[rx.len() - 1]);
            }
        }
        if names_distinct(tx) && !has_name(a, m.name@) {
            assert forall|i: int, j: int| 0 <= i < j < u.len() implies (#[trigger] u[i]).name@ != (#[trigger] u[j]).name@ by {
                if j == a.len() {
                    assert(u[i] == a[i]);
                } else {
                    assert(u[i] == a[i]);
                    assert(u[j] == a[j]);
                }
            }
        }
    } else {
        assert forall|i: int| 0 <= i < tx.len() implies tx.contains(#[trigger] tx[i]) by {}
    }
}

/// Whether each primitive part of `e` has a primitive or enum type.
fn attr_supported_exec(e: &TypeSignalEncoding) -> (b: bool)
    ensures
        b == attr_supported(*e),
    decreases e,
{
    match e {
        TypeSignalEncoding::Composite { attributes, .. } => {
            let mut ok = true;
            let mut i: usize = 0;
            assert(attributes@.take(0) =~= Seq::<TypeSignalEncoding>::empty());
            #[verifier::loop_isolation(false)]
            while i < attributes.len()
                invariant
                    i <= attributes.len(),
                    ok == attrs_supported(attributes@.take(i as int)),
                decreases attributes.len() - i,
            {
                proof {
                    assert(decreases_to!(attributes => attributes@));
                    assert(decreases_to!(attributes@ => attributes@[i as int]));
                }
                let here = attr_supported_exec(&attributes[i]);
                assert(attributes@.take(i + 1).drop_last() =~= attributes@.take(i as int));
                ok = ok && here;
                i = i + 1;
            }
            assert(attributes@.take(attributes.len() as int) =~= attributes@);
            ok
        },
        TypeSignalEncoding::Primitive { ty, .. } => match ty {
            Type::Primitive(_) => true,
            Type::Enum { .. } => true,
            _ => false,
        },
    }
}

/// Whether [`bit_access_code`] can read `bit_size` bits at `bit_offset`.
fn readable_exec(bit_offset: usize, bit_size: usize) -> (b: bool)
    ensures
        b == readable(bit_offset, bit_size),
{
    (bit_size <= 32 && bit_size + bit_offset % 32 <= 32) || ((bit_size as u32) <= 64 && bit_offset < 64)
}

/// Whether every primitive part of `e` can be read from the frame.
fn attr_readable_exec(e: &TypeSignalEncoding) -> (b: bool)
    ensures
        b == attr_readable(*e),
    decreases e,
{
    match e {
        TypeSignalEncoding::Composite { attributes, .. } => {
            let mut ok = true;
            let mut i: usize = 0;
            assert(attributes@.take(0) =~= Seq::<TypeSignalEncoding>::empty());
            #[verifier::loop_isolation(false)]
            while i < attributes.len()
                invariant
                    i <= attributes.len(),
                    ok == attrs_readable(attributes@.take(i as int)),
                decreases attributes.len() - i,
            {
                proof {
                    assert(decreases_to!(attributes => attributes@));
                    assert(decreases_to!(attributes@ => attributes@[i as int]));
                }
                let here = attr_readable_exec(&attributes[i]);
                assert(attributes@.take(i + 1).drop_last() =~= attributes@.take(i as int));
                ok = ok && here;
                i = i + 1;
            }
            assert(attributes@.take(attributes.len() as int) =~= attributes@);
            ok
        },
        TypeSignalEncoding::Primitive { ty, signal, .. } => match ty {
            Type::Primitive(st) => readable_exec(signal.byte_offset, st.size() as usize),
            Type::Enum { size, .. } => readable_exec(signal.byte_offset, *size as usize),
            _ => true,
        },
    }
}

/// Whether the struct of `m` can be generated.
fn struct_supported_exec(m: &Message) -> (b: bool)
    ensures
        b == struct_supported(*m),
{
    match &m.encoding {
        Some(e) => {
            let attrs = &e.attributes;
            let mut i: usize = 0;
            #[verifier::loop_isolation(false)]
            while i < attrs.len()
                invariant
                    i <= attrs.len(),
                    forall|k: int| 0 <= k < i ==> !((#[trigger] attrs@[k]).spec_ty() is Array),
                decreases attrs.len() - i,
            {
                match attrs[i].ty() {
                    Type::Array { .. } => {
                        assert(attrs@[i as int].spec_ty() is Array);
                        return false;
                    },
                    _ => {},
                }
                i = i + 1;
            }
            true
        },
        None => true,
    }
}

/// Whether the serializer of `m` can be generated.
fn serialize_supported_exec(m: &Message) -> (b: bool)
    ensures
        b == serialize_supported(*m),
{
    match &m.encoding {
        Some(e) => {
            let attrs = &e.attributes;
            let mut ok = true;
            let mut i: usize = 0;
            assert(attrs@.take(0) =~= Seq::<TypeSignalEncoding>::empty());
            #[verifier::loop_isolation(false)]
            while i < attrs.len()
                invariant
                    i <= attrs.len(),
                    ok == attrs_supported(attrs@.take(i as int)),
                decreases attrs.len() - i,
            {
                let here = attr_supported_exec(&attrs[i]);
                assert(attrs@.take(i + 1).drop_last() =~= attrs@.take(i as int));
                ok = ok && here;
                i = i + 1;
            }
            assert(attrs@.take(attrs.len() as int) =~= attrs@);
            ok
        },
        None => true,
    }
}

/// Whether every signal of `m` can be read from the frame.
fn message_readable_exec(m: &Message) -> (b: bool)
    ensures
        b == message_readable(*m),
{
    match &m.encoding {
        Some(e) => {
            let attrs = &e.attributes;
            let mut ok = true;
            let mut i: usize = 0;
            assert(attrs@.take(0) =~= Seq::<TypeSignalEncoding>::empty());
            #[verifier::loop_isolation(false)]
            while i < attrs.len()
                invariant
                    i <= attrs.len(),
                    ok == attrs_readable(attrs@.take(i as int)),
                decreases attrs.len() - i,
            {
                let here = attr_readable_exec(&attrs[i]);
                assert(attrs@.take(i + 1).drop_last() =~= attrs@.take(i as int));
                ok = ok && here;
                i = i + 1;
            }
            assert(attrs@.take(attrs.len() as int) =~= attrs@);
            ok
        },
        None => {
            let signals = &m.signals;
            let mut i: usize = 0;
            #[verifier::loop_isolation(false)]
            while i < signals.len()
                invariant
                    i <= signals.len(),
                    forall|k: int|
                        0 <= k < i ==> readable(
                            (#[trigger] signals@[k]).byte_offset,
                            signals@[k].ty.spec_size() as usize,
                        ),
                decreases signals.len() - i,
            {
                if !readable_exec(signals[i].byte_offset, signals[i].ty.size() as usize) {
                    return false;
                }
                i = i + 1;
            }
            true
        },
    }
}

/// Adds the blocks of `message` as [`add_message`] does, checking each block
/// before it is built: `None` where a block that is reached cannot be
/// generated, else the outcome of adding them.
fn message_check(
    source: &mut FileBuffer,
    message: &Message,
    tx_messages: &Vec<Message>,
    rx_messages: &Vec<Message>,
    indent: &String,
) -> (res: Option<Result<(), Error>>)
    ensures
        res is None <==> !message_reach_ok(old(source)@, *message, tx_messages@, rx_messages@, indent@),
        res matches Some(r) ==> (final(source)@, r) == add_blocks_spec(
            old(source)@,
            message_blocks(*message, tx_messages@, rx_messages@, indent@),
        ),
{
    let ghost tx = tx_messages@;
    let ghost rx = rx_messages@;
    let ghost ind = indent@;
    let ghost m = *message;
    let ghost s0 = source@;
    let ghost sb = seq![message_struct_block(m, ind)];
    let ghost ser: Seq<BlockView> = if has_name(tx, m.name@) {
        seq![serialize_block(m, ind)]
    } else {
        Seq::empty()
    };
    let ghost de: Seq<BlockView> = if has_name(rx, m.name@) {
        seq![deserialize_block(m, ind)]
    } else {
        Seq::empty()
    };
    proof {
        assert(message_blocks(m, tx, rx, ind) == sb + ser + de);
        lemma_add_blocks_concat(s0, sb + ser, de);
        lemma_add_blocks_concat(s0, sb, ser);
        lemma_add_blocks_single(s0, message_struct_block(m, ind));
    }
    if !struct_supported_exec(message) {
        return None;
    }
    let r = source.add_block(message_struct_exec(message, indent));
    if r.is_err() {
        return Some(r);
    }
    proof {
        lemma_ok_is_unit(r);
    }
    let ghost s1 = source@;
    let in_tx = has_message_named(tx_messages, &message.name);
    if in_tx {
        if !serialize_supported_exec(message) {
            return None;
        }
        proof {
            lemma_add_blocks_single(s1, serialize_block(m, ind));
        }
        let r2 = source.add_block(serialize_exec(message, indent));
        if r2.is_err() {
            return Some(r2);
        }
        proof {
            lemma_ok_is_unit(r2);
        }
    } else {
        assert(add_blocks_spec(s1, ser) == (s1, Ok::<(), Error>(())));
    }
    let ghost s2 = source@;
    if has_message_named(rx_messages, &message.name) {
        if !(serialize_supported_exec(message) && message_readable_exec(message)) {
            return None;
        }
        proof {
            lemma_add_blocks_single(s2, deserialize_block(m, ind));
        }
        let r3 = source.add_block(deserialize_exec(message, indent));
        if r3.is_err() {
            return Some(r3);
        }
        proof {
            lemma_ok_is_unit(r3);
        }
    } else {
        assert(add_blocks_spec(s2, de) == (s2, Ok::<(), Error>(())));
    }
    Some(Ok(()))
}

/// Once the blocks of the first `k + 1` messages are refused, the blocks of
/// more messages are refused the same way.
proof fn lemma_messages_stay_refused(
    s0: FileView,
    ms: Seq<Message>,
    k: int,
    j: int,
    tx: Seq<Message>,
    rx: Seq<Message>,
    ind: Seq<char>,
)
    requires
        0 <= k < j <= ms.len(),
        add_blocks_spec(s0, messages_blocks(ms.take(k + 1), tx, rx, ind)).1 is Err,
    ensures
        add_blocks_spec(s0, messages_blocks(ms.take(j), tx, rx, ind)) == add_blocks_spec(
            s0,
            messages_blocks(ms.take(k + 1), tx, rx, ind),
        ),
{
    let tail = lemma_messages_blocks_prefix(ms.take(j), k + 1, tx, rx, ind);
    assert(ms.take(j).take(k + 1) =~= ms.take(k + 1));
    lemma_add_blocks_concat(s0, messages_blocks(ms.take(k + 1), tx, rx, ind), tail);
}

/// Adds the message blocks as [`generate_messages`] does, checking each
/// block before it is built: `None` where a block that is reached cannot be
/// generated, else the outcome of adding them.
pub fn messages_check(
    tx_messages: &Vec<Message>,
    rx_messages: &Vec<Message>,
    source: &mut FileBuffer,
    indent: &String,
) -> (res: Option<Result<(), Error>>)
    ensures
        res is None <==> !messages_reach_ok(
            old(source)@,
            unique_messages(tx_messages@, rx_messages@),
            tx_messages@,
            rx_messages@,
            indent@,
        ),
        res matches Some(r) ==> (final(source)@, r) == add_blocks_spec(
            old(source)@,
            messages_blocks(unique_messages(tx_messages@, rx_messages@), tx_messages@, rx_messages@, indent@),
        ),
{
    let ghost tx = tx_messages@;
    let ghost rx = rx_messages@;
    let ghost unique = unique_messages(tx, rx);
    let ghost s0 = source@;
    let ghost ind = indent@;
    let unique_set = unique_message_refs(tx_messages, rx_messages);
    assert(unique.take(0) =~= Seq::<Message>::empty());
    let mut k: usize = 0;
    while k < unique_set.len()
        invariant
            k <= unique_set.len(),
            unique_set@.len() == unique.len(),
            unique == unique_messages(tx, rx),
            tx == tx_messages@,
            rx == rx_messages@,
            s0 == old(source)@,
            ind == indent@,
            forall|q: int| 0 <= q < unique_set@.len() ==> *unique_set@[q] == unique[q],
            forall|q: int|
                0 <= q < k ==> message_reach_ok(
                    add_blocks_spec(s0, messages_blocks(unique.take(q), tx, rx, ind)).0,
                    #[trigger] unique[q],
                    tx,
                    rx,
                    ind,
                ),
            source@ == add_blocks_spec(s0, messages_blocks(unique.take(k as int), tx, rx, ind)).0,
            add_blocks_spec(s0, messages_blocks(unique.take(k as int), tx, rx, ind)).1 == Ok::<(), Error>(()),
        decreases unique_set.len() - k,
    {
        let message = unique_set[k];
        assert(*message == unique[k as int]);
        let res = message_check(source, message, tx_messages, rx_messages, indent);
        match res {
            None => {
                assert(!messages_reach_ok(s0, unique, tx, rx, ind)) by {
                    reveal(messages_reach_ok);
                    assert(!message_reach_ok(
                        add_blocks_spec(s0, messages_blocks(unique.take(k as int), tx, rx, ind)).0,
                        unique[k as int],
                        tx,
                        rx,
                        ind,
                    ));
                }
                return None;
            },
            Some(r) => {
                proof {
                    lemma_messages_step(s0, unique, k as int, tx, rx, ind);
                }
                if r.is_err() {
                    assert(messages_reach_ok(s0, unique, tx, rx, ind)) by {
                        reveal(messages_reach_ok);
                        assert forall|q: int|
                            0 <= q < unique.len() && add_blocks_spec(s0, messages_blocks(unique.take(q), tx, rx, ind)).1 is Ok
                                implies message_reach_ok(
                            add_blocks_spec(s0, messages_blocks(unique.take(q), tx, rx, ind)).0,
                            #[trigger] unique[q],
                            tx,
                            rx,
                            ind,
                        ) by {
                            if q > k {
                                lemma_messages_stay_refused(s0, unique, k as int, q, tx, rx, ind);
                            }
                        }
                    }
                    return Some(r);
                }
                proof {
                    lemma_ok_is_unit(r);
                }
            },
        }
        k = k + 1;
    }
    assert(unique.take(unique.len() as int) =~= unique);
    assert(messages_reach_ok(s0, unique, tx, rx, ind)) by {
        reveal(messages_reach_ok);
    }
    Some(Ok(()))
}

/// In a serializer, a decimal attribute of a message's type encoding is
/// written as its scaled and offset value, `(path * scale + offset)`.
pub proof fn law_serialize_decimal_attribute(
    name: String,
    signal: Signal,
    size: u8,
    offset: String,
    scale: String,
    indent: Seq<char>,
    prefix: Seq<char>,
)
    ensures
        serialize_attr(
            TypeSignalEncoding::Primitive {
                name,
                ty: Type::Primitive(SignalType::Decimal { size, offset, scale }),
                signal,
            },
            indent,
            prefix,
        ) == indent + bit_write_spec(
            signal.byte_offset,
            size as usize,
            "data"@,
            "("@ + prefix + name@ + " * "@ + scale@ + " + "@ + offset@ + ")"@,
        ) + ";\n"@,
{
}

/// A primitive attribute of a message's type encoding is written exactly as
/// a signal of the same name, type and offset of a message without
/// encoding, one statement per line.
pub proof fn law_attribute_written_as_signal(name: String, st: SignalType, signal: Signal, indent: Seq<char>)
    ensures
        serialize_attrs(
            seq![TypeSignalEncoding::Primitive { name, ty: Type::Primitive(st), signal }],
            indent,
            "msg->"@,
        ) == serialize_signals(seq![Signal { name, ty: st, byte_offset: signal.byte_offset }], indent) + "\n"@,
{
    let a = seq![TypeSignalEncoding::Primitive { name, ty: Type::Primitive(st), signal }];
    let g = seq![Signal { name, ty: st, byte_offset: signal.byte_offset }];
    assert(a.drop_last() =~= Seq::<TypeSignalEncoding>::empty());
    assert(g.drop_last() =~= Seq::<Signal>::empty());
    let code = bit_write_spec(signal.byte_offset, st.spec_size() as usize, "data"@, encoded_var(st, "msg->"@ + name@));
    assert(a.last() == TypeSignalEncoding::Primitive { name, ty: Type::Primitive(st), signal });
    assert(g.last() == Signal { name, ty: st, byte_offset: signal.byte_offset });
    assert(serialize_attrs(a.drop_last(), indent, "msg->"@) == Seq::<char>::empty());
    assert(serialize_signals(g.drop_last(), indent) == Seq::<char>::empty());
    assert(serialize_attr(a.last(), indent, "msg->"@) == indent + code + ";\n"@);
    assert(serialize_attrs(a, indent, "msg->"@) =~= indent + code + ";\n"@);
    assert(serialize_signals(g, indent) =~= indent + code + ";"@);
    assert(serialize_attrs(a, indent, "msg->"@) =~= serialize_signals(g, indent) + "\n"@) by {
        reveal_strlit(";\n");
        reveal_strlit(";");
        reveal_strlit("\n");
    }
}

} // verus!
