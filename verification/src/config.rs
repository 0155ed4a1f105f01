//! The description of a CAN network that code is generated from: its buses,
//! nodes, messages, signals, object entries and streams, as plain values.
//!
//! Numbers that the network description holds as floating point (the offset
//! and scale of decimal signals) are carried as the decimal text they are
//! printed as; durations are carried in nanoseconds.
use vstd::prelude::*;
use vstd::string::*;
use crate::text::{dec, dec_string};

verus! {

/// The encoding of a primitive signal value.
pub enum SignalType {
    /// An unsigned integer of `size` bits.
    UnsignedInt { size: u8 },
    /// A two's complement integer of `size` bits.
    SignedInt { size: u8 },
    /// A fixed point value of `size` bits: `raw * scale + offset`.
    Decimal { size: u8, offset: String, scale: String },
}

impl SignalType {
    pub open spec fn spec_size(&self) -> u8 {
        match self {
            SignalType::UnsignedInt { size } => *size,
            SignalType::SignedInt { size } => *size,
            SignalType::Decimal { size, .. } => *size,
        }
    }

    /// The width of the encoded value in bits.
    #[verifier::when_used_as_spec(spec_size)]
    pub fn size(&self) -> (s: u8)
        ensures
            s == self.spec_size(),
    {
        match self {
            SignalType::UnsignedInt { size } => *size,
            SignalType::SignedInt { size } => *size,
            SignalType::Decimal { size, .. } => *size,
        }
    }
}

/// A type of the network description.
pub enum Type {
    Primitive(SignalType),
    Struct { name: String, attribs: Vec<(String, Type)> },
    Enum { name: String, size: u8, entries: Vec<(String, u64)> },
    Array { len: usize, ty: Box<Type> },
}

/// The name under which the network description refers to a type: the
/// declared name of a struct or enum, `u<bits>`, `i<bits>` or `d<bits>` for
/// a primitive, and the element's name for an array.
pub open spec fn config_type_name(t: Type) -> Seq<char>
    decreases t,
{
    match t {
        Type::Primitive(SignalType::UnsignedInt { size }) => "u"@ + dec(size as nat),
        Type::Primitive(SignalType::SignedInt { size }) => "i"@ + dec(size as nat),
        Type::Primitive(SignalType::Decimal { size, .. }) => "d"@ + dec(size as nat),
        Type::Struct { name, .. } => name@,
        Type::Enum { name, .. } => name@,
        Type::Array { ty, .. } => config_type_name(*ty),
    }
}

impl Type {
    /// See [`config_type_name`].
    pub fn name(&self) -> (n: String)
        ensures
            n@ == config_type_name(*self),
        decreases self,
    {
        match self {
            Type::Primitive(SignalType::UnsignedInt { size }) => {
                let mut n = String::new();
                n.append("u");
                n.append(dec_string(*size as u64).as_str());
                n
            },
            Type::Primitive(SignalType::SignedInt { size }) => {
                let mut n = String::new();
                n.append("i");
                n.append(dec_string(*size as u64).as_str());
                n
            },
            Type::Primitive(SignalType::Decimal { size, .. }) => {
                let mut n = String::new();
                n.append("d");
                n.append(dec_string(*size as u64).as_str());
                n
            },
            Type::Struct { name, .. } => name.clone(),
            Type::Enum { name, .. } => name.clone(),
            Type::Array { ty, .. } => ty.name(),
        }
    }
}

/// A signal of a message: a value at a bit offset of the frame.
pub struct Signal {
    pub name: String,
    pub ty: SignalType,
    /// The offset of the first bit of the signal in the frame.
    pub byte_offset: usize,
}

/// How an attribute of a message's type is laid out in the frame.
pub enum TypeSignalEncoding {
    /// An attribute of struct type, encoded attribute by attribute.
    Composite { name: String, ty: Type, attributes: Vec<TypeSignalEncoding> },
    /// An attribute of primitive or enum type, encoded in one signal.
    Primitive { name: String, ty: Type, signal: Signal },
}

impl TypeSignalEncoding {
    pub open spec fn spec_name(&self) -> Seq<char> {
        match self {
            TypeSignalEncoding::Composite { name, .. } => name@,
            TypeSignalEncoding::Primitive { name, .. } => name@,
        }
    }

    pub open spec fn spec_ty(&self) -> &Type {
        match self {
            TypeSignalEncoding::Composite { ty, .. } => ty,
            TypeSignalEncoding::Primitive { ty, .. } => ty,
        }
    }

    /// The name of the attribute.
    pub fn name(&self) -> (n: &str)
        ensures
            n@ == self.spec_name(),
    {
        match self {
            TypeSignalEncoding::Composite { name, .. } => name.as_str(),
            TypeSignalEncoding::Primitive { name, .. } => name.as_str(),
        }
    }

    /// The type of the attribute.
    pub fn ty(&self) -> (t: &Type)
        ensures
            t == self.spec_ty(),
    {
        match self {
            TypeSignalEncoding::Composite { ty, .. } => ty,
            TypeSignalEncoding::Primitive { ty, .. } => ty,
        }
    }
}

/// The encoding of a message whose payload is a typed struct.
pub struct MessageEncoding {
    pub attributes: Vec<TypeSignalEncoding>,
}

/// The identifier of a CAN frame.
pub enum MessageId {
    StandardId(u32),
    ExtendedId(u32),
}

/// A CAN bus of the network.
pub struct Bus {
    pub id: u32,
    pub name: String,
    pub baudrate: u32,
}

/// A value of a node's object dictionary.
pub struct ObjectEntry {
    pub name: String,
    pub id: u32,
    pub ty: Type,
}

/// A command: a request message and its response.
pub struct Command {
    pub name: String,
    pub tx_message: Box<Message>,
    pub rx_message: Box<Message>,
}

/// What a message is used for.
pub enum MessageUsage {
    /// A stream; each attribute of the message's encoding is mapped to an
    /// object entry, or to none.
    Stream(Vec<Option<ObjectEntry>>),
    CommandReq(Command),
    CommandResp(Command),
    GetResp,
    GetReq,
    SetResp,
    SetReq,
    Heartbeat,
    External { interval_ns: u64 },
}

/// A message of the network.
pub struct Message {
    pub name: String,
    pub id: MessageId,
    pub encoding: Option<MessageEncoding>,
    pub signals: Vec<Signal>,
    pub usage: MessageUsage,
    pub bus: Bus,
}

/// A stream a node transmits: object entries sent in one message at an
/// interval between a minimum and a maximum.
pub struct Stream {
    pub name: String,
    pub mapping: Vec<Option<ObjectEntry>>,
    pub message: Message,
    pub min_interval_ns: u64,
    pub max_interval_ns: u64,
}

/// A node of the network.
pub struct Node {
    pub name: String,
    pub id: u32,
    pub types: Vec<Type>,
    pub object_entries: Vec<ObjectEntry>,
    pub tx_messages: Vec<Message>,
    pub rx_messages: Vec<Message>,
    pub tx_streams: Vec<Stream>,
}

/// A whole network.
pub struct Network {
    pub nodes: Vec<Node>,
    pub buses: Vec<Bus>,
    pub get_resp_message: Message,
    pub set_resp_message: Message,
    pub heartbeat_message: Message,
}

} // verus!
