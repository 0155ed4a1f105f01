//! The errors that code generation reports.
use vstd::prelude::*;

verus! {

/// Why code generation was refused.
#[derive(Debug, Clone, Copy, PartialEq, Eq, Structural)]
pub enum Error {
    /// No node of the network carries the requested name.
    InvalidNodeName,
    /// A declaration or definition block was added twice to one file.
    DuplicatedBlockIdentifier,
}

} // verus!
