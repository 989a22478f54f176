//! The ways in which reading and writing can fail.

use vstd::prelude::*;

verus! {

/// Why bytes could not be read.
#[derive(Clone, Copy, Debug, PartialEq, Eq, Structural)]
pub enum DecodeError {
    /// The block was handed over as text that is not hexadecimal.
    InvalidHex,
    /// The consensus framing of the block is malformed or ends too early.
    Framing,
    /// A buffer is shorter than what has to be read from it.
    Truncated,
    /// The content of a post is not valid UTF-8.
    InvalidUtf8,
    /// A chunk does not begin with the magic marker.
    UnrecognizedMagic,
    /// The type tag of a post is none of the known ones.
    UnrecognizedType,
    /// The chunks of one post do not carry the same header.
    HeaderMismatch,
}

/// Why a post could not be written.
#[derive(Clone, Copy, Debug, PartialEq, Eq, Structural)]
pub enum EncodeError {
    /// The profile does not allow posts of this kind to be written.
    UnsupportedVariant,
    /// The content does not fit into the chunks that the profile allows.
    ContentTooLarge,
}

} // verus!
