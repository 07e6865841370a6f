//! Decoders for on-disk partition-table metadata: the legacy Master Boot
//! Record (MBR) layout and the GUID Partition Table (GPT) layout.
//!
//! Every decoder is a pure function over an in-memory byte buffer: field
//! extraction at fixed byte offsets, big- and little-endian integer
//! unpacking, GUID text formatting, and partition-attribute bit-flag
//! interpretation. Reading buffers from storage, disassembling boot code and
//! printing reports are left to callers.

pub mod codec;
pub mod flags;
pub mod gpt;
pub mod mbr;

use vstd::prelude::*;

verus! {

/// Why a decode operation was aborted.
///
/// Each decoder returns one of these instead of panicking, so that a caller
/// scanning a partially corrupt image can skip the offending structure and
/// continue.
#[derive(Clone, Copy, Debug, PartialEq, Eq, Structural)]
pub enum DecodeError {
    /// A fixed-format field was handed a slice of the wrong size.
    Length,
    /// A field that must be textual (signature, partition name) holds
    /// invalid UTF-8.
    Encoding,
    /// The attribute field sets both a Windows-origin bit and a
    /// ChromeOS-origin bit, which cannot both be meant.
    ConflictingFlags,
}

} // verus!
