//! Errors that loading and execution can report.

use vstd::prelude::*;

verus! {

/// What can go wrong while loading a program or executing it.
#[derive(Debug, Clone, Copy, PartialEq, Eq, Structural)]
pub enum CpuError {
    /// The decoder met a byte that encodes no official instruction.
    UnsupportedOpcode {
        /// The offending byte.
        byte: u8,
        /// The address it was fetched from.
        pc: u16,
    },
    /// A program or ROM image does not fit into its target region.
    LoadTooLarge {
        /// Number of bytes that were to be loaded.
        length: usize,
        /// Size of the target region in bytes.
        capacity: usize,
    },
}

} // verus!
