use vstd::prelude::*;

verus! {

/// A typed runtime fault. Memory accesses and instruction decoding return
/// these as values instead of aborting, so a host can halt the guest, log,
/// or substitute a safe default.
#[derive(Debug, Clone, Copy, PartialEq, Eq, Structural)]
pub enum Fault {
    /// The address falls in no known window of the address space.
    UnmappedAccess(u16),
    /// The address maps to program ROM but lies beyond the image's length.
    OutOfBoundsRom(u16),
    /// The fetched opcode byte is not a decodable instruction.
    IllegalOpcode(u8),
}

} // verus!
