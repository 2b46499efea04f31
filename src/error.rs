use vstd::prelude::*;

verus! {

/// The failures that the core reports to its caller.
#[derive(Debug, Clone, Copy, PartialEq, Eq, Structural)]
pub enum CoreError {
    /// A cartridge image too short to hold the header region.
    TruncatedImage,
    /// An opcode description that does not give exactly one valid entry for
    /// each of the 256 codes.
    MalformedTable,
    /// Execution was attempted with no cartridge bound to the memory map.
    CartridgeNotLoaded,
    /// The byte names an instruction that the engine does not execute.
    UnsupportedInstruction(u8),
}

} // verus!
