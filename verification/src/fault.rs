//! Conditions under which the machine cannot go on.
use vstd::prelude::*;

verus! {

/// Why an operation of the machine stopped.
///
/// Every operation that can meet one of these conditions returns a `Result`
/// and names the condition instead of aborting.
#[derive(Clone, Copy, Debug, PartialEq, Eq, Structural)]
pub enum Fault {
    /// The CPU fetched the STOP instruction, which has no defined behaviour.
    Stop,
    /// The CPU fetched one of the eleven undefined opcodes.
    InvalidOpcode(u8),
    /// A nonzero value was written to the STAT register (0xFF41).
    StatWrite(u8),
    /// The timer counter TIMA (0xFF05) was read.
    TimaRead,
    /// The timer counter TIMA (0xFF05) was written.
    TimaWrite,
    /// The divider register DIV (0xFF04) was written.
    DivWrite,
    /// A cartridge ROM access at this bus address fell behind the end of the ROM image.
    RomOutOfRange(u16),
    /// A cartridge RAM access at this bus address fell behind the end of the RAM image.
    RamOutOfRange(u16),
    /// A scanline had to be drawn while objects were enabled in 8x16 mode.
    TallObjects,
    /// The 64-bit cycle counter cannot hold the next value.
    CycleOverflow,
    /// The CPU is halted and no interrupt source can wake it up.
    Stalled,
}

} // verus!
