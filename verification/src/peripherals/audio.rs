//! The audio unit: silent.
use vstd::prelude::*;

verus! {

/// The audio unit. It keeps no state: every register reads as zero and ignores writes.
#[derive(Clone, Copy, Debug, PartialEq, Eq, Structural)]
pub struct Audio;

impl Audio {
    /// The audio unit at power-on.
    pub fn new() -> (audio: Self)
        ensures
            audio == Audio,
    {
        Audio
    }

    /// Reads an audio register (0xFF10 to 0xFF3F): always zero.
    pub fn read(&self, _cycle: u64, _addr: u16) -> (val: u8)
        ensures
            val == 0,
    {
        0
    }

    /// Writes an audio register: ignored.
    pub fn write(&mut self, _cycle: u64, _addr: u16, _val: u8)
        ensures
            *final(self) == *old(self),
    {
    }
}

} // verus!
