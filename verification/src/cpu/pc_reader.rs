//! Reading the instruction stream.
use vstd::prelude::*;
use crate::fault::Fault;
use crate::peripherals::{next_addr, Peripherals};

verus! {

/// A reader of the bytes at the program counter: every byte that it reads moves its
/// program counter on, wrapping from 0xFFFF to 0.
pub struct PcReader<'a> {
    pub cycle: u64,
    pub pc: u16,
    pub peripherals: &'a Peripherals,
}

impl<'a> PcReader<'a> {
    /// A reader that starts at `pc` and stamps its reads with `cycle`.
    pub fn new(cycle: u64, pc: u16, peripherals: &'a Peripherals) -> (reader: Self)
        ensures
            reader.cycle == cycle,
            reader.pc == pc,
            reader.peripherals == peripherals,
    {
        PcReader { cycle, pc, peripherals }
    }

    /// Reads the byte at the program counter. A read that fails leaves the program counter.
    pub fn read_u8(&mut self) -> (res: Result<u8, Fault>)
        requires
            old(self).peripherals@.wf(),
        ensures
            final(self).cycle == old(self).cycle,
            final(self).peripherals == old(self).peripherals,
            res == old(self).peripherals@.read(old(self).cycle, old(self).pc),
            final(self).pc == (if res is Ok {
                next_addr(old(self).pc)
            } else {
                old(self).pc
            }),
    {
        let res = self.peripherals.read(self.cycle, self.pc)?;
        self.pc = self.pc.wrapping_add(1);
        Ok(res)
    }

    /// Reads the 16-bit value at the program counter, low byte first. A read that fails
    /// leaves the program counter.
    pub fn read_u16(&mut self) -> (res: Result<u16, Fault>)
        requires
            old(self).peripherals@.wf(),
        ensures
            final(self).cycle == old(self).cycle,
            final(self).peripherals == old(self).peripherals,
            res == old(self).peripherals@.read_u16(old(self).cycle, old(self).pc),
            final(self).pc == (if res is Ok {
                next_addr(next_addr(old(self).pc))
            } else {
                old(self).pc
            }),
    {
        let res = self.peripherals.read_u16(self.cycle, self.pc)?;
        self.pc = self.pc.wrapping_add(2);
        Ok(res)
    }
}

} // verus!
