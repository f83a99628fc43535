//! The timer: divider, modulo and control registers; the counter itself is not modelled.
use vstd::prelude::*;
use crate::fault::Fault;
use super::interrupts::{Interrupt, InterruptMask, InterruptSource};

verus! {

/// The input clock that the control register (0xFF07) selects, by its divisor.
#[derive(Clone, Copy, Debug, PartialEq, Eq, Structural)]
pub enum Clock {
    Div1024,
    Div16,
    Div64,
    Div256,
}

impl Clock {
    /// The two bits that select this clock.
    pub open spec fn spec_bits(self) -> u8 {
        match self {
            Clock::Div1024 => 0,
            Clock::Div16 => 1,
            Clock::Div64 => 2,
            Clock::Div256 => 3,
        }
    }

    /// The clock that the low two bits of a control byte select.
    pub open spec fn spec_from_bits(val: u8) -> Clock {
        let bits = val & 0x03;
        if bits == 0 {
            Clock::Div1024
        } else if bits == 1 {
            Clock::Div16
        } else if bits == 2 {
            Clock::Div64
        } else {
            Clock::Div256
        }
    }
}

/// The timer.
#[derive(Clone, Copy, Debug, PartialEq, Eq, Structural)]
pub struct Timer {
    pub tma: u8,
    pub enable: bool,
    pub clock: Clock,
    pub irq_pending: bool,
}

impl Timer {
    /// The divider register at `cycle`: it counts once every 256 cycles and wraps at 256.
    pub open spec fn spec_div(cycle: u64) -> u8 {
        ((cycle / 256) % 256) as u8
    }

    /// The control byte (0xFF07): bit 2 enables the timer, bits 1 and 0 select the clock.
    pub open spec fn spec_control(self) -> u8 {
        ((if self.enable { 4int } else { 0 }) + self.clock.spec_bits()) as u8
    }

    /// What a read returns: the fault for the counter (0xFF05), a byte elsewhere.
    pub open spec fn spec_read(self, cycle: u64, addr: u16) -> Result<u8, Fault> {
        if addr == 0xff04 {
            Ok(Self::spec_div(cycle))
        } else if addr == 0xff05 {
            Err(Fault::TimaRead)
        } else if addr == 0xff06 {
            Ok(self.tma)
        } else if addr == 0xff07 {
            Ok(self.spec_control())
        } else {
            Ok(0)
        }
    }

    /// The fault that a write meets, if any: the divider and the counter cannot be written.
    pub open spec fn spec_write_fault(addr: u16) -> Option<Fault> {
        if addr == 0xff04 {
            Some(Fault::DivWrite)
        } else if addr == 0xff05 {
            Some(Fault::TimaWrite)
        } else {
            None
        }
    }

    /// The timer after a write.
    pub open spec fn spec_write(self, addr: u16, val: u8) -> Timer {
        if addr == 0xff06 {
            Timer { tma: val, ..self }
        } else if addr == 0xff07 {
            Timer { enable: val & 0x04 != 0, clock: Clock::spec_from_bits(val), ..self }
        } else {
            self
        }
    }

    pub open spec fn spec_pending(self) -> InterruptMask {
        if self.irq_pending {
            Interrupt::Timer.spec_as_mask()
        } else {
            InterruptMask(0)
        }
    }

    pub open spec fn spec_set_pending(self, mask: InterruptMask) -> Timer {
        Timer { irq_pending: mask.spec_is_set(Interrupt::Timer), ..self }
    }

    /// The timer at power-on.
    pub fn new() -> (timer: Self)
        ensures
            timer == (Timer { tma: 0, enable: false, clock: Clock::Div1024, irq_pending: false }),
    {
        Timer { tma: 0, enable: false, clock: Clock::Div1024, irq_pending: false }
    }

    /// Reads a timer register (0xFF04 to 0xFF07); zero elsewhere.
    /// Reading the counter (0xFF05) is not supported and fails.
    pub fn read(&self, cycle: u64, addr: u16) -> (res: Result<u8, Fault>)
        ensures
            res == self.spec_read(cycle, addr),
    {
        match addr {
            0xff04 => Ok(((cycle / 256) % 256) as u8),
            0xff05 => Err(Fault::TimaRead),
            0xff06 => Ok(self.tma),
            0xff07 => {
                let enable: u8 = if self.enable { 4 } else { 0 };
                let clock: u8 = match self.clock {
                    Clock::Div1024 => 0,
                    Clock::Div16 => 1,
                    Clock::Div64 => 2,
                    Clock::Div256 => 3,
                };
                Ok(enable + clock)
            },
            _ => Ok(0),
        }
    }

    /// Writes a timer register; ignored outside 0xFF04 to 0xFF07.
    /// Writing the divider (0xFF04) or the counter (0xFF05) is not supported: it fails and
    /// leaves the timer as it was.
    pub fn write(&mut self, _cycle: u64, addr: u16, val: u8) -> (res: Result<(), Fault>)
        ensures
            res == (match Self::spec_write_fault(addr) {
                Some(fault) => Err::<(), Fault>(fault),
                None => Ok(()),
            }),
            res is Ok ==> *final(self) == old(self).spec_write(addr, val),
            res is Err ==> *final(self) == *old(self),
    {
        match addr {
            0xff04 => Err(Fault::DivWrite),
            0xff05 => Err(Fault::TimaWrite),
            0xff06 => {
                self.tma = val;
                Ok(())
            },
            0xff07 => {
                self.enable = (val & 0x04) != 0;
                let bits: u8 = val & 0x03;
                self.clock = if bits == 0 {
                    Clock::Div1024
                } else if bits == 1 {
                    Clock::Div16
                } else if bits == 2 {
                    Clock::Div64
                } else {
                    Clock::Div256
                };
                Ok(())
            },
            _ => Ok(()),
        }
    }
}

impl InterruptSource for Timer {
    open spec fn source_wf(&self) -> bool {
        true
    }

    open spec fn pending_at(&self, cycle: u64) -> InterruptMask {
        self.spec_pending()
    }

    open spec fn next_pending_at(&self, cycle: u64) -> u64 {
        u64::MAX
    }

    open spec fn acknowledged(&self, cycle: u64, mask: InterruptMask, after: &Self) -> bool {
        *after == self.spec_set_pending(mask)
    }

    fn pending(&self, _cycle: u64) -> (mask: InterruptMask) {
        if self.irq_pending {
            Interrupt::Timer.as_mask()
        } else {
            InterruptMask(0)
        }
    }

    fn set_pending(&mut self, _cycle: u64, mask: InterruptMask) {
        self.irq_pending = mask.is_set(Interrupt::Timer);
    }

    fn next_pending(&self, _cycle: u64) -> (next: u64) {
        u64::MAX
    }
}

} // verus!
