//! The serial port: its two registers are kept, no transfer ever makes progress.
use vstd::prelude::*;
use super::interrupts::{Interrupt, InterruptMask, InterruptSource};

verus! {

/// The clock that would drive a transfer.
#[derive(Clone, Copy, Debug, PartialEq, Eq, Structural)]
pub enum Clock {
    External,
    Internal,
}

/// The serial port.
#[derive(Clone, Copy, Debug, PartialEq, Eq, Structural)]
pub struct Serial {
    pub data: u8,
    pub transfer_enable: bool,
    pub clock_select: Clock,
    pub irq_pending: bool,
}

impl Serial {
    /// The control byte (0xFF02): bit 7 is the transfer flag, bit 0 selects the internal clock.
    pub open spec fn spec_control(self) -> u8 {
        ((if self.transfer_enable { 0x80int } else { 0 })
            + (if self.clock_select == Clock::Internal { 1int } else { 0 })) as u8
    }

    pub open spec fn spec_read(self, addr: u16) -> u8 {
        if addr == 0xff01 {
            self.data
        } else if addr == 0xff02 {
            self.spec_control()
        } else {
            0
        }
    }

    pub open spec fn spec_write(self, addr: u16, val: u8) -> Serial {
        if addr == 0xff01 {
            Serial { data: val, ..self }
        } else if addr == 0xff02 {
            Serial {
                transfer_enable: val & 0x80 != 0,
                clock_select: if val & 0x01 != 0 { Clock::Internal } else { Clock::External },
                ..self
            }
        } else {
            self
        }
    }

    pub open spec fn spec_pending(self) -> InterruptMask {
        if self.irq_pending {
            Interrupt::Serial.spec_as_mask()
        } else {
            InterruptMask(0)
        }
    }

    pub open spec fn spec_set_pending(self, mask: InterruptMask) -> Serial {
        Serial { irq_pending: mask.spec_is_set(Interrupt::Serial), ..self }
    }

    /// The serial port at power-on.
    pub fn new() -> (serial: Self)
        ensures
            serial == (Serial {
                data: 0,
                transfer_enable: false,
                clock_select: Clock::External,
                irq_pending: false,
            }),
    {
        Serial { data: 0, transfer_enable: false, clock_select: Clock::External, irq_pending: false }
    }

    /// Reads the data register (0xFF01) or the control register (0xFF02); zero elsewhere.
    pub fn read(&self, _cycle: u64, addr: u16) -> (val: u8)
        ensures
            val == self.spec_read(addr),
    {
        match addr {
            0xff01 => self.data,
            0xff02 => {
                let enable: u8 = if self.transfer_enable { 0x80 } else { 0 };
                let clock: u8 = match self.clock_select {
                    Clock::External => 0,
                    Clock::Internal => 1,
                };
                enable + clock
            },
            _ => 0,
        }
    }

    /// Writes the data register (0xFF01) or the control register (0xFF02); ignored elsewhere.
    pub fn write(&mut self, _cycle: u64, addr: u16, val: u8)
        ensures
            *final(self) == old(self).spec_write(addr, val),
    {
        match addr {
            0xff01 => {
                self.data = val;
            },
            0xff02 => {
                self.transfer_enable = (val & 0x80) != 0;
                self.clock_select = if (val & 0x01) != 0 { Clock::Internal } else { Clock::External };
            },
            _ => {},
        }
    }
}

impl InterruptSource for Serial {
    open spec fn source_wf(&self) -> bool {
        true
    }

    open spec fn pending_at(&self, cycle: u64) -> InterruptMask {
        self.spec_pending()
    }

    open spec fn next_pending_at(&self, cycle: u64) -> u64 {
        u64::MAX
    }

    open spec fn acknowledged(&self, cycle: u64, mask: InterruptMask, after: &Self) -> bool {
        *after == self.spec_set_pending(mask)
    }

    fn pending(&self, _cycle: u64) -> (mask: InterruptMask) {
        if self.irq_pending {
            Interrupt::Serial.as_mask()
        } else {
            InterruptMask(0)
        }
    }

    fn set_pending(&mut self, _cycle: u64, mask: InterruptMask) {
        self.irq_pending = mask.is_set(Interrupt::Serial);
    }

    fn next_pending(&self, _cycle: u64) -> (next: u64) {
        u64::MAX
    }
}

} // verus!
