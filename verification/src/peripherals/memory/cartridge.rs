//! The cartridge: banked ROM and banked RAM behind one write-enable latch.
//!
//! A write that the cartridge does not carry out leaves a notice. The notices are kept in
//! the order of the writes until they are taken.
use vstd::prelude::*;
use crate::fault::Fault;

verus! {

/// Why a write to the cartridge had no effect.
#[derive(Clone, Copy, Debug, PartialEq, Eq, Structural)]
pub enum Notice {
    /// A value other than 0x0A and 0x00 was written to the RAM enable latch
    /// (0x0000 to 0x1FFF).
    InvalidLatchValue { addr: u16, val: u8 },
    /// A value from 4 on was written to the RAM bank register (0x4000 to 0x5FFF): it would
    /// select a register of the real-time clock, which the cartridge does not have.
    RtcSelect,
    /// The latch of the real-time clock (0x6000 to 0x7FFF) was written.
    RtcLatch,
    /// The RAM (0xA000 to 0xBFFF) was written while writes to it were disabled.
    RamWriteDisabled { addr: u16, val: u8 },
}

/// The cartridge.
#[derive(Clone)]
pub struct Cartridge {
    rom: Vec<u8>,
    ram: Vec<u8>,
    rom_bank: u8,
    ram_bank: u8,
    ram_write_enable: bool,
    notices: Vec<Notice>,
}

/// The state of a cartridge.
pub struct CartridgeView {
    /// The ROM image. It never changes.
    pub rom: Seq<u8>,
    /// The RAM image.
    pub ram: Seq<u8>,
    /// The ROM bank that 0x4000 to 0x7FFF shows: 1 to 127.
    pub rom_bank: u8,
    /// The RAM bank that 0xA000 to 0xBFFF shows: 0 to 3.
    pub ram_bank: u8,
    /// Whether writes reach the RAM.
    pub ram_write_enable: bool,
    /// The notices of the writes that had no effect, the oldest first, since they were
    /// last taken.
    pub notices: Seq<Notice>,
}

/// The size of a ROM bank.
pub const ROM_BANK_SIZE: usize = 16384;

/// The size of a RAM bank.
pub const RAM_BANK_SIZE: usize = 8192;

/// The size of the RAM of a cartridge that comes without an image of its own.
pub const DEFAULT_RAM_SIZE: usize = 32768;

/// Whether a bus address belongs to the cartridge's ROM (0x0000 to 0x7FFF).
pub open spec fn in_rom(addr: u16) -> bool {
    addr <= 0x7fff
}

/// Whether a bus address belongs to the cartridge's RAM (0xA000 to 0xBFFF).
pub open spec fn in_ram(addr: u16) -> bool {
    0xa000 <= addr <= 0xbfff
}

/// The bank that a write of `val` to 0x2000..0x3FFF selects: its low seven bits, and 1 for 0.
pub open spec fn selected_rom_bank(val: u8) -> u8 {
    if val & 0x7f == 0 {
        1
    } else {
        val & 0x7f
    }
}

impl CartridgeView {
    /// The switchable ROM bank is never bank 0, and the banks are in range.
    pub open spec fn wf(self) -> bool {
        1 <= self.rom_bank <= 127 && self.ram_bank < 4
    }

    /// The place in the ROM or RAM image that a bus address names.
    pub open spec fn index(self, addr: u16) -> int {
        if addr <= 0x3fff {
            addr as int
        } else if addr <= 0x7fff {
            self.rom_bank * 16384 + (addr - 0x4000)
        } else {
            self.ram_bank * 8192 + (addr - 0xa000)
        }
    }

    /// What a read returns: the byte, or the fault if the image ends before it.
    pub open spec fn read(self, addr: u16) -> Result<u8, Fault> {
        if in_rom(addr) {
            if self.index(addr) < self.rom.len() {
                Ok(self.rom[self.index(addr)])
            } else {
                Err(Fault::RomOutOfRange(addr))
            }
        } else {
            if self.index(addr) < self.ram.len() {
                Ok(self.ram[self.index(addr)])
            } else {
                Err(Fault::RamOutOfRange(addr))
            }
        }
    }

    /// The fault that a write meets, if any: an enabled RAM write behind the end of the image.
    pub open spec fn write_fault(self, addr: u16) -> Option<Fault> {
        if in_ram(addr) && self.ram_write_enable && self.index(addr) >= self.ram.len() {
            Some(Fault::RamOutOfRange(addr))
        } else {
            None
        }
    }

    /// The notice that a write leaves, if it has no effect: a bad latch value, the
    /// selection of a clock register, a write to the clock's latch, or a RAM write
    /// while RAM writes are disabled.
    pub open spec fn notice(self, addr: u16, val: u8) -> Option<Notice> {
        if addr <= 0x1fff {
            if val != 0x0a && val != 0x00 {
                Some(Notice::InvalidLatchValue { addr, val })
            } else {
                None
            }
        } else if addr <= 0x3fff {
            None
        } else if addr <= 0x5fff {
            if val >= 4 {
                Some(Notice::RtcSelect)
            } else {
                None
            }
        } else if addr <= 0x7fff {
            Some(Notice::RtcLatch)
        } else {
            if self.ram_write_enable {
                None
            } else {
                Some(Notice::RamWriteDisabled { addr, val })
            }
        }
    }

    /// The cartridge after a write that meets no fault: its registers and RAM are as
    /// `store` gives them, and the notice of the write, if it leaves one, is the last.
    pub open spec fn write(self, addr: u16, val: u8) -> CartridgeView {
        match self.notice(addr, val) {
            Some(notice) => CartridgeView {
                notices: self.notices.push(notice),
                ..self.store(addr, val)
            },
            None => self.store(addr, val),
        }
    }

    /// The registers and the RAM of the cartridge after a write that meets no fault.
    pub open spec fn store(self, addr: u16, val: u8) -> CartridgeView {
        if addr <= 0x1fff {
            if val == 0x0a {
                CartridgeView { ram_write_enable: true, ..self }
            } else if val == 0x00 {
                CartridgeView { ram_write_enable: false, ..self }
            } else {
                self
            }
        } else if addr <= 0x3fff {
            CartridgeView { rom_bank: selected_rom_bank(val), ..self }
        } else if addr <= 0x5fff {
            if val < 4 {
                CartridgeView { ram_bank: val, ..self }
            } else {
                self
            }
        } else if addr <= 0x7fff {
            self
        } else {
            if self.ram_write_enable {
                CartridgeView { ram: self.ram.update(self.index(addr), val), ..self }
            } else {
                self
            }
        }
    }
}

impl View for Cartridge {
    type V = CartridgeView;

    closed spec fn view(&self) -> CartridgeView {
        CartridgeView {
            rom: self.rom@,
            ram: self.ram@,
            rom_bank: self.rom_bank,
            ram_bank: self.ram_bank,
            ram_write_enable: self.ram_write_enable,
            notices: self.notices@,
        }
    }
}

/// The low seven bits of a byte are at most 127.
pub proof fn lemma_low_seven(val: u8)
    ensures
        val & 0x7f <= 127,
{
    assert(val & 0x7f <= 127) by (bit_vector);
}

/// A write that selects ROM bank 0 selects bank 1: reads from 0x4000 to 0x7FFF then show
/// the second 16 KiB of the ROM image, and no write ever selects bank 0.
pub proof fn lemma_bank_zero_is_bank_one(cartridge: CartridgeView, addr: u16, val: u8, read: u16)
    requires
        cartridge.wf(),
        0x2000 <= addr <= 0x3fff,
        0x4000 <= read <= 0x7fff,
    ensures
        cartridge.write(addr, val).wf(),
        cartridge.write(addr, val).rom_bank != 0,
        val & 0x7f == 0 ==> cartridge.write(addr, val).rom_bank == 1 && cartridge.write(
            addr,
            val,
        ).index(read) == 16384 + (read - 0x4000),
{
    lemma_low_seven(val);
}

/// Every write leaves the cartridge valid, so its ROM bank is never 0.
pub proof fn lemma_write_keeps_bank(cartridge: CartridgeView, addr: u16, val: u8)
    requires
        cartridge.wf(),
        in_rom(addr) || in_ram(addr),
    ensures
        cartridge.write(addr, val).wf(),
        cartridge.write(addr, val).rom_bank != 0,
        cartridge.write(addr, val).rom == cartridge.rom,
{
    lemma_low_seven(val);
}

impl Cartridge {
    /// A cartridge with the given ROM image and RAM image; without a RAM image it gets
    /// 32 KiB of zeroed RAM. ROM bank 1 and RAM bank 0 are selected, RAM writes are disabled.
    pub fn new(rom: Vec<u8>, ram: Option<Vec<u8>>) -> (cartridge: Self)
        ensures
            cartridge@.wf(),
            cartridge@.rom == rom@,
            cartridge@.ram == (match ram {
                Some(image) => image@,
                None => Seq::new(32768, |i: int| 0u8),
            }),
            cartridge@.rom_bank == 1,
            cartridge@.ram_bank == 0,
            !cartridge@.ram_write_enable,
            cartridge@.notices == Seq::<Notice>::empty(),
    {
        let ram = match ram {
            Some(image) => image,
            None => {
                let zeroed = vec![0u8; DEFAULT_RAM_SIZE];
                assert(zeroed@ =~= Seq::new(32768, |i: int| 0u8));
                zeroed
            },
        };
        Cartridge {
            rom,
            ram,
            rom_bank: 1,
            ram_bank: 0,
            ram_write_enable: false,
            notices: Vec::new(),
        }
    }

    /// Reads the byte at a bus address of the cartridge.
    /// Fails if the ROM or RAM image ends before the byte that the address names.
    pub fn read(&self, addr: u16) -> (res: Result<u8, Fault>)
        requires
            self@.wf(),
            in_rom(addr) || in_ram(addr),
        ensures
            res == self@.read(addr),
    {
        if addr <= 0x3fff {
            let index = addr as usize;
            if index < self.rom.len() {
                Ok(self.rom[index])
            } else {
                Err(Fault::RomOutOfRange(addr))
            }
        } else if addr <= 0x7fff {
            let index = (self.rom_bank as usize) * ROM_BANK_SIZE + ((addr - 0x4000) as usize);
            if index < self.rom.len() {
                Ok(self.rom[index])
            } else {
                Err(Fault::RomOutOfRange(addr))
            }
        } else {
            let index = (self.ram_bank as usize) * RAM_BANK_SIZE + ((addr - 0xa000) as usize);
            if index < self.ram.len() {
                Ok(self.ram[index])
            } else {
                Err(Fault::RamOutOfRange(addr))
            }
        }
    }

    /// Writes a byte at a bus address of the cartridge: a control write below 0x8000,
    /// a RAM write from 0xA000 on. A write that has no effect leaves a notice.
    /// Fails, and changes nothing, if RAM writes are enabled and the RAM image ends before
    /// the byte that the address names.
    pub fn write(&mut self, addr: u16, val: u8) -> (res: Result<(), Fault>)
        requires
            old(self)@.wf(),
            in_rom(addr) || in_ram(addr),
        ensures
            final(self)@.wf(),
            final(self)@.rom == old(self)@.rom,
            res == (match old(self)@.write_fault(addr) {
                Some(fault) => Err::<(), Fault>(fault),
                None => Ok(()),
            }),
            res is Ok ==> final(self)@ == old(self)@.write(addr, val),
            res is Err ==> final(self)@ == old(self)@,
            0x2000 <= addr <= 0x3fff ==> final(self)@.rom_bank != 0 && (val & 0x7f == 0
                ==> final(self)@.rom_bank == 1),
    {
        if addr <= 0x1fff {
            if val == 0x0a {
                self.ram_write_enable = true;
            } else if val == 0x00 {
                self.ram_write_enable = false;
            } else {
                self.notices.push(Notice::InvalidLatchValue { addr, val });
            }
            Ok(())
        } else if addr <= 0x3fff {
            let bank: u8 = val & 0x7f;
            proof {
                lemma_low_seven(val);
            }
            self.rom_bank = if bank == 0 {
                1
            } else {
                bank
            };
            Ok(())
        } else if addr <= 0x5fff {
            if val < 4 {
                self.ram_bank = val;
            } else {
                self.notices.push(Notice::RtcSelect);
            }
            Ok(())
        } else if addr <= 0x7fff {
            self.notices.push(Notice::RtcLatch);
            Ok(())
        } else {
            if self.ram_write_enable {
                let index = (self.ram_bank as usize) * RAM_BANK_SIZE + ((addr - 0xa000) as usize);
                if index < self.ram.len() {
                    self.ram[index] = val;
                    Ok(())
                } else {
                    Err(Fault::RamOutOfRange(addr))
                }
            } else {
                self.notices.push(Notice::RamWriteDisabled { addr, val });
                Ok(())
            }
        }
    }

    /// Hands out the notices that the writes have left since they were last taken, the
    /// oldest first, and keeps none of them.
    pub fn take_notices(&mut self) -> (notices: Vec<Notice>)
        ensures
            notices@ == old(self)@.notices,
            final(self)@ == (CartridgeView { notices: Seq::<Notice>::empty(), ..old(self)@ }),
    {
        let mut notices: Vec<Notice> = Vec::new();
        core::mem::swap(&mut self.notices, &mut notices);
        notices
    }
}

} // verus!
