//! The internal memory: 8 KiB of work RAM with its echo, and 127 bytes of high RAM.
use vstd::prelude::*;

verus! {

/// The internal memory.
#[derive(Clone)]
pub struct Ram {
    work_ram: [u8; 8192],
    high_ram: [u8; 127],
}

/// The contents of the internal memory.
pub struct RamView {
    /// The 8192 bytes of work RAM.
    pub work: Seq<u8>,
    /// The 127 bytes of high RAM.
    pub high: Seq<u8>,
}

impl View for Ram {
    type V = RamView;

    closed spec fn view(&self) -> RamView {
        RamView { work: self.work_ram@, high: self.high_ram@ }
    }
}

/// Whether a bus address belongs to the work RAM (0xC000 to 0xDFFF) or to its echo
/// (0xE000 to 0xFDFF).
pub open spec fn in_work_ram(addr: u16) -> bool {
    0xc000 <= addr <= 0xfdff
}

/// Whether a bus address belongs to the high RAM (0xFF80 to 0xFFFE).
pub open spec fn in_high_ram(addr: u16) -> bool {
    0xff80 <= addr <= 0xfffe
}

/// The work RAM byte that a bus address names: the echo names the same bytes again.
pub open spec fn work_offset(addr: u16) -> int {
    (addr - 0xc000) % 0x2000
}

impl RamView {
    pub open spec fn wf(self) -> bool {
        self.work.len() == 8192 && self.high.len() == 127
    }

    /// All bytes zero.
    pub open spec fn zeroed() -> RamView {
        RamView { work: Seq::new(8192, |i: int| 0u8), high: Seq::new(127, |i: int| 0u8) }
    }

    pub open spec fn read(self, addr: u16) -> u8 {
        if in_work_ram(addr) {
            self.work[work_offset(addr)]
        } else {
            self.high[addr - 0xff80]
        }
    }

    pub open spec fn write(self, addr: u16, val: u8) -> RamView {
        if in_work_ram(addr) {
            RamView { work: self.work.update(work_offset(addr), val), ..self }
        } else {
            RamView { high: self.high.update(addr - 0xff80, val), ..self }
        }
    }
}

impl Ram {
    /// Zeroed memory.
    pub fn new() -> (ram: Self)
        ensures
            ram@ == RamView::zeroed(),
            ram@.wf(),
    {
        let ram = Ram { work_ram: [0u8; 8192], high_ram: [0u8; 127] };
        assert(ram@.work =~= RamView::zeroed().work);
        assert(ram@.high =~= RamView::zeroed().high);
        ram
    }

    /// Reads the byte at a bus address of the work RAM, its echo or the high RAM.
    pub fn read(&self, addr: u16) -> (val: u8)
        requires
            in_work_ram(addr) || in_high_ram(addr),
        ensures
            val == self@.read(addr),
    {
        if 0xc000 <= addr && addr <= 0xdfff {
            self.work_ram[(addr - 0xc000) as usize]
        } else if 0xe000 <= addr && addr <= 0xfdff {
            self.work_ram[(addr - 0xe000) as usize]
        } else {
            self.high_ram[(addr - 0xff80) as usize]
        }
    }

    /// Writes the byte at a bus address of the work RAM, its echo or the high RAM.
    pub fn write(&mut self, addr: u16, val: u8)
        requires
            in_work_ram(addr) || in_high_ram(addr),
        ensures
            final(self)@ == old(self)@.write(addr, val),
            old(self)@.wf() ==> final(self)@.wf(),
    {
        if 0xc000 <= addr && addr <= 0xdfff {
            self.work_ram[(addr - 0xc000) as usize] = val;
        } else if 0xe000 <= addr && addr <= 0xfdff {
            self.work_ram[(addr - 0xe000) as usize] = val;
        } else {
            self.high_ram[(addr - 0xff80) as usize] = val;
        }
    }
}

} // verus!
