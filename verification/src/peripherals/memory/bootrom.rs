//! The boot ROM: 256 bytes that shadow the start of the cartridge until they are unmapped.
use vstd::prelude::*;

verus! {

/// The boot ROM.
#[derive(Clone)]
pub struct BootRom {
    rom: Vec<u8>,
}

impl View for BootRom {
    type V = Seq<u8>;

    closed spec fn view(&self) -> Seq<u8> {
        self.rom@
    }
}

impl BootRom {
    /// A boot ROM holds exactly 256 bytes.
    pub open spec fn wf(&self) -> bool {
        self@.len() == 256
    }

    /// Takes the image of the boot ROM, which must be 256 bytes long.
    pub fn new(rom: Vec<u8>) -> (bootrom: Self)
        requires
            rom@.len() == 256,
        ensures
            bootrom@ == rom@,
            bootrom.wf(),
    {
        BootRom { rom }
    }

    /// Reads the byte at a bus address below 0x0100.
    pub fn read(&self, addr: u16) -> (val: u8)
        requires
            self.wf(),
            addr < 0x0100,
        ensures
            val == self@[addr as int],
    {
        self.rom[addr as usize]
    }
}

} // verus!
