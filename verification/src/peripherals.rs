//! The bus: it owns every peripheral and routes each byte access by its address.
use vstd::prelude::*;
use crate::fault::Fault;

pub mod audio;
pub mod interrupts;
pub mod joypad;
pub mod memory;
pub mod serial;
pub mod timer;
pub mod video;

use audio::Audio;
use interrupts::{Interrupt, InterruptMask, InterruptSource};
use joypad::{Button, Buttons, Joypad};
use memory::bootrom::BootRom;
use memory::cartridge::{Cartridge, CartridgeView, Notice};
use memory::ram::{in_high_ram, in_work_ram, Ram, RamView};
use serial::Serial;
use timer::Timer;
use video::{is_video_register, lemma_low_two_bits, lemma_render_keeps_state, Video, VideoView};

verus! {

/// The bus with its peripherals.
pub struct Peripherals {
    bootrom: BootRom,
    cartridge: Cartridge,
    video: Video,
    ram: Ram,
    joypad: Joypad,
    serial: Serial,
    timer: Timer,
    audio: Audio,
    bootrom_mapped: bool,
    dma_reg: u8,
    ie_reg: u8,
}

/// The state of the bus and its peripherals.
pub struct PeripheralsView {
    /// The 256 bytes of the boot ROM.
    pub bootrom: Seq<u8>,
    pub cartridge: CartridgeView,
    pub video: VideoView,
    pub ram: RamView,
    pub joypad: Joypad,
    pub serial: Serial,
    pub timer: Timer,
    /// Whether the boot ROM still shadows 0x0000 to 0x00FF.
    pub bootrom_mapped: bool,
    /// The page that the last OAM DMA copied from.
    pub dma_reg: u8,
    /// The interrupt enable register IE: the low five bits of what was written.
    pub ie_reg: u8,
}

impl View for Peripherals {
    type V = PeripheralsView;

    closed spec fn view(&self) -> PeripheralsView {
        PeripheralsView {
            bootrom: self.bootrom@,
            cartridge: self.cartridge@,
            video: self.video@,
            ram: self.ram@,
            joypad: self.joypad,
            serial: self.serial,
            timer: self.timer,
            bootrom_mapped: self.bootrom_mapped,
            dma_reg: self.dma_reg,
            ie_reg: self.ie_reg,
        }
    }
}

/// The cycle that stamps byte `i` of an OAM DMA started at `cycle`: four cycles a byte,
/// held at `u64::MAX` if the counter ends first.
pub open spec fn dma_cycle(cycle: u64, i: int) -> u64 {
    if cycle + 4 * i > u64::MAX {
        u64::MAX
    } else {
        (cycle + 4 * i) as u64
    }
}

/// The earlier of two cycles.
pub open spec fn earlier(a: u64, b: u64) -> u64 {
    if b < a {
        b
    } else {
        a
    }
}

/// The address after `addr`, wrapping from 0xFFFF to 0.
pub open spec fn next_addr(addr: u16) -> u16 {
    if addr == 0xffff {
        0
    } else {
        (addr + 1) as u16
    }
}

impl PeripheralsView {
    pub open spec fn wf(self) -> bool {
        &&& self.bootrom.len() == 256
        &&& self.cartridge.wf()
        &&& self.video.wf()
        &&& self.ram.wf()
    }

    /// The bus at power-on, with the given boot ROM and cartridge.
    pub open spec fn initial(bootrom: Seq<u8>, cartridge: CartridgeView) -> PeripheralsView {
        PeripheralsView {
            bootrom,
            cartridge,
            video: VideoView::initial(),
            ram: RamView::zeroed(),
            joypad: Joypad {
                buttons: Buttons(0xff),
                select_buttons: false,
                select_dpad: false,
                irq_pending: false,
            },
            serial: Serial {
                data: 0,
                transfer_enable: false,
                clock_select: serial::Clock::External,
                irq_pending: false,
            },
            timer: Timer {
                tma: 0,
                enable: false,
                clock: timer::Clock::Div1024,
                irq_pending: false,
            },
            bootrom_mapped: true,
            dma_reg: 0,
            ie_reg: 0,
        }
    }

    /// The interrupts that are pending at `cycle`, each taken from the peripheral that owns
    /// it: the register IF.
    pub open spec fn pending(self, cycle: u64) -> InterruptMask {
        InterruptMask(
            (self.video.pending(cycle).0 + self.timer.spec_pending().0
                + self.serial.spec_pending().0 + self.joypad.spec_pending().0) as u8,
        )
    }

    /// The bus after IF is set by hand: every peripheral takes the bits that it owns.
    pub open spec fn set_pending(self, cycle: u64, mask: InterruptMask) -> PeripheralsView {
        PeripheralsView {
            video: self.video.set_pending(cycle, mask),
            timer: self.timer.spec_set_pending(mask),
            serial: self.serial.spec_set_pending(mask),
            joypad: self.joypad.spec_set_pending(mask),
            ..self
        }
    }

    /// The earliest cycle from `cycle` on at which any peripheral may raise an interrupt:
    /// the least of their answers. Timer, serial port and joypad never raise one.
    pub open spec fn next_pending(self, cycle: u64) -> u64 {
        earlier(
            earlier(
                earlier(self.video.next_pending(cycle), self.timer.next_pending_at(cycle)),
                self.serial.next_pending_at(cycle),
            ),
            self.joypad.next_pending_at(cycle),
        )
    }

    /// What a read at `cycle` returns: the byte, or the fault that the peripheral meets.
    #[verifier::opaque]
    pub open spec fn read(self, cycle: u64, addr: u16) -> Result<u8, Fault> {
        if addr <= 0x00ff && self.bootrom_mapped {
            Ok(self.bootrom[addr as int])
        } else if addr <= 0x7fff {
            self.cartridge.read(addr)
        } else if addr <= 0x9fff {
            Ok(self.video.read(cycle, addr))
        } else if addr <= 0xbfff {
            self.cartridge.read(addr)
        } else if addr <= 0xfdff {
            Ok(self.ram.read(addr))
        } else if addr <= 0xfe9f {
            Ok(self.video.read(cycle, addr))
        } else if addr <= 0xfeff {
            Ok(0)
        } else if addr == 0xff00 {
            Ok(self.joypad.spec_read())
        } else if addr <= 0xff02 {
            Ok(self.serial.spec_read(addr))
        } else if addr == 0xff03 {
            Ok(0)
        } else if addr <= 0xff07 {
            self.timer.spec_read(cycle, addr)
        } else if addr <= 0xff0e {
            Ok(0)
        } else if addr == 0xff0f {
            Ok(self.pending(cycle).0)
        } else if addr <= 0xff3f {
            Ok(0)
        } else if addr == 0xff46 {
            Ok(self.dma_reg)
        } else if addr <= 0xff4b {
            Ok(self.video.read(cycle, addr))
        } else if addr <= 0xff4f {
            Ok(0)
        } else if addr == 0xff50 {
            Ok(
                if self.bootrom_mapped {
                    1
                } else {
                    0
                },
            )
        } else if addr <= 0xff7f {
            Ok(0)
        } else if addr <= 0xfffe {
            Ok(self.ram.read(addr))
        } else {
            Ok(self.ie_reg)
        }
    }

    /// The 16-bit value at `addr`, low byte first. The second byte is read only if the
    /// first read met no fault.
    pub open spec fn read_u16(self, cycle: u64, addr: u16) -> Result<u16, Fault> {
        match self.read(cycle, addr) {
            Err(fault) => Err(fault),
            Ok(low) => match self.read(cycle, next_addr(addr)) {
                Err(fault) => Err(fault),
                Ok(high) => Ok((low + 256 * high) as u16),
            },
        }
    }

    /// The fault that a write to any address but the DMA register meets, if any.
    #[verifier::opaque]
    pub open spec fn store_fault(self, cycle: u64, addr: u16, val: u8) -> Option<Fault> {
        if addr <= 0x00ff && self.bootrom_mapped {
            None
        } else if addr <= 0x7fff {
            self.cartridge.write_fault(addr)
        } else if addr <= 0x9fff {
            self.video.write_fault(cycle, addr, val)
        } else if addr <= 0xbfff {
            self.cartridge.write_fault(addr)
        } else if addr <= 0xfdff {
            None
        } else if addr <= 0xfe9f {
            self.video.write_fault(cycle, addr, val)
        } else if 0xff04 <= addr <= 0xff07 {
            Timer::spec_write_fault(addr)
        } else if is_video_register(addr) {
            self.video.write_fault(cycle, addr, val)
        } else {
            None
        }
    }

    /// The bus after a write to any address but the DMA register that meets no fault.
    #[verifier::opaque]
    pub open spec fn store(self, cycle: u64, addr: u16, val: u8) -> PeripheralsView {
        if addr <= 0x00ff && self.bootrom_mapped {
            self
        } else if addr <= 0x7fff {
            PeripheralsView { cartridge: self.cartridge.write(addr, val), ..self }
        } else if addr <= 0x9fff {
            PeripheralsView { video: self.video.write(cycle, addr, val), ..self }
        } else if addr <= 0xbfff {
            PeripheralsView { cartridge: self.cartridge.write(addr, val), ..self }
        } else if addr <= 0xfdff {
            PeripheralsView { ram: self.ram.write(addr, val), ..self }
        } else if addr <= 0xfe9f {
            PeripheralsView { video: self.video.write(cycle, addr, val), ..self }
        } else if addr <= 0xfeff {
            self
        } else if addr == 0xff00 {
            PeripheralsView { joypad: self.joypad.spec_write(val), ..self }
        } else if addr <= 0xff02 {
            PeripheralsView { serial: self.serial.spec_write(addr, val), ..self }
        } else if addr == 0xff03 {
            self
        } else if addr <= 0xff07 {
            PeripheralsView { timer: self.timer.spec_write(addr, val), ..self }
        } else if addr <= 0xff0e {
            self
        } else if addr == 0xff0f {
            self.set_pending(cycle, InterruptMask::spec_from(val))
        } else if addr <= 0xff3f {
            self
        } else if is_video_register(addr) {
            PeripheralsView { video: self.video.write(cycle, addr, val), ..self }
        } else if addr <= 0xff4f {
            self
        } else if addr == 0xff50 {
            PeripheralsView { bootrom_mapped: self.bootrom_mapped && val == 0, ..self }
        } else if addr <= 0xff7f {
            self
        } else if addr <= 0xfffe {
            PeripheralsView { ram: self.ram.write(addr, val), ..self }
        } else {
            PeripheralsView { ie_reg: InterruptMask::spec_from(val).0, ..self }
        }
    }

    /// The bus and the result once the bytes `i` to 159 of an OAM DMA from page `page` are
    /// copied: byte `i` goes from `page * 256 + i` to `0xFE00 + i`. The copy ends at the
    /// first fault, with the bytes before it copied.
    #[verifier::opaque]
    pub open spec fn dma_from(self, cycle: u64, page: u8, i: int) -> (
        PeripheralsView,
        Result<(), Fault>,
    )
        decreases 160 - i,
    {
        if i < 0 || i >= 160 {
            (PeripheralsView { dma_reg: page, ..self }, Ok(()))
        } else {
            let stamp = dma_cycle(cycle, i);
            let target = (0xfe00 + i) as u16;
            match self.read(stamp, (page * 256 + i) as u16) {
                Err(fault) => (self, Err(fault)),
                Ok(byte) => match self.video.write_fault(stamp, target, byte) {
                    Some(fault) => (self, Err(fault)),
                    None => PeripheralsView {
                        video: self.video.write(stamp, target, byte),
                        ..self
                    }.dma_from(cycle, page, i + 1),
                },
            }
        }
    }

    /// The bus and the result after a write at `cycle`. A write that meets a fault changes
    /// nothing, but for an OAM DMA (a write to 0xFF46), which keeps the bytes copied so far.
    pub open spec fn write(self, cycle: u64, addr: u16, val: u8) -> (
        PeripheralsView,
        Result<(), Fault>,
    ) {
        if addr == 0xff46 {
            self.dma_from(cycle, val, 0)
        } else {
            match self.store_fault(cycle, addr, val) {
                Some(fault) => (self, Err(fault)),
                None => (self.store(cycle, addr, val), Ok(())),
            }
        }
    }

    /// The bus and the result after a 16-bit write, low byte first. The high byte is
    /// written only if the first write met no fault.
    pub open spec fn write_u16(self, cycle: u64, addr: u16, val: u16) -> (
        PeripheralsView,
        Result<(), Fault>,
    ) {
        let first = self.write(cycle, addr, (val % 256) as u8);
        if first.1 is Err {
            first
        } else {
            first.0.write(cycle, next_addr(addr), (val / 256) as u8)
        }
    }
}

/// Whether a bus address belongs to the internal memory: the work RAM, its echo or the
/// high RAM.
pub open spec fn in_internal_ram(addr: u16) -> bool {
    in_work_ram(addr) || in_high_ram(addr)
}

/// Whether two bus addresses of the internal memory name the same byte: an address of the
/// echo names the byte of the work RAM 0x2000 below it.
pub open spec fn same_ram_byte(a: u16, b: u16) -> bool {
    if in_work_ram(a) && in_work_ram(b) {
        memory::ram::work_offset(a) == memory::ram::work_offset(b)
    } else {
        a == b
    }
}

/// A write to the internal memory meets no fault and changes that byte of memory alone:
/// a read of the byte returns what was written, and every other address of the internal
/// memory reads as before.
pub proof fn lemma_ram_write_then_read(
    bus: PeripheralsView,
    cycle: u64,
    addr: u16,
    val: u8,
    later: u64,
    other: u16,
)
    requires
        bus.wf(),
        in_internal_ram(addr),
        in_internal_ram(other),
    ensures
        bus.write(cycle, addr, val).1 is Ok,
        bus.write(cycle, addr, val).0.wf(),
        bus.write(cycle, addr, val).0.read(later, other) == (if same_ram_byte(addr, other) {
            Ok::<u8, Fault>(val)
        } else {
            bus.read(later, other)
        }),
{
    reveal(PeripheralsView::read);
    reveal(PeripheralsView::store);
    reveal(PeripheralsView::store_fault);
}

/// A 16-bit value that is written to the internal memory is read back from the same
/// address, whatever the cycles of the write and of the read.
pub proof fn lemma_u16_round_trip(bus: PeripheralsView, cycle: u64, addr: u16, val: u16, later: u64)
    requires
        bus.wf(),
        in_internal_ram(addr),
        in_internal_ram(next_addr(addr)),
    ensures
        bus.write_u16(cycle, addr, val).1 is Ok,
        bus.write_u16(cycle, addr, val).0.wf(),
        bus.write_u16(cycle, addr, val).0.read_u16(later, addr) == Ok::<u16, Fault>(val),
{
    let low = (val % 256) as u8;
    let high = (val / 256) as u8;
    let first = bus.write(cycle, addr, low).0;
    lemma_ram_write_then_read(bus, cycle, addr, low, later, addr);
    lemma_ram_write_then_read(first, cycle, next_addr(addr), high, later, addr);
    lemma_ram_write_then_read(first, cycle, next_addr(addr), high, later, next_addr(addr));
}

/// Once the boot ROM is unmapped no write maps it again, and a nonzero write to 0xFF50
/// unmaps it.
pub proof fn lemma_bootrom_stays_unmapped(bus: PeripheralsView, cycle: u64, addr: u16, val: u8)
    requires
        bus.wf(),
    ensures
        !bus.bootrom_mapped ==> !bus.write(cycle, addr, val).0.bootrom_mapped,
        addr == 0xff50 && val != 0 ==> !bus.write(cycle, addr, val).0.bootrom_mapped,
        bus.write(cycle, addr, val).0.bootrom == bus.bootrom,
        bus.write(cycle, addr, val).0.cartridge.rom == bus.cartridge.rom,
{
    reveal(PeripheralsView::store);
    reveal(PeripheralsView::store_fault);
    if addr == 0xff46 {
        lemma_dma_keeps_mapping(bus, cycle, val, 0);
    }
}

/// An OAM DMA changes neither the boot ROM nor its mapping nor the cartridge.
pub proof fn lemma_dma_keeps_mapping(bus: PeripheralsView, cycle: u64, page: u8, i: int)
    ensures
        bus.dma_from(cycle, page, i).0.bootrom_mapped == bus.bootrom_mapped,
        bus.dma_from(cycle, page, i).0.bootrom == bus.bootrom,
        bus.dma_from(cycle, page, i).0.cartridge == bus.cartridge,
    decreases 160 - i,
{
    reveal(PeripheralsView::dma_from);
    if 0 <= i < 160 {
        let stamp = dma_cycle(cycle, i);
        let target = (0xfe00 + i) as u16;
        match bus.read(stamp, (page * 256 + i) as u16) {
            Err(_) => {},
            Ok(byte) => match bus.video.write_fault(stamp, target, byte) {
                Some(_) => {},
                None => {
                    lemma_dma_keeps_mapping(
                        PeripheralsView { video: bus.video.write(stamp, target, byte), ..bus },
                        cycle,
                        page,
                        i + 1,
                    );
                },
            },
        }
    }
}

/// The bits of a sum of masks that do not overlap are the bits of the masks.
pub proof fn lemma_sum_bits(v: u8, t: u8, s: u8, j: u8)
    by (bit_vector)
    requires
        v <= 3,
        t == 0 || t == 0x04,
        s == 0 || s == 0x08,
        j == 0 || j == 0x10,
    ensures
        ((v + t + s + j) as u8 & 0x01 != 0) == (v & 0x01 != 0),
        ((v + t + s + j) as u8 & 0x02 != 0) == (v & 0x02 != 0),
        ((v + t + s + j) as u8 & 0x04 != 0) == (t != 0),
        ((v + t + s + j) as u8 & 0x08 != 0) == (s != 0),
        ((v + t + s + j) as u8 & 0x10 != 0) == (j != 0),
        (v + t + s + j) as u8 & 0xe0 == 0,
{
}

/// Each bit of IF is the bit of the peripheral that owns it, and the three high bits are
/// clear.
pub proof fn lemma_pending_bits(bus: PeripheralsView, cycle: u64)
    ensures
        bus.pending(cycle).wf(),
        bus.pending(cycle).spec_is_set(Interrupt::VBlank) == bus.video.pending(cycle).spec_is_set(
            Interrupt::VBlank,
        ),
        bus.pending(cycle).spec_is_set(Interrupt::Lcd) == bus.video.pending(cycle).spec_is_set(
            Interrupt::Lcd,
        ),
        bus.pending(cycle).spec_is_set(Interrupt::Timer) == bus.timer.irq_pending,
        bus.pending(cycle).spec_is_set(Interrupt::Serial) == bus.serial.irq_pending,
        bus.pending(cycle).spec_is_set(Interrupt::Joypad) == bus.joypad.irq_pending,
{
    lemma_sum_bits(
        bus.video.pending(cycle).0,
        bus.timer.spec_pending().0,
        bus.serial.spec_pending().0,
        bus.joypad.spec_pending().0,
    );
}

/// After a write to IF the bits of the LCD, the timer, the serial port and the joypad read
/// as they were written, at any cycle.
pub proof fn lemma_if_reads_back(bus: PeripheralsView, cycle: u64, val: u8, later: u64)
    requires
        bus.wf(),
    ensures
        bus.write(cycle, 0xff0f, val).1 is Ok,
        ({
            let pending = bus.write(cycle, 0xff0f, val).0.pending(later);
            &&& bus.write(cycle, 0xff0f, val).0.read(later, 0xff0f) == Ok::<u8, Fault>(pending.0)
            &&& pending.spec_is_set(Interrupt::Lcd) == (val & 0x02 != 0)
            &&& pending.spec_is_set(Interrupt::Timer) == (val & 0x04 != 0)
            &&& pending.spec_is_set(Interrupt::Serial) == (val & 0x08 != 0)
            &&& pending.spec_is_set(Interrupt::Joypad) == (val & 0x10 != 0)
            &&& val & 0x01 != 0 ==> pending.spec_is_set(Interrupt::VBlank)
        }),
{
    reveal(PeripheralsView::read);
    reveal(PeripheralsView::store);
    reveal(PeripheralsView::store_fault);
    let after = bus.write(cycle, 0xff0f, val).0;
    lemma_pending_bits(after, later);
    assert((val & 0x1f) & 0x01 == val & 0x01 && (val & 0x1f) & 0x02 == val & 0x02 && (val & 0x1f)
        & 0x04 == val & 0x04 && (val & 0x1f) & 0x08 == val & 0x08 && (val & 0x1f) & 0x10 == val
        & 0x10) by (bit_vector);
    lemma_low_two_bits(after.video.pending(later).0);
}

/// Whether the video unit can draw its objects: they are hidden or 8 lines tall.
pub open spec fn objects_drawable(bus: PeripheralsView) -> bool {
    !(bus.video.lcdc.spec_obj_enable() && bus.video.lcdc.spec_obj_size() == 16)
}

/// The rest of an OAM DMA from a page of the internal memory, from byte `i` on: it meets
/// no fault, fills the OAM from byte `i` on with the bytes of the page, leaves the bytes of
/// the OAM before `i` and the internal memory, and keeps the page in the DMA register.
pub proof fn lemma_dma_from_ram(bus: PeripheralsView, cycle: u64, page: u8, i: int)
    requires
        bus.wf(),
        0xc0 <= page <= 0xfd,
        objects_drawable(bus),
        0 <= i <= 160,
    ensures
        bus.dma_from(cycle, page, i).1 is Ok,
        bus.dma_from(cycle, page, i).0.wf(),
        bus.dma_from(cycle, page, i).0.dma_reg == page,
        bus.dma_from(cycle, page, i).0.ram == bus.ram,
        forall|j: int|
            i <= j < 160 ==> #[trigger] bus.dma_from(cycle, page, i).0.video.oam[j]
                == bus.ram.read((page * 256 + j) as u16),
        forall|j: int|
            0 <= j < i ==> #[trigger] bus.dma_from(cycle, page, i).0.video.oam[j]
                == bus.video.oam[j],
    decreases 160 - i,
{
    reveal(PeripheralsView::dma_from);
    reveal(PeripheralsView::read);
    if i < 160 {
        let stamp = dma_cycle(cycle, i);
        let target = (0xfe00 + i) as u16;
        let source = (page * 256 + i) as u16;
        let byte = bus.ram.read(source);
        assert(bus.read(stamp, source) == Ok::<u8, Fault>(byte));
        lemma_render_keeps_state(bus.video, stamp);
        let next = PeripheralsView { video: bus.video.write(stamp, target, byte), ..bus };
        assert(next.video.oam == bus.video.oam.update(i, byte));
        lemma_dma_from_ram(next, cycle, page, i + 1);
    }
}

/// An OAM DMA from a page of the internal memory (a write of 0xC0 to 0xFD to 0xFF46) meets
/// no fault while the objects can be drawn. Afterwards the OAM holds the first 160 bytes of
/// the page, and 0xFF46 reads as the page.
pub proof fn lemma_dma_copies_ram(bus: PeripheralsView, cycle: u64, page: u8, later: u64)
    requires
        bus.wf(),
        0xc0 <= page <= 0xfd,
        objects_drawable(bus),
    ensures
        bus.write(cycle, 0xff46, page).1 is Ok,
        bus.write(cycle, 0xff46, page).0.read(later, 0xff46) == Ok::<u8, Fault>(page),
        forall|j: int|
            0 <= j < 160 ==> #[trigger] bus.write(cycle, 0xff46, page).0.read(
                later,
                (0xfe00 + j) as u16,
            ) == bus.read(cycle, (page * 256 + j) as u16),
{
    lemma_dma_from_ram(bus, cycle, page, 0);
    reveal(PeripheralsView::read);
    let after = bus.write(cycle, 0xff46, page).0;
    assert forall|j: int| 0 <= j < 160 implies #[trigger] after.read(later, (0xfe00 + j) as u16)
        == bus.read(cycle, (page * 256 + j) as u16) by {
        assert(after.video.oam[j] == bus.ram.read((page * 256 + j) as u16));
    }
}

/// While the boot ROM is unmapped, reads below 0x0100 return what the cartridge returns.
pub proof fn lemma_unmapped_reads_cartridge(bus: PeripheralsView, cycle: u64, addr: u16)
    requires
        !bus.bootrom_mapped,
        addr <= 0x00ff,
    ensures
        bus.read(cycle, addr) == bus.cartridge.read(addr),
{
    reveal(PeripheralsView::read);
}

/// Masking a byte with the bits of one peripheral keeps each of those bits.
pub proof fn lemma_owned_bits(m: u8)
    by (bit_vector)
    ensures
        ((m & (0x01u8 | 0x02u8)) & 0x01 != 0) == (m & 0x01 != 0),
        ((m & (0x01u8 | 0x02u8)) & 0x02 != 0) == (m & 0x02 != 0),
        ((m & 0x04) & 0x04 != 0) == (m & 0x04 != 0),
        ((m & 0x08) & 0x08 != 0) == (m & 0x08 != 0),
        ((m & 0x10) & 0x10 != 0) == (m & 0x10 != 0),
{
}

/// The bits of the peripherals do not overlap: joining their masks adds them up.
pub proof fn lemma_join_masks(v: u8, t: u8, s: u8, j: u8)
    by (bit_vector)
    requires
        v <= 3,
        t == 0 || t == 0x04,
        s == 0 || s == 0x08,
        j == 0 || j == 0x10,
    ensures
        (((v & (0x01u8 | 0x02u8)) | (t & 0x04)) | (s & 0x08)) | (j & 0x10) == v + t + s + j,
        v + t + s + j <= 0x1f,
{
}

impl Peripherals {
    /// The bus at power-on. The boot ROM image must hold exactly 256 bytes.
    pub fn new(bootrom: Vec<u8>, cartridge: Cartridge) -> (bus: Self)
        requires
            bootrom@.len() == 256,
            cartridge@.wf(),
        ensures
            bus@ == PeripheralsView::initial(bootrom@, cartridge@),
            bus@.wf(),
    {
        Peripherals {
            bootrom: BootRom::new(bootrom),
            cartridge,
            video: Video::new(),
            ram: Ram::new(),
            joypad: Joypad::new(),
            serial: Serial::new(),
            timer: Timer::new(),
            audio: Audio::new(),
            bootrom_mapped: true,
            dma_reg: 0,
            ie_reg: 0,
        }
    }

    /// Takes the buttons that are held down from now on.
    pub fn buttons(&mut self, buttons: &[Button])
        ensures
            final(self)@ == (PeripheralsView {
                joypad: Joypad { buttons: Buttons::of(buttons@), ..old(self)@.joypad },
                ..old(self)@
            }),
            forall|button: Button|
                final(self)@.joypad.buttons.is_pressed(button) <==> buttons@.contains(button),
    {
        self.joypad.buttons(buttons);
    }

    /// Hands out the notices that writes to the cartridge have left since they were last
    /// taken, the oldest first, and keeps none of them.
    pub fn take_notices(&mut self) -> (notices: Vec<Notice>)
        ensures
            notices@ == old(self)@.cartridge.notices,
            final(self)@ == (PeripheralsView {
                cartridge: CartridgeView {
                    notices: Seq::<Notice>::empty(),
                    ..old(self)@.cartridge
                },
                ..old(self)@
            }),
    {
        self.cartridge.take_notices()
    }

    /// The picture as the LCD shows it by `cycle`.
    /// Fails if a scanline is due while objects of 16 lines are enabled.
    pub fn framebuffer(&mut self, cycle: u64) -> (res: Result<&[u8; 23040], Fault>)
        requires
            old(self)@.wf(),
        ensures
            final(self)@.wf(),
            res is Err <==> old(self)@.video.render_fault(cycle),
            res matches Err(fault) ==> fault == Fault::TallObjects && final(self)@ == old(self)@,
            res matches Ok(picture) ==> final(self)@ == (PeripheralsView {
                video: old(self)@.video.render_until(cycle),
                ..old(self)@
            }) && picture@ == final(self)@.video.framebuffer,
    {
        self.video.framebuffer(cycle)
    }

    /// Reads the byte at `addr`, at `cycle`.
    pub fn read(&self, cycle: u64, addr: u16) -> (res: Result<u8, Fault>)
        requires
            self@.wf(),
        ensures
            res == self@.read(cycle, addr),
    {
        reveal(PeripheralsView::read);
        if addr <= 0x00ff && self.bootrom_mapped {
            Ok(self.bootrom.read(addr))
        } else if addr <= 0x7fff {
            self.cartridge.read(addr)
        } else if addr <= 0x9fff {
            Ok(self.video.read(cycle, addr))
        } else if addr <= 0xbfff {
            self.cartridge.read(addr)
        } else if addr <= 0xfdff {
            Ok(self.ram.read(addr))
        } else if addr <= 0xfe9f {
            Ok(self.video.read(cycle, addr))
        } else if addr <= 0xfeff {
            Ok(0)
        } else if addr == 0xff00 {
            Ok(self.joypad.read())
        } else if addr <= 0xff02 {
            Ok(self.serial.read(cycle, addr))
        } else if addr == 0xff03 {
            Ok(0)
        } else if addr <= 0xff07 {
            self.timer.read(cycle, addr)
        } else if addr <= 0xff0e {
            Ok(0)
        } else if addr == 0xff0f {
            Ok(u8::from(self.pending(cycle)))
        } else if addr <= 0xff3f {
            Ok(self.audio.read(cycle, addr))
        } else if addr == 0xff46 {
            Ok(self.dma_reg)
        } else if addr <= 0xff4b {
            Ok(self.video.read(cycle, addr))
        } else if addr <= 0xff4f {
            Ok(0)
        } else if addr == 0xff50 {
            Ok(
                if self.bootrom_mapped {
                    1
                } else {
                    0
                },
            )
        } else if addr <= 0xff7f {
            Ok(0)
        } else if addr <= 0xfffe {
            Ok(self.ram.read(addr))
        } else {
            Ok(self.ie_reg)
        }
    }

    /// Copies 160 bytes from page `page` to the OAM, then keeps `page` in the DMA register.
    fn oam_dma(&mut self, cycle: u64, page: u8) -> (res: Result<(), Fault>)
        requires
            old(self)@.wf(),
        ensures
            final(self)@.wf(),
            final(self)@ == old(self)@.dma_from(cycle, page, 0).0,
            res == old(self)@.dma_from(cycle, page, 0).1,
    {
        reveal(PeripheralsView::dma_from);
        let mut idx: u16 = 0;
        while idx < 160
            invariant
                idx <= 160,
                self@.wf(),
                self@.dma_from(cycle, page, idx as int) == old(self)@.dma_from(cycle, page, 0),
            decreases 160 - idx,
        {
            proof {
                reveal(PeripheralsView::dma_from);
            }
            let virtual_cycle = cycle.saturating_add((idx as u64) * 4);
            let src_addr: u16 = (page as u16) * 256 + idx;
            let dst_addr: u16 = 0xfe00 + idx;
            let val = match self.read(virtual_cycle, src_addr) {
                Ok(val) => val,
                Err(fault) => {
                    return Err(fault);
                },
            };
            match self.video.write(virtual_cycle, dst_addr, val) {
                Ok(()) => {},
                Err(fault) => {
                    return Err(fault);
                },
            }
            idx += 1;
        }
        proof {
            reveal(PeripheralsView::dma_from);
        }
        self.dma_reg = page;
        Ok(())
    }

    /// Writes a byte at `addr`, at `cycle`.
    /// A write that fails changes nothing, but for an OAM DMA (a write to 0xFF46), which
    /// keeps the bytes that it copied before the fault.
    pub fn write(&mut self, cycle: u64, addr: u16, val: u8) -> (res: Result<(), Fault>)
        requires
            old(self)@.wf(),
        ensures
            final(self)@.wf(),
            final(self)@ == old(self)@.write(cycle, addr, val).0,
            res == old(self)@.write(cycle, addr, val).1,
    {
        reveal(PeripheralsView::store);
        reveal(PeripheralsView::store_fault);
        if addr <= 0x00ff && self.bootrom_mapped {
            Ok(())
        } else if addr <= 0x7fff {
            self.cartridge.write(addr, val)
        } else if addr <= 0x9fff {
            self.video.write(cycle, addr, val)
        } else if addr <= 0xbfff {
            self.cartridge.write(addr, val)
        } else if addr <= 0xfdff {
            self.ram.write(addr, val);
            Ok(())
        } else if addr <= 0xfe9f {
            self.video.write(cycle, addr, val)
        } else if addr <= 0xfeff {
            Ok(())
        } else if addr == 0xff00 {
            self.joypad.write(val);
            Ok(())
        } else if addr <= 0xff02 {
            self.serial.write(cycle, addr, val);
            Ok(())
        } else if addr == 0xff03 {
            Ok(())
        } else if addr <= 0xff07 {
            self.timer.write(cycle, addr, val)
        } else if addr <= 0xff0e {
            Ok(())
        } else if addr == 0xff0f {
            self.set_pending(cycle, InterruptMask::from(val));
            Ok(())
        } else if addr <= 0xff3f {
            self.audio.write(cycle, addr, val);
            Ok(())
        } else if addr == 0xff46 {
            self.oam_dma(cycle, val)
        } else if addr <= 0xff4b {
            self.video.write(cycle, addr, val)
        } else if addr <= 0xff4f {
            Ok(())
        } else if addr == 0xff50 {
            if val != 0 {
                self.bootrom_mapped = false;
            }
            Ok(())
        } else if addr <= 0xff7f {
            Ok(())
        } else if addr <= 0xfffe {
            self.ram.write(addr, val);
            Ok(())
        } else {
            self.ie_reg = InterruptMask::from(val).into();
            Ok(())
        }
    }

    /// Reads the 16-bit value at `addr`, low byte first.
    pub fn read_u16(&self, cycle: u64, addr: u16) -> (res: Result<u16, Fault>)
        requires
            self@.wf(),
        ensures
            res == self@.read_u16(cycle, addr),
    {
        let low = self.read(cycle, addr)?;
        let high = self.read(cycle, addr.wrapping_add(1))?;
        Ok((low as u16) + 256 * (high as u16))
    }

    /// Writes a 16-bit value at `addr`, low byte first.
    pub fn write_u16(&mut self, cycle: u64, addr: u16, val: u16) -> (res: Result<(), Fault>)
        requires
            old(self)@.wf(),
        ensures
            final(self)@.wf(),
            final(self)@ == old(self)@.write_u16(cycle, addr, val).0,
            res == old(self)@.write_u16(cycle, addr, val).1,
    {
        let low = (val % 256) as u8;
        let high = (val / 256) as u8;
        self.write(cycle, addr, low)?;
        self.write(cycle, addr.wrapping_add(1), high)
    }
}

impl InterruptSource for Peripherals {
    open spec fn source_wf(&self) -> bool {
        self@.wf()
    }

    open spec fn pending_at(&self, cycle: u64) -> InterruptMask {
        self@.pending(cycle)
    }

    open spec fn next_pending_at(&self, cycle: u64) -> u64 {
        self@.next_pending(cycle)
    }

    open spec fn acknowledged(&self, cycle: u64, mask: InterruptMask, after: &Self) -> bool {
        after@ == self@.set_pending(cycle, mask)
    }

    fn pending(&self, cycle: u64) -> (mask: InterruptMask) {
        let video = self.video.pending(cycle);
        let timer = self.timer.pending(cycle);
        let serial = self.serial.pending(cycle);
        let joypad = self.joypad.pending(cycle);
        proof {
            lemma_join_masks(video.0, timer.0, serial.0, joypad.0);
        }
        (video & (Interrupt::VBlank.as_mask() | Interrupt::Lcd.as_mask())) | (timer
            & Interrupt::Timer.as_mask()) | (serial & Interrupt::Serial.as_mask()) | (joypad
            & Interrupt::Joypad.as_mask())
    }

    fn set_pending(&mut self, cycle: u64, mask: InterruptMask) {
        proof {
            lemma_owned_bits(mask.0);
        }
        self.video.set_pending(
            cycle,
            mask & (Interrupt::VBlank.as_mask() | Interrupt::Lcd.as_mask()),
        );
        self.timer.set_pending(cycle, mask & Interrupt::Timer.as_mask());
        self.serial.set_pending(cycle, mask & Interrupt::Serial.as_mask());
        self.joypad.set_pending(cycle, mask & Interrupt::Joypad.as_mask());
    }

    fn next_pending(&self, cycle: u64) -> (next: u64) {
        let mut next = self.video.next_pending(cycle);
        let timer = self.timer.next_pending(cycle);
        if timer < next {
            next = timer;
        }
        let serial = self.serial.next_pending(cycle);
        if serial < next {
            next = serial;
        }
        let joypad = self.joypad.next_pending(cycle);
        if joypad < next {
            next = joypad;
        }
        next
    }
}

} // verus!
