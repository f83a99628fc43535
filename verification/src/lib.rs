//! The core of an emulator of the DMG handheld console: the SM83 CPU, the bus with its
//! peripherals, and a video unit that draws scanlines on demand.
//!
//! The machine is driven frame by frame: `Dmg::run_frame` takes the buttons that are held
//! down, lets the CPU run for the cycles of one frame and hands out the picture.
use vstd::prelude::*;

pub mod cpu;
pub mod fault;
pub mod peripherals;

use cpu::{lemma_run_ends_near, Cpu, Outcome};
use peripherals::joypad::{Buttons, Joypad};
use peripherals::memory::cartridge::CartridgeView;
use peripherals::PeripheralsView;

pub use fault::Fault;
pub use peripherals::joypad::Button;
pub use peripherals::memory::cartridge::{Cartridge, Notice};
pub use peripherals::Peripherals;

verus! {

/// The cycles of one frame.
pub const FRAME_CYCLES: u64 = 70224;

/// The machine: a CPU and the bus with its peripherals.
pub struct Dmg {
    cpu: Cpu,
    peripherals: Peripherals,
}

/// The state of the machine.
pub struct DmgView {
    pub cpu: Cpu,
    pub bus: PeripheralsView,
}

impl View for Dmg {
    type V = DmgView;

    closed spec fn view(&self) -> DmgView {
        DmgView { cpu: self.cpu, bus: self.peripherals@ }
    }
}

impl DmgView {
    pub open spec fn wf(self) -> bool {
        self.cpu.wf() && self.bus.wf()
    }

    /// The bus with the given buttons held down.
    pub open spec fn press(self, buttons: Seq<Button>) -> PeripheralsView {
        PeripheralsView {
            joypad: Joypad { buttons: Buttons::of(buttons), ..self.bus.joypad },
            ..self.bus
        }
    }

    /// The outcome of one frame: the buttons are taken, the CPU runs for 70224 cycles, and
    /// the scanlines that have ended by then are drawn. The frame ends early at the first
    /// fault.
    pub open spec fn run_frame(self, buttons: Seq<Button>) -> Outcome<()> {
        let ran = self.cpu.spec_run(self.press(buttons), 70224);
        if ran.result is Err {
            ran
        } else if ran.bus.video.render_fault(ran.cpu.cycle) {
            ran.cpu.failed(ran.bus, Fault::TallObjects)
        } else {
            ran.cpu.done(
                PeripheralsView { video: ran.bus.video.render_until(ran.cpu.cycle), ..ran.bus },
                (),
            )
        }
    }
}

impl DmgView {
    /// The machine after a frame.
    pub open spec fn after_frame(self, buttons: Seq<Button>) -> DmgView {
        DmgView { cpu: self.run_frame(buttons).cpu, bus: self.run_frame(buttons).bus }
    }
}

/// A frame that meets no fault moves the cycle counter on by at least 70224 cycles, and by
/// less than 70224 + 24 cycles unless it leaves the CPU halted: the frame ends with the
/// instruction that is under way when the 70224 cycles are over.
pub proof fn lemma_frame_advances(dmg: DmgView, buttons: Seq<Button>)
    requires
        dmg.cpu.wf(),
        dmg.run_frame(buttons).result is Ok,
    ensures
        dmg.after_frame(buttons).cpu.wf(),
        dmg.after_frame(buttons).cpu.cycle >= dmg.cpu.cycle + 70224,
        !dmg.after_frame(buttons).cpu.halted ==> dmg.after_frame(buttons).cpu.cycle
            < dmg.cpu.cycle + 70224 + 24,
{
    let end = (dmg.cpu.cycle + 70224) as u64;
    lemma_run_ends_near(dmg.cpu, dmg.press(buttons), end);
    cpu::lemma_run_never_goes_back(dmg.cpu, dmg.press(buttons), end);
}

/// Two frames in a row that meet no fault move the cycle counter on by at least 70224
/// cycles each, and by less than 70224 + 24 cycles each unless the frame leaves the CPU
/// halted.
pub proof fn lemma_frames_advance(dmg: DmgView, first: Seq<Button>, second: Seq<Button>)
    requires
        dmg.cpu.wf(),
        dmg.run_frame(first).result is Ok,
        dmg.after_frame(first).run_frame(second).result is Ok,
    ensures
        dmg.after_frame(first).cpu.cycle >= dmg.cpu.cycle + 70224,
        dmg.after_frame(first).after_frame(second).cpu.cycle >= dmg.after_frame(first).cpu.cycle
            + 70224,
        !dmg.after_frame(first).cpu.halted ==> dmg.after_frame(first).cpu.cycle < dmg.cpu.cycle
            + 70224 + 24,
        !dmg.after_frame(first).after_frame(second).cpu.halted ==> dmg.after_frame(
            first,
        ).after_frame(second).cpu.cycle < dmg.after_frame(first).cpu.cycle + 70224 + 24,
{
    lemma_frame_advances(dmg, first);
    lemma_frame_advances(dmg.after_frame(first), second);
}

impl Dmg {
    /// The machine at power-on, with a boot ROM of exactly 256 bytes and a cartridge.
    pub fn new(bootrom: Vec<u8>, cartridge: Cartridge) -> (dmg: Self)
        requires
            bootrom@.len() == 256,
            cartridge@.wf(),
        ensures
            dmg@.wf(),
            dmg@.bus == PeripheralsView::initial(bootrom@, cartridge@),
            dmg@.cpu.cycle == 0,
            dmg@.cpu.registers.pc == 0,
            dmg@.cpu.registers.sp == 0,
            dmg@.cpu.registers.f == 0,
            !dmg@.cpu.halted,
            !dmg@.cpu.interrupt_enable,
    {
        Dmg { cpu: Cpu::new(), peripherals: Peripherals::new(bootrom, cartridge) }
    }

    /// The cycles that have passed since power-on.
    pub fn cycle(&self) -> (cycle: u64)
        ensures
            cycle == self@.cpu.cycle,
    {
        self.cpu.cycle()
    }

    /// Hands out the notices that writes to the cartridge have left since they were last
    /// taken, the oldest first, and keeps none of them. The notices pile up until they
    /// are taken.
    pub fn take_notices(&mut self) -> (notices: Vec<Notice>)
        ensures
            notices@ == old(self)@.bus.cartridge.notices,
            final(self)@ == (DmgView {
                bus: PeripheralsView {
                    cartridge: CartridgeView {
                        notices: Seq::<Notice>::empty(),
                        ..old(self)@.bus.cartridge
                    },
                    ..old(self)@.bus
                },
                ..old(self)@
            }),
    {
        self.peripherals.take_notices()
    }

    /// Runs the machine for one frame with the given buttons held down and hands out the
    /// picture: 144 rows of 160 shades from 0 to 3, the top row first.
    ///
    /// The cycle counter never goes back. After a frame that meets no fault it has moved on
    /// by at least 70224 cycles, and by less than 70224 + 24 unless the CPU is halted then.
    pub fn run_frame(&mut self, buttons: &[Button]) -> (res: Result<&[u8; 23040], Fault>)
        requires
            old(self)@.wf(),
        ensures
            final(self)@.wf(),
            final(self)@.cpu == old(self)@.run_frame(buttons@).cpu,
            final(self)@.bus == old(self)@.run_frame(buttons@).bus,
            res is Ok <==> old(self)@.run_frame(buttons@).result is Ok,
            res matches Err(fault) ==> old(self)@.run_frame(buttons@).result == Err::<(), Fault>(
                fault,
            ),
            res matches Ok(picture) ==> picture@ == final(self)@.bus.video.framebuffer && (forall|
                i: int,
            |
                0 <= i < 23040 ==> #[trigger] picture@[i] <= 3),
            final(self)@.cpu.cycle >= old(self)@.cpu.cycle,
            res is Ok ==> final(self)@.cpu.cycle >= old(self)@.cpu.cycle + 70224,
            res is Ok && !final(self)@.cpu.halted ==> final(self)@.cpu.cycle < old(self)@.cpu.cycle
                + 70224 + 24,
    {
        self.peripherals.buttons(buttons);
        match self.cpu.run(&mut self.peripherals, FRAME_CYCLES) {
            Ok(()) => {},
            Err(fault) => {
                return Err(fault);
            },
        }
        self.peripherals.framebuffer(self.cpu.cycle())
    }
}

} // verus!
