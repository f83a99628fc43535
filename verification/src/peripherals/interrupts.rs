//! Interrupt kinds, interrupt masks and the capability that every interrupt source offers.
use vstd::prelude::*;

verus! {

/// The five interrupts, in priority order (`VBlank` is served first).
#[derive(Debug, Copy, Clone, PartialEq, Eq, Structural)]
pub enum Interrupt {
    VBlank,
    Lcd,
    Timer,
    Serial,
    Joypad,
}

impl Interrupt {
    /// The bit of this interrupt in IF and IE.
    pub open spec fn spec_bit(self) -> u8 {
        match self {
            Interrupt::VBlank => 0x01,
            Interrupt::Lcd => 0x02,
            Interrupt::Timer => 0x04,
            Interrupt::Serial => 0x08,
            Interrupt::Joypad => 0x10,
        }
    }

    pub open spec fn spec_as_mask(self) -> InterruptMask {
        InterruptMask(self.spec_bit())
    }

    pub open spec fn spec_vector_address(self) -> u16 {
        match self {
            Interrupt::VBlank => 0x0040,
            Interrupt::Lcd => 0x0048,
            Interrupt::Timer => 0x0050,
            Interrupt::Serial => 0x0058,
            Interrupt::Joypad => 0x0060,
        }
    }

    /// The mask that holds this interrupt and no other.
    #[verifier::when_used_as_spec(spec_as_mask)]
    pub fn as_mask(self) -> (mask: InterruptMask)
        ensures
            mask == self.spec_as_mask(),
    {
        let bit: u8 = match self {
            Interrupt::VBlank => 0x01,
            Interrupt::Lcd => 0x02,
            Interrupt::Timer => 0x04,
            Interrupt::Serial => 0x08,
            Interrupt::Joypad => 0x10,
        };
        InterruptMask(bit)
    }

    /// The address that the CPU jumps to when it serves this interrupt.
    #[verifier::when_used_as_spec(spec_vector_address)]
    pub fn vector_address(self) -> (addr: u16)
        ensures
            addr == self.spec_vector_address(),
    {
        match self {
            Interrupt::VBlank => 0x0040,
            Interrupt::Lcd => 0x0048,
            Interrupt::Timer => 0x0050,
            Interrupt::Serial => 0x0058,
            Interrupt::Joypad => 0x0060,
        }
    }
}

/// A set of interrupts, one bit each, as the registers IF and IE hold it.
#[derive(Debug, Copy, Clone, PartialEq, Eq, Structural)]
pub struct InterruptMask(pub u8);

impl Default for InterruptMask {
    fn default() -> (mask: Self)
        ensures
            mask == InterruptMask(0),
    {
        InterruptMask(0)
    }
}

impl InterruptMask {
    /// Only the five interrupt bits may be set.
    pub open spec fn wf(self) -> bool {
        self.0 & 0xe0 == 0
    }

    pub open spec fn spec_is_set(self, irq: Interrupt) -> bool {
        (self.0 & irq.spec_bit()) != 0
    }

    pub open spec fn spec_set(self, irq: Interrupt) -> InterruptMask {
        InterruptMask(self.0 | irq.spec_bit())
    }

    pub open spec fn spec_clear(self, irq: Interrupt) -> InterruptMask {
        InterruptMask(self.0 & !irq.spec_bit())
    }

    pub open spec fn spec_from(value: u8) -> InterruptMask {
        InterruptMask(value & 0x1f)
    }

    pub open spec fn spec_and(self, other: InterruptMask) -> InterruptMask {
        InterruptMask(self.0 & other.0)
    }

    pub open spec fn spec_or(self, other: InterruptMask) -> InterruptMask {
        InterruptMask(self.0 | other.0)
    }

    pub open spec fn spec_highest_priority(&self) -> Option<Interrupt> {
        if self.spec_is_set(Interrupt::VBlank) {
            Some(Interrupt::VBlank)
        } else if self.spec_is_set(Interrupt::Lcd) {
            Some(Interrupt::Lcd)
        } else if self.spec_is_set(Interrupt::Timer) {
            Some(Interrupt::Timer)
        } else if self.spec_is_set(Interrupt::Serial) {
            Some(Interrupt::Serial)
        } else if self.spec_is_set(Interrupt::Joypad) {
            Some(Interrupt::Joypad)
        } else {
            None
        }
    }

    /// The interrupt of this mask that is served first, if the mask holds any.
    #[verifier::when_used_as_spec(spec_highest_priority)]
    pub fn highest_priority(&self) -> (first: Option<Interrupt>)
        ensures
            first == self.spec_highest_priority(),
            first is None <==> self.0 & 0x1f == 0,
            first matches Some(irq) ==> self.spec_is_set(irq),
    {
        proof {
            lemma_no_bit_set(self.0);
        }
        if self.is_set(Interrupt::VBlank) {
            Some(Interrupt::VBlank)
        } else if self.is_set(Interrupt::Lcd) {
            Some(Interrupt::Lcd)
        } else if self.is_set(Interrupt::Timer) {
            Some(Interrupt::Timer)
        } else if self.is_set(Interrupt::Serial) {
            Some(Interrupt::Serial)
        } else if self.is_set(Interrupt::Joypad) {
            Some(Interrupt::Joypad)
        } else {
            None
        }
    }

    /// Adds an interrupt to the mask.
    pub fn set(&mut self, irq: Interrupt)
        ensures
            *final(self) == old(self).spec_set(irq),
    {
        self.0 = self.0 | irq.as_mask().0;
    }

    /// Takes an interrupt out of the mask.
    pub fn clear(&mut self, irq: Interrupt)
        ensures
            *final(self) == old(self).spec_clear(irq),
    {
        self.0 = self.0 & !irq.as_mask().0;
    }

    /// Whether the mask holds an interrupt.
    #[verifier::when_used_as_spec(spec_is_set)]
    pub fn is_set(self, irq: Interrupt) -> (held: bool)
        ensures
            held == self.spec_is_set(irq),
    {
        (self.0 & irq.as_mask().0) != 0
    }
}

impl From<u8> for InterruptMask {
    /// The mask made of the low five bits of a register byte.
    fn from(value: u8) -> (mask: Self) {
        InterruptMask(value & 0x1f)
    }
}

impl vstd::std_specs::convert::FromSpecImpl<u8> for InterruptMask {
    open spec fn obeys_from_spec() -> bool {
        true
    }

    open spec fn from_spec(value: u8) -> Self {
        InterruptMask(value & 0x1f)
    }
}

impl From<InterruptMask> for u8 {
    /// The register byte of a mask.
    fn from(value: InterruptMask) -> (byte: Self) {
        value.0
    }
}

impl vstd::std_specs::convert::FromSpecImpl<InterruptMask> for u8 {
    open spec fn obeys_from_spec() -> bool {
        true
    }

    open spec fn from_spec(value: InterruptMask) -> Self {
        value.0
    }
}

impl core::ops::BitAnd for InterruptMask {
    type Output = InterruptMask;

    /// The interrupts that are in both masks.
    fn bitand(self, other: InterruptMask) -> (mask: InterruptMask) {
        InterruptMask(self.0 & other.0)
    }
}

impl vstd::std_specs::ops::BitAndSpecImpl for InterruptMask {
    open spec fn obeys_bitand_spec() -> bool {
        true
    }

    open spec fn bitand_req(self, other: InterruptMask) -> bool {
        true
    }

    open spec fn bitand_spec(self, other: InterruptMask) -> InterruptMask {
        InterruptMask(self.0 & other.0)
    }
}

impl core::ops::BitOr for InterruptMask {
    type Output = InterruptMask;

    /// The interrupts that are in either mask.
    fn bitor(self, other: InterruptMask) -> (mask: InterruptMask) {
        InterruptMask(self.0 | other.0)
    }
}

impl vstd::std_specs::ops::BitOrSpecImpl for InterruptMask {
    open spec fn obeys_bitor_spec() -> bool {
        true
    }

    open spec fn bitor_req(self, other: InterruptMask) -> bool {
        true
    }

    open spec fn bitor_spec(self, other: InterruptMask) -> InterruptMask {
        InterruptMask(self.0 | other.0)
    }
}

/// The mask of a register byte holds none of the three high bits, and a byte that holds
/// none of them is its own mask.
pub proof fn lemma_from_masks_high_bits(value: u8)
    ensures
        InterruptMask::spec_from(value).wf(),
        InterruptMask(value).wf() ==> InterruptMask::spec_from(value) == InterruptMask(value),
{
    assert((value & 0x1f) & 0xe0 == 0) by (bit_vector);
    assert(value & 0xe0 == 0 ==> value & 0x1f == value) by (bit_vector);
}

/// A byte has none of the five interrupt bits exactly if its low five bits are zero.
pub proof fn lemma_no_bit_set(value: u8)
    ensures
        (value & 0x1f == 0) <==> (value & 0x01 == 0 && value & 0x02 == 0 && value & 0x04 == 0
            && value & 0x08 == 0 && value & 0x10 == 0),
{
    assert((value & 0x1f == 0) <==> (value & 0x01 == 0 && value & 0x02 == 0 && value & 0x04 == 0
        && value & 0x08 == 0 && value & 0x10 == 0)) by (bit_vector);
}

/// What every peripheral that can raise an interrupt offers, against the cycle counter.
pub trait InterruptSource {
    /// The validity of the source.
    spec fn source_wf(&self) -> bool;

    /// The interrupts that the source asserts at `cycle`.
    spec fn pending_at(&self, cycle: u64) -> InterruptMask;

    /// The earliest cycle from `cycle` on at which the source may assert more, `u64::MAX` if none.
    spec fn next_pending_at(&self, cycle: u64) -> u64;

    /// Whether `after` is the source once `mask` was handed to it at `cycle`.
    spec fn acknowledged(&self, cycle: u64, mask: InterruptMask, after: &Self) -> bool;

    fn pending(&self, cycle: u64) -> (mask: InterruptMask)
        requires
            self.source_wf(),
        ensures
            mask == self.pending_at(cycle),
    ;

    fn set_pending(&mut self, cycle: u64, mask: InterruptMask)
        requires
            old(self).source_wf(),
        ensures
            final(self).source_wf(),
            old(self).acknowledged(cycle, mask, final(self)),
    ;

    fn next_pending(&self, cycle: u64) -> (next: u64)
        requires
            self.source_wf(),
        ensures
            next == self.next_pending_at(cycle),
    ;
}

} // verus!
