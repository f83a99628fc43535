//! The instructions of the CPU and how the opcode bytes encode them.
//!
//! An opcode byte is read as three fields: `x` is its top two bits, `y` the next three and
//! `z` the low three. In some groups `y` is read further as `p`, its top two bits, and `q`,
//! its low bit.
use vstd::prelude::*;
use crate::fault::Fault;
use crate::peripherals::{next_addr, PeripheralsView};
use super::pc_reader::PcReader;

verus! {

/// The top two bits of an opcode.
pub open spec fn field_x(op: u8) -> int {
    op as int / 64
}

/// Bits 5 to 3 of an opcode.
pub open spec fn field_y(op: u8) -> int {
    (op as int / 8) % 8
}

/// The low three bits of an opcode.
pub open spec fn field_z(op: u8) -> int {
    op as int % 8
}

/// Bits 5 and 4 of an opcode.
pub open spec fn field_p(op: u8) -> int {
    (op as int / 16) % 4
}

/// Bit 3 of an opcode.
pub open spec fn field_q(op: u8) -> int {
    (op as int / 8) % 2
}

/// The signed value of a byte in two's complement.
pub open spec fn signed(byte: u8) -> i8 {
    if byte < 128 {
        byte as i8
    } else {
        (byte - 256) as i8
    }
}

/// What the masks and shifts that pick the fields of an opcode compute.
pub proof fn lemma_opcode_fields(op: u8)
    by (bit_vector)
    ensures
        op & 0x07 == op % 8,
        op >> 3 == op / 8,
        op & 0x38 == ((op / 8) % 8) * 8,
        op & 0x30 == ((op / 16) % 4) * 16,
        op & 0x01 == op % 2,
        op & 0x08 == ((op / 8) % 2) * 8,
        op & 0x10 == ((op / 16) % 2) * 16,
        op & 0x19 == (op % 2) + ((op / 8) % 2) * 8 + ((op / 16) % 2) * 16,
{
}

/// The signed reading of a byte is the cast to `i8`.
pub proof fn lemma_signed_cast(byte: u8)
    ensures
        byte as i8 == signed(byte),
{
    assert(byte as i8 == (if byte < 128 {
        byte as int
    } else {
        byte - 256
    })) by (bit_vector);
}

/// The signed value of a byte in two's complement.
pub fn to_signed(byte: u8) -> (val: i8)
    ensures
        val == signed(byte),
{
    proof {
        lemma_signed_cast(byte);
    }
    byte as i8
}

/// The 8-bit registers that an opcode can name.
#[derive(Debug, Clone, Copy, PartialEq, Eq, Structural)]
pub enum Register {
    A,
    B,
    C,
    D,
    E,
    H,
    L,
}

/// An 8-bit operand.
#[derive(Debug, Clone, Copy, PartialEq, Eq, Structural)]
pub enum Operand8 {
    Register(Register),
    /// The byte that HL points to.
    IndirectHl,
    Immediate(u8),
}

impl Operand8 {
    /// The operand that a three-bit field names.
    pub open spec fn spec_from_index(index: int) -> Operand8 {
        if index == 0 {
            Operand8::Register(Register::B)
        } else if index == 1 {
            Operand8::Register(Register::C)
        } else if index == 2 {
            Operand8::Register(Register::D)
        } else if index == 3 {
            Operand8::Register(Register::E)
        } else if index == 4 {
            Operand8::Register(Register::H)
        } else if index == 5 {
            Operand8::Register(Register::L)
        } else if index == 6 {
            Operand8::IndirectHl
        } else {
            Operand8::Register(Register::A)
        }
    }

    /// The operand that the low three bits of an opcode name.
    pub fn from_op_bits123(op: u8) -> (operand: Self)
        ensures
            operand == Self::spec_from_index(field_z(op)),
            !(operand is Immediate),
    {
        proof {
            lemma_opcode_fields(op);
        }
        let index: u8 = op & 0x07;
        if index == 0 {
            Operand8::Register(Register::B)
        } else if index == 1 {
            Operand8::Register(Register::C)
        } else if index == 2 {
            Operand8::Register(Register::D)
        } else if index == 3 {
            Operand8::Register(Register::E)
        } else if index == 4 {
            Operand8::Register(Register::H)
        } else if index == 5 {
            Operand8::Register(Register::L)
        } else if index == 6 {
            Operand8::IndirectHl
        } else {
            Operand8::Register(Register::A)
        }
    }

    /// The operand that bits 5 to 3 of an opcode name.
    pub fn from_op_bits456(op: u8) -> (operand: Self)
        ensures
            operand == Self::spec_from_index(field_y(op)),
            !(operand is Immediate),
    {
        proof {
            lemma_opcode_fields(op);
        }
        Self::from_op_bits123(op >> 3)
    }

    /// The immediate operand at the program counter.
    pub fn from_immediate(reader: &mut PcReader) -> (res: Result<Self, Fault>)
        requires
            old(reader).peripherals@.wf(),
        ensures
            final(reader).cycle == old(reader).cycle,
            final(reader).peripherals == old(reader).peripherals,
            res == (match old(reader).peripherals@.read(old(reader).cycle, old(reader).pc) {
                Ok(byte) => Ok::<Operand8, Fault>(Operand8::Immediate(byte)),
                Err(fault) => Err(fault),
            }),
            final(reader).pc == (if res is Ok {
                next_addr(old(reader).pc)
            } else {
                old(reader).pc
            }),
    {
        let byte = reader.read_u8()?;
        Ok(Operand8::Immediate(byte))
    }
}

/// A 16-bit operand: a register pair or SP.
#[derive(Debug, Clone, Copy, PartialEq, Eq, Structural)]
pub enum Operand16 {
    Bc,
    De,
    Hl,
    Sp,
    Af,
}

impl Operand16 {
    /// The pair that a two-bit field names where the last one is SP.
    pub open spec fn spec_from_index_sp(index: int) -> Operand16 {
        if index == 0 {
            Operand16::Bc
        } else if index == 1 {
            Operand16::De
        } else if index == 2 {
            Operand16::Hl
        } else {
            Operand16::Sp
        }
    }

    /// The pair that a two-bit field names where the last one is AF.
    pub open spec fn spec_from_index_af(index: int) -> Operand16 {
        if index == 0 {
            Operand16::Bc
        } else if index == 1 {
            Operand16::De
        } else if index == 2 {
            Operand16::Hl
        } else {
            Operand16::Af
        }
    }

    /// The pair that bits 5 and 4 of an opcode name: BC, DE, HL or SP.
    pub fn from_op_bits56_sp(op: u8) -> (operand: Self)
        ensures
            operand == Self::spec_from_index_sp(field_p(op)),
    {
        proof {
            lemma_opcode_fields(op);
        }
        let bits: u8 = op & 0x30;
        if bits == 0x00 {
            Operand16::Bc
        } else if bits == 0x10 {
            Operand16::De
        } else if bits == 0x20 {
            Operand16::Hl
        } else {
            Operand16::Sp
        }
    }

    /// The pair that bits 5 and 4 of an opcode name: BC, DE, HL or AF.
    pub fn from_op_bits56_af(op: u8) -> (operand: Self)
        ensures
            operand == Self::spec_from_index_af(field_p(op)),
    {
        proof {
            lemma_opcode_fields(op);
        }
        let bits: u8 = op & 0x30;
        if bits == 0x00 {
            Operand16::Bc
        } else if bits == 0x10 {
            Operand16::De
        } else if bits == 0x20 {
            Operand16::Hl
        } else {
            Operand16::Af
        }
    }
}

/// The eight operations on the accumulator.
#[derive(Debug, Clone, Copy, PartialEq, Eq, Structural)]
pub enum ArithmeticLogic {
    Add,
    Adc,
    Sub,
    Sbc,
    And,
    Xor,
    Or,
    Cp,
}

impl ArithmeticLogic {
    pub open spec fn spec_from_index(index: int) -> ArithmeticLogic {
        if index == 0 {
            ArithmeticLogic::Add
        } else if index == 1 {
            ArithmeticLogic::Adc
        } else if index == 2 {
            ArithmeticLogic::Sub
        } else if index == 3 {
            ArithmeticLogic::Sbc
        } else if index == 4 {
            ArithmeticLogic::And
        } else if index == 5 {
            ArithmeticLogic::Xor
        } else if index == 6 {
            ArithmeticLogic::Or
        } else {
            ArithmeticLogic::Cp
        }
    }

    /// The operation that bits 5 to 3 of an opcode name.
    pub fn from_op_bits456(op: u8) -> (operation: Self)
        ensures
            operation == Self::spec_from_index(field_y(op)),
    {
        proof {
            lemma_opcode_fields(op);
        }
        let bits: u8 = op & 0x38;
        if bits == 0x00 {
            ArithmeticLogic::Add
        } else if bits == 0x08 {
            ArithmeticLogic::Adc
        } else if bits == 0x10 {
            ArithmeticLogic::Sub
        } else if bits == 0x18 {
            ArithmeticLogic::Sbc
        } else if bits == 0x20 {
            ArithmeticLogic::And
        } else if bits == 0x28 {
            ArithmeticLogic::Xor
        } else if bits == 0x30 {
            ArithmeticLogic::Or
        } else {
            ArithmeticLogic::Cp
        }
    }
}

#[derive(Debug, Clone, Copy, PartialEq, Eq, Structural)]
pub enum IncDecDirection {
    Inc,
    Dec,
}

impl IncDecDirection {
    /// Bit 0 of an opcode set means a decrement.
    pub fn from_op_bit1(op: u8) -> (direction: Self)
        ensures
            direction == (if op % 2 == 0 {
                IncDecDirection::Inc
            } else {
                IncDecDirection::Dec
            }),
    {
        proof {
            lemma_opcode_fields(op);
        }
        if op & 0x01 == 0 {
            IncDecDirection::Inc
        } else {
            IncDecDirection::Dec
        }
    }

    /// Bit 3 of an opcode set means a decrement.
    pub fn from_op_bit4(op: u8) -> (direction: Self)
        ensures
            direction == (if field_q(op) == 0 {
                IncDecDirection::Inc
            } else {
                IncDecDirection::Dec
            }),
    {
        proof {
            lemma_opcode_fields(op);
        }
        if op & 0x08 == 0 {
            IncDecDirection::Inc
        } else {
            IncDecDirection::Dec
        }
    }
}

#[derive(Debug, Clone, Copy, PartialEq, Eq, Structural)]
pub enum RotateDirection {
    Left,
    Right,
}

impl RotateDirection {
    /// Bit 3 of an opcode set means a rotation to the right.
    pub fn from_op_bit4(op: u8) -> (direction: Self)
        ensures
            direction == (if field_q(op) == 0 {
                RotateDirection::Left
            } else {
                RotateDirection::Right
            }),
    {
        proof {
            lemma_opcode_fields(op);
        }
        if op & 0x08 == 0 {
            RotateDirection::Left
        } else {
            RotateDirection::Right
        }
    }
}

/// How a rotation treats the carry flag. `Through` moves the bit that leaves the byte to
/// its other end and copies it to the carry (RLC, RRC); `NotThrough` moves the old carry
/// in and the bit that leaves out to the carry (RL, RR).
#[derive(Debug, Clone, Copy, PartialEq, Eq, Structural)]
pub enum RotateCarry {
    Through,
    NotThrough,
}

impl RotateCarry {
    /// Bit 4 of an opcode set means `NotThrough`.
    pub fn from_op_bit5(op: u8) -> (carry: Self)
        ensures
            carry == (if (op as int / 16) % 2 == 0 {
                RotateCarry::Through
            } else {
                RotateCarry::NotThrough
            }),
    {
        proof {
            lemma_opcode_fields(op);
        }
        if op & 0x10 == 0 {
            RotateCarry::Through
        } else {
            RotateCarry::NotThrough
        }
    }
}

#[derive(Debug, Clone, Copy, PartialEq, Eq, Structural)]
pub enum LoadMemoryDirection {
    ToMemory,
    FromMemory,
}

impl LoadMemoryDirection {
    /// Bit 3 of an opcode set means a load from memory.
    pub fn from_op_bit4(op: u8) -> (direction: Self)
        ensures
            direction == (if field_q(op) == 0 {
                LoadMemoryDirection::ToMemory
            } else {
                LoadMemoryDirection::FromMemory
            }),
    {
        proof {
            lemma_opcode_fields(op);
        }
        if op & 0x08 == 0 {
            LoadMemoryDirection::ToMemory
        } else {
            LoadMemoryDirection::FromMemory
        }
    }

    /// Bit 4 of an opcode set means a load from memory.
    pub fn from_op_bit5(op: u8) -> (direction: Self)
        ensures
            direction == (if (op as int / 16) % 2 == 0 {
                LoadMemoryDirection::ToMemory
            } else {
                LoadMemoryDirection::FromMemory
            }),
    {
        proof {
            lemma_opcode_fields(op);
        }
        if op & 0x10 == 0 {
            LoadMemoryDirection::ToMemory
        } else {
            LoadMemoryDirection::FromMemory
        }
    }
}

/// Where a load between A and memory finds its address.
#[derive(Debug, Clone, Copy, PartialEq, Eq, Structural)]
pub enum LoadMemoryLocation {
    Bc,
    De,
    /// At HL, which is incremented afterwards.
    HlInc,
    /// At HL, which is decremented afterwards.
    HlDec,
    /// At 0xFF00 plus C.
    ZeroPageC,
    /// At 0xFF00 plus the immediate byte.
    ZeroPageImm(u8),
    Absolute(u16),
}

impl LoadMemoryLocation {
    pub open spec fn spec_from_index(index: int) -> LoadMemoryLocation {
        if index == 0 {
            LoadMemoryLocation::Bc
        } else if index == 1 {
            LoadMemoryLocation::De
        } else if index == 2 {
            LoadMemoryLocation::HlInc
        } else {
            LoadMemoryLocation::HlDec
        }
    }

    /// The location that bits 5 and 4 of an opcode name.
    pub fn from_op_bits56(op: u8) -> (location: Self)
        ensures
            location == Self::spec_from_index(field_p(op)),
    {
        proof {
            lemma_opcode_fields(op);
        }
        let bits: u8 = op & 0x30;
        if bits == 0x00 {
            LoadMemoryLocation::Bc
        } else if bits == 0x10 {
            LoadMemoryLocation::De
        } else if bits == 0x20 {
            LoadMemoryLocation::HlInc
        } else {
            LoadMemoryLocation::HlDec
        }
    }

    /// The zero-page location whose offset is the byte at the program counter.
    pub fn from_immediate8(reader: &mut PcReader) -> (res: Result<Self, Fault>)
        requires
            old(reader).peripherals@.wf(),
        ensures
            final(reader).cycle == old(reader).cycle,
            final(reader).peripherals == old(reader).peripherals,
            res == (match old(reader).peripherals@.read(old(reader).cycle, old(reader).pc) {
                Ok(byte) => Ok::<LoadMemoryLocation, Fault>(LoadMemoryLocation::ZeroPageImm(byte)),
                Err(fault) => Err(fault),
            }),
            final(reader).pc == (if res is Ok {
                next_addr(old(reader).pc)
            } else {
                old(reader).pc
            }),
    {
        let byte = reader.read_u8()?;
        Ok(LoadMemoryLocation::ZeroPageImm(byte))
    }

    /// The location whose address is the 16-bit value at the program counter.
    pub fn from_immediate16(reader: &mut PcReader) -> (res: Result<Self, Fault>)
        requires
            old(reader).peripherals@.wf(),
        ensures
            final(reader).cycle == old(reader).cycle,
            final(reader).peripherals == old(reader).peripherals,
            res == (match old(reader).peripherals@.read_u16(old(reader).cycle, old(reader).pc) {
                Ok(addr) => Ok::<LoadMemoryLocation, Fault>(LoadMemoryLocation::Absolute(addr)),
                Err(fault) => Err(fault),
            }),
            final(reader).pc == (if res is Ok {
                next_addr(next_addr(old(reader).pc))
            } else {
                old(reader).pc
            }),
    {
        let addr = reader.read_u16()?;
        Ok(LoadMemoryLocation::Absolute(addr))
    }
}

/// The condition of a jump, call or return.
#[derive(Debug, Clone, Copy, PartialEq, Eq, Structural)]
pub enum Condition {
    Always,
    NonZero,
    NonCarry,
    Zero,
    Carry,
}

impl Condition {
    /// The condition that a two-bit field names.
    pub open spec fn spec_from_index(index: int) -> Condition {
        if index == 0 {
            Condition::NonZero
        } else if index == 1 {
            Condition::Zero
        } else if index == 2 {
            Condition::NonCarry
        } else {
            Condition::Carry
        }
    }

    /// The condition of a jump, call or return opcode: none if bit 0 is set, else the one
    /// that bits 4 and 3 name.
    pub open spec fn spec_from_op(op: u8) -> Condition {
        if op % 2 == 1 {
            Condition::Always
        } else {
            Self::spec_from_index((op as int / 8) % 4)
        }
    }

    /// The condition of a jump, call or return opcode. No such opcode has both bit 0 and
    /// bit 4 set.
    pub fn from_op_bits156(op: u8) -> (condition: Self)
        requires
            !(op % 2 == 1 && (op as int / 16) % 2 == 1),
        ensures
            condition == Self::spec_from_op(op),
    {
        proof {
            lemma_opcode_fields(op);
        }
        let bits: u8 = op & 0x19;
        if bits == 0x00 {
            Condition::NonZero
        } else if bits == 0x10 {
            Condition::NonCarry
        } else if bits == 0x08 {
            Condition::Zero
        } else if bits == 0x18 {
            Condition::Carry
        } else {
            Condition::Always
        }
    }
}

/// Where a jump or call goes.
#[derive(Debug, Clone, Copy, PartialEq, Eq, Structural)]
pub enum Destination {
    Hl,
    /// The address after the instruction plus a signed offset.
    Relative(i8),
    Absolute(u16),
}

impl Destination {
    /// The relative destination whose offset is the byte at the program counter.
    pub fn from_immediate8(reader: &mut PcReader) -> (res: Result<Self, Fault>)
        requires
            old(reader).peripherals@.wf(),
        ensures
            final(reader).cycle == old(reader).cycle,
            final(reader).peripherals == old(reader).peripherals,
            res == (match old(reader).peripherals@.read(old(reader).cycle, old(reader).pc) {
                Ok(byte) => Ok::<Destination, Fault>(Destination::Relative(signed(byte))),
                Err(fault) => Err(fault),
            }),
            final(reader).pc == (if res is Ok {
                next_addr(old(reader).pc)
            } else {
                old(reader).pc
            }),
    {
        let immediate = reader.read_u8()?;
        Ok(Destination::Relative(to_signed(immediate)))
    }

    /// The absolute destination whose address is the 16-bit value at the program counter.
    pub fn from_immediate16(reader: &mut PcReader) -> (res: Result<Self, Fault>)
        requires
            old(reader).peripherals@.wf(),
        ensures
            final(reader).cycle == old(reader).cycle,
            final(reader).peripherals == old(reader).peripherals,
            res == (match old(reader).peripherals@.read_u16(old(reader).cycle, old(reader).pc) {
                Ok(addr) => Ok::<Destination, Fault>(Destination::Absolute(addr)),
                Err(fault) => Err(fault),
            }),
            final(reader).pc == (if res is Ok {
                next_addr(next_addr(old(reader).pc))
            } else {
                old(reader).pc
            }),
    {
        let addr = reader.read_u16()?;
        Ok(Destination::Absolute(addr))
    }
}

/// The eight fixed call targets of RST.
#[derive(Debug, Clone, Copy, PartialEq, Eq, Structural)]
pub enum ResetSlot {
    Slot0,
    Slot1,
    Slot2,
    Slot3,
    Slot4,
    Slot5,
    Slot6,
    Slot7,
}

impl ResetSlot {
    pub open spec fn spec_from_index(index: int) -> ResetSlot {
        if index == 0 {
            ResetSlot::Slot0
        } else if index == 1 {
            ResetSlot::Slot1
        } else if index == 2 {
            ResetSlot::Slot2
        } else if index == 3 {
            ResetSlot::Slot3
        } else if index == 4 {
            ResetSlot::Slot4
        } else if index == 5 {
            ResetSlot::Slot5
        } else if index == 6 {
            ResetSlot::Slot6
        } else {
            ResetSlot::Slot7
        }
    }

    /// The address of the slot: eight bytes apart, from 0.
    pub open spec fn spec_address(self) -> u16 {
        match self {
            ResetSlot::Slot0 => 0x0000,
            ResetSlot::Slot1 => 0x0008,
            ResetSlot::Slot2 => 0x0010,
            ResetSlot::Slot3 => 0x0018,
            ResetSlot::Slot4 => 0x0020,
            ResetSlot::Slot5 => 0x0028,
            ResetSlot::Slot6 => 0x0030,
            ResetSlot::Slot7 => 0x0038,
        }
    }

    /// The slot of an RST opcode (0xC7, 0xCF, ... 0xFF).
    pub fn from_op(op: u8) -> (slot: Self)
        requires
            field_x(op) == 3,
            field_z(op) == 7,
        ensures
            slot == Self::spec_from_index(field_y(op)),
    {
        if op == 0xc7 {
            ResetSlot::Slot0
        } else if op == 0xcf {
            ResetSlot::Slot1
        } else if op == 0xd7 {
            ResetSlot::Slot2
        } else if op == 0xdf {
            ResetSlot::Slot3
        } else if op == 0xe7 {
            ResetSlot::Slot4
        } else if op == 0xef {
            ResetSlot::Slot5
        } else if op == 0xf7 {
            ResetSlot::Slot6
        } else {
            ResetSlot::Slot7
        }
    }

    /// The address of the slot.
    #[verifier::when_used_as_spec(spec_address)]
    pub fn address(self) -> (addr: u16)
        ensures
            addr == self.spec_address(),
    {
        match self {
            ResetSlot::Slot0 => 0x0000,
            ResetSlot::Slot1 => 0x0008,
            ResetSlot::Slot2 => 0x0010,
            ResetSlot::Slot3 => 0x0018,
            ResetSlot::Slot4 => 0x0020,
            ResetSlot::Slot5 => 0x0028,
            ResetSlot::Slot6 => 0x0030,
            ResetSlot::Slot7 => 0x0038,
        }
    }
}

/// Where the sum of SP and a signed byte goes.
#[derive(Debug, Clone, Copy, PartialEq, Eq, Structural)]
pub enum AddToSpDestination {
    Sp,
    Hl,
}

impl AddToSpDestination {
    /// The destination of opcode 0xE8 (SP) or 0xF8 (HL).
    pub fn from_op(op: u8) -> (destination: Self)
        requires
            op == 0xe8 || op == 0xf8,
        ensures
            destination == (if op == 0xe8 {
                AddToSpDestination::Sp
            } else {
                AddToSpDestination::Hl
            }),
    {
        if op == 0xe8 {
            AddToSpDestination::Sp
        } else {
            AddToSpDestination::Hl
        }
    }
}

/// One of the eight bits of a byte.
#[derive(Debug, Clone, Copy, PartialEq, Eq, Structural)]
pub enum Bit {
    Bit0,
    Bit1,
    Bit2,
    Bit3,
    Bit4,
    Bit5,
    Bit6,
    Bit7,
}

impl Bit {
    pub open spec fn spec_from_index(index: int) -> Bit {
        if index == 0 {
            Bit::Bit0
        } else if index == 1 {
            Bit::Bit1
        } else if index == 2 {
            Bit::Bit2
        } else if index == 3 {
            Bit::Bit3
        } else if index == 4 {
            Bit::Bit4
        } else if index == 5 {
            Bit::Bit5
        } else if index == 6 {
            Bit::Bit6
        } else {
            Bit::Bit7
        }
    }

    pub open spec fn spec_mask(&self) -> u8 {
        match self {
            Bit::Bit0 => 0x01,
            Bit::Bit1 => 0x02,
            Bit::Bit2 => 0x04,
            Bit::Bit3 => 0x08,
            Bit::Bit4 => 0x10,
            Bit::Bit5 => 0x20,
            Bit::Bit6 => 0x40,
            Bit::Bit7 => 0x80,
        }
    }

    /// The bit that bits 5 to 3 of an opcode name.
    pub fn from_op_bits456(op: u8) -> (bit: Self)
        ensures
            bit == Self::spec_from_index(field_y(op)),
    {
        proof {
            lemma_opcode_fields(op);
        }
        let bits: u8 = op & 0x38;
        if bits == 0x00 {
            Bit::Bit0
        } else if bits == 0x08 {
            Bit::Bit1
        } else if bits == 0x10 {
            Bit::Bit2
        } else if bits == 0x18 {
            Bit::Bit3
        } else if bits == 0x20 {
            Bit::Bit4
        } else if bits == 0x28 {
            Bit::Bit5
        } else if bits == 0x30 {
            Bit::Bit6
        } else {
            Bit::Bit7
        }
    }

    /// The byte in which this bit alone is set.
    #[verifier::when_used_as_spec(spec_mask)]
    pub fn mask(&self) -> (mask: u8)
        ensures
            mask == self.spec_mask(),
    {
        match self {
            Bit::Bit0 => 0x01,
            Bit::Bit1 => 0x02,
            Bit::Bit2 => 0x04,
            Bit::Bit3 => 0x08,
            Bit::Bit4 => 0x10,
            Bit::Bit5 => 0x20,
            Bit::Bit6 => 0x40,
            Bit::Bit7 => 0x80,
        }
    }
}

/// The operations behind the prefix 0xCB.
#[derive(Debug, Clone, Copy, PartialEq, Eq, Structural)]
pub enum BitOp {
    Rotate(RotateDirection, RotateCarry),
    ShiftArithmetic(RotateDirection),
    SwapNibbles,
    ShiftRightLogical,
    Test(Bit),
    Clear(Bit),
    SetBit(Bit),
}

impl BitOp {
    /// The operation that the byte after the prefix names.
    pub open spec fn spec_from_sub_op(sub_op: u8) -> BitOp {
        if field_x(sub_op) == 0 {
            if field_y(sub_op) == 0 {
                BitOp::Rotate(RotateDirection::Left, RotateCarry::Through)
            } else if field_y(sub_op) == 1 {
                BitOp::Rotate(RotateDirection::Right, RotateCarry::Through)
            } else if field_y(sub_op) == 2 {
                BitOp::Rotate(RotateDirection::Left, RotateCarry::NotThrough)
            } else if field_y(sub_op) == 3 {
                BitOp::Rotate(RotateDirection::Right, RotateCarry::NotThrough)
            } else if field_y(sub_op) == 4 {
                BitOp::ShiftArithmetic(RotateDirection::Left)
            } else if field_y(sub_op) == 5 {
                BitOp::ShiftArithmetic(RotateDirection::Right)
            } else if field_y(sub_op) == 6 {
                BitOp::SwapNibbles
            } else {
                BitOp::ShiftRightLogical
            }
        } else if field_x(sub_op) == 1 {
            BitOp::Test(Bit::spec_from_index(field_y(sub_op)))
        } else if field_x(sub_op) == 2 {
            BitOp::Clear(Bit::spec_from_index(field_y(sub_op)))
        } else {
            BitOp::SetBit(Bit::spec_from_index(field_y(sub_op)))
        }
    }

    /// The operation and its operand that the byte at the program counter names.
    pub fn from_sub_op(reader: &mut PcReader) -> (res: Result<(Self, Operand8), Fault>)
        requires
            old(reader).peripherals@.wf(),
        ensures
            final(reader).cycle == old(reader).cycle,
            final(reader).peripherals == old(reader).peripherals,
            res == (match old(reader).peripherals@.read(old(reader).cycle, old(reader).pc) {
                Ok(sub_op) => Ok::<(BitOp, Operand8), Fault>(
                    (Self::spec_from_sub_op(sub_op), Operand8::spec_from_index(field_z(sub_op))),
                ),
                Err(fault) => Err(fault),
            }),
            final(reader).pc == (if res is Ok {
                next_addr(old(reader).pc)
            } else {
                old(reader).pc
            }),
    {
        let sub_op = reader.read_u8()?;
        let operand = Operand8::from_op_bits123(sub_op);
        let bit = Bit::from_op_bits456(sub_op);
        let operation = if sub_op <= 0x07 {
            BitOp::Rotate(RotateDirection::Left, RotateCarry::Through)
        } else if sub_op <= 0x0f {
            BitOp::Rotate(RotateDirection::Right, RotateCarry::Through)
        } else if sub_op <= 0x17 {
            BitOp::Rotate(RotateDirection::Left, RotateCarry::NotThrough)
        } else if sub_op <= 0x1f {
            BitOp::Rotate(RotateDirection::Right, RotateCarry::NotThrough)
        } else if sub_op <= 0x27 {
            BitOp::ShiftArithmetic(RotateDirection::Left)
        } else if sub_op <= 0x2f {
            BitOp::ShiftArithmetic(RotateDirection::Right)
        } else if sub_op <= 0x37 {
            BitOp::SwapNibbles
        } else if sub_op <= 0x3f {
            BitOp::ShiftRightLogical
        } else if sub_op <= 0x7f {
            BitOp::Test(bit)
        } else if sub_op <= 0xbf {
            BitOp::Clear(bit)
        } else {
            BitOp::SetBit(bit)
        };
        Ok((operation, operand))
    }
}

/// An instruction with its operands.
#[derive(Debug, Clone, Copy, PartialEq, Eq, Structural)]
pub enum Instruction {
    /// ADD HL,rr
    Add16(Operand16),
    /// ADD SP,e and LD HL,SP+e
    AddToSp(AddToSpDestination, i8),
    ArithmeticLogic8(ArithmeticLogic, Operand8),
    BitOp(BitOp, Operand8),
    Call(Destination, Condition),
    Ccf,
    Cpl,
    Daa,
    Di,
    Ei,
    IncDec16(IncDecDirection, Operand16),
    IncDec8(IncDecDirection, Operand8),
    Invalid(u8),
    Halt,
    Jump(Destination, Condition),
    LoadHlToSp,
    LoadImm16(Operand16, u16),
    LoadMemory(LoadMemoryDirection, LoadMemoryLocation),
    /// LD destination,source
    LoadSimple(Operand8, Operand8),
    LoadSpToImm(u16),
    Nop,
    Pop(Operand16),
    Push(Operand16),
    Reset(ResetSlot),
    Reti,
    Return(Condition),
    RotateA(RotateDirection, RotateCarry),
    Scf,
    Stop,
}

/// The number of operand bytes that follow an opcode: the byte after the prefix 0xCB
/// counts as one, and STOP (0x10) takes none.
pub open spec fn operand_length(op: u8) -> int {
    let x = field_x(op);
    let y = field_y(op);
    let z = field_z(op);
    if x == 0 {
        if z == 0 {
            if y == 1 {
                2
            } else if y >= 3 {
                1
            } else {
                0
            }
        } else if z == 1 {
            if field_q(op) == 0 {
                2
            } else {
                0
            }
        } else if z == 6 {
            1
        } else {
            0
        }
    } else if x == 3 {
        if z == 0 {
            if y >= 4 {
                1
            } else {
                0
            }
        } else if z == 2 {
            if y < 4 || y == 5 || y == 7 {
                2
            } else {
                0
            }
        } else if z == 3 {
            if y == 0 {
                2
            } else if y == 1 {
                1
            } else {
                0
            }
        } else if z == 4 {
            if y < 4 {
                2
            } else {
                0
            }
        } else if z == 5 {
            if y == 1 {
                2
            } else {
                0
            }
        } else if z == 6 {
            1
        } else {
            0
        }
    } else {
        0
    }
}

impl Instruction {
    /// What holds of every instruction that an opcode encodes: none stores to an immediate
    /// operand, a call goes to an absolute address, and a jump through HL has no condition.
    pub open spec fn wf(self) -> bool {
        match self {
            Instruction::BitOp(_, operand) => !(operand is Immediate),
            Instruction::IncDec8(_, operand) => !(operand is Immediate),
            Instruction::LoadSimple(destination, _) => !(destination is Immediate),
            Instruction::Call(destination, _) => destination is Absolute,
            Instruction::Jump(destination, condition) => destination is Hl ==> condition
                == Condition::Always,
            _ => true,
        }
    }

    /// The instruction of an opcode with `x` = 0.
    pub open spec fn decode_x0(op: u8, imm8: u8, imm16: u16) -> Instruction {
        let y = field_y(op);
        let z = field_z(op);
        let p = field_p(op);
        let q = field_q(op);
        if z == 0 {
            if y == 0 {
                Instruction::Nop
            } else if y == 1 {
                Instruction::LoadSpToImm(imm16)
            } else if y == 2 {
                Instruction::Stop
            } else if y == 3 {
                Instruction::Jump(Destination::Relative(signed(imm8)), Condition::Always)
            } else {
                Instruction::Jump(
                    Destination::Relative(signed(imm8)),
                    Condition::spec_from_index(y - 4),
                )
            }
        } else if z == 1 {
            if q == 0 {
                Instruction::LoadImm16(Operand16::spec_from_index_sp(p), imm16)
            } else {
                Instruction::Add16(Operand16::spec_from_index_sp(p))
            }
        } else if z == 2 {
            Instruction::LoadMemory(
                if q == 0 {
                    LoadMemoryDirection::ToMemory
                } else {
                    LoadMemoryDirection::FromMemory
                },
                LoadMemoryLocation::spec_from_index(p),
            )
        } else if z == 3 {
            Instruction::IncDec16(
                if q == 0 {
                    IncDecDirection::Inc
                } else {
                    IncDecDirection::Dec
                },
                Operand16::spec_from_index_sp(p),
            )
        } else if z == 4 {
            Instruction::IncDec8(IncDecDirection::Inc, Operand8::spec_from_index(y))
        } else if z == 5 {
            Instruction::IncDec8(IncDecDirection::Dec, Operand8::spec_from_index(y))
        } else if z == 6 {
            Instruction::LoadSimple(Operand8::spec_from_index(y), Operand8::Immediate(imm8))
        } else {
            if y == 0 {
                Instruction::RotateA(RotateDirection::Left, RotateCarry::Through)
            } else if y == 1 {
                Instruction::RotateA(RotateDirection::Right, RotateCarry::Through)
            } else if y == 2 {
                Instruction::RotateA(RotateDirection::Left, RotateCarry::NotThrough)
            } else if y == 3 {
                Instruction::RotateA(RotateDirection::Right, RotateCarry::NotThrough)
            } else if y == 4 {
                Instruction::Daa
            } else if y == 5 {
                Instruction::Cpl
            } else if y == 6 {
                Instruction::Scf
            } else {
                Instruction::Ccf
            }
        }
    }

    /// The instruction of an opcode with `x` = 3.
    pub open spec fn decode_x3(op: u8, imm8: u8, imm16: u16) -> Instruction {
        let y = field_y(op);
        let z = field_z(op);
        let p = field_p(op);
        let q = field_q(op);
        if z == 0 {
            if y < 4 {
                Instruction::Return(Condition::spec_from_index(y))
            } else if y == 4 {
                Instruction::LoadMemory(
                    LoadMemoryDirection::ToMemory,
                    LoadMemoryLocation::ZeroPageImm(imm8),
                )
            } else if y == 5 {
                Instruction::AddToSp(AddToSpDestination::Sp, signed(imm8))
            } else if y == 6 {
                Instruction::LoadMemory(
                    LoadMemoryDirection::FromMemory,
                    LoadMemoryLocation::ZeroPageImm(imm8),
                )
            } else {
                Instruction::AddToSp(AddToSpDestination::Hl, signed(imm8))
            }
        } else if z == 1 {
            if q == 0 {
                Instruction::Pop(Operand16::spec_from_index_af(p))
            } else if p == 0 {
                Instruction::Return(Condition::Always)
            } else if p == 1 {
                Instruction::Reti
            } else if p == 2 {
                Instruction::Jump(Destination::Hl, Condition::Always)
            } else {
                Instruction::LoadHlToSp
            }
        } else if z == 2 {
            if y < 4 {
                Instruction::Jump(Destination::Absolute(imm16), Condition::spec_from_index(y))
            } else if y == 4 {
                Instruction::LoadMemory(
                    LoadMemoryDirection::ToMemory,
                    LoadMemoryLocation::ZeroPageC,
                )
            } else if y == 5 {
                Instruction::LoadMemory(
                    LoadMemoryDirection::ToMemory,
                    LoadMemoryLocation::Absolute(imm16),
                )
            } else if y == 6 {
                Instruction::LoadMemory(
                    LoadMemoryDirection::FromMemory,
                    LoadMemoryLocation::ZeroPageC,
                )
            } else {
                Instruction::LoadMemory(
                    LoadMemoryDirection::FromMemory,
                    LoadMemoryLocation::Absolute(imm16),
                )
            }
        } else if z == 3 {
            if y == 0 {
                Instruction::Jump(Destination::Absolute(imm16), Condition::Always)
            } else if y == 1 {
                Instruction::BitOp(
                    BitOp::spec_from_sub_op(imm8),
                    Operand8::spec_from_index(field_z(imm8)),
                )
            } else if y == 6 {
                Instruction::Di
            } else if y == 7 {
                Instruction::Ei
            } else {
                Instruction::Invalid(op)
            }
        } else if z == 4 {
            if y < 4 {
                Instruction::Call(Destination::Absolute(imm16), Condition::spec_from_index(y))
            } else {
                Instruction::Invalid(op)
            }
        } else if z == 5 {
            if q == 0 {
                Instruction::Push(Operand16::spec_from_index_af(p))
            } else if p == 0 {
                Instruction::Call(Destination::Absolute(imm16), Condition::Always)
            } else {
                Instruction::Invalid(op)
            }
        } else if z == 6 {
            Instruction::ArithmeticLogic8(
                ArithmeticLogic::spec_from_index(y),
                Operand8::Immediate(imm8),
            )
        } else {
            Instruction::Reset(ResetSlot::spec_from_index(y))
        }
    }

    /// The instruction that an opcode and its operand encode: `imm8` is the byte after the
    /// opcode for an opcode with one operand byte, `imm16` the 16-bit value after it for
    /// an opcode with two.
    #[verifier::opaque]
    pub open spec fn decode(op: u8, imm8: u8, imm16: u16) -> Instruction {
        if field_x(op) == 0 {
            Self::decode_x0(op, imm8, imm16)
        } else if field_x(op) == 1 {
            if op == 0x76 {
                Instruction::Halt
            } else {
                Instruction::LoadSimple(
                    Operand8::spec_from_index(field_y(op)),
                    Operand8::spec_from_index(field_z(op)),
                )
            }
        } else if field_x(op) == 2 {
            Instruction::ArithmeticLogic8(
                ArithmeticLogic::spec_from_index(field_y(op)),
                Operand8::spec_from_index(field_z(op)),
            )
        } else {
            Self::decode_x3(op, imm8, imm16)
        }
    }

    /// The instruction whose opcode `op` was read and whose operand begins at `after`, with
    /// the address after the instruction, or the fault that reading the operand meets.
    pub open spec fn fetch_operand(bus: PeripheralsView, cycle: u64, op: u8, after: u16) -> Result<
        (Instruction, u16),
        Fault,
    > {
        if operand_length(op) == 0 {
            Ok((Self::decode(op, 0, 0), after))
        } else if operand_length(op) == 1 {
            match bus.read(cycle, after) {
                Err(fault) => Err(fault),
                Ok(imm8) => Ok((Self::decode(op, imm8, 0), next_addr(after))),
            }
        } else {
            match bus.read_u16(cycle, after) {
                Err(fault) => Err(fault),
                Ok(imm16) => Ok((Self::decode(op, 0, imm16), next_addr(next_addr(after)))),
            }
        }
    }

    /// The instruction at `pc` and the address after it, or the fault that reading one of
    /// its bytes meets. Only the bytes of the instruction are read.
    pub open spec fn fetch(bus: PeripheralsView, cycle: u64, pc: u16) -> Result<
        (Instruction, u16),
        Fault,
    > {
        match bus.read(cycle, pc) {
            Err(fault) => Err(fault),
            Ok(op) => Self::fetch_operand(bus, cycle, op, next_addr(pc)),
        }
    }

    /// Whether an opcode makes a whole instruction without operand fields.
    pub open spec fn is_simple_op(op: u8) -> bool {
        op == 0x00 || op == 0x10 || op == 0x27 || op == 0x2f || op == 0x37 || op == 0x3f || op
            == 0x76 || op == 0xd9 || op == 0xf3 || op == 0xf9 || op == 0xfb
    }

    /// The instruction of an opcode that has no operand fields.
    pub fn from_simple_op(op: u8) -> (inst: Self)
        requires
            Self::is_simple_op(op),
        ensures
            inst == Self::decode(op, 0, 0),
            inst.wf(),
    {
        reveal(Instruction::decode);
        if op == 0x00 {
            Instruction::Nop
        } else if op == 0x10 {
            Instruction::Stop
        } else if op == 0x27 {
            Instruction::Daa
        } else if op == 0x2f {
            Instruction::Cpl
        } else if op == 0x37 {
            Instruction::Scf
        } else if op == 0x3f {
            Instruction::Ccf
        } else if op == 0x76 {
            Instruction::Halt
        } else if op == 0xd9 {
            Instruction::Reti
        } else if op == 0xf3 {
            Instruction::Di
        } else if op == 0xf9 {
            Instruction::LoadHlToSp
        } else {
            Instruction::Ei
        }
    }

    /// The instruction of an opcode below 0x40 that has operand fields; its operand bytes
    /// are read at the reader's program counter.
    #[verifier::rlimit(60)]
    pub fn from_op_x0(op: u8, reader: &mut PcReader) -> (res: Result<Self, Fault>)
        requires
            old(reader).peripherals@.wf(),
            op < 0x40,
            !Self::is_simple_op(op),
        ensures
            final(reader).cycle == old(reader).cycle,
            final(reader).peripherals == old(reader).peripherals,
            res == (match Self::fetch_operand(
                old(reader).peripherals@,
                old(reader).cycle,
                op,
                old(reader).pc,
            ) {
                Ok(fetched) => Ok::<Instruction, Fault>(fetched.0),
                Err(fault) => Err(fault),
            }),
            res is Ok ==> final(reader).pc == Self::fetch_operand(
                old(reader).peripherals@,
                old(reader).cycle,
                op,
                old(reader).pc,
            ).unwrap().1,
            res matches Ok(inst) ==> inst.wf(),
    {
        proof {
            reveal(Instruction::decode);
            lemma_opcode_fields(op);
        }
        let inst = match op {
            0x01 | 0x11 | 0x21 | 0x31 => {
                let operand = Operand16::from_op_bits56_sp(op);
                let immediate = reader.read_u16()?;
                Instruction::LoadImm16(operand, immediate)
            },
            0x02 | 0x12 | 0x22 | 0x32 | 0x0a | 0x1a | 0x2a | 0x3a => {
                let direction = LoadMemoryDirection::from_op_bit4(op);
                let location = LoadMemoryLocation::from_op_bits56(op);
                Instruction::LoadMemory(direction, location)
            },
            0x03 | 0x13 | 0x23 | 0x33 | 0x0b | 0x1b | 0x2b | 0x3b => {
                let direction = IncDecDirection::from_op_bit4(op);
                let operand = Operand16::from_op_bits56_sp(op);
                Instruction::IncDec16(direction, operand)
            },
            0x04 | 0x05 | 0x14 | 0x15 | 0x24 | 0x25 | 0x34 | 0x35 | 0x0c | 0x0d | 0x1c | 0x1d
            | 0x2c | 0x2d | 0x3c | 0x3d => {
                let direction = IncDecDirection::from_op_bit1(op);
                let operand = Operand8::from_op_bits456(op);
                Instruction::IncDec8(direction, operand)
            },
            0x06 | 0x16 | 0x26 | 0x36 | 0x0e | 0x1e | 0x2e | 0x3e => {
                let source = Operand8::from_immediate(reader)?;
                let destination = Operand8::from_op_bits456(op);
                Instruction::LoadSimple(destination, source)
            },
            0x07 | 0x0f | 0x17 | 0x1f => {
                let direction = RotateDirection::from_op_bit4(op);
                let carry = RotateCarry::from_op_bit5(op);
                Instruction::RotateA(direction, carry)
            },
            0x08 => {
                let immediate = reader.read_u16()?;
                Instruction::LoadSpToImm(immediate)
            },
            0x09 | 0x19 | 0x29 | 0x39 => {
                let operand = Operand16::from_op_bits56_sp(op);
                Instruction::Add16(operand)
            },
            _ => {
                let destination = Destination::from_immediate8(reader)?;
                let condition = if op == 0x18 {
                    Condition::Always
                } else {
                    Condition::from_op_bits156(op)
                };
                Instruction::Jump(destination, condition)
            },
        };
        Ok(inst)
    }

    /// The instruction of an opcode from 0xC0 on that has operand fields; its operand bytes
    /// are read at the reader's program counter.
    #[verifier::rlimit(60)]
    pub fn from_op_x3(op: u8, reader: &mut PcReader) -> (res: Result<Self, Fault>)
        requires
            old(reader).peripherals@.wf(),
            op >= 0xc0,
            !Self::is_simple_op(op),
        ensures
            final(reader).cycle == old(reader).cycle,
            final(reader).peripherals == old(reader).peripherals,
            res == (match Self::fetch_operand(
                old(reader).peripherals@,
                old(reader).cycle,
                op,
                old(reader).pc,
            ) {
                Ok(fetched) => Ok::<Instruction, Fault>(fetched.0),
                Err(fault) => Err(fault),
            }),
            res is Ok ==> final(reader).pc == Self::fetch_operand(
                old(reader).peripherals@,
                old(reader).cycle,
                op,
                old(reader).pc,
            ).unwrap().1,
            res matches Ok(inst) ==> inst.wf(),
    {
        proof {
            reveal(Instruction::decode);
            lemma_opcode_fields(op);
        }
        let inst = match op {
            0xc0 | 0xd0 | 0xc8 | 0xd8 | 0xc9 => {
                let condition = Condition::from_op_bits156(op);
                Instruction::Return(condition)
            },
            0xc1 | 0xd1 | 0xe1 | 0xf1 => {
                let operand = Operand16::from_op_bits56_af(op);
                Instruction::Pop(operand)
            },
            0xc2 | 0xd2 | 0xca | 0xda | 0xc3 => {
                let destination = Destination::from_immediate16(reader)?;
                let condition = Condition::from_op_bits156(op);
                Instruction::Jump(destination, condition)
            },
            0xc4 | 0xd4 | 0xcc | 0xdc | 0xcd => {
                let destination = Destination::from_immediate16(reader)?;
                let condition = Condition::from_op_bits156(op);
                Instruction::Call(destination, condition)
            },
            0xc5 | 0xd5 | 0xe5 | 0xf5 => {
                let operand = Operand16::from_op_bits56_af(op);
                Instruction::Push(operand)
            },
            0xc6 | 0xd6 | 0xe6 | 0xf6 | 0xce | 0xde | 0xee | 0xfe => {
                let operation = ArithmeticLogic::from_op_bits456(op);
                let operand = Operand8::from_immediate(reader)?;
                Instruction::ArithmeticLogic8(operation, operand)
            },
            0xc7 | 0xcf | 0xd7 | 0xdf | 0xe7 | 0xef | 0xf7 | 0xff => {
                let slot = ResetSlot::from_op(op);
                Instruction::Reset(slot)
            },
            0xcb => {
                let (bit_op, operand) = BitOp::from_sub_op(reader)?;
                Instruction::BitOp(bit_op, operand)
            },
            0xe0 | 0xf0 => {
                let direction = LoadMemoryDirection::from_op_bit5(op);
                let location = LoadMemoryLocation::from_immediate8(reader)?;
                Instruction::LoadMemory(direction, location)
            },
            0xe2 | 0xf2 => {
                let direction = LoadMemoryDirection::from_op_bit5(op);
                let location = LoadMemoryLocation::ZeroPageC;
                Instruction::LoadMemory(direction, location)
            },
            0xe8 | 0xf8 => {
                let immediate = reader.read_u8()?;
                let destination = AddToSpDestination::from_op(op);
                Instruction::AddToSp(destination, to_signed(immediate))
            },
            0xe9 => {
                let destination = Destination::Hl;
                let condition = Condition::Always;
                Instruction::Jump(destination, condition)
            },
            0xea | 0xfa => {
                let direction = LoadMemoryDirection::from_op_bit5(op);
                let location = LoadMemoryLocation::from_immediate16(reader)?;
                Instruction::LoadMemory(direction, location)
            },
            _ => Instruction::Invalid(op),
        };
        Ok(inst)
    }

    /// Reads the instruction at the reader's program counter and moves the program counter
    /// behind it. On a fault the program counter is left where the faulting read began.
    pub fn from_pc_reader(reader: &mut PcReader) -> (res: Result<Self, Fault>)
        requires
            old(reader).peripherals@.wf(),
        ensures
            final(reader).cycle == old(reader).cycle,
            final(reader).peripherals == old(reader).peripherals,
            res == (match Self::fetch(old(reader).peripherals@, old(reader).cycle, old(reader).pc) {
                Ok(fetched) => Ok::<Instruction, Fault>(fetched.0),
                Err(fault) => Err(fault),
            }),
            res is Ok ==> final(reader).pc == Self::fetch(
                old(reader).peripherals@,
                old(reader).cycle,
                old(reader).pc,
            ).unwrap().1,
            res matches Ok(inst) ==> inst.wf(),
    {
        let op = reader.read_u8()?;
        proof {
            reveal(Instruction::decode);
        }
        match op {
            0x00 | 0x10 | 0x27 | 0x2f | 0x37 | 0x3f | 0x76 | 0xd9 | 0xf3 | 0xf9 | 0xfb => {
                Ok(Self::from_simple_op(op))
            },
            0x00..=0x3f => Self::from_op_x0(op, reader),
            0x40..=0x7f => {
                let source = Operand8::from_op_bits123(op);
                let destination = Operand8::from_op_bits456(op);
                Ok(Instruction::LoadSimple(destination, source))
            },
            0x80..=0xbf => {
                let operation = ArithmeticLogic::from_op_bits456(op);
                let operand = Operand8::from_op_bits123(op);
                Ok(Instruction::ArithmeticLogic8(operation, operand))
            },
            0xc0..=0xff => Self::from_op_x3(op, reader),
        }
    }
}

/// Every opcode encodes a valid instruction, whatever its operand.
pub proof fn lemma_decode_is_valid(op: u8, imm8: u8, imm16: u16)
    ensures
        Instruction::decode(op, imm8, imm16).wf(),
{
    reveal(Instruction::decode);
}

/// Every instruction that is fetched is valid.
pub proof fn lemma_fetch_is_valid(bus: PeripheralsView, cycle: u64, pc: u16)
    ensures
        Instruction::fetch(bus, cycle, pc) matches Ok(fetched) ==> fetched.0.wf(),
{
    match bus.read(cycle, pc) {
        Err(_) => {},
        Ok(op) => {
            let after = next_addr(pc);
            lemma_decode_is_valid(op, 0, 0);
            match bus.read(cycle, after) {
                Err(_) => {},
                Ok(imm8) => {
                    lemma_decode_is_valid(op, imm8, 0);
                },
            }
            match bus.read_u16(cycle, after) {
                Err(_) => {},
                Ok(imm16) => {
                    lemma_decode_is_valid(op, 0, imm16);
                },
            }
        },
    }
}

} // verus!
