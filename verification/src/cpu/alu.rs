//! The arithmetic of the CPU: what each operation computes and which flags it sets, as
//! functions of plain values.
use vstd::prelude::*;
use super::decoder::{ArithmeticLogic, BitOp, IncDecDirection, RotateCarry, RotateDirection};

verus! {

/// A result with the four flags that go with it.
#[derive(Debug, Clone, Copy, PartialEq, Eq, Structural)]
pub struct AluResult {
    pub value: u8,
    /// Z
    pub zero: bool,
    /// N
    pub bcd_n: bool,
    /// H
    pub bcd_h: bool,
    /// C
    pub carry: bool,
}

/// A 16-bit result with the half carry and carry that go with it.
#[derive(Debug, Clone, Copy, PartialEq, Eq, Structural)]
pub struct WideResult {
    pub value: u16,
    /// H
    pub bcd_h: bool,
    /// C
    pub carry: bool,
}

/// 1 for a set carry, 0 for a clear one.
pub open spec fn carry_value(carry: bool) -> int {
    if carry {
        1
    } else {
        0
    }
}

/// The sum `a + b + carry_in` in eight bits: H is the carry out of bit 3, C the carry out
/// of bit 7.
pub open spec fn spec_add8(a: u8, b: u8, carry_in: bool) -> AluResult {
    let sum = a + b + carry_value(carry_in);
    AluResult {
        value: (sum % 256) as u8,
        zero: sum % 256 == 0,
        bcd_n: false,
        bcd_h: (a % 16) + (b % 16) + carry_value(carry_in) > 0x0f,
        carry: sum > 0xff,
    }
}

/// The difference `a - b - carry_in` in eight bits: H is the borrow from bit 4, C the
/// borrow from bit 8.
pub open spec fn spec_sub8(a: u8, b: u8, carry_in: bool) -> AluResult {
    let difference = a - b - carry_value(carry_in);
    AluResult {
        value: (difference % 256) as u8,
        zero: difference % 256 == 0,
        bcd_n: true,
        bcd_h: (a % 16) < (b % 16) + carry_value(carry_in),
        carry: a < b + carry_value(carry_in),
    }
}

/// The result of one of the eight operations on the accumulator `a` and an operand `b`.
/// CP computes what SUB computes; that it does not store the value is up to its caller.
pub open spec fn spec_alu8(operation: ArithmeticLogic, a: u8, b: u8, carry_in: bool) -> AluResult {
    match operation {
        ArithmeticLogic::Add => spec_add8(a, b, false),
        ArithmeticLogic::Adc => spec_add8(a, b, carry_in),
        ArithmeticLogic::Sub => spec_sub8(a, b, false),
        ArithmeticLogic::Cp => spec_sub8(a, b, false),
        ArithmeticLogic::Sbc => spec_sub8(a, b, carry_in),
        ArithmeticLogic::And => AluResult {
            value: a & b,
            zero: a & b == 0,
            bcd_n: false,
            bcd_h: true,
            carry: false,
        },
        ArithmeticLogic::Xor => AluResult {
            value: a ^ b,
            zero: a ^ b == 0,
            bcd_n: false,
            bcd_h: false,
            carry: false,
        },
        ArithmeticLogic::Or => AluResult {
            value: a | b,
            zero: a | b == 0,
            bcd_n: false,
            bcd_h: false,
            carry: false,
        },
    }
}

/// The value one above or below `value` in eight bits: H is the carry out of bit 3 or the
/// borrow from bit 4, and C stays as it is.
pub open spec fn spec_inc_dec8(direction: IncDecDirection, value: u8, carry: bool) -> AluResult {
    match direction {
        IncDecDirection::Inc => AluResult {
            value: ((value + 1) % 256) as u8,
            zero: value == 255,
            bcd_n: false,
            bcd_h: value % 16 == 15,
            carry,
        },
        IncDecDirection::Dec => AluResult {
            value: ((value - 1) % 256) as u8,
            zero: value == 1,
            bcd_n: true,
            bcd_h: value % 16 == 0,
            carry,
        },
    }
}

/// The sum of HL and a register pair: H is the carry out of bit 11, C the carry out of
/// bit 15.
pub open spec fn spec_add16(hl: u16, other: u16) -> WideResult {
    WideResult {
        value: ((hl + other) % 0x10000) as u16,
        bcd_h: (hl % 0x1000) + (other % 0x1000) > 0x0fff,
        carry: hl + other > 0xffff,
    }
}

/// The sum of SP and a signed byte, in sixteen bits: H and C are the carries out of bit 3
/// and bit 7 of the sum of SP's low byte and the byte read as unsigned.
pub open spec fn spec_add_sp(sp: u16, offset: i8) -> WideResult {
    let byte = if offset < 0 {
        offset + 256
    } else {
        offset as int
    };
    WideResult {
        value: ((sp + offset) % 0x10000) as u16,
        bcd_h: (sp % 16) + (byte % 16) > 0x0f,
        carry: (sp % 256) + byte > 0xff,
    }
}

/// The accumulator adjusted to packed decimal after an addition or subtraction, with the
/// flags that the adjustment leaves: N stays, H is cleared.
pub open spec fn spec_daa(a: u8, bcd_n: bool, bcd_h: bool, carry: bool) -> AluResult {
    if bcd_n {
        let first = if carry {
            (a - 0x60) % 256
        } else {
            a as int
        };
        let second = if bcd_h {
            (first - 0x06) % 256
        } else {
            first
        };
        AluResult { value: second as u8, zero: second == 0, bcd_n, bcd_h: false, carry }
    } else {
        let high = carry || a > 0x99;
        let first = if high {
            (a + 0x60) % 256
        } else {
            a as int
        };
        let second = if bcd_h || first % 16 > 0x09 {
            (first + 0x06) % 256
        } else {
            first
        };
        AluResult {
            value: second as u8,
            zero: second == 0,
            bcd_n,
            bcd_h: false,
            carry: high,
        }
    }
}

/// The byte rotated by one bit, and the bit that left it. `Through` brings that bit in at
/// the other end, `NotThrough` brings `carry_in` in.
pub open spec fn spec_rotate(
    direction: RotateDirection,
    through: RotateCarry,
    value: u8,
    carry_in: bool,
) -> (u8, bool) {
    match direction {
        RotateDirection::Left => {
            let incoming = match through {
                RotateCarry::Through => value as int / 128,
                RotateCarry::NotThrough => carry_value(carry_in),
            };
            (((value % 128) * 2 + incoming) as u8, value >= 128)
        },
        RotateDirection::Right => {
            let incoming = match through {
                RotateCarry::Through => value as int % 2,
                RotateCarry::NotThrough => carry_value(carry_in),
            };
            ((value / 2 + incoming * 128) as u8, value % 2 == 1)
        },
    }
}

/// The result of a rotation of the accumulator: Z, N and H are cleared.
pub open spec fn spec_rotate_a(
    direction: RotateDirection,
    through: RotateCarry,
    a: u8,
    carry_in: bool,
) -> AluResult {
    let rotated = spec_rotate(direction, through, a, carry_in);
    AluResult { value: rotated.0, zero: false, bcd_n: false, bcd_h: false, carry: rotated.1 }
}

/// What an operation behind the prefix 0xCB does to the flags and to its operand.
#[derive(Debug, Clone, Copy, PartialEq, Eq, Structural)]
pub struct BitResult {
    /// The value to store, if the operation stores one.
    pub value: Option<u8>,
    pub zero: bool,
    pub bcd_n: bool,
    pub bcd_h: bool,
    pub carry: bool,
}

/// The result of an operation behind the prefix 0xCB on `input`, given the flags before.
/// Rotations and shifts set Z from the result, clear N and H and put the bit that left
/// into C. A test sets Z if the bit is clear, clears N, sets H and stores nothing.
/// Clearing and setting a bit leave the flags.
pub open spec fn spec_bit_op(
    operation: BitOp,
    input: u8,
    zero: bool,
    bcd_n: bool,
    bcd_h: bool,
    carry: bool,
) -> BitResult {
    match operation {
        BitOp::Rotate(direction, through) => {
            let rotated = spec_rotate(direction, through, input, carry);
            BitResult {
                value: Some(rotated.0),
                zero: rotated.0 == 0,
                bcd_n: false,
                bcd_h: false,
                carry: rotated.1,
            }
        },
        BitOp::ShiftArithmetic(RotateDirection::Left) => BitResult {
            value: Some(((input % 128) * 2) as u8),
            zero: input % 128 == 0,
            bcd_n: false,
            bcd_h: false,
            carry: input >= 128,
        },
        BitOp::ShiftArithmetic(RotateDirection::Right) => BitResult {
            value: Some((input / 2 + (input / 128) * 128) as u8),
            zero: input / 2 + (input / 128) * 128 == 0,
            bcd_n: false,
            bcd_h: false,
            carry: input % 2 == 1,
        },
        BitOp::SwapNibbles => BitResult {
            value: Some(((input % 16) * 16 + input / 16) as u8),
            zero: input == 0,
            bcd_n: false,
            bcd_h: false,
            carry: false,
        },
        BitOp::ShiftRightLogical => BitResult {
            value: Some(input / 2),
            zero: input / 2 == 0,
            bcd_n: false,
            bcd_h: false,
            carry: input % 2 == 1,
        },
        BitOp::Test(bit) => BitResult {
            value: None,
            zero: input & bit.spec_mask() == 0,
            bcd_n: false,
            bcd_h: true,
            carry,
        },
        BitOp::Clear(bit) => BitResult {
            value: Some(input & !bit.spec_mask()),
            zero,
            bcd_n,
            bcd_h,
            carry,
        },
        BitOp::SetBit(bit) => BitResult {
            value: Some(input | bit.spec_mask()),
            zero,
            bcd_n,
            bcd_h,
            carry,
        },
    }
}

/// The low nibble of a byte as a mask computes it.
pub proof fn lemma_low_nibble(byte: u8)
    ensures
        byte & 0x0f == byte % 16,
{
    assert(byte & 0x0f == byte % 16) by (bit_vector);
}

/// The sum `a + b + carry_in` in eight bits.
pub fn add8(a: u8, b: u8, carry_in: bool) -> (res: AluResult)
    ensures
        res == spec_add8(a, b, carry_in),
{
    proof {
        lemma_low_nibble(a);
        lemma_low_nibble(b);
    }
    let c: u16 = if carry_in {
        1
    } else {
        0
    };
    let sum: u16 = (a as u16) + (b as u16) + c;
    let half: u16 = ((a & 0x0f) as u16) + ((b & 0x0f) as u16) + c;
    let value: u8 = (sum % 256) as u8;
    AluResult { value, zero: value == 0, bcd_n: false, bcd_h: half > 0x0f, carry: sum > 0xff }
}

/// The difference `a - b - carry_in` in eight bits.
pub fn sub8(a: u8, b: u8, carry_in: bool) -> (res: AluResult)
    ensures
        res == spec_sub8(a, b, carry_in),
{
    proof {
        lemma_low_nibble(a);
        lemma_low_nibble(b);
    }
    let c: u16 = if carry_in {
        1
    } else {
        0
    };
    let subtrahend: u16 = (b as u16) + c;
    let half: u16 = ((b & 0x0f) as u16) + c;
    let value: u8 = (((a as u16) + 0x200 - subtrahend) % 256) as u8;
    AluResult {
        value,
        zero: value == 0,
        bcd_n: true,
        bcd_h: ((a & 0x0f) as u16) < half,
        carry: (a as u16) < subtrahend,
    }
}

/// The result of one of the eight operations on the accumulator `a` and an operand `b`.
pub fn alu8(operation: ArithmeticLogic, a: u8, b: u8, carry_in: bool) -> (res: AluResult)
    ensures
        res == spec_alu8(operation, a, b, carry_in),
{
    match operation {
        ArithmeticLogic::Add => add8(a, b, false),
        ArithmeticLogic::Adc => add8(a, b, carry_in),
        ArithmeticLogic::Sub | ArithmeticLogic::Cp => sub8(a, b, false),
        ArithmeticLogic::Sbc => sub8(a, b, carry_in),
        ArithmeticLogic::And => {
            let value = a & b;
            AluResult { value, zero: value == 0, bcd_n: false, bcd_h: true, carry: false }
        },
        ArithmeticLogic::Xor => {
            let value = a ^ b;
            AluResult { value, zero: value == 0, bcd_n: false, bcd_h: false, carry: false }
        },
        ArithmeticLogic::Or => {
            let value = a | b;
            AluResult { value, zero: value == 0, bcd_n: false, bcd_h: false, carry: false }
        },
    }
}

/// The value one above or below `value` in eight bits, with `carry` handed through.
pub fn inc_dec8(direction: IncDecDirection, value: u8, carry: bool) -> (res: AluResult)
    ensures
        res == spec_inc_dec8(direction, value, carry),
{
    proof {
        lemma_low_nibble(value);
    }
    match direction {
        IncDecDirection::Inc => {
            let result = value.wrapping_add(1);
            AluResult {
                value: result,
                zero: result == 0,
                bcd_n: false,
                bcd_h: (value & 0x0f) == 0x0f,
                carry,
            }
        },
        IncDecDirection::Dec => {
            let result = value.wrapping_sub(1);
            AluResult {
                value: result,
                zero: result == 0,
                bcd_n: true,
                bcd_h: (value & 0x0f) == 0,
                carry,
            }
        },
    }
}

/// The sum of HL and a register pair.
pub fn add16(hl: u16, other: u16) -> (res: WideResult)
    ensures
        res == spec_add16(hl, other),
{
    let sum: u32 = (hl as u32) + (other as u32);
    let half: u32 = ((hl % 0x1000) as u32) + ((other % 0x1000) as u32);
    WideResult { value: (sum % 0x10000) as u16, bcd_h: half > 0x0fff, carry: sum > 0xffff }
}

/// The sum of SP and a signed byte.
pub fn add_sp(sp: u16, offset: i8) -> (res: WideResult)
    ensures
        res == spec_add_sp(sp, offset),
{
    let byte: u16 = if offset < 0 {
        ((offset as i16) + 256) as u16
    } else {
        offset as u16
    };
    let value = sp.wrapping_add_signed(offset as i16);
    WideResult {
        value,
        bcd_h: (sp % 16) + (byte % 16) > 0x0f,
        carry: (sp % 256) + byte > 0xff,
    }
}

/// The accumulator adjusted to packed decimal.
pub fn daa(a: u8, bcd_n: bool, bcd_h: bool, carry: bool) -> (res: AluResult)
    ensures
        res == spec_daa(a, bcd_n, bcd_h, carry),
{
    let mut value = a;
    let mut carry_out = carry;
    if bcd_n {
        if carry {
            value = value.wrapping_sub(0x60);
        }
        if bcd_h {
            value = value.wrapping_sub(0x06);
        }
    } else {
        if carry || value > 0x99 {
            value = value.wrapping_add(0x60);
            carry_out = true;
        }
        if bcd_h || value % 16 > 0x09 {
            value = value.wrapping_add(0x06);
        }
    }
    AluResult { value, zero: value == 0, bcd_n, bcd_h: false, carry: carry_out }
}

/// The byte rotated by one bit, and the bit that left it.
pub fn rotate(direction: RotateDirection, through: RotateCarry, value: u8, carry_in: bool) -> (res:
    (u8, bool))
    ensures
        res == spec_rotate(direction, through, value, carry_in),
{
    let c: u8 = if carry_in {
        1
    } else {
        0
    };
    match direction {
        RotateDirection::Left => {
            let incoming: u8 = match through {
                RotateCarry::Through => value / 128,
                RotateCarry::NotThrough => c,
            };
            ((value % 128) * 2 + incoming, value >= 128)
        },
        RotateDirection::Right => {
            let incoming: u8 = match through {
                RotateCarry::Through => value % 2,
                RotateCarry::NotThrough => c,
            };
            (value / 2 + incoming * 128, value % 2 == 1)
        },
    }
}

/// The result of a rotation of the accumulator.
pub fn rotate_a(direction: RotateDirection, through: RotateCarry, a: u8, carry_in: bool) -> (res:
    AluResult)
    ensures
        res == spec_rotate_a(direction, through, a, carry_in),
{
    let (value, carry) = rotate(direction, through, a, carry_in);
    AluResult { value, zero: false, bcd_n: false, bcd_h: false, carry }
}

/// The result of an operation behind the prefix 0xCB on `input`, given the flags before.
pub fn bit_op(operation: BitOp, input: u8, zero: bool, bcd_n: bool, bcd_h: bool, carry: bool) -> (res:
    BitResult)
    ensures
        res == spec_bit_op(operation, input, zero, bcd_n, bcd_h, carry),
{
    match operation {
        BitOp::Rotate(direction, through) => {
            let (value, carry_out) = rotate(direction, through, input, carry);
            BitResult {
                value: Some(value),
                zero: value == 0,
                bcd_n: false,
                bcd_h: false,
                carry: carry_out,
            }
        },
        BitOp::ShiftArithmetic(RotateDirection::Left) => {
            let value: u8 = (input % 128) * 2;
            BitResult {
                value: Some(value),
                zero: value == 0,
                bcd_n: false,
                bcd_h: false,
                carry: input >= 128,
            }
        },
        BitOp::ShiftArithmetic(RotateDirection::Right) => {
            let value: u8 = input / 2 + (input / 128) * 128;
            BitResult {
                value: Some(value),
                zero: value == 0,
                bcd_n: false,
                bcd_h: false,
                carry: input % 2 == 1,
            }
        },
        BitOp::SwapNibbles => {
            let value: u8 = (input % 16) * 16 + input / 16;
            BitResult { value: Some(value), zero: value == 0, bcd_n: false, bcd_h: false, carry: false }
        },
        BitOp::ShiftRightLogical => {
            let value: u8 = input / 2;
            BitResult {
                value: Some(value),
                zero: value == 0,
                bcd_n: false,
                bcd_h: false,
                carry: input % 2 == 1,
            }
        },
        BitOp::Test(bit) => BitResult {
            value: None,
            zero: input & bit.mask() == 0,
            bcd_n: false,
            bcd_h: true,
            carry,
        },
        BitOp::Clear(bit) => BitResult {
            value: Some(input & !bit.mask()),
            zero,
            bcd_n,
            bcd_h,
            carry,
        },
        BitOp::SetBit(bit) => BitResult { value: Some(input | bit.mask()), zero, bcd_n, bcd_h, carry },
    }
}

} // verus!
