//! The register file of the CPU.
use vstd::prelude::*;
use super::decoder::{Operand16, Register};

verus! {

/// The registers. The low four bits of `f` are always zero; its bits 7, 6, 5 and 4 are the
/// flags Z (zero), N (subtraction), H (half carry) and C (carry).
#[derive(Clone, Copy, Debug, PartialEq, Eq, Structural)]
pub struct Registers {
    pub a: u8,
    pub f: u8,
    pub b: u8,
    pub c: u8,
    pub d: u8,
    pub e: u8,
    pub h: u8,
    pub l: u8,
    pub sp: u16,
    pub pc: u16,
}

/// The 16-bit value of a register pair: `high` holds the upper byte.
pub open spec fn pair(high: u8, low: u8) -> u16 {
    (high * 256 + low) as u16
}

/// The upper byte of a 16-bit value.
pub open spec fn high_byte(val: u16) -> u8 {
    (val / 256) as u8
}

/// The lower byte of a 16-bit value.
pub open spec fn low_byte(val: u16) -> u8 {
    (val % 256) as u8
}

/// The byte with bit `bit` set to `val`.
pub open spec fn with_bit(byte: u8, bit: u8, val: bool) -> u8 {
    if val {
        byte | (1u8 << bit)
    } else {
        byte & !(1u8 << bit)
    }
}

/// Whether bit `bit` of a byte is set.
pub open spec fn has_bit(byte: u8, bit: u8) -> bool {
    byte & (1u8 << bit) != 0
}

/// Setting one of the four flag bits changes that bit alone and leaves the low nibble zero.
pub proof fn lemma_with_bit(byte: u8, bit: u8, val: bool, other: u8)
    requires
        4 <= bit < 8,
        other < 8,
    ensures
        has_bit(with_bit(byte, bit, val), other) == (if other == bit {
            val
        } else {
            has_bit(byte, other)
        }),
        byte % 16 == 0 ==> with_bit(byte, bit, val) % 16 == 0,
{
    assert((byte | (1u8 << bit)) & (1u8 << other) != 0 <==> (other == bit || byte & (1u8 << other)
        != 0)) by (bit_vector)
        requires
            4 <= bit < 8,
            other < 8,
    ;
    assert((byte & !(1u8 << bit)) & (1u8 << other) != 0 <==> (other != bit && byte & (1u8 << other)
        != 0)) by (bit_vector)
        requires
            4 <= bit < 8,
            other < 8,
    ;
    assert(byte % 16 == 0 ==> (byte | (1u8 << bit)) % 16 == 0 && (byte & !(1u8 << bit)) % 16 == 0)
        by (bit_vector)
        requires
            4 <= bit < 8,
    ;
}

/// The upper nibble of a byte has no bit in the lower nibble.
pub proof fn lemma_upper_nibble(byte: u8)
    ensures
        (byte & 0xf0) % 16 == 0,
{
    assert((byte & 0xf0) % 16 == 0) by (bit_vector);
}

impl Registers {
    /// The low nibble of F is zero.
    pub open spec fn wf(&self) -> bool {
        self.f % 16 == 0
    }

    pub open spec fn spec_read(&self, register: Register) -> u8 {
        match register {
            Register::A => self.a,
            Register::B => self.b,
            Register::C => self.c,
            Register::D => self.d,
            Register::E => self.e,
            Register::H => self.h,
            Register::L => self.l,
        }
    }

    pub open spec fn spec_read_double(&self, source: Operand16) -> u16 {
        match source {
            Operand16::Bc => pair(self.b, self.c),
            Operand16::De => pair(self.d, self.e),
            Operand16::Hl => pair(self.h, self.l),
            Operand16::Sp => self.sp,
            Operand16::Af => pair(self.a, self.f),
        }
    }

    pub open spec fn spec_bc(&self) -> u16 {
        pair(self.b, self.c)
    }

    pub open spec fn spec_de(&self) -> u16 {
        pair(self.d, self.e)
    }

    pub open spec fn spec_hl(&self) -> u16 {
        pair(self.h, self.l)
    }

    pub open spec fn spec_write(self, register: Register, value: u8) -> Registers {
        match register {
            Register::A => Registers { a: value, ..self },
            Register::B => Registers { b: value, ..self },
            Register::C => Registers { c: value, ..self },
            Register::D => Registers { d: value, ..self },
            Register::E => Registers { e: value, ..self },
            Register::H => Registers { h: value, ..self },
            Register::L => Registers { l: value, ..self },
        }
    }

    /// The registers after a pair is written. Writing AF keeps only the upper nibble of F.
    pub open spec fn spec_write_double(self, destination: Operand16, val: u16) -> Registers {
        match destination {
            Operand16::Bc => Registers { b: high_byte(val), c: low_byte(val), ..self },
            Operand16::De => Registers { d: high_byte(val), e: low_byte(val), ..self },
            Operand16::Hl => Registers { h: high_byte(val), l: low_byte(val), ..self },
            Operand16::Sp => Registers { sp: val, ..self },
            Operand16::Af => Registers { a: high_byte(val), f: low_byte(val) & 0xf0, ..self },
        }
    }

    pub open spec fn spec_set_hl(self, val: u16) -> Registers {
        self.spec_write_double(Operand16::Hl, val)
    }

    pub open spec fn spec_set_flag(self, bit: u8, val: bool) -> Registers {
        Registers { f: with_bit(self.f, bit, val), ..self }
    }

    pub open spec fn spec_set_zero(self, zero: bool) -> Registers {
        self.spec_set_flag(7, zero)
    }

    pub open spec fn spec_set_bcd_n(self, bcd_n: bool) -> Registers {
        self.spec_set_flag(6, bcd_n)
    }

    pub open spec fn spec_set_bcd_h(self, bcd_h: bool) -> Registers {
        self.spec_set_flag(5, bcd_h)
    }

    pub open spec fn spec_set_carry(self, carry: bool) -> Registers {
        self.spec_set_flag(4, carry)
    }

    /// The registers with all four flags set at once.
    pub open spec fn spec_set_flags(self, zero: bool, bcd_n: bool, bcd_h: bool, carry: bool) -> Registers {
        self.spec_set_zero(zero).spec_set_bcd_n(bcd_n).spec_set_bcd_h(bcd_h).spec_set_carry(carry)
    }

    pub open spec fn spec_flag(&self, bit: u8) -> bool {
        has_bit(self.f, bit)
    }

    pub open spec fn spec_zero(&self) -> bool {
        self.spec_flag(7)
    }

    pub open spec fn spec_bcd_n(&self) -> bool {
        self.spec_flag(6)
    }

    pub open spec fn spec_bcd_h(&self) -> bool {
        self.spec_flag(5)
    }

    pub open spec fn spec_carry(&self) -> bool {
        self.spec_flag(4)
    }

    /// All registers zero.
    pub fn new() -> (registers: Self)
        ensures
            registers == (Registers {
                a: 0,
                f: 0,
                b: 0,
                c: 0,
                d: 0,
                e: 0,
                h: 0,
                l: 0,
                sp: 0,
                pc: 0,
            }),
            registers.wf(),
    {
        Registers { a: 0, f: 0, b: 0, c: 0, d: 0, e: 0, h: 0, l: 0, sp: 0, pc: 0 }
    }

    /// An 8-bit register.
    #[verifier::when_used_as_spec(spec_read)]
    pub fn read(&self, register: Register) -> (value: u8)
        ensures
            value == self.spec_read(register),
    {
        match register {
            Register::A => self.a,
            Register::B => self.b,
            Register::C => self.c,
            Register::D => self.d,
            Register::E => self.e,
            Register::H => self.h,
            Register::L => self.l,
        }
    }

    /// A register pair, or SP.
    #[verifier::when_used_as_spec(spec_read_double)]
    pub fn read_double(&self, source: Operand16) -> (value: u16)
        ensures
            value == self.spec_read_double(source),
    {
        match source {
            Operand16::Bc => (self.b as u16) * 256 + (self.c as u16),
            Operand16::De => (self.d as u16) * 256 + (self.e as u16),
            Operand16::Hl => (self.h as u16) * 256 + (self.l as u16),
            Operand16::Sp => self.sp,
            Operand16::Af => (self.a as u16) * 256 + (self.f as u16),
        }
    }

    /// The pair BC.
    #[verifier::when_used_as_spec(spec_bc)]
    pub fn bc(&self) -> (value: u16)
        ensures
            value == self.spec_bc(),
    {
        self.read_double(Operand16::Bc)
    }

    /// The pair DE.
    #[verifier::when_used_as_spec(spec_de)]
    pub fn de(&self) -> (value: u16)
        ensures
            value == self.spec_de(),
    {
        self.read_double(Operand16::De)
    }

    /// The pair HL.
    #[verifier::when_used_as_spec(spec_hl)]
    pub fn hl(&self) -> (value: u16)
        ensures
            value == self.spec_hl(),
    {
        self.read_double(Operand16::Hl)
    }

    /// Writes an 8-bit register.
    pub fn write(&mut self, register: Register, value: u8)
        ensures
            *final(self) == old(self).spec_write(register, value),
            old(self).wf() ==> final(self).wf(),
    {
        match register {
            Register::A => self.a = value,
            Register::B => self.b = value,
            Register::C => self.c = value,
            Register::D => self.d = value,
            Register::E => self.e = value,
            Register::H => self.h = value,
            Register::L => self.l = value,
        }
    }

    /// Writes a register pair, or SP. Of a value written to AF, F keeps the upper nibble of
    /// the low byte only.
    pub fn write_double(&mut self, destination: Operand16, val: u16)
        ensures
            *final(self) == old(self).spec_write_double(destination, val),
            old(self).wf() ==> final(self).wf(),
    {
        let low = (val % 256) as u8;
        let high = (val / 256) as u8;
        match destination {
            Operand16::Bc => {
                self.b = high;
                self.c = low;
            },
            Operand16::De => {
                self.d = high;
                self.e = low;
            },
            Operand16::Hl => {
                self.h = high;
                self.l = low;
            },
            Operand16::Sp => {
                self.sp = val;
            },
            Operand16::Af => {
                proof {
                    lemma_upper_nibble(low);
                }
                self.a = high;
                self.f = low & 0xf0;
            },
        }
    }

    /// Writes the pair HL.
    pub fn set_hl(&mut self, val: u16)
        ensures
            *final(self) == old(self).spec_set_hl(val),
            old(self).wf() ==> final(self).wf(),
    {
        self.write_double(Operand16::Hl, val)
    }

    /// Sets one of the four flag bits of F.
    pub fn set_flag(&mut self, bit: u8, val: bool)
        requires
            4 <= bit < 8,
        ensures
            *final(self) == old(self).spec_set_flag(bit, val),
            old(self).wf() ==> final(self).wf(),
            final(self).spec_flag(bit) == val,
            forall|other: u8| 4 <= other < 8 && other != bit ==> final(self).spec_flag(other) == old(self).spec_flag(other),
    {
        proof {
            lemma_with_bit(self.f, bit, val, bit);
            assert forall|other: u8| 4 <= other < 8 && other != bit implies has_bit(with_bit(self.f, bit, val), other) == has_bit(self.f, other) by {
                lemma_with_bit(self.f, bit, val, other);
            }
        }
        let mask: u8 = 1u8 << bit;
        if val {
            self.f = self.f | mask;
        } else {
            self.f = self.f & !mask;
        }
    }

    /// Sets the flag Z.
    pub fn set_zero(&mut self, zero: bool)
        ensures
            *final(self) == old(self).spec_set_zero(zero),
            old(self).wf() ==> final(self).wf(),
    {
        self.set_flag(7, zero);
    }

    /// Sets the flag N.
    pub fn set_bcd_n(&mut self, bcd_n: bool)
        ensures
            *final(self) == old(self).spec_set_bcd_n(bcd_n),
            old(self).wf() ==> final(self).wf(),
    {
        self.set_flag(6, bcd_n);
    }

    /// Sets the flag H.
    pub fn set_bcd_h(&mut self, bcd_h: bool)
        ensures
            *final(self) == old(self).spec_set_bcd_h(bcd_h),
            old(self).wf() ==> final(self).wf(),
    {
        self.set_flag(5, bcd_h);
    }

    /// Sets the flag C.
    pub fn set_carry(&mut self, carry: bool)
        ensures
            *final(self) == old(self).spec_set_carry(carry),
            old(self).wf() ==> final(self).wf(),
    {
        self.set_flag(4, carry)
    }

    /// Sets the four flags at once.
    pub fn set_flags(&mut self, zero: bool, bcd_n: bool, bcd_h: bool, carry: bool)
        ensures
            *final(self) == old(self).spec_set_flags(zero, bcd_n, bcd_h, carry),
            old(self).wf() ==> final(self).wf(),
    {
        self.set_zero(zero);
        self.set_bcd_n(bcd_n);
        self.set_bcd_h(bcd_h);
        self.set_carry(carry);
    }

    /// Whether one of the bits of F is set.
    #[verifier::when_used_as_spec(spec_flag)]
    pub fn flag(&self, bit: u8) -> (set: bool)
        requires
            bit < 8,
        ensures
            set == self.spec_flag(bit),
    {
        let mask: u8 = 1u8 << bit;
        (self.f & mask) != 0
    }

    /// The flag Z: the last result was zero.
    #[verifier::when_used_as_spec(spec_zero)]
    pub fn zero(&self) -> (set: bool)
        ensures
            set == self.spec_zero(),
    {
        self.flag(7)
    }

    /// The flag N: the last operation was a subtraction.
    #[verifier::when_used_as_spec(spec_bcd_n)]
    pub fn bcd_n(&self) -> (set: bool)
        ensures
            set == self.spec_bcd_n(),
    {
        self.flag(6)
    }

    /// The flag H: the last operation carried out of, or borrowed into, the low nibble.
    #[verifier::when_used_as_spec(spec_bcd_h)]
    pub fn bcd_h(&self) -> (set: bool)
        ensures
            set == self.spec_bcd_h(),
    {
        self.flag(5)
    }

    /// The flag C: the last operation carried out of, or borrowed into, the byte.
    #[verifier::when_used_as_spec(spec_carry)]
    pub fn carry(&self) -> (set: bool)
        ensures
            set == self.spec_carry(),
    {
        self.flag(4)
    }
}

/// The four flags read back as they were set, whatever F held before.
pub proof fn lemma_flags_read_back(registers: Registers, zero: bool, bcd_n: bool, bcd_h: bool, carry: bool)
    ensures
        registers.spec_set_flags(zero, bcd_n, bcd_h, carry).spec_zero() == zero,
        registers.spec_set_flags(zero, bcd_n, bcd_h, carry).spec_bcd_n() == bcd_n,
        registers.spec_set_flags(zero, bcd_n, bcd_h, carry).spec_bcd_h() == bcd_h,
        registers.spec_set_flags(zero, bcd_n, bcd_h, carry).spec_carry() == carry,
        registers.wf() ==> registers.spec_set_flags(zero, bcd_n, bcd_h, carry).wf(),
{
    let r1 = registers.spec_set_zero(zero);
    let r2 = r1.spec_set_bcd_n(bcd_n);
    let r3 = r2.spec_set_bcd_h(bcd_h);
    lemma_with_bit(registers.f, 7, zero, 7);
    lemma_with_bit(r1.f, 6, bcd_n, 7);
    lemma_with_bit(r1.f, 6, bcd_n, 6);
    lemma_with_bit(r2.f, 5, bcd_h, 7);
    lemma_with_bit(r2.f, 5, bcd_h, 6);
    lemma_with_bit(r2.f, 5, bcd_h, 5);
    lemma_with_bit(r3.f, 4, carry, 7);
    lemma_with_bit(r3.f, 4, carry, 6);
    lemma_with_bit(r3.f, 4, carry, 5);
    lemma_with_bit(r3.f, 4, carry, 4);
}

/// Neither setting flags nor writing a register or a pair ever sets a bit in the low nibble
/// of F.
pub proof fn lemma_writes_keep_validity()
    ensures
        forall|r: Registers, zero: bool, bcd_n: bool, bcd_h: bool, carry: bool|
            r.wf() ==> #[trigger] r.spec_set_flags(zero, bcd_n, bcd_h, carry).wf(),
        forall|r: Registers, destination: Operand16, val: u16|
            r.wf() ==> #[trigger] r.spec_write_double(destination, val).wf(),
        forall|r: Registers, register: Register, value: u8|
            r.wf() ==> #[trigger] r.spec_write(register, value).wf(),
{
    assert forall|r: Registers, zero: bool, bcd_n: bool, bcd_h: bool, carry: bool|
        r.wf() implies #[trigger] r.spec_set_flags(zero, bcd_n, bcd_h, carry).wf() by {
        lemma_flags_read_back(r, zero, bcd_n, bcd_h, carry);
    }
    assert forall|r: Registers, destination: Operand16, val: u16| r.wf() implies #[trigger] r.spec_write_double(
        destination,
        val,
    ).wf() by {
        lemma_upper_nibble(low_byte(val));
    }
}

} // verus!
