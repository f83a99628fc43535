use libdmg::cpu::alu::{
    add16, add8, add_sp, alu8, bit_op, daa, inc_dec8, rotate, rotate_a, sub8, AluResult,
    BitResult, WideResult,
};
use libdmg::cpu::decoder::{
    to_signed, AddToSpDestination, ArithmeticLogic, Bit, BitOp, Condition, IncDecDirection,
    Instruction, LoadMemoryDirection, LoadMemoryLocation, Operand16, Operand8, Register,
    ResetSlot, RotateCarry, RotateDirection,
};
use libdmg::cpu::registers::Registers;
use libdmg::cpu::Cpu;
use libdmg::cpu::decoder::Destination;
use libdmg::peripherals::Peripherals;
use libdmg::{Cartridge, Fault};

#[test]
fn add_flags_for_every_pair() {
    for a in 0..=255u16 {
        for b in 0..=255u16 {
            let res = add8(a as u8, b as u8, false);
            assert_eq!(res.value as u16, (a + b) % 256);
            assert_eq!(res.zero, (a + b) % 256 == 0);
            assert!(!res.bcd_n);
            assert_eq!(res.bcd_h, (a & 0xf) + (b & 0xf) > 0xf);
            assert_eq!(res.carry, a + b > 0xff);
            assert_eq!(alu8(ArithmeticLogic::Add, a as u8, b as u8, true), res);
        }
    }
}

#[test]
fn sub_flags_for_every_pair() {
    for a in 0..=255u8 {
        for b in 0..=255u8 {
            let res = sub8(a, b, false);
            assert_eq!(res.value, a.wrapping_sub(b));
            assert_eq!(res.zero, a == b);
            assert!(res.bcd_n);
            assert_eq!(res.bcd_h, (a & 0xf) < (b & 0xf));
            assert_eq!(res.carry, a < b);
            assert_eq!(alu8(ArithmeticLogic::Cp, a, b, true), res);
            assert_eq!(alu8(ArithmeticLogic::Sub, a, b, true), res);
        }
    }
}

#[test]
fn exact_results() {
    assert_eq!(
        add8(0x0f, 0x01, false),
        AluResult { value: 0x10, zero: false, bcd_n: false, bcd_h: true, carry: false }
    );
    assert_eq!(
        add8(0xff, 0x00, true),
        AluResult { value: 0x00, zero: true, bcd_n: false, bcd_h: true, carry: true }
    );
    assert_eq!(
        sub8(0x10, 0x01, false),
        AluResult { value: 0x0f, zero: false, bcd_n: true, bcd_h: true, carry: false }
    );
    assert_eq!(
        alu8(ArithmeticLogic::Adc, 0x7f, 0x00, true),
        AluResult { value: 0x80, zero: false, bcd_n: false, bcd_h: true, carry: false }
    );
    assert_eq!(
        alu8(ArithmeticLogic::Sbc, 0x00, 0xff, true),
        AluResult { value: 0x00, zero: true, bcd_n: true, bcd_h: true, carry: true }
    );
    assert_eq!(
        alu8(ArithmeticLogic::And, 0x5a, 0x0f, true),
        AluResult { value: 0x0a, zero: false, bcd_n: false, bcd_h: true, carry: false }
    );
    assert_eq!(
        alu8(ArithmeticLogic::Xor, 0xff, 0xff, true),
        AluResult { value: 0x00, zero: true, bcd_n: false, bcd_h: false, carry: false }
    );
    assert_eq!(
        alu8(ArithmeticLogic::Or, 0x50, 0x0a, true),
        AluResult { value: 0x5a, zero: false, bcd_n: false, bcd_h: false, carry: false }
    );
    assert_eq!(
        inc_dec8(IncDecDirection::Inc, 0x0f, true),
        AluResult { value: 0x10, zero: false, bcd_n: false, bcd_h: true, carry: true }
    );
    assert_eq!(
        inc_dec8(IncDecDirection::Dec, 0x01, false),
        AluResult { value: 0x00, zero: true, bcd_n: true, bcd_h: false, carry: false }
    );
    assert_eq!(
        inc_dec8(IncDecDirection::Dec, 0x10, false),
        AluResult { value: 0x0f, zero: false, bcd_n: true, bcd_h: true, carry: false }
    );
    assert_eq!(add16(0x8a23, 0x0605), WideResult { value: 0x9028, bcd_h: true, carry: false });
    assert_eq!(add16(0xffff, 0x0001), WideResult { value: 0x0000, bcd_h: true, carry: true });
    assert_eq!(add16(0x0003, 0x0005), WideResult { value: 0x0008, bcd_h: false, carry: false });
    assert_eq!(add_sp(0xfff8, 8), WideResult { value: 0x0000, bcd_h: true, carry: true });
    assert_eq!(add_sp(0x0000, -1), WideResult { value: 0xffff, bcd_h: false, carry: false });
    assert_eq!(add_sp(0x000f, 1), WideResult { value: 0x0010, bcd_h: true, carry: false });
    assert_eq!(add_sp(0x00ff, -128), WideResult { value: 0x007f, bcd_h: false, carry: true });
    assert_eq!(
        daa(0x7d, false, false, false),
        AluResult { value: 0x83, zero: false, bcd_n: false, bcd_h: false, carry: false }
    );
    assert_eq!(
        daa(0x00, false, true, true),
        AluResult { value: 0x66, zero: false, bcd_n: false, bcd_h: false, carry: true }
    );
    assert_eq!(
        daa(0x66, true, true, true),
        AluResult { value: 0x00, zero: true, bcd_n: true, bcd_h: false, carry: true }
    );
    assert_eq!(
        daa(0xa0, true, false, false),
        AluResult { value: 0xa0, zero: false, bcd_n: true, bcd_h: false, carry: false }
    );
}

#[test]
fn rotations() {
    assert_eq!(rotate(RotateDirection::Left, RotateCarry::Through, 0x85, false), (0x0b, true));
    assert_eq!(rotate(RotateDirection::Left, RotateCarry::NotThrough, 0x85, false), (0x0a, true));
    assert_eq!(rotate(RotateDirection::Left, RotateCarry::NotThrough, 0x05, true), (0x0b, false));
    assert_eq!(rotate(RotateDirection::Right, RotateCarry::Through, 0x01, false), (0x80, true));
    assert_eq!(rotate(RotateDirection::Right, RotateCarry::NotThrough, 0x01, false), (0x00, true));
    assert_eq!(rotate(RotateDirection::Right, RotateCarry::NotThrough, 0x02, true), (0x81, false));
    assert_eq!(
        rotate_a(RotateDirection::Right, RotateCarry::NotThrough, 0x01, false),
        AluResult { value: 0x00, zero: false, bcd_n: false, bcd_h: false, carry: true }
    );
    assert_eq!(
        bit_op(BitOp::Rotate(RotateDirection::Right, RotateCarry::NotThrough), 0x01, false, true, true, false),
        BitResult { value: Some(0x00), zero: true, bcd_n: false, bcd_h: false, carry: true }
    );
    assert_eq!(
        bit_op(BitOp::Test(Bit::Bit4), 0xef, false, true, false, true),
        BitResult { value: None, zero: true, bcd_n: false, bcd_h: true, carry: true }
    );
    assert_eq!(
        bit_op(BitOp::Clear(Bit::Bit4), 0xff, true, true, false, true),
        BitResult { value: Some(0xef), zero: true, bcd_n: true, bcd_h: false, carry: true }
    );
    assert_eq!(
        bit_op(BitOp::SetBit(Bit::Bit6), 0x00, false, false, false, false),
        BitResult { value: Some(0x40), zero: false, bcd_n: false, bcd_h: false, carry: false }
    );
    assert_eq!(
        bit_op(BitOp::SwapNibbles, 0x00, false, true, true, true),
        BitResult { value: Some(0x00), zero: true, bcd_n: false, bcd_h: false, carry: false }
    );
    assert_eq!(Bit::Bit5.mask(), 0x20);
    assert_eq!(Bit::from_op_bits456(0x78), Bit::Bit7);
}

#[test]
fn signed_bytes() {
    assert_eq!(to_signed(0x00), 0);
    assert_eq!(to_signed(0x7f), 127);
    assert_eq!(to_signed(0x80), -128);
    assert_eq!(to_signed(0xff), -1);
}

#[test]
fn register_pairs_and_flags() {
    let mut registers = Registers::new();
    assert_eq!(registers.f, 0);
    assert_eq!(registers.sp, 0);
    assert_eq!(registers.pc, 0);
    registers.write(Register::B, 0x12);
    registers.write(Register::C, 0x34);
    registers.write(Register::D, 0x56);
    registers.write(Register::E, 0x78);
    registers.write(Register::H, 0x9a);
    registers.write(Register::L, 0xbc);
    registers.write(Register::A, 0xde);
    assert_eq!(registers.bc(), 0x1234);
    assert_eq!(registers.de(), 0x5678);
    assert_eq!(registers.hl(), 0x9abc);
    assert_eq!(registers.read(Register::A), 0xde);
    assert_eq!(registers.read(Register::L), 0xbc);
    assert_eq!(registers.read_double(Operand16::Af), 0xde00);
    registers.write_double(Operand16::Af, 0x01ff);
    assert_eq!(registers.a, 0x01);
    assert_eq!(registers.f, 0xf0);
    assert!(registers.zero() && registers.bcd_n() && registers.bcd_h() && registers.carry());
    registers.set_bcd_h(false);
    assert_eq!(registers.f, 0xd0);
    registers.set_zero(false);
    assert_eq!(registers.f, 0x50);
    registers.set_carry(false);
    assert_eq!(registers.f, 0x40);
    registers.set_bcd_n(false);
    assert_eq!(registers.f, 0x00);
    registers.set_flag(5, true);
    assert!(registers.flag(5));
    assert!(!registers.flag(4));
    registers.set_flags(true, false, false, true);
    assert_eq!(registers.f, 0x90);
    registers.write_double(Operand16::Sp, 0xfffe);
    assert_eq!(registers.read_double(Operand16::Sp), 0xfffe);
    registers.set_hl(0x0102);
    assert_eq!((registers.h, registers.l), (0x01, 0x02));
    registers.write_double(Operand16::De, 0x0304);
    assert_eq!((registers.d, registers.e), (0x03, 0x04));
    registers.write_double(Operand16::Bc, 0x0506);
    assert_eq!((registers.b, registers.c), (0x05, 0x06));
}

#[test]
fn opcode_fields() {
    assert_eq!(Operand8::from_op_bits123(0x46), Operand8::IndirectHl);
    assert_eq!(Operand8::from_op_bits123(0x47), Operand8::Register(Register::A));
    assert_eq!(Operand8::from_op_bits456(0x46), Operand8::Register(Register::B));
    assert_eq!(Operand8::from_op_bits456(0x6e), Operand8::Register(Register::L));
    assert_eq!(Operand16::from_op_bits56_sp(0x31), Operand16::Sp);
    assert_eq!(Operand16::from_op_bits56_af(0xf5), Operand16::Af);
    assert_eq!(Operand16::from_op_bits56_af(0xd5), Operand16::De);
    assert_eq!(ArithmeticLogic::from_op_bits456(0x98), ArithmeticLogic::Sbc);
    assert_eq!(ArithmeticLogic::from_op_bits456(0xb0), ArithmeticLogic::Or);
    assert_eq!(IncDecDirection::from_op_bit1(0x05), IncDecDirection::Dec);
    assert_eq!(IncDecDirection::from_op_bit4(0x03), IncDecDirection::Inc);
    assert_eq!(RotateDirection::from_op_bit4(0x0f), RotateDirection::Right);
    assert_eq!(RotateCarry::from_op_bit5(0x17), RotateCarry::NotThrough);
    assert_eq!(LoadMemoryDirection::from_op_bit4(0x0a), LoadMemoryDirection::FromMemory);
    assert_eq!(LoadMemoryDirection::from_op_bit5(0xe0), LoadMemoryDirection::ToMemory);
    assert_eq!(LoadMemoryLocation::from_op_bits56(0x22), LoadMemoryLocation::HlInc);
    assert_eq!(Condition::from_op_bits156(0xc9), Condition::Always);
    assert_eq!(Condition::from_op_bits156(0xd8), Condition::Carry);
    assert_eq!(ResetSlot::from_op(0xdf), ResetSlot::Slot3);
    assert_eq!(ResetSlot::Slot3.address(), 0x18);
    assert_eq!(AddToSpDestination::from_op(0xf8), AddToSpDestination::Hl);
    assert_eq!(Instruction::from_simple_op(0xf9), Instruction::LoadHlToSp);
}

#[test]
fn operands_and_conditions() {
    let mut cpu = Cpu::new();
    let mut bus = Peripherals::new(vec![0u8; 256], Cartridge::new(vec![0u8; 0x8000], None));
    assert_eq!(cpu.cycle(), 0);
    cpu.registers.set_hl(0xc000);
    cpu.registers.d = 0x44;
    assert_eq!(cpu.store_operand8(&mut bus, Operand8::IndirectHl, 0x99), Ok(4));
    assert_eq!(cpu.load_operand8(&bus, Operand8::IndirectHl), Ok((4, 0x99)));
    assert_eq!(cpu.load_operand8(&bus, Operand8::Register(Register::D)), Ok((0, 0x44)));
    assert_eq!(cpu.load_operand8(&bus, Operand8::Immediate(0x12)), Ok((4, 0x12)));
    assert_eq!(cpu.store_operand8(&mut bus, Operand8::Register(Register::E), 0x21), Ok(0));
    assert_eq!(cpu.registers.e, 0x21);
    cpu.registers.set_hl(0xff05);
    assert_eq!(cpu.load_operand8(&bus, Operand8::IndirectHl), Err(Fault::TimaRead));
    assert_eq!(cpu.store_operand8(&mut bus, Operand8::IndirectHl, 1), Err(Fault::TimaWrite));
    cpu.registers.f = 0x80;
    assert!(cpu.check_condition(Condition::Always));
    assert!(cpu.check_condition(Condition::Zero));
    assert!(!cpu.check_condition(Condition::NonZero));
    assert!(cpu.check_condition(Condition::NonCarry));
    assert!(!cpu.check_condition(Condition::Carry));
    assert_eq!(cpu.jump_destination(0x0100, Destination::Absolute(0x1234)), (12, 0x1234));
    assert_eq!(cpu.jump_destination(0x0100, Destination::Relative(-2)), (8, 0x00fe));
    assert_eq!(cpu.jump_destination(0x0001, Destination::Relative(-2)), (8, 0xffff));
    assert_eq!(cpu.jump_destination(0x0100, Destination::Hl), (0, 0xff05));
    cpu.registers.sp = 0xd000;
    assert_eq!(cpu.push(&mut bus, 0xbeef), Ok(()));
    assert_eq!(cpu.registers.sp, 0xcffe);
    assert_eq!(cpu.pop(&bus), Ok(0xbeef));
    assert_eq!(cpu.registers.sp, 0xd000);
    assert_eq!(cpu.execute(&mut bus, 0x0010, Instruction::Nop), Ok((0x0010, 4)));
    assert_eq!(cpu.run_instruction(&mut bus, 0x0000), Ok(()));
    assert_eq!(cpu.registers.pc, 1);
    assert_eq!(cpu.cycle(), 4);
}
