use libdmg::cpu::decoder::{
    AddToSpDestination, ArithmeticLogic, Bit, BitOp, Condition, Destination, IncDecDirection,
    Instruction, LoadMemoryDirection, LoadMemoryLocation, Operand16, Operand8, Register,
    ResetSlot, RotateCarry, RotateDirection,
};
use libdmg::cpu::pc_reader::PcReader;
use libdmg::cpu::Cpu;
use libdmg::peripherals::Peripherals;
use libdmg::{Cartridge, Fault};

fn machine(program: &[u8]) -> (Cpu, Peripherals) {
    let mut bootrom = vec![0u8; 256];
    bootrom[..program.len()].copy_from_slice(program);
    let cartridge = Cartridge::new(vec![0u8; 0x8000], None);
    (Cpu::new(), Peripherals::new(bootrom, cartridge))
}

fn decode(program: &[u8]) -> (Instruction, u16) {
    let (_, bus) = machine(program);
    let mut reader = PcReader::new(0, 0, &bus);
    let inst = Instruction::from_pc_reader(&mut reader).unwrap();
    (inst, reader.pc)
}

#[test]
fn add_half_carry_edge() {
    let (mut cpu, mut bus) = machine(&[0x80]);
    cpu.registers.a = 0x0f;
    cpu.registers.b = 0x01;
    assert_eq!(cpu.step(&mut bus), Ok(()));
    assert_eq!(cpu.registers.a, 0x10);
    assert!(!cpu.registers.zero());
    assert!(!cpu.registers.bcd_n());
    assert!(cpu.registers.bcd_h());
    assert!(!cpu.registers.carry());
    assert_eq!(cpu.registers.f, 0x20);
    assert_eq!(cpu.cycle, 4);
    assert_eq!(cpu.registers.pc, 1);
}

#[test]
fn sub_borrow_edge() {
    let (mut cpu, mut bus) = machine(&[0x90]);
    cpu.registers.a = 0x10;
    cpu.registers.b = 0x01;
    assert_eq!(cpu.step(&mut bus), Ok(()));
    assert_eq!(cpu.registers.a, 0x0f);
    assert!(!cpu.registers.zero());
    assert!(cpu.registers.bcd_n());
    assert!(cpu.registers.bcd_h());
    assert!(!cpu.registers.carry());
}

#[test]
fn daa_after_add() {
    let (mut cpu, mut bus) = machine(&[0x80, 0x27]);
    cpu.registers.a = 0x45;
    cpu.registers.b = 0x38;
    assert_eq!(cpu.step(&mut bus), Ok(()));
    assert_eq!(cpu.registers.a, 0x7d);
    assert!(!cpu.registers.bcd_h());
    assert!(!cpu.registers.carry());
    assert_eq!(cpu.step(&mut bus), Ok(()));
    assert_eq!(cpu.registers.a, 0x83);
    assert!(!cpu.registers.zero());
    assert!(!cpu.registers.bcd_n());
    assert!(!cpu.registers.bcd_h());
    assert!(!cpu.registers.carry());
    assert_eq!(cpu.cycle, 8);
}

#[test]
fn daa_after_subtraction_with_borrow() {
    // 0x10 - 0x01 = 0x0f with H set: the adjustment takes 6 away.
    let (mut cpu, mut bus) = machine(&[0x90, 0x27]);
    cpu.registers.a = 0x10;
    cpu.registers.b = 0x01;
    cpu.step(&mut bus).unwrap();
    cpu.step(&mut bus).unwrap();
    assert_eq!(cpu.registers.a, 0x09);
    assert!(cpu.registers.bcd_n());
    assert!(!cpu.registers.bcd_h());
    assert!(!cpu.registers.carry());
}

#[test]
fn daa_sets_carry_above_99() {
    let (mut cpu, mut bus) = machine(&[0x27]);
    cpu.registers.a = 0x9a;
    cpu.step(&mut bus).unwrap();
    assert_eq!(cpu.registers.a, 0x00);
    assert!(cpu.registers.zero());
    assert!(cpu.registers.carry());
}

#[test]
fn add_hl_bc() {
    let (mut cpu, mut bus) = machine(&[0x09]);
    cpu.registers.set_hl(0x8a23);
    cpu.registers.write_double(Operand16::Bc, 0x0605);
    cpu.registers.set_zero(true);
    cpu.registers.set_bcd_n(true);
    assert_eq!(cpu.step(&mut bus), Ok(()));
    assert_eq!(cpu.registers.hl(), 0x9028);
    assert!(!cpu.registers.bcd_n());
    assert!(cpu.registers.bcd_h());
    assert!(!cpu.registers.carry());
    assert!(cpu.registers.zero());
    assert_eq!(cpu.cycle, 8);
}

#[test]
fn add_hl_keeps_clear_zero_and_carries_out() {
    let (mut cpu, mut bus) = machine(&[0x29]);
    cpu.registers.set_hl(0x8000);
    cpu.step(&mut bus).unwrap();
    assert_eq!(cpu.registers.hl(), 0x0000);
    assert!(!cpu.registers.zero());
    assert!(!cpu.registers.bcd_h());
    assert!(cpu.registers.carry());
}

#[test]
fn cb_rotate_left_through_carry() {
    let (mut cpu, mut bus) = machine(&[0xcb, 0x17]);
    cpu.registers.a = 0x85;
    cpu.registers.set_carry(false);
    assert_eq!(cpu.step(&mut bus), Ok(()));
    assert_eq!(cpu.registers.a, 0x0a);
    assert!(!cpu.registers.zero());
    assert!(cpu.registers.carry());
    assert!(!cpu.registers.bcd_n());
    assert!(!cpu.registers.bcd_h());
    assert_eq!(cpu.cycle, 8);
    assert_eq!(cpu.registers.pc, 2);
}

#[test]
fn interrupt_dispatch() {
    // JR -2 at the vector keeps the program counter there.
    let mut program = vec![0u8; 0x42];
    program[0x40] = 0x18;
    program[0x41] = 0xfe;
    let (mut cpu, mut bus) = machine(&program);
    bus.write(0, 0xffff, 0x01).unwrap();
    bus.write(0, 0xff0f, 0x01).unwrap();
    cpu.interrupt_enable = true;
    cpu.halted = true;
    cpu.registers.sp = 0xfffe;
    cpu.registers.pc = 0x0150;
    assert_eq!(cpu.step(&mut bus), Ok(()));
    assert_eq!(bus.read(0, 0xfffc), Ok(0x50));
    assert_eq!(bus.read(0, 0xfffd), Ok(0x01));
    assert_eq!(cpu.registers.sp, 0xfffc);
    assert_eq!(bus.read(cpu.cycle, 0xff0f).unwrap() & 0x01, 0);
    assert!(!cpu.interrupt_enable);
    assert!(!cpu.halted);
    assert_eq!(cpu.registers.pc, 0x0040);
    assert_eq!(cpu.cycle, 12);
}

#[test]
fn interrupt_service_gives_the_vector() {
    let (mut cpu, mut bus) = machine(&[]);
    bus.write(0, 0xffff, 0x01).unwrap();
    bus.write(0, 0xff0f, 0x01).unwrap();
    cpu.interrupt_enable = true;
    cpu.registers.sp = 0xfffe;
    assert_eq!(cpu.serve_interrupt(&mut bus, 0x0150), Ok(0x0040));
    assert_eq!(bus.read_u16(0, 0xfffc), Ok(0x0150));
    assert!(!cpu.interrupt_enable);
    assert_eq!(cpu.cycle, 0);
}

#[test]
fn interrupt_priority_takes_the_lowest_bit() {
    let (mut cpu, mut bus) = machine(&[]);
    bus.write(0, 0xffff, 0x1f).unwrap();
    bus.write(0, 0xff0f, 0x14).unwrap();
    cpu.interrupt_enable = true;
    cpu.registers.sp = 0xfffe;
    assert_eq!(cpu.serve_interrupt(&mut bus, 0x1234), Ok(0x0050));
    assert_eq!(bus.read(0, 0xff0f), Ok(0x10));
}

#[test]
fn interrupt_is_not_served_when_disabled_or_masked() {
    let (mut cpu, mut bus) = machine(&[]);
    bus.write(0, 0xff0f, 0x01).unwrap();
    bus.write(0, 0xffff, 0x01).unwrap();
    assert_eq!(cpu.serve_interrupt(&mut bus, 0x0150), Ok(0x0150));
    cpu.interrupt_enable = true;
    bus.write(0, 0xffff, 0x02).unwrap();
    assert_eq!(cpu.serve_interrupt(&mut bus, 0x0150), Ok(0x0150));
    assert!(cpu.interrupt_enable);
    assert_eq!(bus.read(0, 0xff0f), Ok(0x01));
}

#[test]
fn adc_counts_the_carry_in_both_halves() {
    let (mut cpu, mut bus) = machine(&[0x88]);
    cpu.registers.a = 0x0f;
    cpu.registers.b = 0xf0;
    cpu.registers.set_carry(true);
    cpu.step(&mut bus).unwrap();
    assert_eq!(cpu.registers.a, 0x00);
    assert!(cpu.registers.zero());
    assert!(cpu.registers.bcd_h());
    assert!(cpu.registers.carry());
    assert!(!cpu.registers.bcd_n());
}

#[test]
fn sbc_counts_the_carry_in_both_halves() {
    let (mut cpu, mut bus) = machine(&[0x98]);
    cpu.registers.a = 0x10;
    cpu.registers.b = 0x0f;
    cpu.registers.set_carry(true);
    cpu.step(&mut bus).unwrap();
    assert_eq!(cpu.registers.a, 0x00);
    assert!(cpu.registers.zero());
    assert!(cpu.registers.bcd_n());
    assert!(cpu.registers.bcd_h());
    assert!(!cpu.registers.carry());
}

#[test]
fn sbc_borrows_out() {
    let (mut cpu, mut bus) = machine(&[0x98]);
    cpu.registers.a = 0x00;
    cpu.registers.b = 0x00;
    cpu.registers.set_carry(true);
    cpu.step(&mut bus).unwrap();
    assert_eq!(cpu.registers.a, 0xff);
    assert!(cpu.registers.bcd_h());
    assert!(cpu.registers.carry());
}

#[test]
fn and_xor_or_flags() {
    let (mut cpu, mut bus) = machine(&[0xa0, 0xa8, 0xb0]);
    cpu.registers.a = 0xf0;
    cpu.registers.b = 0x3c;
    cpu.registers.set_carry(true);
    cpu.step(&mut bus).unwrap();
    assert_eq!(cpu.registers.a, 0x30);
    assert_eq!(cpu.registers.f, 0x20);
    cpu.step(&mut bus).unwrap();
    assert_eq!(cpu.registers.a, 0x0c);
    assert_eq!(cpu.registers.f, 0x00);
    cpu.registers.a = 0x00;
    cpu.registers.b = 0x00;
    cpu.step(&mut bus).unwrap();
    assert_eq!(cpu.registers.a, 0x00);
    assert_eq!(cpu.registers.f, 0x80);
}

#[test]
fn cp_compares_without_storing() {
    let (mut cpu, mut bus) = machine(&[0xfe, 0x42]);
    cpu.registers.a = 0x42;
    cpu.step(&mut bus).unwrap();
    assert_eq!(cpu.registers.a, 0x42);
    assert_eq!(cpu.registers.f, 0xc0);
    assert_eq!(cpu.cycle, 8);
    assert_eq!(cpu.registers.pc, 2);
}

#[test]
fn alu_on_indirect_hl_costs_eight_cycles() {
    let (mut cpu, mut bus) = machine(&[0x86]);
    bus.write(0, 0xc000, 0x22).unwrap();
    cpu.registers.set_hl(0xc000);
    cpu.registers.a = 0x11;
    cpu.step(&mut bus).unwrap();
    assert_eq!(cpu.registers.a, 0x33);
    assert_eq!(cpu.cycle, 8);
}

#[test]
fn inc_and_dec_leave_carry() {
    let (mut cpu, mut bus) = machine(&[0x04, 0x05, 0x05]);
    cpu.registers.b = 0xff;
    cpu.registers.set_carry(true);
    cpu.step(&mut bus).unwrap();
    assert_eq!(cpu.registers.b, 0x00);
    assert_eq!(cpu.registers.f, 0xb0);
    cpu.step(&mut bus).unwrap();
    assert_eq!(cpu.registers.b, 0xff);
    assert_eq!(cpu.registers.f, 0x70);
    cpu.step(&mut bus).unwrap();
    assert_eq!(cpu.registers.b, 0xfe);
    assert_eq!(cpu.registers.f, 0x50);
    assert_eq!(cpu.cycle, 12);
}

#[test]
fn inc_indirect_hl_costs_twelve_cycles() {
    let (mut cpu, mut bus) = machine(&[0x34]);
    bus.write(0, 0xc010, 0x0f).unwrap();
    cpu.registers.set_hl(0xc010);
    cpu.step(&mut bus).unwrap();
    assert_eq!(bus.read(0, 0xc010), Ok(0x10));
    assert!(cpu.registers.bcd_h());
    assert_eq!(cpu.cycle, 12);
}

#[test]
fn inc_dec_16_bit_wrap_and_leave_flags() {
    let (mut cpu, mut bus) = machine(&[0x03, 0x3b]);
    cpu.registers.write_double(Operand16::Bc, 0xffff);
    cpu.registers.sp = 0x0000;
    cpu.registers.f = 0xf0;
    cpu.step(&mut bus).unwrap();
    assert_eq!(cpu.registers.bc(), 0x0000);
    cpu.step(&mut bus).unwrap();
    assert_eq!(cpu.registers.sp, 0xffff);
    assert_eq!(cpu.registers.f, 0xf0);
    assert_eq!(cpu.cycle, 16);
}

#[test]
fn push_pop_round_trip() {
    let (mut cpu, mut bus) = machine(&[0xc5, 0xc1, 0xd5, 0xd1, 0xe5, 0xe1]);
    cpu.registers.sp = 0xd000;
    cpu.registers.write_double(Operand16::Bc, 0x1234);
    cpu.registers.write_double(Operand16::De, 0x5678);
    cpu.registers.write_double(Operand16::Hl, 0x9abc);
    let before = cpu.registers;
    for _ in 0..3 {
        cpu.step(&mut bus).unwrap();
        assert_eq!(cpu.registers.sp, 0xcffe);
        cpu.step(&mut bus).unwrap();
        assert_eq!(cpu.registers.sp, 0xd000);
    }
    assert_eq!(cpu.registers.bc(), before.bc());
    assert_eq!(cpu.registers.de(), before.de());
    assert_eq!(cpu.registers.hl(), before.hl());
    assert_eq!(cpu.cycle, 3 * (16 + 12));
}

#[test]
fn push_writes_low_byte_first_below_sp() {
    let (mut cpu, mut bus) = machine(&[0xc5]);
    cpu.registers.sp = 0xd000;
    cpu.registers.write_double(Operand16::Bc, 0x1234);
    cpu.step(&mut bus).unwrap();
    assert_eq!(bus.read(0, 0xcffe), Ok(0x34));
    assert_eq!(bus.read(0, 0xcfff), Ok(0x12));
}

#[test]
fn pop_af_masks_the_low_nibble() {
    let (mut cpu, mut bus) = machine(&[0xf1]);
    cpu.registers.sp = 0xc000;
    bus.write_u16(0, 0xc000, 0x12ff).unwrap();
    cpu.step(&mut bus).unwrap();
    assert_eq!(cpu.registers.a, 0x12);
    assert_eq!(cpu.registers.f, 0xf0);
    assert_eq!(cpu.registers.f & 0x0f, 0);
}

#[test]
fn jr_taken_and_not_taken() {
    let (mut cpu, mut bus) = machine(&[0x20, 0x02, 0x00, 0x00, 0x28, 0x05]);
    cpu.step(&mut bus).unwrap();
    assert_eq!(cpu.registers.pc, 4);
    assert_eq!(cpu.cycle, 12);
    cpu.step(&mut bus).unwrap();
    assert_eq!(cpu.registers.pc, 6);
    assert_eq!(cpu.cycle, 20);
}

#[test]
fn jr_backwards() {
    let (mut cpu, mut bus) = machine(&[0x00, 0x18, 0xfd]);
    cpu.step(&mut bus).unwrap();
    cpu.step(&mut bus).unwrap();
    assert_eq!(cpu.registers.pc, 0);
    assert_eq!(cpu.cycle, 16);
}

#[test]
fn jp_absolute_conditional_and_hl() {
    let (mut cpu, mut bus) = machine(&[0xda, 0x34, 0x12, 0xc3, 0x10, 0x00]);
    cpu.step(&mut bus).unwrap();
    assert_eq!(cpu.registers.pc, 3);
    assert_eq!(cpu.cycle, 12);
    cpu.step(&mut bus).unwrap();
    assert_eq!(cpu.registers.pc, 0x0010);
    assert_eq!(cpu.cycle, 28);
    let (mut cpu, mut bus) = machine(&[0xe9]);
    cpu.registers.set_hl(0x0042);
    cpu.step(&mut bus).unwrap();
    assert_eq!(cpu.registers.pc, 0x0042);
    assert_eq!(cpu.cycle, 4);
}

#[test]
fn call_and_ret() {
    let mut program = vec![0u8; 0x21];
    program[0] = 0xcd;
    program[1] = 0x20;
    program[2] = 0x00;
    program[0x20] = 0xc9;
    let (mut cpu, mut bus) = machine(&program);
    cpu.registers.sp = 0xd000;
    cpu.step(&mut bus).unwrap();
    assert_eq!(cpu.registers.pc, 0x0020);
    assert_eq!(cpu.registers.sp, 0xcffe);
    assert_eq!(bus.read_u16(0, 0xcffe), Ok(0x0003));
    assert_eq!(cpu.cycle, 16);
    cpu.step(&mut bus).unwrap();
    assert_eq!(cpu.registers.pc, 0x0003);
    assert_eq!(cpu.registers.sp, 0xd000);
    assert_eq!(cpu.cycle, 32);
}

#[test]
fn call_not_taken_costs_twelve_cycles() {
    let (mut cpu, mut bus) = machine(&[0xcc, 0x20, 0x00]);
    cpu.registers.sp = 0xd000;
    cpu.step(&mut bus).unwrap();
    assert_eq!(cpu.registers.pc, 3);
    assert_eq!(cpu.registers.sp, 0xd000);
    assert_eq!(cpu.cycle, 12);
}

#[test]
fn ret_conditional_costs() {
    let (mut cpu, mut bus) = machine(&[0xc8, 0xc0]);
    cpu.registers.sp = 0xc000;
    bus.write_u16(0, 0xc000, 0x0080).unwrap();
    cpu.step(&mut bus).unwrap();
    assert_eq!(cpu.registers.pc, 1);
    assert_eq!(cpu.cycle, 8);
    cpu.step(&mut bus).unwrap();
    assert_eq!(cpu.registers.pc, 0x0080);
    assert_eq!(cpu.registers.sp, 0xc002);
    assert_eq!(cpu.cycle, 28);
}

#[test]
fn reti_enables_interrupts() {
    let (mut cpu, mut bus) = machine(&[0xd9]);
    cpu.registers.sp = 0xc000;
    bus.write_u16(0, 0xc000, 0x0150).unwrap();
    cpu.step(&mut bus).unwrap();
    assert_eq!(cpu.registers.pc, 0x0150);
    assert_eq!(cpu.registers.sp, 0xc002);
    assert!(cpu.interrupt_enable);
    assert_eq!(cpu.cycle, 16);
}

#[test]
fn rst_pushes_and_jumps_to_its_slot() {
    let (mut cpu, mut bus) = machine(&[0xef]);
    cpu.registers.sp = 0xd000;
    cpu.step(&mut bus).unwrap();
    assert_eq!(cpu.registers.pc, 0x0028);
    assert_eq!(bus.read_u16(0, 0xcffe), Ok(0x0001));
    assert_eq!(cpu.cycle, 16);
}

#[test]
fn add_sp_signed_immediate() {
    let (mut cpu, mut bus) = machine(&[0xe8, 0x08, 0xf8, 0xff]);
    cpu.registers.sp = 0xfff8;
    cpu.registers.set_zero(true);
    cpu.registers.set_bcd_n(true);
    cpu.step(&mut bus).unwrap();
    assert_eq!(cpu.registers.sp, 0x0000);
    assert_eq!(cpu.registers.f, 0x30);
    assert_eq!(cpu.cycle, 16);
    cpu.registers.sp = 0x0001;
    cpu.step(&mut bus).unwrap();
    assert_eq!(cpu.registers.hl(), 0x0000);
    assert_eq!(cpu.registers.sp, 0x0001);
    assert_eq!(cpu.registers.f, 0x30);
    assert_eq!(cpu.cycle, 32);
}

#[test]
fn add_sp_without_carries() {
    let (mut cpu, mut bus) = machine(&[0xe8, 0x01]);
    cpu.registers.sp = 0x0100;
    cpu.step(&mut bus).unwrap();
    assert_eq!(cpu.registers.sp, 0x0101);
    assert_eq!(cpu.registers.f, 0x00);
}

#[test]
fn rotate_accumulator_clears_zero() {
    let (mut cpu, mut bus) = machine(&[0x07, 0x0f, 0x17, 0x1f]);
    cpu.registers.a = 0x80;
    cpu.registers.f = 0xe0;
    cpu.step(&mut bus).unwrap();
    assert_eq!(cpu.registers.a, 0x01);
    assert_eq!(cpu.registers.f, 0x10);
    cpu.step(&mut bus).unwrap();
    assert_eq!(cpu.registers.a, 0x80);
    assert_eq!(cpu.registers.f, 0x10);
    cpu.step(&mut bus).unwrap();
    assert_eq!(cpu.registers.a, 0x01);
    assert_eq!(cpu.registers.f, 0x10);
    cpu.step(&mut bus).unwrap();
    assert_eq!(cpu.registers.a, 0x80);
    assert_eq!(cpu.registers.f, 0x10);
    assert_eq!(cpu.cycle, 16);
}

#[test]
fn rla_of_zero_result_keeps_zero_clear() {
    let (mut cpu, mut bus) = machine(&[0x17]);
    cpu.registers.a = 0x80;
    cpu.step(&mut bus).unwrap();
    assert_eq!(cpu.registers.a, 0x00);
    assert_eq!(cpu.registers.f, 0x10);
}

#[test]
fn cb_shifts_and_swap() {
    let (mut cpu, mut bus) = machine(&[0xcb, 0x20, 0xcb, 0x28, 0xcb, 0x30, 0xcb, 0x38, 0xcb, 0x00, 0xcb, 0x08, 0xcb, 0x18]);
    cpu.registers.b = 0x81;
    cpu.step(&mut bus).unwrap();
    assert_eq!(cpu.registers.b, 0x02);
    assert_eq!(cpu.registers.f, 0x10);
    cpu.registers.b = 0x81;
    cpu.step(&mut bus).unwrap();
    assert_eq!(cpu.registers.b, 0xc0);
    assert_eq!(cpu.registers.f, 0x10);
    cpu.registers.b = 0xa5;
    cpu.step(&mut bus).unwrap();
    assert_eq!(cpu.registers.b, 0x5a);
    assert_eq!(cpu.registers.f, 0x00);
    cpu.registers.b = 0x01;
    cpu.step(&mut bus).unwrap();
    assert_eq!(cpu.registers.b, 0x00);
    assert_eq!(cpu.registers.f, 0x90);
    cpu.registers.b = 0x80;
    cpu.step(&mut bus).unwrap();
    assert_eq!(cpu.registers.b, 0x01);
    assert_eq!(cpu.registers.f, 0x10);
    cpu.registers.b = 0x01;
    cpu.step(&mut bus).unwrap();
    assert_eq!(cpu.registers.b, 0x80);
    assert_eq!(cpu.registers.f, 0x10);
    cpu.registers.b = 0x02;
    cpu.step(&mut bus).unwrap();
    assert_eq!(cpu.registers.b, 0x81);
    assert_eq!(cpu.registers.f, 0x00);
    assert_eq!(cpu.cycle, 7 * 8);
}

#[test]
fn cb_bit_test_clear_set() {
    let (mut cpu, mut bus) = machine(&[0xcb, 0x7f, 0xcb, 0x47, 0xcb, 0xbf, 0xcb, 0xc7]);
    cpu.registers.a = 0x80;
    cpu.registers.set_carry(true);
    cpu.step(&mut bus).unwrap();
    assert_eq!(cpu.registers.f, 0x30);
    cpu.step(&mut bus).unwrap();
    assert_eq!(cpu.registers.f, 0xb0);
    assert_eq!(cpu.registers.a, 0x80);
    cpu.step(&mut bus).unwrap();
    assert_eq!(cpu.registers.a, 0x00);
    assert_eq!(cpu.registers.f, 0xb0);
    cpu.step(&mut bus).unwrap();
    assert_eq!(cpu.registers.a, 0x01);
    assert_eq!(cpu.registers.f, 0xb0);
}

#[test]
fn cb_on_indirect_hl_cycles() {
    let (mut cpu, mut bus) = machine(&[0xcb, 0x46, 0xcb, 0xc6]);
    cpu.registers.set_hl(0xc000);
    cpu.step(&mut bus).unwrap();
    assert_eq!(cpu.cycle, 12);
    assert!(cpu.registers.zero());
    cpu.step(&mut bus).unwrap();
    assert_eq!(cpu.cycle, 28);
    assert_eq!(bus.read(0, 0xc000), Ok(0x01));
}

#[test]
fn scf_ccf_cpl() {
    let (mut cpu, mut bus) = machine(&[0x37, 0x3f, 0x3f, 0x2f]);
    cpu.registers.f = 0xe0;
    cpu.step(&mut bus).unwrap();
    assert_eq!(cpu.registers.f, 0x90);
    cpu.step(&mut bus).unwrap();
    assert_eq!(cpu.registers.f, 0x80);
    cpu.registers.set_bcd_n(true);
    cpu.registers.set_bcd_h(true);
    cpu.step(&mut bus).unwrap();
    assert_eq!(cpu.registers.f, 0x90);
    cpu.registers.a = 0x35;
    cpu.step(&mut bus).unwrap();
    assert_eq!(cpu.registers.a, 0xca);
    assert_eq!(cpu.registers.f, 0xf0);
    assert_eq!(cpu.cycle, 16);
}

#[test]
fn ei_di_halt_nop() {
    let (mut cpu, mut bus) = machine(&[0xfb, 0xf3, 0x00, 0x76]);
    cpu.step(&mut bus).unwrap();
    assert!(cpu.interrupt_enable);
    cpu.step(&mut bus).unwrap();
    assert!(!cpu.interrupt_enable);
    cpu.step(&mut bus).unwrap();
    cpu.step(&mut bus).unwrap();
    assert!(cpu.halted);
    assert_eq!(cpu.cycle, 16);
    assert_eq!(cpu.registers.pc, 4);
}

#[test]
fn halted_cpu_leaps_to_the_vertical_blank() {
    let (mut cpu, mut bus) = machine(&[0x76]);
    cpu.step(&mut bus).unwrap();
    assert_eq!(cpu.step(&mut bus), Ok(()));
    assert_eq!(cpu.cycle, 65664);
    assert!(cpu.halted);
    assert_eq!(cpu.registers.pc, 1);
}

#[test]
fn halted_cpu_is_woken_by_an_interrupt() {
    let mut program = vec![0u8; 0x41];
    program[0] = 0x76;
    let (mut cpu, mut bus) = machine(&program);
    bus.write(0, 0xffff, 0x01).unwrap();
    cpu.interrupt_enable = true;
    cpu.registers.sp = 0xd000;
    cpu.step(&mut bus).unwrap();
    cpu.step(&mut bus).unwrap();
    assert_eq!(cpu.cycle, 65664);
    cpu.step(&mut bus).unwrap();
    assert!(!cpu.halted);
    assert_eq!(cpu.registers.pc, 0x0041);
    assert_eq!(bus.read_u16(0, 0xcffe), Ok(0x0001));
    assert_eq!(cpu.cycle, 65668);
}

#[test]
fn loads_between_registers_and_memory() {
    let (mut cpu, mut bus) = machine(&[0x06, 0x12, 0x48, 0x36, 0x34, 0x7e, 0x70]);
    cpu.registers.set_hl(0xc100);
    cpu.step(&mut bus).unwrap();
    assert_eq!(cpu.registers.b, 0x12);
    assert_eq!(cpu.cycle, 8);
    cpu.step(&mut bus).unwrap();
    assert_eq!(cpu.registers.c, 0x12);
    assert_eq!(cpu.cycle, 12);
    cpu.step(&mut bus).unwrap();
    assert_eq!(bus.read(0, 0xc100), Ok(0x34));
    assert_eq!(cpu.cycle, 24);
    cpu.step(&mut bus).unwrap();
    assert_eq!(cpu.registers.a, 0x34);
    assert_eq!(cpu.cycle, 32);
    cpu.step(&mut bus).unwrap();
    assert_eq!(bus.read(0, 0xc100), Ok(0x12));
    assert_eq!(cpu.cycle, 40);
}

#[test]
fn load_16_bit_immediates_and_sp() {
    let (mut cpu, mut bus) = machine(&[0x01, 0x34, 0x12, 0x31, 0xfe, 0xff, 0x08, 0x00, 0xc0, 0x21, 0x00, 0xd0, 0xf9]);
    cpu.step(&mut bus).unwrap();
    assert_eq!(cpu.registers.b, 0x12);
    assert_eq!(cpu.registers.c, 0x34);
    assert_eq!(cpu.cycle, 12);
    cpu.step(&mut bus).unwrap();
    assert_eq!(cpu.registers.sp, 0xfffe);
    cpu.step(&mut bus).unwrap();
    assert_eq!(bus.read(0, 0xc000), Ok(0xfe));
    assert_eq!(bus.read(0, 0xc001), Ok(0xff));
    assert_eq!(cpu.cycle, 44);
    cpu.step(&mut bus).unwrap();
    cpu.step(&mut bus).unwrap();
    assert_eq!(cpu.registers.sp, 0xd000);
    assert_eq!(cpu.cycle, 64);
}

#[test]
fn load_memory_through_pairs() {
    let (mut cpu, mut bus) = machine(&[0x02, 0x1a, 0x22, 0x32, 0x2a, 0x3a]);
    cpu.registers.write_double(Operand16::Bc, 0xc000);
    cpu.registers.write_double(Operand16::De, 0xc000);
    cpu.registers.set_hl(0xc010);
    cpu.registers.a = 0x77;
    cpu.step(&mut bus).unwrap();
    assert_eq!(bus.read(0, 0xc000), Ok(0x77));
    cpu.registers.a = 0;
    cpu.step(&mut bus).unwrap();
    assert_eq!(cpu.registers.a, 0x77);
    cpu.step(&mut bus).unwrap();
    assert_eq!(bus.read(0, 0xc010), Ok(0x77));
    assert_eq!(cpu.registers.hl(), 0xc011);
    cpu.registers.a = 0x55;
    cpu.step(&mut bus).unwrap();
    assert_eq!(bus.read(0, 0xc011), Ok(0x55));
    assert_eq!(cpu.registers.hl(), 0xc010);
    cpu.step(&mut bus).unwrap();
    assert_eq!(cpu.registers.a, 0x77);
    assert_eq!(cpu.registers.hl(), 0xc011);
    cpu.step(&mut bus).unwrap();
    assert_eq!(cpu.registers.a, 0x55);
    assert_eq!(cpu.registers.hl(), 0xc010);
    assert_eq!(cpu.cycle, 48);
}

#[test]
fn load_zero_page_and_absolute() {
    let (mut cpu, mut bus) = machine(&[0xe0, 0x80, 0xf0, 0x80, 0xe2, 0xf2, 0xea, 0x00, 0xc0, 0xfa, 0x00, 0xc0]);
    cpu.registers.a = 0x99;
    cpu.step(&mut bus).unwrap();
    assert_eq!(bus.read(0, 0xff80), Ok(0x99));
    assert_eq!(cpu.cycle, 12);
    cpu.registers.a = 0;
    cpu.step(&mut bus).unwrap();
    assert_eq!(cpu.registers.a, 0x99);
    assert_eq!(cpu.cycle, 24);
    cpu.registers.c = 0x81;
    cpu.registers.a = 0x11;
    cpu.step(&mut bus).unwrap();
    assert_eq!(bus.read(0, 0xff81), Ok(0x11));
    assert_eq!(cpu.cycle, 32);
    cpu.registers.a = 0;
    cpu.step(&mut bus).unwrap();
    assert_eq!(cpu.registers.a, 0x11);
    assert_eq!(cpu.cycle, 40);
    cpu.step(&mut bus).unwrap();
    assert_eq!(bus.read(0, 0xc000), Ok(0x11));
    assert_eq!(cpu.cycle, 56);
    cpu.registers.a = 0;
    cpu.step(&mut bus).unwrap();
    assert_eq!(cpu.registers.a, 0x11);
    assert_eq!(cpu.cycle, 72);
}

#[test]
fn stop_and_invalid_opcodes_fail() {
    let (mut cpu, mut bus) = machine(&[0x10]);
    assert_eq!(cpu.step(&mut bus), Err(Fault::Stop));
    assert_eq!(cpu.cycle, 0);
    assert_eq!(cpu.registers.pc, 0);
    for op in [0xd3u8, 0xdb, 0xdd, 0xe3, 0xe4, 0xeb, 0xec, 0xed, 0xf4, 0xfc, 0xfd] {
        let (mut cpu, mut bus) = machine(&[op]);
        assert_eq!(cpu.step(&mut bus), Err(Fault::InvalidOpcode(op)));
        let (inst, pc) = decode(&[op]);
        assert_eq!(inst, Instruction::Invalid(op));
        assert_eq!(pc, 1);
    }
}

#[test]
fn cycle_counter_overflow_fails() {
    let (mut cpu, mut bus) = machine(&[0x00]);
    cpu.cycle = u64::MAX - 3;
    assert_eq!(cpu.step(&mut bus), Err(Fault::CycleOverflow));
    assert_eq!(cpu.cycle, u64::MAX - 3);
    cpu.cycle = u64::MAX - 4;
    assert_eq!(cpu.step(&mut bus), Ok(()));
    assert_eq!(cpu.cycle, u64::MAX);
    assert_eq!(cpu.run(&mut bus, 1), Err(Fault::CycleOverflow));
}

#[test]
fn run_stops_at_a_cpu_that_cannot_wake() {
    let (mut cpu, mut bus) = machine(&[]);
    cpu.halted = true;
    cpu.cycle = 65664;
    assert_eq!(cpu.run(&mut bus, 10), Err(Fault::Stalled));
    assert_eq!(cpu.cycle, 65664);
}

#[test]
fn run_reaches_the_end_cycle() {
    let (mut cpu, mut bus) = machine(&[0x18, 0xfe]);
    assert_eq!(cpu.run(&mut bus, 100), Ok(()));
    assert_eq!(cpu.cycle, 108);
    assert_eq!(cpu.run(&mut bus, 0), Ok(()));
    assert_eq!(cpu.cycle, 108);
}

#[test]
fn fetch_fault_leaves_the_cpu() {
    let (mut cpu, mut bus) = machine(&[]);
    cpu.registers.pc = 0xff05;
    assert_eq!(cpu.step(&mut bus), Err(Fault::TimaRead));
    assert_eq!(cpu.registers.pc, 0xff05);
    assert_eq!(cpu.cycle, 0);
}

#[test]
fn program_counter_wraps() {
    let (mut cpu, mut bus) = machine(&[]);
    cpu.registers.pc = 0xffff;
    bus.write(0, 0xffff, 0x00).unwrap();
    cpu.step(&mut bus).unwrap();
    assert_eq!(cpu.registers.pc, 0x0000);
}

#[test]
fn low_nibble_of_f_stays_zero() {
    let program: Vec<u8> = vec![0x80, 0x88, 0x90, 0x98, 0xa0, 0xa8, 0xb0, 0xb8, 0x27, 0x2f, 0x37, 0x3f, 0x07, 0x17, 0x04, 0x05, 0x09, 0xcb, 0x11, 0xcb, 0x7c];
    let (mut cpu, mut bus) = machine(&program);
    cpu.registers.a = 0x9c;
    cpu.registers.b = 0x77;
    cpu.registers.h = 0xff;
    for _ in 0..19 {
        cpu.step(&mut bus).unwrap();
        assert_eq!(cpu.registers.f & 0x0f, 0);
    }
}

#[test]
fn decode_table_samples() {
    assert_eq!(decode(&[0x00]), (Instruction::Nop, 1));
    assert_eq!(decode(&[0x01, 0x34, 0x12]), (Instruction::LoadImm16(Operand16::Bc, 0x1234), 3));
    assert_eq!(decode(&[0x31, 0x34, 0x12]), (Instruction::LoadImm16(Operand16::Sp, 0x1234), 3));
    assert_eq!(
        decode(&[0x02]),
        (Instruction::LoadMemory(LoadMemoryDirection::ToMemory, LoadMemoryLocation::Bc), 1)
    );
    assert_eq!(
        decode(&[0x3a]),
        (Instruction::LoadMemory(LoadMemoryDirection::FromMemory, LoadMemoryLocation::HlDec), 1)
    );
    assert_eq!(
        decode(&[0x2a]),
        (Instruction::LoadMemory(LoadMemoryDirection::FromMemory, LoadMemoryLocation::HlInc), 1)
    );
    assert_eq!(decode(&[0x13]), (Instruction::IncDec16(IncDecDirection::Inc, Operand16::De), 1));
    assert_eq!(decode(&[0x3b]), (Instruction::IncDec16(IncDecDirection::Dec, Operand16::Sp), 1));
    assert_eq!(
        decode(&[0x34]),
        (Instruction::IncDec8(IncDecDirection::Inc, Operand8::IndirectHl), 1)
    );
    assert_eq!(
        decode(&[0x3d]),
        (Instruction::IncDec8(IncDecDirection::Dec, Operand8::Register(Register::A)), 1)
    );
    assert_eq!(
        decode(&[0x0e, 0x99]),
        (Instruction::LoadSimple(Operand8::Register(Register::C), Operand8::Immediate(0x99)), 2)
    );
    assert_eq!(
        decode(&[0x07]),
        (Instruction::RotateA(RotateDirection::Left, RotateCarry::Through), 1)
    );
    assert_eq!(
        decode(&[0x1f]),
        (Instruction::RotateA(RotateDirection::Right, RotateCarry::NotThrough), 1)
    );
    assert_eq!(decode(&[0x08, 0x00, 0xc0]), (Instruction::LoadSpToImm(0xc000), 3));
    assert_eq!(decode(&[0x29]), (Instruction::Add16(Operand16::Hl), 1));
    assert_eq!(decode(&[0x10]), (Instruction::Stop, 1));
    assert_eq!(
        decode(&[0x18, 0x80]),
        (Instruction::Jump(Destination::Relative(-128), Condition::Always), 2)
    );
    assert_eq!(
        decode(&[0x20, 0x7f]),
        (Instruction::Jump(Destination::Relative(127), Condition::NonZero), 2)
    );
    assert_eq!(
        decode(&[0x28, 0x01]),
        (Instruction::Jump(Destination::Relative(1), Condition::Zero), 2)
    );
    assert_eq!(
        decode(&[0x30, 0xff]),
        (Instruction::Jump(Destination::Relative(-1), Condition::NonCarry), 2)
    );
    assert_eq!(
        decode(&[0x38, 0x00]),
        (Instruction::Jump(Destination::Relative(0), Condition::Carry), 2)
    );
    assert_eq!(decode(&[0x27]), (Instruction::Daa, 1));
    assert_eq!(decode(&[0x2f]), (Instruction::Cpl, 1));
    assert_eq!(decode(&[0x37]), (Instruction::Scf, 1));
    assert_eq!(decode(&[0x3f]), (Instruction::Ccf, 1));
    assert_eq!(decode(&[0x76]), (Instruction::Halt, 1));
    assert_eq!(
        decode(&[0x41]),
        (
            Instruction::LoadSimple(
                Operand8::Register(Register::B),
                Operand8::Register(Register::C)
            ),
            1
        )
    );
    assert_eq!(
        decode(&[0x77]),
        (Instruction::LoadSimple(Operand8::IndirectHl, Operand8::Register(Register::A)), 1)
    );
    assert_eq!(
        decode(&[0x96]),
        (Instruction::ArithmeticLogic8(ArithmeticLogic::Sub, Operand8::IndirectHl), 1)
    );
    assert_eq!(
        decode(&[0xbf]),
        (Instruction::ArithmeticLogic8(ArithmeticLogic::Cp, Operand8::Register(Register::A)), 1)
    );
    assert_eq!(decode(&[0xc0]), (Instruction::Return(Condition::NonZero), 1));
    assert_eq!(decode(&[0xc8]), (Instruction::Return(Condition::Zero), 1));
    assert_eq!(decode(&[0xd0]), (Instruction::Return(Condition::NonCarry), 1));
    assert_eq!(decode(&[0xd8]), (Instruction::Return(Condition::Carry), 1));
    assert_eq!(decode(&[0xc9]), (Instruction::Return(Condition::Always), 1));
    assert_eq!(decode(&[0xd9]), (Instruction::Reti, 1));
    assert_eq!(decode(&[0xf1]), (Instruction::Pop(Operand16::Af), 1));
    assert_eq!(decode(&[0xd5]), (Instruction::Push(Operand16::De), 1));
    assert_eq!(
        decode(&[0xca, 0x34, 0x12]),
        (Instruction::Jump(Destination::Absolute(0x1234), Condition::Zero), 3)
    );
    assert_eq!(
        decode(&[0xc3, 0x34, 0x12]),
        (Instruction::Jump(Destination::Absolute(0x1234), Condition::Always), 3)
    );
    assert_eq!(decode(&[0xe9]), (Instruction::Jump(Destination::Hl, Condition::Always), 1));
    assert_eq!(
        decode(&[0xdc, 0x34, 0x12]),
        (Instruction::Call(Destination::Absolute(0x1234), Condition::Carry), 3)
    );
    assert_eq!(
        decode(&[0xcd, 0x34, 0x12]),
        (Instruction::Call(Destination::Absolute(0x1234), Condition::Always), 3)
    );
    assert_eq!(
        decode(&[0xee, 0x0f]),
        (Instruction::ArithmeticLogic8(ArithmeticLogic::Xor, Operand8::Immediate(0x0f)), 2)
    );
    assert_eq!(decode(&[0xc7]), (Instruction::Reset(ResetSlot::Slot0), 1));
    assert_eq!(decode(&[0xff]), (Instruction::Reset(ResetSlot::Slot7), 1));
    assert_eq!(
        decode(&[0xe0, 0x44]),
        (Instruction::LoadMemory(LoadMemoryDirection::ToMemory, LoadMemoryLocation::ZeroPageImm(0x44)), 2)
    );
    assert_eq!(
        decode(&[0xf2]),
        (Instruction::LoadMemory(LoadMemoryDirection::FromMemory, LoadMemoryLocation::ZeroPageC), 1)
    );
    assert_eq!(
        decode(&[0xfa, 0x34, 0x12]),
        (Instruction::LoadMemory(LoadMemoryDirection::FromMemory, LoadMemoryLocation::Absolute(0x1234)), 3)
    );
    assert_eq!(decode(&[0xe8, 0xfe]), (Instruction::AddToSp(AddToSpDestination::Sp, -2), 2));
    assert_eq!(decode(&[0xf8, 0x02]), (Instruction::AddToSp(AddToSpDestination::Hl, 2), 2));
    assert_eq!(decode(&[0xf9]), (Instruction::LoadHlToSp, 1));
    assert_eq!(decode(&[0xf3]), (Instruction::Di, 1));
    assert_eq!(decode(&[0xfb]), (Instruction::Ei, 1));
}

#[test]
fn decode_prefixed_samples() {
    assert_eq!(
        decode(&[0xcb, 0x00]),
        (
            Instruction::BitOp(
                BitOp::Rotate(RotateDirection::Left, RotateCarry::Through),
                Operand8::Register(Register::B)
            ),
            2
        )
    );
    assert_eq!(
        decode(&[0xcb, 0x1e]),
        (
            Instruction::BitOp(
                BitOp::Rotate(RotateDirection::Right, RotateCarry::NotThrough),
                Operand8::IndirectHl
            ),
            2
        )
    );
    assert_eq!(
        decode(&[0xcb, 0x27]),
        (
            Instruction::BitOp(
                BitOp::ShiftArithmetic(RotateDirection::Left),
                Operand8::Register(Register::A)
            ),
            2
        )
    );
    assert_eq!(
        decode(&[0xcb, 0x2a]),
        (
            Instruction::BitOp(
                BitOp::ShiftArithmetic(RotateDirection::Right),
                Operand8::Register(Register::D)
            ),
            2
        )
    );
    assert_eq!(
        decode(&[0xcb, 0x33]),
        (Instruction::BitOp(BitOp::SwapNibbles, Operand8::Register(Register::E)), 2)
    );
    assert_eq!(
        decode(&[0xcb, 0x3c]),
        (Instruction::BitOp(BitOp::ShiftRightLogical, Operand8::Register(Register::H)), 2)
    );
    assert_eq!(
        decode(&[0xcb, 0x7d]),
        (Instruction::BitOp(BitOp::Test(Bit::Bit7), Operand8::Register(Register::L)), 2)
    );
    assert_eq!(
        decode(&[0xcb, 0x81]),
        (Instruction::BitOp(BitOp::Clear(Bit::Bit0), Operand8::Register(Register::C)), 2)
    );
    assert_eq!(
        decode(&[0xcb, 0xde]),
        (Instruction::BitOp(BitOp::SetBit(Bit::Bit3), Operand8::IndirectHl), 2)
    );
}
