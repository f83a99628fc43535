//! The CPU: it fetches the instruction at the program counter, executes it against the
//! bus and counts the cycles that it took.
use vstd::prelude::*;
use crate::fault::Fault;
use crate::peripherals::interrupts::{InterruptMask, InterruptSource};
use crate::peripherals::{
    in_internal_ram, lemma_u16_round_trip, next_addr, Peripherals, PeripheralsView,
};

pub mod alu;
pub mod decoder;
pub mod pc_reader;
pub mod registers;

use decoder::{
    AddToSpDestination, ArithmeticLogic, BitOp, Condition, Destination, IncDecDirection,
    Instruction, LoadMemoryDirection, LoadMemoryLocation, Operand16, Operand8, ResetSlot,
    RotateCarry, RotateDirection,
};
use pc_reader::PcReader;
use registers::Registers;

verus! {

/// The CPU.
#[derive(Clone, Copy, Debug, PartialEq, Eq, Structural)]
pub struct Cpu {
    /// The cycles that have passed. The counter never goes back.
    pub cycle: u64,
    pub registers: Registers,
    /// Whether the CPU sleeps until an interrupt is served.
    pub halted: bool,
    /// The master interrupt enable flag IME.
    pub interrupt_enable: bool,
}

/// The CPU and the bus after an operation, with what the operation returned.
pub struct Outcome<T> {
    pub cpu: Cpu,
    pub bus: PeripheralsView,
    pub result: Result<T, Fault>,
}

impl<T> Outcome<T> {
    /// Whether the operation left this CPU and bus and returned this result.
    pub open spec fn agrees(self, cpu: Cpu, bus: PeripheralsView, result: Result<T, Fault>) -> bool {
        self.cpu == cpu && self.bus == bus && self.result == result
    }
}

/// The 16-bit sum of an address and a signed offset, wrapping at both ends.
pub open spec fn offset_addr(addr: u16, offset: int) -> u16 {
    ((addr + offset) % 0x10000) as u16
}

/// The cycles that reading an 8-bit operand adds to an instruction.
pub open spec fn load_cost(operand: Operand8) -> u64 {
    if operand is Register {
        0
    } else {
        4
    }
}

/// The cycles that storing to an 8-bit operand adds to an instruction.
pub open spec fn store_cost(operand: Operand8) -> u64 {
    if operand is IndirectHl {
        4
    } else {
        0
    }
}

impl Cpu {
    /// The low nibble of F is zero.
    pub open spec fn wf(&self) -> bool {
        self.registers.wf()
    }

    /// The CPU with other registers.
    pub open spec fn with_registers(self, registers: Registers) -> Cpu {
        Cpu { registers, ..self }
    }

    /// The outcome of an operation that ends without a fault.
    pub open spec fn done<T>(self, bus: PeripheralsView, value: T) -> Outcome<T> {
        Outcome { cpu: self, bus, result: Ok(value) }
    }

    /// The outcome of an operation that ends with a fault.
    pub open spec fn failed<T>(self, bus: PeripheralsView, fault: Fault) -> Outcome<T> {
        Outcome { cpu: self, bus, result: Err(fault) }
    }

    // Operands and conditions

    /// The value of an 8-bit operand.
    pub open spec fn spec_load_operand8(self, bus: PeripheralsView, operand: Operand8) -> Result<
        u8,
        Fault,
    > {
        match operand {
            Operand8::Register(register) => Ok(self.registers.spec_read(register)),
            Operand8::IndirectHl => bus.read(self.cycle, self.registers.spec_hl()),
            Operand8::Immediate(immediate) => Ok(immediate),
        }
    }

    /// The outcome of a store to an 8-bit operand. No instruction stores to an immediate.
    pub open spec fn spec_store_operand8(
        self,
        bus: PeripheralsView,
        operand: Operand8,
        value: u8,
    ) -> Outcome<()> {
        match operand {
            Operand8::Register(register) => self.with_registers(
                self.registers.spec_write(register, value),
            ).done(bus, ()),
            Operand8::IndirectHl => {
                let written = bus.write(self.cycle, self.registers.spec_hl(), value);
                Outcome { cpu: self, bus: written.0, result: written.1 }
            },
            Operand8::Immediate(_) => self.done(bus, ()),
        }
    }

    pub open spec fn spec_check_condition(&self, condition: Condition) -> bool {
        match condition {
            Condition::Always => true,
            Condition::NonCarry => !self.registers.spec_carry(),
            Condition::NonZero => !self.registers.spec_zero(),
            Condition::Carry => self.registers.spec_carry(),
            Condition::Zero => self.registers.spec_zero(),
        }
    }

    /// The cycles that an instruction with this destination takes if it does not jump, and
    /// the address that it jumps to if it does. `pc` is the address after the instruction.
    pub open spec fn spec_jump_destination(&self, pc: u16, destination: Destination) -> (u64, u16) {
        match destination {
            Destination::Absolute(addr) => (12, addr),
            Destination::Relative(offset) => (8, offset_addr(pc, offset as int)),
            Destination::Hl => (0, self.registers.spec_hl()),
        }
    }

    // The stack

    /// The outcome of pushing a 16-bit value: it is written below SP, low byte first, and
    /// SP moves down by two if both writes succeed.
    pub open spec fn spec_push(self, bus: PeripheralsView, val: u16) -> Outcome<()> {
        let sp = offset_addr(self.registers.sp, -2);
        let written = bus.write_u16(self.cycle, sp, val);
        if written.1 is Ok {
            self.with_registers(Registers { sp, ..self.registers }).done(written.0, ())
        } else {
            Outcome { cpu: self, bus: written.0, result: written.1 }
        }
    }

    /// The outcome of popping a 16-bit value: it is read at SP, and SP moves up by two if
    /// both reads succeed.
    pub open spec fn spec_pop(self, bus: PeripheralsView) -> Outcome<u16> {
        match bus.read_u16(self.cycle, self.registers.sp) {
            Ok(val) => self.with_registers(
                Registers { sp: offset_addr(self.registers.sp, 2), ..self.registers },
            ).done(bus, val),
            Err(fault) => self.failed(bus, fault),
        }
    }

    // Instructions. Every one of these takes the address after the instruction and gives
    // the address of the next instruction together with the cycles that it took.

    /// ADD HL,rr: Z stays, N is cleared, H and C are the carries out of bit 11 and bit 15.
    /// Eight cycles.
    #[verifier::opaque]
    pub open spec fn spec_add16(self, bus: PeripheralsView, pc: u16, operand: Operand16) -> Outcome<
        (u16, u64),
    > {
        let sum = alu::spec_add16(
            self.registers.spec_hl(),
            self.registers.spec_read_double(operand),
        );
        self.with_registers(
            self.registers.spec_set_hl(sum.value).spec_set_flags(
                self.registers.spec_zero(),
                false,
                sum.bcd_h,
                sum.carry,
            ),
        ).done(bus, (pc, 8))
    }

    /// ADD SP,e and LD HL,SP+e: Z and N are cleared, H and C are the carries of the low byte.
    /// Sixteen cycles.
    #[verifier::opaque]
    pub open spec fn spec_add_to_sp(
        self,
        bus: PeripheralsView,
        pc: u16,
        destination: AddToSpDestination,
        immediate: i8,
    ) -> Outcome<(u16, u64)> {
        let sum = alu::spec_add_sp(self.registers.sp, immediate);
        let flagged = self.registers.spec_set_flags(false, false, sum.bcd_h, sum.carry);
        self.with_registers(
            match destination {
                AddToSpDestination::Hl => flagged.spec_set_hl(sum.value),
                AddToSpDestination::Sp => Registers { sp: sum.value, ..flagged },
            },
        ).done(bus, (pc, 16))
    }

    /// ADD, ADC, SUB, SBC, AND, XOR, OR and CP: all four flags are set from the result, and
    /// all but CP store the value in A. Four cycles and the cycles of reading the operand.
    #[verifier::opaque]
    pub open spec fn spec_arithmetic_logic8(
        self,
        bus: PeripheralsView,
        pc: u16,
        operation: ArithmeticLogic,
        operand: Operand8,
    ) -> Outcome<(u16, u64)> {
        match self.spec_load_operand8(bus, operand) {
            Err(fault) => self.failed(bus, fault),
            Ok(other) => {
                let res = alu::spec_alu8(
                    operation,
                    self.registers.a,
                    other,
                    self.registers.spec_carry(),
                );
                let flagged = self.registers.spec_set_flags(
                    res.zero,
                    res.bcd_n,
                    res.bcd_h,
                    res.carry,
                );
                self.with_registers(
                    if operation == ArithmeticLogic::Cp {
                        flagged
                    } else {
                        Registers { a: res.value, ..flagged }
                    },
                ).done(bus, (pc, (load_cost(operand) + 4) as u64))
            },
        }
    }

    /// An operation behind the prefix 0xCB. Eight cycles and the cycles of reading the
    /// operand and of storing the value, if one is stored. A store that fails leaves the flags.
    #[verifier::opaque]
    pub open spec fn spec_bit_op(
        self,
        bus: PeripheralsView,
        pc: u16,
        operation: BitOp,
        operand: Operand8,
    ) -> Outcome<(u16, u64)> {
        match self.spec_load_operand8(bus, operand) {
            Err(fault) => self.failed(bus, fault),
            Ok(input) => {
                let res = alu::spec_bit_op(
                    operation,
                    input,
                    self.registers.spec_zero(),
                    self.registers.spec_bcd_n(),
                    self.registers.spec_bcd_h(),
                    self.registers.spec_carry(),
                );
                let stored = match res.value {
                    Some(value) => self.spec_store_operand8(bus, operand, value),
                    None => self.done(bus, ()),
                };
                let store_cycles = match res.value {
                    Some(_) => store_cost(operand),
                    None => 0,
                };
                match stored.result {
                    Err(fault) => stored.cpu.failed(stored.bus, fault),
                    Ok(_) => stored.cpu.with_registers(
                        stored.cpu.registers.spec_set_flags(
                            res.zero,
                            res.bcd_n,
                            res.bcd_h,
                            res.carry,
                        ),
                    ).done(stored.bus, (pc, (load_cost(operand) + store_cycles + 8) as u64)),
                }
            },
        }
    }

    /// CALL: if the condition holds, `pc` is pushed and execution goes on at the destination,
    /// after 16 cycles; else after 12.
    #[verifier::opaque]
    pub open spec fn spec_call(
        self,
        bus: PeripheralsView,
        pc: u16,
        destination: Destination,
        condition: Condition,
    ) -> Outcome<(u16, u64)> {
        let target = self.spec_jump_destination(pc, destination);
        if self.spec_check_condition(condition) {
            let pushed = self.spec_push(bus, pc);
            match pushed.result {
                Err(fault) => pushed.cpu.failed(pushed.bus, fault),
                Ok(_) => pushed.cpu.done(pushed.bus, (target.1, (target.0 + 4) as u64)),
            }
        } else {
            self.done(bus, (pc, target.0))
        }
    }

    /// DAA. Four cycles.
    #[verifier::opaque]
    pub open spec fn spec_daa(self, bus: PeripheralsView, pc: u16) -> Outcome<(u16, u64)> {
        let res = alu::spec_daa(
            self.registers.a,
            self.registers.spec_bcd_n(),
            self.registers.spec_bcd_h(),
            self.registers.spec_carry(),
        );
        self.with_registers(
            Registers { a: res.value, ..self.registers }.spec_set_flags(
                res.zero,
                res.bcd_n,
                res.bcd_h,
                res.carry,
            ),
        ).done(bus, (pc, 4))
    }

    /// INC and DEC on an 8-bit operand: Z, N and H are set, C stays. Four cycles and the
    /// cycles of reading and storing the operand. A store that fails leaves the flags.
    #[verifier::opaque]
    pub open spec fn spec_inc_dec8(
        self,
        bus: PeripheralsView,
        pc: u16,
        direction: IncDecDirection,
        operand: Operand8,
    ) -> Outcome<(u16, u64)> {
        match self.spec_load_operand8(bus, operand) {
            Err(fault) => self.failed(bus, fault),
            Ok(value) => {
                let res = alu::spec_inc_dec8(direction, value, self.registers.spec_carry());
                let stored = self.spec_store_operand8(bus, operand, res.value);
                match stored.result {
                    Err(fault) => stored.cpu.failed(stored.bus, fault),
                    Ok(_) => stored.cpu.with_registers(
                        stored.cpu.registers.spec_set_flags(
                            res.zero,
                            res.bcd_n,
                            res.bcd_h,
                            res.carry,
                        ),
                    ).done(
                        stored.bus,
                        (pc, (load_cost(operand) + store_cost(operand) + 4) as u64),
                    ),
                }
            },
        }
    }

    /// INC and DEC on a pair or SP, wrapping; the flags stay. Eight cycles.
    #[verifier::opaque]
    pub open spec fn spec_inc_dec16(
        self,
        bus: PeripheralsView,
        pc: u16,
        direction: IncDecDirection,
        operand: Operand16,
    ) -> Outcome<(u16, u64)> {
        let value = self.registers.spec_read_double(operand);
        let result = match direction {
            IncDecDirection::Dec => offset_addr(value, -1),
            IncDecDirection::Inc => offset_addr(value, 1),
        };
        self.with_registers(self.registers.spec_write_double(operand, result)).done(bus, (pc, 8))
    }

    /// JP and JR: a jump that is taken costs four cycles more than one that is not.
    #[verifier::opaque]
    pub open spec fn spec_jump(
        self,
        bus: PeripheralsView,
        pc: u16,
        destination: Destination,
        condition: Condition,
    ) -> Outcome<(u16, u64)> {
        let target = self.spec_jump_destination(pc, destination);
        if self.spec_check_condition(condition) {
            self.done(bus, (target.1, (target.0 + 4) as u64))
        } else {
            self.done(bus, (pc, target.0))
        }
    }

    /// The address of a load between A and memory, and the cycles that the load takes.
    pub open spec fn spec_load_memory_addr(self, location: LoadMemoryLocation) -> (u16, u64) {
        match location {
            LoadMemoryLocation::Bc => (self.registers.spec_bc(), 8),
            LoadMemoryLocation::De => (self.registers.spec_de(), 8),
            LoadMemoryLocation::HlDec => (self.registers.spec_hl(), 8),
            LoadMemoryLocation::HlInc => (self.registers.spec_hl(), 8),
            LoadMemoryLocation::ZeroPageC => ((0xff00 + self.registers.c) as u16, 8),
            LoadMemoryLocation::ZeroPageImm(immediate) => ((0xff00 + immediate) as u16, 12),
            LoadMemoryLocation::Absolute(addr) => (addr, 16),
        }
    }

    /// The registers after HL is moved as the location of a load asks.
    pub open spec fn spec_after_load_memory(
        registers: Registers,
        location: LoadMemoryLocation,
        addr: u16,
    ) -> Registers {
        match location {
            LoadMemoryLocation::HlDec => registers.spec_set_hl(offset_addr(addr, -1)),
            LoadMemoryLocation::HlInc => registers.spec_set_hl(offset_addr(addr, 1)),
            _ => registers,
        }
    }

    /// A load between A and memory. HL moves after a load through HL+ or HL- that met no
    /// fault.
    #[verifier::opaque]
    pub open spec fn spec_load_memory(
        self,
        bus: PeripheralsView,
        pc: u16,
        direction: LoadMemoryDirection,
        location: LoadMemoryLocation,
    ) -> Outcome<(u16, u64)> {
        let target = self.spec_load_memory_addr(location);
        match direction {
            LoadMemoryDirection::FromMemory => match bus.read(self.cycle, target.0) {
                Err(fault) => self.failed(bus, fault),
                Ok(value) => self.with_registers(
                    Self::spec_after_load_memory(
                        Registers { a: value, ..self.registers },
                        location,
                        target.0,
                    ),
                ).done(bus, (pc, target.1)),
            },
            LoadMemoryDirection::ToMemory => {
                let written = bus.write(self.cycle, target.0, self.registers.a);
                match written.1 {
                    Err(fault) => self.failed(written.0, fault),
                    Ok(_) => self.with_registers(
                        Self::spec_after_load_memory(self.registers, location, target.0),
                    ).done(written.0, (pc, target.1)),
                }
            },
        }
    }

    /// LD destination,source. Four cycles and the cycles of reading and storing.
    #[verifier::opaque]
    pub open spec fn spec_load_simple(
        self,
        bus: PeripheralsView,
        pc: u16,
        destination: Operand8,
        source: Operand8,
    ) -> Outcome<(u16, u64)> {
        match self.spec_load_operand8(bus, source) {
            Err(fault) => self.failed(bus, fault),
            Ok(value) => {
                let stored = self.spec_store_operand8(bus, destination, value);
                match stored.result {
                    Err(fault) => stored.cpu.failed(stored.bus, fault),
                    Ok(_) => stored.cpu.done(
                        stored.bus,
                        (pc, (load_cost(source) + store_cost(destination) + 4) as u64),
                    ),
                }
            },
        }
    }

    /// POP: the value at SP goes to the pair, then SP moves up by two. Twelve cycles.
    #[verifier::opaque]
    pub open spec fn spec_pop_into(self, bus: PeripheralsView, pc: u16, operand: Operand16) -> Outcome<
        (u16, u64),
    > {
        match bus.read_u16(self.cycle, self.registers.sp) {
            Err(fault) => self.failed(bus, fault),
            Ok(val) => {
                let written = self.registers.spec_write_double(operand, val);
                self.with_registers(
                    Registers { sp: offset_addr(written.sp, 2), ..written },
                ).done(bus, (pc, 12))
            },
        }
    }

    /// PUSH. Sixteen cycles.
    #[verifier::opaque]
    pub open spec fn spec_push_from(self, bus: PeripheralsView, pc: u16, operand: Operand16) -> Outcome<
        (u16, u64),
    > {
        let pushed = self.spec_push(bus, self.registers.spec_read_double(operand));
        match pushed.result {
            Err(fault) => pushed.cpu.failed(pushed.bus, fault),
            Ok(_) => pushed.cpu.done(pushed.bus, (pc, 16)),
        }
    }

    /// RST: `pc` is pushed and execution goes on at the slot. Sixteen cycles.
    #[verifier::opaque]
    pub open spec fn spec_reset(self, bus: PeripheralsView, pc: u16, slot: ResetSlot) -> Outcome<
        (u16, u64),
    > {
        let pushed = self.spec_push(bus, pc);
        match pushed.result {
            Err(fault) => pushed.cpu.failed(pushed.bus, fault),
            Ok(_) => pushed.cpu.done(pushed.bus, (slot.spec_address(), 16)),
        }
    }

    /// RETI: returns and sets IME. Sixteen cycles.
    #[verifier::opaque]
    pub open spec fn spec_reti(self, bus: PeripheralsView, pc: u16) -> Outcome<(u16, u64)> {
        let popped = self.spec_pop(bus);
        match popped.result {
            Err(fault) => popped.cpu.failed(popped.bus, fault),
            Ok(addr) => Cpu { interrupt_enable: true, ..popped.cpu }.done(popped.bus, (addr, 16)),
        }
    }

    /// RET: 16 cycles without a condition; with one, 20 cycles if it holds and 8 if not.
    #[verifier::opaque]
    pub open spec fn spec_return(self, bus: PeripheralsView, pc: u16, condition: Condition) -> Outcome<
        (u16, u64),
    > {
        let penalty: u64 = if condition == Condition::Always {
            0
        } else {
            4
        };
        if self.spec_check_condition(condition) {
            let popped = self.spec_pop(bus);
            match popped.result {
                Err(fault) => popped.cpu.failed(popped.bus, fault),
                Ok(addr) => popped.cpu.done(popped.bus, (addr, (penalty + 16) as u64)),
            }
        } else {
            self.done(bus, (pc, (penalty + 4) as u64))
        }
    }

    /// RLCA, RRCA, RLA and RRA. Four cycles.
    #[verifier::opaque]
    pub open spec fn spec_rotate_a(
        self,
        bus: PeripheralsView,
        pc: u16,
        direction: RotateDirection,
        through: RotateCarry,
    ) -> Outcome<(u16, u64)> {
        let res = alu::spec_rotate_a(
            direction,
            through,
            self.registers.a,
            self.registers.spec_carry(),
        );
        self.with_registers(
            Registers { a: res.value, ..self.registers }.spec_set_flags(
                res.zero,
                res.bcd_n,
                res.bcd_h,
                res.carry,
            ),
        ).done(bus, (pc, 4))
    }

    /// LD rr,imm16. Twelve cycles.
    #[verifier::opaque]
    pub open spec fn spec_load_imm16(
        self,
        bus: PeripheralsView,
        pc: u16,
        destination: Operand16,
        immediate: u16,
    ) -> Outcome<(u16, u64)> {
        self.with_registers(self.registers.spec_write_double(destination, immediate)).done(
            bus,
            (pc, 12),
        )
    }

    /// LD (imm16),SP: SP is written at the address, low byte first. Twenty cycles.
    #[verifier::opaque]
    pub open spec fn spec_load_sp_to_imm(self, bus: PeripheralsView, pc: u16, addr: u16) -> Outcome<
        (u16, u64),
    > {
        let written = bus.write_u16(self.cycle, addr, self.registers.sp);
        match written.1 {
            Err(fault) => self.failed(written.0, fault),
            Ok(_) => self.done(written.0, (pc, 20)),
        }
    }

    /// The outcome of an instruction that touches only flags or the state of the CPU.
    #[verifier::opaque]
    pub open spec fn spec_housekeeping(self, bus: PeripheralsView, pc: u16, inst: Instruction) -> Outcome<
        (u16, u64),
    > {
        let r = self.registers;
        match inst {
            Instruction::Ccf => self.with_registers(
                r.spec_set_flags(r.spec_zero(), false, false, !r.spec_carry()),
            ).done(bus, (pc, 4)),
            Instruction::Scf => self.with_registers(
                r.spec_set_flags(r.spec_zero(), false, false, true),
            ).done(bus, (pc, 4)),
            Instruction::Cpl => self.with_registers(
                Registers { a: r.a ^ 0xff, ..r }.spec_set_flags(
                    r.spec_zero(),
                    true,
                    true,
                    r.spec_carry(),
                ),
            ).done(bus, (pc, 4)),
            Instruction::Di => Cpu { interrupt_enable: false, ..self }.done(bus, (pc, 4)),
            Instruction::Ei => Cpu { interrupt_enable: true, ..self }.done(bus, (pc, 4)),
            Instruction::Halt => Cpu { halted: true, ..self }.done(bus, (pc, 4)),
            Instruction::LoadHlToSp => self.with_registers(Registers { sp: r.spec_hl(), ..r }).done(
                bus,
                (pc, 8),
            ),
            Instruction::Stop => self.failed(bus, Fault::Stop),
            Instruction::Invalid(op) => self.failed(bus, Fault::InvalidOpcode(op)),
            _ => self.done(bus, (pc, 4)),
        }
    }

    /// Whether an instruction computes.
    pub open spec fn is_arithmetic(inst: Instruction) -> bool {
        inst is Add16 || inst is AddToSp || inst is ArithmeticLogic8 || inst is BitOp || inst is Daa
            || inst is IncDec16 || inst is IncDec8 || inst is RotateA
    }

    /// Whether an instruction is a jump, a call, a restart or a return.
    pub open spec fn is_control(inst: Instruction) -> bool {
        inst is Call || inst is Jump || inst is Reset || inst is Reti || inst is Return
    }

    /// Whether an instruction is a load, a push or a pop.
    pub open spec fn is_transfer(inst: Instruction) -> bool {
        inst is LoadImm16 || inst is LoadMemory || inst is LoadSimple || inst is LoadSpToImm
            || inst is Pop || inst is Push
    }

    /// The outcome of an instruction: the CPU and the bus after it, and the address of the
    /// next instruction with the cycles that this one took, or the fault that it met.
    /// `pc` is the address after the instruction. The cycle counter and the program
    /// counter register are left to the caller.
    pub open spec fn spec_execute(self, bus: PeripheralsView, pc: u16, inst: Instruction) -> Outcome<
        (u16, u64),
    > {
        match inst {
            Instruction::Add16(operand) => self.spec_add16(bus, pc, operand),
            Instruction::AddToSp(destination, immediate) => self.spec_add_to_sp(
                bus,
                pc,
                destination,
                immediate,
            ),
            Instruction::ArithmeticLogic8(operation, operand) => self.spec_arithmetic_logic8(
                bus,
                pc,
                operation,
                operand,
            ),
            Instruction::BitOp(operation, operand) => self.spec_bit_op(bus, pc, operation, operand),
            Instruction::Call(destination, condition) => self.spec_call(
                bus,
                pc,
                destination,
                condition,
            ),
            Instruction::Daa => self.spec_daa(bus, pc),
            Instruction::IncDec16(direction, operand) => self.spec_inc_dec16(
                bus,
                pc,
                direction,
                operand,
            ),
            Instruction::IncDec8(direction, operand) => self.spec_inc_dec8(
                bus,
                pc,
                direction,
                operand,
            ),
            Instruction::Jump(destination, condition) => self.spec_jump(
                bus,
                pc,
                destination,
                condition,
            ),
            Instruction::LoadImm16(destination, immediate) => self.spec_load_imm16(
                bus,
                pc,
                destination,
                immediate,
            ),
            Instruction::LoadMemory(direction, location) => self.spec_load_memory(
                bus,
                pc,
                direction,
                location,
            ),
            Instruction::LoadSimple(destination, source) => self.spec_load_simple(
                bus,
                pc,
                destination,
                source,
            ),
            Instruction::LoadSpToImm(addr) => self.spec_load_sp_to_imm(bus, pc, addr),
            Instruction::Pop(operand) => self.spec_pop_into(bus, pc, operand),
            Instruction::Push(operand) => self.spec_push_from(bus, pc, operand),
            Instruction::Reset(slot) => self.spec_reset(bus, pc, slot),
            Instruction::Reti => self.spec_reti(bus, pc),
            Instruction::Return(condition) => self.spec_return(bus, pc, condition),
            Instruction::RotateA(direction, through) => self.spec_rotate_a(
                bus,
                pc,
                direction,
                through,
            ),
            _ => self.spec_housekeeping(bus, pc, inst),
        }
    }

    // Steps

    /// The interrupts that are both pending and enabled at the CPU's cycle.
    pub open spec fn spec_requested(self, bus: PeripheralsView) -> InterruptMask {
        InterruptMask::spec_from(bus.pending(self.cycle).0).spec_and(
            InterruptMask::spec_from(bus.ie_reg),
        )
    }

    /// The outcome of the interrupt check before an instruction, with the address at which
    /// execution goes on. If IME is set and an interrupt is both pending and enabled, the
    /// one of highest priority is served: `pc` is pushed, the interrupt's bit is cleared
    /// in IF, the CPU wakes up, IME is cleared and execution goes on at the interrupt's
    /// vector. Else nothing changes and execution goes on at `pc`.
    #[verifier::opaque]
    pub open spec fn spec_serve_interrupt(self, bus: PeripheralsView, pc: u16) -> Outcome<u16> {
        if !self.interrupt_enable {
            self.done(bus, pc)
        } else {
            match self.spec_requested(bus).spec_highest_priority() {
                None => self.done(bus, pc),
                Some(interrupt) => {
                    let pushed = self.spec_push(bus, pc);
                    match pushed.result {
                        Err(fault) => pushed.cpu.failed(pushed.bus, fault),
                        Ok(_) => Cpu {
                            halted: false,
                            interrupt_enable: false,
                            ..pushed.cpu
                        }.done(
                            pushed.bus.set_pending(
                                self.cycle,
                                InterruptMask::spec_from(
                                    InterruptMask::spec_from(
                                        bus.pending(self.cycle).0,
                                    ).spec_clear(interrupt).0,
                                ),
                            ),
                            interrupt.spec_vector_address(),
                        ),
                    }
                },
            }
        }
    }

    /// The outcome of the instruction at `pc`: it is fetched and executed, then its cycles
    /// are added to the cycle counter and the program counter register takes the address
    /// of the next instruction. A fault leaves both as they were.
    pub open spec fn spec_run_instruction(self, bus: PeripheralsView, pc: u16) -> Outcome<()> {
        match Instruction::fetch(bus, self.cycle, pc) {
            Err(fault) => self.failed(bus, fault),
            Ok(fetched) => {
                let executed = self.spec_execute(bus, fetched.1, fetched.0);
                match executed.result {
                    Err(fault) => executed.cpu.failed(executed.bus, fault),
                    Ok(next) => if executed.cpu.cycle + next.1 > u64::MAX {
                        executed.cpu.failed(executed.bus, Fault::CycleOverflow)
                    } else {
                        Cpu {
                            cycle: (executed.cpu.cycle + next.1) as u64,
                            registers: Registers { pc: next.0, ..executed.cpu.registers },
                            ..executed.cpu
                        }.done(executed.bus, ())
                    },
                }
            },
        }
    }

    /// The outcome of one step: the interrupt check; then, if the CPU is halted, a leap of
    /// the cycle counter to the cycle at which the next interrupt may come, and else one
    /// instruction.
    pub open spec fn spec_step(self, bus: PeripheralsView) -> Outcome<()> {
        let served = self.spec_serve_interrupt(bus, self.registers.pc);
        match served.result {
            Err(fault) => served.cpu.failed(served.bus, fault),
            Ok(pc) => if served.cpu.halted {
                Cpu { cycle: served.bus.next_pending(served.cpu.cycle), ..served.cpu }.done(
                    served.bus,
                    (),
                )
            } else {
                served.cpu.spec_run_instruction(served.bus, pc)
            },
        }
    }

    /// The cycles that are left until `end`.
    pub open spec fn run_backlog(self, end: u64) -> nat {
        if self.cycle < end {
            (end - self.cycle) as nat
        } else {
            0
        }
    }

    /// The outcome of stepping until the cycle counter has reached `end`. The run ends
    /// early at the first fault, and with `Stalled` at a step that does not move the cycle
    /// counter: such a step would repeat for ever.
    pub open spec fn spec_run_until(self, bus: PeripheralsView, end: u64) -> Outcome<()>
        decreases self.run_backlog(end),
    {
        if self.cycle >= end {
            self.done(bus, ())
        } else {
            let stepped = self.spec_step(bus);
            if stepped.result is Err {
                stepped
            } else if stepped.cpu.cycle <= self.cycle {
                stepped.cpu.failed(stepped.bus, Fault::Stalled)
            } else {
                stepped.cpu.spec_run_until(stepped.bus, end)
            }
        }
    }

    /// The outcome of stepping until `cycles` cycles have passed.
    pub open spec fn spec_run(self, bus: PeripheralsView, cycles: u64) -> Outcome<()> {
        if self.cycle + cycles > u64::MAX {
            self.failed(bus, Fault::CycleOverflow)
        } else {
            self.spec_run_until(bus, (self.cycle + cycles) as u64)
        }
    }

    /// The CPU at power-on: everything zero, not halted, interrupts disabled.
    pub fn new() -> (cpu: Self)
        ensures
            cpu == (Cpu {
                cycle: 0,
                registers: Registers {
                    a: 0,
                    f: 0,
                    b: 0,
                    c: 0,
                    d: 0,
                    e: 0,
                    h: 0,
                    l: 0,
                    sp: 0,
                    pc: 0,
                },
                halted: false,
                interrupt_enable: false,
            }),
            cpu.wf(),
    {
        Cpu { cycle: 0, registers: Registers::new(), halted: false, interrupt_enable: false }
    }

    /// The cycles that have passed.
    pub fn cycle(&self) -> (cycle: u64)
        ensures
            cycle == self.cycle,
    {
        self.cycle
    }

    /// The cycles that reading an 8-bit operand adds, and its value.
    pub fn load_operand8(&self, peripherals: &Peripherals, operand: Operand8) -> (res: Result<
        (u64, u8),
        Fault,
    >)
        requires
            peripherals@.wf(),
        ensures
            res == (match self.spec_load_operand8(peripherals@, operand) {
                Ok(value) => Ok::<(u64, u8), Fault>((load_cost(operand), value)),
                Err(fault) => Err(fault),
            }),
    {
        match operand {
            Operand8::Register(register) => Ok((0, self.registers.read(register))),
            Operand8::IndirectHl => {
                let addr = self.registers.hl();
                let val = peripherals.read(self.cycle, addr)?;
                Ok((4, val))
            },
            Operand8::Immediate(immediate) => Ok((4, immediate)),
        }
    }

    /// Stores a value to a register or to the byte that HL points to, and gives the cycles
    /// that the store adds.
    pub fn store_operand8(
        &mut self,
        peripherals: &mut Peripherals,
        operand: Operand8,
        value: u8,
    ) -> (res: Result<u64, Fault>)
        requires
            old(self).wf(),
            old(peripherals)@.wf(),
            !(operand is Immediate),
        ensures
            final(self).wf(),
            final(peripherals)@.wf(),
            final(self).cycle == old(self).cycle,
            old(self).spec_store_operand8(old(peripherals)@, operand, value).agrees(
                *final(self),
                final(peripherals)@,
                match res {
                    Ok(_) => Ok(()),
                    Err(fault) => Err(fault),
                },
            ),
            res matches Ok(cycles) ==> cycles == store_cost(operand),
    {
        match operand {
            Operand8::Register(register) => {
                self.registers.write(register, value);
                Ok(0)
            },
            Operand8::IndirectHl => {
                let addr = self.registers.hl();
                peripherals.write(self.cycle, addr, value)?;
                Ok(4)
            },
            Operand8::Immediate(_) => Ok(0),
        }
    }

    /// Whether a condition holds of the flags.
    #[verifier::when_used_as_spec(spec_check_condition)]
    pub fn check_condition(&self, condition: Condition) -> (holds: bool)
        ensures
            holds == self.spec_check_condition(condition),
    {
        match condition {
            Condition::Always => true,
            Condition::NonCarry => !self.registers.carry(),
            Condition::NonZero => !self.registers.zero(),
            Condition::Carry => self.registers.carry(),
            Condition::Zero => self.registers.zero(),
        }
    }

    /// The cycles that an instruction with this destination takes if it does not jump, and
    /// the address that it jumps to if it does.
    #[verifier::when_used_as_spec(spec_jump_destination)]
    pub fn jump_destination(&self, pc: u16, destination: Destination) -> (target: (u64, u16))
        ensures
            target == self.spec_jump_destination(pc, destination),
    {
        match destination {
            Destination::Absolute(addr) => (12, addr),
            Destination::Relative(offset) => {
                let addr = pc.wrapping_add_signed(offset as i16);
                (8, addr)
            },
            Destination::Hl => {
                let addr = self.registers.hl();
                (0, addr)
            },
        }
    }

    /// Pushes a 16-bit value on the stack.
    pub fn push(&mut self, peripherals: &mut Peripherals, val: u16) -> (res: Result<(), Fault>)
        requires
            old(self).wf(),
            old(peripherals)@.wf(),
        ensures
            final(self).wf(),
            final(peripherals)@.wf(),
            final(self).cycle == old(self).cycle,
            old(self).spec_push(old(peripherals)@, val).agrees(
                *final(self),
                final(peripherals)@,
                res,
            ),
    {
        let sp = self.registers.sp.wrapping_sub(2);
        peripherals.write_u16(self.cycle, sp, val)?;
        self.registers.sp = sp;
        Ok(())
    }

    /// Pops a 16-bit value from the stack.
    pub fn pop(&mut self, peripherals: &Peripherals) -> (res: Result<u16, Fault>)
        requires
            old(self).wf(),
            peripherals@.wf(),
        ensures
            final(self).wf(),
            final(self).cycle == old(self).cycle,
            old(self).spec_pop(peripherals@).agrees(*final(self), peripherals@, res),
    {
        let val = peripherals.read_u16(self.cycle, self.registers.sp)?;
        self.registers.sp = self.registers.sp.wrapping_add(2);
        Ok(val)
    }

    /// Executes ADD HL,rr.
    fn add16(&mut self, peripherals: &Peripherals, pc: u16, operand: Operand16) -> (res: Result<
        (u16, u64),
        Fault,
    >)
        requires
            old(self).wf(),
        ensures
            final(self).wf(),
            final(self).cycle == old(self).cycle,
            old(self).spec_add16(peripherals@, pc, operand).agrees(
                *final(self),
                peripherals@,
                res,
            ),
    {
        reveal(Cpu::spec_add16);
        let hl = self.registers.hl();
        let other = self.registers.read_double(operand);
        let sum = alu::add16(hl, other);
        let zero = self.registers.zero();
        self.registers.set_hl(sum.value);
        proof {
            assert(self.registers.spec_zero() == zero);
        }
        self.registers.set_flags(zero, false, sum.bcd_h, sum.carry);
        Ok((pc, 8))
    }

    /// Executes ADD SP,e or LD HL,SP+e.
    fn add_to_sp(
        &mut self,
        peripherals: &Peripherals,
        pc: u16,
        destination: AddToSpDestination,
        immediate: i8,
    ) -> (res: Result<(u16, u64), Fault>)
        requires
            old(self).wf(),
        ensures
            final(self).wf(),
            final(self).cycle == old(self).cycle,
            old(self).spec_add_to_sp(peripherals@, pc, destination, immediate).agrees(
                *final(self),
                peripherals@,
                res,
            ),
    {
        reveal(Cpu::spec_add_to_sp);
        let sum = alu::add_sp(self.registers.sp, immediate);
        self.registers.set_flags(false, false, sum.bcd_h, sum.carry);
        match destination {
            AddToSpDestination::Hl => self.registers.set_hl(sum.value),
            AddToSpDestination::Sp => self.registers.sp = sum.value,
        }
        Ok((pc, 16))
    }

    /// Executes one of the eight operations on the accumulator.
    fn arithmetic_logic8(
        &mut self,
        peripherals: &Peripherals,
        pc: u16,
        operation: ArithmeticLogic,
        operand: Operand8,
    ) -> (res: Result<(u16, u64), Fault>)
        requires
            old(self).wf(),
            peripherals@.wf(),
        ensures
            final(self).wf(),
            final(self).cycle == old(self).cycle,
            old(self).spec_arithmetic_logic8(peripherals@, pc, operation, operand).agrees(
                *final(self),
                peripherals@,
                res,
            ),
    {
        reveal(Cpu::spec_arithmetic_logic8);
        let c = self.registers.carry();
        let a = self.registers.a;
        let (load_cycles, other) = self.load_operand8(peripherals, operand)?;
        let out = alu::alu8(operation, a, other, c);
        self.registers.set_flags(out.zero, out.bcd_n, out.bcd_h, out.carry);
        match operation {
            ArithmeticLogic::Cp => {},
            _ => {
                self.registers.a = out.value;
            },
        }
        Ok((pc, load_cycles + 4))
    }

    /// Executes an operation behind the prefix 0xCB.
    fn bit_op(
        &mut self,
        peripherals: &mut Peripherals,
        pc: u16,
        operation: BitOp,
        operand: Operand8,
    ) -> (res: Result<(u16, u64), Fault>)
        requires
            old(self).wf(),
            old(peripherals)@.wf(),
            !(operand is Immediate),
        ensures
            final(self).wf(),
            final(peripherals)@.wf(),
            final(self).cycle == old(self).cycle,
            old(self).spec_bit_op(old(peripherals)@, pc, operation, operand).agrees(
                *final(self),
                final(peripherals)@,
                res,
            ),
    {
        reveal(Cpu::spec_bit_op);
        let (load_cycles, input) = self.load_operand8(peripherals, operand)?;
        let out = alu::bit_op(
            operation,
            input,
            self.registers.zero(),
            self.registers.bcd_n(),
            self.registers.bcd_h(),
            self.registers.carry(),
        );
        let store_cycles = match out.value {
            Some(value) => self.store_operand8(peripherals, operand, value)?,
            None => 0,
        };
        self.registers.set_flags(out.zero, out.bcd_n, out.bcd_h, out.carry);
        Ok((pc, load_cycles + store_cycles + 8))
    }

    /// Executes CALL.
    fn call(
        &mut self,
        peripherals: &mut Peripherals,
        pc: u16,
        destination: Destination,
        condition: Condition,
    ) -> (res: Result<(u16, u64), Fault>)
        requires
            old(self).wf(),
            old(peripherals)@.wf(),
        ensures
            final(self).wf(),
            final(peripherals)@.wf(),
            final(self).cycle == old(self).cycle,
            old(self).spec_call(old(peripherals)@, pc, destination, condition).agrees(
                *final(self),
                final(peripherals)@,
                res,
            ),
    {
        reveal(Cpu::spec_call);
        let (load_cycles, addr) = self.jump_destination(pc, destination);
        if self.check_condition(condition) {
            self.push(peripherals, pc)?;
            Ok((addr, load_cycles + 4))
        } else {
            Ok((pc, load_cycles))
        }
    }

    /// Executes DAA.
    fn daa(&mut self, peripherals: &Peripherals, pc: u16) -> (res: Result<(u16, u64), Fault>)
        requires
            old(self).wf(),
        ensures
            final(self).wf(),
            final(self).cycle == old(self).cycle,
            old(self).spec_daa(peripherals@, pc).agrees(*final(self), peripherals@, res),
    {
        reveal(Cpu::spec_daa);
        let out = alu::daa(
            self.registers.a,
            self.registers.bcd_n(),
            self.registers.bcd_h(),
            self.registers.carry(),
        );
        self.registers.a = out.value;
        self.registers.set_flags(out.zero, out.bcd_n, out.bcd_h, out.carry);
        Ok((pc, 4))
    }

    /// Executes INC or DEC on an 8-bit operand.
    fn inc_dec8(
        &mut self,
        peripherals: &mut Peripherals,
        pc: u16,
        direction: IncDecDirection,
        operand: Operand8,
    ) -> (res: Result<(u16, u64), Fault>)
        requires
            old(self).wf(),
            old(peripherals)@.wf(),
            !(operand is Immediate),
        ensures
            final(self).wf(),
            final(peripherals)@.wf(),
            final(self).cycle == old(self).cycle,
            old(self).spec_inc_dec8(old(peripherals)@, pc, direction, operand).agrees(
                *final(self),
                final(peripherals)@,
                res,
            ),
    {
        reveal(Cpu::spec_inc_dec8);
        let (load_cycles, value) = self.load_operand8(peripherals, operand)?;
        let out = alu::inc_dec8(direction, value, self.registers.carry());
        let store_cycles = self.store_operand8(peripherals, operand, out.value)?;
        self.registers.set_flags(out.zero, out.bcd_n, out.bcd_h, out.carry);
        Ok((pc, load_cycles + store_cycles + 4))
    }

    /// Executes INC or DEC on a pair or SP.
    fn inc_dec16(
        &mut self,
        peripherals: &Peripherals,
        pc: u16,
        direction: IncDecDirection,
        operand: Operand16,
    ) -> (res: Result<(u16, u64), Fault>)
        requires
            old(self).wf(),
        ensures
            final(self).wf(),
            final(self).cycle == old(self).cycle,
            old(self).spec_inc_dec16(peripherals@, pc, direction, operand).agrees(
                *final(self),
                peripherals@,
                res,
            ),
    {
        reveal(Cpu::spec_inc_dec16);
        let value = self.registers.read_double(operand);
        let result = match direction {
            IncDecDirection::Dec => value.wrapping_sub(1),
            IncDecDirection::Inc => value.wrapping_add(1),
        };
        assert(result == (match direction {
            IncDecDirection::Dec => offset_addr(value, -1),
            IncDecDirection::Inc => offset_addr(value, 1),
        }));
        self.registers.write_double(operand, result);
        Ok((pc, 8))
    }

    /// Executes JP or JR.
    fn jump(&self, peripherals: &Peripherals, pc: u16, destination: Destination, condition: Condition) -> (res:
        Result<(u16, u64), Fault>)
        ensures
            self.spec_jump(peripherals@, pc, destination, condition).agrees(
                *self,
                peripherals@,
                res,
            ),
    {
        reveal(Cpu::spec_jump);
        let (load_cycles, addr) = self.jump_destination(pc, destination);
        if self.check_condition(condition) {
            Ok((addr, load_cycles + 4))
        } else {
            Ok((pc, load_cycles))
        }
    }

    /// Executes a load between A and memory.
    fn load_memory(
        &mut self,
        peripherals: &mut Peripherals,
        pc: u16,
        direction: LoadMemoryDirection,
        location: LoadMemoryLocation,
    ) -> (res: Result<(u16, u64), Fault>)
        requires
            old(self).wf(),
            old(peripherals)@.wf(),
        ensures
            final(self).wf(),
            final(peripherals)@.wf(),
            final(self).cycle == old(self).cycle,
            old(self).spec_load_memory(old(peripherals)@, pc, direction, location).agrees(
                *final(self),
                final(peripherals)@,
                res,
            ),
    {
        reveal(Cpu::spec_load_memory);
        let (addr, cycles): (u16, u64) = match location {
            LoadMemoryLocation::Bc => (self.registers.bc(), 8),
            LoadMemoryLocation::De => (self.registers.de(), 8),
            LoadMemoryLocation::HlDec | LoadMemoryLocation::HlInc => (self.registers.hl(), 8),
            LoadMemoryLocation::ZeroPageC => (0xff00 + (self.registers.c as u16), 8),
            LoadMemoryLocation::ZeroPageImm(immediate) => (0xff00 + (immediate as u16), 12),
            LoadMemoryLocation::Absolute(addr) => (addr, 16),
        };
        match direction {
            LoadMemoryDirection::FromMemory => {
                self.registers.a = peripherals.read(self.cycle, addr)?;
            },
            LoadMemoryDirection::ToMemory => {
                peripherals.write(self.cycle, addr, self.registers.a)?;
            },
        }
        match location {
            LoadMemoryLocation::HlDec => {
                self.registers.set_hl(addr.wrapping_sub(1));
            },
            LoadMemoryLocation::HlInc => {
                self.registers.set_hl(addr.wrapping_add(1));
            },
            _ => {},
        }
        Ok((pc, cycles))
    }

    /// Executes LD destination,source.
    fn load_simple(
        &mut self,
        peripherals: &mut Peripherals,
        pc: u16,
        destination: Operand8,
        source: Operand8,
    ) -> (res: Result<(u16, u64), Fault>)
        requires
            old(self).wf(),
            old(peripherals)@.wf(),
            !(destination is Immediate),
        ensures
            final(self).wf(),
            final(peripherals)@.wf(),
            final(self).cycle == old(self).cycle,
            old(self).spec_load_simple(old(peripherals)@, pc, destination, source).agrees(
                *final(self),
                final(peripherals)@,
                res,
            ),
    {
        reveal(Cpu::spec_load_simple);
        let (load_cycles, value) = self.load_operand8(peripherals, source)?;
        let store_cycles = self.store_operand8(peripherals, destination, value)?;
        Ok((pc, load_cycles + store_cycles + 4))
    }

    /// Executes LD rr,imm16.
    fn load_imm16(
        &mut self,
        peripherals: &Peripherals,
        pc: u16,
        destination: Operand16,
        immediate: u16,
    ) -> (res: Result<(u16, u64), Fault>)
        requires
            old(self).wf(),
        ensures
            final(self).wf(),
            final(self).cycle == old(self).cycle,
            old(self).spec_load_imm16(peripherals@, pc, destination, immediate).agrees(
                *final(self),
                peripherals@,
                res,
            ),
    {
        reveal(Cpu::spec_load_imm16);
        self.registers.write_double(destination, immediate);
        Ok((pc, 12))
    }

    /// Executes LD (imm16),SP.
    fn load_sp_to_imm(&mut self, peripherals: &mut Peripherals, pc: u16, addr: u16) -> (res: Result<
        (u16, u64),
        Fault,
    >)
        requires
            old(self).wf(),
            old(peripherals)@.wf(),
        ensures
            final(self).wf(),
            final(peripherals)@.wf(),
            final(self).cycle == old(self).cycle,
            old(self).spec_load_sp_to_imm(old(peripherals)@, pc, addr).agrees(
                *final(self),
                final(peripherals)@,
                res,
            ),
    {
        reveal(Cpu::spec_load_sp_to_imm);
        peripherals.write_u16(self.cycle, addr, self.registers.sp)?;
        Ok((pc, 20))
    }

    /// Executes POP.
    fn pop_into(&mut self, peripherals: &Peripherals, pc: u16, operand: Operand16) -> (res: Result<
        (u16, u64),
        Fault,
    >)
        requires
            old(self).wf(),
            peripherals@.wf(),
        ensures
            final(self).wf(),
            final(self).cycle == old(self).cycle,
            old(self).spec_pop_into(peripherals@, pc, operand).agrees(
                *final(self),
                peripherals@,
                res,
            ),
    {
        reveal(Cpu::spec_pop_into);
        let val = peripherals.read_u16(self.cycle, self.registers.sp)?;
        self.registers.write_double(operand, val);
        self.registers.sp = self.registers.sp.wrapping_add(2);
        Ok((pc, 12))
    }

    /// Executes PUSH.
    fn push_from(&mut self, peripherals: &mut Peripherals, pc: u16, operand: Operand16) -> (res:
        Result<(u16, u64), Fault>)
        requires
            old(self).wf(),
            old(peripherals)@.wf(),
        ensures
            final(self).wf(),
            final(peripherals)@.wf(),
            final(self).cycle == old(self).cycle,
            old(self).spec_push_from(old(peripherals)@, pc, operand).agrees(
                *final(self),
                final(peripherals)@,
                res,
            ),
    {
        reveal(Cpu::spec_push_from);
        let val = self.registers.read_double(operand);
        self.push(peripherals, val)?;
        Ok((pc, 16))
    }

    /// Executes RST.
    fn reset(&mut self, peripherals: &mut Peripherals, pc: u16, slot: ResetSlot) -> (res: Result<
        (u16, u64),
        Fault,
    >)
        requires
            old(self).wf(),
            old(peripherals)@.wf(),
        ensures
            final(self).wf(),
            final(peripherals)@.wf(),
            final(self).cycle == old(self).cycle,
            old(self).spec_reset(old(peripherals)@, pc, slot).agrees(
                *final(self),
                final(peripherals)@,
                res,
            ),
    {
        reveal(Cpu::spec_reset);
        self.push(peripherals, pc)?;
        Ok((slot.address(), 16))
    }

    /// Executes RETI.
    fn reti(&mut self, peripherals: &Peripherals, pc: u16) -> (res: Result<(u16, u64), Fault>)
        requires
            old(self).wf(),
            peripherals@.wf(),
        ensures
            final(self).wf(),
            final(self).cycle == old(self).cycle,
            old(self).spec_reti(peripherals@, pc).agrees(*final(self), peripherals@, res),
    {
        reveal(Cpu::spec_reti);
        let addr = self.pop(peripherals)?;
        self.interrupt_enable = true;
        Ok((addr, 16))
    }

    /// Executes RET.
    fn ret(&mut self, peripherals: &Peripherals, pc: u16, condition: Condition) -> (res: Result<
        (u16, u64),
        Fault,
    >)
        requires
            old(self).wf(),
            peripherals@.wf(),
        ensures
            final(self).wf(),
            final(self).cycle == old(self).cycle,
            old(self).spec_return(peripherals@, pc, condition).agrees(
                *final(self),
                peripherals@,
                res,
            ),
    {
        reveal(Cpu::spec_return);
        let condition_penalty: u64 = match condition {
            Condition::Always => 0,
            _ => 4,
        };
        if self.check_condition(condition) {
            let addr = self.pop(peripherals)?;
            Ok((addr, condition_penalty + 16))
        } else {
            Ok((pc, condition_penalty + 4))
        }
    }

    /// Executes RLCA, RRCA, RLA or RRA.
    fn rotate_a(
        &mut self,
        peripherals: &Peripherals,
        pc: u16,
        direction: RotateDirection,
        through: RotateCarry,
    ) -> (res: Result<(u16, u64), Fault>)
        requires
            old(self).wf(),
        ensures
            final(self).wf(),
            final(self).cycle == old(self).cycle,
            old(self).spec_rotate_a(peripherals@, pc, direction, through).agrees(
                *final(self),
                peripherals@,
                res,
            ),
    {
        reveal(Cpu::spec_rotate_a);
        let out = alu::rotate_a(direction, through, self.registers.a, self.registers.carry());
        self.registers.a = out.value;
        self.registers.set_flags(out.zero, out.bcd_n, out.bcd_h, out.carry);
        Ok((pc, 4))
    }

    /// Executes an instruction that touches only flags or the state of the CPU; fails for
    /// STOP and for an undefined opcode.
    fn housekeeping(&mut self, peripherals: &Peripherals, pc: u16, inst: Instruction) -> (res: Result<
        (u16, u64),
        Fault,
    >)
        requires
            old(self).wf(),
        ensures
            final(self).wf(),
            final(self).cycle == old(self).cycle,
            old(self).spec_housekeeping(peripherals@, pc, inst).agrees(
                *final(self),
                peripherals@,
                res,
            ),
    {
        reveal(Cpu::spec_housekeeping);
        match inst {
            Instruction::Ccf => {
                let zero = self.registers.zero();
                let carry = self.registers.carry();
                self.registers.set_flags(zero, false, false, !carry);
                Ok((pc, 4))
            },
            Instruction::Scf => {
                let zero = self.registers.zero();
                self.registers.set_flags(zero, false, false, true);
                Ok((pc, 4))
            },
            Instruction::Cpl => {
                let zero = self.registers.zero();
                let carry = self.registers.carry();
                self.registers.a = self.registers.a ^ 0xff;
                self.registers.set_flags(zero, true, true, carry);
                Ok((pc, 4))
            },
            Instruction::Di => {
                self.interrupt_enable = false;
                Ok((pc, 4))
            },
            Instruction::Ei => {
                self.interrupt_enable = true;
                Ok((pc, 4))
            },
            Instruction::Halt => {
                self.halted = true;
                Ok((pc, 4))
            },
            Instruction::LoadHlToSp => {
                self.registers.sp = self.registers.hl();
                Ok((pc, 8))
            },
            Instruction::Stop => Err(Fault::Stop),
            Instruction::Invalid(op) => Err(Fault::InvalidOpcode(op)),
            _ => Ok((pc, 4)),
        }
    }

    /// Executes an instruction that computes: an addition, an operation on the accumulator
    /// or behind the prefix 0xCB, an increment, a decrement, a rotation or DAA.
    fn execute_arithmetic(&mut self, peripherals: &mut Peripherals, pc: u16, inst: Instruction) -> (res:
        Result<(u16, u64), Fault>)
        requires
            old(self).wf(),
            old(peripherals)@.wf(),
            inst.wf(),
            Self::is_arithmetic(inst),
        ensures
            final(self).wf(),
            final(peripherals)@.wf(),
            final(self).cycle == old(self).cycle,
            old(self).spec_execute(old(peripherals)@, pc, inst).agrees(
                *final(self),
                final(peripherals)@,
                res,
            ),
    {
        match inst {
            Instruction::Add16(operand) => self.add16(peripherals, pc, operand),
            Instruction::AddToSp(destination, immediate) => self.add_to_sp(
                peripherals,
                pc,
                destination,
                immediate,
            ),
            Instruction::ArithmeticLogic8(operation, operand) => self.arithmetic_logic8(
                peripherals,
                pc,
                operation,
                operand,
            ),
            Instruction::BitOp(operation, operand) => self.bit_op(
                peripherals,
                pc,
                operation,
                operand,
            ),
            Instruction::Daa => self.daa(peripherals, pc),
            Instruction::IncDec16(direction, operand) => self.inc_dec16(
                peripherals,
                pc,
                direction,
                operand,
            ),
            Instruction::IncDec8(direction, operand) => self.inc_dec8(
                peripherals,
                pc,
                direction,
                operand,
            ),
            Instruction::RotateA(direction, through) => self.rotate_a(
                peripherals,
                pc,
                direction,
                through,
            ),
            _ => Ok((pc, 4)),
        }
    }

    /// Executes a jump, a call, a restart or a return.
    fn execute_control(&mut self, peripherals: &mut Peripherals, pc: u16, inst: Instruction) -> (res:
        Result<(u16, u64), Fault>)
        requires
            old(self).wf(),
            old(peripherals)@.wf(),
            inst.wf(),
            Self::is_control(inst),
        ensures
            final(self).wf(),
            final(peripherals)@.wf(),
            final(self).cycle == old(self).cycle,
            old(self).spec_execute(old(peripherals)@, pc, inst).agrees(
                *final(self),
                final(peripherals)@,
                res,
            ),
    {
        match inst {
            Instruction::Call(destination, condition) => self.call(
                peripherals,
                pc,
                destination,
                condition,
            ),
            Instruction::Jump(destination, condition) => self.jump(
                peripherals,
                pc,
                destination,
                condition,
            ),
            Instruction::Reset(slot) => self.reset(peripherals, pc, slot),
            Instruction::Reti => self.reti(peripherals, pc),
            Instruction::Return(condition) => self.ret(peripherals, pc, condition),
            _ => Ok((pc, 4)),
        }
    }

    /// Executes a load, a push or a pop.
    fn execute_transfer(&mut self, peripherals: &mut Peripherals, pc: u16, inst: Instruction) -> (res:
        Result<(u16, u64), Fault>)
        requires
            old(self).wf(),
            old(peripherals)@.wf(),
            inst.wf(),
            Self::is_transfer(inst),
        ensures
            final(self).wf(),
            final(peripherals)@.wf(),
            final(self).cycle == old(self).cycle,
            old(self).spec_execute(old(peripherals)@, pc, inst).agrees(
                *final(self),
                final(peripherals)@,
                res,
            ),
    {
        match inst {
            Instruction::LoadImm16(destination, immediate) => self.load_imm16(
                peripherals,
                pc,
                destination,
                immediate,
            ),
            Instruction::LoadMemory(direction, location) => self.load_memory(
                peripherals,
                pc,
                direction,
                location,
            ),
            Instruction::LoadSimple(destination, source) => self.load_simple(
                peripherals,
                pc,
                destination,
                source,
            ),
            Instruction::LoadSpToImm(addr) => self.load_sp_to_imm(peripherals, pc, addr),
            Instruction::Pop(operand) => self.pop_into(peripherals, pc, operand),
            Instruction::Push(operand) => self.push_from(peripherals, pc, operand),
            _ => Ok((pc, 4)),
        }
    }

    /// Executes one instruction. `pc` is the address after the instruction; the result is
    /// the address of the next instruction and the cycles that this one took. The cycle
    /// counter and the program counter register are left as they are.
    pub fn execute(&mut self, peripherals: &mut Peripherals, pc: u16, inst: Instruction) -> (res:
        Result<(u16, u64), Fault>)
        requires
            old(self).wf(),
            old(peripherals)@.wf(),
            inst.wf(),
        ensures
            final(self).wf(),
            final(peripherals)@.wf(),
            final(self).cycle == old(self).cycle,
            old(self).spec_execute(old(peripherals)@, pc, inst).agrees(
                *final(self),
                final(peripherals)@,
                res,
            ),
    {
        match inst {
            Instruction::Add16(_)
            | Instruction::AddToSp(_, _)
            | Instruction::ArithmeticLogic8(_, _)
            | Instruction::BitOp(_, _)
            | Instruction::Daa
            | Instruction::IncDec16(_, _)
            | Instruction::IncDec8(_, _)
            | Instruction::RotateA(_, _) => self.execute_arithmetic(peripherals, pc, inst),
            Instruction::Call(_, _)
            | Instruction::Jump(_, _)
            | Instruction::Reset(_)
            | Instruction::Reti
            | Instruction::Return(_) => self.execute_control(peripherals, pc, inst),
            Instruction::LoadImm16(_, _)
            | Instruction::LoadMemory(_, _)
            | Instruction::LoadSimple(_, _)
            | Instruction::LoadSpToImm(_)
            | Instruction::Pop(_)
            | Instruction::Push(_) => self.execute_transfer(peripherals, pc, inst),
            _ => self.housekeeping(peripherals, pc, inst),
        }
    }

    /// Checks for an interrupt to serve before the instruction at `pc`, serves it if there
    /// is one, and gives the address at which execution goes on.
    pub fn serve_interrupt(&mut self, peripherals: &mut Peripherals, pc: u16) -> (res: Result<
        u16,
        Fault,
    >)
        requires
            old(self).wf(),
            old(peripherals)@.wf(),
        ensures
            final(self).wf(),
            final(peripherals)@.wf(),
            final(self).cycle == old(self).cycle,
            old(self).spec_serve_interrupt(old(peripherals)@, pc).agrees(
                *final(self),
                final(peripherals)@,
                res,
            ),
    {
        reveal(Cpu::spec_serve_interrupt);
        reveal(PeripheralsView::read);
        reveal(PeripheralsView::store);
        reveal(PeripheralsView::store_fault);
        if !self.interrupt_enable {
            return Ok(pc);
        }
        let mut reg_if = InterruptMask::from(peripherals.read(self.cycle, 0xff0f)?);
        let reg_ie = InterruptMask::from(peripherals.read(self.cycle, 0xffff)?);
        let pending = reg_if & reg_ie;
        match pending.highest_priority() {
            Some(interrupt) => {
                self.push(peripherals, pc)?;
                reg_if.clear(interrupt);
                peripherals.write(self.cycle, 0xff0f, reg_if.into())?;
                self.halted = false;
                self.interrupt_enable = false;
                Ok(interrupt.vector_address())
            },
            None => Ok(pc),
        }
    }

    /// Fetches and executes the instruction at `pc`, adds its cycles to the cycle counter
    /// and sets the program counter register to the address of the next instruction.
    pub fn run_instruction(&mut self, peripherals: &mut Peripherals, pc: u16) -> (res: Result<
        (),
        Fault,
    >)
        requires
            old(self).wf(),
            old(peripherals)@.wf(),
        ensures
            final(self).wf(),
            final(peripherals)@.wf(),
            final(self).cycle >= old(self).cycle,
            old(self).spec_run_instruction(old(peripherals)@, pc).agrees(
                *final(self),
                final(peripherals)@,
                res,
            ),
    {
        let mut reader = PcReader::new(self.cycle, pc, peripherals);
        let inst = Instruction::from_pc_reader(&mut reader)?;
        let after = reader.pc;
        let (next, cycles) = self.execute(peripherals, after, inst)?;
        match self.cycle.checked_add(cycles) {
            Some(cycle) => {
                self.cycle = cycle;
                self.registers.pc = next;
                Ok(())
            },
            None => Err(Fault::CycleOverflow),
        }
    }

    /// Makes one step: serves an interrupt if one is due; then, if the CPU is halted, lets
    /// the cycle counter leap to the cycle at which the next interrupt may come, and else
    /// executes one instruction.
    ///
    /// Fails with the fault that a bus access meets, with `Stop` or `InvalidOpcode` for an
    /// instruction that cannot be executed, and with `CycleOverflow` if the cycle counter
    /// cannot take the cycles of the instruction.
    pub fn step(&mut self, peripherals: &mut Peripherals) -> (res: Result<(), Fault>)
        requires
            old(self).wf(),
            old(peripherals)@.wf(),
        ensures
            final(self).wf(),
            final(peripherals)@.wf(),
            final(self).cycle >= old(self).cycle,
            old(self).spec_step(old(peripherals)@).agrees(*final(self), final(peripherals)@, res),
    {
        let pc = self.serve_interrupt(peripherals, self.registers.pc)?;
        if self.halted {
            self.cycle = peripherals.next_pending(self.cycle);
            return Ok(());
        }
        self.run_instruction(peripherals, pc)
    }

    /// Steps until `cycles` cycles have passed. The run ends with the step that reaches
    /// that cycle: less than 24 cycles behind it, unless the CPU is halted then.
    ///
    /// Fails with `CycleOverflow` if the cycle counter cannot reach that far, with the
    /// fault of the first step that fails, and with `Stalled` at a step that does not move
    /// the cycle counter.
    pub fn run(&mut self, peripherals: &mut Peripherals, cycles: u64) -> (res: Result<(), Fault>)
        requires
            old(self).wf(),
            old(peripherals)@.wf(),
        ensures
            final(self).wf(),
            final(peripherals)@.wf(),
            final(self).cycle >= old(self).cycle,
            old(self).spec_run(old(peripherals)@, cycles).agrees(
                *final(self),
                final(peripherals)@,
                res,
            ),
            res is Ok ==> final(self).cycle >= old(self).cycle + cycles,
            res is Ok && !final(self).halted ==> final(self).cycle < old(self).cycle + cycles + 24,
    {
        let end_cycle = match self.cycle.checked_add(cycles) {
            Some(end_cycle) => end_cycle,
            None => {
                return Err(Fault::CycleOverflow);
            },
        };
        while self.cycle < end_cycle
            invariant
                self.wf(),
                peripherals@.wf(),
                self.cycle >= old(self).cycle,
                end_cycle == old(self).cycle + cycles,
                self.spec_run_until(peripherals@, end_cycle) == old(self).spec_run_until(
                    old(peripherals)@,
                    end_cycle,
                ),
            decreases self.run_backlog(end_cycle),
        {
            let before = self.cycle;
            self.step(peripherals)?;
            if self.cycle <= before {
                return Err(Fault::Stalled);
            }
        }
        proof {
            lemma_run_ends_near(*old(self), old(peripherals)@, end_cycle);
        }
        Ok(())
    }
}

/// After `ADD A,operand` the accumulator holds the sum in eight bits, Z tells whether that
/// is zero, N is clear, H tells whether the low nibbles carried and C whether the bytes did.
pub proof fn lemma_add_flags(cpu: Cpu, bus: PeripheralsView, pc: u16, operand: Operand8, b: u8)
    requires
        cpu.spec_load_operand8(bus, operand) == Ok::<u8, Fault>(b),
    ensures
        ({
            let a = cpu.registers.a;
            let after = cpu.spec_execute(
                bus,
                pc,
                Instruction::ArithmeticLogic8(ArithmeticLogic::Add, operand),
            ).cpu.registers;
            &&& after.a == (a + b) % 256
            &&& after.spec_zero() == ((a + b) % 256 == 0)
            &&& after.spec_bcd_n() == false
            &&& after.spec_bcd_h() == ((a & 0x0f) + (b & 0x0f) > 0x0f)
            &&& after.spec_carry() == (a + b > 0xff)
        }),
{
    reveal(Cpu::spec_arithmetic_logic8);
    let a = cpu.registers.a;
    let res = alu::spec_alu8(ArithmeticLogic::Add, a, b, cpu.registers.spec_carry());
    registers::lemma_flags_read_back(cpu.registers, res.zero, res.bcd_n, res.bcd_h, res.carry);
    alu::lemma_low_nibble(a);
    alu::lemma_low_nibble(b);
}

/// `PUSH rr` followed by `POP rr` leaves every register as it was, SP included, for each of
/// the pairs BC, DE, HL and AF, wherever the pushed value can be written below SP and read
/// back from there. The two instructions meet no fault and take 16 and 12 cycles.
pub proof fn lemma_push_pop_round_trip(
    cpu: Cpu,
    bus: PeripheralsView,
    pc: u16,
    next: u16,
    rr: Operand16,
)
    requires
        cpu.wf(),
        rr != Operand16::Sp,
        bus.write_u16(
            cpu.cycle,
            offset_addr(cpu.registers.sp, -2),
            cpu.registers.spec_read_double(rr),
        ).1 is Ok,
        bus.write_u16(
            cpu.cycle,
            offset_addr(cpu.registers.sp, -2),
            cpu.registers.spec_read_double(rr),
        ).0.read_u16(cpu.cycle, offset_addr(cpu.registers.sp, -2)) == Ok::<u16, Fault>(
            cpu.registers.spec_read_double(rr),
        ),
    ensures
        ({
            let pushed = cpu.spec_execute(bus, pc, Instruction::Push(rr));
            let popped = pushed.cpu.spec_execute(pushed.bus, next, Instruction::Pop(rr));
            &&& pushed.result == Ok::<(u16, u64), Fault>((pc, 16))
            &&& popped.result == Ok::<(u16, u64), Fault>((next, 12))
            &&& popped.cpu == cpu
            &&& popped.bus == pushed.bus
        }),
{
    reveal(Cpu::spec_push_from);
    reveal(Cpu::spec_pop_into);
    let sp = offset_addr(cpu.registers.sp, -2);
    assert(offset_addr(sp, 2) == cpu.registers.sp);
    if rr == Operand16::Af {
        let f = cpu.registers.f;
        assert(f & 0xf0 == f) by (bit_vector)
            requires
                f % 16 == 0,
        ;
    }
}

/// A stack in the internal memory reads back what is pushed: there `PUSH rr` followed by
/// `POP rr` leaves every register as it was.
pub proof fn lemma_push_pop_in_ram(cpu: Cpu, bus: PeripheralsView, pc: u16, next: u16, rr: Operand16)
    requires
        cpu.wf(),
        bus.wf(),
        rr != Operand16::Sp,
        in_internal_ram(offset_addr(cpu.registers.sp, -2)),
        in_internal_ram(offset_addr(cpu.registers.sp, -1)),
    ensures
        ({
            let pushed = cpu.spec_execute(bus, pc, Instruction::Push(rr));
            let popped = pushed.cpu.spec_execute(pushed.bus, next, Instruction::Pop(rr));
            &&& pushed.result == Ok::<(u16, u64), Fault>((pc, 16))
            &&& popped.result == Ok::<(u16, u64), Fault>((next, 12))
            &&& popped.cpu == cpu
        }),
{
    let sp = offset_addr(cpu.registers.sp, -2);
    assert(next_addr(sp) == offset_addr(cpu.registers.sp, -1));
    lemma_u16_round_trip(bus, cpu.cycle, sp, cpu.registers.spec_read_double(rr), cpu.cycle);
    lemma_push_pop_round_trip(cpu, bus, pc, next, rr);
}

/// An instruction that computes leaves the cycle counter and keeps the low nibble of F zero.
proof fn lemma_arithmetic_keeps_validity(cpu: Cpu, bus: PeripheralsView, pc: u16, inst: Instruction)
    requires
        cpu.wf(),
        inst.wf(),
        Cpu::is_arithmetic(inst),
    ensures
        cpu.spec_execute(bus, pc, inst).cpu.wf(),
        cpu.spec_execute(bus, pc, inst).cpu.cycle == cpu.cycle,
        cpu.spec_execute(bus, pc, inst).result matches Ok(next) ==> 4 <= next.1 <= 24,
{
    registers::lemma_writes_keep_validity();
    match inst {
        Instruction::Add16(operand) => {
            reveal(Cpu::spec_add16);
        },
        Instruction::AddToSp(destination, immediate) => {
            reveal(Cpu::spec_add_to_sp);
            let sum = alu::spec_add_sp(cpu.registers.sp, immediate);
            let flagged = cpu.registers.spec_set_flags(false, false, sum.bcd_h, sum.carry);
            registers::lemma_flags_read_back(cpu.registers, false, false, sum.bcd_h, sum.carry);
            assert(flagged.wf());
            assert(flagged.spec_write_double(Operand16::Hl, sum.value).wf());
        },
        Instruction::ArithmeticLogic8(operation, operand) => {
            reveal(Cpu::spec_arithmetic_logic8);
            match cpu.spec_load_operand8(bus, operand) {
                Err(_) => {},
                Ok(other) => {
                    let res = alu::spec_alu8(
                        operation,
                        cpu.registers.a,
                        other,
                        cpu.registers.spec_carry(),
                    );
                    registers::lemma_flags_read_back(
                        cpu.registers,
                        res.zero,
                        res.bcd_n,
                        res.bcd_h,
                        res.carry,
                    );
                },
            }
        },
        Instruction::BitOp(operation, operand) => {
            reveal(Cpu::spec_bit_op);
        },
        Instruction::Daa => {
            reveal(Cpu::spec_daa);
        },
        Instruction::IncDec16(direction, operand) => {
            reveal(Cpu::spec_inc_dec16);
        },
        Instruction::IncDec8(direction, operand) => {
            reveal(Cpu::spec_inc_dec8);
        },
        Instruction::RotateA(direction, through) => {
            reveal(Cpu::spec_rotate_a);
        },
        _ => {},
    }
}

/// A jump, call, restart or return leaves the cycle counter and the flags.
proof fn lemma_control_keeps_validity(cpu: Cpu, bus: PeripheralsView, pc: u16, inst: Instruction)
    requires
        cpu.wf(),
        inst.wf(),
        Cpu::is_control(inst),
    ensures
        cpu.spec_execute(bus, pc, inst).cpu.wf(),
        cpu.spec_execute(bus, pc, inst).cpu.cycle == cpu.cycle,
        cpu.spec_execute(bus, pc, inst).result matches Ok(next) ==> 4 <= next.1 <= 24,
{
    reveal(Cpu::spec_call);
    reveal(Cpu::spec_jump);
    reveal(Cpu::spec_reset);
    reveal(Cpu::spec_reti);
    reveal(Cpu::spec_return);
}

/// A load, push or pop leaves the cycle counter and keeps the low nibble of F zero.
proof fn lemma_transfer_keeps_validity(cpu: Cpu, bus: PeripheralsView, pc: u16, inst: Instruction)
    requires
        cpu.wf(),
        inst.wf(),
        Cpu::is_transfer(inst),
    ensures
        cpu.spec_execute(bus, pc, inst).cpu.wf(),
        cpu.spec_execute(bus, pc, inst).cpu.cycle == cpu.cycle,
        cpu.spec_execute(bus, pc, inst).result matches Ok(next) ==> 4 <= next.1 <= 24,
{
    registers::lemma_writes_keep_validity();
    match inst {
        Instruction::LoadImm16(destination, immediate) => {
            reveal(Cpu::spec_load_imm16);
        },
        Instruction::LoadMemory(direction, location) => {
            reveal(Cpu::spec_load_memory);
        },
        Instruction::LoadSimple(destination, source) => {
            reveal(Cpu::spec_load_simple);
        },
        Instruction::LoadSpToImm(addr) => {
            reveal(Cpu::spec_load_sp_to_imm);
        },
        Instruction::Pop(operand) => {
            reveal(Cpu::spec_pop_into);
            match bus.read_u16(cpu.cycle, cpu.registers.sp) {
                Err(_) => {},
                Ok(val) => {
                    registers::lemma_upper_nibble(registers::low_byte(val));
                    assert(cpu.registers.spec_write_double(operand, val).wf());
                },
            }
        },
        Instruction::Push(operand) => {
            reveal(Cpu::spec_push_from);
        },
        _ => {},
    }
}

/// Whatever the valid instruction and whatever the registers hold, the low four bits of
/// F are zero after it, the cycle counter is left to the step, and the instruction takes
/// at least 4 and at most 24 cycles.
pub proof fn lemma_execute_keeps_validity(cpu: Cpu, bus: PeripheralsView, pc: u16, inst: Instruction)
    requires
        cpu.wf(),
        inst.wf(),
    ensures
        cpu.spec_execute(bus, pc, inst).cpu.wf(),
        cpu.spec_execute(bus, pc, inst).cpu.cycle == cpu.cycle,
        cpu.spec_execute(bus, pc, inst).result matches Ok(next) ==> 4 <= next.1 <= 24,
{
    if Cpu::is_arithmetic(inst) {
        lemma_arithmetic_keeps_validity(cpu, bus, pc, inst);
    } else if Cpu::is_control(inst) {
        lemma_control_keeps_validity(cpu, bus, pc, inst);
    } else if Cpu::is_transfer(inst) {
        lemma_transfer_keeps_validity(cpu, bus, pc, inst);
    } else {
        registers::lemma_writes_keep_validity();
        reveal(Cpu::spec_housekeeping);
    }
}

/// Whatever the state, after a step the low four bits of F are zero and the cycle counter
/// has not gone back. Only a step of a halted CPU can leave the cycle counter where it was,
/// and only a CPU that is halted after the step can have moved it by more than 24 cycles.
pub proof fn lemma_step_keeps_validity(cpu: Cpu, bus: PeripheralsView)
    requires
        cpu.wf(),
    ensures
        cpu.spec_step(bus).cpu.wf(),
        cpu.spec_step(bus).cpu.cycle >= cpu.cycle,
        cpu.spec_step(bus).result is Ok && cpu.spec_step(bus).cpu.cycle == cpu.cycle
            ==> cpu.spec_step(bus).cpu.halted,
        cpu.spec_step(bus).result is Ok && !cpu.spec_step(bus).cpu.halted ==> cpu.spec_step(
            bus,
        ).cpu.cycle <= cpu.cycle + 24,
{
    reveal(Cpu::spec_serve_interrupt);
    let served = cpu.spec_serve_interrupt(bus, cpu.registers.pc);
    assert(served.cpu.wf() && served.cpu.cycle == cpu.cycle);
    if served.result is Ok && !served.cpu.halted {
        match Instruction::fetch(served.bus, served.cpu.cycle, served.result.unwrap()) {
            Err(_) => {},
            Ok(fetched) => {
                decoder::lemma_fetch_is_valid(
                    served.bus,
                    served.cpu.cycle,
                    served.result.unwrap(),
                );
                lemma_execute_keeps_validity(served.cpu, served.bus, fetched.1, fetched.0);
            },
        }
    }
}

/// The cycle counter never goes back across a run.
pub proof fn lemma_run_never_goes_back(cpu: Cpu, bus: PeripheralsView, end: u64)
    requires
        cpu.wf(),
    ensures
        cpu.spec_run_until(bus, end).cpu.wf(),
        cpu.spec_run_until(bus, end).cpu.cycle >= cpu.cycle,
    decreases cpu.run_backlog(end),
{
    if cpu.cycle < end {
        let stepped = cpu.spec_step(bus);
        lemma_step_keeps_validity(cpu, bus);
        if stepped.result is Ok && stepped.cpu.cycle > cpu.cycle {
            lemma_run_never_goes_back(stepped.cpu, stepped.bus, end);
        }
    }
}

/// A run that meets no fault ends less than 24 cycles behind `end`, unless it leaves the
/// CPU halted: the last instruction begins before `end` and takes at most 24 cycles, but a
/// halted CPU sleeps until the next interrupt may come, however far that is.
pub proof fn lemma_run_ends_near(cpu: Cpu, bus: PeripheralsView, end: u64)
    requires
        cpu.wf(),
        cpu.halted || cpu.cycle < end + 24,
    ensures
        cpu.spec_run_until(bus, end).result is Ok ==> cpu.spec_run_until(bus, end).cpu.cycle >= end
            && (cpu.spec_run_until(bus, end).cpu.halted || cpu.spec_run_until(bus, end).cpu.cycle
            < end + 24),
    decreases cpu.run_backlog(end),
{
    if cpu.cycle < end {
        let stepped = cpu.spec_step(bus);
        lemma_step_keeps_validity(cpu, bus);
        if stepped.result is Ok && stepped.cpu.cycle > cpu.cycle {
            lemma_run_ends_near(stepped.cpu, stepped.bus, end);
        }
    }
}

} // verus!
