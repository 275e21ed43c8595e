use vstd::prelude::*;
use crate::alu::{adc, asl, bcd_subtract, bit, lsr, rol, ror, sbc, signed_overflow};
use crate::bus_interface::{addr_add, byte_at, BusInterface, ADDRESS_SPACE};
use crate::opcodes::{decode, Instruction, Mode, Operation};
use crate::processor_status::{with_flag, zero_neg, ProcessorStatus, BREAK, OVERFLOW, UNUSED};
use crate::semantics::{
    add8, apply_implied, apply_read, branch_step, branch_taken, brk_step, bump, execute, fetched,
    indexed, interrupt, jsr_step, modify, modify_step, operand, power_on, pull, push, read_step,
    resolve, restored_status, rti_step, rts_step, signed_offset, stack_step, step, store_step,
    vector_at, word_of, CpuState, InterruptType, IRQ_VECTOR, NMI_VECTOR, RESET_VECTOR,
};

verus! {

/// Registers of the processor.
pub(crate) struct Registers {
    program_counter: u16,
    accumulator: u8,
    x: u8,
    y: u8,
    stack_pointer: u8,
}

/// An NMOS 6502 processor, executing one instruction per `tick`.
pub struct Nmos6502 {
    current_opcode: u8,
    registers: Registers,
    processor_status: ProcessorStatus,
    /// The cycle count of the last instruction, for the host clock.
    pub last_pc_cycles: u8,
    /// The IRQ line, level-triggered: serviced while raised and I is clear.
    pub irq: bool,
    /// The NMI line: serviced on every tick while raised; the host lowers it.
    pub nmi: bool,
    /// While set, `tick` does nothing.
    pub halted: bool,
    /// Set when a BRK is executed.
    pub break_flag_ext_debug: bool,
    /// The last opcode byte that decoded to no documented instruction.
    pub uncaught_opcode_debug: Option<u8>,
    /// The program counter at the start of the last instruction.
    pub last_pc_debug: u16,
    /// The number of instructions fetched, wrapping.
    pub num_instructions_executed_debug: u32,
}

impl View for Nmos6502 {
    type V = CpuState;

    closed spec fn view(&self) -> CpuState {
        CpuState {
            pc: self.registers.program_counter,
            a: self.registers.accumulator,
            x: self.registers.x,
            y: self.registers.y,
            sp: self.registers.stack_pointer,
            p: self.processor_status@,
            opcode: self.current_opcode,
            cycles: self.last_pc_cycles,
            irq: self.irq,
            nmi: self.nmi,
            halted: self.halted,
            break_seen: self.break_flag_ext_debug,
            uncaught: self.uncaught_opcode_debug,
            last_pc: self.last_pc_debug,
            executed: self.num_instructions_executed_debug,
        }
    }
}

fn word(lo: u8, hi: u8) -> (r: u16)
    ensures
        r == word_of(lo, hi),
{
    (hi as u16) * 256 + lo as u16
}

impl Nmos6502 {
    /// A processor with A, X, Y and PC zero, SP 0xFF and status 0x30.
    pub fn new() -> (r: Self)
        ensures
            r@ == power_on(),
    {
        Nmos6502 {
            current_opcode: 0xD8,
            registers: Registers {
                program_counter: 0,
                accumulator: 0,
                x: 0,
                y: 0,
                stack_pointer: 0xFF,
            },
            processor_status: ProcessorStatus::from(0x30),
            irq: false,
            nmi: false,
            halted: false,
            break_flag_ext_debug: true,
            uncaught_opcode_debug: None,
            last_pc_debug: 0,
            num_instructions_executed_debug: 0,
            last_pc_cycles: 0,
        }
    }

    /// Loads PC from the reset vector; nothing else changes.
    pub fn reset<T: BusInterface>(&mut self, bus: &mut T)
        requires
            old(bus).mem().len() == ADDRESS_SPACE,
        ensures
            final(bus).mem() == old(bus).mem(),
            final(self)@ == (CpuState { pc: vector_at(old(bus).mem(), RESET_VECTOR), ..old(self)@ }),
    {
        let reset_vec_lo = bus.get_byte_at(RESET_VECTOR);
        let reset_vec_hi = bus.get_byte_at(RESET_VECTOR + 1);
        self.registers.program_counter = word(reset_vec_lo, reset_vec_hi);
    }

    fn push_stack<T: BusInterface>(&mut self, bus: &mut T, byte: u8)
        requires
            old(bus).mem().len() == ADDRESS_SPACE,
        ensures
            (final(self)@, final(bus).mem()) == push(old(self)@, old(bus).mem(), byte),
            final(bus).mem().len() == ADDRESS_SPACE,
    {
        let set_addr = word(self.registers.stack_pointer, 0x01);
        bus.set_byte_at(set_addr, byte);
        self.registers.stack_pointer = self.registers.stack_pointer.wrapping_sub(1);
    }

    fn pull_stack<T: BusInterface>(&mut self, bus: &mut T) -> (r: u8)
        requires
            old(bus).mem().len() == ADDRESS_SPACE,
        ensures
            (final(self)@, r) == pull(old(self)@, old(bus).mem()),
            final(bus).mem() == old(bus).mem(),
    {
        self.registers.stack_pointer = self.registers.stack_pointer.wrapping_add(1);
        let get_addr = word(self.registers.stack_pointer, 0x01);
        bus.get_byte_at(get_addr)
    }

    fn push_stack_interrupt<T: BusInterface>(&mut self, ir_type: InterruptType, bus: &mut T)
        requires
            old(bus).mem().len() == ADDRESS_SPACE,
        ensures
            (final(self)@, final(bus).mem()) == interrupt(old(self)@, old(bus).mem(), ir_type),
            final(bus).mem().len() == ADDRESS_SPACE,
    {
        let pc = self.registers.program_counter;
        self.push_stack(bus, (pc / 256) as u8);
        self.push_stack(bus, (pc % 256) as u8);
        let status = match ir_type {
            InterruptType::Brk => self.processor_status.as_byte() | BREAK | UNUSED,
            _ => (self.processor_status.as_byte() & !BREAK) | UNUSED,
        };
        self.push_stack(bus, status);
        self.processor_status.set_interrupt_disable();
        let fetch_vec: u16 = match ir_type {
            InterruptType::Nmi => NMI_VECTOR,
            _ => IRQ_VECTOR,
        };
        let vec_lo = bus.get_byte_at(fetch_vec);
        let vec_hi = bus.get_byte_at(fetch_vec + 1);
        self.registers.program_counter = word(vec_lo, vec_hi);
    }

    fn add_cycle(&mut self)
        ensures
            final(self)@ == bump(old(self)@, true),
    {
        self.last_pc_cycles = self.last_pc_cycles.wrapping_add(1);
    }

    /// `index + off` within the zero page; a carry out of the page costs a cycle.
    fn zero_page_addr(&mut self, index: u8, off: u8) -> (r: u16)
        ensures
            r == add8(index, off as int) as u16,
            final(self)@ == bump(old(self)@, index + off > 255),
    {
        if index as u16 + off as u16 > 255 {
            self.add_cycle();
        }
        index.wrapping_add(off) as u16
    }

    /// The word `hi lo` plus `off`; a page crossing costs a cycle.
    fn abs_addr(&mut self, lo: u8, hi: u8, off: u8) -> (r: u16)
        ensures
            r == indexed(word_of(lo, hi), off).0,
            final(self)@ == bump(old(self)@, indexed(word_of(lo, hi), off).1),
    {
        let addr = word(lo, hi).wrapping_add(off as u16);
        if addr % 256 + off as u16 > 255 {
            self.add_cycle();
        }
        addr
    }

    /// `(zp,X)`: the word stored in the zero page at `byte + x`.
    fn indirect_x_addr<T: BusInterface>(&mut self, bus: &mut T, byte: u8, x: u8) -> (r: u16)
        requires
            old(bus).mem().len() == ADDRESS_SPACE,
        ensures
            final(bus).mem() == old(bus).mem(),
            r == word_of(
                byte_at(old(bus).mem(), add8(byte, x as int) as u16),
                byte_at(old(bus).mem(), add8(add8(byte, x as int), 1) as u16),
            ),
            final(self)@ == bump(old(self)@, byte + x > 255),
    {
        let zp_addr = self.zero_page_addr(byte, x);
        let lo = bus.get_byte_at(zp_addr);
        let hi = bus.get_byte_at((zp_addr as u8).wrapping_add(1) as u16);
        word(lo, hi)
    }

    /// `(zp),Y`: the word stored in the zero page at `byte`, plus `y`; a page crossing
    /// costs a cycle.
    fn indirect_y_addr<T: BusInterface>(&mut self, bus: &mut T, byte: u8, y: u8) -> (r: u16)
        requires
            old(bus).mem().len() == ADDRESS_SPACE,
        ensures
            final(bus).mem() == old(bus).mem(),
            r == addr_add(
                word_of(
                    byte_at(old(bus).mem(), byte as u16),
                    byte_at(old(bus).mem(), add8(byte, 1) as u16),
                ),
                y as int,
            ),
            final(self)@ == bump(old(self)@, byte_at(old(bus).mem(), byte as u16) + y > 255),
    {
        let lo = bus.get_byte_at(byte as u16);
        let hi = bus.get_byte_at(byte.wrapping_add(1) as u16);
        if lo as u16 + y as u16 > 255 {
            self.add_cycle();
        }
        word(lo, hi).wrapping_add(y as u16)
    }

    /// `(abs)`: the word stored at `hi lo`, its high byte read from the same page.
    fn indirect_addr<T: BusInterface>(&mut self, bus: &mut T, lo: u8, hi: u8) -> (r: u16)
        requires
            old(bus).mem().len() == ADDRESS_SPACE,
        ensures
            final(bus).mem() == old(bus).mem(),
            r == resolve(old(self)@, Mode::Indirect, lo, hi, old(bus).mem()).0,
            final(self)@ == old(self)@,
    {
        let target_lo = bus.get_byte_at(word(lo, hi));
        let target_hi = bus.get_byte_at(word(lo.wrapping_add(1), hi));
        word(target_lo, target_hi)
    }

    /// The effective address of a memory operand in `mode`.
    fn operand_address<T: BusInterface>(&mut self, bus: &mut T, mode: Mode, b1: u8, b2: u8) -> (r:
        u16)
        requires
            old(bus).mem().len() == ADDRESS_SPACE,
        ensures
            final(bus).mem() == old(bus).mem(),
            r == resolve(old(self)@, mode, b1, b2, old(bus).mem()).0,
            final(self)@ == bump(old(self)@, resolve(old(self)@, mode, b1, b2, old(bus).mem()).1),
    {
        let x = self.registers.x;
        let y = self.registers.y;
        match mode {
            Mode::ZeroPage => self.zero_page_addr(b1, 0),
            Mode::ZeroPageX => self.zero_page_addr(b1, x),
            Mode::ZeroPageY => self.zero_page_addr(b1, y),
            Mode::Absolute => self.abs_addr(b1, b2, 0),
            Mode::AbsoluteX => self.abs_addr(b1, b2, x),
            Mode::AbsoluteY => self.abs_addr(b1, b2, y),
            Mode::IndexedIndirect => self.indirect_x_addr(bus, b1, x),
            Mode::IndirectIndexed => self.indirect_y_addr(bus, b1, y),
            Mode::Indirect => self.indirect_addr(bus, b1, b2),
            _ => 0,
        }
    }

    /// The operand of an instruction in `mode`: `b1` itself when immediate.
    fn read_operand<T: BusInterface>(&mut self, bus: &mut T, mode: Mode, b1: u8, b2: u8) -> (r: u8)
        requires
            old(bus).mem().len() == ADDRESS_SPACE,
        ensures
            final(bus).mem() == old(bus).mem(),
            (final(self)@, r) == operand(old(self)@, mode, b1, b2, old(bus).mem()),
    {
        if matches!(mode, Mode::Immediate) {
            b1
        } else {
            let addr = self.operand_address(bus, mode, b1, b2);
            bus.get_byte_at(addr)
        }
    }

    /// ADC: A and the flags become what `adc` gives.
    fn add_with_carry(&mut self, byte: u8)
        ensures
            final(self)@ == (CpuState {
                a: adc(old(self)@.a, byte, old(self)@.p).0,
                p: adc(old(self)@.a, byte, old(self)@.p).1,
                ..old(self)@
            }),
    {
        let a = self.registers.accumulator;
        let c: u8 = if self.processor_status.carry() {
            1
        } else {
            0
        };
        let uresult: u8;
        if !self.processor_status.decimal() {
            let sum: u16 = a as u16 + byte as u16 + c as u16;
            if sum > 0xFF {
                self.processor_status.set_carry();
            } else {
                self.processor_status.clr_carry();
            }
            uresult = (sum % 256) as u8;
        } else {
            let lo_result: u8 = a % 16 + byte % 16 + c;
            let half_carry: u8 = if lo_result > 9 {
                1
            } else {
                0
            };
            let hi_result: u8 = a / 16 + byte / 16 + half_carry;
            if hi_result > 9 {
                self.processor_status.set_carry();
            } else {
                self.processor_status.clr_carry();
            }
            uresult = lo_result % 10 + (hi_result % 10) * 16;
        }
        self.finish_arithmetic(a, byte, uresult);
    }

    /// Sets V by the sign test, stores the result in A and sets Z and N from it.
    fn finish_arithmetic(&mut self, a: u8, byte: u8, uresult: u8)
        ensures
            final(self)@ == (CpuState {
                a: uresult,
                p: zero_neg(with_flag(old(self)@.p, OVERFLOW, signed_overflow(a, byte, uresult)), uresult),
                ..old(self)@
            }),
    {
        if (a & 0x80) == (byte & 0x80) && (uresult & 0x80) != (byte & 0x80) {
            self.processor_status.set_overflow();
        } else {
            self.processor_status.clr_overflow();
        }
        self.registers.accumulator = uresult;
        self.processor_status.update_zero_neg_flags(uresult);
    }

    /// SBC: A and the flags become what `sbc` gives.
    fn subtract_with_carry(&mut self, byte: u8)
        ensures
            final(self)@ == (CpuState {
                a: sbc(old(self)@.a, byte, old(self)@.p).0,
                p: sbc(old(self)@.a, byte, old(self)@.p).1,
                ..old(self)@
            }),
    {
        if !self.processor_status.decimal() {
            self.add_with_carry(!byte);
            return ;
        }
        let a = self.registers.accumulator;
        let borrow: u8 = if self.processor_status.carry() {
            0
        } else {
            1
        };
        let (uresult, no_borrow) = bcd_subtract(a, byte, borrow);
        if no_borrow {
            self.processor_status.set_carry();
        } else {
            self.processor_status.clr_carry();
        }
        self.finish_arithmetic(a, byte, uresult);
    }

    /// BIT: N and V from bits 7 and 6 of `val`, Z iff `val & A` is zero.
    fn bit_test(&mut self, val: u8)
        ensures
            final(self)@ == (CpuState { p: bit(old(self)@.p, old(self)@.a, val), ..old(self)@ }),
    {
        if (val & 0x80) != 0 {
            self.processor_status.set_negative();
        } else {
            self.processor_status.clr_negative();
        }
        if (val & 0x40) != 0 {
            self.processor_status.set_overflow();
        } else {
            self.processor_status.clr_overflow();
        }
        if (val & self.registers.accumulator) == 0 {
            self.processor_status.set_zero();
        } else {
            self.processor_status.clr_zero();
        }
    }

    fn arithmetic_shift_left(&mut self, val: u8) -> (r: u8)
        ensures
            r == asl(val, old(self)@.p).0,
            final(self)@ == (CpuState { p: asl(val, old(self)@.p).1, ..old(self)@ }),
    {
        if (val & 0x80) != 0 {
            self.processor_status.set_carry();
        } else {
            self.processor_status.clr_carry();
        }
        let result = ((val as u16 * 2) % 256) as u8;
        self.processor_status.update_zero_neg_flags(result);
        result
    }

    fn logical_shift_right(&mut self, val: u8) -> (r: u8)
        ensures
            r == lsr(val, old(self)@.p).0,
            final(self)@ == (CpuState { p: lsr(val, old(self)@.p).1, ..old(self)@ }),
    {
        if (val & 0x01) != 0 {
            self.processor_status.set_carry();
        } else {
            self.processor_status.clr_carry();
        }
        let result = val / 2;
        self.processor_status.update_zero_neg_flags(result);
        result
    }

    fn rotate_left(&mut self, val: u8) -> (r: u8)
        ensures
            r == rol(val, old(self)@.p).0,
            final(self)@ == (CpuState { p: rol(val, old(self)@.p).1, ..old(self)@ }),
    {
        let c: u8 = if self.processor_status.carry() {
            1
        } else {
            0
        };
        if (val & 0x80) != 0 {
            self.processor_status.set_carry();
        } else {
            self.processor_status.clr_carry();
        }
        let result = ((val as u16 * 2) % 256) as u8 + c;
        self.processor_status.update_zero_neg_flags(result);
        result
    }

    fn rotate_right(&mut self, val: u8) -> (r: u8)
        ensures
            r == ror(val, old(self)@.p).0,
            final(self)@ == (CpuState { p: ror(val, old(self)@.p).1, ..old(self)@ }),
    {
        let c: u8 = if self.processor_status.carry() {
            0x80
        } else {
            0
        };
        if (val & 0x01) != 0 {
            self.processor_status.set_carry();
        } else {
            self.processor_status.clr_carry();
        }
        let result = val / 2 + c;
        self.processor_status.update_zero_neg_flags(result);
        result
    }

    /// Executes one instruction or services one interrupt: nothing while halted; else a
    /// raised NMI, then an IRQ that I does not mask, is serviced; else the instruction at
    /// PC is fetched, PC moves past it, and it is executed. `last_pc_cycles` then holds
    /// the instruction's cycle count.
    pub fn tick<T: BusInterface>(&mut self, bus: &mut T)
        requires
            old(bus).mem().len() == ADDRESS_SPACE,
        ensures
            final(bus).mem().len() == ADDRESS_SPACE,
            (final(self)@, final(bus).mem()) == step(old(self)@, old(bus).mem()),
    {
        proof {
            reveal(step);
        }
        if self.halted {
            return ;
        }
        if self.nmi {
            self.push_stack_interrupt(InterruptType::Nmi, bus);
            return ;
        } else if self.irq && !self.processor_status.interrupt_disable() {
            self.push_stack_interrupt(InterruptType::Irq, bus);
            return ;
        }
        let (raw_opcode_byte, pipe_byte1, pipe_byte2) = bus.get_pipelined_bytes(
            self.registers.program_counter,
        );
        let ins = decode(raw_opcode_byte);
        self.current_opcode = raw_opcode_byte;
        self.num_instructions_executed_debug = self.num_instructions_executed_debug.wrapping_add(1);
        self.last_pc_cycles = ins.cycles;
        self.last_pc_debug = self.registers.program_counter;
        self.registers.program_counter = self.registers.program_counter.wrapping_add(ins.length());
        assert(self@ == fetched(old(self)@, raw_opcode_byte));
        self.execute(bus, ins, raw_opcode_byte, pipe_byte1, pipe_byte2);
    }

    /// Executes a decoded instruction; PC already points past it.
    fn execute<T: BusInterface>(&mut self, bus: &mut T, ins: Instruction, b0: u8, b1: u8, b2: u8)
        requires
            old(bus).mem().len() == ADDRESS_SPACE,
        ensures
            final(bus).mem().len() == ADDRESS_SPACE,
            (final(self)@, final(bus).mem()) == execute(old(self)@, ins, b0, b1, b2, old(bus).mem()),
    {
        proof {
            reveal(execute);
        }
        let op = ins.operation;
        let mode = ins.mode;
        match op {
            Operation::Lda | Operation::Ldx | Operation::Ldy | Operation::And | Operation::Ora
            | Operation::Eor | Operation::Adc | Operation::Sbc | Operation::Cmp | Operation::Cpx
            | Operation::Cpy | Operation::Bit => {
                self.read_and_apply(bus, op, mode, b1, b2);
            },
            Operation::Asl | Operation::Lsr | Operation::Rol | Operation::Ror | Operation::Inc
            | Operation::Dec => self.read_modify_write(bus, op, mode, b1, b2),
            Operation::Sta | Operation::Stx | Operation::Sty => self.store(bus, op, mode, b1, b2),
            Operation::Bcc | Operation::Bcs | Operation::Bne | Operation::Beq | Operation::Bpl
            | Operation::Bmi | Operation::Bvc | Operation::Bvs => self.branch(op, b1),
            Operation::Jmp => {
                self.registers.program_counter = if matches!(mode, Mode::Indirect) {
                    self.indirect_addr(bus, b1, b2)
                } else {
                    word(b1, b2)
                };
            },
            Operation::Jsr => self.jump_to_subroutine(bus, b1, b2),
            Operation::Rts => self.return_from_subroutine(bus),
            Operation::Rti => self.return_from_interrupt(bus),
            Operation::Brk => self.break_instruction(bus),
            Operation::Pha | Operation::Php | Operation::Pla | Operation::Plp => {
                self.stack_operation(bus, op)
            },
            _ => self.apply_implied(op, b0),
        }
    }

    fn branch(&mut self, op: Operation, b1: u8)
        ensures
            final(self)@ == branch_step(old(self)@, op, b1),
    {
        proof {
            reveal(branch_step);
        }
        if self.branch_condition(op) {
            self.add_cycle();
            self.branch_by_offset(b1);
        }
    }

    fn break_instruction<T: BusInterface>(&mut self, bus: &mut T)
        requires
            old(bus).mem().len() == ADDRESS_SPACE,
        ensures
            final(bus).mem().len() == ADDRESS_SPACE,
            (final(self)@, final(bus).mem()) == brk_step(old(self)@, old(bus).mem()),
    {
        proof {
            reveal(brk_step);
        }
        self.push_stack_interrupt(InterruptType::Brk, bus);
        self.break_flag_ext_debug = true;
    }

    fn read_and_apply<T: BusInterface>(&mut self, bus: &mut T, op: Operation, mode: Mode, b1: u8, b2: u8)
        requires
            old(bus).mem().len() == ADDRESS_SPACE,
        ensures
            final(bus).mem() == old(bus).mem(),
            final(self)@ == read_step(old(self)@, op, mode, b1, b2, old(bus).mem()),
    {
        proof {
            reveal(read_step);
        }
        let v = self.read_operand(bus, mode, b1, b2);
        self.apply_read(op, v);
    }

    fn read_modify_write<T: BusInterface>(&mut self, bus: &mut T, op: Operation, mode: Mode, b1: u8, b2: u8)
        requires
            old(bus).mem().len() == ADDRESS_SPACE,
        ensures
            final(bus).mem().len() == ADDRESS_SPACE,
            (final(self)@, final(bus).mem()) == modify_step(old(self)@, op, mode, b1, b2, old(bus).mem()),
    {
        proof {
            reveal(modify_step);
        }
        if matches!(mode, Mode::Accumulator) {
            let r = self.modify_value(op, self.registers.accumulator);
            self.registers.accumulator = r;
        } else {
            let addr = self.operand_address(bus, mode, b1, b2);
            let val = bus.get_byte_at(addr);
            let r = self.modify_value(op, val);
            bus.set_byte_at(addr, r);
        }
    }

    fn store<T: BusInterface>(&mut self, bus: &mut T, op: Operation, mode: Mode, b1: u8, b2: u8)
        requires
            old(bus).mem().len() == ADDRESS_SPACE,
        ensures
            final(bus).mem().len() == ADDRESS_SPACE,
            (final(self)@, final(bus).mem()) == store_step(old(self)@, op, mode, b1, b2, old(bus).mem()),
    {
        proof {
            reveal(store_step);
        }
        let v = match op {
            Operation::Sta => self.registers.accumulator,
            Operation::Stx => self.registers.x,
            _ => self.registers.y,
        };
        let addr = self.operand_address(bus, mode, b1, b2);
        bus.set_byte_at(addr, v);
    }

    fn jump_to_subroutine<T: BusInterface>(&mut self, bus: &mut T, b1: u8, b2: u8)
        requires
            old(bus).mem().len() == ADDRESS_SPACE,
        ensures
            final(bus).mem().len() == ADDRESS_SPACE,
            (final(self)@, final(bus).mem()) == jsr_step(old(self)@, b1, b2, old(bus).mem()),
    {
        proof {
            reveal(jsr_step);
        }
        let jmp_addr = word(b1, b2);
        let ret = self.registers.program_counter.wrapping_sub(1);
        self.push_stack(bus, (ret / 256) as u8);
        self.push_stack(bus, (ret % 256) as u8);
        self.registers.program_counter = jmp_addr;
    }

    fn return_from_subroutine<T: BusInterface>(&mut self, bus: &mut T)
        requires
            old(bus).mem().len() == ADDRESS_SPACE,
        ensures
            final(bus).mem() == old(bus).mem(),
            final(self)@ == rts_step(old(self)@, old(bus).mem()),
    {
        proof {
            reveal(rts_step);
        }
        let ret_addr_lo = self.pull_stack(bus);
        let ret_addr_hi = self.pull_stack(bus);
        self.registers.program_counter = word(ret_addr_lo, ret_addr_hi).wrapping_add(1);
    }

    fn return_from_interrupt<T: BusInterface>(&mut self, bus: &mut T)
        requires
            old(bus).mem().len() == ADDRESS_SPACE,
        ensures
            final(bus).mem() == old(bus).mem(),
            final(self)@ == rti_step(old(self)@, old(bus).mem()),
    {
        proof {
            reveal(rti_step);
        }
        let pulled = self.pull_stack(bus);
        self.restore_status(pulled);
        let ret_addr_lo = self.pull_stack(bus);
        let ret_addr_hi = self.pull_stack(bus);
        self.registers.program_counter = word(ret_addr_lo, ret_addr_hi);
    }

    fn stack_operation<T: BusInterface>(&mut self, bus: &mut T, op: Operation)
        requires
            old(bus).mem().len() == ADDRESS_SPACE,
        ensures
            final(bus).mem().len() == ADDRESS_SPACE,
            (final(self)@, final(bus).mem()) == stack_step(old(self)@, op, old(bus).mem()),
    {
        proof {
            reveal(stack_step);
        }
        match op {
            Operation::Pha => {
                self.push_stack(bus, self.registers.accumulator);
            },
            Operation::Php => {
                let status = self.processor_status.as_byte() | BREAK | UNUSED;
                self.push_stack(bus, status);
            },
            Operation::Pla => {
                let v = self.pull_stack(bus);
                self.registers.accumulator = v;
                self.processor_status.update_zero_neg_flags(v);
            },
            _ => {
                let pulled = self.pull_stack(bus);
                self.restore_status(pulled);
            },
        }
    }

    /// Bits 4 and 5 of the status register keep their values; the others come from `pulled`.
    fn restore_status(&mut self, pulled: u8)
        ensures
            final(self)@ == (CpuState { p: restored_status(old(self)@.p, pulled), ..old(self)@ }),
    {
        let status = (pulled & 0xCF) | (self.processor_status.as_byte() & 0x30);
        self.processor_status = ProcessorStatus::from(status);
    }

    fn apply_read(&mut self, op: Operation, v: u8)
        ensures
            final(self)@ == apply_read(old(self)@, op, v),
    {
        match op {
            Operation::Lda => {
                self.registers.accumulator = v;
                self.processor_status.update_zero_neg_flags(v);
            },
            Operation::Ldx => {
                self.registers.x = v;
                self.processor_status.update_zero_neg_flags(v);
            },
            Operation::Ldy => {
                self.registers.y = v;
                self.processor_status.update_zero_neg_flags(v);
            },
            Operation::And => {
                self.registers.accumulator = self.registers.accumulator & v;
                self.processor_status.update_zero_neg_flags(self.registers.accumulator);
            },
            Operation::Ora => {
                self.registers.accumulator = self.registers.accumulator | v;
                self.processor_status.update_zero_neg_flags(self.registers.accumulator);
            },
            Operation::Eor => {
                self.registers.accumulator = self.registers.accumulator ^ v;
                self.processor_status.update_zero_neg_flags(self.registers.accumulator);
            },
            Operation::Adc => self.add_with_carry(v),
            Operation::Sbc => self.subtract_with_carry(v),
            Operation::Cmp => self.processor_status.update_flags_with_compare(
                self.registers.accumulator,
                v,
            ),
            Operation::Cpx => self.processor_status.update_flags_with_compare(self.registers.x, v),
            Operation::Cpy => self.processor_status.update_flags_with_compare(self.registers.y, v),
            Operation::Bit => self.bit_test(v),
            _ => {},
        }
    }

    /// The new value of a read-modify-write operation on `val`; the flags change with it.
    fn modify_value(&mut self, op: Operation, val: u8) -> (r: u8)
        ensures
            r == modify(op, val, old(self)@.p).0,
            final(self)@ == (CpuState { p: modify(op, val, old(self)@.p).1, ..old(self)@ }),
    {
        match op {
            Operation::Asl => self.arithmetic_shift_left(val),
            Operation::Lsr => self.logical_shift_right(val),
            Operation::Rol => self.rotate_left(val),
            Operation::Ror => self.rotate_right(val),
            Operation::Inc => {
                let r = val.wrapping_add(1);
                self.processor_status.update_zero_neg_flags(r);
                r
            },
            Operation::Dec => {
                let r = val.wrapping_sub(1);
                self.processor_status.update_zero_neg_flags(r);
                r
            },
            _ => val,
        }
    }

    fn branch_condition(&self, op: Operation) -> (r: bool)
        ensures
            r == branch_taken(op, self@.p),
    {
        let status = &self.processor_status;
        match op {
            Operation::Bcc => !status.carry(),
            Operation::Bcs => status.carry(),
            Operation::Bne => !status.zero(),
            Operation::Beq => status.zero(),
            Operation::Bpl => !status.negative(),
            Operation::Bmi => status.negative(),
            Operation::Bvc => !status.overflow(),
            Operation::Bvs => status.overflow(),
            _ => false,
        }
    }

    /// Moves PC by the two's-complement offset `byte`.
    fn branch_by_offset(&mut self, byte: u8)
        ensures
            final(self)@ == (CpuState {
                pc: addr_add(old(self)@.pc, signed_offset(byte)),
                ..old(self)@
            }),
    {
        let pc = self.registers.program_counter;
        self.registers.program_counter = if byte < 128 {
            pc.wrapping_add(byte as u16)
        } else {
            pc.wrapping_sub(256 - byte as u16)
        };
    }

    fn apply_implied(&mut self, op: Operation, opcode: u8)
        ensures
            final(self)@ == apply_implied(old(self)@, op, opcode),
    {
        proof {
            reveal(apply_implied);
        }
        match op {
            Operation::Clc => self.processor_status.clr_carry(),
            Operation::Sec => self.processor_status.set_carry(),
            Operation::Cld => self.processor_status.clr_decimal(),
            Operation::Sed => self.processor_status.set_decimal(),
            Operation::Cli => self.processor_status.clr_interrupt_disable(),
            Operation::Sei => self.processor_status.set_interrupt_disable(),
            Operation::Clv => self.processor_status.clr_overflow(),
            Operation::Inx => {
                self.registers.x = self.registers.x.wrapping_add(1);
                self.processor_status.update_zero_neg_flags(self.registers.x);
            },
            Operation::Iny => {
                self.registers.y = self.registers.y.wrapping_add(1);
                self.processor_status.update_zero_neg_flags(self.registers.y);
            },
            Operation::Dex => {
                self.registers.x = self.registers.x.wrapping_sub(1);
                self.processor_status.update_zero_neg_flags(self.registers.x);
            },
            Operation::Dey => {
                self.registers.y = self.registers.y.wrapping_sub(1);
                self.processor_status.update_zero_neg_flags(self.registers.y);
            },
            Operation::Tax => {
                self.registers.x = self.registers.accumulator;
                self.processor_status.update_zero_neg_flags(self.registers.x);
            },
            Operation::Tay => {
                self.registers.y = self.registers.accumulator;
                self.processor_status.update_zero_neg_flags(self.registers.y);
            },
            Operation::Txa => {
                self.registers.accumulator = self.registers.x;
                self.processor_status.update_zero_neg_flags(self.registers.accumulator);
            },
            Operation::Tya => {
                self.registers.accumulator = self.registers.y;
                self.processor_status.update_zero_neg_flags(self.registers.accumulator);
            },
            Operation::Tsx => {
                self.registers.x = self.registers.stack_pointer;
                self.processor_status.update_zero_neg_flags(self.registers.x);
            },
            Operation::Txs => {
                self.registers.stack_pointer = self.registers.x;
            },
            Operation::Undefined => {
                self.uncaught_opcode_debug = Some(opcode);
            },
            _ => {},
        }
    }

    pub fn get_pc(&self) -> (r: u16)
        ensures
            r == self@.pc,
    {
        self.registers.program_counter
    }

    /// Moves the program counter to `addr`; nothing else changes.
    pub fn set_pc(&mut self, addr: u16)
        ensures
            final(self)@ == (CpuState { pc: addr, ..old(self)@ }),
    {
        self.registers.program_counter = addr;
    }

    pub fn get_x(&self) -> (r: u8)
        ensures
            r == self@.x,
    {
        self.registers.x
    }

    pub fn get_y(&self) -> (r: u8)
        ensures
            r == self@.y,
    {
        self.registers.y
    }

    pub fn get_a(&self) -> (r: u8)
        ensures
            r == self@.a,
    {
        self.registers.accumulator
    }

    pub fn get_status(&self) -> (r: u8)
        ensures
            r == self@.p,
    {
        self.processor_status.as_byte()
    }

    /// The opcode byte of the last instruction fetched.
    pub fn get_opcode(&self) -> (r: u8)
        ensures
            r == self@.opcode,
    {
        self.current_opcode
    }

    pub fn get_stack_pointer(&self) -> (r: u8)
        ensures
            r == self@.sp,
    {
        self.registers.stack_pointer
    }
}

} // verus!
