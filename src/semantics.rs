use vstd::prelude::*;
use crate::alu::{adc, asl, bit, lsr, rol, ror, sbc};
use crate::bus_interface::{addr_add, byte_at};
use crate::opcodes::{decode_spec, Instruction, Mode, Operation};
use crate::processor_status::{
    compare, flag_set, with_flag, zero_neg, BREAK, CARRY, DECIMAL, INTERRUPT_DISABLE, NEGATIVE, OVERFLOW,
    UNUSED, ZERO,
};

verus! {

/// Vector of the non-maskable interrupt.
pub const NMI_VECTOR: u16 = 0xFFFA;
/// Vector read by `reset`.
pub const RESET_VECTOR: u16 = 0xFFFC;
/// Vector of IRQ and BRK.
pub const IRQ_VECTOR: u16 = 0xFFFE;

/// `(a + b) mod 256`.
pub open spec fn add8(a: u8, b: int) -> u8 {
    ((a + b) % 256) as u8
}

/// The little-endian 16-bit word made of `lo` and `hi`.
pub open spec fn word_of(lo: u8, hi: u8) -> u16 {
    (hi * 256 + lo) as u16
}

/// The address of stack slot `sp`, in page 1.
pub open spec fn stack_addr(sp: u8) -> u16 {
    (0x100 + sp) as u16
}

/// Everything the processor holds, as plain values.
pub struct CpuState {
    pub pc: u16,
    pub a: u8,
    pub x: u8,
    pub y: u8,
    pub sp: u8,
    /// The status byte.
    pub p: u8,
    /// The opcode byte of the last instruction fetched.
    pub opcode: u8,
    /// The cycle count of the last instruction.
    pub cycles: u8,
    pub irq: bool,
    pub nmi: bool,
    pub halted: bool,
    pub break_seen: bool,
    /// The last opcode byte that decoded to no documented instruction, if any.
    pub uncaught: Option<u8>,
    /// The program counter at the start of the last instruction.
    pub last_pc: u16,
    /// The number of instructions fetched, modulo 2^32.
    pub executed: u32,
}

/// The cause of an interrupt sequence.
pub enum InterruptType {
    Brk,
    Irq,
    Nmi,
}

/// The status byte an interrupt sequence pushes: bit 5 set, bit 4 set for BRK and clear
/// for IRQ and NMI.
pub open spec fn pushed_status(p: u8, kind: InterruptType) -> u8 {
    match kind {
        InterruptType::Brk => p | BREAK | UNUSED,
        _ => (p & !BREAK) | UNUSED,
    }
}

pub open spec fn vector_of(kind: InterruptType) -> u16 {
    match kind {
        InterruptType::Nmi => NMI_VECTOR,
        _ => IRQ_VECTOR,
    }
}

/// Writes `byte` at the stack slot and moves the stack pointer down.
pub open spec fn push(s: CpuState, mem: Seq<u8>, byte: u8) -> (CpuState, Seq<u8>) {
    (CpuState { sp: add8(s.sp, -1), ..s }, mem.update(stack_addr(s.sp) as int, byte))
}

/// Moves the stack pointer up and reads the byte at the new slot.
pub open spec fn pull(s: CpuState, mem: Seq<u8>) -> (CpuState, u8) {
    let sp = add8(s.sp, 1);
    (CpuState { sp: sp, ..s }, byte_at(mem, stack_addr(sp)))
}

/// The 16-bit vector stored at `v` and `v + 1`.
pub open spec fn vector_at(mem: Seq<u8>, v: u16) -> u16 {
    word_of(byte_at(mem, v), byte_at(mem, addr_add(v, 1)))
}

/// The interrupt sequence: push PC high, PC low, then the status byte; set I; load PC
/// from the vector.
pub open spec fn interrupt(s: CpuState, mem: Seq<u8>, kind: InterruptType) -> (CpuState, Seq<u8>) {
    let (s1, m1) = push(s, mem, (s.pc / 256) as u8);
    let (s2, m2) = push(s1, m1, (s.pc % 256) as u8);
    let (s3, m3) = push(s2, m2, pushed_status(s.p, kind));
    (
        CpuState {
            p: with_flag(s.p, INTERRUPT_DISABLE, true),
            pc: vector_at(m3, vector_of(kind)),
            ..s3
        },
        m3,
    )
}

/// The state of a processor just created.
pub open spec fn power_on() -> CpuState {
    CpuState {
        pc: 0,
        a: 0,
        x: 0,
        y: 0,
        sp: 0xFF,
        p: 0x30,
        opcode: 0xD8,
        cycles: 0,
        irq: false,
        nmi: false,
        halted: false,
        break_seen: true,
        uncaught: None,
        last_pc: 0,
        executed: 0,
    }
}

/// `s` with one more cycle if `penalty` holds.
pub open spec fn bump(s: CpuState, penalty: bool) -> CpuState {
    if penalty {
        CpuState { cycles: add8(s.cycles, 1), ..s }
    } else {
        s
    }
}

/// `base + index`, and whether the low byte of that sum plus `index` passes 0xFF.
pub open spec fn indexed(base: u16, index: u8) -> (u16, bool) {
    let addr = addr_add(base, index as int);
    (addr, addr % 256 + index > 255)
}

/// The effective address of a memory operand in `mode`, and whether the mode's extra
/// cycle applies. Indirect modes read their pointer within the zero page, and `JMP (abs)`
/// reads the high byte of its target from the same page as the low byte.
pub open spec fn resolve(s: CpuState, mode: Mode, b1: u8, b2: u8, mem: Seq<u8>) -> (u16, bool) {
    match mode {
        Mode::ZeroPage => (b1 as u16, false),
        Mode::ZeroPageX => (add8(b1, s.x as int) as u16, b1 + s.x > 255),
        Mode::ZeroPageY => (add8(b1, s.y as int) as u16, b1 + s.y > 255),
        Mode::Absolute => (word_of(b1, b2), false),
        Mode::AbsoluteX => indexed(word_of(b1, b2), s.x),
        Mode::AbsoluteY => indexed(word_of(b1, b2), s.y),
        Mode::IndexedIndirect => {
            let zp = add8(b1, s.x as int);
            (
                word_of(byte_at(mem, zp as u16), byte_at(mem, add8(zp, 1) as u16)),
                b1 + s.x > 255,
            )
        },
        Mode::IndirectIndexed => {
            let lo = byte_at(mem, b1 as u16);
            let hi = byte_at(mem, add8(b1, 1) as u16);
            (addr_add(word_of(lo, hi), s.y as int), lo + s.y > 255)
        },
        Mode::Indirect => (
            word_of(byte_at(mem, word_of(b1, b2)), byte_at(mem, word_of(add8(b1, 1), b2))),
            false,
        ),
        _ => (0, false),
    }
}

/// The operand value: the byte after the opcode for an immediate, else the byte at the
/// effective address; with the cycle the address may have added.
pub open spec fn operand(s: CpuState, mode: Mode, b1: u8, b2: u8, mem: Seq<u8>) -> (CpuState, u8) {
    if mode is Immediate {
        (s, b1)
    } else {
        let (addr, penalty) = resolve(s, mode, b1, b2, mem);
        (bump(s, penalty), byte_at(mem, addr))
    }
}

/// What an operation that reads one operand `v` does to the registers and flags.
pub open spec fn apply_read(s: CpuState, op: Operation, v: u8) -> CpuState {
    match op {
        Operation::Lda => CpuState { a: v, p: zero_neg(s.p, v), ..s },
        Operation::Ldx => CpuState { x: v, p: zero_neg(s.p, v), ..s },
        Operation::Ldy => CpuState { y: v, p: zero_neg(s.p, v), ..s },
        Operation::And => CpuState { a: s.a & v, p: zero_neg(s.p, s.a & v), ..s },
        Operation::Ora => CpuState { a: s.a | v, p: zero_neg(s.p, s.a | v), ..s },
        Operation::Eor => CpuState { a: s.a ^ v, p: zero_neg(s.p, s.a ^ v), ..s },
        Operation::Adc => CpuState { a: adc(s.a, v, s.p).0, p: adc(s.a, v, s.p).1, ..s },
        Operation::Sbc => CpuState { a: sbc(s.a, v, s.p).0, p: sbc(s.a, v, s.p).1, ..s },
        Operation::Cmp => CpuState { p: compare(s.p, s.a, v), ..s },
        Operation::Cpx => CpuState { p: compare(s.p, s.x, v), ..s },
        Operation::Cpy => CpuState { p: compare(s.p, s.y, v), ..s },
        Operation::Bit => CpuState { p: bit(s.p, s.a, v), ..s },
        _ => s,
    }
}

/// The new value and status byte of a read-modify-write operation on `v`.
pub open spec fn modify(op: Operation, v: u8, p: u8) -> (u8, u8) {
    match op {
        Operation::Asl => asl(v, p),
        Operation::Lsr => lsr(v, p),
        Operation::Rol => rol(v, p),
        Operation::Ror => ror(v, p),
        Operation::Inc => (add8(v, 1), zero_neg(p, add8(v, 1))),
        Operation::Dec => (add8(v, -1), zero_neg(p, add8(v, -1))),
        _ => (v, p),
    }
}

/// Whether a conditional branch is taken under the status byte `p`.
pub open spec fn branch_taken(op: Operation, p: u8) -> bool {
    match op {
        Operation::Bcc => !flag_set(p, CARRY),
        Operation::Bcs => flag_set(p, CARRY),
        Operation::Bne => !flag_set(p, ZERO),
        Operation::Beq => flag_set(p, ZERO),
        Operation::Bpl => !flag_set(p, NEGATIVE),
        Operation::Bmi => flag_set(p, NEGATIVE),
        Operation::Bvc => !flag_set(p, OVERFLOW),
        Operation::Bvs => flag_set(p, OVERFLOW),
        _ => false,
    }
}

/// The byte `b` read as a two's-complement offset.
pub open spec fn signed_offset(b: u8) -> int {
    if b < 128 {
        b as int
    } else {
        b - 256
    }
}

/// The status byte after PLP or RTI pulls `pulled`: bits 4 and 5 keep their current values.
pub open spec fn restored_status(p: u8, pulled: u8) -> u8 {
    (pulled & 0xCF) | (p & 0x30)
}

/// What an operation with no operand does to the registers and flags.
#[verifier::opaque]
pub open spec fn apply_implied(s: CpuState, op: Operation, opcode: u8) -> CpuState {
    match op {
        Operation::Clc => CpuState { p: with_flag(s.p, CARRY, false), ..s },
        Operation::Sec => CpuState { p: with_flag(s.p, CARRY, true), ..s },
        Operation::Cld => CpuState { p: with_flag(s.p, DECIMAL, false), ..s },
        Operation::Sed => CpuState { p: with_flag(s.p, DECIMAL, true), ..s },
        Operation::Cli => CpuState { p: with_flag(s.p, INTERRUPT_DISABLE, false), ..s },
        Operation::Sei => CpuState { p: with_flag(s.p, INTERRUPT_DISABLE, true), ..s },
        Operation::Clv => CpuState { p: with_flag(s.p, OVERFLOW, false), ..s },
        Operation::Inx => CpuState { x: add8(s.x, 1), p: zero_neg(s.p, add8(s.x, 1)), ..s },
        Operation::Iny => CpuState { y: add8(s.y, 1), p: zero_neg(s.p, add8(s.y, 1)), ..s },
        Operation::Dex => CpuState { x: add8(s.x, -1), p: zero_neg(s.p, add8(s.x, -1)), ..s },
        Operation::Dey => CpuState { y: add8(s.y, -1), p: zero_neg(s.p, add8(s.y, -1)), ..s },
        Operation::Tax => CpuState { x: s.a, p: zero_neg(s.p, s.a), ..s },
        Operation::Tay => CpuState { y: s.a, p: zero_neg(s.p, s.a), ..s },
        Operation::Txa => CpuState { a: s.x, p: zero_neg(s.p, s.x), ..s },
        Operation::Tya => CpuState { a: s.y, p: zero_neg(s.p, s.y), ..s },
        Operation::Tsx => CpuState { x: s.sp, p: zero_neg(s.p, s.sp), ..s },
        Operation::Txs => CpuState { sp: s.x, ..s },
        Operation::Undefined => CpuState { uncaught: Some(opcode), ..s },
        _ => s,
    }
}

/// Loads, logic, arithmetic, compares and BIT.
#[verifier::opaque]
pub open spec fn read_step(s: CpuState, op: Operation, mode: Mode, b1: u8, b2: u8, mem: Seq<u8>) -> CpuState {
    let (s1, v) = operand(s, mode, b1, b2, mem);
    apply_read(s1, op, v)
}

/// Shifts, rotates, INC and DEC, on A or on the byte at the effective address.
#[verifier::opaque]
pub open spec fn modify_step(
    s: CpuState,
    op: Operation,
    mode: Mode,
    b1: u8,
    b2: u8,
    mem: Seq<u8>,
) -> (CpuState, Seq<u8>) {
    if mode is Accumulator {
        (CpuState { a: modify(op, s.a, s.p).0, p: modify(op, s.a, s.p).1, ..s }, mem)
    } else {
        let (addr, penalty) = resolve(s, mode, b1, b2, mem);
        let (r, p) = modify(op, byte_at(mem, addr), s.p);
        (CpuState { p: p, ..bump(s, penalty) }, mem.update(addr as int, r))
    }
}

/// STA, STX, STY: the register's value is written at the effective address.
#[verifier::opaque]
pub open spec fn store_step(
    s: CpuState,
    op: Operation,
    mode: Mode,
    b1: u8,
    b2: u8,
    mem: Seq<u8>,
) -> (CpuState, Seq<u8>) {
    let (addr, penalty) = resolve(s, mode, b1, b2, mem);
    let v = match op {
        Operation::Sta => s.a,
        Operation::Stx => s.x,
        _ => s.y,
    };
    (bump(s, penalty), mem.update(addr as int, v))
}

/// A conditional branch: when taken, one more cycle and PC moves by the signed offset.
#[verifier::opaque]
pub open spec fn branch_step(s: CpuState, op: Operation, b1: u8) -> CpuState {
    if branch_taken(op, s.p) {
        CpuState { cycles: add8(s.cycles, 1), pc: addr_add(s.pc, signed_offset(b1)), ..s }
    } else {
        s
    }
}

/// JSR: PC - 1 is pushed, high byte first, and PC becomes the target.
#[verifier::opaque]
pub open spec fn jsr_step(s: CpuState, b1: u8, b2: u8, mem: Seq<u8>) -> (CpuState, Seq<u8>) {
    let ret = addr_add(s.pc, -1);
    let (s1, m1) = push(s, mem, (ret / 256) as u8);
    let (s2, m2) = push(s1, m1, (ret % 256) as u8);
    (CpuState { pc: word_of(b1, b2), ..s2 }, m2)
}

/// RTS: PC low then high are pulled, and PC is one past that.
#[verifier::opaque]
pub open spec fn rts_step(s: CpuState, mem: Seq<u8>) -> CpuState {
    let (s1, lo) = pull(s, mem);
    let (s2, hi) = pull(s1, mem);
    CpuState { pc: addr_add(word_of(lo, hi), 1), ..s2 }
}

/// RTI: the status (bits 4 and 5 kept), then PC low and high are pulled.
#[verifier::opaque]
pub open spec fn rti_step(s: CpuState, mem: Seq<u8>) -> CpuState {
    let (s1, status) = pull(s, mem);
    let (s2, lo) = pull(s1, mem);
    let (s3, hi) = pull(s2, mem);
    CpuState { p: restored_status(s.p, status), pc: word_of(lo, hi), ..s3 }
}

/// BRK: the interrupt sequence with bit 4 set in the pushed status.
#[verifier::opaque]
pub open spec fn brk_step(s: CpuState, mem: Seq<u8>) -> (CpuState, Seq<u8>) {
    (CpuState { break_seen: true, ..interrupt(s, mem, InterruptType::Brk).0 }, interrupt(s, mem, InterruptType::Brk).1)
}

/// PHA, PHP, PLA, PLP. PHP pushes the status with bits 4 and 5 set.
#[verifier::opaque]
pub open spec fn stack_step(s: CpuState, op: Operation, mem: Seq<u8>) -> (CpuState, Seq<u8>) {
    match op {
        Operation::Pha => push(s, mem, s.a),
        Operation::Php => push(s, mem, s.p | BREAK | UNUSED),
        Operation::Pla => {
            let (s1, v) = pull(s, mem);
            (CpuState { a: v, p: zero_neg(s.p, v), ..s1 }, mem)
        },
        _ => {
            let (s1, v) = pull(s, mem);
            (CpuState { p: restored_status(s.p, v), ..s1 }, mem)
        },
    }
}

/// Executes the decoded instruction `ins`, whose bytes are `b0 b1 b2`, on a state whose
/// PC already points past it.
#[verifier::opaque]
pub open spec fn execute(
    s: CpuState,
    ins: Instruction,
    b0: u8,
    b1: u8,
    b2: u8,
    mem: Seq<u8>,
) -> (CpuState, Seq<u8>) {
    let op = ins.operation;
    let mode = ins.mode;
    match op {
        Operation::Lda | Operation::Ldx | Operation::Ldy | Operation::And | Operation::Ora
        | Operation::Eor | Operation::Adc | Operation::Sbc | Operation::Cmp | Operation::Cpx
        | Operation::Cpy | Operation::Bit => (read_step(s, op, mode, b1, b2, mem), mem),
        Operation::Asl | Operation::Lsr | Operation::Rol | Operation::Ror | Operation::Inc
        | Operation::Dec => modify_step(s, op, mode, b1, b2, mem),
        Operation::Sta | Operation::Stx | Operation::Sty => store_step(s, op, mode, b1, b2, mem),
        Operation::Bcc | Operation::Bcs | Operation::Bne | Operation::Beq | Operation::Bpl
        | Operation::Bmi | Operation::Bvc | Operation::Bvs => (branch_step(s, op, b1), mem),
        Operation::Jmp => {
            let target = if mode is Indirect {
                resolve(s, mode, b1, b2, mem).0
            } else {
                word_of(b1, b2)
            };
            (CpuState { pc: target, ..s }, mem)
        },
        Operation::Jsr => jsr_step(s, b1, b2, mem),
        Operation::Rts => (rts_step(s, mem), mem),
        Operation::Rti => (rti_step(s, mem), mem),
        Operation::Brk => brk_step(s, mem),
        Operation::Pha | Operation::Php | Operation::Pla | Operation::Plp => stack_step(s, op, mem),
        _ => (apply_implied(s, op, b0), mem),
    }
}

/// The state after fetching the instruction at PC: opcode and cycle count recorded,
/// PC moved past the instruction.
pub open spec fn fetched(s: CpuState, b0: u8) -> CpuState {
    let ins = decode_spec(b0);
    CpuState {
        opcode: b0,
        executed: ((s.executed + 1) % 0x1_0000_0000) as u32,
        cycles: ins.cycles,
        last_pc: s.pc,
        pc: addr_add(s.pc, ins.spec_length() as int),
        ..s
    }
}

/// Whether an IRQ is raised and not masked by I.
pub open spec fn irq_pending(s: CpuState) -> bool {
    s.irq && !flag_set(s.p, INTERRUPT_DISABLE)
}

/// One `tick`: nothing while halted; else a pending NMI, then an unmasked IRQ, is
/// serviced; else the instruction at PC is fetched and executed.
#[verifier::opaque]
pub open spec fn step(s: CpuState, mem: Seq<u8>) -> (CpuState, Seq<u8>) {
    if s.halted {
        (s, mem)
    } else if s.nmi {
        interrupt(s, mem, InterruptType::Nmi)
    } else if irq_pending(s) {
        interrupt(s, mem, InterruptType::Irq)
    } else {
        let b0 = byte_at(mem, s.pc);
        let b1 = byte_at(mem, addr_add(s.pc, 1));
        let b2 = byte_at(mem, addr_add(s.pc, 2));
        execute(fetched(s, b0), decode_spec(b0), b0, b1, b2, mem)
    }
}

/// Pushing a byte and pulling it again gives the byte back and leaves the registers as
/// they were, the stack pointer included.
pub proof fn lemma_push_pull(s: CpuState, mem: Seq<u8>, byte: u8)
    requires
        mem.len() == 0x10000,
    ensures
        pull(push(s, mem, byte).0, push(s, mem, byte).1) == (s, byte),
{
    let (s1, m1) = push(s, mem, byte);
    assert(add8(add8(s.sp, -1), 1) == s.sp);
    assert(CpuState { sp: s.sp, ..s1 } == s);
}

proof fn lemma_decode_stack_opcodes()
    ensures
        decode_spec(0x00) == (Instruction { operation: Operation::Brk, mode: Mode::Implied, cycles: 7 }),
        decode_spec(0x08) == (Instruction { operation: Operation::Php, mode: Mode::Implied, cycles: 3 }),
        decode_spec(0x20) == (Instruction { operation: Operation::Jsr, mode: Mode::Absolute, cycles: 6 }),
        decode_spec(0x60) == (Instruction { operation: Operation::Rts, mode: Mode::Implied, cycles: 6 }),
{
}

/// With no interrupt to service, a tick executes the instruction at PC.
proof fn lemma_step_executes(s: CpuState, mem: Seq<u8>)
    requires
        !s.halted,
        !s.nmi,
        !irq_pending(s),
    ensures
        step(s, mem) == execute(
            fetched(s, byte_at(mem, s.pc)),
            decode_spec(byte_at(mem, s.pc)),
            byte_at(mem, s.pc),
            byte_at(mem, addr_add(s.pc, 1)),
            byte_at(mem, addr_add(s.pc, 2)),
            mem,
        ),
{
    reveal(step);
}

/// What `execute` does for the instructions that push or pull a return address or status.
proof fn lemma_execute_control(s: CpuState, ins: Instruction, b0: u8, b1: u8, b2: u8, mem: Seq<u8>)
    ensures
        ins.operation is Jsr ==> execute(s, ins, b0, b1, b2, mem) == jsr_step(s, b1, b2, mem),
        ins.operation is Rts ==> execute(s, ins, b0, b1, b2, mem) == (rts_step(s, mem), mem),
        ins.operation is Brk ==> execute(s, ins, b0, b1, b2, mem) == brk_step(s, mem),
        ins.operation is Php ==> execute(s, ins, b0, b1, b2, mem) == stack_step(
            s,
            Operation::Php,
            mem,
        ),
{
    reveal(execute);
}

/// A JSR followed, on the next tick, by an RTS at its target returns to the instruction
/// after the JSR with the stack pointer restored.
pub proof fn lemma_jsr_then_rts(s: CpuState, mem: Seq<u8>)
    requires
        mem.len() == 0x10000,
        !s.halted,
        !s.nmi,
        !irq_pending(s),
        byte_at(mem, s.pc) == 0x20,
        byte_at(step(s, mem).1, step(s, mem).0.pc) == 0x60,
    ensures
        step(step(s, mem).0, step(s, mem).1).0.pc == addr_add(s.pc, 3),
        step(step(s, mem).0, step(s, mem).1).0.sp == s.sp,
{
    lemma_decode_stack_opcodes();
    lemma_step_executes(s, mem);
    let b1 = byte_at(mem, addr_add(s.pc, 1));
    let b2 = byte_at(mem, addr_add(s.pc, 2));
    let f = fetched(s, 0x20);
    lemma_execute_control(f, decode_spec(0x20), 0x20, b1, b2, mem);
    assert(f.pc == addr_add(s.pc, 3));
    let (s1, m1) = jsr_step(f, b1, b2, mem);
    assert(step(s, mem) == (s1, m1));
    reveal(jsr_step);
    assert(!s1.halted && !s1.nmi && !irq_pending(s1));
    lemma_step_executes(s1, m1);
    lemma_execute_control(
        fetched(s1, 0x60),
        decode_spec(0x60),
        0x60,
        byte_at(m1, addr_add(s1.pc, 1)),
        byte_at(m1, addr_add(s1.pc, 2)),
        m1,
    );
    assert(step(s1, m1) == (rts_step(fetched(s1, 0x60), m1), m1));
    reveal(rts_step);
    let ret = addr_add(f.pc, -1);
    let hi_slot = stack_addr(s.sp);
    let lo_slot = stack_addr(add8(s.sp, -1));
    assert(hi_slot != lo_slot);
    assert(byte_at(m1, lo_slot) == (ret % 256) as u8);
    assert(byte_at(m1, hi_slot) == (ret / 256) as u8);
    assert(word_of((ret % 256) as u8, (ret / 256) as u8) == ret);
    assert(add8(add8(add8(add8(s.sp, -1), -1), 1), 1) == s.sp);
    assert(add8(add8(add8(s.sp, -1), -1), 1) == add8(s.sp, -1));
}

/// The tick pushes a status byte: it services an interrupt or executes BRK or PHP.
pub open spec fn pushes_status(s: CpuState, mem: Seq<u8>) -> bool {
    !s.halted && (s.nmi || irq_pending(s) || byte_at(mem, s.pc) == 0x00 || byte_at(mem, s.pc)
        == 0x08)
}

/// The status byte that the interrupt sequence pushes is the last byte it writes.
proof fn lemma_interrupt_pushes_status(s: CpuState, mem: Seq<u8>, kind: InterruptType)
    requires
        mem.len() == 0x10000,
    ensures
        byte_at(interrupt(s, mem, kind).1, stack_addr(add8(interrupt(s, mem, kind).0.sp, 1)))
            == pushed_status(s.p, kind),
        pushed_status(s.p, kind) & UNUSED != 0,
{
    let p = s.p;
    assert((p | 0x10u8 | 0x20u8) & 0x20u8 != 0 && ((p & !0x10u8) | 0x20u8) & 0x20u8 != 0)
        by (bit_vector);
    assert(add8(add8(add8(add8(s.sp, -1), -1), -1), 1) == add8(add8(s.sp, -1), -1));
}

/// A status byte that a tick pushes, the last byte pushed, has bit 5 set.
pub proof fn lemma_pushed_status_bit5(s: CpuState, mem: Seq<u8>)
    requires
        mem.len() == 0x10000,
        pushes_status(s, mem),
    ensures
        byte_at(step(s, mem).1, stack_addr(add8(step(s, mem).0.sp, 1))) & UNUSED != 0,
{
    lemma_decode_stack_opcodes();
    if s.nmi {
        reveal(step);
        lemma_interrupt_pushes_status(s, mem, InterruptType::Nmi);
    } else if irq_pending(s) {
        reveal(step);
        lemma_interrupt_pushes_status(s, mem, InterruptType::Irq);
    } else {
        let b0 = byte_at(mem, s.pc);
        let f = fetched(s, b0);
        lemma_step_executes(s, mem);
        lemma_execute_control(
            f,
            decode_spec(b0),
            b0,
            byte_at(mem, addr_add(s.pc, 1)),
            byte_at(mem, addr_add(s.pc, 2)),
            mem,
        );
        if b0 == 0x00 {
            reveal(brk_step);
            lemma_interrupt_pushes_status(f, mem, InterruptType::Brk);
        } else {
            reveal(stack_step);
            assert((f.p | BREAK | UNUSED) & UNUSED != 0) by {
                let p = f.p;
                assert((p | 0x10u8 | 0x20u8) & 0x20u8 != 0) by (bit_vector);
            }
            assert(add8(add8(f.sp, -1), 1) == f.sp);
        }
    }
}

} // verus!
