use vstd::prelude::*;
use crate::addressing_modes::{AddrMode, Operand, fetch_spec, get_spec, set_spec, get_word_spec, resolve_spec};
use crate::cpu::{Cpu, CpuMemory, vector_spec, flag, with_flag, with_nz, add_cycles, push_spec, pop_spec, irq_spec, set_flag, get_flag, update_nz, FLAG_CARRY, FLAG_ZERO, FLAG_INTERRUPT_DISABLE, FLAG_DECIMAL, FLAG_BREAK, FLAG_UNUSED, FLAG_OVERFLOW, FLAG_SIGN};
use crate::memory_controller::{MemoryPtr, wrap16};

verus! {

/// The official 6502 operations.
#[derive(Clone, Copy, PartialEq, Eq, Structural, Debug)]
pub enum Op {
    Adc, And, Asl, Bcc, Bcs, Beq, Bit, Bmi, Bne, Bpl, Brk, Bvc, Bvs, Clc, Cld, Cli, Clv, Cmp, Cpx,
    Cpy, Dec, Dex, Dey, Eor, Inc, Inx, Iny, Jmp, Jsr, Lda, Ldx, Ldy, Lsr, Nop, Ora, Pha, Php,
    Pla, Plp, Rol, Ror, Rti, Rts, Sbc, Sec, Sed, Sei, Sta, Stx, Sty, Tax, Tay, Tsx, Txa, Txs,
    Tya,
}

/// An opcode once decoded: what it does and where its operand is.
#[derive(Clone, Copy, PartialEq, Eq, Structural, Debug)]
pub struct Instruction {
    pub op: Op,
    pub mode: AddrMode,
}

/// The CPU registers that operations name.
#[derive(Clone, Copy, PartialEq, Eq, Structural, Debug)]
pub enum Register {
    A,
    X,
    Y,
    S,
}

pub open spec fn reg_value(cpu: Cpu, r: Register) -> u8 {
    match r {
        Register::A => cpu.accumulator,
        Register::X => cpu.x,
        Register::Y => cpu.y,
        Register::S => cpu.stack_pointer,
    }
}

pub open spec fn with_reg(cpu: Cpu, r: Register, v: u8) -> Cpu {
    match r {
        Register::A => Cpu { accumulator: v, ..cpu },
        Register::X => Cpu { x: v, ..cpu },
        Register::Y => Cpu { y: v, ..cpu },
        Register::S => Cpu { stack_pointer: v, ..cpu },
    }
}

pub open spec fn carry_in(p: u8) -> int {
    if flag(p, FLAG_CARRY) { 1 } else { 0 }
}

/// A byte taken as a two's-complement offset.
pub open spec fn signed(v: u8) -> int {
    if v < 128 { v as int } else { v - 256 }
}

/// The flags that PLP and RTI install from a pulled byte: U set, B clear.
pub open spec fn pulled_flags(v: u8) -> u8 {
    with_flag(with_flag(v, FLAG_UNUSED, true), FLAG_BREAK, false)
}

/// What an operation leaves: the CPU, the bus and, for a jump, its target.
pub open spec fn done<M: CpuMemory>(cpu: Cpu, mem: M::V) -> (Cpu, M::V, Option<u16>) {
    (cpu, mem, None)
}

pub open spec fn adc_spec<M: CpuMemory>(cpu: Cpu, mem: M::V, operand: Operand) -> (Cpu, M::V, Option<u16>) {
    let (m1, v) = get_spec::<M>(cpu, mem, operand);
    let a = cpu.accumulator;
    let sum = a + v + carry_in(cpu.flags);
    let r = (sum % 256) as u8;
    let p = with_flag(
        with_flag(with_nz(cpu.flags, r), FLAG_OVERFLOW, (a < 128) == (v < 128) && (r < 128) != (a < 128)),
        FLAG_CARRY,
        sum > 255,
    );
    done::<M>(Cpu { accumulator: r, flags: p, ..cpu }, m1)
}

pub open spec fn sbc_spec<M: CpuMemory>(cpu: Cpu, mem: M::V, operand: Operand) -> (Cpu, M::V, Option<u16>) {
    let (m1, v) = get_spec::<M>(cpu, mem, operand);
    let a = cpu.accumulator;
    let d = a - v - (1 - carry_in(cpu.flags));
    let r = (d % 256) as u8;
    let p = with_flag(
        with_flag(
            with_flag(with_flag(cpu.flags, FLAG_ZERO, r == 0), FLAG_SIGN, r >= 128),
            FLAG_OVERFLOW,
            (a < 128) != (v < 128) && (r < 128) != (a < 128),
        ),
        FLAG_CARRY,
        d >= 0,
    );
    done::<M>(Cpu { accumulator: r, flags: p, ..cpu }, m1)
}

/// The three bitwise operations on A.
#[derive(Clone, Copy, PartialEq, Eq, Structural, Debug)]
pub enum Logic {
    And,
    Or,
    Xor,
}

pub open spec fn logic_value(l: Logic, a: u8, v: u8) -> u8 {
    match l {
        Logic::And => a & v,
        Logic::Or => a | v,
        Logic::Xor => a ^ v,
    }
}

pub open spec fn logic_spec<M: CpuMemory>(cpu: Cpu, mem: M::V, operand: Operand, l: Logic) -> (Cpu, M::V, Option<u16>) {
    let (m1, v) = get_spec::<M>(cpu, mem, operand);
    let r = logic_value(l, cpu.accumulator, v);
    done::<M>(Cpu { accumulator: r, flags: with_nz(cpu.flags, r), ..cpu }, m1)
}

pub open spec fn bit_spec<M: CpuMemory>(cpu: Cpu, mem: M::V, operand: Operand) -> (Cpu, M::V, Option<u16>) {
    let (m1, v) = get_spec::<M>(cpu, mem, operand);
    let p = with_flag(
        with_flag(with_flag(cpu.flags, FLAG_SIGN, v >= 128), FLAG_OVERFLOW, v & 0x40 != 0),
        FLAG_ZERO,
        v & cpu.accumulator == 0,
    );
    done::<M>(Cpu { flags: p, ..cpu }, m1)
}

/// The four shifts and rotates.
#[derive(Clone, Copy, PartialEq, Eq, Structural, Debug)]
pub enum Shift {
    Asl,
    Lsr,
    Rol,
    Ror,
}

/// The byte a shift produces from `v` with carry-in `c`.
pub open spec fn shift_value(s: Shift, v: u8, c: int) -> u8 {
    match s {
        Shift::Asl => ((v * 2) % 256) as u8,
        Shift::Lsr => (v / 2) as u8,
        Shift::Rol => ((v * 2 + c) % 256) as u8,
        Shift::Ror => (v / 2 + c * 128) as u8,
    }
}

/// The bit a shift moves out into C.
pub open spec fn shift_carry(s: Shift, v: u8) -> bool {
    match s {
        Shift::Asl | Shift::Rol => v >= 128,
        Shift::Lsr | Shift::Ror => v % 2 == 1,
    }
}

pub open spec fn shift_spec<M: CpuMemory>(cpu: Cpu, mem: M::V, operand: Operand, s: Shift) -> (Cpu, M::V, Option<u16>) {
    let (m1, v) = get_spec::<M>(cpu, mem, operand);
    let r = shift_value(s, v, carry_in(cpu.flags));
    let p = with_nz(with_flag(cpu.flags, FLAG_CARRY, shift_carry(s, v)), r);
    let (c2, m2) = set_spec::<M>(Cpu { flags: p, ..cpu }, m1, operand, r);
    done::<M>(c2, m2)
}

/// INC and DEC on memory: `delta` is 1 or 255.
pub open spec fn step_memory_spec<M: CpuMemory>(cpu: Cpu, mem: M::V, operand: Operand, delta: u8) -> (Cpu, M::V, Option<u16>) {
    let (m1, v) = get_spec::<M>(cpu, mem, operand);
    let r = ((v + delta) % 256) as u8;
    let (c2, m2) = set_spec::<M>(Cpu { flags: with_nz(cpu.flags, r), ..cpu }, m1, operand, r);
    done::<M>(c2, m2)
}

/// INX, INY, DEX, DEY: `delta` is 1 or 255.
pub open spec fn step_register_spec<M: CpuMemory>(cpu: Cpu, mem: M::V, reg: Register, delta: u8) -> (Cpu, M::V, Option<u16>) {
    let r = ((reg_value(cpu, reg) + delta) % 256) as u8;
    done::<M>(Cpu { flags: with_nz(cpu.flags, r), ..with_reg(cpu, reg, r) }, mem)
}

pub open spec fn compare_spec<M: CpuMemory>(cpu: Cpu, mem: M::V, operand: Operand, reg: Register) -> (Cpu, M::V, Option<u16>) {
    let (m1, v) = get_spec::<M>(cpu, mem, operand);
    let x = reg_value(cpu, reg);
    let p = with_flag(
        with_flag(with_flag(cpu.flags, FLAG_CARRY, x >= v), FLAG_ZERO, x == v),
        FLAG_SIGN,
        (x - v) % 256 >= 128,
    );
    done::<M>(Cpu { flags: p, ..cpu }, m1)
}

/// A branch whose condition held: the target is relative to the byte after
/// the branch; it costs one cycle, and one more into another page.
pub open spec fn branch_spec<M: CpuMemory>(cpu: Cpu, mem: M::V) -> (Cpu, M::V, Option<u16>) {
    let (m1, off) = fetch_spec::<M>(cpu, mem, 1);
    let next = wrap16(cpu.program_counter.0 + 2);
    let dest = wrap16(next + signed(off));
    let extra = if next / 256 != dest / 256 { 2int } else { 1int };
    (Cpu { cycle_count: add_cycles(cpu.cycle_count, extra), ..cpu }, m1, Some(dest))
}

pub open spec fn cond_branch_spec<M: CpuMemory>(cpu: Cpu, mem: M::V, mask: u8, when_set: bool) -> (Cpu, M::V, Option<u16>) {
    if flag(cpu.flags, mask) == when_set {
        branch_spec::<M>(cpu, mem)
    } else {
        done::<M>(cpu, mem)
    }
}

pub open spec fn set_flag_spec<M: CpuMemory>(cpu: Cpu, mem: M::V, mask: u8, v: bool) -> (Cpu, M::V, Option<u16>) {
    done::<M>(Cpu { flags: with_flag(cpu.flags, mask, v), ..cpu }, mem)
}

pub open spec fn load_spec<M: CpuMemory>(cpu: Cpu, mem: M::V, operand: Operand, reg: Register) -> (Cpu, M::V, Option<u16>) {
    let (m1, v) = get_spec::<M>(cpu, mem, operand);
    done::<M>(Cpu { flags: with_nz(cpu.flags, v), ..with_reg(cpu, reg, v) }, m1)
}

pub open spec fn store_spec<M: CpuMemory>(cpu: Cpu, mem: M::V, operand: Operand, reg: Register) -> (Cpu, M::V, Option<u16>) {
    let (c1, m1) = set_spec::<M>(cpu, mem, operand, reg_value(cpu, reg));
    done::<M>(c1, m1)
}

/// TAX, TAY, TSX, TXA, TYA copy a register and set N and Z; TXS sets no flag.
pub open spec fn transfer_spec<M: CpuMemory>(cpu: Cpu, mem: M::V, src: Register, dst: Register) -> (Cpu, M::V, Option<u16>) {
    let v = reg_value(cpu, src);
    if dst == Register::S {
        done::<M>(with_reg(cpu, dst, v), mem)
    } else {
        done::<M>(Cpu { flags: with_nz(cpu.flags, v), ..with_reg(cpu, dst, v) }, mem)
    }
}

pub open spec fn jmp_spec<M: CpuMemory>(cpu: Cpu, mem: M::V, operand: Operand) -> (Cpu, M::V, Option<u16>) {
    let (m1, w) = get_word_spec::<M>(mem, operand);
    (cpu, m1, Some(w))
}

/// JSR pushes the address of its own last byte, high byte first.
pub open spec fn jsr_spec<M: CpuMemory>(cpu: Cpu, mem: M::V, operand: Operand) -> (Cpu, M::V, Option<u16>) {
    let ret = wrap16(cpu.program_counter.0 + 2);
    let (c1, m1) = push_spec::<M>(cpu, mem, (ret / 256) as u8);
    let (c2, m2) = push_spec::<M>(c1, m1, (ret % 256) as u8);
    let (m3, w) = get_word_spec::<M>(m2, operand);
    (c2, m3, Some(w))
}

pub open spec fn rts_spec<M: CpuMemory>(cpu: Cpu, mem: M::V) -> (Cpu, M::V, Option<u16>) {
    let (c1, m1, lo) = pop_spec::<M>(cpu, mem);
    let (c2, m2, hi) = pop_spec::<M>(c1, m1);
    (c2, m2, Some(wrap16(hi * 256 + lo + 1)))
}

pub open spec fn rti_spec<M: CpuMemory>(cpu: Cpu, mem: M::V) -> (Cpu, M::V, Option<u16>) {
    let (c1, m1, p) = pop_spec::<M>(cpu, mem);
    let (c2, m2, lo) = pop_spec::<M>(Cpu { flags: pulled_flags(p), ..c1 }, m1);
    let (c3, m3, hi) = pop_spec::<M>(c2, m2);
    (c3, m3, Some((hi * 256 + lo) as u16))
}

pub open spec fn pha_spec<M: CpuMemory>(cpu: Cpu, mem: M::V) -> (Cpu, M::V, Option<u16>) {
    let (c1, m1) = push_spec::<M>(cpu, mem, cpu.accumulator);
    done::<M>(c1, m1)
}

/// PHP pushes P with B set.
pub open spec fn php_spec<M: CpuMemory>(cpu: Cpu, mem: M::V) -> (Cpu, M::V, Option<u16>) {
    let (c1, m1) = push_spec::<M>(cpu, mem, with_flag(cpu.flags, FLAG_BREAK, true));
    done::<M>(c1, m1)
}

pub open spec fn pla_spec<M: CpuMemory>(cpu: Cpu, mem: M::V) -> (Cpu, M::V, Option<u16>) {
    let (c1, m1, v) = pop_spec::<M>(cpu, mem);
    done::<M>(Cpu { accumulator: v, flags: with_nz(c1.flags, v), ..c1 }, m1)
}

pub open spec fn plp_spec<M: CpuMemory>(cpu: Cpu, mem: M::V) -> (Cpu, M::V, Option<u16>) {
    let (c1, m1, v) = pop_spec::<M>(cpu, mem);
    done::<M>(Cpu { flags: pulled_flags(v), ..c1 }, m1)
}

/// BRK: a software interrupt. It pushes the address two bytes past the
/// opcode, then P with B set, sets I and jumps through the IRQ vector.
pub open spec fn brk_spec<M: CpuMemory>(cpu: Cpu, mem: M::V) -> (Cpu, M::V, Option<u16>) {
    let ret = wrap16(cpu.program_counter.0 + 2);
    let (c1, m1) = push_spec::<M>(cpu, mem, (ret / 256) as u8);
    let (c2, m2) = push_spec::<M>(c1, m1, (ret % 256) as u8);
    let (c3, m3) = push_spec::<M>(c2, m2, with_flag(with_flag(c2.flags, FLAG_BREAK, true), FLAG_UNUSED, true));
    let (m4, target) = vector_spec::<M>(m3, 0xfffe);
    (Cpu { flags: with_flag(c3.flags, FLAG_INTERRUPT_DISABLE, true), ..c3 }, m4, Some(target))
}

/// What each operation does to the CPU and the bus, given its resolved operand.
pub open spec fn op_spec<M: CpuMemory>(op: Op, cpu: Cpu, mem: M::V, operand: Operand) -> (Cpu, M::V, Option<u16>) {
    match op {
        Op::Adc => adc_spec::<M>(cpu, mem, operand),
        Op::Sbc => sbc_spec::<M>(cpu, mem, operand),
        Op::And => logic_spec::<M>(cpu, mem, operand, Logic::And),
        Op::Ora => logic_spec::<M>(cpu, mem, operand, Logic::Or),
        Op::Eor => logic_spec::<M>(cpu, mem, operand, Logic::Xor),
        Op::Bit => bit_spec::<M>(cpu, mem, operand),
        Op::Asl => shift_spec::<M>(cpu, mem, operand, Shift::Asl),
        Op::Lsr => shift_spec::<M>(cpu, mem, operand, Shift::Lsr),
        Op::Rol => shift_spec::<M>(cpu, mem, operand, Shift::Rol),
        Op::Ror => shift_spec::<M>(cpu, mem, operand, Shift::Ror),
        Op::Inc => step_memory_spec::<M>(cpu, mem, operand, 1),
        Op::Dec => step_memory_spec::<M>(cpu, mem, operand, 255),
        Op::Inx => step_register_spec::<M>(cpu, mem, Register::X, 1),
        Op::Iny => step_register_spec::<M>(cpu, mem, Register::Y, 1),
        Op::Dex => step_register_spec::<M>(cpu, mem, Register::X, 255),
        Op::Dey => step_register_spec::<M>(cpu, mem, Register::Y, 255),
        Op::Cmp => compare_spec::<M>(cpu, mem, operand, Register::A),
        Op::Cpx => compare_spec::<M>(cpu, mem, operand, Register::X),
        Op::Cpy => compare_spec::<M>(cpu, mem, operand, Register::Y),
        Op::Bcc => cond_branch_spec::<M>(cpu, mem, FLAG_CARRY, false),
        Op::Bcs => cond_branch_spec::<M>(cpu, mem, FLAG_CARRY, true),
        Op::Bne => cond_branch_spec::<M>(cpu, mem, FLAG_ZERO, false),
        Op::Beq => cond_branch_spec::<M>(cpu, mem, FLAG_ZERO, true),
        Op::Bpl => cond_branch_spec::<M>(cpu, mem, FLAG_SIGN, false),
        Op::Bmi => cond_branch_spec::<M>(cpu, mem, FLAG_SIGN, true),
        Op::Bvc => cond_branch_spec::<M>(cpu, mem, FLAG_OVERFLOW, false),
        Op::Bvs => cond_branch_spec::<M>(cpu, mem, FLAG_OVERFLOW, true),
        Op::Clc => set_flag_spec::<M>(cpu, mem, FLAG_CARRY, false),
        Op::Sec => set_flag_spec::<M>(cpu, mem, FLAG_CARRY, true),
        Op::Cli => set_flag_spec::<M>(cpu, mem, FLAG_INTERRUPT_DISABLE, false),
        Op::Sei => set_flag_spec::<M>(cpu, mem, FLAG_INTERRUPT_DISABLE, true),
        Op::Cld => set_flag_spec::<M>(cpu, mem, FLAG_DECIMAL, false),
        Op::Sed => set_flag_spec::<M>(cpu, mem, FLAG_DECIMAL, true),
        Op::Clv => set_flag_spec::<M>(cpu, mem, FLAG_OVERFLOW, false),
        Op::Lda => load_spec::<M>(cpu, mem, operand, Register::A),
        Op::Ldx => load_spec::<M>(cpu, mem, operand, Register::X),
        Op::Ldy => load_spec::<M>(cpu, mem, operand, Register::Y),
        Op::Sta => store_spec::<M>(cpu, mem, operand, Register::A),
        Op::Stx => store_spec::<M>(cpu, mem, operand, Register::X),
        Op::Sty => store_spec::<M>(cpu, mem, operand, Register::Y),
        Op::Tax => transfer_spec::<M>(cpu, mem, Register::A, Register::X),
        Op::Tay => transfer_spec::<M>(cpu, mem, Register::A, Register::Y),
        Op::Tsx => transfer_spec::<M>(cpu, mem, Register::S, Register::X),
        Op::Txa => transfer_spec::<M>(cpu, mem, Register::X, Register::A),
        Op::Tya => transfer_spec::<M>(cpu, mem, Register::Y, Register::A),
        Op::Txs => transfer_spec::<M>(cpu, mem, Register::X, Register::S),
        Op::Jmp => jmp_spec::<M>(cpu, mem, operand),
        Op::Jsr => jsr_spec::<M>(cpu, mem, operand),
        Op::Rts => rts_spec::<M>(cpu, mem),
        Op::Rti => rti_spec::<M>(cpu, mem),
        Op::Pha => pha_spec::<M>(cpu, mem),
        Op::Php => php_spec::<M>(cpu, mem),
        Op::Pla => pla_spec::<M>(cpu, mem),
        Op::Plp => plp_spec::<M>(cpu, mem),
        Op::Brk => brk_spec::<M>(cpu, mem),
        Op::Nop => done::<M>(cpu, mem),
    }
}

impl Op {
    /// The operation's own cycle cost, before its addressing mode's.
    pub open spec fn cycles_spec(self) -> u64 {
        match self {
            Op::Inc | Op::Dec | Op::Jsr => 4,
            Op::Rti | Op::Rts => 6,
            Op::Brk => 7,
            _ => 2,
        }
    }

    pub fn get_cycles(&self) -> (r: u64)
        ensures
            r == self.cycles_spec(),
    {
        match self {
            Op::Inc | Op::Dec | Op::Jsr => 4,
            Op::Rti | Op::Rts => 6,
            Op::Brk => 7,
            _ => 2,
        }
    }
}

/// One whole instruction after its opcode was fetched: the operand is worked
/// out, the operation runs, then PC moves past the instruction (or to the
/// jump target) and the cycle counter advances.
pub open spec fn instruction_spec<M: CpuMemory>(cpu: Cpu, mem: M::V, ins: Instruction) -> (Cpu, M::V) {
    let (m1, operand) = resolve_spec::<M>(cpu, mem, ins.mode);
    let (c2, m2, target) = op_spec::<M>(ins.op, cpu, m1, operand);
    let pc = match target {
        Some(t) => t,
        None => wrap16(c2.program_counter.0 + 1 + ins.mode.bytes_spec()),
    };
    (
        Cpu {
            program_counter: MemoryPtr(pc),
            cycle_count: add_cycles(c2.cycle_count, ins.op.cycles_spec() + ins.mode.cycles_spec()),
            ..c2
        },
        m2,
    )
}

/// The CPU and bus once a pending IRQ has been taken (when I allows).
pub open spec fn irq_stage<M: CpuMemory>(cpu: Cpu, mem: M::V) -> (Cpu, M::V) {
    if cpu.irq_requested { irq_spec::<M>(cpu, mem) } else { (cpu, mem) }
}

/// One call of `execute_next_instruction`: a pending IRQ is taken first (when
/// I allows), then the opcode at PC is fetched and run. The flag tells whether
/// the opcode was known; an unknown one changes nothing after the fetch.
pub open spec fn step_spec<M: CpuMemory>(cpu: Cpu, mem: M::V) -> (Cpu, M::V, bool) {
    let (c1, m1) = irq_stage::<M>(cpu, mem);
    let (m2, opcode) = M::read_result(m1, c1.program_counter.0);
    match decode_spec(opcode) {
        None => (c1, m2, false),
        Some(ins) => {
            let (c3, m3) = instruction_spec::<M>(c1, m2, ins);
            (Cpu { last_instruction: opcode, ..c3 }, m3, true)
        },
    }
}

/// The opcode table: the official 6502 opcodes.
pub open spec fn decode_spec(opcode: u8) -> Option<Instruction> {
    match opcode {
        0x00 => Some(Instruction { op: Op::Brk, mode: AddrMode::Implied }),
        0x69 => Some(Instruction { op: Op::Adc, mode: AddrMode::Immediate }),
        0x65 => Some(Instruction { op: Op::Adc, mode: AddrMode::ZeroPage }),
        0x75 => Some(Instruction { op: Op::Adc, mode: AddrMode::ZeroPageX }),
        0x6d => Some(Instruction { op: Op::Adc, mode: AddrMode::Absolute }),
        0x7d => Some(Instruction { op: Op::Adc, mode: AddrMode::AbsoluteX }),
        0x79 => Some(Instruction { op: Op::Adc, mode: AddrMode::AbsoluteY }),
        0x61 => Some(Instruction { op: Op::Adc, mode: AddrMode::IndirectX }),
        0x71 => Some(Instruction { op: Op::Adc, mode: AddrMode::IndirectY }),
        0x29 => Some(Instruction { op: Op::And, mode: AddrMode::Immediate }),
        0x25 => Some(Instruction { op: Op::And, mode: AddrMode::ZeroPage }),
        0x35 => Some(Instruction { op: Op::And, mode: AddrMode::ZeroPageX }),
        0x2d => Some(Instruction { op: Op::And, mode: AddrMode::Absolute }),
        0x3d => Some(Instruction { op: Op::And, mode: AddrMode::AbsoluteX }),
        0x39 => Some(Instruction { op: Op::And, mode: AddrMode::AbsoluteY }),
        0x21 => Some(Instruction { op: Op::And, mode: AddrMode::IndirectX }),
        0x31 => Some(Instruction { op: Op::And, mode: AddrMode::IndirectY }),
        0x0a => Some(Instruction { op: Op::Asl, mode: AddrMode::Accumulator }),
        0x06 => Some(Instruction { op: Op::Asl, mode: AddrMode::ZeroPage }),
        0x16 => Some(Instruction { op: Op::Asl, mode: AddrMode::ZeroPageX }),
        0x0e => Some(Instruction { op: Op::Asl, mode: AddrMode::Absolute }),
        0x1e => Some(Instruction { op: Op::Asl, mode: AddrMode::AbsoluteX }),
        0x90 => Some(Instruction { op: Op::Bcc, mode: AddrMode::Immediate }),
        0xb0 => Some(Instruction { op: Op::Bcs, mode: AddrMode::Immediate }),
        0xf0 => Some(Instruction { op: Op::Beq, mode: AddrMode::Immediate }),
        0x24 => Some(Instruction { op: Op::Bit, mode: AddrMode::ZeroPage }),
        0x2c => Some(Instruction { op: Op::Bit, mode: AddrMode::Absolute }),
        0x30 => Some(Instruction { op: Op::Bmi, mode: AddrMode::Immediate }),
        0xd0 => Some(Instruction { op: Op::Bne, mode: AddrMode::Immediate }),
        0x10 => Some(Instruction { op: Op::Bpl, mode: AddrMode::Immediate }),
        0x50 => Some(Instruction { op: Op::Bvc, mode: AddrMode::Immediate }),
        0x70 => Some(Instruction { op: Op::Bvs, mode: AddrMode::Immediate }),
        0x18 => Some(Instruction { op: Op::Clc, mode: AddrMode::Implied }),
        0xd8 => Some(Instruction { op: Op::Cld, mode: AddrMode::Implied }),
        0x58 => Some(Instruction { op: Op::Cli, mode: AddrMode::Implied }),
        0xb8 => Some(Instruction { op: Op::Clv, mode: AddrMode::Implied }),
        0xc9 => Some(Instruction { op: Op::Cmp, mode: AddrMode::Immediate }),
        0xc5 => Some(Instruction { op: Op::Cmp, mode: AddrMode::ZeroPage }),
        0xd5 => Some(Instruction { op: Op::Cmp, mode: AddrMode::ZeroPageX }),
        0xcd => Some(Instruction { op: Op::Cmp, mode: AddrMode::Absolute }),
        0xdd => Some(Instruction { op: Op::Cmp, mode: AddrMode::AbsoluteX }),
        0xd9 => Some(Instruction { op: Op::Cmp, mode: AddrMode::AbsoluteY }),
        0xc1 => Some(Instruction { op: Op::Cmp, mode: AddrMode::IndirectX }),
        0xd1 => Some(Instruction { op: Op::Cmp, mode: AddrMode::IndirectY }),
        0xe0 => Some(Instruction { op: Op::Cpx, mode: AddrMode::Immediate }),
        0xe4 => Some(Instruction { op: Op::Cpx, mode: AddrMode::ZeroPage }),
        0xec => Some(Instruction { op: Op::Cpx, mode: AddrMode::Absolute }),
        0xc0 => Some(Instruction { op: Op::Cpy, mode: AddrMode::Immediate }),
        0xc4 => Some(Instruction { op: Op::Cpy, mode: AddrMode::ZeroPage }),
        0xcc => Some(Instruction { op: Op::Cpy, mode: AddrMode::Absolute }),
        0xc6 => Some(Instruction { op: Op::Dec, mode: AddrMode::ZeroPage }),
        0xd6 => Some(Instruction { op: Op::Dec, mode: AddrMode::ZeroPageX }),
        0xce => Some(Instruction { op: Op::Dec, mode: AddrMode::Absolute }),
        0xde => Some(Instruction { op: Op::Dec, mode: AddrMode::AbsoluteX }),
        0xca => Some(Instruction { op: Op::Dex, mode: AddrMode::Implied }),
        0x88 => Some(Instruction { op: Op::Dey, mode: AddrMode::Implied }),
        0x49 => Some(Instruction { op: Op::Eor, mode: AddrMode::Immediate }),
        0x45 => Some(Instruction { op: Op::Eor, mode: AddrMode::ZeroPage }),
        0x55 => Some(Instruction { op: Op::Eor, mode: AddrMode::ZeroPageX }),
        0x4d => Some(Instruction { op: Op::Eor, mode: AddrMode::Absolute }),
        0x5d => Some(Instruction { op: Op::Eor, mode: AddrMode::AbsoluteX }),
        0x59 => Some(Instruction { op: Op::Eor, mode: AddrMode::AbsoluteY }),
        0x41 => Some(Instruction { op: Op::Eor, mode: AddrMode::IndirectX }),
        0x51 => Some(Instruction { op: Op::Eor, mode: AddrMode::IndirectY }),
        0xe6 => Some(Instruction { op: Op::Inc, mode: AddrMode::ZeroPage }),
        0xf6 => Some(Instruction { op: Op::Inc, mode: AddrMode::ZeroPageX }),
        0xee => Some(Instruction { op: Op::Inc, mode: AddrMode::Absolute }),
        0xfe => Some(Instruction { op: Op::Inc, mode: AddrMode::AbsoluteX }),
        0xe8 => Some(Instruction { op: Op::Inx, mode: AddrMode::Implied }),
        0xc8 => Some(Instruction { op: Op::Iny, mode: AddrMode::Implied }),
        0x4c => Some(Instruction { op: Op::Jmp, mode: AddrMode::ImmediateU16 }),
        0x6c => Some(Instruction { op: Op::Jmp, mode: AddrMode::AbsoluteU16 }),
        0x20 => Some(Instruction { op: Op::Jsr, mode: AddrMode::ImmediateU16 }),
        0xa9 => Some(Instruction { op: Op::Lda, mode: AddrMode::Immediate }),
        0xa5 => Some(Instruction { op: Op::Lda, mode: AddrMode::ZeroPage }),
        0xb5 => Some(Instruction { op: Op::Lda, mode: AddrMode::ZeroPageX }),
        0xad => Some(Instruction { op: Op::Lda, mode: AddrMode::Absolute }),
        0xbd => Some(Instruction { op: Op::Lda, mode: AddrMode::AbsoluteX }),
        0xb9 => Some(Instruction { op: Op::Lda, mode: AddrMode::AbsoluteY }),
        0xa1 => Some(Instruction { op: Op::Lda, mode: AddrMode::IndirectX }),
        0xb1 => Some(Instruction { op: Op::Lda, mode: AddrMode::IndirectY }),
        0xa2 => Some(Instruction { op: Op::Ldx, mode: AddrMode::Immediate }),
        0xa6 => Some(Instruction { op: Op::Ldx, mode: AddrMode::ZeroPage }),
        0xb6 => Some(Instruction { op: Op::Ldx, mode: AddrMode::ZeroPageY }),
        0xae => Some(Instruction { op: Op::Ldx, mode: AddrMode::Absolute }),
        0xbe => Some(Instruction { op: Op::Ldx, mode: AddrMode::AbsoluteY }),
        0xa0 => Some(Instruction { op: Op::Ldy, mode: AddrMode::Immediate }),
        0xa4 => Some(Instruction { op: Op::Ldy, mode: AddrMode::ZeroPage }),
        0xb4 => Some(Instruction { op: Op::Ldy, mode: AddrMode::ZeroPageX }),
        0xac => Some(Instruction { op: Op::Ldy, mode: AddrMode::Absolute }),
        0xbc => Some(Instruction { op: Op::Ldy, mode: AddrMode::AbsoluteX }),
        0x4a => Some(Instruction { op: Op::Lsr, mode: AddrMode::Accumulator }),
        0x46 => Some(Instruction { op: Op::Lsr, mode: AddrMode::ZeroPage }),
        0x56 => Some(Instruction { op: Op::Lsr, mode: AddrMode::ZeroPageX }),
        0x4e => Some(Instruction { op: Op::Lsr, mode: AddrMode::Absolute }),
        0x5e => Some(Instruction { op: Op::Lsr, mode: AddrMode::AbsoluteX }),
        0xea => Some(Instruction { op: Op::Nop, mode: AddrMode::Implied }),
        0x09 => Some(Instruction { op: Op::Ora, mode: AddrMode::Immediate }),
        0x05 => Some(Instruction { op: Op::Ora, mode: AddrMode::ZeroPage }),
        0x15 => Some(Instruction { op: Op::Ora, mode: AddrMode::ZeroPageX }),
        0x0d => Some(Instruction { op: Op::Ora, mode: AddrMode::Absolute }),
        0x1d => Some(Instruction { op: Op::Ora, mode: AddrMode::AbsoluteX }),
        0x19 => Some(Instruction { op: Op::Ora, mode: AddrMode::AbsoluteY }),
        0x01 => Some(Instruction { op: Op::Ora, mode: AddrMode::IndirectX }),
        0x11 => Some(Instruction { op: Op::Ora, mode: AddrMode::IndirectY }),
        0x48 => Some(Instruction { op: Op::Pha, mode: AddrMode::Implied }),
        0x08 => Some(Instruction { op: Op::Php, mode: AddrMode::Implied }),
        0x68 => Some(Instruction { op: Op::Pla, mode: AddrMode::Implied }),
        0x28 => Some(Instruction { op: Op::Plp, mode: AddrMode::Implied }),
        0x2a => Some(Instruction { op: Op::Rol, mode: AddrMode::Accumulator }),
        0x26 => Some(Instruction { op: Op::Rol, mode: AddrMode::ZeroPage }),
        0x36 => Some(Instruction { op: Op::Rol, mode: AddrMode::ZeroPageX }),
        0x2e => Some(Instruction { op: Op::Rol, mode: AddrMode::Absolute }),
        0x3e => Some(Instruction { op: Op::Rol, mode: AddrMode::AbsoluteX }),
        0x6a => Some(Instruction { op: Op::Ror, mode: AddrMode::Accumulator }),
        0x66 => Some(Instruction { op: Op::Ror, mode: AddrMode::ZeroPage }),
        0x76 => Some(Instruction { op: Op::Ror, mode: AddrMode::ZeroPageX }),
        0x6e => Some(Instruction { op: Op::Ror, mode: AddrMode::Absolute }),
        0x7e => Some(Instruction { op: Op::Ror, mode: AddrMode::AbsoluteX }),
        0x40 => Some(Instruction { op: Op::Rti, mode: AddrMode::Implied }),
        0x60 => Some(Instruction { op: Op::Rts, mode: AddrMode::Implied }),
        0xe9 => Some(Instruction { op: Op::Sbc, mode: AddrMode::Immediate }),
        0xe5 => Some(Instruction { op: Op::Sbc, mode: AddrMode::ZeroPage }),
        0xf5 => Some(Instruction { op: Op::Sbc, mode: AddrMode::ZeroPageX }),
        0xed => Some(Instruction { op: Op::Sbc, mode: AddrMode::Absolute }),
        0xfd => Some(Instruction { op: Op::Sbc, mode: AddrMode::AbsoluteX }),
        0xf9 => Some(Instruction { op: Op::Sbc, mode: AddrMode::AbsoluteY }),
        0xe1 => Some(Instruction { op: Op::Sbc, mode: AddrMode::IndirectX }),
        0xf1 => Some(Instruction { op: Op::Sbc, mode: AddrMode::IndirectY }),
        0x38 => Some(Instruction { op: Op::Sec, mode: AddrMode::Implied }),
        0xf8 => Some(Instruction { op: Op::Sed, mode: AddrMode::Implied }),
        0x78 => Some(Instruction { op: Op::Sei, mode: AddrMode::Implied }),
        0x85 => Some(Instruction { op: Op::Sta, mode: AddrMode::ZeroPage }),
        0x95 => Some(Instruction { op: Op::Sta, mode: AddrMode::ZeroPageX }),
        0x8d => Some(Instruction { op: Op::Sta, mode: AddrMode::Absolute }),
        0x9d => Some(Instruction { op: Op::Sta, mode: AddrMode::AbsoluteX }),
        0x99 => Some(Instruction { op: Op::Sta, mode: AddrMode::AbsoluteY }),
        0x81 => Some(Instruction { op: Op::Sta, mode: AddrMode::IndirectX }),
        0x91 => Some(Instruction { op: Op::Sta, mode: AddrMode::IndirectY }),
        0x86 => Some(Instruction { op: Op::Stx, mode: AddrMode::ZeroPage }),
        0x96 => Some(Instruction { op: Op::Stx, mode: AddrMode::ZeroPageY }),
        0x8e => Some(Instruction { op: Op::Stx, mode: AddrMode::Absolute }),
        0x84 => Some(Instruction { op: Op::Sty, mode: AddrMode::ZeroPage }),
        0x94 => Some(Instruction { op: Op::Sty, mode: AddrMode::ZeroPageX }),
        0x8c => Some(Instruction { op: Op::Sty, mode: AddrMode::Absolute }),
        0xaa => Some(Instruction { op: Op::Tax, mode: AddrMode::Accumulator }),
        0xa8 => Some(Instruction { op: Op::Tay, mode: AddrMode::Accumulator }),
        0xba => Some(Instruction { op: Op::Tsx, mode: AddrMode::Accumulator }),
        0x8a => Some(Instruction { op: Op::Txa, mode: AddrMode::Accumulator }),
        0x9a => Some(Instruction { op: Op::Txs, mode: AddrMode::Accumulator }),
        0x98 => Some(Instruction { op: Op::Tya, mode: AddrMode::Accumulator }),
        _ => None,
    }
}

/// Decodes an opcode byte.
pub fn decode(opcode: u8) -> (r: Option<Instruction>)
    ensures
        r == decode_spec(opcode),
{
    match opcode {
        0x00 => Some(Instruction { op: Op::Brk, mode: AddrMode::Implied }),
        0x69 => Some(Instruction { op: Op::Adc, mode: AddrMode::Immediate }),
        0x65 => Some(Instruction { op: Op::Adc, mode: AddrMode::ZeroPage }),
        0x75 => Some(Instruction { op: Op::Adc, mode: AddrMode::ZeroPageX }),
        0x6d => Some(Instruction { op: Op::Adc, mode: AddrMode::Absolute }),
        0x7d => Some(Instruction { op: Op::Adc, mode: AddrMode::AbsoluteX }),
        0x79 => Some(Instruction { op: Op::Adc, mode: AddrMode::AbsoluteY }),
        0x61 => Some(Instruction { op: Op::Adc, mode: AddrMode::IndirectX }),
        0x71 => Some(Instruction { op: Op::Adc, mode: AddrMode::IndirectY }),
        0x29 => Some(Instruction { op: Op::And, mode: AddrMode::Immediate }),
        0x25 => Some(Instruction { op: Op::And, mode: AddrMode::ZeroPage }),
        0x35 => Some(Instruction { op: Op::And, mode: AddrMode::ZeroPageX }),
        0x2d => Some(Instruction { op: Op::And, mode: AddrMode::Absolute }),
        0x3d => Some(Instruction { op: Op::And, mode: AddrMode::AbsoluteX }),
        0x39 => Some(Instruction { op: Op::And, mode: AddrMode::AbsoluteY }),
        0x21 => Some(Instruction { op: Op::And, mode: AddrMode::IndirectX }),
        0x31 => Some(Instruction { op: Op::And, mode: AddrMode::IndirectY }),
        0x0a => Some(Instruction { op: Op::Asl, mode: AddrMode::Accumulator }),
        0x06 => Some(Instruction { op: Op::Asl, mode: AddrMode::ZeroPage }),
        0x16 => Some(Instruction { op: Op::Asl, mode: AddrMode::ZeroPageX }),
        0x0e => Some(Instruction { op: Op::Asl, mode: AddrMode::Absolute }),
        0x1e => Some(Instruction { op: Op::Asl, mode: AddrMode::AbsoluteX }),
        0x90 => Some(Instruction { op: Op::Bcc, mode: AddrMode::Immediate }),
        0xb0 => Some(Instruction { op: Op::Bcs, mode: AddrMode::Immediate }),
        0xf0 => Some(Instruction { op: Op::Beq, mode: AddrMode::Immediate }),
        0x24 => Some(Instruction { op: Op::Bit, mode: AddrMode::ZeroPage }),
        0x2c => Some(Instruction { op: Op::Bit, mode: AddrMode::Absolute }),
        0x30 => Some(Instruction { op: Op::Bmi, mode: AddrMode::Immediate }),
        0xd0 => Some(Instruction { op: Op::Bne, mode: AddrMode::Immediate }),
        0x10 => Some(Instruction { op: Op::Bpl, mode: AddrMode::Immediate }),
        0x50 => Some(Instruction { op: Op::Bvc, mode: AddrMode::Immediate }),
        0x70 => Some(Instruction { op: Op::Bvs, mode: AddrMode::Immediate }),
        0x18 => Some(Instruction { op: Op::Clc, mode: AddrMode::Implied }),
        0xd8 => Some(Instruction { op: Op::Cld, mode: AddrMode::Implied }),
        0x58 => Some(Instruction { op: Op::Cli, mode: AddrMode::Implied }),
        0xb8 => Some(Instruction { op: Op::Clv, mode: AddrMode::Implied }),
        0xc9 => Some(Instruction { op: Op::Cmp, mode: AddrMode::Immediate }),
        0xc5 => Some(Instruction { op: Op::Cmp, mode: AddrMode::ZeroPage }),
        0xd5 => Some(Instruction { op: Op::Cmp, mode: AddrMode::ZeroPageX }),
        0xcd => Some(Instruction { op: Op::Cmp, mode: AddrMode::Absolute }),
        0xdd => Some(Instruction { op: Op::Cmp, mode: AddrMode::AbsoluteX }),
        0xd9 => Some(Instruction { op: Op::Cmp, mode: AddrMode::AbsoluteY }),
        0xc1 => Some(Instruction { op: Op::Cmp, mode: AddrMode::IndirectX }),
        0xd1 => Some(Instruction { op: Op::Cmp, mode: AddrMode::IndirectY }),
        0xe0 => Some(Instruction { op: Op::Cpx, mode: AddrMode::Immediate }),
        0xe4 => Some(Instruction { op: Op::Cpx, mode: AddrMode::ZeroPage }),
        0xec => Some(Instruction { op: Op::Cpx, mode: AddrMode::Absolute }),
        0xc0 => Some(Instruction { op: Op::Cpy, mode: AddrMode::Immediate }),
        0xc4 => Some(Instruction { op: Op::Cpy, mode: AddrMode::ZeroPage }),
        0xcc => Some(Instruction { op: Op::Cpy, mode: AddrMode::Absolute }),
        0xc6 => Some(Instruction { op: Op::Dec, mode: AddrMode::ZeroPage }),
        0xd6 => Some(Instruction { op: Op::Dec, mode: AddrMode::ZeroPageX }),
        0xce => Some(Instruction { op: Op::Dec, mode: AddrMode::Absolute }),
        0xde => Some(Instruction { op: Op::Dec, mode: AddrMode::AbsoluteX }),
        0xca => Some(Instruction { op: Op::Dex, mode: AddrMode::Implied }),
        0x88 => Some(Instruction { op: Op::Dey, mode: AddrMode::Implied }),
        0x49 => Some(Instruction { op: Op::Eor, mode: AddrMode::Immediate }),
        0x45 => Some(Instruction { op: Op::Eor, mode: AddrMode::ZeroPage }),
        0x55 => Some(Instruction { op: Op::Eor, mode: AddrMode::ZeroPageX }),
        0x4d => Some(Instruction { op: Op::Eor, mode: AddrMode::Absolute }),
        0x5d => Some(Instruction { op: Op::Eor, mode: AddrMode::AbsoluteX }),
        0x59 => Some(Instruction { op: Op::Eor, mode: AddrMode::AbsoluteY }),
        0x41 => Some(Instruction { op: Op::Eor, mode: AddrMode::IndirectX }),
        0x51 => Some(Instruction { op: Op::Eor, mode: AddrMode::IndirectY }),
        0xe6 => Some(Instruction { op: Op::Inc, mode: AddrMode::ZeroPage }),
        0xf6 => Some(Instruction { op: Op::Inc, mode: AddrMode::ZeroPageX }),
        0xee => Some(Instruction { op: Op::Inc, mode: AddrMode::Absolute }),
        0xfe => Some(Instruction { op: Op::Inc, mode: AddrMode::AbsoluteX }),
        0xe8 => Some(Instruction { op: Op::Inx, mode: AddrMode::Implied }),
        0xc8 => Some(Instruction { op: Op::Iny, mode: AddrMode::Implied }),
        0x4c => Some(Instruction { op: Op::Jmp, mode: AddrMode::ImmediateU16 }),
        0x6c => Some(Instruction { op: Op::Jmp, mode: AddrMode::AbsoluteU16 }),
        0x20 => Some(Instruction { op: Op::Jsr, mode: AddrMode::ImmediateU16 }),
        0xa9 => Some(Instruction { op: Op::Lda, mode: AddrMode::Immediate }),
        0xa5 => Some(Instruction { op: Op::Lda, mode: AddrMode::ZeroPage }),
        0xb5 => Some(Instruction { op: Op::Lda, mode: AddrMode::ZeroPageX }),
        0xad => Some(Instruction { op: Op::Lda, mode: AddrMode::Absolute }),
        0xbd => Some(Instruction { op: Op::Lda, mode: AddrMode::AbsoluteX }),
        0xb9 => Some(Instruction { op: Op::Lda, mode: AddrMode::AbsoluteY }),
        0xa1 => Some(Instruction { op: Op::Lda, mode: AddrMode::IndirectX }),
        0xb1 => Some(Instruction { op: Op::Lda, mode: AddrMode::IndirectY }),
        0xa2 => Some(Instruction { op: Op::Ldx, mode: AddrMode::Immediate }),
        0xa6 => Some(Instruction { op: Op::Ldx, mode: AddrMode::ZeroPage }),
        0xb6 => Some(Instruction { op: Op::Ldx, mode: AddrMode::ZeroPageY }),
        0xae => Some(Instruction { op: Op::Ldx, mode: AddrMode::Absolute }),
        0xbe => Some(Instruction { op: Op::Ldx, mode: AddrMode::AbsoluteY }),
        0xa0 => Some(Instruction { op: Op::Ldy, mode: AddrMode::Immediate }),
        0xa4 => Some(Instruction { op: Op::Ldy, mode: AddrMode::ZeroPage }),
        0xb4 => Some(Instruction { op: Op::Ldy, mode: AddrMode::ZeroPageX }),
        0xac => Some(Instruction { op: Op::Ldy, mode: AddrMode::Absolute }),
        0xbc => Some(Instruction { op: Op::Ldy, mode: AddrMode::AbsoluteX }),
        0x4a => Some(Instruction { op: Op::Lsr, mode: AddrMode::Accumulator }),
        0x46 => Some(Instruction { op: Op::Lsr, mode: AddrMode::ZeroPage }),
        0x56 => Some(Instruction { op: Op::Lsr, mode: AddrMode::ZeroPageX }),
        0x4e => Some(Instruction { op: Op::Lsr, mode: AddrMode::Absolute }),
        0x5e => Some(Instruction { op: Op::Lsr, mode: AddrMode::AbsoluteX }),
        0xea => Some(Instruction { op: Op::Nop, mode: AddrMode::Implied }),
        0x09 => Some(Instruction { op: Op::Ora, mode: AddrMode::Immediate }),
        0x05 => Some(Instruction { op: Op::Ora, mode: AddrMode::ZeroPage }),
        0x15 => Some(Instruction { op: Op::Ora, mode: AddrMode::ZeroPageX }),
        0x0d => Some(Instruction { op: Op::Ora, mode: AddrMode::Absolute }),
        0x1d => Some(Instruction { op: Op::Ora, mode: AddrMode::AbsoluteX }),
        0x19 => Some(Instruction { op: Op::Ora, mode: AddrMode::AbsoluteY }),
        0x01 => Some(Instruction { op: Op::Ora, mode: AddrMode::IndirectX }),
        0x11 => Some(Instruction { op: Op::Ora, mode: AddrMode::IndirectY }),
        0x48 => Some(Instruction { op: Op::Pha, mode: AddrMode::Implied }),
        0x08 => Some(Instruction { op: Op::Php, mode: AddrMode::Implied }),
        0x68 => Some(Instruction { op: Op::Pla, mode: AddrMode::Implied }),
        0x28 => Some(Instruction { op: Op::Plp, mode: AddrMode::Implied }),
        0x2a => Some(Instruction { op: Op::Rol, mode: AddrMode::Accumulator }),
        0x26 => Some(Instruction { op: Op::Rol, mode: AddrMode::ZeroPage }),
        0x36 => Some(Instruction { op: Op::Rol, mode: AddrMode::ZeroPageX }),
        0x2e => Some(Instruction { op: Op::Rol, mode: AddrMode::Absolute }),
        0x3e => Some(Instruction { op: Op::Rol, mode: AddrMode::AbsoluteX }),
        0x6a => Some(Instruction { op: Op::Ror, mode: AddrMode::Accumulator }),
        0x66 => Some(Instruction { op: Op::Ror, mode: AddrMode::ZeroPage }),
        0x76 => Some(Instruction { op: Op::Ror, mode: AddrMode::ZeroPageX }),
        0x6e => Some(Instruction { op: Op::Ror, mode: AddrMode::Absolute }),
        0x7e => Some(Instruction { op: Op::Ror, mode: AddrMode::AbsoluteX }),
        0x40 => Some(Instruction { op: Op::Rti, mode: AddrMode::Implied }),
        0x60 => Some(Instruction { op: Op::Rts, mode: AddrMode::Implied }),
        0xe9 => Some(Instruction { op: Op::Sbc, mode: AddrMode::Immediate }),
        0xe5 => Some(Instruction { op: Op::Sbc, mode: AddrMode::ZeroPage }),
        0xf5 => Some(Instruction { op: Op::Sbc, mode: AddrMode::ZeroPageX }),
        0xed => Some(Instruction { op: Op::Sbc, mode: AddrMode::Absolute }),
        0xfd => Some(Instruction { op: Op::Sbc, mode: AddrMode::AbsoluteX }),
        0xf9 => Some(Instruction { op: Op::Sbc, mode: AddrMode::AbsoluteY }),
        0xe1 => Some(Instruction { op: Op::Sbc, mode: AddrMode::IndirectX }),
        0xf1 => Some(Instruction { op: Op::Sbc, mode: AddrMode::IndirectY }),
        0x38 => Some(Instruction { op: Op::Sec, mode: AddrMode::Implied }),
        0xf8 => Some(Instruction { op: Op::Sed, mode: AddrMode::Implied }),
        0x78 => Some(Instruction { op: Op::Sei, mode: AddrMode::Implied }),
        0x85 => Some(Instruction { op: Op::Sta, mode: AddrMode::ZeroPage }),
        0x95 => Some(Instruction { op: Op::Sta, mode: AddrMode::ZeroPageX }),
        0x8d => Some(Instruction { op: Op::Sta, mode: AddrMode::Absolute }),
        0x9d => Some(Instruction { op: Op::Sta, mode: AddrMode::AbsoluteX }),
        0x99 => Some(Instruction { op: Op::Sta, mode: AddrMode::AbsoluteY }),
        0x81 => Some(Instruction { op: Op::Sta, mode: AddrMode::IndirectX }),
        0x91 => Some(Instruction { op: Op::Sta, mode: AddrMode::IndirectY }),
        0x86 => Some(Instruction { op: Op::Stx, mode: AddrMode::ZeroPage }),
        0x96 => Some(Instruction { op: Op::Stx, mode: AddrMode::ZeroPageY }),
        0x8e => Some(Instruction { op: Op::Stx, mode: AddrMode::Absolute }),
        0x84 => Some(Instruction { op: Op::Sty, mode: AddrMode::ZeroPage }),
        0x94 => Some(Instruction { op: Op::Sty, mode: AddrMode::ZeroPageX }),
        0x8c => Some(Instruction { op: Op::Sty, mode: AddrMode::Absolute }),
        0xaa => Some(Instruction { op: Op::Tax, mode: AddrMode::Accumulator }),
        0xa8 => Some(Instruction { op: Op::Tay, mode: AddrMode::Accumulator }),
        0xba => Some(Instruction { op: Op::Tsx, mode: AddrMode::Accumulator }),
        0x8a => Some(Instruction { op: Op::Txa, mode: AddrMode::Accumulator }),
        0x9a => Some(Instruction { op: Op::Txs, mode: AddrMode::Accumulator }),
        0x98 => Some(Instruction { op: Op::Tya, mode: AddrMode::Accumulator }),
        _ => None,
    }
}
/// `a` moved by the signed offset `v`, wrapping around the address space.
pub fn sum_u16_with_signed_u8(a: u16, v: u8) -> (r: u16)
    ensures
        r == wrap16(a + signed(v)),
{
    if v < 128 {
        a.wrapping_add(v as u16)
    } else {
        a.wrapping_sub(256 - v as u16)
    }
}

/// The most cycles one call of `execute_next_instruction` can take: an
/// interrupt entry, then BRK's three pushes, each of which might start a DMA.
pub const MAX_STEP_CYCLES: u64 = 6 * 513 + 13;

/// An opcode that is not in the table, and where it was fetched.
#[derive(Clone, Copy, PartialEq, Eq, Structural, Debug)]
pub struct UnknownOpcode {
    pub opcode: u8,
    pub address: u16,
}

impl Cpu {
    pub fn reg(&self, r: Register) -> (v: u8)
        ensures
            v == reg_value(*self, r),
    {
        match r {
            Register::A => self.accumulator,
            Register::X => self.x,
            Register::Y => self.y,
            Register::S => self.stack_pointer,
        }
    }

    pub fn set_reg(&mut self, r: Register, v: u8)
        ensures
            *final(self) == with_reg(*old(self), r, v),
    {
        match r {
            Register::A => self.accumulator = v,
            Register::X => self.x = v,
            Register::Y => self.y = v,
            Register::S => self.stack_pointer = v,
        }
    }

    /// Adds `n` cycles, stopping at the counter's largest value.
    pub fn advance_cycles(&mut self, n: u64)
        ensures
            *final(self) == (Cpu { cycle_count: add_cycles(old(self).cycle_count, n as int), ..*old(self) }),
    {
        if self.cycle_count > u64::MAX - n {
            self.cycle_count = u64::MAX;
        } else {
            self.cycle_count = self.cycle_count + n;
        }
    }

    pub fn adc<T: CpuMemory>(&mut self, mem: &mut T, operand: Operand) -> (r: Option<u16>)
        ensures
            (*final(self), final(mem)@, r) == adc_spec::<T>(*old(self), old(mem)@, operand),
    {
        let v = self.get(mem, operand);
        let a = self.accumulator;
        let c: u16 = if get_flag(self.flags, FLAG_CARRY) { 1 } else { 0 };
        let sum: u16 = a as u16 + v as u16 + c;
        let r = (sum % 256) as u8;
        let p = update_nz(self.flags, r);
        let p = set_flag(p, FLAG_OVERFLOW, (a < 128) == (v < 128) && (r < 128) != (a < 128));
        self.flags = set_flag(p, FLAG_CARRY, sum > 255);
        self.accumulator = r;
        None
    }

    pub fn sbc<T: CpuMemory>(&mut self, mem: &mut T, operand: Operand) -> (r: Option<u16>)
        ensures
            (*final(self), final(mem)@, r) == sbc_spec::<T>(*old(self), old(mem)@, operand),
    {
        let v = self.get(mem, operand);
        let a = self.accumulator;
        let borrow: u8 = if get_flag(self.flags, FLAG_CARRY) { 0 } else { 1 };
        let no_borrow = a as u16 >= v as u16 + borrow as u16;
        let r = a.wrapping_sub(v).wrapping_sub(borrow);
        proof {
            let d = a - v - borrow;
            assert(r == (d % 256) as u8);
        }
        let p = set_flag(self.flags, FLAG_ZERO, r == 0);
        let p = set_flag(p, FLAG_SIGN, r >= 128);
        let p = set_flag(p, FLAG_OVERFLOW, (a < 128) != (v < 128) && (r < 128) != (a < 128));
        self.flags = set_flag(p, FLAG_CARRY, no_borrow);
        self.accumulator = r;
        None
    }

    /// AND, ORA and EOR.
    pub fn logic<T: CpuMemory>(&mut self, mem: &mut T, operand: Operand, l: Logic) -> (r: Option<u16>)
        ensures
            (*final(self), final(mem)@, r) == logic_spec::<T>(*old(self), old(mem)@, operand, l),
    {
        let v = self.get(mem, operand);
        let r = match l {
            Logic::And => self.accumulator & v,
            Logic::Or => self.accumulator | v,
            Logic::Xor => self.accumulator ^ v,
        };
        self.accumulator = r;
        self.flags = update_nz(self.flags, r);
        None
    }

    pub fn bit<T: CpuMemory>(&mut self, mem: &mut T, operand: Operand) -> (r: Option<u16>)
        ensures
            (*final(self), final(mem)@, r) == bit_spec::<T>(*old(self), old(mem)@, operand),
    {
        let v = self.get(mem, operand);
        let p = set_flag(self.flags, FLAG_SIGN, v >= 128);
        let p = set_flag(p, FLAG_OVERFLOW, v & 0x40 != 0);
        self.flags = set_flag(p, FLAG_ZERO, v & self.accumulator == 0);
        None
    }

    /// ASL, LSR, ROL and ROR, on A or on memory.
    pub fn shift<T: CpuMemory>(&mut self, mem: &mut T, operand: Operand, s: Shift) -> (r: Option<u16>)
        ensures
            (*final(self), final(mem)@, r) == shift_spec::<T>(*old(self), old(mem)@, operand, s),
            final(self).cycle_count >= old(self).cycle_count,
            final(self).cycle_count <= old(self).cycle_count + 513,
    {
        let v = self.get(mem, operand);
        let c: u8 = if get_flag(self.flags, FLAG_CARRY) { 1 } else { 0 };
        let r: u8 = match s {
            Shift::Asl => ((v as u16 * 2) % 256) as u8,
            Shift::Lsr => v / 2,
            Shift::Rol => ((v as u16 * 2 + c as u16) % 256) as u8,
            Shift::Ror => v / 2 + c * 128,
        };
        let carry_out = match s {
            Shift::Asl | Shift::Rol => v >= 128,
            Shift::Lsr | Shift::Ror => v % 2 == 1,
        };
        self.flags = update_nz(set_flag(self.flags, FLAG_CARRY, carry_out), r);
        self.set(mem, operand, r);
        None
    }

    /// INC and DEC: adds `delta` (1 or 255) to a byte of memory.
    pub fn step_memory<T: CpuMemory>(&mut self, mem: &mut T, operand: Operand, delta: u8) -> (r: Option<u16>)
        ensures
            (*final(self), final(mem)@, r) == step_memory_spec::<T>(*old(self), old(mem)@, operand, delta),
            final(self).cycle_count >= old(self).cycle_count,
            final(self).cycle_count <= old(self).cycle_count + 513,
    {
        let v = self.get(mem, operand);
        let r = v.wrapping_add(delta);
        self.flags = update_nz(self.flags, r);
        self.set(mem, operand, r);
        None
    }

    /// INX, INY, DEX and DEY: adds `delta` (1 or 255) to X or Y.
    pub fn step_register<T: CpuMemory>(&mut self, mem: &mut T, reg: Register, delta: u8) -> (r: Option<u16>)
        ensures
            (*final(self), final(mem)@, r) == step_register_spec::<T>(*old(self), old(mem)@, reg, delta),
    {
        let r = self.reg(reg).wrapping_add(delta);
        self.set_reg(reg, r);
        self.flags = update_nz(self.flags, r);
        None
    }

    /// CMP, CPX and CPY.
    pub fn compare<T: CpuMemory>(&mut self, mem: &mut T, operand: Operand, reg: Register) -> (r: Option<u16>)
        ensures
            (*final(self), final(mem)@, r) == compare_spec::<T>(*old(self), old(mem)@, operand, reg),
    {
        let v = self.get(mem, operand);
        let x = self.reg(reg);
        let p = set_flag(self.flags, FLAG_CARRY, x >= v);
        let p = set_flag(p, FLAG_ZERO, x == v);
        self.flags = set_flag(p, FLAG_SIGN, x.wrapping_sub(v) >= 128);
        None
    }

    /// The eight conditional branches: taken when the flag of `mask` is `when_set`.
    pub fn branch<T: CpuMemory>(&mut self, mem: &mut T, mask: u8, when_set: bool) -> (r: Option<u16>)
        ensures
            (*final(self), final(mem)@, r) == cond_branch_spec::<T>(*old(self), old(mem)@, mask, when_set),
    {
        if get_flag(self.flags, mask) != when_set {
            return None;
        }
        let off = self.fetch(mem, 1);
        let next = self.program_counter.0.wrapping_add(2);
        let dest = sum_u16_with_signed_u8(next, off);
        let extra: u64 = if next / 256 != dest / 256 { 2 } else { 1 };
        self.advance_cycles(extra);
        Some(dest)
    }

    /// CLC, SEC, CLI, SEI, CLD, SED and CLV.
    pub fn flag_op<T: CpuMemory>(&mut self, mem: &mut T, mask: u8, v: bool) -> (r: Option<u16>)
        ensures
            (*final(self), final(mem)@, r) == set_flag_spec::<T>(*old(self), old(mem)@, mask, v),
    {
        self.flags = set_flag(self.flags, mask, v);
        None
    }

    /// LDA, LDX and LDY.
    pub fn load<T: CpuMemory>(&mut self, mem: &mut T, operand: Operand, reg: Register) -> (r: Option<u16>)
        ensures
            (*final(self), final(mem)@, r) == load_spec::<T>(*old(self), old(mem)@, operand, reg),
    {
        let v = self.get(mem, operand);
        self.set_reg(reg, v);
        self.flags = update_nz(self.flags, v);
        None
    }

    /// STA, STX and STY.
    pub fn store<T: CpuMemory>(&mut self, mem: &mut T, operand: Operand, reg: Register) -> (r: Option<u16>)
        ensures
            (*final(self), final(mem)@, r) == store_spec::<T>(*old(self), old(mem)@, operand, reg),
            final(self).cycle_count >= old(self).cycle_count,
            final(self).cycle_count <= old(self).cycle_count + 513,
    {
        let v = self.reg(reg);
        self.set(mem, operand, v);
        None
    }

    /// TAX, TAY, TSX, TXA, TYA and TXS.
    pub fn transfer<T: CpuMemory>(&mut self, mem: &mut T, src: Register, dst: Register) -> (r: Option<u16>)
        ensures
            (*final(self), final(mem)@, r) == transfer_spec::<T>(*old(self), old(mem)@, src, dst),
    {
        let v = self.reg(src);
        self.set_reg(dst, v);
        if dst != Register::S {
            self.flags = update_nz(self.flags, v);
        }
        None
    }

    pub fn jmp<T: CpuMemory>(&mut self, mem: &mut T, operand: Operand) -> (r: Option<u16>)
        ensures
            (*final(self), final(mem)@, r) == jmp_spec::<T>(*old(self), old(mem)@, operand),
    {
        let w = self.get_word(mem, operand);
        Some(w)
    }

    pub fn jsr<T: CpuMemory>(&mut self, mem: &mut T, operand: Operand) -> (r: Option<u16>)
        ensures
            (*final(self), final(mem)@, r) == jsr_spec::<T>(*old(self), old(mem)@, operand),
            final(self).cycle_count >= old(self).cycle_count,
            final(self).cycle_count <= old(self).cycle_count + 2 * 513,
    {
        let ret = self.program_counter.0.wrapping_add(2);
        self.stack_push(mem, (ret / 256) as u8);
        self.stack_push(mem, (ret % 256) as u8);
        let w = self.get_word(mem, operand);
        Some(w)
    }

    pub fn rts<T: CpuMemory>(&mut self, mem: &mut T) -> (r: Option<u16>)
        ensures
            (*final(self), final(mem)@, r) == rts_spec::<T>(*old(self), old(mem)@),
    {
        let lo = self.stack_pop(mem) as u16;
        let hi = self.stack_pop(mem) as u16;
        Some((hi * 256 + lo).wrapping_add(1))
    }

    pub fn rti<T: CpuMemory>(&mut self, mem: &mut T) -> (r: Option<u16>)
        ensures
            (*final(self), final(mem)@, r) == rti_spec::<T>(*old(self), old(mem)@),
    {
        let p = self.stack_pop(mem);
        self.flags = set_flag(set_flag(p, FLAG_UNUSED, true), FLAG_BREAK, false);
        let lo = self.stack_pop(mem) as u16;
        let hi = self.stack_pop(mem) as u16;
        Some(hi * 256 + lo)
    }

    pub fn pha<T: CpuMemory>(&mut self, mem: &mut T) -> (r: Option<u16>)
        ensures
            (*final(self), final(mem)@, r) == pha_spec::<T>(*old(self), old(mem)@),
            final(self).cycle_count >= old(self).cycle_count,
            final(self).cycle_count <= old(self).cycle_count + 513,
    {
        let a = self.accumulator;
        self.stack_push(mem, a);
        None
    }

    pub fn php<T: CpuMemory>(&mut self, mem: &mut T) -> (r: Option<u16>)
        ensures
            (*final(self), final(mem)@, r) == php_spec::<T>(*old(self), old(mem)@),
            final(self).cycle_count >= old(self).cycle_count,
            final(self).cycle_count <= old(self).cycle_count + 513,
    {
        let p = set_flag(self.flags, FLAG_BREAK, true);
        self.stack_push(mem, p);
        None
    }

    pub fn pla<T: CpuMemory>(&mut self, mem: &mut T) -> (r: Option<u16>)
        ensures
            (*final(self), final(mem)@, r) == pla_spec::<T>(*old(self), old(mem)@),
    {
        let v = self.stack_pop(mem);
        self.accumulator = v;
        self.flags = update_nz(self.flags, v);
        None
    }

    pub fn brk<T: CpuMemory>(&mut self, mem: &mut T) -> (r: Option<u16>)
        ensures
            (*final(self), final(mem)@, r) == brk_spec::<T>(*old(self), old(mem)@),
            final(self).cycle_count >= old(self).cycle_count,
            final(self).cycle_count <= old(self).cycle_count + 3 * 513,
    {
        let ret = self.program_counter.0.wrapping_add(2);
        self.stack_push(mem, (ret / 256) as u8);
        self.stack_push(mem, (ret % 256) as u8);
        let p = set_flag(set_flag(self.flags, FLAG_BREAK, true), FLAG_UNUSED, true);
        self.stack_push(mem, p);
        let target = self.read_vector(mem, 0xfffe);
        self.flags = set_flag(self.flags, FLAG_INTERRUPT_DISABLE, true);
        Some(target)
    }

    pub fn plp<T: CpuMemory>(&mut self, mem: &mut T) -> (r: Option<u16>)
        ensures
            (*final(self), final(mem)@, r) == plp_spec::<T>(*old(self), old(mem)@),
    {
        let v = self.stack_pop(mem);
        self.flags = set_flag(set_flag(v, FLAG_UNUSED, true), FLAG_BREAK, false);
        None
    }

    /// Runs one operation on its resolved operand; a jump hands back its target.
    #[verifier::spinoff_prover]
    #[verifier::rlimit(60)]
    pub fn operation<T: CpuMemory>(&mut self, mem: &mut T, op: Op, operand: Operand) -> (r: Option<u16>)
        ensures
            (*final(self), final(mem)@, r) == op_spec::<T>(op, *old(self), old(mem)@, operand),
            final(self).cycle_count >= old(self).cycle_count,
            final(self).cycle_count <= old(self).cycle_count + 3 * 513,
    {
        match op {
            Op::Adc => self.adc(mem, operand),
            Op::Sbc => self.sbc(mem, operand),
            Op::And => self.logic(mem, operand, Logic::And),
            Op::Ora => self.logic(mem, operand, Logic::Or),
            Op::Eor => self.logic(mem, operand, Logic::Xor),
            Op::Bit => self.bit(mem, operand),
            Op::Asl => self.shift(mem, operand, Shift::Asl),
            Op::Lsr => self.shift(mem, operand, Shift::Lsr),
            Op::Rol => self.shift(mem, operand, Shift::Rol),
            Op::Ror => self.shift(mem, operand, Shift::Ror),
            Op::Inc => self.step_memory(mem, operand, 1),
            Op::Dec => self.step_memory(mem, operand, 255),
            Op::Inx => self.step_register(mem, Register::X, 1),
            Op::Iny => self.step_register(mem, Register::Y, 1),
            Op::Dex => self.step_register(mem, Register::X, 255),
            Op::Dey => self.step_register(mem, Register::Y, 255),
            Op::Cmp => self.compare(mem, operand, Register::A),
            Op::Cpx => self.compare(mem, operand, Register::X),
            Op::Cpy => self.compare(mem, operand, Register::Y),
            Op::Bcc => self.branch(mem, FLAG_CARRY, false),
            Op::Bcs => self.branch(mem, FLAG_CARRY, true),
            Op::Bne => self.branch(mem, FLAG_ZERO, false),
            Op::Beq => self.branch(mem, FLAG_ZERO, true),
            Op::Bpl => self.branch(mem, FLAG_SIGN, false),
            Op::Bmi => self.branch(mem, FLAG_SIGN, true),
            Op::Bvc => self.branch(mem, FLAG_OVERFLOW, false),
            Op::Bvs => self.branch(mem, FLAG_OVERFLOW, true),
            Op::Clc => self.flag_op(mem, FLAG_CARRY, false),
            Op::Sec => self.flag_op(mem, FLAG_CARRY, true),
            Op::Cli => self.flag_op(mem, FLAG_INTERRUPT_DISABLE, false),
            Op::Sei => self.flag_op(mem, FLAG_INTERRUPT_DISABLE, true),
            Op::Cld => self.flag_op(mem, FLAG_DECIMAL, false),
            Op::Sed => self.flag_op(mem, FLAG_DECIMAL, true),
            Op::Clv => self.flag_op(mem, FLAG_OVERFLOW, false),
            Op::Lda => self.load(mem, operand, Register::A),
            Op::Ldx => self.load(mem, operand, Register::X),
            Op::Ldy => self.load(mem, operand, Register::Y),
            Op::Sta => self.store(mem, operand, Register::A),
            Op::Stx => self.store(mem, operand, Register::X),
            Op::Sty => self.store(mem, operand, Register::Y),
            Op::Tax => self.transfer(mem, Register::A, Register::X),
            Op::Tay => self.transfer(mem, Register::A, Register::Y),
            Op::Tsx => self.transfer(mem, Register::S, Register::X),
            Op::Txa => self.transfer(mem, Register::X, Register::A),
            Op::Tya => self.transfer(mem, Register::Y, Register::A),
            Op::Txs => self.transfer(mem, Register::X, Register::S),
            Op::Jmp => self.jmp(mem, operand),
            Op::Jsr => self.jsr(mem, operand),
            Op::Rts => self.rts(mem),
            Op::Rti => self.rti(mem),
            Op::Pha => self.pha(mem),
            Op::Php => self.php(mem),
            Op::Pla => self.pla(mem),
            Op::Plp => self.plp(mem),
            Op::Brk => self.brk(mem),
            Op::Nop => None,
        }
    }

    /// Runs a decoded instruction whose opcode sits at PC.
    pub fn execute<T: CpuMemory>(&mut self, mem: &mut T, ins: Instruction)
        ensures
            (*final(self), final(mem)@) == instruction_spec::<T>(*old(self), old(mem)@, ins),
            final(self).cycle_count >= old(self).cycle_count,
            final(self).cycle_count == u64::MAX || final(self).cycle_count >= old(self).cycle_count + 2,
            final(self).cycle_count <= old(self).cycle_count + 3 * 513 + 13,
    {
        let operand = self.resolve(mem, ins.mode);
        match self.operation(mem, ins.op, operand) {
            Some(target) => self.program_counter = MemoryPtr(target),
            None => {
                let next = self.program_counter.add(1 + ins.mode.bytes_read());
                self.program_counter = next;
            },
        }
        let cost = ins.op.get_cycles() + ins.mode.cycles();
        self.advance_cycles(cost);
    }

    /// Takes a pending IRQ if I allows, then fetches, decodes and runs the
    /// instruction at PC. An opcode outside the table is an error.
    pub fn execute_next_instruction<T: CpuMemory>(&mut self, mem: &mut T) -> (r: Result<(), UnknownOpcode>)
        ensures
            ({
                let (c, m, ok) = step_spec::<T>(*old(self), old(mem)@);
                *final(self) == c && final(mem)@ == m && r.is_ok() == ok
            }),
            final(self).cycle_count >= old(self).cycle_count,
            r is Ok ==> final(self).cycle_count == u64::MAX || final(self).cycle_count >= old(self).cycle_count + 2,
            final(self).cycle_count <= old(self).cycle_count + MAX_STEP_CYCLES,
            r matches Err(e) ==> e.address == final(self).program_counter.0
                && e.opcode == T::read_result(irq_stage::<T>(*old(self), old(mem)@).1, e.address).1
                && decode_spec(e.opcode) is None,
    {
        if self.irq_requested {
            self.irq(mem);
        }
        let pc = self.program_counter;
        let opcode = mem.read(pc, self);
        match decode(opcode) {
            Some(ins) => {
                self.execute(mem, ins);
                self.last_instruction = opcode;
                Ok(())
            },
            None => Err(UnknownOpcode { opcode, address: pc.0 }),
        }
    }
}

} // verus!
