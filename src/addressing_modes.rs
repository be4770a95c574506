use vstd::prelude::*;
use crate::cpu::{Cpu, CpuMemory};
use crate::memory_controller::{MemoryPtr, wrap16};

verus! {

/// How an instruction finds its operand.
#[derive(Clone, Copy, PartialEq, Eq, Structural, Debug)]
pub enum AddrMode {
    Immediate,
    ZeroPage,
    ZeroPageX,
    ZeroPageY,
    Absolute,
    AbsoluteX,
    AbsoluteY,
    IndirectX,
    IndirectY,
    Accumulator,
    Implied,
    /// A literal 16-bit operand (JMP abs, JSR).
    ImmediateU16,
    /// A 16-bit jump target read through a pointer (JMP indirect).
    AbsoluteU16,
}

/// An operand once its addressing mode has been worked out.
#[derive(Clone, Copy, PartialEq, Eq, Structural, Debug)]
pub enum Operand {
    /// The byte after the opcode, read when it is used.
    Immediate,
    /// A byte of memory.
    Address(u16),
    Accumulator,
    Implied,
    /// A literal 16-bit value.
    Word(u16),
    /// A 16-bit value stored at this address, with the 6502's page wrap.
    IndirectWord(u16),
}

impl AddrMode {
    /// Operand bytes that follow the opcode.
    pub open spec fn bytes_spec(self) -> u16 {
        match self {
            AddrMode::Immediate | AddrMode::ZeroPage | AddrMode::ZeroPageX | AddrMode::ZeroPageY
            | AddrMode::IndirectX | AddrMode::IndirectY => 1,
            AddrMode::Absolute | AddrMode::AbsoluteX | AddrMode::AbsoluteY | AddrMode::ImmediateU16
            | AddrMode::AbsoluteU16 => 2,
            AddrMode::Accumulator | AddrMode::Implied => 0,
        }
    }

    /// Cycles that the addressing mode adds to the operation's own cost.
    pub open spec fn cycles_spec(self) -> u64 {
        match self {
            AddrMode::ZeroPage => 1,
            AddrMode::ZeroPageX | AddrMode::ZeroPageY | AddrMode::Absolute | AddrMode::AbsoluteX
            | AddrMode::AbsoluteY | AddrMode::ImmediateU16 | AddrMode::AbsoluteU16 => 2,
            AddrMode::IndirectX => 4,
            AddrMode::IndirectY => 3,
            AddrMode::Immediate | AddrMode::Accumulator | AddrMode::Implied => 0,
        }
    }

    pub fn bytes_read(&self) -> (r: u16)
        ensures
            r == self.bytes_spec(),
    {
        match self {
            AddrMode::Immediate | AddrMode::ZeroPage | AddrMode::ZeroPageX | AddrMode::ZeroPageY
            | AddrMode::IndirectX | AddrMode::IndirectY => 1,
            AddrMode::Absolute | AddrMode::AbsoluteX | AddrMode::AbsoluteY | AddrMode::ImmediateU16
            | AddrMode::AbsoluteU16 => 2,
            AddrMode::Accumulator | AddrMode::Implied => 0,
        }
    }

    pub fn cycles(&self) -> (r: u64)
        ensures
            r == self.cycles_spec(),
    {
        match self {
            AddrMode::ZeroPage => 1,
            AddrMode::ZeroPageX | AddrMode::ZeroPageY | AddrMode::Absolute | AddrMode::AbsoluteX
            | AddrMode::AbsoluteY | AddrMode::ImmediateU16 | AddrMode::AbsoluteU16 => 2,
            AddrMode::IndirectX => 4,
            AddrMode::IndirectY => 3,
            AddrMode::Immediate | AddrMode::Accumulator | AddrMode::Implied => 0,
        }
    }
}

/// Reads the byte `k` places after the opcode.
pub open spec fn fetch_spec<M: CpuMemory>(cpu: Cpu, mem: M::V, k: int) -> (M::V, u8) {
    M::read_result(mem, wrap16(cpu.program_counter.0 + k))
}

/// Reads the little-endian word after the opcode, low byte first.
pub open spec fn fetch_word_spec<M: CpuMemory>(cpu: Cpu, mem: M::V) -> (M::V, u16) {
    let (m1, lo) = fetch_spec::<M>(cpu, mem, 1);
    let (m2, hi) = fetch_spec::<M>(cpu, m1, 2);
    (m2, (hi * 256 + lo) as u16)
}

/// Reads a zero-page pointer, high byte first; its high byte wraps within page zero.
pub open spec fn zero_page_pointer_spec<M: CpuMemory>(mem: M::V, base: u8) -> (M::V, u16) {
    let (m1, hi) = M::read_result(mem, ((base + 1) % 256) as u16);
    let (m2, lo) = M::read_result(m1, base as u16);
    (m2, (hi * 256 + lo) as u16)
}

/// Works out the operand of `mode`, reading the bytes after the opcode.
pub open spec fn resolve_spec<M: CpuMemory>(cpu: Cpu, mem: M::V, mode: AddrMode) -> (M::V, Operand) {
    match mode {
        AddrMode::Immediate => (mem, Operand::Immediate),
        AddrMode::ZeroPage => {
            let (m1, b) = fetch_spec::<M>(cpu, mem, 1);
            (m1, Operand::Address(b as u16))
        },
        AddrMode::ZeroPageX => {
            let (m1, b) = fetch_spec::<M>(cpu, mem, 1);
            (m1, Operand::Address(((b + cpu.x) % 256) as u16))
        },
        AddrMode::ZeroPageY => {
            let (m1, b) = fetch_spec::<M>(cpu, mem, 1);
            (m1, Operand::Address(((b + cpu.y) % 256) as u16))
        },
        AddrMode::Absolute => {
            let (m1, w) = fetch_word_spec::<M>(cpu, mem);
            (m1, Operand::Address(w))
        },
        AddrMode::AbsoluteX => {
            let (m1, w) = fetch_word_spec::<M>(cpu, mem);
            (m1, Operand::Address(wrap16(w + cpu.x)))
        },
        AddrMode::AbsoluteY => {
            let (m1, w) = fetch_word_spec::<M>(cpu, mem);
            (m1, Operand::Address(wrap16(w + cpu.y)))
        },
        AddrMode::IndirectX => {
            let (m1, b) = fetch_spec::<M>(cpu, mem, 1);
            let (m2, p) = zero_page_pointer_spec::<M>(m1, ((b + cpu.x) % 256) as u8);
            (m2, Operand::Address(p))
        },
        AddrMode::IndirectY => {
            let (m1, b) = fetch_spec::<M>(cpu, mem, 1);
            let (m2, p) = zero_page_pointer_spec::<M>(m1, b);
            (m2, Operand::Address(wrap16(p + cpu.y)))
        },
        AddrMode::Accumulator => (mem, Operand::Accumulator),
        AddrMode::Implied => (mem, Operand::Implied),
        AddrMode::ImmediateU16 => {
            let (m1, w) = fetch_word_spec::<M>(cpu, mem);
            (m1, Operand::Word(w))
        },
        AddrMode::AbsoluteU16 => {
            let (m1, w) = fetch_word_spec::<M>(cpu, mem);
            (m1, Operand::IndirectWord(w))
        },
    }
}

/// Reads a byte operand. Operands that hold no byte read as 0.
pub open spec fn get_spec<M: CpuMemory>(cpu: Cpu, mem: M::V, operand: Operand) -> (M::V, u8) {
    match operand {
        Operand::Immediate => fetch_spec::<M>(cpu, mem, 1),
        Operand::Address(a) => M::read_result(mem, a),
        Operand::Accumulator => (mem, cpu.accumulator),
        _ => (mem, 0),
    }
}

/// Writes a byte operand. Operands that hold no byte are left alone.
pub open spec fn set_spec<M: CpuMemory>(cpu: Cpu, mem: M::V, operand: Operand, v: u8) -> (Cpu, M::V) {
    match operand {
        Operand::Address(a) => {
            let (m1, c1) = M::write_result(mem, a, v, cpu);
            (c1, m1)
        },
        Operand::Accumulator => (Cpu { accumulator: v, ..cpu }, mem),
        _ => (cpu, mem),
    }
}

/// The address that JMP (ind) reads its high byte from: the pointer's
/// successor within the same page.
pub open spec fn indirect_high_addr(a: u16) -> u16 {
    ((a / 256) * 256 + (a % 256 + 1) % 256) as u16
}

/// Reads a 16-bit operand.
pub open spec fn get_word_spec<M: CpuMemory>(mem: M::V, operand: Operand) -> (M::V, u16) {
    match operand {
        Operand::Word(w) => (mem, w),
        Operand::IndirectWord(a) => {
            let (m1, lo) = M::read_result(mem, a);
            let (m2, hi) = M::read_result(m1, indirect_high_addr(a));
            (m2, (hi * 256 + lo) as u16)
        },
        _ => (mem, 0),
    }
}

pub proof fn lemma_indirect_high(a: u16)
    ensures
        (a & 0xff00) | (a.wrapping_add(1) & 0xff) == indirect_high_addr(a),
{
    let b = a.wrapping_add(1);
    assert(b == (a + 1) % 0x10000);
    assert((a & 0xff00) | (b & 0xff) == ((a / 256) * 256 + (b % 256)) as u16) by (bit_vector);
    assert(b % 256 == (a % 256 + 1) % 256);
}

impl Cpu {
    /// Reads the byte `k` places after the opcode.
    pub fn fetch<T: CpuMemory>(&mut self, mem: &mut T, k: u16) -> (r: u8)
        ensures
            (final(mem)@, r) == fetch_spec::<T>(*old(self), old(mem)@, k as int),
            *final(self) == *old(self),
    {
        let addr = self.program_counter.add(k);
        mem.read(addr, self)
    }

    fn fetch_word<T: CpuMemory>(&mut self, mem: &mut T) -> (r: u16)
        ensures
            (final(mem)@, r) == fetch_word_spec::<T>(*old(self), old(mem)@),
            *final(self) == *old(self),
    {
        let lo = self.fetch(mem, 1) as u16;
        let hi = self.fetch(mem, 2) as u16;
        hi * 256 + lo
    }

    fn zero_page_pointer<T: CpuMemory>(&mut self, mem: &mut T, base: u8) -> (r: u16)
        ensures
            (final(mem)@, r) == zero_page_pointer_spec::<T>(old(mem)@, base),
            *final(self) == *old(self),
    {
        let hi = mem.read(MemoryPtr(base.wrapping_add(1) as u16), self) as u16;
        let lo = mem.read(MemoryPtr(base as u16), self) as u16;
        hi * 256 + lo
    }

    /// Works out the operand of `mode`.
    #[verifier::spinoff_prover]
    #[verifier::rlimit(40)]
    pub fn resolve<T: CpuMemory>(&mut self, mem: &mut T, mode: AddrMode) -> (r: Operand)
        ensures
            (final(mem)@, r) == resolve_spec::<T>(*old(self), old(mem)@, mode),
            *final(self) == *old(self),
    {
        match mode {
            AddrMode::Immediate => Operand::Immediate,
            AddrMode::ZeroPage => {
                let b = self.fetch(mem, 1);
                Operand::Address(b as u16)
            },
            AddrMode::ZeroPageX => {
                let b = self.fetch(mem, 1);
                Operand::Address(b.wrapping_add(self.x) as u16)
            },
            AddrMode::ZeroPageY => {
                let b = self.fetch(mem, 1);
                Operand::Address(b.wrapping_add(self.y) as u16)
            },
            AddrMode::Absolute => {
                let w = self.fetch_word(mem);
                Operand::Address(w)
            },
            AddrMode::AbsoluteX => {
                let w = self.fetch_word(mem);
                Operand::Address(w.wrapping_add(self.x as u16))
            },
            AddrMode::AbsoluteY => {
                let w = self.fetch_word(mem);
                Operand::Address(w.wrapping_add(self.y as u16))
            },
            AddrMode::IndirectX => {
                let b = self.fetch(mem, 1);
                let p = self.zero_page_pointer(mem, b.wrapping_add(self.x));
                Operand::Address(p)
            },
            AddrMode::IndirectY => {
                let b = self.fetch(mem, 1);
                let p = self.zero_page_pointer(mem, b);
                Operand::Address(p.wrapping_add(self.y as u16))
            },
            AddrMode::Accumulator => Operand::Accumulator,
            AddrMode::Implied => Operand::Implied,
            AddrMode::ImmediateU16 => {
                let w = self.fetch_word(mem);
                Operand::Word(w)
            },
            AddrMode::AbsoluteU16 => {
                let w = self.fetch_word(mem);
                Operand::IndirectWord(w)
            },
        }
    }

    /// Reads a byte operand.
    pub fn get<T: CpuMemory>(&mut self, mem: &mut T, operand: Operand) -> (r: u8)
        ensures
            (final(mem)@, r) == get_spec::<T>(*old(self), old(mem)@, operand),
            *final(self) == *old(self),
    {
        match operand {
            Operand::Immediate => self.fetch(mem, 1),
            Operand::Address(a) => mem.read(MemoryPtr(a), self),
            Operand::Accumulator => self.accumulator,
            _ => 0,
        }
    }

    /// Writes a byte operand.
    pub fn set<T: CpuMemory>(&mut self, mem: &mut T, operand: Operand, v: u8)
        ensures
            (*final(self), final(mem)@) == set_spec::<T>(*old(self), old(mem)@, operand, v),
            final(self).cycle_count >= old(self).cycle_count,
            final(self).cycle_count <= old(self).cycle_count + 513,
    {
        match operand {
            Operand::Address(a) => {
                proof {
                    T::lemma_write_keeps_time(old(mem)@, a, v, *old(self));
                    T::lemma_write_cost(old(mem)@, a, v, *old(self));
                }
                mem.write(MemoryPtr(a), v, self);
            },
            Operand::Accumulator => {
                self.accumulator = v;
            },
            _ => {},
        }
    }

    /// Reads a 16-bit operand.
    pub fn get_word<T: CpuMemory>(&mut self, mem: &mut T, operand: Operand) -> (r: u16)
        ensures
            (final(mem)@, r) == get_word_spec::<T>(old(mem)@, operand),
            *final(self) == *old(self),
    {
        match operand {
            Operand::Word(w) => w,
            Operand::IndirectWord(a) => {
                let lo = mem.read(MemoryPtr(a), self) as u16;
                proof { lemma_indirect_high(a); }
                let hi_addr = (a & 0xff00) | (a.wrapping_add(1) & 0xff);
                let hi = mem.read(MemoryPtr(hi_addr), self) as u16;
                hi * 256 + lo
            },
            _ => 0,
        }
    }
}

} // verus!
