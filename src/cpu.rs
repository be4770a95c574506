use vstd::prelude::*;
use crate::memory_controller::{MemoryPtr, wrap16};

verus! {

pub const FLAG_CARRY: u8 = 0x01;
pub const FLAG_ZERO: u8 = 0x02;
pub const FLAG_INTERRUPT_DISABLE: u8 = 0x04;
pub const FLAG_DECIMAL: u8 = 0x08;
pub const FLAG_BREAK: u8 = 0x10;
pub const FLAG_UNUSED: u8 = 0x20;
pub const FLAG_OVERFLOW: u8 = 0x40;
pub const FLAG_SIGN: u8 = 0x80;

/// Whether the flag bits of `mask` are set in `p`.
pub open spec fn flag(p: u8, mask: u8) -> bool {
    p & mask != 0
}

/// `p` with the bits of `mask` set when `v` holds and cleared otherwise.
pub open spec fn with_flag(p: u8, mask: u8, v: bool) -> u8 {
    if v {
        p | mask
    } else {
        p & !mask
    }
}

/// `p` with Z and N describing the byte `v`.
pub open spec fn with_nz(p: u8, v: u8) -> u8 {
    with_flag(with_flag(p, FLAG_ZERO, v == 0), FLAG_SIGN, v >= 128)
}

pub fn set_flag(p: u8, mask: u8, v: bool) -> (r: u8)
    ensures
        r == with_flag(p, mask, v),
{
    if v {
        p | mask
    } else {
        p & !mask
    }
}

pub fn get_flag(p: u8, mask: u8) -> (r: bool)
    ensures
        r == flag(p, mask),
{
    p & mask != 0
}

pub fn update_nz(p: u8, v: u8) -> (r: u8)
    ensures
        r == with_nz(p, v),
{
    let z = set_flag(p, FLAG_ZERO, v == 0);
    set_flag(z, FLAG_SIGN, v >= 128)
}

/// The 6502's registers and bookkeeping.
#[derive(Clone, Copy, Debug)]
pub struct Cpu {
    pub accumulator: u8,
    pub x: u8,
    pub y: u8,
    pub flags: u8,
    pub stack_pointer: u8,
    pub program_counter: MemoryPtr,
    pub irq_requested: bool,
    pub cycle_count: u64,
    pub last_instruction: u8,
}

/// The CPU's view of its address space. Reads may have side effects (a status
/// register that clears itself, a gamepad that shifts), so a read yields both
/// the byte and the bus as it is afterwards. A write may also touch the CPU: a
/// sprite DMA costs cycles, and a cartridge may withdraw its interrupt request.
pub trait CpuMemory: View + Sized {
    /// The bus after a read of `addr`, and the byte read.
    spec fn read_result(m: Self::V, addr: u16) -> (Self::V, u8);

    /// The bus and the CPU after `value` is written at `addr`.
    spec fn write_result(m: Self::V, addr: u16, value: u8, cpu: Cpu) -> (Self::V, Cpu);

    /// A write never takes cycles back.
    proof fn lemma_write_keeps_time(m: Self::V, addr: u16, value: u8, cpu: Cpu)
        ensures
            Self::write_result(m, addr, value, cpu).1.cycle_count >= cpu.cycle_count,
    ;

    /// A write costs at most the 513 cycles of a sprite DMA.
    proof fn lemma_write_cost(m: Self::V, addr: u16, value: u8, cpu: Cpu)
        ensures
            Self::write_result(m, addr, value, cpu).1.cycle_count <= cpu.cycle_count + 513,
    ;

    fn read(&mut self, addr: MemoryPtr, cpu: &mut Cpu) -> (r: u8)
        ensures
            (final(self)@, r) == Self::read_result(old(self)@, addr.0),
            *final(cpu) == *old(cpu),
    ;

    fn write(&mut self, addr: MemoryPtr, value: u8, cpu: &mut Cpu)
        ensures
            (final(self)@, *final(cpu)) == Self::write_result(old(self)@, addr.0, value, *old(cpu)),
    ;
}

/// Adds `n` cycles to a counter that stops at its largest value.
pub open spec fn add_cycles(c: u64, n: int) -> u64 {
    if c + n > u64::MAX {
        u64::MAX
    } else {
        (c + n) as u64
    }
}

/// The stack address that a stack pointer designates.
pub open spec fn stack_addr(sp: u8) -> u16 {
    (0x100 + sp) as u16
}

/// Pushes `v`: it is written at the stack pointer, which then moves down.
pub open spec fn push_spec<M: CpuMemory>(cpu: Cpu, mem: M::V, v: u8) -> (Cpu, M::V) {
    let (m1, c1) = M::write_result(mem, stack_addr(cpu.stack_pointer), v, cpu);
    (Cpu { stack_pointer: ((c1.stack_pointer + 255) % 256) as u8, ..c1 }, m1)
}

/// Pulls a byte: the stack pointer moves up, then the byte there is read.
pub open spec fn pop_spec<M: CpuMemory>(cpu: Cpu, mem: M::V) -> (Cpu, M::V, u8) {
    let sp = ((cpu.stack_pointer + 1) % 256) as u8;
    let (m1, v) = M::read_result(mem, stack_addr(sp));
    (Cpu { stack_pointer: sp, ..cpu }, m1, v)
}

/// A little-endian vector read high byte first: the address it holds.
pub open spec fn vector_spec<M: CpuMemory>(mem: M::V, low_addr: u16) -> (M::V, u16) {
    let (m1, hi) = M::read_result(mem, (low_addr + 1) as u16);
    let (m2, lo) = M::read_result(m1, low_addr);
    (m2, (hi * 256 + lo) as u16)
}

/// Interrupt entry: pushes PC (high, then low) and P with bit 5 set, sets I
/// so that a pending IRQ is not taken again before the handler runs, then
/// jumps through the vector at `low_addr`.
pub open spec fn interrupt_spec<M: CpuMemory>(cpu: Cpu, mem: M::V, low_addr: u16) -> (Cpu, M::V) {
    let pc = cpu.program_counter.0;
    let (c1, m1) = push_spec::<M>(cpu, mem, (pc / 256) as u8);
    let (c2, m2) = push_spec::<M>(c1, m1, (pc % 256) as u8);
    let (c3, m3) = push_spec::<M>(c2, m2, with_flag(c2.flags, FLAG_UNUSED, true));
    let (m4, target) = vector_spec::<M>(m3, low_addr);
    (Cpu { program_counter: MemoryPtr(target), flags: with_flag(c3.flags, FLAG_INTERRUPT_DISABLE, true), ..c3 }, m4)
}

/// IRQ entry, which the I flag masks.
pub open spec fn irq_spec<M: CpuMemory>(cpu: Cpu, mem: M::V) -> (Cpu, M::V) {
    if flag(cpu.flags, FLAG_INTERRUPT_DISABLE) {
        (cpu, mem)
    } else {
        interrupt_spec::<M>(cpu, mem, 0xfffe)
    }
}

impl Cpu {
    /// The registers at power-on; `reset` then loads the entry point.
    pub fn new() -> (r: Cpu)
        ensures
            r.accumulator == 0 && r.x == 0 && r.y == 0,
            r.flags == 0x24 && r.stack_pointer == 0xfd,
            r.program_counter == MemoryPtr(0),
            r.cycle_count == 7 && r.last_instruction == 0,
            !r.irq_requested,
    {
        Cpu {
            accumulator: 0,
            x: 0,
            y: 0,
            flags: 0x24,
            stack_pointer: 0xfd,
            program_counter: MemoryPtr(0),
            cycle_count: 7,
            last_instruction: 0,
            irq_requested: false,
        }
    }

    pub fn stack_push<T: CpuMemory>(&mut self, mem: &mut T, v: u8)
        ensures
            (*final(self), final(mem)@) == push_spec::<T>(*old(self), old(mem)@, v),
            final(self).cycle_count >= old(self).cycle_count,
            final(self).cycle_count <= old(self).cycle_count + 513,
    {
        let addr = MemoryPtr(self.stack_pointer as u16 + 0x100);
        proof {
            T::lemma_write_keeps_time(old(mem)@, addr.0, v, *old(self));
            T::lemma_write_cost(old(mem)@, addr.0, v, *old(self));
        }
        mem.write(addr, v, self);
        self.stack_pointer = self.stack_pointer.wrapping_sub(1);
    }

    pub fn stack_pop<T: CpuMemory>(&mut self, mem: &mut T) -> (r: u8)
        ensures
            (*final(self), final(mem)@, r) == pop_spec::<T>(*old(self), old(mem)@),
    {
        self.stack_pointer = self.stack_pointer.wrapping_add(1);
        mem.read(MemoryPtr(self.stack_pointer as u16 + 0x100), self)
    }

    /// Reads a little-endian vector, high byte first.
    pub fn read_vector<T: CpuMemory>(&mut self, mem: &mut T, low_addr: u16) -> (r: u16)
        requires
            low_addr < 0xffff,
        ensures
            (final(mem)@, r) == vector_spec::<T>(old(mem)@, low_addr),
            *final(self) == *old(self),
    {
        let hi = mem.read(MemoryPtr(low_addr + 1), self) as u16;
        let lo = mem.read(MemoryPtr(low_addr), self) as u16;
        hi * 256 + lo
    }

    /// Loads the program counter from the reset vector at 0xFFFC/0xFFFD.
    pub fn reset<T: CpuMemory>(&mut self, mem: &mut T)
        ensures
            ({
                let (m, target) = vector_spec::<T>(old(mem)@, 0xfffc);
                final(mem)@ == m && *final(self) == Cpu { program_counter: MemoryPtr(target), ..*old(self) }
            }),
    {
        let target = self.read_vector(mem, 0xfffc);
        self.program_counter = MemoryPtr(target);
    }

    fn interrupt<T: CpuMemory>(&mut self, mem: &mut T, low_addr: u16)
        requires
            low_addr < 0xffff,
        ensures
            (*final(self), final(mem)@) == interrupt_spec::<T>(*old(self), old(mem)@, low_addr),
            final(self).cycle_count >= old(self).cycle_count,
            final(self).cycle_count <= old(self).cycle_count + 3 * 513,
    {
        let pc = self.program_counter.0;
        self.stack_push(mem, (pc >> 8) as u8);
        self.stack_push(mem, (pc & 0xff) as u8);
        let flags = set_flag(self.flags, FLAG_UNUSED, true);
        self.stack_push(mem, flags);
        let target = self.read_vector(mem, low_addr);
        self.program_counter = MemoryPtr(target);
        self.flags = set_flag(self.flags, FLAG_INTERRUPT_DISABLE, true);
        assert((pc >> 8) as u8 == (pc / 256) as u8 && (pc & 0xff) as u8 == (pc % 256) as u8) by (bit_vector);
    }

    /// Non-maskable interrupt: pushes PC and P and jumps through 0xFFFA/0xFFFB.
    pub fn nmi<T: CpuMemory>(&mut self, mem: &mut T)
        ensures
            (*final(self), final(mem)@) == interrupt_spec::<T>(*old(self), old(mem)@, 0xfffa),
            final(self).cycle_count >= old(self).cycle_count,
            final(self).cycle_count <= old(self).cycle_count + 3 * 513,
    {
        self.interrupt(mem, 0xfffa);
    }

    /// Maskable interrupt through 0xFFFE/0xFFFF; nothing happens while I is set.
    pub fn irq<T: CpuMemory>(&mut self, mem: &mut T)
        ensures
            (*final(self), final(mem)@) == irq_spec::<T>(*old(self), old(mem)@),
            final(self).cycle_count >= old(self).cycle_count,
            final(self).cycle_count <= old(self).cycle_count + 3 * 513,
    {
        if get_flag(self.flags, FLAG_INTERRUPT_DISABLE) {
            return;
        }
        self.interrupt(mem, 0xfffe);
    }
}

} // verus!
