use vstd::prelude::*;
use crate::cpu::{Cpu, CpuMemory};

verus! {

/// A 16-bit CPU address; arithmetic on it wraps around the address space.
#[derive(PartialEq, Eq, Structural, Clone, Copy, Debug)]
pub struct MemoryPtr(pub u16);

/// `a + b` modulo the 16-bit address space.
pub open spec fn wrap16(v: int) -> u16 {
    (v % 0x10000) as u16
}

impl MemoryPtr {
    /// The address `rhs` bytes further on, wrapping past 0xFFFF.
    pub fn add(self, rhs: u16) -> (r: MemoryPtr)
        ensures
            r.0 == wrap16(self.0 + rhs),
    {
        MemoryPtr(self.0.wrapping_add(rhs))
    }

    /// Moves this address `rhs` bytes further on, wrapping past 0xFFFF.
    pub fn add_assign(&mut self, rhs: u16)
        ensures
            final(self).0 == wrap16(old(self).0 + rhs),
    {
        self.0 = self.0.wrapping_add(rhs);
    }
}

/// The console's 2 KiB of internal work RAM.
pub struct Ram {
    ram: [u8; 2048],
}

impl View for Ram {
    type V = Seq<u8>;

    closed spec fn view(&self) -> Seq<u8> {
        self.ram@
    }
}

/// The RAM cell that a CPU address selects: RAM repeats every 2 KiB.
pub open spec fn ram_index(addr: u16) -> int {
    (addr % 0x800) as int
}

pub proof fn lemma_ram_mask(a: u16)
    ensures
        a & 0x7ff == a % 0x800,
        a & 0x7ff < 0x800,
{
    assert(a & 0x7ff == a % 0x800) by (bit_vector);
}

impl Ram {
    pub fn new() -> (r: Ram)
        ensures
            r@ == Seq::new(2048, |i: int| 0u8),
    {
        let r = Ram { ram: [0u8; 2048] };
        assert(r@ =~= Seq::new(2048, |i: int| 0u8));
        r
    }

    pub fn set_ram_state(&mut self, state: [u8; 2048])
        ensures
            final(self)@ == state@,
    {
        self.ram = state;
    }

    pub fn dump_ram(&self) -> (r: [u8; 2048])
        ensures
            r@ == self@,
    {
        self.ram
    }

    /// The byte at a CPU address in the RAM window.
    pub fn load(&self, addr: u16) -> (r: u8)
        ensures
            self@.len() == 2048,
            r == self@[ram_index(addr)],
    {
        proof { lemma_ram_mask(addr); }
        self.ram[(addr & 0x7ff) as usize]
    }

    /// Stores a byte at a CPU address in the RAM window.
    pub fn store(&mut self, addr: u16, value: u8)
        ensures
            old(self)@.len() == 2048,
            final(self)@ == old(self)@.update(ram_index(addr), value),
    {
        proof { lemma_ram_mask(addr); }
        self.ram[(addr & 0x7ff) as usize] = value;
    }

    /// The 256 bytes of one page, for a sprite DMA; RAM repeats every 2 KiB.
    pub fn read_page_for_oam(&self, page: u8) -> (r: [u8; 256])
        ensures
            forall|i: int| 0 <= i < 256 ==> #[trigger] r@[i] == self@[ram_index((page as int * 256 + i) as u16)],
    {
        let mut result = [0u8; 256];
        let start: u16 = (page as u16) * 256;
        let mut i: u16 = 0;
        while i < 256
            invariant
                0 <= i <= 256,
                start == page as int * 256,
                forall|j: int| 0 <= j < i ==> #[trigger] result@[j] == self@[ram_index((page as int * 256 + j) as u16)],
            decreases 256 - i,
        {
            result[i as usize] = self.load(start + i);
            i = i + 1;
        }
        result
    }
}

} // verus!

verus! {

impl CpuMemory for Ram {
    open spec fn read_result(m: Seq<u8>, addr: u16) -> (Seq<u8>, u8) {
        (m, m[ram_index(addr)])
    }

    open spec fn write_result(m: Seq<u8>, addr: u16, value: u8, cpu: Cpu) -> (Seq<u8>, Cpu) {
        (m.update(ram_index(addr), value), cpu)
    }

    proof fn lemma_write_keeps_time(m: Seq<u8>, addr: u16, value: u8, cpu: Cpu) {
    }

    proof fn lemma_write_cost(m: Seq<u8>, addr: u16, value: u8, cpu: Cpu) {
    }

    fn read(&mut self, addr: MemoryPtr, cpu: &mut Cpu) -> (r: u8) {
        self.load(addr.0)
    }

    fn write(&mut self, addr: MemoryPtr, value: u8, cpu: &mut Cpu) {
        self.store(addr.0, value);
    }
}

} // verus!
