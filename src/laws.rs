use vstd::prelude::*;
use crate::addressing_modes::{AddrMode, Operand, fetch_spec, get_word_spec, indirect_high_addr, resolve_spec};
use crate::cpu::{Cpu, CpuMemory, FLAG_BREAK, FLAG_UNUSED, add_cycles, flag, with_flag, with_nz, stack_addr};
use crate::instructions::{Instruction, Op, decode_spec, pulled_flags, step_spec, signed};
use crate::mappers::{CartridgeModel, SystemMemoryMapper as M1, SystemMemoryMapper, SystemModel, system_read_spec, system_write_spec};
use crate::memory_controller::{Ram, ram_index, wrap16};
use crate::ppu::{Latch, PPUStateModel, PPUSTATUS_VBLANK, addr_nametable, addr_x, addr_y, current_addr, encode_addr,
    register_write_spec, scroll_write_spec};

verus! {

/// Flags pulled by PLP or RTI always have bit 5 set and bit 4 clear.
pub proof fn lemma_pulled_flags(v: u8)
    ensures
        pulled_flags(v) & 0x20 != 0,
        pulled_flags(v) & 0x10 == 0,
{
    assert(((v | 0x20u8) & !0x10u8) & 0x20 != 0 && ((v | 0x20u8) & !0x10u8) & 0x10 == 0) by (bit_vector);
}

/// The opcode a step fetches, when no IRQ is pending.
pub open spec fn fetched<M: CpuMemory>(cpu: Cpu, mem: M::V) -> u8 {
    M::read_result(mem, cpu.program_counter.0).1
}

/// After PLP or RTI (as after returning from an interrupt, whose entry pushed
/// P), P has bit 5 set and bit 4 clear, whatever byte the stack held.
pub proof fn law_pull_sets_unused<M: CpuMemory>(cpu: Cpu, mem: M::V)
    requires
        !cpu.irq_requested,
        fetched::<M>(cpu, mem) == 0x28 || fetched::<M>(cpu, mem) == 0x40,
    ensures
        step_spec::<M>(cpu, mem).0.flags & 0x20 != 0,
        step_spec::<M>(cpu, mem).0.flags & 0x10 == 0,
{
    let (m1, opcode) = M::read_result(mem, cpu.program_counter.0);
    let ins = decode_spec(opcode).unwrap();
    let (m2, operand) = resolve_spec::<M>(cpu, m1, ins.mode);
    let sp = ((cpu.stack_pointer + 1) % 256) as u8;
    let p = M::read_result(m2, stack_addr(sp)).1;
    lemma_pulled_flags(p);
}

/// A read of $2002 (or a mirror) leaves VBlank clear and the write toggle low.
pub proof fn law_status_read_clears(m: SystemModel, addr: u16)
    requires
        0x2000 <= addr <= 0x3fff,
        addr % 8 == 2,
    ensures
        system_read_spec(m, addr).0.ppu.state.ppustatus & PPUSTATUS_VBLANK == 0,
        system_read_spec(m, addr).0.ppu.state.next_write_latch == Latch::Low,
{
    let s = m.ppu.state.ppustatus;
    assert((s & !0x80u8) & 0x80 == 0) by (bit_vector);
}

/// After a write through $2007 to palette entry 0x00, 0x04, 0x08 or 0x0C (or
/// their mirrors 0x10-0x1C), the entry and its mirror hold the same value.
proof fn lemma_palette_index(a: int)
    requires
        a >= 0,
        a % 4 == 0,
    ensures
        (a % 32) % 4 == 0,
        (a % 32 == a % 16 && (a % 32 + 16) % 32 == a % 16 + 16) || (a % 32 == a % 16 + 16 && (a % 32 + 16) % 32 == a % 16),
{
}

#[verifier::spinoff_prover]
pub proof fn law_palette_mirror(s: PPUStateModel, cart: CartridgeModel, v: u8)
    requires
        s.pallete.len() == 32,
        current_addr(s) >= 0x3f00,
        current_addr(s) % 4 == 0,
    ensures
        ({
            let k = (current_addr(s) % 16) as int;
            let p = register_write_spec(s, cart, 0x2007, v).0.pallete;
            p[k] == p[k + 16]
        }),
{
    let a = current_addr(s);
    lemma_palette_index(a as int);
    let i = (a % 32) as int;
    let w = v & 0x3f;
    let once = s.pallete.update(i, w);
    let twice = once.update((i + 16) % 32, w);
    assert(crate::ppu::palette_store(s.pallete, i, v) == twice);
    let k = (a % 16) as int;
    assert(twice[k] == w && twice[k + 16] == w);
    let s1 = PPUStateModel { pallete: twice, ..s };
    let s2 = crate::ppu::with_addr(s1, wrap16(a + crate::ppu::vram_increment(s)));
    assert(s2.pallete == twice);
    assert(crate::ppu::data_write_spec(s, cart, v).0 == s2);
    assert(register_write_spec(s, cart, 0x2007, v).0 == crate::ppu::data_write_spec(s, cart, v).0);
}

/// Two writes of $2005, X then Y, leave the temp address holding that scroll
/// position in the nametable it selected before, and the fine X scroll is X's
/// low three bits.
pub proof fn law_scroll_pair(s: PPUStateModel, x: u8, y: u8)
    requires
        s.next_write_latch == Latch::Low,
    ensures
        ({
            let s2 = scroll_write_spec(scroll_write_spec(s, x), y);
            &&& s2.temp_addr == encode_addr(x, y, addr_nametable(s.temp_addr))
            &&& addr_x(s2.temp_addr) == x & 0xf8
            &&& addr_y(s2.temp_addr) == y
            &&& addr_nametable(s2.temp_addr) == addr_nametable(s.temp_addr)
            &&& s2.ppuscroll.x == x
            &&& s2.next_write_latch == Latch::Low
        }),
{
    let t = s.temp_addr;
    let n = addr_nametable(t);
    let t1 = encode_addr(x, addr_y(t), n);
    lemma_encode_fields(x, addr_y(t), n);
    lemma_encode_fields(addr_x(t1), y, n);
    lemma_encode_fields(x, y, n);
    assert(n & 3 == n) by (bit_vector)
        requires n == ((t >> 10u16) & 3) as u8;
    let s1 = scroll_write_spec(s, x);
    assert(s1.temp_addr == t1);
    let s2 = scroll_write_spec(s1, y);
    assert(addr_x(t1) == x & 0xf8);
    assert(addr_nametable(t1) == n);
    assert(s2.temp_addr == encode_addr(x & 0xf8, y, n));
    assert(encode_addr(x & 0xf8, y, n) == encode_addr(x, y, n)) by (bit_vector);
    let sx = s.ppuscroll.x;
    assert(((x & 0xf8) & !7u8) | (((sx & !7u8) | (x & 7)) & 7) == x) by (bit_vector);
}

/// A VRAM address holds its fields: coarse X, all of Y, the nametable.
pub proof fn lemma_encode_fields(x: u8, y: u8, n: u8)
    ensures
        addr_x(encode_addr(x, y, n)) == x & 0xf8,
        addr_y(encode_addr(x, y, n)) == y,
        addr_nametable(encode_addr(x, y, n)) == n & 3,
{
    assert(addr_x(encode_addr(x, y, n)) == x & 0xf8) by (bit_vector);
    assert(addr_y(encode_addr(x, y, n)) == y) by (bit_vector);
    assert(addr_nametable(encode_addr(x, y, n)) == n & 3) by (bit_vector);
}

/// A write of $2004 with OAMADDR at 0xFF wraps OAMADDR to 0.
pub proof fn law_oamaddr_wraps(s: PPUStateModel, cart: CartridgeModel, v: u8)
    requires
        s.oamaddr == 0xff,
    ensures
        register_write_spec(s, cart, 0x2004, v).0.oamaddr == 0,
{
}

/// The CPU and RAM after the instruction at PC runs, with no IRQ pending.
pub open spec fn run(cpu: Cpu, ram: Seq<u8>) -> (Cpu, Seq<u8>) {
    let (c, m, ok) = step_spec::<Ram>(cpu, ram);
    (c, m)
}

/// PHA then PLA give back A and SP, and set Z and N from A.
pub proof fn law_pha_pla(cpu: Cpu, ram: Seq<u8>)
    requires
        ram.len() == 2048,
        !cpu.irq_requested,
        fetched::<Ram>(cpu, ram) == 0x48,
        fetched::<Ram>(run(cpu, ram).0, run(cpu, ram).1) == 0x68,
    ensures
        ({
            let (c2, m2) = run(run(cpu, ram).0, run(cpu, ram).1);
            &&& c2.accumulator == cpu.accumulator
            &&& c2.stack_pointer == cpu.stack_pointer
            &&& c2.flags == with_nz(cpu.flags, cpu.accumulator)
        }),
{
}

/// PHP then PLP give back P with bit 5 set and bit 4 clear; the other flags
/// are kept.
pub proof fn law_php_plp(cpu: Cpu, ram: Seq<u8>)
    requires
        ram.len() == 2048,
        !cpu.irq_requested,
        fetched::<Ram>(cpu, ram) == 0x08,
        fetched::<Ram>(run(cpu, ram).0, run(cpu, ram).1) == 0x28,
    ensures
        ({
            let (c2, m2) = run(run(cpu, ram).0, run(cpu, ram).1);
            &&& c2.flags == (cpu.flags | 0x20) & !0x10u8
            &&& c2.flags & 0xcf == cpu.flags & 0xcf
            &&& c2.stack_pointer == cpu.stack_pointer
        }),
{
    let p = cpu.flags;
    assert(pulled_flags(with_flag(p, FLAG_BREAK, true)) == (p | 0x20) & !0x10u8) by (bit_vector);
    assert(((p | 0x20) & !0x10u8) & 0xcf == p & 0xcf) by (bit_vector);
}

/// The effective address of an absolute operand at PC.
pub open spec fn absolute_target(cpu: Cpu, ram: Seq<u8>) -> u16 {
    match resolve_spec::<Ram>(cpu, ram, AddrMode::Absolute).1 {
        Operand::Address(a) => a,
        _ => 0,
    }
}

/// STA abs then LDA abs of the same address give back A unchanged.
pub proof fn law_sta_lda(cpu: Cpu, ram: Seq<u8>)
    requires
        ram.len() == 2048,
        !cpu.irq_requested,
        fetched::<Ram>(cpu, ram) == 0x8d,
        fetched::<Ram>(run(cpu, ram).0, run(cpu, ram).1) == 0xad,
        absolute_target(run(cpu, ram).0, run(cpu, ram).1) == absolute_target(cpu, ram),
    ensures
        run(run(cpu, ram).0, run(cpu, ram).1).0.accumulator == cpu.accumulator,
{
}

/// JMP (ind) through a pointer at the end of a page takes the high byte of
/// the target from the start of that page, not from the next page.
pub proof fn law_jmp_indirect_page_wrap(cpu: Cpu, ram: Seq<u8>)
    requires
        ram.len() == 2048,
        !cpu.irq_requested,
        fetched::<Ram>(cpu, ram) == 0x6c,
        absolute_target(cpu, ram) % 256 == 0xff,
    ensures
        ({
            let ptr = absolute_target(cpu, ram);
            run(cpu, ram).0.program_counter.0 == ram[ram_index((ptr - 0xff) as u16)] * 256 + ram[ram_index(ptr)]
        }),
{
    let ptr = absolute_target(cpu, ram);
    assert(indirect_high_addr(ptr) == ptr - 0xff);
}

/// LDX #$00 then DEX leave X at 0xFF with N set and Z clear.
pub proof fn law_ldx_zero_dex(cpu: Cpu, ram: Seq<u8>)
    requires
        ram.len() == 2048,
        !cpu.irq_requested,
        fetched::<Ram>(cpu, ram) == 0xa2,
        fetch_spec::<Ram>(cpu, ram, 1).1 == 0,
        fetched::<Ram>(run(cpu, ram).0, run(cpu, ram).1) == 0xca,
    ensures
        ({
            let c2 = run(run(cpu, ram).0, run(cpu, ram).1).0;
            &&& c2.x == 0xff
            &&& c2.flags & 0x80 != 0
            &&& c2.flags & 0x02 == 0
        }),
{
    let p = with_nz(cpu.flags, 0);
    assert(with_nz(p, 0xff) & 0x80 != 0 && with_nz(p, 0xff) & 0x02 == 0) by (bit_vector);
}

/// Whether a branch opcode's condition holds for flags `p`.
pub open spec fn branch_taken(op: Op, p: u8) -> bool {
    match op {
        Op::Bcc => !flag(p, 0x01),
        Op::Bcs => flag(p, 0x01),
        Op::Bne => !flag(p, 0x02),
        Op::Beq => flag(p, 0x02),
        Op::Bpl => !flag(p, 0x80),
        Op::Bmi => flag(p, 0x80),
        Op::Bvc => !flag(p, 0x40),
        Op::Bvs => flag(p, 0x40),
        _ => false,
    }
}

/// A taken branch with offset 0x80 from the first half of a page lands 128
/// bytes back, in the previous page, and costs two cycles more than the
/// untaken branch: one for taking it and one for the page crossing.
pub proof fn law_branch_back_across_page<M: CpuMemory>(cpu: Cpu, mem: M::V)
    requires
        !cpu.irq_requested,
        decode_spec(fetched::<M>(cpu, mem)) matches Some(ins) && branch_taken(ins.op, cpu.flags),
        fetch_spec::<M>(cpu, M::read_result(mem, cpu.program_counter.0).0, 1).1 == 0x80,
        wrap16(cpu.program_counter.0 + 2) % 256 < 128,
    ensures
        step_spec::<M>(cpu, mem).0.program_counter.0 == wrap16(cpu.program_counter.0 + 2 - 128),
        step_spec::<M>(cpu, mem).0.cycle_count == add_cycles(add_cycles(cpu.cycle_count, 2), 2),
{
    let next = wrap16(cpu.program_counter.0 + 2);
    assert(signed(0x80) == -128);
    assert(wrap16(next + signed(0x80)) == wrap16(cpu.program_counter.0 + 2 - 128));
}

} // verus!

verus! {

/// The effective address of an absolute operand at PC, on the console's bus.
pub open spec fn bus_absolute_target(cpu: Cpu, m: SystemModel) -> u16 {
    match resolve_spec::<SystemMemoryMapper>(cpu, M1::read_result(m, cpu.program_counter.0).0, AddrMode::Absolute).1 {
        Operand::Address(a) => a,
        _ => 0,
    }
}

/// The bus and CPU after one step with no IRQ pending.
pub open spec fn bus_run(cpu: Cpu, m: SystemModel) -> (Cpu, SystemModel) {
    let (c, m1, ok) = step_spec::<SystemMemoryMapper>(cpu, m);
    (c, m1)
}

/// Whether a CPU address holds plain memory: internal RAM, or MMC3's PRG RAM.
pub open spec fn plain_memory(m: SystemModel, a: u16) -> bool {
    a < 0x2000 || (m.cartridge is Mmc3 && 0x6000 <= a <= 0x7fff)
}

/// A read leaves RAM and the cartridge as they were.
proof fn lemma_read_keeps_memory(m: SystemModel, a: u16)
    ensures
        system_read_spec(m, a).0.ram == m.ram,
        system_read_spec(m, a).0.cartridge == m.cartridge,
{
}

/// What a read of plain memory gives depends on RAM and the cartridge alone.
proof fn lemma_plain_read(m1: SystemModel, m2: SystemModel, a: u16)
    requires
        plain_memory(m1, a),
        m1.ram == m2.ram,
        m1.cartridge == m2.cartridge,
    ensures
        system_read_spec(m1, a).1 == system_read_spec(m2, a).1,
{
}

/// A write to plain memory is read back; it leaves the CPU alone.
proof fn lemma_plain_write_read(m: SystemModel, a: u16, v: u8, cpu: Cpu)
    requires
        plain_memory(m, a),
        m.ram.len() == 2048,
        m.cartridge matches CartridgeModel::Mmc3(c) ==> c.prg_ram.len() == 8192,
    ensures
        system_read_spec(system_write_spec(m, a, v, cpu).0, a).1 == v,
        system_write_spec(m, a, v, cpu).1 == cpu,
        plain_memory(system_write_spec(m, a, v, cpu).0, a),
{
}

/// Working out an absolute operand only reads.
proof fn lemma_absolute_keeps_memory(cpu: Cpu, m: SystemModel)
    ensures
        resolve_spec::<SystemMemoryMapper>(cpu, m, AddrMode::Absolute).0.ram == m.ram,
        resolve_spec::<SystemMemoryMapper>(cpu, m, AddrMode::Absolute).0.cartridge == m.cartridge,
{
    let (m1, lo) = fetch_spec::<SystemMemoryMapper>(cpu, m, 1);
    lemma_read_keeps_memory(m, wrap16(cpu.program_counter.0 + 1));
    lemma_read_keeps_memory(m1, wrap16(cpu.program_counter.0 + 2));
}

/// On the console's bus, STA abs then LDA abs of the same address of plain
/// memory give back A unchanged, whatever the rest of the bus does.
#[verifier::spinoff_prover]
#[verifier::rlimit(50)]
pub proof fn law_sta_lda_bus(cpu: Cpu, m: SystemModel)
    requires
        m.ram.len() == 2048,
        m.cartridge matches CartridgeModel::Mmc3(c) ==> c.prg_ram.len() == 8192,
        !cpu.irq_requested,
        M1::read_result(m, cpu.program_counter.0).1 == 0x8d,
        M1::read_result(bus_run(cpu, m).1, bus_run(cpu, m).0.program_counter.0).1 == 0xad,
        bus_absolute_target(bus_run(cpu, m).0, bus_run(cpu, m).1) == bus_absolute_target(cpu, m),
        plain_memory(m, bus_absolute_target(cpu, m)),
    ensures
        bus_run(bus_run(cpu, m).0, bus_run(cpu, m).1).0.accumulator == cpu.accumulator,
{
    let a = bus_absolute_target(cpu, m);
    let (m1, op1) = system_read_spec(m, cpu.program_counter.0);
    lemma_read_keeps_memory(m, cpu.program_counter.0);
    let (m2, operand) = resolve_spec::<SystemMemoryMapper>(cpu, m1, AddrMode::Absolute);
    lemma_absolute_keeps_memory(cpu, m1);
    assert(operand == Operand::Address(a));
    assert(plain_memory(m2, a));
    lemma_plain_write_read(m2, a, cpu.accumulator, cpu);
    let (m3, c3) = system_write_spec(m2, a, cpu.accumulator, cpu);
    let (cpu1, mem1) = bus_run(cpu, m);
    assert(mem1 == m3);
    assert(cpu1.accumulator == cpu.accumulator);
    assert(!cpu1.irq_requested);
    let (m4, op2) = system_read_spec(mem1, cpu1.program_counter.0);
    lemma_read_keeps_memory(mem1, cpu1.program_counter.0);
    let (m5, operand2) = resolve_spec::<SystemMemoryMapper>(cpu1, m4, AddrMode::Absolute);
    lemma_absolute_keeps_memory(cpu1, m4);
    assert(operand2 == Operand::Address(a));
    lemma_plain_read(m3, m5, a);
}

} // verus!

verus! {

/// On any bus, JMP (ind) through a pointer at the end of a page reads the
/// low byte there and the high byte from the start of the same page; the
/// next page is never read.
pub proof fn law_indirect_high_byte<M: CpuMemory>(mem: M::V, a: u16)
    requires
        a % 256 == 0xff,
    ensures
        get_word_spec::<M>(mem, Operand::IndirectWord(a)) == ({
            let (m1, lo) = M::read_result(mem, a);
            let (m2, hi) = M::read_result(m1, (a - 0xff) as u16);
            (m2, (hi * 256 + lo) as u16)
        }),
{
    assert(indirect_high_addr(a) == (a - 0xff) as u16);
}

} // verus!
