use vstd::prelude::*;
use crate::cpu::Cpu;
use crate::events::{EventList, FutureEvent, FutureEventType, insert_all, lemma_insert_all_step};

verus! {

#[derive(Clone, Copy, PartialEq, Eq, Structural, Debug)]
pub enum Mirroring {
    Horizontal,
    Vertical,
    /// Four nametables wired on the board; writes to $A000 cannot change it.
    Hardwired,
}

#[derive(Clone, Copy, PartialEq, Eq, Structural, Debug)]
pub enum MMC3MapperError {
    /// PRG must be whole 8 KiB banks, at least two of them.
    BadPrgRomSize,
    BadChrRomSize,
}

/// The 8 KiB PRG banks that the CPU windows can show.
#[derive(Clone, Copy, PartialEq, Eq, Structural, Debug)]
pub enum PrgBank {
    R6,
    R7,
    SecondLast,
    Last,
}

pub const MAX_PRG_ROM: usize = 0x400000;
pub const MAX_CHR_ROM: usize = 0x200000;

/// Mapper 4: switchable PRG and CHR banks and a scanline IRQ counter.
pub struct Mmc3 {
    prg_ram: [u8; 8192],
    prg_rom: Vec<u8>,
    chr_rom: Vec<u8>,
    registers: [u8; 8],
    nametables: [u8; 4096],
    next_register_update: u8,
    mirroring: Mirroring,
    prg_bank_mode: bool,
    chr_bank_mode: bool,
    enable_interrupt: bool,
    irq_latch: u8,
    irq_value: u8,
    reload: bool,
}

pub struct Mmc3Model {
    pub prg_ram: Seq<u8>,
    pub prg_rom: Seq<u8>,
    pub chr_rom: Seq<u8>,
    pub registers: Seq<u8>,
    pub nametables: Seq<u8>,
    pub next_register_update: u8,
    pub mirroring: Mirroring,
    pub prg_bank_mode: bool,
    pub chr_bank_mode: bool,
    pub enable_interrupt: bool,
    pub irq_latch: u8,
    pub irq_value: u8,
    pub reload: bool,
}

impl View for Mmc3 {
    type V = Mmc3Model;

    closed spec fn view(&self) -> Mmc3Model {
        Mmc3Model {
            prg_ram: self.prg_ram@,
            prg_rom: self.prg_rom@,
            chr_rom: self.chr_rom@,
            registers: self.registers@,
            nametables: self.nametables@,
            next_register_update: self.next_register_update,
            mirroring: self.mirroring,
            prg_bank_mode: self.prg_bank_mode,
            chr_bank_mode: self.chr_bank_mode,
            enable_interrupt: self.enable_interrupt,
            irq_latch: self.irq_latch,
            irq_value: self.irq_value,
            reload: self.reload,
        }
    }
}

/// Where a PRG bank starts. A bank number past the end wraps around the ROM.
pub open spec fn prg_bank_base(m: Mmc3Model, bank: PrgBank) -> int {
    let banks = m.prg_rom.len() as int / 0x2000;
    match bank {
        PrgBank::R6 => (m.registers[6] as int % banks) * 0x2000,
        PrgBank::R7 => (m.registers[7] as int % banks) * 0x2000,
        PrgBank::SecondLast => m.prg_rom.len() - 0x4000,
        PrgBank::Last => m.prg_rom.len() - 0x2000,
    }
}

pub open spec fn prg_read_spec(m: Mmc3Model, bank: PrgBank, addr: u16) -> u8 {
    m.prg_rom[prg_bank_base(m, bank) + addr % 0x2000]
}

pub open spec fn mmc3_cpu_read_spec(m: Mmc3Model, addr: u16) -> u8 {
    if 0x8000 <= addr <= 0x9fff {
        prg_read_spec(m, if !m.prg_bank_mode { PrgBank::R6 } else { PrgBank::SecondLast }, addr)
    } else if 0xa000 <= addr <= 0xbfff {
        prg_read_spec(m, PrgBank::R7, addr)
    } else if 0xc000 <= addr <= 0xdfff {
        prg_read_spec(m, if !m.prg_bank_mode { PrgBank::SecondLast } else { PrgBank::R6 }, addr)
    } else if addr >= 0xe000 {
        prg_read_spec(m, PrgBank::Last, addr)
    } else if 0x6000 <= addr <= 0x7fff {
        m.prg_ram[(addr % 0x2000) as int]
    } else {
        0
    }
}

/// A byte of CHR, in 1 KiB bank `bank` at `offset`; banks past the end wrap.
pub open spec fn chr_read_spec(m: Mmc3Model, bank: int, offset: int) -> u8 {
    m.chr_rom[(bank * 0x400 + offset) % m.chr_rom.len() as int]
}

/// A 2 KiB bank of R0 or R1 (their low bit is ignored).
pub open spec fn big_chr_spec(m: Mmc3Model, addr: u16) -> u8 {
    let r = if addr % 0x1000 < 0x800 { 0int } else { 1int };
    chr_read_spec(m, (m.registers[r] / 2 * 2) as int, (addr % 0x800) as int)
}

/// A 1 KiB bank of R2 to R5.
pub open spec fn small_chr_spec(m: Mmc3Model, addr: u16) -> u8 {
    chr_read_spec(m, m.registers[2 + (addr % 0x1000) / 0x400] as int, (addr % 0x400) as int)
}

pub open spec fn mmc3_nametable_index(mirroring: Mirroring, addr: u16) -> int {
    match mirroring {
        Mirroring::Vertical => ((addr / 1024) % 2) * 1024 + addr % 1024,
        Mirroring::Horizontal => ((addr / 2048) % 2) * 1024 + addr % 1024,
        Mirroring::Hardwired => ((addr / 1024) % 4) * 1024 + addr % 1024,
    }
}

pub open spec fn mmc3_ppu_read_spec(m: Mmc3Model, addr: u16) -> u8 {
    if addr < 0x1000 {
        if !m.chr_bank_mode { big_chr_spec(m, addr) } else { small_chr_spec(m, addr) }
    } else if addr < 0x2000 {
        if !m.chr_bank_mode { small_chr_spec(m, addr) } else { big_chr_spec(m, addr) }
    } else {
        m.nametables[mmc3_nametable_index(m.mirroring, addr)]
    }
}

pub open spec fn mmc3_ppu_write_spec(m: Mmc3Model, addr: u16, v: u8) -> Mmc3Model {
    if addr < 0x2000 {
        m
    } else {
        Mmc3Model { nametables: m.nametables.update(mmc3_nametable_index(m.mirroring, addr), v), ..m }
    }
}

/// A CPU write: the register pairs at $8000, $A000, $C000 and $E000 (even and
/// odd addresses), and PRG RAM at $6000-$7FFF.
pub open spec fn mmc3_cpu_write_spec(m: Mmc3Model, addr: u16, v: u8, cpu: Cpu) -> (Mmc3Model, Cpu) {
    let even = addr % 2 == 0;
    if 0x8000 <= addr <= 0x9fff {
        if even {
            (Mmc3Model { next_register_update: v % 8, prg_bank_mode: v & 0x40 != 0, chr_bank_mode: v & 0x80 != 0, ..m }, cpu)
        } else {
            (Mmc3Model { registers: m.registers.update(m.next_register_update as int, v), ..m }, cpu)
        }
    } else if 0xa000 <= addr <= 0xbfff {
        if even && m.mirroring != Mirroring::Hardwired {
            (Mmc3Model { mirroring: if v % 2 == 1 { Mirroring::Horizontal } else { Mirroring::Vertical }, ..m }, cpu)
        } else {
            (m, cpu)
        }
    } else if 0xc000 <= addr <= 0xdfff {
        if even {
            (Mmc3Model { irq_latch: v, ..m }, cpu)
        } else {
            (Mmc3Model { reload: true, ..m }, cpu)
        }
    } else if addr >= 0xe000 {
        if even {
            (Mmc3Model { enable_interrupt: false, ..m }, Cpu { irq_requested: false, ..cpu })
        } else {
            (Mmc3Model { enable_interrupt: true, ..m }, cpu)
        }
    } else if 0x6000 <= addr <= 0x7fff {
        (Mmc3Model { prg_ram: m.prg_ram.update((addr % 0x2000) as int, v), ..m }, cpu)
    } else {
        (m, cpu)
    }
}

/// One scanline tick of the IRQ counter. Nothing happens while rendering is
/// off; a pending reload, or a zero counter, loads the latch; otherwise the
/// counter goes down, and on reaching zero with IRQs enabled it asks the CPU
/// for an IRQ and reloads.
pub open spec fn mmc3_tick_spec(m: Mmc3Model, cpu: Cpu, ppumask: u8) -> (Mmc3Model, Cpu) {
    if ppumask & 0x18 == 0 {
        (m, cpu)
    } else if m.reload {
        (Mmc3Model { reload: false, irq_value: m.irq_latch, ..m }, cpu)
    } else if m.irq_value == 0 {
        (Mmc3Model { irq_value: m.irq_latch, ..m }, cpu)
    } else if m.irq_value == 1 && m.enable_interrupt {
        (Mmc3Model { irq_value: m.irq_latch, ..m }, Cpu { irq_requested: true, ..cpu })
    } else {
        (Mmc3Model { irq_value: (m.irq_value - 1) as u8, ..m }, cpu)
    }
}

/// The dot of the `i`-th scanline tick of a frame.
pub open spec fn mmc3_tick_dot(i: int) -> u64 {
    ((i + 22) * 341 + 260) as u64
}

pub open spec fn mmc3_tick_event(i: int) -> FutureEvent {
    FutureEvent { cycle: mmc3_tick_dot(i), tp: FutureEventType::Cartridge(0) }
}

/// The frame's 241 scanline ticks.
pub open spec fn mmc3_ticks() -> Seq<FutureEvent> {
    Seq::new(241, |i: int| mmc3_tick_event(i))
}

/// The shape every MMC3 cartridge keeps: whole 8 KiB PRG banks, two at
/// least; some CHR; eight bank registers, four nametables and 8 KiB of PRG RAM.
pub open spec fn mmc3_wf(m: Mmc3Model) -> bool {
    &&& 0x4000 <= m.prg_rom.len() <= MAX_PRG_ROM
    &&& m.prg_rom.len() % 0x2000 == 0
    &&& 0 < m.chr_rom.len() <= MAX_CHR_ROM
    &&& m.registers.len() == 8
    &&& m.nametables.len() == 4096
    &&& m.prg_ram.len() == 8192
    &&& m.next_register_update < 8
}

/// A fresh cartridge made from these PRG and CHR images; empty CHR becomes
/// 8 KiB of zeros.
pub open spec fn mmc3_built(c: Mmc3Model, prg_rom: Seq<u8>, chr_rom: Seq<u8>, mirroring: Mirroring) -> bool {
    &&& c.prg_rom == prg_rom
    &&& c.chr_rom == if chr_rom.len() == 0 { Seq::new(8192, |i: int| 0u8) } else { chr_rom }
    &&& c.registers == Seq::new(8, |i: int| 0u8)
    &&& c.nametables == Seq::new(4096, |i: int| 0u8)
    &&& c.prg_ram == Seq::new(8192, |i: int| 0u8)
    &&& c.mirroring == mirroring
    &&& c.next_register_update == 0 && !c.prg_bank_mode && !c.chr_bank_mode
    &&& !c.enable_interrupt && c.irq_latch == 0 && c.irq_value == 0 && !c.reload
}

impl Mmc3 {
    #[verifier::type_invariant]
    closed spec fn inv(&self) -> bool {
        &&& 0x4000 <= self.prg_rom@.len() <= MAX_PRG_ROM
        &&& self.prg_rom@.len() % 0x2000 == 0
        &&& 0 < self.chr_rom@.len() <= MAX_CHR_ROM
        &&& self.next_register_update < 8
    }

    /// PRG must be whole 8 KiB banks, two at least; empty CHR is replaced by
    /// 8 KiB of zeros.
    pub fn new(prg_rom: &Vec<u8>, chr_rom: &Vec<u8>, mirroring: Mirroring) -> (r: Result<Mmc3, MMC3MapperError>)
        ensures
            (prg_rom@.len() < 0x4000 || prg_rom@.len() > MAX_PRG_ROM || prg_rom@.len() % 0x2000 != 0)
                <==> r == Err::<Mmc3, MMC3MapperError>(MMC3MapperError::BadPrgRomSize),
            (!(prg_rom@.len() < 0x4000 || prg_rom@.len() > MAX_PRG_ROM || prg_rom@.len() % 0x2000 != 0)
                && chr_rom@.len() > MAX_CHR_ROM) <==> r == Err::<Mmc3, MMC3MapperError>(MMC3MapperError::BadChrRomSize),
            r is Ok <==> 0x4000 <= prg_rom@.len() <= MAX_PRG_ROM && prg_rom@.len() % 0x2000 == 0 && chr_rom@.len() <= MAX_CHR_ROM,
            r matches Ok(c) ==> mmc3_built(c@, prg_rom@, chr_rom@, mirroring) && mmc3_wf(c@),
    {
        let len = prg_rom.len();
        if len < 0x4000 || len > MAX_PRG_ROM || len % 0x2000 != 0 {
            return Err(MMC3MapperError::BadPrgRomSize);
        }
        if chr_rom.len() > MAX_CHR_ROM {
            return Err(MMC3MapperError::BadChrRomSize);
        }
        let chr = if chr_rom.len() == 0 {
            let mut z: Vec<u8> = Vec::new();
            let mut i: usize = 0;
            while i < 8192
                invariant
                    i <= 8192,
                    z@ == Seq::new(i as nat, |j: int| 0u8),
                decreases 8192 - i,
            {
                z.push(0);
                i = i + 1;
                assert(z@ =~= Seq::new(i as nat, |j: int| 0u8));
            }
            z
        } else {
            chr_rom.clone()
        };
        let r = Mmc3 {
            prg_rom: prg_rom.clone(),
            chr_rom: chr,
            mirroring,
            registers: [0u8; 8],
            next_register_update: 0,
            prg_bank_mode: false,
            chr_bank_mode: false,
            nametables: [0u8; 4096],
            enable_interrupt: false,
            irq_latch: 0,
            irq_value: 0,
            prg_ram: [0u8; 8192],
            reload: false,
        };
        assert(r@.registers =~= Seq::new(8, |i: int| 0u8));
        assert(r@.nametables =~= Seq::new(4096, |i: int| 0u8));
        assert(r@.prg_ram =~= Seq::new(8192, |i: int| 0u8));
        Ok(r)
    }

    fn read_prg_bank(&self, bank: PrgBank, addr: u16) -> (r: u8)
        ensures
            r == prg_read_spec(self@, bank, addr),
    {
        proof { use_type_invariant(self); }
        let len = self.prg_rom.len();
        let banks = len / 0x2000;
        let base: usize = match bank {
            PrgBank::R6 => (self.registers[6] as usize % banks) * 0x2000,
            PrgBank::R7 => (self.registers[7] as usize % banks) * 0x2000,
            PrgBank::SecondLast => len - 0x4000,
            PrgBank::Last => len - 0x2000,
        };
        proof {
            let b6 = self.registers[6] as int % banks as int;
            let b7 = self.registers[7] as int % banks as int;
            assert(b6 * 0x2000 + 0x2000 <= banks * 0x2000) by (nonlinear_arith)
                requires 0 <= b6 < banks;
            assert(b7 * 0x2000 + 0x2000 <= banks * 0x2000) by (nonlinear_arith)
                requires 0 <= b7 < banks;
        }
        self.prg_rom[base + (addr % 0x2000) as usize]
    }

    fn read_chr(&self, bank: usize, offset: usize) -> (r: u8)
        requires
            bank < 256,
            offset < 0x800,
        ensures
            r == chr_read_spec(self@, bank as int, offset as int),
    {
        proof { use_type_invariant(self); }
        self.chr_rom[(bank * 0x400 + offset) % self.chr_rom.len()]
    }

    fn read_big_chr_bank(&self, addr: u16) -> (r: u8)
        ensures
            r == big_chr_spec(self@, addr),
    {
        let reg: usize = if addr % 0x1000 < 0x800 { 0 } else { 1 };
        self.read_chr((self.registers[reg] / 2 * 2) as usize, (addr % 0x800) as usize)
    }

    fn read_small_chr_bank(&self, addr: u16) -> (r: u8)
        ensures
            r == small_chr_spec(self@, addr),
    {
        let reg = 2 + ((addr % 0x1000) / 0x400) as usize;
        self.read_chr(self.registers[reg] as usize, (addr % 0x400) as usize)
    }

    pub fn read(&self, addr: u16) -> (r: u8)
        ensures
            r == mmc3_cpu_read_spec(self@, addr),
    {
        if 0x8000 <= addr && addr <= 0x9fff {
            self.read_prg_bank(if !self.prg_bank_mode { PrgBank::R6 } else { PrgBank::SecondLast }, addr)
        } else if 0xa000 <= addr && addr <= 0xbfff {
            self.read_prg_bank(PrgBank::R7, addr)
        } else if 0xc000 <= addr && addr <= 0xdfff {
            self.read_prg_bank(if !self.prg_bank_mode { PrgBank::SecondLast } else { PrgBank::R6 }, addr)
        } else if addr >= 0xe000 {
            self.read_prg_bank(PrgBank::Last, addr)
        } else if 0x6000 <= addr && addr <= 0x7fff {
            self.prg_ram[(addr % 0x2000) as usize]
        } else {
            0
        }
    }

    pub fn write(&mut self, addr: u16, v: u8, cpu: &mut Cpu)
        ensures
            mmc3_wf(old(self)@) ==> mmc3_wf(final(self)@),
            (final(self)@, *final(cpu)) == mmc3_cpu_write_spec(old(self)@, addr, v, *old(cpu)),
    {
        proof { use_type_invariant(&*self); }
        let even = addr % 2 == 0;
        if 0x8000 <= addr && addr <= 0x9fff {
            if even {
                self.next_register_update = v % 8;
                self.prg_bank_mode = (v & 0x40) != 0;
                self.chr_bank_mode = (v & 0x80) != 0;
            } else {
                self.registers[self.next_register_update as usize] = v;
            }
        } else if 0xa000 <= addr && addr <= 0xbfff {
            if even && self.mirroring != Mirroring::Hardwired {
                self.mirroring = if v % 2 == 1 { Mirroring::Horizontal } else { Mirroring::Vertical };
            }
        } else if 0xc000 <= addr && addr <= 0xdfff {
            if even {
                self.irq_latch = v;
            } else {
                self.reload = true;
            }
        } else if addr >= 0xe000 {
            if even {
                self.enable_interrupt = false;
                cpu.irq_requested = false;
            } else {
                self.enable_interrupt = true;
            }
        } else if 0x6000 <= addr && addr <= 0x7fff {
            self.prg_ram[(addr % 0x2000) as usize] = v;
        }
    }

    fn nametable_offset(&self, addr: u16) -> (r: usize)
        ensures
            r == mmc3_nametable_index(self.mirroring, addr),
            r < 4096,
    {
        match self.mirroring {
            Mirroring::Vertical => ((addr / 1024) % 2) as usize * 1024 + (addr % 1024) as usize,
            Mirroring::Horizontal => ((addr / 2048) % 2) as usize * 1024 + (addr % 1024) as usize,
            Mirroring::Hardwired => ((addr / 1024) % 4) as usize * 1024 + (addr % 1024) as usize,
        }
    }

    pub fn ppu_read(&self, addr: u16) -> (r: u8)
        ensures
            r == mmc3_ppu_read_spec(self@, addr),
    {
        if addr < 0x1000 {
            if !self.chr_bank_mode { self.read_big_chr_bank(addr) } else { self.read_small_chr_bank(addr) }
        } else if addr < 0x2000 {
            if !self.chr_bank_mode { self.read_small_chr_bank(addr) } else { self.read_big_chr_bank(addr) }
        } else {
            let i = self.nametable_offset(addr);
            self.nametables[i]
        }
    }

    pub fn ppu_write(&mut self, addr: u16, v: u8)
        ensures
            mmc3_wf(old(self)@) ==> mmc3_wf(final(self)@),
            final(self)@ == mmc3_ppu_write_spec(old(self)@, addr, v),
    {
        proof { use_type_invariant(&*self); }
        if addr < 0x2000 {
            return;
        }
        let i = self.nametable_offset(addr);
        self.nametables[i] = v;
    }

    /// A scanline tick; `ppumask` tells whether rendering is on.
    pub fn on_event(&mut self, cpu: &mut Cpu, ppumask: u8)
        ensures
            mmc3_wf(old(self)@) ==> mmc3_wf(final(self)@),
            (final(self)@, *final(cpu)) == mmc3_tick_spec(old(self)@, *old(cpu), ppumask),
    {
        proof { use_type_invariant(&*self); }
        if ppumask & 0x18 == 0 {
            return;
        }
        if self.reload {
            self.reload = false;
            self.irq_value = self.irq_latch;
        } else if self.irq_value == 0 {
            self.irq_value = self.irq_latch;
        } else {
            self.irq_value = self.irq_value - 1;
            if self.irq_value == 0 && self.enable_interrupt {
                cpu.irq_requested = true;
                self.irq_value = self.irq_latch;
            }
        }
    }

    /// Schedules the frame's scanline ticks.
    pub fn start_of_frame(&self, event_list: &mut EventList)
        requires
            old(event_list).wf(),
        ensures
            final(event_list).wf(),
            final(event_list)@ == insert_all(old(event_list)@, mmc3_ticks()),
    {
        let mut i: u64 = 0;
        while i < 241
            invariant
                i <= 241,
                event_list.wf(),
                event_list@ == insert_all(old(event_list)@, mmc3_ticks().take(i as int)),
            decreases 241 - i,
        {
            let e = FutureEvent { cycle: (i + 22) * 341 + 260, tp: FutureEventType::Cartridge(0) };
            proof {
                lemma_insert_all_step(old(event_list)@, mmc3_ticks(), i as int);
                assert(e == mmc3_ticks()[i as int]);
            }
            event_list.add_event(e);
            i = i + 1;
        }
        assert(mmc3_ticks().take(241) =~= mmc3_ticks());
    }
}

} // verus!
