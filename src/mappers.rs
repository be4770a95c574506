use vstd::prelude::*;
use crate::cpu::{Cpu, CpuMemory, add_cycles};
use crate::joypad::{Joypad, JoypadModel, joypad_read_spec, joypad_write_spec};
use crate::memory_controller::{MemoryPtr, Ram, ram_index};
use crate::ppu::{PPU, PPUModel, PPUStateModel, register_read_spec, register_write_spec};
use crate::events::{EventList, insert_all};
use crate::mmc3::{Mmc3, Mmc3Model, mmc3_cpu_read_spec, mmc3_cpu_write_spec, mmc3_ppu_read_spec, mmc3_ppu_write_spec, mmc3_tick_spec, mmc3_ticks};
use crate::nrom::{Nrom, NromModel, nrom_cpu_read_spec, nrom_ppu_read_spec, nrom_ppu_write_spec};

verus! {

/// The cartridge in the slot: one of the supported mappers.
pub enum Cartridge {
    Nrom(Nrom),
    Mmc3(Mmc3),
}

pub enum CartridgeModel {
    Nrom(NromModel),
    Mmc3(Mmc3Model),
}

impl View for Cartridge {
    type V = CartridgeModel;

    open spec fn view(&self) -> CartridgeModel {
        match self {
            Cartridge::Nrom(n) => CartridgeModel::Nrom(n@),
            Cartridge::Mmc3(m) => CartridgeModel::Mmc3(m@),
        }
    }
}

pub open spec fn cart_cpu_read_spec(c: CartridgeModel, addr: u16) -> u8 {
    match c {
        CartridgeModel::Nrom(n) => nrom_cpu_read_spec(n, addr),
        CartridgeModel::Mmc3(m) => mmc3_cpu_read_spec(m, addr),
    }
}

pub open spec fn cart_cpu_write_spec(c: CartridgeModel, addr: u16, v: u8, cpu: Cpu) -> (CartridgeModel, Cpu) {
    match c {
        CartridgeModel::Nrom(n) => (c, cpu),
        CartridgeModel::Mmc3(m) => {
            let (m1, c1) = mmc3_cpu_write_spec(m, addr, v, cpu);
            (CartridgeModel::Mmc3(m1), c1)
        },
    }
}

pub open spec fn cart_ppu_read_spec(c: CartridgeModel, addr: u16) -> u8 {
    match c {
        CartridgeModel::Nrom(n) => nrom_ppu_read_spec(n, addr),
        CartridgeModel::Mmc3(m) => mmc3_ppu_read_spec(m, addr),
    }
}

pub open spec fn cart_ppu_write_spec(c: CartridgeModel, addr: u16, v: u8) -> CartridgeModel {
    match c {
        CartridgeModel::Nrom(n) => CartridgeModel::Nrom(nrom_ppu_write_spec(n, addr, v)),
        CartridgeModel::Mmc3(m) => CartridgeModel::Mmc3(mmc3_ppu_write_spec(m, addr, v)),
    }
}

pub open spec fn cart_event_spec(c: CartridgeModel, cpu: Cpu, ppumask: u8) -> (CartridgeModel, Cpu) {
    match c {
        CartridgeModel::Nrom(n) => (c, cpu),
        CartridgeModel::Mmc3(m) => {
            let (m1, c1) = mmc3_tick_spec(m, cpu, ppumask);
            (CartridgeModel::Mmc3(m1), c1)
        },
    }
}

impl Cartridge {
    /// A CPU read in $4020-$FFFF.
    pub fn read(&self, addr: u16) -> (r: u8)
        ensures
            r == cart_cpu_read_spec(self@, addr),
    {
        match self {
            Cartridge::Nrom(n) => n.read(addr),
            Cartridge::Mmc3(m) => m.read(addr),
        }
    }

    /// A CPU write in $4020-$FFFF; NROM ignores them.
    pub fn write(&mut self, addr: u16, v: u8, cpu: &mut Cpu)
        ensures
            (final(self)@, *final(cpu)) == cart_cpu_write_spec(old(self)@, addr, v, *old(cpu)),
    {
        match self {
            Cartridge::Nrom(n) => {},
            Cartridge::Mmc3(m) => m.write(addr, v, cpu),
        }
    }

    pub fn ppu_read(&self, addr: u16) -> (r: u8)
        ensures
            r == cart_ppu_read_spec(self@, addr),
    {
        match self {
            Cartridge::Nrom(n) => n.ppu_read(addr),
            Cartridge::Mmc3(m) => m.ppu_read(addr),
        }
    }

    pub fn ppu_write(&mut self, addr: u16, v: u8)
        ensures
            final(self)@ == cart_ppu_write_spec(old(self)@, addr, v),
    {
        match self {
            Cartridge::Nrom(n) => n.ppu_write(addr, v),
            Cartridge::Mmc3(m) => m.ppu_write(addr, v),
        }
    }

    /// Schedules the cartridge's events for a new frame (MMC3's scanline ticks).
    pub fn start_of_frame(&self, event_list: &mut EventList)
        requires
            old(event_list).wf(),
        ensures
            final(event_list).wf(),
            self is Nrom ==> final(event_list)@ == old(event_list)@,
            self is Mmc3 ==> final(event_list)@ == insert_all(old(event_list)@, mmc3_ticks()),
    {
        match self {
            Cartridge::Nrom(n) => {},
            Cartridge::Mmc3(m) => m.start_of_frame(event_list),
        }
    }

    /// A cartridge event came due; `ppumask` tells whether rendering is on.
    pub fn on_event(&mut self, cpu: &mut Cpu, ppumask: u8)
        ensures
            (final(self)@, *final(cpu)) == cart_event_spec(old(self)@, *old(cpu), ppumask),
    {
        match self {
            Cartridge::Nrom(n) => {},
            Cartridge::Mmc3(m) => m.on_event(cpu, ppumask),
        }
    }

    /// The 256 bytes of a page in cartridge space, for a sprite DMA.
    pub fn read_page_for_oam(&self, page: u8) -> (r: [u8; 256])
        ensures
            forall|i: int| 0 <= i < 256 ==> #[trigger] r@[i] == cart_cpu_read_spec(self@, (page as int * 256 + i) as u16),
    {
        let mut result = [0u8; 256];
        let start: u16 = (page as u16) * 256;
        let mut i: u16 = 0;
        while i < 256
            invariant
                0 <= i <= 256,
                start == page as int * 256,
                forall|j: int| 0 <= j < i ==> #[trigger] result@[j] == cart_cpu_read_spec(self@, (page as int * 256 + j) as u16),
            decreases 256 - i,
        {
            result[i as usize] = self.read(start + i);
            i = i + 1;
        }
        result
    }
}

} // verus!

verus! {

/// The CPU's address space: RAM, PPU registers, sprite DMA, the gamepad and
/// the cartridge.
pub struct SystemMemoryMapper {
    pub ram: Ram,
    pub cartridge: Cartridge,
    pub ppu: PPU,
    pub gamepad: Joypad,
    /// The last page that a sprite DMA was refused from ($20-$3F), for the
    /// driver to report.
    pub bad_dma_page: Option<u8>,
}

pub struct SystemModel {
    pub ram: Seq<u8>,
    pub cartridge: CartridgeModel,
    pub ppu: PPUModel,
    pub gamepad: JoypadModel,
    pub bad_dma_page: Option<u8>,
}

impl View for SystemMemoryMapper {
    type V = SystemModel;

    open spec fn view(&self) -> SystemModel {
        SystemModel {
            ram: self.ram@,
            cartridge: self.cartridge@,
            ppu: self.ppu@,
            gamepad: self.gamepad@,
            bad_dma_page: self.bad_dma_page,
        }
    }
}

/// The bytes that a sprite DMA from `page` copies, or none for a page that
/// the DMA may not read ($20-$3F: the PPU registers and the I/O area); such a
/// page is recorded instead.
pub open spec fn dma_source(m: SystemModel, page: u8) -> Option<Seq<u8>> {
    if page < 0x20 {
        Some(Seq::new(256, |i: int| m.ram[ram_index((page * 256 + i) as u16)]))
    } else if page >= 0x40 {
        Some(Seq::new(256, |i: int| cart_cpu_read_spec(m.cartridge, (page * 256 + i) as u16)))
    } else {
        None
    }
}

pub open spec fn with_ppu_state(m: SystemModel, s: PPUStateModel) -> SystemModel {
    SystemModel { ppu: PPUModel { state: s, ..m.ppu }, ..m }
}

pub open spec fn system_read_spec(m: SystemModel, addr: u16) -> (SystemModel, u8) {
    if addr < 0x2000 {
        (m, m.ram[ram_index(addr)])
    } else if addr <= 0x3fff {
        let (s, v) = register_read_spec(m.ppu.state, m.cartridge, addr);
        (with_ppu_state(m, s), v)
    } else if addr == 0x4016 {
        let (g, v) = joypad_read_spec(m.gamepad);
        (SystemModel { gamepad: g, ..m }, v)
    } else if addr < 0x4020 {
        (m, 0)
    } else {
        (m, cart_cpu_read_spec(m.cartridge, addr))
    }
}

pub open spec fn system_write_spec(m: SystemModel, addr: u16, v: u8, cpu: Cpu) -> (SystemModel, Cpu) {
    if addr < 0x2000 {
        (SystemModel { ram: m.ram.update(ram_index(addr), v), ..m }, cpu)
    } else if addr <= 0x3fff {
        let (s, c) = register_write_spec(m.ppu.state, m.cartridge, addr, v);
        (SystemModel { cartridge: c, ..with_ppu_state(m, s) }, cpu)
    } else if addr == 0x4014 {
        match dma_source(m, v) {
            Some(page) => (
                with_ppu_state(m, PPUStateModel { oam: page, ..m.ppu.state }),
                Cpu { cycle_count: add_cycles(cpu.cycle_count, 513), ..cpu },
            ),
            None => (SystemModel { bad_dma_page: Some(v), ..m }, cpu),
        }
    } else if addr == 0x4016 {
        (SystemModel { gamepad: joypad_write_spec(m.gamepad, v), ..m }, cpu)
    } else if addr < 0x4020 {
        (m, cpu)
    } else {
        let (c, cpu1) = cart_cpu_write_spec(m.cartridge, addr, v, cpu);
        (SystemModel { cartridge: c, ..m }, cpu1)
    }
}

impl SystemMemoryMapper {
    pub fn new(ram: Ram, cartridge: Cartridge, ppu: PPU, gamepad: Joypad) -> (r: SystemMemoryMapper)
        ensures
            r.ram == ram && r.cartridge == cartridge && r.ppu == ppu && r.gamepad == gamepad,
            r.bad_dma_page is None,
    {
        SystemMemoryMapper { ram, cartridge, ppu, gamepad, bad_dma_page: None }
    }
}

impl CpuMemory for SystemMemoryMapper {
    open spec fn read_result(m: SystemModel, addr: u16) -> (SystemModel, u8) {
        system_read_spec(m, addr)
    }

    open spec fn write_result(m: SystemModel, addr: u16, value: u8, cpu: Cpu) -> (SystemModel, Cpu) {
        system_write_spec(m, addr, value, cpu)
    }

    proof fn lemma_write_keeps_time(m: SystemModel, addr: u16, value: u8, cpu: Cpu) {
    }

    proof fn lemma_write_cost(m: SystemModel, addr: u16, value: u8, cpu: Cpu) {
    }

    fn read(&mut self, addr: MemoryPtr, cpu: &mut Cpu) -> (r: u8) {
        let a = addr.0;
        if a < 0x2000 {
            self.ram.load(a)
        } else if a <= 0x3fff {
            self.ppu.read(&self.cartridge, addr)
        } else if a == 0x4016 {
            self.gamepad.read(addr)
        } else if a < 0x4020 {
            0
        } else {
            self.cartridge.read(a)
        }
    }

    fn write(&mut self, addr: MemoryPtr, value: u8, cpu: &mut Cpu) {
        let a = addr.0;
        if a < 0x2000 {
            self.ram.store(a, value);
        } else if a <= 0x3fff {
            self.ppu.write(&mut self.cartridge, addr, value);
        } else if a == 0x4014 {
            if value < 0x20 {
                let page = self.ram.read_page_for_oam(value);
                assert(page@ =~= dma_source(old(self)@, value).unwrap());
                self.ppu.dma_transfer(page, cpu);
            } else if value >= 0x40 {
                let page = self.cartridge.read_page_for_oam(value);
                assert(page@ =~= dma_source(old(self)@, value).unwrap());
                self.ppu.dma_transfer(page, cpu);
            } else {
                self.bad_dma_page = Some(value);
            }
        } else if a == 0x4016 {
            self.gamepad.write(addr, value);
        } else if a >= 0x4020 {
            self.cartridge.write(a, value, cpu);
        }
    }
}

} // verus!
