use vstd::prelude::*;
use crate::cpu::{Cpu, add_cycles};
use crate::mappers::{Cartridge, CartridgeModel, cart_ppu_read_spec, cart_ppu_write_spec};
use crate::memory_controller::{MemoryPtr, wrap16};
use crate::events::{EventList, FutureEvent, FutureEventType, PpuEvent, insert_all, insert_sorted, lemma_insert_all_step, lemma_weight_insert, sorted_pos, weight};
use crate::renderer::{FRAMEBUFFER_LEN, SCREEN_HEIGHT, bg_row, lemma_sprite0_hit_range, only_row_changed, row_of, sprite0_hit, sprites_row};

verus! {

pub const PPUMASK_SHOW_SPRITE: u8 = 0x10;
pub const PPUMASK_SHOW_SPRITE_LEFT: u8 = 0x04;
pub const PPUMASK_SHOW_BACKGROUND: u8 = 0x08;
pub const PPUMASK_SHOW_BACKGROUND_LEFT: u8 = 0x02;
pub const PPUSTATUS_VBLANK: u8 = 0x80;
pub const PPUSTATUS_SPRITE0_HIT: u8 = 0x40;
pub const PPUCTRL_VRAM_INCREMENT: u8 = 0x04;
pub const PPUCTRL_VBLANK: u8 = 0x80;

/// The write toggle shared by $2005 and $2006.
#[derive(Clone, Copy, PartialEq, Eq, Structural, Debug)]
pub enum Latch {
    Low,
    High,
}

/// The live scroll position: `x` holds coarse and fine X, `y` the line within
/// the nametable.
#[derive(Clone, Copy, PartialEq, Eq, Structural, Debug)]
pub struct Scroll {
    pub x: u8,
    pub y: u8,
}

#[derive(Clone, Copy)]
pub struct PPUState {
    pub ppustatus: u8,
    pub ppuctrl: u8,
    pub ppumask: u8,
    pub oamaddr: u8,
    pub ppuscroll: Scroll,
    pub oam: [u8; 256],
    pub pallete: [u8; 32],
    pub last_read_byte: u8,
    pub next_write_latch: Latch,
    pub temp_addr: u16,
}

pub struct PPUStateModel {
    pub ppustatus: u8,
    pub ppuctrl: u8,
    pub ppumask: u8,
    pub oamaddr: u8,
    pub ppuscroll: Scroll,
    pub oam: Seq<u8>,
    pub pallete: Seq<u8>,
    pub last_read_byte: u8,
    pub next_write_latch: Latch,
    pub temp_addr: u16,
}

impl View for PPUState {
    type V = PPUStateModel;

    open spec fn view(&self) -> PPUStateModel {
        PPUStateModel {
            ppustatus: self.ppustatus,
            ppuctrl: self.ppuctrl,
            ppumask: self.ppumask,
            oamaddr: self.oamaddr,
            ppuscroll: self.ppuscroll,
            oam: self.oam@,
            pallete: self.pallete@,
            last_read_byte: self.last_read_byte,
            next_write_latch: self.next_write_latch,
            temp_addr: self.temp_addr,
        }
    }
}

/// The PPU: its registers and memories, and the CPU cycle its frame began at.
pub struct PPU {
    pub current_state: PPUState,
    frame_start_cyc: u64,
    sprite0_scheduled: bool,
}

pub struct PPUModel {
    pub state: PPUStateModel,
    pub frame_start_cyc: u64,
    /// Whether this frame's sprite-0 hit event has been scheduled already.
    pub sprite0_scheduled: bool,
}

impl View for PPU {
    type V = PPUModel;

    closed spec fn view(&self) -> PPUModel {
        PPUModel { state: self.current_state@, frame_start_cyc: self.frame_start_cyc, sprite0_scheduled: self.sprite0_scheduled }
    }
}

/// OAM holds 256 bytes and the palette 32 entries.
pub proof fn lemma_ppu_sizes(p: PPU)
    ensures
        p@.state.oam.len() == 256,
        p@.state.pallete.len() == 32,
{
}

/// The 15-bit VRAM address that a scroll position and nametable stand for:
/// coarse X in bits 0-4, coarse Y in 5-9, the nametable in 10-11 and fine Y
/// in 12-14.
pub open spec fn encode_addr(x_pos: u8, y_pos: u8, nametable: u8) -> u16 {
    ((x_pos as u16) >> 3u16) | (((y_pos as u16) >> 3u16) << 5u16) | (((nametable as u16) & 3) << 10u16) | (((y_pos as u16) & 7) << 12u16)
}

/// The X position (coarse X times 8) that a VRAM address holds.
pub open spec fn addr_x(v: u16) -> u8 {
    ((v & 0x1f) << 3u16) as u8
}

/// The Y position (coarse Y times 8 plus fine Y) that a VRAM address holds.
pub open spec fn addr_y(v: u16) -> u8 {
    (((v & 0x3e0) >> 2u16) | ((v & 0x7000) >> 12u16)) as u8
}

pub open spec fn addr_nametable(v: u16) -> u8 {
    ((v >> 10u16) & 3) as u8
}

/// The VRAM address that $2007 accesses, derived from the live scroll.
pub open spec fn current_addr(s: PPUStateModel) -> u16 {
    encode_addr(s.ppuscroll.x, s.ppuscroll.y, s.ppuctrl & 3)
}

/// The live scroll, nametable and temp address all set from a VRAM address.
pub open spec fn with_addr(s: PPUStateModel, v: u16) -> PPUStateModel {
    PPUStateModel {
        ppuscroll: Scroll { x: addr_x(v), y: addr_y(v) },
        ppuctrl: (s.ppuctrl & !3u8) | addr_nametable(v),
        temp_addr: encode_addr(addr_x(v), addr_y(v), addr_nametable(v)),
        ..s
    }
}

pub open spec fn vram_increment(s: PPUStateModel) -> int {
    if s.ppuctrl & PPUCTRL_VRAM_INCREMENT != 0 { 32 } else { 1 }
}

/// A read of $2002: the status as it was; VBlank is then cleared, the write
/// toggle reset and the read buffer emptied.
pub open spec fn status_read_spec(s: PPUStateModel) -> (PPUStateModel, u8) {
    (
        PPUStateModel {
            last_read_byte: 0,
            next_write_latch: Latch::Low,
            ppustatus: s.ppustatus & !PPUSTATUS_VBLANK,
            ..s
        },
        s.ppustatus,
    )
}

/// A write of $2004: the byte goes to OAM at OAMADDR, which moves on, wrapping.
pub open spec fn oam_write_spec(s: PPUStateModel, v: u8) -> PPUStateModel {
    PPUStateModel { oam: s.oam.update(s.oamaddr as int, v), oamaddr: ((s.oamaddr + 1) % 256) as u8, ..s }
}

/// A write of $2005: X on the first write, Y on the second.
pub open spec fn scroll_write_spec(s: PPUStateModel, v: u8) -> PPUStateModel {
    let t = s.temp_addr;
    match s.next_write_latch {
        Latch::Low => PPUStateModel {
            temp_addr: encode_addr(v, addr_y(t), addr_nametable(t)),
            ppuscroll: Scroll { x: (s.ppuscroll.x & !7u8) | (v & 7), ..s.ppuscroll },
            next_write_latch: Latch::High,
            ..s
        },
        Latch::High => PPUStateModel {
            temp_addr: encode_addr(addr_x(t), v, addr_nametable(t)),
            ppuscroll: Scroll { x: (addr_x(t) & !7u8) | (s.ppuscroll.x & 7), ..s.ppuscroll },
            next_write_latch: Latch::Low,
            ..s
        },
    }
}

/// A write of $2006: the high six bits first, then the low byte, which also
/// sets the live scroll and nametable.
pub open spec fn addr_write_spec(s: PPUStateModel, v: u8) -> PPUStateModel {
    match s.next_write_latch {
        Latch::Low => PPUStateModel {
            temp_addr: (s.temp_addr & 0xff) | (((v as u16) & 0x3f) << 8u16),
            next_write_latch: Latch::High,
            ..s
        },
        Latch::High => {
            let t = (s.temp_addr & 0xff00) | (v as u16);
            PPUStateModel {
                temp_addr: t,
                ppuscroll: Scroll { x: addr_x(t) | (s.ppuscroll.x & 7), y: addr_y(t) },
                ppuctrl: (s.ppuctrl & !3u8) | addr_nametable(t),
                next_write_latch: Latch::Low,
                ..s
            }
        },
    }
}

/// A read of $2007. Below the palette it returns the buffered byte and refills
/// the buffer; in the palette it returns the entry while the buffer takes the
/// VRAM underneath. The address then advances.
pub open spec fn data_read_spec(s: PPUStateModel, cart: CartridgeModel) -> (PPUStateModel, u8) {
    let ptr = current_addr(s);
    let value = cart_ppu_read_spec(cart, ptr);
    let s1 = PPUStateModel { last_read_byte: value, ..with_addr(s, wrap16(ptr + vram_increment(s))) };
    if ptr <= 0x3eff {
        (s1, s.last_read_byte)
    } else {
        (s1, s.pallete[(ptr % 32) as int] & 0x3f)
    }
}

/// The palette after `v` is stored at entry `i`: six bits are kept, and the
/// entries 0x00/0x04/0x08/0x0C and 0x10/0x14/0x18/0x1C are one.
pub open spec fn palette_store(pal: Seq<u8>, i: int, v: u8) -> Seq<u8> {
    let stored = pal.update(i, v & 0x3f);
    if i % 4 == 0 {
        stored.update((i + 16) % 32, v & 0x3f)
    } else {
        stored
    }
}

/// A write of $2007: to the palette or through the cartridge, then the
/// address advances.
pub open spec fn data_write_spec(s: PPUStateModel, cart: CartridgeModel, v: u8) -> (PPUStateModel, CartridgeModel) {
    let a = current_addr(s);
    let (s1, c1) = if a >= 0x3f00 {
        (PPUStateModel { pallete: palette_store(s.pallete, (a % 32) as int, v), ..s }, cart)
    } else {
        (s, cart_ppu_write_spec(cart, a, v))
    };
    (with_addr(s1, wrap16(a + vram_increment(s))), c1)
}

/// A CPU read of a PPU register; `addr` is mirrored every 8 bytes.
pub open spec fn register_read_spec(s: PPUStateModel, cart: CartridgeModel, addr: u16) -> (PPUStateModel, u8) {
    if addr % 8 == 2 {
        status_read_spec(s)
    } else if addr % 8 == 4 {
        (s, s.oam[s.oamaddr as int])
    } else if addr % 8 == 7 {
        data_read_spec(s, cart)
    } else {
        (s, 0)
    }
}

/// A CPU write of a PPU register; `addr` is mirrored every 8 bytes.
pub open spec fn register_write_spec(s: PPUStateModel, cart: CartridgeModel, addr: u16, v: u8) -> (PPUStateModel, CartridgeModel) {
    let t = s.temp_addr;
    if addr % 8 == 0 {
        (
            PPUStateModel {
                temp_addr: encode_addr(addr_x(t), addr_y(t), v & 3),
                ppuctrl: (v & !3u8) | (s.ppuctrl & 3),
                ..s
            },
            cart,
        )
    } else if addr % 8 == 1 {
        (PPUStateModel { ppumask: v, ..s }, cart)
    } else if addr % 8 == 3 {
        (PPUStateModel { oamaddr: v, ..s }, cart)
    } else if addr % 8 == 4 {
        (oam_write_spec(s, v), cart)
    } else if addr % 8 == 5 {
        (scroll_write_spec(s, v), cart)
    } else if addr % 8 == 6 {
        (addr_write_spec(s, v), cart)
    } else if addr % 8 == 7 {
        data_write_spec(s, cart, v)
    } else {
        (s, cart)
    }
}

/// A VRAM address taken apart into scroll position and nametable.
pub struct PPURegister {
    pub x_pos: u8,
    pub y_pos: u8,
    pub nametable: u8,
}

impl PPURegister {
    pub fn addr(&self) -> (r: u16)
        ensures
            r == encode_addr(self.x_pos, self.y_pos, self.nametable),
    {
        ((self.x_pos as u16) >> 3u16) | (((self.y_pos as u16) >> 3u16) << 5u16) | (((self.nametable as u16) & 3) << 10u16)
            | (((self.y_pos as u16) & 7) << 12u16)
    }
}

pub fn parse_addr(v: u16) -> (r: PPURegister)
    ensures
        r.x_pos == addr_x(v),
        r.y_pos == addr_y(v),
        r.nametable == addr_nametable(v),
{
    PPURegister {
        x_pos: ((v & 0x1f) << 3u16) as u8,
        y_pos: (((v & 0x3e0) >> 2u16) | ((v & 0x7000) >> 12u16)) as u8,
        nametable: ((v >> 10u16) & 3) as u8,
    }
}

/// The registers at power-on: all zero, the toggle low.
pub open spec fn initial_state() -> PPUStateModel {
    PPUStateModel {
        ppustatus: 0,
        ppuctrl: 0,
        ppumask: 0,
        oamaddr: 0,
        ppuscroll: Scroll { x: 0, y: 0 },
        oam: Seq::new(256, |i: int| 0u8),
        pallete: Seq::new(32, |i: int| 0u8),
        last_read_byte: 0,
        next_write_latch: Latch::Low,
        temp_addr: 0,
    }
}

impl PPUState {
    pub fn new() -> (r: PPUState)
        ensures
            r@ == initial_state(),
    {
        let r = PPUState {
            ppustatus: 0,
            ppuctrl: 0,
            ppumask: 0,
            oamaddr: 0,
            ppuscroll: Scroll { x: 0, y: 0 },
            next_write_latch: Latch::Low,
            oam: [0; 256],
            last_read_byte: 0,
            pallete: [0; 32],
            temp_addr: 0,
        };
        assert(r@.oam =~= Seq::new(256, |i: int| 0u8));
        assert(r@.pallete =~= Seq::new(32, |i: int| 0u8));
        r
    }

    pub fn read_ppustatus(&mut self) -> (r: u8)
        ensures
            (final(self)@, r) == status_read_spec(old(self)@),
    {
        let ppustatus_copy = self.ppustatus;
        self.last_read_byte = 0;
        self.next_write_latch = Latch::Low;
        self.ppustatus = self.ppustatus & !PPUSTATUS_VBLANK;
        ppustatus_copy
    }

    pub fn write_oam_byte(&mut self, v: u8)
        ensures
            final(self)@ == oam_write_spec(old(self)@, v),
    {
        self.oam[self.oamaddr as usize] = v;
        self.oamaddr = self.oamaddr.wrapping_add(1);
    }

    pub fn get_addr(&self) -> (r: u16)
        ensures
            r == current_addr(self@),
    {
        PPURegister { nametable: self.ppuctrl & 0x3, x_pos: self.ppuscroll.x, y_pos: self.ppuscroll.y }.addr()
    }

    pub fn set_addr(&mut self, v: u16)
        ensures
            final(self)@ == with_addr(old(self)@, v),
    {
        let data = parse_addr(v);
        self.ppuscroll.x = data.x_pos;
        self.ppuctrl = (self.ppuctrl & !0x3u8) | data.nametable;
        self.ppuscroll.y = data.y_pos;
        self.temp_addr = data.addr();
    }

    pub fn write_scroll(&mut self, v: u8)
        ensures
            final(self)@ == scroll_write_spec(old(self)@, v),
    {
        let mut a = parse_addr(self.temp_addr);
        match self.next_write_latch {
            Latch::Low => {
                a.x_pos = v;
                self.temp_addr = a.addr();
                self.ppuscroll.x = (self.ppuscroll.x & !0x7u8) | (v & 0x7);
                self.next_write_latch = Latch::High;
            },
            Latch::High => {
                a.y_pos = v;
                self.temp_addr = a.addr();
                self.ppuscroll.x = (a.x_pos & !0x7u8) | (self.ppuscroll.x & 0x7);
                self.next_write_latch = Latch::Low;
            },
        }
    }

    pub fn write_addr(&mut self, v: u8)
        ensures
            final(self)@ == addr_write_spec(old(self)@, v),
    {
        match self.next_write_latch {
            Latch::Low => {
                self.temp_addr = (self.temp_addr & 0x00ff) | (((v as u16) & 0x3f) << 8u16);
                self.next_write_latch = Latch::High;
            },
            Latch::High => {
                self.temp_addr = (self.temp_addr & 0xff00) | (v as u16);
                let data = parse_addr(self.temp_addr);
                self.ppuscroll.x = data.x_pos | (self.ppuscroll.x & 0x7);
                self.ppuctrl = (self.ppuctrl & !0x3u8) | data.nametable;
                self.ppuscroll.y = data.y_pos;
                self.next_write_latch = Latch::Low;
            },
        }
    }

    fn increment(&self) -> (r: u16)
        ensures
            r == vram_increment(self@),
    {
        if self.ppuctrl & PPUCTRL_VRAM_INCREMENT != 0 { 32 } else { 1 }
    }

    pub fn write_ppudata(&mut self, cart: &mut Cartridge, v: u8)
        ensures
            (final(self)@, final(cart)@) == data_write_spec(old(self)@, old(cart)@, v),
    {
        let current_addr = self.get_addr();
        let inc = self.increment();
        if current_addr >= 0x3f00 {
            let pallete_index = (current_addr % 32) as usize;
            self.pallete[pallete_index] = v & 0x3f;
            if pallete_index % 4 == 0 {
                self.pallete[(pallete_index + 0x10) % 32] = v & 0x3f;
            }
        } else {
            cart.ppu_write(current_addr, v);
        }
        self.set_addr(current_addr.wrapping_add(inc));
    }

    pub fn read_ppudata(&mut self, cart: &Cartridge) -> (r: u8)
        ensures
            (final(self)@, r) == data_read_spec(old(self)@, cart@),
    {
        let ptr = self.get_addr();
        let value = cart.ppu_read(ptr);
        let inc = self.increment();
        self.set_addr(ptr.wrapping_add(inc));
        if ptr <= 0x3eff {
            let old_value = self.last_read_byte;
            self.last_read_byte = value;
            old_value
        } else {
            self.last_read_byte = value;
            self.pallete[(ptr % 32) as usize] & 0x3f
        }
    }
}

impl PPU {
    pub fn new() -> (r: PPU)
        ensures
            r@.state == initial_state(),
            r@.frame_start_cyc == 0,
            !r@.sprite0_scheduled,
    {
        PPU { current_state: PPUState::new(), frame_start_cyc: 0, sprite0_scheduled: false }
    }

    /// PPUMASK: which layers are shown.
    pub fn mask(&self) -> (r: u8)
        ensures
            r == self@.state.ppumask,
    {
        self.current_state.ppumask
    }

    /// Whether PPUCTRL asks for an NMI at the start of VBlank.
    pub fn nmi_active(&self) -> (r: bool)
        ensures
            r == (self@.state.ppuctrl & PPUCTRL_VBLANK != 0),
    {
        self.current_state.ppuctrl & PPUCTRL_VBLANK != 0
    }

    pub fn set_sprite0_flag(&mut self)
        ensures
            final(self)@ == (PPUModel { state: PPUStateModel { ppustatus: old(self)@.state.ppustatus | PPUSTATUS_SPRITE0_HIT, ..old(self)@.state }, ..old(self)@ }),
    {
        self.current_state.ppustatus = self.current_state.ppustatus | PPUSTATUS_SPRITE0_HIT;
    }

    /// Copies a page into OAM; the transfer costs the CPU 513 cycles.
    pub fn dma_transfer(&mut self, page: [u8; 256], cpu: &mut Cpu)
        ensures
            final(self)@ == (PPUModel { state: PPUStateModel { oam: page@, ..old(self)@.state }, ..old(self)@ }),
            *final(cpu) == (Cpu { cycle_count: add_cycles(old(cpu).cycle_count, 513), ..*old(cpu) }),
    {
        self.current_state.oam = page;
        cpu.advance_cycles(513);
    }

    /// A CPU read of a PPU register ($2000-$3FFF, mirrored every 8 bytes).
    pub fn read(&mut self, cart: &Cartridge, addr: MemoryPtr) -> (r: u8)
        ensures
            (final(self)@.state, r) == register_read_spec(old(self)@.state, cart@, addr.0),
            final(self)@.sprite0_scheduled == old(self)@.sprite0_scheduled,
            final(self)@.frame_start_cyc == old(self)@.frame_start_cyc,
    {
        let reg = addr.0 % 8;
        if reg == 2 {
            self.current_state.read_ppustatus()
        } else if reg == 4 {
            self.current_state.oam[self.current_state.oamaddr as usize]
        } else if reg == 7 {
            self.current_state.read_ppudata(cart)
        } else {
            0
        }
    }

    /// A CPU write of a PPU register ($2000-$3FFF, mirrored every 8 bytes).
    pub fn write(&mut self, cart: &mut Cartridge, addr: MemoryPtr, value: u8)
        ensures
            (final(self)@.state, final(cart)@) == register_write_spec(old(self)@.state, old(cart)@, addr.0, value),
            final(self)@.sprite0_scheduled == old(self)@.sprite0_scheduled,
            final(self)@.frame_start_cyc == old(self)@.frame_start_cyc,
    {
        let reg = addr.0 % 8;
        if reg == 0 {
            let mut tmp = parse_addr(self.current_state.temp_addr);
            tmp.nametable = value & 0x3;
            self.current_state.temp_addr = tmp.addr();
            self.current_state.ppuctrl = (value & !0x3u8) | (self.current_state.ppuctrl & 0x3);
        } else if reg == 1 {
            self.current_state.ppumask = value;
        } else if reg == 3 {
            self.current_state.oamaddr = value;
        } else if reg == 4 {
            self.current_state.write_oam_byte(value);
        } else if reg == 5 {
            self.current_state.write_scroll(value);
        } else if reg == 6 {
            self.current_state.write_addr(value);
        } else if reg == 7 {
            self.current_state.write_ppudata(cart, value);
        }
    }
}

} // verus!

verus! {

pub open spec fn sprite0_event(x: int, y: int) -> FutureEvent {
    FutureEvent { cycle: (341 * (y + 22) + x) as u64, tp: FutureEventType::PPU(PpuEvent::Sprite0Hit) }
}

pub open spec fn scanline_end_event(i: int) -> FutureEvent {
    FutureEvent { cycle: (341 * (i + 23)) as u64, tp: FutureEventType::PPU(PpuEvent::ScanlineEnd) }
}

pub open spec fn vblank_end_event() -> FutureEvent {
    FutureEvent { cycle: 7502, tp: FutureEventType::PPU(PpuEvent::VBlankEnd) }
}

/// The line being drawn at CPU cycle `cyc` of a frame that began at `start`.
pub open spec fn line_of(start: u64, cyc: u64) -> int {
    if cyc >= start { (3 * (cyc - start)) / 341 - 22 } else { -22 }
}

/// The scroll update at the end of a line: Y moves one line down the 480-line
/// plane (into the lower nametables past 240), and coarse X and the
/// horizontal nametable come back from the temp address.
pub open spec fn next_line_state(s: PPUStateModel) -> PPUStateModel {
    let y = ((if s.ppuctrl & 2 != 0 { 240int } else { 0int }) + s.ppuscroll.y + 1) % 480;
    let ctrl = if y >= 240 { (s.ppuctrl & !2u8) | 2 } else { s.ppuctrl & !2u8 };
    PPUStateModel {
        ppuscroll: Scroll { x: addr_x(s.temp_addr) | (s.ppuscroll.x & 7), y: (if y >= 240 { y - 240 } else { y }) as u8 },
        ppuctrl: (ctrl & !1u8) | (addr_nametable(s.temp_addr) & 1),
        ..s
    }
}

/// The pre-render line: with rendering on, Y and the vertical nametable come
/// back from the temp address; the sprite-0 flag is cleared.
pub open spec fn prerender_state(s: PPUStateModel) -> PPUStateModel {
    let s1 = if s.ppumask & (PPUMASK_SHOW_BACKGROUND | PPUMASK_SHOW_SPRITE) != 0 {
        PPUStateModel {
            ppuscroll: Scroll { y: addr_y(s.temp_addr), ..s.ppuscroll },
            ppuctrl: (s.ppuctrl & !2u8) | (addr_nametable(s.temp_addr) & 2),
            ..s
        }
    } else {
        s
    };
    PPUStateModel { ppustatus: s1.ppustatus & !PPUSTATUS_SPRITE0_HIT, ..s1 }
}

/// The sprite-0 hit event that drawing `line` schedules: the first overlap
/// of sprite 0 with the background, unless one was scheduled this frame.
pub open spec fn hit_event(p: PPUModel, cart: CartridgeModel, line: int) -> Option<FutureEvent> {
    if p.sprite0_scheduled {
        None
    } else {
        match sprite0_hit(p.state, cart, bg_row(p.state, cart), line as u8) {
            Some(x) => Some(sprite0_event(x, line)),
            None => None,
        }
    }
}

/// The line drawn with the PPU as `p`: the framebuffer changes on that line
/// only, and the schedule gains the line's sprite-0 hit event, if any.
pub open spec fn drew_line(
    p: PPUModel,
    cart: CartridgeModel,
    line: int,
    fb0: Seq<u8>,
    fb1: Seq<u8>,
    ev0: Seq<FutureEvent>,
    ev1: Seq<FutureEvent>,
) -> bool {
    &&& only_row_changed(fb0, fb1, line)
    &&& row_of(fb1, line) == sprites_row(p.state, cart, bg_row(p.state, cart), line as u8)
    &&& ev1 == match hit_event(p, cart, line) {
        Some(e) => insert_sorted(ev0, e),
        None => ev0,
    }
}

/// The PPU after drawing `line`: it remembers a scheduled sprite-0 hit.
pub open spec fn after_line(p: PPUModel, cart: CartridgeModel, line: int) -> PPUModel {
    PPUModel { sprite0_scheduled: p.sprite0_scheduled || hit_event(p, cart, line) is Some, ..p }
}

/// What the end of a line does at CPU cycle `cyc`: with the background
/// shown, scroll moves to the next line and a visible line is drawn; with it
/// hidden, nothing changes.
pub open spec fn line_end_done(
    before: PPUModel,
    after: PPUModel,
    cart: CartridgeModel,
    cyc: u64,
    fb0: Seq<u8>,
    fb1: Seq<u8>,
    ev0: Seq<FutureEvent>,
    ev1: Seq<FutureEvent>,
) -> bool {
    if before.state.ppumask & PPUMASK_SHOW_BACKGROUND == 0 {
        after == before && fb1 == fb0 && ev1 == ev0
    } else {
        let line = line_of(before.frame_start_cyc, cyc);
        let moved = PPUModel { state: next_line_state(before.state), ..before };
        if 1 <= line < 240 {
            after == after_line(moved, cart, line) && drew_line(moved, cart, line, fb0, fb1, ev0, ev1)
        } else {
            after == moved && fb1 == fb0 && ev1 == ev0
        }
    }
}

/// What handling a PPU event at CPU cycle `cyc` does: a sprite-0 hit sets
/// its status flag; the pre-render line reloads scroll and draws line 0; the
/// end of a line moves to and draws the next.
pub open spec fn ppu_event_done(
    ev: PpuEvent,
    before: PPUModel,
    after: PPUModel,
    cart: CartridgeModel,
    cyc: u64,
    fb0: Seq<u8>,
    fb1: Seq<u8>,
    ev0: Seq<FutureEvent>,
    ev1: Seq<FutureEvent>,
) -> bool {
    match ev {
        PpuEvent::Sprite0Hit => after == (PPUModel {
            state: PPUStateModel { ppustatus: before.state.ppustatus | PPUSTATUS_SPRITE0_HIT, ..before.state },
            ..before
        }) && fb1 == fb0 && ev1 == ev0,
        PpuEvent::VBlankEnd => {
            let q = PPUModel { state: prerender_state(before.state), ..before };
            after == after_line(q, cart, 0) && drew_line(q, cart, 0, fb0, fb1, ev0, ev1)
        },
        PpuEvent::ScanlineEnd => line_end_done(before, after, cart, cyc, fb0, fb1, ev0, ev1),
    }
}

/// The events a frame starts with: the pre-render line, then the ends of the
/// 239 visible lines after the first.
pub open spec fn frame_events() -> Seq<FutureEvent> {
    seq![vblank_end_event()] + Seq::new(239, |i: int| scanline_end_event(i))
}

impl PPU {
    fn draw_line(&mut self, cart: &Cartridge, events: &mut EventList, framebuffer: &mut Vec<u8>, line: usize)
        requires
            line < SCREEN_HEIGHT,
            old(framebuffer)@.len() == FRAMEBUFFER_LEN,
            old(events).wf(),
        ensures
            final(events).wf(),
            final(framebuffer)@.len() == FRAMEBUFFER_LEN,
            final(self)@ == after_line(old(self)@, cart@, line as int),
            drew_line(old(self)@, cart@, line as int, old(framebuffer)@, final(framebuffer)@, old(events)@, final(events)@),
            weight(final(events)@) <= weight(old(events)@) + 1,
    {
        let s0 = self.current_state.draw_scanline(cart, framebuffer, line, line as u8);
        if self.sprite0_scheduled {
            return;
        }
        if let Some(hit) = s0 {
            let e = FutureEvent { cycle: 341 * (hit.1 as u64 + 22) + hit.0 as u64, tp: FutureEventType::PPU(PpuEvent::Sprite0Hit) };
            let ghost before = events@;
            events.add_event(e);
            self.sprite0_scheduled = true;
            proof {
                lemma_sprite0_hit_range(old(self)@.state, cart@, bg_row(old(self)@.state, cart@), line as u8);
                lemma_weight_insert(before, sorted_pos(before, e.cycle), e);
                assert(e == sprite0_event(hit.0 as int, line as int));
            }
        }
    }

    /// Starts a frame at CPU cycle `cyc`: VBlank is raised and the pre-render
    /// and scanline events are scheduled.
    pub fn set_vblank_flag(&mut self, events: &mut EventList, cyc: u64)
        requires
            old(events).wf(),
        ensures
            final(events).wf(),
            final(self)@ == (PPUModel {
                state: PPUStateModel { ppustatus: old(self)@.state.ppustatus | PPUSTATUS_VBLANK, ..old(self)@.state },
                frame_start_cyc: cyc,
                sprite0_scheduled: false,
            }),
            final(events)@ == insert_all(old(events)@, frame_events()),
    {
        self.current_state.ppustatus = self.current_state.ppustatus | PPUSTATUS_VBLANK;
        self.frame_start_cyc = cyc;
        self.sprite0_scheduled = false;
        let e = FutureEvent { cycle: 7502, tp: FutureEventType::PPU(PpuEvent::VBlankEnd) };
        proof {
            lemma_insert_all_step(old(events)@, frame_events(), 0);
            assert(frame_events().take(0) =~= Seq::<FutureEvent>::empty());
        }
        events.add_event(e);
        let mut i: u64 = 0;
        while i < 239
            invariant
                i <= 239,
                events.wf(),
                events@ == insert_all(old(events)@, frame_events().take(i + 1)),
            decreases 239 - i,
        {
            let e = FutureEvent { cycle: 341 * (i + 23), tp: FutureEventType::PPU(PpuEvent::ScanlineEnd) };
            proof {
                lemma_insert_all_step(old(events)@, frame_events(), i + 1);
                assert(e == frame_events()[i + 1]);
            }
            events.add_event(e);
            i = i + 1;
        }
        assert(frame_events().take(240) =~= frame_events());
    }

    /// The pre-render line: reloads the vertical scroll, clears the sprite-0
    /// flag and draws the first line.
    pub fn after_vblank(&mut self, cart: &Cartridge, events: &mut EventList, framebuffer: &mut Vec<u8>)
        requires
            old(framebuffer)@.len() == FRAMEBUFFER_LEN,
            old(events).wf(),
        ensures
            final(events).wf(),
            final(framebuffer)@.len() == FRAMEBUFFER_LEN,
            final(self)@ == after_line(PPUModel { state: prerender_state(old(self)@.state), ..old(self)@ }, cart@, 0),
            drew_line(PPUModel { state: prerender_state(old(self)@.state), ..old(self)@ }, cart@, 0, old(framebuffer)@,
                final(framebuffer)@, old(events)@, final(events)@),
            weight(final(events)@) <= weight(old(events)@) + 1,
    {
        if self.current_state.ppumask & (PPUMASK_SHOW_BACKGROUND | PPUMASK_SHOW_SPRITE) != 0 {
            let parsed = parse_addr(self.current_state.temp_addr);
            self.current_state.ppuscroll.y = parsed.y_pos;
            self.current_state.ppuctrl = (self.current_state.ppuctrl & !0x2u8) | (parsed.nametable & 0x2);
        }
        self.current_state.ppustatus = self.current_state.ppustatus & !PPUSTATUS_SPRITE0_HIT;
        self.draw_line(cart, events, framebuffer, 0);
    }

    /// The end of a line: with the background shown, scroll moves to the next
    /// line and, on a visible line, it is drawn.
    pub fn end_of_line(&mut self, cart: &Cartridge, events: &mut EventList, framebuffer: &mut Vec<u8>, cyc: u64)
        requires
            old(framebuffer)@.len() == FRAMEBUFFER_LEN,
            old(events).wf(),
        ensures
            final(events).wf(),
            final(framebuffer)@.len() == FRAMEBUFFER_LEN,
            weight(final(events)@) <= weight(old(events)@) + 1,
            line_end_done(old(self)@, final(self)@, cart@, cyc, old(framebuffer)@, final(framebuffer)@, old(events)@, final(events)@),
    {
        if self.current_state.ppumask & PPUMASK_SHOW_BACKGROUND == 0 {
            return;
        }
        let data = parse_addr(self.current_state.temp_addr);
        let nt_y: u16 = if self.current_state.ppuctrl & 2 != 0 { 240 } else { 0 };
        let y: u16 = (nt_y + self.current_state.ppuscroll.y as u16 + 1) % 480;
        self.current_state.ppuctrl = self.current_state.ppuctrl & !0x2u8;
        if y >= 240 {
            self.current_state.ppuctrl = self.current_state.ppuctrl | 0x2;
            self.current_state.ppuscroll.y = (y - 240) as u8;
        } else {
            self.current_state.ppuscroll.y = y as u8;
        }
        self.current_state.ppuscroll.x = data.x_pos | (self.current_state.ppuscroll.x & 0x7);
        self.current_state.ppuctrl = (self.current_state.ppuctrl & !0x1u8) | (data.nametable & 0x1);
        if cyc < self.frame_start_cyc || cyc - self.frame_start_cyc > 1_000_000 {
            return;
        }
        let line = (3 * (cyc - self.frame_start_cyc)) / 341;
        if 23 <= line && line < 262 {
            self.draw_line(cart, events, framebuffer, (line - 22) as usize);
        }
    }

    /// Handles a PPU event that came due at CPU cycle `cyc`.
    pub fn handle_event(&mut self, ev: PpuEvent, cyc: u64, cart: &Cartridge, events: &mut EventList, framebuffer: &mut Vec<u8>)
        requires
            old(framebuffer)@.len() == FRAMEBUFFER_LEN,
            old(events).wf(),
        ensures
            final(events).wf(),
            final(framebuffer)@.len() == FRAMEBUFFER_LEN,
            weight(final(events)@) <= weight(old(events)@) + if ev == PpuEvent::Sprite0Hit { 0int } else { 1int },
            ppu_event_done(ev, old(self)@, final(self)@, cart@, cyc, old(framebuffer)@, final(framebuffer)@, old(events)@, final(events)@),
    {
        match ev {
            PpuEvent::ScanlineEnd => self.end_of_line(cart, events, framebuffer, cyc),
            PpuEvent::VBlankEnd => self.after_vblank(cart, events, framebuffer),
            PpuEvent::Sprite0Hit => self.set_sprite0_flag(),
        }
    }
}

} // verus!
