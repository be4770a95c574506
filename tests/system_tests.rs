use nes_emu::cpu::{Cpu, CpuMemory, FLAG_SIGN, FLAG_ZERO};
use nes_emu::events::{EventList, FutureEvent, FutureEventType, PpuEvent};
use nes_emu::ines_rom_file::{GetCpuMapperError, OpenRomError, Rom};
use nes_emu::instructions::UnknownOpcode;
use nes_emu::joypad::{Button, Joypad};
use nes_emu::mappers::{Cartridge, SystemMemoryMapper};
use nes_emu::memory_controller::{MemoryPtr, Ram};
use nes_emu::mmc3::{MMC3MapperError, Mmc3};
use nes_emu::nes::Nes;
use nes_emu::nrom::{BaseMapperError, Mirroring, Nrom};
use nes_emu::ppu::{Latch, PPU};

fn cpu_at(pc: u16) -> Cpu {
    Cpu {
        accumulator: 0,
        x: 0,
        y: 0,
        flags: 0,
        stack_pointer: 0xfd,
        program_counter: MemoryPtr(pc),
        irq_requested: false,
        cycle_count: 0,
        last_instruction: 0,
    }
}

fn ram_with(code: &[(usize, u8)]) -> Ram {
    let mut state = [0u8; 2048];
    for (i, b) in code {
        state[*i] = *b;
    }
    let mut ram = Ram::new();
    ram.set_ram_state(state);
    ram
}

fn steps(cpu: &mut Cpu, ram: &mut Ram, n: usize) {
    for _ in 0..n {
        cpu.execute_next_instruction(ram).unwrap();
    }
}

#[test]
fn ldx_zero_then_dex_wraps_to_ff() {
    let mut cpu = cpu_at(0);
    cpu.flags = FLAG_ZERO;
    let mut ram = ram_with(&[(0, 0xa2), (1, 0x00), (2, 0xca)]);
    steps(&mut cpu, &mut ram, 2);
    assert_eq!(cpu.x, 0xff);
    assert_ne!(cpu.flags & FLAG_SIGN, 0);
    assert_eq!(cpu.flags & FLAG_ZERO, 0);
}

#[test]
fn adc_from_reset_flags() {
    let mut cpu = cpu_at(0);
    cpu.flags = 0x24;
    let mut ram = ram_with(&[(0, 0x69), (1, 0x50)]);
    steps(&mut cpu, &mut ram, 1);
    assert_eq!(cpu.accumulator, 0x50);
    assert_eq!(cpu.program_counter, MemoryPtr(2));
    assert_eq!(cpu.flags, 0x24);
    assert_eq!(cpu.cycle_count, 2);
}

#[test]
fn adc_sets_carry_and_overflow() {
    let mut cpu = cpu_at(0);
    cpu.accumulator = 0x80;
    let mut ram = ram_with(&[(0, 0x69), (1, 0x80)]);
    steps(&mut cpu, &mut ram, 1);
    assert_eq!(cpu.accumulator, 0x00);
    assert_eq!(cpu.flags, 0x01 | 0x02 | 0x40);
}

#[test]
fn sbc_borrows() {
    let mut cpu = cpu_at(0);
    cpu.accumulator = 0x50;
    cpu.flags = 0x01;
    let mut ram = ram_with(&[(0, 0xe9), (1, 0xf0)]);
    steps(&mut cpu, &mut ram, 1);
    assert_eq!(cpu.accumulator, 0x60);
    assert_eq!(cpu.flags & 0x01, 0);
    assert_eq!(cpu.flags & 0x40, 0);
}

#[test]
fn asl_scenario_cycles_and_flags() {
    let mut cpu = cpu_at(0);
    cpu.accumulator = 0x01;
    let mut ram = ram_with(&[(0, 0x0a)]);
    steps(&mut cpu, &mut ram, 1);
    assert_eq!(cpu.accumulator, 0x02);
    assert_eq!(cpu.flags, 0);
    assert_eq!(cpu.program_counter, MemoryPtr(1));
}

#[test]
fn branch_cycle_costs() {
    let mut cpu = cpu_at(3);
    let mut ram = ram_with(&[(3, 0x90), (4, 0xfb)]);
    steps(&mut cpu, &mut ram, 1);
    assert_eq!(cpu.program_counter, MemoryPtr(0));
    assert_eq!(cpu.cycle_count, 3);

    let mut cpu = cpu_at(0);
    let mut ram = ram_with(&[(0, 0x90), (1, 0xfd)]);
    steps(&mut cpu, &mut ram, 1);
    assert_eq!(cpu.program_counter, MemoryPtr(0xffff));
    assert_eq!(cpu.cycle_count, 4);

    // not taken: only the base cost
    let mut cpu = cpu_at(0);
    cpu.flags = 0x01;
    let mut ram = ram_with(&[(0, 0x90), (1, 0xfd)]);
    steps(&mut cpu, &mut ram, 1);
    assert_eq!(cpu.cycle_count, 2);
}

#[test]
fn branch_offset_80_crosses_back_a_page() {
    let mut cpu = cpu_at(0x0100);
    let mut ram = ram_with(&[(0x100, 0xd0), (0x101, 0x80)]);
    steps(&mut cpu, &mut ram, 1);
    assert_eq!(cpu.program_counter, MemoryPtr(0x0082));
    assert_eq!(cpu.cycle_count, 4);
}

#[test]
fn jmp_indirect_wraps_within_page() {
    let mut cpu = cpu_at(0);
    let mut ram = ram_with(&[(0, 0x6c), (1, 0xff), (2, 0x02), (0x2ff, 0x34), (0x200, 0x12), (0x300, 0x56)]);
    steps(&mut cpu, &mut ram, 1);
    assert_eq!(cpu.program_counter, MemoryPtr(0x1234));
}

#[test]
fn pha_pla_round_trip() {
    let mut cpu = cpu_at(0);
    cpu.accumulator = 0x80;
    let mut ram = ram_with(&[(0, 0x48), (1, 0xa9), (2, 0x00), (3, 0x68)]);
    steps(&mut cpu, &mut ram, 3);
    assert_eq!(cpu.accumulator, 0x80);
    assert_eq!(cpu.stack_pointer, 0xfd);
    assert_eq!(cpu.flags & (FLAG_SIGN | FLAG_ZERO), FLAG_SIGN);
}

#[test]
fn php_plp_round_trip() {
    let mut cpu = cpu_at(0);
    cpu.flags = 0xc3;
    let mut ram = ram_with(&[(0, 0x08), (1, 0x28)]);
    steps(&mut cpu, &mut ram, 1);
    assert_eq!(ram.dump_ram()[0x1fd], 0xd3);
    steps(&mut cpu, &mut ram, 1);
    assert_eq!(cpu.flags, 0xe3);
    assert_eq!(cpu.stack_pointer, 0xfd);
}

#[test]
fn sta_then_lda_restores_a() {
    let mut cpu = cpu_at(0);
    cpu.accumulator = 0x5a;
    let mut ram = ram_with(&[(0, 0x8d), (1, 0x00), (2, 0x02), (3, 0xa9), (4, 0x00), (5, 0xad), (6, 0x00), (7, 0x02)]);
    steps(&mut cpu, &mut ram, 3);
    assert_eq!(cpu.accumulator, 0x5a);
}

#[test]
fn plp_and_rti_set_unused_clear_break() {
    let mut cpu = cpu_at(0);
    cpu.stack_pointer = 0xfc;
    let mut ram = ram_with(&[(0, 0x28), (0x1fd, 0x10)]);
    steps(&mut cpu, &mut ram, 1);
    assert_eq!(cpu.flags, 0x20);

    let mut cpu = cpu_at(0);
    cpu.stack_pointer = 0xfa;
    let mut ram = ram_with(&[(0, 0x40), (0x1fb, 0x13), (0x1fc, 0x34), (0x1fd, 0x12)]);
    steps(&mut cpu, &mut ram, 1);
    assert_eq!(cpu.flags, 0x23);
    assert_eq!(cpu.program_counter, MemoryPtr(0x1234));
    assert_eq!(cpu.cycle_count, 6);
}

#[test]
fn nmi_then_rti_returns() {
    let mut cpu = cpu_at(0x0040);
    cpu.flags = 0x81;
    let mut ram = ram_with(&[(0x40, 0xea)]);
    // RAM mirrors into the vector area: 0xFFFA/0xFFFB read 0x7FA/0x7FB.
    let mut state = ram.dump_ram();
    state[0x7fa] = 0x00;
    state[0x7fb] = 0x03;
    state[0x300] = 0x40;
    ram.set_ram_state(state);
    cpu.nmi(&mut ram);
    assert_eq!(cpu.program_counter, MemoryPtr(0x0300));
    assert_eq!(cpu.flags, 0x85);
    assert_eq!(cpu.stack_pointer, 0xfa);
    steps(&mut cpu, &mut ram, 1);
    assert_eq!(cpu.program_counter, MemoryPtr(0x0040));
    assert_eq!(cpu.flags, 0xa1);
}

#[test]
fn irq_is_masked_by_i() {
    let mut cpu = cpu_at(0);
    cpu.flags = 0x04;
    cpu.irq_requested = true;
    let mut ram = ram_with(&[(0, 0xea)]);
    steps(&mut cpu, &mut ram, 1);
    assert_eq!(cpu.program_counter, MemoryPtr(1));
    assert_eq!(cpu.stack_pointer, 0xfd);
}

#[test]
fn cycle_counter_never_goes_back() {
    let mut cpu = cpu_at(0);
    let mut ram = ram_with(&[(0, 0xe8), (1, 0x4c), (2, 0x00), (3, 0x00)]);
    let mut last = cpu.cycle_count;
    for _ in 0..100 {
        cpu.execute_next_instruction(&mut ram).unwrap();
        assert!(cpu.cycle_count > last);
        last = cpu.cycle_count;
    }
    assert_eq!(cpu.x, 50);
}

#[test]
fn unknown_opcode_is_an_error() {
    let mut cpu = cpu_at(5);
    let mut ram = ram_with(&[(5, 0x02)]);
    let r = cpu.execute_next_instruction(&mut ram);
    assert_eq!(r, Err(UnknownOpcode { opcode: 0x02, address: 5 }));
    assert_eq!(cpu.program_counter, MemoryPtr(5));
}

fn nrom_with(prg: Vec<u8>, chr: Vec<u8>) -> Cartridge {
    match Nrom::new(&prg, &chr, Mirroring::Horizontal) {
        Ok(n) => Cartridge::Nrom(n),
        Err(_) => panic!("bad cartridge"),
    }
}

fn bus() -> SystemMemoryMapper {
    SystemMemoryMapper::new(Ram::new(), nrom_with(vec![0u8; 16384], vec![0u8; 8192]), PPU::new(), Joypad::new())
}

fn write(m: &mut SystemMemoryMapper, cpu: &mut Cpu, addr: u16, v: u8) {
    m.write(MemoryPtr(addr), v, cpu);
}

fn read(m: &mut SystemMemoryMapper, cpu: &mut Cpu, addr: u16) -> u8 {
    m.read(MemoryPtr(addr), cpu)
}

#[test]
fn status_read_clears_vblank_and_toggle() {
    let mut m = bus();
    let mut cpu = cpu_at(0);
    m.ppu.current_state.ppustatus = 0xc0;
    write(&mut m, &mut cpu, 0x2005, 0x10);
    assert_eq!(m.ppu.current_state.next_write_latch, Latch::High);
    assert_eq!(read(&mut m, &mut cpu, 0x3ffa), 0xc0);
    assert_eq!(m.ppu.current_state.ppustatus, 0x40);
    assert_eq!(m.ppu.current_state.next_write_latch, Latch::Low);
}

#[test]
fn palette_entries_alias() {
    let mut m = bus();
    let mut cpu = cpu_at(0);
    write(&mut m, &mut cpu, 0x2006, 0x3f);
    write(&mut m, &mut cpu, 0x2006, 0x04);
    write(&mut m, &mut cpu, 0x2007, 0xea);
    assert_eq!(m.ppu.current_state.pallete[0x04], 0x2a);
    assert_eq!(m.ppu.current_state.pallete[0x14], 0x2a);
    write(&mut m, &mut cpu, 0x2006, 0x3f);
    write(&mut m, &mut cpu, 0x2006, 0x10);
    write(&mut m, &mut cpu, 0x2007, 0x0f);
    assert_eq!(m.ppu.current_state.pallete[0x00], 0x0f);
    assert_eq!(m.ppu.current_state.pallete[0x10], 0x0f);
    // a non-aliased entry stands alone
    write(&mut m, &mut cpu, 0x2007, 0x11);
    assert_eq!(m.ppu.current_state.pallete[0x11], 0x11);
    assert_eq!(m.ppu.current_state.pallete[0x01], 0x00);
}

#[test]
fn scroll_pair_sets_temp_address() {
    let mut m = bus();
    let mut cpu = cpu_at(0);
    write(&mut m, &mut cpu, 0x2005, 0x7d);
    write(&mut m, &mut cpu, 0x2005, 0x5e);
    assert_eq!(m.ppu.current_state.temp_addr, 0x616f);
    assert_eq!(m.ppu.current_state.ppuscroll.x, 0x7d);
    assert_eq!(m.ppu.current_state.next_write_latch, Latch::Low);
}

#[test]
fn oamaddr_wraps_after_oamdata_write() {
    let mut m = bus();
    let mut cpu = cpu_at(0);
    write(&mut m, &mut cpu, 0x2003, 0xff);
    write(&mut m, &mut cpu, 0x2004, 0x99);
    assert_eq!(m.ppu.current_state.oamaddr, 0x00);
    assert_eq!(m.ppu.current_state.oam[0xff], 0x99);
    write(&mut m, &mut cpu, 0x2003, 0xff);
    assert_eq!(read(&mut m, &mut cpu, 0x2004), 0x99);
}

#[test]
fn ppudata_reads_are_buffered() {
    let mut m = bus();
    let mut cpu = cpu_at(0);
    write(&mut m, &mut cpu, 0x2006, 0x20);
    write(&mut m, &mut cpu, 0x2006, 0x05);
    write(&mut m, &mut cpu, 0x2007, 0x55);
    write(&mut m, &mut cpu, 0x2006, 0x20);
    write(&mut m, &mut cpu, 0x2006, 0x05);
    assert_eq!(read(&mut m, &mut cpu, 0x2007), 0x00);
    assert_eq!(read(&mut m, &mut cpu, 0x2007), 0x55);
}

#[test]
fn vram_increment_of_32() {
    let mut m = bus();
    let mut cpu = cpu_at(0);
    write(&mut m, &mut cpu, 0x2000, 0x04);
    write(&mut m, &mut cpu, 0x2006, 0x20);
    write(&mut m, &mut cpu, 0x2006, 0x00);
    write(&mut m, &mut cpu, 0x2007, 0x01);
    write(&mut m, &mut cpu, 0x2007, 0x02);
    write(&mut m, &mut cpu, 0x2000, 0x00);
    write(&mut m, &mut cpu, 0x2006, 0x20);
    write(&mut m, &mut cpu, 0x2006, 0x20);
    read(&mut m, &mut cpu, 0x2007);
    assert_eq!(read(&mut m, &mut cpu, 0x2007), 0x02);
}

#[test]
fn oam_dma_from_ram_and_forbidden_page() {
    let mut m = bus();
    let mut cpu = cpu_at(0);
    for i in 0..256u16 {
        write(&mut m, &mut cpu, 0x0200 + i, i as u8);
    }
    write(&mut m, &mut cpu, 0x4014, 0x02);
    assert_eq!(m.ppu.current_state.oam[0x37], 0x37);
    assert_eq!(cpu.cycle_count, 513);
    assert_eq!(m.bad_dma_page, None);
    write(&mut m, &mut cpu, 0x4014, 0x21);
    assert_eq!(cpu.cycle_count, 513);
    assert_eq!(m.bad_dma_page, Some(0x21));
    // page 0x0A mirrors RAM page 0x02
    m.ppu.current_state.oam = [0; 256];
    write(&mut m, &mut cpu, 0x4014, 0x0a);
    assert_eq!(m.ppu.current_state.oam[0x37], 0x37);
}

#[test]
fn unmapped_io_reads_zero() {
    let mut m = bus();
    let mut cpu = cpu_at(0);
    assert_eq!(read(&mut m, &mut cpu, 0x4000), 0);
    assert_eq!(read(&mut m, &mut cpu, 0x4017), 0);
    assert_eq!(read(&mut m, &mut cpu, 0x5000), 0);
}

#[test]
fn joypad_shifts_buttons_in_order() {
    let mut m = bus();
    let mut cpu = cpu_at(0);
    m.gamepad.set_state(Button::A, true);
    m.gamepad.set_state(Button::START, true);
    write(&mut m, &mut cpu, 0x4016, 1);
    assert_eq!(read(&mut m, &mut cpu, 0x4016), 1);
    assert_eq!(read(&mut m, &mut cpu, 0x4016), 1);
    write(&mut m, &mut cpu, 0x4016, 0);
    let got: Vec<u8> = (0..9).map(|_| read(&mut m, &mut cpu, 0x4016)).collect();
    assert_eq!(got, vec![1, 0, 0, 1, 0, 0, 0, 0, 1]);
}

#[test]
fn nrom_reads_and_mirroring() {
    let mut prg = vec![0u8; 16384];
    prg[0] = 0xaa;
    prg[0x3fff] = 0xbb;
    let c = nrom_with(prg, vec![7u8; 100]);
    assert_eq!(c.read(0x8000), 0xaa);
    assert_eq!(c.read(0xc000), 0xaa);
    assert_eq!(c.read(0xffff), 0xbb);
    assert_eq!(c.read(0x6000), 0);
    assert_eq!(c.ppu_read(0x0063), 7);
    assert_eq!(c.ppu_read(0x0064), 0);
    let mut c = c;
    c.ppu_write(0x2001, 9);
    assert_eq!(c.ppu_read(0x2401), 9);
    assert_eq!(c.ppu_read(0x2801), 0);
}

#[test]
fn nrom_rejects_page_counts() {
    assert!(matches!(Nrom::new(&vec![], &vec![], Mirroring::Vertical), Err(BaseMapperError::NoPrgRomPages)));
    assert!(matches!(Nrom::new(&vec![0u8; 3 * 16384], &vec![], Mirroring::Vertical), Err(BaseMapperError::TooManyPrgRomPages)));
}

fn mmc3_image() -> Mmc3 {
    let mut prg = vec![0u8; 4 * 8192];
    for b in 0..4 {
        for i in 0..8192 {
            prg[b * 8192 + i] = b as u8;
        }
    }
    let mut chr = vec![0u8; 8 * 1024];
    for b in 0..8 {
        chr[b * 1024] = 0x10 + b as u8;
    }
    match Mmc3::new(&prg, &chr, nes_emu::mmc3::Mirroring::Vertical) {
        Ok(m) => m,
        Err(_) => panic!("bad image"),
    }
}

#[test]
fn mmc3_prg_banks() {
    let mut m = mmc3_image();
    let mut cpu = cpu_at(0);
    assert_eq!(m.read(0xe000), 3);
    assert_eq!(m.read(0xc000), 2);
    m.write(0x8000, 6, &mut cpu);
    m.write(0x8001, 1, &mut cpu);
    assert_eq!(m.read(0x8000), 1);
    m.write(0x8000, 0x46, &mut cpu);
    assert_eq!(m.read(0x8000), 2);
    assert_eq!(m.read(0xc000), 1);
    m.write(0x8000, 7, &mut cpu);
    m.write(0x8001, 5, &mut cpu);
    assert_eq!(m.read(0xa000), 1);
    m.write(0x6123, 0x77, &mut cpu);
    assert_eq!(m.read(0x6123), 0x77);
}

#[test]
fn mmc3_chr_banks() {
    let mut m = mmc3_image();
    let mut cpu = cpu_at(0);
    m.write(0x8000, 2, &mut cpu);
    m.write(0x8001, 5, &mut cpu);
    assert_eq!(m.ppu_read(0x1000), 0x15);
    m.write(0x8000, 0, &mut cpu);
    m.write(0x8001, 3, &mut cpu);
    assert_eq!(m.ppu_read(0x0000), 0x12);
    assert_eq!(m.ppu_read(0x0400), 0x13);
    m.write(0x8000, 0x80, &mut cpu);
    assert_eq!(m.ppu_read(0x1000), 0x12);
    assert_eq!(m.ppu_read(0x0000), 0x15);
}

#[test]
fn mmc3_irq_counter() {
    let mut m = mmc3_image();
    let mut cpu = cpu_at(0);
    m.write(0xc000, 2, &mut cpu);
    m.write(0xc001, 0, &mut cpu);
    m.write(0xe001, 0, &mut cpu);
    m.on_event(&mut cpu, 0x00);
    assert!(!cpu.irq_requested);
    m.on_event(&mut cpu, 0x08);
    m.on_event(&mut cpu, 0x08);
    assert!(!cpu.irq_requested);
    m.on_event(&mut cpu, 0x08);
    assert!(cpu.irq_requested);
    m.write(0xe000, 0, &mut cpu);
    assert!(!cpu.irq_requested);
}

#[test]
fn mmc3_rejects_sizes() {
    let chr = vec![0u8; 8192];
    assert!(matches!(Mmc3::new(&vec![0u8; 8192], &chr, nes_emu::mmc3::Mirroring::Vertical), Err(MMC3MapperError::BadPrgRomSize)));
    assert!(matches!(Mmc3::new(&vec![0u8; 3 * 8192 + 1], &chr, nes_emu::mmc3::Mirroring::Vertical), Err(MMC3MapperError::BadPrgRomSize)));
    assert!(matches!(
        Mmc3::new(&vec![0u8; 4 * 8192], &vec![0u8; 0x200001], nes_emu::mmc3::Mirroring::Vertical),
        Err(MMC3MapperError::BadChrRomSize)
    ));
}

fn image(prg_pages: u8, chr_pages: u8, flags6: u8, flags7: u8) -> Vec<u8> {
    let mut b = vec![0x4e, 0x45, 0x53, 0x1a, prg_pages, chr_pages, flags6, flags7, 0, 0, 0, 0, 0, 0, 0, 0];
    b.extend(std::iter::repeat(0xee).take(prg_pages as usize * 16384));
    b.extend(std::iter::repeat(0xcc).take(chr_pages as usize * 8192));
    b
}

#[test]
fn rom_parse_header() {
    let rom = match Rom::parse(&image(2, 1, 0x41, 0x00)) {
        Ok(r) => r,
        Err(_) => panic!("valid image"),
    };
    assert_eq!(rom.mapper_code, 4);
    assert_eq!(rom.prg_rom.len(), 32768);
    assert_eq!(rom.chr_rom.len(), 8192);
    assert_eq!(rom.chr_rom[0], 0xcc);
    assert_eq!(rom.mirroring, nes_emu::ines_rom_file::Mirroring::Vertical);
    assert!(matches!(rom.get_cpu_mapper(), Ok(Cartridge::Mmc3(_))));
}

#[test]
fn rom_parse_errors() {
    assert!(matches!(Rom::parse(&vec![0x4e, 0x45]), Err(OpenRomError::Truncated)));
    let mut bad = image(1, 0, 0, 0);
    bad[3] = 0;
    assert!(matches!(Rom::parse(&bad), Err(OpenRomError::InvalidMagicConstant)));
    let mut short = image(1, 1, 0, 0);
    short.pop();
    assert!(matches!(Rom::parse(&short), Err(OpenRomError::Truncated)));
}

#[test]
fn rom_mapper_errors() {
    let rom = Rom::parse(&image(1, 1, 0x10, 0)).ok().unwrap();
    assert!(matches!(rom.get_cpu_mapper(), Err(GetCpuMapperError::UnimplementedMapper)));
    let rom = Rom::parse(&image(3, 1, 0x00, 0)).ok().unwrap();
    assert!(matches!(rom.get_cpu_mapper(), Err(GetCpuMapperError::MapperError)));
    let rom = Rom::parse(&image(1, 1, 0x00, 0)).ok().unwrap();
    assert!(matches!(rom.get_cpu_mapper(), Ok(Cartridge::Nrom(_))));
}

#[test]
fn events_come_out_by_dot_then_insertion() {
    let mut l = EventList::new();
    let e = |cycle: u64, id: u32| FutureEvent { cycle, tp: FutureEventType::Cartridge(id) };
    l.add_event(e(50, 1));
    l.add_event(e(10, 2));
    l.add_event(e(50, 3));
    l.add_event(e(30, 4));
    assert_eq!(l.pop_next_event(5), None);
    assert_eq!(l.pop_next_event(100), Some(e(10, 2)));
    assert_eq!(l.pop_next_event(100), Some(e(30, 4)));
    assert_eq!(l.pop_next_event(100), Some(e(50, 1)));
    assert_eq!(l.pop_next_event(49), None);
    assert_eq!(l.pop_next_event(50), Some(e(50, 3)));
    assert_eq!(l.len(), 0);
    l.add_event(FutureEvent { cycle: 1, tp: FutureEventType::PPU(PpuEvent::Sprite0Hit) });
    l.clear();
    assert_eq!(l.len(), 0);
}

fn looping_cartridge() -> Cartridge {
    let mut prg = vec![0u8; 16384];
    // 0x8000: LDA #$80; STA $2000; JMP $8005
    let code = [0xa9, 0x80, 0x8d, 0x00, 0x20, 0x4c, 0x05, 0x80];
    prg[..code.len()].copy_from_slice(&code);
    prg[0x3ffc] = 0x00;
    prg[0x3ffd] = 0x80;
    prg[0x3ffa] = 0x00;
    prg[0x3ffb] = 0x90;
    prg[0x1000] = 0x40;
    nrom_with(prg, vec![0u8; 8192])
}

#[test]
fn frame_runs_a_whole_frame() {
    let mut nes = Nes::new(looping_cartridge());
    assert_eq!(nes.cpu.program_counter, MemoryPtr(0x8000));
    for _ in 0..3 {
        let before = nes.cpu.cycle_count;
        nes.frame().unwrap();
        assert!(3 * (nes.cpu.cycle_count - before) >= 89342);
        assert!(nes.cpu.cycle_count - before < 29781 + 20);
        assert_eq!(nes.events.len(), 0);
    }
    assert_eq!(nes.framebuffer_nes.len(), 61440);
}

#[test]
fn frame_stops_on_unknown_opcode() {
    let mut prg = vec![0u8; 16384];
    prg[0] = 0x02;
    prg[0x3ffc] = 0x00;
    prg[0x3ffd] = 0x80;
    let mut nes = Nes::new(nrom_with(prg, vec![0u8; 8192]));
    assert_eq!(nes.frame(), Err(UnknownOpcode { opcode: 0x02, address: 0x8000 }));
}

#[test]
fn background_and_sprite0_hit_on_a_line() {
    let mut chr = vec![0u8; 8192];
    // tile 1: every pixel of every row has colour 1
    for r in 0..8 {
        chr[16 + r] = 0xff;
    }
    let mut m = SystemMemoryMapper::new(Ram::new(), nrom_with(vec![0u8; 16384], chr), PPU::new(), Joypad::new());
    let mut cpu = cpu_at(0);
    // nametable entry (0,0) = tile 1
    write(&mut m, &mut cpu, 0x2006, 0x20);
    write(&mut m, &mut cpu, 0x2006, 0x00);
    write(&mut m, &mut cpu, 0x2007, 0x01);
    // palette: backdrop 0x0f, background colour 1 = 0x16, sprite palette 4 colour 1 = 0x21
    write(&mut m, &mut cpu, 0x2006, 0x3f);
    write(&mut m, &mut cpu, 0x2006, 0x00);
    write(&mut m, &mut cpu, 0x2007, 0x0f);
    write(&mut m, &mut cpu, 0x2007, 0x16);
    write(&mut m, &mut cpu, 0x2006, 0x3f);
    write(&mut m, &mut cpu, 0x2006, 0x11);
    write(&mut m, &mut cpu, 0x2007, 0x21);
    // sprite 0 at x=4, y=0, tile 1
    write(&mut m, &mut cpu, 0x2003, 0x00);
    for b in [0u8, 1, 0, 4] {
        write(&mut m, &mut cpu, 0x2004, b);
    }
    // scroll back to 0, show everything
    write(&mut m, &mut cpu, 0x2006, 0x00);
    write(&mut m, &mut cpu, 0x2006, 0x00);
    write(&mut m, &mut cpu, 0x2001, 0x1e);
    let mut fb = vec![0u8; 61440];
    let hit = m.ppu.current_state.draw_scanline(&m.cartridge, &mut fb, 0, 0);
    assert_eq!(hit, Some((4, 0)));
    assert_eq!(fb[0], 0x96);
    assert_eq!(fb[3], 0x96);
    assert_eq!(fb[4], 0x21);
    assert_eq!(fb[11], 0x21);
    assert_eq!(fb[12], 0x0f);
    assert_eq!(fb[256], 0);
}

#[test]
fn brk_pushes_and_jumps_through_irq_vector() {
    let mut cpu = cpu_at(0x0010);
    cpu.flags = 0x01;
    let mut ram = ram_with(&[(0x10, 0x00), (0x7fe, 0x34), (0x7ff, 0x02)]);
    steps(&mut cpu, &mut ram, 1);
    assert_eq!(cpu.program_counter, MemoryPtr(0x0234));
    assert_eq!(cpu.flags, 0x05);
    assert_eq!(cpu.stack_pointer, 0xfa);
    let stack = ram.dump_ram();
    assert_eq!(stack[0x1fd], 0x00);
    assert_eq!(stack[0x1fc], 0x12);
    assert_eq!(stack[0x1fb], 0x31);
    assert_eq!(cpu.cycle_count, 7);
}

#[test]
fn sbc_zero_result_sets_z() {
    let mut cpu = cpu_at(0);
    let mut ram = ram_with(&[(0, 0xe9), (1, 0xff)]);
    steps(&mut cpu, &mut ram, 1);
    assert_eq!(cpu.accumulator, 0x00);
    assert_eq!(cpu.flags & FLAG_ZERO, FLAG_ZERO);
    assert_eq!(cpu.flags & 0x01, 0);
}

#[test]
fn interrupt_pushes_p_with_bit_5() {
    let mut cpu = cpu_at(0x0040);
    cpu.flags = 0x00;
    let mut ram = ram_with(&[]);
    cpu.nmi(&mut ram);
    assert_eq!(ram.dump_ram()[0x1fb], 0x20);
    assert_eq!(cpu.flags, 0x04);
}

fn overlap_setup() -> SystemMemoryMapper {
    let mut chr = vec![0u8; 8192];
    for r in 0..8 {
        chr[16 + r] = 0xff;
    }
    let mut m = SystemMemoryMapper::new(Ram::new(), nrom_with(vec![0u8; 16384], chr), PPU::new(), Joypad::new());
    let mut cpu = cpu_at(0);
    write(&mut m, &mut cpu, 0x2006, 0x20);
    write(&mut m, &mut cpu, 0x2006, 0x00);
    write(&mut m, &mut cpu, 0x2007, 0x01);
    write(&mut m, &mut cpu, 0x2006, 0x20);
    write(&mut m, &mut cpu, 0x2006, 0x20);
    write(&mut m, &mut cpu, 0x2007, 0x01);
    write(&mut m, &mut cpu, 0x2003, 0x00);
    // sprite 0 at x=2, sprite 1 in front of it at x=0, both on lines 0-7
    for b in [0u8, 1, 0, 2, 0, 1, 0, 0] {
        write(&mut m, &mut cpu, 0x2004, b);
    }
    write(&mut m, &mut cpu, 0x2006, 0x00);
    write(&mut m, &mut cpu, 0x2006, 0x00);
    write(&mut m, &mut cpu, 0x2001, 0x1e);
    m
}

#[test]
fn sprite0_hit_counts_background_under_other_sprites() {
    let m = overlap_setup();
    let mut fb = vec![0u8; 61440];
    let hit = m.ppu.current_state.draw_scanline(&m.cartridge, &mut fb, 0, 0);
    assert_eq!(hit, Some((2, 0)));
}

#[test]
fn sprite0_hit_scheduled_once_per_frame() {
    let mut m = overlap_setup();
    let mut events = EventList::new();
    let mut fb = vec![0u8; 61440];
    m.ppu.set_vblank_flag(&mut events, 0);
    assert_eq!(events.len(), 240);
    m.ppu.handle_event(PpuEvent::VBlankEnd, 2600, &m.cartridge, &mut events, &mut fb);
    assert_eq!(events.len(), 241);
    m.ppu.handle_event(PpuEvent::ScanlineEnd, 2615, &m.cartridge, &mut events, &mut fb);
    assert_eq!(events.len(), 241);
    assert_eq!(fb[256 + 2] & 0x3f, fb[2] & 0x3f);
    m.ppu.set_vblank_flag(&mut events, 30000);
    m.ppu.handle_event(PpuEvent::VBlankEnd, 32600, &m.cartridge, &mut events, &mut fb);
    assert_eq!(events.len(), 482);
}

#[test]
fn irq_taken_once_then_masked() {
    let mut cpu = cpu_at(0x0040);
    cpu.irq_requested = true;
    let mut ram = ram_with(&[(0x40, 0xea), (0x300, 0xe8), (0x301, 0xe8), (0x7fe, 0x00), (0x7ff, 0x03)]);
    steps(&mut cpu, &mut ram, 2);
    assert_eq!(cpu.program_counter, MemoryPtr(0x0302));
    assert_eq!(cpu.x, 2);
    assert_eq!(cpu.stack_pointer, 0xfa);
    assert_eq!(cpu.flags & 0x04, 0x04);
}

#[test]
fn nrom_image_needs_whole_pages() {
    let mut rom = Rom::parse(&image(1, 1, 0x00, 0)).ok().unwrap();
    rom.prg_rom.truncate(1000);
    assert!(matches!(rom.get_cpu_mapper(), Err(GetCpuMapperError::MapperError)));
}
