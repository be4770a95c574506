use nes_emu::cpu::{Cpu, FLAG_CARRY, FLAG_SIGN, FLAG_ZERO};
use nes_emu::memory_controller::{MemoryPtr, Ram};

#[derive(Debug, PartialEq)]
struct RelevantState {
    accumulator: u8,
    flags: u8,
    x: u8,
    y: u8,
    stack_pointer: u8,
    program_counter: MemoryPtr,
    ram: [u8; 2048],
    instructions_to_execute: usize,
}

fn pad_ram(data: &[u8]) -> [u8; 2048] {
    let mut ram_state: [u8; 2048] = [0; 2048];
    ram_state[..data.len()].copy_from_slice(data);
    ram_state
}

fn state(accumulator: u8, flags: u8, pc: u16, ram: [u8; 2048]) -> RelevantState {
    RelevantState {
        accumulator,
        flags,
        x: 0,
        y: 0,
        stack_pointer: 0,
        program_counter: MemoryPtr(pc),
        ram,
        instructions_to_execute: 1,
    }
}

fn run(initial: &RelevantState) -> (Cpu, Ram) {
    let mut ram = Ram::new();
    ram.set_ram_state(initial.ram);
    let mut cpu = Cpu {
        accumulator: initial.accumulator,
        flags: initial.flags,
        program_counter: initial.program_counter,
        x: initial.x,
        y: initial.y,
        stack_pointer: initial.stack_pointer,
        cycle_count: 0,
        last_instruction: 0,
        irq_requested: false,
    };
    for _ in 0..initial.instructions_to_execute {
        if cpu.execute_next_instruction(&mut ram).is_err() {
            panic!("error executing instruction");
        }
    }
    (cpu, ram)
}

fn process_testcase(initial: RelevantState, expected: RelevantState) {
    let (cpu, ram) = run(&initial);
    let got = RelevantState {
        accumulator: cpu.accumulator,
        flags: cpu.flags,
        x: cpu.x,
        y: cpu.y,
        stack_pointer: cpu.stack_pointer,
        instructions_to_execute: initial.instructions_to_execute,
        program_counter: cpu.program_counter,
        ram: ram.dump_ram(),
    };
    assert_eq!(expected, got);
}

#[test]
fn test_adc_instruction() {
    process_testcase(state(0, 0, 0, pad_ram(&[0x69, 0x50])), state(0x50, 0, 2, pad_ram(&[0x69, 0x50])));
    process_testcase(state(0, 0, 0, pad_ram(&[0x69, 0x50])), state(0x50, 0, 2, pad_ram(&[0x69, 0x50])));
    // zero page
    process_testcase(
        state(0, 0, 4, pad_ram(&[0x0, 0x1a, 0x0, 0x0, 0x65, 0x01])),
        state(0x1a, 0, 6, pad_ram(&[0x0, 0x1a, 0x0, 0x0, 0x65, 0x01])),
    );
}

#[test]
fn test_and_instruction() {
    process_testcase(state(0xF0, 0, 0, pad_ram(&[0x29, 0x11])), state(0x10, 0, 2, pad_ram(&[0x29, 0x11])));
}

#[test]
fn test_asl_instruction() {
    process_testcase(state(0x01, 0, 0, pad_ram(&[0x0a])), state(0x02, 0, 1, pad_ram(&[0x0a])));
    process_testcase(state(0x80, 0, 0, pad_ram(&[0x0a])), state(0x00, FLAG_CARRY | FLAG_ZERO, 1, pad_ram(&[0x0a])));
    process_testcase(state(0x40, 0, 0, pad_ram(&[0x0a])), state(0x80, FLAG_SIGN, 1, pad_ram(&[0x0a])));
}

#[test]
fn test_bcc_instruction() {
    // not taken
    let ram = pad_ram(&[0x0, 0x0, 0x0, 0x90, (-3i8) as u8]);
    process_testcase(state(0, FLAG_CARRY, 3, ram), state(0, FLAG_CARRY, 5, ram));
    // taken backwards
    let ram = pad_ram(&[0x0, 0x0, 0x0, 0x90, (-5i8) as u8]);
    process_testcase(state(0, 0, 3, ram), state(0, 0, 0, ram));
    // taken forwards
    let ram = pad_ram(&[0x0, 0x0, 0x0, 0x90, 3]);
    process_testcase(state(0, 0, 3, ram), state(0, 0, 8, ram));
    // taken backwards, crossing a page
    let ram = pad_ram(&[0x90, (-3i8) as u8, 0x0, 0x0, 0x0]);
    process_testcase(state(0, 0, 0, ram), state(0, 0, 0xFFFF, ram));
}

#[test]
fn test_bcs_instruction() {
    let ram = pad_ram(&[0xb0, 0x70]);
    process_testcase(state(0, FLAG_CARRY, 0, ram), state(0, FLAG_CARRY, 0x72, ram));
    process_testcase(state(0, 0, 0, ram), state(0, 0, 2, ram));
}

#[test]
fn test_beq_instruction() {
    let ram = pad_ram(&[0xf0, 0x70]);
    process_testcase(state(0, FLAG_ZERO, 0, ram), state(0, FLAG_ZERO, 0x72, ram));
    process_testcase(state(0, 0, 0, ram), state(0, 0, 2, ram));
}

#[test]
fn test_cmp_instruction() {
    // equal
    let ram = pad_ram(&[0xc9, 4]);
    process_testcase(state(4, 0, 0, ram), state(4, FLAG_ZERO | FLAG_CARRY, 2, ram));
    // negative
    let ram = pad_ram(&[0xc9, 8]);
    process_testcase(state(4, 0, 0, ram), state(4, FLAG_SIGN, 2, ram));
    // positive
    let ram = pad_ram(&[0xc9, 10]);
    process_testcase(state(40, 0, 0, ram), state(40, FLAG_CARRY, 2, ram));
}

#[test]
fn test_dec_instruction() {
    let mut initial = state(0, 0, 0, pad_ram(&[0xce, 6, 0, 0xce, 6, 0, 21]));
    initial.instructions_to_execute = 2;
    let mut expected = state(0, 0, 6, pad_ram(&[0xce, 6, 0, 0xce, 6, 0, 19]));
    expected.instructions_to_execute = 2;
    process_testcase(initial, expected);
}

#[test]
fn test_dex_instruction() {
    let mut expected = state(0, FLAG_SIGN, 1, pad_ram(&[0xca]));
    expected.x = 0xff;
    process_testcase(state(0, 0, 0, pad_ram(&[0xca])), expected);
}

#[test]
fn test_jmp_instruction() {
    let ram = pad_ram(&[0x4c, 0xfa, 0xfc]);
    process_testcase(state(0, 0, 0, ram), state(0, 0, 0xfcfa, ram));
    let ram = pad_ram(&[0x6c, 0x03, 0x00, 0xad, 0xde]);
    process_testcase(state(0, 0, 0, ram), state(0, 0, 0xdead, ram));
}

#[test]
fn test_jsr_instruction() {
    let testram = pad_ram(&[0, 0x20, 0xad, 0xde]);
    let mut expectedram = pad_ram(&[0, 0x20, 0xad, 0xde]);
    expectedram[0x01ff] = 0;
    expectedram[0x01fe] = 3;
    let mut initial = state(0, 0, 1, testram);
    initial.stack_pointer = 0xff;
    let mut expected = state(0, 0, 0xdead, expectedram);
    expected.stack_pointer = 0xfd;
    process_testcase(initial, expected);
}
