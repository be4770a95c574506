use vstd::prelude::*;
use crate::cpu::{Cpu, CpuMemory};
use crate::events::{EventList, FutureEvent, FutureEventType, weight};
use crate::instructions::{MAX_STEP_CYCLES, UnknownOpcode, decode_spec, step_spec};
use crate::cpu::interrupt_spec;
use crate::events::insert_all;
use crate::mappers::{CartridgeModel, SystemModel, cart_event_spec};
use crate::mmc3::mmc3_ticks;
use crate::ppu::{PPUModel, PPUStateModel, PPUCTRL_VBLANK, PPUSTATUS_VBLANK, frame_events, ppu_event_done};
use crate::joypad::Joypad;
use crate::mappers::{Cartridge, SystemMemoryMapper, cart_cpu_read_spec};
use crate::memory_controller::Ram;
use crate::ppu::{PPU, initial_state};
use crate::renderer::FRAMEBUFFER_LEN;

verus! {

/// PPU dots in one frame.
pub const DOTS_PER_FRAME: u64 = 89342;

/// CPU cycles a frame lasts at most: its dots, one instruction past the
/// end, and the NMI entry.
pub const MAX_FRAME_CYCLES: u64 = 29781 + MAX_STEP_CYCLES + 3 * 513;

/// The cycle counter a frame may start from: the 64-bit counter then cannot
/// run out during the frame (at the NES's clock it is reached after some
/// hundred thousand years).
pub const CYCLE_LIMIT: u64 = 0xffff_ffff_0000_0000;

/// The whole console: CPU, bus, event schedule and the frame being drawn
/// (one 6-bit colour index per pixel, bit 7 marking opaque background).
pub struct Nes {
    pub cpu: Cpu,
    pub memory: SystemMemoryMapper,
    pub events: EventList,
    pub framebuffer_nes: Vec<u8>,
}

impl Nes {
    pub open spec fn wf(&self) -> bool {
        &&& self.events.wf()
        &&& self.framebuffer_nes@.len() == FRAMEBUFFER_LEN
    }

    /// Powers the console on with a cartridge and loads the reset vector.
    pub fn new(game: Cartridge) -> (r: Nes)
        ensures
            r.wf(),
            r.events@.len() == 0,
            r.cpu.cycle_count == 7 && r.cpu.flags == 0x24 && r.cpu.stack_pointer == 0xfd,
            r.cpu.accumulator == 0 && r.cpu.x == 0 && r.cpu.y == 0 && !r.cpu.irq_requested,
            r.cpu.program_counter.0 == cart_cpu_read_spec(game@, 0xfffd) * 256 + cart_cpu_read_spec(game@, 0xfffc),
            r.memory.cartridge@ == game@,
            r.memory.ppu@.state == initial_state(),
    {
        let mut fb: Vec<u8> = Vec::new();
        let mut i: usize = 0;
        while i < FRAMEBUFFER_LEN
            invariant
                i <= FRAMEBUFFER_LEN,
                fb@.len() == i,
            decreases FRAMEBUFFER_LEN - i,
        {
            fb.push(0);
            i = i + 1;
        }
        let mut ret = Nes {
            cpu: Cpu::new(),
            memory: SystemMemoryMapper::new(Ram::new(), game, PPU::new(), Joypad::new()),
            events: EventList::new(),
            framebuffer_nes: fb,
        };
        ret.cpu.reset(&mut ret.memory);
        ret
    }

    /// Handles, in order of their dots, every event due by the current dot
    /// of the frame that began at CPU cycle `start`, each as its own handler
    /// specifies; the frame's trace `t` grows by one move per event.
    fn run_due_events(&mut self, start: u64, t: Ghost<Seq<NesModel>>) -> (t2: Ghost<Seq<NesModel>>)
        requires
            old(self).wf(),
            in_frame(old(self)@, start),
            frame_trace(t@, start),
            t@.last() == old(self)@,
        ensures
            final(self).wf(),
            final(self).cpu.cycle_count == old(self).cpu.cycle_count,
            frame_trace(t2@, start),
            t2@[0] == t@[0],
            t2@.last() == final(self)@,
            no_event_due(final(self)@, start),
    {
        let dot = 3 * (self.cpu.cycle_count - start);
        let ghost mut tr = t@;
        loop
            invariant
                self.wf(),
                self.cpu.cycle_count == old(self).cpu.cycle_count,
                in_frame(self@, start),
                dot == 3 * (self.cpu.cycle_count - start),
                frame_trace(tr, start),
                tr[0] == t@[0],
                tr.last() == self@,
            ensures
                no_event_due(self@, start),
                frame_trace(tr, start),
                tr[0] == t@[0],
                tr.last() == self@,
            decreases weight(self.events@),
        {
            let ghost before = self@;
            match self.events.pop_next_event(dot) {
                Some(e) => {
                    proof {
                        assert(before.events.len() > 0);
                        assert(weight(self.events@) + crate::events::event_weight(e) == weight(before.events));
                    }
                    match e.tp {
                        FutureEventType::PPU(ev) => {
                            let cyc = self.cpu.cycle_count;
                            self.memory.ppu.handle_event(ev, cyc, &self.memory.cartridge, &mut self.events, &mut self.framebuffer_nes);
                        },
                        FutureEventType::Cartridge(_) => {
                            let mask = self.memory.ppu.mask();
                            self.memory.cartridge.on_event(&mut self.cpu, mask);
                        },
                    }
                    proof {
                        assert(one_event(before, self@, start));
                        lemma_trace_push(tr, self@, start);
                        tr = tr.push(self@);
                    }
                },
                None => {
                    break;
                },
            }
        }
        Ghost(tr)
    }

    /// The start of a frame at the current CPU cycle: VBlank is raised, the
    /// PPU's and the cartridge's events for the frame are scheduled, and NMI
    /// is entered if PPUCTRL enables it.
    pub fn start_frame(&mut self)
        requires
            old(self).wf(),
        ensures
            final(self).wf(),
            frame_started(old(self)@, final(self)@),
            final(self).cpu.cycle_count >= old(self).cpu.cycle_count,
            final(self).cpu.cycle_count <= old(self).cpu.cycle_count + 3 * 513,
    {
        let start = self.cpu.cycle_count;
        self.memory.ppu.set_vblank_flag(&mut self.events, start);
        self.memory.cartridge.start_of_frame(&mut self.events);
        if self.memory.ppu.nmi_active() {
            self.cpu.nmi(&mut self.memory);
        }
    }

    /// Runs one frame: `start_frame`, then, until the frame's dots have
    /// passed, each due event in dot order and, when none is due, one
    /// instruction. The final state is the end of such a trace, with the
    /// schedule cleared. Only an unknown opcode fetched by a step of the
    /// trace stops the frame early.
    pub fn frame(&mut self) -> (r: Result<(), UnknownOpcode>)
        requires
            old(self).wf(),
            old(self).cpu.cycle_count <= CYCLE_LIMIT,
        ensures
            final(self).wf(),
            final(self).cpu.cycle_count >= old(self).cpu.cycle_count,
            final(self).cpu.cycle_count <= old(self).cpu.cycle_count + MAX_FRAME_CYCLES,
            r is Ok ==> 3 * (final(self).cpu.cycle_count - old(self).cpu.cycle_count) >= DOTS_PER_FRAME,
            r is Ok ==> 3 * (final(self).cpu.cycle_count - old(self).cpu.cycle_count) < DOTS_PER_FRAME + 3 * MAX_STEP_CYCLES,
            r is Ok ==> exists|t: Seq<NesModel>| #[trigger] frame_trace(t, old(self).cpu.cycle_count)
                && frame_started(old(self)@, t[0])
                && final(self)@ == (NesModel { events: Seq::empty(), ..t.last() }),
            r matches Err(e) ==> {
                &&& e.address == final(self).cpu.program_counter.0
                &&& decode_spec(e.opcode) is None
                &&& exists|t: Seq<NesModel>| #[trigger] frame_trace(t, old(self).cpu.cycle_count)
                    && frame_started(old(self)@, t[0])
                    && in_frame(t.last(), old(self).cpu.cycle_count)
                    && no_event_due(t.last(), old(self).cpu.cycle_count)
                    && step_spec::<SystemMemoryMapper>(t.last().cpu, t.last().memory) == (final(self).cpu, final(self).memory@, false)
                    && final(self).events@ == t.last().events
                    && final(self).framebuffer_nes@ == t.last().framebuffer
            },
    {
        let start = self.cpu.cycle_count;
        self.start_frame();
        let ghost mut t: Seq<NesModel> = seq![self@];
        let ghost mut last_start: u64 = start;
        while self.cpu.cycle_count - start < 29781
            invariant
                self.wf(),
                start <= CYCLE_LIMIT,
                start <= self.cpu.cycle_count,
                start == old(self).cpu.cycle_count,
                self.cpu.cycle_count <= start + 29781 + MAX_STEP_CYCLES + 3 * 513,
                start <= last_start <= self.cpu.cycle_count <= last_start + MAX_STEP_CYCLES,
                3 * (last_start - start) < DOTS_PER_FRAME,
                frame_trace(t, start),
                frame_started(old(self)@, t[0]),
                t.last() == self@,
            decreases start + 29781 + MAX_STEP_CYCLES + 3 * 513 - self.cpu.cycle_count,
        {
            let t2 = self.run_due_events(start, Ghost(t));
            proof {
                t = t2@;
                last_start = self.cpu.cycle_count;
            }
            let ghost before = self@;
            let r = self.cpu.execute_next_instruction(&mut self.memory);
            if r.is_err() {
                proof {
                    assert(frame_trace(t, start));
                }
                return r;
            }
            proof {
                assert(instruction_done(before, self@));
                lemma_trace_push(t, self@, start);
                t = t.push(self@);
            }
        }
        self.events.clear();
        proof {
            assert(self@ == (NesModel { events: Seq::empty(), ..t.last() }));
            assert(frame_trace(t, start));
        }
        Ok(())
    }
}

/// The console as values.
pub struct NesModel {
    pub cpu: Cpu,
    pub memory: SystemModel,
    pub events: Seq<FutureEvent>,
    pub framebuffer: Seq<u8>,
}

impl View for Nes {
    type V = NesModel;

    open spec fn view(&self) -> NesModel {
        NesModel { cpu: self.cpu, memory: self.memory@, events: self.events@, framebuffer: self.framebuffer_nes@ }
    }
}

/// The start of a frame: VBlank raised and the frame's start recorded, the
/// PPU's events (and MMC3's ticks) scheduled, and NMI entered when PPUCTRL
/// enables it.
pub open spec fn frame_started(n0: NesModel, n1: NesModel) -> bool {
    let start = n0.cpu.cycle_count;
    let m0 = n0.memory;
    let m1 = SystemModel {
        ppu: PPUModel {
            state: PPUStateModel { ppustatus: m0.ppu.state.ppustatus | PPUSTATUS_VBLANK, ..m0.ppu.state },
            frame_start_cyc: start,
            sprite0_scheduled: false,
        },
        ..m0
    };
    let ev = insert_all(n0.events, frame_events());
    &&& n1.events == match m0.cartridge {
        CartridgeModel::Nrom(_) => ev,
        CartridgeModel::Mmc3(_) => insert_all(ev, mmc3_ticks()),
    }
    &&& m0.ppu.state.ppuctrl & PPUCTRL_VBLANK != 0
        ==> (n1.cpu, n1.memory) == interrupt_spec::<SystemMemoryMapper>(n0.cpu, m1, 0xfffa)
    &&& m0.ppu.state.ppuctrl & PPUCTRL_VBLANK == 0 ==> n1.cpu == n0.cpu && n1.memory == m1
    &&& n1.framebuffer == n0.framebuffer
}

/// Whether the CPU is still inside the frame that began at cycle `start`.
pub open spec fn in_frame(n: NesModel, start: u64) -> bool {
    start <= n.cpu.cycle_count && 3 * (n.cpu.cycle_count - start) < DOTS_PER_FRAME
}

/// No event is due by the current dot of the frame.
pub open spec fn no_event_due(n: NesModel, start: u64) -> bool {
    n.events.len() == 0 || n.events[0].cycle > 3 * (n.cpu.cycle_count - start)
}

/// The first event, due by the current dot, is taken out and handled: a PPU
/// event as the PPU specifies, a cartridge event as the cartridge does.
pub open spec fn one_event(n0: NesModel, n1: NesModel, start: u64) -> bool {
    &&& n0.events.len() > 0
    &&& n0.events[0].cycle <= 3 * (n0.cpu.cycle_count - start)
    &&& match n0.events[0].tp {
        FutureEventType::PPU(ev) => {
            &&& n1.cpu == n0.cpu
            &&& n1.memory == (SystemModel { ppu: n1.memory.ppu, ..n0.memory })
            &&& ppu_event_done(ev, n0.memory.ppu, n1.memory.ppu, n0.memory.cartridge, n0.cpu.cycle_count,
                n0.framebuffer, n1.framebuffer, n0.events.drop_first(), n1.events)
        },
        FutureEventType::Cartridge(_) => {
            &&& (n1.memory.cartridge, n1.cpu) == cart_event_spec(n0.memory.cartridge, n0.cpu, n0.memory.ppu.state.ppumask)
            &&& n1.memory == (SystemModel { cartridge: n1.memory.cartridge, ..n0.memory })
            &&& n1.events == n0.events.drop_first()
            &&& n1.framebuffer == n0.framebuffer
        },
    }
}

/// One successful instruction step on the bus.
pub open spec fn instruction_done(n0: NesModel, n1: NesModel) -> bool {
    &&& step_spec::<SystemMemoryMapper>(n0.cpu, n0.memory) == (n1.cpu, n1.memory, true)
    &&& n1.events == n0.events
    &&& n1.framebuffer == n0.framebuffer
}

/// A move within a frame: a due event handled, or, with none due, one
/// instruction.
pub open spec fn frame_move(n0: NesModel, n1: NesModel, start: u64) -> bool {
    &&& in_frame(n0, start)
    &&& (one_event(n0, n1, start) || (no_event_due(n0, start) && instruction_done(n0, n1)))
}

/// A run of states, each reached from the one before by a move of the frame.
pub open spec fn frame_trace(t: Seq<NesModel>, start: u64) -> bool {
    &&& t.len() >= 1
    &&& forall|i: int| 0 <= i < t.len() - 1 ==> frame_move(#[trigger] t[i], t[i + 1], start)
}

pub proof fn lemma_trace_push(t: Seq<NesModel>, n: NesModel, start: u64)
    requires
        frame_trace(t, start),
        frame_move(t.last(), n, start),
    ensures
        frame_trace(t.push(n), start),
        t.push(n)[0] == t[0],
        t.push(n).last() == n,
{
    let u = t.push(n);
    assert forall|i: int| 0 <= i < u.len() - 1 implies frame_move(#[trigger] u[i], u[i + 1], start) by {
        if i < t.len() - 1 {
            assert(u[i] == t[i] && u[i + 1] == t[i + 1]);
        } else {
            assert(u[i] == t.last() && u[i + 1] == n);
        }
    }
}

} // verus!
