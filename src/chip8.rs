use vstd::prelude::*;
use std::collections::HashSet;
use crate::cpu::{CpuView, CPU, InvalidOpcode, stepped, lemma_step_keeps_clock, CYCLES_DIVISOR, INSTRUCTION_CYCLES};
use crate::memory::{PROGRAM_START, MEMORY_SIZE};

verus! {

broadcast use vstd::std_specs::hash::group_hash_axioms;

/// The scheduler's state as mathematical values.
pub struct Chip8View {
    pub cpu: CpuView,
    pub halted: bool,
    pub breakpoints: Set<u16>,
}

/// The state with both timers counted down by one, stopping at zero.
pub open spec fn timers_ticked(s: CpuView) -> CpuView {
    CpuView {
        dt: if s.dt > 0 { (s.dt - 1) as u8 } else { 0 },
        st: if s.st > 0 { (s.st - 1) as u8 } else { 0 },
        ..s
    }
}

/// The rest of a tick's burst from state `s`, with `cycles` of the `budget` consumed and
/// `draws` holding the random bytes of the steps to come, first one first. Steps run
/// while the program runs and the budget lasts; then the timers tick. A step that lands
/// on a breakpoint ends the burst at once, halted and with the timers untouched; a word
/// that is no instruction ends it with the error and stops the program.
pub open spec fn run_burst(
    s: CpuView,
    bps: Set<u16>,
    budget: u32,
    cycles: int,
    draws: Seq<u8>,
) -> (CpuView, bool, Result<(), InvalidOpcode>)
    decreases budget - cycles,
{
    if !(s.running && cycles < budget) {
        (timers_ticked(s), false, Ok(()))
    } else {
        let step = stepped(s, draws[0]);
        match step.1 {
            Err(e) => (step.0, false, Err(e)),
            Ok(c) => if bps.contains(step.0.pc) {
                (step.0, true, Ok(()))
            } else if 0 < c && cycles + c < budget {
                run_burst(step.0, bps, budget, cycles + c, draws.drop_first())
            } else {
                (timers_ticked(step.0), false, Ok(()))
            },
        }
    }
}

/// The cycle budget of one tick at a given clock speed.
pub open spec fn tick_budget(clock_speed: u32) -> u32 {
    (clock_speed / CYCLES_DIVISOR) as u32
}

/// The machine: a processor, the breakpoints set on it, and whether a breakpoint halted it.
pub struct Chip8 {
    pub cpu: CPU,
    pub halted: bool,
    pub breakpoints: HashSet<u16>,
}

impl View for Chip8 {
    type V = Chip8View;

    open spec fn view(&self) -> Chip8View {
        Chip8View { cpu: self.cpu@, halted: self.halted, breakpoints: self.breakpoints@ }
    }
}

impl Chip8 {
    /// A machine with a processor in its power-on state, no breakpoints, not halted.
    pub fn new() -> (c: Chip8)
        ensures
            c@.cpu == CPU::new_state(),
            !c@.halted,
            c@.breakpoints == Set::<u16>::empty(),
            c@.cpu.wf(),
    {
        Chip8 { cpu: CPU::new(), breakpoints: HashSet::new(), halted: false }
    }

    /// Copies a program to memory from the program start address on.
    pub fn load_program(&mut self, program: &[u8])
        requires
            program@.len() <= MEMORY_SIZE - PROGRAM_START,
        ensures
            final(self)@ == (Chip8View {
                cpu: CpuView {
                    mem: old(self)@.cpu.mem.subrange(0, PROGRAM_START as int) + program@
                        + old(self)@.cpu.mem.subrange(PROGRAM_START + program@.len(), MEMORY_SIZE as int),
                    ..old(self)@.cpu
                },
                ..old(self)@
            }),
    {
        self.cpu.memory.load_program(program);
    }

    /// Runs one frame: nothing when the program has ended or a breakpoint halted it;
    /// otherwise steps until the cycle budget of one timer tick is consumed or the
    /// program ends, then ticks the timers. A step that lands on a breakpoint halts
    /// the machine and abandons the rest of the frame, timers included. A word that is
    /// no instruction is fatal: the program stops running and the error is returned.
    pub fn tick(&mut self) -> (r: Result<(), InvalidOpcode>)
        requires
            old(self)@.cpu.wf(),
        ensures
            final(self)@.cpu.wf(),
            final(self)@.breakpoints == old(self)@.breakpoints,
            !old(self)@.cpu.running || old(self)@.halted ==> final(self)@ == old(self)@ && r is Ok,
            old(self)@.cpu.running && !old(self)@.halted ==> exists|draws: Seq<u8>|
                (final(self)@.cpu, final(self)@.halted, r) == run_burst(
                    old(self)@.cpu,
                    old(self)@.breakpoints,
                    tick_budget(old(self)@.cpu.clock_speed),
                    0,
                    draws,
                ),
    {
        if !self.cpu.running || self.halted {
            return Ok(());
        }
        let ghost s0 = self@;
        let ghost bps = self.breakpoints@;
        let max_cycles = self.cpu.clock_speed / CYCLES_DIVISOR;
        let ghost budget = tick_budget(s0.cpu.clock_speed);
        let ghost mut drawn: Seq<u8> = Seq::empty();
        let mut cycles: u32 = 0;
        assert forall|rest: Seq<u8>| #[trigger] run_burst(s0.cpu, bps, budget, 0, drawn + rest) == run_burst(
            self.cpu@,
            bps,
            budget,
            cycles as int,
            rest,
        ) by {
            assert(drawn + rest =~= rest);
        }
        while self.cpu.running && cycles < max_cycles
            invariant
                s0 == old(self)@,
                s0.cpu.running && !s0.halted,
                self.cpu@.wf(),
                self.breakpoints@ == bps,
                !self.halted,
                s0.breakpoints == bps,
                max_cycles == budget,
                budget == s0.cpu.clock_speed / CYCLES_DIVISOR,
                self.cpu@.clock_speed == s0.cpu.clock_speed,
                cycles <= max_cycles,
                forall|rest: Seq<u8>| #[trigger] run_burst(s0.cpu, bps, budget, 0, drawn + rest) == run_burst(
                    self.cpu@,
                    bps,
                    budget,
                    cycles as int,
                    rest,
                ),
            decreases max_cycles - cycles,
        {
            let ghost before = self.cpu@;
            let ghost prev = drawn;
            let step = self.cpu.step();
            let ghost r = choose|r: u8| (self.cpu@, step) == stepped(before, r);
            proof {
                lemma_step_keeps_clock(before, r);
                drawn = prev.push(r);
                assert(prev + seq![r] =~= drawn);
                assert(seq![r][0] == r);
                assert(run_burst(s0.cpu, bps, budget, 0, prev + seq![r]) == run_burst(
                    before,
                    bps,
                    budget,
                    cycles as int,
                    seq![r],
                ));
            }
            match step {
                Err(e) => {
                    assert(run_burst(old(self)@.cpu, old(self)@.breakpoints, tick_budget(old(self)@.cpu.clock_speed), 0, drawn) == (self.cpu@, false, Err::<(), InvalidOpcode>(e)));
                    return Err(e);
                },
                Ok(c) => {
                    assert(c > 0);
                    if self.breakpoints.contains(&self.cpu.pc) {
                        self.halted = true;
                        assert(run_burst(before, bps, budget, cycles as int, seq![r]) == (
                            self.cpu@,
                            true,
                            Ok::<(), InvalidOpcode>(()),
                        ));
                        assert(run_burst(old(self)@.cpu, old(self)@.breakpoints, tick_budget(old(self)@.cpu.clock_speed), 0, drawn) == (self.cpu@, true, Ok::<(), InvalidOpcode>(())));
                        return Ok(());
                    }
                    if c >= max_cycles - cycles {
                        assert(run_burst(before, bps, budget, cycles as int, seq![r]) == (
                            timers_ticked(self.cpu@),
                            false,
                            Ok::<(), InvalidOpcode>(()),
                        ));
                        self.cpu.tick_timers();
                        assert(run_burst(old(self)@.cpu, old(self)@.breakpoints, tick_budget(old(self)@.cpu.clock_speed), 0, drawn) == (self.cpu@, false, Ok::<(), InvalidOpcode>(())));
                        return Ok(());
                    }
                    proof {
                        assert forall|rest: Seq<u8>| #[trigger] run_burst(s0.cpu, bps, budget, 0, drawn + rest)
                            == run_burst(self.cpu@, bps, budget, cycles + c, rest) by {
                            assert(drawn + rest =~= prev + (seq![r] + rest));
                            assert((seq![r] + rest)[0] == r);
                            assert((seq![r] + rest).drop_first() =~= rest);
                        }
                    }
                    cycles = cycles + c;
                },
            }
        }
        proof {
            assert(drawn + Seq::<u8>::empty() =~= drawn);
            assert(run_burst(s0.cpu, bps, budget, 0, drawn + Seq::<u8>::empty()) == run_burst(
                self.cpu@,
                bps,
                budget,
                cycles as int,
                Seq::<u8>::empty(),
            ));
        }
        self.cpu.tick_timers();
        Ok(())
    }

    /// Marks key `key % 16` as held.
    pub fn keydown(&mut self, key: u8)
        ensures
            final(self)@ == (Chip8View {
                cpu: CpuView { keys: old(self)@.cpu.keys.update(key as int % 16, true), ..old(self)@.cpu },
                ..old(self)@
            }),
    {
        self.cpu.keydown(key);
    }

    /// Marks key `key % 16` as released.
    pub fn keyup(&mut self, key: u8)
        ensures
            final(self)@ == (Chip8View {
                cpu: CpuView { keys: old(self)@.cpu.keys.update(key as int % 16, false), ..old(self)@.cpu },
                ..old(self)@
            }),
    {
        self.cpu.keyup(key);
    }

    /// Clears a breakpoint halt and nothing else.
    pub fn resume(&mut self)
        ensures
            final(self)@ == (Chip8View { halted: false, ..old(self)@ }),
    {
        self.halted = false;
    }

    /// Halts the machine whenever a step leaves the program counter at `addr`.
    pub fn set_breakpoint(&mut self, addr: u16)
        ensures
            final(self)@ == (Chip8View { breakpoints: old(self)@.breakpoints.insert(addr), ..old(self)@ }),
    {
        self.breakpoints.insert(addr);
    }

    /// Removes the breakpoint at `addr`, if any.
    pub fn remove_breakpoint(&mut self, addr: u16)
        ensures
            final(self)@ == (Chip8View { breakpoints: old(self)@.breakpoints.remove(addr), ..old(self)@ }),
    {
        self.breakpoints.remove(&addr);
    }
}

} // verus!
