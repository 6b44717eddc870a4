//! The machine glue: one CPU context and the frame loop a host drives
//! once per display refresh.

use vstd::prelude::*;

use crate::cpu::{CoreError, Cpu};
use crate::instructions::{cb_defined, dd_defined, ed_defined, fd_defined};
use crate::step::step_rel;

verus! {

/// How many T states one 60 Hz frame spans.
pub const FRAME_CYCLES: u64 = 16666;

/// A CPU with its frame counter.
pub struct Interconnect {
    pub cpu: Cpu,
    pub frame_count: u32,
}

/// The cycle total the frame loop has accumulated after the first `i`
/// steps of a trace: each step contributes its wrapped cycle delta, and
/// one implausibly large delta ends the frame at once.
pub open spec fn frame_accum(trace: Seq<Cpu>, i: int) -> int
    decreases i,
{
    if i <= 0 {
        0
    } else {
        let delta = trace[i].cycles.wrapping_sub(trace[i - 1].cycles) as int;
        if delta > FRAME_CYCLES {
            FRAME_CYCLES + 1
        } else {
            frame_accum(trace, i - 1) + delta
        }
    }
}

/// Appending a state to a trace leaves the accumulated cycle count of
/// the existing prefix unchanged.
proof fn lemma_frame_accum_push(trace: Seq<Cpu>, x: Cpu, i: int)
    requires
        0 <= i < trace.len(),
    ensures
        frame_accum(trace.push(x), i) == frame_accum(trace, i),
    decreases i,
{
    if i > 0 {
        lemma_frame_accum_push(trace, x, i - 1);
    }
}

/// One frame of execution: a chain of decode-execute steps leading from
/// `pre` to `post` whose accumulated cycle count crosses the frame
/// boundary — or that hit the defensive step cap, which no instruction
/// stream reaches within a frame since every instruction charges at
/// least four cycles.
pub open spec fn frame_trace(pre: Cpu, post: Cpu, trace: Seq<Cpu>) -> bool {
    &&& trace.len() >= 1
    &&& trace[0] == pre
    &&& trace[trace.len() - 1] == post
    &&& (forall|i: int| 0 <= i < trace.len() - 1 ==> step_rel(#[trigger] trace[i], trace[i + 1]))
    &&& (frame_accum(trace, trace.len() - 1) > FRAME_CYCLES || trace.len() - 1 >= 0x10000)
}

impl Interconnect {
    /// A fresh machine at power-on state.
    pub fn new() -> (ic: Interconnect)
        ensures
            ic.cpu.wf(),
            ic.frame_count == 0,
            ic.cpu.cycles == 0,
            ic.cpu.reg == (crate::cpu::Registers::spec_zeroed()),
            forall|i: int| 0 <= i < 0x10000 ==> ic.cpu.memory.ram@[i] == 0u8,
    {
        Interconnect { cpu: Cpu::new(), frame_count: 0 }
    }

    /// Runs the CPU for one frame: steps instruction by instruction,
    /// accumulating cycles, until the frame boundary is crossed, then
    /// counts the frame.  On success the final CPU state is reached from
    /// the old one by a chain of decode-execute steps that crossed the
    /// boundary.  A decoder fault or HALT stops the frame early and
    /// surfaces as the typed error.
    pub fn execute_cpu(&mut self) -> (r: Result<u32, CoreError>)
        requires
            old(self).cpu.wf(),
        ensures
            final(self).cpu.wf(),
            r is Ok ==> final(self).frame_count == old(self).frame_count.wrapping_add(1) && r
                == Result::<u32, CoreError>::Ok(final(self).frame_count),
            r is Ok ==> exists|trace: Seq<Cpu>|
                #[trigger] frame_trace(old(self).cpu, final(self).cpu, trace),
            r is Err ==> final(self).frame_count == old(self).frame_count,
    {
        let mut cycles_executed: u64 = 0;
        let mut steps: u32 = 0;
        let ghost mut trace: Seq<Cpu> = seq![old(self).cpu];
        while cycles_executed <= FRAME_CYCLES && steps < 0x10000
            invariant
                self.cpu.wf(),
                self.frame_count == old(self).frame_count,
                trace.len() >= 1,
                trace.len() - 1 == steps as int,
                trace[0] == old(self).cpu,
                trace[trace.len() - 1] == self.cpu,
                forall|i: int|
                    0 <= i < trace.len() - 1 ==> step_rel(#[trigger] trace[i], trace[i + 1]),
                frame_accum(trace, trace.len() - 1) == cycles_executed as int,
            decreases 0x10000 - steps,
        {
            let ghost prev_trace = trace;
            let start = self.cpu.cycles;
            match self.cpu.execute() {
                Ok(()) => {},
                Err(e) => {
                    return Err(e);
                },
            }
            let delta = self.cpu.cycles.wrapping_sub(start) as u64;
            if delta > FRAME_CYCLES {
                cycles_executed = FRAME_CYCLES + 1;
            } else {
                cycles_executed = cycles_executed + delta;
            }
            steps = steps + 1;
            proof {
                lemma_frame_accum_push(prev_trace, self.cpu, prev_trace.len() - 1);
                trace = prev_trace.push(self.cpu);
            }
        }
        proof {
            assert(frame_trace(old(self).cpu, self.cpu, trace));
        }
        self.frame_count = self.frame_count.wrapping_add(1);
        Ok(self.frame_count)
    }

    /// Steps the CPU by exactly one instruction, surfacing the typed
    /// status a conformance harness inspects; on success the decoded
    /// instruction's transition relation holds.
    pub fn run_tests(&mut self) -> (r: Result<(), CoreError>)
        requires
            old(self).cpu.wf(),
        ensures
            final(self).cpu.wf(),
            final(self).frame_count == old(self).frame_count,
            r is Ok ==> step_rel(old(self).cpu, final(self).cpu),
            ({
                let b1 = old(self).cpu.memory.ram@[old(self).cpu.reg.pc as int];
                let b2 = old(self).cpu.memory.ram@[old(self).cpu.reg.pc.wrapping_add(1) as int];
                &&& ((r == Result::<(), CoreError>::Err(CoreError::Halt)) <==> b1 == 0x76)
                &&& ((r matches Err(CoreError::Decode(_))) <==> ((b1 == 0xCB && !cb_defined(b2))
                    || (b1 == 0xDD && !dd_defined(b2)) || (b1 == 0xED && !ed_defined(b2)) || (b1
                    == 0xFD && !fd_defined(b2))))
            }),
    {
        self.cpu.execute()
    }
}

} // verus!
