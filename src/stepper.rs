use vstd::prelude::*;
use crate::cpu::{cpu_step_effect, Cpu, CpuStep};
use crate::error::NesError;
use crate::nes::Nes;
use crate::ppu::{ppu_after_tick, vblank_starts, PpuStep};

verus! {

/// One step of the interleaved console.
#[derive(Clone, Copy, Debug, PartialEq, Eq, Structural)]
pub enum NesStep {
    Cpu(CpuStep),
    Ppu(PpuStep),
}

/// The interleaver: each CPU step is followed by three PPU cycles, and a
/// `Vblank` step comes just before the cycle of the dot at which VBlank
/// starts. The ghost counters hold how many CPU and PPU cycle markers have
/// been handed out.
pub struct NesRun {
    /// PPU cycles still owed before the next CPU step.
    pub ppu_left: u8,
    /// A `Vblank` step was handed out and its dot's `Cycle` is still owed.
    pub cycle_owed: bool,
    pub cpu_markers: Ghost<nat>,
    pub ppu_markers: Ghost<nat>,
}

/// The CPU's part of a step result; `None` for a PPU step.
pub open spec fn cpu_result(r: Result<NesStep, NesError>) -> Option<Result<CpuStep, NesError>> {
    match r {
        Ok(NesStep::Cpu(s)) => Some(Ok(s)),
        Ok(NesStep::Ppu(_)) => None,
        Err(e) => Some(Err(e)),
    }
}

impl NesRun {
    pub open spec fn wf(&self) -> bool {
        &&& self.ppu_left <= 3
        &&& self.cycle_owed ==> self.ppu_left >= 1
        &&& self.ppu_markers@ + self.ppu_left == 3 * self.cpu_markers@
    }

    /// The next step to run is a CPU step.
    pub open spec fn at_cpu_boundary(&self) -> bool {
        self.ppu_left == 0
    }

    /// Produces the next step, running the CPU or the PPU as the schedule
    /// says. An error of the CPU leaves the schedule where it was.
    pub fn next_step(&mut self, nes: &mut Nes) -> (r: Result<NesStep, NesError>)
        requires
            old(self).wf(),
            old(nes).wf(),
            old(nes).ppu.cycle < u64::MAX,
        ensures
            final(self).wf(),
            final(nes).wf(),
            final(self).cycle_owed == (r == Ok::<NesStep, NesError>(NesStep::Ppu(PpuStep::Vblank))),
            // a CPU step: what `Cpu::step` does; three PPU cycles are then owed
            old(self).at_cpu_boundary() ==> (cpu_result(r) matches Some(cr) && cpu_step_effect(
                *old(nes),
                *final(nes),
                cr,
            )),
            old(self).at_cpu_boundary() && r is Err ==> *final(self) == *old(self),
            old(self).at_cpu_boundary() && r is Ok ==> final(self).ppu_left == 3
                && final(self).cpu_markers@ == old(self).cpu_markers@ + 1
                && final(self).ppu_markers@ == old(self).ppu_markers@,
            // the cycle of a dot whose VBlank was just reported
            old(self).cycle_owed ==> r == Ok::<NesStep, NesError>(NesStep::Ppu(PpuStep::Cycle))
                && *final(nes) == *old(nes)
                && final(self).ppu_left == old(self).ppu_left - 1,
            // one PPU dot: `Vblank` when VBlank starts at it, else its cycle
            !old(self).at_cpu_boundary() && !old(self).cycle_owed ==> *final(nes) == (Nes {
                ppu: ppu_after_tick(old(nes).ppu),
                ..*old(nes)
            }) && r == Ok::<NesStep, NesError>(NesStep::Ppu(
                if vblank_starts(old(nes).ppu) { PpuStep::Vblank } else { PpuStep::Cycle },
            )) && final(self).ppu_left == if vblank_starts(old(nes).ppu) {
                old(self).ppu_left
            } else {
                (old(self).ppu_left - 1) as u8
            },
            !old(self).at_cpu_boundary() ==> final(self).cpu_markers@ == old(self).cpu_markers@,
            r == Ok::<NesStep, NesError>(NesStep::Ppu(PpuStep::Cycle)) ==> final(self).ppu_markers@
                == old(self).ppu_markers@ + 1,
            r == Ok::<NesStep, NesError>(NesStep::Ppu(PpuStep::Vblank)) ==> final(self).ppu_markers@
                == old(self).ppu_markers@,
    {
        if self.cycle_owed {
            self.cycle_owed = false;
            self.ppu_left = self.ppu_left - 1;
            self.ppu_markers = Ghost((self.ppu_markers@ + 1) as nat);
            return Ok(NesStep::Ppu(PpuStep::Cycle));
        }
        if self.ppu_left == 0 {
            let step = match Cpu::step(nes) {
                Ok(s) => s,
                Err(e) => {
                    return Err(e);
                },
            };
            self.ppu_left = 3;
            self.cpu_markers = Ghost(self.cpu_markers@ + 1);
            Ok(NesStep::Cpu(step))
        } else {
            let started = nes.ppu.tick();
            if started {
                self.cycle_owed = true;
                Ok(NesStep::Ppu(PpuStep::Vblank))
            } else {
                self.ppu_left = self.ppu_left - 1;
                self.ppu_markers = Ghost((self.ppu_markers@ + 1) as nat);
                Ok(NesStep::Ppu(PpuStep::Cycle))
            }
        }
    }
}

impl Nes {
    /// Starts the interleaved run: the first step is a CPU step.
    pub fn run(&self) -> (r: NesRun)
        ensures
            r.wf(),
            r.at_cpu_boundary(),
            !r.cycle_owed,
            r.cpu_markers@ == 0,
            r.ppu_markers@ == 0,
    {
        NesRun { ppu_left: 0, cycle_owed: false, cpu_markers: Ghost(0), ppu_markers: Ghost(0) }
    }
}

/// Whenever the next step is a CPU step, exactly three PPU cycle markers have
/// been handed out for each CPU cycle marker; in between, the PPU count is
/// one, two or three short of that.
pub proof fn lemma_marker_ratio(r: NesRun)
    requires
        r.wf(),
    ensures
        r.at_cpu_boundary() ==> r.ppu_markers@ == 3 * r.cpu_markers@,
        3 * r.cpu_markers@ - 3 <= r.ppu_markers@ <= 3 * r.cpu_markers@,
{
}

} // verus!
