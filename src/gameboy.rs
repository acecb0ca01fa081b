use vstd::prelude::*;
use crate::cpu::{CpuError, CPU};
use crate::gpu::{reaches_vblank, GpuEvent, FRAME_TICKS};
use crate::interrupts::Interrupt;
use crate::mmu::{MmuView, MMU};
use crate::semantics::{next_opcode, step, step_cycles, step_fails, CpuView};
use crate::ui_state::{negative_edge, UIState};

verus! {

/// `s` with a request for `i` latched.
pub open spec fn requested(s: CpuView, i: Interrupt) -> CpuView {
    CpuView { mem: MmuView { iflag: s.mem.iflag | i.spec_mask(), ..s.mem }, ..s }
}

/// The whole machine: the processor (which owns the bus, the video unit and the cartridge)
/// and the last input snapshot.
pub struct Gameboy {
    pub cpu: CPU,
    pub ui_state: UIState,
}

impl Gameboy {
    pub open spec fn wf(&self) -> bool {
        self.cpu.wf()
    }

    /// A machine in the post-boot state over `mmu`, no button pressed.
    pub fn new(mmu: MMU) -> (r: Gameboy)
        requires
            mmu.wf(),
        ensures
            r.wf(),
            r.cpu.mmu@ == mmu@,
            r.cpu.ticks == 0,
            r.ui_state == (UIState {
                a: false,
                b: false,
                up: false,
                right: false,
                down: false,
                left: false,
                start: false,
                select: false,
            }),
    {
        Gameboy { cpu: CPU::new(mmu), ui_state: UIState::new() }
    }

    /// One step of the machine: the CPU runs a step, the video unit advances by its ticks and
    /// a vertical blank raises the VBlank request, then a newly pressed button in `ui_state`
    /// raises the Joypad request. Returns the step's ticks; an undefined opcode is fatal.
    pub fn go(&mut self, ui_state: Option<UIState>) -> (r: Result<u64, CpuError>)
        requires
            old(self).wf(),
        ensures
            final(self).wf(),
            r is Err <==> step_fails(old(self).cpu.state()),
            r is Err ==> r == Err::<u64, CpuError>(
                CpuError::IllegalInstruction(next_opcode(old(self).cpu.state())),
            ),
            r matches Ok(t) ==> {
                let s0 = step(old(self).cpu.state());
                let s1 = CpuView {
                    mem: MmuView {
                        video: ((s0.mem.video as int + t as int) % FRAME_TICKS as int) as u64,
                        ..s0.mem
                    },
                    ..s0
                };
                let s2 = if reaches_vblank(s0.mem.video, t) {
                    requested(s1, Interrupt::VBlank)
                } else {
                    s1
                };
                let s3 = match ui_state {
                    Some(u) => if negative_edge(old(self).ui_state, u) {
                        requested(s2, Interrupt::Joypad)
                    } else {
                        s2
                    },
                    None => s2,
                };
                &&& t == step_cycles(old(self).cpu.state())
                &&& final(self).cpu.state() == s3
                &&& final(self).ui_state == (match ui_state {
                    Some(u) => u,
                    None => old(self).ui_state,
                })
            },
    {
        let ticks = match self.cpu.exec_next_instruction() {
            Ok(t) => t,
            Err(e) => return Err(e),
        };
        let ghost s1 = self.cpu.state();
        let ghost pos = self.cpu.mmu@.video;
        let event = self.cpu.mmu.advance_video(ticks);
        let ghost s1 = self.cpu.state();
        match event {
            GpuEvent::LCD => {
                self.cpu.request_interrupt(Interrupt::LCD);
            },
            GpuEvent::VBlank => {
                self.cpu.request_interrupt(Interrupt::VBlank);
            },
            GpuEvent::Idle => {},
        }
        let ghost s2 = self.cpu.state();
        assert(s2 == (if reaches_vblank(pos, ticks) {
            requested(s1, Interrupt::VBlank)
        } else {
            s1
        }));
        match ui_state {
            Some(new_ui_state) => {
                if UIState::has_negative_edge(&self.ui_state, &new_ui_state) {
                    self.cpu.request_interrupt(Interrupt::Joypad);
                }
                self.ui_state = new_ui_state;
            },
            None => {},
        }
        Ok(ticks)
    }
}

} // verus!
