use vstd::prelude::*;
use crate::alu::{add16, alu, bit_mask, daa, dec8, inc8, jump_relative, make_flags, shift, sp_offset};
use crate::interrupts::Interrupt;
use crate::mmu::{MmuView, MMU};
use crate::opcodes::Opcode;
use crate::registers::{carry_of, flags_byte, hi_byte, lo_byte, zero_of, Registers};
use crate::semantics::{
    add_wrap, base_cycles, base_taken, call_to, cb_cycles, exec_base, exec_cb, exec_op, is_illegal,
    op_cycles, service, step, step_cycles, step_fails, next_opcode, x0z0, x0z1, x0z2, x0z3, x0z4, x0z5, x0z6, x0z7, x1, x3z0, x3z1, x3z2, x3z3, x3z5,
    CpuMode, CpuView,
};

verus! {

/// Ticks beyond which `call` could overflow the tick counter.
pub const TICK_LIMIT: u64 = 0xFFFF_FFFF_FFFF_0000;

#[derive(Clone, Copy, Debug, PartialEq, Eq, Structural)]
pub enum CpuError {
    /// An undefined base opcode was reached.
    IllegalInstruction(u8),
}

/// The processor, owning the bus.
pub struct CPU {
    pub registers: Registers,
    pub mmu: MMU,
    pub interrupt_enabled: bool,
    pub prefix_mode: bool,
    pub ticks: u64,
    pub mode: CpuMode,
}

/// `a + n` wrapping at 16 bits.
fn wrapped(a: u16, n: i32) -> (r: u16)
    requires
        -0x10000 <= n <= 0x10000,
    ensures
        r == add_wrap(a, n as int),
{
    ((a as i32 + n + 0x20000) % 0x10000) as u16
}

impl CPU {
    pub open spec fn state(&self) -> CpuView {
        CpuView {
            regs: self.registers,
            mem: self.mmu@,
            ime: self.interrupt_enabled,
            prefix: self.prefix_mode,
            mode: self.mode,
        }
    }

    pub open spec fn wf(&self) -> bool {
        self.mmu.wf()
    }

    /// A processor in the post-boot state over `mmu`, interrupts enabled.
    pub fn new(mmu: MMU) -> (r: CPU)
        requires
            mmu.wf(),
        ensures
            r.wf(),
            r.mmu@ == mmu@,
            r.registers == Registers::boot(),
            r.interrupt_enabled,
            !r.prefix_mode,
            r.ticks == 0,
            r.mode == CpuMode::Running,
    {
        CPU {
            registers: Registers::new(),
            mmu,
            interrupt_enabled: true,
            prefix_mode: false,
            ticks: 0,
            mode: CpuMode::Running,
        }
    }

    /// Sets the interrupt master enable.
    pub fn toggle_interrupts(&mut self, enabled: bool)
        ensures
            final(self).state() == (CpuView { ime: enabled, ..old(self).state() }),
            final(self).ticks == old(self).ticks,
            final(self).mmu == old(self).mmu,
    {
        self.interrupt_enabled = enabled;
    }

    /// Latches an interrupt request; it is serviced once enabled and IME is set.
    pub fn request_interrupt(&mut self, interrupt: Interrupt)
        requires
            old(self).wf(),
        ensures
            final(self).wf(),
            final(self).state() == (CpuView {
                mem: MmuView { iflag: old(self).mmu@.iflag | interrupt.spec_mask(), ..old(self).mmu@ },
                ..old(self).state()
            }),
            final(self).ticks == old(self).ticks,
    {
        self.mmu.request_interrupt(interrupt);
    }

    /// Reads a byte, charging one memory cycle.
    pub fn read_mem(&mut self, address: u16) -> (r: u8)
        requires
            old(self).wf(),
            old(self).ticks <= TICK_LIMIT,
        ensures
            final(self).state() == old(self).state(),
            final(self).wf(),
            final(self).ticks == old(self).ticks + 4,
            r == old(self).mmu@.read(address),
    {
        self.ticks = self.ticks + 4;
        self.mmu.read(address)
    }

    /// Reads a little-endian word, charging two memory cycles.
    pub fn read_mem_16(&mut self, address: u16) -> (r: u16)
        requires
            old(self).wf(),
            old(self).ticks <= TICK_LIMIT,
        ensures
            final(self).state() == old(self).state(),
            final(self).wf(),
            final(self).ticks == old(self).ticks + 8,
            r == old(self).mmu@.read16(address),
            r == crate::registers::word(
                old(self).mmu@.read(add_wrap(address, 1)),
                old(self).mmu@.read(address),
            ),
    {
        self.ticks = self.ticks + 8;
        self.mmu.read16(address)
    }

    /// Writes a byte, charging one memory cycle.
    pub fn write_mem(&mut self, address: u16, value: u8)
        requires
            old(self).wf(),
            old(self).ticks <= TICK_LIMIT,
        ensures
            final(self).state() == old(self).state().wr(address, value),
            final(self).wf(),
            final(self).ticks == old(self).ticks + 4,
    {
        self.ticks = self.ticks + 4;
        self.mmu.write(address, value);
    }

    fn rd(&self, a: u16) -> (r: u8)
        requires
            self.wf(),
        ensures
            r == self.state().rd(a),
    {
        self.mmu.read(a)
    }

    fn wr(&mut self, a: u16, v: u8)
        requires
            old(self).wf(),
        ensures
            final(self).wf(),
            final(self).ticks == old(self).ticks,
            final(self).state() == old(self).state().wr(a, v),
    {
        self.mmu.write(a, v);
    }

    fn r8(&self, i: u8) -> (r: u8)
        requires
            self.wf(),
        ensures
            r == self.state().r8(i),
    {
        if i == 0 {
            self.registers.b
        } else if i == 1 {
            self.registers.c
        } else if i == 2 {
            self.registers.d
        } else if i == 3 {
            self.registers.e
        } else if i == 4 {
            self.registers.h
        } else if i == 5 {
            self.registers.l
        } else if i == 6 {
            self.rd(self.registers.hl())
        } else {
            self.registers.a
        }
    }

    fn set_r8(&mut self, i: u8, v: u8)
        requires
            old(self).wf(),
        ensures
            final(self).wf(),
            final(self).ticks == old(self).ticks,
            final(self).state() == old(self).state().set_r8(i, v),
    {
        if i == 0 {
            self.registers.b = v;
        } else if i == 1 {
            self.registers.c = v;
        } else if i == 2 {
            self.registers.d = v;
        } else if i == 3 {
            self.registers.e = v;
        } else if i == 4 {
            self.registers.h = v;
        } else if i == 5 {
            self.registers.l = v;
        } else if i == 6 {
            let hl = self.registers.hl();
            self.wr(hl, v);
        } else {
            self.registers.a = v;
        }
    }

    fn imm8(&self) -> (r: u8)
        requires
            self.wf(),
        ensures
            r == self.state().imm8(),
    {
        self.rd(self.registers.pc)
    }

    fn imm16(&self) -> (r: u16)
        requires
            self.wf(),
        ensures
            r == self.state().imm16(),
    {
        let lo = self.rd(self.registers.pc);
        let hi = self.rd(wrapped(self.registers.pc, 1));
        hi as u16 * 256 + lo as u16
    }

    fn skip(&mut self, n: i32)
        requires
            -0x10000 <= n <= 0x10000,
        ensures
            final(self).ticks == old(self).ticks,
            final(self).mmu == old(self).mmu,
            final(self).state() == old(self).state().skip(n as int),
    {
        self.registers.pc = wrapped(self.registers.pc, n);
    }

    fn set_hl(&mut self, v: u16)
        ensures
            final(self).ticks == old(self).ticks,
            final(self).mmu == old(self).mmu,
            final(self).state() == old(self).state().with_hl(v),
    {
        self.registers.h = (v / 256) as u8;
        self.registers.l = (v % 256) as u8;
    }

    fn set_sp(&mut self, v: u16)
        ensures
            final(self).ticks == old(self).ticks,
            final(self).mmu == old(self).mmu,
            final(self).state() == old(self).state().with_sp(v),
    {
        self.registers.s = (v / 256) as u8;
        self.registers.p = (v % 256) as u8;
    }

    fn rp(&self, p: u8) -> (r: u16)
        ensures
            r == self.state().rp(p),
    {
        if p == 0 {
            self.registers.bc()
        } else if p == 1 {
            self.registers.de()
        } else if p == 2 {
            self.registers.hl()
        } else {
            self.registers.sp()
        }
    }

    fn set_rp(&mut self, p: u8, v: u16)
        ensures
            final(self).ticks == old(self).ticks,
            final(self).mmu == old(self).mmu,
            final(self).state() == old(self).state().set_rp(p, v),
    {
        if p == 0 {
            self.registers.b = (v / 256) as u8;
            self.registers.c = (v % 256) as u8;
        } else if p == 1 {
            self.registers.d = (v / 256) as u8;
            self.registers.e = (v % 256) as u8;
        } else if p == 2 {
            self.set_hl(v);
        } else {
            self.set_sp(v);
        }
    }

    fn rp2(&self, p: u8) -> (r: u16)
        ensures
            r == self.state().rp2(p),
    {
        if p == 3 {
            self.registers.af()
        } else {
            self.rp(p)
        }
    }

    fn set_rp2(&mut self, p: u8, v: u16)
        ensures
            final(self).ticks == old(self).ticks,
            final(self).mmu == old(self).mmu,
            final(self).state() == old(self).state().set_rp2(p, v),
    {
        if p == 3 {
            self.registers.a = (v / 256) as u8;
            self.registers.f = ((v % 256) as u8) & 0xF0;
        } else {
            self.set_rp(p, v);
        }
    }

    fn cond(&self, cc: u8) -> (r: bool)
        ensures
            r == self.state().cond(cc),
    {
        if cc == 0 {
            !self.registers.get_zero()
        } else if cc == 1 {
            self.registers.get_zero()
        } else if cc == 2 {
            !self.registers.get_carry()
        } else {
            self.registers.get_carry()
        }
    }

    fn push(&mut self, v: u16)
        requires
            old(self).wf(),
        ensures
            final(self).wf(),
            final(self).ticks == old(self).ticks,
            final(self).state() == old(self).state().push(v),
    {
        proof {
            reveal(CpuView::push);
        }
        let sp = self.registers.sp();
        self.wr(wrapped(sp, -1), (v / 256) as u8);
        self.wr(wrapped(sp, -2), (v % 256) as u8);
        self.set_sp(wrapped(sp, -2));
    }

    fn top(&self) -> (r: u16)
        requires
            self.wf(),
        ensures
            r == self.state().top(),
    {
        proof {
            reveal(CpuView::top);
        }
        let sp = self.registers.sp();
        let lo = self.rd(sp);
        let hi = self.rd(wrapped(sp, 1));
        hi as u16 * 256 + lo as u16
    }

    fn drop_top(&mut self)
        ensures
            final(self).ticks == old(self).ticks,
            final(self).mmu == old(self).mmu,
            final(self).state() == old(self).state().drop_top(),
    {
        let sp = self.registers.sp();
        self.set_sp(wrapped(sp, 2));
    }

    fn alu_a(&mut self, op: u8, v: u8)
        requires
            op < 8,
        ensures
            final(self).ticks == old(self).ticks,
            final(self).mmu == old(self).mmu,
            final(self).state() == old(self).state().alu_a(op, v),
    {
        let r = alu(op, self.registers.a, v, self.registers.f);
        self.registers.a = r.0;
        self.registers.f = r.1;
    }
}


/// Executors of the base-table opcode groups, one for each group spec function.
impl CPU {
    fn exec_x0z0(&mut self, y: u8)
        requires
            old(self).wf(),
            y < 8,
        ensures
            final(self).wf(),
            final(self).ticks == old(self).ticks,
            final(self).state() == x0z0(old(self).state(), y),
    {
        proof {
            reveal(x0z0);
        }
        if y == 0 {
        } else if y == 1 {
            let a = self.imm16();
            let sp = self.registers.sp();
            self.skip(2);
            self.wr(a, (sp % 256) as u8);
            self.wr(wrapped(a, 1), (sp / 256) as u8);
        } else if y == 2 {
            self.skip(1);
            self.mode = CpuMode::Stopped;
        } else {
            let e = self.imm8();
            let taken = y == 3 || self.cond(y - 4);
            self.skip(1);
            if taken {
                self.registers.pc = jump_relative(self.registers.pc, e);
            }
        }
    }

    fn exec_x0z1(&mut self, y: u8)
        requires
            old(self).wf(),
            y < 8,
        ensures
            final(self).wf(),
            final(self).ticks == old(self).ticks,
            final(self).state() == x0z1(old(self).state(), y),
    {
        proof {
            reveal(x0z1);
        }
        let p = y / 2;
        if y % 2 == 0 {
            let v = self.imm16();
            self.skip(2);
            self.set_rp(p, v);
        } else {
            let r = add16(self.registers.hl(), self.rp(p), self.registers.f);
            self.set_hl(r.0);
            self.registers.f = r.1;
        }
    }

    fn exec_x0z2(&mut self, y: u8)
        requires
            old(self).wf(),
            y < 8,
        ensures
            final(self).wf(),
            final(self).ticks == old(self).ticks,
            final(self).state() == x0z2(old(self).state(), y),
    {
        proof {
            reveal(x0z2);
        }
        let p = y / 2;
        let hl = self.registers.hl();
        let addr = if p == 0 {
            self.registers.bc()
        } else if p == 1 {
            self.registers.de()
        } else {
            hl
        };
        if y % 2 == 0 {
            let a = self.registers.a;
            self.wr(addr, a);
        } else {
            self.registers.a = self.rd(addr);
        }
        if p == 2 {
            self.set_hl(wrapped(hl, 1));
        } else if p == 3 {
            self.set_hl(wrapped(hl, -1));
        }
    }

    fn exec_x0z3(&mut self, y: u8)
        requires
            y < 8,
        ensures
            final(self).mmu == old(self).mmu,
            final(self).ticks == old(self).ticks,
            final(self).state() == x0z3(old(self).state(), y),
    {
        proof {
            reveal(x0z3);
        }
        let p = y / 2;
        let v = self.rp(p);
        self.set_rp(p, wrapped(v, if y % 2 == 0 { 1 } else { -1 }));
    }

    fn exec_x0z4(&mut self, y: u8)
        requires
            old(self).wf(),
        ensures
            final(self).wf(),
            final(self).ticks == old(self).ticks,
            final(self).state() == x0z4(old(self).state(), y),
    {
        proof {
            reveal(x0z4);
        }
        let r = inc8(self.r8(y), self.registers.f);
        self.set_r8(y, r.0);
        self.registers.f = r.1;
    }

    fn exec_x0z5(&mut self, y: u8)
        requires
            old(self).wf(),
        ensures
            final(self).wf(),
            final(self).ticks == old(self).ticks,
            final(self).state() == x0z5(old(self).state(), y),
    {
        proof {
            reveal(x0z5);
        }
        let r = dec8(self.r8(y), self.registers.f);
        self.set_r8(y, r.0);
        self.registers.f = r.1;
    }

    fn exec_x0z6(&mut self, y: u8)
        requires
            old(self).wf(),
        ensures
            final(self).wf(),
            final(self).ticks == old(self).ticks,
            final(self).state() == x0z6(old(self).state(), y),
    {
        proof {
            reveal(x0z6);
        }
        let v = self.imm8();
        self.skip(1);
        self.set_r8(y, v);
    }

    fn exec_x0z7(&mut self, y: u8)
        requires
            y < 8,
        ensures
            final(self).mmu == old(self).mmu,
            final(self).ticks == old(self).ticks,
            final(self).state() == x0z7(old(self).state(), y),
    {
        proof {
            reveal(x0z7);
        }
        let a = self.registers.a;
        let f = self.registers.f;
        let z = f & 0x80 == 0x80;
        let c = f & 0x10 == 0x10;
        if y < 4 {
            let r = shift(y, a, f);
            self.registers.a = r.0;
            self.registers.f = make_flags(false, false, false, r.1);
        } else if y == 4 {
            let r = daa(a, f);
            self.registers.a = r.0;
            self.registers.f = r.1;
        } else if y == 5 {
            self.registers.a = !a;
            self.registers.f = make_flags(z, true, true, c);
        } else if y == 6 {
            self.registers.f = make_flags(z, false, false, true);
        } else {
            self.registers.f = make_flags(z, false, false, !c);
        }
    }

    fn exec_x1(&mut self, y: u8, z: u8)
        requires
            old(self).wf(),
        ensures
            final(self).wf(),
            final(self).ticks == old(self).ticks,
            final(self).state() == x1(old(self).state(), y, z),
    {
        proof {
            reveal(x1);
        }
        if y == 6 && z == 6 {
            self.mode = CpuMode::Halted;
        } else {
            let v = self.r8(z);
            self.set_r8(y, v);
        }
    }

    fn exec_x3z0(&mut self, y: u8)
        requires
            old(self).wf(),
            y < 8,
        ensures
            final(self).wf(),
            final(self).ticks == old(self).ticks,
            final(self).state() == x3z0(old(self).state(), y),
    {
        proof {
            reveal(x3z0);
        }
        let n = self.imm8();
        if y < 4 {
            if self.cond(y) {
                let t = self.top();
                self.drop_top();
                self.registers.pc = t;
            }
        } else if y == 4 {
            let a = self.registers.a;
            self.skip(1);
            self.wr(wrapped(0xFF00, n as i32), a);
        } else if y == 6 {
            self.skip(1);
            self.registers.a = self.rd(wrapped(0xFF00, n as i32));
        } else {
            let r = sp_offset(self.registers.sp(), n);
            self.skip(1);
            if y == 5 {
                self.set_sp(r.0);
            } else {
                self.set_hl(r.0);
            }
            self.registers.f = r.1;
        }
    }

    fn exec_x3z1(&mut self, y: u8)
        requires
            old(self).wf(),
            y < 8,
        ensures
            final(self).wf(),
            final(self).ticks == old(self).ticks,
            final(self).state() == x3z1(old(self).state(), y),
    {
        proof {
            reveal(x3z1);
        }
        let p = y / 2;
        if y % 2 == 0 {
            let t = self.top();
            self.drop_top();
            self.set_rp2(p, t);
        } else if p == 0 || p == 1 {
            let t = self.top();
            self.drop_top();
            self.registers.pc = t;
            if p == 1 {
                self.interrupt_enabled = true;
            }
        } else if p == 2 {
            self.registers.pc = self.registers.hl();
        } else {
            let hl = self.registers.hl();
            self.set_sp(hl);
        }
    }

    fn exec_x3z2(&mut self, y: u8)
        requires
            old(self).wf(),
            y < 8,
        ensures
            final(self).wf(),
            final(self).ticks == old(self).ticks,
            final(self).state() == x3z2(old(self).state(), y),
    {
        proof {
            reveal(x3z2);
        }
        let nn = self.imm16();
        let c_addr = wrapped(0xFF00, self.registers.c as i32);
        if y < 4 {
            if self.cond(y) {
                self.registers.pc = nn;
            } else {
                self.skip(2);
            }
        } else if y == 4 {
            let a = self.registers.a;
            self.wr(c_addr, a);
        } else if y == 5 {
            let a = self.registers.a;
            self.skip(2);
            self.wr(nn, a);
        } else if y == 6 {
            self.registers.a = self.rd(c_addr);
        } else {
            self.skip(2);
            self.registers.a = self.rd(nn);
        }
    }

    fn exec_x3z3(&mut self, y: u8)
        requires
            old(self).wf(),
        ensures
            final(self).wf(),
            final(self).ticks == old(self).ticks,
            final(self).state() == x3z3(old(self).state(), y),
    {
        proof {
            reveal(x3z3);
        }
        if y == 0 {
            self.registers.pc = self.imm16();
        } else if y == 1 {
            self.prefix_mode = true;
        } else if y == 6 {
            self.interrupt_enabled = false;
        } else if y == 7 {
            self.interrupt_enabled = true;
        }
    }

    fn exec_call(&mut self, taken: bool)
        requires
            old(self).wf(),
        ensures
            final(self).wf(),
            final(self).ticks == old(self).ticks,
            final(self).state() == call_to(old(self).state(), taken),
    {
        proof {
            reveal(call_to);
        }
        let nn = self.imm16();
        self.skip(2);
        if taken {
            let pc = self.registers.pc;
            self.push(pc);
            self.registers.pc = nn;
        }
    }

    fn exec_x3z5(&mut self, y: u8)
        requires
            old(self).wf(),
        ensures
            final(self).wf(),
            final(self).ticks == old(self).ticks,
            final(self).state() == x3z5(old(self).state(), y),
    {
        proof {
            reveal(x3z5);
        }
        if y % 2 == 0 {
            let v = self.rp2(y / 2);
            self.push(v);
        } else {
            self.exec_call(true);
        }
    }

    fn exec_base(&mut self, op: u8)
        requires
            old(self).wf(),
        ensures
            final(self).wf(),
            final(self).ticks == old(self).ticks,
            final(self).state() == exec_base(old(self).state(), op),
    {
        proof {
            reveal(exec_base);
        }
        let x = op / 64;
        let y = (op / 8) % 8;
        let z = op % 8;
        if op == 0xD3 || op == 0xDB || op == 0xDD || op == 0xE3 || op == 0xE4 || op == 0xEB || op
            == 0xEC || op == 0xED || op == 0xF4 || op == 0xFC || op == 0xFD {
        } else if x == 0 {
            if z == 0 {
                self.exec_x0z0(y);
            } else if z == 1 {
                self.exec_x0z1(y);
            } else if z == 2 {
                self.exec_x0z2(y);
            } else if z == 3 {
                self.exec_x0z3(y);
            } else if z == 4 {
                self.exec_x0z4(y);
            } else if z == 5 {
                self.exec_x0z5(y);
            } else if z == 6 {
                self.exec_x0z6(y);
            } else {
                self.exec_x0z7(y);
            }
        } else if x == 1 {
            self.exec_x1(y, z);
        } else if x == 2 {
            let v = self.r8(z);
            self.alu_a(y, v);
        } else {
            if z == 0 {
                self.exec_x3z0(y);
            } else if z == 1 {
                self.exec_x3z1(y);
            } else if z == 2 {
                self.exec_x3z2(y);
            } else if z == 3 {
                self.exec_x3z3(y);
            } else if z == 4 {
                let taken = self.cond(y);
                self.exec_call(taken);
            } else if z == 5 {
                self.exec_x3z5(y);
            } else if z == 6 {
                let v = self.imm8();
                self.skip(1);
                self.alu_a(y, v);
            } else {
                let pc = self.registers.pc;
                self.push(pc);
                self.registers.pc = y as u16 * 8;
            }
        }
    }

    fn exec_cb(&mut self, op: u8)
        requires
            old(self).wf(),
        ensures
            final(self).wf(),
            final(self).ticks == old(self).ticks,
            final(self).state() == exec_cb(old(self).state(), op),
    {
        let x = op / 64;
        let y = (op / 8) % 8;
        let z = op % 8;
        let v = self.r8(z);
        if x == 0 {
            let r = shift(y, v, self.registers.f);
            self.set_r8(z, r.0);
            self.registers.f = make_flags(r.0 == 0, false, false, r.1);
        } else if x == 1 {
            let f = self.registers.f;
            self.registers.f = make_flags(v & bit_mask(y) == 0, false, true, f & 0x10 == 0x10);
        } else if x == 2 {
            self.set_r8(z, v & !bit_mask(y));
        } else {
            self.set_r8(z, v | bit_mask(y));
        }
    }
}

/// The cycle table of the base opcodes.
pub fn base_cycle_count(op: u8, taken: bool) -> (r: u64)
    ensures
        r == base_cycles(op, taken),
{
    let x = op / 64;
    let y = (op / 8) % 8;
    let z = op % 8;
    if x == 0 {
        if z == 0 {
            if y == 0 || y == 2 {
                4
            } else if y == 1 {
                20
            } else if y == 3 || taken {
                12
            } else {
                8
            }
        } else if z == 1 {
            if y % 2 == 0 {
                12
            } else {
                8
            }
        } else if z == 2 || z == 3 {
            8
        } else if z == 4 || z == 5 {
            if y == 6 {
                12
            } else {
                4
            }
        } else if z == 6 {
            if y == 6 {
                12
            } else {
                8
            }
        } else {
            4
        }
    } else if x == 1 {
        if (y == 6 || z == 6) && op != 0x76 {
            8
        } else {
            4
        }
    } else if x == 2 {
        if z == 6 {
            8
        } else {
            4
        }
    } else {
        if z == 0 {
            if y < 4 {
                if taken {
                    20
                } else {
                    8
                }
            } else if y == 5 {
                16
            } else {
                12
            }
        } else if z == 1 {
            if y % 2 == 0 {
                12
            } else if y == 5 {
                4
            } else if y == 7 {
                8
            } else {
                16
            }
        } else if z == 2 {
            if y < 4 {
                if taken {
                    16
                } else {
                    12
                }
            } else if y == 4 || y == 6 {
                8
            } else {
                16
            }
        } else if z == 3 {
            if y == 0 {
                16
            } else {
                4
            }
        } else if z == 4 {
            if taken {
                24
            } else {
                12
            }
        } else if z == 5 {
            if y % 2 == 0 {
                16
            } else {
                24
            }
        } else if z == 6 {
            8
        } else {
            16
        }
    }
}

/// The ticks of a bit-prefix opcode after its prefix byte.
pub fn cb_cycle_count(op: u8) -> (r: u64)
    ensures
        r == cb_cycles(op),
{
    if op % 8 != 6 {
        4
    } else if op / 64 == 1 {
        8
    } else {
        12
    }
}

impl CPU {
    /// Whether a conditional base opcode would take its branch now.
    fn taken(&self, op: u8) -> (r: bool)
        ensures
            r == base_taken(self.state(), op),
    {
        let y = (op / 8) % 8;
        if op == 0x20 || op == 0x28 || op == 0x30 || op == 0x38 {
            self.cond(y - 4)
        } else if op == 0xC0 || op == 0xC8 || op == 0xD0 || op == 0xD8 || op == 0xC2 || op == 0xCA
            || op == 0xD2 || op == 0xDA || op == 0xC4 || op == 0xCC || op == 0xD4 || op == 0xDC {
            self.cond(y)
        } else {
            true
        }
    }

    /// Executes one instruction byte with PC already past it: from the bit-prefix table when
    /// the previous byte was the prefix, from the base table otherwise, and charges its ticks.
    /// An undefined base opcode changes nothing and is reported.
    pub fn call(&mut self, opcode: u8) -> (r: Result<(), CpuError>)
        requires
            old(self).wf(),
            old(self).ticks <= TICK_LIMIT,
        ensures
            final(self).wf(),
            r is Err <==> !old(self).prefix_mode && is_illegal(opcode),
            r is Err ==> r == Err::<(), CpuError>(CpuError::IllegalInstruction(opcode))
                && final(self).state() == old(self).state() && final(self).ticks == old(self).ticks,
            r is Ok ==> final(self).state() == exec_op(old(self).state(), opcode)
                && final(self).ticks == old(self).ticks + op_cycles(old(self).state(), opcode),
    {
        if self.prefix_mode {
            let cycles = cb_cycle_count(opcode);
            self.exec_cb(opcode);
            self.prefix_mode = false;
            self.ticks = self.ticks + cycles;
            Ok(())
        } else if opcode == 0xD3 || opcode == 0xDB || opcode == 0xDD || opcode == 0xE3 || opcode
            == 0xE4 || opcode == 0xEB || opcode == 0xEC || opcode == 0xED || opcode == 0xF4 || opcode
            == 0xFC || opcode == 0xFD {
            Err(CpuError::IllegalInstruction(opcode))
        } else {
            let cycles = base_cycle_count(opcode, self.taken(opcode));
            self.exec_base(opcode);
            self.ticks = self.ticks + cycles;
            Ok(())
        }
    }

    /// Runs one step and returns the ticks it took: services the highest-priority due
    /// interrupt (20 ticks), or idles while halted or stopped (4 ticks), or fetches the byte at
    /// PC and executes it.
    pub fn exec_next_instruction(&mut self) -> (r: Result<u64, CpuError>)
        requires
            old(self).wf(),
        ensures
            final(self).wf(),
            r is Err <==> step_fails(old(self).state()),
            r is Err ==> r == Err::<u64, CpuError>(
                CpuError::IllegalInstruction(next_opcode(old(self).state())),
            ),
            r matches Ok(t) ==> final(self).state() == step(old(self).state()) && t == step_cycles(
                old(self).state(),
            ) && final(self).ticks == t,
    {
        proof {
            self.mmu.lemma_wf();
            reveal(step);
        }
        self.ticks = 0;
        if self.interrupt_enabled {
            match self.mmu.interrupts().next_pending() {
                Some(source) => {
                    self.service(source);
                    self.ticks = 20;
                    return Ok(20);
                },
                None => {},
            }
        }
        let pending = self.mmu.interrupts().pending();
        if self.mode == CpuMode::Halted {
            if pending == 0 {
                self.ticks = 4;
                return Ok(4);
            }
        } else if self.mode == CpuMode::Stopped {
            if self.mmu.interrupts().flags & 0x10 == 0 {
                self.ticks = 4;
                return Ok(4);
            }
        }
        self.mode = CpuMode::Running;
        let opcode = self.rd(self.registers.pc);
        self.skip(1);
        match self.call(opcode) {
            Ok(()) => Ok(self.ticks),
            Err(e) => Err(e),
        }
    }

    /// Services an interrupt: clears its request, pushes PC, jumps to its vector, clears IME.
    pub fn service(&mut self, source: Interrupt)
        requires
            old(self).wf(),
        ensures
            final(self).wf(),
            final(self).ticks == old(self).ticks,
            final(self).state() == service(old(self).state(), source),
    {
        self.mmu.clear_interrupt(source);
        let pc = self.registers.pc;
        self.push(pc);
        self.registers.pc = source.vector();
        self.interrupt_enabled = false;
        self.mode = CpuMode::Running;
    }
}

impl CPU {
    /// Executes a base instruction given by name, as `call` does with its byte.
    pub fn execute(&mut self, opcode: Opcode) -> (r: Result<(), CpuError>)
        requires
            old(self).wf(),
            old(self).ticks <= TICK_LIMIT,
        ensures
            final(self).wf(),
            r is Err <==> !old(self).prefix_mode && is_illegal(opcode.spec_byte()),
            r is Ok ==> final(self).state() == exec_op(old(self).state(), opcode.spec_byte())
                && final(self).ticks == old(self).ticks + op_cycles(
                old(self).state(),
                opcode.spec_byte(),
            ),
    {
        self.call(opcode.byte())
    }

    /// The mnemonic of a base opcode byte.
    pub fn get_instruction_mnemonic(&self, byte: u8) -> &'static str {
        Opcode::from_byte(byte).mnemonic()
    }

    /// The ticks of a base opcode byte, its branch taken where it has one.
    pub fn get_instruction_timing(&self, byte: u8) -> (r: u8)
        ensures
            r == base_cycles(byte, true),
    {
        Opcode::from_byte(byte).timing()
    }
}

} // verus!
