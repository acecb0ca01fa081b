use vstd::prelude::*;
use crate::alu::{
    add16_spec, alu_spec, bit_value, daa_spec, dec_spec, inc_spec, relative, shift_flags, shift_spec,
    sp_offset_spec,
};
use crate::interrupts::{highest_priority, Interrupt};
use crate::mmu::MmuView;
use crate::registers::{carry_of, flags_byte, hi_byte, lo_byte, word, zero_of, Registers};

verus! {

/// What the CPU is doing between instructions.
#[derive(Clone, Copy, Debug, PartialEq, Eq, Structural)]
pub enum CpuMode {
    Running,
    /// After HALT: waits for an enabled interrupt request.
    Halted,
    /// After STOP: waits for a joypad request.
    Stopped,
}

/// The machine as the instruction set sees it.
pub ghost struct CpuView {
    pub regs: Registers,
    pub mem: MmuView,
    pub ime: bool,
    pub prefix: bool,
    pub mode: CpuMode,
}

/// `a + n`, wrapping at 16 bits.
pub open spec fn add_wrap(a: u16, n: int) -> u16 {
    ((a + n + 0x20000) % 0x10000) as u16
}

/// The eleven opcodes that the base table leaves undefined.
pub open spec fn is_illegal(op: u8) -> bool {
    op == 0xD3 || op == 0xDB || op == 0xDD || op == 0xE3 || op == 0xE4 || op == 0xEB || op == 0xEC
        || op == 0xED || op == 0xF4 || op == 0xFC || op == 0xFD
}

impl CpuView {
    pub open spec fn wf(self) -> bool {
        self.mem.wf()
    }

    pub open spec fn rd(self, a: u16) -> u8 {
        self.mem.read(a)
    }

    pub open spec fn wr(self, a: u16, v: u8) -> CpuView {
        CpuView { mem: self.mem.write(a, v), ..self }
    }

    pub open spec fn with_regs(self, r: Registers) -> CpuView {
        CpuView { regs: r, ..self }
    }

    pub open spec fn with_a(self, v: u8) -> CpuView {
        self.with_regs(Registers { a: v, ..self.regs })
    }

    pub open spec fn with_f(self, v: u8) -> CpuView {
        self.with_regs(Registers { f: v, ..self.regs })
    }

    pub open spec fn with_pc(self, v: u16) -> CpuView {
        self.with_regs(Registers { pc: v, ..self.regs })
    }

    pub open spec fn with_sp(self, v: u16) -> CpuView {
        self.with_regs(Registers { s: hi_byte(v), p: lo_byte(v), ..self.regs })
    }

    pub open spec fn with_hl(self, v: u16) -> CpuView {
        self.with_regs(Registers { h: hi_byte(v), l: lo_byte(v), ..self.regs })
    }

    /// Moves PC past `n` operand bytes.
    pub open spec fn skip(self, n: int) -> CpuView {
        self.with_pc(add_wrap(self.regs.pc, n))
    }

    /// Operand register `i`: B, C, D, E, H, L, (HL), A.
    pub open spec fn r8(self, i: u8) -> u8 {
        if i == 0 {
            self.regs.b
        } else if i == 1 {
            self.regs.c
        } else if i == 2 {
            self.regs.d
        } else if i == 3 {
            self.regs.e
        } else if i == 4 {
            self.regs.h
        } else if i == 5 {
            self.regs.l
        } else if i == 6 {
            self.rd(self.regs.spec_hl())
        } else {
            self.regs.a
        }
    }

    pub open spec fn set_r8(self, i: u8, v: u8) -> CpuView {
        if i == 0 {
            self.with_regs(Registers { b: v, ..self.regs })
        } else if i == 1 {
            self.with_regs(Registers { c: v, ..self.regs })
        } else if i == 2 {
            self.with_regs(Registers { d: v, ..self.regs })
        } else if i == 3 {
            self.with_regs(Registers { e: v, ..self.regs })
        } else if i == 4 {
            self.with_regs(Registers { h: v, ..self.regs })
        } else if i == 5 {
            self.with_regs(Registers { l: v, ..self.regs })
        } else if i == 6 {
            self.wr(self.regs.spec_hl(), v)
        } else {
            self.with_a(v)
        }
    }

    /// The byte after the opcode.
    pub open spec fn imm8(self) -> u8 {
        self.rd(self.regs.pc)
    }

    /// The little-endian word after the opcode.
    pub open spec fn imm16(self) -> u16 {
        word(self.rd(add_wrap(self.regs.pc, 1)), self.rd(self.regs.pc))
    }

    /// Register pair `p`: BC, DE, HL, SP.
    pub open spec fn rp(self, p: u8) -> u16 {
        if p == 0 {
            self.regs.spec_bc()
        } else if p == 1 {
            self.regs.spec_de()
        } else if p == 2 {
            self.regs.spec_hl()
        } else {
            self.regs.spec_sp()
        }
    }

    pub open spec fn set_rp(self, p: u8, v: u16) -> CpuView {
        if p == 0 {
            self.with_regs(Registers { b: hi_byte(v), c: lo_byte(v), ..self.regs })
        } else if p == 1 {
            self.with_regs(Registers { d: hi_byte(v), e: lo_byte(v), ..self.regs })
        } else if p == 2 {
            self.with_hl(v)
        } else {
            self.with_sp(v)
        }
    }

    /// Register pair `p` as PUSH and POP name them: BC, DE, HL, AF.
    pub open spec fn rp2(self, p: u8) -> u16 {
        if p == 3 {
            self.regs.spec_af()
        } else {
            self.rp(p)
        }
    }

    pub open spec fn set_rp2(self, p: u8, v: u16) -> CpuView {
        if p == 3 {
            self.with_regs(Registers { a: hi_byte(v), f: lo_byte(v) & 0xF0, ..self.regs })
        } else {
            self.set_rp(p, v)
        }
    }

    /// Branch condition `cc`: NZ, Z, NC, C.
    pub open spec fn cond(self, cc: u8) -> bool {
        if cc == 0 {
            !zero_of(self.regs.f)
        } else if cc == 1 {
            zero_of(self.regs.f)
        } else if cc == 2 {
            !carry_of(self.regs.f)
        } else {
            carry_of(self.regs.f)
        }
    }

    /// Pushes a word: high byte at SP-1, low byte at SP-2, SP lowered by two.
    #[verifier::opaque]
    pub open spec fn push(self, v: u16) -> CpuView {
        let sp = self.regs.spec_sp();
        self.wr(add_wrap(sp, -1), hi_byte(v)).wr(add_wrap(sp, -2), lo_byte(v)).with_sp(
            add_wrap(sp, -2),
        )
    }

    /// The word at SP.
    #[verifier::opaque]
    pub open spec fn top(self) -> u16 {
        let sp = self.regs.spec_sp();
        word(self.rd(add_wrap(sp, 1)), self.rd(sp))
    }

    /// SP raised by two.
    pub open spec fn drop_top(self) -> CpuView {
        self.with_sp(add_wrap(self.regs.spec_sp(), 2))
    }

    /// Applies an accumulator operation with operand `v`.
    pub open spec fn alu_a(self, op: u8, v: u8) -> CpuView {
        let r = alu_spec(op, self.regs.a, v, self.regs.f);
        self.with_regs(Registers { a: r.0, f: r.1, ..self.regs })
    }
}

/// Opcodes 0x00..=0x3F with low three bits 0: NOP, LD (nn),SP, STOP, JR, JR cc.
#[verifier::opaque]
pub open spec fn x0z0(s: CpuView, y: u8) -> CpuView {
    if y == 0 {
        s
    } else if y == 1 {
        let a = s.imm16();
        let sp = s.regs.spec_sp();
        s.skip(2).wr(a, lo_byte(sp)).wr(add_wrap(a, 1), hi_byte(sp))
    } else if y == 2 {
        CpuView { mode: CpuMode::Stopped, ..s.skip(1) }
    } else {
        let e = s.imm8();
        let t = s.skip(1);
        if y == 3 || s.cond((y - 4) as u8) {
            t.with_pc(relative(t.regs.pc, e))
        } else {
            t
        }
    }
}

/// LD rr,nn and ADD HL,rr.
#[verifier::opaque]
pub open spec fn x0z1(s: CpuView, y: u8) -> CpuView {
    let p = y / 2;
    if y % 2 == 0 {
        s.skip(2).set_rp(p, s.imm16())
    } else {
        let r = add16_spec(s.regs.spec_hl(), s.rp(p), s.regs.f);
        s.with_hl(r.0).with_f(r.1)
    }
}

/// Loads between A and (BC), (DE), (HL+), (HL-).
#[verifier::opaque]
pub open spec fn x0z2(s: CpuView, y: u8) -> CpuView {
    let p = y / 2;
    let hl = s.regs.spec_hl();
    let addr = if p == 0 {
        s.regs.spec_bc()
    } else if p == 1 {
        s.regs.spec_de()
    } else {
        hl
    };
    let t = if y % 2 == 0 {
        s.wr(addr, s.regs.a)
    } else {
        s.with_a(s.rd(addr))
    };
    if p == 2 {
        t.with_hl(add_wrap(hl, 1))
    } else if p == 3 {
        t.with_hl(add_wrap(hl, -1))
    } else {
        t
    }
}

/// INC rr and DEC rr.
#[verifier::opaque]
pub open spec fn x0z3(s: CpuView, y: u8) -> CpuView {
    let p = y / 2;
    s.set_rp(p, add_wrap(s.rp(p), if y % 2 == 0 { 1 } else { -1 }))
}

/// INC r.
#[verifier::opaque]
pub open spec fn x0z4(s: CpuView, y: u8) -> CpuView {
    let r = inc_spec(s.r8(y), s.regs.f);
    s.set_r8(y, r.0).with_f(r.1)
}

/// DEC r.
#[verifier::opaque]
pub open spec fn x0z5(s: CpuView, y: u8) -> CpuView {
    let r = dec_spec(s.r8(y), s.regs.f);
    s.set_r8(y, r.0).with_f(r.1)
}

/// LD r,n.
#[verifier::opaque]
pub open spec fn x0z6(s: CpuView, y: u8) -> CpuView {
    s.skip(1).set_r8(y, s.imm8())
}

/// RLCA, RRCA, RLA, RRA, DAA, CPL, SCF, CCF.
#[verifier::opaque]
pub open spec fn x0z7(s: CpuView, y: u8) -> CpuView {
    let a = s.regs.a;
    let f = s.regs.f;
    if y < 4 {
        let r = shift_spec(y, a, f);
        s.with_regs(Registers { a: r.0, f: flags_byte(false, false, false, r.1), ..s.regs })
    } else if y == 4 {
        let r = daa_spec(a, f);
        s.with_regs(Registers { a: r.0, f: r.1, ..s.regs })
    } else if y == 5 {
        s.with_regs(Registers { a: !a, f: flags_byte(zero_of(f), true, true, carry_of(f)), ..s.regs })
    } else if y == 6 {
        s.with_f(flags_byte(zero_of(f), false, false, true))
    } else {
        s.with_f(flags_byte(zero_of(f), false, false, !carry_of(f)))
    }
}

/// Opcodes 0x40..=0x7F: LD r,r' and HALT.
#[verifier::opaque]
pub open spec fn x1(s: CpuView, y: u8, z: u8) -> CpuView {
    if y == 6 && z == 6 {
        CpuView { mode: CpuMode::Halted, ..s }
    } else {
        s.set_r8(y, s.r8(z))
    }
}

/// RET cc, LDH (n),A, ADD SP,e, LDH A,(n), LD HL,SP+e.
#[verifier::opaque]
pub open spec fn x3z0(s: CpuView, y: u8) -> CpuView {
    let n = s.imm8();
    if y < 4 {
        if s.cond(y) {
            s.drop_top().with_pc(s.top())
        } else {
            s
        }
    } else if y == 4 {
        s.skip(1).wr(add_wrap(0xFF00, n as int), s.regs.a)
    } else if y == 6 {
        s.skip(1).with_a(s.rd(add_wrap(0xFF00, n as int)))
    } else {
        let r = sp_offset_spec(s.regs.spec_sp(), n);
        if y == 5 {
            s.skip(1).with_sp(r.0).with_f(r.1)
        } else {
            s.skip(1).with_hl(r.0).with_f(r.1)
        }
    }
}

/// POP rr, RET, RETI, JP HL, LD SP,HL.
#[verifier::opaque]
pub open spec fn x3z1(s: CpuView, y: u8) -> CpuView {
    let p = y / 2;
    if y % 2 == 0 {
        s.drop_top().set_rp2(p, s.top())
    } else if p == 0 {
        s.drop_top().with_pc(s.top())
    } else if p == 1 {
        CpuView { ime: true, ..s.drop_top().with_pc(s.top()) }
    } else if p == 2 {
        s.with_pc(s.regs.spec_hl())
    } else {
        s.with_sp(s.regs.spec_hl())
    }
}

/// JP cc,nn, LD (C),A, LD (nn),A, LD A,(C), LD A,(nn).
#[verifier::opaque]
pub open spec fn x3z2(s: CpuView, y: u8) -> CpuView {
    let nn = s.imm16();
    let c_addr = add_wrap(0xFF00, s.regs.c as int);
    if y < 4 {
        if s.cond(y) {
            s.with_pc(nn)
        } else {
            s.skip(2)
        }
    } else if y == 4 {
        s.wr(c_addr, s.regs.a)
    } else if y == 5 {
        s.skip(2).wr(nn, s.regs.a)
    } else if y == 6 {
        s.with_a(s.rd(c_addr))
    } else {
        s.skip(2).with_a(s.rd(nn))
    }
}

/// JP nn, the bit-prefix, DI, EI.
#[verifier::opaque]
pub open spec fn x3z3(s: CpuView, y: u8) -> CpuView {
    if y == 0 {
        s.with_pc(s.imm16())
    } else if y == 1 {
        CpuView { prefix: true, ..s }
    } else if y == 6 {
        CpuView { ime: false, ..s }
    } else if y == 7 {
        CpuView { ime: true, ..s }
    } else {
        s
    }
}

/// CALL cc,nn and CALL nn: push the address after the operand, jump.
#[verifier::opaque]
pub open spec fn call_to(s: CpuView, taken: bool) -> CpuView {
    let t = s.skip(2);
    if taken {
        t.push(t.regs.pc).with_pc(s.imm16())
    } else {
        t
    }
}

/// PUSH rr and CALL nn.
#[verifier::opaque]
pub open spec fn x3z5(s: CpuView, y: u8) -> CpuView {
    if y % 2 == 0 {
        s.push(s.rp2(y / 2))
    } else {
        call_to(s, true)
    }
}

/// The effect of base opcode `op`, PC pointing just past it.
#[verifier::opaque]
pub open spec fn exec_base(s: CpuView, op: u8) -> CpuView {
    let x = op / 64;
    let y = (op / 8) % 8;
    let z = op % 8;
    if is_illegal(op) {
        s
    } else if x == 0 {
        if z == 0 {
            x0z0(s, y)
        } else if z == 1 {
            x0z1(s, y)
        } else if z == 2 {
            x0z2(s, y)
        } else if z == 3 {
            x0z3(s, y)
        } else if z == 4 {
            x0z4(s, y)
        } else if z == 5 {
            x0z5(s, y)
        } else if z == 6 {
            x0z6(s, y)
        } else {
            x0z7(s, y)
        }
    } else if x == 1 {
        x1(s, y, z)
    } else if x == 2 {
        s.alu_a(y, s.r8(z))
    } else {
        if z == 0 {
            x3z0(s, y)
        } else if z == 1 {
            x3z1(s, y)
        } else if z == 2 {
            x3z2(s, y)
        } else if z == 3 {
            x3z3(s, y)
        } else if z == 4 {
            call_to(s, s.cond(y))
        } else if z == 5 {
            x3z5(s, y)
        } else if z == 6 {
            s.skip(1).alu_a(y, s.imm8())
        } else {
            s.push(s.regs.pc).with_pc((y as int * 8) as u16)
        }
    }
}

/// Whether a conditional base opcode takes its branch in state `s`.
pub open spec fn base_taken(s: CpuView, op: u8) -> bool {
    let y = (op / 8) % 8;
    if op == 0x20 || op == 0x28 || op == 0x30 || op == 0x38 {
        s.cond((y - 4) as u8)
    } else if op == 0xC0 || op == 0xC8 || op == 0xD0 || op == 0xD8 || op == 0xC2 || op == 0xCA || op
        == 0xD2 || op == 0xDA || op == 0xC4 || op == 0xCC || op == 0xD4 || op == 0xDC {
        s.cond(y)
    } else {
        true
    }
}

/// The machine ticks a base opcode takes, its fetch included; `taken` matters for conditional
/// branches only.
pub open spec fn base_cycles(op: u8, taken: bool) -> u64 {
    let x = op / 64;
    let y = (op / 8) % 8;
    let z = op % 8;
    if x == 0 {
        if z == 0 {
            if y == 0 || y == 2 {
                4
            } else if y == 1 {
                20
            } else if y == 3 || taken {
                12
            } else {
                8
            }
        } else if z == 1 {
            if y % 2 == 0 {
                12
            } else {
                8
            }
        } else if z == 2 || z == 3 {
            8
        } else if z == 4 || z == 5 {
            if y == 6 {
                12
            } else {
                4
            }
        } else if z == 6 {
            if y == 6 {
                12
            } else {
                8
            }
        } else {
            4
        }
    } else if x == 1 {
        if (y == 6 || z == 6) && op != 0x76 {
            8
        } else {
            4
        }
    } else if x == 2 {
        if z == 6 {
            8
        } else {
            4
        }
    } else {
        if z == 0 {
            if y < 4 {
                if taken {
                    20
                } else {
                    8
                }
            } else if y == 5 {
                16
            } else {
                12
            }
        } else if z == 1 {
            if y % 2 == 0 {
                12
            } else if y == 5 {
                4
            } else if y == 7 {
                8
            } else {
                16
            }
        } else if z == 2 {
            if y < 4 {
                if taken {
                    16
                } else {
                    12
                }
            } else if y == 4 || y == 6 {
                8
            } else {
                16
            }
        } else if z == 3 {
            if y == 0 {
                16
            } else {
                4
            }
        } else if z == 4 {
            if taken {
                24
            } else {
                12
            }
        } else if z == 5 {
            if y % 2 == 0 {
                16
            } else {
                24
            }
        } else if z == 6 {
            8
        } else {
            16
        }
    }
}

/// The effect of bit-prefix opcode `op`: rotates and shifts, BIT, RES, SET.
pub open spec fn exec_cb(s: CpuView, op: u8) -> CpuView {
    let x = op / 64;
    let y = (op / 8) % 8;
    let z = op % 8;
    let v = s.r8(z);
    if x == 0 {
        let r = shift_spec(y, v, s.regs.f);
        s.set_r8(z, r.0).with_f(shift_flags(r.0, r.1))
    } else if x == 1 {
        s.with_f(flags_byte(v & bit_value(y) == 0, false, true, carry_of(s.regs.f)))
    } else if x == 2 {
        s.set_r8(z, v & !bit_value(y))
    } else {
        s.set_r8(z, v | bit_value(y))
    }
}

/// The ticks a bit-prefix opcode takes after the 4 of its prefix byte.
pub open spec fn cb_cycles(op: u8) -> u64 {
    if op % 8 != 6 {
        4
    } else if op / 64 == 1 {
        8
    } else {
        12
    }
}

/// One instruction byte executed: from the bit-prefix table when the previous byte was the
/// prefix, from the base table otherwise.
pub open spec fn exec_op(s: CpuView, op: u8) -> CpuView {
    if s.prefix {
        CpuView { prefix: false, ..exec_cb(s, op) }
    } else {
        exec_base(s, op)
    }
}

pub open spec fn op_cycles(s: CpuView, op: u8) -> u64 {
    if s.prefix {
        cb_cycles(op)
    } else {
        base_cycles(op, base_taken(s, op))
    }
}

/// Servicing interrupt `i`: its request is cleared, PC is pushed, PC jumps to the vector and
/// the master enable is cleared.
pub open spec fn service(s: CpuView, i: Interrupt) -> CpuView {
    let t = CpuView { mem: MmuView { iflag: s.mem.iflag & !i.spec_mask(), ..s.mem }, ..s };
    CpuView { ime: false, mode: CpuMode::Running, ..t.push(t.regs.pc).with_pc(i.spec_vector()) }
}

/// The interrupt a step services first, if any.
pub open spec fn due_interrupt(s: CpuView) -> Option<Interrupt> {
    if s.ime {
        highest_priority(s.mem.interrupts().spec_pending())
    } else {
        None
    }
}

/// Whether the CPU sits out a step: halted with nothing pending, or stopped with no joypad
/// request.
pub open spec fn waiting(s: CpuView) -> bool {
    (s.mode == CpuMode::Halted && s.mem.interrupts().spec_pending() == 0) || (s.mode
        == CpuMode::Stopped && s.mem.iflag & 0x10 == 0)
}

/// The state in which a step fetches: running, the opcode byte consumed.
pub open spec fn fetched(s: CpuView) -> CpuView {
    CpuView { mode: CpuMode::Running, ..s }.skip(1)
}

/// The opcode a step fetches.
pub open spec fn next_opcode(s: CpuView) -> u8 {
    s.rd(s.regs.pc)
}

/// Whether a step stops on an undefined opcode.
pub open spec fn step_fails(s: CpuView) -> bool {
    due_interrupt(s) is None && !waiting(s) && !s.prefix && is_illegal(next_opcode(s))
}

/// One step: service the highest-priority due interrupt, or wait, or fetch and execute.
#[verifier::opaque]
pub open spec fn step(s: CpuView) -> CpuView {
    match due_interrupt(s) {
        Some(i) => service(s, i),
        None => if waiting(s) {
            s
        } else {
            exec_op(fetched(s), next_opcode(s))
        },
    }
}

/// The ticks one step takes.
pub open spec fn step_cycles(s: CpuView) -> u64 {
    match due_interrupt(s) {
        Some(i) => 20,
        None => if waiting(s) {
            4
        } else {
            op_cycles(fetched(s), next_opcode(s))
        },
    }
}

} // verus!
