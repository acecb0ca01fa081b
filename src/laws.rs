use vstd::prelude::*;
use crate::alu::{alu_spec, dec_spec, inc_spec};
use crate::interrupts::{highest_priority, Interrupt};
use crate::mmu::{is_ram, lemma_write_elsewhere, lemma_read_after_write, DMA_ADDRESS, IF_ADDRESS};
use crate::registers::{hi_byte, lemma_flags_byte, lo_byte, word, Registers};
use crate::semantics::{
    add_wrap, call_to, due_interrupt, exec_base, step, x0z4, x0z5, x3z1, x3z5, CpuView,
};

verus! {

/// A word split into its bytes and put back together is unchanged, and the other way round.
pub proof fn lemma_word_bytes(v: u16, hi: u8, lo: u8)
    ensures
        word(hi_byte(v), lo_byte(v)) == v,
        hi_byte(word(hi, lo)) == hi,
        lo_byte(word(hi, lo)) == lo,
{
}

/// The arithmetic word of two bytes is the bitwise one: `lo | (hi << 8)`.
pub proof fn lemma_word_is_bitwise(hi: u8, lo: u8)
    ensures
        word(hi, lo) == (lo as u16) | ((hi as u16) << 8u16),
{
    let h = hi as u16;
    let l = lo as u16;
    assert(h * 256 + l == l | (h << 8u16)) by (bit_vector)
        requires
            h < 256,
            l < 256,
    ;
}

/// Whether the two bytes below SP can hold a pushed word: plain RAM, neither the interrupt
/// request byte nor the DMA register.
pub open spec fn stack_writable(s: CpuView) -> bool {
    let sp = s.regs.spec_sp();
    let a1 = add_wrap(sp, -1);
    let a2 = add_wrap(sp, -2);
    &&& is_ram(a1) && is_ram(a2)
    &&& a1 != DMA_ADDRESS && a2 != DMA_ADDRESS
    &&& a1 != IF_ADDRESS && a2 != IF_ADDRESS
}

/// After a push of `v` the word at the new SP is `v`, and SP went down by two.
pub proof fn lemma_push(s: CpuView, v: u16)
    requires
        s.wf(),
        stack_writable(s),
    ensures
        s.push(v).wf(),
        s.push(v).regs.spec_sp() == add_wrap(s.regs.spec_sp(), -2),
        s.push(v).top() == v,
        s.push(v).mem.iflag == s.mem.iflag,
        s.push(v).regs.pc == s.regs.pc,
{
    reveal(CpuView::push);
    reveal(CpuView::top);
    let sp = s.regs.spec_sp();
    let a1 = add_wrap(sp, -1);
    let a2 = add_wrap(sp, -2);
    let m1 = s.mem.write(a1, hi_byte(v));
    let m2 = m1.write(a2, lo_byte(v));
    lemma_read_after_write(s.mem, a1, hi_byte(v));
    lemma_read_after_write(m1, a2, lo_byte(v));
    lemma_write_elsewhere(m1, a2, lo_byte(v), a1);
    let t = s.push(v);
    lemma_word_bytes(a2, 0, 0);
    lemma_word_bytes(v, 0, 0);
    assert(t.regs.spec_sp() == a2);
    assert(add_wrap(a2, 1) == a1);
}

/// After an 8-bit arithmetic or logic instruction (ADD, ADC, SUB, SBC, AND, XOR, OR, CP with a
/// register, (HL) or immediate operand, and INC or DEC of an 8-bit operand) the low nibble of F
/// is zero.
pub proof fn lemma_alu_clears_low_nibble(s: CpuView, op: u8)
    requires
        s.wf(),
        (0x80 <= op < 0xC0) || (op >= 0xC0 && op % 8 == 6) || (op < 0x40 && (op % 8 == 4 || op % 8
            == 5)),
    ensures
        exec_base(s, op).regs.f & 0x0F == 0,
{
    let y = (op / 8) % 8;
    let z = op % 8;
    reveal(x0z4);
    reveal(x0z5);
    reveal(exec_base);
    if op < 0x40 {
        let v = s.r8(y);
        let f = s.regs.f;
        let r = if z == 4 { inc_spec(v, f) } else { dec_spec(v, f) };
        lemma_flags_byte(
            r.0 == 0,
            z == 5,
            if z == 4 { (v & 0x0F) == 0x0F } else { (v & 0x0F) == 0 },
            crate::registers::carry_of(f),
        );
        assert(r.1 & 0x0F == 0);
    } else {
        let v = if op < 0xC0 { s.r8(z) } else { s.imm8() };
        let a = s.regs.a;
        let f = s.regs.f;
        let c = crate::alu::carry_in(f);
        let r = alu_spec(y, a, v, f);
        if y == 0 {
            lemma_flags_byte(((a + v) % 256) as u8 == 0, false, (a & 0x0F) + (v & 0x0F) > 0x0F, a
                + v > 0xFF);
        } else if y == 1 {
            lemma_flags_byte(((a + v + c) % 256) as u8 == 0, false, (a & 0x0F) + (v & 0x0F) + c
                > 0x0F, a + v + c > 0xFF);
        } else if y == 2 || y == 7 {
            lemma_flags_byte(((a - v + 256) % 256) as u8 == 0, true, (a & 0x0F) < (v & 0x0F), a
                < v);
        } else if y == 3 {
            lemma_flags_byte(((a - v - c + 512) % 256) as u8 == 0, true, (a & 0x0F) < (v & 0x0F)
                + c, a < v + c);
        } else if y == 4 {
            lemma_flags_byte(a & v == 0, false, true, false);
        } else if y == 5 {
            lemma_flags_byte(a ^ v == 0, false, false, false);
        } else {
            lemma_flags_byte(a | v == 0, false, false, false);
        }
        assert(r.1 & 0x0F == 0);
    }
}

/// Servicing an interrupt: its request bit was set and is cleared, IME was set and is
/// cleared, PC is the vector, SP is two lower and the word there is the PC from before.
pub proof fn lemma_service(s: CpuView, i: Interrupt)
    requires
        s.wf(),
        due_interrupt(s) == Some(i),
        stack_writable(s),
    ensures
        ({
            let t = step(s);
            &&& s.mem.iflag & i.spec_mask() != 0
            &&& t.mem.iflag & i.spec_mask() == 0
            &&& s.ime && !t.ime
            &&& t.regs.pc == i.spec_vector()
            &&& t.regs.spec_sp() == add_wrap(s.regs.spec_sp(), -2)
            &&& t.top() == s.regs.pc
        }),
{
    reveal(step);
    reveal(CpuView::top);
    let e = s.mem.ie;
    let f = s.mem.iflag;
    let bits = e & f & 0x1F;
    let m = i.spec_mask();
    assert(highest_priority(bits) == Some(i));
    assert(bits & m != 0 ==> f & m != 0) by (bit_vector)
        requires
            bits == e & f & 0x1Fu8,
    ;
    assert((f & !m) & m == 0) by (bit_vector);
    let c = CpuView { mem: crate::mmu::MmuView { iflag: f & !m, ..s.mem }, ..s };
    lemma_push(c, c.regs.pc);
}

/// PUSH rr then POP rr gives back rr and leaves SP as it was (for AF, when F's low nibble is
/// clear, as every flag update leaves it).
pub proof fn lemma_push_pop(s: CpuView, p: u8)
    requires
        s.wf(),
        p < 4,
        stack_writable(s),
        p == 3 ==> s.regs.f & 0x0F == 0,
    ensures
        ({
            let push = (0xC5 + 16 * p) as u8;
            let pop = (0xC1 + 16 * p) as u8;
            let t = exec_base(exec_base(s, push), pop);
            &&& t.rp2(p) == s.rp2(p)
            &&& t.regs.spec_sp() == s.regs.spec_sp()
        }),
{
    let push = (0xC5 + 16 * p) as u8;
    let pop = (0xC1 + 16 * p) as u8;
    let v = s.rp2(p);
    lemma_exec_push(s, p);
    let t1 = exec_base(s, push);
    lemma_push(s, v);
    lemma_exec_pop(t1, p);
    lemma_word_bytes(v, 0, 0);
    lemma_word_bytes(s.regs.spec_sp(), 0, 0);
    lemma_word_bytes(add_wrap(s.regs.spec_sp(), -2), 0, 0);
    if p == 3 {
        let f = s.regs.f;
        assert(f & 0x0F == 0 ==> f & 0xF0 == f) by (bit_vector);
        lemma_word_bytes(v, s.regs.a, f);
    }
}

proof fn lemma_exec_push(s: CpuView, p: u8)
    requires
        p < 4,
    ensures
        exec_base(s, (0xC5 + 16 * p) as u8) == s.push(s.rp2(p)),
{
    reveal(x3z5);
    reveal(exec_base);
    if p == 0 {
        assert(exec_base(s, 0xC5) == x3z5(s, 0));
    } else if p == 1 {
        assert(exec_base(s, 0xD5) == x3z5(s, 2));
    } else if p == 2 {
        assert(exec_base(s, 0xE5) == x3z5(s, 4));
    } else {
        assert(exec_base(s, 0xF5) == x3z5(s, 6));
    }
}

proof fn lemma_exec_pop(s: CpuView, p: u8)
    requires
        p < 4,
    ensures
        exec_base(s, (0xC1 + 16 * p) as u8) == s.drop_top().set_rp2(p, s.top()),
{
    reveal(x3z1);
    reveal(exec_base);
    if p == 0 {
        assert(exec_base(s, 0xC1) == x3z1(s, 0));
    } else if p == 1 {
        assert(exec_base(s, 0xD1) == x3z1(s, 2));
    } else if p == 2 {
        assert(exec_base(s, 0xE1) == x3z1(s, 4));
    } else {
        assert(exec_base(s, 0xF1) == x3z1(s, 6));
    }
}

/// CALL nn then RET returns to the instruction after the CALL's operand, with SP as before.
pub proof fn lemma_call_ret(s: CpuView)
    requires
        s.wf(),
        stack_writable(s),
    ensures
        ({
            let t = exec_base(exec_base(s, 0xCD), 0xC9);
            &&& t.regs.pc == add_wrap(s.regs.pc, 2)
            &&& t.regs.spec_sp() == s.regs.spec_sp()
        }),
{
    let ret = add_wrap(s.regs.pc, 2);
    let s1 = s.skip(2);
    assert(stack_writable(s1));
    lemma_push(s1, ret);
    lemma_exec_call(s);
    let pushed = s1.push(ret);
    let t1 = pushed.with_pc(s.imm16());
    lemma_top_with_pc(pushed, s.imm16());
    lemma_exec_ret(t1);
    lemma_word_bytes(add_wrap(s.regs.spec_sp(), -2), 0, 0);
    lemma_word_bytes(s.regs.spec_sp(), 0, 0);
}

proof fn lemma_top_with_pc(c: CpuView, pc: u16)
    ensures
        c.with_pc(pc).top() == c.top(),
{
    reveal(CpuView::top);
}

proof fn lemma_exec_call(s: CpuView)
    ensures
        exec_base(s, 0xCD) == s.skip(2).push(add_wrap(s.regs.pc, 2)).with_pc(s.imm16()),
{
    reveal(exec_base);
    reveal(x3z5);
    reveal(call_to);
    assert(exec_base(s, 0xCD) == x3z5(s, 1));
}

proof fn lemma_exec_ret(s: CpuView)
    ensures
        exec_base(s, 0xC9) == s.drop_top().with_pc(s.top()),
{
    reveal(exec_base);
    reveal(x3z1);
    assert(exec_base(s, 0xC9) == x3z1(s, 1));
}

/// XOR A clears A, and doing it again leaves A cleared.
pub proof fn lemma_xor_a_twice(s: CpuView)
    requires
        s.wf(),
    ensures
        exec_base(s, 0xAF).regs.a == 0,
        exec_base(exec_base(s, 0xAF), 0xAF).regs.a == exec_base(s, 0xAF).regs.a,
{
    reveal(exec_base);
    let a = s.regs.a;
    assert(a ^ a == 0) by (bit_vector);
    assert(0u8 ^ 0u8 == 0u8) by (bit_vector);
}

} // verus!
