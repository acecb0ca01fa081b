use vstd::prelude::*;
use crate::cartridge::zeroed;

verus! {

/// Size of video RAM.
pub const VRAM_SIZE: usize = 0x2000;

/// Machine ticks in one frame: 154 lines of 456 ticks.
pub const FRAME_TICKS: u64 = 70224;

/// Tick within a frame at which line 144 starts and the vertical blank begins.
pub const VBLANK_START: u64 = 65664;

/// What the video unit reports after advancing.
#[derive(Clone, Copy, Debug, PartialEq, Eq, Structural)]
pub enum GpuEvent {
    Idle,
    LCD,
    VBlank,
}

/// The LCD control register (0xFF40), one field per bit.
#[derive(Clone, Copy, Debug)]
pub struct LCDC {
    pub lcd_enabled: bool,
    pub window_tile_map_select: bool,
    pub window_display_toggle: bool,
    pub bg_window_tile_select: bool,
    pub bg_tile_map_select: bool,
    pub sprite_size: bool,
    pub sprite_display: bool,
    pub bg_display: bool,
}

impl LCDC {
    /// The fields decoded from `val`, bit 7 first.
    pub open spec fn decoded(val: u8) -> LCDC {
        LCDC {
            lcd_enabled: val & 0x80 != 0,
            window_tile_map_select: val & 0x40 != 0,
            window_display_toggle: val & 0x20 != 0,
            bg_window_tile_select: val & 0x10 != 0,
            bg_tile_map_select: val & 0x08 != 0,
            sprite_size: val & 0x04 != 0,
            sprite_display: val & 0x02 != 0,
            bg_display: val & 0x01 != 0,
        }
    }

    pub fn set(&mut self, val: u8)
        ensures
            *final(self) == LCDC::decoded(val),
    {
        self.lcd_enabled = (val & 0x80) > 0;
        self.window_tile_map_select = (val & 0x40) > 0;
        self.window_display_toggle = (val & 0x20) > 0;
        self.bg_window_tile_select = (val & 0x10) > 0;
        self.bg_tile_map_select = (val & 0x08) > 0;
        self.sprite_size = (val & 0x04) > 0;
        self.sprite_display = (val & 0x02) > 0;
        self.bg_display = (val & 0x01) > 0;
    }

    /// The register byte: the inverse of `set`.
    pub fn get(&self) -> (r: u8)
        ensures
            LCDC::decoded(r) == *self,
    {
        let b7: u8 = if self.lcd_enabled { 0x80 } else { 0 };
        let b6: u8 = if self.window_tile_map_select { 0x40 } else { 0 };
        let b5: u8 = if self.window_display_toggle { 0x20 } else { 0 };
        let b4: u8 = if self.bg_window_tile_select { 0x10 } else { 0 };
        let b3: u8 = if self.bg_tile_map_select { 0x08 } else { 0 };
        let b2: u8 = if self.sprite_size { 0x04 } else { 0 };
        let b1: u8 = if self.sprite_display { 0x02 } else { 0 };
        let b0: u8 = if self.bg_display { 0x01 } else { 0 };
        let v = b7 | b6 | b5 | b4 | b3 | b2 | b1 | b0;
        assert({
            let v = b7 | b6 | b5 | b4 | b3 | b2 | b1 | b0;
            &&& (v & 0x80u8 != 0) == (b7 != 0)
            &&& (v & 0x40u8 != 0) == (b6 != 0)
            &&& (v & 0x20u8 != 0) == (b5 != 0)
            &&& (v & 0x10u8 != 0) == (b4 != 0)
            &&& (v & 0x08u8 != 0) == (b3 != 0)
            &&& (v & 0x04u8 != 0) == (b2 != 0)
            &&& (v & 0x02u8 != 0) == (b1 != 0)
            &&& (v & 0x01u8 != 0) == (b0 != 0)
        }) by (bit_vector)
            requires
                b7 == 0u8 || b7 == 0x80u8,
                b6 == 0u8 || b6 == 0x40u8,
                b5 == 0u8 || b5 == 0x20u8,
                b4 == 0u8 || b4 == 0x10u8,
                b3 == 0u8 || b3 == 0x08u8,
                b2 == 0u8 || b2 == 0x04u8,
                b1 == 0u8 || b1 == 0x02u8,
                b0 == 0u8 || b0 == 0x01u8,
        ;
        v
    }

    pub fn new() -> (r: LCDC)
        ensures
            r == LCDC::decoded(0),
    {
        proof {
            lemma_decode_zero();
        }
        LCDC {
            lcd_enabled: false,
            window_tile_map_select: false,
            window_display_toggle: false,
            bg_window_tile_select: false,
            bg_tile_map_select: false,
            sprite_size: false,
            sprite_display: false,
            bg_display: false,
        }
    }
}

proof fn lemma_decode_zero()
    ensures
        LCDC::decoded(0) == (LCDC {
            lcd_enabled: false,
            window_tile_map_select: false,
            window_display_toggle: false,
            bg_window_tile_select: false,
            bg_tile_map_select: false,
            sprite_size: false,
            sprite_display: false,
            bg_display: false,
        }),
{
    assert(0u8 & 0x80u8 == 0u8 && 0u8 & 0x40u8 == 0u8 && 0u8 & 0x20u8 == 0u8 && 0u8 & 0x10u8 == 0u8
        && 0u8 & 0x08u8 == 0u8 && 0u8 & 0x04u8 == 0u8 && 0u8 & 0x02u8 == 0u8 && 0u8 & 0x01u8 == 0u8)
        by (bit_vector);
}

/// The LCD status register; only the coincidence flag is modelled.
#[derive(Clone, Copy, Debug)]
pub struct STAT {
    pub lyc_ly_coincidence: bool,
}

/// Video RAM and the video unit's clock.
pub struct VRAM {
    memory: Vec<u8>,
    lcdc: LCDC,
    frame_ticks: u64,
}

/// Whether advancing `ticks` from tick `pos` of a frame reaches the start of a vertical blank.
pub open spec fn reaches_vblank(pos: u64, ticks: u64) -> bool {
    ticks >= FRAME_TICKS || (pos < VBLANK_START && pos + ticks >= VBLANK_START) || (pos
        >= VBLANK_START && pos + ticks >= FRAME_TICKS + VBLANK_START)
}

impl VRAM {
    pub closed spec fn spec_memory(&self) -> Seq<u8> {
        self.memory@
    }

    pub closed spec fn spec_lcdc(&self) -> LCDC {
        self.lcdc
    }

    pub closed spec fn spec_frame_ticks(&self) -> u64 {
        self.frame_ticks
    }

    pub open spec fn wf(&self) -> bool {
        self.spec_memory().len() == VRAM_SIZE && self.spec_frame_ticks() < FRAME_TICKS
    }

    pub fn new() -> (r: VRAM)
        ensures
            r.wf(),
            r.spec_memory() == Seq::new(VRAM_SIZE as nat, |i: int| 0u8),
            r.spec_frame_ticks() == 0,
            r.spec_lcdc() == LCDC::decoded(0),
    {
        VRAM { memory: zeroed(VRAM_SIZE), lcdc: LCDC::new(), frame_ticks: 0 }
    }

    /// Advances the video clock by `ticks`; reports `VBlank` when a vertical blank begins.
    pub fn go(&mut self, ticks: u64) -> (r: GpuEvent)
        requires
            old(self).wf(),
        ensures
            final(self).wf(),
            final(self).spec_memory() == old(self).spec_memory(),
            final(self).spec_lcdc() == old(self).spec_lcdc(),
            final(self).spec_frame_ticks() == (old(self).spec_frame_ticks() as int + ticks as int)
                % FRAME_TICKS as int,
            r == (if reaches_vblank(old(self).spec_frame_ticks(), ticks) {
                GpuEvent::VBlank
            } else {
                GpuEvent::Idle
            }),
    {
        let pos = self.frame_ticks;
        let step = ticks % FRAME_TICKS;
        let next = pos + step;
        let vblank = ticks >= FRAME_TICKS || (pos < VBLANK_START && next >= VBLANK_START) || (pos
            >= VBLANK_START && next >= FRAME_TICKS + VBLANK_START);
        self.frame_ticks = next % FRAME_TICKS;
        proof {
            assert((pos as int + ticks as int) % FRAME_TICKS as int == (pos as int + step as int)
                % FRAME_TICKS as int) by (nonlinear_arith)
                requires
                    step == ticks as int % FRAME_TICKS as int,
            {
                vstd::arithmetic::div_mod::lemma_add_mod_noop(pos as int, ticks as int, FRAME_TICKS as int);
                vstd::arithmetic::div_mod::lemma_mod_twice(ticks as int, FRAME_TICKS as int);
                vstd::arithmetic::div_mod::lemma_add_mod_noop(pos as int, step as int, FRAME_TICKS as int);
            }
        }
        if vblank {
            GpuEvent::VBlank
        } else {
            GpuEvent::Idle
        }
    }

    /// The byte at `address`, taken modulo the 8 KiB of video RAM.
    pub fn read(&self, address: usize) -> (r: u8)
        requires
            self.wf(),
        ensures
            r == self.spec_memory()[address as int % VRAM_SIZE as int],
    {
        self.memory[address % VRAM_SIZE]
    }

    /// Stores `value` at `address`, taken modulo the 8 KiB of video RAM.
    pub fn write(&mut self, address: usize, value: u8)
        requires
            old(self).wf(),
        ensures
            final(self).wf(),
            final(self).spec_memory() == old(self).spec_memory().update(
                address as int % VRAM_SIZE as int,
                value,
            ),
            final(self).spec_frame_ticks() == old(self).spec_frame_ticks(),
            final(self).spec_lcdc() == old(self).spec_lcdc(),
    {
        self.memory.set(address % VRAM_SIZE, value);
    }

    /// Direct access to one byte of video RAM.
    pub fn subscript(&mut self, index: usize) -> (r: &mut u8)
        requires
            old(self).wf(),
            index < VRAM_SIZE,
        ensures
            *r == old(self).spec_memory()[index as int],
            final(self).spec_memory() == old(self).spec_memory().update(index as int, *final(r)),
            final(self).spec_frame_ticks() == old(self).spec_frame_ticks(),
            final(self).spec_lcdc() == old(self).spec_lcdc(),
    {
        &mut self.memory[index]
    }
}

} // verus!
