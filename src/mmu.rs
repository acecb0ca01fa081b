use vstd::prelude::*;
use crate::cartridge::{zeroed, CartView, MBC3};
use crate::gpu::{reaches_vblank, GpuEvent, FRAME_TICKS, VRAM, VRAM_SIZE};
use crate::interrupts::{Interrupt, Interrupts};
use crate::sprite::Sprite;

verus! {

pub const WRAM_SIZE: usize = 0x2000;

pub const OAM_SIZE: usize = 0xA0;

pub const IO_SIZE: usize = 0x80;

pub const HRAM_SIZE: usize = 0x7F;

/// Address of the interrupt request byte IF.
pub const IF_ADDRESS: u16 = 0xFF0F;

/// Address of the OAM DMA register.
pub const DMA_ADDRESS: u16 = 0xFF46;

/// Address of the interrupt enable byte IE.
pub const IE_ADDRESS: u16 = 0xFFFF;

/// The whole bus as values: every component's memory and the interrupt bytes.
pub ghost struct MmuView {
    pub cart: CartView,
    pub vram: Seq<u8>,
    pub wram: Seq<u8>,
    pub oam: Seq<u8>,
    pub io: Seq<u8>,
    pub hram: Seq<u8>,
    pub ie: u8,
    pub iflag: u8,
    /// Where the video unit is within its frame.
    pub video: u64,
}

/// Addresses that store what is written and read it back: video RAM, cartridge RAM,
/// work RAM and its echo, OAM, the I/O registers, high RAM and IE.
pub open spec fn is_ram(address: u16) -> bool {
    (0x8000 <= address < 0xFEA0) || 0xFF00 <= address
}

impl MmuView {
    pub open spec fn wf(self) -> bool {
        &&& self.cart.wf()
        &&& self.vram.len() == VRAM_SIZE
        &&& self.wram.len() == WRAM_SIZE
        &&& self.oam.len() == OAM_SIZE
        &&& self.io.len() == IO_SIZE
        &&& self.hram.len() == HRAM_SIZE
    }

    pub open spec fn read(self, a: u16) -> u8 {
        if CartView::decodes(a) {
            self.cart.read(a)
        } else if a < 0xA000 {
            self.vram[a - 0x8000]
        } else if a < 0xE000 {
            self.wram[a - 0xC000]
        } else if a < 0xFE00 {
            self.wram[a - 0xE000]
        } else if a < 0xFEA0 {
            self.oam[a - 0xFE00]
        } else if a < 0xFF00 {
            0xFF
        } else if a == IF_ADDRESS {
            self.iflag
        } else if a < 0xFF80 {
            self.io[a - 0xFF00]
        } else if a < 0xFFFF {
            self.hram[a - 0xFF80]
        } else {
            self.ie
        }
    }

    /// The little-endian word at `a` and the address after it (wrapping at the top).
    pub open spec fn read16(self, a: u16) -> u16 {
        crate::registers::word(self.read(((a + 1) % 0x10000) as u16), self.read(a))
    }

    /// OAM after a DMA from page `page`: entry byte i is the byte at `page * 0x100 + i`.
    pub open spec fn dma(self, page: u8) -> MmuView {
        MmuView {
            oam: Seq::new(OAM_SIZE as nat, |i: int| self.read((page as int * 256 + i) as u16)),
            ..self
        }
    }

    pub open spec fn write(self, a: u16, v: u8) -> MmuView {
        if CartView::decodes(a) {
            MmuView { cart: self.cart.write(a, v), ..self }
        } else if a < 0xA000 {
            MmuView { vram: self.vram.update(a - 0x8000, v), ..self }
        } else if a < 0xE000 {
            MmuView { wram: self.wram.update(a - 0xC000, v), ..self }
        } else if a < 0xFE00 {
            MmuView { wram: self.wram.update(a - 0xE000, v), ..self }
        } else if a < 0xFEA0 {
            MmuView { oam: self.oam.update(a - 0xFE00, v), ..self }
        } else if a < 0xFF00 {
            self
        } else if a == IF_ADDRESS {
            MmuView { iflag: v, ..self }
        } else if a == DMA_ADDRESS {
            MmuView { io: self.io.update(a - 0xFF00, v), ..self }.dma(v)
        } else if a < 0xFF80 {
            MmuView { io: self.io.update(a - 0xFF00, v), ..self }
        } else if a < 0xFFFF {
            MmuView { hram: self.hram.update(a - 0xFF80, v), ..self }
        } else {
            MmuView { ie: v, ..self }
        }
    }

    pub open spec fn interrupts(self) -> Interrupts {
        Interrupts { enable: self.ie, flags: self.iflag }
    }
}

/// Reading an address right after writing `v` to it gives `v`, for every RAM address.
pub proof fn lemma_read_after_write(m: MmuView, a: u16, v: u8)
    requires
        m.wf(),
        is_ram(a),
    ensures
        m.write(a, v).read(a) == v,
{
}

/// A write leaves every address of another component's memory as it was.
pub proof fn lemma_write_elsewhere(m: MmuView, a: u16, v: u8, b: u16)
    requires
        m.wf(),
        is_ram(a),
        a != DMA_ADDRESS,
        is_ram(b),
        a != b,
        !(0xC000 <= a < 0xFE00 && 0xC000 <= b < 0xFE00 && (a - b == 0x2000 || b - a == 0x2000)),
    ensures
        m.write(a, v).read(b) == m.read(b),
{
}

/// Echo RAM: 0xE000..=0xFDFF reads and writes as the work RAM 0x2000 below it.
pub proof fn lemma_echo(m: MmuView, e: u16, v: u8)
    requires
        m.wf(),
        0xE000 <= e <= 0xFDFF,
    ensures
        m.read(e) == m.read((e - 0x2000) as u16),
        m.write(e, v) == m.write((e - 0x2000) as u16, v),
{
    assert(m.write(e, v).wram =~= m.write((e - 0x2000) as u16, v).wram);
}

/// After a DMA from page P the OAM holds the bytes at P * 0x100 .. P * 0x100 + 0xA0; and a
/// second DMA from the same page changes nothing.
pub proof fn lemma_dma(m: MmuView, page: u8)
    requires
        m.wf(),
    ensures
        ({
            let after = m.write(DMA_ADDRESS, page);
            &&& forall|i: int|
                0 <= i < OAM_SIZE ==> #[trigger] after.oam[i] == after.read(
                    (page as int * 256 + i) as u16,
                )
            &&& after.write(DMA_ADDRESS, page) == after
        }),
{
    let pre = MmuView { io: m.io.update(0x46, page), ..m };
    let after = m.write(DMA_ADDRESS, page);
    assert(after == pre.dma(page));
    assert forall|i: int| 0 <= i < OAM_SIZE implies #[trigger] after.oam[i] == after.read(
        (page as int * 256 + i) as u16,
    ) by {
        lemma_dma_source(pre, page, i);
    }
    let again = after.write(DMA_ADDRESS, page);
    let pre2 = MmuView { io: after.io.update(0x46, page), ..after };
    assert(pre2.io =~= after.io);
    assert(pre2 == after);
    assert(again.oam =~= after.oam);
}

/// A DMA source byte reads the same before and after the copy.
proof fn lemma_dma_source(pre: MmuView, page: u8, i: int)
    requires
        pre.wf(),
        0 <= i < OAM_SIZE,
    ensures
        pre.dma(page).read((page as int * 256 + i) as u16) == pre.read((page as int * 256 + i) as u16),
{
}

/// The memory management unit: routes each address to the component that owns it.
pub struct MMU {
    vram: VRAM,
    mbc: MBC3,
    working_memory: Vec<u8>,
    oam: Vec<u8>,
    io: Vec<u8>,
    hram: Vec<u8>,
    interrupts: Interrupts,
}

impl View for MMU {
    type V = MmuView;

    closed spec fn view(&self) -> MmuView {
        MmuView {
            cart: self.mbc@,
            vram: self.vram.spec_memory(),
            wram: self.working_memory@,
            oam: self.oam@,
            io: self.io@,
            hram: self.hram@,
            ie: self.interrupts.enable,
            iflag: self.interrupts.flags,
            video: self.vram.spec_frame_ticks(),
        }
    }
}

impl MMU {
    pub closed spec fn wf(&self) -> bool {
        self@.wf() && self.vram.wf()
    }

    pub proof fn lemma_wf(&self)
        requires
            self.wf(),
        ensures
            self@.wf(),
    {
    }

    /// A bus over the given cartridge, with all RAM cleared and no interrupt enabled or requested.
    pub fn new(mbc: MBC3) -> (r: MMU)
        requires
            mbc@.wf(),
        ensures
            r.wf(),
            r@.cart == mbc@,
            r@.vram == Seq::new(VRAM_SIZE as nat, |i: int| 0u8),
            r@.wram == Seq::new(WRAM_SIZE as nat, |i: int| 0u8),
            r@.oam == Seq::new(OAM_SIZE as nat, |i: int| 0u8),
            r@.io == Seq::new(IO_SIZE as nat, |i: int| 0u8),
            r@.hram == Seq::new(HRAM_SIZE as nat, |i: int| 0u8),
            r@.ie == 0 && r@.iflag == 0,
            r@.video == 0,
    {
        MMU {
            vram: VRAM::new(),
            mbc,
            working_memory: zeroed(WRAM_SIZE),
            oam: zeroed(OAM_SIZE),
            io: zeroed(IO_SIZE),
            hram: zeroed(HRAM_SIZE),
            interrupts: Interrupts::new(),
        }
    }

    /// A bus over a blank MBC3 cartridge.
    pub fn new_with_mbc3() -> (r: MMU)
        ensures
            r.wf(),
            r@.cart.rom_bank == 1 && r@.cart.ram_bank == 0,
            forall|a: u16| r@.read(a) == (if 0xFEA0 <= a < 0xFF00 { 0xFFu8 } else { 0u8 }),
    {
        let m = MMU::new(MBC3::new());
        assert forall|a: u16| m@.read(a) == (if 0xFEA0 <= a < 0xFF00 { 0xFFu8 } else { 0u8 }) by {
            if CartView::decodes(a) && a >= 0x4000 && a < 0x8000 {
                let bank = m@.cart.rom_bank as int;
                assert(bank * 0x4000 + (a - 0x4000) < 0x200000) by (nonlinear_arith)
                    requires
                        bank == 1,
                        0x4000 <= a < 0x8000,
                ;
            }
            if CartView::decodes(a) && a >= 0xA000 {
                assert(m@.cart.ram_bank == 0);
            }
        }
        m
    }

    pub fn read(&self, address: u16) -> (r: u8)
        requires
            self.wf(),
        ensures
            r == self@.read(address),
    {
        if address < 0x8000 || (0xA000 <= address && address < 0xC000) {
            self.mbc.read(address)
        } else if address < 0xA000 {
            self.vram.read(address as usize)
        } else if address < 0xE000 {
            self.working_memory[address as usize - 0xC000]
        } else if address < 0xFE00 {
            self.working_memory[address as usize - 0xE000]
        } else if address < 0xFEA0 {
            self.oam[address as usize - 0xFE00]
        } else if address < 0xFF00 {
            0xFF
        } else if address < 0xFF80 {
            self.read_register(address)
        } else if address < 0xFFFF {
            self.hram[address as usize - 0xFF80]
        } else {
            self.interrupts.get()
        }
    }

    /// The little-endian word at `address` and the next address (wrapping at 0xFFFF).
    pub fn read16(&self, address: u16) -> (r: u16)
        requires
            self.wf(),
        ensures
            r == self@.read16(address),
    {
        let lower = self.read(address);
        let upper = self.read(address.wrapping_add(1));
        upper as u16 * 256 + lower as u16
    }

    fn read_register(&self, address: u16) -> (r: u8)
        requires
            self.wf(),
            0xFF00 <= address < 0xFF80,
        ensures
            r == self@.read(address),
    {
        if address == IF_ADDRESS {
            self.interrupts.flags
        } else {
            self.io[address as usize - 0xFF00]
        }
    }

    pub fn write(&mut self, address: u16, value: u8)
        requires
            old(self).wf(),
        ensures
            final(self).wf(),
            final(self)@ == old(self)@.write(address, value),
    {
        if address < 0x8000 || (0xA000 <= address && address < 0xC000) {
            let _ = self.mbc.write(address, value);
        } else if address < 0xA000 {
            self.vram.write(address as usize, value);
        } else if address < 0xE000 {
            self.working_memory.set(address as usize - 0xC000, value);
        } else if address < 0xFE00 {
            self.working_memory.set(address as usize - 0xE000, value);
        } else if address < 0xFEA0 {
            self.oam.set(address as usize - 0xFE00, value);
        } else if address < 0xFF00 {
            // unused: writes are ignored
        } else if address < 0xFF80 {
            self.write_register(address, value);
        } else if address < 0xFFFF {
            self.hram.set(address as usize - 0xFF80, value);
        } else {
            self.interrupts.set(value);
        }
    }

    fn write_register(&mut self, address: u16, value: u8)
        requires
            old(self).wf(),
            0xFF00 <= address < 0xFF80,
        ensures
            final(self).wf(),
            final(self)@ == old(self)@.write(address, value),
    {
        if address == IF_ADDRESS {
            self.interrupts.flags = value;
        } else {
            self.io.set(address as usize - 0xFF00, value);
            if address == DMA_ADDRESS {
                self.dma(value);
            }
        }
    }

    /// Copies the 160 bytes from `page * 0x100` into OAM, all at once.
    fn dma(&mut self, page: u8)
        requires
            old(self).wf(),
        ensures
            final(self).wf(),
            final(self)@ == old(self)@.dma(page),
    {
        let ghost pre = self@;
        let start = page as u16 * 256;
        let mut i: usize = 0;
        while i < OAM_SIZE
            invariant
                self.wf(),
                pre.wf(),
                start == page as int * 256,
                0 <= i <= OAM_SIZE,
                self@ == (MmuView { oam: self@.oam, ..pre }),
                forall|j: int| 0 <= j < i ==> self@.oam[j] == pre.read((page as int * 256 + j) as u16),
                forall|j: int| i <= j < OAM_SIZE ==> self@.oam[j] == pre.oam[j],
            decreases OAM_SIZE - i,
        {
            let b = self.read(start + i as u16);
            self.oam.set(i, b);
            i = i + 1;
        }
        assert(self@.oam =~= pre.dma(page).oam);
    }

    /// Latches an interrupt request in IF.
    pub fn request_interrupt(&mut self, source: Interrupt)
        requires
            old(self).wf(),
        ensures
            final(self).wf(),
            final(self)@ == (MmuView { iflag: old(self)@.iflag | source.spec_mask(), ..old(self)@ }),
    {
        self.interrupts.request(source);
    }

    /// Resets an interrupt request in IF.
    pub fn clear_interrupt(&mut self, source: Interrupt)
        requires
            old(self).wf(),
        ensures
            final(self).wf(),
            final(self)@ == (MmuView { iflag: old(self)@.iflag & !source.spec_mask(), ..old(self)@ }),
    {
        self.interrupts.clear(source);
    }

    /// The interrupt controller's state.
    pub fn interrupts(&self) -> (r: Interrupts)
        ensures
            r == self@.interrupts(),
    {
        self.interrupts
    }

    /// Sprite entry `index` decoded from OAM.
    pub fn sprite(&self, index: usize) -> (r: Sprite)
        requires
            self.wf(),
            index < 40,
        ensures
            r == (Sprite {
                y: self@.oam[4 * index],
                x: self@.oam[4 * index + 1],
                tile_number: self@.oam[4 * index + 2],
                priority_flag: false,
                y_flip_flag: false,
                x_flip_flag: false,
                pallete_number: 0,
            }).with_flags(self@.oam[4 * index + 3]),
    {
        let base = 4 * index;
        Sprite::from_bytes(self.oam[base], self.oam[base + 1], self.oam[base + 2], self.oam[base + 3])
    }

    /// Advances the video unit; it reports `VBlank` when a vertical blank begins.
    pub fn advance_video(&mut self, ticks: u64) -> (r: GpuEvent)
        requires
            old(self).wf(),
        ensures
            final(self).wf(),
            final(self)@ == (MmuView {
                video: ((old(self)@.video as int + ticks as int) % FRAME_TICKS as int) as u64,
                ..old(self)@
            }),
            r == (if reaches_vblank(old(self)@.video, ticks) {
                GpuEvent::VBlank
            } else {
                GpuEvent::Idle
            }),
    {
        self.vram.go(ticks)
    }
}

} // verus!
