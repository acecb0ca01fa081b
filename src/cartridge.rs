use vstd::prelude::*;

verus! {

/// Size of one switchable ROM bank.
pub const ROM_BANK_SIZE: usize = 0x4000;

/// Number of ROM banks an MBC3 can address.
pub const ROM_BANKS: usize = 0x80;

/// Size of one cartridge RAM bank.
pub const RAM_BANK_SIZE: usize = 0x2000;

/// Number of cartridge RAM banks.
pub const RAM_BANKS: usize = 0x04;

/// Header offset of the cartridge type byte.
pub const CARTRIDGE_TYPE_OFFSET: usize = 0x0147;

#[derive(Clone, Copy, Debug, PartialEq, Eq, Structural)]
pub enum CartridgeError {
    /// The image is empty, not a whole number of 16 KiB banks, too large, or not an MBC3 cartridge.
    CartridgeFormat,
    /// A write outside the ranges the controller decodes.
    InvalidAddress,
}

/// What an MBC3 holds: the whole ROM (all 128 banks), the cartridge RAM (all 4 banks),
/// and the two bank selectors.
pub ghost struct CartView {
    pub rom: Seq<u8>,
    pub rom_bank: u8,
    pub ram: Seq<u8>,
    pub ram_bank: u8,
}

impl CartView {
    pub open spec fn wf(self) -> bool {
        &&& self.rom.len() == ROM_BANK_SIZE * ROM_BANKS
        &&& self.ram.len() == RAM_BANK_SIZE * RAM_BANKS
        &&& 1 <= self.rom_bank < ROM_BANKS
        &&& self.ram_bank < RAM_BANKS
    }

    /// The addresses the controller answers reads on.
    pub open spec fn decodes(address: u16) -> bool {
        address < 0x8000 || (0xA000 <= address < 0xC000)
    }

    pub open spec fn read(self, address: u16) -> u8 {
        if address < 0x4000 {
            self.rom[address as int]
        } else if address < 0x8000 {
            self.rom[self.rom_bank * ROM_BANK_SIZE + (address - 0x4000)]
        } else {
            self.ram[self.ram_bank * RAM_BANK_SIZE + (address - 0xA000)]
        }
    }

    /// The bank that a write of `value` to the ROM bank register selects: bank 0 reads as bank 1.
    pub open spec fn rom_bank_for(value: u8) -> u8 {
        if value & 0x7F == 0 {
            1
        } else {
            value & 0x7F
        }
    }

    pub open spec fn write(self, address: u16, value: u8) -> CartView {
        if 0x2000 <= address < 0x4000 {
            CartView { rom_bank: Self::rom_bank_for(value), ..self }
        } else if 0x4000 <= address < 0x6000 {
            if value < RAM_BANKS {
                CartView { ram_bank: value, ..self }
            } else {
                self
            }
        } else if 0xA000 <= address < 0xC000 {
            CartView {
                ram: self.ram.update(self.ram_bank * RAM_BANK_SIZE + (address - 0xA000), value),
                ..self
            }
        } else {
            self
        }
    }
}

/// Whether a header byte names an MBC3 cartridge (with RAM, with or without battery).
pub open spec fn is_mbc3_type(t: u8) -> bool {
    t == 0x11 || t == 0x12 || t == 0x13
}

/// Whether a cartridge image can be loaded into an MBC3.
pub open spec fn valid_image(image: Seq<u8>) -> bool {
    &&& image.len() > 0
    &&& image.len() % (ROM_BANK_SIZE as nat) == 0
    &&& image.len() <= ROM_BANK_SIZE * ROM_BANKS
    &&& is_mbc3_type(image[CARTRIDGE_TYPE_OFFSET as int])
}

/// The MBC3 memory-bank controller with its ROM and RAM.
pub struct MBC3 {
    rom_bank_select: u8,
    rom: Vec<u8>,
    ram_bank_select: u8,
    ram: Vec<u8>,
}

impl View for MBC3 {
    type V = CartView;

    closed spec fn view(&self) -> CartView {
        CartView {
            rom: self.rom@,
            rom_bank: self.rom_bank_select,
            ram: self.ram@,
            ram_bank: self.ram_bank_select,
        }
    }
}

impl MBC3 {
    /// A controller over a blank ROM and blank RAM, bank 1 selected.
    pub fn new() -> (r: MBC3)
        ensures
            r@.wf(),
            r@.rom == Seq::new((ROM_BANK_SIZE * ROM_BANKS) as nat, |i: int| 0u8),
            r@.ram == Seq::new((RAM_BANK_SIZE * RAM_BANKS) as nat, |i: int| 0u8),
            r@.rom_bank == 1,
            r@.ram_bank == 0,
    {
        let rom = zeroed(ROM_BANK_SIZE * ROM_BANKS);
        let ram = zeroed(RAM_BANK_SIZE * RAM_BANKS);
        MBC3 { rom_bank_select: 1, rom, ram_bank_select: 0, ram }
    }

    /// Loads a cartridge image: bank k of the ROM is the image's bytes from k * 0x4000;
    /// banks past the image read as zero.
    pub fn from_image(image: &Vec<u8>) -> (r: Result<MBC3, CartridgeError>)
        ensures
            r is Err <==> !valid_image(image@),
            r is Err ==> r == Err::<MBC3, CartridgeError>(CartridgeError::CartridgeFormat),
            r matches Ok(m) ==> {
                &&& m@.wf()
                &&& m@.rom_bank == 1
                &&& m@.ram_bank == 0
                &&& forall|i: int| 0 <= i < image@.len() ==> m@.rom[i] == image@[i]
                &&& forall|i: int| image@.len() <= i < m@.rom.len() ==> m@.rom[i] == 0
                &&& forall|i: int| 0 <= i < m@.ram.len() ==> m@.ram[i] == 0
            },
    {
        let len = image.len();
        if len == 0 || len % ROM_BANK_SIZE != 0 || len > ROM_BANK_SIZE * ROM_BANKS {
            return Err(CartridgeError::CartridgeFormat);
        }
        let t = image[CARTRIDGE_TYPE_OFFSET];
        if !(t == 0x11 || t == 0x12 || t == 0x13) {
            return Err(CartridgeError::CartridgeFormat);
        }
        let mut m = MBC3::new();
        let mut i: usize = 0;
        while i < len
            invariant
                len == image@.len(),
                len <= ROM_BANK_SIZE * ROM_BANKS,
                0 <= i <= len,
                m@.wf(),
                m@.rom_bank == 1,
                m@.ram_bank == 0,
                forall|j: int| 0 <= j < i ==> m@.rom[j] == image@[j],
                forall|j: int| i <= j < m@.rom.len() ==> m@.rom[j] == 0,
                forall|j: int| 0 <= j < m@.ram.len() ==> m@.ram[j] == 0,
            decreases len - i,
        {
            m.rom.set(i, image[i]);
            i = i + 1;
        }
        Ok(m)
    }

    pub fn read(&self, address: u16) -> (r: u8)
        requires
            self@.wf(),
            CartView::decodes(address),
        ensures
            r == self@.read(address),
    {
        if address < 0x4000 {
            self.rom[address as usize]
        } else if address < 0x8000 {
            let bank = self.rom_bank_select as usize;
            self.rom[bank * ROM_BANK_SIZE + (address as usize - 0x4000)]
        } else {
            let bank = self.ram_bank_select as usize;
            self.ram[bank * RAM_BANK_SIZE + (address as usize - 0xA000)]
        }
    }

    /// Writes in the ROM windows are control commands; writes in 0xA000..=0xBFFF store to RAM.
    pub fn write(&mut self, address: u16, value: u8) -> (r: Result<(), CartridgeError>)
        requires
            old(self)@.wf(),
        ensures
            final(self)@.wf(),
            r is Ok <==> CartView::decodes(address),
            r is Err ==> r == Err::<(), CartridgeError>(CartridgeError::InvalidAddress),
            final(self)@ == (if r is Ok { old(self)@.write(address, value) } else { old(self)@ }),
    {
        if address < 0x2000 {
            // RAM and clock enable latch: the RAM is always accessible here.
            Ok(())
        } else if address < 0x4000 {
            let bank = value & 0x7F;
            self.rom_bank_select = if bank == 0 {
                1
            } else {
                bank
            };
            proof {
                assert(bank <= 0x7F) by (bit_vector)
                    requires
                        bank == value & 0x7Fu8,
                ;
            }
            Ok(())
        } else if address < 0x6000 {
            if value < RAM_BANKS as u8 {
                self.ram_bank_select = value;
            }
            // 0x08..=0x0C would select a clock register, which this controller does not have.
            Ok(())
        } else if address < 0x8000 {
            // clock latch: no clock here
            Ok(())
        } else if 0xA000 <= address && address < 0xC000 {
            let bank = self.ram_bank_select as usize;
            self.ram.set(bank * RAM_BANK_SIZE + (address as usize - 0xA000), value);
            Ok(())
        } else {
            Err(CartridgeError::InvalidAddress)
        }
    }
}

/// A vector of `n` zero bytes.
pub fn zeroed(n: usize) -> (v: Vec<u8>)
    ensures
        v@ == Seq::new(n as nat, |i: int| 0u8),
{
    let mut v: Vec<u8> = Vec::with_capacity(n);
    let mut i: usize = 0;
    while i < n
        invariant
            0 <= i <= n,
            v@ == Seq::new(i as nat, |j: int| 0u8),
        decreases n - i,
    {
        v.push(0u8);
        i = i + 1;
        assert(v@ =~= Seq::new(i as nat, |j: int| 0u8));
    }
    v
}

} // verus!
