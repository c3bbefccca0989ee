//! Memory bank controllers after boytacean's.
use vstd::prelude::*;

use crate::gb_core::mbc::Mbc;
use crate::gb_core::{get_factor_32_kib_rom, get_factor_8_kib_ram};
use crate::gebeh_core::mbc::{lemma_rom_factor, ram_factor, rom_factor, valid_ram_code};

verus! {

#[derive(Clone, Copy, PartialEq, Eq, Structural, Debug)]
pub enum CartridgeType {
    RomOnly,
    Mbc1,
    Mbc1Ram,
    Mbc3RamBattery,
    Mbc5RamBattery,
}

pub open spec fn cartridge_type_of(value: u8) -> Result<CartridgeType, u8> {
    if value == 0 {
        Ok(CartridgeType::RomOnly)
    } else if value == 1 {
        Ok(CartridgeType::Mbc1)
    } else if value == 2 {
        Ok(CartridgeType::Mbc1Ram)
    } else if value == 0x13 {
        Ok(CartridgeType::Mbc3RamBattery)
    } else if value == 0x1b {
        Ok(CartridgeType::Mbc5RamBattery)
    } else {
        Err(value)
    }
}

impl TryFrom<u8> for CartridgeType {
    type Error = u8;

    fn try_from(value: u8) -> (r: Result<Self, Self::Error>) {
        match value {
            0 => Ok(Self::RomOnly),
            1 => Ok(Self::Mbc1),
            2 => Ok(Self::Mbc1Ram),
            0x13 => Ok(Self::Mbc3RamBattery),
            0x1b => Ok(Self::Mbc5RamBattery),
            _ => Err(value),
        }
    }
}

impl vstd::std_specs::convert::TryFromSpecImpl<u8> for CartridgeType {
    open spec fn obeys_try_from_spec() -> bool {
        true
    }

    open spec fn try_from_spec(v: u8) -> Result<Self, u8> {
        cartridge_type_of(v)
    }
}

pub const ROM_BANK_SIZE: u16 = 16384;

pub const RAM_BANK_SIZE: u16 = 8192;

/// A ROM with a header this library can read: size code at most 6 and a known RAM size code.
pub open spec fn valid_header(rom: Seq<u8>) -> bool {
    rom.len() > 0x149 && rom[0x148] <= 6 && valid_ram_code(rom[0x149])
}

/// MBC3 without clock.
#[derive(Clone)]
pub struct Mbc3 {
    pub rom: Vec<u8>,
    pub rom_offset: usize,
    /// 32 KiB.
    pub ram: [u8; 0x8000],
    pub ram_offset: u16,
    pub ram_enabled: bool,
    pub rom_bank_count: u8,
    pub ram_bank_count: u8,
}

impl Mbc3 {
    pub fn new(rom: Vec<u8>) -> (r: Self)
        requires
            valid_header(rom@),
        ensures
            r.wf(),
            r.rom@ == rom@,
            r.ram_bank_count == ram_factor(rom@[0x149]),
            r.rom_bank_count == 2 * rom_factor(rom@[0x148]),
            r.rom_offset == 0x4000,
            r.ram_offset == 0,
            r.ram@ == Seq::new(0x8000, |i: int| 0u8),
            !r.ram_enabled,
    {
        proof {
            lemma_rom_factor(rom@[0x148]);
        }
        let r = Mbc3 {
            ram_bank_count: get_factor_8_kib_ram(rom.as_slice()),
            rom_bank_count: (get_factor_32_kib_rom(rom.as_slice()) as u8) * 2,
            rom,
            rom_offset: 0x4000,
            ram_offset: 0,
            ram: [0u8; 0x8000],
            ram_enabled: false,
        };
        assert(r.ram@ =~= Seq::new(0x8000, |i: int| 0u8));
        r
    }

    /// Bank numbers from 8 up overflow the 16-bit offset.
    pub fn set_ram_bank(&mut self, ram_bank: u8)
        requires
            ram_bank < 8,
        ensures
            *final(self) == (Mbc3 { ram_offset: (ram_bank * 0x2000) as u16, ..*old(self) }),
    {
        self.ram_offset = (ram_bank as u16) * RAM_BANK_SIZE;
    }

    pub fn set_rom_bank(&mut self, rom_bank: u16)
        ensures
            *final(self) == (Mbc3 { rom_offset: (rom_bank * 0x4000) as usize, ..*old(self) }),
    {
        let b = rom_bank as usize;
        assert(b <= 0xffff);
        self.rom_offset = b * 0x4000;
    }

    /// The bank selected by a write of `value` to $2000-$3FFF.
    pub open spec fn selected_rom_bank(self, value: u8) -> int {
        let masked = (value as u16 & 0x7f) & ((self.rom_bank_count * 2 - 1) as u16);
        if masked == 0 { 1 } else { masked as int }
    }
}

impl Mbc for Mbc3 {
    open spec fn wf(&self) -> bool {
        &&& self.rom_bank_count >= 1
        &&& self.ram_offset <= 0x6000
        &&& self.rom_offset <= 0x3fffc000
    }

    open spec fn readable(&self, address: u16) -> bool {
        &&& address < 0x8000 || 0xa000 <= address < 0xc000
        &&& address < 0x4000 ==> address < self.rom@.len()
    }

    open spec fn writable(&self, address: u16, value: u8) -> bool {
        address < 0x6000 || 0xa000 <= address < 0xc000
    }

    open spec fn read_spec(&self, address: u16) -> u8 {
        if address < 0x4000 {
            self.rom@[address as int]
        } else if address < 0x8000 {
            let i = self.rom_offset + address - 0x4000;
            if i < self.rom@.len() { self.rom@[i] } else { 0 }
        } else if !self.ram_enabled {
            0xff
        } else {
            self.ram@[self.ram_offset + address - 0xa000]
        }
    }

    open spec fn write_post(&self, address: u16, value: u8, after: Self) -> bool {
        if address < 0x2000 {
            after == Mbc3 { ram_enabled: (value & 0x0f) == 0x0a, ..*self }
        } else if address < 0x4000 {
            after == Mbc3 { rom_offset: (self.selected_rom_bank(value) * 0x4000) as usize, ..*self }
        } else if address < 0x6000 {
            if value & 0x03 >= self.ram_bank_count {
                after == *self
            } else {
                after == Mbc3 { ram_offset: ((value & 0x03) * 0x2000) as u16, ..*self }
            }
        } else if !self.ram_enabled {
            after == *self
        } else {
            &&& after == Mbc3 { ram: after.ram, ..*self }
            &&& after.ram@ == self.ram@.update(self.ram_offset + address - 0xa000, value)
        }
    }

    fn read(&self, index: u16) -> (r: u8) {
        if index < 0x4000 {
            self.rom[index as usize]
        } else if index < 0x8000 {
            let i = self.rom_offset + (index - 0x4000) as usize;
            if i < self.rom.len() {
                self.rom[i]
            } else {
                0
            }
        } else {
            if !self.ram_enabled {
                return 0xff;
            }
            self.ram[self.ram_offset as usize + (index - 0xa000) as usize]
        }
    }

    fn write(&mut self, index: u16, value: u8) {
        if index < 0x2000 {
            self.ram_enabled = (value & 0x0f) == 0x0a;
        } else if index < 0x4000 {
            let mut rom_bank = value as u16 & 0x7f;
            rom_bank = rom_bank & ((self.rom_bank_count as u16) * 2 - 1);
            if rom_bank == 0 {
                rom_bank = 1;
            }
            self.set_rom_bank(rom_bank);
        } else if index < 0x6000 {
            let ram_bank = value & 0x03;
            proof {
                crate::bits::lemma_u8_and_bound(value, 0x03);
            }
            if ram_bank >= self.ram_bank_count {
                return;
            }
            self.set_ram_bank(ram_bank);
        } else {
            if !self.ram_enabled {
                return;
            }
            self.ram[self.ram_offset as usize + (index - 0xa000) as usize] = value;
        }
    }
}

/// MBC1.
#[derive(Clone)]
pub struct Mbc1 {
    pub rom: Vec<u8>,
    pub rom_offset: usize,
    /// 32 KiB.
    pub ram: [u8; 0x8000],
    pub ram_offset: u16,
    pub ram_enabled: bool,
    pub rom_bank_count: u8,
    pub ram_bank_count: u8,
}

impl Mbc1 {
    pub fn new(rom: Vec<u8>) -> (r: Self)
        requires
            valid_header(rom@),
        ensures
            r.wf(),
            r.rom@ == rom@,
            r.ram_bank_count == ram_factor(rom@[0x149]),
            r.rom_bank_count == 2 * rom_factor(rom@[0x148]),
            r.rom_offset == 0x4000,
            r.ram_offset == 0,
            r.ram@ == Seq::new(0x8000, |i: int| 0u8),
            !r.ram_enabled,
    {
        proof {
            lemma_rom_factor(rom@[0x148]);
        }
        let r = Mbc1 {
            rom_bank_count: (get_factor_32_kib_rom(rom.as_slice()) as u8) * 2,
            ram_bank_count: get_factor_8_kib_ram(rom.as_slice()),
            rom,
            rom_offset: 0x4000,
            ram_offset: 0,
            ram: [0u8; 0x8000],
            ram_enabled: false,
        };
        assert(r.ram@ =~= Seq::new(0x8000, |i: int| 0u8));
        r
    }

    pub fn set_rom_bank(&mut self, rom_bank: u8)
        ensures
            *final(self) == (Mbc1 { rom_offset: (rom_bank * 0x4000) as usize, ..*old(self) }),
    {
        let b = rom_bank as usize;
        assert(b <= 0xffff);
        self.rom_offset = b * 0x4000;
    }

    /// Bank numbers from 8 up overflow the 16-bit offset.
    pub fn set_ram_bank(&mut self, ram_bank: u8)
        requires
            ram_bank < 8,
        ensures
            *final(self) == (Mbc1 { ram_offset: (ram_bank * 0x2000) as u16, ..*old(self) }),
    {
        self.ram_offset = (ram_bank as u16) * RAM_BANK_SIZE;
    }

    pub open spec fn selected_rom_bank(self, value: u8) -> int {
        let masked = (value & 0x1f) & ((self.rom_bank_count * 2 - 1) as u8);
        if masked == 0 { 1 } else { masked as int }
    }
}

impl Mbc for Mbc1 {
    open spec fn wf(&self) -> bool {
        &&& self.rom_bank_count >= 1
        &&& self.ram_offset <= 0x6000
        &&& self.rom_offset <= 0x3fc000
    }

    /// The switchable bank needs an offset of at least one bank.
    open spec fn readable(&self, address: u16) -> bool {
        &&& address < 0x8000 || 0xa000 <= address < 0xc000
        &&& address < 0x4000 ==> address < self.rom@.len()
        &&& 0x4000 <= address < 0x8000 ==> self.rom_offset >= 0x4000 && self.rom_offset - 0x4000 + address
            < self.rom@.len()
    }

    /// Writes to $6000-$7FFF and to disabled RAM fail, as does selecting a ROM bank when the
    /// doubled bank count overflows a byte.
    open spec fn writable(&self, address: u16, value: u8) -> bool {
        &&& address < 0x6000 || 0xa000 <= address < 0xc000
        &&& 0x2000 <= address < 0x4000 ==> self.rom_bank_count * 2 <= 255
        &&& 0xa000 <= address ==> self.ram_enabled
    }

    /// External RAM is read whether or not it is enabled, at index `ram_offset + (address -
    /// $A000)` of the 32 KiB RAM. That index is a whole number below $8000: it is not formed in
    /// 16-bit arithmetic, whose intermediate `ram_offset - $A000` would wrap around.
    open spec fn read_spec(&self, address: u16) -> u8 {
        if address < 0x4000 {
            self.rom@[address as int]
        } else if address < 0x8000 {
            self.rom@[self.rom_offset - 0x4000 + address]
        } else {
            self.ram@[self.ram_offset + address - 0xa000]
        }
    }

    /// A RAM write goes to index `ram_offset + (address - $A000)`, a whole number below $8000;
    /// with bank 3 selected the 16-bit sum `ram_offset + address` would pass $FFFF, so it is not
    /// formed.
    open spec fn write_post(&self, address: u16, value: u8, after: Self) -> bool {
        if address < 0x2000 {
            after == Mbc1 { ram_enabled: (value & 0x0f) == 0x0a, ..*self }
        } else if address < 0x4000 {
            after == Mbc1 { rom_offset: (self.selected_rom_bank(value) * 0x4000) as usize, ..*self }
        } else if address < 0x6000 {
            if value & 0x03 >= self.ram_bank_count {
                after == *self
            } else {
                after == Mbc1 { ram_offset: ((value & 0x03) * 0x2000) as u16, ..*self }
            }
        } else {
            &&& after == Mbc1 { ram: after.ram, ..*self }
            &&& after.ram@ == self.ram@.update(self.ram_offset + address - 0xa000, value)
        }
    }

    fn read(&self, index: u16) -> (r: u8) {
        if index < 0x4000 {
            self.rom[index as usize]
        } else if index < 0x8000 {
            self.rom[self.rom_offset - 0x4000 + index as usize]
        } else {
            self.ram[self.ram_offset as usize + (index - 0xa000) as usize]
        }
    }

    fn write(&mut self, index: u16, value: u8) {
        if index < 0x2000 {
            self.ram_enabled = (value & 0x0f) == 0x0a;
        } else if index < 0x4000 {
            let mask = self.rom_bank_count * 2 - 1;
            let mut rom_bank = value & 0x1f;
            rom_bank = rom_bank & mask;
            proof {
                crate::bits::lemma_u8_and_bound(value, 0x1f);
                crate::bits::lemma_u8_and_bound(value & 0x1f, mask);
            }
            if rom_bank == 0 {
                rom_bank = 1;
            }
            self.set_rom_bank(rom_bank);
        } else if index < 0x6000 {
            let ram_bank = value & 0x03;
            proof {
                crate::bits::lemma_u8_and_bound(value, 0x03);
            }
            if ram_bank >= self.ram_bank_count {
                return;
            }
            self.set_ram_bank(ram_bank);
        } else {
            self.ram[self.ram_offset as usize + (index - 0xa000) as usize] = value;
        }
    }
}

/// MBC5.
#[derive(Clone)]
pub struct Mbc5 {
    pub rom: Vec<u8>,
    pub rom_offset: usize,
    /// 128 KiB.
    pub ram: [u8; 0x20000],
    pub ram_offset: u16,
    pub ram_enabled: bool,
    pub ram_bank_count: u8,
}

impl Mbc5 {
    pub fn new(rom: Vec<u8>) -> (r: Self)
        requires
            rom@.len() > 0x149,
            valid_ram_code(rom@[0x149]),
        ensures
            r.wf(),
            r.rom@ == rom@,
            r.ram_bank_count == ram_factor(rom@[0x149]),
            r.rom_offset == 0x4000,
            r.ram_offset == 0,
            r.ram@ == Seq::new(0x20000, |i: int| 0u8),
            !r.ram_enabled,
    {
        let r = Mbc5 {
            ram_bank_count: get_factor_8_kib_ram(rom.as_slice()),
            rom,
            rom_offset: 0x4000,
            ram_offset: 0,
            ram: [0u8; 0x20000],
            ram_enabled: false,
        };
        assert(r.ram@ =~= Seq::new(0x20000, |i: int| 0u8));
        r
    }

    pub fn set_rom_bank(&mut self, rom_bank: u16)
        ensures
            *final(self) == (Mbc5 { rom_offset: (rom_bank * 0x4000) as usize, ..*old(self) }),
    {
        let b = rom_bank as usize;
        assert(b <= 0xffff);
        self.rom_offset = b * 0x4000;
    }

    /// Bank numbers from 8 up overflow the 16-bit offset.
    pub fn set_ram_bank(&mut self, ram_bank: u8)
        requires
            ram_bank < 8,
        ensures
            *final(self) == (Mbc5 { ram_offset: (ram_bank * 0x2000) as u16, ..*old(self) }),
    {
        self.ram_offset = (ram_bank as u16) * RAM_BANK_SIZE;
    }

    pub fn rom_bank(&self) -> (r: u16)
        requires
            self.wf(),
        ensures
            r == self.rom_offset / 0x4000,
    {
        (self.rom_offset / (ROM_BANK_SIZE as usize)) as u16
    }
}

impl Mbc for Mbc5 {
    /// The offset is a multiple of a bank below bank $10000.
    open spec fn wf(&self) -> bool {
        &&& self.ram_offset <= 0xe000
        &&& self.rom_offset % 0x4000 == 0
        &&& self.rom_offset <= 0x3fffc000
    }

    open spec fn readable(&self, address: u16) -> bool {
        &&& address < 0x4000 ==> address < self.rom@.len()
        &&& 0x4000 <= address < 0x8000 ==> self.rom_offset + address - 0x4000 < self.rom@.len()
    }

    /// Selecting a RAM bank from 8 up that the header announces overflows the offset.
    open spec fn writable(&self, address: u16, value: u8) -> bool {
        &&& 0x4000 <= address < 0x6000 && (value & 0x0f) < self.ram_bank_count ==> (value & 0x0f) < 8
        &&& 0xa000 <= address < 0xc000 && self.ram_enabled ==> self.ram_offset + address - 0xa000 < 0x20000
    }

    open spec fn read_spec(&self, address: u16) -> u8 {
        if address < 0x4000 {
            self.rom@[address as int]
        } else if address < 0x8000 {
            self.rom@[self.rom_offset + address - 0x4000]
        } else if 0xa000 <= address < 0xc000 && self.ram_enabled {
            self.ram@[self.ram_offset + address - 0xa000]
        } else {
            0xff
        }
    }

    open spec fn write_post(&self, address: u16, value: u8, after: Self) -> bool {
        if address < 0x2000 {
            after == Mbc5 { ram_enabled: (value & 0x0f) == 0x0a, ..*self }
        } else if address < 0x3000 {
            after == Mbc5 { rom_offset: (value * 0x4000) as usize, ..*self }
        } else if address < 0x4000 {
            after == Mbc5 {
                rom_offset: (((self.rom_offset / 0x4000) % 256 + (value & 1) * 256) * 0x4000) as usize,
                ..*self
            }
        } else if address < 0x6000 {
            if value & 0x0f >= self.ram_bank_count {
                after == *self
            } else {
                after == Mbc5 { ram_offset: ((value & 0x0f) * 0x2000) as u16, ..*self }
            }
        } else if 0xa000 <= address < 0xc000 && self.ram_enabled {
            &&& after == Mbc5 { ram: after.ram, ..*self }
            &&& after.ram@ == self.ram@.update(self.ram_offset + address - 0xa000, value)
        } else {
            after == *self
        }
    }

    fn read(&self, index: u16) -> (r: u8) {
        if index < 0x4000 {
            self.rom[index as usize]
        } else if index < 0x8000 {
            self.rom[self.rom_offset + (index - 0x4000) as usize]
        } else if 0xa000 <= index && index < 0xc000 {
            if !self.ram_enabled {
                return 0xff;
            }
            self.ram[self.ram_offset as usize + (index - 0xa000) as usize]
        } else {
            0xff
        }
    }

    fn write(&mut self, index: u16, value: u8) {
        if index < 0x2000 {
            self.ram_enabled = (value & 0x0f) == 0x0a;
        } else if index < 0x3000 {
            self.set_rom_bank(value as u16);
        } else if index < 0x4000 {
            let bank = self.rom_bank();
            let low = bank & 0x00ff;
            let bit = value & 0x01;
            assert(low == bank % 256 && bit == value % 2) by (bit_vector)
                requires
                    low == bank & 0x00ff,
                    bit == value & 0x01,
            ;
            let b16 = bit as u16;
            assert(b16 << 8 == b16 * 256 && b16 <= 1) by (bit_vector)
                requires
                    b16 == (value & 0x01) as u16,
            ;
            let rom_bank = low + (b16 << 8);
            self.set_rom_bank(rom_bank);
        } else if index < 0x6000 {
            let ram_bank = value & 0x0f;
            if ram_bank >= self.ram_bank_count {
                return;
            }
            self.set_ram_bank(ram_bank);
        } else if 0xa000 <= index && index < 0xc000 {
            if !self.ram_enabled {
                return;
            }
            self.ram[self.ram_offset as usize + (index - 0xa000) as usize] = value;
        }
    }
}


/// With external RAM enabled, a byte written there reads back, and every other external RAM
/// address keeps its byte.
pub proof fn lemma_mbc1_ram_write_then_read(m: Mbc1, address: u16, value: u8, after: Mbc1, other: u16)
    requires
        m.wf(),
        m.ram_enabled,
        0xa000 <= address < 0xc000,
        0xa000 <= other < 0xc000,
        other != address,
        m.write_post(address, value, after),
    ensures
        after.read_spec(address) == value,
        after.read_spec(other) == m.read_spec(other),
{
}

/// With external RAM enabled, a byte written there reads back, and every other external RAM
/// address keeps its byte.
pub proof fn lemma_mbc3_ram_write_then_read(m: Mbc3, address: u16, value: u8, after: Mbc3, other: u16)
    requires
        m.wf(),
        m.ram_enabled,
        0xa000 <= address < 0xc000,
        0xa000 <= other < 0xc000,
        other != address,
        m.write_post(address, value, after),
    ensures
        after.read_spec(address) == value,
        after.read_spec(other) == m.read_spec(other),
{
}

/// With external RAM enabled, a byte written there reads back, and every other external RAM
/// address keeps its byte.
pub proof fn lemma_mbc5_ram_write_then_read(m: Mbc5, address: u16, value: u8, after: Mbc5, other: u16)
    requires
        m.wf(),
        m.ram_enabled,
        0xa000 <= address < 0xc000,
        0xa000 <= other < 0xc000,
        other != address,
        m.write_post(address, value, after),
    ensures
        after.read_spec(address) == value,
        after.read_spec(other) == m.read_spec(other),
{
}

} // verus!
