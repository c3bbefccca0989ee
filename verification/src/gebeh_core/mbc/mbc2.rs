use vstd::prelude::*;

use crate::gebeh_core::mbc::{copy_saved, get_factor_32_kib_rom, is_cartridge_address, lemma_rom_factor, loaded, rom_factor, Mbc, ROM_BANK_SIZE};

verus! {

/// MBC2: up to 256 KiB of ROM and 512 half-bytes of built-in RAM.
#[derive(Clone)]
pub struct Mbc2 {
    pub rom: Vec<u8>,
    /// Never zero.
    pub rom_bank: u8,
    pub ram: [u8; 0x200],
    pub ram_enabled: bool,
}

impl Mbc2 {
    pub open spec fn rom_bank_count(self) -> u8 {
        (2 * rom_factor(self.rom@[0x148])) as u8
    }

    pub open spec fn switchable_bank(self) -> u8 {
        self.rom_bank & ((self.rom_bank_count() - 1) as u8)
    }

    pub fn new(rom: Vec<u8>) -> (r: Self)
        requires
            rom@.len() > 0x148,
            rom@[0x148] <= 6,
        ensures
            r.wf(),
            r.rom@ == rom@,
            r.rom_bank == 1,
            r.ram@ == Seq::new(0x200, |i: int| 0u8),
            !r.ram_enabled,
    {
        let r = Mbc2 { rom, rom_bank: 1, ram: [0u8; 0x200], ram_enabled: false };
        assert(r.ram@ =~= Seq::new(0x200, |i: int| 0u8));
        r
    }

    fn get_rom_bank_count(&self) -> (r: u8)
        requires
            self.wf(),
        ensures
            r == self.rom_bank_count(),
            r >= 2,
    {
        proof {
            lemma_rom_factor(self.rom@[0x148]);
        }
        let factor = get_factor_32_kib_rom(self.rom.as_slice());
        (factor as u8) * 2
    }

    fn get_switchable_rom_offset(&self) -> (r: usize)
        requires
            self.wf(),
        ensures
            r == self.switchable_bank() * 0x4000,
    {
        let count = self.get_rom_bank_count();
        let bank = self.rom_bank & (count - 1);
        let b = bank as usize;
        assert(b <= 255);
        b * 0x4000
    }
}

impl Mbc for Mbc2 {
    open spec fn wf(&self) -> bool {
        &&& self.rom@.len() > 0x148
        &&& self.rom@[0x148] <= 6
        &&& self.rom_bank != 0
    }

    open spec fn readable(&self, address: u16) -> bool {
        &&& is_cartridge_address(address)
        &&& address < 0x4000 ==> address < self.rom@.len()
        &&& 0x4000 <= address < 0x8000 ==> self.switchable_bank() * 0x4000 + address - 0x4000
            < self.rom@.len()
    }

    open spec fn writable(&self, address: u16) -> bool {
        true
    }

    /// Citation: Only the bottom 9 bits of the address are used to index into the internal
    /// RAM, so RAM access repeats.
    open spec fn read_spec(&self, address: u16) -> u8 {
        if address < 0x4000 {
            self.rom@[address as int]
        } else if address < 0x8000 {
            self.rom@[self.switchable_bank() * 0x4000 + address - 0x4000]
        } else if !self.ram_enabled {
            0xff
        } else {
            self.ram@[((address - 0xa000) as u16 & 0x01ff) as int]
        }
    }

    /// https://gbdev.io/pandocs/MBC2.html#00003fff--ram-enable-rom-bank-number-write-only
    open spec fn write_post(&self, address: u16, value: u8, after: Self) -> bool {
        if address < 0x4000 {
            if address & 0x0100 == 0 {
                after == Mbc2 { ram_enabled: (value & 0x0f) == 0x0a, ..*self }
            } else {
                after == Mbc2 { rom_bank: if value & 0x0f == 0 { 1 } else { value & 0x0f }, ..*self }
            }
        } else if 0xa000 <= address < 0xc000 && self.ram_enabled {
            &&& after == Mbc2 { ram: after.ram, ..*self }
            &&& after.ram@ == self.ram@.update(((address - 0xa000) as u16 & 0x01ff) as int, value | 0xf0)
        } else {
            after == *self
        }
    }

    open spec fn saved_ram(&self) -> Option<Seq<u8>> {
        Some(self.ram@)
    }

    open spec fn load_saved_ram_post(&self, save: Seq<u8>, after: Self) -> bool {
        &&& after == Mbc2 { ram: after.ram, ..*self }
        &&& after.ram@ == loaded(self.ram@, save)
    }

    open spec fn load_additional_data_post(&self, data: Seq<u8>, after: Self) -> bool {
        after == *self
    }

    open spec fn rom_spec(&self) -> Seq<u8> {
        self.rom@
    }

    open spec fn additional_data_post(&self, buffer: Seq<u8>, after: Seq<u8>, written: usize) -> bool {
        after == buffer && written == 0
    }

    open spec fn additional_data_fits(&self, len: nat) -> bool {
        true
    }

    fn read(&self, index: u16) -> (r: u8) {
        if index < 0x4000 {
            self.rom[index as usize]
        } else if index < 0x8000 {
            let off = self.get_switchable_rom_offset();
            self.rom[off + index as usize - 0x4000]
        } else {
            if !self.ram_enabled {
                return 0xff;
            }
            let addr = (index - 0xa000) & 0x01ff;
            assert(addr < 0x200) by (bit_vector)
                requires
                    addr == (index - 0xa000) as u16 & 0x01ff,
            ;
            self.ram[addr as usize]
        }
    }

    fn write(&mut self, index: u16, value: u8) {
        if index < 0x4000 {
            if (index & 0x0100) == 0 {
                self.ram_enabled = (value & 0x0f) == 0x0a;
            } else {
                let bank = value & 0x0f;
                self.rom_bank = if bank == 0 { 1 } else { bank };
            }
        } else if 0xa000 <= index && index < 0xc000 {
            if !self.ram_enabled {
                return;
            }
            let addr = (index - 0xa000) & 0x01ff;
            assert(addr < 0x200) by (bit_vector)
                requires
                    addr == (index - 0xa000) as u16 & 0x01ff,
            ;
            self.ram[addr as usize] = value | 0xf0;
        }
    }

    fn load_saved_ram(&mut self, save: &[u8]) {
        copy_saved(&mut self.ram, save);
    }

    fn load_additional_data(&mut self, additional_data: &[u8]) {
    }

    fn get_ram_to_save(&self) -> (r: Option<&[u8]>) {
        Some(self.ram.as_slice())
    }

    fn get_rom(&self) -> (r: &[u8]) {
        self.rom.as_slice()
    }

    fn get_additional_data_to_save(&self, buffer: &mut [u8]) -> (r: usize) {
        0
    }
}


/// MBC2 RAM holds half-bytes: with RAM enabled a written value reads back with its upper
/// nibble set, the 512 half-bytes repeat over $A000-$BFFF, and the other half-bytes keep
/// their values.
pub proof fn lemma_ram_write_then_read(m: Mbc2, address: u16, value: u8, after: Mbc2, other: u16)
    requires
        m.wf(),
        m.ram_enabled,
        0xa000 <= address < 0xc000,
        0xa000 <= other < 0xc000,
        m.write_post(address, value, after),
    ensures
        after.read_spec(address) == value | 0xf0,
        (other - 0xa000) % 512 == (address - 0xa000) % 512 ==> after.read_spec(other) == value | 0xf0,
        (other - 0xa000) % 512 != (address - 0xa000) % 512 ==> after.read_spec(other) == m.read_spec(other),
{
    let a = (address - 0xa000) as u16;
    let o = (other - 0xa000) as u16;
    assert(a & 0x01ff == a % 512 && o & 0x01ff == o % 512) by (bit_vector);
}

} // verus!
