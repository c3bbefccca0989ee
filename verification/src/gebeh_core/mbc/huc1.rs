use vstd::prelude::*;

use crate::gebeh_core::mbc::{copy_saved, is_cartridge_address, loaded, Mbc};

verus! {

#[derive(Clone, Copy, PartialEq, Eq, Structural)]
pub enum Mode {
    Ram,
    /// Infrared port mapped at $A000-$BFFF.
    Ir,
}

/// HuC1: MBC1-like banking with an infrared port in place of RAM when selected.
#[derive(Clone)]
pub struct Huc1 {
    pub rom: Vec<u8>,
    pub rom_bank: u8,
    pub ram_bank: u8,
    pub mode: Mode,
    /// 32 KiB.
    pub ram: [u8; 0x8000],
}

impl Huc1 {
    pub fn new(rom: Vec<u8>) -> (r: Self)
        ensures
            r.rom@ == rom@,
            r.rom_bank == 0,
            r.ram_bank == 0,
            r.mode == Mode::Ram,
            r.ram@ == Seq::new(0x8000, |i: int| 0u8),
    {
        let r = Huc1 { rom, rom_bank: 0, ram_bank: 0, mode: Mode::Ram, ram: [0u8; 0x8000] };
        assert(r.ram@ =~= Seq::new(0x8000, |i: int| 0u8));
        r
    }

    fn get_ram_offset(&self) -> (r: usize)
        ensures
            r == self.ram_bank * 0x2000,
    {
        0x2000 * (self.ram_bank as usize)
    }

    fn get_rom_offset(&self) -> (r: usize)
        ensures
            r == self.rom_bank * 0x4000,
    {
        0x4000 * (self.rom_bank as usize)
    }

    fn read_external_ram(&self, index: u16) -> (r: u8)
        requires
            0xa000 <= index,
            self.ram_bank * 0x2000 + index - 0xa000 < 0x8000,
        ensures
            r == self.ram@[self.ram_bank * 0x2000 + index - 0xa000],
    {
        self.ram[self.get_ram_offset() + index as usize - 0xa000]
    }

    fn write_external_ram(&mut self, index: u16, value: u8)
        requires
            0xa000 <= index,
            old(self).ram_bank * 0x2000 + index - 0xa000 < 0x8000,
        ensures
            *final(self) == (Huc1 { ram: final(self).ram, ..*old(self) }),
            final(self).ram@ == old(self).ram@.update(old(self).ram_bank * 0x2000 + index - 0xa000, value),
    {
        let off = self.get_ram_offset();
        self.ram[off + index as usize - 0xa000] = value;
    }
}

impl Mbc for Huc1 {
    open spec fn wf(&self) -> bool {
        true
    }

    open spec fn readable(&self, address: u16) -> bool {
        &&& is_cartridge_address(address)
        &&& address < 0x4000 ==> address < self.rom@.len()
        &&& 0x4000 <= address < 0x8000 ==> self.rom_bank * 0x4000 + address - 0x4000 < self.rom@.len()
        &&& 0xa000 <= address && self.mode == Mode::Ram ==> self.ram_bank * 0x2000 + address - 0xa000
            < 0x8000
    }

    open spec fn writable(&self, address: u16) -> bool {
        &&& is_cartridge_address(address)
        &&& 0xa000 <= address && self.mode == Mode::Ram ==> self.ram_bank * 0x2000 + address - 0xa000
            < 0x8000
    }

    open spec fn read_spec(&self, address: u16) -> u8 {
        if address < 0x4000 {
            self.rom@[address as int]
        } else if address < 0x8000 {
            self.rom@[self.rom_bank * 0x4000 + address - 0x4000]
        } else if self.mode == Mode::Ir {
            0xc0
        } else {
            self.ram@[self.ram_bank * 0x2000 + address - 0xa000]
        }
    }

    open spec fn write_post(&self, address: u16, value: u8, after: Self) -> bool {
        if address < 0x2000 {
            after == Huc1 { mode: if value == 0x0e { Mode::Ir } else { Mode::Ram }, ..*self }
        } else if address < 0x4000 {
            after == Huc1 { rom_bank: value, ..*self }
        } else if address < 0x6000 {
            after == Huc1 { ram_bank: value, ..*self }
        } else if address < 0x8000 || self.mode == Mode::Ir {
            after == *self
        } else {
            &&& after == Huc1 { ram: after.ram, ..*self }
            &&& after.ram@ == self.ram@.update(self.ram_bank * 0x2000 + address - 0xa000, value)
        }
    }

    open spec fn saved_ram(&self) -> Option<Seq<u8>> {
        Some(self.ram@)
    }

    open spec fn load_saved_ram_post(&self, save: Seq<u8>, after: Self) -> bool {
        &&& after == Huc1 { ram: after.ram, ..*self }
        &&& after.ram@ == loaded(self.ram@, save)
    }

    open spec fn load_additional_data_post(&self, data: Seq<u8>, after: Self) -> bool {
        after == *self
    }

    open spec fn rom_spec(&self) -> Seq<u8> {
        self.rom@
    }

    open spec fn additional_data_post(&self, buffer: Seq<u8>, after: Seq<u8>, written: usize) -> bool {
        after == buffer && written == 0
    }

    open spec fn additional_data_fits(&self, len: nat) -> bool {
        true
    }

    fn read(&self, index: u16) -> (r: u8) {
        if index < 0x4000 {
            self.rom[index as usize]
        } else if index < 0x8000 {
            self.rom[self.get_rom_offset() + index as usize - 0x4000]
        } else {
            match self.mode {
                Mode::Ir => 0xc0,
                Mode::Ram => self.read_external_ram(index),
            }
        }
    }

    fn write(&mut self, index: u16, value: u8) {
        if index < 0x2000 {
            self.mode = if value == 0x0e { Mode::Ir } else { Mode::Ram };
        } else if index < 0x4000 {
            self.rom_bank = value;
        } else if index < 0x6000 {
            self.ram_bank = value;
        } else if index < 0x8000 {
        } else {
            if self.mode == Mode::Ram {
                self.write_external_ram(index, value);
            }
        }
    }

    fn load_saved_ram(&mut self, save: &[u8]) {
        copy_saved(&mut self.ram, save);
    }

    fn load_additional_data(&mut self, additional_data: &[u8]) {
    }

    fn get_ram_to_save(&self) -> (r: Option<&[u8]>) {
        Some(self.ram.as_slice())
    }

    fn get_rom(&self) -> (r: &[u8]) {
        self.rom.as_slice()
    }

    fn get_additional_data_to_save(&self, buffer: &mut [u8]) -> (r: usize) {
        0
    }
}


/// In RAM mode a byte written to external RAM reads back, and every other external RAM
/// address keeps its byte.
pub proof fn lemma_ram_write_then_read(m: Huc1, address: u16, value: u8, after: Huc1, other: u16)
    requires
        m.wf(),
        m.mode == Mode::Ram,
        0xa000 <= address < 0xc000,
        0xa000 <= other < 0xc000,
        other != address,
        m.ram_bank * 0x2000 + address - 0xa000 < 0x8000,
        m.write_post(address, value, after),
    ensures
        after.read_spec(address) == value,
        after.read_spec(other) == m.read_spec(other),
{
}

} // verus!
