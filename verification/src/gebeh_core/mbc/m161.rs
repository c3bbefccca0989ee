//! https://gbdev.io/pandocs/M161.html
use vstd::prelude::*;

use crate::gebeh_core::mbc::{is_cartridge_address, Mbc};

verus! {

/// M161: switches the whole 32 KiB ROM area once; later writes are ignored.
#[derive(Clone)]
pub struct M161 {
    pub rom: Vec<u8>,
    pub rom_bank: u8,
    pub disable_bank_switch: bool,
}

impl M161 {
    pub fn new(rom: Vec<u8>) -> (r: Self)
        ensures
            r.rom@ == rom@,
            r.rom_bank == 0,
            !r.disable_bank_switch,
    {
        M161 { rom, rom_bank: 0, disable_bank_switch: false }
    }
}

impl Mbc for M161 {
    open spec fn wf(&self) -> bool {
        true
    }

    open spec fn readable(&self, address: u16) -> bool {
        &&& is_cartridge_address(address)
        &&& address < 0x8000 ==> self.rom_bank * 0x8000 + address < self.rom@.len()
    }

    open spec fn writable(&self, address: u16) -> bool {
        is_cartridge_address(address)
    }

    open spec fn read_spec(&self, address: u16) -> u8 {
        if address < 0x8000 {
            self.rom@[self.rom_bank * 0x8000 + address]
        } else {
            0xff
        }
    }

    open spec fn write_post(&self, address: u16, value: u8, after: Self) -> bool {
        if address < 0x8000 && !self.disable_bank_switch {
            after == M161 { rom_bank: value & 0x07, disable_bank_switch: true, ..*self }
        } else {
            after == *self
        }
    }

    open spec fn saved_ram(&self) -> Option<Seq<u8>> {
        None
    }

    open spec fn load_saved_ram_post(&self, save: Seq<u8>, after: Self) -> bool {
        after == *self
    }

    open spec fn load_additional_data_post(&self, data: Seq<u8>, after: Self) -> bool {
        after == *self
    }

    open spec fn rom_spec(&self) -> Seq<u8> {
        self.rom@
    }

    open spec fn additional_data_post(&self, buffer: Seq<u8>, after: Seq<u8>, written: usize) -> bool {
        after == buffer && written == 0
    }

    open spec fn additional_data_fits(&self, len: nat) -> bool {
        true
    }

    fn read(&self, index: u16) -> (r: u8) {
        if index < 0x8000 {
            self.rom[(self.rom_bank as usize) * 0x8000 + index as usize]
        } else {
            0xff
        }
    }

    fn write(&mut self, index: u16, value: u8) {
        if index < 0x8000 {
            if self.disable_bank_switch {
                return;
            }
            self.rom_bank = value & 0x07;
            self.disable_bank_switch = true;
        }
    }

    fn load_saved_ram(&mut self, save: &[u8]) {
    }

    fn load_additional_data(&mut self, additional_data: &[u8]) {
    }

    fn get_ram_to_save(&self) -> (r: Option<&[u8]>) {
        None
    }

    fn get_rom(&self) -> (r: &[u8]) {
        self.rom.as_slice()
    }

    fn get_additional_data_to_save(&self, buffer: &mut [u8]) -> (r: usize) {
        0
    }
}

} // verus!
