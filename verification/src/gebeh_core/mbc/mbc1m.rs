use vstd::prelude::*;

use crate::gebeh_core::mbc::mbc1::BankingMode;
use crate::gebeh_core::mbc::{copy_saved, get_factor_8_kib_ram, is_cartridge_address, loaded, ram_factor, valid_ram_code, Mbc, RAM_BANK_SIZE};

verus! {

/// MBC1 wired for multi-game cartridges: the two-bit register selects a 256 KiB game.
#[derive(Clone)]
pub struct Mbc1M {
    pub rom: Vec<u8>,
    /// Never zero.
    pub rom_bank: u8,
    pub advanced_bank: u8,
    /// 32 KiB.
    pub ram: [u8; 0x8000],
    pub ram_enabled: bool,
    pub banking_mode: BankingMode,
}

impl Mbc1M {
    pub open spec fn ram_offset_spec(self) -> int {
        if self.banking_mode == BankingMode::Advanced && ram_factor(self.rom@[0x149]) == 4 {
            self.advanced_bank * 0x2000
        } else {
            0
        }
    }

    /// The ROM byte read at `address` < $8000.
    pub open spec fn rom_index(self, address: u16) -> int {
        if address < 0x4000 {
            if self.banking_mode == BankingMode::Simple {
                address as int
            } else {
                self.advanced_bank * 0x40000 + address
            }
        } else {
            self.advanced_bank * 0x40000 + (self.rom_bank & 0x0f) * 0x4000 + (address - 0x4000)
        }
    }

    pub fn new(rom: Vec<u8>) -> (r: Self)
        requires
            rom@.len() > 0x149,
            valid_ram_code(rom@[0x149]),
        ensures
            r.wf(),
            r.rom@ == rom@,
            r.rom_bank == 1,
            r.advanced_bank == 0,
            r.ram@ == Seq::new(0x8000, |i: int| 0u8),
            !r.ram_enabled,
            r.banking_mode == BankingMode::Simple,
    {
        let r = Mbc1M {
            rom,
            rom_bank: 1,
            advanced_bank: 0,
            ram: [0u8; 0x8000],
            ram_enabled: false,
            banking_mode: BankingMode::Simple,
        };
        assert(r.ram@ =~= Seq::new(0x8000, |i: int| 0u8));
        r
    }

    fn get_ram_bank_count(&self) -> (r: u8)
        requires
            self.wf(),
        ensures
            r == ram_factor(self.rom@[0x149]),
    {
        get_factor_8_kib_ram(self.rom.as_slice())
    }

    fn get_ram_offset(&self) -> (r: usize)
        requires
            self.wf(),
        ensures
            r == self.ram_offset_spec(),
            r + 0x2000 <= 0x8000,
    {
        if self.banking_mode == BankingMode::Advanced && self.get_ram_bank_count() == 4 {
            (self.advanced_bank as usize) * (RAM_BANK_SIZE as usize)
        } else {
            0
        }
    }
}

impl Mbc for Mbc1M {
    open spec fn wf(&self) -> bool {
        &&& self.rom@.len() > 0x149
        &&& valid_ram_code(self.rom@[0x149])
        &&& 1 <= self.rom_bank <= 0x1f
        &&& self.advanced_bank <= 3
    }

    open spec fn readable(&self, address: u16) -> bool {
        &&& is_cartridge_address(address)
        &&& address < 0x8000 ==> self.rom_index(address) < self.rom@.len()
    }

    open spec fn writable(&self, address: u16) -> bool {
        is_cartridge_address(address)
    }

    open spec fn read_spec(&self, address: u16) -> u8 {
        if address < 0x8000 {
            self.rom@[self.rom_index(address)]
        } else if !self.ram_enabled {
            0xff
        } else {
            self.ram@[self.ram_offset_spec() + address - 0xa000]
        }
    }

    open spec fn write_post(&self, address: u16, value: u8, after: Self) -> bool {
        if address < 0x2000 {
            after == Mbc1M { ram_enabled: (value & 0x0f) == 0x0a, ..*self }
        } else if address < 0x4000 {
            after == Mbc1M { rom_bank: if value & 0x1f == 0 { 1 } else { value & 0x1f }, ..*self }
        } else if address < 0x6000 {
            after == Mbc1M { advanced_bank: value & 0x03, ..*self }
        } else if address < 0x8000 {
            after == Mbc1M {
                banking_mode: if value & 1 == 0 { BankingMode::Simple } else { BankingMode::Advanced },
                ..*self
            }
        } else if !self.ram_enabled {
            after == *self
        } else {
            &&& after == Mbc1M { ram: after.ram, ..*self }
            &&& after.ram@ == self.ram@.update(self.ram_offset_spec() + address - 0xa000, value)
        }
    }

    open spec fn saved_ram(&self) -> Option<Seq<u8>> {
        Some(self.ram@)
    }

    open spec fn load_saved_ram_post(&self, save: Seq<u8>, after: Self) -> bool {
        &&& after == Mbc1M { ram: after.ram, ..*self }
        &&& after.ram@ == loaded(self.ram@, save)
    }

    open spec fn load_additional_data_post(&self, data: Seq<u8>, after: Self) -> bool {
        after == *self
    }

    open spec fn rom_spec(&self) -> Seq<u8> {
        self.rom@
    }

    open spec fn additional_data_post(&self, buffer: Seq<u8>, after: Seq<u8>, written: usize) -> bool {
        after == buffer && written == 0
    }

    open spec fn additional_data_fits(&self, len: nat) -> bool {
        true
    }

    fn read(&self, index: u16) -> (r: u8) {
        if index < 0x4000 {
            match self.banking_mode {
                BankingMode::Simple => self.rom[index as usize],
                BankingMode::Advanced => {
                    let ab = self.advanced_bank as usize;
                    let i = index as usize;
                    assert((ab << 18) | i == ab * 0x40000 + i) by (bit_vector)
                        requires
                            ab <= 3,
                            i < 0x4000,
                    ;
                    self.rom[(ab << 18) | i]
                },
            }
        } else if index < 0x8000 {
            let ab = self.advanced_bank as usize;
            let rbr = self.rom_bank;
            let rb8 = rbr & 0x0f;
            assert(rb8 <= 15) by (bit_vector)
                requires
                    rb8 == rbr & 0x0f,
            ;
            let rb = rb8 as usize;
            let i = index as usize - 0x4000;
            assert(((ab << 18) | (rb << 14) | i) == ab * 0x40000 + rb * 0x4000 + i) by (bit_vector)
                requires
                    ab <= 3,
                    rb <= 15,
                    i < 0x4000,
            ;
            self.rom[(ab << 18) | (rb << 14) | i]
        } else {
            if !self.ram_enabled {
                return 0xff;
            }
            let off = self.get_ram_offset();
            self.ram[off + index as usize - 0xa000]
        }
    }

    fn write(&mut self, index: u16, value: u8) {
        if index < 0x2000 {
            self.ram_enabled = (value & 0x0f) == 0x0a;
        } else if index < 0x4000 {
            let bank = value & 0x1f;
            assert(bank <= 0x1f) by (bit_vector)
                requires
                    bank == value & 0x1f,
            ;
            self.rom_bank = if bank == 0 { 1 } else { bank };
        } else if index < 0x6000 {
            proof {
                crate::bits::lemma_u8_and_bound(value, 0x03);
            }
            self.advanced_bank = value & 0x03;
        } else if index < 0x8000 {
            self.banking_mode = if value & 1 == 0 { BankingMode::Simple } else { BankingMode::Advanced };
        } else {
            if !self.ram_enabled {
                return;
            }
            let off = self.get_ram_offset();
            self.ram[off + index as usize - 0xa000] = value;
        }
    }

    fn load_saved_ram(&mut self, save: &[u8]) {
        copy_saved(&mut self.ram, save);
    }

    fn load_additional_data(&mut self, additional_data: &[u8]) {
    }

    fn get_ram_to_save(&self) -> (r: Option<&[u8]>) {
        Some(self.ram.as_slice())
    }

    fn get_rom(&self) -> (r: &[u8]) {
        self.rom.as_slice()
    }

    fn get_additional_data_to_save(&self, buffer: &mut [u8]) -> (r: usize) {
        0
    }
}


/// With external RAM enabled, a byte written there reads back, and every other external RAM
/// address keeps its byte.
pub proof fn lemma_ram_write_then_read(m: Mbc1M, address: u16, value: u8, after: Mbc1M, other: u16)
    requires
        m.wf(),
        m.ram_enabled,
        0xa000 <= address < 0xc000,
        0xa000 <= other < 0xc000,
        other != address,
        m.write_post(address, value, after),
    ensures
        after.read_spec(address) == value,
        after.read_spec(other) == m.read_spec(other),
{
}

/// Writing $xA to $0000-$1FFF enables external RAM and any other low nibble disables it; while
/// disabled, external RAM reads $FF.
pub proof fn lemma_ram_gate(m: Mbc1M, address: u16, value: u8, after: Mbc1M, other: u16)
    requires
        m.wf(),
        address < 0x2000,
        m.write_post(address, value, after),
        0xa000 <= other < 0xc000,
    ensures
        after.ram_enabled == ((value & 0x0f) == 0x0a),
        !after.ram_enabled ==> after.read_spec(other) == 0xff,
{
}

} // verus!
