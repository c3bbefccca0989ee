use vstd::prelude::*;

use crate::gebeh_core::mbc::{
    copy_saved, get_factor_32_kib_rom, get_factor_8_kib_ram, is_cartridge_address, lemma_rom_factor, loaded,
    ram_factor, rom_factor, valid_ram_code, Mbc, RAM_BANK_SIZE, ROM_BANK_SIZE,
};

verus! {

#[derive(Clone, Copy, PartialEq, Eq, Structural)]
pub enum BankingMode {
    Simple,
    Advanced,
}

/// MBC1: up to 2 MiB of ROM and 32 KiB of RAM.
#[derive(Clone)]
pub struct Mbc1 {
    pub rom: Vec<u8>,
    pub rom_bank: u8,
    pub advanced_bank: u8,
    /// 32 KiB.
    pub ram: [u8; 0x8000],
    pub ram_enabled: bool,
    pub banking_mode: BankingMode,
}

/// A ROM whose header this controller can serve: header present, size code at most 6
/// (2 MiB), a known RAM size code, and as many bytes as the header announces.
pub open spec fn valid_mbc1_rom(rom: Seq<u8>) -> bool {
    &&& rom.len() > 0x149
    &&& rom[0x148] <= 6
    &&& valid_ram_code(rom[0x149])
    &&& rom.len() >= 0x8000 * rom_factor(rom[0x148])
}

impl Mbc1 {
    pub open spec fn ram_bank_count(self) -> u8 {
        ram_factor(self.rom@[0x149])
    }

    pub open spec fn rom_bank_count(self) -> u8 {
        (2 * rom_factor(self.rom@[0x148])) as u8
    }

    pub open spec fn upper_bits(self) -> u8 {
        if self.rom_bank_count() == 128 {
            self.advanced_bank
        } else if self.rom_bank_count() == 64 {
            self.advanced_bank & 1
        } else {
            0
        }
    }

    /// Citation: If this register is set to $00, it behaves as if it is set to $01 [...] If
    /// the ROM Bank Number is set to a higher value than the number of banks in the cart,
    /// the bank number is masked to the required number of bits.
    pub open spec fn switchable_bank(self) -> u8 {
        (self.upper_bits() << 5) | ((if self.rom_bank == 0 { 1 } else { self.rom_bank }) & ((
        self.rom_bank_count() - 1) as u8))
    }

    pub open spec fn ram_offset_spec(self) -> int {
        if self.banking_mode == BankingMode::Advanced && self.ram_bank_count() == 4 {
            self.advanced_bank * 0x2000
        } else {
            0
        }
    }

    pub open spec fn rom_offset_spec(self) -> int {
        if self.banking_mode == BankingMode::Advanced {
            (self.upper_bits() << 5) * 0x4000
        } else {
            0
        }
    }

    pub fn new(rom: Vec<u8>) -> (r: Self)
        requires
            valid_mbc1_rom(rom@),
        ensures
            r.wf(),
            r.rom@ == rom@,
            r.rom_bank == 0,
            r.advanced_bank == 0,
            r.ram@ == Seq::new(0x8000, |i: int| 0u8),
            !r.ram_enabled,
            r.banking_mode == BankingMode::Simple,
    {
        let r = Mbc1 {
            rom,
            rom_bank: 0,
            advanced_bank: 0,
            ram: [0u8; 0x8000],
            ram_enabled: false,
            banking_mode: BankingMode::Simple,
        };
        assert(r.ram@ =~= Seq::new(0x8000, |i: int| 0u8));
        r
    }

    fn get_ram_bank_count(&self) -> (r: u8)
        requires
            self.wf(),
        ensures
            r == self.ram_bank_count(),
    {
        get_factor_8_kib_ram(self.rom.as_slice())
    }

    fn get_rom_bank_count(&self) -> (r: u8)
        requires
            self.wf(),
        ensures
            r == self.rom_bank_count(),
            r == 2 || r == 4 || r == 8 || r == 16 || r == 32 || r == 64 || r == 128,
    {
        proof {
            lemma_rom_factor(self.rom@[0x148]);
        }
        let factor = get_factor_32_kib_rom(self.rom.as_slice());
        (factor as u8) * 2
    }

    fn get_rom_bank_upper_bits(&self) -> (r: u8)
        requires
            self.wf(),
        ensures
            r == self.upper_bits(),
    {
        let count = self.get_rom_bank_count();
        if count == 128 {
            self.advanced_bank
        } else if count == 64 {
            self.advanced_bank & 1
        } else {
            0
        }
    }

    fn get_switchable_rom_offset(&self) -> (r: usize)
        requires
            self.wf(),
        ensures
            r == self.switchable_bank() * 0x4000,
            r + 0x4000 <= self.rom@.len(),
    {
        proof {
            lemma_rom_factor(self.rom@[0x148]);
        }
        let count = self.get_rom_bank_count();
        let upper = self.get_rom_bank_upper_bits();
        let bank = if self.rom_bank == 0 { 1 } else { self.rom_bank };
        let ab = self.advanced_bank;
        let rb = self.rom_bank;
        assert(bank <= 31);
        let mask: u8 = count - 1;
        assert((upper << 5) | (bank & mask) < count) by (bit_vector)
            requires
                ab <= 3,
                bank <= 31,
                count == 2 || count == 4 || count == 8 || count == 16 || count == 32 || count == 64 || count
                    == 128,
                mask == count - 1,
                upper == (if count == 128 {
                    ab
                } else if count == 64 {
                    ab & 1
                } else {
                    0
                }),
        ;
        let rom_bank_number = (upper << 5) | (bank & mask);
        (rom_bank_number as usize) * (ROM_BANK_SIZE as usize)
    }

    fn get_ram_offset(&self) -> (r: usize)
        requires
            self.wf(),
        ensures
            r == self.ram_offset_spec(),
            r + 0x2000 <= 0x8000,
    {
        if self.banking_mode == BankingMode::Advanced && self.get_ram_bank_count() == 4 {
            (self.advanced_bank as usize) * (RAM_BANK_SIZE as usize)
        } else {
            0
        }
    }

    fn get_rom_offset(&self) -> (r: usize)
        requires
            self.wf(),
        ensures
            r == self.rom_offset_spec(),
            r + 0x4000 <= self.rom@.len(),
    {
        proof {
            lemma_rom_factor(self.rom@[0x148]);
        }
        if self.banking_mode == BankingMode::Advanced {
            let upper = self.get_rom_bank_upper_bits();
            let count = self.get_rom_bank_count();
            let ab = self.advanced_bank;
            assert((upper << 5) < count) by (bit_vector)
                requires
                    ab <= 3,
                    count == 2 || count == 4 || count == 8 || count == 16 || count == 32 || count == 64
                        || count == 128,
                    upper == (if count == 128 {
                        ab
                    } else if count == 64 {
                        ab & 1
                    } else {
                        0
                    }),
            ;
            let u5 = upper << 5;
            assert(u5 < count);
            assert(count as int * 0x4000 <= self.rom@.len());
            (u5 as usize) * (ROM_BANK_SIZE as usize)
        } else {
            0
        }
    }
}

/// Below this many ROM banks (and with at most 8 KiB of RAM) the mode select has no effect.
pub const LIMIT_ROM_BANK_COUNT_BEFORE_ADVANCED: u8 = 32;

impl Mbc for Mbc1 {
    open spec fn wf(&self) -> bool {
        &&& valid_mbc1_rom(self.rom@)
        &&& self.rom_bank <= 0x1f
        &&& self.advanced_bank <= 3
    }

    open spec fn readable(&self, address: u16) -> bool {
        is_cartridge_address(address)
    }

    open spec fn writable(&self, address: u16) -> bool {
        is_cartridge_address(address)
    }

    open spec fn read_spec(&self, address: u16) -> u8 {
        if address < 0x4000 {
            self.rom@[address + self.rom_offset_spec()]
        } else if address < 0x8000 {
            self.rom@[self.switchable_bank() * 0x4000 + address - 0x4000]
        } else if !self.ram_enabled {
            0xff
        } else {
            self.ram@[self.ram_offset_spec() + address - 0xa000]
        }
    }

    /// Citation (mode select): If the cart is not large enough to use the 2-bit register
    /// (<= 8 KiB RAM and <= 512 KiB ROM) this mode select has no observable effect.
    open spec fn write_post(&self, address: u16, value: u8, after: Self) -> bool {
        if address < 0x2000 {
            after == Mbc1 { ram_enabled: (value & 0x0f) == 0x0a, ..*self }
        } else if address < 0x4000 {
            after == Mbc1 { rom_bank: value & 0x1f, ..*self }
        } else if address < 0x6000 {
            after == Mbc1 { advanced_bank: value & 0x03, ..*self }
        } else if address < 0x8000 {
            if self.rom_bank_count() <= 32 && self.ram_bank_count() <= 1 {
                after == *self
            } else {
                after == Mbc1 {
                    banking_mode: if value & 1 == 0 { BankingMode::Simple } else { BankingMode::Advanced },
                    ..*self
                }
            }
        } else if !self.ram_enabled {
            after == *self
        } else {
            &&& after == Mbc1 { ram: after.ram, ..*self }
            &&& after.ram@ == self.ram@.update(self.ram_offset_spec() + address - 0xa000, value)
        }
    }

    open spec fn saved_ram(&self) -> Option<Seq<u8>> {
        Some(self.ram@)
    }

    open spec fn load_saved_ram_post(&self, save: Seq<u8>, after: Self) -> bool {
        &&& after == Mbc1 { ram: after.ram, ..*self }
        &&& after.ram@ == loaded(self.ram@, save)
    }

    open spec fn load_additional_data_post(&self, data: Seq<u8>, after: Self) -> bool {
        after == *self
    }

    open spec fn rom_spec(&self) -> Seq<u8> {
        self.rom@
    }

    open spec fn additional_data_post(&self, buffer: Seq<u8>, after: Seq<u8>, written: usize) -> bool {
        after == buffer && written == 0
    }

    open spec fn additional_data_fits(&self, len: nat) -> bool {
        true
    }

    fn get_additional_data_to_save(&self, buffer: &mut [u8]) -> (r: usize) {
        0
    }

    fn read(&self, index: u16) -> (r: u8) {
        if index < 0x4000 {
            let off = self.get_rom_offset();
            self.rom[index as usize + off]
        } else if index < 0x8000 {
            let off = self.get_switchable_rom_offset();
            self.rom[off + index as usize - 0x4000]
        } else {
            if !self.ram_enabled {
                return 0xff;
            }
            let off = self.get_ram_offset();
            self.ram[off + index as usize - 0xa000]
        }
    }

    fn write(&mut self, index: u16, value: u8) {
        if index < 0x2000 {
            self.ram_enabled = (value & 0x0f) == 0x0a;
        } else if index < 0x4000 {
            assert(value & 0x1f <= 0x1f) by (bit_vector);
            self.rom_bank = value & 0x1f;
        } else if index < 0x6000 {
            assert(value & 0x03 <= 3) by (bit_vector);
            self.advanced_bank = value & 0x03;
        } else if index < 0x8000 {
            if self.get_rom_bank_count() <= LIMIT_ROM_BANK_COUNT_BEFORE_ADVANCED && self.get_ram_bank_count() <= 1 {
                return;
            }
            self.banking_mode = if value & 1 == 0 { BankingMode::Simple } else { BankingMode::Advanced };
        } else {
            if !self.ram_enabled {
                return;
            }
            let off = self.get_ram_offset();
            self.ram[off + index as usize - 0xa000] = value;
        }
    }

    fn load_saved_ram(&mut self, save: &[u8]) {
        copy_saved(&mut self.ram, save);
    }

    fn load_additional_data(&mut self, additional_data: &[u8]) {
    }

    fn get_ram_to_save(&self) -> (r: Option<&[u8]>) {
        Some(self.ram.as_slice())
    }

    fn get_rom(&self) -> (r: &[u8]) {
        self.rom.as_slice()
    }
}


/// With external RAM enabled, a byte written there reads back, and every other external RAM
/// address keeps its byte.
pub proof fn lemma_ram_write_then_read(m: Mbc1, address: u16, value: u8, after: Mbc1, other: u16)
    requires
        m.wf(),
        m.ram_enabled,
        0xa000 <= address < 0xc000,
        0xa000 <= other < 0xc000,
        other != address,
        m.write_post(address, value, after),
    ensures
        after.read_spec(address) == value,
        after.read_spec(other) == m.read_spec(other),
{
}

/// Writing $xA to $0000-$1FFF enables external RAM and any other low nibble disables it; while
/// disabled, external RAM reads $FF.
pub proof fn lemma_ram_gate(m: Mbc1, address: u16, value: u8, after: Mbc1, other: u16)
    requires
        m.wf(),
        address < 0x2000,
        m.write_post(address, value, after),
        0xa000 <= other < 0xc000,
    ensures
        after.ram_enabled == ((value & 0x0f) == 0x0a),
        !after.ram_enabled ==> after.read_spec(other) == 0xff,
{
}

/// Bank 0 cannot be selected for $4000-$7FFF through the low bits: 0 behaves as 1.
pub proof fn lemma_bank_zero_is_one(m: Mbc1)
    requires
        m.wf(),
        m.rom_bank == 0,
    ensures
        m.switchable_bank() == (Mbc1 { rom_bank: 1, ..m }).switchable_bank(),
{
}

/// The five-bit bank register of $2000-$3FFF as the switchable bank sees it, when the upper
/// bits are 0: the bank number masked to the bank count, a power of two.
proof fn lemma_low_bank_number(upper: u8, sel: u8, count: u8)
    by (bit_vector)
    requires
        upper == 0,
        1 <= sel <= 31,
        count == 2 || count == 4 || count == 8 || count == 16 || count == 32 || count == 64 || count == 128,
    ensures
        (upper << 5) | (sel & ((count - 1) as u8)) == sel % count,
        upper & 1 == 0,
{
}

/// A write of `value` to $2000-$3FFF selects the ROM bank seen at $4000-$7FFF by the five low
/// bits of `value`, 0 counting as 1, masked to the number of banks of the ROM (two per 32 KiB
/// that header byte $0148 announces). This holds whenever the upper bank bits are out of play:
/// a ROM of at most 32 banks, or the $4000-$5FFF register at 0.
/// https://gbdev.io/pandocs/MBC1.html#20003fff--rom-bank-number-write-only
pub proof fn lemma_rom_bank_select(m: Mbc1, address: u16, value: u8, after: Mbc1, k: u16)
    requires
        m.wf(),
        0x2000 <= address < 0x4000,
        m.write_post(address, value, after),
        k < 0x4000,
        m.advanced_bank == 0 || m.rom@[0x148] <= 4,
    ensures
        after.read_spec((0x4000 + k) as u16) == m.rom@[((if value & 0x1f == 0 {
            1int
        } else {
            (value & 0x1f) as int
        }) % (2 * rom_factor(m.rom@[0x148]))) * 0x4000 + k],
        after.read_spec(k) == m.read_spec(k),
{
    crate::bits::lemma_u8_and_bound(value, 0x1f);
    lemma_rom_factor(m.rom@[0x148]);
    let sel: u8 = if value & 0x1f == 0 { 1 } else { value & 0x1f };
    let count = after.rom_bank_count();
    assert(count as int == 2 * rom_factor(m.rom@[0x148]));
    lemma_low_bank_number(0, sel, count);
    if count == 64 {
        lemma_low_bank_number(after.advanced_bank, sel, count);
    }
    assert(after.upper_bits() == 0);
    assert(after.switchable_bank() == sel % count);
}

/// The two-bit register supplies bits 5-6 of the bank number on a 128-bank ROM.
proof fn lemma_upper_bank_number(upper: u8, sel: u8)
    by (bit_vector)
    requires
        upper <= 3,
        1 <= sel <= 31,
    ensures
        (upper << 5) | (sel & ((128u8 - 1) as u8)) == upper * 32 + sel,
{
}

/// On a 2 MiB ROM (128 banks) a write of `value` to $4000-$5FFF gives bits 5-6 of the bank at
/// $4000-$7FFF: the bank is `(value & 3) * 32` plus the five-bit bank register (0 counting as
/// 1), in either banking mode.
/// https://gbdev.io/pandocs/MBC1.html#40005fff--ram-bank-number--or--upper-bits-of-rom-bank-number-write-only
pub proof fn lemma_upper_bank_select(m: Mbc1, address: u16, value: u8, after: Mbc1, k: u16)
    requires
        m.wf(),
        0x4000 <= address < 0x6000,
        m.write_post(address, value, after),
        k < 0x4000,
        m.rom@[0x148] == 6,
    ensures
        after.read_spec((0x4000 + k) as u16) == m.rom@[((value & 3) as int * 32 + (if m.rom_bank == 0 {
            1int
        } else {
            m.rom_bank as int
        })) * 0x4000 + k],
{
    crate::bits::lemma_u8_and_bound(value, 0x03);
    lemma_rom_factor(m.rom@[0x148]);
    let sel: u8 = if m.rom_bank == 0 { 1 } else { m.rom_bank };
    assert(after.rom_bank_count() == 128);
    lemma_upper_bank_number(value & 3, sel);
}

} // verus!
