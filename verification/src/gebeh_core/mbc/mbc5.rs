use vstd::prelude::*;

use crate::gebeh_core::mbc::{copy_saved, is_cartridge_address, loaded, Mbc};

verus! {

/// MBC5: up to 8 MiB of ROM (9-bit bank number) and 128 KiB of RAM.
#[derive(Clone)]
pub struct Mbc5 {
    pub rom: Vec<u8>,
    /// Nine bits.
    pub rom_bank: u16,
    /// $00-$0F.
    pub ram_bank: u8,
    /// 128 KiB.
    pub ram: [u8; 0x20000],
    pub ram_enabled: bool,
}

impl Mbc5 {
    pub fn new(rom: Vec<u8>) -> (r: Self)
        ensures
            r.wf(),
            r.rom@ == rom@,
            r.rom_bank == 1,
            r.ram_bank == 0,
            r.ram@ == Seq::new(0x20000, |i: int| 0u8),
            !r.ram_enabled,
    {
        let r = Mbc5 { rom, rom_bank: 1, ram_bank: 0, ram: [0u8; 0x20000], ram_enabled: false };
        assert(r.ram@ =~= Seq::new(0x20000, |i: int| 0u8));
        r
    }

    fn get_switchable_rom_offset(&self) -> (r: usize)
        requires
            self.wf(),
        ensures
            r == self.rom_bank * 0x4000,
    {
        (self.rom_bank as usize) * 0x4000
    }

    fn get_ram_offset(&self) -> (r: usize)
        requires
            self.wf(),
        ensures
            r == self.ram_bank * 0x2000,
            r + 0x2000 <= 0x20000,
    {
        (self.ram_bank as usize) * 0x2000
    }
}

impl Mbc for Mbc5 {
    open spec fn wf(&self) -> bool {
        self.rom_bank <= 0x1ff && self.ram_bank <= 0x0f
    }

    open spec fn readable(&self, address: u16) -> bool {
        &&& is_cartridge_address(address)
        &&& address < 0x4000 ==> address < self.rom@.len()
        &&& 0x4000 <= address < 0x8000 ==> self.rom_bank * 0x4000 + address - 0x4000 < self.rom@.len()
    }

    open spec fn writable(&self, address: u16) -> bool {
        true
    }

    open spec fn read_spec(&self, address: u16) -> u8 {
        if address < 0x4000 {
            self.rom@[address as int]
        } else if address < 0x8000 {
            self.rom@[self.rom_bank * 0x4000 + address - 0x4000]
        } else if !self.ram_enabled {
            0xff
        } else {
            self.ram@[self.ram_bank * 0x2000 + address - 0xa000]
        }
    }

    open spec fn write_post(&self, address: u16, value: u8, after: Self) -> bool {
        if address < 0x2000 {
            after == Mbc5 { ram_enabled: (value & 0x0f) == 0x0a, ..*self }
        } else if address < 0x3000 {
            after == Mbc5 { rom_bank: value as u16, ..*self }
        } else if address < 0x4000 {
            after == Mbc5 { rom_bank: (((value & 1) as u16) << 8) | (self.rom_bank & 0xff), ..*self }
        } else if address < 0x6000 {
            after == Mbc5 { ram_bank: value & 0x0f, ..*self }
        } else if 0xa000 <= address < 0xc000 && self.ram_enabled {
            &&& after == Mbc5 { ram: after.ram, ..*self }
            &&& after.ram@ == self.ram@.update(self.ram_bank * 0x2000 + address - 0xa000, value)
        } else {
            after == *self
        }
    }

    open spec fn saved_ram(&self) -> Option<Seq<u8>> {
        Some(self.ram@)
    }

    open spec fn load_saved_ram_post(&self, save: Seq<u8>, after: Self) -> bool {
        &&& after == Mbc5 { ram: after.ram, ..*self }
        &&& after.ram@ == loaded(self.ram@, save)
    }

    open spec fn load_additional_data_post(&self, data: Seq<u8>, after: Self) -> bool {
        after == *self
    }

    open spec fn rom_spec(&self) -> Seq<u8> {
        self.rom@
    }

    open spec fn additional_data_post(&self, buffer: Seq<u8>, after: Seq<u8>, written: usize) -> bool {
        after == buffer && written == 0
    }

    open spec fn additional_data_fits(&self, len: nat) -> bool {
        true
    }

    fn read(&self, index: u16) -> (r: u8) {
        if index < 0x4000 {
            self.rom[index as usize]
        } else if index < 0x8000 {
            let off = self.get_switchable_rom_offset();
            self.rom[off + index as usize - 0x4000]
        } else {
            if !self.ram_enabled {
                return 0xff;
            }
            let off = self.get_ram_offset();
            self.ram[off + index as usize - 0xa000]
        }
    }

    fn write(&mut self, index: u16, value: u8) {
        if index < 0x2000 {
            self.ram_enabled = (value & 0x0f) == 0x0a;
        } else if index < 0x3000 {
            self.rom_bank = value as u16;
        } else if index < 0x4000 {
            let bank = self.rom_bank;
            let v = value;
            assert(((((v & 1) as u16) << 8) | (bank & 0xff)) <= 0x1ff) by (bit_vector);
            self.rom_bank = (((value & 1) as u16) << 8) | (self.rom_bank & 0xff);
        } else if index < 0x6000 {
            proof {
                crate::bits::lemma_u8_and_bound(value, 0x0f);
            }
            self.ram_bank = value & 0x0f;
        } else if 0xa000 <= index && index < 0xc000 {
            if !self.ram_enabled {
                return;
            }
            let off = self.get_ram_offset();
            self.ram[off + index as usize - 0xa000] = value;
        }
    }

    fn load_saved_ram(&mut self, save: &[u8]) {
        copy_saved(&mut self.ram, save);
    }

    fn load_additional_data(&mut self, additional_data: &[u8]) {
    }

    fn get_ram_to_save(&self) -> (r: Option<&[u8]>) {
        Some(self.ram.as_slice())
    }

    fn get_rom(&self) -> (r: &[u8]) {
        self.rom.as_slice()
    }

    fn get_additional_data_to_save(&self, buffer: &mut [u8]) -> (r: usize) {
        0
    }
}


/// With external RAM enabled, a byte written there reads back, and every other external RAM
/// address keeps its byte.
pub proof fn lemma_ram_write_then_read(m: Mbc5, address: u16, value: u8, after: Mbc5, other: u16)
    requires
        m.wf(),
        m.ram_enabled,
        0xa000 <= address < 0xc000,
        0xa000 <= other < 0xc000,
        other != address,
        m.write_post(address, value, after),
    ensures
        after.read_spec(address) == value,
        after.read_spec(other) == m.read_spec(other),
{
}

/// Writing $xA to $0000-$1FFF enables external RAM and any other low nibble disables it; while
/// disabled, external RAM reads $FF.
pub proof fn lemma_ram_gate(m: Mbc5, address: u16, value: u8, after: Mbc5, other: u16)
    requires
        m.wf(),
        address < 0x2000,
        m.write_post(address, value, after),
        0xa000 <= other < 0xc000,
    ensures
        after.ram_enabled == ((value & 0x0f) == 0x0a),
        !after.ram_enabled ==> after.read_spec(other) == 0xff,
{
}

} // verus!
