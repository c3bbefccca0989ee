//! Memory bank controllers: the cartridge side of the memory map.
use vstd::prelude::*;



pub mod huc1;
pub mod m161;
pub mod mbc1;
pub mod mbc1m;
pub mod mbc2;
pub mod mbc3;
pub mod mbc5;
pub mod tama5;
pub mod wisdom_tree;

verus! {

/// Whether `address` is on the cartridge bus: ROM ($0000-$7FFF) or external RAM ($A000-$BFFF).
pub open spec fn is_cartridge_address(address: u16) -> bool {
    address < 0x8000 || 0xa000 <= address < 0xc000
}

/// `memory` with its first `min(save.len(), memory.len())` bytes taken from `save`.
pub open spec fn loaded(memory: Seq<u8>, save: Seq<u8>) -> Seq<u8> {
    Seq::new(memory.len(), |i: int| if i < save.len() { save[i] } else { memory[i] })
}

/// A cartridge: ROM, banking registers, external RAM and possibly a clock. This trait lets
/// users plug in their own controllers.
pub trait Mbc: Sized {
    /// The controller's internal invariant (ROM long enough for its header, banks in range).
    spec fn wf(&self) -> bool;

    /// Whether a read at `address` is served (an address the controller decodes, and a
    /// byte that exists in ROM or RAM).
    spec fn readable(&self, address: u16) -> bool;

    /// Whether a write at `address` is served.
    spec fn writable(&self, address: u16) -> bool;

    spec fn read_spec(&self, address: u16) -> u8;

    /// How a write at `address` relates the controller before and after.
    spec fn write_post(&self, address: u16, value: u8, after: Self) -> bool;

    /// The battery-backed RAM, if the controller has any.
    spec fn saved_ram(&self) -> Option<Seq<u8>>;

    spec fn load_saved_ram_post(&self, save: Seq<u8>, after: Self) -> bool;

    spec fn load_additional_data_post(&self, data: Seq<u8>, after: Self) -> bool;

    spec fn rom_spec(&self) -> Seq<u8>;

    /// The extra state (such as a clock) saved beside the RAM, given the buffer's contents,
    /// as the buffer after the call and the number of bytes written.
    spec fn additional_data_post(&self, buffer: Seq<u8>, after: Seq<u8>, written: usize) -> bool;

    /// Whether a buffer of `len` bytes is large enough for the extra state.
    spec fn additional_data_fits(&self, len: nat) -> bool;

    fn load_saved_ram(&mut self, save: &[u8])
        requires
            old(self).wf(),
        ensures
            final(self).wf(),
            old(self).load_saved_ram_post(save@, *final(self)),
    ;

    fn load_additional_data(&mut self, additional_data: &[u8])
        requires
            old(self).wf(),
        ensures
            final(self).wf(),
            old(self).load_additional_data_post(additional_data@, *final(self)),
    ;

    fn read(&self, address: u16) -> (r: u8)
        requires
            self.wf(),
            self.readable(address),
        ensures
            r == self.read_spec(address),
    ;

    fn write(&mut self, address: u16, value: u8)
        requires
            old(self).wf(),
            old(self).writable(address),
        ensures
            final(self).wf(),
            old(self).write_post(address, value, *final(self)),
    ;

    fn get_ram_to_save(&self) -> (r: Option<&[u8]>)
        ensures
            match r {
                Some(s) => self.saved_ram() == Some(s@),
                None => self.saved_ram() is None,
            },
    ;

    fn get_rom(&self) -> (r: &[u8])
        ensures
            r@ == self.rom_spec(),
    ;

    /// Returns how many bytes were written into the buffer.
    fn get_additional_data_to_save(&self, buffer: &mut [u8]) -> (r: usize)
        requires
            self.wf(),
            self.additional_data_fits(old(buffer)@.len()),
        ensures
            self.additional_data_post(old(buffer)@, final(buffer)@, r),
    ;
}

/// A bare ROM: reads index it directly and writes are ignored.
impl Mbc for Vec<u8> {
    open spec fn wf(&self) -> bool {
        true
    }

    open spec fn readable(&self, address: u16) -> bool {
        address < self@.len()
    }

    open spec fn writable(&self, address: u16) -> bool {
        true
    }

    open spec fn read_spec(&self, address: u16) -> u8 {
        self@[address as int]
    }

    open spec fn write_post(&self, address: u16, value: u8, after: Self) -> bool {
        after@ == self@
    }

    open spec fn saved_ram(&self) -> Option<Seq<u8>> {
        None
    }

    open spec fn load_saved_ram_post(&self, save: Seq<u8>, after: Self) -> bool {
        after@ == self@
    }

    open spec fn load_additional_data_post(&self, data: Seq<u8>, after: Self) -> bool {
        after@ == self@
    }

    open spec fn rom_spec(&self) -> Seq<u8> {
        self@
    }

    open spec fn additional_data_post(&self, buffer: Seq<u8>, after: Seq<u8>, written: usize) -> bool {
        after == buffer && written == 0
    }

    open spec fn additional_data_fits(&self, len: nat) -> bool {
        true
    }

    fn get_additional_data_to_save(&self, buffer: &mut [u8]) -> (r: usize) {
        0
    }

    fn load_saved_ram(&mut self, save: &[u8]) {
    }

    fn load_additional_data(&mut self, additional_data: &[u8]) {
    }

    fn read(&self, address: u16) -> (r: u8) {
        self[address as usize]
    }

    fn write(&mut self, address: u16, value: u8) {
    }

    fn get_ram_to_save(&self) -> (r: Option<&[u8]>) {
        None
    }

    fn get_rom(&self) -> (r: &[u8]) {
        self.as_slice()
    }
}

/// Copies `save` over the start of `ram`, as far as both go.
pub fn copy_saved(ram: &mut [u8], save: &[u8])
    ensures
        final(ram)@ == loaded(old(ram)@, save@),
{
    let n = if save.len() < ram.len() { save.len() } else { ram.len() };
    let mut i: usize = 0;
    while i < n
        invariant
            n <= save.len(),
            n <= ram.len(),
            i <= n,
            ram@.len() == old(ram)@.len(),
            forall|j: int| 0 <= j < i ==> ram@[j] == save@[j],
            forall|j: int| i <= j < ram@.len() ==> ram@[j] == old(ram)@[j],
        decreases n - i,
    {
        ram[i] = save[i];
        i = i + 1;
    }
    assert(ram@ =~= loaded(old(ram)@, save@));
}

/// The cartridge types this library knows (header byte $0147).
#[derive(Clone, Copy, PartialEq, Eq, Debug)]
pub enum CartridgeType {
    RomOnly,
    Mbc1,
    Mbc1Ram,
    Mbc1RamBattery,
    Mbc3TimerBattery,
    Mbc3TimerRamBattery,
    Mbc3,
    Mbc3Ram,
    Mbc3RamBattery,
    Mbc5,
    Mbc5RamBattery,
}

impl CartridgeType {
    pub open spec fn battery(self) -> bool {
        self is Mbc1RamBattery || self is Mbc3TimerBattery || self is Mbc3TimerRamBattery
            || self is Mbc3RamBattery || self is Mbc5RamBattery
    }

    pub fn has_battery(&self) -> (r: bool)
        ensures
            r == self.battery(),
    {
        match self {
            CartridgeType::Mbc1RamBattery | CartridgeType::Mbc3TimerBattery | CartridgeType::Mbc3TimerRamBattery
            | CartridgeType::Mbc3RamBattery | CartridgeType::Mbc5RamBattery => true,
            _ => false,
        }
    }
}

/// https://gbdev.io/pandocs/The_Cartridge_Header.html#0147--cartridge-type
pub open spec fn cartridge_type_of(value: u8) -> Result<CartridgeType, u8> {
    if value == 0 {
        Ok(CartridgeType::RomOnly)
    } else if value == 1 {
        Ok(CartridgeType::Mbc1)
    } else if value == 2 {
        Ok(CartridgeType::Mbc1Ram)
    } else if value == 3 {
        Ok(CartridgeType::Mbc1RamBattery)
    } else if value == 0x0f {
        Ok(CartridgeType::Mbc3TimerBattery)
    } else if value == 0x10 {
        Ok(CartridgeType::Mbc3TimerRamBattery)
    } else if value == 0x11 {
        Ok(CartridgeType::Mbc3)
    } else if value == 0x12 {
        Ok(CartridgeType::Mbc3Ram)
    } else if value == 0x13 {
        Ok(CartridgeType::Mbc3RamBattery)
    } else if value == 0x19 {
        Ok(CartridgeType::Mbc5)
    } else if value == 0x1b {
        Ok(CartridgeType::Mbc5RamBattery)
    } else {
        Err(value)
    }
}

impl TryFrom<u8> for CartridgeType {
    type Error = u8;

    fn try_from(value: u8) -> (r: Result<Self, Self::Error>) {
        match value {
            0 => Ok(Self::RomOnly),
            1 => Ok(Self::Mbc1),
            2 => Ok(Self::Mbc1Ram),
            3 => Ok(Self::Mbc1RamBattery),
            0x0f => Ok(Self::Mbc3TimerBattery),
            0x10 => Ok(Self::Mbc3TimerRamBattery),
            0x11 => Ok(Self::Mbc3),
            0x12 => Ok(Self::Mbc3Ram),
            0x13 => Ok(Self::Mbc3RamBattery),
            0x19 => Ok(Self::Mbc5),
            0x1b => Ok(Self::Mbc5RamBattery),
            _ => Err(value),
        }
    }
}

impl vstd::std_specs::convert::TryFromSpecImpl<u8> for CartridgeType {
    open spec fn obeys_try_from_spec() -> bool {
        true
    }

    open spec fn try_from_spec(v: u8) -> Result<Self, u8> {
        cartridge_type_of(v)
    }
}

pub const ROM_BANK_SIZE: u16 = 16384;

pub const RAM_BANK_SIZE: u16 = 8192;

/// The ROM size in units of 32 KiB, from header byte $0148.
pub open spec fn rom_factor(code: u8) -> u16 {
    1u16 << code
}

/// The RAM size in units of 8 KiB, from header byte $0149.
/// https://gbdev.io/pandocs/The_Cartridge_Header.html#0149--ram-size
pub open spec fn ram_factor(code: u8) -> u8 {
    if code == 0 {
        0
    } else if code == 2 {
        1
    } else if code == 3 {
        4
    } else if code == 4 {
        16
    } else {
        8
    }
}

pub open spec fn valid_ram_code(code: u8) -> bool {
    code == 0 || code == 2 || code == 3 || code == 4 || code == 5
}

pub fn get_factor_32_kib_rom(rom: &[u8]) -> (r: u16)
    requires
        rom@.len() > 0x148,
        rom@[0x148] < 16,
    ensures
        r == rom_factor(rom@[0x148]),
{
    1u16 << rom[0x148]
}

pub fn get_factor_8_kib_ram(rom: &[u8]) -> (r: u8)
    requires
        rom@.len() > 0x149,
        valid_ram_code(rom@[0x149]),
    ensures
        r == ram_factor(rom@[0x149]),
{
    match rom[0x149] {
        0 => 0,
        2 => 1,
        3 => 4,
        4 => 16,
        _ => 8,
    }
}

/// The number of 16 KiB ROM banks for header codes 0 to 6: `2 << code`.
pub proof fn lemma_rom_factor(code: u8)
    requires
        code <= 7,
    ensures
        rom_factor(code) == (if code == 0 {
            1u16
        } else if code == 1 {
            2u16
        } else if code == 2 {
            4u16
        } else if code == 3 {
            8u16
        } else if code == 4 {
            16u16
        } else if code == 5 {
            32u16
        } else if code == 6 {
            64u16
        } else {
            128u16
        }),
{
    assert(code <= 7 ==> (1u16 << code) == (if code == 0 {
        1u16
    } else if code == 1 {
        2u16
    } else if code == 2 {
        4u16
    } else if code == 3 {
        8u16
    } else if code == 4 {
        16u16
    } else if code == 5 {
        32u16
    } else if code == 6 {
        64u16
    } else {
        128u16
    })) by (bit_vector);
}

} // verus!
