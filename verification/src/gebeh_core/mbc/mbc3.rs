use vstd::prelude::*;

use crate::gebeh_core::mbc::{copy_saved, get_factor_32_kib_rom, is_cartridge_address, lemma_rom_factor, loaded, rom_factor, Mbc};

verus! {

#[derive(Clone, Copy, PartialEq, Eq, Structural)]
pub enum RtcSelect {
    Seconds,
    Minutes,
    Hours,
    Lower8bitsDayCounter,
    Upper1bitDayCounterCarryHalt,
}

/// The largest time the clock registers can hold: 511 days, 23:59:59.
pub const MAX_RTC_SECONDS: u32 = 44236799;

/// The MBC3 clock registers.
#[derive(Clone, Copy, PartialEq, Eq, Structural, Debug)]
pub struct RtcRegisters {
    pub seconds: u8,
    pub minutes: u8,
    pub hours: u8,
    pub lower_8bits_day_counter: u8,
    /// Bit 0: day counter bit 8; bit 6: halt; bit 7: day counter carry.
    pub upper_1bit_day_counter_carry_halt: u8,
}

impl Default for RtcRegisters {
    fn default() -> (r: Self)
        ensures
            r == RtcRegisters::zero(),
    {
        RtcRegisters {
            seconds: 0,
            minutes: 0,
            hours: 0,
            lower_8bits_day_counter: 0,
            upper_1bit_day_counter_carry_halt: 0,
        }
    }
}

impl RtcRegisters {
    pub open spec fn zero() -> RtcRegisters {
        RtcRegisters {
            seconds: 0,
            minutes: 0,
            hours: 0,
            lower_8bits_day_counter: 0,
            upper_1bit_day_counter_carry_halt: 0,
        }
    }

    /// The nine-bit day counter.
    pub open spec fn day_counter(self) -> int {
        (self.upper_1bit_day_counter_carry_halt & 0x01) * 256 + self.lower_8bits_day_counter
    }

    pub open spec fn total_seconds(self) -> int {
        self.seconds + self.minutes * 60 + self.hours * 3600 + self.day_counter() * 86400
    }

    /// The registers holding `seconds` modulo 512 days, with the given carry and halt flags.
    pub open spec fn of_seconds(seconds: u32, carry: bool, halt: bool) -> RtcRegisters {
        let days = (seconds / 86400) % 512;
        RtcRegisters {
            seconds: (seconds % 60) as u8,
            minutes: ((seconds / 60) % 60) as u8,
            hours: ((seconds / 3600) % 24) as u8,
            lower_8bits_day_counter: (days % 256) as u8,
            upper_1bit_day_counter_carry_halt: ((days / 256) + (if halt { 0x40int } else { 0 }) + (if carry {
                0x80int
            } else {
                0
            })) as u8,
        }
    }

    pub fn get_total_seconds(&self) -> (r: u32)
        ensures
            r == self.total_seconds(),
    {
        let day = self.get_day_counter();
        (self.seconds as u32) + (self.minutes as u32) * 60 + (self.hours as u32) * 3600 + (day as u32) * 86400
    }

    pub fn get_day_counter(&self) -> (r: u16)
        ensures
            r == self.day_counter(),
            r < 512,
    {
        let upper = self.upper_1bit_day_counter_carry_halt;
        let lower = self.lower_8bits_day_counter;
        let hi = (upper & 0x01) as u16;
        assert(hi <= 1) by (bit_vector)
            requires
                hi == (upper & 0x01) as u16,
        ;
        assert((hi << 8) | (lower as u16) == hi * 256 + lower as u16) by (bit_vector)
            requires
                hi <= 1,
        ;
        (hi << 8) | (lower as u16)
    }

    pub fn from_seconds(seconds: u32, carry: bool, halt: bool) -> (r: Self)
        ensures
            r == Self::of_seconds(seconds, carry, halt),
    {
        let new_days = ((seconds / (3600 * 24)) % 512) as u16;
        let hi = (new_days >> 8) as u8 & 0x01;
        assert(hi <= 1) by (bit_vector)
            requires
                hi == (new_days >> 8) as u8 & 0x01,
        ;
        let h: u8 = if halt { 1 } else { 0 };
        let c: u8 = if carry { 1 } else { 0 };
        assert(((hi | (h << 6)) | (c << 7)) == hi + h * 0x40 + c * 0x80) by (bit_vector)
            requires
                hi <= 1,
                h <= 1,
                c <= 1,
        ;
        assert(hi == new_days / 256) by (bit_vector)
            requires
                new_days < 512,
                hi == (new_days >> 8) as u8 & 0x01,
        ;
        RtcRegisters {
            seconds: (seconds % 60) as u8,
            minutes: ((seconds / 60) % 60) as u8,
            hours: ((seconds / 3600) % 24) as u8,
            lower_8bits_day_counter: (new_days % 256) as u8,
            upper_1bit_day_counter_carry_halt: hi | (h << 6) | (c << 7),
        }
    }
}

#[derive(Clone, Copy, PartialEq, Eq, Structural)]
pub enum RamRtcSelect {
    /// A RAM bank, below 8.
    Ram(u8),
    Rtc(RtcSelect),
}

/// A real-time clock plugged into an MBC3; the host implements it. Each `_post` relation says
/// what a method promises; a clock that promises nothing keeps the default, which holds always.
/// The MBC3 is verified for every clock, whatever its relations say.
pub trait Rtc: Sized {
    /// How the clock before loading the saved bytes `save` relates to the clock after.
    open spec fn deserialize_post(&self, save: Seq<u8>, after: Self) -> bool {
        true
    }

    /// How serialising the clock into a buffer holding `buffer` leaves it holding `after`,
    /// `written` being the number of bytes written.
    open spec fn serialize_post(&self, buffer: Seq<u8>, after: Seq<u8>, written: usize) -> bool {
        true
    }

    /// How reading the clock relates the clock before, the registers `r` it returned and the
    /// clock after.
    open spec fn clock_data_post(&self, r: RtcRegisters, after: Self) -> bool {
        true
    }

    /// How setting the clock to the registers `regs` relates the clock before and after.
    open spec fn set_clock_data_post(&self, regs: RtcRegisters, after: Self) -> bool {
        true
    }

    fn get_clock_data(&mut self) -> (r: RtcRegisters)
        ensures
            old(self).clock_data_post(r, *final(self)),
    ;

    fn set_clock_data(&mut self, register: RtcRegisters)
        ensures
            old(self).set_clock_data_post(register, *final(self)),
    ;

    fn deserialize(&mut self, save: &[u8])
        ensures
            old(self).deserialize_post(save@, *final(self)),
    ;

    fn serialize(&self, buffer: &mut [u8]) -> (r: usize)
        ensures
            self.serialize_post(old(buffer)@, final(buffer)@, r),
    ;
}

/// MBC3: up to 2 MiB of ROM, 32 KiB of RAM and a real-time clock.
#[derive(Clone)]
pub struct Mbc3<U> {
    pub rom: Vec<u8>,
    pub rom_offset: usize,
    /// 32 KiB.
    pub ram: [u8; 0x8000],
    pub ram_rtc_select: RamRtcSelect,
    pub ram_enabled: bool,
    pub rom_bank_count: u8,
    pub rtc: U,
    pub rtc_registers: RtcRegisters,
    pub latch_reg: u8,
}

/// The RTC register chosen by the RAM bank register, if any ($08-$0C).
pub open spec fn select_of(value: u8, current: RamRtcSelect) -> RamRtcSelect {
    if value < 0x08 {
        RamRtcSelect::Ram(value)
    } else if value == 0x08 {
        RamRtcSelect::Rtc(RtcSelect::Seconds)
    } else if value == 0x09 {
        RamRtcSelect::Rtc(RtcSelect::Minutes)
    } else if value == 0x0a {
        RamRtcSelect::Rtc(RtcSelect::Hours)
    } else if value == 0x0b {
        RamRtcSelect::Rtc(RtcSelect::Lower8bitsDayCounter)
    } else if value == 0x0c {
        RamRtcSelect::Rtc(RtcSelect::Upper1bitDayCounterCarryHalt)
    } else {
        current
    }
}

/// The clock registers after the CPU writes `value` to register `select`.
pub open spec fn rtc_written(regs: RtcRegisters, select: RtcSelect, value: u8) -> RtcRegisters {
    match select {
        RtcSelect::Seconds => RtcRegisters { seconds: value % 60, ..regs },
        RtcSelect::Minutes => RtcRegisters { minutes: value % 60, ..regs },
        RtcSelect::Hours => RtcRegisters { hours: value % 24, ..regs },
        RtcSelect::Lower8bitsDayCounter => RtcRegisters { lower_8bits_day_counter: value, ..regs },
        RtcSelect::Upper1bitDayCounterCarryHalt => RtcRegisters { upper_1bit_day_counter_carry_halt: value, ..regs },
    }
}

/// The clock register read through `select`; unused upper-register bits read as 1.
pub open spec fn rtc_read(regs: RtcRegisters, select: RtcSelect) -> u8 {
    match select {
        RtcSelect::Seconds => regs.seconds,
        RtcSelect::Minutes => regs.minutes,
        RtcSelect::Hours => regs.hours,
        RtcSelect::Lower8bitsDayCounter => regs.lower_8bits_day_counter,
        RtcSelect::Upper1bitDayCounterCarryHalt => regs.upper_1bit_day_counter_carry_halt | 0b01111100,
    }
}

impl<U> Mbc3<U> {
    /// The ROM bank selected by a write of `value` to $2000-$3FFF.
    pub open spec fn selected_rom_bank(self, value: u8) -> int {
        let masked = (value as u16 & 0x7f) & ((self.rom_bank_count * 2 - 1) as u16);
        if masked == 0 { 1 } else { masked as int }
    }

    pub fn new(rom: Vec<u8>, rtc: U) -> (r: Self)
        requires
            rom@.len() > 0x148,
            rom@[0x148] <= 6,
        ensures
            r.rom@ == rom@,
            r.rom_bank_count == 2 * rom_factor(rom@[0x148]),
            r.rom_offset == 0x4000,
            r.ram_rtc_select == RamRtcSelect::Ram(0),
            r.ram@ == Seq::new(0x8000, |i: int| 0u8),
            !r.ram_enabled,
            r.rtc == rtc,
            r.rtc_registers == RtcRegisters::zero(),
            r.latch_reg == 2,
    {
        proof {
            lemma_rom_factor(rom@[0x148]);
        }
        let factor = get_factor_32_kib_rom(rom.as_slice());
        let r = Mbc3 {
            rom_bank_count: (factor as u8) * 2,
            rom,
            rom_offset: 0x4000,
            ram_rtc_select: RamRtcSelect::Ram(0),
            ram: [0u8; 0x8000],
            ram_enabled: false,
            rtc,
            rtc_registers: RtcRegisters::default(),
            // Citation: When writing $00, and then $01 to this register, the current time
            // becomes latched into the RTC registers
            latch_reg: 2,
        };
        assert(r.ram@ =~= Seq::new(0x8000, |i: int| 0u8));
        r
    }

    pub fn set_rom_bank(&mut self, rom_bank: u16)
        ensures
            *final(self) == (Mbc3 { rom_offset: (rom_bank * 0x4000) as usize, ..*old(self) }),
    {
        self.rom_offset = (rom_bank as usize) * 0x4000;
    }
}

impl<U: Rtc> Mbc for Mbc3<U> {
    open spec fn wf(&self) -> bool {
        &&& self.rom_bank_count >= 1
        &&& self.rom_offset <= 0x3fffc000
        &&& self.ram_rtc_select matches RamRtcSelect::Ram(b) ==> b < 8
    }

    open spec fn readable(&self, address: u16) -> bool {
        &&& is_cartridge_address(address)
        &&& address < 0x4000 ==> address < self.rom@.len()
        &&& 0xa000 <= address && self.ram_enabled ==> (self.ram_rtc_select matches RamRtcSelect::Ram(b) ==> b
            * 0x2000 + address - 0xa000 < 0x8000)
    }

    open spec fn writable(&self, address: u16) -> bool {
        &&& is_cartridge_address(address)
        &&& 0xa000 <= address && self.ram_enabled ==> (self.ram_rtc_select matches RamRtcSelect::Ram(b) ==> b
            * 0x2000 + address - 0xa000 < 0x8000)
    }

    /// The switchable bank reads 0 past the end of the ROM.
    open spec fn read_spec(&self, address: u16) -> u8 {
        if address < 0x4000 {
            self.rom@[address as int]
        } else if address < 0x8000 {
            let i = self.rom_offset + address - 0x4000;
            if i < self.rom@.len() { self.rom@[i] } else { 0 }
        } else if !self.ram_enabled {
            0xff
        } else {
            match self.ram_rtc_select {
                RamRtcSelect::Ram(bank) => self.ram@[bank * 0x2000 + address - 0xa000],
                RamRtcSelect::Rtc(select) => rtc_read(self.rtc_registers, select),
            }
        }
    }

    /// A write of $01 after $00 to $6000-$7FFF latches the host clock into the registers;
    /// a write to a clock register hands the new registers to the host clock.
    open spec fn write_post(&self, address: u16, value: u8, after: Self) -> bool {
        if address < 0x2000 {
            after == Mbc3 {
                ram_enabled: if value == 0x0a { true } else if value == 0 { false } else { self.ram_enabled },
                ..*self
            }
        } else if address < 0x4000 {
            after == Mbc3 { rom_offset: (self.selected_rom_bank(value) * 0x4000) as usize, ..*self }
        } else if address < 0x6000 {
            after == Mbc3 { ram_rtc_select: select_of(value, self.ram_rtc_select), ..*self }
        } else if address < 0x8000 {
            if self.latch_reg == 0 && value == 1 {
                &&& after == Mbc3 { latch_reg: value, rtc: after.rtc, rtc_registers: after.rtc_registers, ..*self }
                &&& self.rtc.clock_data_post(after.rtc_registers, after.rtc)
            } else {
                after == Mbc3 { latch_reg: value, ..*self }
            }
        } else if !self.ram_enabled {
            after == *self
        } else {
            match self.ram_rtc_select {
                RamRtcSelect::Ram(bank) => {
                    &&& after == Mbc3 { ram: after.ram, ..*self }
                    &&& after.ram@ == self.ram@.update(bank * 0x2000 + address - 0xa000, value)
                },
                RamRtcSelect::Rtc(select) => {
                    &&& after == Mbc3 {
                        rtc: after.rtc,
                        rtc_registers: rtc_written(self.rtc_registers, select, value),
                        ..*self
                    }
                    &&& self.rtc.set_clock_data_post(after.rtc_registers, after.rtc)
                },
            }
        }
    }

    open spec fn saved_ram(&self) -> Option<Seq<u8>> {
        Some(self.ram@)
    }

    open spec fn load_saved_ram_post(&self, save: Seq<u8>, after: Self) -> bool {
        &&& after == Mbc3 { ram: after.ram, ..*self }
        &&& after.ram@ == loaded(self.ram@, save)
    }

    /// The extra data is handed to the host clock, which loads it; nothing else changes.
    open spec fn load_additional_data_post(&self, data: Seq<u8>, after: Self) -> bool {
        &&& after == Mbc3 { rtc: after.rtc, ..*self }
        &&& self.rtc.deserialize_post(data, after.rtc)
    }

    open spec fn rom_spec(&self) -> Seq<u8> {
        self.rom@
    }

    /// The host clock serialises itself into the buffer and tells how many bytes it wrote.
    open spec fn additional_data_post(&self, buffer: Seq<u8>, after: Seq<u8>, written: usize) -> bool {
        self.rtc.serialize_post(buffer, after, written)
    }

    open spec fn additional_data_fits(&self, len: nat) -> bool {
        true
    }

    fn read(&self, index: u16) -> (r: u8) {
        if index < 0x4000 {
            self.rom[index as usize]
        } else if index < 0x8000 {
            let i = self.rom_offset as u64 + (index - 0x4000) as u64;
            if i < self.rom.len() as u64 {
                self.rom[i as usize]
            } else {
                0
            }
        } else {
            if !self.ram_enabled {
                return 0xff;
            }
            match self.ram_rtc_select {
                RamRtcSelect::Ram(bank) => self.ram[(bank as usize) * 0x2000 + (index - 0xa000) as usize],
                RamRtcSelect::Rtc(rtc_select) => match rtc_select {
                    RtcSelect::Seconds => self.rtc_registers.seconds,
                    RtcSelect::Minutes => self.rtc_registers.minutes,
                    RtcSelect::Hours => self.rtc_registers.hours,
                    RtcSelect::Lower8bitsDayCounter => self.rtc_registers.lower_8bits_day_counter,
                    RtcSelect::Upper1bitDayCounterCarryHalt => self.rtc_registers.upper_1bit_day_counter_carry_halt
                        | 0b01111100,
                },
            }
        }
    }

    fn write(&mut self, index: u16, value: u8) {
        if index < 0x2000 {
            if value == 0x0a {
                self.ram_enabled = true
            } else if value == 0 {
                self.ram_enabled = false;
            }
        } else if index < 0x4000 {
            let mut rom_bank = value as u16 & 0x7f;
            rom_bank = rom_bank & ((self.rom_bank_count as u16) * 2 - 1);
            if rom_bank == 0 {
                rom_bank = 1;
            }
            self.set_rom_bank(rom_bank);
        } else if index < 0x6000 {
            self.ram_rtc_select = if value < 0x08 {
                RamRtcSelect::Ram(value)
            } else if value == 0x08 {
                RamRtcSelect::Rtc(RtcSelect::Seconds)
            } else if value == 0x09 {
                RamRtcSelect::Rtc(RtcSelect::Minutes)
            } else if value == 0x0a {
                RamRtcSelect::Rtc(RtcSelect::Hours)
            } else if value == 0x0b {
                RamRtcSelect::Rtc(RtcSelect::Lower8bitsDayCounter)
            } else if value == 0x0c {
                RamRtcSelect::Rtc(RtcSelect::Upper1bitDayCounterCarryHalt)
            } else {
                self.ram_rtc_select
            };
        } else if index < 0x8000 {
            if self.latch_reg == 0 && value == 1 {
                self.rtc_registers = self.rtc.get_clock_data();
            }
            self.latch_reg = value;
        } else {
            if !self.ram_enabled {
                return;
            }
            match self.ram_rtc_select {
                RamRtcSelect::Ram(bank) => {
                    self.ram[(bank as usize) * 0x2000 + (index - 0xa000) as usize] = value;
                },
                RamRtcSelect::Rtc(rtc_select) => {
                    match rtc_select {
                        RtcSelect::Seconds => self.rtc_registers.seconds = value % 60,
                        RtcSelect::Minutes => self.rtc_registers.minutes = value % 60,
                        RtcSelect::Hours => self.rtc_registers.hours = value % 24,
                        RtcSelect::Lower8bitsDayCounter => self.rtc_registers.lower_8bits_day_counter = value,
                        RtcSelect::Upper1bitDayCounterCarryHalt => {
                            self.rtc_registers.upper_1bit_day_counter_carry_halt = value
                        },
                    }
                    let regs = self.rtc_registers;
                    self.rtc.set_clock_data(regs);
                },
            }
        }
    }

    fn load_saved_ram(&mut self, save: &[u8]) {
        copy_saved(&mut self.ram, save);
    }

    fn load_additional_data(&mut self, additional_data: &[u8]) {
        self.rtc.deserialize(additional_data);
    }

    fn get_ram_to_save(&self) -> (r: Option<&[u8]>) {
        Some(self.ram.as_slice())
    }

    fn get_rom(&self) -> (r: &[u8]) {
        self.rom.as_slice()
    }

    fn get_additional_data_to_save(&self, buffer: &mut [u8]) -> (r: usize) {
        self.rtc.serialize(buffer)
    }
}


/// With external RAM enabled and one of its four RAM banks selected, a byte written there reads
/// back, and every other external RAM address keeps its byte.
pub proof fn lemma_ram_write_then_read<U: Rtc>(m: Mbc3<U>, address: u16, value: u8, after: Mbc3<U>, other: u16)
    requires
        m.wf(),
        m.ram_enabled,
        m.ram_rtc_select matches RamRtcSelect::Ram(b) && b < 4,
        0xa000 <= address < 0xc000,
        0xa000 <= other < 0xc000,
        other != address,
        m.write_post(address, value, after),
    ensures
        after.read_spec(address) == value,
        after.read_spec(other) == m.read_spec(other),
{
}


/// The latch rule over a run of writes to $6000-$7FFF, starting from the latch register that
/// `new` sets: the write of `values[k]` latches the host clock into the clock registers exactly
/// when the write before it was $00 and it is $01, so a first write of $01 latches nothing;
/// every other such write keeps the clock and the registers. Nothing else changes but the latch
/// register, which holds the last value written.
pub proof fn lemma_latch_sequence<U: Rtc>(states: Seq<Mbc3<U>>, addresses: Seq<u16>, values: Seq<u8>)
    requires
        states.len() == values.len() + 1,
        addresses.len() == values.len(),
        states[0].latch_reg == 2,
        forall|k: int| 0 <= k < values.len() ==> 0x6000 <= #[trigger] addresses[k] < 0x8000,
        forall|k: int|
            0 <= k < values.len() ==> #[trigger] states[k].write_post(addresses[k], values[k], states[k + 1]),
    ensures
        forall|k: int|
            0 <= k < states.len() ==> #[trigger] states[k].latch_reg == (if k == 0 {
                2
            } else {
                values[k - 1]
            }),
        forall|k: int|
            0 <= k < values.len() ==> #[trigger] states[k + 1] == (Mbc3 {
                latch_reg: values[k],
                rtc: states[k + 1].rtc,
                rtc_registers: states[k + 1].rtc_registers,
                ..states[k]
            }),
        forall|k: int|
            #![trigger states[k + 1].rtc]
            0 <= k < values.len() ==> if k >= 1 && values[k - 1] == 0 && values[k] == 1 {
                states[k].rtc.clock_data_post(states[k + 1].rtc_registers, states[k + 1].rtc)
            } else {
                states[k + 1].rtc == states[k].rtc && states[k + 1].rtc_registers == states[k].rtc_registers
            },
{
    assert forall|k: int| 0 <= k < states.len() implies #[trigger] states[k].latch_reg == (if k == 0 {
        2
    } else {
        values[k - 1]
    }) by {
        if k > 0 {
            let j = k - 1;
            assert(states[j].write_post(addresses[j], values[j], states[j + 1]));
        }
    }
    assert forall|k: int| #![trigger states[k + 1].rtc]
        0 <= k < values.len() implies if k >= 1 && values[k - 1] == 0 && values[k] == 1 {
        states[k].rtc.clock_data_post(states[k + 1].rtc_registers, states[k + 1].rtc)
    } else {
        states[k + 1].rtc == states[k].rtc && states[k + 1].rtc_registers == states[k].rtc_registers
    } by {
        assert(states[k].write_post(addresses[k], values[k], states[k + 1]));
        if k >= 1 {
            let j = k - 1;
            assert(states[j].write_post(addresses[j], values[j], states[j + 1]));
        }
    }
    assert forall|k: int| 0 <= k < values.len() implies #[trigger] states[k + 1] == (Mbc3 {
        latch_reg: values[k],
        rtc: states[k + 1].rtc,
        rtc_registers: states[k + 1].rtc_registers,
        ..states[k]
    }) by {
        assert(states[k].write_post(addresses[k], values[k], states[k + 1]));
    }
}

/// Setting the clock from a number of seconds and reading it back gives that number modulo
/// the 512 days the day counter holds, whatever the carry and halt flags.
pub proof fn lemma_seconds_round_trip(seconds: u32, carry: bool, halt: bool)
    ensures
        RtcRegisters::of_seconds(seconds, carry, halt).total_seconds() == (seconds as int) % 44236800int,
{
    let r = RtcRegisters::of_seconds(seconds, carry, halt);
    let s = seconds as int;
    let days = (s / 86400) % 512;
    let upper = r.upper_1bit_day_counter_carry_halt;
    let hi: u8 = (days / 256) as u8;
    let h: u8 = if halt { 1 } else { 0 };
    let c: u8 = if carry { 1 } else { 0 };
    assert(upper == hi + h * 0x40 + c * 0x80);
    assert(hi <= 1 && h <= 1 && c <= 1 ==> ((hi + h * 0x40 + c * 0x80) as u8) & 0x01 == hi) by (bit_vector);
    assert(r.day_counter() == days);
    vstd::arithmetic::div_mod::lemma_fundamental_div_mod(s, 60);
    vstd::arithmetic::div_mod::lemma_fundamental_div_mod(s / 60, 60);
    vstd::arithmetic::div_mod::lemma_fundamental_div_mod(s / 3600, 24);
    vstd::arithmetic::div_mod::lemma_fundamental_div_mod(s / 86400, 512);
    vstd::arithmetic::div_mod::lemma_div_denominator(s, 60, 60);
    vstd::arithmetic::div_mod::lemma_div_denominator(s, 3600, 24);
    let q4 = (s / 86400) / 512;
    assert(s == 44236800 * q4 + r.total_seconds()) by (nonlinear_arith)
        requires
            s == 60 * (s / 60) + s % 60,
            s / 60 == 60 * (s / 60 / 60) + (s / 60) % 60,
            s / 60 / 60 == s / 3600,
            s / 3600 == 24 * (s / 3600 / 24) + (s / 3600) % 24,
            s / 3600 / 24 == s / 86400,
            s / 86400 == 512 * q4 + days,
            r.total_seconds() == s % 60 + ((s / 60) % 60) * 60 + ((s / 3600) % 24) * 3600 + days * 86400,
    ;
    vstd::arithmetic::div_mod::lemma_fundamental_div_mod_converse(s, 44236800, q4, r.total_seconds());
}

} // verus!
