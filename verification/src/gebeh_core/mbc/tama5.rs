//! TAMA5: bank registers, a small RAM and a TAMA6 real-time clock reached through a
//! nibble-wide register file at $A000/$A001.
use vstd::prelude::*;

use crate::gebeh_core::mbc::{loaded, Mbc};

verus! {

pub const GBTAMA5_BANK_LO: u8 = 0x0;
pub const GBTAMA5_BANK_HI: u8 = 0x1;
pub const GBTAMA5_WRITE_LO: u8 = 0x4;
pub const GBTAMA5_WRITE_HI: u8 = 0x5;
pub const GBTAMA5_ADDR_HI: u8 = 0x6;
pub const GBTAMA5_ADDR_LO: u8 = 0x7;
pub const GBTAMA5_MAX: u8 = 0x8;
pub const GBTAMA5_ACTIVE: u8 = 0xA;
pub const GBTAMA5_READ_LO: u8 = 0xC;
pub const GBTAMA5_READ_HI: u8 = 0xD;

pub const GBTAMA6_RTC_PA0_SECOND_1: u8 = 0x0;
pub const GBTAMA6_RTC_PA0_SECOND_10: u8 = 0x1;
pub const GBTAMA6_RTC_PA0_MINUTE_1: u8 = 0x2;
pub const GBTAMA6_RTC_PA0_MINUTE_10: u8 = 0x3;
pub const GBTAMA6_RTC_PA0_HOUR_1: u8 = 0x4;
pub const GBTAMA6_RTC_PA0_HOUR_10: u8 = 0x5;
pub const GBTAMA6_RTC_PAGE: u8 = 0xD;
pub const GBTAMA6_RTC_MAX: u8 = 0x10;

pub const GBTAMA6_DISABLE_TIMER: u8 = 0x0;
pub const GBTAMA6_ENABLE_TIMER: u8 = 0x1;
pub const GBTAMA6_MINUTE_WRITE: u8 = 0x4;
pub const GBTAMA6_HOUR_WRITE: u8 = 0x5;
pub const GBTAMA6_MINUTE_READ: u8 = 0x6;
pub const GBTAMA6_HOUR_READ: u8 = 0x7;
pub const GBTAMA6_DISABLE_ALARM: u8 = 0x10;
pub const GBTAMA6_ENABLE_ALARM: u8 = 0x11;

/// The writable bits of each TAMA6 register: timer page then alarm page.
pub open spec fn rtc_mask(i: u8) -> u8 {
    let masks = seq![
        0xFu8, 0x7u8, 0xFu8, 0x7u8, 0xFu8, 0x3u8, 0x7u8, 0xFu8, 0x3u8, 0xFu8, 0x1u8, 0xFu8, 0xFu8, 0x0u8, 0x0u8, 0x0u8,
        0x0u8, 0x0u8, 0xFu8, 0x7u8, 0xFu8, 0x3u8, 0x7u8, 0xFu8, 0x3u8, 0x0u8, 0x1u8, 0x3u8, 0x0u8, 0x0u8, 0x0u8, 0x0u8,
    ];
    masks[i as int]
}

pub fn tama6_rtc_mask(i: u8) -> (r: u8)
    requires
        i < 32,
    ensures
        r == rtc_mask(i),
{
    let masks: [u8; 32] = [
        0xF, 0x7, 0xF, 0x7, 0xF, 0x3, 0x7, 0xF, 0x3, 0xF, 0x1, 0xF, 0xF, 0x0, 0x0, 0x0, 0x0, 0x0, 0xF, 0x7, 0xF, 0x3,
        0x7, 0xF, 0x3, 0x0, 0x1, 0x3, 0x0, 0x0, 0x0, 0x0,
    ];
    masks[i as usize]
}

/// The register file and clock pages of a TAMA5.
#[derive(Clone, Copy)]
pub struct Tama5State {
    pub registers: [u8; 8],
    pub reg: u8,
    pub rom_bank: u8,
    pub rtc_timer_page: [u8; 16],
    pub rtc_alarm_page: [u8; 16],
    pub rtc_free_page0: [u8; 16],
    pub rtc_free_page1: [u8; 16],
    pub disabled: bool,
    pub rtc_last_latch: i64,
}

/// The state of a TAMA5 as sequences.
pub struct Tama5View {
    pub registers: Seq<u8>,
    pub reg: u8,
    pub rom_bank: u8,
    pub timer: Seq<u8>,
    pub alarm: Seq<u8>,
    pub free0: Seq<u8>,
    pub free1: Seq<u8>,
    pub disabled: bool,
    pub rtc_last_latch: i64,
    pub ram: Seq<u8>,
}

impl Default for Tama5State {
    fn default() -> (r: Self)
        ensures
            r.registers@ == Seq::new(8, |i: int| 0u8),
            r.reg == 0,
            r.rom_bank == 0,
            r.rtc_timer_page@ == Seq::new(16, |i: int| 0u8),
            r.rtc_alarm_page@ == Seq::new(16, |i: int| if i == 0xd { 1u8 } else { 0u8 }),
            r.rtc_free_page0@ == Seq::new(16, |i: int| if i == 0xd { 2u8 } else { 0u8 }),
            r.rtc_free_page1@ == Seq::new(16, |i: int| if i == 0xd { 3u8 } else { 0u8 }),
            !r.disabled,
            r.rtc_last_latch == 0,
    {
        let mut rtc_alarm_page = [0u8; 16];
        let mut rtc_free_page0 = [0u8; 16];
        let mut rtc_free_page1 = [0u8; 16];
        rtc_alarm_page[GBTAMA6_RTC_PAGE as usize] = 1;
        rtc_free_page0[GBTAMA6_RTC_PAGE as usize] = 2;
        rtc_free_page1[GBTAMA6_RTC_PAGE as usize] = 3;
        let r = Tama5State {
            registers: [0u8; 8],
            reg: 0,
            rom_bank: 0,
            rtc_timer_page: [0u8; 16],
            rtc_alarm_page,
            rtc_free_page0,
            rtc_free_page1,
            disabled: false,
            rtc_last_latch: 0,
        };
        assert(r.registers@ =~= Seq::new(8, |i: int| 0u8));
        assert(r.rtc_timer_page@ =~= Seq::new(16, |i: int| 0u8));
        assert(r.rtc_alarm_page@ =~= Seq::new(16, |i: int| if i == 0xd { 1u8 } else { 0u8 }));
        assert(r.rtc_free_page0@ =~= Seq::new(16, |i: int| if i == 0xd { 2u8 } else { 0u8 }));
        assert(r.rtc_free_page1@ =~= Seq::new(16, |i: int| if i == 0xd { 3u8 } else { 0u8 }));
        r
    }
}

/// Bitwise and/or on one byte of a page.
pub open spec fn and_at(page: Seq<u8>, i: int, mask: u8) -> Seq<u8> {
    page.update(i, page[i] & mask)
}

pub open spec fn or_at(page: Seq<u8>, i: int, mask: u8) -> Seq<u8> {
    page.update(i, page[i] | mask)
}

impl Tama5View {
    /// The RTC/RAM address held in ADDR_HI (bit 0) and ADDR_LO.
    pub open spec fn rtc_address(self) -> u8 {
        ((self.registers[6] << 4) & 0x10) | self.registers[7]
    }

    pub open spec fn write_value(self) -> u8 {
        (self.registers[5] << 4) | self.registers[4]
    }

    /// The TAMA6 commands (ADDR_HI >> 1 == 2).
    pub open spec fn command(self, address: u8, out: u8) -> Tama5View {
        if address == GBTAMA6_DISABLE_TIMER {
            Tama5View {
                disabled: true,
                timer: and_at(self.timer, 0xd, 0x7),
                alarm: and_at(self.alarm, 0xd, 0x7),
                free0: and_at(self.free0, 0xd, 0x7),
                free1: and_at(self.free1, 0xd, 0x7),
                ..self
            }
        } else if address == GBTAMA6_ENABLE_TIMER {
            Tama5View {
                disabled: false,
                timer: or_at(self.timer.update(0, 0).update(1, 0), 0xd, 0x8),
                alarm: or_at(self.alarm, 0xd, 0x8),
                free0: or_at(self.free0, 0xd, 0x8),
                free1: or_at(self.free1, 0xd, 0x8),
                ..self
            }
        } else if address == GBTAMA6_MINUTE_WRITE {
            Tama5View { timer: self.timer.update(2, out & 0xF).update(3, out >> 4), ..self }
        } else if address == GBTAMA6_HOUR_WRITE {
            Tama5View { timer: self.timer.update(4, out & 0xF).update(5, out >> 4), ..self }
        } else if address == GBTAMA6_DISABLE_ALARM {
            Tama5View {
                timer: and_at(self.timer, 0xd, 0xB),
                alarm: and_at(self.alarm, 0xd, 0xB),
                free0: and_at(self.free0, 0xd, 0xB),
                free1: and_at(self.free1, 0xd, 0xB),
                ..self
            }
        } else if address == GBTAMA6_ENABLE_ALARM {
            Tama5View {
                timer: or_at(self.timer, 0xd, 0x4),
                alarm: or_at(self.alarm, 0xd, 0x4),
                free0: or_at(self.free0, 0xd, 0x4),
                free1: or_at(self.free1, 0xd, 0x4),
                ..self
            }
        } else {
            self
        }
    }

    /// Direct access to a TAMA6 register (ADDR_HI >> 1 == 4).
    pub open spec fn rtc_access(self) -> Tama5View {
        let rtc_addr = self.registers[4];
        let out = self.registers[5];
        if rtc_addr >= GBTAMA6_RTC_PAGE {
            self
        } else if self.registers[7] == 0 {
            Tama5View { timer: self.timer.update(rtc_addr as int, out & rtc_mask(rtc_addr)), ..self }
        } else if self.registers[7] == 2 {
            Tama5View { alarm: self.alarm.update(rtc_addr as int, out & rtc_mask(rtc_addr | 0x10)), ..self }
        } else if self.registers[7] == 4 {
            Tama5View { free0: self.free0.update(rtc_addr as int, out), ..self }
        } else if self.registers[7] == 6 {
            Tama5View { free1: self.free1.update(rtc_addr as int, out), ..self }
        } else {
            self
        }
    }

    /// A write of `value` to $A000: stores the low nibble in the selected register, then acts on it.
    pub open spec fn handle_write(self, value: u8) -> Tama5View {
        let value = value & 0xF;
        if self.reg >= GBTAMA5_MAX {
            self
        } else {
            let s = Tama5View { registers: self.registers.update(self.reg as int, value), ..self };
            if s.reg == GBTAMA5_BANK_LO || s.reg == GBTAMA5_BANK_HI {
                Tama5View { rom_bank: s.registers[0] | (s.registers[1] << 4), ..s }
            } else if s.reg == GBTAMA5_ADDR_LO {
                let op = s.registers[6] >> 1;
                if op == 0 {
                    Tama5View { ram: s.ram.update(s.rtc_address() as int, s.write_value()), ..s }
                } else if op == 2 {
                    s.command(s.rtc_address(), s.write_value())
                } else if op == 4 {
                    s.rtc_access()
                } else {
                    s
                }
            } else {
                s
            }
        }
    }

    /// What a read of $A000 returns.
    pub open spec fn read_a000(self) -> u8 {
        if self.reg == GBTAMA5_READ_LO || self.reg == GBTAMA5_READ_HI {
            let address = self.rtc_address();
            let op = self.registers[6] >> 1;
            if op == 4 && self.reg == GBTAMA5_READ_HI {
                0xF1
            } else if op == 4 && self.registers[4] > GBTAMA6_RTC_PAGE {
                0xF0
            } else {
                let value = if op == 1 {
                    self.ram[address as int]
                } else if op == 2 {
                    if address == GBTAMA6_MINUTE_READ {
                        (self.timer[3] << 4) | self.timer[2]
                    } else if address == GBTAMA6_HOUR_READ {
                        (self.timer[5] << 4) | self.timer[4]
                    } else {
                        address
                    }
                } else if op == 4 {
                    let r7 = self.registers[7];
                    if r7 == 1 || r7 == 3 || r7 == 5 || r7 == 7 {
                        self.timer[self.registers[4] as int]
                    } else {
                        0xF0
                    }
                } else {
                    0xF0
                };
                (if self.reg == GBTAMA5_READ_HI { value >> 4 } else { value }) | 0xF0
            }
        } else {
            0xF1
        }
    }

    /// The pages reloaded from 40 bytes of saved data.
    pub open spec fn loaded_from(self, data: Seq<u8>) -> Tama5View {
        let timer = Seq::new(16, |i: int| if i % 2 == 0 { data[i / 2] & 0xF } else { data[i / 2] >> 4 });
        let alarm = Seq::new(16, |i: int| if i % 2 == 0 { data[i / 2 + 8] & 0xF } else { data[i / 2 + 8] >> 4 });
        let free0 = Seq::new(16, |i: int| if i % 2 == 0 { data[i / 2 + 16] & 0xF } else { data[i / 2 + 16] >> 4 });
        let free1 = Seq::new(16, |i: int| if i % 2 == 0 { data[i / 2 + 24] & 0xF } else { data[i / 2 + 24] >> 4 });
        Tama5View {
            disabled: (timer[0xd] & 0x8) == 0,
            timer: and_at(timer, 0xd, 0xC),
            alarm: or_at(and_at(alarm, 0xd, 0xC), 0xd, 1),
            free0: or_at(and_at(free0, 0xd, 0xC), 0xd, 2),
            free1: or_at(and_at(free1, 0xd, 0xC), 0xd, 3),
            rtc_last_latch: le_i64(data.subrange(32, 40)),
            ..self
        }
    }

    /// The 40 bytes saved: four pages packed two registers per byte, then the latch time.
    pub open spec fn saved_bytes(self) -> Seq<u8> {
        Seq::new(
            40,
            |i: int|
                if i < 8 {
                    (self.timer[2 * i] & 0xF) | (self.timer[2 * i + 1] << 4)
                } else if i < 16 {
                    (self.alarm[2 * (i - 8)] & 0xF) | (self.alarm[2 * (i - 8) + 1] << 4)
                } else if i < 24 {
                    (self.free0[2 * (i - 16)] & 0xF) | (self.free0[2 * (i - 16) + 1] << 4)
                } else if i < 32 {
                    (self.free1[2 * (i - 24)] & 0xF) | (self.free1[2 * (i - 24) + 1] << 4)
                } else {
                    le_bytes_of(self.rtc_last_latch)[i - 32]
                },
        )
    }
}

/// The little-endian value of eight bytes.
pub open spec fn le_u64(bytes: Seq<u8>) -> int
    decreases bytes.len(),
{
    if bytes.len() == 0 {
        0
    } else {
        bytes[0] + 256 * le_u64(bytes.drop_first())
    }
}

pub open spec fn le_i64(bytes: Seq<u8>) -> i64 {
    le_u64(bytes) as i64
}

/// The eight little-endian bytes of `v` in two's complement.
pub open spec fn le_bytes_of(v: i64) -> Seq<u8> {
    let u = v as u64;
    Seq::new(8, |k: int| ((u as int / pow256(k)) % 256) as u8)
}

pub open spec fn pow256(k: int) -> int
    decreases k,
{
    if k <= 0 { 1 } else { 256 * pow256(k - 1) }
}

/// TAMA5 cartridge.
#[derive(Clone)]
pub struct Tama5 {
    pub rom: Vec<u8>,
    pub ram: [u8; 0x20],
    pub state: Tama5State,
}

impl Tama5 {
    pub open spec fn view(&self) -> Tama5View {
        Tama5View {
            registers: self.state.registers@,
            reg: self.state.reg,
            rom_bank: self.state.rom_bank,
            timer: self.state.rtc_timer_page@,
            alarm: self.state.rtc_alarm_page@,
            free0: self.state.rtc_free_page0@,
            free1: self.state.rtc_free_page1@,
            disabled: self.state.disabled,
            rtc_last_latch: self.state.rtc_last_latch,
            ram: self.ram@,
        }
    }

    pub fn new(rom: Vec<u8>) -> (r: Self)
        ensures
            r.rom@ == rom@,
            r.ram@ == Seq::new(0x20, |i: int| 0u8),
            r.wf(),
    {
        let r = Tama5 { rom, ram: [0u8; 0x20], state: Tama5State::default() };
        assert(r.ram@ =~= Seq::new(0x20, |i: int| 0u8));
        r
    }

    fn get_rtc_address(&self) -> (r: u8)
        requires
            self.wf(),
        ensures
            r == self@.rtc_address(),
            r < 0x20,
    {
        let hi = self.state.registers[GBTAMA5_ADDR_HI as usize];
        let lo = self.state.registers[GBTAMA5_ADDR_LO as usize];
        assert(((hi << 4) & 0x10) | lo < 0x20) by (bit_vector)
            requires
                lo <= 0xF,
        ;
        ((hi << 4) & 0x10) | lo
    }

    fn get_write_value(&self) -> (r: u8)
        requires
            self.wf(),
        ensures
            r == self@.write_value(),
    {
        (self.state.registers[GBTAMA5_WRITE_HI as usize] << 4) | self.state.registers[GBTAMA5_WRITE_LO as usize]
    }

    fn handle_write(&mut self, value: u8)
        requires
            old(self).wf(),
        ensures
            final(self).wf(),
            final(self)@ == old(self)@.handle_write(value),
            final(self).rom == old(self).rom,
    {
        let masked = value & 0xF;
        assert(masked <= 0xF) by (bit_vector)
            requires
                masked == value & 0xF,
        ;
        if self.state.reg >= GBTAMA5_MAX {
            return;
        }
        let reg = self.state.reg;
        self.state.registers[reg as usize] = masked;
        let address = self.get_rtc_address();
        let out = self.get_write_value();
        if reg == GBTAMA5_BANK_LO || reg == GBTAMA5_BANK_HI {
            self.state.rom_bank = self.state.registers[GBTAMA5_BANK_LO as usize]
                | (self.state.registers[GBTAMA5_BANK_HI as usize] << 4);
        } else if reg == GBTAMA5_ADDR_LO {
            let op = self.state.registers[GBTAMA5_ADDR_HI as usize] >> 1;
            if op == 0 {
                self.ram[address as usize] = out;
            } else if op == 2 {
                self.command(address, out);
            } else if op == 4 {
                self.rtc_access();
            }
        }
    }

    fn command(&mut self, address: u8, out: u8)
        requires
            old(self).wf(),
        ensures
            final(self).wf(),
            final(self)@ == old(self)@.command(address, out),
            final(self).rom == old(self).rom,
    {
        let p = GBTAMA6_RTC_PAGE as usize;
        if address == GBTAMA6_DISABLE_TIMER {
            self.state.disabled = true;
            self.state.rtc_timer_page[p] = self.state.rtc_timer_page[p] & 0x7;
            self.state.rtc_alarm_page[p] = self.state.rtc_alarm_page[p] & 0x7;
            self.state.rtc_free_page0[p] = self.state.rtc_free_page0[p] & 0x7;
            self.state.rtc_free_page1[p] = self.state.rtc_free_page1[p] & 0x7;
        } else if address == GBTAMA6_ENABLE_TIMER {
            self.state.disabled = false;
            self.state.rtc_timer_page[GBTAMA6_RTC_PA0_SECOND_1 as usize] = 0;
            self.state.rtc_timer_page[GBTAMA6_RTC_PA0_SECOND_10 as usize] = 0;
            self.state.rtc_timer_page[p] = self.state.rtc_timer_page[p] | 0x8;
            self.state.rtc_alarm_page[p] = self.state.rtc_alarm_page[p] | 0x8;
            self.state.rtc_free_page0[p] = self.state.rtc_free_page0[p] | 0x8;
            self.state.rtc_free_page1[p] = self.state.rtc_free_page1[p] | 0x8;
        } else if address == GBTAMA6_MINUTE_WRITE {
            self.state.rtc_timer_page[GBTAMA6_RTC_PA0_MINUTE_1 as usize] = out & 0xF;
            self.state.rtc_timer_page[GBTAMA6_RTC_PA0_MINUTE_10 as usize] = out >> 4;
        } else if address == GBTAMA6_HOUR_WRITE {
            self.state.rtc_timer_page[GBTAMA6_RTC_PA0_HOUR_1 as usize] = out & 0xF;
            self.state.rtc_timer_page[GBTAMA6_RTC_PA0_HOUR_10 as usize] = out >> 4;
        } else if address == GBTAMA6_DISABLE_ALARM {
            self.state.rtc_timer_page[p] = self.state.rtc_timer_page[p] & 0xB;
            self.state.rtc_alarm_page[p] = self.state.rtc_alarm_page[p] & 0xB;
            self.state.rtc_free_page0[p] = self.state.rtc_free_page0[p] & 0xB;
            self.state.rtc_free_page1[p] = self.state.rtc_free_page1[p] & 0xB;
        } else if address == GBTAMA6_ENABLE_ALARM {
            self.state.rtc_timer_page[p] = self.state.rtc_timer_page[p] | 0x4;
            self.state.rtc_alarm_page[p] = self.state.rtc_alarm_page[p] | 0x4;
            self.state.rtc_free_page0[p] = self.state.rtc_free_page0[p] | 0x4;
            self.state.rtc_free_page1[p] = self.state.rtc_free_page1[p] | 0x4;
        }
        proof {
            assert(self@.timer =~= old(self)@.command(address, out).timer);
            assert(self@.alarm =~= old(self)@.command(address, out).alarm);
            assert(self@.free0 =~= old(self)@.command(address, out).free0);
            assert(self@.free1 =~= old(self)@.command(address, out).free1);
        }
    }

    fn rtc_access(&mut self)
        requires
            old(self).wf(),
        ensures
            final(self).wf(),
            final(self)@ == old(self)@.rtc_access(),
            final(self).rom == old(self).rom,
    {
        let rtc_addr = self.state.registers[GBTAMA5_WRITE_LO as usize];
        if rtc_addr >= GBTAMA6_RTC_PAGE {
            return;
        }
        let out = self.state.registers[GBTAMA5_WRITE_HI as usize];
        let sel = self.state.registers[GBTAMA5_ADDR_LO as usize];
        if sel == 0 {
            self.state.rtc_timer_page[rtc_addr as usize] = out & tama6_rtc_mask(rtc_addr);
        } else if sel == 2 {
            let i = rtc_addr | 0x10;
            assert(i < 32) by (bit_vector)
                requires
                    rtc_addr < 0xd,
                    i == rtc_addr | 0x10,
            ;
            self.state.rtc_alarm_page[rtc_addr as usize] = out & tama6_rtc_mask(i);
        } else if sel == 4 {
            self.state.rtc_free_page0[rtc_addr as usize] = out;
        } else if sel == 6 {
            self.state.rtc_free_page1[rtc_addr as usize] = out;
        }
    }

    fn read_a000(&self) -> (r: u8)
        requires
            self.wf(),
        ensures
            r == self@.read_a000(),
    {
        let reg = self.state.reg;
        if reg == GBTAMA5_ACTIVE {
            return 0xF1;
        }
        if reg != GBTAMA5_READ_LO && reg != GBTAMA5_READ_HI {
            return 0xF1;
        }
        let address = self.get_rtc_address();
        let mut value: u8 = 0xF0;
        let op = self.state.registers[GBTAMA5_ADDR_HI as usize] >> 1;
        if op == 1 {
            value = self.ram[address as usize];
        } else if op == 2 {
            if address == GBTAMA6_MINUTE_READ {
                value = (self.state.rtc_timer_page[GBTAMA6_RTC_PA0_MINUTE_10 as usize] << 4)
                    | self.state.rtc_timer_page[GBTAMA6_RTC_PA0_MINUTE_1 as usize];
            } else if address == GBTAMA6_HOUR_READ {
                value = (self.state.rtc_timer_page[GBTAMA6_RTC_PA0_HOUR_10 as usize] << 4)
                    | self.state.rtc_timer_page[GBTAMA6_RTC_PA0_HOUR_1 as usize];
            } else {
                value = address;
            }
        } else if op == 4 {
            if reg == GBTAMA5_READ_HI {
                return 0xF1;
            }
            let rtc_addr = self.state.registers[GBTAMA5_WRITE_LO as usize];
            if rtc_addr > GBTAMA6_RTC_PAGE {
                return 0xF0;
            }
            let r7 = self.state.registers[GBTAMA5_ADDR_LO as usize];
            if r7 == 1 || r7 == 3 || r7 == 5 || r7 == 7 {
                value = self.state.rtc_timer_page[rtc_addr as usize];
            }
        }
        if reg == GBTAMA5_READ_HI {
            value = value >> 4;
        }
        value | 0xF0
    }
}

/// The little-endian value of the eight bytes at `data[32..40]`.
pub fn latch_from_le_bytes(data: &[u8]) -> (r: i64)
    requires
        data@.len() >= 40,
    ensures
        r == le_i64(data@.subrange(32, 40)),
{
    let mut acc: u64 = 0;
    let mut k: usize = 8;
    while k > 0
        invariant
            0 <= k <= 8,
            data@.len() >= 40,
            acc as int == le_u64(data@.subrange(32 + k as int, 40)),
            acc < pow256(8 - k as int),
        decreases k,
    {
        proof {
            reveal_with_fuel(pow256, 9);
            assert(data@.subrange(32 + k - 1, 40).drop_first() =~= data@.subrange(32 + k as int, 40));
        }
        assert(acc * 256 + data[32 + k - 1] < pow256(8 - k + 1)) by (nonlinear_arith)
            requires
                acc < pow256(8 - k as int),
                pow256(8 - k + 1) == 256 * pow256(8 - k as int),
                data[32 + k - 1] < 256,
        ;
        acc = acc * 256 + data[32 + k - 1] as u64;
        k = k - 1;
    }
    acc as i64
}

impl Mbc for Tama5 {
    open spec fn wf(&self) -> bool {
        forall|i: int| 0 <= i < 8 ==> #[trigger] self.state.registers@[i] <= 0xF
    }

    open spec fn readable(&self, address: u16) -> bool {
        &&& address < 0x4000 ==> address < self.rom@.len()
        &&& !(0x8000 <= address < 0xa000)
        &&& !(0xa020 <= address)
    }

    open spec fn writable(&self, address: u16) -> bool {
        !(0xa020 <= address < 0xc000)
    }

    open spec fn read_spec(&self, address: u16) -> u8 {
        if address < 0x4000 {
            self.rom@[address as int]
        } else if address < 0x8000 {
            let bank = if self.state.rom_bank == 0 { 1 } else { self.state.rom_bank };
            let i = bank * 0x4000 + address - 0x4000;
            if i < self.rom@.len() { self.rom@[i] } else { 0 }
        } else if address == 0xa000 {
            self@.read_a000()
        } else if address == 0xa001 {
            0xff
        } else {
            self.ram@[address - 0xa000]
        }
    }

    open spec fn write_post(&self, address: u16, value: u8, after: Self) -> bool {
        &&& after.rom == self.rom
        &&& if address == 0xa001 {
            after@ == Tama5View { reg: value, ..self@ }
        } else if address == 0xa000 {
            after@ == self@.handle_write(value)
        } else if 0xa002 <= address < 0xc000 {
            after@ == Tama5View { ram: self@.ram.update(address - 0xa000, value), ..self@ }
        } else {
            after@ == self@
        }
    }

    open spec fn saved_ram(&self) -> Option<Seq<u8>> {
        Some(self.ram@)
    }

    open spec fn load_saved_ram_post(&self, save: Seq<u8>, after: Self) -> bool {
        &&& after.rom == self.rom
        &&& after@ == Tama5View { ram: loaded(self.ram@, save), ..self@ }
    }

    /// Expected: four pages of 8 bytes and an 8-byte latch time; shorter data is ignored.
    open spec fn load_additional_data_post(&self, data: Seq<u8>, after: Self) -> bool {
        &&& after.rom == self.rom
        &&& after@ == (if data.len() < 40 { self@ } else { self@.loaded_from(data) })
    }

    open spec fn rom_spec(&self) -> Seq<u8> {
        self.rom@
    }

    open spec fn additional_data_post(&self, buffer: Seq<u8>, after: Seq<u8>, written: usize) -> bool {
        &&& written == 40
        &&& after.len() == buffer.len()
        &&& after.subrange(0, 40) == self@.saved_bytes()
        &&& after.subrange(40, after.len() as int) == buffer.subrange(40, buffer.len() as int)
    }

    /// The saved data takes 40 bytes: a shorter buffer cannot hold it.
    open spec fn additional_data_fits(&self, len: nat) -> bool {
        len >= 40
    }

    fn read(&self, index: u16) -> (r: u8) {
        if index < 0x4000 {
            self.rom[index as usize]
        } else if index < 0x8000 {
            let bank: u8 = if self.state.rom_bank == 0 { 1 } else { self.state.rom_bank };
            let offset = (bank as usize) * 0x4000;
            let i = offset + (index - 0x4000) as usize;
            if i < self.rom.len() {
                self.rom[i]
            } else {
                0
            }
        } else if index == 0xA000 {
            self.read_a000()
        } else if index == 0xA001 {
            0xff
        } else {
            self.ram[index as usize - 0xa000]
        }
    }

    fn write(&mut self, index: u16, value: u8) {
        if index == 0xA001 {
            self.state.reg = value;
        } else if index == 0xA000 {
            self.handle_write(value);
        } else if 0xA002 <= index && index < 0xc000 {
            self.ram[index as usize - 0xa000] = value;
        }
    }

    fn load_saved_ram(&mut self, save: &[u8]) {
        crate::gebeh_core::mbc::copy_saved(&mut self.ram, save);
    }

    fn load_additional_data(&mut self, additional_data: &[u8]) {
        if additional_data.len() < 40 {
            return;
        }
        let mut i: usize = 0;
        while i < 8
            invariant
                additional_data@.len() >= 40,
                i <= 8,
                self.rom == old(self).rom,
                self.wf(),
                self.ram == old(self).ram,
                self.state.registers == old(self).state.registers,
                self.state.reg == old(self).state.reg,
                self.state.rom_bank == old(self).state.rom_bank,
                self.state.disabled == old(self).state.disabled,
                self.state.rtc_last_latch == old(self).state.rtc_last_latch,
                forall|j: int|
                    0 <= j < 2 * i ==> #[trigger] self.state.rtc_timer_page@[j] == old(self)@.loaded_from(
                        additional_data@,
                    ).timer.update(0xd, (if j % 2 == 0 { additional_data@[j / 2] & 0xF } else { additional_data@[j / 2] >> 4 }))[j],
                forall|j: int| 0 <= j < 2 * i ==> #[trigger] self.state.rtc_alarm_page@[j] == (if j % 2 == 0 {
                    additional_data@[j / 2 + 8] & 0xF
                } else {
                    additional_data@[j / 2 + 8] >> 4
                }),
                forall|j: int| 0 <= j < 2 * i ==> #[trigger] self.state.rtc_free_page0@[j] == (if j % 2 == 0 {
                    additional_data@[j / 2 + 16] & 0xF
                } else {
                    additional_data@[j / 2 + 16] >> 4
                }),
                forall|j: int| 0 <= j < 2 * i ==> #[trigger] self.state.rtc_free_page1@[j] == (if j % 2 == 0 {
                    additional_data@[j / 2 + 24] & 0xF
                } else {
                    additional_data@[j / 2 + 24] >> 4
                }),
            decreases 8 - i,
        {
            self.state.rtc_timer_page[i * 2] = additional_data[i] & 0xF;
            self.state.rtc_timer_page[i * 2 + 1] = additional_data[i] >> 4;
            self.state.rtc_alarm_page[i * 2] = additional_data[i + 8] & 0xF;
            self.state.rtc_alarm_page[i * 2 + 1] = additional_data[i + 8] >> 4;
            self.state.rtc_free_page0[i * 2] = additional_data[i + 16] & 0xF;
            self.state.rtc_free_page0[i * 2 + 1] = additional_data[i + 16] >> 4;
            self.state.rtc_free_page1[i * 2] = additional_data[i + 24] & 0xF;
            self.state.rtc_free_page1[i * 2 + 1] = additional_data[i + 24] >> 4;
            i = i + 1;
        }
        self.state.rtc_last_latch = latch_from_le_bytes(additional_data);
        let p = GBTAMA6_RTC_PAGE as usize;
        self.state.disabled = (self.state.rtc_timer_page[p] & 0x8) == 0;
        self.state.rtc_timer_page[p] = self.state.rtc_timer_page[p] & 0xC;
        self.state.rtc_alarm_page[p] = (self.state.rtc_alarm_page[p] & 0xC) | 1;
        self.state.rtc_free_page0[p] = (self.state.rtc_free_page0[p] & 0xC) | 2;
        self.state.rtc_free_page1[p] = (self.state.rtc_free_page1[p] & 0xC) | 3;
        proof {
            let l = old(self)@.loaded_from(additional_data@);
            assert(self@.timer =~= l.timer);
            assert(self@.alarm =~= l.alarm);
            assert(self@.free0 =~= l.free0);
            assert(self@.free1 =~= l.free1);
        }
    }

    fn get_ram_to_save(&self) -> (r: Option<&[u8]>) {
        Some(self.ram.as_slice())
    }

    fn get_rom(&self) -> (r: &[u8]) {
        self.rom.as_slice()
    }

    fn get_additional_data_to_save(&self, buffer: &mut [u8]) -> (r: usize) {
        let mut i: usize = 0;
        while i < 8
            invariant
                i <= 8,
                buffer@.len() == old(buffer)@.len(),
                old(buffer)@.len() >= 40,
                forall|j: int| 0 <= j < i ==> #[trigger] buffer@[j] == self@.saved_bytes()[j],
                forall|j: int| 8 <= j < 8 + i ==> #[trigger] buffer@[j] == self@.saved_bytes()[j],
                forall|j: int| 16 <= j < 16 + i ==> #[trigger] buffer@[j] == self@.saved_bytes()[j],
                forall|j: int| 24 <= j < 24 + i ==> #[trigger] buffer@[j] == self@.saved_bytes()[j],
                forall|j: int| 32 <= j < buffer@.len() ==> #[trigger] buffer@[j] == old(buffer)@[j],
                forall|j: int| i <= j < 8 || 8 + i <= j < 16 || 16 + i <= j < 24 || 24 + i <= j < 32 ==> #[trigger] buffer@[j] == old(buffer)@[j],
            decreases 8 - i,
        {
            buffer[i] = self.state.rtc_timer_page[i * 2] & 0xF | (self.state.rtc_timer_page[i * 2 + 1] << 4);
            buffer[i + 8] = self.state.rtc_alarm_page[i * 2] & 0xF | (self.state.rtc_alarm_page[i * 2 + 1] << 4);
            buffer[i + 16] = self.state.rtc_free_page0[i * 2] & 0xF | (self.state.rtc_free_page0[i * 2 + 1] << 4);
            buffer[i + 24] = self.state.rtc_free_page1[i * 2] & 0xF | (self.state.rtc_free_page1[i * 2 + 1] << 4);
            i = i + 1;
        }
        let u = self.state.rtc_last_latch as u64;
        let mut k: usize = 0;
        let mut rest: u64 = u;
        while k < 8
            invariant
                k <= 8,
                buffer@.len() == old(buffer)@.len(),
                old(buffer)@.len() >= 40,
                u == self.state.rtc_last_latch as u64,
                rest as int == u as int / pow256(k as int),
                forall|j: int| 0 <= j < 32 ==> #[trigger] buffer@[j] == self@.saved_bytes()[j],
                forall|j: int| 32 <= j < 32 + k ==> #[trigger] buffer@[j] == self@.saved_bytes()[j],
                forall|j: int| 32 + k <= j < buffer@.len() ==> #[trigger] buffer@[j] == old(buffer)@[j],
            decreases 8 - k,
        {
            proof {
                assert(pow256(k + 1) == 256 * pow256(k as int));
                assert(pow256(k as int) > 0) by {
                    lemma_pow256_pos(k as int);
                }
                vstd::arithmetic::div_mod::lemma_div_denominator(u as int, pow256(k as int), 256);
            }
            buffer[32 + k] = (rest % 256) as u8;
            rest = rest / 256;
            k = k + 1;
        }
        proof {
            assert(buffer@.subrange(0, 40) =~= self@.saved_bytes());
            assert(buffer@.subrange(40, buffer@.len() as int) =~= old(buffer)@.subrange(40, old(buffer)@.len() as int));
        }
        40
    }
}

pub proof fn lemma_pow256_pos(k: int)
    ensures
        pow256(k) > 0,
    decreases k,
{
    if k > 0 {
        lemma_pow256_pos(k - 1);
    }
}

} // verus!
