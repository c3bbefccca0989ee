use gebeh::gebeh_core::mbc::mbc3::{Mbc3, Rtc, RtcRegisters};
use gebeh::gebeh_core::mbc::Mbc;

/// A clock that counts the reads and writes made on it.
struct CountingClock {
    seconds: u32,
    reads: u32,
    written: Vec<RtcRegisters>,
}

impl Rtc for CountingClock {
    fn get_clock_data(&mut self) -> RtcRegisters {
        self.reads += 1;
        RtcRegisters::from_seconds(self.seconds, false, false)
    }

    fn set_clock_data(&mut self, register: RtcRegisters) {
        self.written.push(register);
    }

    fn deserialize(&mut self, _save: &[u8]) {}

    fn serialize(&self, _buffer: &mut [u8]) -> usize {
        0
    }
}

fn mbc3_with_clock(seconds: u32) -> Mbc3<CountingClock> {
    let rom = vec![0u8; 0x8000];
    Mbc3::new(rom, CountingClock { seconds, reads: 0, written: Vec::new() })
}

#[test]
fn clock_latches_only_after_zero_then_one() {
    let mut mbc = mbc3_with_clock(2 * 3600 + 3 * 60 + 4);
    mbc.write(0x0000, 0x0a);
    mbc.write(0x4000, 0x08);
    // A first write of $01 latches nothing.
    mbc.write(0x6000, 0x01);
    assert_eq!(mbc.rtc.reads, 0);
    assert_eq!(mbc.read(0xa000), 0);
    mbc.write(0x6000, 0x00);
    assert_eq!(mbc.rtc.reads, 0);
    mbc.write(0x7fff, 0x01);
    assert_eq!(mbc.rtc.reads, 1);
    assert_eq!(mbc.read(0xa000), 4);
    mbc.write(0x4000, 0x09);
    assert_eq!(mbc.read(0xa000), 3);
    mbc.write(0x4000, 0x0a);
    assert_eq!(mbc.read(0xa000), 2);
    // $01 again after $01 latches nothing.
    mbc.rtc.seconds = 59;
    mbc.write(0x6000, 0x01);
    assert_eq!(mbc.rtc.reads, 1);
    assert_eq!(mbc.read(0xa000), 2);
    assert_eq!(mbc.latch_reg, 1);
}

#[test]
fn clock_register_write_sets_the_clock() {
    let mut mbc = mbc3_with_clock(0);
    mbc.write(0x0000, 0x0a);
    mbc.write(0x4000, 0x0a);
    mbc.write(0xa000, 30);
    assert_eq!(mbc.read(0xa000), 6);
    assert_eq!(mbc.rtc.written.len(), 1);
    assert_eq!(mbc.rtc.written[0].hours, 6);
    mbc.write(0x4000, 0x0c);
    mbc.write(0xa000, 0xc1);
    assert_eq!(mbc.read(0xa000), 0xfd);
    assert_eq!(mbc.rtc.written.len(), 2);
    assert_eq!(mbc.rtc.written[1].upper_1bit_day_counter_carry_halt, 0xc1);
    assert_eq!(mbc.rtc.written[1].hours, 6);
}
