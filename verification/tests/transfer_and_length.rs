use gebeh::gebeh_core::apu::envelope::SmallByte;
use gebeh::gebeh_core::apu::length::Length;
use gebeh::gebeh_core::dma::Dma;

#[test]
fn oam_dma_transfer_takes_one_cycle_per_byte() {
    let mut rom = vec![0u8; 0x8000];
    for i in 0..0xa0usize {
        rom[0x1200 + i] = (i as u8).wrapping_mul(3) ^ 0x11;
    }
    let vram = vec![0u8; 0x2000];
    let wram = vec![0u8; 0x2000];
    let mut oam = vec![0xeeu8; 0xa0];
    let mut dma = Dma::default();
    dma.dma_register = 0x12;
    dma.dma_request = true;
    dma.execute(&rom, &vram, &mut oam, &wram, 0);
    assert!(!dma.is_active());
    assert!(!dma.dma_request);
    assert!(oam.iter().all(|&b| b == 0xee));
    for k in 0..0xa0usize {
        dma.execute(&rom, &vram, &mut oam, &wram, 0);
        assert!(dma.is_active());
        assert_eq!(oam[k], (k as u8).wrapping_mul(3) ^ 0x11);
        if k + 1 < 0xa0 {
            assert_eq!(oam[k + 1], 0xee);
        }
    }
    dma.execute(&rom, &vram, &mut oam, &wram, 0);
    assert!(!dma.is_active());
    for k in 0..0xa0usize {
        assert_eq!(oam[k], rom[0x1200 + k]);
    }
}

#[test]
fn length_runs_out_after_mask_minus_value_clocks() {
    let mut length: Length<0x3f> = Length::default();
    length.set_is_enabled(true, "ch1", false);
    length.set_initial_timer_length(0x30);
    for _ in 0..(0x3f - 0x30) {
        assert!(!length.tick());
    }
    assert!(length.tick());
    for _ in 0..10 {
        assert!(!length.tick());
    }
    assert_eq!(length.current_timer_value, None);
}

#[test]
fn wave_length_uses_all_eight_bits() {
    let mut length: Length<0xff> = Length::default();
    length.set_is_enabled(true, "ch3", false);
    length.set_initial_timer_length(0xfe);
    assert!(!length.tick());
    assert!(length.tick());
    assert!(!length.tick());
}

#[test]
fn disabled_length_keeps_its_count() {
    let mut length: Length<0x3f> = Length::default();
    length.set_initial_timer_length(0x3e);
    for _ in 0..5 {
        assert!(!length.tick());
    }
    assert_eq!(length.current_timer_value, Some(1));
}

#[test]
fn small_byte_keeps_its_low_bits() {
    assert_eq!(SmallByte::<0>(0xff).get(), 0);
    assert_eq!(SmallByte::<4>(0xf3).get(), 3);
    assert_eq!(SmallByte::<4>(0x0f).increment().get(), 0);
    assert_eq!(SmallByte::<4>(0x00).decrement().get(), 0x0f);
}
