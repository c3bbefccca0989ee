use gebeh::gb_core::state::{MmuWrite, State};

#[test]
fn registers_read_their_power_on_values() {
    let state = State::new(&[]);
    let mmu = state.mmu();
    assert_eq!(mmu.read(0xff00), 0xc0);
    assert_eq!(mmu.read(0xff02), 0x7e);
    assert_eq!(mmu.read(0xff10), 0x80);
    assert_eq!(mmu.read(0xff07), 0xf8);
    assert_eq!(mmu.read(0xff0f), 0xe0);
    assert_eq!(mmu.read(0xff41), 0x84);
    assert_eq!(mmu.read(0x0000), 0x31);
    assert_eq!(mmu.read(0xc000), 0);
    assert_eq!(mmu.read(0xff80), 0);
    assert_eq!(mmu.read(0xfe00), 0);
}

#[test]
fn power_on_state_is_zeroed() {
    let state = State::new(&[]);
    assert_eq!((state.div, state.scx, state.scy, state.wx, state.wy), (0, 0, 0, 0, 0));
    assert_eq!((state.sb, state.sc, state.joypad, state.sweep, state.dma_register), (0, 0, 0, 0, 0));
    assert!(state.video_ram.iter().all(|&b| b == 0));
    assert!(state.wram.iter().all(|&b| b == 0));
    assert!(state.hram.iter().all(|&b| b == 0));
    assert!(state.oam.iter().all(|&b| b == 0));
}

#[test]
fn undecoded_write_during_dma_request_is_dropped() {
    let mut state = State::new(&[]);
    state.dma_request = true;
    let before = state.clone();
    let data = state.get_data_for_write();
    MmuWrite(&mut state, data).write(0xfea0, 0x12);
    MmuWrite(&mut state, data).write(0xff17, 0x34);
    assert_eq!(state.hram, before.hram);
    assert_eq!(state.oam, before.oam);
    MmuWrite(&mut state, data).write(0xff85, 0x56);
    assert_eq!(state.hram[5], 0x56);
}
