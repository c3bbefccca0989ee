use gebeh::gb_core::cpu::{set_h_add, set_h_add_with_carry, set_h_sub};
use gebeh::gb_core::dma::Dma;
use gebeh::gb_core::instructions::{
    get_instructions, Instruction, NoReadInstruction, ReadInstruction, Register16Bit, Register8Bit,
};
use gebeh::gb_core::ppu::pixel_fetcher::{Fifos, Renderer};
use gebeh::gb_core::ppu::{
    get_bg_win_tile, get_color_from_line, get_line_from_tile, get_picture_pixel_and_tile_map_address, Background,
    Color, ColorIndex, CurrentFrameData, DrawingState, ObjectAttribute, Ppu, Scanline, Speeder, Window,
};
use gebeh::gb_core::state::{DataForWrite, MmuWrite, State};
use gebeh::gb_core::timer::Timer;
use gebeh::gb_core::StateMachine;
use gebeh::gebeh_core::mbc::mbc1::Mbc1;
use gebeh::gebeh_core::mbc::mbc2::Mbc2;
use gebeh::gebeh_core::mbc::mbc3::RtcRegisters;
use gebeh::gebeh_core::mbc::mbc5::Mbc5;
use gebeh::gebeh_core::mbc::Mbc;

fn no_dma(state: &State) -> DataForWrite {
    state.get_data_for_write()
}

#[test]
fn timer_counts_every_period_and_reloads_on_overflow() {
    let mut state = State::new(&[]);
    state.timer_control = 0b101; // on, every 4 M-cycles
    state.timer_modulo = 0x42;
    state.timer_counter = 0xfe;
    let mut timer = Timer;
    for _ in 0..3 {
        timer.execute(&mut state, 0);
    }
    assert_eq!(state.timer_counter, 0xfe);
    timer.execute(&mut state, 0);
    assert_eq!(state.timer_counter, 0xff);
    assert_eq!(state.interrupt_flag.bits(), 0);
    for _ in 0..4 {
        timer.execute(&mut state, 0);
    }
    assert_eq!(state.timer_counter, 0x42);
    assert_eq!(state.interrupt_flag.bits(), 0x04);
}

#[test]
fn timer_stopped_counts_nothing() {
    let mut state = State::new(&[]);
    state.timer_control = 0b001;
    let mut timer = Timer;
    for _ in 0..100 {
        timer.execute(&mut state, 0);
    }
    assert_eq!(state.timer_counter, 0);
    assert_eq!(state.system_counter, 100);
}

#[test]
fn oam_dma_copies_a_page() {
    let mut state = State::new(&[]);
    for i in 0..0xa0 {
        state.wram[i] = i as u8 ^ 0x5a;
    }
    let mut write = MmuWrite(&mut state, DataForWrite { dma_request: false, lcd_status: 0 });
    write.write(0xff46, 0xc0);
    let mut dma = Dma::default();
    for _ in 0..0xa1 {
        dma.execute(&mut state, 0);
    }
    for i in 0..0xa0 {
        assert_eq!(state.oam[i], i as u8 ^ 0x5a);
    }
    assert!(state.is_dma_active);
    dma.execute(&mut state, 0);
    assert!(!state.is_dma_active);
}

#[test]
fn wram_write_reads_back_and_echoes() {
    let mut state = State::new(&[]);
    let data = no_dma(&state);
    MmuWrite(&mut state, data).write(0xc123, 0x99);
    assert_eq!(state.mmu().read(0xc123), 0x99);
    assert_eq!(state.mmu().read(0xe123), 0x99);
}

#[test]
fn div_write_resets_and_ie_round_trips() {
    let mut state = State::new(&[]);
    state.div = 0x37;
    let data = no_dma(&state);
    MmuWrite(&mut state, data).write(0xff04, 0xaa);
    assert_eq!(state.mmu().read(0xff04), 0);
    MmuWrite(&mut state, data).write(0xffff, 0x1b);
    assert_eq!(state.mmu().read(0xffff), 0x1b);
}

#[test]
fn dma_request_blocks_cpu_writes_but_hram() {
    let mut state = State::new(&[]);
    state.dma_request = true;
    let data = state.get_data_for_write();
    MmuWrite(&mut state, data).write(0xc000, 0x12);
    assert_eq!(state.wram[0], 0);
    MmuWrite(&mut state, data).write(0xff80, 0x34);
    assert_eq!(state.hram[0], 0x34);
}

#[test]
fn stat_keeps_its_read_only_bits() {
    let mut state = State::new(&[]);
    state.lcd_status = 0b0000_0110;
    state.set_interrupt_part_lcd_status(0xff);
    assert_eq!(state.lcd_status, 0b0111_1110);
}

#[test]
fn color_index_and_palette() {
    assert_eq!(ColorIndex::new(true, false), ColorIndex::One);
    assert_eq!(ColorIndex::new(false, true), ColorIndex::Two);
    // palette %11100100: index 0 white, 1 light, 2 dark, 3 black
    assert_eq!(ColorIndex::Zero.get_color(0b1110_0100), Color::White);
    assert_eq!(ColorIndex::One.get_color(0b1110_0100), Color::LightGray);
    assert_eq!(ColorIndex::Two.get_color(0b1110_0100), Color::DarkGray);
    assert_eq!(ColorIndex::Three.get_color(0b1110_0100), Color::Black);
    assert_eq!(ColorIndex::Three.get_color(0), Color::White);
    assert_eq!(u32::from(Color::LightGray), 0xaaaaaa);
    assert_eq!(<[u8; 4]>::from(Color::DarkGray), [0x55, 0x55, 0x55, 0xff]);
}

#[test]
fn tile_rows_and_columns() {
    let mut tile = [0u8; 16];
    tile[6] = 0b1000_0001;
    tile[7] = 0b0000_0001;
    let line = get_line_from_tile(&tile, 3);
    assert_eq!(line, [0b1000_0001, 0b0000_0001]);
    assert_eq!(get_color_from_line(line, 0), ColorIndex::One);
    assert_eq!(get_color_from_line(line, 7), ColorIndex::Three);
    assert_eq!(get_color_from_line(line, 3), ColorIndex::Zero);
}

#[test]
fn signed_tile_addressing() {
    let mut vram = [0u8; 0x1800];
    vram[0x1000] = 1; // tile 0 signed
    vram[0x0ff0] = 2; // tile -1 signed
    vram[0x0010] = 3; // tile 1 unsigned
    assert_eq!(get_bg_win_tile(&vram, 0, true)[0], 1);
    assert_eq!(get_bg_win_tile(&vram, 0xff, true)[0], 2);
    assert_eq!(get_bg_win_tile(&vram, 1, false)[0], 3);
}

#[test]
fn picture_pixel_background_and_window() {
    let (p, map) = get_picture_pixel_and_tile_map_address(
        0x08,
        Scanline { x: 10, y: 20 },
        Window { x: 7, internal_y_window_counter: None },
        Background { x: 250, y: 240 },
    );
    assert_eq!((p.x, p.y, map), (4, 4, 0x9c00));
    assert_eq!(p.get_relative_tile_map_index(), 0);
    let (p, map) = get_picture_pixel_and_tile_map_address(
        0x40,
        Scanline { x: 10, y: 20 },
        Window { x: 7, internal_y_window_counter: Some(5) },
        Background { x: 250, y: 240 },
    );
    assert_eq!((p.x, p.y, map), (10, 5, 0x9c00));
}

fn state_with_two_objects(first_x: u8, second_x: u8) -> State {
    let mut state = State::new(&[]);
    state.lcd_control = 0x02; // objects only
    state.obp0 = 0b1100_0000; // index 3 black
    state.obp1 = 0b0100_0000; // index 3 light gray
    for i in 0..32 {
        state.video_ram[i] = 0xff;
    }
    // OAM 0 uses OBP0, OAM 1 uses OBP1; both on line 0
    state.oam[0..4].copy_from_slice(&[16, first_x, 0, 0x00]);
    state.oam[4..8].copy_from_slice(&[16, second_x, 1, 0x10]);
    state
}

#[test]
fn smaller_x_object_wins() {
    let state = state_with_two_objects(20, 18);
    let mut drawing = DrawingState::new(CurrentFrameData::default());
    drawing.x = 15;
    drawing.execute(&state);
    assert_eq!(drawing.scanline[15], Color::LightGray);
    assert_eq!(drawing.x, 16);
}

#[test]
fn same_x_first_object_in_oam_wins() {
    let state = state_with_two_objects(18, 18);
    let mut drawing = DrawingState::new(CurrentFrameData::default());
    drawing.x = 12;
    drawing.execute(&state);
    assert_eq!(drawing.scanline[12], Color::Black);
}

#[test]
fn background_off_draws_white() {
    let state = State::new(&[]);
    let mut drawing = DrawingState::new(CurrentFrameData::default());
    drawing.execute(&state);
    assert_eq!(drawing.scanline[0], Color::White);
}

#[test]
fn ppu_modes_follow_each_other() {
    let mut state = State::new(&[]);
    state.lcd_control = 0x80;
    state.ly = 1;
    let mut ppu = Ppu::default();
    for _ in 0..80 {
        ppu.execute(&mut state, 0);
    }
    assert!(matches!(ppu, Ppu::OamScan { remaining_dots: 0, .. }));
    ppu.execute(&mut state, 0);
    assert!(matches!(ppu, Ppu::DrawingPixels { dots_count: 1, .. }));
    for _ in 0..172 {
        ppu.execute(&mut state, 0);
    }
    assert!(matches!(ppu, Ppu::HorizontalBlank { remaining_dots: 204, dots_count: 1, .. }));
    assert!(ppu.get_scanline_if_ready().is_some());
    assert_eq!(state.lcd_status & 0x03, 0x03);
}

#[test]
fn lcd_off_stops_the_ppu() {
    let mut state = State::new(&[]);
    let mut ppu = Speeder(Ppu::default(), 4);
    ppu.execute(&mut state, 0);
    assert!(matches!(ppu.0, Ppu::OamScan { remaining_dots: 80, .. }));
}

#[test]
fn decoder_programs() {
    let call = get_instructions(0xcd, false);
    assert_eq!(call.0 .1.len(), 5);
    assert_eq!(call.1 .0, Register16Bit::PC);
    let jp_hl = get_instructions(0xe9, false);
    assert_eq!(jp_hl.1 .0, Register16Bit::HL);
    assert!(jp_hl.0 .1.is_empty());
    let jr = get_instructions(0x18, false);
    assert_eq!(jr.1 .0, Register16Bit::WZ);
    let ld = get_instructions(0x41, false);
    assert_eq!(
        ld.0 .0,
        Instruction::NoRead(NoReadInstruction::Load { to: Register8Bit::B, from: Register8Bit::C })
    );
    let bit = get_instructions(0x46, true);
    assert_eq!(bit.0 .1.len(), 1);
    assert_eq!(bit.0 .1[0], Instruction::NoRead(NoReadInstruction::Bit8Bit(0, Register8Bit::Z)));
    let set = get_instructions(0xff, true);
    assert_eq!(set.0 .0, Instruction::NoRead(NoReadInstruction::Set8Bit(7, Register8Bit::A)));
    let ld_a_n = get_instructions(0x3e, false);
    assert!(matches!(ld_a_n.0 .0, Instruction::Read(_, ReadInstruction::ReadIntoLsb)));
}

#[test]
fn opcode_timings_match_pan_docs() {
    // (opcode, M-cycles): NOP, LD (a16),SP, JR e, PUSH BC, CALL, RET, LD A,(HL), ADD A,B
    for (opcode, cycles) in [(0x00, 1), (0x08, 5), (0x18, 3), (0xc5, 4), (0xcd, 6), (0xc9, 4), (0x7e, 2), (0x80, 1)] {
        assert_eq!(1 + get_instructions(opcode, false).0 .1.len(), cycles);
    }
    // CB: RLC B, BIT 0,(HL), SET 7,(HL), prefix included
    for (opcode, cycles) in [(0x00, 2), (0x46, 3), (0xfe, 4)] {
        assert_eq!(2 + get_instructions(opcode, true).0 .1.len(), cycles);
    }
}

#[test]
fn register_halves() {
    assert_eq!(Register16Bit::AF.get_msb(), Register8Bit::A);
    assert_eq!(Register16Bit::AF.get_lsb(), Register8Bit::F);
    assert_eq!(Register16Bit::SP.get_msb(), Register8Bit::MsbSp);
    assert_eq!(Register16Bit::WZ.get_lsb(), Register8Bit::Z);
}

#[test]
fn half_carries() {
    assert!(set_h_add(0x0f, 0x01));
    assert!(!set_h_add(0x0e, 0x01));
    assert!(set_h_add_with_carry(0x0e, 0x01, true));
    assert!(!set_h_add_with_carry(0x0e, 0x00, true));
    assert!(set_h_sub(0x10, 0x01));
    assert!(!set_h_sub(0x11, 0x01));
}

#[test]
fn fifo_render_and_sprite_merge() {
    let mut fifos = Fifos::default();
    fifos.replace_background([0x80, 0x00]);
    assert_eq!(fifos.render_pixel(0b1110_0100, 0, 0, true), Color::LightGray);
    fifos.load_sprite([0x80, 0x80], false, false);
    // an opaque sprite pixel in front of the background, in OBP0
    assert_eq!(fifos.render_pixel(0b1110_0100, 0b1100_0000, 0, true), Color::Black);
    // a second sprite does not replace the first one's pixel
    fifos.load_sprite([0x00, 0x80], true, true);
    assert_eq!((fifos.sp0, fifos.sp1, fifos.mask, fifos.palette), (0x80, 0x80, 0, 0));
    fifos.shift();
    assert_eq!((fifos.bg0, fifos.sp0, fifos.shifted_count), (0, 0, 1));
    assert!(!fifos.is_background_empty());
}

#[test]
fn renderer_draws_a_line() {
    let state = State::new(&[]);
    let mut renderer = Renderer::new(arrayvec::ArrayVec::<ObjectAttribute, 10>::new(), 0);
    let mut dots = 0;
    while renderer.scanline_len() < 160 && dots < 1000 {
        renderer.execute(&state);
        dots += 1;
    }
    assert_eq!(renderer.scanline_len(), 160);
    assert!(dots < 1000);
}

/// All timings are 2 dots above the Pan Docs ones.
const MINIMUM_TIME: u16 = 174;

fn get_timing(state: &State) -> u16 {
    let mut renderer = Renderer::new(arrayvec::ArrayVec::<ObjectAttribute, 10>::new(), 0);
    let mut dots = 0;
    while renderer.scanline_len() < 160 {
        renderer.execute(state);
        dots += 1;
    }
    dots
}

#[test]
fn normal_timing() {
    assert_eq!(get_timing(&State::new(&[])), MINIMUM_TIME);
}

#[test]
fn mbc5_ram_round_trip_and_gate() {
    let mut rom = vec![0u8; 0x8000];
    rom[0x149] = 3;
    let mut mbc = Mbc5::new(rom);
    mbc.write(0xa010, 0x77);
    assert_eq!(mbc.read(0xa010), 0xff);
    mbc.write(0x0000, 0x0a);
    mbc.write(0xa010, 0x77);
    assert_eq!(mbc.read(0xa010), 0x77);
    mbc.write(0x4000, 0x01);
    assert_eq!(mbc.read(0xa010), 0x00);
    mbc.write(0x4000, 0x00);
    assert_eq!(mbc.read(0xa010), 0x77);
    mbc.write(0x0000, 0x00);
    assert_eq!(mbc.read(0xa010), 0xff);
}

#[test]
fn rtc_seconds_round_trip() {
    let regs = RtcRegisters::from_seconds(3 * 86400 + 2 * 3600 + 5 * 60 + 7, true, false);
    assert_eq!((regs.seconds, regs.minutes, regs.hours, regs.lower_8bits_day_counter), (7, 5, 2, 3));
    assert_eq!(regs.upper_1bit_day_counter_carry_halt, 0x80);
    assert_eq!(regs.get_total_seconds(), 3 * 86400 + 2 * 3600 + 5 * 60 + 7);
    let wrapped = RtcRegisters::from_seconds(512 * 86400 + 9, false, true);
    assert_eq!(wrapped.get_total_seconds(), 9);
    assert_eq!(wrapped.upper_1bit_day_counter_carry_halt, 0x40);
}

#[test]
fn mbc2_ram_holds_nibbles_and_repeats() {
    let rom = vec![0u8; 0x40000];
    let mut mbc = Mbc2::new(rom);
    mbc.write(0xa005, 0x3c);
    assert_eq!(mbc.read(0xa005), 0xff);
    // RAM is enabled by a write with address bit 8 clear.
    mbc.write(0x0000, 0x0a);
    mbc.write(0xa005, 0x3c);
    assert_eq!(mbc.read(0xa005), 0xfc);
    // Only the low 9 bits of the address select the nibble.
    assert_eq!(mbc.read(0xa205), 0xfc);
    assert_eq!(mbc.read(0xbe05), 0xfc);
    assert_eq!(mbc.read(0xa006), 0x00);
}

#[test]
fn mbc1_ram_round_trip_and_bank_zero() {
    let mut rom = vec![0u8; 0x10000];
    rom[0x148] = 1;
    rom[0x149] = 3;
    for bank in 0..4usize {
        rom[bank * 0x4000] = bank as u8;
    }
    let mut mbc = Mbc1::new(rom);
    mbc.write(0x0000, 0x0a);
    mbc.write(0xa123, 0x42);
    assert_eq!(mbc.read(0xa123), 0x42);
    // Selecting bank 0 at $2000 selects bank 1.
    mbc.write(0x2000, 0x00);
    assert_eq!(mbc.read(0x4000), 1);
    mbc.write(0x2000, 0x03);
    assert_eq!(mbc.read(0x4000), 3);
    mbc.write(0x0000, 0x00);
    assert_eq!(mbc.read(0xa123), 0xff);
}

#[test]
fn rom_writes_change_nothing() {
    let mut rom = vec![0u8; 0x8000];
    rom[0x2000] = 0x5e;
    let mut state = State::new(&rom);
    state.boot_rom_mapping_control = 1;
    let data = no_dma(&state);
    MmuWrite(&mut state, data).write(0x2000, 0x01);
    assert_eq!(state.mmu().read(0x2000), 0x5e);
    assert_eq!(state.mbc, rom);
}

#[test]
fn stat_write_through_the_bus() {
    let mut state = State::new(&[]);
    state.lcd_status = 0b0000_0101;
    let data = no_dma(&state);
    MmuWrite(&mut state, data).write(0xff41, 0b1010_1010);
    assert_eq!(state.lcd_status, 0b0010_1101);
}

#[test]
fn vram_and_oam_round_trip_outside_their_modes() {
    let mut state = State::new(&[]);
    state.lcd_status = 0; // mode 0: horizontal blank
    let data = no_dma(&state);
    MmuWrite(&mut state, data).write(0x8123, 0x3c);
    MmuWrite(&mut state, data).write(0xfe10, 0xc3);
    assert_eq!(state.mmu().read(0x8123), 0x3c);
    assert_eq!(state.mmu().read(0xfe10), 0xc3);
    // During mode 3 VRAM and OAM ignore writes and read $FF.
    state.lcd_status = 3;
    let data = no_dma(&state);
    MmuWrite(&mut state, data).write(0x8123, 0x00);
    assert_eq!(state.video_ram[0x123], 0x3c);
    assert_eq!(state.mmu().read(0x8123), 0xff);
    assert_eq!(state.mmu().read(0xfe10), 0xff);
}
