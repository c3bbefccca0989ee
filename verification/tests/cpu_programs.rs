use gebeh::gb_core::cpu::Cpu;
use gebeh::gb_core::Emulator;
use gebeh::gb_core::state::State;
use gebeh::gebeh_core::interrupts::Interrupts;

/// A 32 KiB cartridge holding `program` at $0100, the rest NOPs.
fn cartridge(program: &[u8]) -> Vec<u8> {
    let mut rom = vec![0u8; 0x8000];
    rom[0x100..0x100 + program.len()].copy_from_slice(program);
    rom
}

/// A CPU about to fetch the cartridge's entry point, the boot ROM unmapped.
fn at_entry(program: &[u8]) -> (Cpu, State) {
    let mut state = State::new(&cartridge(program));
    state.boot_rom_mapping_control = 1;
    let mut cpu = Cpu::default();
    cpu.pc = 0x0100;
    (cpu, state)
}

/// Runs cycles until PC reaches `pc`, and returns how many ran (at most `limit`).
fn run_until_pc(cpu: &mut Cpu, state: &mut State, pc: u16, limit: u64) -> u64 {
    let mut cycles = 0;
    while cpu.pc != pc && cycles < limit {
        cpu.execute(state, cycles);
        cycles += 1;
    }
    cycles
}

fn run(cpu: &mut Cpu, state: &mut State, cycles: u64) {
    for cycle in 0..cycles {
        cpu.execute(state, cycle);
    }
}

#[test]
fn boot_rom_sets_stack_and_clears_a() {
    // The boot ROM starts with LD SP, $FFFE; XOR A; LD HL, $9FFF.
    let mut state = State::new(&cartridge(&[]));
    let mut cpu = Cpu::default();
    cpu.a = 0x12;
    // The fetch of each opcode overlaps the last cycle of the one before; PC is one past the
    // opcode being run. LD SP takes 3 cycles, XOR A 1, LD HL 3: the opcode at $0007 is fetched
    // on the cycle that ends LD HL.
    let cycles = run_until_pc(&mut cpu, &mut state, 0x0008, 100);
    assert_eq!(cpu.sp, 0xfffe);
    assert_eq!(cpu.a, 0);
    assert_eq!(cpu.h, 0x9f);
    assert_eq!(cpu.l, 0xff);
    assert_eq!(cycles, 1 + 3 + 1 + 3);
}

#[test]
fn daa_after_bcd_addition() {
    // LD A, $45; ADD A, $38; DAA; HALT
    let (mut cpu, mut state) = at_entry(&[0x3e, 0x45, 0xc6, 0x38, 0x27, 0x76]);
    run_until_pc(&mut cpu, &mut state, 0x0106, 100);
    run(&mut cpu, &mut state, 1);
    assert_eq!(cpu.a, 0x83);
    assert!(!cpu.f.c);
    assert!(!cpu.f.z);
}

#[test]
fn daa_after_bcd_addition_carries() {
    // LD A, $75; ADD A, $46; DAA; HALT: 75 + 46 = 121
    let (mut cpu, mut state) = at_entry(&[0x3e, 0x75, 0xc6, 0x46, 0x27, 0x76]);
    run_until_pc(&mut cpu, &mut state, 0x0106, 100);
    run(&mut cpu, &mut state, 1);
    assert_eq!(cpu.a, 0x21);
    assert!(cpu.f.c);
}

#[test]
fn daa_after_bcd_subtraction_borrows() {
    // LD A, $12; SUB A, $35; DAA; HALT: 12 - 35 = -23, so 77 with a borrow
    let (mut cpu, mut state) = at_entry(&[0x3e, 0x12, 0xd6, 0x35, 0x27, 0x76]);
    run_until_pc(&mut cpu, &mut state, 0x0106, 100);
    run(&mut cpu, &mut state, 1);
    assert_eq!(cpu.a, 0x77);
    assert!(cpu.f.c);
    assert!(cpu.f.n);
}

#[test]
fn store_and_load_through_hl() {
    // LD HL, $C000; LD A, $5A; LD (HL+), A; LD A, (HL-); LD B, (HL); HALT
    let (mut cpu, mut state) =
        at_entry(&[0x21, 0x00, 0xc0, 0x3e, 0x5a, 0x22, 0x3a, 0x46, 0x76]);
    state.wram[1] = 0x99;
    run_until_pc(&mut cpu, &mut state, 0x0109, 100);
    run(&mut cpu, &mut state, 1);
    assert_eq!(state.wram[0], 0x5a);
    assert_eq!(cpu.a, 0x99);
    assert_eq!(cpu.b, 0x5a);
    assert_eq!((cpu.h, cpu.l), (0xc0, 0x00));
}

#[test]
fn call_and_return() {
    // $0100: LD SP, $D000; CALL $0110; LD B, A; HALT
    // $0110: LD A, $42; RET
    let mut program = vec![0x31, 0x00, 0xd0, 0xcd, 0x10, 0x01, 0x47, 0x76];
    program.resize(0x10, 0);
    program.extend_from_slice(&[0x3e, 0x42, 0xc9]);
    let (mut cpu, mut state) = at_entry(&program);
    run_until_pc(&mut cpu, &mut state, 0x0111, 100);
    // The return address, $0106, is on the stack, high byte first.
    assert_eq!(cpu.sp, 0xcffe);
    assert_eq!(state.wram[0xfff], 0x01);
    assert_eq!(state.wram[0xffe], 0x06);
    run_until_pc(&mut cpu, &mut state, 0x0108, 100);
    run(&mut cpu, &mut state, 1);
    assert_eq!(cpu.b, 0x42);
    assert_eq!(cpu.sp, 0xd000);
}

#[test]
fn conditional_jump_taken_and_not() {
    // XOR A (Z set); JR NZ, +2 (not taken); JR Z, +3 (taken); LD B, 1; HALT; LD C, 2; HALT
    let (mut cpu, mut state) =
        at_entry(&[0xaf, 0x20, 0x02, 0x28, 0x03, 0x06, 0x01, 0x76, 0x0e, 0x02, 0x76]);
    run_until_pc(&mut cpu, &mut state, 0x010b, 100);
    run(&mut cpu, &mut state, 1);
    assert_eq!(cpu.b, 0);
    assert_eq!(cpu.c, 2);
}

#[test]
fn interrupt_dispatch_takes_the_highest_priority() {
    // EI; NOP; NOP; ... with V-blank and timer requested and enabled.
    let (mut cpu, mut state) = at_entry(&[0xfb, 0x00, 0x00, 0x00, 0x00]);
    cpu.sp = 0xd000;
    state.interrupt_enable = Interrupts(0x05);
    cpu.interrupt_flag = Interrupts(0x05);
    let cycles = run_until_pc(&mut cpu, &mut state, 0x0041, 100);
    // V-blank (bit 0) was taken: its request is cleared, the timer's stays, IME is off.
    assert_eq!(cpu.interrupt_flag.0, 0x04);
    assert!(!cpu.ime);
    assert_eq!(cpu.sp, 0xcffe);
    // EI takes effect after the next instruction: the NOP at $0101 ran, and the address pushed
    // is that of the next one, $0102, which did not.
    let pushed = u16::from(state.wram[0xfff]) << 8 | u16::from(state.wram[0xffe]);
    assert_eq!(pushed, 0x0102);
    // Fetching EI, EI, the NOP, then the dispatch's 5 M-cycles (the last one fetching at $0040).
    assert_eq!(cycles, 3 + 5);
}

#[test]
fn halt_waits_for_an_interrupt() {
    // HALT; NOP
    let (mut cpu, mut state) = at_entry(&[0x76, 0x00]);
    run(&mut cpu, &mut state, 3);
    assert!(cpu.is_halted);
    let pc = cpu.pc;
    run(&mut cpu, &mut state, 20);
    assert!(cpu.is_halted);
    assert_eq!(cpu.pc, pc);
    // A request enabled ends HALT even with IME off, without a dispatch.
    state.interrupt_enable = Interrupts(0x04);
    state.interrupt_flag = Interrupts(0x04);
    run(&mut cpu, &mut state, 1);
    assert_eq!(cpu.interrupt_flag.0, 0x04);
    run(&mut cpu, &mut state, 2);
    assert!(!cpu.is_halted);
    assert!(cpu.pc > pc);
}

#[test]
fn emulator_boot_rom_clears_vram_and_sets_the_palette() {
    let rom = cartridge(&[]);
    let mut emulator = Emulator::new(&rom);
    emulator.state.video_ram[0x1fff] = 0x55;
    let mut cycles = 0u64;
    while emulator.state.bgp_register != 0xfc && cycles < 4_000_000 {
        emulator.execute(cycles);
        cycles += 1;
    }
    // The boot ROM clears VRAM from $9FFF down, turns the APU on and fades BGP in, one step
    // every few frames (which needs LY to count): $00, $54, $A8, then $FC.
    assert_eq!(emulator.state.bgp_register, 0xfc);
    assert_eq!(emulator.state.video_ram[0x1fff], 0);
    assert_eq!(emulator.state.audio_master_control & 0x80, 0x80);
    assert_eq!(emulator.get_cpu().sp, 0xfffe);
}

#[test]
fn pop_af_keeps_the_high_nibble_of_f() {
    // LD BC, $12FF; PUSH BC; POP AF; HALT
    let (mut cpu, mut state) = at_entry(&[0x01, 0xff, 0x12, 0xc5, 0xf1, 0x76]);
    cpu.sp = 0xd000;
    run_until_pc(&mut cpu, &mut state, 0x0106, 100);
    run(&mut cpu, &mut state, 1);
    assert_eq!(cpu.a, 0x12);
    assert_eq!(cpu.f.bits(), 0xf0);
    assert!(cpu.f.z && cpu.f.n && cpu.f.h && cpu.f.c);
}

#[test]
fn prefixed_opcodes_on_a_and_on_hl() {
    // LD A, $F1; SWAP A; LD HL, $C000; SET 3, (HL); BIT 3, (HL); LD B, A; RES 3, (HL); HALT
    let program = [
        0x3e, 0xf1, 0xcb, 0x37, 0x21, 0x00, 0xc0, 0xcb, 0xde, 0xcb, 0x5e, 0x47, 0xcb, 0x9e, 0x76,
    ];
    let (mut cpu, mut state) = at_entry(&program);
    run_until_pc(&mut cpu, &mut state, 0x010c, 100);
    assert_eq!(cpu.a, 0x1f);
    assert_eq!(state.wram[0], 0x08);
    // BIT 3 found the bit set: Z clear, H set.
    assert!(!cpu.f.z && cpu.f.h && !cpu.f.n);
    run_until_pc(&mut cpu, &mut state, 0x010f, 100);
    run(&mut cpu, &mut state, 1);
    assert_eq!(state.wram[0], 0x00);
    assert_eq!(cpu.b, 0x1f);
}

#[test]
fn jump_to_hl() {
    // LD HL, $0110; JP HL; ... $0110: LD B, 7; HALT
    let mut program = vec![0x21, 0x10, 0x01, 0xe9];
    program.resize(0x10, 0);
    program.extend_from_slice(&[0x06, 0x07, 0x76]);
    let (mut cpu, mut state) = at_entry(&program);
    let cycles = run_until_pc(&mut cpu, &mut state, 0x0113, 100);
    run(&mut cpu, &mut state, 1);
    assert_eq!(cpu.b, 7);
    // Fetching LD HL, LD HL (3), JP HL (1), LD B, n (2).
    assert_eq!(cycles, 1 + 3 + 1 + 2);
}
