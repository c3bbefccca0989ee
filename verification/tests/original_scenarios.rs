use gebeh::gb_core::ic::Ints;
use gebeh::gb_core::ppu::LyHandler;
use gebeh::gb_core::state::State;
use gebeh::gb_core::StateMachine;
use gebeh::gebeh_core::apu::prout::{ApuPhi, CpuWr};
use gebeh::gebeh_core::interrupts::Interrupts;

#[test]
fn ic_good_priority() {
    let ints = Ints::all();
    let mut ints = ints.iter().into_iter();
    assert_eq!(Some(Ints::vblank()), ints.next());
    assert_eq!(Some(Ints::lcd()), ints.next());
    assert_eq!(Some(Ints::timer()), ints.next());
    assert_eq!(Some(Ints::serial()), ints.next());
    assert_eq!(Some(Ints::joypad()), ints.next());
    assert_eq!(None, ints.next());
}

#[test]
fn interrupts_good_priority() {
    let ints = Interrupts::all();
    let mut ints = ints.iter().into_iter();
    assert_eq!(Some(Interrupts::vblank()), ints.next());
    assert_eq!(Some(Interrupts::lcd()), ints.next());
    assert_eq!(Some(Interrupts::timer()), ints.next());
    assert_eq!(Some(Interrupts::serial()), ints.next());
    assert_eq!(Some(Interrupts::joypad()), ints.next());
    assert_eq!(None, ints.next());
}

#[test]
fn ly_incrementer() {
    let mut ly_incrementer = LyHandler::default();
    let mut state = State::new(&[]);
    // cycle 0 (line 0)
    ly_incrementer.execute(&mut state, 0);
    assert_eq!(0, state.ly);
    // cycle 113 (line 0)
    for _ in 0..113 {
        ly_incrementer.execute(&mut state, 0);
    }
    assert_eq!(0, state.ly);
    // cycle 0 (line 1)
    ly_incrementer.execute(&mut state, 0);
    assert_eq!(1, state.ly);
    // cycle 113 (line 152)
    for _ in 0..(114 * 152 - 1) {
        ly_incrementer.execute(&mut state, 0);
    }
    assert_eq!(152, state.ly);
    // cycle 0 (line 153)
    ly_incrementer.execute(&mut state, 0);
    assert_eq!(153, state.ly);
    // cycle 1 (line 153)
    ly_incrementer.execute(&mut state, 0);
    assert_eq!(0, state.ly);
    // cycle 113 (line 153)
    for _ in 0..112 {
        ly_incrementer.execute(&mut state, 0);
    }
    assert_eq!(0, state.ly);
    // cycle 0 (line 0)
    ly_incrementer.execute(&mut state, 0);
    assert_eq!(0, state.ly);
    // cycle 113 (line 0)
    for _ in 0..113 {
        ly_incrementer.execute(&mut state, 0);
    }
    assert_eq!(0, state.ly);
    // cycle 0 (line 1)
    ly_incrementer.execute(&mut state, 0);
    assert_eq!(1, state.ly);
}

#[test]
fn apu_phi() {
    let mut apu_phi = ApuPhi::default();
    let mut apu_4mhz = false;
    let apu_phi_wave: Vec<_> = (0..16)
        .map(|_| {
            let apu_phi = apu_phi.update(apu_4mhz);
            apu_4mhz = !apu_4mhz;
            apu_phi
        })
        .collect();
    assert_eq!(
        &[
            true, true, true, true, false, false, false, false, true, true, true, true, false, false, false,
            false,
        ],
        apu_phi_wave.as_slice()
    )
}

#[test]
fn cpu_wr() {
    let mut apu_phi = CpuWr::default();
    let mut avet = false;
    let apu_phi_wave: Vec<_> = (0..31)
        .map(|_| {
            let apu_phi = apu_phi.update(avet, true);
            avet = !avet;
            apu_phi
        })
        .collect();
    assert_eq!(
        &[
            false, false, false, false, true, true, true, false, false, false, false, false, true, true, true,
            false, false, false, false, false, true, true, true, false, false, false, false, false, true, true,
            true
        ],
        apu_phi_wave.as_slice()
    )
}
