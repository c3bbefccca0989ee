//! Gate-level model of one channel's trigger, clocking and reset logic.
use vstd::prelude::*;

use crate::gebeh_core::apu::envelope::EnvelopeComponent;
use crate::gebeh_core::cells::{Dffr, DffrToggle, DrlatchEe, NorLatch};

verus! {

/// Restarts a channel one 1 MHz period after it was started.
#[derive(Clone, Copy)]
pub struct ChannelRestart {
    pub syncer_1mhz: Dffr,
    pub has_started: NorLatch,
    pub syncer_1mhz_has_started: Dffr,
}

impl Default for ChannelRestart {
    fn default() -> (r: Self)
        ensures
            r == (ChannelRestart {
                syncer_1mhz: Dffr { clk: false, state: false },
                has_started: NorLatch(false),
                syncer_1mhz_has_started: Dffr { clk: false, state: false },
            }),
    {
        ChannelRestart { syncer_1mhz: Dffr::default(), has_started: NorLatch::default(), syncer_1mhz_has_started: Dffr::default() }
    }
}

impl ChannelRestart {
    pub open spec fn next(self, channel_1mhz: bool, apu_reset: bool, is_channel_starting: bool) -> ChannelRestart {
        let syncer_1mhz = self.syncer_1mhz.next(self.syncer_1mhz_has_started.state, channel_1mhz, !apu_reset);
        let should_reset = apu_reset || syncer_1mhz.state;
        let has_started = self.has_started.next(should_reset, is_channel_starting);
        ChannelRestart {
            syncer_1mhz,
            has_started,
            syncer_1mhz_has_started: self.syncer_1mhz_has_started.next(!has_started.0, channel_1mhz, !should_reset),
        }
    }

    pub fn update(&mut self, channel_1mhz: bool, apu_reset: bool, is_channel_starting: bool)
        ensures
            *final(self) == old(self).next(channel_1mhz, apu_reset, is_channel_starting),
    {
        let started_synced = self.syncer_1mhz_has_started.state;
        let is_restarting_synced = self.syncer_1mhz.update(started_synced, channel_1mhz, !apu_reset);
        let should_reset = apu_reset || is_restarting_synced;
        let has_started = !self.has_started.update(should_reset, is_channel_starting);
        self.syncer_1mhz_has_started.update(has_started, channel_1mhz, !should_reset);
    }

    pub fn get_state(&self) -> (r: bool)
        ensures
            r == self.syncer_1mhz_has_started.state,
    {
        self.syncer_1mhz_has_started.state
    }
}

/// Latches a write of the trigger bit and synchronises it on the APU clock.
#[derive(Clone, Copy)]
pub struct ChannelStart {
    pub is_starting: DrlatchEe,
    pub is_starting_synced: Dffr,
}

impl Default for ChannelStart {
    fn default() -> (r: Self)
        ensures
            r == (ChannelStart { is_starting: DrlatchEe(false), is_starting_synced: Dffr { clk: false, state: false } }),
    {
        ChannelStart { is_starting: DrlatchEe::default(), is_starting_synced: Dffr::default() }
    }
}

impl ChannelStart {
    pub open spec fn next(self, apu_reset: bool, is_triggering: bool, is_writing_to_nrx4: bool, apu_phi: bool) -> ChannelStart {
        let is_starting = self.is_starting.next(
            is_triggering,
            is_writing_to_nrx4,
            !(apu_reset || self.is_starting_synced.state),
        );
        ChannelStart {
            is_starting,
            is_starting_synced: self.is_starting_synced.next(is_starting.0, apu_phi, !apu_reset),
        }
    }

    pub fn update(&mut self, apu_reset: bool, is_triggering: bool, is_writing_to_nrx4: bool, apu_phi: bool)
        ensures
            *final(self) == old(self).next(apu_reset, is_triggering, is_writing_to_nrx4, apu_phi),
    {
        let synced = self.is_starting_synced.state;
        let is_starting = self.is_starting.update(is_triggering, is_writing_to_nrx4, !(apu_reset || synced));
        self.is_starting_synced.update(is_starting, apu_phi, !apu_reset);
    }

    pub fn get_state(&self) -> (r: bool)
        ensures
            r == self.is_starting_synced.state,
    {
        self.is_starting_synced.state
    }
}

/// Divides the 4 MHz APU clock by four with a ring of four latches.
#[derive(Clone, Copy)]
pub struct ApuPhi {
    pub adyk_inst: DrlatchEe,
    pub afur_inst: DrlatchEe,
    pub alef_inst: DrlatchEe,
    pub apuk_inst: DrlatchEe,
}

impl Default for ApuPhi {
    fn default() -> (r: Self)
        ensures
            r == (ApuPhi {
                adyk_inst: DrlatchEe(false),
                afur_inst: DrlatchEe(false),
                alef_inst: DrlatchEe(false),
                apuk_inst: DrlatchEe(false),
            }),
    {
        ApuPhi {
            adyk_inst: DrlatchEe::default(),
            afur_inst: DrlatchEe::default(),
            alef_inst: DrlatchEe::default(),
            apuk_inst: DrlatchEe::default(),
        }
    }
}

impl ApuPhi {
    pub open spec fn next(self, apu_4mhz: bool) -> ApuPhi {
        let adyk_inst = self.adyk_inst.next(self.apuk_inst.0, apu_4mhz, true);
        let afur_inst = self.afur_inst.next(!adyk_inst.0, !apu_4mhz, true);
        let alef_inst = self.alef_inst.next(afur_inst.0, apu_4mhz, true);
        ApuPhi { adyk_inst, afur_inst, alef_inst, apuk_inst: self.apuk_inst.next(alef_inst.0, !apu_4mhz, true) }
    }

    /// Returns the divided clock.
    pub fn update(&mut self, apu_4mhz: bool) -> (r: bool)
        ensures
            *final(self) == old(self).next(apu_4mhz),
            r == final(self).afur_inst.0,
    {
        let apuk = self.apuk_inst.get_state();
        let adyk_n = !self.adyk_inst.update(apuk, apu_4mhz, true);
        let afur = self.afur_inst.update(adyk_n, !apu_4mhz, true);
        let alef = self.alef_inst.update(afur, apu_4mhz, true);
        self.apuk_inst.update(alef, !apu_4mhz, true);
        afur
    }
}

/// Shapes the CPU write strobe seen by the APU.
#[derive(Clone, Copy)]
pub struct CpuWr {
    pub adyk_inst: DrlatchEe,
    pub afur_inst: DrlatchEe,
    pub alef_inst: DrlatchEe,
    pub apuk_inst: DrlatchEe,
}

impl Default for CpuWr {
    fn default() -> (r: Self)
        ensures
            r == (CpuWr {
                adyk_inst: DrlatchEe(false),
                afur_inst: DrlatchEe(false),
                alef_inst: DrlatchEe(false),
                apuk_inst: DrlatchEe(false),
            }),
    {
        CpuWr {
            adyk_inst: DrlatchEe::default(),
            afur_inst: DrlatchEe::default(),
            alef_inst: DrlatchEe::default(),
            apuk_inst: DrlatchEe::default(),
        }
    }
}

impl CpuWr {
    pub open spec fn next(self, avet: bool) -> CpuWr {
        let adyk_inst = self.adyk_inst.next(self.apuk_inst.0, avet, true);
        let afur_inst = self.afur_inst.next(!adyk_inst.0, !avet, true);
        let alef_inst = self.alef_inst.next(afur_inst.0, avet, true);
        CpuWr { adyk_inst, afur_inst, alef_inst, apuk_inst: self.apuk_inst.next(alef_inst.0, !avet, true) }
    }

    /// Returns whether a write is seen in this half period.
    pub fn update(&mut self, avet: bool, write: bool) -> (r: bool)
        ensures
            *final(self) == old(self).next(avet),
            r == (final(self).adyk_inst.0 && !final(self).afur_inst.0 && write),
    {
        let apuk = self.apuk_inst.get_state();
        let adyk = self.adyk_inst.update(apuk, avet, true);
        let afur = self.afur_inst.update(!adyk, !avet, true);
        let alef = self.alef_inst.update(afur, avet, true);
        self.apuk_inst.update(alef, !avet, true);
        adyk && !afur && write
    }
}

/// Divides the 4 MHz APU clock down to 1 MHz.
#[derive(Clone, Copy)]
pub struct Channel1Mhz {
    pub first_divider: DffrToggle,
    pub second_divider: DffrToggle,
}

impl Default for Channel1Mhz {
    fn default() -> (r: Self)
        ensures
            r == (Channel1Mhz {
                first_divider: DffrToggle { clk: false, state: false },
                second_divider: DffrToggle { clk: false, state: false },
            }),
    {
        Channel1Mhz { first_divider: DffrToggle::default(), second_divider: DffrToggle::default() }
    }
}

impl Channel1Mhz {
    pub open spec fn next(self, apu_reset: bool, apu_4mhz: bool) -> Channel1Mhz {
        let first_divider = self.first_divider.next(!apu_4mhz, !apu_reset);
        Channel1Mhz { first_divider, second_divider: self.second_divider.next(!first_divider.state, !apu_reset) }
    }

    pub fn update(&mut self, apu_reset: bool, apu_4mhz: bool) -> (r: bool)
        ensures
            *final(self) == old(self).next(apu_reset, apu_4mhz),
            r == final(self).second_divider.state,
    {
        let divided = self.first_divider.update(!apu_4mhz, !apu_reset);
        self.second_divider.update(!divided, !apu_reset)
    }
}

/// Holds the APU in reset while audio is switched off (NR52 bit 7).
#[derive(Clone, Copy)]
pub struct ApuReset {
    pub is_audio_on: Dffr,
}

impl Default for ApuReset {
    fn default() -> (r: Self)
        ensures
            r == (ApuReset { is_audio_on: Dffr { clk: false, state: false } }),
    {
        ApuReset { is_audio_on: Dffr::default() }
    }
}

impl ApuReset {
    pub open spec fn next(self, reset: bool, apu_wr: bool, ff26: bool, is_audio_on: bool) -> ApuReset {
        ApuReset { is_audio_on: self.is_audio_on.next(is_audio_on, !(ff26 && apu_wr), !reset) }
    }

    pub fn update(&mut self, reset: bool, apu_wr: bool, ff26: bool, is_audio_on: bool) -> (r: bool)
        ensures
            *final(self) == old(self).next(reset, apu_wr, ff26, is_audio_on),
            r == (!final(self).is_audio_on.state || reset),
    {
        let is_audio_on = self.is_audio_on.update(is_audio_on, !(ff26 && apu_wr), !reset);
        !is_audio_on || reset
    }
}

/// Produces the 512 Hz and 128 Hz envelope clocks from the system counter.
#[derive(Clone, Copy)]
pub struct ApuClocks {
    pub ajer_inst: DffrToggle,
    pub bara_inst: Dffr,
    pub caru_inst: DffrToggle,
    pub bylu_inst: DffrToggle,
}

impl Default for ApuClocks {
    fn default() -> (r: Self)
        ensures
            r == (ApuClocks {
                ajer_inst: DffrToggle { clk: false, state: false },
                bara_inst: Dffr { clk: false, state: false },
                caru_inst: DffrToggle { clk: false, state: false },
                bylu_inst: DffrToggle { clk: false, state: false },
            }),
    {
        ApuClocks {
            ajer_inst: DffrToggle::default(),
            bara_inst: Dffr::default(),
            caru_inst: DffrToggle::default(),
            bylu_inst: DffrToggle::default(),
        }
    }
}

impl ApuClocks {
    pub open spec fn next(self, apu_4mhz: bool, apu_reset: bool, clock_512hz: bool) -> ApuClocks {
        let ajer_inst = self.ajer_inst.next(!apu_4mhz, !apu_reset);
        let bara_inst = self.bara_inst.next(clock_512hz, !ajer_inst.state, !apu_reset);
        let caru_inst = self.caru_inst.next(bara_inst.state, !apu_reset);
        ApuClocks { ajer_inst, bara_inst, caru_inst, bylu_inst: self.bylu_inst.next(!caru_inst.state, !apu_reset) }
    }

    pub fn update(&mut self, apu_4mhz: bool, apu_reset: bool, clock_512hz: bool)
        ensures
            *final(self) == old(self).next(apu_4mhz, apu_reset, clock_512hz),
    {
        let ajer = self.ajer_inst.update(!apu_4mhz, !apu_reset);
        let bara = self.bara_inst.update(clock_512hz, !ajer, !apu_reset);
        let bara_n = !bara;
        let caru = self.caru_inst.update(!bara_n, !apu_reset);
        let caru_n = !caru;
        self.bylu_inst.update(caru_n, !apu_reset);
    }

    pub fn get_horu_512hz(&self) -> (r: bool)
        ensures
            r == !self.bara_inst.state,
    {
        !self.bara_inst.state
    }

    pub fn get_byfe_128hz(&self) -> (r: bool)
        ensures
            r == self.bylu_inst.state,
    {
        self.bylu_inst.state
    }
}

/// One channel's control logic: reset, clocks, trigger, restart and envelope.
#[derive(Clone, Copy)]
pub struct Channel {
    pub apu_phi: ApuPhi,
    pub channel_1mhz: Channel1Mhz,
    pub channel_start: ChannelStart,
    pub chanel_restart: ChannelRestart,
    pub envelope: EnvelopeComponent,
    pub apu_reset: ApuReset,
    pub apu_clocks: ApuClocks,
}

impl Channel {
    pub open spec fn next(
        self,
        apu_wr: bool,
        ff26: bool,
        is_audio_on: bool,
        apu_4mhz: bool,
        is_triggering: bool,
        is_writing_to_nrx4: bool,
        system_clock: u16,
    ) -> Channel {
        let apu_reset = self.apu_reset.next(false, apu_wr, ff26, is_audio_on);
        let reset = !apu_reset.is_audio_on.state;
        let channel_1mhz = self.channel_1mhz.next(reset, apu_4mhz);
        let apu_phi = self.apu_phi.next(apu_4mhz);
        let channel_start = self.channel_start.next(reset, is_triggering, is_writing_to_nrx4, apu_phi.afur_inst.0);
        let chanel_restart = self.chanel_restart.next(
            channel_1mhz.second_divider.state,
            reset,
            channel_start.is_starting_synced.state,
        );
        let apu_clocks = self.apu_clocks.next(apu_4mhz, reset, system_clock & 0x400 == 0);
        Channel {
            apu_phi,
            channel_1mhz,
            channel_start,
            chanel_restart,
            envelope: self.envelope.next(
                !apu_clocks.bara_inst.state,
                apu_clocks.bylu_inst.state,
                reset,
                chanel_restart.syncer_1mhz_has_started.state,
            ),
            apu_reset,
            apu_clocks,
        }
    }

    pub fn update(
        &mut self,
        apu_wr: bool,
        ff26: bool,
        is_audio_on: bool,
        apu_4mhz: bool,
        is_triggering: bool,
        is_writing_to_nrx4: bool,
        system_clock: u16,
    )
        ensures
            *final(self) == old(self).next(
                apu_wr,
                ff26,
                is_audio_on,
                apu_4mhz,
                is_triggering,
                is_writing_to_nrx4,
                system_clock,
            ),
    {
        let apu_reset = self.apu_reset.update(false, apu_wr, ff26, is_audio_on);
        let channel_1mhz = self.channel_1mhz.update(apu_reset, apu_4mhz);
        let apu_phi = self.apu_phi.update(apu_4mhz);
        self.channel_start.update(apu_reset, is_triggering, is_writing_to_nrx4, apu_phi);
        let started = self.channel_start.get_state();
        self.chanel_restart.update(channel_1mhz, apu_reset, started);
        self.apu_clocks.update(apu_4mhz, apu_reset, system_clock & 0x400 == 0);
        let horu = self.apu_clocks.get_horu_512hz();
        let byfe = self.apu_clocks.get_byfe_128hz();
        let restart = self.chanel_restart.get_state();
        self.envelope.update(horu, byfe, apu_reset, restart);
    }
}

} // verus!
