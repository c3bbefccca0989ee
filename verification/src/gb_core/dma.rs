//! OAM DMA: one byte copied into OAM per M-cycle from the page that the DMA register names.
//!
//! On conflicts see https://github.com/Gekkio/mooneye-gb/issues/39#issuecomment-265953981
use vstd::prelude::*;

use crate::gb_core::state::{State, ECHO_RAM, WORK_RAM};
use crate::gb_core::StateMachine;

verus! {

/// The address that the DMA reads for `address`: above $DFFF the DMA sees a larger echo of the
/// work RAM than the CPU does (as mooneye-gb's hardware.rs has it).
pub open spec fn dma_source(address: u16) -> u16 {
    if address >= ECHO_RAM { (address - ECHO_RAM + WORK_RAM) as u16 } else { address }
}

/// The addresses still to copy, `start..end`.
#[derive(Clone)]
pub struct Dma {
    pub start: u16,
    pub end: u16,
}

impl Default for Dma {
    fn default() -> (r: Self)
        ensures
            r.start == 0 && r.end == 0,
    {
        Dma { start: 0, end: 0 }
    }
}

impl Dma {
    /// The state and the DMA after one M-cycle.
    pub open spec fn step_spec(self, s: State) -> (Dma, State) {
        let (d, s1) = if self.start < self.end {
            (
                Dma { start: (self.start + 1) as u16, ..self },
                State {
                    is_dma_active: true,
                    oam: vstd::array::spec_array_update(
                        s.oam,
                        (self.start % 256) as int,
                        s.read_spec(dma_source(self.start)),
                    ),
                    ..s
                },
            )
        } else {
            (self, State { is_dma_active: false, ..s })
        };
        if s1.dma_request {
            (
                Dma { start: (s1.dma_register * 256) as u16, end: (s1.dma_register * 256 + 0xa0) as u16 },
                State { dma_request: false, ..s1 },
            )
        } else {
            (d, s1)
        }
    }
}

impl Dma {
    /// The DMA and the state after `n` M-cycles.
    pub open spec fn steps(self, s: State, n: nat) -> (Dma, State)
        decreases n,
    {
        if n == 0 {
            (self, s)
        } else {
            let p = self.steps(s, (n - 1) as nat);
            p.0.step_spec(p.1)
        }
    }
}

impl StateMachine for Dma {
    /// A transfer stays within one page and stops at offset $A0.
    open spec fn wf(&self) -> bool {
        &&& self.start <= self.end
        &&& self.start < self.end ==> self.end % 256 == 0xa0 && self.start / 256 == self.end / 256
    }

    /// The byte to copy must be readable.
    open spec fn can_step(&self, state: State) -> bool {
        self.start < self.end ==> state.readable(dma_source(self.start))
    }

    open spec fn step(&self, state: State) -> (Self, State) {
        self.step_spec(state)
    }

    fn execute(&mut self, state: &mut State, cycle_count: u64) {
        broadcast use vstd::array::group_array_axioms;
        if self.start < self.end {
            let address = self.start;
            self.start = self.start + 1;
            let source = if address >= ECHO_RAM { address - ECHO_RAM + WORK_RAM } else { address };
            let value = state.mmu().read(source);
            state.is_dma_active = true;
            let offset = (address % 256) as usize;
            state.oam[offset] = value;
        } else {
            state.is_dma_active = false;
        }
        if state.dma_request {
            state.dma_request = false;
            let page = state.dma_register as u16;
            self.start = page * 256;
            self.end = page * 256 + 0xa0;
        }
    }
}

/// The byte that a transfer from page `page` copies to OAM slot `i`, as `s` holds it.
pub open spec fn page_byte(s: State, page: u8, i: int) -> u8 {
    s.read_spec(dma_source((page * 256 + i) as u16))
}

/// A whole OAM DMA transfer. Once a transfer is requested of an idle DMA, the first M-cycle
/// starts it and copies nothing; each of the next 160 copies one byte, byte `k` of the page that
/// the DMA register names to OAM slot `k` in increasing order, the DMA being active after each;
/// the cycle after them finds it inactive. Only OAM, the active flag and the request change.
pub proof fn lemma_dma_transfer(d: Dma, s: State)
    requires
        d.start >= d.end,
        s.dma_request,
    ensures
        d.steps(s, 1).1 == (State { is_dma_active: false, dma_request: false, ..s }),
        forall|k: int|
            0 < k <= 160 ==> {
                let t = #[trigger] d.steps(s, (k + 1) as nat).1;
                &&& t == (State { oam: t.oam, is_dma_active: true, dma_request: false, ..s })
                &&& t.oam@ == d.steps(s, k as nat).1.oam@.update(k - 1, page_byte(s, s.dma_register, k - 1))
            },
        d.steps(s, 162).1 == (State { is_dma_active: false, ..d.steps(s, 161).1 }),
        forall|i: int| 0 <= i < 0xa0 ==> #[trigger] d.steps(s, 162).1.oam@[i] == page_byte(s, s.dma_register, i),
{
    assert forall|k: int| 0 < k <= 160 implies {
        let t = #[trigger] d.steps(s, (k + 1) as nat).1;
        &&& t == (State { oam: t.oam, is_dma_active: true, dma_request: false, ..s })
        &&& t.oam@ == d.steps(s, k as nat).1.oam@.update(k - 1, page_byte(s, s.dma_register, k - 1))
    } by {
        lemma_dma_transfer_prefix(d, s, k);
        lemma_dma_transfer_prefix(d, s, k - 1);
    }
    assert(d.steps(s, 1) == d.step_spec(s)) by {
        reveal_with_fuel(Dma::steps, 2);
    }
    lemma_dma_transfer_prefix(d, s, 160);
    assert(d.steps(s, 162) == d.steps(s, 161).0.step_spec(d.steps(s, 161).1));
}

/// After the first M-cycle and `k` more, the DMA holds the rest of the page and OAM holds the
/// first `k` bytes of the page.
proof fn lemma_dma_transfer_prefix(d: Dma, s: State, k: int)
    requires
        d.start >= d.end,
        s.dma_request,
        0 <= k <= 160,
    ensures
        ({
            let p = d.steps(s, (k + 1) as nat);
            &&& p.0 == (Dma { start: (s.dma_register * 256 + k) as u16, end: (s.dma_register * 256 + 0xa0) as u16 })
            &&& p.1 == (State { oam: p.1.oam, is_dma_active: k > 0, dma_request: false, ..s })
            &&& forall|i: int| 0 <= i < k ==> #[trigger] p.1.oam@[i] == page_byte(s, s.dma_register, i)
            &&& forall|i: int| k <= i < 0xa0 ==> #[trigger] p.1.oam@[i] == s.oam@[i]
        }),
        k > 0 ==> d.steps(s, (k + 1) as nat).1.oam@ == d.steps(s, k as nat).1.oam@.update(
            k - 1,
            page_byte(s, s.dma_register, k - 1),
        ),
    decreases k,
{
    broadcast use vstd::array::group_array_axioms;
    reveal_with_fuel(Dma::steps, 2);
    if k > 0 {
        lemma_dma_transfer_prefix(d, s, k - 1);
        let p = d.steps(s, k as nat);
        let a = (s.dma_register * 256 + (k - 1)) as u16;
        assert(a % 256 == k - 1);
        assert(dma_source(a) < 0xe000);
        assert(p.1.read_spec(dma_source(a)) == s.read_spec(dma_source(a)));
        assert(d.steps(s, (k + 1) as nat) == p.0.step_spec(p.1));
    }
}

} // verus!
