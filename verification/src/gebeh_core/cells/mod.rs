use vstd::prelude::*;

pub mod dffr;
pub mod drlatch_ee;
pub mod nor_latch;
pub mod tffnl;

pub use dffr::Dffr;
pub use dffr::DffrToggle;
pub use drlatch_ee::DrlatchEe;
pub use nor_latch::NorLatch;
pub use tffnl::Tffnl;

verus! {

/// Detects a falling edge (high then low) between two consecutive samples.
#[derive(Clone, Copy)]
pub struct NegativeEdge(pub bool);

impl Default for NegativeEdge {
    fn default() -> (r: Self)
        ensures
            !r.0,
    {
        NegativeEdge(false)
    }
}

impl NegativeEdge {
    /// The detector after sampling `input`.
    pub open spec fn next(self, input: bool) -> NegativeEdge {
        NegativeEdge(input)
    }

    /// Remembers `input` and reports whether the previous sample was high and this one is low.
    pub fn update(&mut self, input: bool) -> (r: bool)
        ensures
            r == (old(self).0 && !input),
            *final(self) == old(self).next(input),
    {
        let output = self.0 && !input;
        self.0 = input;
        output
    }
}

} // verus!
