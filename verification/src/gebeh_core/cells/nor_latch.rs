use vstd::prelude::*;

verus! {

/// Set/reset latch built from two NOR gates; set wins over reset.
#[derive(Clone, Copy)]
pub struct NorLatch(pub bool);

impl Default for NorLatch {
    fn default() -> (r: Self)
        ensures
            !r.0,
    {
        NorLatch(false)
    }
}

impl NorLatch {
    /// The latch after one update with set `s` and reset `r`.
    pub open spec fn next(self, s: bool, r: bool) -> NorLatch {
        NorLatch(self.0 && !r || s)
    }

    pub fn update(&mut self, s: bool, r: bool) -> (out: bool)
        ensures
            *final(self) == old(self).next(s, r),
            out == final(self).0,
    {
        self.0 = self.0 && !r || s;
        self.0
    }
}

} // verus!
