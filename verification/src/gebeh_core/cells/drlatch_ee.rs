use vstd::prelude::*;

verus! {

/// Transparent D latch with an enable input and an active-low reset.
#[derive(Clone, Copy)]
pub struct DrlatchEe(pub bool);

impl Default for DrlatchEe {
    fn default() -> (r: Self)
        ensures
            !r.0,
    {
        DrlatchEe(false)
    }
}

impl DrlatchEe {
    /// The latch after one update with inputs `d`, `ena`, `r_n`.
    pub open spec fn next(self, d: bool, ena: bool, r_n: bool) -> DrlatchEe {
        DrlatchEe((if ena { d } else { self.0 }) && r_n)
    }

    pub fn update(&mut self, d: bool, ena: bool, r_n: bool) -> (r: bool)
        ensures
            *final(self) == old(self).next(d, ena, r_n),
            r == final(self).0,
    {
        if ena {
            self.0 = d;
        }
        self.0 = self.0 && r_n;
        self.0
    }

    pub fn get_state(&self) -> (r: bool)
        ensures
            r == self.0,
    {
        self.0
    }
}

} // verus!
