use vstd::prelude::*;

verus! {

/// D flip-flop with an active-low reset: samples `d` on a rising clock edge.
#[derive(Clone, Copy)]
pub struct Dffr {
    pub clk: bool,
    pub state: bool,
}

impl Default for Dffr {
    fn default() -> (r: Self)
        ensures
            !r.clk,
            !r.state,
    {
        Dffr { clk: false, state: false }
    }
}

/// The state a D flip-flop holds after one update.
pub open spec fn dffr_next(clk_before: bool, state_before: bool, d: bool, clk: bool, r_n: bool) -> bool {
    (if !clk_before && clk { d } else { state_before }) && r_n
}

impl Dffr {
    /// The flip-flop after one update with inputs `d`, `clk`, `r_n`.
    pub open spec fn next(self, d: bool, clk: bool, r_n: bool) -> Dffr {
        Dffr { clk, state: dffr_next(self.clk, self.state, d, clk, r_n) }
    }

    pub fn update(&mut self, d: bool, clk: bool, r_n: bool) -> (r: bool)
        ensures
            *final(self) == old(self).next(d, clk, r_n),
            r == final(self).state,
    {
        if !self.clk && clk {
            self.state = d;
        }
        self.state = self.state && r_n;
        self.clk = clk;
        self.state
    }
}

/// Toggle flip-flop with an active-low reset: inverts its state on a rising clock edge.
#[derive(Clone, Copy)]
pub struct DffrToggle {
    pub clk: bool,
    pub state: bool,
}

impl Default for DffrToggle {
    fn default() -> (r: Self)
        ensures
            !r.clk,
            !r.state,
    {
        DffrToggle { clk: false, state: false }
    }
}

impl DffrToggle {
    /// The flip-flop after one update with inputs `clk`, `r_n`.
    pub open spec fn next(self, clk: bool, r_n: bool) -> DffrToggle {
        DffrToggle {
            clk,
            state: (if !self.clk && clk { !self.state } else { self.state }) && r_n,
        }
    }

    pub fn update(&mut self, clk: bool, r_n: bool) -> (r: bool)
        ensures
            *final(self) == old(self).next(clk, r_n),
            r == final(self).state,
    {
        if !self.clk && clk {
            self.state = !self.state;
        }
        self.state = self.state && r_n;
        self.clk = clk;
        self.state
    }
}

} // verus!
