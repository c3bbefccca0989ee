use vstd::prelude::*;

verus! {

/// Whether bit `index` of `byte` is set.
pub open spec fn bit_of(byte: u8, index: u8) -> bool {
    byte & (1u8 << index) != 0
}

/// `byte` with bit `index` replaced by `new_bit`.
pub open spec fn with_bit(byte: u8, index: u8, new_bit: bool) -> u8 {
    if new_bit {
        byte | (1u8 << index)
    } else {
        byte & !(1u8 << index)
    }
}

/// Replacing one bit changes that bit and no other.
pub proof fn lemma_with_bit(byte: u8, index: u8, new_bit: bool)
    requires
        index < 8,
    ensures
        forall|j: u8|
            j < 8 ==> #[trigger] bit_of(with_bit(byte, index, new_bit), j) == (if j == index {
                new_bit
            } else {
                bit_of(byte, j)
            }),
{
    assert(forall|j: u8|
        j < 8 ==> ((byte | (1u8 << index)) & (1u8 << j) != 0) == (if j == index {
            true
        } else {
            byte & (1u8 << j) != 0
        })) by (bit_vector)
        requires
            index < 8,
    ;
    assert(forall|j: u8|
        j < 8 ==> ((byte & !(1u8 << index)) & (1u8 << j) != 0) == (if j == index {
            false
        } else {
            byte & (1u8 << j) != 0
        })) by (bit_vector)
        requires
            index < 8,
    ;
}

/// Eight toggle flip-flops with load input and negative-edge toggling clocks, one per bit.
#[derive(Clone, Copy)]
pub struct Tffnl {
    pub state: u8,
    pub tclk_n: u8,
}

impl Default for Tffnl {
    fn default() -> (r: Self)
        ensures
            r.state == 0,
            r.tclk_n == 0,
    {
        Tffnl { state: 0, tclk_n: 0 }
    }
}

/// The state of all eight cells after updating cell `index`.
pub open spec fn tffnl_next_state(state: u8, tclk_n_before: u8, index: u8, d: bool, load: bool, tclk_n: bool) -> u8 {
    let loaded = if load { with_bit(state, index, d) } else { state };
    if bit_of(tclk_n_before, index) && !tclk_n {
        with_bit(loaded, index, !bit_of(loaded, index))
    } else {
        loaded
    }
}

impl Tffnl {
    /// The cells after updating cell `index`.
    pub open spec fn next(self, index: u8, d: bool, load: bool, tclk_n: bool) -> Tffnl {
        Tffnl {
            state: tffnl_next_state(self.state, self.tclk_n, index, d, load, tclk_n),
            tclk_n: with_bit(self.tclk_n, index, tclk_n),
        }
    }

    pub fn update(&mut self, index: u8, d: bool, load: bool, tclk_n: bool) -> (r: bool)
        requires
            index < 8,
        ensures
            *final(self) == old(self).next(index, d, load, tclk_n),
            r == bit_of(final(self).state, index),
    {
        if load {
            self.state = set_bit_at(self.state, index, d);
        }
        if get_bit_at(self.tclk_n, index) && !tclk_n {
            let flipped = !get_bit_at(self.state, index);
            self.state = set_bit_at(self.state, index, flipped);
        }
        self.tclk_n = set_bit_at(self.tclk_n, index, tclk_n);
        get_bit_at(self.state, index)
    }

    pub fn get_state(&self) -> (r: u8)
        ensures
            r == self.state,
    {
        self.state
    }
}

pub fn set_bit_at(byte: u8, index: u8, new_bit: bool) -> (r: u8)
    requires
        index < 8,
    ensures
        r == with_bit(byte, index, new_bit),
{
    if new_bit {
        byte | (1u8 << index)
    } else {
        byte & !(1u8 << index)
    }
}

pub fn get_bit_at(byte: u8, index: u8) -> (r: bool)
    requires
        index < 8,
    ensures
        r == bit_of(byte, index),
{
    (byte & (1u8 << index)) != 0
}

} // verus!
