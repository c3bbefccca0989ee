//! Interrupt request and enable flags.
use vstd::prelude::*;

verus! {

/// A set of interrupt sources, one bit each; bit 0 has the highest priority.
#[derive(Clone, Copy, PartialEq, Eq, Structural, Debug)]
pub struct Interrupts(pub u8);

/// The known sources, in priority order, followed by the bits no source owns.
pub open spec fn interrupt_flags(bits: u8) -> Seq<Interrupts> {
    let known = flags_below(bits, 5);
    if bits & 0xe0 != 0 {
        known.push(Interrupts(bits & 0xe0))
    } else {
        known
    }
}

/// The single-bit flags among bits `0..k` of `bits`, lowest bit first.
pub open spec fn flags_below(bits: u8, k: nat) -> Seq<Interrupts>
    decreases k,
{
    if k == 0 {
        Seq::empty()
    } else {
        let flag = Interrupts(1u8 << ((k - 1) as u8));
        let below = flags_below(bits, (k - 1) as nat);
        if bits & flag.0 != 0 { below.push(flag) } else { below }
    }
}

impl Interrupts {
    pub fn vblank() -> (r: Self)
        ensures
            r.0 == 1,
    {
        Interrupts(1)
    }

    pub fn lcd() -> (r: Self)
        ensures
            r.0 == 2,
    {
        Interrupts(2)
    }

    pub fn timer() -> (r: Self)
        ensures
            r.0 == 4,
    {
        Interrupts(4)
    }

    pub fn serial() -> (r: Self)
        ensures
            r.0 == 8,
    {
        Interrupts(8)
    }

    pub fn joypad() -> (r: Self)
        ensures
            r.0 == 16,
    {
        Interrupts(16)
    }

    pub fn empty() -> (r: Self)
        ensures
            r.0 == 0,
    {
        Interrupts(0)
    }

    pub fn all() -> (r: Self)
        ensures
            r.0 == 0x1f,
    {
        Interrupts(0x1f)
    }

    pub fn bits(&self) -> (r: u8)
        ensures
            r == self.0,
    {
        self.0
    }

    pub fn from_bits_retain(bits: u8) -> (r: Self)
        ensures
            r.0 == bits,
    {
        Interrupts(bits)
    }

    /// Drops the bits that name no source.
    pub fn from_bits_truncate(bits: u8) -> (r: Self)
        ensures
            r.0 == bits & 0x1f,
    {
        Interrupts(bits & 0x1f)
    }

    pub fn contains(&self, other: Interrupts) -> (r: bool)
        ensures
            r == (self.0 & other.0 == other.0),
    {
        self.0 & other.0 == other.0
    }

    pub fn insert(&mut self, other: Interrupts)
        ensures
            final(self).0 == old(self).0 | other.0,
    {
        self.0 = self.0 | other.0;
    }

    pub fn remove(&mut self, other: Interrupts)
        ensures
            final(self).0 == old(self).0 & !other.0,
    {
        self.0 = self.0 & !other.0;
    }

    /// The flags set, one per item, from the highest priority down.
    pub fn iter(&self) -> (r: Vec<Interrupts>)
        ensures
            r@ == interrupt_flags(self.0),
    {
        let mut out: Vec<Interrupts> = Vec::new();
        let mut k: u8 = 0;
        let bits = self.0;
        while k < 5
            invariant
                k <= 5,
                bits == self.0,
                out@ == flags_below(bits, k as nat),
            decreases 5 - k,
        {
            let flag = Interrupts(1u8 << k);
            if bits & flag.0 != 0 {
                out.push(flag);
            }
            k = k + 1;
        }
        if bits & 0xe0 != 0 {
            out.push(Interrupts(bits & 0xe0));
        }
        out
    }
}

} // verus!
