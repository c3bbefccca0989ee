//! OAM DMA: copies 160 bytes to object attribute memory, one per M-cycle.
//! About conflicts: https://github.com/Gekkio/mooneye-gb/issues/39#issuecomment-265953981
use vstd::prelude::*;

use crate::gebeh_core::external_bus::{bus_read, bus_readable, external_bus_read};
use crate::gebeh_core::mbc::Mbc;

verus! {

#[derive(Clone, Copy)]
pub struct Dma {
    /// The addresses still to copy: `range_start..range_end`.
    pub range_start: u16,
    pub range_end: u16,
    pub is_active: bool,
    pub dma_register: u8,
    pub dma_request: bool,
}

impl Default for Dma {
    fn default() -> (r: Self)
        ensures
            r == (Dma { range_start: 0, range_end: 0, is_active: false, dma_register: 0, dma_request: false }),
            r.wf(),
    {
        Dma { range_start: 0, range_end: 0, is_active: false, dma_register: 0, dma_request: false }
    }
}

impl Dma {
    /// The pending range lies within one source page, below offset $A0.
    pub open spec fn wf(self) -> bool {
        self.range_start >= self.range_end || (self.range_end % 256 == 0xa0 && self.range_end - self.range_start
            <= 0xa0)
    }

    pub fn is_active(&self) -> (r: bool)
        ensures
            r == self.is_active,
    {
        self.is_active
    }

    /// One M-cycle from `self` and `oam` to `after` and `oam_after`: the next byte of the
    /// pending range, if any, goes to its OAM slot; a request then replaces the range by the
    /// page `dma_register * $100`, offsets $00-$9F.
    pub open spec fn step_post<M: Mbc>(
        self,
        mbc: &M,
        vram: Seq<u8>,
        wram: Seq<u8>,
        oam: Seq<u8>,
        after: Dma,
        oam_after: Seq<u8>,
    ) -> bool {
        &&& oam_after == (if self.range_start < self.range_end {
            oam.update(self.range_start as int % 256, bus_read(self.range_start, mbc, vram, wram))
        } else {
            oam
        })
        &&& after.is_active == (self.range_start < self.range_end)
        &&& after.dma_register == self.dma_register
        &&& !after.dma_request
        &&& self.dma_request ==> after.range_start == self.dma_register as u16 * 0x100 && after.range_end
            == self.dma_register as u16 * 0x100 + 0xa0
        &&& !self.dma_request ==> after.range_end == self.range_end && after.range_start == (if self.range_start
            < self.range_end {
            self.range_start + 1
        } else {
            self.range_start as int
        })
    }

    /// One M-cycle: copy the next byte if any, then start a requested transfer from
    /// `dma_register * $100` for the next cycle.
    pub fn execute<M: Mbc>(&mut self, mbc: &M, vram: &[u8], oam: &mut [u8], wram: &[u8], cycles: u64)
        requires
            vram@.len() >= 0x2000,
            wram@.len() >= 0x2000,
            old(oam)@.len() >= 0xa0,
            old(self).range_start < old(self).range_end ==> bus_readable(old(self).range_start, mbc),
            old(self).wf(),
        ensures
            final(self).wf(),
            old(self).step_post(mbc, vram@, wram@, old(oam)@, *final(self), final(oam)@),
    {
        if self.range_start < self.range_end {
            let address = self.range_start;
            self.range_start = self.range_start + 1;
            self.is_active = true;
            let value = external_bus_read(address, mbc, vram, wram);
            assert((address as u8) == address % 256) by (bit_vector);
            oam[(address as u8) as usize] = value;
        } else {
            self.is_active = false;
        }
        if self.dma_request {
            self.dma_request = false;
            self.range_start = (self.dma_register as u16) * 0x100;
            self.range_end = (self.dma_register as u16) * 0x100 + 0xa0;
        }
    }
}

/// A whole OAM DMA transfer. Once a transfer from page `h` is requested of a unit with no copy
/// pending, the first cycle starts it and copies nothing; each of the next 160 cycles copies one
/// byte, byte `k` of the page to OAM slot `k` in increasing order, the unit being active after
/// each; the cycle after them finds the unit idle. OAM then holds the page.
pub proof fn lemma_oam_transfer<M: Mbc>(
    dmas: Seq<Dma>,
    oams: Seq<Seq<u8>>,
    mbc: &M,
    vram: Seq<u8>,
    wram: Seq<u8>,
)
    requires
        dmas.len() == 163,
        oams.len() == 163,
        oams[0].len() >= 0xa0,
        dmas[0].dma_request,
        dmas[0].range_start >= dmas[0].range_end,
        forall|k: int|
            0 <= k < 162 ==> #[trigger] dmas[k].step_post(mbc, vram, wram, oams[k], dmas[k + 1], oams[k + 1]),
    ensures
        !dmas[1].is_active,
        oams[1] == oams[0],
        forall|k: int|
            0 <= k < 160 ==> #[trigger] oams[k + 2] == oams[k + 1].update(
                k,
                bus_read((dmas[0].dma_register as u16 * 0x100 + k) as u16, mbc, vram, wram),
            ) && dmas[k + 2].is_active,
        !dmas[162].is_active,
        oams[162].len() == oams[0].len(),
        forall|i: int|
            0 <= i < 0xa0 ==> #[trigger] oams[162][i] == bus_read(
                (dmas[0].dma_register as u16 * 0x100 + i) as u16,
                mbc,
                vram,
                wram,
            ),
        forall|i: int| 0xa0 <= i < oams[0].len() ==> #[trigger] oams[162][i] == oams[0][i],
{
    let h = dmas[0].dma_register;
    let base = h as u16 * 0x100;
    let z: int = 0;
    assert(dmas[z].step_post(mbc, vram, wram, oams[z], dmas[z + 1], oams[z + 1]));
    // After k copies, the range left is the rest of the page and OAM holds its first k bytes.
    assert forall|k: int| 0 <= k <= 160 implies {
        &&& #[trigger] dmas[k + 1].range_start == base + k
        &&& dmas[k + 1].range_end == base + 0xa0
        &&& !dmas[k + 1].dma_request
        &&& dmas[k + 1].dma_register == h
        &&& oams[k + 1].len() == oams[0].len()
        &&& forall|i: int| 0 <= i < k ==> #[trigger] oams[k + 1][i] == bus_read((base + i) as u16, mbc, vram, wram)
        &&& forall|i: int| k <= i < oams[0].len() ==> #[trigger] oams[k + 1][i] == oams[0][i]
    } by {
        lemma_oam_transfer_prefix(dmas, oams, mbc, vram, wram, k);
    }
    assert forall|k: int| 0 <= k < 160 implies #[trigger] oams[k + 2] == oams[k + 1].update(
        k,
        bus_read((base + k) as u16, mbc, vram, wram),
    ) && dmas[k + 2].is_active by {
        let j = k + 1;
        assert(dmas[j].step_post(mbc, vram, wram, oams[j], dmas[j + 1], oams[j + 1]));
        assert(dmas[j].range_start == base + k);
        assert((base + k) % 256 == k);
    }
    lemma_oam_transfer_prefix(dmas, oams, mbc, vram, wram, 160);
    let last: int = 161;
    assert(dmas[last].step_post(mbc, vram, wram, oams[last], dmas[last + 1], oams[last + 1]));
    assert(oams[162] == oams[161]);
}

proof fn lemma_oam_transfer_prefix<M: Mbc>(
    dmas: Seq<Dma>,
    oams: Seq<Seq<u8>>,
    mbc: &M,
    vram: Seq<u8>,
    wram: Seq<u8>,
    k: int,
)
    requires
        dmas.len() == 163,
        oams.len() == 163,
        oams[0].len() >= 0xa0,
        dmas[0].dma_request,
        dmas[0].range_start >= dmas[0].range_end,
        forall|k: int|
            0 <= k < 162 ==> #[trigger] dmas[k].step_post(mbc, vram, wram, oams[k], dmas[k + 1], oams[k + 1]),
        0 <= k <= 160,
    ensures
        dmas[k + 1].range_start == dmas[0].dma_register as u16 * 0x100 + k,
        dmas[k + 1].range_end == dmas[0].dma_register as u16 * 0x100 + 0xa0,
        !dmas[k + 1].dma_request,
        dmas[k + 1].dma_register == dmas[0].dma_register,
        oams[k + 1].len() == oams[0].len(),
        forall|i: int|
            0 <= i < k ==> #[trigger] oams[k + 1][i] == bus_read(
                (dmas[0].dma_register as u16 * 0x100 + i) as u16,
                mbc,
                vram,
                wram,
            ),
        forall|i: int| k <= i < oams[0].len() ==> #[trigger] oams[k + 1][i] == oams[0][i],
    decreases k,
{
    let base = dmas[0].dma_register as u16 * 0x100;
    if k == 0 {
        let z: int = 0;
    assert(dmas[z].step_post(mbc, vram, wram, oams[z], dmas[z + 1], oams[z + 1]));
    } else {
        lemma_oam_transfer_prefix(dmas, oams, mbc, vram, wram, k - 1);
        assert(dmas[k].step_post(mbc, vram, wram, oams[k], dmas[k + 1], oams[k + 1]));
        let j = k - 1;
        assert((base + j) % 256 == j);
    }
}

} // verus!
