//! What the DMA unit reads: the external bus, which also reaches a wider echo of work RAM.
use vstd::prelude::*;

use crate::gebeh_core::addresses::{ECHO_RAM, EXTERNAL_RAM, VIDEO_RAM, WORK_RAM};
use crate::gebeh_core::mbc::Mbc;

verus! {

/// Whether a bus read at `index` is served, given the cartridge.
pub open spec fn bus_readable<M: Mbc>(index: u16, mbc: &M) -> bool {
    (index < 0x8000 || 0xa000 <= index < 0xc000) ==> mbc.wf() && mbc.readable(index)
}

/// The byte at `index` on the bus: cartridge, video RAM, cartridge RAM, then work RAM and
/// its echo, which reaches up to $FFFF for the DMA.
pub open spec fn bus_read<M: Mbc>(index: u16, mbc: &M, vram: Seq<u8>, wram: Seq<u8>) -> u8 {
    if index < 0x8000 {
        mbc.read_spec(index)
    } else if index < 0xa000 {
        vram[index - 0x8000]
    } else if index < 0xc000 {
        mbc.read_spec(index)
    } else if index < 0xe000 {
        wram[index - 0xc000]
    } else {
        wram[index - 0xe000]
    }
}

/// From mooneye-gb: if greater than $DFFF then the DMA has access to a bigger echo RAM
/// than the CPU.
pub fn external_bus_read<M: Mbc>(index: u16, mbc: &M, vram: &[u8], wram: &[u8]) -> (r: u8)
    requires
        vram@.len() >= 0x2000,
        wram@.len() >= 0x2000,
        bus_readable(index, mbc),
    ensures
        r == bus_read(index, mbc, vram@, wram@),
{
    if index < VIDEO_RAM {
        mbc.read(index)
    } else if index < EXTERNAL_RAM {
        vram[(index - VIDEO_RAM) as usize]
    } else if index < WORK_RAM {
        mbc.read(index)
    } else if index < ECHO_RAM {
        wram[(index - WORK_RAM) as usize]
    } else {
        wram[(index - ECHO_RAM) as usize]
    }
}

} // verus!
