//! A sprite fetcher that follows a cursor in object coordinates and honours the X flip.
use vstd::prelude::*;

use arrayvec::ArrayVec;

use crate::gb_core::array_vec::{attribute_buffer_last, attribute_buffer_pop, attribute_items};
use crate::gb_core::ppu::pixel_fetcher::{get_object_tile_line, object_line_byte, sprite_loaded, RenderingState};
use crate::gb_core::ppu::{ObjectAttribute, OBJ_DMG_PALETTE, OBJ_ENABLE, OBJ_PRIORITY, OBJ_X_FLIP};
use crate::gb_core::state::State;

verus! {

/// A byte with its bits in reverse order (bit 0 becomes bit 7).
pub open spec fn reversed_bits(b: u8) -> u8 {
    ((b & 0x01) << 7u8) | ((b & 0x02) << 5u8) | ((b & 0x04) << 3u8) | ((b & 0x08) << 1u8) | ((b & 0x10) >> 1u8)
        | ((b & 0x20) >> 3u8) | ((b & 0x40) >> 5u8) | ((b & 0x80) >> 7u8)
}

/// `reversed_bits` does reverse the bits.
pub proof fn lemma_reversed_bits(b: u8, i: u8)
    requires
        i < 8,
    ensures
        (reversed_bits(b) >> i) & 1 == (b >> (7 - i) as u8) & 1,
{
    assert((((b & 0x01) << 7u8) | ((b & 0x02) << 5u8) | ((b & 0x04) << 3u8) | ((b & 0x08) << 1u8) | ((b & 0x10)
        >> 1u8) | ((b & 0x20) >> 3u8) | ((b & 0x40) >> 5u8) | ((b & 0x80) >> 7u8)) >> i & 1 == (b >> (7 - i) as u8)
        & 1) by (bit_vector)
        requires
            i < 8,
    ;
}

fn reverse_bits(b: u8) -> (r: u8)
    ensures
        r == reversed_bits(b),
{
    ((b & 0x01) << 7u8) | ((b & 0x02) << 5u8) | ((b & 0x04) << 3u8) | ((b & 0x08) << 1u8) | ((b & 0x10) >> 1u8) | ((b
        & 0x20) >> 3u8) | ((b & 0x40) >> 5u8) | ((b & 0x80) >> 7u8)
}

/// The sprite fetcher: two dots for the tile index, two for the low byte, two for the high one.
#[derive(Clone, Copy)]
pub enum SpriteFetcher {
    FetchingTileLow { delay: u8 },
    FetchingTileHigh { one_dot_delay: bool, tile_low: u8 },
}

impl Default for SpriteFetcher {
    fn default() -> (r: Self)
        ensures
            r == (SpriteFetcher::FetchingTileLow { delay: 0 }),
    {
        SpriteFetcher::FetchingTileLow { delay: 0 }
    }
}

/// The delay never passes 3.
pub open spec fn sprite_fetcher_ready(f: SpriteFetcher) -> bool {
    match f {
        SpriteFetcher::FetchingTileLow { delay } => delay <= 3,
        _ => true,
    }
}

/// One dot. The next object (the last one held) is taken when the cursor reaches its X. With
/// objects off it is dropped and shifting goes on; else shifting stops while its row is
/// fetched (once the background fetcher allows it), merged into the sprite FIFO (mirrored for
/// an X-flipped object) and the object dropped.
pub open spec fn sprite_fetch_step(
    f: SpriteFetcher,
    cursor: i16,
    rs: RenderingState,
    objects: Seq<ObjectAttribute>,
    s: State,
) -> (SpriteFetcher, RenderingState, Seq<ObjectAttribute>) {
    if objects.len() == 0 || objects.last().x != cursor {
        (f, rs, objects)
    } else if s.lcd_control & OBJ_ENABLE == 0 {
        (f, RenderingState { is_shifting: true, ..rs }, objects.drop_last())
    } else {
        let obj = objects.last();
        let rs1 = RenderingState { is_shifting: false, ..rs };
        if !rs1.is_sprite_fetching_enable || rs1.fifos.shifted_count % 8 == 0 {
            (f, rs1, objects)
        } else {
            match f {
                SpriteFetcher::FetchingTileLow { delay } => if delay == 3 {
                    (
                        SpriteFetcher::FetchingTileHigh { one_dot_delay: false, tile_low: object_line_byte(s, obj, 0) },
                        rs1,
                        objects,
                    )
                } else {
                    (SpriteFetcher::FetchingTileLow { delay: (delay + 1) as u8 }, rs1, objects)
                },
                SpriteFetcher::FetchingTileHigh { one_dot_delay, tile_low } => if !one_dot_delay {
                    (SpriteFetcher::FetchingTileHigh { one_dot_delay: true, tile_low }, rs1, objects)
                } else {
                    let tile_high = object_line_byte(s, obj, 1);
                    let tile = if obj.flags & OBJ_X_FLIP != 0 {
                        [reversed_bits(tile_low), reversed_bits(tile_high)]
                    } else {
                        [tile_low, tile_high]
                    };
                    (
                        SpriteFetcher::FetchingTileLow { delay: 0 },
                        RenderingState {
                            is_shifting: true,
                            fifos: sprite_loaded(
                                rs1.fifos,
                                tile,
                                obj.flags & OBJ_PRIORITY != 0,
                                obj.flags & OBJ_DMG_PALETTE != 0,
                            ),
                            ..rs1
                        },
                        objects.drop_last(),
                    )
                },
            }
        }
    }
}

impl SpriteFetcher {
    /// `cursor` is in object coordinates (screen X plus 8) and may be negative with scrolling.
    pub fn execute(
        &mut self,
        cursor: i16,
        rendering_state: &mut RenderingState,
        objects: &mut ArrayVec<ObjectAttribute, 10>,
        state: &State,
        dots_count: u16,
    )
        requires
            sprite_fetcher_ready(*old(self)),
            attribute_items(*old(objects)).len() > 0 ==> state.ly < 240 && attribute_items(*old(objects)).last().y
                <= state.ly + 16,
        ensures
            sprite_fetcher_ready(*final(self)),
            (*final(self), *final(rendering_state), attribute_items(*final(objects))) == sprite_fetch_step(
                *old(self),
                cursor,
                *old(rendering_state),
                attribute_items(*old(objects)),
                *state,
            ),
    {
        let last = attribute_buffer_last(objects);
        let obj = match last {
            Some(obj) => obj,
            None => {
                return;
            },
        };
        if obj.x as i16 != cursor {
            return;
        }
        let is_obj_canceled = state.lcd_control & OBJ_ENABLE == 0;
        rendering_state.is_shifting = is_obj_canceled;
        if is_obj_canceled {
            let _ = attribute_buffer_pop(objects);
            return;
        }
        if !rendering_state.is_sprite_fetching_enable || rendering_state.fifos.is_background_empty() {
            return;
        }
        match *self {
            SpriteFetcher::FetchingTileLow { delay } => {
                if delay == 3 {
                    let line = get_object_tile_line(state, &obj);
                    *self = SpriteFetcher::FetchingTileHigh { one_dot_delay: false, tile_low: line[0] };
                } else {
                    *self = SpriteFetcher::FetchingTileLow { delay: delay + 1 };
                }
            },
            SpriteFetcher::FetchingTileHigh { one_dot_delay, tile_low } => {
                if !one_dot_delay {
                    *self = SpriteFetcher::FetchingTileHigh { one_dot_delay: true, tile_low };
                } else {
                    let line = get_object_tile_line(state, &obj);
                    let tile_high = line[1];
                    rendering_state.is_shifting = true;
                    let tile = if obj.flags & OBJ_X_FLIP != 0 {
                        [reverse_bits(tile_low), reverse_bits(tile_high)]
                    } else {
                        [tile_low, tile_high]
                    };
                    rendering_state.fifos.load_sprite(
                        tile,
                        obj.flags & OBJ_PRIORITY != 0,
                        obj.flags & OBJ_DMG_PALETTE != 0,
                    );
                    let _ = attribute_buffer_pop(objects);
                    *self = SpriteFetcher::FetchingTileLow { delay: 0 };
                }
            },
        }
    }
}

} // verus!
