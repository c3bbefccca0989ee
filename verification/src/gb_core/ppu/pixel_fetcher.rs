//! A FIFO renderer: a background fetcher, a sprite fetcher and the pixel FIFOs between them.
//!
//! The PPU cannot fetch two tiles at once, so a sprite fetch pauses (and resets) the background
//! fetch; during it the LCD and the background FIFO are paused too. The background fetcher waits
//! for its FIFO to be empty before refilling it, while the sprite fetcher fills only the empty
//! slots of the sprite FIFO, so that an earlier sprite keeps its opaque pixels.
//! (https://gbdev.io/pandocs/pixel_fifo.html#fifo-pixel-fetcher,
//! https://gbdev.io/pandocs/OAM.html#drawing-priority)
use vstd::prelude::*;

use arrayvec::ArrayVec;

use crate::gb_core::array_vec::{
    attribute_buffer_last, attribute_buffer_pop, attribute_items, color_buffer_len, color_buffer_new,
    color_buffer_push, color_items,
};
use crate::gb_core::ppu::{
    bg_win_tile_base, copy_tile, get_line_from_tile, object_row, object_tile_index, palette_color, tile_at,
    Color, ColorIndex, ObjectAttribute, BG_AND_WINDOW_ENABLE, BG_AND_WINDOW_TILES, BG_TILE_MAP, OBJ_DMG_PALETTE,
    OBJ_PRIORITY, OBJ_SIZE, OBJ_Y_FLIP,
};
use crate::gb_core::state::{State, VIDEO_RAM};

verus! {

/// The scroll registers as a fetch reads them.
#[derive(Clone, Copy)]
pub struct Scrolling {
    pub x: u8,
    pub y: u8,
}

/// One of two outcomes.
#[derive(Clone, Copy)]
pub enum Either<L, R> {
    Left(L),
    Right(R),
}

/// The background tile map of LCDC: $9C00 or $9800.
pub open spec fn bg_tile_map_address(lcd_control: u8) -> u16 {
    if lcd_control & BG_TILE_MAP != 0 { 0x9c00 } else { 0x9800 }
}

/// Where the tile index sits in VRAM for tile column `column` on line `y` scrolled by `scy`:
/// 32 tiles per map row, 8 lines per tile, both wrapping.
pub open spec fn tile_index_offset(tile_map_address: u16, column: int, y: u8, scy: u8) -> int {
    tile_map_address - VIDEO_RAM + column % 32 + 32 * ((y + scy) % 256 / 8)
}

/// Byte `which` (0 low, 1 high) of the row that line `y` scrolled by `scy` shows of a
/// background or window tile.
pub open spec fn bg_tile_byte(vram: Seq<u8>, tile_index: u8, is_signed_addressing: bool, y: u8, scy: u8, which: int) -> u8 {
    tile_at(vram, bg_win_tile_base(tile_index, is_signed_addressing))[2 * ((y + scy) % 8) + which]
}

fn tile_index_at(vram: &[u8; 0x2000], tile_map_address: u16, column: u8, y: u8, scy: u8) -> (r: u8)
    requires
        VIDEO_RAM <= tile_map_address <= 0x9c00,
    ensures
        r == vram@[tile_index_offset(tile_map_address, column as int, y, scy)],
{
    proof {
        crate::bits::lemma_u8_low_bits(column);
    }
    let sum: u16 = y as u16 + scy as u16;
    proof {
        assert(sum & 0xff == sum % 256) by (bit_vector);
    }
    let address = tile_map_address + (column & 0x1f) as u16 + 32 * ((sum & 0xff) / 8);
    vram[(address - VIDEO_RAM) as usize]
}

fn bg_tile_byte_exec(vram: &[u8; 0x2000], tile_index: u8, is_signed_addressing: bool, y: u8, scy: u8, which: usize) -> (r: u8)
    requires
        which < 2,
    ensures
        r == bg_tile_byte(vram@, tile_index, is_signed_addressing, y, scy, which as int),
{
    let base: usize = if is_signed_addressing {
        if tile_index < 128 { 0x1000 + tile_index as usize * 16 } else { 0x1000 - (256 - tile_index as usize) * 16 }
    } else {
        tile_index as usize * 16
    };
    let tile = copy_tile(vram, base);
    tile[2 * ((y as usize + scy as usize) % 8) + which]
}

/// The steps of a tile fetch: read the scroll registers, the tile index, then the low and the
/// high byte of the tile row, each over two dots.
#[derive(Clone, Copy)]
pub enum PixelFetcherStep {
    /// The scroll registers are re-read on each tile fetch.
    /// https://gbdev.io/pandocs/Scrolling.html#scrolling
    WaitingForScrollRegisters,
    FetchingTileIndex { scx: u8, scy: u8 },
    FetchingTileLow { one_dot_delay: bool, tile_index: u8, scy: u8 },
    FetchingTileHigh { one_dot_delay: bool, tile_index: u8, tile_low: u8, scy: u8 },
}

/// A background fetcher that hands its tile row over when done.
#[derive(Clone, Copy)]
pub struct PixelFetcher {
    /// The tile column within the line, counted from the scroll position.
    pub x: u8,
    pub step: PixelFetcherStep,
}

/// A fetched tile row, waiting to be consumed.
#[derive(Clone, Copy)]
pub struct ReadyPixelFetcher {
    pub x: u8,
    pub tile_line: [u8; 2],
}

impl Default for PixelFetcher {
    fn default() -> (r: Self)
        ensures
            r.x == 0 && r.step == PixelFetcherStep::WaitingForScrollRegisters,
    {
        PixelFetcher { x: 0, step: PixelFetcherStep::WaitingForScrollRegisters }
    }
}

/// A fetch step that needs the scroll registers' column within range.
pub open spec fn pixel_fetcher_can_step(f: PixelFetcher) -> bool {
    match f.step {
        PixelFetcherStep::FetchingTileIndex { scx, .. } => f.x + scx / 8 < 256,
        _ => true,
    }
}

/// One dot of the fetcher: the next step, or the fetched row.
pub open spec fn pixel_fetcher_next(
    f: PixelFetcher,
    vram: Seq<u8>,
    tile_map_address: u16,
    scrolling: Scrolling,
    y: u8,
    is_signed_addressing: bool,
) -> Either<PixelFetcher, ReadyPixelFetcher> {
    match f.step {
        PixelFetcherStep::WaitingForScrollRegisters => Either::Left(
            PixelFetcher { step: PixelFetcherStep::FetchingTileIndex { scx: scrolling.x, scy: scrolling.y }, ..f },
        ),
        PixelFetcherStep::FetchingTileIndex { scx, scy } => Either::Left(
            PixelFetcher {
                step: PixelFetcherStep::FetchingTileLow {
                    one_dot_delay: false,
                    tile_index: vram[tile_index_offset(tile_map_address, f.x + scx / 8, y, scy)],
                    scy,
                },
                ..f
            },
        ),
        PixelFetcherStep::FetchingTileLow { one_dot_delay, tile_index, scy } => if !one_dot_delay {
            Either::Left(PixelFetcher { step: PixelFetcherStep::FetchingTileLow { one_dot_delay: true, tile_index, scy }, ..f })
        } else {
            Either::Left(
                PixelFetcher {
                    step: PixelFetcherStep::FetchingTileHigh {
                        one_dot_delay: false,
                        tile_index,
                        tile_low: bg_tile_byte(vram, tile_index, is_signed_addressing, y, scy, 0),
                        scy,
                    },
                    ..f
                },
            )
        },
        PixelFetcherStep::FetchingTileHigh { one_dot_delay, tile_index, tile_low, scy } => if !one_dot_delay {
            Either::Left(
                PixelFetcher {
                    step: PixelFetcherStep::FetchingTileHigh { one_dot_delay: true, tile_index, tile_low, scy },
                    ..f
                },
            )
        } else {
            Either::Right(
                ReadyPixelFetcher {
                    x: f.x,
                    tile_line: [tile_low, bg_tile_byte(vram, tile_index, is_signed_addressing, y, scy, 1)],
                },
            )
        },
    }
}

impl PixelFetcher {
    pub fn next(
        self,
        vram: &[u8; 0x2000],
        tile_map_address: u16,
        scrolling: Scrolling,
        y: u8,
        is_signed_addressing: bool,
    ) -> (r: Either<Self, ReadyPixelFetcher>)
        requires
            VIDEO_RAM <= tile_map_address <= 0x9c00,
            pixel_fetcher_can_step(self),
        ensures
            r == pixel_fetcher_next(self, vram@, tile_map_address, scrolling, y, is_signed_addressing),
    {
        let mut f = self;
        match self.step {
            PixelFetcherStep::WaitingForScrollRegisters => {
                f.step = PixelFetcherStep::FetchingTileIndex { scx: scrolling.x, scy: scrolling.y };
            },
            PixelFetcherStep::FetchingTileIndex { scx, scy } => {
                let tile_index = tile_index_at(vram, tile_map_address, self.x + scx / 8, y, scy);
                f.step = PixelFetcherStep::FetchingTileLow { one_dot_delay: false, tile_index, scy };
            },
            PixelFetcherStep::FetchingTileLow { one_dot_delay, tile_index, scy } => {
                if !one_dot_delay {
                    f.step = PixelFetcherStep::FetchingTileLow { one_dot_delay: true, tile_index, scy };
                } else {
                    let tile_low = bg_tile_byte_exec(vram, tile_index, is_signed_addressing, y, scy, 0);
                    f.step = PixelFetcherStep::FetchingTileHigh { one_dot_delay: false, tile_index, tile_low, scy };
                }
            },
            PixelFetcherStep::FetchingTileHigh { one_dot_delay, tile_index, tile_low, scy } => {
                if !one_dot_delay {
                    f.step = PixelFetcherStep::FetchingTileHigh { one_dot_delay: true, tile_index, tile_low, scy };
                } else {
                    let tile_high = bg_tile_byte_exec(vram, tile_index, is_signed_addressing, y, scy, 1);
                    return Either::Right(ReadyPixelFetcher { x: self.x, tile_line: [tile_low, tile_high] });
                }
            },
        }
        Either::Left(f)
    }
}

impl ReadyPixelFetcher {
    /// Back to fetching, one tile column further.
    pub fn consume(self) -> (r: PixelFetcher)
        requires
            self.x < 255,
        ensures
            r.step == PixelFetcherStep::WaitingForScrollRegisters,
            r.x == self.x + 1,
    {
        PixelFetcher { step: PixelFetcherStep::WaitingForScrollRegisters, x: self.x + 1 }
    }
}

/// The pixel FIFOs, one bit per pixel and the next pixel in bit 7, as
/// https://www.reddit.com/r/EmuDev/comments/s6cpis/comment/ht3lcfq/ describes them.
#[derive(Clone, Copy)]
pub struct Fifos {
    /// Low bits of the background pixels.
    pub bg0: u8,
    /// High bits of the background pixels.
    pub bg1: u8,
    /// Low bits of the sprite pixels.
    pub sp0: u8,
    /// High bits of the sprite pixels.
    pub sp1: u8,
    /// Whether the background is drawn over the sprite pixel.
    pub mask: u8,
    /// Whether a sprite pixel uses OBP1.
    pub palette: u8,
    /// Pixels shifted out since the line started; the background FIFO is empty on multiples of 8.
    pub shifted_count: u8,
}

/// The FIFOs with a new sprite row: only the slots that no earlier sprite filled take it.
pub open spec fn sprite_loaded(f: Fifos, tile: [u8; 2], priority: bool, palette: bool) -> Fifos {
    let existing = f.sp0 | f.sp1;
    let new_mask = (tile@[0] | tile@[1]) & !existing;
    Fifos {
        mask: if priority { f.mask | new_mask } else { f.mask & !new_mask },
        palette: if palette { f.palette | new_mask } else { f.palette & !new_mask },
        sp0: new_mask & tile@[0] | !new_mask & f.sp0,
        sp1: new_mask & tile@[1] | !new_mask & f.sp1,
        ..f
    }
}

/// The FIFOs one pixel on.
pub open spec fn fifos_shifted(f: Fifos) -> Fifos {
    Fifos {
        bg0: f.bg0 << 1u8,
        bg1: f.bg1 << 1u8,
        sp0: f.sp0 << 1u8,
        sp1: f.sp1 << 1u8,
        mask: f.mask << 1u8,
        palette: f.palette << 1u8,
        shifted_count: ((f.shifted_count + 1) % 256) as u8,
    }
}

/// The shade of the next pixel: the background when it is on and the sprite pixel is
/// transparent or behind an opaque background pixel, else the sprite in its palette.
pub open spec fn rendered_pixel(f: Fifos, bgp: u8, obp0: u8, obp1: u8, is_background_enabled: bool) -> Color {
    let bg = crate::gb_core::ppu::color_index_of(f.bg0 & 0x80 != 0, f.bg1 & 0x80 != 0);
    let sp = crate::gb_core::ppu::color_index_of(f.sp0 & 0x80 != 0, f.sp1 & 0x80 != 0);
    if is_background_enabled && (sp == ColorIndex::Zero || (f.mask & 0x80 != 0 && bg != ColorIndex::Zero)) {
        palette_color(bg, bgp)
    } else {
        palette_color(sp, if f.palette & 0x80 != 0 { obp1 } else { obp0 })
    }
}

impl Default for Fifos {
    fn default() -> (r: Self)
        ensures
            r == (Fifos { bg0: 0, bg1: 0, sp0: 0, sp1: 0, mask: 0, palette: 0, shifted_count: 0 }),
    {
        Fifos { bg0: 0, bg1: 0, sp0: 0, sp1: 0, mask: 0, palette: 0, shifted_count: 0 }
    }
}

impl Fifos {
    pub fn shift(&mut self)
        ensures
            *final(self) == fifos_shifted(*old(self)),
    {
        self.bg0 = self.bg0 << 1u8;
        self.bg1 = self.bg1 << 1u8;
        self.sp0 = self.sp0 << 1u8;
        self.sp1 = self.sp1 << 1u8;
        self.mask = self.mask << 1u8;
        self.palette = self.palette << 1u8;
        self.shifted_count = self.shifted_count.wrapping_add(1);
    }

    pub fn load_sprite(&mut self, tile: [u8; 2], priority: bool, palette: bool)
        ensures
            *final(self) == sprite_loaded(*old(self), tile, priority, palette),
    {
        let existing_sprite_mask = self.sp0 | self.sp1;
        let new_sprite_mask = (tile[0] | tile[1]) & !existing_sprite_mask;
        if priority {
            self.mask = self.mask | new_sprite_mask;
        } else {
            self.mask = self.mask & !new_sprite_mask;
        }
        if palette {
            self.palette = self.palette | new_sprite_mask;
        } else {
            self.palette = self.palette & !new_sprite_mask;
        }
        self.sp0 = new_sprite_mask & tile[0] | !new_sprite_mask & self.sp0;
        self.sp1 = new_sprite_mask & tile[1] | !new_sprite_mask & self.sp1;
    }

    pub fn replace_background(&mut self, tile: [u8; 2])
        ensures
            *final(self) == (Fifos { bg0: tile@[0], bg1: tile@[1], ..*old(self) }),
    {
        self.bg0 = tile[0];
        self.bg1 = tile[1];
    }

    pub fn render_pixel(&self, bgp: u8, obp0: u8, obp1: u8, is_background_enabled: bool) -> (r: Color)
        ensures
            r == rendered_pixel(*self, bgp, obp0, obp1, is_background_enabled),
    {
        let bg_color_index = ColorIndex::new(self.bg0 & 0x80 != 0, self.bg1 & 0x80 != 0);
        let sp_color_index = ColorIndex::new(self.sp0 & 0x80 != 0, self.sp1 & 0x80 != 0);
        if is_background_enabled && (sp_color_index == ColorIndex::Zero || (self.mask & 0x80 != 0 && bg_color_index
            != ColorIndex::Zero)) {
            return bg_color_index.get_color(bgp);
        }
        sp_color_index.get_color(if self.palette & 0x80 != 0 { obp1 } else { obp0 })
    }

    pub fn is_background_empty(&self) -> (r: bool)
        ensures
            r == (self.shifted_count % 8 == 0),
    {
        self.shifted_count % 8 == 0
    }
}

/// What the fetchers and the LCD share.
#[derive(Clone, Copy)]
pub struct RenderingState {
    pub is_shifting: bool,
    pub is_lcd_accepting_pixels: bool,
    pub is_sprite_fetching_enable: bool,
    pub fifos: Fifos,
}

impl Default for RenderingState {
    fn default() -> (r: Self)
        ensures
            !r.is_shifting && !r.is_lcd_accepting_pixels && !r.is_sprite_fetching_enable,
            r.fifos == (Fifos { bg0: 0, bg1: 0, sp0: 0, sp1: 0, mask: 0, palette: 0, shifted_count: 0 }),
    {
        RenderingState {
            is_shifting: false,
            is_lcd_accepting_pixels: false,
            is_sprite_fetching_enable: false,
            fifos: Fifos::default(),
        }
    }
}

/// The steps of the background (and window) fetcher; `Ready` holds a row until the FIFO empties.
#[derive(Clone, Copy)]
pub enum BackgroundPixelFetcherStep {
    WaitingForScrollRegisters,
    FetchingTileIndex { scx: u8, scy: u8 },
    FetchingTileLow { one_dot_delay: bool, tile_index: u8, scy: u8 },
    FetchingTileHigh { one_dot_delay: bool, tile_index: u8, tile_low: u8, scy: u8 },
    Ready([u8; 2]),
}

/// The background and window fetcher; its column 0 is the dummy fetch, which reads column 0.
#[derive(Clone, Copy)]
pub struct BackgroundPixelFetcher {
    pub step: BackgroundPixelFetcherStep,
    pub x: u8,
}

impl Default for BackgroundPixelFetcher {
    fn default() -> (r: Self)
        ensures
            r.x == 0 && r.step == BackgroundPixelFetcherStep::WaitingForScrollRegisters,
    {
        BackgroundPixelFetcher { step: BackgroundPixelFetcherStep::WaitingForScrollRegisters, x: 0 }
    }
}

/// The tile column the background fetcher reads.
pub open spec fn bg_fetch_column(b: BackgroundPixelFetcher, scx: u8) -> int {
    (if b.x == 0 { 0 } else { b.x - 1 }) + scx / 8
}

/// One dot of the background fetcher. A ready row waits for the FIFO to empty; handed over, it
/// restarts the shifting and stops the sprite fetcher, and a new fetch starts on the same dot.
/// The sprite fetcher may start one dot before a fetch ends.
pub open spec fn bg_fetcher_step(
    b: BackgroundPixelFetcher,
    rs: RenderingState,
    vram: Seq<u8>,
    tile_map_address: u16,
    scrolling: Scrolling,
    y: u8,
    is_signed_addressing: bool,
) -> (BackgroundPixelFetcher, RenderingState) {
    if b.step is Ready && rs.fifos.shifted_count % 8 != 0 {
        (b, rs)
    } else {
        let (step, rs1) = match b.step {
            BackgroundPixelFetcherStep::Ready(tile) => (
                BackgroundPixelFetcherStep::WaitingForScrollRegisters,
                RenderingState {
                    fifos: Fifos { bg0: tile@[0], bg1: tile@[1], ..rs.fifos },
                    is_shifting: true,
                    is_sprite_fetching_enable: false,
                    ..rs
                },
            ),
            _ => (b.step, rs),
        };
        match step {
            BackgroundPixelFetcherStep::WaitingForScrollRegisters => (
                BackgroundPixelFetcher {
                    step: BackgroundPixelFetcherStep::FetchingTileIndex { scx: scrolling.x, scy: scrolling.y },
                    ..b
                },
                rs1,
            ),
            BackgroundPixelFetcherStep::FetchingTileIndex { scx, scy } => (
                BackgroundPixelFetcher {
                    step: BackgroundPixelFetcherStep::FetchingTileLow {
                        one_dot_delay: false,
                        tile_index: vram[tile_index_offset(tile_map_address, bg_fetch_column(b, scx), y, scy)],
                        scy,
                    },
                    ..b
                },
                rs1,
            ),
            BackgroundPixelFetcherStep::FetchingTileLow { one_dot_delay, tile_index, scy } => (
                BackgroundPixelFetcher {
                    step: if !one_dot_delay {
                        BackgroundPixelFetcherStep::FetchingTileLow { one_dot_delay: true, tile_index, scy }
                    } else {
                        BackgroundPixelFetcherStep::FetchingTileHigh {
                            one_dot_delay: false,
                            tile_index,
                            tile_low: bg_tile_byte(vram, tile_index, is_signed_addressing, y, scy, 0),
                            scy,
                        }
                    },
                    ..b
                },
                rs1,
            ),
            BackgroundPixelFetcherStep::FetchingTileHigh { one_dot_delay, tile_index, tile_low, scy } => if !one_dot_delay {
                (
                    BackgroundPixelFetcher {
                        step: BackgroundPixelFetcherStep::FetchingTileHigh { one_dot_delay: true, tile_index, tile_low, scy },
                        ..b
                    },
                    rs1,
                )
            } else {
                (
                    BackgroundPixelFetcher {
                        step: BackgroundPixelFetcherStep::Ready(
                            [tile_low, bg_tile_byte(vram, tile_index, is_signed_addressing, y, scy, 1)],
                        ),
                        ..b
                    },
                    RenderingState { is_sprite_fetching_enable: true, ..rs1 },
                )
            },
            BackgroundPixelFetcherStep::Ready(_) => (BackgroundPixelFetcher { step, ..b }, rs1),
        }
    }
}

/// The fetcher's tile column stays within a byte with the coarse scroll added.
pub open spec fn bg_fetcher_can_step(b: BackgroundPixelFetcher) -> bool {
    match b.step {
        BackgroundPixelFetcherStep::FetchingTileIndex { scx, .. } => bg_fetch_column(b, scx) < 256,
        _ => true,
    }
}

impl BackgroundPixelFetcher {
    pub fn execute(
        &mut self,
        rendering_state: &mut RenderingState,
        vram: &[u8; 0x2000],
        tile_map_address: u16,
        scrolling: Scrolling,
        y: u8,
        is_signed_addressing: bool,
    )
        requires
            VIDEO_RAM <= tile_map_address <= 0x9c00,
            bg_fetcher_can_step(*old(self)),
        ensures
            (*final(self), *final(rendering_state)) == bg_fetcher_step(
                *old(self),
                *old(rendering_state),
                vram@,
                tile_map_address,
                scrolling,
                y,
                is_signed_addressing,
            ),
    {
        if let BackgroundPixelFetcherStep::Ready(tile) = self.step {
            if !rendering_state.fifos.is_background_empty() {
                return;
            }
            rendering_state.fifos.replace_background(tile);
            rendering_state.is_shifting = true;
            rendering_state.is_sprite_fetching_enable = false;
            self.step = BackgroundPixelFetcherStep::WaitingForScrollRegisters;
        }
        match self.step {
            BackgroundPixelFetcherStep::WaitingForScrollRegisters => {
                self.step = BackgroundPixelFetcherStep::FetchingTileIndex { scx: scrolling.x, scy: scrolling.y };
            },
            BackgroundPixelFetcherStep::FetchingTileIndex { scx, scy } => {
                let column = (if self.x == 0 { 1 } else { self.x }) - 1 + scx / 8;
                let tile_index = tile_index_at(vram, tile_map_address, column, y, scy);
                self.step = BackgroundPixelFetcherStep::FetchingTileLow { one_dot_delay: false, tile_index, scy };
            },
            BackgroundPixelFetcherStep::FetchingTileLow { one_dot_delay, tile_index, scy } => {
                if !one_dot_delay {
                    self.step = BackgroundPixelFetcherStep::FetchingTileLow { one_dot_delay: true, tile_index, scy };
                } else {
                    let tile_low = bg_tile_byte_exec(vram, tile_index, is_signed_addressing, y, scy, 0);
                    self.step = BackgroundPixelFetcherStep::FetchingTileHigh {
                        one_dot_delay: false,
                        tile_index,
                        tile_low,
                        scy,
                    };
                }
            },
            BackgroundPixelFetcherStep::FetchingTileHigh { one_dot_delay, tile_index, tile_low, scy } => {
                if !one_dot_delay {
                    self.step = BackgroundPixelFetcherStep::FetchingTileHigh {
                        one_dot_delay: true,
                        tile_index,
                        tile_low,
                        scy,
                    };
                } else {
                    rendering_state.is_sprite_fetching_enable = true;
                    let tile_high = bg_tile_byte_exec(vram, tile_index, is_signed_addressing, y, scy, 1);
                    self.step = BackgroundPixelFetcherStep::Ready([tile_low, tile_high]);
                }
            },
            BackgroundPixelFetcherStep::Ready(_) => {},
        }
    }
}

/// Byte `which` (0 low, 1 high) of the row an object shows on line LY.
pub open spec fn object_line_byte(s: State, o: ObjectAttribute, which: int) -> u8 {
    let is_big = s.lcd_control & OBJ_SIZE != 0;
    tile_at(s.video_ram@, 16 * object_tile_index(o, s.ly, is_big))[2 * object_row(o, s.ly) + which]
}

/// The row an object shows on line LY.
pub fn get_object_tile_line(state: &State, obj: &ObjectAttribute) -> (r: [u8; 2])
    requires
        state.ly < 240,
        obj.y <= state.ly + 16,
    ensures
        r@ == seq![object_line_byte(*state, *obj, 0), object_line_byte(*state, *obj, 1)],
{
    let is_big = state.lcd_control & OBJ_SIZE != 0;
    let y_flip = obj.flags & OBJ_Y_FLIP != 0;
    let raw_tile = obj.tile_index;
    proof {
        crate::bits::lemma_u8_and_bound(raw_tile, 0xfe);
    }
    let tile_index = (obj.tile_index & if is_big { 0xfe } else { 0xff }) + if is_big && ((state.ly as u16 + 8
        >= obj.y as u16) != y_flip) {
        1u8
    } else {
        0u8
    };
    let tile = copy_tile(&state.video_ram, tile_index as usize * 16);
    let y0 = (state.ly + 16 - obj.y) % 8;
    let y = if y_flip { 7 - y0 } else { y0 };
    get_line_from_tile(&tile, y)
}

/// The sprite fetcher: two dots for the tile index, two for the low byte, two for the high one.
#[derive(Clone, Copy)]
pub enum SpritePixelFetcher {
    FetchingTileLow { delay: u8 },
    FetchingTileHigh { one_dot_delay: bool, tile_low: u8 },
}

impl Default for SpritePixelFetcher {
    fn default() -> (r: Self)
        ensures
            r == (SpritePixelFetcher::FetchingTileLow { delay: 0 }),
    {
        SpritePixelFetcher::FetchingTileLow { delay: 0 }
    }
}

/// The delay of the sprite fetcher never passes 3.
pub open spec fn sprite_fetcher_wf(f: SpritePixelFetcher) -> bool {
    match f {
        SpritePixelFetcher::FetchingTileLow { delay } => delay <= 3,
        _ => true,
    }
}

/// One dot of the sprite fetcher. The next object (the last one held) is fetched when the
/// shifted pixels reach its X (the cursor starts 8 pixels left of the screen) and the
/// background FIFO holds pixels: shifting and the LCD stop, and once the background fetcher
/// allows it the sprite row is fetched, merged into the sprite FIFO and the object dropped.
pub open spec fn sprite_fetcher_step(
    f: SpritePixelFetcher,
    rs: RenderingState,
    objects: Seq<ObjectAttribute>,
    s: State,
) -> (SpritePixelFetcher, RenderingState, Seq<ObjectAttribute>) {
    if objects.len() == 0 {
        (f, rs, objects)
    } else {
        let obj = objects.last();
        if obj.x != rs.fifos.shifted_count || rs.fifos.shifted_count % 8 == 0 {
            (f, rs, objects)
        } else {
            let rs1 = RenderingState { is_shifting: false, is_lcd_accepting_pixels: false, ..rs };
            if !rs1.is_sprite_fetching_enable {
                (f, rs1, objects)
            } else {
                match f {
                    SpritePixelFetcher::FetchingTileLow { delay } => if delay == 3 {
                        (
                            SpritePixelFetcher::FetchingTileHigh {
                                one_dot_delay: false,
                                tile_low: object_line_byte(s, obj, 0),
                            },
                            rs1,
                            objects,
                        )
                    } else {
                        (SpritePixelFetcher::FetchingTileLow { delay: (delay + 1) as u8 }, rs1, objects)
                    },
                    SpritePixelFetcher::FetchingTileHigh { one_dot_delay, tile_low } => if !one_dot_delay {
                        (SpritePixelFetcher::FetchingTileHigh { one_dot_delay: true, tile_low }, rs1, objects)
                    } else {
                        (
                            SpritePixelFetcher::FetchingTileLow { delay: 0 },
                            RenderingState {
                                is_shifting: true,
                                is_lcd_accepting_pixels: true,
                                fifos: sprite_loaded(
                                    rs1.fifos,
                                    [tile_low, object_line_byte(s, obj, 1)],
                                    obj.flags & OBJ_PRIORITY != 0,
                                    obj.flags & OBJ_DMG_PALETTE != 0,
                                ),
                                ..rs1
                            },
                            objects.drop_last(),
                        )
                    },
                }
            }
        }
    }
}

impl SpritePixelFetcher {
    pub fn execute(
        &mut self,
        rendering_state: &mut RenderingState,
        objects: &mut ArrayVec<ObjectAttribute, 10>,
        state: &State,
    )
        requires
            sprite_fetcher_wf(*old(self)),
            attribute_items(*old(objects)).len() > 0 ==> state.ly < 240 && attribute_items(*old(objects)).last().y
                <= state.ly + 16,
        ensures
            sprite_fetcher_wf(*final(self)),
            (*final(self), *final(rendering_state), attribute_items(*final(objects))) == sprite_fetcher_step(
                *old(self),
                *old(rendering_state),
                attribute_items(*old(objects)),
                *state,
            ),
    {
        let last = attribute_buffer_last(objects);
        let obj = match last {
            Some(obj) => obj,
            None => {
                return;
            },
        };
        if obj.x != rendering_state.fifos.shifted_count || rendering_state.fifos.is_background_empty() {
            return;
        }
        rendering_state.is_shifting = false;
        rendering_state.is_lcd_accepting_pixels = false;
        if !rendering_state.is_sprite_fetching_enable || rendering_state.fifos.is_background_empty() {
            return;
        }
        match *self {
            SpritePixelFetcher::FetchingTileLow { delay } => {
                if delay == 3 {
                    let line = get_object_tile_line(state, &obj);
                    *self = SpritePixelFetcher::FetchingTileHigh { one_dot_delay: false, tile_low: line[0] };
                } else {
                    *self = SpritePixelFetcher::FetchingTileLow { delay: delay + 1 };
                }
            },
            SpritePixelFetcher::FetchingTileHigh { one_dot_delay, tile_low } => {
                if !one_dot_delay {
                    *self = SpritePixelFetcher::FetchingTileHigh { one_dot_delay: true, tile_low };
                } else {
                    let line = get_object_tile_line(state, &obj);
                    let tile_high = line[1];
                    rendering_state.is_shifting = true;
                    rendering_state.is_lcd_accepting_pixels = true;
                    rendering_state.fifos.load_sprite(
                        [tile_low, tile_high],
                        obj.flags & OBJ_PRIORITY != 0,
                        obj.flags & OBJ_DMG_PALETTE != 0,
                    );
                    let _ = attribute_buffer_pop(objects);
                    *self = SpritePixelFetcher::FetchingTileLow { delay: 0 };
                }
            },
        }
    }
}

/// A line drawn through the FIFOs, one dot per step.
pub struct Renderer {
    pub background_pixel_fetcher: BackgroundPixelFetcher,
    pub sprite_pixel_fetcher: SpritePixelFetcher,
    pub rendering_state: RenderingState,
    /// The objects still to fetch, the next one last.
    pub objects: ArrayVec<ObjectAttribute, 10>,
    pub scanline: ArrayVec<Color, 160>,
    pub scx_at_scanline_start: u8,
}

impl Renderer {
    pub fn new(objects: ArrayVec<ObjectAttribute, 10>, scx_at_scanline_start: u8) -> (r: Self)
        ensures
            r.background_pixel_fetcher == (BackgroundPixelFetcher {
                step: BackgroundPixelFetcherStep::WaitingForScrollRegisters,
                x: 0,
            }),
            r.sprite_pixel_fetcher == (SpritePixelFetcher::FetchingTileLow { delay: 0 }),
            !r.rendering_state.is_shifting && !r.rendering_state.is_lcd_accepting_pixels
                && !r.rendering_state.is_sprite_fetching_enable,
            r.rendering_state.fifos == (Fifos { bg0: 0, bg1: 0, sp0: 0, sp1: 0, mask: 0, palette: 0, shifted_count: 0 }),
            attribute_items(r.objects) == attribute_items(objects),
            color_items(r.scanline) == Seq::<Color>::empty(),
            r.scx_at_scanline_start == scx_at_scanline_start,
    {
        Renderer {
            background_pixel_fetcher: BackgroundPixelFetcher::default(),
            rendering_state: RenderingState::default(),
            sprite_pixel_fetcher: SpritePixelFetcher::default(),
            scanline: color_buffer_new(),
            objects,
            scx_at_scanline_start,
        }
    }

    /// One dot: the LCD takes pixels once the first 8 + SCX pixels are shifted out, the two
    /// fetchers run, then a pixel goes to the LCD and the FIFOs shift.
    pub fn execute(&mut self, state: &State)
        requires
            old(self).scx_at_scanline_start <= 247,
            bg_fetcher_can_step(old(self).background_pixel_fetcher),
            sprite_fetcher_wf(old(self).sprite_pixel_fetcher),
            attribute_items(old(self).objects).len() > 0 ==> state.ly < 240 && attribute_items(
                old(self).objects,
            ).last().y <= state.ly + 16,
            color_items(old(self).scanline).len() < 160,
        ensures
            ({
                let rs0 = RenderingState {
                    is_lcd_accepting_pixels: old(self).rendering_state.fifos.shifted_count >= 8
                        + old(self).scx_at_scanline_start,
                    ..old(self).rendering_state
                };
                let (b, rs1) = bg_fetcher_step(
                    old(self).background_pixel_fetcher,
                    rs0,
                    state.video_ram@,
                    bg_tile_map_address(state.lcd_control),
                    Scrolling { x: state.scx, y: state.scy },
                    state.ly,
                    state.lcd_control & BG_AND_WINDOW_TILES == 0,
                );
                let (f, rs2, objects) = sprite_fetcher_step(
                    old(self).sprite_pixel_fetcher,
                    rs1,
                    attribute_items(old(self).objects),
                    *state,
                );
                &&& final(self).background_pixel_fetcher == b
                &&& final(self).sprite_pixel_fetcher == f
                &&& attribute_items(final(self).objects) == objects
                &&& final(self).scx_at_scanline_start == old(self).scx_at_scanline_start
                &&& color_items(final(self).scanline) == if rs2.is_lcd_accepting_pixels {
                    color_items(old(self).scanline).push(
                        rendered_pixel(
                            rs2.fifos,
                            state.bgp_register,
                            state.obp0,
                            state.obp1,
                            state.lcd_control & BG_AND_WINDOW_ENABLE != 0,
                        ),
                    )
                } else {
                    color_items(old(self).scanline)
                }
                &&& final(self).rendering_state == if rs2.is_shifting {
                    RenderingState { fifos: fifos_shifted(rs2.fifos), ..rs2 }
                } else {
                    rs2
                }
            }),
    {
        self.rendering_state.is_lcd_accepting_pixels = self.rendering_state.fifos.shifted_count >= 8
            + self.scx_at_scanline_start;
        let tile_map_address: u16 = if state.lcd_control & BG_TILE_MAP != 0 { 0x9c00 } else { 0x9800 };
        self.background_pixel_fetcher.execute(
            &mut self.rendering_state,
            &state.video_ram,
            tile_map_address,
            Scrolling { x: state.scx, y: state.scy },
            state.ly,
            state.lcd_control & BG_AND_WINDOW_TILES == 0,
        );
        self.sprite_pixel_fetcher.execute(&mut self.rendering_state, &mut self.objects, state);
        if self.rendering_state.is_lcd_accepting_pixels {
            let pixel = self.rendering_state.fifos.render_pixel(
                state.bgp_register,
                state.obp0,
                state.obp1,
                state.lcd_control & BG_AND_WINDOW_ENABLE != 0,
            );
            color_buffer_push(&mut self.scanline, pixel);
        }
        if self.rendering_state.is_shifting {
            self.rendering_state.fifos.shift();
        }
    }

    /// The number of pixels drawn so far.
    pub fn scanline_len(&self) -> (r: usize)
        ensures
            r == color_items(self.scanline).len(),
    {
        color_buffer_len(&self.scanline)
    }
}

} // verus!
