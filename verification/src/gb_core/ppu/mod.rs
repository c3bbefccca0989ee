//! The picture processing unit: tiles, objects and the four PPU modes, one dot per step.
use vstd::prelude::*;

use crate::gb_core::array_vec::{
    object_buffer_get, object_buffer_len, object_buffer_new, object_buffer_push, object_buffer_sort,
    object_keys,
};
use crate::gb_core::ic::Ints;
use crate::gb_core::state::{
    State, HBLANK_INT, MODE_DRAWING, MODE_HBLANK, MODE_OAM_SCAN, MODE_VBLANK, OAM_INT, PPU_MASK, VBLANK_INT,
    VIDEO_RAM,
};
use crate::gb_core::StateMachine;
use crate::gebeh_core::interrupts::Interrupts;

pub mod ly_handler;
pub mod pixel_fetcher;
pub mod sprite_fetcher;

pub use crate::gb_core::ppu::ly_handler::LyHandler;

verus! {

// LCD control bits (LCDC, $FF40).
pub const LCD_PPU_ENABLE: u8 = 0x80;
pub const WINDOW_TILE_MAP: u8 = 0x40;
pub const WINDOW_ENABLE: u8 = 0x20;
pub const BG_AND_WINDOW_TILES: u8 = 0x10;
pub const BG_TILE_MAP: u8 = 0x08;
pub const OBJ_SIZE: u8 = 0x04;
pub const OBJ_ENABLE: u8 = 0x02;
pub const BG_AND_WINDOW_ENABLE: u8 = 0x01;

// Object attribute flags (byte 3 of an OAM entry).
pub const OBJ_PRIORITY: u8 = 0x80;
pub const OBJ_Y_FLIP: u8 = 0x40;
pub const OBJ_X_FLIP: u8 = 0x20;
pub const OBJ_DMG_PALETTE: u8 = 0x10;

pub const OAM_SCAN_DURATION: u8 = 80;
pub const VERTICAL_BLANK_SCANLINE_DURATION: u16 = 4560;
pub const TILE_LENGTH: u8 = 16;

/// The two bits that a tile gives a pixel.
#[derive(PartialEq, Eq, Structural, Clone, Copy, Debug)]
pub enum ColorIndex {
    Zero,
    One,
    Two,
    Three,
}

/// The four shades of the DMG.
#[derive(Clone, Copy, Eq, PartialEq, Structural, Debug)]
pub enum Color {
    White,
    LightGray,
    DarkGray,
    Black,
}

/// The color index as a number, 0 to 3.
pub open spec fn color_index_value(c: ColorIndex) -> u8 {
    match c {
        ColorIndex::Zero => 0,
        ColorIndex::One => 1,
        ColorIndex::Two => 2,
        ColorIndex::Three => 3,
    }
}

/// The color index with bit 0 `lsb` and bit 1 `msb`.
pub open spec fn color_index_of(lsb: bool, msb: bool) -> ColorIndex {
    if msb {
        if lsb { ColorIndex::Three } else { ColorIndex::Two }
    } else {
        if lsb { ColorIndex::One } else { ColorIndex::Zero }
    }
}

/// The shade numbered `shade` (0 to 3).
pub open spec fn shade(shade: u8) -> Color {
    if shade == 0 {
        Color::White
    } else if shade == 1 {
        Color::LightGray
    } else if shade == 2 {
        Color::DarkGray
    } else {
        Color::Black
    }
}

/// The shade a palette register gives a color index: two bits per index, index 0 lowest.
pub open spec fn palette_color(index: ColorIndex, palette: u8) -> Color {
    shade((palette >> (2 * color_index_value(index)) as u8) & 0b11)
}

impl ColorIndex {
    pub fn new(least_significant_bit: bool, most_significant_bit: bool) -> (r: Self)
        ensures
            r == color_index_of(least_significant_bit, most_significant_bit),
    {
        match (most_significant_bit, least_significant_bit) {
            (true, true) => ColorIndex::Three,
            (true, false) => ColorIndex::Two,
            (false, true) => ColorIndex::One,
            (false, false) => ColorIndex::Zero,
        }
    }

    pub fn get_color(self, palette: u8) -> (r: Color)
        ensures
            r == palette_color(self, palette),
    {
        let shift: u8 = match self {
            ColorIndex::Zero => 0,
            ColorIndex::One => 2,
            ColorIndex::Two => 4,
            ColorIndex::Three => 6,
        };
        let value = (palette >> shift) & 0b11;
        if value == 0 {
            Color::White
        } else if value == 1 {
            Color::LightGray
        } else if value == 2 {
            Color::DarkGray
        } else {
            Color::Black
        }
    }
}

/// A shade as 0xRRGGBB.
pub open spec fn color_rgb(c: Color) -> u32 {
    match c {
        Color::White => 0xffffff,
        Color::LightGray => 0xaaaaaa,
        Color::DarkGray => 0x555555,
        Color::Black => 0,
    }
}

/// A shade as RGBA bytes.
pub open spec fn color_rgba(c: Color) -> [u8; 4] {
    match c {
        Color::White => [0xff, 0xff, 0xff, 0xff],
        Color::LightGray => [0xaa, 0xaa, 0xaa, 0xff],
        Color::DarkGray => [0x55, 0x55, 0x55, 0xff],
        Color::Black => [0, 0, 0, 0xff],
    }
}

impl From<Color> for u32 {
    fn from(c: Color) -> (r: u32) {
        match c {
            Color::White => 0xffffff,
            Color::LightGray => 0xaaaaaa,
            Color::DarkGray => 0x555555,
            Color::Black => 0,
        }
    }
}

impl vstd::std_specs::convert::FromSpecImpl<Color> for u32 {
    open spec fn obeys_from_spec() -> bool {
        true
    }

    open spec fn from_spec(v: Color) -> u32 {
        color_rgb(v)
    }
}

impl From<Color> for [u8; 4] {
    fn from(c: Color) -> (r: [u8; 4]) {
        match c {
            Color::White => [0xff, 0xff, 0xff, 0xff],
            Color::LightGray => [0xaa, 0xaa, 0xaa, 0xff],
            Color::DarkGray => [0x55, 0x55, 0x55, 0xff],
            Color::Black => [0, 0, 0, 0xff],
        }
    }
}

impl vstd::std_specs::convert::FromSpecImpl<Color> for [u8; 4] {
    open spec fn obeys_from_spec() -> bool {
        true
    }

    open spec fn from_spec(v: Color) -> [u8; 4] {
        color_rgba(v)
    }
}

/// The two bytes of row `y` of a tile.
pub fn get_line_from_tile(tile: &[u8; 16], y: u8) -> (r: [u8; 2])
    requires
        y < 8,
    ensures
        r@ == seq![tile@[2 * y], tile@[2 * y + 1]],
{
    let r = [tile[(y * 2) as usize], tile[(y * 2 + 1) as usize]];
    assert(r@ =~= seq![tile@[2 * y], tile@[2 * y + 1]]);
    r
}

/// Bit `7 - x` of a row byte: column 0 is the most significant bit.
pub open spec fn column_bit(byte: u8, x: u8) -> bool {
    byte & (0x80u8 >> x) != 0
}

/// The color index of column `x` of a tile row.
pub open spec fn line_color(line: Seq<u8>, x: u8) -> ColorIndex {
    color_index_of(column_bit(line[0], x), column_bit(line[1], x))
}

pub fn get_color_from_line(line: [u8; 2], x: u8) -> (r: ColorIndex)
    requires
        x < 8,
    ensures
        r == line_color(line@, x),
{
    ColorIndex::new((line[0] & (0x80u8 >> x)) != 0, (line[1] & (0x80u8 >> x)) != 0)
}

/// The color index of pixel (`x`, `y`) of a tile.
pub open spec fn tile_color(tile: Seq<u8>, x: u8, y: u8) -> ColorIndex {
    color_index_of(column_bit(tile[2 * y], x), column_bit(tile[2 * y + 1], x))
}

pub fn get_color_from_tile(tile: &[u8; 16], x: u8, y: u8) -> (r: ColorIndex)
    requires
        x < 8,
        y < 8,
    ensures
        r == tile_color(tile@, x, y),
{
    get_color_from_line(get_line_from_tile(tile, y), x)
}

/// The 16 bytes of `vram` from `base` on.
pub open spec fn tile_at(vram: Seq<u8>, base: int) -> Seq<u8> {
    vram.subrange(base, base + 16)
}

pub(crate) fn copy_tile(vram: &[u8], base: usize) -> (r: [u8; 16])
    requires
        base + 16 <= vram@.len() <= 0x2000,
    ensures
        r@ == tile_at(vram@, base as int),
{
    let mut r = [0u8; 16];
    let mut i: usize = 0;
    while i < 16
        invariant
            i <= 16,
            base + 16 <= vram@.len() <= 0x2000,
            forall|j: int| 0 <= j < i ==> r@[j] == vram@[base + j],
        decreases 16 - i,
    {
        r[i] = vram[base + i];
        i = i + 1;
    }
    assert(r@ =~= tile_at(vram@, base as int));
    r
}

/// An object's tile: tiles $8000-$8FFF, unsigned index.
/// https://gbdev.io/pandocs/Tile_Data.html#vram-tile-data
pub fn get_object_tile(vram: &[u8; 0x1000], index: u8) -> (r: [u8; 16])
    ensures
        r@ == tile_at(vram@, 16 * index),
{
    copy_tile(vram, index as usize * 16)
}

/// Where a background or window tile starts in the first $1800 bytes of VRAM: from $0000 with an
/// unsigned index, or around $1000 with a signed one.
pub open spec fn bg_win_tile_base(index: u8, is_signed_addressing: bool) -> int {
    if is_signed_addressing {
        0x1000 + 16 * (if index < 128 { index as int } else { index - 256 })
    } else {
        16 * index
    }
}

pub fn get_bg_win_tile(vram: &[u8; 0x1800], index: u8, is_signed_addressing: bool) -> (r: [u8; 16])
    ensures
        r@ == tile_at(vram@, bg_win_tile_base(index, is_signed_addressing)),
{
    let base: usize = if is_signed_addressing {
        if index < 128 { 0x1000 + index as usize * 16 } else { 0x1000 - (256 - index as usize) * 16 }
    } else {
        index as usize * 16
    };
    copy_tile(vram, base)
}

/// One OAM entry.
#[derive(Clone, Copy)]
pub struct ObjectAttribute {
    pub y: u8,
    pub x: u8,
    pub tile_index: u8,
    pub flags: u8,
}

impl From<[u8; 4]> for ObjectAttribute {
    fn from(bytes: [u8; 4]) -> (r: Self) {
        ObjectAttribute { y: bytes[0], x: bytes[1], tile_index: bytes[2], flags: bytes[3] }
    }
}

impl vstd::std_specs::convert::FromSpecImpl<[u8; 4]> for ObjectAttribute {
    open spec fn obeys_from_spec() -> bool {
        true
    }

    open spec fn from_spec(v: [u8; 4]) -> ObjectAttribute {
        ObjectAttribute { y: v@[0], x: v@[1], tile_index: v@[2], flags: v@[3] }
    }
}

/// The window's column on the screen and, when it is being drawn, its internal line counter.
#[derive(Clone, Copy)]
pub struct Window {
    pub x: u8,
    pub internal_y_window_counter: Option<u8>,
}

/// A pixel of the screen: `x` below 160, `y` below 144.
#[derive(Clone, Copy)]
pub struct Scanline {
    pub x: u8,
    pub y: u8,
}

/// The background scroll (SCX, SCY).
#[derive(Clone, Copy)]
pub struct Background {
    pub x: u8,
    pub y: u8,
}

/// A pixel of the 256x256 picture that a tile map holds.
#[derive(Clone, Copy, Debug)]
pub struct PicturePixel {
    pub x: u8,
    pub y: u8,
}

/// The tile of a picture pixel in its 32x32 tile map.
pub open spec fn tile_map_index(p: PicturePixel) -> u16 {
    (p.x / 8 + p.y / 8 * 32) as u16
}

impl PicturePixel {
    pub fn get_relative_tile_map_index(self) -> (r: u16)
        ensures
            r == tile_map_index(self),
    {
        (self.x / 8) as u16 + (self.y as u16) / 8 * 32
    }
}

/// The picture pixel a screen pixel shows, and the tile map that holds it: the window's map
/// (positioned by WX - 7 and its own line counter) when the window is drawn, else the scrolled
/// background's map.
/// https://gbdev.io/pandocs/pixel_fifo.html#get-tile
pub open spec fn picture_pixel_spec(lcdc: u8, scanline: Scanline, window: Window, background: Background) -> (
    PicturePixel,
    u16,
) {
    match window.internal_y_window_counter {
        Some(y) => (
            PicturePixel { x: (scanline.x + 7 - window.x) as u8, y },
            if lcdc & WINDOW_TILE_MAP != 0 { 0x9c00u16 } else { 0x9800u16 },
        ),
        None => (
            PicturePixel {
                x: ((scanline.x + background.x) % 256) as u8,
                y: ((scanline.y + background.y) % 256) as u8,
            },
            if lcdc & BG_TILE_MAP != 0 { 0x9c00u16 } else { 0x9800u16 },
        ),
    }
}

pub fn get_picture_pixel_and_tile_map_address(
    lcdc: u8,
    scanline: Scanline,
    window: Window,
    background: Background,
) -> (r: (PicturePixel, u16))
    requires
        scanline.x < 160,
        scanline.y < 144,
        window.internal_y_window_counter is Some ==> window.x <= scanline.x + 7,
    ensures
        r == picture_pixel_spec(lcdc, scanline, window, background),
{
    match window.internal_y_window_counter {
        Some(y) => (
            PicturePixel { x: scanline.x + 7 - window.x, y },
            if lcdc & WINDOW_TILE_MAP != 0 { 0x9c00 } else { 0x9800 },
        ),
        None => (
            PicturePixel { x: scanline.x.wrapping_add(background.x), y: scanline.y.wrapping_add(background.y) },
            if lcdc & BG_TILE_MAP != 0 { 0x9c00 } else { 0x9800 },
        ),
    }
}

/// The color index of the background or window at screen pixel (`x`, LY).
pub open spec fn bg_win_color_index(s: State, x: u8, internal_y_window_counter: Option<u8>) -> ColorIndex {
    let (p, map) = picture_pixel_spec(
        s.lcd_control,
        Scanline { x, y: s.ly },
        Window { x: s.wx, internal_y_window_counter },
        Background { x: s.scx, y: s.scy },
    );
    let tile_index = s.video_ram@[map - VIDEO_RAM + tile_map_index(p)];
    let tile = tile_at(s.video_ram@, bg_win_tile_base(tile_index, s.lcd_control & BG_AND_WINDOW_TILES == 0));
    tile_color(tile, p.x % 8, p.y % 8)
}

fn get_color_bg_win(scanline: Scanline, state: &State, internal_y_window_counter: Option<u8>) -> (r: ColorIndex)
    requires
        scanline.x < 160,
        scanline.y == state.ly < 144,
        internal_y_window_counter is Some ==> state.wx <= scanline.x + 7,
    ensures
        r == bg_win_color_index(*state, scanline.x, internal_y_window_counter),
{
    let (picture_pixel, tile_map_address) = get_picture_pixel_and_tile_map_address(
        state.lcd_control,
        scanline,
        Window { x: state.wx, internal_y_window_counter },
        Background { x: state.scx, y: state.scy },
    );
    let tile_index = state.video_ram[(tile_map_address - VIDEO_RAM + picture_pixel.get_relative_tile_map_index()) as usize];
    let is_signed = state.lcd_control & BG_AND_WINDOW_TILES == 0;
    let base: usize = if is_signed {
        if tile_index < 128 { 0x1000 + tile_index as usize * 16 } else { 0x1000 - (256 - tile_index as usize) * 16 }
    } else {
        tile_index as usize * 16
    };
    let tile = copy_tile(&state.video_ram, base);
    get_color_from_tile(&tile, picture_pixel.x % 8, picture_pixel.y % 8)
}

/// OAM entry `i` (0 to 39).
pub open spec fn oam_object(oam: Seq<u8>, i: int) -> ObjectAttribute {
    ObjectAttribute { y: oam[4 * i], x: oam[4 * i + 1], tile_index: oam[4 * i + 2], flags: oam[4 * i + 3] }
}

/// Objects are 8 or (with LCDC.2) 16 pixels tall.
pub open spec fn object_height(is_big: bool) -> int {
    if is_big { 16 } else { 8 }
}

/// Whether line `ly` crosses the object (its Y is the line plus 16 of its top).
pub open spec fn on_line(o: ObjectAttribute, ly: u8, is_big: bool) -> bool {
    o.y <= ly + 16 && ly + 16 < o.y + object_height(is_big)
}

/// The first ten objects among OAM entries `0..n` that cross line `ly`, in OAM order.
/// https://gbdev.io/pandocs/OAM.html#selection-priority
pub open spec fn objects_on_line(oam: Seq<u8>, ly: u8, is_big: bool, n: nat) -> Seq<ObjectAttribute>
    decreases n,
{
    if n == 0 {
        Seq::empty()
    } else {
        let before = objects_on_line(oam, ly, is_big, (n - 1) as nat);
        let o = oam_object(oam, n - 1);
        if before.len() < 10 && on_line(o, ly, is_big) { before.push(o) } else { before }
    }
}

proof fn lemma_objects_on_line_len(oam: Seq<u8>, ly: u8, is_big: bool, n: nat)
    ensures
        objects_on_line(oam, ly, is_big, n).len() <= 10,
        objects_on_line(oam, ly, is_big, n).len() <= n,
    decreases n,
{
    if n > 0 {
        lemma_objects_on_line_len(oam, ly, is_big, (n - 1) as nat);
    }
}

/// The objects that line `ly` shows.
pub open spec fn selected_objects(s: State, ly: u8) -> Seq<ObjectAttribute> {
    objects_on_line(s.oam@, ly, s.lcd_control & OBJ_SIZE != 0, 40)
}

pub fn get_at_most_ten_objects_on_ly(ly: u8, state: &State) -> (r: Vec<ObjectAttribute>)
    requires
        ly < 240,
    ensures
        r@ == selected_objects(*state, ly),
        r@.len() <= 10,
{
    let is_big = state.lcd_control & OBJ_SIZE != 0;
    let height: u16 = if is_big { 16 } else { 8 };
    let mut r: Vec<ObjectAttribute> = Vec::new();
    let mut i: usize = 0;
    while i < 40
        invariant
            i <= 40,
            ly < 240,
            is_big == (state.lcd_control & OBJ_SIZE != 0),
            height == object_height(is_big),
            r@ == objects_on_line(state.oam@, ly, is_big, i as nat),
        decreases 40 - i,
    {
        proof {
            lemma_objects_on_line_len(state.oam@, ly, is_big, i as nat);
        }
        let o = ObjectAttribute {
            y: state.oam[4 * i],
            x: state.oam[4 * i + 1],
            tile_index: state.oam[4 * i + 2],
            flags: state.oam[4 * i + 3],
        };
        if r.len() < 10 && (o.y as u16) <= ly as u16 + 16 && (ly as u16) + 16 < o.y as u16 + height {
            r.push(o);
        }
        i = i + 1;
    }
    proof {
        lemma_objects_on_line_len(state.oam@, ly, is_big, 40);
    }
    r
}

/// The priority key of the `i`th selected object: smaller X first, then earlier in OAM.
pub open spec fn object_key(o: ObjectAttribute, i: int) -> u16 {
    (o.x * 256 + i) as u16
}

/// The keys of the selected objects, in OAM order.
pub open spec fn object_keys_of(objects: Seq<ObjectAttribute>) -> Seq<u16> {
    Seq::new(objects.len(), |i: int| object_key(objects[i], i))
}

pub open spec fn key_leq(a: u16, b: u16) -> bool {
    a <= b
}

/// The keys in priority order.
pub open spec fn sorted_object_keys(objects: Seq<ObjectAttribute>) -> Seq<u16> {
    object_keys_of(objects).sort_by(|a: u16, b: u16| key_leq(a, b))
}

/// The tile an object shows on line `ly`: a tall object uses an even tile and the next one.
pub open spec fn object_tile_index(o: ObjectAttribute, ly: u8, is_big: bool) -> u8 {
    let y_flip = o.flags & OBJ_Y_FLIP != 0;
    ((o.tile_index & (if is_big { 0xfeu8 } else { 0xffu8 })) + (if is_big && ((ly + 8 >= o.y) != y_flip) {
        1u8
    } else {
        0u8
    })) as u8
}

/// The tile row an object shows on line `ly`.
pub open spec fn object_row(o: ObjectAttribute, ly: u8) -> u8 {
    let y = ((ly + 16 - o.y) % 8) as u8;
    if o.flags & OBJ_Y_FLIP != 0 { (7 - y) as u8 } else { y }
}

/// The color index of column `column` (0 to 7) of an object on line `ly`.
pub open spec fn object_column_color(vram: Seq<u8>, o: ObjectAttribute, ly: u8, is_big: bool, column: u8) -> ColorIndex {
    let tile = tile_at(vram, 16 * object_tile_index(o, ly, is_big));
    let x = if o.flags & OBJ_X_FLIP != 0 { (7 - column) as u8 } else { column };
    tile_color(tile, x, object_row(o, ly))
}

/// What an object emits for its first `n` columns: the screen X (object X minus 8, when not off
/// the left edge), the object and the color index, in column order.
pub open spec fn column_emissions(vram: Seq<u8>, o: ObjectAttribute, ly: u8, is_big: bool, n: nat) -> Seq<
    (u8, ObjectAttribute, ColorIndex),
>
    decreases n,
{
    if n == 0 {
        Seq::empty()
    } else {
        let before = column_emissions(vram, o, ly, is_big, (n - 1) as nat);
        let c = (n - 1) as u8;
        if o.x + c >= 8 {
            before.push(((o.x + c - 8) as u8, o, object_column_color(vram, o, ly, is_big, c)))
        } else {
            before
        }
    }
}

/// The emissions of the objects that `keys` name, the last key first.
pub open spec fn key_emissions(
    vram: Seq<u8>,
    objects: Seq<ObjectAttribute>,
    keys: Seq<u16>,
    ly: u8,
    is_big: bool,
) -> Seq<(u8, ObjectAttribute, ColorIndex)>
    decreases keys.len(),
{
    if keys.len() == 0 {
        Seq::empty()
    } else {
        key_emissions(vram, objects, keys.drop_first(), ly, is_big) + column_emissions(
            vram,
            objects[(keys[0] % 256) as int],
            ly,
            is_big,
            8,
        )
    }
}

/// Everything the objects of line `ly` emit, the object of highest priority last, so that for
/// a screen X the last emission wins.
pub open spec fn object_emissions(s: State, objects: Seq<ObjectAttribute>, ly: u8) -> Seq<
    (u8, ObjectAttribute, ColorIndex),
> {
    key_emissions(s.video_ram@, objects, sorted_object_keys(objects), ly, s.lcd_control & OBJ_SIZE != 0)
}

proof fn lemma_key_of_index(o: ObjectAttribute, i: int)
    requires
        0 <= i < 10,
    ensures
        object_key(o, i) as int == o.x * 256 + i,
        object_key(o, i) % 256 == i,
{
    assert((o.x * 256 + i) % 256 == i) by (nonlinear_arith)
        requires
            0 <= i < 10,
            0 <= o.x < 256,
    ;
}

fn get_colors(objects: &Vec<ObjectAttribute>, ly: u8, state: &State) -> (r: Vec<(u8, ObjectAttribute, ColorIndex)>)
    requires
        objects@.len() <= 10,
        ly < 240,
        forall|i: int| 0 <= i < objects@.len() ==> #[trigger] objects@[i].x <= 248 && objects@[i].y <= ly + 16,
    ensures
        r@ == object_emissions(*state, objects@, ly),
{
    broadcast use vstd::seq_lib::group_to_multiset_ensures;
    let is_big = state.lcd_control & OBJ_SIZE != 0;
    let ghost keys_of = object_keys_of(objects@);
    let mut buffer = object_buffer_new();
    let mut i: usize = 0;
    while i < objects.len()
        invariant
            i <= objects@.len() <= 10,
            keys_of == object_keys_of(objects@),
            object_keys(buffer) == keys_of.subrange(0, i as int),
        decreases objects@.len() - i,
    {
        proof {
            lemma_key_of_index(objects@[i as int], i as int);
        }
        object_buffer_push(&mut buffer, objects[i].x as u16 * 256 + i as u16);
        assert(object_keys(buffer) =~= keys_of.subrange(0, i + 1));
        i = i + 1;
    }
    assert(object_keys(buffer) =~= keys_of);
    object_buffer_sort(&mut buffer);
    let ghost sorted = object_keys(buffer);
    proof {
        let leq = |a: u16, b: u16| key_leq(a, b);
        keys_of.lemma_sort_by_ensures(leq);
        vstd::seq_lib::lemma_sorted_unique(sorted, keys_of.sort_by(leq), leq);
    }
    assert(sorted == sorted_object_keys(objects@));
    let n = object_buffer_len(&buffer);
    let mut out: Vec<(u8, ObjectAttribute, ColorIndex)> = Vec::new();
    let mut j: usize = n;
    while j > 0
        invariant
            j <= n == sorted.len(),
            sorted == object_keys(buffer),
            sorted.to_multiset() == keys_of.to_multiset(),
            keys_of == object_keys_of(objects@),
            objects@.len() <= 10,
            ly < 240,
            forall|i: int| 0 <= i < objects@.len() ==> #[trigger] objects@[i].x <= 248 && objects@[i].y <= ly + 16,
            is_big == (state.lcd_control & OBJ_SIZE != 0),
            out@ == key_emissions(state.video_ram@, objects@, sorted.subrange(j as int, n as int), ly, is_big),
        decreases j,
    {
        j = j - 1;
        let key = object_buffer_get(&buffer, j);
        proof {
            sorted.to_multiset_ensures();
            keys_of.to_multiset_ensures();
            assert(sorted.contains(key));
            assert(sorted.to_multiset().count(key) > 0);
            assert(keys_of.to_multiset().count(key) > 0);
            assert(keys_of.contains(key));
            let i = choose|i: int| 0 <= i < keys_of.len() && keys_of[i] == key;
            lemma_key_of_index(objects@[i], i);
        }
        let o = objects[(key % 256) as usize];
        let y_flip = o.flags & OBJ_Y_FLIP != 0;
        let raw_tile = o.tile_index;
        proof {
            crate::bits::lemma_u8_and_bound(raw_tile, 0xfe);
        }
        let tile_index = (o.tile_index & if is_big { 0xfe } else { 0xff }) + if is_big && ((ly as u16 + 8 >= o.y as u16) != y_flip) {
            1u8
        } else {
            0u8
        };
        let tile = copy_tile(&state.video_ram, tile_index as usize * 16);
        let y0 = (ly + 16 - o.y) % 8;
        let y = if y_flip { 7 - y0 } else { y0 };
        let line = get_line_from_tile(&tile, y);
        let ghost before = out@;
        let mut c: u8 = 0;
        while c < 8
            invariant
                c <= 8,
                o.x <= 248,
                out@ == before + column_emissions(state.video_ram@, o, ly, is_big, c as nat),
                tile@ == tile_at(state.video_ram@, 16 * object_tile_index(o, ly, is_big)),
                y == object_row(o, ly),
                line@ == seq![tile@[2 * y], tile@[2 * y + 1]],
            decreases 8 - c,
        {
            if o.x + c >= 8 {
                let x = if o.flags & OBJ_X_FLIP != 0 { 7 - c } else { c };
                let color = get_color_from_line(line, x);
                out.push((o.x + c - 8, o, color));
            }
            c = c + 1;
        }
        proof {
            let sub = sorted.subrange(j as int, n as int);
            assert(sub.drop_first() =~= sorted.subrange(j + 1, n as int));
        }
    }
    assert(sorted.subrange(0, n as int) =~= sorted);
    out
}

/// What the frame carries from line to line; dropped at vertical blank.
#[derive(Clone, Copy)]
pub struct CurrentFrameData {
    /// Whether WY matched LY at the start of some OAM scan of this frame.
    pub wy_condition: bool,
    /// The window's own line counter.
    pub internal_y_window_counter: u8,
}

impl Default for CurrentFrameData {
    fn default() -> (r: Self)
        ensures
            !r.wy_condition && r.internal_y_window_counter == 0,
    {
        CurrentFrameData { wy_condition: false, internal_y_window_counter: 0 }
    }
}

/// The line being drawn, one pixel per step.
#[derive(Clone, Copy)]
pub struct DrawingState {
    pub scanline: [Color; 160],
    /// Whether the pixel column plus 7 met WX on this line.
    /// https://gbdev.io/pandocs/Scrolling.html#window
    pub wx_condition: bool,
    pub current_frame_data: CurrentFrameData,
    pub x: u8,
}

/// The line as a new drawing starts it: all black, nothing drawn.
pub open spec fn new_drawing(current_frame_data: CurrentFrameData) -> DrawingState {
    DrawingState {
        scanline: vstd::array::spec_array_fill_for_copy_type::<Color, 160>(Color::Black),
        wx_condition: false,
        current_frame_data,
        x: 0,
    }
}

/// The last object emission at screen column `x` that is not transparent, as a shade of its
/// palette and its "background over object" flag.
pub open spec fn last_object_color(emissions: Seq<(u8, ObjectAttribute, ColorIndex)>, x: u8, obp0: u8, obp1: u8) -> Option<
    (Color, bool),
>
    decreases emissions.len(),
{
    if emissions.len() == 0 {
        None
    } else {
        let e = emissions.last();
        if e.0 == x && e.2 != ColorIndex::Zero {
            Some(
                (
                    palette_color(e.2, if e.1.flags & OBJ_DMG_PALETTE != 0 { obp1 } else { obp0 }),
                    e.1.flags & OBJ_PRIORITY != 0,
                ),
            )
        } else {
            last_object_color(emissions.drop_last(), x, obp0, obp1)
        }
    }
}

/// Whether the window is drawn at this point of the line.
pub open spec fn window_active(d: DrawingState, s: State, wx_condition: bool) -> bool {
    wx_condition && d.current_frame_data.wy_condition && s.lcd_control & WINDOW_ENABLE != 0
}

/// WX as the pixel at `x` sees it: background and window drawing on, the condition latches once
/// `x + 7` equals WX.
pub open spec fn next_wx_condition(d: DrawingState, s: State) -> bool {
    if s.lcd_control & BG_AND_WINDOW_ENABLE != 0 { d.wx_condition || d.x + 7 == s.wx } else { d.wx_condition }
}

/// The shade of the background or window at the current pixel, or `None` where it is
/// transparent (color index 0) or off.
pub open spec fn bg_win_pixel(d: DrawingState, s: State) -> Option<Color> {
    if s.lcd_control & BG_AND_WINDOW_ENABLE != 0 {
        let index = bg_win_color_index(
            s,
            d.x,
            if window_active(d, s, next_wx_condition(d, s)) {
                Some(d.current_frame_data.internal_y_window_counter)
            } else {
                None
            },
        );
        if index == ColorIndex::Zero { None } else { Some(palette_color(index, s.bgp_register)) }
    } else {
        None
    }
}

/// The object pixel at the current pixel, if any.
pub open spec fn object_pixel(d: DrawingState, s: State) -> Option<(Color, bool)> {
    if s.lcd_control & OBJ_ENABLE != 0 {
        last_object_color(object_emissions(s, selected_objects(s, s.ly), s.ly), d.x, s.obp0, s.obp1)
    } else {
        None
    }
}

/// The shade shown: the object unless it is transparent or behind a non-transparent
/// background; else the background or window; else color 0 of the background palette, or
/// white with the background off.
/// https://gbdev.io/pandocs/OAM.html#drawing-priority
pub open spec fn mixed_pixel(bg_win: Option<Color>, obj: Option<(Color, bool)>, bg_color: Color) -> Color {
    match (bg_win, obj) {
        (None, None) => bg_color,
        (None, Some((c, _))) => c,
        (Some(_), Some((c, false))) => c,
        (Some(c), _) => c,
    }
}

/// The drawing after one pixel.
pub open spec fn drawing_step(d: DrawingState, s: State) -> DrawingState {
    let wx_condition = next_wx_condition(d, s);
    let bg_color = if s.lcd_control & BG_AND_WINDOW_ENABLE != 0 {
        palette_color(ColorIndex::Zero, s.bgp_register)
    } else {
        Color::White
    };
    let pixel = mixed_pixel(bg_win_pixel(d, s), object_pixel(d, s), bg_color);
    let x = (d.x + 1) as u8;
    let counter = d.current_frame_data.internal_y_window_counter;
    DrawingState {
        scanline: vstd::array::spec_array_update(d.scanline, d.x as int, pixel),
        wx_condition,
        current_frame_data: CurrentFrameData {
            internal_y_window_counter: if x == 160 && window_active(d, s, wx_condition) { (counter + 1) as u8 } else { counter },
            ..d.current_frame_data
        },
        x,
    }
}

/// The objects of the line are within the screen's arithmetic: none starts beyond X 248.
pub open spec fn objects_fit(s: State) -> bool {
    forall|i: int| 0 <= i < selected_objects(s, s.ly).len() ==> #[trigger] selected_objects(s, s.ly)[i].x <= 248
}

/// When a pixel can be drawn: a pixel of the screen, WX not beyond the window's column, the
/// window line counter not about to wrap.
pub open spec fn can_draw(d: DrawingState, s: State) -> bool {
    &&& d.x < 160
    &&& s.lcd_control & BG_AND_WINDOW_ENABLE != 0 ==> s.ly < 144
    &&& s.lcd_control & BG_AND_WINDOW_ENABLE != 0 && window_active(d, s, next_wx_condition(d, s)) ==> s.wx <= d.x + 7
    &&& s.lcd_control & OBJ_ENABLE != 0 ==> s.ly < 240 && objects_fit(s)
    &&& d.x == 159 && window_active(d, s, next_wx_condition(d, s)) ==> d.current_frame_data.internal_y_window_counter < 255
}

proof fn lemma_objects_on_line(oam: Seq<u8>, ly: u8, is_big: bool, n: nat)
    ensures
        forall|i: int|
            0 <= i < objects_on_line(oam, ly, is_big, n).len() ==> on_line(
                #[trigger] objects_on_line(oam, ly, is_big, n)[i],
                ly,
                is_big,
            ),
    decreases n,
{
    if n > 0 {
        lemma_objects_on_line(oam, ly, is_big, (n - 1) as nat);
        let before = objects_on_line(oam, ly, is_big, (n - 1) as nat);
        let all = objects_on_line(oam, ly, is_big, n);
        assert forall|i: int| 0 <= i < all.len() implies on_line(#[trigger] all[i], ly, is_big) by {
            if i < before.len() {
                assert(all[i] == before[i]);
            }
        }
    }
}

impl DrawingState {
    pub fn new(current_frame_data: CurrentFrameData) -> (r: Self)
        ensures
            r == new_drawing(current_frame_data),
    {
        DrawingState {
            current_frame_data,
            scanline: vstd::array::array_fill_for_copy_types(Color::Black),
            wx_condition: false,
            x: 0,
        }
    }

    pub fn execute(&mut self, state: &State)
        requires
            can_draw(*old(self), *state),
        ensures
            *final(self) == drawing_step(*old(self), *state),
    {
        broadcast use vstd::array::group_array_axioms;
        let ghost d = *self;
        let mut bg_win_color: Option<Color> = None;
        if state.lcd_control & BG_AND_WINDOW_ENABLE != 0 {
            self.wx_condition = self.wx_condition || self.x + 7 == state.wx;
            let window = self.wx_condition && self.current_frame_data.wy_condition && state.lcd_control & WINDOW_ENABLE != 0;
            let counter = if window { Some(self.current_frame_data.internal_y_window_counter) } else { None };
            let color_index = get_color_bg_win(Scanline { x: self.x, y: state.ly }, state, counter);
            bg_win_color = if color_index == ColorIndex::Zero {
                None
            } else {
                Some(color_index.get_color(state.bgp_register))
            };
        }
        assert(bg_win_color == bg_win_pixel(d, *state));
        let mut obj_color: Option<(Color, bool)> = None;
        if state.lcd_control & OBJ_ENABLE != 0 {
            let objects = get_at_most_ten_objects_on_ly(state.ly, state);
            proof {
                lemma_objects_on_line(state.oam@, state.ly, state.lcd_control & OBJ_SIZE != 0, 40);
            }
            let emissions = get_colors(&objects, state.ly, state);
            let mut i: usize = 0;
            while i < emissions.len()
                invariant
                    i <= emissions@.len(),
                    obj_color == last_object_color(emissions@.subrange(0, i as int), self.x, state.obp0, state.obp1),
                decreases emissions@.len() - i,
            {
                let (incoming_x, obj, color) = emissions[i];
                if incoming_x == self.x && color != ColorIndex::Zero {
                    obj_color = Some(
                        (
                            color.get_color(if obj.flags & OBJ_DMG_PALETTE != 0 { state.obp1 } else { state.obp0 }),
                            obj.flags & OBJ_PRIORITY != 0,
                        ),
                    );
                }
                assert(emissions@.subrange(0, i + 1).drop_last() =~= emissions@.subrange(0, i as int));
                i = i + 1;
            }
            assert(emissions@.subrange(0, emissions@.len() as int) =~= emissions@);
        }
        assert(obj_color == object_pixel(d, *state));
        let bg_color = if state.lcd_control & BG_AND_WINDOW_ENABLE != 0 {
            ColorIndex::Zero.get_color(state.bgp_register)
        } else {
            Color::White
        };
        let pixel = match (bg_win_color, obj_color) {
            (None, None) => bg_color,
            (None, Some((color, _))) => color,
            (Some(_), Some((color, false))) => color,
            (Some(color), _) => color,
        };
        self.scanline[self.x as usize] = pixel;
        self.x = self.x + 1;
        if self.x == 160 && self.wx_condition && self.current_frame_data.wy_condition && state.lcd_control
            & WINDOW_ENABLE != 0 {
            self.current_frame_data.internal_y_window_counter = self.current_frame_data.internal_y_window_counter + 1;
        }
        assert(self.scanline =~= vstd::array::spec_array_update(d.scanline, d.x as int, pixel));
    }
}

/// The PPU's mode and what it carries, one dot per step.
#[derive(Clone, Copy)]
pub enum Ppu {
    /// Mode 2, 80 dots.
    OamScan { remaining_dots: u8, current_frame_data: CurrentFrameData },
    /// Mode 3, 172 to 289 dots.
    DrawingPixels { dots_count: u16, drawing_state: DrawingState },
    /// Mode 0, until the line's 376 dots after OAM scan are over.
    HorizontalBlank { remaining_dots: u8, dots_count: u8, current_frame_data: CurrentFrameData, scanline: [Color; 160] },
    /// Mode 1, ten lines of 456 dots.
    VerticalBlankScanline { remaining_dots: u16 },
}

/// The mode a frame starts with.
pub open spec fn ppu_initial() -> Ppu {
    Ppu::OamScan {
        remaining_dots: OAM_SCAN_DURATION,
        current_frame_data: CurrentFrameData { wy_condition: false, internal_y_window_counter: 0 },
    }
}

impl Default for Ppu {
    fn default() -> (r: Self)
        ensures
            r == ppu_initial(),
    {
        Ppu::OamScan { remaining_dots: OAM_SCAN_DURATION, current_frame_data: CurrentFrameData::default() }
    }
}

/// The state with LCD interrupt requested when STAT selects the source `mode_interrupt`.
pub open spec fn interrupt_requested(s: State, mode_interrupt: u8) -> State {
    if s.lcd_status & mode_interrupt != 0 {
        State { interrupt_flag: Interrupts(s.interrupt_flag.0 | 0x02), ..s }
    } else {
        s
    }
}

/// The state with STAT's mode bits set to `mode`.
pub open spec fn with_ppu_mode(s: State, mode: u8) -> State {
    State { lcd_status: (s.lcd_status & !PPU_MASK) | (mode & PPU_MASK), ..s }
}

fn request_interrupt(state: &mut State, mode_interrupt: u8, cycle_count: u64)
    requires
        mode_interrupt == HBLANK_INT || mode_interrupt == OAM_INT || mode_interrupt == VBLANK_INT,
    ensures
        *final(state) == interrupt_requested(*old(state), mode_interrupt),
{
    if state.lcd_status & mode_interrupt != 0 {
        state.interrupt_flag.insert(Ints::lcd());
    }
}

/// The mode that follows a finished one; an unfinished mode stays. A line's drawing and
/// horizontal blank last 376 dots together.
pub open spec fn switched(p: Ppu, ly: u8) -> Ppu {
    match p {
        Ppu::OamScan { remaining_dots, current_frame_data } => if remaining_dots == 0 {
            Ppu::DrawingPixels { dots_count: 0, drawing_state: new_drawing(current_frame_data) }
        } else {
            p
        },
        Ppu::DrawingPixels { dots_count, drawing_state } => if drawing_state.x == 160 {
            Ppu::HorizontalBlank {
                remaining_dots: (376 - dots_count) as u8,
                current_frame_data: drawing_state.current_frame_data,
                dots_count: 0,
                scanline: drawing_state.scanline,
            }
        } else {
            p
        },
        Ppu::HorizontalBlank { remaining_dots, dots_count, current_frame_data, .. } => if remaining_dots == dots_count {
            if ly == 144 {
                Ppu::VerticalBlankScanline { remaining_dots: VERTICAL_BLANK_SCANLINE_DURATION }
            } else {
                Ppu::OamScan { remaining_dots: OAM_SCAN_DURATION, current_frame_data }
            }
        } else {
            p
        },
        Ppu::VerticalBlankScanline { remaining_dots } => if remaining_dots == 0 { ppu_initial() } else { p },
    }
}

/// One dot of an unfinished mode. The OAM interrupt comes at the mode's start (one M-cycle late
/// on line 0) and STAT follows one M-cycle late; drawing is paused for the first 12 + SCX % 8
/// dots; the horizontal blank interrupt comes on its fourth dot.
pub open spec fn mode_step(p: Ppu, s: State) -> (Ppu, State) {
    match p {
        Ppu::OamScan { remaining_dots, current_frame_data } => {
            let s1 = if (remaining_dots == 76 && s.ly == 0) || (remaining_dots == OAM_SCAN_DURATION && s.ly >= 1) {
                interrupt_requested(s, OAM_INT)
            } else {
                s
            };
            let s2 = if remaining_dots == 76 { with_ppu_mode(s1, MODE_OAM_SCAN) } else { s1 };
            (
                Ppu::OamScan {
                    remaining_dots: (remaining_dots - 1) as u8,
                    current_frame_data: CurrentFrameData {
                        wy_condition: current_frame_data.wy_condition || (remaining_dots == OAM_SCAN_DURATION
                            && s.ly == s.wy),
                        ..current_frame_data
                    },
                },
                s2,
            )
        },
        Ppu::DrawingPixels { dots_count, drawing_state } => {
            let s1 = if dots_count == 4 { with_ppu_mode(s, MODE_DRAWING) } else { s };
            let d = if dots_count >= 12 + s.scx % 8 { drawing_step(drawing_state, s1) } else { drawing_state };
            (Ppu::DrawingPixels { dots_count: (dots_count + 1) as u16, drawing_state: d }, s1)
        },
        Ppu::HorizontalBlank { remaining_dots, dots_count, current_frame_data, scanline } => {
            let s1 = if dots_count == 3 {
                interrupt_requested(s, HBLANK_INT)
            } else if dots_count == 4 {
                with_ppu_mode(s, MODE_HBLANK)
            } else {
                s
            };
            (
                Ppu::HorizontalBlank { remaining_dots, dots_count: (dots_count + 1) as u8, current_frame_data, scanline },
                s1,
            )
        },
        Ppu::VerticalBlankScanline { remaining_dots } => {
            let s1 = if remaining_dots == VERTICAL_BLANK_SCANLINE_DURATION - 4 {
                with_ppu_mode(
                    State {
                        interrupt_flag: Interrupts(interrupt_requested(s, VBLANK_INT).interrupt_flag.0 | 0x01),
                        ..interrupt_requested(s, VBLANK_INT)
                    },
                    MODE_VBLANK,
                )
            } else {
                s
            };
            (Ppu::VerticalBlankScanline { remaining_dots: (remaining_dots - 1) as u16 }, s1)
        },
    }
}

/// One dot: nothing while the LCD is off, else the switch out of a finished mode and a dot of
/// the mode that runs.
pub open spec fn ppu_step(p: Ppu, s: State) -> (Ppu, State) {
    if s.lcd_control & LCD_PPU_ENABLE == 0 {
        (p, s)
    } else {
        mode_step(switched(p, s.ly), s)
    }
}

impl Ppu {
    /// The finished line, during the first dots of the horizontal blank that follows it.
    pub fn get_scanline_if_ready(&self) -> (r: Option<&[Color; 160]>)
        ensures
            r == (match *self {
                Ppu::HorizontalBlank { dots_count, scanline, .. } => if dots_count < 5 {
                    Some(&scanline)
                } else {
                    None
                },
                _ => None,
            }),
    {
        match self {
            Ppu::HorizontalBlank { dots_count, scanline, .. } => if *dots_count < 5 {
                Some(scanline)
            } else {
                None
            },
            _ => None,
        }
    }

    fn switch_from_finished_mode(&mut self, ly: u8, cycle_count: u64)
        requires
            old(self).wf(),
        ensures
            *final(self) == switched(*old(self), ly),
    {
        let p = *self;
        match p {
            Ppu::OamScan { remaining_dots, current_frame_data } => {
                if remaining_dots == 0 {
                    *self = Ppu::DrawingPixels { dots_count: 0, drawing_state: DrawingState::new(current_frame_data) };
                }
            },
            Ppu::DrawingPixels { dots_count, drawing_state } => {
                if drawing_state.x == 160 {
                    *self = Ppu::HorizontalBlank {
                        remaining_dots: (376 - dots_count) as u8,
                        current_frame_data: drawing_state.current_frame_data,
                        dots_count: 0,
                        scanline: drawing_state.scanline,
                    };
                }
            },
            Ppu::HorizontalBlank { remaining_dots, dots_count, current_frame_data, .. } => {
                if remaining_dots == dots_count {
                    *self = if ly == 144 {
                        Ppu::VerticalBlankScanline { remaining_dots: VERTICAL_BLANK_SCANLINE_DURATION }
                    } else {
                        Ppu::OamScan { remaining_dots: OAM_SCAN_DURATION, current_frame_data }
                    };
                }
            },
            Ppu::VerticalBlankScanline { remaining_dots } => {
                if remaining_dots == 0 {
                    *self = Ppu::default();
                }
            },
        }
    }
}

impl StateMachine for Ppu {
    /// The dot counters stay within their modes: a drawing has drawn at most one pixel per dot
    /// from dot 12 on and was paused at most 19 dots.
    open spec fn wf(&self) -> bool {
        match *self {
            Ppu::OamScan { remaining_dots, .. } => remaining_dots <= OAM_SCAN_DURATION,
            Ppu::DrawingPixels { dots_count, drawing_state } => {
                &&& drawing_state.x <= 160
                &&& drawing_state.x > 0 ==> dots_count >= drawing_state.x + 12
                &&& dots_count <= drawing_state.x + 19
            },
            Ppu::HorizontalBlank { remaining_dots, dots_count, .. } => dots_count <= remaining_dots,
            Ppu::VerticalBlankScanline { remaining_dots } => remaining_dots <= VERTICAL_BLANK_SCANLINE_DURATION,
        }
    }

    /// A pixel drawn on this dot must be drawable.
    open spec fn can_step(&self, state: State) -> bool {
        state.lcd_control & LCD_PPU_ENABLE != 0 ==> match switched(*self, state.ly) {
            Ppu::DrawingPixels { dots_count, drawing_state } => dots_count >= 12 + state.scx % 8 ==> can_draw(
                drawing_state,
                state,
            ),
            _ => true,
        }
    }

    open spec fn step(&self, state: State) -> (Self, State) {
        ppu_step(*self, state)
    }

    fn execute(&mut self, state: &mut State, cycle_count: u64) {
        if state.lcd_control & LCD_PPU_ENABLE == 0 {
            return;
        }
        self.switch_from_finished_mode(state.ly, cycle_count);
        let p = *self;
        match p {
            Ppu::OamScan { remaining_dots, current_frame_data } => {
                if (remaining_dots == 76 && state.ly == 0) || (remaining_dots == OAM_SCAN_DURATION && state.ly >= 1) {
                    request_interrupt(state, OAM_INT, cycle_count);
                }
                if remaining_dots == 76 {
                    state.set_ppu_mode(MODE_OAM_SCAN);
                }
                let wy_condition = current_frame_data.wy_condition || (remaining_dots == OAM_SCAN_DURATION
                    && state.ly == state.wy);
                *self = Ppu::OamScan {
                    remaining_dots: remaining_dots - 1,
                    current_frame_data: CurrentFrameData { wy_condition, ..current_frame_data },
                };
            },
            Ppu::DrawingPixels { dots_count, drawing_state } => {
                if dots_count == 4 {
                    state.set_ppu_mode(MODE_DRAWING);
                }
                let mut d = drawing_state;
                if dots_count >= 12 + (state.scx % 8) as u16 {
                    d.execute(state);
                }
                *self = Ppu::DrawingPixels { dots_count: dots_count + 1, drawing_state: d };
            },
            Ppu::HorizontalBlank { remaining_dots, dots_count, current_frame_data, scanline } => {
                if dots_count == 3 {
                    request_interrupt(state, HBLANK_INT, cycle_count);
                } else if dots_count == 4 {
                    state.set_ppu_mode(MODE_HBLANK);
                }
                *self = Ppu::HorizontalBlank { remaining_dots, dots_count: dots_count + 1, current_frame_data, scanline };
            },
            Ppu::VerticalBlankScanline { remaining_dots } => {
                if remaining_dots == VERTICAL_BLANK_SCANLINE_DURATION - 4 {
                    request_interrupt(state, VBLANK_INT, cycle_count);
                    state.interrupt_flag.insert(Ints::vblank());
                    state.set_ppu_mode(MODE_VBLANK);
                }
                *self = Ppu::VerticalBlankScanline { remaining_dots: remaining_dots - 1 };
            },
        }
    }
}

/// `n` steps of a state machine.
pub open spec fn repeated<T: StateMachine>(t: T, s: State, n: nat) -> (T, State)
    decreases n,
{
    if n == 0 {
        (t, s)
    } else {
        let (t1, s1) = t.step(s);
        repeated(t1, s1, (n - 1) as nat)
    }
}

/// Whether `n` steps may be taken.
pub open spec fn can_repeat<T: StateMachine>(t: T, s: State, n: nat) -> bool
    decreases n,
{
    n == 0 || (t.can_step(s) && can_repeat(t.step(s).0, t.step(s).1, (n - 1) as nat))
}

/// A state machine run as many times per step as the second field says (at least once): the
/// PPU is faster than the other components.
#[derive(Clone)]
pub struct Speeder<T: StateMachine>(pub T, pub u8);

impl<T: StateMachine> StateMachine for Speeder<T> {
    open spec fn wf(&self) -> bool {
        self.0.wf() && self.1 >= 1
    }

    open spec fn can_step(&self, state: State) -> bool {
        can_repeat(self.0, state, self.1 as nat)
    }

    open spec fn step(&self, state: State) -> (Self, State) {
        (Speeder(repeated(self.0, state, self.1 as nat).0, self.1), repeated(self.0, state, self.1 as nat).1)
    }

    fn execute(&mut self, state: &mut State, cycle_count: u64) {
        let ghost t0 = self.0;
        let ghost s0 = *state;
        let n = self.1;
        let mut i: u8 = 0;
        while i < n
            invariant
                i <= n == self.1,
                n >= 1,
                self.0.wf(),
                repeated(t0, s0, n as nat) == repeated(self.0, *state, (n - i) as nat),
                can_repeat(self.0, *state, (n - i) as nat),
            decreases n - i,
        {
            self.0.execute(state, cycle_count);
            i = i + 1;
        }
    }
}

/// The PPU's two machines: LY and the dots, four dots per M-cycle.
pub type PpuBundle = (LyHandler, Speeder<Ppu>);

pub fn get_ppu_bundle() -> (r: PpuBundle)
    ensures
        r.0.logical_ly == 0 && r.0.clock_count_in_line == 0 && r.0.delayed_ly == 0 && !r.0.already_checked,
        r.1.0 == ppu_initial(),
        r.1.1 == 4,
{
    (LyHandler::default(), Speeder(Ppu::default(), 4))
}

} // verus!
