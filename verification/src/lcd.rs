//! The LCD mode state machine and the background tile pipeline: decoding
//! 2-bit color codes from tile data, mapping them through the palette to
//! shades, and assembling the visible screen. The wall-clock pacing that
//! drives the state machine is a caller's concern: the machine itself is a
//! pure transition on its counters.

use crate::lcd_registers::BGPaletteRegister;
use crate::lcd_registers::ScrollXRegister;
use crate::lcd_registers::ScrollYRegister;
use crate::ram::MemoryRegister;
use crate::ram::RAM;
use crate::ram::spec_tile_base;
use vstd::prelude::*;

verus! {

/// The four modes the LCD cycles through while drawing.
#[derive(Clone, Copy, PartialEq, Eq, Structural, Debug)]
pub enum LCDMode {
    HBLANK,
    VBLANK,
    OAM,
    TX,
}

/// The status byte each mode reports.
pub open spec fn spec_status_byte(m: LCDMode) -> u8 {
    match m {
        LCDMode::HBLANK => 0x08,
        LCDMode::VBLANK => 0x11,
        LCDMode::OAM => 0x22,
        LCDMode::TX => 0x03,
    }
}

/// How many machine ticks each mode lasts.
pub open spec fn spec_mode_duration(m: LCDMode) -> u16 {
    match m {
        LCDMode::HBLANK => 201,
        LCDMode::VBLANK => 4560,
        LCDMode::OAM => 77,
        LCDMode::TX => 169,
    }
}

/// The mode that follows each mode.
pub open spec fn spec_next_state(m: LCDMode) -> LCDMode {
    match m {
        LCDMode::HBLANK => LCDMode::OAM,
        LCDMode::VBLANK => LCDMode::OAM,
        LCDMode::OAM => LCDMode::TX,
        LCDMode::TX => LCDMode::HBLANK,
    }
}

impl LCDMode {
    pub fn get_status_byte(&self) -> (r: u8)
        ensures
            r == spec_status_byte(*self),
    {
        match self {
            LCDMode::HBLANK => 0x08,
            LCDMode::VBLANK => 0x11,
            LCDMode::OAM => 0x22,
            LCDMode::TX => 0x03,
        }
    }

    pub fn get_mode_duration(&self) -> (r: u16)
        ensures
            r == spec_mode_duration(*self),
    {
        match self {
            LCDMode::HBLANK => 201,
            LCDMode::VBLANK => 4560,
            LCDMode::OAM => 77,
            LCDMode::TX => 169,
        }
    }

    /// How long one scanned line lasts, in nanoseconds: the vertical blank
    /// spreads its period over 30 line steps, the drawing modes spread one
    /// whole mode cycle over the 144 visible lines.
    pub fn get_line_duration(&self) -> (r: u64)
        ensures
            r == (match *self {
                LCDMode::VBLANK => (1080000int / 30) as u64,
                _ => ((48600int + 19000 + 41000) / 144) as u64,
            }),
    {
        match self {
            LCDMode::VBLANK => 1080000 / 30,
            _ => (48600 + 19000 + 41000) / 144,
        }
    }

    pub fn get_next_state(&self) -> (r: Self)
        ensures
            r == spec_next_state(*self),
    {
        match self {
            LCDMode::HBLANK => LCDMode::OAM,
            LCDMode::VBLANK => LCDMode::OAM,
            LCDMode::OAM => LCDMode::TX,
            LCDMode::TX => LCDMode::HBLANK,
        }
    }

    /// The line number each mode reports when it is not scanning: the last
    /// line during the vertical blank, the first otherwise.
    pub fn get_vertical_line(&self) -> (r: u8)
        ensures
            r == (match *self {
                LCDMode::VBLANK => 153u8,
                _ => 0u8,
            }),
    {
        match self {
            LCDMode::VBLANK => 153,
            _ => 0,
        }
    }
}

/// The mode state machine: it counts ticks within the active mode, enters
/// the vertical blank when the caller says one is due, and hands modes on
/// when their durations elapse.
pub struct LCDStateMachine {
    active_mode: LCDMode,
    curr_mode_count: u16,
    current_line: u8,
}

impl LCDStateMachine {
    pub closed spec fn spec_mode(&self) -> LCDMode {
        self.active_mode
    }

    pub closed spec fn spec_count(&self) -> u16 {
        self.curr_mode_count
    }

    pub closed spec fn spec_line(&self) -> u8 {
        self.current_line
    }

    pub fn new() -> (r: Self)
        ensures
            r.spec_mode() == LCDMode::OAM,
            r.spec_count() == 0,
            r.spec_line() == 0,
    {
        LCDStateMachine { active_mode: LCDMode::OAM, curr_mode_count: 0, current_line: 0 }
    }

    /// One tick: a due vertical blank preempts any drawing mode; a mode
    /// whose duration has elapsed hands over to its successor; the tick
    /// count then advances within the active mode. The current line tracks
    /// the mode's resting line.
    pub fn next(&mut self, vblank_due: bool)
        ensures
            ({
                let entered_vblank = old(self).spec_mode() != LCDMode::VBLANK && vblank_due;
                let mode1 = if entered_vblank {
                    LCDMode::VBLANK
                } else {
                    old(self).spec_mode()
                };
                let count1 = if entered_vblank {
                    0u16
                } else {
                    old(self).spec_count()
                };
                let rolled = count1 >= spec_mode_duration(mode1);
                let mode2 = if rolled {
                    spec_next_state(mode1)
                } else {
                    mode1
                };
                let count2: u16 = if rolled {
                    0u16
                } else {
                    count1
                };
                &&& final(self).spec_mode() == mode2
                &&& final(self).spec_count() == count2 + 1
                &&& final(self).spec_line() == (match mode2 {
                    LCDMode::VBLANK => 153u8,
                    _ => 0u8,
                })
            }),
    {
        match self.active_mode {
            LCDMode::VBLANK => {},
            _ => {
                if vblank_due {
                    self.active_mode = LCDMode::VBLANK;
                    self.curr_mode_count = 0;
                }
            },
        }
        if self.curr_mode_count >= self.active_mode.get_mode_duration() {
            self.active_mode = self.active_mode.get_next_state();
            self.curr_mode_count = 0;
        }
        self.curr_mode_count = self.curr_mode_count + 1;
        self.current_line = self.active_mode.get_vertical_line();
    }

    pub fn get_active_mode(&self) -> (r: &LCDMode)
        ensures
            *r == self.spec_mode(),
    {
        &self.active_mode
    }

    pub fn get_current_line(&self) -> (r: u8)
        ensures
            r == self.spec_line(),
    {
        self.current_line
    }
}

/// The shade a 2-bit palette index maps to on the monochrome screen,
/// brightest first.
pub open spec fn spec_shade(idx: usize) -> u8 {
    if idx == 0 {
        255
    } else if idx == 1 {
        192
    } else if idx == 2 {
        64
    } else {
        0
    }
}

/// The 2-bit color code of one pixel of a tile: the low bit from the even
/// byte of the row, the high bit from the odd byte.
pub open spec fn spec_color_code(d: Seq<u8>, row: int, bit: int) -> u8 {
    ((d[2 * row] >> ((7 - bit) as u8)) & 0x01) | (((d[2 * row + 1] >> ((7 - bit) as u8)) & 0x01)
        << 1) as u8
}

fn shade(idx: usize) -> (r: u8)
    ensures
        r == spec_shade(idx),
{
    if idx == 0 {
        255
    } else if idx == 1 {
        192
    } else if idx == 2 {
        64
    } else {
        0
    }
}

/// One 8-by-8 background tile, already mapped through the palette to
/// shades.
#[derive(Clone, Copy)]
pub struct BGTile {
    pub pixel_data: [u8; 64],
}

impl BGTile {
    pub fn new() -> (r: Self)
        ensures
            forall|i: int| 0 <= i < 64 ==> r.pixel_data@[i] == 0,
    {
        BGTile { pixel_data: [0;64] }
    }

    /// Reads one tile: its index from the tile map, its 16 data bytes from
    /// the tile-data table (with the signed-index form for the 0x8800
    /// table), then each pixel decoded to a color code and mapped through
    /// the palette to a shade.
    pub fn read_from_ram(
        ram: &RAM,
        tile_map_address: u16,
        tile_data_address: u16,
        index: u16,
        palette: &BGPaletteRegister,
    ) -> (r: Self)
        requires
            ram.wf(),
            tile_map_address + index <= 0xFFFF,
            tile_data_address <= 0xEFF0,
        ensures
            spec_tile_decoded(
                ram@,
                tile_map_address,
                tile_data_address,
                index,
                palette.spec_value(),
                r.pixel_data@,
            ),
    {
        let palette_colors = palette.palette_colors();
        let mut tile = BGTile::new();
        let tile_index = ram.get_at(tile_map_address + index).unwrap();
        let tile_data = ram.get_tile_data(tile_data_address, tile_index, tile_data_address == 0x8800);
        let ghost base = spec_tile_base(tile_data_address, tile_index, tile_data_address == 0x8800);
        let ghost d = ram@.subrange(base, base + 16);
        proof {
            assert(tile_data@ =~= d);
        }
        let mut row: usize = 0;
        while row < 8
            invariant
                tile_data@ == d,
                palette_colors@.len() == 4,
                forall|i: int| 0 <= i < 4 ==> #[trigger] palette_colors@[i] < 4,
                palette_colors@ =~= seq![
                    (palette.spec_value() & 0x03) as usize,
                    ((palette.spec_value() >> 2) & 0x03) as usize,
                    ((palette.spec_value() >> 4) & 0x03) as usize,
                    ((palette.spec_value() >> 6) & 0x03) as usize,
                ],
                row <= 8,
                tile.pixel_data@.len() == 64,
                forall|r0: int, b0: int|
                    0 <= r0 < row && 0 <= b0 < 8 ==> tile.pixel_data@[r0 * 8 + b0] == spec_shade(
                        spec_palette_index(palette.spec_value(), spec_color_code(d, r0, b0)),
                    ),
            decreases 8 - row,
        {
            let mut bit: usize = 0;
            while bit < 8
                invariant
                    tile_data@ == d,
                    palette_colors@.len() == 4,
                    forall|i: int| 0 <= i < 4 ==> #[trigger] palette_colors@[i] < 4,
                    palette_colors@ =~= seq![
                        (palette.spec_value() & 0x03) as usize,
                        ((palette.spec_value() >> 2) & 0x03) as usize,
                        ((palette.spec_value() >> 4) & 0x03) as usize,
                        ((palette.spec_value() >> 6) & 0x03) as usize,
                    ],
                    row < 8,
                    bit <= 8,
                    tile.pixel_data@.len() == 64,
                    forall|r0: int, b0: int|
                        0 <= r0 < row && 0 <= b0 < 8 ==> tile.pixel_data@[r0 * 8 + b0]
                            == spec_shade(
                            spec_palette_index(palette.spec_value(), spec_color_code(d, r0, b0)),
                        ),
                    forall|b0: int|
                        0 <= b0 < bit ==> tile.pixel_data@[row * 8 + b0] == spec_shade(
                            spec_palette_index(palette.spec_value(), spec_color_code(d, row as int, b0)),
                        ),
                decreases 8 - bit,
            {
                let code: u8 = ((tile_data[row * 2] >> ((7 - bit) as u8)) & 0x01) | (((tile_data[row
                    * 2 + 1] >> ((7 - bit) as u8)) & 0x01) << 1);
                proof {
                    lemma_color_code_small(d[row as int * 2], d[row as int * 2 + 1], (7 - bit) as u8);
                }
                tile.pixel_data[row * 8 + bit] = shade(palette_colors[code as usize]);
                bit = bit + 1;
            }
            row = row + 1;
        }
        tile
    }
}


/// Whether a 64-pixel buffer holds the tile that the given tile map and
/// tile-data table describe at an index, mapped through a palette byte.
pub open spec fn spec_tile_decoded(
    mem: Seq<u8>,
    tile_map_address: u16,
    tile_data_address: u16,
    index: u16,
    palette: u8,
    pixels: Seq<u8>,
) -> bool {
    let tile_index = mem[tile_map_address + index];
    let base = spec_tile_base(tile_data_address, tile_index, tile_data_address == 0x8800);
    let d = mem.subrange(base, base + 16);
    forall|row: int, bit: int|
        0 <= row < 8 && 0 <= bit < 8 ==> pixels[row * 8 + bit] == spec_shade(
            spec_palette_index(palette, spec_color_code(d, row, bit)),
        )
}

/// Which palette slot a 2-bit color code selects.
pub open spec fn spec_palette_index(palette: u8, code: u8) -> usize {
    if code == 0 {
        (palette & 0x03) as usize
    } else if code == 1 {
        ((palette >> 2) & 0x03) as usize
    } else if code == 2 {
        ((palette >> 4) & 0x03) as usize
    } else {
        ((palette >> 6) & 0x03) as usize
    }
}

/// A pixel's color code is built from two bits and stays below four.
proof fn lemma_color_code_small(lo: u8, hi: u8, sh: u8)
    by (bit_vector)
    requires
        sh < 8,
    ensures
        (((lo >> sh) & 0x01) | (((hi >> sh) & 0x01) << 1) as u8) < 4,
{
}

/// The assembled background image: the 32-by-32 tile map decoded to tiles,
/// the 256-by-256 pixel plane they draw into, and the scroll position that
/// selects the visible window.
pub struct LCDImage {
    x_pos: u8,
    y_pos: u8,
    scroll_x: ScrollXRegister,
    scroll_y: ScrollYRegister,
    bg_palette: BGPaletteRegister,
    tile_map: [BGTile; 1024],
    pixel_data: [u8; 65536],
    bg_tilemap_address: u16,
    bg_win_tiledata_address: u16,
}

impl LCDImage {
    pub closed spec fn spec_x(&self) -> u8 {
        self.x_pos
    }

    pub closed spec fn spec_y(&self) -> u8 {
        self.y_pos
    }

    pub closed spec fn spec_pixels(&self) -> Seq<u8> {
        self.pixel_data@
    }

    pub closed spec fn spec_tiles(&self) -> Seq<BGTile> {
        self.tile_map@
    }

    pub closed spec fn spec_tilemap_address(&self) -> u16 {
        self.bg_tilemap_address
    }

    pub closed spec fn spec_tiledata_address(&self) -> u16 {
        self.bg_win_tiledata_address
    }

    pub closed spec fn spec_palette(&self) -> u8 {
        self.bg_palette.spec_value()
    }

    /// The scroll registers sit at their hardware addresses, the table
    /// addresses are one of the two selectable tables each, and the scroll
    /// position stays inside the pixel plane.
    pub closed spec fn wf(&self) -> bool {
        &&& self.scroll_x.spec_address() == crate::lcd_registers::LCD_SCROLL_X_ADDRESS
        &&& self.scroll_y.spec_address() == crate::lcd_registers::LCD_SCROLL_Y_ADDRESS
        &&& self.bg_palette.spec_address() == crate::lcd_registers::BG_PALETTE_ADDRESS
        &&& (self.bg_tilemap_address == 0x9800 || self.bg_tilemap_address == 0x9C00)
        &&& (self.bg_win_tiledata_address == 0x8800 || self.bg_win_tiledata_address == 0x8000)
        &&& self.x_pos < 111
        &&& self.y_pos < 95
    }

    pub fn new() -> (r: Self)
        ensures
            r.wf(),
            r.spec_x() == 0 && r.spec_y() == 0,
            r.spec_tilemap_address() == 0x9800,
            r.spec_tiledata_address() == 0x8800,
    {
        LCDImage {
            x_pos: 0,
            y_pos: 0,
            scroll_x: ScrollXRegister::new(),
            scroll_y: ScrollYRegister::new(),
            bg_palette: BGPaletteRegister::new(),
            tile_map: [BGTile { pixel_data: [0;64] };1024],
            pixel_data: [0;65536],
            bg_tilemap_address: 0x9800,
            bg_win_tiledata_address: 0x8800,
        }
    }

    /// Blanks the pixel plane to the brightest shade.
    pub fn reset(&mut self)
        ensures
            final(self).wf() == old(self).wf(),
            forall|i: int| 0 <= i < 65536 ==> final(self).spec_pixels()[i] == 255,
            final(self).spec_tiles() == old(self).spec_tiles(),
            final(self).spec_x() == old(self).spec_x(),
            final(self).spec_y() == old(self).spec_y(),
            final(self).spec_palette() == old(self).spec_palette(),
            final(self).spec_tilemap_address() == old(self).spec_tilemap_address(),
            final(self).spec_tiledata_address() == old(self).spec_tiledata_address(),
    {
        let mut i: usize = 0;
        while i < 65536
            invariant
                i <= 65536,
                self.pixel_data@.len() == 65536,
                forall|j: int| 0 <= j < i ==> self.pixel_data@[j] == 255,
                self.tile_map == old(self).tile_map,
                self.x_pos == old(self).x_pos,
                self.y_pos == old(self).y_pos,
                self.scroll_x == old(self).scroll_x,
                self.scroll_y == old(self).scroll_y,
                self.bg_palette == old(self).bg_palette,
                self.bg_tilemap_address == old(self).bg_tilemap_address,
                self.bg_win_tiledata_address == old(self).bg_win_tiledata_address,
            decreases 65536 - i,
        {
            self.pixel_data[i] = 255;
            i = i + 1;
        }
    }

    /// The visible 160-by-144 window of the pixel plane at the scroll
    /// position, with cells that fall off the plane left at the brightest
    /// shade.
    pub fn get_data(&self) -> (r: [u8; 23040])
        ensures
            forall|dr: int, dc: int|
                0 <= dr < 144 && 0 <= dc < 160 ==> #[trigger] r@[dr * 160 + dc] == (if dr + self.spec_y() < 255
                    && dc + self.spec_x() < 255 {
                    self.spec_pixels()[(dr + self.spec_y()) * 256 + dc + self.spec_x()]
                } else {
                    255u8
                }),
    {
        let mut data: [u8; 23040] = [255;23040];
        let mut dr: usize = 0;
        while dr < 144
            invariant
                dr <= 144,
                data@.len() == 23040,
                self.pixel_data@.len() == 65536,
                forall|r0: int, c0: int|
                    0 <= r0 < dr && 0 <= c0 < 160 ==> #[trigger] data@[r0 * 160 + c0] == (if r0 + self.spec_y()
                        < 255 && c0 + self.spec_x() < 255 {
                        self.spec_pixels()[(r0 + self.spec_y()) * 256 + c0 + self.spec_x()]
                    } else {
                        255u8
                    }),
                forall|j: int| dr * 160 <= j < 23040 ==> data@[j] == 255,
            decreases 144 - dr,
        {
            let mut dc: usize = 0;
            while dc < 160
                invariant
                    dr < 144,
                    dc <= 160,
                    data@.len() == 23040,
                    self.pixel_data@.len() == 65536,
                    forall|r0: int, c0: int|
                        0 <= r0 < dr && 0 <= c0 < 160 ==> #[trigger] data@[r0 * 160 + c0] == (if r0
                            + self.spec_y() < 255 && c0 + self.spec_x() < 255 {
                            self.spec_pixels()[(r0 + self.spec_y()) * 256 + c0 + self.spec_x()]
                        } else {
                            255u8
                        }),
                    forall|c0: int|
                        0 <= c0 < dc ==> #[trigger] data@[dr * 160 + c0] == (if dr + self.spec_y() < 255 && c0
                            + self.spec_x() < 255 {
                            self.spec_pixels()[(dr + self.spec_y()) * 256 + c0 + self.spec_x()]
                        } else {
                            255u8
                        }),
                    forall|j: int| dr * 160 + dc <= j < 23040 ==> data@[j] == 255,
                decreases 160 - dc,
            {
                let row = dr + self.y_pos as usize;
                let col = dc + self.x_pos as usize;
                if row < 255 && col < 255 {
                    data[dr * 160 + dc] = self.pixel_data[row * 256 + col];
                }
                dc = dc + 1;
            }
            dr = dr + 1;
        }
        data
    }

    /// Moves the visible window; positions that would leave the plane are
    /// snapped back to the origin.
    pub fn set_pos(&mut self, x_pos: u8, y_pos: u8)
        ensures
            final(self).spec_x() == (if x_pos < 111 {
                x_pos
            } else {
                0u8
            }),
            final(self).spec_y() == (if y_pos < 95 {
                y_pos
            } else {
                0u8
            }),
            final(self).spec_pixels() == old(self).spec_pixels(),
            final(self).spec_tiles() == old(self).spec_tiles(),
            final(self).spec_palette() == old(self).spec_palette(),
            final(self).spec_tilemap_address() == old(self).spec_tilemap_address(),
            final(self).spec_tiledata_address() == old(self).spec_tiledata_address(),
            old(self).wf() ==> final(self).wf(),
    {
        if x_pos < 111 {
            self.x_pos = x_pos;
        } else {
            self.x_pos = 0;
        }
        if y_pos < 95 {
            self.y_pos = y_pos;
        } else {
            self.y_pos = 0;
        }
    }

    /// Selects the background tile map.
    pub fn set_bg_vram_address(&mut self, address: u16)
        requires
            address == 0x9800 || address == 0x9C00,
        ensures
            final(self).spec_tilemap_address() == address,
            old(self).wf() ==> final(self).wf(),
            final(self).spec_tiledata_address() == old(self).spec_tiledata_address(),
            final(self).spec_pixels() == old(self).spec_pixels(),
            final(self).spec_tiles() == old(self).spec_tiles(),
    {
        self.bg_tilemap_address = address;
    }

    /// Selects the background/window tile-data table.
    pub fn set_bg_win_tiledata_address(&mut self, address: u16)
        requires
            address == 0x8800 || address == 0x8000,
        ensures
            final(self).spec_tiledata_address() == address,
            old(self).wf() ==> final(self).wf(),
            final(self).spec_tilemap_address() == old(self).spec_tilemap_address(),
            final(self).spec_pixels() == old(self).spec_pixels(),
            final(self).spec_tiles() == old(self).spec_tiles(),
    {
        self.bg_win_tiledata_address = address;
    }

    /// Decodes all 1024 tiles of the selected tile map through the palette.
    pub fn read_tilemap(&mut self, ram: &RAM)
        requires
            old(self).wf(),
            ram.wf(),
        ensures
            final(self).wf(),
            forall|i: int|
                0 <= i < 1024 ==> spec_tile_decoded(
                    ram@,
                    old(self).spec_tilemap_address(),
                    old(self).spec_tiledata_address(),
                    i as u16,
                    old(self).spec_palette(),
                    final(self).spec_tiles()[i].pixel_data@,
                ),
            final(self).spec_pixels() == old(self).spec_pixels(),
            final(self).spec_x() == old(self).spec_x(),
            final(self).spec_y() == old(self).spec_y(),
            final(self).spec_palette() == old(self).spec_palette(),
            final(self).spec_tilemap_address() == old(self).spec_tilemap_address(),
            final(self).spec_tiledata_address() == old(self).spec_tiledata_address(),
    {
        let mut i: usize = 0;
        while i < 1024
            invariant
                self.wf(),
                ram.wf(),
                i <= 1024,
                self.tile_map@.len() == 1024,
                self.x_pos == old(self).x_pos,
                self.y_pos == old(self).y_pos,
                self.scroll_x == old(self).scroll_x,
                self.scroll_y == old(self).scroll_y,
                self.bg_palette == old(self).bg_palette,
                self.pixel_data == old(self).pixel_data,
                self.bg_tilemap_address == old(self).bg_tilemap_address,
                self.bg_win_tiledata_address == old(self).bg_win_tiledata_address,
                forall|j: int|
                    0 <= j < i ==> spec_tile_decoded(
                        ram@,
                        self.bg_tilemap_address,
                        self.bg_win_tiledata_address,
                        j as u16,
                        self.bg_palette.spec_value(),
                        self.tile_map@[j].pixel_data@,
                    ),
            decreases 1024 - i,
        {
            let tile = BGTile::read_from_ram(
                ram,
                self.bg_tilemap_address,
                self.bg_win_tiledata_address,
                i as u16,
                &self.bg_palette,
            );
            self.tile_map[i] = tile;
            i = i + 1;
        }
    }

    /// Paints the pixel plane from the decoded tiles, eight-by-eight; with
    /// the background disabled the plane is blanked instead. The window and
    /// sprite layers are left to their own collaborators.
    pub fn draw(&mut self, draw_bg: bool, _draw_window: bool, _draw_sprites: bool)
        ensures
            final(self).wf() == old(self).wf(),
            final(self).spec_tiles() == old(self).spec_tiles(),
            draw_bg ==> forall|i: int|
                0 <= i < 65536 ==> final(self).spec_pixels()[i] == old(self).spec_tiles()[(i / 256
                    / 8) * 32 + (i % 256) / 8].pixel_data@[((i / 256) % 8) * 8 + (i % 256) % 8],
            !draw_bg ==> forall|i: int| 0 <= i < 65536 ==> final(self).spec_pixels()[i] == 255,
    {
        if draw_bg {
            let mut i: usize = 0;
            while i < 65536
                invariant
                    i <= 65536,
                    self.pixel_data@.len() == 65536,
                    self.tile_map@.len() == 1024,
                    self.x_pos == old(self).x_pos,
                    self.y_pos == old(self).y_pos,
                    self.scroll_x == old(self).scroll_x,
                    self.scroll_y == old(self).scroll_y,
                    self.bg_palette == old(self).bg_palette,
                    self.tile_map == old(self).tile_map,
                    self.bg_tilemap_address == old(self).bg_tilemap_address,
                    self.bg_win_tiledata_address == old(self).bg_win_tiledata_address,
                    forall|j: int|
                        0 <= j < i ==> self.pixel_data@[j] == self.tile_map@[(j / 256 / 8) * 32 + (j
                            % 256) / 8].pixel_data@[((j / 256) % 8) * 8 + (j % 256) % 8],
                decreases 65536 - i,
            {
                let row = i / 256;
                let col = i % 256;
                let tile = &self.tile_map[(row / 8) * 32 + col / 8];
                self.pixel_data[i] = tile.pixel_data[(row % 8) * 8 + col % 8];
                i = i + 1;
            }
        } else {
            self.reset();
        }
    }

    /// Refreshes the scroll position and the palette from memory.
    pub fn read_from_ram(&mut self, ram: &RAM)
        requires
            old(self).wf(),
            ram.wf(),
        ensures
            final(self).wf(),
            final(self).spec_palette() == ram@[crate::lcd_registers::BG_PALETTE_ADDRESS as int],
            final(self).spec_pixels() == old(self).spec_pixels(),
            final(self).spec_tiles() == old(self).spec_tiles(),
            final(self).spec_tilemap_address() == old(self).spec_tilemap_address(),
            final(self).spec_tiledata_address() == old(self).spec_tiledata_address(),
    {
        self.scroll_x.read_from_ram(ram);
        self.scroll_y.read_from_ram(ram);
        let x = self.scroll_x.get_value();
        let y = self.scroll_y.get_value();
        self.set_pos(x, y);
        self.bg_palette.read_from_ram(ram);
    }

    /// Stores the scroll position and the palette back into memory; these
    /// writes are never refused.
    pub fn load_in_ram(&self, ram: &mut RAM) -> (r: Option<()>)
        requires
            self.wf(),
            old(ram).wf(),
        ensures
            final(ram).wf(),
            r is Some,
    {
        let r1 = self.scroll_x.load_in_ram(ram);
        proof {
            assert(r1 is Some);
        }
        let r2 = self.scroll_y.load_in_ram(ram);
        proof {
            assert(r2 is Some);
        }
        self.bg_palette.load_in_ram(ram)
    }
}

} // verus!
