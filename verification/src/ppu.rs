use vstd::prelude::*;
use crate::memory::{tile_address, Memory};
use crate::sprite_attribute::SpriteAttribute;
use crate::tile_info::{color_id, TileInfo, TileType};
use crate::util::{bit_from_top, get_as_bits};

verus! {

/// The largest coordinate and the largest side of a rectangle.
pub const RECT_MAX: i32 = 0x3FFF_FFFF;

/// The smallest coordinate of a rectangle.
pub const RECT_MIN: i32 = -0x4000_0000;

/// A rectangle of screen pixels. It is never empty, and its sides and
/// coordinates stay within half the range of an `i32`, so that its right
/// and bottom edges can be computed.
#[derive(Debug, Clone, Copy, PartialEq, Eq, Structural)]
pub struct Rect {
    pub x: i32,
    pub y: i32,
    pub width: u32,
    pub height: u32,
}

/// A coordinate brought into the range of a rectangle.
pub open spec fn clamped_position(value: int) -> i32 {
    if value > RECT_MAX {
        RECT_MAX
    } else if value < RECT_MIN {
        RECT_MIN
    } else {
        value as i32
    }
}

/// A side brought into the range of a rectangle: at least 1.
pub open spec fn clamped_size(value: int) -> u32 {
    if value <= 0 {
        1
    } else if value > RECT_MAX {
        RECT_MAX as u32
    } else {
        value as u32
    }
}

impl Rect {
    /// The rectangle that the four values describe, each brought into range.
    pub open spec fn clamped(x: int, y: int, width: int, height: int) -> Rect {
        Rect {
            x: clamped_position(x),
            y: clamped_position(y),
            width: clamped_size(width),
            height: clamped_size(height),
        }
    }

    /// Creates a rectangle from the given values. A side of 0 is replaced
    /// with 1; sides and coordinates beyond the range are brought to its end.
    pub fn new(x: i32, y: i32, width: u32, height: u32) -> (r: Rect)
        ensures
            r == Rect::clamped(x as int, y as int, width as int, height as int),
            RECT_MIN <= r.x <= RECT_MAX,
            RECT_MIN <= r.y <= RECT_MAX,
            1 <= r.width <= RECT_MAX,
            1 <= r.height <= RECT_MAX,
    {
        Rect {
            x: Self::clamp_position(x),
            y: Self::clamp_position(y),
            width: Self::clamp_size(width),
            height: Self::clamp_size(height),
        }
    }

    fn clamp_position(value: i32) -> (r: i32)
        ensures
            r == clamped_position(value as int),
    {
        if value > RECT_MAX {
            RECT_MAX
        } else if value < RECT_MIN {
            RECT_MIN
        } else {
            value
        }
    }

    fn clamp_size(value: u32) -> (r: u32)
        ensures
            r == clamped_size(value as int),
    {
        if value == 0 {
            1
        } else if value > RECT_MAX as u32 {
            RECT_MAX as u32
        } else {
            value
        }
    }
}

/// The size in screen pixels of one pixel of the console.
#[derive(Debug)]
pub struct Ppu {
    pub pixel_width: u32,
    pub pixel_height: u32,
}

/// The rectangles to fill, one list for each of the four shades and one for
/// the transparent pixels.
#[derive(Debug)]
pub struct ColorRects {
    pub color0_rects: Vec<Rect>,
    pub color1_rects: Vec<Rect>,
    pub color2_rects: Vec<Rect>,
    pub color3_rects: Vec<Rect>,
    pub transparent_rects: Vec<Rect>,
}

/// The list that a palette value sends a pixel to: 0, 1 and 2 to the list of
/// their shade, every other value to the darkest.
pub open spec fn shade_of(palette: u8) -> int {
    if palette == 0 {
        0
    } else if palette == 1 {
        1
    } else if palette == 2 {
        2
    } else {
        3
    }
}

/// The shade of one pixel of a tile under the palette `color_values`.
pub open spec fn shade_at(tile: Seq<u8>, row: int, col: int, color_values: Seq<u8>) -> int {
    shade_of(color_values[color_id(tile, row, col)])
}

/// Of the background map, the index of the tile that column `x` of the
/// tiles of screen line `y` shows, with the scroll registers applied.
pub open spec fn background_tile(tilemap: [[u8; 32]; 32], scy: u8, scx: u8, y: int, x: int) -> u8 {
    tilemap[((scy + y) / 8) % 32][((scx + 8 * x) / 8) % 32]
}

/// Of the window map, the index of the tile that column `x` of the tiles of
/// screen line `y` shows, for a window that starts at line `wy`.
pub open spec fn window_tile(tilemap: [[u8; 32]; 32], wy: u8, y: int, x: int) -> u8 {
    tilemap[((if y >= wy {
        y - wy
    } else {
        0
    }) / 8) % 32][(x / 8) % 32]
}

/// The shade that a palette register gives to colour `color`: two bits for
/// each colour, colour 0 in the lowest two.
pub open spec fn palette_shade(register: u8, color: int) -> int {
    2 * bit_from_top(register, 6 - 2 * color) + bit_from_top(register, 7 - 2 * color)
}

/// The shade that a sprite palette register gives to colour `color`:
/// colour 0 is transparent and stands as shade 0.
pub open spec fn sprite_palette_shade(register: u8, color: int) -> int {
    if color == 0 {
        0
    } else {
        palette_shade(register, color)
    }
}

/// Whether the window, and not the background, is drawn on screen line `y`:
/// bit 5 of the LCD control register enables it, and the line is at or below
/// its top edge, which is on the screen.
pub open spec fn window_shows(memory: Memory, y: int) -> bool {
    memory.io_registers[0x40] & 0b0010_0000 == 0b0010_0000 && memory.lcd.wx <= 166
        && memory.lcd.wy <= 143 && y >= memory.lcd.wy
}

/// Whether a sprite is left out: its bottom edge is above the screen. A
/// sprite is 8 lines high while bit 2 of the LCD control register is clear.
pub open spec fn sprite_hidden(sprite: SpriteAttribute, lcdc: u8) -> bool {
    sprite.y == 0 || (lcdc & 0b0000_0100 == 0 && sprite.y <= 8)
}

/// The palette register of a sprite: 0xFF48 or 0xFF49, as an index into the
/// I/O registers.
pub open spec fn sprite_palette_register(sprite: SpriteAttribute) -> int {
    if sprite.palette == 0 {
        0x48
    } else {
        0x49
    }
}

/// The shade of the pixel that a sprite shows in row `row` and column `col`
/// of its square, with its flips applied.
pub open spec fn sprite_shade(
    tile: Seq<u8>,
    sprite: SpriteAttribute,
    register: u8,
    row: int,
    col: int,
) -> int {
    sprite_palette_shade(
        register,
        color_id(
            tile,
            if sprite.y_flip {
                7 - row
            } else {
                row
            },
            if sprite.x_flip {
                7 - col
            } else {
                col
            },
        ),
    )
}

/// Reads the four shades of the background palette out of its register.
pub fn background_palette(register: u8) -> (values: [u8; 4])
    ensures
        forall|color: int| 0 <= color < 4 ==> values[color] == palette_shade(register, color),
        forall|color: int| 0 <= color < 4 ==> values[color] <= 3,
{
    let palette_bits = get_as_bits(register);
    [
        2 * palette_bits[6] + palette_bits[7],
        2 * palette_bits[4] + palette_bits[5],
        2 * palette_bits[2] + palette_bits[3],
        2 * palette_bits[0] + palette_bits[1],
    ]
}

/// Reads the shades of a sprite palette out of its register. The lowest two
/// bits are ignored, since colour 0 is transparent.
pub fn sprite_palette(register: u8) -> (values: [u8; 4])
    ensures
        forall|color: int|
            0 <= color < 4 ==> values[color] == sprite_palette_shade(register, color),
        forall|color: int| 0 <= color < 4 ==> values[color] <= 3,
{
    let palette_bits = get_as_bits(register);
    [
        0,
        2 * palette_bits[4] + palette_bits[5],
        2 * palette_bits[2] + palette_bits[3],
        2 * palette_bits[0] + palette_bits[1],
    ]
}

impl Default for ColorRects {
    fn default() -> (r: ColorRects)
        ensures
            forall|shade: int| 0 <= shade < 4 ==> r.shade(shade).len() == 0,
            r.transparent_rects@.len() == 0,
    {
        ColorRects {
            color0_rects: Vec::new(),
            color1_rects: Vec::new(),
            color2_rects: Vec::new(),
            color3_rects: Vec::new(),
            transparent_rects: Vec::new(),
        }
    }
}

impl ColorRects {
    /// The rectangles of one shade, in the order in which they were added.
    pub open spec fn shade(self, shade: int) -> Seq<Rect> {
        if shade == 0 {
            self.color0_rects@
        } else if shade == 1 {
            self.color1_rects@
        } else if shade == 2 {
            self.color2_rects@
        } else {
            self.color3_rects@
        }
    }

    fn add(&mut self, palette: u8, rect: Rect)
        ensures
            forall|shade: int|
                0 <= shade < 4 ==> #[trigger] final(self).shade(shade) == if shade == shade_of(
                    palette,
                ) {
                    old(self).shade(shade).push(rect)
                } else {
                    old(self).shade(shade)
                },
            final(self).transparent_rects@ == old(self).transparent_rects@,
    {
        if palette == 0 {
            self.color0_rects.push(rect);
        } else if palette == 1 {
            self.color1_rects.push(rect);
        } else if palette == 2 {
            self.color2_rects.push(rect);
        } else {
            self.color3_rects.push(rect);
        }
    }
}

impl Ppu {
    /// Whether the screen pixels of the console pixels from column `left`
    /// to column `right` of line `line` can be addressed.
    pub open spec fn reaches(self, left: int, right: int, line: int) -> bool {
        &&& self.pixel_width <= i32::MAX
        &&& self.pixel_height <= i32::MAX
        &&& i32::MIN <= left <= right <= i32::MAX
        &&& i32::MIN <= left * self.pixel_width
        &&& right * self.pixel_width <= i32::MAX
        &&& i32::MIN <= line * self.pixel_height <= i32::MAX
    }

    /// The rectangle on the screen of the console pixel in column `x` of
    /// line `line`.
    pub open spec fn pixel_rect(self, x: int, line: int) -> Rect {
        Rect::clamped(
            x * self.pixel_width,
            line * self.pixel_height,
            self.pixel_width as int,
            self.pixel_height as int,
        )
    }

    /// The rectangles of shade `shade` among the first `count` pixels of the
    /// row of `tile` that line `line + y_offset` falls on, from left to
    /// right; the tile starts at column `tile_start`.
    pub open spec fn tile_rects(
        self,
        tile: Seq<u8>,
        tile_start: int,
        line: int,
        y_offset: int,
        color_values: Seq<u8>,
        shade: int,
        count: int,
    ) -> Seq<Rect>
        decreases count,
    {
        if count <= 0 {
            Seq::empty()
        } else {
            let before = self.tile_rects(
                tile,
                tile_start,
                line,
                y_offset,
                color_values,
                shade,
                count - 1,
            );
            if shade_at(tile, (line + y_offset) % 8, count - 1, color_values) == shade {
                before.push(self.pixel_rect(tile_start + count - 1, line))
            } else {
                before
            }
        }
    }

    /// The rectangles of shade `shade` of the first `tiles` background tiles
    /// of screen line `y`, from left to right.
    pub open spec fn scanline_rects(
        self,
        memory: Memory,
        y: int,
        tilemap: [[u8; 32]; 32],
        color_values: Seq<u8>,
        shade: int,
        tiles: int,
    ) -> Seq<Rect>
        decreases tiles,
    {
        if tiles <= 0 {
            Seq::empty()
        } else {
            let x = tiles - 1;
            let address = tile_address(
                TileType::Background,
                background_tile(tilemap, memory.lcd.scy, memory.lcd.scx, y, x),
                memory.io_registers[0x40],
            );
            self.scanline_rects(memory, y, tilemap, color_values, shade, x) + self.tile_rects(
                memory.vram@.subrange(address, address + 16),
                8 * x - memory.lcd.scx % 8,
                y,
                (memory.lcd.scy % 8) as int,
                color_values,
                shade,
                8,
            )
        }
    }

    /// The rectangles of shade `shade` of the first `tiles` window tiles of
    /// screen line `y`, from left to right.
    pub open spec fn window_scanline_rects(
        self,
        memory: Memory,
        y: int,
        tilemap: [[u8; 32]; 32],
        color_values: Seq<u8>,
        shade: int,
        tiles: int,
    ) -> Seq<Rect>
        decreases tiles,
    {
        if tiles <= 0 {
            Seq::empty()
        } else {
            let x = tiles - 1;
            let address = tile_address(
                TileType::Window,
                window_tile(tilemap, memory.lcd.wy, y, x),
                memory.io_registers[0x40],
            );
            self.window_scanline_rects(memory, y, tilemap, color_values, shade, x)
                + self.tile_rects(
                memory.vram@.subrange(address, address + 16),
                8 * x,
                y,
                0,
                color_values,
                shade,
                8,
            )
        }
    }

    /// Whether every console pixel that a frame can touch can be addressed on
    /// the screen: the lines of the screen with the eight spare ones, and
    /// the squares of the sprites, which reach beyond the screen on every
    /// side.
    pub open spec fn covers_screen(self) -> bool {
        254 * self.pixel_width <= i32::MAX && 246 * self.pixel_height <= i32::MAX
    }

    /// The rectangles of shade `shade` of the first `lines` screen lines:
    /// on each line the window where it shows, and the background otherwise.
    pub open spec fn lines_rects(
        self,
        memory: Memory,
        tilemap: [[u8; 32]; 32],
        window_tilemap: [[u8; 32]; 32],
        color_values: Seq<u8>,
        shade: int,
        lines: int,
    ) -> Seq<Rect>
        decreases lines,
    {
        if lines <= 0 {
            Seq::empty()
        } else {
            let y = lines - 1;
            self.lines_rects(memory, tilemap, window_tilemap, color_values, shade, y) + if window_shows(
                memory,
                y,
            ) {
                self.window_scanline_rects(memory, y, window_tilemap, color_values, shade, 20)
            } else {
                self.scanline_rects(memory, y, tilemap, color_values, shade, 21)
            }
        }
    }

    /// The rectangles of shade `shade` among the first `pixels` pixels of a
    /// sprite, row by row. The square of a sprite starts 8 columns to the
    /// left of and 16 lines above its position. Pixels of shade 0 are not
    /// drawn.
    pub open spec fn sprite_rects(
        self,
        memory: Memory,
        sprite: SpriteAttribute,
        shade: int,
        pixels: int,
    ) -> Seq<Rect>
        decreases pixels,
    {
        if pixels <= 0 {
            Seq::empty()
        } else {
            let row = (pixels - 1) / 8;
            let col = (pixels - 1) % 8;
            let address = tile_address(TileType::Obj, sprite.index, memory.io_registers[0x40]);
            let before = self.sprite_rects(memory, sprite, shade, pixels - 1);
            if shade != 0 && sprite_shade(
                memory.vram@.subrange(address, address + 16),
                sprite,
                memory.io_registers[sprite_palette_register(sprite)],
                row,
                col,
            ) == shade {
                before.push(self.pixel_rect(sprite.x - 8 + col, sprite.y - 16 + row))
            } else {
                before
            }
        }
    }

    /// The rectangles of shade `shade` of the first `count` sprites of the
    /// sprite attribute table, the hidden ones left out.
    pub open spec fn sprites_rects(self, memory: Memory, shade: int, count: int) -> Seq<Rect>
        decreases count,
    {
        if count <= 0 {
            Seq::empty()
        } else {
            let table = memory.sprite_attribute_table;
            let sprite = SpriteAttribute::decode(
                table[4 * (count - 1)],
                table[4 * (count - 1) + 1],
                table[4 * (count - 1) + 2],
                table[4 * (count - 1) + 3],
            );
            self.sprites_rects(memory, shade, count - 1) + if sprite_hidden(
                sprite,
                memory.io_registers[0x40],
            ) {
                Seq::empty()
            } else {
                self.sprite_rects(memory, sprite, shade, 64)
            }
        }
    }

    /// The rectangles of shade `shade` of a whole frame: the 152 lines of
    /// background and window first, the sprites on top of them.
    pub open spec fn frame_rects(self, memory: Memory, shade: int) -> Seq<Rect> {
        self.lines_rects(
            memory,
            memory.background_map(),
            memory.window_map(),
            Seq::new(4, |color: int| palette_shade(memory.io_registers[0x47], color) as u8),
            shade,
            152,
        ) + self.sprites_rects(memory, shade, 40)
    }

    /// Where a frame can be addressed, so can each of its lines and sprites.
    proof fn lemma_covers(self, left: int, right: int, line: int)
        requires
            self.covers_screen(),
            -8 <= left <= right <= 254,
            -16 <= line <= 246,
        ensures
            self.reaches(left, right, line),
    {
        assert(-8 * self.pixel_width <= left * self.pixel_width && right * self.pixel_width <= 254
            * self.pixel_width && -16 * self.pixel_height <= line * self.pixel_height && line
            * self.pixel_height <= 246 * self.pixel_height) by (nonlinear_arith)
            requires
                -8 <= left <= right <= 254,
                -16 <= line <= 246,
                0 <= self.pixel_width,
                0 <= self.pixel_height,
        ;
    }

    /// Adds the rectangles of the 152 lines of background and window to the
    /// lists of their shades.
    pub fn render_lines(
        &self,
        memory: &Memory,
        tilemap: &[[u8; 32]; 32],
        window_tilemap: &[[u8; 32]; 32],
        color_values: &[u8; 4],
        color_rects: &mut ColorRects,
    )
        requires
            self.covers_screen(),
        ensures
            forall|shade: int|
                0 <= shade < 4 ==> #[trigger] final(color_rects).shade(shade) == old(
                    color_rects,
                ).shade(shade) + self.lines_rects(
                    *memory,
                    *tilemap,
                    *window_tilemap,
                    color_values@,
                    shade,
                    152,
                ),
            final(color_rects).transparent_rects@ == old(color_rects).transparent_rects@,
    {
        let mut y: usize = 0;
        assert forall|shade: int| 0 <= shade < 4 implies #[trigger] color_rects.shade(shade)
            =~= old(color_rects).shade(shade) + self.lines_rects(
            *memory,
            *tilemap,
            *window_tilemap,
            color_values@,
            shade,
            0,
        ) by {}
        // Eight lines more than the screen is high, so that tiles that are
        // partly off the screen are covered
        while y < 144 + 8
            invariant
                y <= 152,
                self.covers_screen(),
                forall|shade: int|
                    0 <= shade < 4 ==> #[trigger] color_rects.shade(shade) == old(
                        color_rects,
                    ).shade(shade) + self.lines_rects(
                        *memory,
                        *tilemap,
                        *window_tilemap,
                        color_values@,
                        shade,
                        y as int,
                    ),
                color_rects.transparent_rects@ == old(color_rects).transparent_rects@,
            decreases 152 - y,
        {
            let ghost before = *color_rects;
            proof {
                self.lemma_covers(-7, 167, y as int);
                self.lemma_covers(0, 159, y as int);
            }
            // The window is drawn only where it is enabled and on the screen
            let window = memory.io_registers[0x40] & 0b0010_0000 == 0b0010_0000 && memory.lcd.wx
                <= 166 && memory.lcd.wy <= 143 && y >= memory.lcd.wy as usize;
            if window {
                self.render_window_scanline(memory, y, window_tilemap, color_values, color_rects);
            } else {
                self.render_scanline(memory, y, tilemap, color_values, color_rects);
            }
            assert forall|shade: int| 0 <= shade < 4 implies #[trigger] color_rects.shade(shade)
                == old(color_rects).shade(shade) + self.lines_rects(
                *memory,
                *tilemap,
                *window_tilemap,
                color_values@,
                shade,
                y + 1,
            ) by {
                let earlier = self.lines_rects(
                    *memory,
                    *tilemap,
                    *window_tilemap,
                    color_values@,
                    shade,
                    y as int,
                );
                let added = if window_shows(*memory, y as int) {
                    self.window_scanline_rects(
                        *memory,
                        y as int,
                        *window_tilemap,
                        color_values@,
                        shade,
                        20,
                    )
                } else {
                    self.scanline_rects(*memory, y as int, *tilemap, color_values@, shade, 21)
                };
                assert(before.shade(shade) == old(color_rects).shade(shade) + earlier);
                assert(color_rects.shade(shade) == before.shade(shade) + added);
                assert((old(color_rects).shade(shade) + earlier) + added =~= old(
                    color_rects,
                ).shade(shade) + (earlier + added));
            }
            y += 1;
        }
    }

    /// Adds the rectangles of the 64 pixels of one sprite to the lists of
    /// their shades.
    pub fn render_sprite(
        &self,
        memory: &Memory,
        sprite: &SpriteAttribute,
        color_rects: &mut ColorRects,
    )
        requires
            self.covers_screen(),
        ensures
            forall|shade: int|
                0 <= shade < 4 ==> #[trigger] final(color_rects).shade(shade) == old(
                    color_rects,
                ).shade(shade) + self.sprite_rects(*memory, *sprite, shade, 64),
            final(color_rects).transparent_rects@ == old(color_rects).transparent_rects@,
    {
        let tile = memory.vram_read_tile(TileType::Obj, sprite.index);
        let ghost address = tile_address(TileType::Obj, sprite.index, memory.io_registers[0x40]);
        let ghost tile_bytes = memory.vram@.subrange(address, address + 16);
        assert(tile.tile@ =~= tile_bytes);

        let x_pos: i32 = sprite.x as i32 - 8;
        let y_pos: i32 = sprite.y as i32 - 16;
        let colors = tile.get_color_ids_from_tile();
        let palette_reg: usize = if sprite.palette == 0 {
            0x48
        } else {
            0x49
        };
        let color_values = sprite_palette(memory.io_registers[palette_reg]);

        let mut row: usize = 0;
        assert forall|shade: int| 0 <= shade < 4 implies #[trigger] color_rects.shade(shade)
            =~= old(color_rects).shade(shade) + self.sprite_rects(*memory, *sprite, shade, 0) by {}
        while row < 8
            invariant
                row <= 8,
                self.covers_screen(),
                x_pos == sprite.x - 8,
                y_pos == sprite.y - 16,
                tile_bytes == memory.vram@.subrange(address, address + 16),
                address == tile_address(TileType::Obj, sprite.index, memory.io_registers[0x40]),
                palette_reg == sprite_palette_register(*sprite),
                forall|r: int, c: int|
                    0 <= r < 8 && 0 <= c < 8 ==> #[trigger] colors[r][c] == color_id(
                        tile_bytes,
                        r,
                        c,
                    ),
                forall|r: int, c: int| 0 <= r < 8 && 0 <= c < 8 ==> #[trigger] colors[r][c] <= 3,
                forall|color: int|
                    0 <= color < 4 ==> color_values[color] == sprite_palette_shade(
                        memory.io_registers[palette_reg as int],
                        color,
                    ),
                forall|color: int| 0 <= color < 4 ==> color_values[color] <= 3,
                forall|shade: int|
                    0 <= shade < 4 ==> #[trigger] color_rects.shade(shade) == old(
                        color_rects,
                    ).shade(shade) + self.sprite_rects(*memory, *sprite, shade, 8 * row),
                color_rects.transparent_rects@ == old(color_rects).transparent_rects@,
            decreases 8 - row,
        {
            let mut col: usize = 0;
            while col < 8
                invariant
                    col <= 8,
                    row < 8,
                    self.covers_screen(),
                    x_pos == sprite.x - 8,
                    y_pos == sprite.y - 16,
                    tile_bytes == memory.vram@.subrange(address, address + 16),
                    address == tile_address(
                        TileType::Obj,
                        sprite.index,
                        memory.io_registers[0x40],
                    ),
                    palette_reg == sprite_palette_register(*sprite),
                    forall|r: int, c: int|
                        0 <= r < 8 && 0 <= c < 8 ==> #[trigger] colors[r][c] == color_id(
                            tile_bytes,
                            r,
                            c,
                        ),
                    forall|r: int, c: int|
                        0 <= r < 8 && 0 <= c < 8 ==> #[trigger] colors[r][c] <= 3,
                    forall|color: int|
                        0 <= color < 4 ==> color_values[color] == sprite_palette_shade(
                            memory.io_registers[palette_reg as int],
                            color,
                        ),
                    forall|color: int| 0 <= color < 4 ==> color_values[color] <= 3,
                    forall|shade: int|
                        0 <= shade < 4 ==> #[trigger] color_rects.shade(shade) == old(
                            color_rects,
                        ).shade(shade) + self.sprite_rects(
                            *memory,
                            *sprite,
                            shade,
                            8 * row + col,
                        ),
                    color_rects.transparent_rects@ == old(color_rects).transparent_rects@,
                decreases 8 - col,
            {
                let ghost before = *color_rects;
                let ghost pixels = 8 * row + col + 1;
                proof {
                    self.lemma_covers(x_pos + col, x_pos + col, y_pos + row);
                    assert((pixels - 1) / 8 == row && (pixels - 1) % 8 == col);
                }
                let source_row: usize = if sprite.y_flip {
                    7 - row
                } else {
                    row
                };
                let source_col: usize = if sprite.x_flip {
                    7 - col
                } else {
                    col
                };
                let rect = Rect::new(
                    (x_pos + col as i32) * self.pixel_width as i32,
                    (y_pos + row as i32) * self.pixel_height as i32,
                    self.pixel_width,
                    self.pixel_height,
                );
                let palette = color_values[colors[source_row][source_col] as usize];
                assert(palette == sprite_shade(
                    tile_bytes,
                    *sprite,
                    memory.io_registers[palette_reg as int],
                    row as int,
                    col as int,
                ));
                if palette != 0 {
                    color_rects.add(palette, rect);
                }
                assert forall|shade: int| 0 <= shade < 4 implies #[trigger] color_rects.shade(
                    shade,
                ) == old(color_rects).shade(shade) + self.sprite_rects(
                    *memory,
                    *sprite,
                    shade,
                    pixels,
                ) by {
                    let earlier = self.sprite_rects(*memory, *sprite, shade, pixels - 1);
                    let drawn = shade != 0 && palette == shade;
                    assert(before.shade(shade) == old(color_rects).shade(shade) + earlier);
                    assert(rect == self.pixel_rect(sprite.x - 8 + col, sprite.y - 16 + row));
                    assert(palette <= 3 && (palette != 0 ==> shade_of(palette) == palette));
                    assert(self.sprite_rects(*memory, *sprite, shade, pixels) == if drawn {
                        earlier.push(rect)
                    } else {
                        earlier
                    });
                    assert(color_rects.shade(shade) == if drawn {
                        before.shade(shade).push(rect)
                    } else {
                        before.shade(shade)
                    });
                    assert((old(color_rects).shade(shade) + earlier).push(rect) =~= old(
                        color_rects,
                    ).shade(shade) + earlier.push(rect));
                }
                col += 1;
            }
            row += 1;
        }
    }

    /// Adds the rectangles of the forty sprites to the lists of their
    /// shades, the hidden sprites left out.
    pub fn render_sprites(&self, memory: &Memory, color_rects: &mut ColorRects)
        requires
            self.covers_screen(),
        ensures
            forall|shade: int|
                0 <= shade < 4 ==> #[trigger] final(color_rects).shade(shade) == old(
                    color_rects,
                ).shade(shade) + self.sprites_rects(*memory, shade, 40),
            final(color_rects).transparent_rects@ == old(color_rects).transparent_rects@,
    {
        let sprites = memory.read_oam();
        let mut index: usize = 0;
        assert forall|shade: int| 0 <= shade < 4 implies #[trigger] color_rects.shade(shade)
            =~= old(color_rects).shade(shade) + self.sprites_rects(*memory, shade, 0) by {}
        while index < 40
            invariant
                index <= 40,
                self.covers_screen(),
                sprites@.len() == 40,
                forall|k: int|
                    0 <= k < 40 ==> #[trigger] sprites@[k] == SpriteAttribute::decode(
                        memory.sprite_attribute_table[4 * k],
                        memory.sprite_attribute_table[4 * k + 1],
                        memory.sprite_attribute_table[4 * k + 2],
                        memory.sprite_attribute_table[4 * k + 3],
                    ),
                forall|shade: int|
                    0 <= shade < 4 ==> #[trigger] color_rects.shade(shade) == old(
                        color_rects,
                    ).shade(shade) + self.sprites_rects(*memory, shade, index as int),
                color_rects.transparent_rects@ == old(color_rects).transparent_rects@,
            decreases 40 - index,
        {
            let ghost before = *color_rects;
            let sprite = &sprites[index];
            // With bit 2 of the LCD control register clear the sprites are
            // 8 lines high
            let hidden = sprite.y == 0 || (memory.io_registers[0x40] & 0b0000_0100 == 0
                && sprite.y <= 8);
            if !hidden {
                self.render_sprite(memory, sprite, color_rects);
            }
            assert forall|shade: int| 0 <= shade < 4 implies #[trigger] color_rects.shade(shade)
                == old(color_rects).shade(shade) + self.sprites_rects(
                *memory,
                shade,
                index + 1,
            ) by {
                let earlier = self.sprites_rects(*memory, shade, index as int);
                let added = if sprite_hidden(*sprite, memory.io_registers[0x40]) {
                    Seq::<Rect>::empty()
                } else {
                    self.sprite_rects(*memory, *sprite, shade, 64)
                };
                assert(sprites@[index as int] == *sprite);
                assert(before.shade(shade) == old(color_rects).shade(shade) + earlier);
                assert(color_rects.shade(shade) =~= before.shade(shade) + added);
                assert((old(color_rects).shade(shade) + earlier) + added =~= old(
                    color_rects,
                ).shade(shade) + (earlier + added));
            }
            index += 1;
        }
    }

    /// Draws a whole frame: the rectangles to fill for each of the four
    /// shades, those of the background and the window first, those of the
    /// sprites after them.
    pub fn render_frame(&self, memory: &Memory) -> (color_rects: ColorRects)
        requires
            self.covers_screen(),
        ensures
            forall|shade: int|
                0 <= shade < 4 ==> #[trigger] color_rects.shade(shade) == self.frame_rects(
                    *memory,
                    shade,
                ),
            color_rects.transparent_rects@.len() == 0,
    {
        let tilemap = memory.read_bg_tile_map();
        let window_tilemap = memory.read_window_tile_map();
        let color_values = background_palette(memory.io_registers[0x47]);
        let mut color_rects = ColorRects::default();
        assert(color_values@ =~= Seq::new(
            4,
            |color: int| palette_shade(memory.io_registers[0x47], color) as u8,
        ));
        let ghost empty = color_rects;
        self.render_lines(memory, &tilemap, &window_tilemap, &color_values, &mut color_rects);
        let ghost lines = color_rects;
        self.render_sprites(memory, &mut color_rects);
        assert forall|shade: int| 0 <= shade < 4 implies #[trigger] color_rects.shade(shade)
            == self.frame_rects(*memory, shade) by {
            let drawn = self.lines_rects(
                *memory,
                tilemap,
                window_tilemap,
                color_values@,
                shade,
                152,
            );
            assert(empty.shade(shade) =~= Seq::<Rect>::empty());
            assert(lines.shade(shade) =~= drawn);
        }
        color_rects
    }


    /// Console pixels between two columns that can be addressed lie between
    /// columns that can be addressed.
    proof fn lemma_reaches_between(self, left: int, right: int, line: int, from: int, to: int)
        requires
            self.reaches(left, right, line),
            left <= from <= to <= right,
        ensures
            self.reaches(from, to, line),
    {
        assert(left * self.pixel_width <= from * self.pixel_width && to * self.pixel_width
            <= right * self.pixel_width) by (nonlinear_arith)
            requires
                left <= from <= to <= right,
                0 <= self.pixel_width,
        ;
    }

    /// Adds the rectangles of screen line `y` of the background to the
    /// lists of their shades: twenty-one tiles, one more than the screen is
    /// wide, so that a scrolled line is covered.
    pub fn render_scanline(
        &self,
        memory: &Memory,
        y: usize,
        tilemap: &[[u8; 32]; 32],
        color_values: &[u8; 4],
        color_rects: &mut ColorRects,
    )
        requires
            y + 7 <= i32::MAX,
            self.reaches(-7, 167, y as int),
        ensures
            forall|shade: int|
                0 <= shade < 4 ==> #[trigger] final(color_rects).shade(shade) == old(
                    color_rects,
                ).shade(shade) + self.scanline_rects(
                    *memory,
                    y as int,
                    *tilemap,
                    color_values@,
                    shade,
                    21,
                ),
            final(color_rects).transparent_rects@ == old(color_rects).transparent_rects@,
    {
        let mut x: usize = 0;
        assert forall|shade: int| 0 <= shade < 4 implies #[trigger] color_rects.shade(shade)
            =~= old(color_rects).shade(shade) + self.scanline_rects(
            *memory,
            y as int,
            *tilemap,
            color_values@,
            shade,
            0,
        ) by {}
        // Render an extra tile for smooth scrolling
        while x < 21
            invariant
                x <= 21,
                y + 7 <= i32::MAX,
                self.reaches(-7, 167, y as int),
                forall|shade: int|
                    0 <= shade < 4 ==> #[trigger] color_rects.shade(shade) == old(
                        color_rects,
                    ).shade(shade) + self.scanline_rects(
                        *memory,
                        y as int,
                        *tilemap,
                        color_values@,
                        shade,
                        x as int,
                    ),
                color_rects.transparent_rects@ == old(color_rects).transparent_rects@,
            decreases 21 - x,
        {
            let ghost before = *color_rects;
            let index = tilemap[((memory.lcd.scy as usize + y) / 8) % 32][((
            memory.lcd.scx as usize + (8 * x)) / 8) % 32];
            let tile = memory.vram_read_tile(TileType::Background, index);

            let x_pos: i32 = x as i32 * 8;
            let x_offset: i32 = (memory.lcd.scx % 8) as i32;
            let y_offset: i32 = (memory.lcd.scy % 8) as i32;
            let ghost address = tile_address(
                TileType::Background,
                index,
                memory.io_registers[0x40],
            );
            assert(tile.tile@ =~= memory.vram@.subrange(address, address + 16));
            proof {
                self.lemma_reaches_between(
                    -7,
                    167,
                    y as int,
                    x_pos - x_offset,
                    x_pos - x_offset + 7,
                );
            }
            self.get_rects_for_tile(
                tile,
                x_pos - x_offset,
                y as i32,
                y_offset,
                color_values,
                color_rects,
            );
            assert forall|shade: int| 0 <= shade < 4 implies #[trigger] color_rects.shade(shade)
                == old(color_rects).shade(shade) + self.scanline_rects(
                *memory,
                y as int,
                *tilemap,
                color_values@,
                shade,
                x + 1,
            ) by {
                let earlier = self.scanline_rects(
                    *memory,
                    y as int,
                    *tilemap,
                    color_values@,
                    shade,
                    x as int,
                );
                let added = self.tile_rects(
                    memory.vram@.subrange(address, address + 16),
                    8 * x - memory.lcd.scx % 8,
                    y as int,
                    (memory.lcd.scy % 8) as int,
                    color_values@,
                    shade,
                    8,
                );
                assert(before.shade(shade) == old(color_rects).shade(shade) + earlier);
                assert(color_rects.shade(shade) == before.shade(shade) + added);
                assert((old(color_rects).shade(shade) + earlier) + added =~= old(
                    color_rects,
                ).shade(shade) + (earlier + added));
            }
            x += 1;
        }
    }

    /// Adds the rectangles of screen line `y` of the window to the lists of
    /// their shades: twenty tiles from the left edge on.
    pub fn render_window_scanline(
        &self,
        memory: &Memory,
        y: usize,
        tilemap: &[[u8; 32]; 32],
        color_values: &[u8; 4],
        color_rects: &mut ColorRects,
    )
        requires
            y <= i32::MAX,
            self.reaches(0, 159, y as int),
        ensures
            forall|shade: int|
                0 <= shade < 4 ==> #[trigger] final(color_rects).shade(shade) == old(
                    color_rects,
                ).shade(shade) + self.window_scanline_rects(
                    *memory,
                    y as int,
                    *tilemap,
                    color_values@,
                    shade,
                    20,
                ),
            final(color_rects).transparent_rects@ == old(color_rects).transparent_rects@,
    {
        let y_tile_index: usize = if y >= memory.lcd.wy as usize {
            y - memory.lcd.wy as usize
        } else {
            0
        };
        let mut x: usize = 0;
        assert forall|shade: int| 0 <= shade < 4 implies #[trigger] color_rects.shade(shade)
            =~= old(color_rects).shade(shade) + self.window_scanline_rects(
            *memory,
            y as int,
            *tilemap,
            color_values@,
            shade,
            0,
        ) by {}
        while x < 20
            invariant
                x <= 20,
                y <= i32::MAX,
                y_tile_index == if y >= memory.lcd.wy {
                    y - memory.lcd.wy
                } else {
                    0
                },
                self.reaches(0, 159, y as int),
                forall|shade: int|
                    0 <= shade < 4 ==> #[trigger] color_rects.shade(shade) == old(
                        color_rects,
                    ).shade(shade) + self.window_scanline_rects(
                        *memory,
                        y as int,
                        *tilemap,
                        color_values@,
                        shade,
                        x as int,
                    ),
                color_rects.transparent_rects@ == old(color_rects).transparent_rects@,
            decreases 20 - x,
        {
            let ghost before = *color_rects;
            let index = tilemap[(y_tile_index / 8) % 32][(x / 8) % 32];
            let tile = memory.vram_read_tile(TileType::Window, index);

            let x_pos: i32 = x as i32 * 8;
            let ghost address = tile_address(TileType::Window, index, memory.io_registers[0x40]);
            assert(tile.tile@ =~= memory.vram@.subrange(address, address + 16));
            proof {
                self.lemma_reaches_between(0, 159, y as int, x_pos as int, x_pos + 7);
            }
            self.get_rects_for_tile(tile, x_pos, y as i32, 0, color_values, color_rects);
            assert forall|shade: int| 0 <= shade < 4 implies #[trigger] color_rects.shade(shade)
                == old(color_rects).shade(shade) + self.window_scanline_rects(
                *memory,
                y as int,
                *tilemap,
                color_values@,
                shade,
                x + 1,
            ) by {
                let earlier = self.window_scanline_rects(
                    *memory,
                    y as int,
                    *tilemap,
                    color_values@,
                    shade,
                    x as int,
                );
                let added = self.tile_rects(
                    memory.vram@.subrange(address, address + 16),
                    8 * x,
                    y as int,
                    0,
                    color_values@,
                    shade,
                    8,
                );
                assert(before.shade(shade) == old(color_rects).shade(shade) + earlier);
                assert(color_rects.shade(shade) == before.shade(shade) + added);
                assert((old(color_rects).shade(shade) + earlier) + added =~= old(
                    color_rects,
                ).shade(shade) + (earlier + added));
            }
            x += 1;
        }
    }

    /// Adds the rectangles of one row of a tile to the lists of their
    /// shades: the row that line `line + y_offset` falls on, drawn on line
    /// `line` from column `tile_start` on.
    pub fn get_rects_for_tile(
        &self,
        tile: TileInfo,
        tile_start: i32,
        line: i32,
        y_offset: i32,
        color_values: &[u8; 4],
        color_rects: &mut ColorRects,
    )
        requires
            self.reaches(tile_start as int, tile_start + 7, line as int),
            i32::MIN <= line + y_offset <= i32::MAX,
        ensures
            forall|shade: int|
                0 <= shade < 4 ==> #[trigger] final(color_rects).shade(shade) == old(
                    color_rects,
                ).shade(shade) + self.tile_rects(
                    tile.tile@,
                    tile_start as int,
                    line as int,
                    y_offset as int,
                    color_values@,
                    shade,
                    8,
                ),
            final(color_rects).transparent_rects@ == old(color_rects).transparent_rects@,
    {
        let ghost tile_bytes = tile.tile@;
        let line_colors = get_row_from_tile(tile, line + y_offset);
        let mut col: usize = 0;
        assert forall|shade: int| 0 <= shade < 4 implies #[trigger] color_rects.shade(shade)
            =~= old(color_rects).shade(shade) + self.tile_rects(
            tile_bytes,
            tile_start as int,
            line as int,
            y_offset as int,
            color_values@,
            shade,
            0,
        ) by {}
        while col < 8
            invariant
                col <= 8,
                self.reaches(tile_start as int, tile_start + 7, line as int),
                forall|c: int|
                    0 <= c < 8 ==> #[trigger] line_colors[c] == color_id(
                        tile_bytes,
                        (line + y_offset) % 8,
                        c,
                    ),
                forall|c: int| 0 <= c < 8 ==> #[trigger] line_colors[c] <= 3,
                forall|shade: int|
                    0 <= shade < 4 ==> #[trigger] color_rects.shade(shade) == old(
                        color_rects,
                    ).shade(shade) + self.tile_rects(
                        tile_bytes,
                        tile_start as int,
                        line as int,
                        y_offset as int,
                        color_values@,
                        shade,
                        col as int,
                    ),
                color_rects.transparent_rects@ == old(color_rects).transparent_rects@,
            decreases 8 - col,
        {
            let ghost before = *color_rects;
            let x: i32 = tile_start + col as i32;
            assert(i32::MIN <= x * self.pixel_width <= i32::MAX) by (nonlinear_arith)
                requires
                    tile_start <= x <= tile_start + 7,
                    0 <= self.pixel_width,
                    i32::MIN <= tile_start * self.pixel_width,
                    (tile_start + 7) * self.pixel_width <= i32::MAX,
            ;
            let rect = Rect::new(
                x * self.pixel_width as i32,
                line * self.pixel_height as i32,
                self.pixel_width,
                self.pixel_height,
            );
            let palette = color_values[line_colors[col] as usize];
            color_rects.add(palette, rect);
            assert forall|shade: int| 0 <= shade < 4 implies #[trigger] color_rects.shade(shade)
                == old(color_rects).shade(shade) + self.tile_rects(
                tile_bytes,
                tile_start as int,
                line as int,
                y_offset as int,
                color_values@,
                shade,
                col + 1,
            ) by {
                let earlier = self.tile_rects(
                    tile_bytes,
                    tile_start as int,
                    line as int,
                    y_offset as int,
                    color_values@,
                    shade,
                    col as int,
                );
                assert(before.shade(shade) == old(color_rects).shade(shade) + earlier);
                assert(rect == self.pixel_rect(tile_start + col, line as int));
                assert(shade_at(tile_bytes, (line + y_offset) % 8, col as int, color_values@)
                    == shade_of(palette));
                assert((old(color_rects).shade(shade) + earlier).push(rect) =~= old(
                    color_rects,
                ).shade(shade) + earlier.push(rect));
            }
            col += 1;
        }
    }
}

/// Returns the colour ids of the row of `tile` that screen line `line`
/// falls on: rows repeat every eight lines, in both directions.
pub fn get_row_from_tile(tile: TileInfo, line: i32) -> (row: [u8; 8])
    ensures
        forall|col: int|
            0 <= col < 8 ==> #[trigger] row[col] == color_id(tile.tile@, (line as int) % 8, col),
        forall|col: int| 0 <= col < 8 ==> #[trigger] row[col] <= 3,
{
    let colors = tile.get_color_ids_from_tile();
    let index: usize = if line >= 0 {
        (line as u32 % 8) as usize
    } else {
        7 - ((-(line + 1)) as u32 % 8) as usize
    };
    colors[index]
}

} // verus!
